//! Decisions of the record → transcribe → post-process → inject pipeline:
//! what a hotkey event triggers, which backend a profile uses, whether the
//! transcript is sent for correction, and which text is finally injected.
//! The recording, network calls, injection and history storage that these
//! decisions drive are carried out by the application around this library.

use vstd::prelude::*;
use std::collections::HashMap;
use crate::config::profile::{HotkeyMode, Profile, TranscriptionBackendId};
use crate::config::provider::LlmProviderConfig;
use crate::error::{AppError, ErrorKind};
use crate::hotkey::{HotkeyEvent, PROMPT_MANAGER_ID};
use crate::ids::{uuid_string, uuid_text};
use crate::llm::prompt::{build_prompt, prompt_system, PostProcPrompt};
use crate::state::{next_state, AppState, Transition};
use crate::text::trim;
use crate::config::profile::is_blank;

verus! {

broadcast use vstd::std_specs::hash::group_hash_axioms;

/// What the pipeline does in answer to a hotkey event.
#[derive(Clone, Copy, Debug, PartialEq, Eq, Structural)]
pub enum Action {
    /// Start recording for this profile.
    StartRecording(u128),
    /// Stop recording and process the audio for this profile.
    StopAndProcess(u128),
    /// Open the prompt-manager quick pick.
    OpenPromptManager,
    /// Nothing to do.
    Nothing,
}

/// An error as its stage and message.
pub open spec fn err_view(e: AppError) -> (ErrorKind, Seq<char>) {
    (e.kind(), e.message())
}

/// Answer to a hotkey event, and the profile that is toggled on afterwards.
/// A press of a push-to-talk profile starts recording; its release stops and
/// processes. A press of a toggle profile starts recording when no profile is
/// toggled on, and otherwise stops and processes the profile that was on.
/// Events of the prompt-manager hotkey are intercepted: its press opens the
/// prompt manager, its release does nothing.
pub open spec fn handle_spec(profiles: Map<u128, Profile>, toggle: Option<u128>, ev: HotkeyEvent) -> (
    Result<Action, (ErrorKind, Seq<char>)>,
    Option<u128>,
) {
    match ev {
        HotkeyEvent::Pressed(pid) => if pid == PROMPT_MANAGER_ID {
            (Ok(Action::OpenPromptManager), toggle)
        } else if !profiles.contains_key(pid) {
            (Err((ErrorKind::Config, "unknown profile "@ + uuid_text(pid))), toggle)
        } else {
            match profiles[pid].hotkey_mode {
                HotkeyMode::PushToTalk => (Ok(Action::StartRecording(pid)), toggle),
                HotkeyMode::Toggle => match toggle {
                    Some(active) => if profiles.contains_key(active) {
                        (Ok(Action::StopAndProcess(active)), None)
                    } else {
                        (Err((ErrorKind::Config, "toggle profile gone"@)), None)
                    },
                    None => (Ok(Action::StartRecording(pid)), Some(pid)),
                },
            }
        },
        HotkeyEvent::Released(pid) => if pid != PROMPT_MANAGER_ID && profiles.contains_key(pid)
            && profiles[pid].hotkey_mode == HotkeyMode::PushToTalk {
            (Ok(Action::StopAndProcess(pid)), toggle)
        } else {
            (Ok(Action::Nothing), toggle)
        },
    }
}

/// Decides what a hotkey event triggers, updating the toggled-on profile.
pub fn decide_event(
    profiles: &HashMap<u128, Profile>,
    toggle_active: &mut Option<u128>,
    ev: HotkeyEvent,
) -> (r: Result<Action, AppError>)
    ensures
        ({
            let (res, t) = handle_spec(profiles@, *old(toggle_active), ev);
            &&& *final(toggle_active) == t
            &&& match r {
                Ok(a) => res == Ok::<Action, (ErrorKind, Seq<char>)>(a),
                Err(e) => res == Err::<Action, (ErrorKind, Seq<char>)>(err_view(e)),
            }
        }),
{
    match ev {
        HotkeyEvent::Pressed(pid) => {
            if pid == PROMPT_MANAGER_ID {
                return Ok(Action::OpenPromptManager);
            }
            let mode = match profiles.get(&pid) {
                Some(p) => p.hotkey_mode,
                None => {
                    let mut msg = "unknown profile ".to_owned();
                    let id = uuid_string(pid);
                    msg.append(id.as_str());
                    return Err(AppError::Config(msg));
                },
            };
            match mode {
                HotkeyMode::PushToTalk => Ok(Action::StartRecording(pid)),
                HotkeyMode::Toggle => {
                    let active_now = toggle_active.take();
                    match active_now {
                        Some(active) => {
                            if profiles.contains_key(&active) {
                                Ok(Action::StopAndProcess(active))
                            } else {
                                Err(AppError::Config("toggle profile gone".to_owned()))
                            }
                        },
                        None => {
                            *toggle_active = Some(pid);
                            Ok(Action::StartRecording(pid))
                        },
                    }
                },
            }
        },
        HotkeyEvent::Released(pid) => {
            if pid == PROMPT_MANAGER_ID {
                return Ok(Action::Nothing);
            }
            match profiles.get(&pid) {
                Some(p) => {
                    if p.hotkey_mode == HotkeyMode::PushToTalk {
                        Ok(Action::StopAndProcess(pid))
                    } else {
                        Ok(Action::Nothing)
                    }
                },
                None => Ok(Action::Nothing),
            }
        },
    }
}

/// Pressing and releasing the hotkey of a push-to-talk profile starts and
/// then stops recording for that profile, whatever is toggled on.
pub proof fn lemma_push_to_talk_press_release(
    profiles: Map<u128, Profile>,
    toggle: Option<u128>,
    pid: u128,
)
    requires
        pid != PROMPT_MANAGER_ID,
        profiles.contains_key(pid),
        profiles[pid].hotkey_mode == HotkeyMode::PushToTalk,
    ensures
        ({
            let (r1, t1) = handle_spec(profiles, toggle, HotkeyEvent::Pressed(pid));
            let (r2, t2) = handle_spec(profiles, t1, HotkeyEvent::Released(pid));
            &&& r1 == Ok::<Action, (ErrorKind, Seq<char>)>(Action::StartRecording(pid))
            &&& r2 == Ok::<Action, (ErrorKind, Seq<char>)>(Action::StopAndProcess(pid))
            &&& t2 == toggle
        }),
{
}

/// Two presses of a toggle profile, with nothing toggled on before, start
/// and then stop recording for that profile, and leave nothing toggled on.
/// Releasing a toggle profile's key does nothing.
pub proof fn lemma_toggle_press_twice(profiles: Map<u128, Profile>, pid: u128)
    requires
        pid != PROMPT_MANAGER_ID,
        profiles.contains_key(pid),
        profiles[pid].hotkey_mode == HotkeyMode::Toggle,
    ensures
        ({
            let (r1, t1) = handle_spec(profiles, None, HotkeyEvent::Pressed(pid));
            let (r2, t2) = handle_spec(profiles, t1, HotkeyEvent::Pressed(pid));
            let (r3, t3) = handle_spec(profiles, t1, HotkeyEvent::Released(pid));
            &&& r1 == Ok::<Action, (ErrorKind, Seq<char>)>(Action::StartRecording(pid))
            &&& t1 == Some(pid)
            &&& r2 == Ok::<Action, (ErrorKind, Seq<char>)>(Action::StopAndProcess(pid))
            &&& t2 is None
            &&& r3 == Ok::<Action, (ErrorKind, Seq<char>)>(Action::Nothing)
            &&& t3 == t1
        }),
{
}

/// While one profile is toggled on, a press of any toggle profile stops and
/// processes the profile that is on.
pub proof fn lemma_toggle_stops_active_profile(
    profiles: Map<u128, Profile>,
    active: u128,
    pid: u128,
)
    requires
        pid != PROMPT_MANAGER_ID,
        profiles.contains_key(pid),
        profiles.contains_key(active),
        profiles[pid].hotkey_mode == HotkeyMode::Toggle,
    ensures
        handle_spec(profiles, Some(active), HotkeyEvent::Pressed(pid)) == (
            Ok::<Action, (ErrorKind, Seq<char>)>(Action::StopAndProcess(active)),
            None::<u128>,
        ),
{
}

/// The prompt-manager hotkey never starts or stops a recording and leaves
/// the toggled-on profile as it is.
pub proof fn lemma_prompt_manager_is_intercepted(
    profiles: Map<u128, Profile>,
    toggle: Option<u128>,
    pressed: bool,
)
    ensures
        ({
            let ev = if pressed {
                HotkeyEvent::Pressed(PROMPT_MANAGER_ID)
            } else {
                HotkeyEvent::Released(PROMPT_MANAGER_ID)
            };
            let (r, t) = handle_spec(profiles, toggle, ev);
            &&& t == toggle
            &&& r == Ok::<Action, (ErrorKind, Seq<char>)>(
                if pressed {
                    Action::OpenPromptManager
                } else {
                    Action::Nothing
                },
            )
        }),
{
}

/// A press of a hotkey that belongs to no profile is a configuration error
/// naming the id, and changes nothing; a release never fails, and only the
/// release of a push-to-talk profile stops a recording.
pub proof fn lemma_unknown_and_release_events(
    profiles: Map<u128, Profile>,
    toggle: Option<u128>,
    pid: u128,
)
    ensures
        pid != PROMPT_MANAGER_ID && !profiles.contains_key(pid) ==> handle_spec(
            profiles,
            toggle,
            HotkeyEvent::Pressed(pid),
        ) == (
            Err::<Action, (ErrorKind, Seq<char>)>(
                (
                    ErrorKind::Config,
                    seq!['u', 'n', 'k', 'n', 'o', 'w', 'n', ' ', 'p', 'r', 'o', 'f', 'i', 'l', 'e', ' ']
                        + uuid_text(pid),
                ),
            ),
            toggle,
        ),
        handle_spec(profiles, toggle, HotkeyEvent::Released(pid)).0 is Ok,
        handle_spec(profiles, toggle, HotkeyEvent::Released(pid)).1 == toggle,
        handle_spec(profiles, toggle, HotkeyEvent::Released(pid)).0 == Ok::<
            Action,
            (ErrorKind, Seq<char>),
        >(Action::StopAndProcess(pid)) <==> (pid != PROMPT_MANAGER_ID && profiles.contains_key(pid)
            && profiles[pid].hotkey_mode == HotkeyMode::PushToTalk),
        handle_spec(profiles, toggle, HotkeyEvent::Released(pid)).0 != Ok::<
            Action,
            (ErrorKind, Seq<char>),
        >(Action::StopAndProcess(pid)) ==> handle_spec(profiles, toggle, HotkeyEvent::Released(pid)).0
            == Ok::<Action, (ErrorKind, Seq<char>)>(Action::Nothing),
{
    reveal_strlit("unknown profile ");
    assert("unknown profile "@ =~= seq![
        'u', 'n', 'k', 'n', 'o', 'w', 'n', ' ', 'p', 'r', 'o', 'f', 'i', 'l', 'e', ' ',
    ]);
}

/// Post-processing is asked for exactly when it is switched on in the
/// profile, the profile names a provider and a model, and that provider is
/// available; a profile with post-processing off never gets a request.
pub proof fn lemma_post_processing_condition<V>(p: Profile, providers: Map<u128, V>)
    ensures
        wants_post_processing(p, providers) <==> (p.post_processing.enabled && match (
            p.post_processing.llm_provider_id,
            p.post_processing.model,
        ) {
            (Some(pid), Some(_)) => providers.contains_key(pid),
            _ => false,
        }),
        !p.post_processing.enabled ==> !wants_post_processing(p, providers),
{
}

/// Which transcription backend serves a recording.
pub enum BackendChoice {
    /// The remote Whisper server.
    Remote,
    /// The local whisper.cpp model.
    Local,
    /// A chat-completion LLM with audio input.
    Llm { base_url: String, api_key: String, model: String },
}

/// `BackendChoice` with its strings as character sequences.
pub enum BackendChoiceView {
    Remote,
    Local,
    Llm { base_url: Seq<char>, api_key: Seq<char>, model: Seq<char> },
}

impl View for BackendChoice {
    type V = BackendChoiceView;

    open spec fn view(&self) -> BackendChoiceView {
        match self {
            BackendChoice::Remote => BackendChoiceView::Remote,
            BackendChoice::Local => BackendChoiceView::Local,
            BackendChoice::Llm { base_url, api_key, model } => BackendChoiceView::Llm {
                base_url: base_url@,
                api_key: api_key@,
                model: model@,
            },
        }
    }
}

/// Message when a profile asks for the local model and none is installed.
pub const LOCAL_MODEL_MISSING: &'static str = "Lokales Whisper-Modell nicht installiert — bitte unter \"Modelle\" herunterladen oder Remote-Backend wählen";

/// Message when an LLM-transcription profile names no provider.
pub const LLM_PROVIDER_UNSET: &'static str = "LLM-Provider im Profil nicht gesetzt";

/// Message when the profile's provider has no API key or is gone.
pub const LLM_PROVIDER_MISSING: &'static str = "LLM-Provider hat keinen API-Key oder wurde gelöscht";

/// Message when neither the profile nor the provider names a model.
pub const LLM_MODEL_MISSING: &'static str = "Kein Modell angegeben";

/// The model for LLM transcription: the profile's own unless it is missing or
/// blank, then the provider's default.
pub open spec fn llm_model_choice(p: Profile, cfg: LlmProviderConfig) -> Seq<char> {
    if p.llm_transcription.model is Some && trim(p.llm_transcription.model->0@).len() != 0 {
        p.llm_transcription.model->0@
    } else {
        cfg.default_model@
    }
}

/// The backend a profile asks for, or why it cannot be had. `remote_available`
/// says whether the remote server answered its probe, `local_available`
/// whether a local model is loaded; `keys` maps provider ids to their
/// configuration and API key. A remote profile falls back to the local model
/// when the server is unreachable and a local model is there.
pub open spec fn backend_spec(
    p: Profile,
    remote_available: bool,
    local_available: bool,
    keys: Map<u128, (LlmProviderConfig, String)>,
) -> Result<BackendChoiceView, (ErrorKind, Seq<char>)> {
    match p.transcription_backend {
        TranscriptionBackendId::RemoteWhisper => if !remote_available && local_available {
            Ok(BackendChoiceView::Local)
        } else {
            Ok(BackendChoiceView::Remote)
        },
        TranscriptionBackendId::LocalWhisper => if local_available {
            Ok(BackendChoiceView::Local)
        } else {
            Err((ErrorKind::Transcription, LOCAL_MODEL_MISSING@))
        },
        TranscriptionBackendId::LlmTranscription => match p.llm_transcription.llm_provider_id {
            None => Err((ErrorKind::Transcription, LLM_PROVIDER_UNSET@)),
            Some(pid) => if !keys.contains_key(pid) {
                Err((ErrorKind::Transcription, LLM_PROVIDER_MISSING@))
            } else {
                let (cfg, key) = keys[pid];
                let model = llm_model_choice(p, cfg);
                if trim(model).len() == 0 {
                    Err((ErrorKind::Transcription, LLM_MODEL_MISSING@))
                } else {
                    Ok(
                        BackendChoiceView::Llm {
                            base_url: cfg.base_url@,
                            api_key: key@,
                            model: model,
                        },
                    )
                }
            },
        },
    }
}

/// Picks the backend the profile asks for. A remote profile whose server is
/// unreachable uses the local model when one is installed. A local profile
/// without an installed model, and an LLM profile without a usable provider
/// or model, get an error that says what is missing.
pub fn backend_for(
    profile: &Profile,
    remote_available: bool,
    local_available: bool,
    keys: &HashMap<u128, (LlmProviderConfig, String)>,
) -> (r: Result<BackendChoice, AppError>)
    ensures
        match r {
            Ok(b) => backend_spec(*profile, remote_available, local_available, keys@) == Ok::<
                BackendChoiceView,
                (ErrorKind, Seq<char>),
            >(b@),
            Err(e) => backend_spec(*profile, remote_available, local_available, keys@) == Err::<
                BackendChoiceView,
                (ErrorKind, Seq<char>),
            >(err_view(e)),
        },
{
    match profile.transcription_backend {
        TranscriptionBackendId::RemoteWhisper => {
            if !remote_available && local_available {
                Ok(BackendChoice::Local)
            } else {
                Ok(BackendChoice::Remote)
            }
        },
        TranscriptionBackendId::LocalWhisper => {
            if local_available {
                Ok(BackendChoice::Local)
            } else {
                Err(AppError::Transcription(LOCAL_MODEL_MISSING.to_owned()))
            }
        },
        TranscriptionBackendId::LlmTranscription => {
            let pid = match profile.llm_transcription.llm_provider_id {
                Some(pid) => pid,
                None => {
                    return Err(AppError::Transcription(LLM_PROVIDER_UNSET.to_owned()));
                },
            };
            let entry = match keys.get(&pid) {
                Some(e) => e,
                None => {
                    return Err(AppError::Transcription(LLM_PROVIDER_MISSING.to_owned()));
                },
            };
            let cfg = &entry.0;
            let key = &entry.1;
            let model = match &profile.llm_transcription.model {
                Some(m) => {
                    if is_blank(m) {
                        cfg.default_model.clone()
                    } else {
                        m.clone()
                    }
                },
                None => cfg.default_model.clone(),
            };
            if is_blank(&model) {
                return Err(AppError::Transcription(LLM_MODEL_MISSING.to_owned()));
            }
            Ok(BackendChoice::Llm { base_url: cfg.base_url.clone(), api_key: key.clone(), model })
        },
    }
}

/// How an LLM-transcription profile gets its backend. Without a provider id
/// it is refused as unset; with a provider that has no key (or is gone) as
/// missing. Otherwise the profile's own model is used whenever it is not
/// blank, with the provider's address and key; a missing or blank own model
/// falls back to the provider's default, and only when that is blank too is
/// the profile refused for want of a model. Reachability of the remote
/// server and the local model play no part.
pub proof fn lemma_llm_backend_choice(
    p: Profile,
    remote_available: bool,
    local_available: bool,
    keys: Map<u128, (LlmProviderConfig, String)>,
)
    requires
        p.transcription_backend == TranscriptionBackendId::LlmTranscription,
    ensures
        ({
            let r = backend_spec(p, remote_available, local_available, keys);
            let own = p.llm_transcription.model;
            let own_usable = own is Some && trim(own->0@).len() != 0;
            match p.llm_transcription.llm_provider_id {
                None => r == Err::<BackendChoiceView, (ErrorKind, Seq<char>)>(
                    (ErrorKind::Transcription, LLM_PROVIDER_UNSET@),
                ),
                Some(pid) => if !keys.contains_key(pid) {
                    r == Err::<BackendChoiceView, (ErrorKind, Seq<char>)>(
                        (ErrorKind::Transcription, LLM_PROVIDER_MISSING@),
                    )
                } else {
                    let cfg = keys[pid].0;
                    let key = keys[pid].1;
                    &&& own_usable ==> r == Ok::<BackendChoiceView, (ErrorKind, Seq<char>)>(
                        BackendChoiceView::Llm {
                            base_url: cfg.base_url@,
                            api_key: key@,
                            model: own->0@,
                        },
                    )
                    &&& !own_usable && trim(cfg.default_model@).len() != 0 ==> r == Ok::<
                        BackendChoiceView,
                        (ErrorKind, Seq<char>),
                    >(
                        BackendChoiceView::Llm {
                            base_url: cfg.base_url@,
                            api_key: key@,
                            model: cfg.default_model@,
                        },
                    )
                    &&& (r == Err::<BackendChoiceView, (ErrorKind, Seq<char>)>(
                        (ErrorKind::Transcription, LLM_MODEL_MISSING@),
                    )) <==> (!own_usable && trim(cfg.default_model@).len() == 0)
                }
            }
        }),
        backend_spec(p, remote_available, local_available, keys) == backend_spec(p, true, true, keys),
{
}

/// A local-model profile gets the local model when one is installed and is
/// refused with the message saying it is missing otherwise.
pub proof fn lemma_local_backend_choice(
    p: Profile,
    remote_available: bool,
    local_available: bool,
    keys: Map<u128, (LlmProviderConfig, String)>,
)
    requires
        p.transcription_backend == TranscriptionBackendId::LocalWhisper,
    ensures
        backend_spec(p, remote_available, local_available, keys) == if local_available {
            Ok::<BackendChoiceView, (ErrorKind, Seq<char>)>(BackendChoiceView::Local)
        } else {
            Err::<BackendChoiceView, (ErrorKind, Seq<char>)>(
                (ErrorKind::Transcription, LOCAL_MODEL_MISSING@),
            )
        },
{
}

/// Whether the remote server has to be probed before choosing the backend:
/// only a remote profile with a local model to fall back on depends on the
/// answer.
pub fn needs_remote_probe(profile: &Profile, local_available: bool) -> (r: bool)
    ensures
        r == (profile.transcription_backend == TranscriptionBackendId::RemoteWhisper
            && local_available),
{
    profile.transcription_backend == TranscriptionBackendId::RemoteWhisper && local_available
}

/// When no probe is needed, the server's reachability does not change the
/// backend choice.
pub proof fn lemma_probe_only_when_needed(
    p: Profile,
    local_available: bool,
    keys: Map<u128, (LlmProviderConfig, String)>,
)
    requires
        !(p.transcription_backend == TranscriptionBackendId::RemoteWhisper && local_available),
    ensures
        backend_spec(p, true, local_available, keys) == backend_spec(p, false, local_available, keys),
{
}

/// A remote profile whose server is unreachable falls back to the installed
/// local model; while the server is reachable, the remote server serves it.
pub proof fn lemma_offline_remote_falls_back_to_local(
    p: Profile,
    local_available: bool,
    keys: Map<u128, (LlmProviderConfig, String)>,
)
    requires
        p.transcription_backend == TranscriptionBackendId::RemoteWhisper,
    ensures
        local_available ==> backend_spec(p, false, local_available, keys) == Ok::<
            BackendChoiceView,
            (ErrorKind, Seq<char>),
        >(BackendChoiceView::Local),
        backend_spec(p, true, local_available, keys) == Ok::<
            BackendChoiceView,
            (ErrorKind, Seq<char>),
        >(BackendChoiceView::Remote),
{
}

/// A correction request for the post-processing LLM.
pub struct PostProcessRequest {
    pub provider_id: u128,
    pub model: String,
    pub prompt: PostProcPrompt,
}

/// Whether the transcript goes to an LLM for correction: post-processing is
/// on, the profile names a provider and a model, and that provider is
/// available.
pub open spec fn wants_post_processing<V>(p: Profile, providers: Map<u128, V>) -> bool {
    &&& p.post_processing.enabled
    &&& p.post_processing.llm_provider_id is Some
    &&& p.post_processing.model is Some
    &&& providers.contains_key(p.post_processing.llm_provider_id->0)
}

/// The correction request for a transcript, if the profile asks for one and
/// its provider is available.
pub fn post_process_request<V>(
    profile: &Profile,
    providers: &HashMap<u128, V>,
    raw_text: &str,
    vocabulary: &[String],
) -> (r: Option<PostProcessRequest>)
    ensures
        r is Some <==> wants_post_processing(*profile, providers@),
        r matches Some(req) ==> {
            &&& req.provider_id == profile.post_processing.llm_provider_id->0
            &&& req.model@ == profile.post_processing.model->0@
            &&& req.prompt.user@ == raw_text@
            &&& req.prompt.system@ == prompt_system(
                vocabulary@,
                match profile.post_processing.system_prompt {
                    Some(s) => Some(s@),
                    None => None,
                },
            )
        },
{
    if !profile.post_processing.enabled {
        return None;
    }
    let pid = match profile.post_processing.llm_provider_id {
        Some(pid) => pid,
        None => {
            return None;
        },
    };
    let model = match &profile.post_processing.model {
        Some(m) => m,
        None => {
            return None;
        },
    };
    if !providers.contains_key(&pid) {
        return None;
    }
    let custom: Option<&str> = match &profile.post_processing.system_prompt {
        Some(s) => Some(s.as_str()),
        None => None,
    };
    let prompt = build_prompt(raw_text, vocabulary, custom);
    Some(PostProcessRequest { provider_id: pid, model: model.clone(), prompt })
}

/// The text that is injected: the corrected text when a correction was asked
/// for and succeeded, the raw transcript otherwise (a failed correction falls
/// back to the raw text).
pub fn final_text(raw: String, corrected: Option<Result<String, AppError>>) -> (r: String)
    ensures
        match corrected {
            Some(Ok(c)) => r@ == c@,
            _ => r@ == raw@,
        },
{
    match corrected {
        Some(Ok(c)) => c,
        _ => raw,
    }
}

/// A stage of processing a recording, in the order the pipeline completes
/// them.
#[derive(Clone, Copy, Debug, PartialEq, Eq, Structural)]
pub enum Stage {
    /// The recording was stopped and drained; `true` when it held no sample.
    Drained(bool),
    /// The text to inject (corrected or raw) is ready.
    Transcribed,
    /// The text was handed to the focused application.
    Injected,
}

/// State after a stage: draining moves on to transcription, unless nothing
/// was recorded, in which case the pipeline is idle again; a finished
/// transcription moves on to injection, and a finished injection back to
/// idle.
pub open spec fn stage_state(s: AppState, stage: Stage) -> AppState {
    match stage {
        Stage::Drained(empty) => if empty {
            AppState::Idle
        } else {
            next_state(s, Transition::StopRecording)
        },
        Stage::Transcribed => next_state(s, Transition::TranscriptionDone),
        Stage::Injected => next_state(s, Transition::InjectionDone),
    }
}

/// The state after a stage of processing a recording.
pub fn state_after_stage(s: AppState, stage: Stage) -> (r: AppState)
    ensures
        r == stage_state(s, stage),
{
    match stage {
        Stage::Drained(empty) => if empty {
            AppState::Idle
        } else {
            s.apply(Transition::StopRecording)
        },
        Stage::Transcribed => s.apply(Transition::TranscriptionDone),
        Stage::Injected => s.apply(Transition::InjectionDone),
    }
}

/// How the final text is handed to the focused application.
#[derive(Clone, Copy, Debug, PartialEq, Eq, Structural)]
pub struct InjectionPlan {
    /// Synthesize the paste chord after putting the text on the clipboard.
    pub paste: bool,
    /// Put the user's previous clipboard text back after pasting.
    pub restore_clipboard: bool,
}

/// The injection a profile asks for. With `clipboard_only` the text is only
/// put on the clipboard; otherwise it is pasted, and the previous clipboard
/// text is restored unless the profile keeps the text on the clipboard or the
/// platform is macOS, where the text stays as a fallback for a manual paste.
pub fn injection_plan(profile: &Profile, macos: bool) -> (r: InjectionPlan)
    ensures
        r.paste == !profile.clipboard_only,
        r.restore_clipboard == (!profile.clipboard_only && !profile.keep_on_clipboard && !macos),
{
    InjectionPlan {
        paste: !profile.clipboard_only,
        restore_clipboard: !profile.clipboard_only && !profile.keep_on_clipboard && !macos,
    }
}

} // verus!
