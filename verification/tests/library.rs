use dictatr_core::audio::devices::pick_input_device;
use dictatr_core::audio::ringbuffer::RingBuffer;
use dictatr_core::commands::{
    cf_secret_source, find_provider, healthcheck_model, invalid_json_message, load_vocabulary,
    missing_key_message, models_summary, parse_vocabulary, probe_failure_message,
    probe_status_message, remote_test_base, shorten_reply, vocabulary_text, CfSecretSource,
    ProbeFailure,
};
use dictatr_core::config::normalize_remote_url;
use dictatr_core::config::profile::{
    default_llm_transcription, HotkeyMode, Language, LlmTranscription, PostProcessing, Profile,
    TranscriptionBackendId,
};
use dictatr_core::config::provider::{LlmProviderConfig, ProviderType};
use dictatr_core::config::{default_remote_whisper_url, default_true, AppConfig, General};
use dictatr_core::error::AppError;
use dictatr_core::hotkey::{
    route_combo, translate_global_event, ComboRoute, HotkeyEvent, HotkeyTable, PROMPT_MANAGER_ID,
};
use dictatr_core::hotkey_ll::{parse_function_vk, parse_vk, HookOutcome, KeyKind, LlState};
use dictatr_core::text::char_is_whitespace;
use dictatr_core::llm::prompt::build_prompt;
use dictatr_core::llm::{first_reply, provider_kind, ProviderKind};
use dictatr_core::models::{
    check_download_request, file_for, first_installed_model, is_known_model, model_file,
    model_infos, model_url, DownloadProgress,
};
use dictatr_core::orchestrator::{
    backend_for, decide_event, final_text, injection_plan, post_process_request,
    state_after_stage, needs_remote_probe, Action, BackendChoice, InjectionPlan, Stage,
};
use dictatr_core::secrets::{key_for, named_key};
use dictatr_core::state::{AppState, Transition};
use dictatr_core::transcription::llm::{
    audio_payload, chat_completions_url, instructions, language_hint, transcript_from_choices,
};
use dictatr_core::transcription::local::{
    collapse_repetitions, finish_transcript, initial_prompt, lang_code,
};
use dictatr_core::transcription::pcm16_to_wav_16k_mono;
use dictatr_core::transcription::remote::{form_fields, RemoteWhisperConfig};
use std::collections::HashMap;

fn profile(id: u128, mode: HotkeyMode, backend: TranscriptionBackendId) -> Profile {
    Profile {
        id,
        name: "P".into(),
        hotkey: "F8".into(),
        hotkey_mode: mode,
        transcription_backend: backend,
        language: Language::De,
        post_processing: PostProcessing {
            enabled: false, llm_provider_id: None, model: None, system_prompt: None,
        },
        llm_transcription: LlmTranscription { llm_provider_id: None, model: None },
        clipboard_only: false,
        keep_on_clipboard: false,
    }
}

fn provider(id: u128, default_model: &str) -> LlmProviderConfig {
    LlmProviderConfig {
        id,
        name: "prov".into(),
        provider_type: ProviderType::OpenaiCompatible,
        base_url: "https://llm.example".into(),
        default_model: default_model.into(),
    }
}

// ---- state machine ----

#[test]
fn error_state_is_left_only_by_reset() {
    for t in [Transition::StartRecording, Transition::StopRecording, Transition::TranscriptionDone,
              Transition::InjectionDone, Transition::Fail] {
        assert_eq!(AppState::Error.apply(t), AppState::Error);
    }
    for s in [AppState::Idle, AppState::Recording, AppState::Transcribing, AppState::Injecting] {
        assert_eq!(s.apply(Transition::Reset), AppState::Idle);
        assert_eq!(s.apply(Transition::Fail), AppState::Error);
    }
    assert_eq!(AppState::Recording.apply(Transition::StartRecording), AppState::Recording);
}

// ---- ring buffer ----

#[test]
fn ring_buffer_keeps_newest_samples_in_order() {
    let mut rb = RingBuffer::with_capacity(3);
    rb.push_samples(&[1u8, 2]);
    rb.push_samples(&[3, 4, 5, 6]);
    assert_eq!(rb.len(), 3);
    assert!(rb.is_full());
    assert_eq!(rb.drain_to_vec(), vec![4, 5, 6]);
    assert!(rb.is_empty());
    rb.push_samples(&[7]);
    rb.clear();
    assert_eq!(rb.len(), 0);
}

#[test]
fn ring_buffer_of_capacity_zero_keeps_nothing() {
    let mut rb = RingBuffer::with_capacity(0);
    rb.push_samples(&[1.0f32, 2.0]);
    assert_eq!(rb.len(), 0);
    assert!(rb.is_empty());
    assert!(rb.drain_to_vec().is_empty());
    let mut rb0: RingBuffer<f32> = RingBuffer::with_seconds(0, 16000);
    rb0.push_samples(&[0.5]);
    assert_eq!(rb0.len(), 0);
}

#[test]
fn ring_buffer_capacity_from_seconds_is_product() {
    let mut rb: RingBuffer<u8> = RingBuffer::with_seconds(2, 3);
    rb.push_samples(&[0, 1, 2, 3, 4, 5, 6, 7]);
    assert_eq!(rb.drain_to_vec(), vec![2, 3, 4, 5, 6, 7]);
}

// ---- configuration ----

#[test]
fn normalize_edge_cases() {
    assert_eq!(normalize_remote_url(""), "https://");
    assert_eq!(normalize_remote_url("host//"), "https://host");
    assert_eq!(normalize_remote_url("ftp://x"), "https://ftp://x");
    assert_eq!(normalize_remote_url("\u{3000}http://a:1/\t"), "http://a:1");
    assert_eq!(normalize_remote_url("HTTP://a"), "https://HTTP://a");
}

#[test]
fn defaults_match_documentation() {
    let g = General::default();
    assert!(!g.autostart);
    assert!(g.sounds && g.overlay && g.show_tooltips && g.check_updates);
    assert_eq!(g.max_recording_seconds, 120);
    assert_eq!(g.history_limit, 100);
    assert_eq!(g.mic_device, None);
    assert_eq!(g.remote_whisper_url, "http://192.168.178.43:8000");
    assert_eq!(g.cf_access_client_id, "");
    assert_eq!(default_remote_whisper_url(), "http://192.168.178.43:8000");
    assert!(default_true());
    let c = AppConfig::default();
    assert!(c.profiles.is_empty() && c.providers.is_empty());
    let l = default_llm_transcription();
    assert!(l.llm_provider_id.is_none() && l.model.is_none());
}

#[test]
fn profile_validation_messages() {
    let mut p = profile(1, HotkeyMode::Toggle, TranscriptionBackendId::RemoteWhisper);
    assert_eq!(p.validate(), Ok(()));
    p.hotkey = " \t".into();
    assert_eq!(p.validate(), Err("Hotkey must not be empty".to_string()));
    p.name = "".into();
    assert_eq!(p.validate(), Err("Profile name must not be empty".to_string()));
    let mut q = profile(1, HotkeyMode::Toggle, TranscriptionBackendId::RemoteWhisper);
    q.post_processing.enabled = true;
    assert_eq!(q.validate(), Err("Post-processing enabled but no LLM provider selected".to_string()));
    q.post_processing.llm_provider_id = Some(9);
    assert_eq!(q.validate(), Ok(()));
}

// ---- prompt ----

#[test]
fn prompt_text_is_exact() {
    let p = build_prompt("roh", &vec!["A".into(), "B".into()], Some("S"));
    assert_eq!(p.system, "S\n\nVerwende folgendes Vokabular korrekt, wenn es vorkommt:\nA, B");
    assert_eq!(p.user, "roh");
    let q = build_prompt("", &[], Some(""));
    assert_eq!(q.system, "");
}

// ---- collapse ----

#[test]
fn collapse_keeps_surrounding_words() {
    let s = "vorher a b c d a b c d a b c d a b c d nachher";
    assert_eq!(collapse_repetitions(s), "vorher a b c d nachher");
}

#[test]
fn collapse_normalises_spacing_only_when_it_collapses() {
    assert_eq!(collapse_repetitions("  a  b\tc d  "), "a  b\tc d");
    assert_eq!(collapse_repetitions("a b c d\na b c d  a b c d"), "a b c d");
    assert_eq!(collapse_repetitions("   "), "");
}

#[test]
fn collapse_prefers_shortest_phrase() {
    let unit = "eins zwei drei vier";
    let s = vec![unit; 6].join(" ");
    assert_eq!(collapse_repetitions(&s), unit);
}

#[test]
fn collapse_needs_three_copies() {
    let s = "a b c d a b c d";
    assert_eq!(collapse_repetitions(s), s);
}

#[test]
fn finish_transcript_concatenates_trims_and_collapses() {
    let segs = vec![" a b c d".to_string(), " a b c d a b c d".to_string(), " ".to_string()];
    assert_eq!(finish_transcript(&segs), "a b c d");
    let plain = vec![" Hallo".to_string(), " Welt ".to_string()];
    assert_eq!(finish_transcript(&plain), "Hallo Welt");
}

// ---- hotkeys ----

#[test]
fn media_keys_map_to_vk() {
    assert_eq!(parse_vk("LaunchMail"), Some(0xB4));
    assert_eq!(parse_vk(" VolumeUp "), Some(0xAF));
    assert_eq!(parse_vk("Sleep"), Some(0x5F));
    assert_eq!(parse_vk("launchmail"), None);
    assert_eq!(parse_vk("Ctrl+Alt+Space"), None);
    assert_eq!(parse_function_vk("F1"), Some(0x70));
    assert_eq!(parse_function_vk("F10"), Some(0x79));
    assert_eq!(parse_function_vk("F0"), None);
    assert_eq!(parse_function_vk("F01"), None);
}

#[test]
fn combos_are_routed() {
    assert_eq!(route_combo("MediaStop", true), ComboRoute::LowLevel(0xB2));
    assert_eq!(route_combo("F6", true), ComboRoute::LowLevel(0x75));
    assert_eq!(route_combo("Ctrl+F8", true), ComboRoute::Global);
}

#[test]
fn hotkey_table_maps_ids() {
    let mut t = HotkeyTable::new();
    t.add_global(7, 70);
    t.add_low_level(0xB4, 80);
    assert_eq!(t.resolve(7), Some(70));
    assert_eq!(t.resolve(8), None);
    assert_eq!(t.ll_keys().get(&0xB4), Some(&80));
    let m = t.id_map();
    assert_eq!(translate_global_event(&m, 7, true), Some(HotkeyEvent::Pressed(70)));
    assert_eq!(translate_global_event(&m, 7, false), Some(HotkeyEvent::Released(70)));
    assert_eq!(translate_global_event(&m, 9, true), None);
    t.clear();
    assert_eq!(t.resolve(7), None);
    assert!(t.ll_keys().is_empty());
}

#[test]
fn hook_dedups_auto_repeat_and_heals() {
    let mut map = HashMap::new();
    map.insert(0x77u32, 5u128);
    let mut st = LlState::new(map);
    assert_eq!(st.on_key(0x41, KeyKind::Down, 0), HookOutcome::PassThrough);
    assert_eq!(st.on_key(0x77, KeyKind::Down, 1000), HookOutcome::Swallow(Some(HotkeyEvent::Pressed(5))));
    assert_eq!(st.on_key(0x77, KeyKind::Down, 1030), HookOutcome::Swallow(None));
    assert_eq!(st.on_key(0x77, KeyKind::Down, 1630), HookOutcome::Swallow(None));
    // key-up lost; a press well after the last key-down is fresh again
    assert_eq!(st.on_key(0x77, KeyKind::Down, 2300), HookOutcome::Swallow(Some(HotkeyEvent::Pressed(5))));
    assert_eq!(st.on_key(0x77, KeyKind::Up, 2400), HookOutcome::Swallow(Some(HotkeyEvent::Released(5))));
    assert_eq!(st.on_key(0x77, KeyKind::Up, 2500), HookOutcome::Swallow(None));
    assert_eq!(st.on_key(0x77, KeyKind::Other, 2600), HookOutcome::PassThrough);
    let mut map2 = HashMap::new();
    map2.insert(0x78u32, 6u128);
    st.on_key(0x77, KeyKind::Down, 3000);
    st.update_mapping(map2);
    assert_eq!(st.on_key(0x77, KeyKind::Up, 3100), HookOutcome::PassThrough);
    assert_eq!(st.on_key(0x78, KeyKind::Up, 3100), HookOutcome::Swallow(None));
}

// ---- ids and secrets ----

#[test]
fn uuid_text_is_hyphenated_lower_hex() {
    assert_eq!(key_for(0xa1a2a3a4b1b2c1c2d1d2d3d4d5d6d7d8), "provider-a1a2a3a4-b1b2-c1c2-d1d2-d3d4d5d6d7d8");
    assert_eq!(key_for(1), "provider-00000000-0000-0000-0000-000000000001");
    assert_eq!(named_key("cf_access_secret"), "named-cf_access_secret");
}

// ---- orchestrator ----

#[test]
fn push_to_talk_and_toggle_decisions() {
    let mut profiles = HashMap::new();
    profiles.insert(1u128, profile(1, HotkeyMode::PushToTalk, TranscriptionBackendId::RemoteWhisper));
    profiles.insert(2u128, profile(2, HotkeyMode::Toggle, TranscriptionBackendId::RemoteWhisper));
    let mut toggle = None;
    assert!(matches!(decide_event(&profiles, &mut toggle, HotkeyEvent::Pressed(1)), Ok(Action::StartRecording(1))));
    assert!(matches!(decide_event(&profiles, &mut toggle, HotkeyEvent::Released(1)), Ok(Action::StopAndProcess(1))));
    assert!(matches!(decide_event(&profiles, &mut toggle, HotkeyEvent::Pressed(2)), Ok(Action::StartRecording(2))));
    assert_eq!(toggle, Some(2));
    assert!(matches!(decide_event(&profiles, &mut toggle, HotkeyEvent::Released(2)), Ok(Action::Nothing)));
    assert!(matches!(decide_event(&profiles, &mut toggle, HotkeyEvent::Pressed(2)), Ok(Action::StopAndProcess(2))));
    assert_eq!(toggle, None);
    assert!(matches!(decide_event(&profiles, &mut toggle, HotkeyEvent::Released(3)), Ok(Action::Nothing)));
    match decide_event(&profiles, &mut toggle, HotkeyEvent::Pressed(7)) {
        Err(AppError::Config(m)) => assert_eq!(m, "unknown profile 00000000-0000-0000-0000-000000000007"),
        _ => panic!("expected a config error"),
    }
    let mut gone = Some(9u128);
    match decide_event(&profiles, &mut gone, HotkeyEvent::Pressed(2)) {
        Err(AppError::Config(m)) => assert_eq!(m, "toggle profile gone"),
        _ => panic!("expected a config error"),
    }
    assert_eq!(gone, None);
}

#[test]
fn backend_choice_follows_profile() {
    let mut keys = HashMap::new();
    keys.insert(4u128, (provider(4, "gemini"), "k".to_string()));
    keys.insert(5u128, (provider(5, "  "), "k5".to_string()));
    let remote = profile(1, HotkeyMode::Toggle, TranscriptionBackendId::RemoteWhisper);
    assert!(matches!(backend_for(&remote, true, false, &keys), Ok(BackendChoice::Remote)));
    let local = profile(1, HotkeyMode::Toggle, TranscriptionBackendId::LocalWhisper);
    assert!(matches!(backend_for(&local, true, true, &keys), Ok(BackendChoice::Local)));
    match backend_for(&local, true, false, &keys) {
        Err(AppError::Transcription(m)) => assert!(m.starts_with("Lokales Whisper-Modell nicht installiert")),
        _ => panic!("expected an error"),
    }
    let mut llm = profile(1, HotkeyMode::Toggle, TranscriptionBackendId::LlmTranscription);
    match backend_for(&llm, true, false, &keys) {
        Err(AppError::Transcription(m)) => assert_eq!(m, "LLM-Provider im Profil nicht gesetzt"),
        _ => panic!("expected an error"),
    }
    llm.llm_transcription.llm_provider_id = Some(3);
    match backend_for(&llm, true, false, &keys) {
        Err(AppError::Transcription(m)) => assert_eq!(m, "LLM-Provider hat keinen API-Key oder wurde gelöscht"),
        _ => panic!("expected an error"),
    }
    llm.llm_transcription.llm_provider_id = Some(4);
    llm.llm_transcription.model = Some(" ".into());
    match backend_for(&llm, true, false, &keys) {
        Ok(BackendChoice::Llm { base_url, api_key, model }) => {
            assert_eq!((base_url.as_str(), api_key.as_str(), model.as_str()), ("https://llm.example", "k", "gemini"));
        }
        _ => panic!("expected the LLM backend"),
    }
    llm.llm_transcription.model = Some("gpt-4o-audio".into());
    match backend_for(&llm, true, false, &keys) {
        Ok(BackendChoice::Llm { model, .. }) => assert_eq!(model, "gpt-4o-audio"),
        _ => panic!("expected the LLM backend"),
    }
    llm.llm_transcription.llm_provider_id = Some(5);
    llm.llm_transcription.model = None;
    match backend_for(&llm, true, false, &keys) {
        Err(AppError::Transcription(m)) => assert_eq!(m, "Kein Modell angegeben"),
        _ => panic!("expected an error"),
    }
}

#[test]
fn post_processing_request_and_final_text() {
    let mut providers: HashMap<u128, ()> = HashMap::new();
    providers.insert(4, ());
    let mut p = profile(1, HotkeyMode::Toggle, TranscriptionBackendId::RemoteWhisper);
    assert!(post_process_request(&p, &providers, "raw", &[]).is_none());
    p.post_processing = PostProcessing {
        enabled: true, llm_provider_id: Some(4), model: Some("m".into()), system_prompt: Some("S".into()),
    };
    let r = post_process_request(&p, &providers, "raw", &["V".to_string()]).unwrap();
    assert_eq!(r.provider_id, 4);
    assert_eq!(r.model, "m");
    assert_eq!(r.prompt.user, "raw");
    assert_eq!(r.prompt.system, "S\n\nVerwende folgendes Vokabular korrekt, wenn es vorkommt:\nV");
    p.post_processing.llm_provider_id = Some(5);
    assert!(post_process_request(&p, &providers, "raw", &[]).is_none());
    assert_eq!(final_text("raw".into(), Some(Ok("fixed".into()))), "fixed");
    assert_eq!(final_text("raw".into(), Some(Err(AppError::Llm("x".into())))), "raw");
    assert_eq!(final_text("raw".into(), None), "raw");
    assert_eq!(state_after_stage(AppState::Recording, Stage::Drained(true)), AppState::Idle);
    let s1 = state_after_stage(AppState::Recording, Stage::Drained(false));
    assert_eq!(s1, AppState::Transcribing);
    let s2 = state_after_stage(s1, Stage::Transcribed);
    assert_eq!(s2, AppState::Injecting);
    assert_eq!(state_after_stage(s2, Stage::Injected), AppState::Idle);
    assert_eq!(state_after_stage(AppState::Idle, Stage::Transcribed), AppState::Idle);
}

#[test]
fn error_text_has_stage_prefix() {
    assert_eq!(AppError::Audio("no device".into()).to_text(), "audio error: no device");
    assert_eq!(AppError::Inject("x".into()).to_text(), "injection error: x");
}

// ---- LLM ----

#[test]
fn provider_kinds_and_replies() {
    assert_eq!(provider_kind(ProviderType::Anthropic), ProviderKind::Anthropic);
    assert_eq!(provider_kind(ProviderType::OpenRouter), ProviderKind::OpenAiCompat);
    assert_eq!(provider_kind(ProviderType::Ollama), ProviderKind::OpenAiCompat);
    assert_eq!(first_reply(vec!["a".into(), "b".into()], "none").unwrap(), "a");
    match first_reply(vec![], "no choices in response") {
        Err(AppError::Llm(m)) => assert_eq!(m, "no choices in response"),
        _ => panic!("expected an error"),
    }
}

// ---- transcription ----

#[test]
fn wav_bytes_are_exact() {
    let wav = pcm16_to_wav_16k_mono(&[1, -1, 0x1234]).unwrap();
    let mut expected: Vec<u8> = Vec::new();
    expected.extend_from_slice(b"RIFF");
    expected.extend_from_slice(&(36u32 + 6).to_le_bytes());
    expected.extend_from_slice(b"WAVEfmt ");
    expected.extend_from_slice(&16u32.to_le_bytes());
    expected.extend_from_slice(&1u16.to_le_bytes());
    expected.extend_from_slice(&1u16.to_le_bytes());
    expected.extend_from_slice(&16000u32.to_le_bytes());
    expected.extend_from_slice(&32000u32.to_le_bytes());
    expected.extend_from_slice(&2u16.to_le_bytes());
    expected.extend_from_slice(&16u16.to_le_bytes());
    expected.extend_from_slice(b"data");
    expected.extend_from_slice(&6u32.to_le_bytes());
    expected.extend_from_slice(&[1, 0, 0xff, 0xff, 0x34, 0x12]);
    assert_eq!(wav, expected);
    assert_eq!(pcm16_to_wav_16k_mono(&[]).unwrap().len(), 44);
}

#[test]
fn base64_payload_is_standard() {
    assert_eq!(audio_payload(b"Man"), "TWFu");
    assert_eq!(audio_payload(b"Ma"), "TWE=");
    assert_eq!(audio_payload(b"M"), "TQ==");
    assert_eq!(audio_payload(&[0xfb, 0xff]), "+/8=");
    assert_eq!(audio_payload(b""), "");
}

#[test]
fn llm_transcription_texts() {
    assert_eq!(language_hint(&Language::Auto), "der gesprochenen Sprache");
    assert_eq!(
        instructions(&Language::De, &[]),
        "Transkribiere das Audio wörtlich in Deutsch. Antworte ausschließlich mit dem reinen Transkript — keine Einleitungen, keine Erklärungen, kein Markdown."
    );
    let with_vocab = instructions(&Language::En, &["X".to_string(), "Y".to_string()]);
    assert!(with_vocab.ends_with(" Markdown.\nBerücksichtige diese Fachbegriffe beim Transkribieren: X, Y."));
    assert_eq!(chat_completions_url("https://a"), "https://a/v1/chat/completions");
    assert_eq!(transcript_from_choices(&[" text \n".to_string()]).unwrap(), "text");
    match transcript_from_choices(&[]) {
        Err(AppError::Transcription(m)) => assert_eq!(m, "Leere LLM-Antwort"),
        _ => panic!("expected an error"),
    }
}

#[test]
fn remote_whisper_request_parts() {
    let fields = form_fields(&Language::Auto, &[]);
    assert_eq!(fields, vec![("model".to_string(), "whisper-1".to_string()), ("response_format".to_string(), "json".to_string())]);
    let fields = form_fields(&Language::De, &["A".to_string(), "B".to_string()]);
    assert_eq!(fields[2], ("language".to_string(), "de".to_string()));
    assert_eq!(fields[3], ("prompt".to_string(), "A, B".to_string()));
    let plain = RemoteWhisperConfig::new("http://h".into(), "".into());
    assert_eq!(plain.cf_headers(), None);
    assert_eq!(plain.bearer(), None);
    assert_eq!(plain.models_url(), "http://h/v1/models");
    assert_eq!(plain.transcriptions_url(), "http://h/v1/audio/transcriptions");
    let cf = RemoteWhisperConfig::with_cf_access("h".into(), "t".into(), "id".into(), "sec".into());
    assert_eq!(cf.cf_headers(), Some(("id".to_string(), "sec".to_string())));
    assert_eq!(cf.bearer(), Some("t".to_string()));
    let half = RemoteWhisperConfig::with_cf_access("h".into(), "".into(), "id".into(), "".into());
    assert_eq!(half.cf_headers(), None);
    assert_eq!(lang_code(&Language::En), Some("en"));
    assert_eq!(lang_code(&Language::Auto), None);
    assert_eq!(dictatr_core::transcription::remote::lang_code(&Language::Auto), "auto");
}

// ---- models ----

#[test]
fn model_files_and_downloads() {
    assert_eq!(file_for("small"), "ggml-small.bin");
    assert_eq!(model_url("tiny"), "https://huggingface.co/ggerganov/whisper.cpp/resolve/main/ggml-tiny.bin");
    assert!(is_known_model("large-v3"));
    assert!(!is_known_model("large"));
    assert_eq!(check_download_request("huge", false), Err("unbekanntes Modell: huge".to_string()));
    assert_eq!(check_download_request("base", true), Err("Ein Download läuft bereits".to_string()));
    assert_eq!(check_download_request("base", false), Ok(()));
    let infos = model_infos(&[0, 10, 0, 0, 5]);
    assert_eq!(infos.len(), 5);
    assert_eq!(infos[1].name, "base");
    assert_eq!(infos[1].filename, "ggml-base.bin");
    assert_eq!(infos[1].size_mb, 142);
    assert!(infos[1].installed && !infos[0].installed);
    assert_eq!(infos[4].installed_bytes, 5);
    assert!(model_file("ggml-x.bin") && !model_file("ggml-x.bin.part") && !model_file("x.bin"));
    let files = vec![
        ("notes.txt".to_string(), 900u64),
        ("ggml-base.bin".to_string(), 10),
        ("ggml-large-v3.bin".to_string(), 30),
        ("ggml-copy.bin".to_string(), 30),
    ];
    assert_eq!(first_installed_model(&files), Some(2));
    assert_eq!(first_installed_model(&files[..1]), None);
    let mut p = DownloadProgress::started("tiny".into());
    assert_eq!(p.name.as_deref(), Some("tiny"));
    p.finish(Err("HTTP 404".into()));
    assert!(p.done);
    assert_eq!(p.error.as_deref(), Some("HTTP 404"));
    let d = DownloadProgress::default();
    assert!(!d.done && d.name.is_none());
}

// ---- commands ----

#[test]
fn vocabulary_round_trip() {
    let v = parse_vocabulary("  DSS-Siegmund \r\n\n Invoice Ninja\n  \n");
    assert_eq!(v, vec!["DSS-Siegmund".to_string(), "Invoice Ninja".to_string()]);
    let text = vocabulary_text(&v);
    assert_eq!(text, "DSS-Siegmund\nInvoice Ninja");
    assert_eq!(load_vocabulary(&text), v);
    assert_eq!(load_vocabulary(" a \r\n\n\tb"), vec![" a ".to_string(), "\tb".to_string()]);
    assert!(parse_vocabulary("").is_empty());
}

#[test]
fn remote_test_decisions() {
    assert_eq!(remote_test_base("  "), Err("Keine URL angegeben.".to_string()));
    assert_eq!(remote_test_base("host/"), Ok("https://host".to_string()));
    assert_eq!(cf_secret_source(&Some("s".into()), ""), CfSecretSource::Given);
    assert_eq!(cf_secret_source(&Some("".into()), "id"), CfSecretSource::Keyring);
    assert_eq!(cf_secret_source(&None, ""), CfSecretSource::Empty);
    assert_eq!(models_summary(&[]), "Erreichbar, aber keine Modelle gelistet.");
    assert_eq!(models_summary(&["a".to_string(), "b".to_string()]), "Erreichbar. Modelle: a, b");
    assert_eq!(probe_failure_message(ProbeFailure::Timeout, "https://h", ""), "Timeout nach 3 s — Server nicht erreichbar unter https://h.");
    assert_eq!(probe_failure_message(ProbeFailure::Other, "https://h", "boom"), "Netzwerkfehler: boom");
    assert_eq!(probe_status_message("404 Not Found"), "Server antwortet mit HTTP 404 Not Found auf /v1/models — kein OpenAI-kompatibler Whisper-Server?");
    assert_eq!(invalid_json_message("eof"), "Antwort ist kein gültiges JSON: eof");
}

#[test]
fn llm_health_check_decisions() {
    let ps = vec![provider(1, "m1"), provider(2, " "), provider(2, "m2")];
    assert_eq!(find_provider(&ps, 2), Some(1));
    assert_eq!(find_provider(&ps, 3), None);
    assert_eq!(healthcheck_model(&ps[0]), Ok("m1".to_string()));
    assert_eq!(healthcheck_model(&ps[1]), Err("Kein Default-Modell gesetzt".to_string()));
    assert_eq!(missing_key_message("no entry"), "Kein API-Key gespeichert (no entry)");
    let long = format!("  {}  ", "ä".repeat(250));
    assert_eq!(shorten_reply(&long).chars().count(), 200);
    assert_eq!(shorten_reply(" ok \n"), "ok");
}

#[test]
fn input_device_is_picked_by_name() {
    let names: Vec<String> = vec!["Built-in".into(), "USB Mic".into(), "USB Mic".into()];
    assert_eq!(pick_input_device(&names, Some("USB Mic")), Some(1));
    assert_eq!(pick_input_device(&names, Some("Headset")), None);
    assert_eq!(pick_input_device(&names, None), None);
    assert_eq!(pick_input_device(&[], Some("USB Mic")), None);
}

#[test]
fn injection_follows_profile_flags() {
    let mut p = profile(1, HotkeyMode::PushToTalk, TranscriptionBackendId::RemoteWhisper);
    assert_eq!(injection_plan(&p, false), InjectionPlan { paste: true, restore_clipboard: true });
    assert_eq!(injection_plan(&p, true), InjectionPlan { paste: true, restore_clipboard: false });
    p.keep_on_clipboard = true;
    assert_eq!(injection_plan(&p, false), InjectionPlan { paste: true, restore_clipboard: false });
    p.clipboard_only = true;
    assert_eq!(injection_plan(&p, false), InjectionPlan { paste: false, restore_clipboard: false });
}

#[test]
fn route_and_record_fills_the_low_level_table() {
    let mut t = HotkeyTable::new();
    assert_eq!(t.route_and_record(11, " MediaPlayPause ", true), ComboRoute::LowLevel(0xB3));
    assert_eq!(t.route_and_record(12, "F9", true), ComboRoute::LowLevel(0x78));
    assert_eq!(t.route_and_record(13, "Ctrl+Shift+D", true), ComboRoute::Global);
    let ll = t.ll_keys();
    assert_eq!(ll.len(), 2);
    assert_eq!(ll.get(&0xB3), Some(&11));
    assert_eq!(ll.get(&0x78), Some(&12));
    assert!(t.id_map().is_empty());
}

#[test]
fn prompt_manager_hotkey_is_intercepted() {
    let profiles: HashMap<u128, Profile> = HashMap::new();
    let mut toggle = Some(4u128);
    assert!(matches!(
        decide_event(&profiles, &mut toggle, HotkeyEvent::Pressed(PROMPT_MANAGER_ID)),
        Ok(Action::OpenPromptManager)
    ));
    assert!(matches!(
        decide_event(&profiles, &mut toggle, HotkeyEvent::Released(PROMPT_MANAGER_ID)),
        Ok(Action::Nothing)
    ));
    assert_eq!(toggle, Some(4));
}


#[test]
fn offline_remote_server_falls_back_to_local_model() {
    let keys: HashMap<u128, (LlmProviderConfig, String)> = HashMap::new();
    let remote = profile(1, HotkeyMode::PushToTalk, TranscriptionBackendId::RemoteWhisper);
    assert!(matches!(backend_for(&remote, false, true, &keys), Ok(BackendChoice::Local)));
    assert!(matches!(backend_for(&remote, true, true, &keys), Ok(BackendChoice::Remote)));
    assert!(matches!(backend_for(&remote, false, false, &keys), Ok(BackendChoice::Remote)));
    assert!(needs_remote_probe(&remote, true));
    assert!(!needs_remote_probe(&remote, false));
    let local = profile(2, HotkeyMode::PushToTalk, TranscriptionBackendId::LocalWhisper);
    assert!(!needs_remote_probe(&local, true));
}

#[test]
fn load_vocabulary_strips_cr_only_before_line_feed() {
    assert_eq!(load_vocabulary("abc\r"), vec!["abc\r".to_string()]);
    assert_eq!(load_vocabulary("x\r\nabc\r"), vec!["x".to_string(), "abc\r".to_string()]);
    assert_eq!(load_vocabulary("x\r\n \r"), vec!["x".to_string()]);
}

#[test]
fn initial_prompt_is_joined_vocabulary() {
    assert_eq!(initial_prompt(&[]), None);
    assert_eq!(initial_prompt(&["".to_string()]), None);
    assert_eq!(initial_prompt(&["a".to_string(), "b".to_string()]), Some("a, b".to_string()));
}

#[test]
fn whitespace_agrees_with_std() {
    for u in 0u32..0x3100 {
        if let Some(c) = char::from_u32(u) {
            assert_eq!(char_is_whitespace(c), c.is_whitespace(), "code point {u:#x}");
        }
    }
    for c in ['\u{FEFF}', '\u{180E}', '\u{200B}', 'x'] {
        assert_eq!(char_is_whitespace(c), c.is_whitespace());
    }
}

#[test]
fn hook_reports_releases_only_after_presses() {
    let mut map = HashMap::new();
    map.insert(0x77u32, 5u128);
    map.insert(0x78u32, 5u128);
    let mut st = LlState::new(map);
    let mut events = Vec::new();
    let keys = [
        (0x77, KeyKind::Up, 0), (0x77, KeyKind::Down, 10), (0x78, KeyKind::Down, 20),
        (0x77, KeyKind::Up, 30), (0x78, KeyKind::Up, 40), (0x78, KeyKind::Down, 2000),
        (0x78, KeyKind::Up, 2100), (0x78, KeyKind::Up, 2200),
    ];
    for (vk, kind, t) in keys {
        if let HookOutcome::Swallow(Some(e)) = st.on_key(vk, kind, t) {
            events.push(e);
        }
    }
    assert_eq!(
        events,
        vec![
            HotkeyEvent::Pressed(5),
            HotkeyEvent::Released(5),
            HotkeyEvent::Pressed(5),
            HotkeyEvent::Released(5),
        ]
    );
}

#[test]
fn without_low_level_hook_every_combo_is_global() {
    assert_eq!(route_combo("F8", false), ComboRoute::Global);
    assert_eq!(route_combo("VolumeUp", false), ComboRoute::Global);
    assert_eq!(route_combo("Ctrl+F8", false), ComboRoute::Global);
    let mut t = HotkeyTable::new();
    assert_eq!(t.route_and_record(21, "F8", false), ComboRoute::Global);
    assert_eq!(t.route_and_record(22, "MediaStop", false), ComboRoute::Global);
    assert!(t.ll_keys().is_empty());
}
