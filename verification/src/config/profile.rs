//! Dictation profiles: hotkey, backend, language and post-processing choice.

use vstd::prelude::*;
use crate::text::{chars_of, trim, trim_bounds};

verus! {

/// How a profile's hotkey drives recording.
#[derive(Clone, Copy, Debug, PartialEq, Eq, Structural)]
pub enum HotkeyMode {
    PushToTalk,
    Toggle,
}

/// Spoken language of a profile; `Auto` lets the backend detect it.
#[derive(Clone, Copy, Debug, PartialEq, Eq, Structural)]
pub enum Language {
    De,
    En,
    Auto,
}

/// Which transcription backend a profile uses.
#[derive(Clone, Copy, Debug, PartialEq, Eq, Structural)]
pub enum TranscriptionBackendId {
    RemoteWhisper,
    LocalWhisper,
    /// A chat-completion LLM with audio input, configured via `llm_transcription`.
    LlmTranscription,
}

/// Provider and model for LLM-based transcription. Provider ids are UUIDs held
/// as their 128-bit value.
#[derive(Clone, Debug, PartialEq)]
pub struct LlmTranscription {
    pub llm_provider_id: Option<u128>,
    pub model: Option<String>,
}

/// Optional LLM correction of the transcript.
#[derive(Clone, Debug, PartialEq)]
pub struct PostProcessing {
    pub enabled: bool,
    pub llm_provider_id: Option<u128>,
    pub model: Option<String>,
    pub system_prompt: Option<String>,
}

/// A dictation profile. The id is a UUID held as its 128-bit value.
#[derive(Clone, Debug, PartialEq)]
pub struct Profile {
    pub id: u128,
    pub name: String,
    pub hotkey: String,
    pub hotkey_mode: HotkeyMode,
    pub transcription_backend: TranscriptionBackendId,
    pub language: Language,
    pub post_processing: PostProcessing,
    pub llm_transcription: LlmTranscription,
    /// Only put the text on the clipboard, do not synthesize a paste.
    pub clipboard_only: bool,
    /// Leave the transcribed text on the clipboard after pasting.
    pub keep_on_clipboard: bool,
}

/// The value a profile gets when its `llm_transcription` is missing.
pub fn default_llm_transcription() -> (r: LlmTranscription)
    ensures
        r.llm_provider_id is None,
        r.model is None,
{
    LlmTranscription { llm_provider_id: None, model: None }
}

/// Whether a string is empty after trimming whitespace.
pub fn is_blank(s: &String) -> (r: bool)
    ensures
        r == (trim(s@).len() == 0),
{
    let v = chars_of(s.as_str());
    let (a, b) = trim_bounds(&v);
    a == b
}

/// The first rule a profile breaks, as the message `Profile::validate`
/// reports: a name, a hotkey, and a provider whenever post-processing is on.
pub open spec fn profile_error(p: Profile) -> Option<Seq<char>> {
    if trim(p.name@).len() == 0 {
        Some("Profile name must not be empty"@)
    } else if trim(p.hotkey@).len() == 0 {
        Some("Hotkey must not be empty"@)
    } else if p.post_processing.enabled && p.post_processing.llm_provider_id is None {
        Some("Post-processing enabled but no LLM provider selected"@)
    } else {
        None
    }
}

impl Profile {
    /// Checks the profile and names the first rule it breaks.
    pub fn validate(&self) -> (r: Result<(), String>)
        ensures
            match r {
                Ok(_) => profile_error(*self) is None,
                Err(e) => profile_error(*self) == Some(e@),
            },
    {
        if is_blank(&self.name) {
            return Err("Profile name must not be empty".to_owned());
        }
        if is_blank(&self.hotkey) {
            return Err("Hotkey must not be empty".to_owned());
        }
        if self.post_processing.enabled && self.post_processing.llm_provider_id.is_none() {
            return Err("Post-processing enabled but no LLM provider selected".to_owned());
        }
        Ok(())
    }
}

} // verus!
