use dictatr_core::audio::ringbuffer::RingBuffer;
use dictatr_core::config::normalize_remote_url;
use dictatr_core::config::profile::{
    HotkeyMode, Language, LlmTranscription, PostProcessing, Profile, TranscriptionBackendId,
};
use dictatr_core::hotkey_ll::parse_function_vk;
use dictatr_core::llm::prompt::build_prompt;
use dictatr_core::state::{AppState, Transition};
use dictatr_core::transcription::local::collapse_repetitions;

#[test]
fn capacity_from_seconds() {
    let rb: RingBuffer<f32> = RingBuffer::with_seconds(2, 16_000);
    assert_eq!(rb.len(), 0);
}

#[test]
fn drops_oldest_when_full() {
    let mut rb = RingBuffer::with_capacity(4);
    rb.push_samples(&[1.0f32, 2.0, 3.0, 4.0, 5.0, 6.0]);
    assert_eq!(rb.len(), 4);
    let v = rb.drain_to_vec();
    assert_eq!(v, vec![3.0, 4.0, 5.0, 6.0]);
}

#[test]
fn drain_empties_buffer() {
    let mut rb = RingBuffer::with_capacity(8);
    rb.push_samples(&[1.0f32, 2.0]);
    let _ = rb.drain_to_vec();
    assert!(rb.is_empty());
}

#[test]
fn is_full_reports_correctly() {
    let mut rb = RingBuffer::with_capacity(3);
    assert!(!rb.is_full());
    rb.push_samples(&[1.0f32, 2.0, 3.0]);
    assert!(rb.is_full());
}

#[test]
fn normalize_prepends_https_when_no_scheme() {
    assert_eq!(normalize_remote_url("whisper.example.com"), "https://whisper.example.com");
    assert_eq!(normalize_remote_url("whisper.example.com/"), "https://whisper.example.com");
    assert_eq!(normalize_remote_url("  whisper.example.com  "), "https://whisper.example.com");
}

#[test]
fn normalize_keeps_explicit_scheme() {
    assert_eq!(normalize_remote_url("http://192.168.1.5:8000"), "http://192.168.1.5:8000");
    assert_eq!(normalize_remote_url("https://whisper.example.com"), "https://whisper.example.com");
    assert_eq!(normalize_remote_url("https://whisper.example.com/"), "https://whisper.example.com");
}

#[test]
fn validates_empty_name() {
    let p = Profile {
        id: 0,
        name: "  ".into(),
        hotkey: "Ctrl+Alt+Space".into(),
        hotkey_mode: HotkeyMode::Toggle,
        transcription_backend: TranscriptionBackendId::RemoteWhisper,
        language: Language::De,
        post_processing: PostProcessing {
            enabled: false, llm_provider_id: None, model: None, system_prompt: None,
        },
        llm_transcription: LlmTranscription { llm_provider_id: None, model: None },
        clipboard_only: false,
        keep_on_clipboard: false,
    };
    assert!(p.validate().is_err());
}

#[test]
fn validates_post_processing_without_provider() {
    let p = Profile {
        id: 0,
        name: "X".into(),
        hotkey: "Ctrl+Alt+X".into(),
        hotkey_mode: HotkeyMode::Toggle,
        transcription_backend: TranscriptionBackendId::RemoteWhisper,
        language: Language::Auto,
        post_processing: PostProcessing {
            enabled: true, llm_provider_id: None, model: None, system_prompt: None,
        },
        llm_transcription: LlmTranscription { llm_provider_id: None, model: None },
        clipboard_only: false,
        keep_on_clipboard: false,
    };
    assert!(p.validate().is_err());
}

#[test]
fn function_keys_map_to_vk() {
    assert_eq!(parse_function_vk("F8"), Some(0x77));
    assert_eq!(parse_function_vk("  F9  "), Some(0x78));
    assert_eq!(parse_function_vk("F24"), Some(0x87));
}

#[test]
fn non_function_keys_are_none() {
    assert_eq!(parse_function_vk("Ctrl+F8"), None);
    assert_eq!(parse_function_vk("A"), None);
    assert_eq!(parse_function_vk("Space"), None);
    assert_eq!(parse_function_vk("F25"), None);
}

#[test]
fn default_system_used_when_no_custom() {
    let p = build_prompt("hallo welt", &[], None);
    assert!(p.system.starts_with("Du korrigierst"));
    assert_eq!(p.user, "hallo welt");
}

#[test]
fn vocabulary_appended_to_system() {
    let p = build_prompt("x", &vec!["DSS-Siegmund".into(), "Invoice Ninja".into()], None);
    assert!(p.system.contains("DSS-Siegmund, Invoice Ninja"));
}

#[test]
fn custom_system_replaces_default() {
    let p = build_prompt("x", &[], Some("Antworte nur in Großbuchstaben."));
    assert!(p.system.contains("Großbuchstaben"));
    assert!(!p.system.contains("Du korrigierst"));
}

#[test]
fn happy_path() {
    let s = AppState::Idle
        .apply(Transition::StartRecording)
        .apply(Transition::StopRecording)
        .apply(Transition::TranscriptionDone)
        .apply(Transition::InjectionDone);
    assert_eq!(s, AppState::Idle);
}

#[test]
fn fail_from_any_state() {
    assert_eq!(AppState::Recording.apply(Transition::Fail), AppState::Error);
    assert_eq!(AppState::Transcribing.apply(Transition::Fail), AppState::Error);
}

#[test]
fn invalid_transitions_are_noop() {
    assert_eq!(AppState::Idle.apply(Transition::StopRecording), AppState::Idle);
    assert_eq!(AppState::Idle.apply(Transition::InjectionDone), AppState::Idle);
}

#[test]
fn reset_from_error() {
    assert_eq!(AppState::Error.apply(Transition::Reset), AppState::Idle);
}

#[test]
fn passthrough_non_repeating() {
    let s = "OK dann Option A ist gut";
    assert_eq!(collapse_repetitions(s), s);
}

#[test]
fn collapses_triple_phrase() {
    let s = "Die Bekleidung wird geschnitten. Die Bekleidung wird geschnitten. Die Bekleidung wird geschnitten.";
    let out = collapse_repetitions(s);
    assert_eq!(out, "Die Bekleidung wird geschnitten.");
}

#[test]
fn collapses_many_repetitions() {
    let phrase = "ja ich habe das verstanden";
    let s = vec![phrase; 8].join(" ");
    assert_eq!(collapse_repetitions(&s), phrase);
}

#[test]
fn keeps_short_duplicate_words() {
    let s = "ja ja ja ja ja";
    assert_eq!(collapse_repetitions(s), s);
}
