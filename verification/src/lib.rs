//! Verified core of the Dictatr dictation tool: the pipeline state machine,
//! transcript clean-up, prompt construction, configuration rules, hotkey
//! routing decisions and the audio sample buffer.

pub mod audio;
pub mod commands;
pub mod config;
pub mod error;
pub mod hotkey;
pub mod ids;
pub mod hotkey_ll;
pub mod llm;
pub mod models;
pub mod orchestrator;
pub mod secrets;
pub mod state;
pub mod text;
pub mod transcription;
