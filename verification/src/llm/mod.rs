//! LLM post-processing: prompt construction, choice of the client protocol
//! and reading of replies.

pub mod prompt;

use vstd::prelude::*;
use crate::config::provider::ProviderType;
use crate::error::{AppError, ErrorKind};

verus! {

/// Wire protocol used to talk to a provider.
#[derive(Clone, Copy, Debug, PartialEq, Eq, Structural)]
pub enum ProviderKind {
    /// Anthropic's messages API.
    Anthropic,
    /// The OpenAI-compatible chat-completions API.
    OpenAiCompat,
}

/// Anthropic providers speak Anthropic's API; every other type speaks the
/// OpenAI-compatible one.
pub fn provider_kind(t: ProviderType) -> (r: ProviderKind)
    ensures
        r == (if t == ProviderType::Anthropic {
            ProviderKind::Anthropic
        } else {
            ProviderKind::OpenAiCompat
        }),
{
    match t {
        ProviderType::Anthropic => ProviderKind::Anthropic,
        _ => ProviderKind::OpenAiCompat,
    }
}

/// Endpoint of Anthropic's messages API.
pub const ANTHROPIC_MESSAGES_URL: &'static str = "https://api.anthropic.com/v1/messages";

/// API version header value sent to Anthropic.
pub const ANTHROPIC_VERSION: &'static str = "2023-06-01";

/// Token limit of an Anthropic correction request.
pub const ANTHROPIC_MAX_TOKENS: u32 = 2048;

/// Message when an OpenAI-compatible reply holds no choice.
pub const NO_CHOICES: &'static str = "no choices in response";

/// Message when an Anthropic reply holds no content block.
pub const NO_CONTENT_BLOCKS: &'static str = "no content blocks";

/// The first element of a reply's list of texts, or an LLM error with the
/// given message when the list is empty.
pub fn first_reply(texts: Vec<String>, missing: &str) -> (r: Result<String, AppError>)
    ensures
        match r {
            Ok(t) => texts@.len() > 0 && t == texts@[0],
            Err(e) => texts@.len() == 0 && e.kind() == ErrorKind::Llm && e.message() == missing@,
        },
{
    let mut texts = texts;
    if texts.len() == 0 {
        return Err(AppError::Llm(missing.to_owned()));
    }
    Ok(texts.swap_remove(0))
}

} // verus!
