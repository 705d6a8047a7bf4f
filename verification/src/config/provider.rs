//! Configured LLM providers.

use vstd::prelude::*;

verus! {

/// Wire protocol family of an LLM provider.
#[derive(Clone, Copy, Debug, PartialEq, Eq, Structural)]
pub enum ProviderType {
    Openai,
    OpenaiCompatible,
    OpenRouter,
    Anthropic,
    Ollama,
}

/// One configured LLM provider. The id is a UUID held as its 128-bit value;
/// the API key lives in the OS keyring, not here.
#[derive(Clone, Debug, PartialEq)]
pub struct LlmProviderConfig {
    pub id: u128,
    pub name: String,
    pub provider_type: ProviderType,
    pub base_url: String,
    pub default_model: String,
}

} // verus!
