//! The configuration of a provider, and the messages sent to it.

use vstd::prelude::*;
use crate::chat::message::Role;
use crate::text::{trim, trimmed};

verus! {

/// How a provider is reached. The texts are kept without the white space at
/// their ends.
#[derive(Debug, Clone, PartialEq, Eq)]
pub struct ProviderConfig {
    pub provider_id: String,
    pub api_key: String,
    pub base_url: String,
    pub default_model: Option<String>,
}

impl ProviderConfig {
    /// A configuration from texts as they were entered.
    pub fn new(provider_id: &str, api_key: &str, base_url: &str, default_model: Option<String>) -> (config:
        Self)
        ensures
            config.provider_id@ == trimmed(provider_id@),
            config.api_key@ == trimmed(api_key@),
            config.base_url@ == trimmed(base_url@),
            config.default_model == default_model,
    {
        ProviderConfig {
            provider_id: trim(provider_id),
            api_key: trim(api_key),
            base_url: trim(base_url),
            default_model,
        }
    }
}

/// One message of the conversation sent to a provider.
#[derive(Debug, Clone, PartialEq, Eq)]
pub struct ProviderMessage {
    pub role: Role,
    pub content: String,
}

impl ProviderMessage {
    /// A message of `role`.
    pub fn new(role: Role, content: String) -> (message: Self)
        ensures
            message == (ProviderMessage { role, content }),
    {
        ProviderMessage { role, content }
    }
}

} // verus!
