//! What the chat hands to a language model provider.

pub mod provider;
