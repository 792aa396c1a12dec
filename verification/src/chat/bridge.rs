//! Roles as the chat names them and as the storage keeps them.

use vstd::prelude::*;
use crate::chat::message::Role;
use crate::storage::types::MessageRole;

verus! {

/// The stored role of a chat role.
pub open spec fn stored_role(role: Role) -> MessageRole {
    match role {
        Role::System => MessageRole::System,
        Role::User => MessageRole::User,
        Role::Assistant => MessageRole::Assistant,
    }
}

/// The chat role of a stored role.
pub open spec fn chat_role(role: MessageRole) -> Role {
    match role {
        MessageRole::System => Role::System,
        MessageRole::User => Role::User,
        MessageRole::Assistant => Role::Assistant,
    }
}

/// The role under which a chat message is stored.
pub fn chat_role_to_storage(role: Role) -> (stored: MessageRole)
    ensures
        stored == stored_role(role),
{
    match role {
        Role::System => MessageRole::System,
        Role::User => MessageRole::User,
        Role::Assistant => MessageRole::Assistant,
    }
}

/// The role with which a stored message is shown.
pub fn storage_role_to_chat(role: MessageRole) -> (shown: Role)
    ensures
        shown == chat_role(role),
{
    match role {
        MessageRole::System => Role::System,
        MessageRole::User => Role::User,
        MessageRole::Assistant => Role::Assistant,
    }
}

/// A role survives being stored and shown again, either way round.
pub proof fn lemma_roles_correspond(role: Role, stored: MessageRole)
    ensures
        chat_role(stored_role(role)) == role,
        stored_role(chat_role(stored)) == stored,
{
}

} // verus!
