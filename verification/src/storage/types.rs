//! Plain records of the stored entities, and the inputs that create or patch
//! them. None of them depends on the database.

use vstd::prelude::*;
use crate::storage::ids::{AgentEventId, BranchId, MediaRefId, MessageId, SessionId};

verus! {

/// Title given to a session whose own title is empty.
pub const DEFAULT_SESSION_TITLE: &'static str = "New Conversation";

/// Who speaks in a message.
#[derive(Debug, Clone, Copy, PartialEq, Eq, Structural, Hash)]
pub enum MessageRole {
    System,
    User,
    Assistant,
}

/// A chat session. `deleted_at_unix_seconds` is set while the session is
/// soft-deleted.
#[derive(Debug, Clone, PartialEq, Eq)]
pub struct SessionRecord {
    pub id: SessionId,
    pub title: String,
    pub active_branch_id: BranchId,
    pub updated_at_unix_seconds: u64,
    pub deleted_at_unix_seconds: Option<u64>,
}

/// What a session is created from.
#[derive(Debug, Clone, PartialEq, Eq)]
pub struct NewSession {
    pub title: String,
}

/// A change of a session's title; `None` leaves the title as it is.
#[derive(Debug, Clone, PartialEq, Eq)]
pub struct SessionPatch {
    pub title: Option<String>,
}

impl Default for SessionPatch {
    fn default() -> (patch: Self)
        ensures
            patch.title is None,
    {
        SessionPatch { title: None }
    }
}

/// One message of a branch. `seq` starts at 1 and grows by one with each
/// message appended to the branch.
#[derive(Debug, Clone, PartialEq, Eq)]
pub struct MessageRecord {
    pub id: MessageId,
    pub session_id: SessionId,
    pub branch_id: BranchId,
    pub seq: u64,
    pub role: MessageRole,
    pub content: String,
    pub deleted_at_unix_seconds: Option<u64>,
}

/// What a message is appended from.
#[derive(Debug, Clone, PartialEq, Eq)]
pub struct NewMessage {
    pub role: MessageRole,
    pub content: String,
}

/// A change of a message's content; `None` leaves the content as it is.
#[derive(Debug, Clone, PartialEq, Eq)]
pub struct MessagePatch {
    pub content: Option<String>,
}

impl Default for MessagePatch {
    fn default() -> (patch: Self)
        ensures
            patch.content is None,
    {
        MessagePatch { content: None }
    }
}

/// A request to branch the history at one message, giving it new content.
#[derive(Debug, Clone, PartialEq, Eq)]
pub struct HistoryForkRequest {
    pub source_message_id: MessageId,
    pub replacement_content: String,
}

/// A message of the old branch and the copy that stands for it on the new one.
#[derive(Debug, Clone, PartialEq, Eq)]
pub struct MessageIdRemap {
    pub old_message_id: MessageId,
    pub new_message_id: MessageId,
}

/// What a fork made: the new branch, and the remaps in the order of the
/// copied messages.
#[derive(Debug, Clone, PartialEq, Eq)]
pub struct HistoryForkOutcome {
    pub new_branch_id: BranchId,
    pub message_id_remaps: Vec<MessageIdRemap>,
}

/// A pointer to an attachment of a message. The payload is never stored.
#[derive(Debug, Clone, PartialEq, Eq)]
pub struct MediaRefRecord {
    pub id: MediaRefId,
    pub session_id: SessionId,
    pub message_id: MessageId,
    pub uri: String,
    pub mime_type: String,
    pub size_bytes: u64,
    pub duration_ms: Option<u64>,
    pub width_px: Option<u32>,
    pub height_px: Option<u32>,
    pub sha256_hex: Option<String>,
    pub deleted_at_unix_seconds: Option<u64>,
}

/// What a media reference is attached from.
#[derive(Debug, Clone, PartialEq, Eq)]
pub struct NewMediaRef {
    pub uri: String,
    pub mime_type: String,
    pub size_bytes: u64,
    pub duration_ms: Option<u64>,
    pub width_px: Option<u32>,
    pub height_px: Option<u32>,
    pub sha256_hex: Option<String>,
}

/// One entry of the agent event log of a session, attached to a message or
/// to the session as a whole.
#[derive(Debug, Clone, PartialEq, Eq)]
pub struct AgentEventRecord {
    pub id: AgentEventId,
    pub session_id: SessionId,
    pub message_id: Option<MessageId>,
    pub event_type: String,
    pub payload_json: String,
    pub created_at_unix_seconds: u64,
}

/// What an agent event is appended from.
#[derive(Debug, Clone, PartialEq, Eq)]
pub struct NewAgentEvent {
    pub message_id: Option<MessageId>,
    pub event_type: String,
    pub payload_json: String,
}

} // verus!
