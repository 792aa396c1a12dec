//! The four capabilities of a store. Each operation is scoped by a session,
//! so that an identifier of one session never reaches into another.

use vstd::prelude::*;
use crate::storage::error::StorageResult;
use crate::storage::ids::{MediaRefId, MessageId, SessionId};
use crate::storage::types::{
    AgentEventRecord, HistoryForkOutcome, HistoryForkRequest, MediaRefRecord, MessagePatch,
    MessageRecord, NewAgentEvent, NewMediaRef, NewMessage, NewSession, SessionPatch,
    SessionRecord,
};

verus! {

/// Sessions: create, list, get, update, soft-delete, restore.
pub trait SessionStore: Send + Sync {
    fn create_session(&self, input: NewSession) -> StorageResult<SessionRecord>;

    fn list_sessions(&self, include_deleted: bool) -> StorageResult<Vec<SessionRecord>>;

    fn get_session(&self, session_id: SessionId) -> StorageResult<Option<SessionRecord>>;

    fn update_session(&self, session_id: SessionId, patch: SessionPatch) -> StorageResult<
        SessionRecord,
    >;

    fn soft_delete_session(&self, session_id: SessionId) -> StorageResult<()>;

    fn restore_session(&self, session_id: SessionId) -> StorageResult<()>;
}

/// Messages of the active branch of a session, and the fork of its
/// history.
pub trait MessageStore: Send + Sync {
    fn append_message(&self, session_id: SessionId, input: NewMessage) -> StorageResult<
        MessageRecord,
    >;

    fn list_messages(&self, session_id: SessionId) -> StorageResult<Vec<MessageRecord>>;

    fn get_message(&self, session_id: SessionId, message_id: MessageId) -> StorageResult<
        Option<MessageRecord>,
    >;

    fn update_message(
        &self,
        session_id: SessionId,
        message_id: MessageId,
        patch: MessagePatch,
    ) -> StorageResult<MessageRecord>;

    fn fork_from_history(&self, session_id: SessionId, request: HistoryForkRequest) -> StorageResult<
        HistoryForkOutcome,
    >;
}

/// Media references of a message.
pub trait MediaStore: Send + Sync {
    fn attach_media(
        &self,
        session_id: SessionId,
        message_id: MessageId,
        input: NewMediaRef,
    ) -> StorageResult<MediaRefRecord>;

    fn list_media(
        &self,
        session_id: SessionId,
        message_id: MessageId,
        include_deleted: bool,
    ) -> StorageResult<Vec<MediaRefRecord>>;

    fn soft_delete_media(
        &self,
        session_id: SessionId,
        message_id: MessageId,
        media_ref_id: MediaRefId,
    ) -> StorageResult<()>;
}

/// The agent event log of a session.
pub trait AgentEventStore: Send + Sync {
    fn append_agent_event(&self, session_id: SessionId, input: NewAgentEvent) -> StorageResult<
        AgentEventRecord,
    >;

    fn list_agent_events(&self, session_id: SessionId, message_id: Option<MessageId>) -> StorageResult<
        Vec<AgentEventRecord>,
    >;
}

/// A store with all four capabilities.
pub trait Storage: SessionStore + MessageStore + MediaStore + AgentEventStore {

}

impl<T> Storage for T where T: SessionStore + MessageStore + MediaStore + AgentEventStore {

}

} // verus!
