//! The conversation storage engine.
//!
//! Sessions hold branches of messages; a message may carry media references,
//! and a session keeps a log of agent events. The engine decides what is
//! asked of the database and what its replies mean ([`protocol`]); a driver
//! outside this crate carries the statements to the database.

pub mod agent_events;
pub mod bootstrap;
pub mod clock;
pub mod error;
pub mod fork;
pub mod ids;
pub mod import;
pub mod legacy;
pub mod media;
pub mod messages;
pub mod protocol;
pub mod rows;
pub mod sessions;
pub mod sql;
pub mod store;
pub mod types;

pub use error::{StorageError, StorageResult};
pub use ids::{AgentEventId, BranchId, MediaRefId, MessageId, SessionId};
pub use import::{LegacyImportReport, LEGACY_CONVERSATIONS_TSV_RELATIVE_PATH};
pub use legacy::LegacyImportWarning;
pub use store::{AgentEventStore, MediaStore, MessageStore, SessionStore, Storage};
pub use types::{
    AgentEventRecord, HistoryForkOutcome, HistoryForkRequest, MediaRefRecord, MessageIdRemap,
    MessagePatch, MessageRecord, MessageRole, NewAgentEvent, NewMediaRef, NewMessage, NewSession,
    SessionPatch, SessionRecord, DEFAULT_SESSION_TITLE,
};
