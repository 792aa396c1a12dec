//! The chat domain: conversations, messages, and the life cycle of a
//! streamed answer.

pub mod bridge;
pub mod events;
pub mod message;

pub use events::{
    ConversationSelected, ModelChanged, Stop, StreamEventMapped, StreamEventPayload, Submit,
};
pub use message::{
    Conversation, ConversationId, Message, MessageId, MessageStatus, Role, StreamSessionId,
    StreamState, StreamTarget, StreamTransition, StreamTransitionRejection, StreamTransitionResult,
};
