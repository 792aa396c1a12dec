//! Conversations, messages, and the state of a streamed answer.

use vstd::prelude::*;

verus! {

/// Stable identifier for one conversation.
#[derive(Debug, Clone, Copy, PartialEq, Eq, Structural, Hash, PartialOrd, Ord)]
pub struct ConversationId(pub u64);

impl ConversationId {
    /// Creates a typed conversation identifier.
    pub fn new(raw: u64) -> (id: Self)
        ensures
            id == ConversationId(raw),
    {
        ConversationId(raw)
    }
}

/// Stable identifier for one message.
#[derive(Debug, Clone, Copy, PartialEq, Eq, Structural, Hash, PartialOrd, Ord)]
pub struct MessageId(pub u64);

impl MessageId {
    /// Creates a typed message identifier.
    pub fn new(raw: u64) -> (id: Self)
        ensures
            id == MessageId(raw),
    {
        MessageId(raw)
    }
}

/// Identifier for one streaming generation session.
///
/// It changes on every submit and retry, so that chunks of an earlier
/// session can be told apart and rejected.
#[derive(Debug, Clone, Copy, PartialEq, Eq, Structural, Hash, PartialOrd, Ord)]
pub struct StreamSessionId(pub u64);

impl StreamSessionId {
    /// Creates a typed stream session identifier.
    pub fn new(raw: u64) -> (id: Self)
        ensures
            id == StreamSessionId(raw),
    {
        StreamSessionId(raw)
    }
}

/// Stream routing key used for stale-chunk rejection.
#[derive(Debug, Clone, Copy, PartialEq, Eq, Structural, Hash)]
pub struct StreamTarget {
    pub conversation_id: ConversationId,
    pub session_id: StreamSessionId,
}

impl StreamTarget {
    /// Builds a full stream target from conversation and session IDs.
    pub fn new(conversation_id: ConversationId, session_id: StreamSessionId) -> (target: Self)
        ensures
            target == (StreamTarget { conversation_id, session_id }),
    {
        StreamTarget { conversation_id, session_id }
    }
}

/// Chat speaker role.
#[derive(Debug, Clone, Copy, PartialEq, Eq, Structural, Hash)]
pub enum Role {
    System,
    User,
    Assistant,
}

/// Lifecycle status for one message.
#[derive(Debug, Clone, PartialEq, Eq)]
pub enum MessageStatus {
    Pending,
    Streaming(StreamSessionId),
    Done,
    Error(String),
    Cancelled,
}

/// Core immutable message model.
#[derive(Debug, Clone, PartialEq, Eq)]
pub struct Message {
    pub id: MessageId,
    pub role: Role,
    pub content: String,
    pub status: MessageStatus,
}

impl Message {
    /// Creates a message with explicit status.
    pub fn new(id: MessageId, role: Role, content: String, status: MessageStatus) -> (message: Self)
        ensures
            message == (Message { id, role, content, status }),
    {
        Message { id, role, content, status }
    }

    /// Creates a pending user message before stream starts.
    pub fn user_pending(id: MessageId, content: String) -> (message: Self)
        ensures
            message == (Message { id, role: Role::User, content, status: MessageStatus::Pending }),
    {
        Message::new(id, Role::User, content, MessageStatus::Pending)
    }

    /// Creates an empty assistant placeholder while streaming.
    pub fn assistant_streaming(id: MessageId, session_id: StreamSessionId) -> (message: Self)
        ensures
            message.id == id,
            message.role == Role::Assistant,
            message.content@ == Seq::<char>::empty(),
            message.status == MessageStatus::Streaming(session_id),
    {
        Message::new(id, Role::Assistant, String::new(), MessageStatus::Streaming(session_id))
    }
}

/// Stream state boundary for conversation orchestration.
#[derive(Debug, Clone, PartialEq, Eq)]
pub enum StreamState {
    Idle,
    Streaming(StreamTarget),
    Done(StreamTarget),
    Error { target: StreamTarget, message: String },
    Cancelled(StreamTarget),
}

impl Default for StreamState {
    fn default() -> (state: Self)
        ensures
            state == StreamState::Idle,
    {
        StreamState::Idle
    }
}

/// State transition input for stream lifecycle.
#[derive(Debug, Clone, PartialEq, Eq)]
pub enum StreamTransition {
    Start(StreamTarget),
    Complete(StreamTarget),
    Fail { target: StreamTarget, message: String },
    Cancel(StreamTarget),
    ResetToIdle,
}

/// Rejection reason for illegal stream transitions.
#[derive(Debug, Clone, PartialEq, Eq)]
pub enum StreamTransitionRejection {
    AlreadyStreaming { active: StreamTarget, attempted: StreamTarget },
    NoActiveStream,
    SessionMismatch { active: StreamTarget, attempted: StreamTarget },
}

/// Result type for stream transition application.
pub type StreamTransitionResult = Result<StreamState, StreamTransitionRejection>;

impl StreamState {
    /// The target that is streaming, if one is.
    pub open spec fn active(self) -> Option<StreamTarget> {
        match self {
            StreamState::Streaming(target) => Some(target),
            _ => None,
        }
    }

    /// What the end of the stream of `target` leads to: the state `ended`
    /// where `target` is the one streaming, a mismatch where another is, and
    /// `NoActiveStream` where none is.
    pub open spec fn ended(self, target: StreamTarget, ended: StreamState) -> StreamTransitionResult {
        match self.active() {
            Some(active) => if active == target {
                Ok(ended)
            } else {
                Err(StreamTransitionRejection::SessionMismatch { active, attempted: target })
            },
            None => Err(StreamTransitionRejection::NoActiveStream),
        }
    }

    /// What a transition leads to. A stream starts from every state but
    /// that of another target streaming; it ends only for the target that
    /// is streaming; a reset always leads to `Idle`.
    pub open spec fn applied(self, transition: StreamTransition) -> StreamTransitionResult {
        match transition {
            StreamTransition::Start(target) => match self.active() {
                Some(active) => if active == target {
                    Ok(self)
                } else {
                    Err(StreamTransitionRejection::AlreadyStreaming { active, attempted: target })
                },
                None => Ok(StreamState::Streaming(target)),
            },
            StreamTransition::Complete(target) => self.ended(target, StreamState::Done(target)),
            StreamTransition::Fail { target, message } => self.ended(
                target,
                StreamState::Error { target, message },
            ),
            StreamTransition::Cancel(target) => self.ended(target, StreamState::Cancelled(target)),
            StreamTransition::ResetToIdle => Ok(StreamState::Idle),
        }
    }

    /// Returns active streaming target if and only if state is `Streaming`.
    pub fn active_target(&self) -> (target: Option<StreamTarget>)
        ensures
            target == self.active(),
    {
        match self {
            StreamState::Streaming(target) => Some(*target),
            _ => None,
        }
    }

    /// Returns true when incoming stream data matches the active session.
    pub fn accepts_stream_event(&self, target: StreamTarget) -> (accepted: bool)
        ensures
            accepted == (self.active() == Some(target)),
    {
        match self {
            StreamState::Streaming(active) => *active == target,
            _ => false,
        }
    }

    /// Applies one transition deterministically.
    ///
    /// Non-streaming states may start a new session directly. Any terminal
    /// transition (`Complete`, `Fail`, `Cancel`) must match the currently
    /// active session exactly.
    pub fn apply(&self, transition: StreamTransition) -> (result: StreamTransitionResult)
        ensures
            result == self.applied(transition),
    {
        match transition {
            StreamTransition::Start(target) => self.apply_start(target),
            StreamTransition::Complete(target) => self.apply_complete(target),
            StreamTransition::Fail { target, message } => self.apply_fail(target, message),
            StreamTransition::Cancel(target) => self.apply_cancel(target),
            StreamTransition::ResetToIdle => Ok(StreamState::Idle),
        }
    }

    /// Starts the stream of `target`.
    pub fn apply_start(&self, target: StreamTarget) -> (result: StreamTransitionResult)
        ensures
            result == self.applied(StreamTransition::Start(target)),
    {
        match self {
            StreamState::Streaming(active) => if *active != target {
                Err(StreamTransitionRejection::AlreadyStreaming { active: *active, attempted: target })
            } else {
                Ok(StreamState::Streaming(*active))
            },
            _ => Ok(StreamState::Streaming(target)),
        }
    }

    /// Ends the stream of `target` as done.
    pub fn apply_complete(&self, target: StreamTarget) -> (result: StreamTransitionResult)
        ensures
            result == self.applied(StreamTransition::Complete(target)),
    {
        match self {
            StreamState::Streaming(active) => if *active == target {
                Ok(StreamState::Done(target))
            } else {
                Err(StreamTransitionRejection::SessionMismatch { active: *active, attempted: target })
            },
            _ => Err(StreamTransitionRejection::NoActiveStream),
        }
    }

    /// Ends the stream of `target` with an error.
    pub fn apply_fail(&self, target: StreamTarget, message: String) -> (result:
        StreamTransitionResult)
        ensures
            result == self.applied(StreamTransition::Fail { target, message }),
    {
        match self {
            StreamState::Streaming(active) => if *active == target {
                Ok(StreamState::Error { target, message })
            } else {
                Err(StreamTransitionRejection::SessionMismatch { active: *active, attempted: target })
            },
            _ => Err(StreamTransitionRejection::NoActiveStream),
        }
    }

    /// Ends the stream of `target` as cancelled.
    pub fn apply_cancel(&self, target: StreamTarget) -> (result: StreamTransitionResult)
        ensures
            result == self.applied(StreamTransition::Cancel(target)),
    {
        match self {
            StreamState::Streaming(active) => if *active == target {
                Ok(StreamState::Cancelled(target))
            } else {
                Err(StreamTransitionRejection::SessionMismatch { active: *active, attempted: target })
            },
            _ => Err(StreamTransitionRejection::NoActiveStream),
        }
    }

    fn duplicate(&self) -> (copy: Self)
        ensures
            copy == *self,
    {
        match self {
            StreamState::Idle => StreamState::Idle,
            StreamState::Streaming(target) => StreamState::Streaming(*target),
            StreamState::Done(target) => StreamState::Done(*target),
            StreamState::Error { target, message } => StreamState::Error {
                target: *target,
                message: message.clone(),
            },
            StreamState::Cancelled(target) => StreamState::Cancelled(*target),
        }
    }
}

/// Conversation aggregate root for chat state.
#[derive(Debug, Clone, PartialEq, Eq)]
pub struct Conversation {
    pub id: ConversationId,
    pub title: String,
    pub messages: Vec<Message>,
    pub stream_state: StreamState,
}

impl Conversation {
    /// Creates an empty conversation in idle state.
    pub fn new(id: ConversationId, title: String) -> (conversation: Self)
        ensures
            conversation.id == id,
            conversation.title == title,
            conversation.messages@.len() == 0,
            conversation.stream_state == StreamState::Idle,
    {
        Conversation { id, title, messages: Vec::new(), stream_state: StreamState::Idle }
    }

    /// Applies a deterministic stream transition: an accepted one becomes
    /// the state of the conversation, a rejected one changes nothing.
    pub fn apply_stream_transition(&mut self, transition: StreamTransition) -> (result:
        StreamTransitionResult)
        ensures
            result == old(self).stream_state.applied(transition),
            final(self).id == old(self).id,
            final(self).title == old(self).title,
            final(self).messages == old(self).messages,
            final(self).stream_state == (match result {
                Ok(state) => state,
                Err(_) => old(self).stream_state,
            }),
    {
        match self.stream_state.apply(transition) {
            Ok(next_state) => {
                self.stream_state = next_state.duplicate();
                Ok(next_state)
            },
            Err(rejection) => Err(rejection),
        }
    }
}

/// A stream event is accepted exactly where the end of its stream would be:
/// completing, failing and cancelling succeed for the target that
/// `accepts_stream_event` admits and for no other.
pub proof fn lemma_end_needs_active_target(state: StreamState, target: StreamTarget, message: String)
    ensures
        state.applied(StreamTransition::Complete(target)) is Ok <==> state.active() == Some(target),
        state.applied(StreamTransition::Fail { target, message }) is Ok <==> state.active() == Some(
            target,
        ),
        state.applied(StreamTransition::Cancel(target)) is Ok <==> state.active() == Some(target),
{
}

/// After a stream has ended, whether done, failed or cancelled, or after a
/// reset, no target is streaming, and a new stream may start for any target.
pub proof fn lemma_ended_stream_accepts_start(
    state: StreamState,
    transition: StreamTransition,
    target: StreamTarget,
)
    requires
        !(transition is Start),
        state.applied(transition) is Ok,
    ensures
        state.applied(transition)->Ok_0.active() is None,
        state.applied(transition)->Ok_0.applied(StreamTransition::Start(target)) == Ok::<
            StreamState,
            StreamTransitionRejection,
        >(StreamState::Streaming(target)),
{
}

} // verus!
