//! The agent event log: append and list. Events are never changed or
//! deleted.

use vstd::prelude::*;
use crate::storage::clock::unix_timestamp_seconds;
use crate::storage::error::{Fault, StorageError, StorageResult};
use crate::storage::ids::{is_version_7, AgentEventId, MessageId, SessionId};
use crate::storage::media::{ensure_message_in_session, message_in_session_of};
use crate::storage::protocol::{
    affected_of, agent_events_of, exists_of, expect_affected, expect_agent_events, expect_exists,
    expect_one_integer, one_integer_of, Action, Operation, Outcome, Reply, Step,
};
use crate::storage::rows::{
    agent_event_record_of, agent_event_rows_to_records, agrees, i64_to_u64, maps_all, to_u64,
    AgentEventRow,
};
use crate::storage::sessions::{session_missing, session_not_found};
use crate::storage::sql::Query;
use crate::storage::types::{AgentEventRecord, NewAgentEvent};

verus! {

/// What the reply to a query for a session says of the session: nothing
/// where the query found it, `NotFound` under `stage` where it did not.
pub open spec fn session_in_scope_of(reply: Reply, session_id: SessionId, stage: Seq<char>) -> Result<
    (),
    Fault,
> {
    match exists_of(reply, "session-exists-query"@) {
        Err(fault) => Err(fault),
        Ok(exists) => if exists {
            Ok(())
        } else {
            Err(session_not_found(stage, session_id))
        },
    }
}

/// Checks, from the reply to a query for a session, that the query found
/// the session.
pub fn ensure_session_in_scope(reply: Reply, session_id: SessionId, stage: &'static str) -> (result:
    StorageResult<()>)
    ensures
        agrees(result, session_in_scope_of(reply, session_id, stage@)),
{
    match expect_exists(reply, "session-exists-query") {
        Err(error) => Err(error),
        Ok(exists) => if exists {
            Ok(())
        } else {
            Err(session_missing(stage, session_id))
        },
    }
}

/// The query that asks whether the scope of a listing exists: the message,
/// where there is one, as a live message of the session; else the session,
/// soft-deleted or not.
pub open spec fn scope_query(session_id: SessionId, message_id: Option<MessageId>) -> Query {
    match message_id {
        Some(message_id) => Query::MessageExists { session_id, id: message_id },
        None => Query::SessionExists { id: session_id },
    }
}

fn scope_check(session_id: SessionId, message_id: Option<MessageId>) -> (query: Query)
    ensures
        query == scope_query(session_id, message_id),
{
    match message_id {
        Some(message_id) => Query::MessageExists { session_id, id: message_id },
        None => Query::SessionExists { id: session_id },
    }
}

/// The query that asks whether a new event has something live to attach
/// to: the message, where there is one, as a live message of the session;
/// else the session, which must not be soft-deleted.
pub open spec fn live_scope_query(session_id: SessionId, message_id: Option<MessageId>) -> Query {
    match message_id {
        Some(message_id) => Query::MessageExists { session_id, id: message_id },
        None => Query::SessionLive { id: session_id },
    }
}

fn live_scope_check(session_id: SessionId, message_id: Option<MessageId>) -> (query: Query)
    ensures
        query == live_scope_query(session_id, message_id),
{
    match message_id {
        Some(message_id) => Query::MessageExists { session_id, id: message_id },
        None => Query::SessionLive { id: session_id },
    }
}

/// What the reply to the scope query says of the scope of an event.
pub open spec fn scope_of(
    reply: Reply,
    session_id: SessionId,
    message_id: Option<MessageId>,
    message_stage: Seq<char>,
    session_stage: Seq<char>,
) -> Result<(), Fault> {
    match message_id {
        Some(message_id) => message_in_session_of(reply, message_id, message_stage),
        None => session_in_scope_of(reply, session_id, session_stage),
    }
}

fn ensure_scope(
    reply: Reply,
    session_id: SessionId,
    message_id: Option<MessageId>,
    message_stage: &'static str,
    session_stage: &'static str,
) -> (result: StorageResult<()>)
    ensures
        agrees(result, scope_of(reply, session_id, message_id, message_stage@, session_stage@)),
{
    match message_id {
        Some(message_id) => ensure_message_in_session(reply, message_id, message_stage),
        None => ensure_session_in_scope(reply, session_id, session_stage),
    }
}

/// The fault of a payload that is not JSON.
pub open spec fn invalid_json_fault() -> Fault {
    Fault::Conflict {
        stage: "agent-event-append-invalid-json"@,
        entity: "agent_event"@,
        details: "payload_json must be valid canonical JSON text"@,
    }
}

/// Where the append of an event stands.
#[derive(Debug, Clone, Copy, PartialEq, Eq, Structural)]
pub enum EventPhase {
    Ensure,
    Validate,
    Insert,
}

/// Appends an event to the log of a session, attached to a live message of
/// the session or to the session itself, which must then be live: an event
/// without a message is refused for a session that is soft-deleted. The
/// payload must be JSON.
#[derive(Debug)]
pub struct AppendAgentEvent {
    pub session_id: SessionId,
    pub event_id: AgentEventId,
    pub input: NewAgentEvent,
    pub now: i64,
    pub phase: EventPhase,
}

impl AppendAgentEvent {
    /// An append with a fresh identifier of version 7, at the current time.
    pub fn new(session_id: SessionId, input: NewAgentEvent) -> (op: Self)
        ensures
            op.session_id == session_id,
            is_version_7(op.event_id.0),
            op.input == input,
            op.phase == EventPhase::Ensure,
    {
        AppendAgentEvent {
            session_id,
            event_id: AgentEventId::new_v7(),
            input,
            now: unix_timestamp_seconds(),
            phase: EventPhase::Ensure,
        }
    }

    /// The event that the append reports.
    pub open spec fn appended(self) -> Result<AgentEventRecord, Fault> {
        match to_u64(self.now, "agent-event-append-created-at"@) {
            Err(fault) => Err(fault),
            Ok(created) => Ok(
                AgentEventRecord {
                    id: self.event_id,
                    session_id: self.session_id,
                    message_id: self.input.message_id,
                    event_type: self.input.event_type,
                    payload_json: self.input.payload_json,
                    created_at_unix_seconds: created,
                },
            ),
        }
    }

    /// The step after `reply`: the live message or the live session must
    /// have been found, and the database must find the payload valid, before
    /// the event is inserted.
    pub open spec fn next(self, reply: Reply) -> Outcome<Self, AgentEventRecord> {
        match self.phase {
            EventPhase::Ensure => match scope_of(
                reply,
                self.session_id,
                self.input.message_id,
                "agent-event-append-ensure-message"@,
                "agent-event-append-ensure-session"@,
            ) {
                Err(fault) => Outcome::Fail(fault),
                Ok(_) => Outcome::Run(
                    AppendAgentEvent { phase: EventPhase::Validate, ..self },
                    Action::Fetch(Query::JsonValid { payload: self.input.payload_json }),
                ),
            },
            EventPhase::Validate => match one_integer_of(
                reply,
                "agent-event-append-validate-json"@,
            ) {
                Err(fault) => Outcome::Fail(fault),
                Ok(valid) => if valid == 1 {
                    Outcome::Run(
                        AppendAgentEvent { phase: EventPhase::Insert, ..self },
                        Action::Execute(
                            Query::InsertAgentEvent {
                                id: self.event_id,
                                session_id: self.session_id,
                                message_id: self.input.message_id,
                                event_type: self.input.event_type,
                                payload_json: self.input.payload_json,
                                at: self.now,
                            },
                        ),
                    )
                } else {
                    Outcome::Fail(invalid_json_fault())
                },
            },
            EventPhase::Insert => match affected_of(reply, "agent-event-append-insert"@) {
                Err(fault) => Outcome::Fail(fault),
                Ok(_) => match self.appended() {
                    Err(fault) => Outcome::Fail(fault),
                    Ok(record) => Outcome::Done(record),
                },
            },
        }
    }
}

impl Operation for AppendAgentEvent {
    type Output = AgentEventRecord;

    fn connect_stage(&self) -> (stage: &'static str)
        ensures
            stage@ == "agent-event-append-connect"@,
    {
        "agent-event-append-connect"
    }

    /// Asks for the live message, or for the live session, that the event
    /// attaches to.
    fn start(self) -> (step: Step<Self, AgentEventRecord>)
        ensures
            step == Step::<Self, AgentEventRecord>::Run(
                self,
                Action::Fetch(live_scope_query(self.session_id, self.input.message_id)),
            ),
    {
        let query = live_scope_check(self.session_id, self.input.message_id);
        Step::Run(self, Action::Fetch(query))
    }

    fn resume(self, reply: Reply) -> (step: Step<Self, AgentEventRecord>)
        ensures
            step.outcome() == self.next(reply),
    {
        match self.phase {
            EventPhase::Ensure => match ensure_scope(
                reply,
                self.session_id,
                self.input.message_id,
                "agent-event-append-ensure-message",
                "agent-event-append-ensure-session",
            ) {
                Err(error) => Step::Finish(Err(error)),
                Ok(_) => {
                    let query = Query::JsonValid { payload: self.input.payload_json.clone() };
                    Step::Run(
                        AppendAgentEvent { phase: EventPhase::Validate, ..self },
                        Action::Fetch(query),
                    )
                },
            },
            EventPhase::Validate => match expect_one_integer(
                reply,
                "agent-event-append-validate-json",
            ) {
                Err(error) => Step::Finish(Err(error)),
                Ok(valid) => if valid == 1 {
                    let query = Query::InsertAgentEvent {
                        id: self.event_id,
                        session_id: self.session_id,
                        message_id: self.input.message_id,
                        event_type: self.input.event_type.clone(),
                        payload_json: self.input.payload_json.clone(),
                        at: self.now,
                    };
                    Step::Run(
                        AppendAgentEvent { phase: EventPhase::Insert, ..self },
                        Action::Execute(query),
                    )
                } else {
                    Step::Finish(
                        Err(
                            StorageError::Conflict {
                                stage: "agent-event-append-invalid-json",
                                entity: "agent_event",
                                details: "payload_json must be valid canonical JSON text".to_owned(),
                            },
                        ),
                    )
                },
            },
            EventPhase::Insert => match expect_affected(reply, "agent-event-append-insert") {
                Err(error) => Step::Finish(Err(error)),
                Ok(_) => match i64_to_u64(self.now, "agent-event-append-created-at") {
                    Err(error) => Step::Finish(Err(error)),
                    Ok(created) => Step::Finish(
                        Ok(
                            AgentEventRecord {
                                id: self.event_id,
                                session_id: self.session_id,
                                message_id: self.input.message_id,
                                event_type: self.input.event_type,
                                payload_json: self.input.payload_json,
                                created_at_unix_seconds: created,
                            },
                        ),
                    ),
                },
            },
        }
    }
}

/// Where the listing of events stands.
#[derive(Debug, Clone, Copy, PartialEq, Eq, Structural)]
pub enum EventListPhase {
    Ensure,
    Query,
}

/// Lists the events of a session, or of one live message of it, oldest
/// first.
#[derive(Debug, Clone, Copy, PartialEq, Eq, Structural)]
pub struct ListAgentEvents {
    pub session_id: SessionId,
    pub message_id: Option<MessageId>,
    pub phase: EventListPhase,
}

/// The stage under which a failure of the listing query is reported.
pub open spec fn list_stage(message_id: Option<MessageId>) -> Seq<char> {
    if message_id is Some {
        "agent-event-list-query-message"@
    } else {
        "agent-event-list-query-session"@
    }
}

impl ListAgentEvents {
    /// A listing of the events of a session, or of one message of it.
    pub fn new(session_id: SessionId, message_id: Option<MessageId>) -> (op: Self)
        ensures
            op == (ListAgentEvents { session_id, message_id, phase: EventListPhase::Ensure }),
    {
        ListAgentEvents { session_id, message_id, phase: EventListPhase::Ensure }
    }
}

impl Operation for ListAgentEvents {
    type Output = Vec<AgentEventRecord>;

    fn connect_stage(&self) -> (stage: &'static str)
        ensures
            stage@ == "agent-event-list-connect"@,
    {
        "agent-event-list-connect"
    }

    fn start(self) -> (step: Step<Self, Vec<AgentEventRecord>>)
        ensures
            step == Step::<Self, Vec<AgentEventRecord>>::Run(
                self,
                Action::Fetch(scope_query(self.session_id, self.message_id)),
            ),
    {
        let query = scope_check(self.session_id, self.message_id);
        Step::Run(self, Action::Fetch(query))
    }

    /// After the check of the scope, asks for the events; then finishes with
    /// the records of the rows, in the order of the reply.
    fn resume(self, reply: Reply) -> (step: Step<Self, Vec<AgentEventRecord>>)
        ensures
            self.phase == EventListPhase::Ensure ==> step.outcome() == (match scope_of(
                reply,
                self.session_id,
                self.message_id,
                "agent-event-list-ensure-message"@,
                "agent-event-list-ensure-session"@,
            ) {
                Err(fault) => Outcome::<Self, Vec<AgentEventRecord>>::Fail(fault),
                Ok(_) => Outcome::Run(
                    ListAgentEvents { phase: EventListPhase::Query, ..self },
                    Action::Fetch(
                        Query::ListAgentEvents {
                            session_id: self.session_id,
                            message_id: self.message_id,
                        },
                    ),
                ),
            }),
            self.phase == EventListPhase::Query ==> (match agent_events_of(
                reply,
                list_stage(self.message_id),
            ) {
                Err(fault) => step.outcome() == Outcome::<Self, Vec<AgentEventRecord>>::Fail(fault),
                Ok(rows) => step matches Step::Finish(result) && maps_all(
                    rows@,
                    |row: AgentEventRow| agent_event_record_of(row),
                    result,
                ),
            }),
    {
        match self.phase {
            EventListPhase::Ensure => match ensure_scope(
                reply,
                self.session_id,
                self.message_id,
                "agent-event-list-ensure-message",
                "agent-event-list-ensure-session",
            ) {
                Err(error) => Step::Finish(Err(error)),
                Ok(_) => Step::Run(
                    ListAgentEvents { phase: EventListPhase::Query, ..self },
                    Action::Fetch(
                        Query::ListAgentEvents {
                            session_id: self.session_id,
                            message_id: self.message_id,
                        },
                    ),
                ),
            },
            EventListPhase::Query => {
                let stage = if self.message_id.is_some() {
                    "agent-event-list-query-message"
                } else {
                    "agent-event-list-query-session"
                };
                match expect_agent_events(reply, stage) {
                    Err(error) => Step::Finish(Err(error)),
                    Ok(rows) => Step::Finish(agent_event_rows_to_records(rows)),
                }
            },
        }
    }
}


/// An event without a message is attached to a live session only. The
/// append asks for the session among those that are not soft-deleted; where
/// the reply has no row, because the session is not there or is
/// soft-deleted, it reports `NotFound` for the session and sends nothing
/// more, so that no event is written.
pub proof fn lemma_event_needs_a_live_session(op: AppendAgentEvent, found: Vec<i64>)
    requires
        op.phase == EventPhase::Ensure,
        op.input.message_id is None,
        found@.len() == 0,
    ensures
        live_scope_query(op.session_id, op.input.message_id) == (Query::SessionLive {
            id: op.session_id,
        }),
        (Query::SessionLive { id: op.session_id }).text()
            == "SELECT 1 FROM sessions WHERE id = ? AND deleted_at IS NULL LIMIT 1"@,
        op.next(Reply::Rows(crate::storage::protocol::Rows::Integers(found))) == Outcome::<
            AppendAgentEvent,
            AgentEventRecord,
        >::Fail(session_not_found("agent-event-append-ensure-session"@, op.session_id)),
{
}

} // verus!
