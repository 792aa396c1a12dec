//! Message operations: append, list, get, update.

use vstd::prelude::*;
use vstd::string::StringExecFns;
use crate::storage::clock::unix_timestamp_seconds;
use crate::storage::error::{Fault, StorageError, StorageResult};
use crate::storage::ids::{is_version_7, parse_outcome, BranchId, MessageId, SessionId};
use crate::storage::protocol::{
    affected_of, expect_affected, expect_first_text, expect_messages, expect_one_integer,
    first_text_of, messages_of, one_integer_of, Action, Operation, Outcome, Reply, Step,
};
use crate::storage::rows::{
    agrees, first_row, i64_to_u64, maps_all, message_record_of, message_row_to_record,
    message_rows_to_records, to_u64, MessageRow,
};
use crate::storage::sessions::{session_missing, session_not_found, ChangePhase};
use crate::storage::sql::{opt_text, Param, Query};
use crate::storage::types::{MessagePatch, MessageRecord, MessageRole, NewMessage};

verus! {

/// The fault of a message that is not there, or not in the session.
pub open spec fn message_not_found(stage: Seq<char>, id: MessageId) -> Fault {
    Fault::NotFound { stage, entity: "message"@, id: id.text() }
}

/// The error of a message that is not there, or not in the session.
pub fn message_missing(stage: &'static str, id: MessageId) -> (error: StorageError)
    ensures
        error@ == message_not_found(stage@, id),
{
    StorageError::NotFound { stage, entity: "message", id: id.to_text() }
}

/// The active branch that a reply names. No row means that the session is
/// not there or is deleted; a row without a branch breaks an invariant.
pub open spec fn active_branch_of(reply: Reply, stage: Seq<char>, session_id: SessionId) -> Result<
    BranchId,
    Fault,
> {
    match first_text_of(reply, stage) {
        Err(fault) => Err(fault),
        Ok(None) => Err(session_not_found(stage, session_id)),
        Ok(Some(None)) => Err(
            Fault::InvariantViolation {
                stage,
                details: "session '"@ + session_id.text() + "' has NULL active_branch_id"@,
            },
        ),
        Ok(Some(Some(text))) => match parse_outcome(text@, "branch-id"@) {
            Err(fault) => Err(fault),
            Ok(value) => Ok(BranchId(value)),
        },
    }
}

/// Reads the active branch of a session from the reply to `ActiveBranch`.
pub fn load_active_branch_id(reply: Reply, session_id: SessionId, stage: &'static str) -> (result:
    StorageResult<BranchId>)
    ensures
        agrees(result, active_branch_of(reply, stage@, session_id)),
{
    match expect_first_text(reply, stage) {
        Err(error) => Err(error),
        Ok(None) => Err(session_missing(stage, session_id)),
        Ok(Some(None)) => {
            let mut details = "session '".to_owned();
            details.append(session_id.to_text().as_str());
            details.append("' has NULL active_branch_id");
            Err(StorageError::InvariantViolation { stage, details })
        },
        Ok(Some(Some(text))) => BranchId::parse(text.as_str()),
    }
}

/// Where an append stands.
#[derive(Debug, Clone, Copy, PartialEq, Eq, Structural)]
pub enum AppendPhase {
    LoadActive,
    NextSeq { branch_id: BranchId },
    Insert { branch_id: BranchId, seq: i64 },
}

/// Appends a message to the active branch of a session, with the next
/// sequence number of that branch.
#[derive(Debug)]
pub struct AppendMessage {
    pub session_id: SessionId,
    pub message_id: MessageId,
    pub role: MessageRole,
    pub content: String,
    pub now: i64,
    pub phase: AppendPhase,
}

impl AppendMessage {
    /// An append with a fresh identifier of version 7, at the current time.
    pub fn new(session_id: SessionId, input: NewMessage) -> (op: Self)
        ensures
            op.session_id == session_id,
            is_version_7(op.message_id.0),
            op.role == input.role,
            op.content == input.content,
            op.phase == AppendPhase::LoadActive,
    {
        AppendMessage {
            session_id,
            message_id: MessageId::new_v7(),
            role: input.role,
            content: input.content,
            now: unix_timestamp_seconds(),
            phase: AppendPhase::LoadActive,
        }
    }

    /// The message that the append reports.
    pub open spec fn appended(self, branch_id: BranchId, seq: i64) -> Result<MessageRecord, Fault> {
        match to_u64(seq, "message-append-seq"@) {
            Err(fault) => Err(fault),
            Ok(seq) => Ok(
                MessageRecord {
                    id: self.message_id,
                    session_id: self.session_id,
                    branch_id,
                    seq,
                    role: self.role,
                    content: self.content,
                    deleted_at_unix_seconds: None,
                },
            ),
        }
    }

    /// The step after `reply`: the active branch, then its next sequence
    /// number, then the insert under exactly that branch and number.
    pub open spec fn next(self, reply: Reply) -> Outcome<Self, MessageRecord> {
        match self.phase {
            AppendPhase::LoadActive => match active_branch_of(
                reply,
                "message-append-load-active"@,
                self.session_id,
            ) {
                Err(fault) => Outcome::Fail(fault),
                Ok(branch_id) => Outcome::Run(
                    AppendMessage { phase: AppendPhase::NextSeq { branch_id }, ..self },
                    Action::Fetch(Query::NextSeq { session_id: self.session_id, branch_id }),
                ),
            },
            AppendPhase::NextSeq { branch_id } => match one_integer_of(
                reply,
                "message-append-next-seq"@,
            ) {
                Err(fault) => Outcome::Fail(fault),
                Ok(seq) => Outcome::Run(
                    AppendMessage { phase: AppendPhase::Insert { branch_id, seq }, ..self },
                    Action::Execute(
                        Query::InsertMessage {
                            id: self.message_id,
                            session_id: self.session_id,
                            branch_id,
                            seq,
                            role: self.role,
                            content: self.content,
                            at: self.now,
                        },
                    ),
                ),
            },
            AppendPhase::Insert { branch_id, seq } => match affected_of(
                reply,
                "message-append-insert"@,
            ) {
                Err(fault) => Outcome::Fail(fault),
                Ok(_) => match self.appended(branch_id, seq) {
                    Err(fault) => Outcome::Fail(fault),
                    Ok(record) => Outcome::Done(record),
                },
            },
        }
    }
}

impl Operation for AppendMessage {
    type Output = MessageRecord;

    fn connect_stage(&self) -> (stage: &'static str)
        ensures
            stage@ == "message-append-connect"@,
    {
        "message-append-connect"
    }

    fn start(self) -> (step: Step<Self, MessageRecord>)
        ensures
            step == Step::<Self, MessageRecord>::Run(
                self,
                Action::Fetch(Query::ActiveBranch { session_id: self.session_id }),
            ),
    {
        let query = Query::ActiveBranch { session_id: self.session_id };
        Step::Run(self, Action::Fetch(query))
    }

    fn resume(self, reply: Reply) -> (step: Step<Self, MessageRecord>)
        ensures
            step.outcome() == self.next(reply),
    {
        match self.phase {
            AppendPhase::LoadActive => match load_active_branch_id(
                reply,
                self.session_id,
                "message-append-load-active",
            ) {
                Err(error) => Step::Finish(Err(error)),
                Ok(branch_id) => {
                    let query = Query::NextSeq { session_id: self.session_id, branch_id };
                    Step::Run(
                        AppendMessage { phase: AppendPhase::NextSeq { branch_id }, ..self },
                        Action::Fetch(query),
                    )
                },
            },
            AppendPhase::NextSeq { branch_id } => match expect_one_integer(
                reply,
                "message-append-next-seq",
            ) {
                Err(error) => Step::Finish(Err(error)),
                Ok(seq) => {
                    let query = Query::InsertMessage {
                        id: self.message_id,
                        session_id: self.session_id,
                        branch_id,
                        seq,
                        role: self.role,
                        content: self.content.clone(),
                        at: self.now,
                    };
                    Step::Run(
                        AppendMessage { phase: AppendPhase::Insert { branch_id, seq }, ..self },
                        Action::Execute(query),
                    )
                },
            },
            AppendPhase::Insert { branch_id, seq } => match expect_affected(
                reply,
                "message-append-insert",
            ) {
                Err(error) => Step::Finish(Err(error)),
                Ok(_) => match i64_to_u64(seq, "message-append-seq") {
                    Err(error) => Step::Finish(Err(error)),
                    Ok(seq) => Step::Finish(
                        Ok(
                            MessageRecord {
                                id: self.message_id,
                                session_id: self.session_id,
                                branch_id,
                                seq,
                                role: self.role,
                                content: self.content,
                                deleted_at_unix_seconds: None,
                            },
                        ),
                    ),
                },
            },
        }
    }
}

/// Where a listing stands.
#[derive(Debug, Clone, Copy, PartialEq, Eq, Structural)]
pub enum ListPhase {
    LoadActive,
    Query,
}

/// Lists the live messages of the active branch of a session, by sequence
/// number.
#[derive(Debug, Clone, Copy, PartialEq, Eq, Structural)]
pub struct ListMessages {
    pub session_id: SessionId,
    pub phase: ListPhase,
}

impl ListMessages {
    /// A listing of the active branch of a session.
    pub fn new(session_id: SessionId) -> (op: Self)
        ensures
            op == (ListMessages { session_id, phase: ListPhase::LoadActive }),
    {
        ListMessages { session_id, phase: ListPhase::LoadActive }
    }
}

impl Operation for ListMessages {
    type Output = Vec<MessageRecord>;

    fn connect_stage(&self) -> (stage: &'static str)
        ensures
            stage@ == "message-list-connect"@,
    {
        "message-list-connect"
    }

    fn start(self) -> (step: Step<Self, Vec<MessageRecord>>)
        ensures
            step == Step::<Self, Vec<MessageRecord>>::Run(
                self,
                Action::Fetch(Query::ActiveBranch { session_id: self.session_id }),
            ),
    {
        Step::Run(self, Action::Fetch(Query::ActiveBranch { session_id: self.session_id }))
    }

    /// After the active branch, asks for its messages; then finishes with
    /// the records of the rows, in the order of the reply.
    fn resume(self, reply: Reply) -> (step: Step<Self, Vec<MessageRecord>>)
        ensures
            self.phase == ListPhase::LoadActive ==> step.outcome() == (match active_branch_of(
                reply,
                "message-list-load-active"@,
                self.session_id,
            ) {
                Err(fault) => Outcome::<Self, Vec<MessageRecord>>::Fail(fault),
                Ok(branch_id) => Outcome::Run(
                    ListMessages { phase: ListPhase::Query, ..self },
                    Action::Fetch(Query::ListMessages { session_id: self.session_id, branch_id }),
                ),
            }),
            self.phase == ListPhase::Query ==> (match messages_of(reply, "message-list-query"@) {
                Err(fault) => step.outcome() == Outcome::<Self, Vec<MessageRecord>>::Fail(fault),
                Ok(rows) => step matches Step::Finish(result) && maps_all(
                    rows@,
                    |row: MessageRow| message_record_of(row),
                    result,
                ),
            }),
    {
        match self.phase {
            ListPhase::LoadActive => match load_active_branch_id(
                reply,
                self.session_id,
                "message-list-load-active",
            ) {
                Err(error) => Step::Finish(Err(error)),
                Ok(branch_id) => Step::Run(
                    ListMessages { phase: ListPhase::Query, ..self },
                    Action::Fetch(Query::ListMessages { session_id: self.session_id, branch_id }),
                ),
            },
            ListPhase::Query => match expect_messages(reply, "message-list-query") {
                Err(error) => Step::Finish(Err(error)),
                Ok(rows) => Step::Finish(message_rows_to_records(rows)),
            },
        }
    }
}

/// The message of the first row, if there is a row.
pub open spec fn first_message_of(rows: Seq<MessageRow>) -> Result<Option<MessageRecord>, Fault> {
    if rows.len() == 0 {
        Ok(None)
    } else {
        match message_record_of(rows[0]) {
            Ok(record) => Ok(Some(record)),
            Err(fault) => Err(fault),
        }
    }
}

fn first_message(rows: Vec<MessageRow>) -> (result: StorageResult<Option<MessageRecord>>)
    ensures
        agrees(result, first_message_of(rows@)),
{
    match first_row(rows) {
        None => Ok(None),
        Some(row) => match message_row_to_record(row) {
            Ok(record) => Ok(Some(record)),
            Err(error) => Err(error),
        },
    }
}

/// Looks a live message up within a session.
#[derive(Debug, Clone, Copy, PartialEq, Eq, Structural)]
pub struct GetMessage {
    pub session_id: SessionId,
    pub message_id: MessageId,
}

impl GetMessage {
    /// A lookup of one message within a session.
    pub fn new(session_id: SessionId, message_id: MessageId) -> (op: Self)
        ensures
            op == (GetMessage { session_id, message_id }),
    {
        GetMessage { session_id, message_id }
    }

    /// The message of the first row returned, or `None` without a row.
    pub open spec fn next(self, reply: Reply) -> Outcome<Self, Option<MessageRecord>> {
        match messages_of(reply, "message-get-query"@) {
            Err(fault) => Outcome::Fail(fault),
            Ok(rows) => match first_message_of(rows@) {
                Err(fault) => Outcome::Fail(fault),
                Ok(found) => Outcome::Done(found),
            },
        }
    }
}

impl Operation for GetMessage {
    type Output = Option<MessageRecord>;

    fn connect_stage(&self) -> (stage: &'static str)
        ensures
            stage@ == "message-get-connect"@,
    {
        "message-get-connect"
    }

    fn start(self) -> (step: Step<Self, Option<MessageRecord>>)
        ensures
            step == Step::<Self, Option<MessageRecord>>::Run(
                self,
                Action::Fetch(
                    Query::GetMessage { session_id: self.session_id, id: self.message_id },
                ),
            ),
    {
        Step::Run(
            self,
            Action::Fetch(Query::GetMessage { session_id: self.session_id, id: self.message_id }),
        )
    }

    fn resume(self, reply: Reply) -> (step: Step<Self, Option<MessageRecord>>)
        ensures
            step.outcome() == self.next(reply),
    {
        match expect_messages(reply, "message-get-query") {
            Err(error) => Step::Finish(Err(error)),
            Ok(rows) => Step::Finish(first_message(rows)),
        }
    }
}

/// Sets the content of a live message of a session, where the patch has
/// one, and reports the message as it then is.
#[derive(Debug)]
pub struct UpdateMessage {
    pub session_id: SessionId,
    pub message_id: MessageId,
    pub content: Option<String>,
    pub now: i64,
    pub phase: ChangePhase,
}

impl UpdateMessage {
    /// An update at the current time.
    pub fn new(session_id: SessionId, message_id: MessageId, patch: MessagePatch) -> (op: Self)
        ensures
            op.session_id == session_id,
            op.message_id == message_id,
            op.content == patch.content,
            op.phase == ChangePhase::Apply,
    {
        UpdateMessage {
            session_id,
            message_id,
            content: patch.content,
            now: unix_timestamp_seconds(),
            phase: ChangePhase::Apply,
        }
    }

    /// The step after `reply`. An update that changed no row, because the
    /// message is not there or not in this session, reports `NotFound` and
    /// sends nothing more.
    pub open spec fn next(self, reply: Reply) -> Outcome<Self, MessageRecord> {
        match self.phase {
            ChangePhase::Apply => match affected_of(reply, "message-update-apply"@) {
                Err(fault) => Outcome::Fail(fault),
                Ok(count) => if count == 0 {
                    Outcome::Fail(message_not_found("message-update-missing"@, self.message_id))
                } else {
                    Outcome::Run(
                        UpdateMessage { phase: ChangePhase::Follow, ..self },
                        Action::Fetch(
                            Query::GetMessage { session_id: self.session_id, id: self.message_id },
                        ),
                    )
                },
            },
            ChangePhase::Follow => match messages_of(reply, "message-update-load"@) {
                Err(fault) => Outcome::Fail(fault),
                Ok(rows) => match first_message_of(rows@) {
                    Err(fault) => Outcome::Fail(fault),
                    Ok(None) => Outcome::Fail(
                        message_not_found("message-update-load-missing"@, self.message_id),
                    ),
                    Ok(Some(record)) => Outcome::Done(record),
                },
            },
        }
    }
}

impl Operation for UpdateMessage {
    type Output = MessageRecord;

    fn connect_stage(&self) -> (stage: &'static str)
        ensures
            stage@ == "message-update-connect"@,
    {
        "message-update-connect"
    }

    /// Sends the update, scoped by session and message, which takes the
    /// content out of the state.
    fn start(self) -> (step: Step<Self, MessageRecord>)
        ensures
            step == Step::<Self, MessageRecord>::Run(
                UpdateMessage { content: None, ..self },
                Action::Execute(
                    Query::UpdateMessage {
                        session_id: self.session_id,
                        id: self.message_id,
                        content: self.content,
                        at: self.now,
                    },
                ),
            ),
    {
        let query = Query::UpdateMessage {
            session_id: self.session_id,
            id: self.message_id,
            content: self.content,
            at: self.now,
        };
        Step::Run(
            UpdateMessage {
                session_id: self.session_id,
                message_id: self.message_id,
                content: None,
                now: self.now,
                phase: self.phase,
            },
            Action::Execute(query),
        )
    }

    fn resume(self, reply: Reply) -> (step: Step<Self, MessageRecord>)
        ensures
            step.outcome() == self.next(reply),
    {
        match self.phase {
            ChangePhase::Apply => match expect_affected(reply, "message-update-apply") {
                Err(error) => Step::Finish(Err(error)),
                Ok(count) => if count == 0 {
                    Step::Finish(Err(message_missing("message-update-missing", self.message_id)))
                } else {
                    let query = Query::GetMessage {
                        session_id: self.session_id,
                        id: self.message_id,
                    };
                    Step::Run(
                        UpdateMessage { phase: ChangePhase::Follow, ..self },
                        Action::Fetch(query),
                    )
                },
            },
            ChangePhase::Follow => match expect_messages(reply, "message-update-load") {
                Err(error) => Step::Finish(Err(error)),
                Ok(rows) => match first_message(rows) {
                    Err(error) => Step::Finish(Err(error)),
                    Ok(None) => Step::Finish(
                        Err(message_missing("message-update-load-missing", self.message_id)),
                    ),
                    Ok(Some(record)) => Step::Finish(Ok(record)),
                },
            },
        }
    }
}


/// A message is only ever updated within its session. The update binds the
/// session beside the message; where it changes no row, because the message
/// is not there, is deleted, or belongs to another session, the operation
/// reports `NotFound` for the message and sends nothing more, so that the
/// content stays as it was.
pub proof fn lemma_update_message_is_scoped(op: UpdateMessage)
    requires
        op.phase == ChangePhase::Apply,
    ensures
        (Query::UpdateMessage {
            session_id: op.session_id,
            id: op.message_id,
            content: op.content,
            at: op.now,
        }).bound() == seq![
            opt_text(op.content),
            Param::Integer(op.now),
            Param::Text(op.session_id.text()),
            Param::Text(op.message_id.text()),
        ],
        op.next(Reply::Affected(0)) == Outcome::<UpdateMessage, MessageRecord>::Fail(
            message_not_found("message-update-missing"@, op.message_id),
        ),
{
}

} // verus!
