//! Session operations: create, list, get, update, soft-delete, restore.

use vstd::prelude::*;
use crate::storage::clock::unix_timestamp_seconds;
use crate::storage::error::{Fault, StorageError, StorageResult};
use crate::storage::ids::{is_version_7, BranchId, SessionId};
use crate::storage::protocol::{
    affected_of, done_of, exists_of, expect_affected, expect_done, expect_exists,
    expect_sessions, sessions_of, Action, Operation, Outcome, Reply, Step,
};
use crate::storage::rows::{
    agrees, first_row, i64_to_u64, maps_all, session_record_of, session_row_to_record,
    session_rows_to_records, to_u64, SessionRow,
};
use crate::storage::sql::Query;
use crate::storage::types::{NewSession, SessionPatch, SessionRecord};

verus! {

/// The fault of a session that is not there.
pub open spec fn session_not_found(stage: Seq<char>, id: SessionId) -> Fault {
    Fault::NotFound { stage, entity: "session"@, id: id.text() }
}

/// The error of a session that is not there.
pub fn session_missing(stage: &'static str, id: SessionId) -> (error: StorageError)
    ensures
        error@ == session_not_found(stage@, id),
{
    StorageError::NotFound { stage, entity: "session", id: id.to_text() }
}

/// Where the creation of a session stands: the action whose reply comes
/// next.
#[derive(Debug, Clone, Copy, PartialEq, Eq, Structural)]
pub enum CreatePhase {
    Begin,
    InsertSession,
    InsertBranch,
    Commit,
}

/// Creates a session and its first branch in one transaction.
#[derive(Debug)]
pub struct CreateSession {
    pub title: String,
    pub session_id: SessionId,
    pub branch_id: BranchId,
    pub now: i64,
    pub phase: CreatePhase,
}

impl CreateSession {
    /// A creation with fresh identifiers of version 7, at the current time.
    pub fn new(input: NewSession) -> (op: Self)
        ensures
            op.title == input.title,
            is_version_7(op.session_id.0),
            is_version_7(op.branch_id.0),
            op.phase == CreatePhase::Begin,
    {
        CreateSession {
            title: input.title,
            session_id: SessionId::new_v7(),
            branch_id: BranchId::new_v7(),
            now: unix_timestamp_seconds(),
            phase: CreatePhase::Begin,
        }
    }

    /// The state in a later phase.
    pub open spec fn at(self, phase: CreatePhase) -> Self {
        CreateSession { phase, ..self }
    }

    /// The session that the creation reports once it is committed.
    pub open spec fn created(self) -> Result<SessionRecord, Fault> {
        match to_u64(self.now, "session-create-updated-at"@) {
            Err(fault) => Err(fault),
            Ok(updated) => Ok(
                SessionRecord {
                    id: self.session_id,
                    title: self.title,
                    active_branch_id: self.branch_id,
                    updated_at_unix_seconds: updated,
                    deleted_at_unix_seconds: None,
                },
            ),
        }
    }

    /// The step after `reply`: the session row, then the branch row, then
    /// the commit; the first failure ends the creation.
    pub open spec fn next(self, reply: Reply) -> Outcome<Self, SessionRecord> {
        match self.phase {
            CreatePhase::Begin => match done_of(reply, "session-create-begin"@) {
                Err(fault) => Outcome::Fail(fault),
                Ok(_) => Outcome::Run(
                    self.at(CreatePhase::InsertSession),
                    Action::Execute(
                        Query::InsertSession {
                            id: self.session_id,
                            title: self.title,
                            active_branch_id: self.branch_id,
                            at: self.now,
                        },
                    ),
                ),
            },
            CreatePhase::InsertSession => match affected_of(
                reply,
                "session-create-insert-session"@,
            ) {
                Err(fault) => Outcome::Fail(fault),
                Ok(_) => Outcome::Run(
                    self.at(CreatePhase::InsertBranch),
                    Action::Execute(
                        Query::InsertRootBranch {
                            id: self.branch_id,
                            session_id: self.session_id,
                            at: self.now,
                        },
                    ),
                ),
            },
            CreatePhase::InsertBranch => match affected_of(
                reply,
                "session-create-insert-branch"@,
            ) {
                Err(fault) => Outcome::Fail(fault),
                Ok(_) => Outcome::Run(self.at(CreatePhase::Commit), Action::Commit),
            },
            CreatePhase::Commit => match done_of(reply, "session-create-commit"@) {
                Err(fault) => Outcome::Fail(fault),
                Ok(_) => match self.created() {
                    Err(fault) => Outcome::Fail(fault),
                    Ok(record) => Outcome::Done(record),
                },
            },
        }
    }
}

impl Operation for CreateSession {
    type Output = SessionRecord;

    fn connect_stage(&self) -> (stage: &'static str)
        ensures
            stage@ == "session-create-connect"@,
    {
        "session-create-connect"
    }

    fn start(self) -> (step: Step<Self, SessionRecord>)
        ensures
            step == Step::<Self, SessionRecord>::Run(self, Action::Begin),
    {
        Step::Run(self, Action::Begin)
    }

    fn resume(self, reply: Reply) -> (step: Step<Self, SessionRecord>)
        ensures
            step.outcome() == self.next(reply),
    {
        match self.phase {
            CreatePhase::Begin => match expect_done(reply, "session-create-begin") {
                Err(error) => Step::Finish(Err(error)),
                Ok(_) => {
                    let query = Query::InsertSession {
                        id: self.session_id,
                        title: self.title.clone(),
                        active_branch_id: self.branch_id,
                        at: self.now,
                    };
                    Step::Run(
                        CreateSession { phase: CreatePhase::InsertSession, ..self },
                        Action::Execute(query),
                    )
                },
            },
            CreatePhase::InsertSession => match expect_affected(
                reply,
                "session-create-insert-session",
            ) {
                Err(error) => Step::Finish(Err(error)),
                Ok(_) => {
                    let query = Query::InsertRootBranch {
                        id: self.branch_id,
                        session_id: self.session_id,
                        at: self.now,
                    };
                    Step::Run(
                        CreateSession { phase: CreatePhase::InsertBranch, ..self },
                        Action::Execute(query),
                    )
                },
            },
            CreatePhase::InsertBranch => match expect_affected(
                reply,
                "session-create-insert-branch",
            ) {
                Err(error) => Step::Finish(Err(error)),
                Ok(_) => Step::Run(
                    CreateSession { phase: CreatePhase::Commit, ..self },
                    Action::Commit,
                ),
            },
            CreatePhase::Commit => match expect_done(reply, "session-create-commit") {
                Err(error) => Step::Finish(Err(error)),
                Ok(_) => match i64_to_u64(self.now, "session-create-updated-at") {
                    Err(error) => Step::Finish(Err(error)),
                    Ok(updated) => Step::Finish(
                        Ok(
                            SessionRecord {
                                id: self.session_id,
                                title: self.title,
                                active_branch_id: self.branch_id,
                                updated_at_unix_seconds: updated,
                                deleted_at_unix_seconds: None,
                            },
                        ),
                    ),
                },
            },
        }
    }
}


/// Lists the sessions, newest first; the soft-deleted ones only on request.
#[derive(Debug, Clone, Copy, PartialEq, Eq, Structural)]
pub struct ListSessions {
    pub include_deleted: bool,
}

impl ListSessions {
    /// A listing, with or without the soft-deleted sessions.
    pub fn new(include_deleted: bool) -> (op: Self)
        ensures
            op.include_deleted == include_deleted,
    {
        ListSessions { include_deleted }
    }
}

impl Operation for ListSessions {
    type Output = Vec<SessionRecord>;

    fn connect_stage(&self) -> (stage: &'static str)
        ensures
            stage@ == "session-list-connect"@,
    {
        "session-list-connect"
    }

    fn start(self) -> (step: Step<Self, Vec<SessionRecord>>)
        ensures
            step == Step::<Self, Vec<SessionRecord>>::Run(
                self,
                Action::Fetch(Query::ListSessions { include_deleted: self.include_deleted }),
            ),
    {
        Step::Run(self, Action::Fetch(Query::ListSessions { include_deleted: self.include_deleted }))
    }

    /// Finishes with the records of the rows, in the order of the reply.
    fn resume(self, reply: Reply) -> (step: Step<Self, Vec<SessionRecord>>)
        ensures
            match sessions_of(reply, "session-list-query"@) {
                Err(fault) => step.outcome() == Outcome::<Self, Vec<SessionRecord>>::Fail(fault),
                Ok(rows) => step matches Step::Finish(result) && maps_all(
                    rows@,
                    |row: SessionRow| session_record_of(row),
                    result,
                ),
            },
    {
        match expect_sessions(reply, "session-list-query") {
            Err(error) => Step::Finish(Err(error)),
            Ok(rows) => Step::Finish(session_rows_to_records(rows)),
        }
    }
}

/// The session of the first row, if there is a row.
pub open spec fn first_session_of(rows: Seq<SessionRow>) -> Result<Option<SessionRecord>, Fault> {
    if rows.len() == 0 {
        Ok(None)
    } else {
        match session_record_of(rows[0]) {
            Ok(record) => Ok(Some(record)),
            Err(fault) => Err(fault),
        }
    }
}

fn first_session(rows: Vec<SessionRow>) -> (result: StorageResult<Option<SessionRecord>>)
    ensures
        agrees(result, first_session_of(rows@)),
{
    match first_row(rows) {
        None => Ok(None),
        Some(row) => match session_row_to_record(row) {
            Ok(record) => Ok(Some(record)),
            Err(error) => Err(error),
        },
    }
}

/// Looks a session up by its identifier, soft-deleted or not.
#[derive(Debug, Clone, Copy, PartialEq, Eq, Structural)]
pub struct GetSession {
    pub session_id: SessionId,
}

impl GetSession {
    /// A lookup of one session.
    pub fn new(session_id: SessionId) -> (op: Self)
        ensures
            op.session_id == session_id,
    {
        GetSession { session_id }
    }

    /// The session of the first row returned, or `None` without a row.
    pub open spec fn next(self, reply: Reply) -> Outcome<Self, Option<SessionRecord>> {
        match sessions_of(reply, "session-get-query"@) {
            Err(fault) => Outcome::Fail(fault),
            Ok(rows) => match first_session_of(rows@) {
                Err(fault) => Outcome::Fail(fault),
                Ok(found) => Outcome::Done(found),
            },
        }
    }
}

impl Operation for GetSession {
    type Output = Option<SessionRecord>;

    fn connect_stage(&self) -> (stage: &'static str)
        ensures
            stage@ == "session-get-connect"@,
    {
        "session-get-connect"
    }

    fn start(self) -> (step: Step<Self, Option<SessionRecord>>)
        ensures
            step == Step::<Self, Option<SessionRecord>>::Run(
                self,
                Action::Fetch(Query::GetSession { id: self.session_id }),
            ),
    {
        Step::Run(self, Action::Fetch(Query::GetSession { id: self.session_id }))
    }

    fn resume(self, reply: Reply) -> (step: Step<Self, Option<SessionRecord>>)
        ensures
            step.outcome() == self.next(reply),
    {
        match expect_sessions(reply, "session-get-query") {
            Err(error) => Step::Finish(Err(error)),
            Ok(rows) => Step::Finish(first_session(rows)),
        }
    }
}

/// Where a change with a follow-up query stands.
#[derive(Debug, Clone, Copy, PartialEq, Eq, Structural)]
pub enum ChangePhase {
    /// The change was sent.
    Apply,
    /// The follow-up query was sent.
    Follow,
}

/// Sets the title of a session, where the patch has one, and reports the
/// session as it then is.
#[derive(Debug)]
pub struct UpdateSession {
    pub session_id: SessionId,
    pub title: Option<String>,
    pub now: i64,
    pub phase: ChangePhase,
}

impl UpdateSession {
    /// An update at the current time.
    pub fn new(session_id: SessionId, patch: SessionPatch) -> (op: Self)
        ensures
            op.session_id == session_id,
            op.title == patch.title,
            op.phase == ChangePhase::Apply,
    {
        UpdateSession {
            session_id,
            title: patch.title,
            now: unix_timestamp_seconds(),
            phase: ChangePhase::Apply,
        }
    }

    /// The step after `reply`. An update that changed no row reports
    /// `NotFound` and sends nothing more; otherwise the session is loaded
    /// and reported.
    pub open spec fn next(self, reply: Reply) -> Outcome<Self, SessionRecord> {
        match self.phase {
            ChangePhase::Apply => match affected_of(reply, "session-update-apply"@) {
                Err(fault) => Outcome::Fail(fault),
                Ok(count) => if count == 0 {
                    Outcome::Fail(session_not_found("session-update-missing"@, self.session_id))
                } else {
                    Outcome::Run(
                        UpdateSession { phase: ChangePhase::Follow, ..self },
                        Action::Fetch(Query::GetSession { id: self.session_id }),
                    )
                },
            },
            ChangePhase::Follow => match sessions_of(reply, "session-update-load"@) {
                Err(fault) => Outcome::Fail(fault),
                Ok(rows) => match first_session_of(rows@) {
                    Err(fault) => Outcome::Fail(fault),
                    Ok(None) => Outcome::Fail(
                        session_not_found("session-update-load-missing"@, self.session_id),
                    ),
                    Ok(Some(record)) => Outcome::Done(record),
                },
            },
        }
    }
}

impl Operation for UpdateSession {
    type Output = SessionRecord;

    fn connect_stage(&self) -> (stage: &'static str)
        ensures
            stage@ == "session-update-connect"@,
    {
        "session-update-connect"
    }

    /// Sends the update, which takes the title out of the state.
    fn start(self) -> (step: Step<Self, SessionRecord>)
        ensures
            step == Step::<Self, SessionRecord>::Run(
                UpdateSession { title: None, ..self },
                Action::Execute(
                    Query::UpdateSession { id: self.session_id, title: self.title, at: self.now },
                ),
            ),
    {
        let query = Query::UpdateSession { id: self.session_id, title: self.title, at: self.now };
        Step::Run(
            UpdateSession {
                session_id: self.session_id,
                title: None,
                now: self.now,
                phase: self.phase,
            },
            Action::Execute(query),
        )
    }

    fn resume(self, reply: Reply) -> (step: Step<Self, SessionRecord>)
        ensures
            step.outcome() == self.next(reply),
    {
        match self.phase {
            ChangePhase::Apply => match expect_affected(reply, "session-update-apply") {
                Err(error) => Step::Finish(Err(error)),
                Ok(count) => if count == 0 {
                    Step::Finish(Err(session_missing("session-update-missing", self.session_id)))
                } else {
                    let query = Query::GetSession { id: self.session_id };
                    Step::Run(
                        UpdateSession { phase: ChangePhase::Follow, ..self },
                        Action::Fetch(query),
                    )
                },
            },
            ChangePhase::Follow => match expect_sessions(reply, "session-update-load") {
                Err(error) => Step::Finish(Err(error)),
                Ok(rows) => match first_session(rows) {
                    Err(error) => Step::Finish(Err(error)),
                    Ok(None) => Step::Finish(
                        Err(session_missing("session-update-load-missing", self.session_id)),
                    ),
                    Ok(Some(record)) => Step::Finish(Ok(record)),
                },
            },
        }
    }
}

/// Soft-deletes a session. Deleting a session that is deleted already
/// succeeds; only a session that does not exist is `NotFound`.
#[derive(Debug, Clone, Copy, PartialEq, Eq, Structural)]
pub struct SoftDeleteSession {
    pub session_id: SessionId,
    pub now: i64,
    pub phase: ChangePhase,
}

impl SoftDeleteSession {
    /// A deletion at the current time.
    pub fn new(session_id: SessionId) -> (op: Self)
        ensures
            op.session_id == session_id,
            op.phase == ChangePhase::Apply,
    {
        SoftDeleteSession { session_id, now: unix_timestamp_seconds(), phase: ChangePhase::Apply }
    }

    /// The step after `reply`: a change of no row asks whether the session
    /// exists at all.
    pub open spec fn next(self, reply: Reply) -> Outcome<Self, ()> {
        match self.phase {
            ChangePhase::Apply => match affected_of(reply, "session-soft-delete-apply"@) {
                Err(fault) => Outcome::Fail(fault),
                Ok(count) => if count == 0 {
                    Outcome::Run(
                        SoftDeleteSession { phase: ChangePhase::Follow, ..self },
                        Action::Fetch(Query::SessionExists { id: self.session_id }),
                    )
                } else {
                    Outcome::Done(())
                },
            },
            ChangePhase::Follow => match exists_of(reply, "session-exists-query"@) {
                Err(fault) => Outcome::Fail(fault),
                Ok(exists) => if exists {
                    Outcome::Done(())
                } else {
                    Outcome::Fail(
                        session_not_found("session-soft-delete-missing"@, self.session_id),
                    )
                },
            },
        }
    }
}

impl Operation for SoftDeleteSession {
    type Output = ();

    fn connect_stage(&self) -> (stage: &'static str)
        ensures
            stage@ == "session-soft-delete-connect"@,
    {
        "session-soft-delete-connect"
    }

    fn start(self) -> (step: Step<Self, ()>)
        ensures
            step == Step::<Self, ()>::Run(
                self,
                Action::Execute(Query::SoftDeleteSession { id: self.session_id, at: self.now }),
            ),
    {
        Step::Run(
            self,
            Action::Execute(Query::SoftDeleteSession { id: self.session_id, at: self.now }),
        )
    }

    fn resume(self, reply: Reply) -> (step: Step<Self, ()>)
        ensures
            step.outcome() == self.next(reply),
    {
        match self.phase {
            ChangePhase::Apply => match expect_affected(reply, "session-soft-delete-apply") {
                Err(error) => Step::Finish(Err(error)),
                Ok(count) => if count == 0 {
                    Step::Run(
                        SoftDeleteSession { phase: ChangePhase::Follow, ..self },
                        Action::Fetch(Query::SessionExists { id: self.session_id }),
                    )
                } else {
                    Step::Finish(Ok(()))
                },
            },
            ChangePhase::Follow => match expect_exists(reply, "session-exists-query") {
                Err(error) => Step::Finish(Err(error)),
                Ok(exists) => if exists {
                    Step::Finish(Ok(()))
                } else {
                    Step::Finish(
                        Err(session_missing("session-soft-delete-missing", self.session_id)),
                    )
                },
            },
        }
    }
}

/// Restores a soft-deleted session. Restoring a session that is not
/// deleted succeeds; only a session that does not exist is `NotFound`.
#[derive(Debug, Clone, Copy, PartialEq, Eq, Structural)]
pub struct RestoreSession {
    pub session_id: SessionId,
    pub now: i64,
    pub phase: ChangePhase,
}

impl RestoreSession {
    /// A restoration at the current time.
    pub fn new(session_id: SessionId) -> (op: Self)
        ensures
            op.session_id == session_id,
            op.phase == ChangePhase::Apply,
    {
        RestoreSession { session_id, now: unix_timestamp_seconds(), phase: ChangePhase::Apply }
    }

    /// The step after `reply`: a change of no row asks whether the session
    /// exists at all.
    pub open spec fn next(self, reply: Reply) -> Outcome<Self, ()> {
        match self.phase {
            ChangePhase::Apply => match affected_of(reply, "session-restore-apply"@) {
                Err(fault) => Outcome::Fail(fault),
                Ok(count) => if count == 0 {
                    Outcome::Run(
                        RestoreSession { phase: ChangePhase::Follow, ..self },
                        Action::Fetch(Query::SessionExists { id: self.session_id }),
                    )
                } else {
                    Outcome::Done(())
                },
            },
            ChangePhase::Follow => match exists_of(reply, "session-exists-query"@) {
                Err(fault) => Outcome::Fail(fault),
                Ok(exists) => if exists {
                    Outcome::Done(())
                } else {
                    Outcome::Fail(session_not_found("session-restore-missing"@, self.session_id))
                },
            },
        }
    }
}

impl Operation for RestoreSession {
    type Output = ();

    fn connect_stage(&self) -> (stage: &'static str)
        ensures
            stage@ == "session-restore-connect"@,
    {
        "session-restore-connect"
    }

    fn start(self) -> (step: Step<Self, ()>)
        ensures
            step == Step::<Self, ()>::Run(
                self,
                Action::Execute(Query::RestoreSession { id: self.session_id, at: self.now }),
            ),
    {
        Step::Run(self, Action::Execute(Query::RestoreSession { id: self.session_id, at: self.now }))
    }

    fn resume(self, reply: Reply) -> (step: Step<Self, ()>)
        ensures
            step.outcome() == self.next(reply),
    {
        match self.phase {
            ChangePhase::Apply => match expect_affected(reply, "session-restore-apply") {
                Err(error) => Step::Finish(Err(error)),
                Ok(count) => if count == 0 {
                    Step::Run(
                        RestoreSession { phase: ChangePhase::Follow, ..self },
                        Action::Fetch(Query::SessionExists { id: self.session_id }),
                    )
                } else {
                    Step::Finish(Ok(()))
                },
            },
            ChangePhase::Follow => match expect_exists(reply, "session-exists-query") {
                Err(error) => Step::Finish(Err(error)),
                Ok(exists) => if exists {
                    Step::Finish(Ok(()))
                } else {
                    Step::Finish(Err(session_missing("session-restore-missing", self.session_id)))
                },
            },
        }
    }
}


/// A session comes with its first branch or not at all. Between the begin
/// and the commit of one transaction the creation inserts the session, which
/// names the branch as its active one, and then the branch; it reports the
/// session only after the commit. A failure at any step ends the creation
/// with a fault, so that nothing is committed.
pub proof fn lemma_create_session_is_one_transaction(op: CreateSession, source: String)
    ensures
        op.at(CreatePhase::Begin).next(Reply::Done) == Outcome::<
            CreateSession,
            SessionRecord,
        >::Run(
            op.at(CreatePhase::InsertSession),
            Action::Execute(
                Query::InsertSession {
                    id: op.session_id,
                    title: op.title,
                    active_branch_id: op.branch_id,
                    at: op.now,
                },
            ),
        ),
        op.at(CreatePhase::InsertSession).next(Reply::Affected(1)) == Outcome::<
            CreateSession,
            SessionRecord,
        >::Run(
            op.at(CreatePhase::InsertBranch),
            Action::Execute(
                Query::InsertRootBranch { id: op.branch_id, session_id: op.session_id, at: op.now },
            ),
        ),
        op.at(CreatePhase::InsertBranch).next(Reply::Affected(1)) == Outcome::<
            CreateSession,
            SessionRecord,
        >::Run(op.at(CreatePhase::Commit), Action::Commit),
        op.now >= 0 ==> op.at(CreatePhase::Commit).next(Reply::Done) == Outcome::<
            CreateSession,
            SessionRecord,
        >::Done(
            SessionRecord {
                id: op.session_id,
                title: op.title,
                active_branch_id: op.branch_id,
                updated_at_unix_seconds: op.now as u64,
                deleted_at_unix_seconds: None,
            },
        ),
        op.next(Reply::Failed(source)) is Fail,
{
}

} // verus!
