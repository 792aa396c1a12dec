//! Copy-on-write fork of a session's history.
//!
//! A fork copies the messages of the active branch up to a source message
//! onto a new branch, gives the copy of the source message new content,
//! makes the new branch the active one and retires the old one, all in one
//! transaction.

use vstd::prelude::*;
use crate::storage::clock::unix_timestamp_seconds;
use crate::storage::error::{Fault, StorageError};
use crate::storage::ids::{is_version_7, parse_outcome, BranchId, MessageId, SessionId};
use crate::storage::messages::{
    active_branch_of, load_active_branch_id, message_missing, message_not_found,
};
use crate::storage::protocol::{
    affected_of, done_of, expect_affected, expect_done, expect_fork_prefix, expect_fork_sources,
    fork_prefix_of, fork_sources_of, Action, Operation, Outcome, Reply, Step,
};
use crate::storage::rows::{first_row, ForkPrefixRow, ForkSourceRow};
use crate::storage::sql::Query;
use crate::storage::types::{HistoryForkOutcome, HistoryForkRequest, MessageIdRemap};

verus! {

/// Where a fork stands: the action whose reply comes next.
#[derive(Debug, Clone, Copy, PartialEq, Eq, Structural)]
pub enum ForkPhase {
    Begin,
    LoadActive,
    LoadSource { old_branch: BranchId },
    InsertBranch { old_branch: BranchId, source_seq: i64 },
    LoadPrefix { old_branch: BranchId },
    Copy { old_branch: BranchId },
    SetActive { old_branch: BranchId },
    RetireOld,
    Commit,
}

/// A fork in progress. `pending` holds the prefix rows not copied yet, in
/// order; `remaps` the copies made so far, in order.
#[derive(Debug)]
pub struct ForkFromHistory {
    pub session_id: SessionId,
    pub source_message_id: MessageId,
    pub replacement_content: String,
    pub now: i64,
    pub new_branch_id: BranchId,
    pub pending: Vec<ForkPrefixRow>,
    pub remaps: Vec<MessageIdRemap>,
    pub phase: ForkPhase,
}

/// A fork in progress, with its lists taken as sequences.
pub struct ForkState {
    pub session_id: SessionId,
    pub source_message_id: MessageId,
    pub replacement_content: String,
    pub now: i64,
    pub new_branch_id: BranchId,
    pub pending: Seq<ForkPrefixRow>,
    pub remaps: Seq<MessageIdRemap>,
    pub phase: ForkPhase,
}

/// What a fork made, with its remaps taken as a sequence.
pub struct ForkSummary {
    pub new_branch_id: BranchId,
    pub remaps: Seq<MessageIdRemap>,
}

impl View for ForkFromHistory {
    type V = ForkState;

    open spec fn view(&self) -> ForkState {
        ForkState {
            session_id: self.session_id,
            source_message_id: self.source_message_id,
            replacement_content: self.replacement_content,
            now: self.now,
            new_branch_id: self.new_branch_id,
            pending: self.pending@,
            remaps: self.remaps@,
            phase: self.phase,
        }
    }
}

impl View for HistoryForkOutcome {
    type V = ForkSummary;

    open spec fn view(&self) -> ForkSummary {
        ForkSummary { new_branch_id: self.new_branch_id, remaps: self.message_id_remaps@ }
    }
}

/// Whether a step of a fork is what `model` describes.
pub open spec fn fork_step_is(
    step: Step<ForkFromHistory, HistoryForkOutcome>,
    model: Outcome<ForkState, ForkSummary>,
) -> bool {
    match step {
        Step::Run(state, action) => model == Outcome::<ForkState, ForkSummary>::Run(state@, action),
        Step::Finish(Ok(outcome)) => model == Outcome::<ForkState, ForkSummary>::Done(outcome@),
        Step::Finish(Err(error)) => model == Outcome::<ForkState, ForkSummary>::Fail(error@),
    }
}

impl ForkState {
    /// The content that the copy of a prefix row gets: the replacement for
    /// the source message, the row's own content for every other.
    pub open spec fn copied_content(self, old_message_id: MessageId, row: ForkPrefixRow) -> String {
        if old_message_id == self.source_message_id {
            self.replacement_content
        } else {
            row.content
        }
    }

    /// Copies the first pending row under the identifier `fresh`, keeping
    /// its sequence number and role; with no row pending, points the session
    /// at the new branch.
    pub open spec fn copy_next(self, old_branch: BranchId, fresh: MessageId) -> Outcome<
        ForkState,
        ForkSummary,
    > {
        if self.pending.len() == 0 {
            Outcome::Run(
                ForkState { phase: ForkPhase::SetActive { old_branch }, ..self },
                Action::Execute(
                    Query::SetActiveBranch {
                        session_id: self.session_id,
                        branch_id: self.new_branch_id,
                        at: self.now,
                    },
                ),
            )
        } else {
            let row = self.pending[0];
            match parse_outcome(row.id@, "message-id"@) {
                Err(fault) => Outcome::Fail(fault),
                Ok(value) => Outcome::Run(
                    ForkState {
                        pending: self.pending.remove(0),
                        remaps: self.remaps.push(
                            MessageIdRemap {
                                old_message_id: MessageId(value),
                                new_message_id: fresh,
                            },
                        ),
                        phase: ForkPhase::Copy { old_branch },
                        ..self
                    },
                    Action::Execute(
                        Query::CopyMessage {
                            id: fresh,
                            session_id: self.session_id,
                            branch_id: self.new_branch_id,
                            seq: row.seq,
                            role: row.role,
                            content: self.copied_content(MessageId(value), row),
                            at: self.now,
                        },
                    ),
                ),
            }
        }
    }

    /// The step after `reply`, where `fresh` is the identifier minted for a
    /// copy made in this step.
    pub open spec fn next(self, reply: Reply, fresh: MessageId) -> Outcome<ForkState, ForkSummary> {
        match self.phase {
            ForkPhase::Begin => match done_of(reply, "message-fork-begin"@) {
                Err(fault) => Outcome::Fail(fault),
                Ok(_) => Outcome::Run(
                    ForkState { phase: ForkPhase::LoadActive, ..self },
                    Action::Fetch(Query::ActiveBranch { session_id: self.session_id }),
                ),
            },
            ForkPhase::LoadActive => match active_branch_of(
                reply,
                "message-fork-load-active-branch"@,
                self.session_id,
            ) {
                Err(fault) => Outcome::Fail(fault),
                Ok(old_branch) => Outcome::Run(
                    ForkState { phase: ForkPhase::LoadSource { old_branch }, ..self },
                    Action::Fetch(
                        Query::ForkSource {
                            session_id: self.session_id,
                            branch_id: old_branch,
                            id: self.source_message_id,
                        },
                    ),
                ),
            },
            ForkPhase::LoadSource { old_branch } => match fork_sources_of(
                reply,
                "message-fork-load-source"@,
            ) {
                Err(fault) => Outcome::Fail(fault),
                Ok(rows) => if rows@.len() == 0 {
                    Outcome::Fail(
                        message_not_found("message-fork-source-missing"@, self.source_message_id),
                    )
                } else {
                    Outcome::Run(
                        ForkState {
                            phase: ForkPhase::InsertBranch { old_branch, source_seq: rows@[0].seq },
                            ..self
                        },
                        Action::Execute(
                            Query::InsertForkBranch {
                                id: self.new_branch_id,
                                session_id: self.session_id,
                                parent_branch_id: old_branch,
                                at: self.now,
                            },
                        ),
                    )
                },
            },
            ForkPhase::InsertBranch { old_branch, source_seq } => match affected_of(
                reply,
                "message-fork-insert-branch"@,
            ) {
                Err(fault) => Outcome::Fail(fault),
                Ok(_) => Outcome::Run(
                    ForkState { phase: ForkPhase::LoadPrefix { old_branch }, ..self },
                    Action::Fetch(
                        Query::ForkPrefix {
                            session_id: self.session_id,
                            branch_id: old_branch,
                            max_seq: source_seq,
                        },
                    ),
                ),
            },
            ForkPhase::LoadPrefix { old_branch } => match fork_prefix_of(
                reply,
                "message-fork-load-prefix"@,
            ) {
                Err(fault) => Outcome::Fail(fault),
                Ok(rows) => if rows@.len() == 0 {
                    Outcome::Fail(
                        Fault::InvariantViolation {
                            stage: "message-fork-empty-prefix"@,
                            details: "fork prefix query unexpectedly returned zero rows"@,
                        },
                    )
                } else {
                    (ForkState { pending: rows@, remaps: Seq::empty(), ..self }).copy_next(
                        old_branch,
                        fresh,
                    )
                },
            },
            ForkPhase::Copy { old_branch } => match affected_of(
                reply,
                "message-fork-copy-prefix"@,
            ) {
                Err(fault) => Outcome::Fail(fault),
                Ok(_) => self.copy_next(old_branch, fresh),
            },
            ForkPhase::SetActive { old_branch } => match affected_of(
                reply,
                "message-fork-update-session-active-branch"@,
            ) {
                Err(fault) => Outcome::Fail(fault),
                Ok(_) => Outcome::Run(
                    ForkState { phase: ForkPhase::RetireOld, ..self },
                    Action::Execute(
                        Query::SoftDeleteBranch {
                            session_id: self.session_id,
                            branch_id: old_branch,
                            at: self.now,
                        },
                    ),
                ),
            },
            ForkPhase::RetireOld => match affected_of(
                reply,
                "message-fork-soft-delete-old-branch"@,
            ) {
                Err(fault) => Outcome::Fail(fault),
                Ok(_) => Outcome::Run(ForkState { phase: ForkPhase::Commit, ..self }, Action::Commit),
            },
            ForkPhase::Commit => match done_of(reply, "message-fork-commit"@) {
                Err(fault) => Outcome::Fail(fault),
                Ok(_) => Outcome::Done(
                    ForkSummary { new_branch_id: self.new_branch_id, remaps: self.remaps },
                ),
            },
        }
    }
}

impl ForkFromHistory {
    /// A fork onto a branch with a fresh identifier of version 7, at the
    /// current time.
    pub fn new(session_id: SessionId, request: HistoryForkRequest) -> (op: Self)
        ensures
            op.session_id == session_id,
            is_version_7(op.new_branch_id.0),
            op.source_message_id == request.source_message_id,
            op.replacement_content == request.replacement_content,
            op.pending@.len() == 0,
            op.remaps@.len() == 0,
            op.phase == ForkPhase::Begin,
    {
        ForkFromHistory {
            session_id,
            source_message_id: request.source_message_id,
            replacement_content: request.replacement_content,
            now: unix_timestamp_seconds(),
            new_branch_id: BranchId::new_v7(),
            pending: Vec::new(),
            remaps: Vec::new(),
            phase: ForkPhase::Begin,
        }
    }

    fn copy_next(self, old_branch: BranchId, fresh: MessageId) -> (step: Step<
        ForkFromHistory,
        HistoryForkOutcome,
    >)
        ensures
            fork_step_is(step, self@.copy_next(old_branch, fresh)),
    {
        let mut state = self;
        if state.pending.len() == 0 {
            let query = Query::SetActiveBranch {
                session_id: state.session_id,
                branch_id: state.new_branch_id,
                at: state.now,
            };
            state.phase = ForkPhase::SetActive { old_branch };
            Step::Run(state, Action::Execute(query))
        } else {
            let row = state.pending.remove(0);
            match MessageId::parse(row.id.as_str()) {
                Err(error) => Step::Finish(Err(error)),
                Ok(old_message_id) => {
                    let content = if old_message_id == state.source_message_id {
                        state.replacement_content.clone()
                    } else {
                        row.content
                    };
                    let query = Query::CopyMessage {
                        id: fresh,
                        session_id: state.session_id,
                        branch_id: state.new_branch_id,
                        seq: row.seq,
                        role: row.role,
                        content,
                        at: state.now,
                    };
                    state.remaps.push(MessageIdRemap { old_message_id, new_message_id: fresh });
                    state.phase = ForkPhase::Copy { old_branch };
                    Step::Run(state, Action::Execute(query))
                },
            }
        }
    }

    /// The step after `reply`, with `fresh` as the identifier of a copy made
    /// in this step.
    pub fn resume_with(self, reply: Reply, fresh: MessageId) -> (step: Step<
        ForkFromHistory,
        HistoryForkOutcome,
    >)
        ensures
            fork_step_is(step, self@.next(reply, fresh)),
    {
        match self.phase {
            ForkPhase::Begin => match expect_done(reply, "message-fork-begin") {
                Err(error) => Step::Finish(Err(error)),
                Ok(_) => {
                    let query = Query::ActiveBranch { session_id: self.session_id };
                    Step::Run(
                        ForkFromHistory { phase: ForkPhase::LoadActive, ..self },
                        Action::Fetch(query),
                    )
                },
            },
            ForkPhase::LoadActive => match load_active_branch_id(
                reply,
                self.session_id,
                "message-fork-load-active-branch",
            ) {
                Err(error) => Step::Finish(Err(error)),
                Ok(old_branch) => {
                    let query = Query::ForkSource {
                        session_id: self.session_id,
                        branch_id: old_branch,
                        id: self.source_message_id,
                    };
                    Step::Run(
                        ForkFromHistory { phase: ForkPhase::LoadSource { old_branch }, ..self },
                        Action::Fetch(query),
                    )
                },
            },
            ForkPhase::LoadSource { old_branch } => match expect_fork_sources(
                reply,
                "message-fork-load-source",
            ) {
                Err(error) => Step::Finish(Err(error)),
                Ok(rows) => match first_row(rows) {
                    None => Step::Finish(
                        Err(message_missing("message-fork-source-missing", self.source_message_id)),
                    ),
                    Some(source) => {
                        let query = Query::InsertForkBranch {
                            id: self.new_branch_id,
                            session_id: self.session_id,
                            parent_branch_id: old_branch,
                            at: self.now,
                        };
                        Step::Run(
                            ForkFromHistory {
                                phase: ForkPhase::InsertBranch { old_branch, source_seq: source.seq },
                                ..self
                            },
                            Action::Execute(query),
                        )
                    },
                },
            },
            ForkPhase::InsertBranch { old_branch, source_seq } => match expect_affected(
                reply,
                "message-fork-insert-branch",
            ) {
                Err(error) => Step::Finish(Err(error)),
                Ok(_) => {
                    let query = Query::ForkPrefix {
                        session_id: self.session_id,
                        branch_id: old_branch,
                        max_seq: source_seq,
                    };
                    Step::Run(
                        ForkFromHistory { phase: ForkPhase::LoadPrefix { old_branch }, ..self },
                        Action::Fetch(query),
                    )
                },
            },
            ForkPhase::LoadPrefix { old_branch } => match expect_fork_prefix(
                reply,
                "message-fork-load-prefix",
            ) {
                Err(error) => Step::Finish(Err(error)),
                Ok(rows) => if rows.len() == 0 {
                    Step::Finish(
                        Err(
                            StorageError::InvariantViolation {
                                stage: "message-fork-empty-prefix",
                                details: "fork prefix query unexpectedly returned zero rows".to_owned(),
                            },
                        ),
                    )
                } else {
                    let state = ForkFromHistory { pending: rows, remaps: Vec::new(), ..self };
                    state.copy_next(old_branch, fresh)
                },
            },
            ForkPhase::Copy { old_branch } => match expect_affected(
                reply,
                "message-fork-copy-prefix",
            ) {
                Err(error) => Step::Finish(Err(error)),
                Ok(_) => self.copy_next(old_branch, fresh),
            },
            ForkPhase::SetActive { old_branch } => match expect_affected(
                reply,
                "message-fork-update-session-active-branch",
            ) {
                Err(error) => Step::Finish(Err(error)),
                Ok(_) => {
                    let query = Query::SoftDeleteBranch {
                        session_id: self.session_id,
                        branch_id: old_branch,
                        at: self.now,
                    };
                    Step::Run(
                        ForkFromHistory { phase: ForkPhase::RetireOld, ..self },
                        Action::Execute(query),
                    )
                },
            },
            ForkPhase::RetireOld => match expect_affected(
                reply,
                "message-fork-soft-delete-old-branch",
            ) {
                Err(error) => Step::Finish(Err(error)),
                Ok(_) => Step::Run(
                    ForkFromHistory { phase: ForkPhase::Commit, ..self },
                    Action::Commit,
                ),
            },
            ForkPhase::Commit => match expect_done(reply, "message-fork-commit") {
                Err(error) => Step::Finish(Err(error)),
                Ok(_) => Step::Finish(
                    Ok(
                        HistoryForkOutcome {
                            new_branch_id: self.new_branch_id,
                            message_id_remaps: self.remaps,
                        },
                    ),
                ),
            },
        }
    }
}

impl Operation for ForkFromHistory {
    type Output = HistoryForkOutcome;

    fn connect_stage(&self) -> (stage: &'static str)
        ensures
            stage@ == "message-fork-connect"@,
    {
        "message-fork-connect"
    }

    fn start(self) -> (step: Step<Self, HistoryForkOutcome>)
        ensures
            step == Step::<Self, HistoryForkOutcome>::Run(self, Action::Begin),
    {
        Step::Run(self, Action::Begin)
    }

    /// The step after `reply`, with a freshly minted identifier for a copy
    /// made in this step: whichever identifier was minted, the step is the
    /// one that `next` gives for it. Only a step that copies mints one.
    fn resume(self, reply: Reply) -> (step: Step<Self, HistoryForkOutcome>)
        ensures
            exists|fresh: MessageId| fork_step_is(step, #[trigger] self@.next(reply, fresh)),
    {
        match self.phase {
            ForkPhase::LoadPrefix { .. } | ForkPhase::Copy { .. } => {
                let fresh = MessageId::new_v7();
                self.resume_with(reply, fresh)
            },
            _ => {
                let unused = self.source_message_id;
                self.resume_with(reply, unused)
            },
        }
    }
}


/// The message that a prefix row holds, where its identifier is one.
pub open spec fn row_message(row: ForkPrefixRow) -> MessageId {
    MessageId(parse_outcome(row.id@, "message-id"@)->Ok_0)
}

impl ForkState {
    /// The remaps of the first `count` pending rows, copied in order under
    /// the identifiers `fresh`.
    pub open spec fn remaps_of(self, fresh: Seq<MessageId>, count: int) -> Seq<MessageIdRemap> {
        Seq::new(
            count as nat,
            |i: int|
                MessageIdRemap {
                    old_message_id: row_message(self.pending[i]),
                    new_message_id: fresh[i],
                },
        )
    }

    /// The insert that copies the pending row `k` under the identifier
    /// `fresh`: onto the new branch, with the row's sequence number and role.
    pub open spec fn copy_of(self, k: int, fresh: MessageId) -> Action {
        Action::Execute(
            Query::CopyMessage {
                id: fresh,
                session_id: self.session_id,
                branch_id: self.new_branch_id,
                seq: self.pending[k].seq,
                role: self.pending[k].role,
                content: self.copied_content(row_message(self.pending[k]), self.pending[k]),
                at: self.now,
            },
        )
    }

    /// The step reached when the copying has gone on for `k` more inserts,
    /// each of which succeeded, with `fresh[i]` minted for step `i`.
    pub open spec fn copy_run(self, old_branch: BranchId, fresh: Seq<MessageId>, k: nat) -> Outcome<
        ForkState,
        ForkSummary,
    >
        decreases k,
    {
        if k == 0 {
            self.copy_next(old_branch, fresh[0])
        } else {
            match self.copy_run(old_branch, fresh, (k - 1) as nat) {
                Outcome::Run(state, _) => state.next(Reply::Affected(1), fresh[k as int]),
                other => other,
            }
        }
    }
}

/// A fork copies the prefix in order and nothing else. Where every prefix
/// row holds a message identifier and every insert succeeds, step `k` of
/// the copying inserts the copy of row `k`, under the identifier minted for
/// it, with the row's sequence number and role, and with the row's content
/// unless the row is the source message, which gets the replacement. The
/// remaps made by then are those of rows `0..=k`, in order. After the last
/// row the session is pointed at the new branch.
pub proof fn lemma_fork_copies_prefix_in_order(
    state: ForkState,
    old_branch: BranchId,
    fresh: Seq<MessageId>,
    k: nat,
)
    requires
        forall|i: int|
            0 <= i < state.pending.len() ==> parse_outcome(
                (#[trigger] state.pending[i]).id@,
                "message-id"@,
            ) is Ok,
        fresh.len() > state.pending.len(),
        k <= state.pending.len(),
    ensures
        k < state.pending.len() ==> state.copy_run(old_branch, fresh, k) == Outcome::<
            ForkState,
            ForkSummary,
        >::Run(
            ForkState {
                pending: state.pending.subrange(k as int + 1, state.pending.len() as int),
                remaps: state.remaps + state.remaps_of(fresh, k as int + 1),
                phase: ForkPhase::Copy { old_branch },
                ..state
            },
            state.copy_of(k as int, fresh[k as int]),
        ),
        k == state.pending.len() ==> state.copy_run(old_branch, fresh, k) == Outcome::<
            ForkState,
            ForkSummary,
        >::Run(
            ForkState {
                pending: Seq::empty(),
                remaps: state.remaps + state.remaps_of(fresh, k as int),
                phase: ForkPhase::SetActive { old_branch },
                ..state
            },
            Action::Execute(
                Query::SetActiveBranch {
                    session_id: state.session_id,
                    branch_id: state.new_branch_id,
                    at: state.now,
                },
            ),
        ),
    decreases k,
{
    let n = state.pending.len() as int;
    if k == 0 {
        if n > 0 {
            assert(state.pending.remove(0) =~= state.pending.subrange(1, n));
            assert(state.remaps.push(
                MessageIdRemap {
                    old_message_id: row_message(state.pending[0]),
                    new_message_id: fresh[0],
                },
            ) =~= state.remaps + state.remaps_of(fresh, 1));
        } else {
            assert(state.pending =~= Seq::empty());
            assert(state.remaps =~= state.remaps + state.remaps_of(fresh, 0));
        }
    } else {
        lemma_fork_copies_prefix_in_order(state, old_branch, fresh, (k - 1) as nat);
        let before = ForkState {
            pending: state.pending.subrange(k as int, n),
            remaps: state.remaps + state.remaps_of(fresh, k as int),
            phase: ForkPhase::Copy { old_branch },
            ..state
        };
        assert(state.copy_run(old_branch, fresh, (k - 1) as nat) == Outcome::<
            ForkState,
            ForkSummary,
        >::Run(before, state.copy_of(k - 1, fresh[k - 1])));
        assert(state.copy_run(old_branch, fresh, k) == before.copy_next(
            old_branch,
            fresh[k as int],
        ));
        if k < n {
            assert(before.pending[0] == state.pending[k as int]);
            assert(before.pending.remove(0) =~= state.pending.subrange(k as int + 1, n));
            assert(before.remaps.push(
                MessageIdRemap {
                    old_message_id: row_message(state.pending[k as int]),
                    new_message_id: fresh[k as int],
                },
            ) =~= state.remaps + state.remaps_of(fresh, k as int + 1));
        } else {
            assert(before.pending =~= Seq::empty());
        }
    }
}

/// A fork finishes with the new branch and the remaps it made: once the
/// session points at the new branch, the old branch is retired, the
/// transaction is committed, and the remaps are reported as they stand.
pub proof fn lemma_fork_retires_old_branch_and_commits(
    state: ForkState,
    old_branch: BranchId,
    fresh: MessageId,
)
    requires
        state.phase == (ForkPhase::SetActive { old_branch }),
    ensures
        state.next(Reply::Affected(1), fresh) == Outcome::<ForkState, ForkSummary>::Run(
            ForkState { phase: ForkPhase::RetireOld, ..state },
            Action::Execute(
                Query::SoftDeleteBranch {
                    session_id: state.session_id,
                    branch_id: old_branch,
                    at: state.now,
                },
            ),
        ),
        (ForkState { phase: ForkPhase::RetireOld, ..state }).next(Reply::Affected(1), fresh)
            == Outcome::<ForkState, ForkSummary>::Run(
            ForkState { phase: ForkPhase::Commit, ..state },
            Action::Commit,
        ),
        (ForkState { phase: ForkPhase::Commit, ..state }).next(Reply::Done, fresh) == Outcome::<
            ForkState,
            ForkSummary,
        >::Done(ForkSummary { new_branch_id: state.new_branch_id, remaps: state.remaps }),
{
}

/// A fork never goes on after a failure: whatever the phase, a failed
/// action ends the fork with a fault, so that nothing is committed.
pub proof fn lemma_fork_stops_at_failure(state: ForkState, source: String, fresh: MessageId)
    ensures
        state.next(Reply::Failed(source), fresh) is Fail,
{
}


/// A fork opens one branch, whose parent is the branch that was active, and
/// carries over no message behind the source: once the source message is
/// found on the active branch with the sequence number `source.seq`, the
/// new branch is inserted with the active branch as its parent, and the
/// prefix is then asked for up to that sequence number and no further.
pub proof fn lemma_fork_branches_at_the_source(
    state: ForkState,
    old_branch: BranchId,
    sources: Vec<ForkSourceRow>,
    fresh: MessageId,
)
    requires
        state.phase == (ForkPhase::LoadSource { old_branch }),
        sources@.len() > 0,
    ensures
        state.next(
            Reply::Rows(crate::storage::protocol::Rows::ForkSources(sources)),
            fresh,
        ) == Outcome::<ForkState, ForkSummary>::Run(
            ForkState {
                phase: ForkPhase::InsertBranch { old_branch, source_seq: sources@[0].seq },
                ..state
            },
            Action::Execute(
                Query::InsertForkBranch {
                    id: state.new_branch_id,
                    session_id: state.session_id,
                    parent_branch_id: old_branch,
                    at: state.now,
                },
            ),
        ),
        (ForkState {
            phase: ForkPhase::InsertBranch { old_branch, source_seq: sources@[0].seq },
            ..state
        }).next(Reply::Affected(1), fresh) == Outcome::<ForkState, ForkSummary>::Run(
            ForkState { phase: ForkPhase::LoadPrefix { old_branch }, ..state },
            Action::Fetch(
                Query::ForkPrefix {
                    session_id: state.session_id,
                    branch_id: old_branch,
                    max_seq: sources@[0].seq,
                },
            ),
        ),
{
}

} // verus!
