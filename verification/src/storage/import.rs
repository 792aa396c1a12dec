//! The one-time import of the legacy conversation file.
//!
//! Each valid line becomes a session with its first branch. A database that
//! holds a session already counts as imported: nothing is written to it.

use vstd::prelude::*;
use crate::storage::ids::{BranchId, SessionId};
use crate::storage::legacy::{
    parse_legacy_conversation_rows, rows_view, scan_lines, sorted_rows, warnings_view,
    LegacyConversationRow, LegacyImportWarning,
};
use crate::storage::protocol::{
    affected_of, done_of, expect_affected, expect_done, expect_one_integer, one_integer_of,
    Action, Operation, Outcome, Reply, Step,
};
use crate::storage::rows::{to_i64, u64_to_i64};
use crate::storage::sql::Query;

verus! {

/// Where the legacy file stands, relative to the working directory.
pub const LEGACY_CONVERSATIONS_TSV_RELATIVE_PATH: &'static str = ".zova/conversations.tsv";

/// What an import did.
#[derive(Debug, Clone, PartialEq, Eq)]
pub struct LegacyImportReport {
    pub source_path: String,
    pub source_missing: bool,
    pub imported_sessions: usize,
    pub skipped_rows: usize,
    pub warnings: Vec<LegacyImportWarning>,
    pub already_migrated: bool,
}

/// What the database part of an import did: the number of sessions
/// imported, and whether the database counted as imported already.
#[derive(Debug, Clone, Copy, PartialEq, Eq, Structural)]
pub struct ImportCount {
    pub imported_sessions: usize,
    pub already_migrated: bool,
}

/// The report of an import whose source file does not exist.
pub fn missing_source_report(source_path: String) -> (report: LegacyImportReport)
    ensures
        report.source_path == source_path,
        report.source_missing,
        report.imported_sessions == 0,
        report.skipped_rows == 0,
        report.warnings@.len() == 0,
        !report.already_migrated,
{
    LegacyImportReport {
        source_path,
        source_missing: true,
        imported_sessions: 0,
        skipped_rows: 0,
        warnings: Vec::new(),
        already_migrated: false,
    }
}

/// The report of an import that read its source: every warning stands for
/// one skipped row.
pub fn import_report(
    source_path: String,
    warnings: Vec<LegacyImportWarning>,
    count: ImportCount,
) -> (report: LegacyImportReport)
    ensures
        report.source_path == source_path,
        !report.source_missing,
        report.imported_sessions == count.imported_sessions,
        report.skipped_rows == warnings@.len(),
        report.warnings == warnings,
        report.already_migrated == count.already_migrated,
{
    LegacyImportReport {
        source_path,
        source_missing: false,
        imported_sessions: count.imported_sessions,
        skipped_rows: warnings.len(),
        warnings,
        already_migrated: count.already_migrated,
    }
}

/// Where an import stands: the action whose reply comes next.
#[derive(Debug, Clone, Copy, PartialEq, Eq, Structural)]
pub enum ImportPhase {
    Count,
    Begin,
    Session { session_id: SessionId, branch_id: BranchId, at: i64 },
    Branch,
    Commit,
}

/// An import in progress. `pending` holds the rows not imported yet, in
/// import order; `candidates` is the number of valid rows of the source.
#[derive(Debug)]
pub struct ImportLegacy {
    pub pending: Vec<LegacyConversationRow>,
    pub candidates: usize,
    pub phase: ImportPhase,
}

/// An import in progress, with its rows taken as a sequence.
pub struct ImportState {
    pub pending: Seq<LegacyConversationRow>,
    pub candidates: usize,
    pub phase: ImportPhase,
}

impl View for ImportLegacy {
    type V = ImportState;

    open spec fn view(&self) -> ImportState {
        ImportState { pending: self.pending@, candidates: self.candidates, phase: self.phase }
    }
}

/// Whether a step of an import is what `model` describes.
pub open spec fn import_step_is(
    step: Step<ImportLegacy, ImportCount>,
    model: Outcome<ImportState, ImportCount>,
) -> bool {
    match step {
        Step::Run(state, action) => model == Outcome::<ImportState, ImportCount>::Run(
            state@,
            action,
        ),
        Step::Finish(Ok(count)) => model == Outcome::<ImportState, ImportCount>::Done(count),
        Step::Finish(Err(error)) => model == Outcome::<ImportState, ImportCount>::Fail(error@),
    }
}

impl ImportState {
    /// Imports the first pending row as the session `session_id` with the
    /// first branch `branch_id`, both dated as the row; with no row pending,
    /// commits.
    pub open spec fn import_next(self, session_id: SessionId, branch_id: BranchId) -> Outcome<
        ImportState,
        ImportCount,
    > {
        if self.pending.len() == 0 {
            Outcome::Run(ImportState { phase: ImportPhase::Commit, ..self }, Action::Commit)
        } else {
            let row = self.pending[0];
            match to_i64(row.updated_at_unix_seconds, "legacy-import-updated-at"@) {
                Err(fault) => Outcome::Fail(fault),
                Ok(at) => Outcome::Run(
                    ImportState {
                        pending: self.pending.remove(0),
                        phase: ImportPhase::Session { session_id, branch_id, at },
                        ..self
                    },
                    Action::Execute(
                        Query::InsertSession {
                            id: session_id,
                            title: row.title,
                            active_branch_id: branch_id,
                            at,
                        },
                    ),
                ),
            }
        }
    }

    /// The step after `reply`, where `session_id` and `branch_id` are the
    /// identifiers minted for a row that this step starts to import.
    pub open spec fn next(self, reply: Reply, session_id: SessionId, branch_id: BranchId) -> Outcome<
        ImportState,
        ImportCount,
    > {
        match self.phase {
            ImportPhase::Count => match one_integer_of(
                reply,
                "legacy-import-count-existing-sessions"@,
            ) {
                Err(fault) => Outcome::Fail(fault),
                Ok(existing) => if existing > 0 {
                    Outcome::Done(ImportCount { imported_sessions: 0, already_migrated: true })
                } else if self.candidates == 0 {
                    Outcome::Done(ImportCount { imported_sessions: 0, already_migrated: false })
                } else {
                    Outcome::Run(ImportState { phase: ImportPhase::Begin, ..self }, Action::Begin)
                },
            },
            ImportPhase::Begin => match done_of(reply, "legacy-import-begin"@) {
                Err(fault) => Outcome::Fail(fault),
                Ok(_) => self.import_next(session_id, branch_id),
            },
            ImportPhase::Session { session_id: current, branch_id: first, at } => match affected_of(
                reply,
                "legacy-import-insert-session"@,
            ) {
                Err(fault) => Outcome::Fail(fault),
                Ok(_) => Outcome::Run(
                    ImportState { phase: ImportPhase::Branch, ..self },
                    Action::Execute(
                        Query::InsertRootBranch { id: first, session_id: current, at },
                    ),
                ),
            },
            ImportPhase::Branch => match affected_of(reply, "legacy-import-insert-branch"@) {
                Err(fault) => Outcome::Fail(fault),
                Ok(_) => self.import_next(session_id, branch_id),
            },
            ImportPhase::Commit => match done_of(reply, "legacy-import-commit"@) {
                Err(fault) => Outcome::Fail(fault),
                Ok(_) => Outcome::Done(
                    ImportCount { imported_sessions: self.candidates, already_migrated: false },
                ),
            },
        }
    }
}

impl ImportLegacy {
    /// An import of rows that stand in import order.
    pub fn new(rows: Vec<LegacyConversationRow>) -> (op: Self)
        ensures
            op.pending == rows,
            op.candidates == rows@.len(),
            op.phase == ImportPhase::Count,
    {
        let candidates = rows.len();
        ImportLegacy { pending: rows, candidates, phase: ImportPhase::Count }
    }

    /// An import of the text of a legacy file, with the warnings for the
    /// lines that it skips.
    pub fn from_source(source_text: &str) -> (result: (Self, Vec<LegacyImportWarning>))
        ensures
            rows_view(result.0.pending@) == sorted_rows(scan_lines(source_text@, 0, 0).0),
            result.0.candidates == result.0.pending@.len(),
            result.0.phase == ImportPhase::Count,
            warnings_view(result.1@) == scan_lines(source_text@, 0, 0).1,
    {
        let (rows, warnings) = parse_legacy_conversation_rows(source_text);
        (ImportLegacy::new(rows), warnings)
    }

    fn import_next(self, session_id: SessionId, branch_id: BranchId) -> (step: Step<
        ImportLegacy,
        ImportCount,
    >)
        ensures
            import_step_is(step, self@.import_next(session_id, branch_id)),
    {
        let mut state = self;
        if state.pending.len() == 0 {
            state.phase = ImportPhase::Commit;
            Step::Run(state, Action::Commit)
        } else {
            let row = state.pending.remove(0);
            match u64_to_i64(row.updated_at_unix_seconds, "legacy-import-updated-at") {
                Err(error) => Step::Finish(Err(error)),
                Ok(at) => {
                    let query = Query::InsertSession {
                        id: session_id,
                        title: row.title,
                        active_branch_id: branch_id,
                        at,
                    };
                    state.phase = ImportPhase::Session { session_id, branch_id, at };
                    Step::Run(state, Action::Execute(query))
                },
            }
        }
    }

    /// The step after `reply`, with `session_id` and `branch_id` as the
    /// identifiers of a row that this step starts to import.
    pub fn resume_with(self, reply: Reply, session_id: SessionId, branch_id: BranchId) -> (step:
        Step<ImportLegacy, ImportCount>)
        ensures
            import_step_is(step, self@.next(reply, session_id, branch_id)),
    {
        match self.phase {
            ImportPhase::Count => match expect_one_integer(
                reply,
                "legacy-import-count-existing-sessions",
            ) {
                Err(error) => Step::Finish(Err(error)),
                Ok(existing) => if existing > 0 {
                    Step::Finish(Ok(ImportCount { imported_sessions: 0, already_migrated: true }))
                } else if self.candidates == 0 {
                    Step::Finish(Ok(ImportCount { imported_sessions: 0, already_migrated: false }))
                } else {
                    Step::Run(ImportLegacy { phase: ImportPhase::Begin, ..self }, Action::Begin)
                },
            },
            ImportPhase::Begin => match expect_done(reply, "legacy-import-begin") {
                Err(error) => Step::Finish(Err(error)),
                Ok(_) => self.import_next(session_id, branch_id),
            },
            ImportPhase::Session { session_id: current, branch_id: first, at } => match expect_affected(
                reply,
                "legacy-import-insert-session",
            ) {
                Err(error) => Step::Finish(Err(error)),
                Ok(_) => Step::Run(
                    ImportLegacy { phase: ImportPhase::Branch, ..self },
                    Action::Execute(
                        Query::InsertRootBranch { id: first, session_id: current, at },
                    ),
                ),
            },
            ImportPhase::Branch => match expect_affected(reply, "legacy-import-insert-branch") {
                Err(error) => Step::Finish(Err(error)),
                Ok(_) => self.import_next(session_id, branch_id),
            },
            ImportPhase::Commit => match expect_done(reply, "legacy-import-commit") {
                Err(error) => Step::Finish(Err(error)),
                Ok(_) => Step::Finish(
                    Ok(
                        ImportCount {
                            imported_sessions: self.candidates,
                            already_migrated: false,
                        },
                    ),
                ),
            },
        }
    }
}

impl Operation for ImportLegacy {
    type Output = ImportCount;

    fn connect_stage(&self) -> (stage: &'static str)
        ensures
            stage@ == "legacy-import-connect"@,
    {
        "legacy-import-connect"
    }

    fn start(self) -> (step: Step<Self, ImportCount>)
        ensures
            step == Step::<Self, ImportCount>::Run(self, Action::Fetch(Query::CountSessions)),
    {
        Step::Run(self, Action::Fetch(Query::CountSessions))
    }

    /// The step after `reply`, with freshly minted identifiers for a row
    /// that this step starts to import: whichever were minted, the step is
    /// the one that `next` gives for them. Only a step that starts a row
    /// mints them.
    fn resume(self, reply: Reply) -> (step: Step<Self, ImportCount>)
        ensures
            exists|session_id: SessionId, branch_id: BranchId|
                import_step_is(step, #[trigger] self@.next(reply, session_id, branch_id)),
    {
        match self.phase {
            ImportPhase::Begin | ImportPhase::Branch => {
                let session_id = SessionId::new_v7();
                let branch_id = BranchId::new_v7();
                self.resume_with(reply, session_id, branch_id)
            },
            _ => self.resume_with(reply, SessionId(0), BranchId(0)),
        }
    }
}

/// An import into a database that holds a session already imports nothing
/// and says so, whatever the source holds: importing twice imports once.
pub proof fn lemma_import_runs_once(
    state: ImportState,
    existing: i64,
    rows: Vec<i64>,
    session_id: SessionId,
    branch_id: BranchId,
)
    requires
        state.phase == ImportPhase::Count,
        existing > 0,
        rows@.len() > 0,
        rows@[0] == existing,
    ensures
        state.next(
            Reply::Rows(crate::storage::protocol::Rows::Integers(rows)),
            session_id,
            branch_id,
        ) == Outcome::<ImportState, ImportCount>::Done(
            ImportCount { imported_sessions: 0, already_migrated: true },
        ),
{
}


impl ImportState {
    /// The insert of the session of the pending row `k`, under the
    /// identifiers minted for it.
    pub open spec fn session_of(self, k: int, session_id: SessionId, branch_id: BranchId) -> Action {
        Action::Execute(
            Query::InsertSession {
                id: session_id,
                title: self.pending[k].title,
                active_branch_id: branch_id,
                at: self.pending[k].updated_at_unix_seconds as i64,
            },
        )
    }

    /// The step that starts row `k`, every insert before it having
    /// succeeded, with `sessions[i]` and `branches[i]` minted for row `i`.
    pub open spec fn import_run(
        self,
        sessions: Seq<SessionId>,
        branches: Seq<BranchId>,
        k: nat,
    ) -> Outcome<ImportState, ImportCount>
        decreases k,
    {
        if k == 0 {
            self.import_next(sessions[0], branches[0])
        } else {
            match self.import_run(sessions, branches, (k - 1) as nat) {
                Outcome::Run(state, _) => match state.next(
                    Reply::Affected(1),
                    sessions[k as int],
                    branches[k as int],
                ) {
                    Outcome::Run(state, _) => state.next(
                        Reply::Affected(1),
                        sessions[k as int],
                        branches[k as int],
                    ),
                    other => other,
                },
                other => other,
            }
        }
    }
}

/// An import writes one session for each valid row, in import order, and
/// no other: where every insert succeeds, row `k` is started by the insert
/// of its session, under the identifiers minted for it and dated as the
/// row, and after the last row the transaction is committed.
pub proof fn lemma_import_writes_each_row_once(
    state: ImportState,
    sessions: Seq<SessionId>,
    branches: Seq<BranchId>,
    k: nat,
)
    requires
        forall|i: int|
            0 <= i < state.pending.len() ==> (#[trigger] state.pending[i]).updated_at_unix_seconds
                <= i64::MAX,
        sessions.len() > state.pending.len(),
        branches.len() > state.pending.len(),
        k <= state.pending.len(),
    ensures
        k < state.pending.len() ==> state.import_run(sessions, branches, k) == Outcome::<
            ImportState,
            ImportCount,
        >::Run(
            ImportState {
                pending: state.pending.subrange(k as int + 1, state.pending.len() as int),
                phase: ImportPhase::Session {
                    session_id: sessions[k as int],
                    branch_id: branches[k as int],
                    at: state.pending[k as int].updated_at_unix_seconds as i64,
                },
                ..state
            },
            state.session_of(k as int, sessions[k as int], branches[k as int]),
        ),
        k == state.pending.len() ==> state.import_run(sessions, branches, k) == Outcome::<
            ImportState,
            ImportCount,
        >::Run(
            ImportState { pending: Seq::empty(), phase: ImportPhase::Commit, ..state },
            Action::Commit,
        ),
    decreases k,
{
    let n = state.pending.len() as int;
    if k == 0 {
        if n > 0 {
            assert(state.pending.remove(0) =~= state.pending.subrange(1, n));
        } else {
            assert(state.pending =~= Seq::empty());
        }
    } else {
        lemma_import_writes_each_row_once(state, sessions, branches, (k - 1) as nat);
        let started = ImportState {
            pending: state.pending.subrange(k as int, n),
            phase: ImportPhase::Session {
                session_id: sessions[k - 1],
                branch_id: branches[k - 1],
                at: state.pending[k - 1].updated_at_unix_seconds as i64,
            },
            ..state
        };
        assert(state.import_run(sessions, branches, (k - 1) as nat) == Outcome::<
            ImportState,
            ImportCount,
        >::Run(started, state.session_of(k - 1, sessions[k - 1], branches[k - 1])));
        let branched = ImportState { phase: ImportPhase::Branch, ..started };
        assert(state.import_run(sessions, branches, k) == branched.import_next(
            sessions[k as int],
            branches[k as int],
        ));
        if k < n {
            assert(branched.pending[0] == state.pending[k as int]);
            assert(branched.pending.remove(0) =~= state.pending.subrange(k as int + 1, n));
        } else {
            assert(branched.pending =~= Seq::empty());
        }
    }
}

/// A committed import reports the number of valid rows of its source, and
/// that the database was not imported before.
pub proof fn lemma_import_reports_candidates(
    state: ImportState,
    session_id: SessionId,
    branch_id: BranchId,
)
    requires
        state.phase == ImportPhase::Commit,
    ensures
        state.next(Reply::Done, session_id, branch_id) == Outcome::<
            ImportState,
            ImportCount,
        >::Done(ImportCount { imported_sessions: state.candidates, already_migrated: false }),
{
}


/// An import never goes on after a failure: whatever the phase, a failed
/// action ends the import with a fault, so that nothing is committed.
pub proof fn lemma_import_stops_at_failure(
    state: ImportState,
    source: String,
    session_id: SessionId,
    branch_id: BranchId,
)
    ensures
        state.next(Reply::Failed(source), session_id, branch_id) is Fail,
{
}

} // verus!
