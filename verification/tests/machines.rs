//! The engine's operations, step by step, against replies written by hand.

use zova::storage::agent_events::{AppendAgentEvent, EventPhase, ListAgentEvents};
use zova::storage::error::StorageError;
use zova::storage::fork::{ForkFromHistory, ForkPhase};
use zova::storage::ids::{AgentEventId, BranchId, MediaRefId, MessageId, SessionId};
use zova::storage::import::{
    import_report, missing_source_report, ImportCount, ImportLegacy, ImportPhase,
};
use zova::storage::legacy::{LegacyConversationRow, LegacyImportWarning};
use zova::storage::media::{AttachMedia, AttachPhase, SoftDeleteMedia};
use zova::storage::messages::{
    load_active_branch_id, AppendMessage, AppendPhase, GetMessage, ListMessages, UpdateMessage,
};
use zova::storage::protocol::{Action, Operation, Reply, Rows, Step};
use zova::storage::rows::{ForkPrefixRow, ForkSourceRow, MessageRow, SessionRow};
use zova::storage::sessions::{
    ChangePhase, CreatePhase, CreateSession, GetSession, ListSessions, RestoreSession,
    SoftDeleteSession, UpdateSession,
};
use zova::storage::sql::Query;
use zova::storage::types::{
    HistoryForkOutcome, HistoryForkRequest, MessageIdRemap, MessagePatch, MessageRecord,
    MessageRole, NewAgentEvent, NewMediaRef, NewMessage, NewSession, SessionPatch, SessionRecord,
};

fn run<O: Operation>(step: Step<O, O::Output>) -> (O, Action) {
    match step {
        Step::Run(state, action) => (state, action),
        Step::Finish(_) => panic!("the operation finished early"),
    }
}

fn done<O: Operation>(step: Step<O, O::Output>) -> O::Output {
    match step {
        Step::Finish(Ok(output)) => output,
        _ => panic!("the operation did not succeed"),
    }
}

fn fail<O: Operation>(step: Step<O, O::Output>) -> StorageError {
    match step {
        Step::Finish(Err(error)) => error,
        _ => panic!("the operation did not fail"),
    }
}

fn failed() -> Reply {
    Reply::Failed("disk I/O error".to_string())
}

fn assert_query_failure(error: StorageError, expected_stage: &str) {
    match error {
        StorageError::SqliteQuery { stage, source } => {
            assert_eq!(stage, expected_stage);
            assert_eq!(source, "disk I/O error");
        }
        other => panic!("unexpected error: {other:?}"),
    }
}

fn assert_unexpected(error: StorageError, expected_stage: &str) {
    match error {
        StorageError::InvariantViolation { stage, details } => {
            assert_eq!(stage, expected_stage);
            assert_eq!(details, "database driver returned an unexpected reply");
        }
        other => panic!("unexpected error: {other:?}"),
    }
}

fn assert_not_found(error: StorageError, expected_stage: &str, expected_entity: &str, id: String) {
    match error {
        StorageError::NotFound { stage, entity, id: found } => {
            assert_eq!(stage, expected_stage);
            assert_eq!(entity, expected_entity);
            assert_eq!(found, id);
        }
        other => panic!("unexpected error: {other:?}"),
    }
}

fn integers(values: Vec<i64>) -> Reply {
    Reply::Rows(Rows::Integers(values))
}

fn texts(values: Vec<Option<&str>>) -> Reply {
    Reply::Rows(Rows::Texts(values.into_iter().map(|v| v.map(|t| t.to_string())).collect()))
}

fn create_at(phase: CreatePhase) -> CreateSession {
    CreateSession {
        title: "hello".to_string(),
        session_id: SessionId::new(1),
        branch_id: BranchId::new(2),
        now: 1700000000,
        phase,
    }
}

#[test]
fn a_session_is_created_with_its_first_branch_in_one_transaction() {
    let op = CreateSession::new(NewSession { title: "fresh".to_string() });
    assert_eq!(op.title, "fresh");
    assert_eq!(op.phase, CreatePhase::Begin);
    assert_eq!(op.connect_stage(), "session-create-connect");

    let (state, action) = run(create_at(CreatePhase::Begin).start());
    assert_eq!(action, Action::Begin);
    let (state, action) = run(state.resume(Reply::Done));
    assert_eq!(
        action,
        Action::Execute(Query::InsertSession {
            id: SessionId::new(1),
            title: "hello".to_string(),
            active_branch_id: BranchId::new(2),
            at: 1700000000,
        })
    );
    let (state, action) = run(state.resume(Reply::Affected(1)));
    assert_eq!(
        action,
        Action::Execute(Query::InsertRootBranch {
            id: BranchId::new(2),
            session_id: SessionId::new(1),
            at: 1700000000,
        })
    );
    let (state, action) = run(state.resume(Reply::Affected(1)));
    assert_eq!(action, Action::Commit);
    assert_eq!(
        done(state.resume(Reply::Done)),
        SessionRecord {
            id: SessionId::new(1),
            title: "hello".to_string(),
            active_branch_id: BranchId::new(2),
            updated_at_unix_seconds: 1700000000,
            deleted_at_unix_seconds: None,
        }
    );
}

#[test]
fn a_failure_ends_the_creation_under_its_stage() {
    let stages = [
        (CreatePhase::Begin, "session-create-begin"),
        (CreatePhase::InsertSession, "session-create-insert-session"),
        (CreatePhase::InsertBranch, "session-create-insert-branch"),
        (CreatePhase::Commit, "session-create-commit"),
    ];
    for (phase, stage) in stages {
        assert_query_failure(fail(create_at(phase).resume(failed())), stage);
        assert_unexpected(fail(create_at(phase).resume(integers(vec![1]))), stage);
    }
    let mut before_epoch = create_at(CreatePhase::Commit);
    before_epoch.now = -5;
    match fail(before_epoch.resume(Reply::Done)) {
        StorageError::InvariantViolation { stage, details } => {
            assert_eq!(stage, "session-create-updated-at");
            assert_eq!(details, "negative sqlite integer '-5' cannot map to u64");
        }
        other => panic!("unexpected error: {other:?}"),
    }
}

fn session_row(id: u128, title: &str, updated_at: i64) -> SessionRow {
    SessionRow {
        id: SessionId::new(id).to_text(),
        title: title.to_string(),
        active_branch_id: Some(BranchId::new(id + 100).to_text()),
        updated_at,
        deleted_at: None,
    }
}

#[test]
fn sessions_are_listed_in_the_order_of_the_reply() {
    let (state, action) = run(ListSessions::new(true).start());
    assert_eq!(action, Action::Fetch(Query::ListSessions { include_deleted: true }));
    let rows = vec![session_row(2, "b", 20), session_row(1, "a", 10)];
    let listed = done(state.resume(Reply::Rows(Rows::Sessions(rows))));
    assert_eq!(listed.iter().map(|s| s.title.as_str()).collect::<Vec<_>>(), vec!["b", "a"]);
    assert_eq!(listed[0].id, SessionId::new(2));
    assert_eq!(listed[0].active_branch_id, BranchId::new(102));

    assert_query_failure(fail(ListSessions::new(false).resume(failed())), "session-list-query");
    assert_unexpected(
        fail(ListSessions::new(false).resume(Reply::Rows(Rows::Messages(Vec::new())))),
        "session-list-query",
    );
    let broken = vec![session_row(1, "a", 10), session_row(2, "b", -1)];
    assert!(matches!(
        fail(ListSessions::new(false).resume(Reply::Rows(Rows::Sessions(broken)))),
        StorageError::InvariantViolation { stage: "session-row-updated-at", .. }
    ));
}

#[test]
fn a_session_is_found_or_not() {
    let id = SessionId::new(7);
    let (state, action) = run(GetSession::new(id).start());
    assert_eq!(action, Action::Fetch(Query::GetSession { id }));
    assert_eq!(done(state.resume(Reply::Rows(Rows::Sessions(Vec::new())))), None);
    let found = done(GetSession::new(id).resume(Reply::Rows(Rows::Sessions(vec![session_row(7, "x", 1)]))));
    assert_eq!(found.unwrap().title, "x");
    assert_query_failure(fail(GetSession::new(id).resume(failed())), "session-get-query");
}

#[test]
fn updating_a_session_that_is_not_there_is_not_found() {
    let id = SessionId::new(7);
    let op = UpdateSession {
        session_id: id,
        title: Some("new".to_string()),
        now: 50,
        phase: ChangePhase::Apply,
    };
    let (state, action) = run(op.start());
    assert_eq!(
        action,
        Action::Execute(Query::UpdateSession { id, title: Some("new".to_string()), at: 50 })
    );
    assert_not_found(fail(state.resume(Reply::Affected(0))), "session-update-missing", "session", id.to_text());

    let op = UpdateSession::new(id, SessionPatch { title: None });
    assert_eq!(op.phase, ChangePhase::Apply);
    let (state, _) = run(op.start());
    let (state, action) = run(state.resume(Reply::Affected(1)));
    assert_eq!(action, Action::Fetch(Query::GetSession { id }));
    assert_eq!(state.phase, ChangePhase::Follow);
    let loaded = done(state.resume(Reply::Rows(Rows::Sessions(vec![session_row(7, "new", 50)]))));
    assert_eq!(loaded.title, "new");

    let follow = || UpdateSession { session_id: id, title: None, now: 50, phase: ChangePhase::Follow };
    assert_not_found(
        fail(follow().resume(Reply::Rows(Rows::Sessions(Vec::new())))),
        "session-update-load-missing",
        "session",
        id.to_text(),
    );
    assert_query_failure(fail(follow().resume(failed())), "session-update-load");
    let apply = UpdateSession { session_id: id, title: None, now: 50, phase: ChangePhase::Apply };
    assert_query_failure(fail(apply.resume(failed())), "session-update-apply");
}

#[test]
fn deleting_and_restoring_ask_whether_the_session_exists() {
    let id = SessionId::new(9);
    let delete = SoftDeleteSession { session_id: id, now: 5, phase: ChangePhase::Apply };
    let (state, action) = run(delete.start());
    assert_eq!(action, Action::Execute(Query::SoftDeleteSession { id, at: 5 }));
    done(state.resume(Reply::Affected(1)));
    let (state, action) = run(delete.resume(Reply::Affected(0)));
    assert_eq!(action, Action::Fetch(Query::SessionExists { id }));
    done(state.resume(integers(vec![1])));
    assert_not_found(
        fail(state.resume(integers(Vec::new()))),
        "session-soft-delete-missing",
        "session",
        id.to_text(),
    );
    assert_query_failure(fail(delete.resume(failed())), "session-soft-delete-apply");
    assert_query_failure(fail(state.resume(failed())), "session-exists-query");

    let restore = RestoreSession { session_id: id, now: 6, phase: ChangePhase::Apply };
    let (state, action) = run(restore.start());
    assert_eq!(action, Action::Execute(Query::RestoreSession { id, at: 6 }));
    done(state.resume(Reply::Affected(1)));
    let (state, action) = run(restore.resume(Reply::Affected(0)));
    assert_eq!(action, Action::Fetch(Query::SessionExists { id }));
    done(state.resume(integers(vec![1])));
    assert_not_found(
        fail(state.resume(integers(Vec::new()))),
        "session-restore-missing",
        "session",
        id.to_text(),
    );
    assert_query_failure(fail(restore.resume(failed())), "session-restore-apply");
}

#[test]
fn the_active_branch_is_read_from_the_reply() {
    let id = SessionId::new(3);
    let branch = BranchId::new(44);
    assert_eq!(load_active_branch_id(texts(vec![Some(&branch.to_text())]), id, "s").unwrap(), branch);
    assert_not_found(load_active_branch_id(texts(vec![]), id, "stage-a").unwrap_err(), "stage-a", "session", id.to_text());
    match load_active_branch_id(texts(vec![None]), id, "stage-b").unwrap_err() {
        StorageError::InvariantViolation { stage, details } => {
            assert_eq!(stage, "stage-b");
            assert_eq!(details, format!("session '{}' has NULL active_branch_id", id.to_text()));
        }
        other => panic!("unexpected error: {other:?}"),
    }
    assert!(matches!(
        load_active_branch_id(texts(vec![Some("junk")]), id, "s"),
        Err(StorageError::InvalidId { id_type: "branch-id", .. })
    ));
    assert_query_failure(load_active_branch_id(failed(), id, "stage-c").unwrap_err(), "stage-c");
    assert_unexpected(load_active_branch_id(Reply::Done, id, "stage-d").unwrap_err(), "stage-d");
}

fn append_at(phase: AppendPhase) -> AppendMessage {
    AppendMessage {
        session_id: SessionId::new(1),
        message_id: MessageId::new(5),
        role: MessageRole::User,
        content: "hi".to_string(),
        now: 90,
        phase,
    }
}

#[test]
fn a_message_is_appended_to_the_active_branch_with_the_next_number() {
    let op = AppendMessage::new(
        SessionId::new(1),
        NewMessage { role: MessageRole::System, content: "rules".to_string() },
    );
    assert_eq!((op.role, op.content.as_str(), op.phase), (MessageRole::System, "rules", AppendPhase::LoadActive));

    let branch = BranchId::new(2);
    let (state, action) = run(append_at(AppendPhase::LoadActive).start());
    assert_eq!(action, Action::Fetch(Query::ActiveBranch { session_id: SessionId::new(1) }));
    let (state, action) = run(state.resume(texts(vec![Some(&branch.to_text())])));
    assert_eq!(action, Action::Fetch(Query::NextSeq { session_id: SessionId::new(1), branch_id: branch }));
    let (state, action) = run(state.resume(integers(vec![4])));
    assert_eq!(
        action,
        Action::Execute(Query::InsertMessage {
            id: MessageId::new(5),
            session_id: SessionId::new(1),
            branch_id: branch,
            seq: 4,
            role: MessageRole::User,
            content: "hi".to_string(),
            at: 90,
        })
    );
    assert_eq!(
        done(state.resume(Reply::Affected(1))),
        MessageRecord {
            id: MessageId::new(5),
            session_id: SessionId::new(1),
            branch_id: branch,
            seq: 4,
            role: MessageRole::User,
            content: "hi".to_string(),
            deleted_at_unix_seconds: None,
        }
    );
}

#[test]
fn a_failure_ends_the_append_under_its_stage() {
    let branch_id = BranchId::new(2);
    assert_query_failure(fail(append_at(AppendPhase::LoadActive).resume(failed())), "message-append-load-active");
    assert_query_failure(
        fail(append_at(AppendPhase::NextSeq { branch_id }).resume(failed())),
        "message-append-next-seq",
    );
    match fail(append_at(AppendPhase::NextSeq { branch_id }).resume(integers(Vec::new()))) {
        StorageError::SqliteQuery { stage, source } => {
            assert_eq!(stage, "message-append-next-seq");
            assert_eq!(source, "the statement returned no row where one is required");
        }
        other => panic!("unexpected error: {other:?}"),
    }
    assert_query_failure(
        fail(append_at(AppendPhase::Insert { branch_id, seq: 1 }).resume(failed())),
        "message-append-insert",
    );
    assert!(matches!(
        fail(append_at(AppendPhase::Insert { branch_id, seq: -1 }).resume(Reply::Affected(1))),
        StorageError::InvariantViolation { stage: "message-append-seq", .. }
    ));
}

fn message_row(id: u128, seq: i64, content: &str) -> MessageRow {
    MessageRow {
        id: MessageId::new(id).to_text(),
        session_id: SessionId::new(1).to_text(),
        branch_id: BranchId::new(2).to_text(),
        seq,
        role: "user".to_string(),
        content: content.to_string(),
        deleted_at: None,
    }
}

#[test]
fn messages_are_listed_from_the_active_branch() {
    let session_id = SessionId::new(1);
    let branch_id = BranchId::new(2);
    let (state, action) = run(ListMessages::new(session_id).start());
    assert_eq!(action, Action::Fetch(Query::ActiveBranch { session_id }));
    let (state, action) = run(state.resume(texts(vec![Some(&branch_id.to_text())])));
    assert_eq!(action, Action::Fetch(Query::ListMessages { session_id, branch_id }));
    let rows = vec![message_row(10, 1, "a"), message_row(11, 2, "b")];
    let listed = done(state.resume(Reply::Rows(Rows::Messages(rows))));
    assert_eq!(listed.iter().map(|m| (m.seq, m.content.as_str())).collect::<Vec<_>>(), vec![(1, "a"), (2, "b")]);
    assert_query_failure(fail(state.resume(failed())), "message-list-query");
    assert_not_found(
        fail(ListMessages::new(session_id).resume(texts(vec![]))),
        "message-list-load-active",
        "session",
        session_id.to_text(),
    );
}

#[test]
fn an_update_in_another_session_is_not_found() {
    let session_id = SessionId::new(1);
    let message_id = MessageId::new(10);
    let op = UpdateMessage::new(session_id, message_id, MessagePatch { content: Some("x".to_string()) });
    let now = op.now;
    let (state, action) = run(op.start());
    assert_eq!(
        action,
        Action::Execute(Query::UpdateMessage {
            session_id,
            id: message_id,
            content: Some("x".to_string()),
            at: now,
        })
    );
    assert_not_found(fail(state.resume(Reply::Affected(0))), "message-update-missing", "message", message_id.to_text());

    let apply = || UpdateMessage { session_id, message_id, content: None, now: 1, phase: ChangePhase::Apply };
    let (state, action) = run(apply().resume(Reply::Affected(1)));
    assert_eq!(action, Action::Fetch(Query::GetMessage { session_id, id: message_id }));
    let loaded = done(state.resume(Reply::Rows(Rows::Messages(vec![message_row(10, 1, "x")]))));
    assert_eq!((loaded.id, loaded.content.as_str()), (message_id, "x"));
    assert_query_failure(fail(apply().resume(failed())), "message-update-apply");
    let follow = || UpdateMessage { session_id, message_id, content: None, now: 1, phase: ChangePhase::Follow };
    assert_query_failure(fail(follow().resume(failed())), "message-update-load");
    assert_not_found(
        fail(follow().resume(Reply::Rows(Rows::Messages(Vec::new())))),
        "message-update-load-missing",
        "message",
        message_id.to_text(),
    );
    assert_eq!(done(GetMessage::new(session_id, message_id).resume(Reply::Rows(Rows::Messages(Vec::new())))), None);
    assert_query_failure(fail(GetMessage::new(session_id, message_id).resume(failed())), "message-get-query");
}

fn fork_at(phase: ForkPhase) -> ForkFromHistory {
    ForkFromHistory {
        session_id: SessionId::new(1),
        source_message_id: MessageId::new(11),
        replacement_content: "B2".to_string(),
        now: 500,
        new_branch_id: BranchId::new(3),
        pending: Vec::new(),
        remaps: Vec::new(),
        phase,
    }
}

fn prefix_row(id: u128, seq: i64, role: &str, content: &str) -> ForkPrefixRow {
    ForkPrefixRow {
        id: MessageId::new(id).to_text(),
        seq,
        role: role.to_string(),
        content: content.to_string(),
    }
}

#[test]
fn a_fork_copies_the_prefix_and_swaps_the_branch() {
    let session_id = SessionId::new(1);
    let old_branch = BranchId::new(2);
    let new_branch = BranchId::new(3);
    let unused = MessageId::new(0);
    let op = ForkFromHistory::new(
        session_id,
        HistoryForkRequest { source_message_id: MessageId::new(11), replacement_content: "B2".to_string() },
    );
    assert_eq!((op.session_id, op.source_message_id, op.phase), (session_id, MessageId::new(11), ForkPhase::Begin));
    assert!(op.pending.is_empty() && op.remaps.is_empty());
    assert_eq!(op.connect_stage(), "message-fork-connect");

    let (state, action) = run(fork_at(ForkPhase::Begin).start());
    assert_eq!(action, Action::Begin);
    let (state, action) = run(state.resume_with(Reply::Done, unused));
    assert_eq!(action, Action::Fetch(Query::ActiveBranch { session_id }));
    let (state, action) = run(state.resume_with(texts(vec![Some(&old_branch.to_text())]), unused));
    assert_eq!(
        action,
        Action::Fetch(Query::ForkSource { session_id, branch_id: old_branch, id: MessageId::new(11) })
    );
    let (state, action) =
        run(state.resume_with(Reply::Rows(Rows::ForkSources(vec![ForkSourceRow { seq: 2 }])), unused));
    assert_eq!(
        action,
        Action::Execute(Query::InsertForkBranch {
            id: new_branch,
            session_id,
            parent_branch_id: old_branch,
            at: 500,
        })
    );
    let (state, action) = run(state.resume_with(Reply::Affected(1), unused));
    assert_eq!(action, Action::Fetch(Query::ForkPrefix { session_id, branch_id: old_branch, max_seq: 2 }));

    let prefix = vec![prefix_row(10, 1, "user", "A"), prefix_row(11, 2, "assistant", "B")];
    let (state, action) = run(state.resume_with(Reply::Rows(Rows::ForkPrefix(prefix)), MessageId::new(20)));
    assert_eq!(
        action,
        Action::Execute(Query::CopyMessage {
            id: MessageId::new(20),
            session_id,
            branch_id: new_branch,
            seq: 1,
            role: "user".to_string(),
            content: "A".to_string(),
            at: 500,
        })
    );
    assert_eq!(state.pending.len(), 1);
    let (state, action) = run(state.resume_with(Reply::Affected(1), MessageId::new(21)));
    assert_eq!(
        action,
        Action::Execute(Query::CopyMessage {
            id: MessageId::new(21),
            session_id,
            branch_id: new_branch,
            seq: 2,
            role: "assistant".to_string(),
            content: "B2".to_string(),
            at: 500,
        })
    );
    let (state, action) = run(state.resume_with(Reply::Affected(1), MessageId::new(22)));
    assert_eq!(
        action,
        Action::Execute(Query::SetActiveBranch { session_id, branch_id: new_branch, at: 500 })
    );
    let (state, action) = run(state.resume_with(Reply::Affected(1), unused));
    assert_eq!(
        action,
        Action::Execute(Query::SoftDeleteBranch { session_id, branch_id: old_branch, at: 500 })
    );
    let (state, action) = run(state.resume_with(Reply::Affected(1), unused));
    assert_eq!(action, Action::Commit);
    assert_eq!(
        done(state.resume_with(Reply::Done, unused)),
        HistoryForkOutcome {
            new_branch_id: new_branch,
            message_id_remaps: vec![
                MessageIdRemap { old_message_id: MessageId::new(10), new_message_id: MessageId::new(20) },
                MessageIdRemap { old_message_id: MessageId::new(11), new_message_id: MessageId::new(21) },
            ],
        }
    );
}

#[test]
fn a_fork_mints_a_fresh_identifier_for_each_copy() {
    let old_branch = BranchId::new(2);
    let prefix = vec![prefix_row(10, 1, "user", "A"), prefix_row(11, 2, "assistant", "B")];
    let (state, first) =
        run(fork_at(ForkPhase::LoadPrefix { old_branch }).resume(Reply::Rows(Rows::ForkPrefix(prefix))));
    let (state, second) = run(state.resume(Reply::Affected(1)));
    let copied = |action: &Action| match action {
        Action::Execute(Query::CopyMessage { id, .. }) => *id,
        other => panic!("unexpected action: {other:?}"),
    };
    assert_ne!(copied(&first), copied(&second));
    assert_ne!(copied(&first), MessageId::new(10));
    assert_eq!(state.remaps[0].new_message_id, copied(&first));
    assert_eq!(state.remaps[1].new_message_id, copied(&second));
}

#[test]
fn a_fork_fails_without_writing_more() {
    let old_branch = BranchId::new(2);
    let unused = MessageId::new(0);
    let stages = [
        (ForkPhase::Begin, "message-fork-begin"),
        (ForkPhase::LoadActive, "message-fork-load-active-branch"),
        (ForkPhase::LoadSource { old_branch }, "message-fork-load-source"),
        (ForkPhase::InsertBranch { old_branch, source_seq: 2 }, "message-fork-insert-branch"),
        (ForkPhase::LoadPrefix { old_branch }, "message-fork-load-prefix"),
        (ForkPhase::Copy { old_branch }, "message-fork-copy-prefix"),
        (ForkPhase::SetActive { old_branch }, "message-fork-update-session-active-branch"),
        (ForkPhase::RetireOld, "message-fork-soft-delete-old-branch"),
        (ForkPhase::Commit, "message-fork-commit"),
    ];
    for (phase, stage) in stages {
        assert_query_failure(fail(fork_at(phase).resume_with(failed(), unused)), stage);
        assert_query_failure(fail(fork_at(phase).resume(failed())), stage);
    }
    assert_not_found(
        fail(fork_at(ForkPhase::LoadActive).resume_with(texts(vec![]), unused)),
        "message-fork-load-active-branch",
        "session",
        SessionId::new(1).to_text(),
    );
    assert_not_found(
        fail(fork_at(ForkPhase::LoadSource { old_branch }).resume_with(Reply::Rows(Rows::ForkSources(Vec::new())), unused)),
        "message-fork-source-missing",
        "message",
        MessageId::new(11).to_text(),
    );
    match fail(
        fork_at(ForkPhase::LoadPrefix { old_branch })
            .resume_with(Reply::Rows(Rows::ForkPrefix(Vec::new())), unused),
    ) {
        StorageError::InvariantViolation { stage, details } => {
            assert_eq!(stage, "message-fork-empty-prefix");
            assert_eq!(details, "fork prefix query unexpectedly returned zero rows");
        }
        other => panic!("unexpected error: {other:?}"),
    }
    let broken = vec![ForkPrefixRow { id: "junk".to_string(), seq: 1, role: "user".to_string(), content: "A".to_string() }];
    assert!(matches!(
        fail(fork_at(ForkPhase::LoadPrefix { old_branch }).resume_with(Reply::Rows(Rows::ForkPrefix(broken)), unused)),
        StorageError::InvalidId { id_type: "message-id", .. }
    ));
}

fn media_input(uri: &str) -> NewMediaRef {
    NewMediaRef {
        uri: uri.to_string(),
        mime_type: "image/png".to_string(),
        size_bytes: 10,
        duration_ms: Some(7),
        width_px: Some(640),
        height_px: None,
        sha256_hex: None,
    }
}

fn attach(uri: &str) -> AttachMedia {
    AttachMedia {
        session_id: SessionId::new(1),
        message_id: MessageId::new(10),
        media_ref_id: MediaRefId::new(30),
        input: media_input(uri),
        now: 77,
        phase: AttachPhase::Ensure,
    }
}

#[test]
fn media_is_attached_to_a_live_message_only() {
    let (state, action) = run(attach("file:///a.png").start());
    assert_eq!(
        action,
        Action::Fetch(Query::MessageExists { session_id: SessionId::new(1), id: MessageId::new(10) })
    );
    let (state, action) = run(state.resume(integers(vec![1])));
    assert_eq!(
        action,
        Action::Execute(Query::InsertMediaRef {
            id: MediaRefId::new(30),
            session_id: SessionId::new(1),
            message_id: MessageId::new(10),
            uri: "file:///a.png".to_string(),
            mime_type: "image/png".to_string(),
            size_bytes: 10,
            duration_ms: Some(7),
            width_px: Some(640),
            height_px: None,
            sha256_hex: None,
            at: 77,
        })
    );
    let record = done(state.resume(Reply::Affected(1)));
    assert_eq!((record.id, record.uri.as_str(), record.width_px), (MediaRefId::new(30), "file:///a.png", Some(640)));
    assert_eq!(record.deleted_at_unix_seconds, None);

    assert_not_found(
        fail(attach("file:///a.png").resume(integers(Vec::new()))),
        "media-attach-ensure-message",
        "message",
        MessageId::new(10).to_text(),
    );
    assert_not_found(
        fail(attach("data:image/png;base64,AAAA").resume(integers(Vec::new()))),
        "media-attach-ensure-message",
        "message",
        MessageId::new(10).to_text(),
    );
    assert!(matches!(
        fail(attach("data:image/png;base64,AAAA").resume(integers(vec![1]))),
        StorageError::Conflict { stage: "media-attach-validate-uri", entity: "media_ref", .. }
    ));
    assert_query_failure(fail(attach("file:///a.png").resume(failed())), "message-exists-in-scope-query");
    let mut long = attach("file:///a.png");
    long.input.duration_ms = Some(u64::MAX);
    assert!(matches!(
        fail(long.resume(integers(vec![1]))),
        StorageError::InvariantViolation { stage: "media-attach-duration-ms", .. }
    ));
    let mut inserting = attach("file:///a.png");
    inserting.phase = AttachPhase::Insert;
    assert_query_failure(fail(inserting.resume(failed())), "media-attach-insert");
}

#[test]
fn deleting_media_asks_whether_it_exists() {
    let op = SoftDeleteMedia::new(SessionId::new(1), MessageId::new(10), MediaRefId::new(30));
    let now = op.now;
    let (state, _) = run(op.start());
    let (state, action) = run(state.resume(integers(vec![1])));
    assert_eq!(
        action,
        Action::Execute(Query::SoftDeleteMedia {
            session_id: SessionId::new(1),
            message_id: MessageId::new(10),
            id: MediaRefId::new(30),
            at: now,
        })
    );
    done(state.resume(Reply::Affected(1)));
    let (state, action) = run(state.resume(Reply::Affected(0)));
    assert_eq!(
        action,
        Action::Fetch(Query::MediaRefExists {
            session_id: SessionId::new(1),
            message_id: MessageId::new(10),
            id: MediaRefId::new(30),
        })
    );
    done(state.resume(integers(vec![1])));
    assert_not_found(
        fail(state.resume(integers(Vec::new()))),
        "media-soft-delete-missing",
        "media_ref",
        MediaRefId::new(30).to_text(),
    );
    assert_query_failure(fail(state.resume(failed())), "media-ref-exists-in-scope-query");
}

fn event(message_id: Option<MessageId>, phase: EventPhase) -> AppendAgentEvent {
    AppendAgentEvent {
        session_id: SessionId::new(1),
        event_id: AgentEventId::new(40),
        input: NewAgentEvent {
            message_id,
            event_type: "tool_call".to_string(),
            payload_json: "{}".to_string(),
        },
        now: 88,
        phase,
    }
}

#[test]
fn an_event_is_appended_after_its_scope_and_payload_are_checked() {
    let (_, action) = run(event(None, EventPhase::Ensure).start());
    assert_eq!(action, Action::Fetch(Query::SessionLive { id: SessionId::new(1) }));
    let (state, action) = run(event(Some(MessageId::new(10)), EventPhase::Ensure).start());
    assert_eq!(
        action,
        Action::Fetch(Query::MessageExists { session_id: SessionId::new(1), id: MessageId::new(10) })
    );
    let (state, action) = run(state.resume(integers(vec![1])));
    assert_eq!(action, Action::Fetch(Query::JsonValid { payload: "{}".to_string() }));
    let (state, action) = run(state.resume(integers(vec![1])));
    assert_eq!(
        action,
        Action::Execute(Query::InsertAgentEvent {
            id: AgentEventId::new(40),
            session_id: SessionId::new(1),
            message_id: Some(MessageId::new(10)),
            event_type: "tool_call".to_string(),
            payload_json: "{}".to_string(),
            at: 88,
        })
    );
    let record = done(state.resume(Reply::Affected(1)));
    assert_eq!((record.id, record.created_at_unix_seconds), (AgentEventId::new(40), 88));

    assert_not_found(
        fail(event(None, EventPhase::Ensure).resume(integers(Vec::new()))),
        "agent-event-append-ensure-session",
        "session",
        SessionId::new(1).to_text(),
    );
    assert_not_found(
        fail(event(Some(MessageId::new(10)), EventPhase::Ensure).resume(integers(Vec::new()))),
        "agent-event-append-ensure-message",
        "message",
        MessageId::new(10).to_text(),
    );
    match fail(event(None, EventPhase::Validate).resume(integers(vec![0]))) {
        StorageError::Conflict { stage, entity, details } => {
            assert_eq!(stage, "agent-event-append-invalid-json");
            assert_eq!(entity, "agent_event");
            assert_eq!(details, "payload_json must be valid canonical JSON text");
        }
        other => panic!("unexpected error: {other:?}"),
    }
    assert_query_failure(fail(event(None, EventPhase::Ensure).resume(failed())), "session-exists-query");
    assert_query_failure(
        fail(event(None, EventPhase::Validate).resume(failed())),
        "agent-event-append-validate-json",
    );
    assert_query_failure(fail(event(None, EventPhase::Insert).resume(failed())), "agent-event-append-insert");
}

#[test]
fn events_are_listed_by_session_or_by_message() {
    let session_id = SessionId::new(1);
    let (state, action) = run(ListAgentEvents::new(session_id, None).start());
    assert_eq!(action, Action::Fetch(Query::SessionExists { id: session_id }));
    let (state, action) = run(state.resume(integers(vec![1])));
    assert_eq!(action, Action::Fetch(Query::ListAgentEvents { session_id, message_id: None }));
    assert_query_failure(fail(state.resume(failed())), "agent-event-list-query-session");
    assert_eq!(done(state.resume(Reply::Rows(Rows::AgentEvents(Vec::new())))), Vec::new());

    let message_id = Some(MessageId::new(10));
    let (state, _) = run(ListAgentEvents::new(session_id, message_id).start());
    let (state, action) = run(state.resume(integers(vec![1])));
    assert_eq!(action, Action::Fetch(Query::ListAgentEvents { session_id, message_id }));
    assert_query_failure(fail(state.resume(failed())), "agent-event-list-query-message");
}

fn legacy(legacy_id: u64, updated_at_unix_seconds: u64, title: &str) -> LegacyConversationRow {
    LegacyConversationRow { legacy_id, updated_at_unix_seconds, title: title.to_string() }
}

#[test]
fn an_import_writes_a_session_and_a_branch_for_each_row() {
    let ids = |n: u128| (SessionId::new(n), BranchId::new(n + 100));
    let op = ImportLegacy::new(vec![legacy(2, 200, "two"), legacy(1, 100, "one")]);
    assert_eq!((op.candidates, op.phase), (2, ImportPhase::Count));
    assert_eq!(op.connect_stage(), "legacy-import-connect");
    let (state, action) = run(op.start());
    assert_eq!(action, Action::Fetch(Query::CountSessions));
    assert_eq!(Query::CountSessions.sql(), "SELECT COUNT(*) FROM sessions");
    let (state, action) = run(state.resume_with(integers(vec![0]), ids(0).0, ids(0).1));
    assert_eq!(action, Action::Begin);
    let (state, action) = run(state.resume_with(Reply::Done, ids(1).0, ids(1).1));
    assert_eq!(
        action,
        Action::Execute(Query::InsertSession {
            id: SessionId::new(1),
            title: "two".to_string(),
            active_branch_id: BranchId::new(101),
            at: 200,
        })
    );
    let (state, action) = run(state.resume_with(Reply::Affected(1), ids(9).0, ids(9).1));
    assert_eq!(
        action,
        Action::Execute(Query::InsertRootBranch {
            id: BranchId::new(101),
            session_id: SessionId::new(1),
            at: 200,
        })
    );
    let (state, action) = run(state.resume_with(Reply::Affected(1), ids(2).0, ids(2).1));
    assert_eq!(
        action,
        Action::Execute(Query::InsertSession {
            id: SessionId::new(2),
            title: "one".to_string(),
            active_branch_id: BranchId::new(102),
            at: 100,
        })
    );
    let (state, _) = run(state.resume_with(Reply::Affected(1), ids(9).0, ids(9).1));
    let (state, action) = run(state.resume_with(Reply::Affected(1), ids(3).0, ids(3).1));
    assert_eq!(action, Action::Commit);
    assert_eq!(
        done(state.resume_with(Reply::Done, ids(9).0, ids(9).1)),
        ImportCount { imported_sessions: 2, already_migrated: false }
    );
}

#[test]
fn an_import_into_a_database_with_sessions_writes_nothing() {
    let op = ImportLegacy::new(vec![legacy(1, 100, "one")]);
    assert_eq!(
        done(op.resume(integers(vec![3]))),
        ImportCount { imported_sessions: 0, already_migrated: true }
    );
    let empty = ImportLegacy::new(Vec::new());
    assert_eq!(
        done(empty.resume(integers(vec![0]))),
        ImportCount { imported_sessions: 0, already_migrated: false }
    );
    let empty = ImportLegacy::new(Vec::new());
    assert_eq!(
        done(empty.resume(integers(vec![1]))),
        ImportCount { imported_sessions: 0, already_migrated: true }
    );
}

#[test]
fn a_failure_ends_the_import_under_its_stage() {
    let at = |phase| ImportLegacy { pending: vec![legacy(1, 100, "one")], candidates: 1, phase };
    let session = ImportPhase::Session { session_id: SessionId::new(1), branch_id: BranchId::new(2), at: 1 };
    let stages = [
        (ImportPhase::Count, "legacy-import-count-existing-sessions"),
        (ImportPhase::Begin, "legacy-import-begin"),
        (session, "legacy-import-insert-session"),
        (ImportPhase::Branch, "legacy-import-insert-branch"),
        (ImportPhase::Commit, "legacy-import-commit"),
    ];
    for (phase, stage) in stages {
        assert_query_failure(fail(at(phase).resume(failed())), stage);
    }
    let late = ImportLegacy { pending: vec![legacy(1, u64::MAX, "late")], candidates: 1, phase: ImportPhase::Begin };
    match fail(late.resume(Reply::Done)) {
        StorageError::InvariantViolation { stage, details } => {
            assert_eq!(stage, "legacy-import-updated-at");
            assert_eq!(details, "u64 '18446744073709551615' cannot map to sqlite i64");
        }
        other => panic!("unexpected error: {other:?}"),
    }
}

#[test]
fn an_import_of_a_file_skips_its_malformed_lines() {
    let (op, warnings) = ImportLegacy::from_source("1\t100\tone\nbroken\n2\t200\ttwo\n");
    assert_eq!(op.candidates, 2);
    assert_eq!(op.pending, vec![legacy(2, 200, "two"), legacy(1, 100, "one")]);
    assert_eq!(warnings, vec![LegacyImportWarning { line_number: 2, reason: "missing-updated-at" }]);
}

#[test]
fn reports_count_a_skipped_row_for_each_warning() {
    let warnings = vec![
        LegacyImportWarning { line_number: 2, reason: "invalid-id" },
        LegacyImportWarning { line_number: 5, reason: "missing-title" },
    ];
    let report = import_report(
        "legacy.tsv".to_string(),
        warnings.clone(),
        ImportCount { imported_sessions: 4, already_migrated: false },
    );
    assert_eq!(report.source_path, "legacy.tsv");
    assert!(!report.source_missing);
    assert_eq!(report.imported_sessions, 4);
    assert_eq!(report.skipped_rows, 2);
    assert_eq!(report.warnings, warnings);
    assert!(!report.already_migrated);

    let missing = missing_source_report("nowhere.tsv".to_string());
    assert_eq!(missing.source_path, "nowhere.tsv");
    assert!(missing.source_missing);
    assert_eq!((missing.imported_sessions, missing.skipped_rows), (0, 0));
    assert!(missing.warnings.is_empty());
    assert!(!missing.already_migrated);
}

#[test]
fn every_error_names_its_stage() {
    let s = |t: &str| t.to_string();
    let parse_failure = match SessionId::parse("x") {
        Err(error) => error,
        Ok(_) => panic!("parsed"),
    };
    assert_eq!(parse_failure.stage(), "parse-storage-id");
    let errors = vec![
        StorageError::NotFound { stage: "a", entity: "session", id: s("1") },
        StorageError::Conflict { stage: "b", entity: "media_ref", details: s("d") },
        StorageError::InvariantViolation { stage: "c", details: s("d") },
        StorageError::CreateSqliteDirectory { stage: "d", path: s("p"), source: s("e") },
        StorageError::SqliteConnectOptions { stage: "e", database_url: s("u"), source: s("e") },
        StorageError::SqliteConnect { stage: "f", database_url: s("u"), source: s("e") },
        StorageError::SqlitePragma { stage: "g", pragma: "foreign_keys", source: s("e") },
        StorageError::SqliteMigrate { stage: "h", source: s("e") },
        StorageError::SqliteQuery { stage: "i", source: s("e") },
        StorageError::SqliteThreadSpawn { stage: "j", source: s("e") },
        StorageError::SqliteRuntimeInit { stage: "k", source: s("e") },
        StorageError::ReadLegacyConversationTsv { stage: "l", path: s("p"), source: s("e") },
    ];
    let stages: Vec<&str> = errors.iter().map(|error| error.stage()).collect();
    assert_eq!(stages, vec!["a", "b", "c", "d", "e", "f", "g", "h", "i", "j", "k", "l"]);
}

#[test]
fn every_error_says_what_failed() {
    let s = |t: &str| t.to_string();
    let invalid = match SessionId::parse("bogus") {
        Err(error) => error,
        Ok(_) => panic!("parsed"),
    };
    assert_eq!(invalid.message(), "storage id 'bogus' is invalid for session-id");
    let cases = vec![
        (
            StorageError::NotFound { stage: "a", entity: "session", id: s("42") },
            "storage entity 'session' with id '42' was not found",
        ),
        (
            StorageError::Conflict { stage: "b", entity: "media_ref", details: s("no blobs") },
            "storage conflict for 'media_ref': no blobs",
        ),
        (
            StorageError::InvariantViolation { stage: "c", details: s("empty prefix") },
            "storage invariant violation: empty prefix",
        ),
        (
            StorageError::CreateSqliteDirectory { stage: "d", path: s("/data"), source: s("e") },
            "failed to create sqlite directory at /data",
        ),
        (
            StorageError::SqliteConnectOptions { stage: "e", database_url: s("sqlite://x"), source: s("e") },
            "failed to parse sqlite connection URL 'sqlite://x'",
        ),
        (
            StorageError::SqliteConnect { stage: "f", database_url: s("sqlite://x"), source: s("e") },
            "failed to connect sqlite database 'sqlite://x'",
        ),
        (
            StorageError::SqlitePragma { stage: "g", pragma: "foreign_keys", source: s("e") },
            "failed to configure sqlite pragma 'foreign_keys'",
        ),
        (StorageError::SqliteMigrate { stage: "h", source: s("e") }, "failed to run sqlite migrations"),
        (
            StorageError::SqliteQuery { stage: "session-get-query", source: s("disk full") },
            "sqlite query failed at session-get-query: disk full",
        ),
        (
            StorageError::SqliteThreadSpawn { stage: "j", source: s("e") },
            "failed to spawn sqlite worker thread",
        ),
        (
            StorageError::SqliteRuntimeInit { stage: "k", source: s("e") },
            "failed to initialize sqlite worker runtime",
        ),
        (
            StorageError::ReadLegacyConversationTsv { stage: "l", path: s("old.tsv"), source: s("e") },
            "failed to read legacy conversation TSV from old.tsv",
        ),
    ];
    for (error, expected) in cases {
        assert_eq!(error.message(), expected);
    }
}

#[test]
fn an_event_without_a_message_asks_for_a_live_session() {
    let op = AppendAgentEvent::new(
        SessionId::new(1),
        NewAgentEvent {
            message_id: None,
            event_type: "note".to_string(),
            payload_json: "{}".to_string(),
        },
    );
    let (state, action) = run(op.start());
    match &action {
        Action::Fetch(query) => {
            assert_eq!(*query, Query::SessionLive { id: SessionId::new(1) });
            assert!(query.sql().contains("deleted_at IS NULL"));
        }
        other => panic!("unexpected action: {other:?}"),
    }
    assert_not_found(
        fail(state.resume(integers(Vec::new()))),
        "agent-event-append-ensure-session",
        "session",
        SessionId::new(1).to_text(),
    );
}

#[test]
fn operations_mint_identifiers_of_version_7() {
    let version = |value: u128| ((value >> 76) & 0xf, (value >> 62) & 0x3);
    let created = CreateSession::new(NewSession { title: "t".to_string() });
    assert_eq!(version(created.session_id.as_u128()), (7, 2));
    assert_eq!(version(created.branch_id.as_u128()), (7, 2));
    assert_ne!(created.session_id.as_u128(), created.branch_id.as_u128());
    let appended = AppendMessage::new(
        SessionId::new(1),
        NewMessage { role: MessageRole::User, content: "c".to_string() },
    );
    assert_eq!(version(appended.message_id.as_u128()), (7, 2));
    let attached = AttachMedia::new(SessionId::new(1), MessageId::new(2), media_input("file:///a"));
    assert_eq!(version(attached.media_ref_id.as_u128()), (7, 2));
    let logged = AppendAgentEvent::new(
        SessionId::new(1),
        NewAgentEvent { message_id: None, event_type: "e".to_string(), payload_json: "1".to_string() },
    );
    assert_eq!(version(logged.event_id.as_u128()), (7, 2));
    let forked = ForkFromHistory::new(
        SessionId::new(1),
        HistoryForkRequest { source_message_id: MessageId::new(2), replacement_content: "r".to_string() },
    );
    assert_eq!(version(forked.new_branch_id.as_u128()), (7, 2));
}
