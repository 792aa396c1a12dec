//! The engine's operations, run against a real database.

use std::str::FromStr;
use std::time::Duration;

use sqlx::sqlite::{
    SqliteConnectOptions, SqliteConnection, SqliteJournalMode, SqlitePool, SqlitePoolOptions,
    SqliteRow,
};
use sqlx::{Connection, Row};

use zova::storage::agent_events::{AppendAgentEvent, ListAgentEvents};
use zova::storage::bootstrap::{ConnectStore, OpenStorage};
use zova::storage::error::{StorageError, StorageResult};
use zova::storage::fork::ForkFromHistory;
use zova::storage::ids::{BranchId, MessageId, SessionId};
use zova::storage::import::{import_report, ImportLegacy, LegacyImportReport};
use zova::storage::media::{AttachMedia, ListMedia, SoftDeleteMedia};
use zova::storage::messages::{AppendMessage, GetMessage, ListMessages, UpdateMessage};
use zova::storage::protocol::{Action, Operation, Reply, Rows, Step};
use zova::storage::rows::{
    AgentEventRow, ForkPrefixRow, ForkSourceRow, MediaRefRow, MessageRow, SessionRow,
};
use zova::storage::sessions::{
    CreateSession, GetSession, ListSessions, RestoreSession, SoftDeleteSession, UpdateSession,
};
use zova::storage::sql::{Query, RowShape, SqlValue};
use zova::storage::types::{
    HistoryForkRequest, MessagePatch, MessageRecord, MessageRole, NewAgentEvent, NewMediaRef,
    NewMessage, NewSession, SessionPatch, SessionRecord, DEFAULT_SESSION_TITLE,
};

struct Driver {
    pool: Option<SqlitePool>,
    connection: Option<SqliteConnection>,
    options: Option<SqliteConnectOptions>,
}

fn decode(shape: RowShape, rows: Vec<SqliteRow>) -> Result<Rows, sqlx::Error> {
    Ok(match shape {
        RowShape::Nothing | RowShape::Integers => {
            let mut out = Vec::new();
            for row in rows.iter() {
                out.push(row.try_get::<i64, _>(0)?);
            }
            Rows::Integers(out)
        }
        RowShape::Texts => {
            let mut out = Vec::new();
            for row in rows.iter() {
                out.push(row.try_get::<Option<String>, _>(0)?);
            }
            Rows::Texts(out)
        }
        RowShape::Sessions => {
            let mut out = Vec::new();
            for row in rows.iter() {
                out.push(SessionRow {
                    id: row.try_get("id")?,
                    title: row.try_get("title")?,
                    active_branch_id: row.try_get("active_branch_id")?,
                    updated_at: row.try_get("updated_at")?,
                    deleted_at: row.try_get("deleted_at")?,
                });
            }
            Rows::Sessions(out)
        }
        RowShape::Messages => {
            let mut out = Vec::new();
            for row in rows.iter() {
                out.push(MessageRow {
                    id: row.try_get("id")?,
                    session_id: row.try_get("session_id")?,
                    branch_id: row.try_get("branch_id")?,
                    seq: row.try_get("seq")?,
                    role: row.try_get("role")?,
                    content: row.try_get("content")?,
                    deleted_at: row.try_get("deleted_at")?,
                });
            }
            Rows::Messages(out)
        }
        RowShape::ForkSources => {
            let mut out = Vec::new();
            for row in rows.iter() {
                out.push(ForkSourceRow { seq: row.try_get("seq")? });
            }
            Rows::ForkSources(out)
        }
        RowShape::ForkPrefix => {
            let mut out = Vec::new();
            for row in rows.iter() {
                out.push(ForkPrefixRow {
                    id: row.try_get("id")?,
                    seq: row.try_get("seq")?,
                    role: row.try_get("role")?,
                    content: row.try_get("content")?,
                });
            }
            Rows::ForkPrefix(out)
        }
        RowShape::MediaRefs => {
            let mut out = Vec::new();
            for row in rows.iter() {
                out.push(MediaRefRow {
                    id: row.try_get("id")?,
                    session_id: row.try_get("session_id")?,
                    message_id: row.try_get("message_id")?,
                    uri: row.try_get("uri")?,
                    mime_type: row.try_get("mime_type")?,
                    size_bytes: row.try_get("size_bytes")?,
                    duration_ms: row.try_get("duration_ms")?,
                    width_px: row.try_get("width_px")?,
                    height_px: row.try_get("height_px")?,
                    sha256_hex: row.try_get("sha256_hex")?,
                    deleted_at: row.try_get("deleted_at")?,
                });
            }
            Rows::MediaRefs(out)
        }
        RowShape::AgentEvents => {
            let mut out = Vec::new();
            for row in rows.iter() {
                out.push(AgentEventRow {
                    id: row.try_get("id")?,
                    session_id: row.try_get("session_id")?,
                    message_id: row.try_get("message_id")?,
                    event_type: row.try_get("event_type")?,
                    payload_json: row.try_get("payload_json")?,
                    created_at: row.try_get("created_at")?,
                });
            }
            Rows::AgentEvents(out)
        }
    })
}

impl Driver {
    fn new() -> Self {
        Driver { pool: None, connection: None, options: None }
    }

    async fn execute_text(&mut self, text: &'static str, values: Vec<SqlValue>) -> Reply {
        let mut statement = sqlx::query(text);
        for value in values {
            statement = match value {
                SqlValue::Null => statement.bind(Option::<i64>::None),
                SqlValue::Integer(number) => statement.bind(number),
                SqlValue::Text(text) => statement.bind(text),
            };
        }
        let result = match (self.connection.as_mut(), self.pool.as_ref()) {
            (Some(connection), _) => statement.execute(connection).await,
            (None, Some(pool)) => statement.execute(pool).await,
            (None, None) => return Reply::Failed("no database is open".to_string()),
        };
        match result {
            Ok(done) => Reply::Affected(done.rows_affected()),
            Err(error) => Reply::Failed(error.to_string()),
        }
    }

    async fn fetch(&mut self, query: Query) -> Reply {
        let mut statement = sqlx::query(query.sql());
        for value in query.params() {
            statement = match value {
                SqlValue::Null => statement.bind(Option::<i64>::None),
                SqlValue::Integer(number) => statement.bind(number),
                SqlValue::Text(text) => statement.bind(text),
            };
        }
        let result = match (self.connection.as_mut(), self.pool.as_ref()) {
            (Some(connection), _) => statement.fetch_all(connection).await,
            (None, Some(pool)) => statement.fetch_all(pool).await,
            (None, None) => return Reply::Failed("no database is open".to_string()),
        };
        match result.and_then(|rows| decode(query.shape(), rows)) {
            Ok(rows) => Reply::Rows(rows),
            Err(error) => Reply::Failed(error.to_string()),
        }
    }

    async fn perform(&mut self, action: Action) -> Reply {
        match action {
            Action::ParseUrl { database_url } => {
                match SqliteConnectOptions::from_str(&database_url) {
                    Ok(options) => {
                        self.options = Some(options);
                        Reply::Done
                    }
                    Err(error) => Reply::Failed(error.to_string()),
                }
            }
            Action::OpenPool { database_url, options } => {
                let parsed = match self.options.take() {
                    Some(parsed) => parsed,
                    None => match SqliteConnectOptions::from_str(&database_url) {
                        Ok(parsed) => parsed,
                        Err(error) => return Reply::Failed(error.to_string()),
                    },
                };
                let journal = if options.journal_mode_wal {
                    SqliteJournalMode::Wal
                } else {
                    SqliteJournalMode::Delete
                };
                let connect = parsed
                    .create_if_missing(options.create_if_missing)
                    .foreign_keys(options.foreign_keys)
                    .journal_mode(journal)
                    .busy_timeout(Duration::from_millis(options.busy_timeout_ms));
                let opened = SqlitePoolOptions::new()
                    .max_connections(options.max_connections)
                    .connect_with(connect)
                    .await;
                match opened {
                    Ok(pool) => {
                        self.pool = Some(pool);
                        Reply::Done
                    }
                    Err(error) => Reply::Failed(error.to_string()),
                }
            }
            Action::Connect { database_url } => {
                match SqliteConnection::connect(&database_url).await {
                    Ok(connection) => {
                        self.connection = Some(connection);
                        Reply::Done
                    }
                    Err(error) => Reply::Failed(error.to_string()),
                }
            }
            Action::Begin => match self.execute_text("BEGIN", Vec::new()).await {
                Reply::Affected(_) => Reply::Done,
                other => other,
            },
            Action::Commit => match self.execute_text("COMMIT", Vec::new()).await {
                Reply::Affected(_) => Reply::Done,
                other => other,
            },
            Action::Execute(query) => self.execute_text(query.sql(), query.params()).await,
            Action::Fetch(query) => self.fetch(query).await,
        }
    }

    async fn run<O: Operation>(&mut self, operation: O) -> StorageResult<O::Output> {
        let mut step = operation.start();
        loop {
            match step {
                Step::Finish(result) => return result,
                Step::Run(state, action) => {
                    let reply = self.perform(action).await;
                    step = state.resume(reply);
                }
            }
        }
    }
}

struct Store {
    runtime: tokio::runtime::Runtime,
    pool: SqlitePool,
    database_url: String,
}

impl Store {
    fn open(location: &str) -> Store {
        let runtime = tokio::runtime::Builder::new_current_thread().enable_all().build().unwrap();
        let mut driver = Driver::new();
        let database_url = runtime.block_on(driver.run(OpenStorage::new(location))).unwrap();
        Store { runtime, pool: driver.pool.take().unwrap(), database_url }
    }

    fn memory(name: &str) -> Store {
        Store::open(&format!("sqlite:file:zova_{name}?mode=memory&cache=shared"))
    }

    fn call<O: Operation>(&self, operation: O) -> StorageResult<O::Output> {
        self.runtime.block_on(async {
            let mut driver = Driver::new();
            let stage = operation.connect_stage();
            driver.run(ConnectStore::new(self.database_url.clone(), stage)).await?;
            driver.run(operation).await
        })
    }

    fn scalar(&self, text: &'static str) -> i64 {
        self.runtime.block_on(async {
            sqlx::query(text).fetch_one(&self.pool).await.unwrap().try_get::<i64, _>(0).unwrap()
        })
    }

    fn create_session(&self, title: &str) -> SessionRecord {
        self.call(CreateSession::new(NewSession { title: title.to_string() })).unwrap()
    }

    fn append(&self, session_id: SessionId, role: MessageRole, content: &str) -> MessageRecord {
        self.call(AppendMessage::new(session_id, NewMessage { role, content: content.to_string() }))
            .unwrap()
    }

    fn import(&self, source: &str) -> LegacyImportReport {
        let (operation, warnings) = ImportLegacy::from_source(source);
        let count = self.call(operation).unwrap();
        import_report("fixture.tsv".to_string(), warnings, count)
    }
}

#[test]
fn schema_bootstrap_sets_pragmas_and_tables() {
    let path = format!("/tmp/zova-schema-{}.db", SessionId::new_v7().to_text());
    let store = Store::open(&path);
    assert_eq!(store.database_url, format!("sqlite://{path}"));
    let tables = store.scalar(
        "SELECT COUNT(*) FROM sqlite_master WHERE type = 'table' AND name IN ('sessions', 'branches', 'messages', 'media_refs', 'agent_events')",
    );
    assert_eq!(tables, 5);
    let journal_mode = store.runtime.block_on(async {
        sqlx::query("PRAGMA journal_mode;")
            .fetch_one(&store.pool)
            .await
            .unwrap()
            .try_get::<String, _>(0)
            .unwrap()
    });
    assert_eq!(journal_mode.to_lowercase(), "wal");
    assert_eq!(store.scalar("PRAGMA foreign_keys;"), 1);
    assert_eq!(store.scalar("PRAGMA busy_timeout;"), 5000);
}

fn open_failure(location: &str) -> StorageError {
    let runtime = tokio::runtime::Builder::new_current_thread().enable_all().build().unwrap();
    let mut driver = Driver::new();
    runtime.block_on(driver.run(OpenStorage::new(location))).unwrap_err()
}

#[test]
fn a_url_that_cannot_be_read_is_refused() {
    match open_failure("sqlite:file:zova_bad?mode=bogus") {
        StorageError::SqliteConnectOptions { stage, database_url, .. } => {
            assert_eq!(stage, "sqlite-open-parse-url");
            assert_eq!(database_url, "sqlite:file:zova_bad?mode=bogus");
        }
        other => panic!("unexpected error: {other:?}"),
    }
}

#[test]
fn a_database_that_cannot_be_opened_is_a_connect_failure() {
    match open_failure("/zova-no-such-directory/deeper/zova.db") {
        StorageError::SqliteConnect { stage, database_url, .. } => {
            assert_eq!(stage, "sqlite-open-connect");
            assert_eq!(database_url, "sqlite:///zova-no-such-directory/deeper/zova.db");
        }
        other => panic!("unexpected error: {other:?}"),
    }
    let store = Store::memory("connect_failure");
    let elsewhere = Store {
        runtime: tokio::runtime::Builder::new_current_thread().enable_all().build().unwrap(),
        pool: store.pool.clone(),
        database_url: "sqlite:///zova-no-such-directory/zova.db".to_string(),
    };
    match elsewhere.call(ListSessions::new(true)).unwrap_err() {
        StorageError::SqliteConnect { stage, .. } => assert_eq!(stage, "session-list-connect"),
        other => panic!("unexpected error: {other:?}"),
    }
}

#[test]
fn a_statement_that_the_database_refuses_is_a_query_failure() {
    let store = Store::memory("query_failure");
    let session = store.create_session("dup");
    let again = CreateSession {
        title: "dup".to_string(),
        session_id: session.id,
        branch_id: BranchId::new_v7(),
        now: 1,
        phase: zova::storage::sessions::CreatePhase::Begin,
    };
    match store.call(again).unwrap_err() {
        StorageError::SqliteQuery { stage, source } => {
            assert_eq!(stage, "session-create-insert-session");
            assert!(source.to_lowercase().contains("unique"), "{source}");
        }
        other => panic!("unexpected error: {other:?}"),
    }
    assert_eq!(store.scalar("SELECT COUNT(*) FROM sessions"), 1);
    assert_eq!(store.scalar("SELECT COUNT(*) FROM branches"), 1);
}

#[test]
fn opening_twice_keeps_the_schema() {
    let first = Store::memory("open_twice");
    let session = first.create_session("kept");
    let second = Store::open(&first.database_url);
    let found = second.call(GetSession::new(session.id)).unwrap();
    assert_eq!(found, Some(session));
}

#[test]
fn orphan_message_is_refused_by_the_database() {
    let store = Store::memory("fk_violation");
    let result = store.runtime.block_on(async {
        sqlx::query(
            "INSERT INTO messages (id, session_id, branch_id, seq, role, content, created_at, updated_at, deleted_at) VALUES (?, ?, ?, ?, ?, ?, ?, ?, ?)",
        )
        .bind(MessageId::new_v7().to_text())
        .bind(SessionId::new_v7().to_text())
        .bind(BranchId::new_v7().to_text())
        .bind(1_i64)
        .bind("user")
        .bind("orphan-row")
        .bind(0_i64)
        .bind(0_i64)
        .bind(Option::<i64>::None)
        .execute(&store.pool)
        .await
    });
    let error = result.unwrap_err();
    assert!(error.to_string().to_lowercase().contains("foreign key"));
}

#[test]
fn session_lifecycle() {
    let store = Store::memory("session_crud");
    let created_a = store.create_session("session-a");
    let created_b = store.create_session("session-b");
    assert_eq!(created_a.title, "session-a");
    assert_eq!(created_a.deleted_at_unix_seconds, None);
    assert_eq!(store.call(GetSession::new(created_a.id)).unwrap(), Some(created_a.clone()));

    let updated = store
        .call(UpdateSession::new(
            created_b.id,
            SessionPatch { title: Some("session-b-updated".to_string()) },
        ))
        .unwrap();
    assert_eq!(updated.id, created_b.id);
    assert_eq!(updated.title, "session-b-updated");
    assert_eq!(updated.active_branch_id, created_b.active_branch_id);

    store.call(SoftDeleteSession::new(created_a.id)).unwrap();
    let after_delete = store.call(ListSessions::new(false)).unwrap();
    assert_eq!(after_delete.len(), 1);
    assert_eq!(after_delete[0].id, created_b.id);
    let with_deleted = store.call(ListSessions::new(true)).unwrap();
    assert_eq!(with_deleted.len(), 2);
    let deleted = store.call(GetSession::new(created_a.id)).unwrap().unwrap();
    assert!(deleted.deleted_at_unix_seconds.is_some());

    store.call(RestoreSession::new(created_a.id)).unwrap();
    let after_restore = store.call(ListSessions::new(false)).unwrap();
    assert_eq!(after_restore.len(), 2);
    for pair in after_restore.windows(2) {
        let (left, right) = (&pair[0], &pair[1]);
        assert!(
            left.updated_at_unix_seconds > right.updated_at_unix_seconds
                || (left.updated_at_unix_seconds == right.updated_at_unix_seconds
                    && left.id.to_text() >= right.id.to_text())
        );
    }
}

#[test]
fn session_operations_on_a_missing_session_are_not_found() {
    let store = Store::memory("session_missing");
    let missing = SessionId::new_v7();
    assert_eq!(store.call(GetSession::new(missing)).unwrap(), None);
    let update = store.call(UpdateSession::new(missing, SessionPatch::default()));
    assert!(matches!(
        update,
        Err(StorageError::NotFound { stage: "session-update-missing", entity: "session", .. })
    ));
    let delete = store.call(SoftDeleteSession::new(missing));
    assert!(matches!(
        delete,
        Err(StorageError::NotFound { stage: "session-soft-delete-missing", .. })
    ));
    let restore = store.call(RestoreSession::new(missing));
    assert!(matches!(restore, Err(StorageError::NotFound { stage: "session-restore-missing", .. })));
    let append = store.call(AppendMessage::new(
        missing,
        NewMessage { role: MessageRole::User, content: "x".to_string() },
    ));
    assert!(matches!(
        append,
        Err(StorageError::NotFound { stage: "message-append-load-active", entity: "session", .. })
    ));
}

#[test]
fn soft_delete_and_restore_are_repeatable() {
    let store = Store::memory("session_repeat");
    let session = store.create_session("again");
    store.call(SoftDeleteSession::new(session.id)).unwrap();
    store.call(SoftDeleteSession::new(session.id)).unwrap();
    store.call(RestoreSession::new(session.id)).unwrap();
    store.call(RestoreSession::new(session.id)).unwrap();
    assert_eq!(store.call(ListSessions::new(false)).unwrap().len(), 1);
}

#[test]
fn messages_get_consecutive_sequence_numbers() {
    let store = Store::memory("message_seq");
    let session = store.create_session("seq");
    let first = store.append(session.id, MessageRole::System, "one");
    let second = store.append(session.id, MessageRole::User, "two");
    let third = store.append(session.id, MessageRole::Assistant, "three");
    assert_eq!((first.seq, second.seq, third.seq), (1, 2, 3));
    assert_eq!(first.branch_id, session.active_branch_id);
    let listed = store.call(ListMessages::new(session.id)).unwrap();
    assert_eq!(listed, vec![first.clone(), second, third]);
    assert_eq!(store.call(GetMessage::new(session.id, first.id)).unwrap(), Some(first));
    assert_eq!(store.call(GetMessage::new(session.id, MessageId::new_v7())).unwrap(), None);
}

#[test]
fn update_message_patches_content_only() {
    let store = Store::memory("message_update");
    let session = store.create_session("stream");
    let message = store.append(session.id, MessageRole::Assistant, "");
    let patched = store
        .call(UpdateMessage::new(
            session.id,
            message.id,
            MessagePatch { content: Some("partial answer".to_string()) },
        ))
        .unwrap();
    assert_eq!(patched.id, message.id);
    assert_eq!(patched.seq, message.seq);
    assert_eq!(patched.role, MessageRole::Assistant);
    assert_eq!(patched.content, "partial answer");
    let unchanged =
        store.call(UpdateMessage::new(session.id, message.id, MessagePatch::default())).unwrap();
    assert_eq!(unchanged.content, "partial answer");
}

#[test]
fn history_branch_fork() {
    let store = Store::memory("history_fork");
    let session = store.create_session("fork-session");
    let old_branch_id = session.active_branch_id;
    let first = store.append(session.id, MessageRole::User, "first");
    let second = store.append(session.id, MessageRole::Assistant, "second");
    let _third = store.append(session.id, MessageRole::User, "third");

    let outcome = store
        .call(ForkFromHistory::new(
            session.id,
            HistoryForkRequest {
                source_message_id: second.id,
                replacement_content: "second-edited".to_string(),
            },
        ))
        .unwrap();
    assert_ne!(outcome.new_branch_id, old_branch_id);
    assert_eq!(outcome.message_id_remaps.len(), 2);
    assert_eq!(outcome.message_id_remaps[0].old_message_id, first.id);
    assert_eq!(outcome.message_id_remaps[1].old_message_id, second.id);

    let active = store.call(ListMessages::new(session.id)).unwrap();
    assert_eq!(active.len(), 2);
    assert_eq!(active[0].id, outcome.message_id_remaps[0].new_message_id);
    assert_ne!(active[0].id, first.id);
    assert_eq!(active[0].seq, 1);
    assert_eq!(active[0].role, MessageRole::User);
    assert_eq!(active[0].content, "first");
    assert_eq!(active[0].branch_id, outcome.new_branch_id);
    assert_eq!(active[1].id, outcome.message_id_remaps[1].new_message_id);
    assert_eq!(active[1].seq, 2);
    assert_eq!(active[1].role, MessageRole::Assistant);
    assert_eq!(active[1].content, "second-edited");

    let reloaded = store.call(GetSession::new(session.id)).unwrap().unwrap();
    assert_eq!(reloaded.active_branch_id, outcome.new_branch_id);
    let old_branch_visible = store.runtime.block_on(async {
        sqlx::query(
            "SELECT COUNT(*) FROM messages AS m JOIN branches AS b ON b.session_id = m.session_id AND b.id = m.branch_id WHERE m.session_id = ? AND m.branch_id = ? AND m.deleted_at IS NULL AND b.deleted_at IS NULL",
        )
        .bind(session.id.to_text())
        .bind(old_branch_id.to_text())
        .fetch_one(&store.pool)
        .await
        .unwrap()
        .try_get::<i64, _>(0)
        .unwrap()
    });
    assert_eq!(old_branch_visible, 0);
    assert_eq!(store.scalar("SELECT COUNT(*) FROM messages"), 5);

    let next = store.append(session.id, MessageRole::User, "after-fork");
    assert_eq!(next.seq, 3);
    assert_eq!(next.branch_id, outcome.new_branch_id);
}

#[test]
fn fork_at_a_missing_message_changes_nothing() {
    let store = Store::memory("fork_missing");
    let session = store.create_session("fork-missing");
    let first = store.append(session.id, MessageRole::User, "first");
    let result = store.call(ForkFromHistory::new(
        session.id,
        HistoryForkRequest {
            source_message_id: MessageId::new_v7(),
            replacement_content: "x".to_string(),
        },
    ));
    assert!(matches!(
        result,
        Err(StorageError::NotFound { stage: "message-fork-source-missing", entity: "message", .. })
    ));
    let reloaded = store.call(GetSession::new(session.id)).unwrap().unwrap();
    assert_eq!(reloaded.active_branch_id, session.active_branch_id);
    assert_eq!(store.call(ListMessages::new(session.id)).unwrap(), vec![first]);
    assert_eq!(store.scalar("SELECT COUNT(*) FROM branches"), 1);
}

#[test]
fn cross_session_guard() {
    let store = Store::memory("cross_session");
    let session_a = store.create_session("guard-a");
    let session_b = store.create_session("guard-b");
    let message = store.append(session_a.id, MessageRole::User, "session-a-original");
    let wrong_session_update = store.call(UpdateMessage::new(
        session_b.id,
        message.id,
        MessagePatch { content: Some("cross-session-override".to_string()) },
    ));
    match wrong_session_update {
        Err(StorageError::NotFound { stage, entity, id }) => {
            assert_eq!(stage, "message-update-missing");
            assert_eq!(entity, "message");
            assert_eq!(id, message.id.to_text());
        }
        other => panic!("unexpected result: {other:?}"),
    }
    let original = store.call(GetMessage::new(session_a.id, message.id)).unwrap().unwrap();
    assert_eq!(original.content, "session-a-original");
    assert_eq!(store.call(GetMessage::new(session_b.id, message.id)).unwrap(), None);
}

fn media(uri: &str) -> NewMediaRef {
    NewMediaRef {
        uri: uri.to_string(),
        mime_type: "audio/mpeg".to_string(),
        size_bytes: 1024,
        duration_ms: Some(2500),
        width_px: None,
        height_px: Some(480),
        sha256_hex: Some("abc123".to_string()),
    }
}

#[test]
fn media_ref_roundtrip() {
    let store = Store::memory("media_roundtrip");
    let session = store.create_session("media");
    let message = store.append(session.id, MessageRole::User, "with media");
    let attached =
        store.call(AttachMedia::new(session.id, message.id, media("file:///tmp/a.mp3"))).unwrap();
    assert_eq!(attached.uri, "file:///tmp/a.mp3");
    assert_eq!(attached.size_bytes, 1024);
    assert_eq!(attached.duration_ms, Some(2500));
    assert_eq!(attached.height_px, Some(480));
    let listed = store.call(ListMedia::new(session.id, message.id, false)).unwrap();
    assert_eq!(listed, vec![attached.clone()]);

    store.call(SoftDeleteMedia::new(session.id, message.id, attached.id)).unwrap();
    store.call(SoftDeleteMedia::new(session.id, message.id, attached.id)).unwrap();
    assert!(store.call(ListMedia::new(session.id, message.id, false)).unwrap().is_empty());
    let with_deleted = store.call(ListMedia::new(session.id, message.id, true)).unwrap();
    assert_eq!(with_deleted.len(), 1);
    assert!(with_deleted[0].deleted_at_unix_seconds.is_some());

    let other = store.create_session("other");
    let foreign = store.call(ListMedia::new(other.id, message.id, true));
    assert!(matches!(
        foreign,
        Err(StorageError::NotFound { stage: "media-list-ensure-message", entity: "message", .. })
    ));
    let missing = store.call(SoftDeleteMedia::new(
        session.id,
        message.id,
        zova::storage::ids::MediaRefId::new_v7(),
    ));
    assert!(matches!(
        missing,
        Err(StorageError::NotFound { stage: "media-soft-delete-missing", entity: "media_ref", .. })
    ));
}

#[test]
fn media_blob_guard() {
    let store = Store::memory("media_blob");
    let session = store.create_session("blob");
    let message = store.append(session.id, MessageRole::User, "blob");
    let refused = store.call(AttachMedia::new(
        session.id,
        message.id,
        media("data:audio/wav;base64,UklGRg=="),
    ));
    assert!(matches!(
        refused,
        Err(StorageError::Conflict { stage: "media-attach-validate-uri", entity: "media_ref", .. })
    ));
    assert_eq!(store.scalar("SELECT COUNT(*) FROM media_refs"), 0);
    let accepted = store.call(AttachMedia::new(session.id, message.id, media("file:///tmp/a.mp3")));
    assert!(accepted.is_ok());
    assert_eq!(store.scalar("SELECT COUNT(*) FROM media_refs"), 1);
}

#[test]
fn media_size_beyond_the_database_range_is_refused() {
    let store = Store::memory("media_size");
    let session = store.create_session("size");
    let message = store.append(session.id, MessageRole::User, "big");
    let mut input = media("file:///tmp/big.bin");
    input.size_bytes = u64::MAX;
    let refused = store.call(AttachMedia::new(session.id, message.id, input));
    match refused {
        Err(StorageError::InvariantViolation { stage, details }) => {
            assert_eq!(stage, "media-attach-size-bytes");
            assert_eq!(details, "u64 '18446744073709551615' cannot map to sqlite i64");
        }
        other => panic!("unexpected result: {other:?}"),
    }
}

#[test]
fn agent_event_roundtrip() {
    let store = Store::memory("agent_events");
    let session = store.create_session("agent-event-roundtrip");
    let message = store.append(session.id, MessageRole::User, "event-target");
    let first = store
        .call(AppendAgentEvent::new(
            session.id,
            NewAgentEvent {
                message_id: None,
                event_type: "session.lifecycle".to_string(),
                payload_json: "{\"phase\":\"boot\"}".to_string(),
            },
        ))
        .unwrap();
    let second = store
        .call(AppendAgentEvent::new(
            session.id,
            NewAgentEvent {
                message_id: Some(message.id),
                event_type: "message.tool".to_string(),
                payload_json: "{\"tool\":\"search\",\"ok\":true}".to_string(),
            },
        ))
        .unwrap();
    assert_eq!(first.message_id, None);
    assert_eq!(second.message_id, Some(message.id));
    assert!(first.id < second.id);
    let session_events = store.call(ListAgentEvents::new(session.id, None)).unwrap();
    assert_eq!(session_events, vec![first, second.clone()]);
    assert_eq!(session_events[0].event_type, "session.lifecycle");
    assert_eq!(session_events[0].payload_json, "{\"phase\":\"boot\"}");
    assert_eq!(session_events[1].event_type, "message.tool");
    assert_eq!(session_events[1].payload_json, "{\"tool\":\"search\",\"ok\":true}");
    let message_events = store.call(ListAgentEvents::new(session.id, Some(message.id))).unwrap();
    assert_eq!(message_events, vec![second]);
}

#[test]
fn events_of_one_second_are_listed_as_they_were_appended() {
    let store = Store::memory("agent_events_order");
    let session = store.create_session("burst");
    let mut appended = Vec::new();
    for index in 0..12 {
        let event = store
            .call(AppendAgentEvent::new(
                session.id,
                NewAgentEvent {
                    message_id: None,
                    event_type: format!("step.{index}"),
                    payload_json: format!("{{\"index\":{index}}}"),
                },
            ))
            .unwrap();
        appended.push(event);
    }
    assert_eq!(store.call(ListAgentEvents::new(session.id, None)).unwrap(), appended);
}

#[test]
fn agent_event_guards() {
    let store = Store::memory("agent_event_guards");
    let session = store.create_session("events");
    let invalid = store.call(AppendAgentEvent::new(
        session.id,
        NewAgentEvent {
            message_id: None,
            event_type: "broken".to_string(),
            payload_json: "{not json".to_string(),
        },
    ));
    assert!(matches!(
        invalid,
        Err(StorageError::Conflict {
            stage: "agent-event-append-invalid-json",
            entity: "agent_event",
            ..
        })
    ));
    let missing_session = store.call(AppendAgentEvent::new(
        SessionId::new_v7(),
        NewAgentEvent {
            message_id: None,
            event_type: "x".to_string(),
            payload_json: "{}".to_string(),
        },
    ));
    assert!(matches!(
        missing_session,
        Err(StorageError::NotFound {
            stage: "agent-event-append-ensure-session",
            entity: "session",
            ..
        })
    ));
    let missing_message = store.call(ListAgentEvents::new(session.id, Some(MessageId::new_v7())));
    assert!(matches!(
        missing_message,
        Err(StorageError::NotFound {
            stage: "agent-event-list-ensure-message",
            entity: "message",
            ..
        })
    ));
    assert_eq!(store.scalar("SELECT COUNT(*) FROM agent_events"), 0);
}

#[test]
fn an_event_is_not_appended_to_a_soft_deleted_session() {
    let store = Store::memory("agent_event_deleted_session");
    let session = store.create_session("retired");
    let message = store.append(session.id, MessageRole::User, "kept");
    let note = || NewAgentEvent {
        message_id: None,
        event_type: "session_note".to_string(),
        payload_json: "{\"ok\":true}".to_string(),
    };
    let before = store.call(AppendAgentEvent::new(session.id, note())).unwrap();
    store.call(SoftDeleteSession::new(session.id)).unwrap();

    match store.call(AppendAgentEvent::new(session.id, note())) {
        Err(StorageError::NotFound { stage, entity, id }) => {
            assert_eq!(stage, "agent-event-append-ensure-session");
            assert_eq!(entity, "session");
            assert_eq!(id, session.id.to_text());
        }
        other => panic!("unexpected result: {other:?}"),
    }
    assert_eq!(store.scalar("SELECT COUNT(*) FROM agent_events"), 1);
    assert_eq!(store.call(ListAgentEvents::new(session.id, None)).unwrap(), vec![before.clone()]);

    let scoped = store
        .call(AppendAgentEvent::new(
            session.id,
            NewAgentEvent {
                message_id: Some(message.id),
                event_type: "tool_call".to_string(),
                payload_json: "{}".to_string(),
            },
        ))
        .unwrap();

    store.call(RestoreSession::new(session.id)).unwrap();
    let after = store.call(AppendAgentEvent::new(session.id, note())).unwrap();
    let listed = store.call(ListAgentEvents::new(session.id, None)).unwrap();
    assert_eq!(listed, vec![before, scoped, after]);
}

#[test]
fn migrate_legacy_file() {
    let store = Store::memory("migrate_fixture");
    let report = store.import("1\t100\tfirst\n2\t300\tsecond\\nline\n3\t300\t   \n");
    assert!(!report.source_missing);
    assert!(!report.already_migrated);
    assert_eq!(report.imported_sessions, 3);
    assert_eq!(report.skipped_rows, 0);
    let sessions = store.call(ListSessions::new(false)).unwrap();
    let titles: Vec<(u64, String)> =
        sessions.iter().map(|s| (s.updated_at_unix_seconds, s.title.clone())).collect();
    assert_eq!(
        titles,
        vec![
            (300, "second\nline".to_string()),
            (300, DEFAULT_SESSION_TITLE.to_string()),
            (100, "first".to_string()),
        ]
    );
    assert_eq!(store.scalar("SELECT COUNT(*) FROM branches"), 3);
    for session in sessions {
        assert!(store.call(ListMessages::new(session.id)).unwrap().is_empty());
    }
}

#[test]
fn migrate_idempotent() {
    let store = Store::memory("migrate_idempotent");
    let source = "1\t100\tone\n2\t200\ttwo\n";
    let first = store.import(source);
    assert_eq!(first.imported_sessions, 2);
    assert!(!first.already_migrated);
    let second = store.import(source);
    assert_eq!(second.imported_sessions, 0);
    assert!(second.already_migrated);
    assert_eq!(store.scalar("SELECT COUNT(*) FROM sessions"), 2);
}

#[test]
fn migrate_malformed_rows() {
    let store = Store::memory("migrate_malformed");
    let source = "1\t100\tvalid-one\nbroken-line\nx\t100\tbad-id\n\n2\tnot-a-time\tbad-time\n3\t200\tvalid-two\n";
    let report = store.import(source);
    assert_eq!(report.imported_sessions, 2);
    assert_eq!(report.skipped_rows, 3);
    let warnings: Vec<(usize, &str)> =
        report.warnings.iter().map(|w| (w.line_number, w.reason)).collect();
    assert_eq!(
        warnings,
        vec![(2, "missing-updated-at"), (3, "invalid-id"), (5, "invalid-updated-at")]
    );
    let sessions = store.call(ListSessions::new(true)).unwrap();
    assert_eq!(sessions.len(), 2);
    assert_eq!(sessions[0].title, "valid-two");
    assert_eq!(sessions[1].title, "valid-one");
}

#[test]
fn migrate_nothing_from_an_empty_file() {
    let store = Store::memory("migrate_empty");
    let report = store.import("\n   \n");
    assert_eq!(report.imported_sessions, 0);
    assert_eq!(report.skipped_rows, 0);
    assert!(!report.already_migrated);
    assert_eq!(store.scalar("SELECT COUNT(*) FROM sessions"), 0);
}
