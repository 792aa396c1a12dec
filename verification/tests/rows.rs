use zova::storage::error::StorageError;
use zova::storage::ids::{AgentEventId, BranchId, MediaRefId, MessageId, SessionId};
use zova::storage::rows::{
    agent_event_row_to_record, first_row, i64_to_u32, i64_to_u64, media_ref_row_to_record,
    message_row_to_record, message_rows_to_records, opt_i64_to_u32, opt_i64_to_u64,
    opt_u64_to_i64, role_from_sql, session_row_to_record, session_rows_to_records, u64_to_i64,
    AgentEventRow, MediaRefRow, MessageRow, SessionRow,
};
use zova::storage::sql::role_to_sql;
use zova::storage::types::{
    AgentEventRecord, MediaRefRecord, MessageRecord, MessageRole, SessionRecord,
};

const SESSION: &str = "018f4e2a-0000-7000-8000-000000000001";
const BRANCH: &str = "018f4e2a-0000-7000-8000-000000000002";
const MESSAGE: &str = "018f4e2a-0000-7000-8000-000000000003";
const MEDIA: &str = "018f4e2a-0000-7000-8000-000000000004";
const EVENT: &str = "018f4e2a-0000-7000-8000-000000000005";

fn violation(result: Result<impl std::fmt::Debug, StorageError>) -> (String, String) {
    match result {
        Err(StorageError::InvariantViolation { stage, details }) => (stage.to_string(), details),
        other => panic!("unexpected result: {other:?}"),
    }
}

fn invalid_id(result: Result<impl std::fmt::Debug, StorageError>) -> (String, String) {
    match result {
        Err(StorageError::InvalidId { stage, id_type, raw, .. }) => {
            assert_eq!(stage, "parse-storage-id");
            (id_type.to_string(), raw)
        }
        other => panic!("unexpected result: {other:?}"),
    }
}

#[test]
fn stored_integers_convert_within_range() {
    assert_eq!(i64_to_u64(0, "s").unwrap(), 0);
    assert_eq!(i64_to_u64(i64::MAX, "s").unwrap(), i64::MAX as u64);
    assert_eq!(i64_to_u32(0, "s").unwrap(), 0);
    assert_eq!(i64_to_u32(4294967295, "s").unwrap(), u32::MAX);
    assert_eq!(u64_to_i64(0, "s").unwrap(), 0);
    assert_eq!(u64_to_i64(9223372036854775807, "s").unwrap(), i64::MAX);
    assert_eq!(opt_i64_to_u64(None, "s").unwrap(), None);
    assert_eq!(opt_i64_to_u64(Some(5), "s").unwrap(), Some(5));
    assert_eq!(opt_i64_to_u32(None, "s").unwrap(), None);
    assert_eq!(opt_i64_to_u32(Some(5), "s").unwrap(), Some(5));
    assert_eq!(opt_u64_to_i64(None, "s").unwrap(), None);
    assert_eq!(opt_u64_to_i64(Some(5), "s").unwrap(), Some(5));
}

#[test]
fn stored_integers_out_of_range_break_an_invariant() {
    assert_eq!(
        violation(i64_to_u64(-1, "row-stage")),
        ("row-stage".to_string(), "negative sqlite integer '-1' cannot map to u64".to_string())
    );
    assert_eq!(
        violation(i64_to_u64(i64::MIN, "row-stage")).1,
        "negative sqlite integer '-9223372036854775808' cannot map to u64"
    );
    assert_eq!(
        violation(i64_to_u32(-7, "px")),
        ("px".to_string(), "sqlite integer '-7' cannot map to u32".to_string())
    );
    assert_eq!(
        violation(i64_to_u32(4294967296, "px")).1,
        "sqlite integer '4294967296' cannot map to u32"
    );
    assert_eq!(
        violation(u64_to_i64(9223372036854775808, "size")),
        ("size".to_string(), "u64 '9223372036854775808' cannot map to sqlite i64".to_string())
    );
    assert_eq!(violation(opt_i64_to_u64(Some(-2), "o")).0, "o");
    assert_eq!(violation(opt_i64_to_u32(Some(-2), "o")).0, "o");
    assert_eq!(violation(opt_u64_to_i64(Some(u64::MAX), "o")).0, "o");
}

#[test]
fn roles_are_stored_by_name() {
    assert_eq!(role_to_sql(MessageRole::System), "system");
    assert_eq!(role_to_sql(MessageRole::User), "user");
    assert_eq!(role_to_sql(MessageRole::Assistant), "assistant");
    for role in [MessageRole::System, MessageRole::User, MessageRole::Assistant] {
        assert_eq!(role_from_sql(role_to_sql(role)).unwrap(), role);
    }
    assert_eq!(
        violation(role_from_sql("moderator")),
        ("message-role-from-sql".to_string(), "unknown message role 'moderator'".to_string())
    );
    assert_eq!(violation(role_from_sql("User")).1, "unknown message role 'User'");
    assert_eq!(violation(role_from_sql("")).1, "unknown message role ''");
}

fn session_row() -> SessionRow {
    SessionRow {
        id: SESSION.to_string(),
        title: "title".to_string(),
        active_branch_id: Some(BRANCH.to_string()),
        updated_at: 1700000000,
        deleted_at: None,
    }
}

#[test]
fn session_rows_become_records() {
    assert_eq!(
        session_row_to_record(session_row()).unwrap(),
        SessionRecord {
            id: SessionId::parse(SESSION).unwrap(),
            title: "title".to_string(),
            active_branch_id: BranchId::parse(BRANCH).unwrap(),
            updated_at_unix_seconds: 1700000000,
            deleted_at_unix_seconds: None,
        }
    );
    let deleted = SessionRow { deleted_at: Some(1700000005), ..session_row() };
    assert_eq!(
        session_row_to_record(deleted).unwrap().deleted_at_unix_seconds,
        Some(1700000005)
    );
}

#[test]
fn session_rows_report_their_first_fault() {
    let bad_id = SessionRow { id: "nope".to_string(), active_branch_id: None, ..session_row() };
    assert_eq!(invalid_id(session_row_to_record(bad_id)), ("session-id".to_string(), "nope".to_string()));
    let no_branch = SessionRow { active_branch_id: None, updated_at: -1, ..session_row() };
    assert_eq!(
        violation(session_row_to_record(no_branch)),
        (
            "session-row-active-branch-missing".to_string(),
            "session row is missing active_branch_id".to_string()
        )
    );
    let bad_branch =
        SessionRow { active_branch_id: Some("b".to_string()), updated_at: -1, ..session_row() };
    assert_eq!(invalid_id(session_row_to_record(bad_branch)), ("branch-id".to_string(), "b".to_string()));
    let bad_time = SessionRow { updated_at: -1, deleted_at: Some(-1), ..session_row() };
    assert_eq!(violation(session_row_to_record(bad_time)).0, "session-row-updated-at");
    let bad_deleted = SessionRow { deleted_at: Some(-1), ..session_row() };
    assert_eq!(violation(session_row_to_record(bad_deleted)).0, "session-row-deleted-at");
}

fn message_row() -> MessageRow {
    MessageRow {
        id: MESSAGE.to_string(),
        session_id: SESSION.to_string(),
        branch_id: BRANCH.to_string(),
        seq: 3,
        role: "assistant".to_string(),
        content: "hello".to_string(),
        deleted_at: None,
    }
}

#[test]
fn message_rows_become_records() {
    assert_eq!(
        message_row_to_record(message_row()).unwrap(),
        MessageRecord {
            id: MessageId::parse(MESSAGE).unwrap(),
            session_id: SessionId::parse(SESSION).unwrap(),
            branch_id: BranchId::parse(BRANCH).unwrap(),
            seq: 3,
            role: MessageRole::Assistant,
            content: "hello".to_string(),
            deleted_at_unix_seconds: None,
        }
    );
}

#[test]
fn message_rows_report_their_first_fault() {
    let row = MessageRow { id: "m".to_string(), session_id: "s".to_string(), ..message_row() };
    assert_eq!(invalid_id(message_row_to_record(row)).0, "message-id");
    let row = MessageRow { session_id: "s".to_string(), branch_id: "b".to_string(), ..message_row() };
    assert_eq!(invalid_id(message_row_to_record(row)).0, "session-id");
    let row = MessageRow { branch_id: "b".to_string(), seq: -1, ..message_row() };
    assert_eq!(invalid_id(message_row_to_record(row)).0, "branch-id");
    let row = MessageRow { seq: -1, role: "x".to_string(), ..message_row() };
    assert_eq!(violation(message_row_to_record(row)).0, "message-row-seq");
    let row = MessageRow { role: "x".to_string(), deleted_at: Some(-1), ..message_row() };
    assert_eq!(violation(message_row_to_record(row)).0, "message-role-from-sql");
    let row = MessageRow { deleted_at: Some(-1), ..message_row() };
    assert_eq!(violation(message_row_to_record(row)).0, "message-row-deleted-at");
}

fn media_row() -> MediaRefRow {
    MediaRefRow {
        id: MEDIA.to_string(),
        session_id: SESSION.to_string(),
        message_id: MESSAGE.to_string(),
        uri: "file:///tmp/a.png".to_string(),
        mime_type: "image/png".to_string(),
        size_bytes: 2048,
        duration_ms: None,
        width_px: Some(640),
        height_px: Some(480),
        sha256_hex: Some("ff".to_string()),
        deleted_at: Some(9),
    }
}

#[test]
fn media_rows_become_records() {
    assert_eq!(
        media_ref_row_to_record(media_row()).unwrap(),
        MediaRefRecord {
            id: MediaRefId::parse(MEDIA).unwrap(),
            session_id: SessionId::parse(SESSION).unwrap(),
            message_id: MessageId::parse(MESSAGE).unwrap(),
            uri: "file:///tmp/a.png".to_string(),
            mime_type: "image/png".to_string(),
            size_bytes: 2048,
            duration_ms: None,
            width_px: Some(640),
            height_px: Some(480),
            sha256_hex: Some("ff".to_string()),
            deleted_at_unix_seconds: Some(9),
        }
    );
}

#[test]
fn media_rows_report_their_first_fault() {
    let row = MediaRefRow { id: "x".to_string(), ..media_row() };
    assert_eq!(invalid_id(media_ref_row_to_record(row)).0, "media-ref-id");
    let row = MediaRefRow { session_id: "x".to_string(), ..media_row() };
    assert_eq!(invalid_id(media_ref_row_to_record(row)).0, "session-id");
    let row = MediaRefRow { message_id: "x".to_string(), ..media_row() };
    assert_eq!(invalid_id(media_ref_row_to_record(row)).0, "message-id");
    let row = MediaRefRow { size_bytes: -1, duration_ms: Some(-1), ..media_row() };
    assert_eq!(violation(media_ref_row_to_record(row)).0, "media-row-size-bytes");
    let row = MediaRefRow { duration_ms: Some(-1), width_px: Some(-1), ..media_row() };
    assert_eq!(violation(media_ref_row_to_record(row)).0, "media-row-duration-ms");
    let row = MediaRefRow { width_px: Some(-1), height_px: Some(-1), ..media_row() };
    assert_eq!(violation(media_ref_row_to_record(row)).0, "media-row-width-px");
    let row = MediaRefRow { height_px: Some(1 << 32), deleted_at: Some(-1), ..media_row() };
    assert_eq!(violation(media_ref_row_to_record(row)).0, "media-row-height-px");
    let row = MediaRefRow { deleted_at: Some(-1), ..media_row() };
    assert_eq!(violation(media_ref_row_to_record(row)).0, "media-row-deleted-at");
}

fn event_row() -> AgentEventRow {
    AgentEventRow {
        id: EVENT.to_string(),
        session_id: SESSION.to_string(),
        message_id: Some(MESSAGE.to_string()),
        event_type: "tool_call".to_string(),
        payload_json: "{}".to_string(),
        created_at: 77,
    }
}

#[test]
fn agent_event_rows_become_records() {
    assert_eq!(
        agent_event_row_to_record(event_row()).unwrap(),
        AgentEventRecord {
            id: AgentEventId::parse(EVENT).unwrap(),
            session_id: SessionId::parse(SESSION).unwrap(),
            message_id: Some(MessageId::parse(MESSAGE).unwrap()),
            event_type: "tool_call".to_string(),
            payload_json: "{}".to_string(),
            created_at_unix_seconds: 77,
        }
    );
    let unscoped = AgentEventRow { message_id: None, ..event_row() };
    assert_eq!(agent_event_row_to_record(unscoped).unwrap().message_id, None);
}

#[test]
fn agent_event_rows_report_their_first_fault() {
    let row = AgentEventRow { id: "x".to_string(), ..event_row() };
    assert_eq!(invalid_id(agent_event_row_to_record(row)).0, "agent-event-id");
    let row = AgentEventRow { session_id: "x".to_string(), ..event_row() };
    assert_eq!(invalid_id(agent_event_row_to_record(row)).0, "session-id");
    let row = AgentEventRow { message_id: Some("x".to_string()), created_at: -1, ..event_row() };
    assert_eq!(invalid_id(agent_event_row_to_record(row)).0, "message-id");
    let row = AgentEventRow { created_at: -1, ..event_row() };
    assert_eq!(violation(agent_event_row_to_record(row)).0, "agent-event-row-created-at");
}

#[test]
fn lists_of_rows_stop_at_the_first_fault() {
    let good = session_row();
    let bad = SessionRow { updated_at: -5, ..session_row() };
    let worse = SessionRow { id: "x".to_string(), ..session_row() };
    let records = session_rows_to_records(vec![good.clone(), good.clone()]).unwrap();
    assert_eq!(records.len(), 2);
    assert_eq!(records[0], session_row_to_record(good.clone()).unwrap());
    assert_eq!(session_rows_to_records(Vec::new()).unwrap(), Vec::new());
    assert_eq!(
        violation(session_rows_to_records(vec![good, bad, worse])).0,
        "session-row-updated-at"
    );
    let messages = message_rows_to_records(vec![
        MessageRow { seq: 1, ..message_row() },
        MessageRow { seq: 2, content: "second".to_string(), ..message_row() },
    ])
    .unwrap();
    assert_eq!(messages.iter().map(|m| m.seq).collect::<Vec<_>>(), vec![1, 2]);
    assert_eq!(messages[1].content, "second");
}

#[test]
fn the_first_row_is_the_first() {
    assert_eq!(first_row(vec![3, 4, 5]), Some(3));
    assert_eq!(first_row(Vec::<i64>::new()), None);
}
