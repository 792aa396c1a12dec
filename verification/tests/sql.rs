use zova::storage::ids::{AgentEventId, BranchId, MediaRefId, MessageId, SessionId};
use zova::storage::sql::{Query, RowShape, SqlValue, Table};
use zova::storage::types::MessageRole;

fn text(value: &str) -> SqlValue {
    SqlValue::Text(value.to_string())
}

const SESSION: &str = "00000000-0000-0000-0000-000000000001";
const BRANCH: &str = "00000000-0000-0000-0000-000000000002";
const MESSAGE: &str = "00000000-0000-0000-0000-000000000003";
const OTHER: &str = "00000000-0000-0000-0000-000000000004";

#[test]
fn every_statement_binds_as_many_values_as_it_has_marks() {
    let session_id = SessionId::new(1);
    let branch_id = BranchId::new(2);
    let id = MessageId::new(3);
    let queries = vec![
        Query::JournalModeWal,
        Query::ForeignKeysOn,
        Query::BusyTimeout,
        Query::CreateTable { table: Table::Sessions },
        Query::CreateTable { table: Table::Branches },
        Query::CreateTable { table: Table::Messages },
        Query::CreateTable { table: Table::MediaRefs },
        Query::CreateTable { table: Table::AgentEvents },
        Query::CountSessions,
        Query::InsertSession { id: session_id, title: "t".into(), active_branch_id: branch_id, at: 1 },
        Query::InsertRootBranch { id: branch_id, session_id, at: 1 },
        Query::InsertForkBranch { id: branch_id, session_id, parent_branch_id: branch_id, at: 1 },
        Query::ListSessions { include_deleted: true },
        Query::ListSessions { include_deleted: false },
        Query::GetSession { id: session_id },
        Query::UpdateSession { id: session_id, title: None, at: 1 },
        Query::SoftDeleteSession { id: session_id, at: 1 },
        Query::RestoreSession { id: session_id, at: 1 },
        Query::SessionExists { id: session_id },
        Query::SessionLive { id: session_id },
        Query::ActiveBranch { session_id },
        Query::NextSeq { session_id, branch_id },
        Query::InsertMessage {
            id,
            session_id,
            branch_id,
            seq: 1,
            role: MessageRole::User,
            content: "c".into(),
            at: 1,
        },
        Query::CopyMessage {
            id,
            session_id,
            branch_id,
            seq: 1,
            role: "user".into(),
            content: "c".into(),
            at: 1,
        },
        Query::ListMessages { session_id, branch_id },
        Query::GetMessage { session_id, id },
        Query::UpdateMessage { session_id, id, content: Some("c".into()), at: 1 },
        Query::ForkSource { session_id, branch_id, id },
        Query::ForkPrefix { session_id, branch_id, max_seq: 2 },
        Query::SetActiveBranch { session_id, branch_id, at: 1 },
        Query::SoftDeleteBranch { session_id, branch_id, at: 1 },
        Query::MessageExists { session_id, id },
        Query::InsertMediaRef {
            id: MediaRefId::new(4),
            session_id,
            message_id: id,
            uri: "u".into(),
            mime_type: "m".into(),
            size_bytes: 1,
            duration_ms: None,
            width_px: Some(2),
            height_px: None,
            sha256_hex: None,
            at: 1,
        },
        Query::ListMedia { session_id, message_id: id, include_deleted: true },
        Query::ListMedia { session_id, message_id: id, include_deleted: false },
        Query::SoftDeleteMedia { session_id, message_id: id, id: MediaRefId::new(4), at: 1 },
        Query::MediaRefExists { session_id, message_id: id, id: MediaRefId::new(4) },
        Query::JsonValid { payload: "{}".into() },
        Query::InsertAgentEvent {
            id: AgentEventId::new(5),
            session_id,
            message_id: None,
            event_type: "e".into(),
            payload_json: "{}".into(),
            at: 1,
        },
        Query::ListAgentEvents { session_id, message_id: Some(id) },
        Query::ListAgentEvents { session_id, message_id: None },
    ];
    for query in queries {
        let marks = query.sql().matches('?').count();
        assert_eq!(query.params().len(), marks, "{query:?}");
        let selects = query.sql().starts_with("SELECT") || query == Query::JournalModeWal;
        assert_eq!(query.shape() != RowShape::Nothing, selects, "{query:?}");
    }
}

#[test]
fn an_update_of_a_message_is_scoped_by_its_session() {
    let query = Query::UpdateMessage {
        session_id: SessionId::new(1),
        id: MessageId::new(3),
        content: Some("new".to_string()),
        at: 17,
    };
    assert_eq!(
        query.sql(),
        "UPDATE messages SET content = COALESCE(?, content), updated_at = ? WHERE session_id = ? AND id = ? AND deleted_at IS NULL"
    );
    assert_eq!(query.params(), vec![text("new"), SqlValue::Integer(17), text(SESSION), text(MESSAGE)]);
    let keep = Query::UpdateMessage {
        session_id: SessionId::new(1),
        id: MessageId::new(3),
        content: None,
        at: 17,
    };
    assert_eq!(keep.params()[0], SqlValue::Null);
}

#[test]
fn an_insert_of_a_message_binds_its_role_by_name() {
    let query = Query::InsertMessage {
        id: MessageId::new(3),
        session_id: SessionId::new(1),
        branch_id: BranchId::new(2),
        seq: 9,
        role: MessageRole::Assistant,
        content: "hi".to_string(),
        at: 5,
    };
    assert_eq!(
        query.params(),
        vec![
            text(MESSAGE),
            text(SESSION),
            text(BRANCH),
            SqlValue::Integer(9),
            text("assistant"),
            text("hi"),
            SqlValue::Integer(5),
            SqlValue::Integer(5),
        ]
    );
    let copy = Query::CopyMessage {
        id: MessageId::new(3),
        session_id: SessionId::new(1),
        branch_id: BranchId::new(2),
        seq: 9,
        role: "assistant".to_string(),
        content: "hi".to_string(),
        at: 5,
    };
    assert_eq!(copy.sql(), query.sql());
    assert_eq!(copy.params(), query.params());
}

#[test]
fn optional_values_bind_null() {
    let query = Query::InsertMediaRef {
        id: MediaRefId::new(4),
        session_id: SessionId::new(1),
        message_id: MessageId::new(3),
        uri: "file:///a".to_string(),
        mime_type: "image/png".to_string(),
        size_bytes: 10,
        duration_ms: None,
        width_px: Some(3),
        height_px: None,
        sha256_hex: Some("ab".to_string()),
        at: 8,
    };
    assert_eq!(
        query.params(),
        vec![
            text(OTHER),
            text(SESSION),
            text(MESSAGE),
            text("file:///a"),
            text("image/png"),
            SqlValue::Integer(10),
            SqlValue::Null,
            SqlValue::Integer(3),
            SqlValue::Null,
            text("ab"),
            SqlValue::Integer(8),
        ]
    );
    let event = Query::InsertAgentEvent {
        id: AgentEventId::new(4),
        session_id: SessionId::new(1),
        message_id: None,
        event_type: "e".to_string(),
        payload_json: "[]".to_string(),
        at: 8,
    };
    assert_eq!(event.params()[2], SqlValue::Null);
}

#[test]
fn listings_choose_their_text_by_their_scope() {
    let session_id = SessionId::new(1);
    assert!(Query::ListSessions { include_deleted: false }.sql().contains("WHERE deleted_at IS NULL"));
    assert!(!Query::ListSessions { include_deleted: true }.sql().contains("WHERE"));
    assert!(Query::ListSessions { include_deleted: true }
        .sql()
        .ends_with("ORDER BY updated_at DESC, id DESC"));
    let of_message = Query::ListAgentEvents { session_id, message_id: Some(MessageId::new(3)) };
    assert!(of_message.sql().contains("AND message_id = ?"));
    assert_eq!(of_message.params(), vec![text(SESSION), text(MESSAGE)]);
    let of_session = Query::ListAgentEvents { session_id, message_id: None };
    assert!(!of_session.sql().contains("message_id = ?"));
    assert_eq!(of_session.params(), vec![text(SESSION)]);
    assert!(Query::ListMessages { session_id, branch_id: BranchId::new(2) }
        .sql()
        .ends_with("ORDER BY seq ASC, id ASC"));
}

#[test]
fn a_session_is_asked_for_as_existing_or_as_live() {
    let id = SessionId::new(1);
    assert_eq!(Query::SessionExists { id }.sql(), "SELECT 1 FROM sessions WHERE id = ? LIMIT 1");
    assert_eq!(
        Query::SessionLive { id }.sql(),
        "SELECT 1 FROM sessions WHERE id = ? AND deleted_at IS NULL LIMIT 1"
    );
    assert_eq!(Query::SessionLive { id }.params(), vec![text(SESSION)]);
    assert_eq!(Query::SessionLive { id }.shape(), RowShape::Integers);
}

#[test]
fn statements_return_rows_of_their_shape() {
    let session_id = SessionId::new(1);
    assert_eq!(Query::JournalModeWal.shape(), RowShape::Texts);
    assert_eq!(Query::ActiveBranch { session_id }.shape(), RowShape::Texts);
    assert_eq!(Query::CountSessions.shape(), RowShape::Integers);
    assert_eq!(Query::JsonValid { payload: "1".into() }.shape(), RowShape::Integers);
    assert_eq!(Query::GetSession { id: session_id }.shape(), RowShape::Sessions);
    assert_eq!(
        Query::ForkPrefix { session_id, branch_id: BranchId::new(2), max_seq: 1 }.shape(),
        RowShape::ForkPrefix
    );
    assert_eq!(Query::ForeignKeysOn.shape(), RowShape::Nothing);
    assert_eq!(Query::SoftDeleteSession { id: session_id, at: 0 }.shape(), RowShape::Nothing);
}
