//! The statements that the engine sends to the database, as typed values,
//! with the text and the bound parameters of each.

use vstd::prelude::*;
use crate::storage::ids::{AgentEventId, BranchId, MediaRefId, MessageId, SessionId};
use crate::storage::types::MessageRole;

verus! {

/// A value bound to a `?` of a statement.
#[derive(Debug, Clone, PartialEq, Eq)]
pub enum SqlValue {
    Null,
    Integer(i64),
    Text(String),
}

/// A bound value, with a text taken as its characters.
pub enum Param {
    Null,
    Integer(i64),
    Text(Seq<char>),
}

impl View for SqlValue {
    type V = Param;

    open spec fn view(&self) -> Param {
        match *self {
            SqlValue::Null => Param::Null,
            SqlValue::Integer(value) => Param::Integer(value),
            SqlValue::Text(text) => Param::Text(text@),
        }
    }
}

/// The bound values of a list, each as its model.
pub open spec fn params_of(values: Seq<SqlValue>) -> Seq<Param> {
    values.map_values(|value: SqlValue| value@)
}

/// The model of an optional text: `Null` where there is none.
pub open spec fn opt_text(text: Option<String>) -> Param {
    match text {
        Some(text) => Param::Text(text@),
        None => Param::Null,
    }
}

/// The model of an optional integer: `Null` where there is none.
pub open spec fn opt_integer(value: Option<i64>) -> Param {
    match value {
        Some(value) => Param::Integer(value),
        None => Param::Null,
    }
}

/// The name under which a role is stored.
pub open spec fn role_name(role: MessageRole) -> Seq<char> {
    match role {
        MessageRole::System => "system"@,
        MessageRole::User => "user"@,
        MessageRole::Assistant => "assistant"@,
    }
}

/// The name under which a role is stored.
pub fn role_to_sql(role: MessageRole) -> (name: &'static str)
    ensures
        name@ == role_name(role),
{
    match role {
        MessageRole::System => "system",
        MessageRole::User => "user",
        MessageRole::Assistant => "assistant",
    }
}

/// The five tables of the schema.
#[derive(Debug, Clone, Copy, PartialEq, Eq, Structural, Hash)]
pub enum Table {
    Sessions,
    Branches,
    Messages,
    MediaRefs,
    AgentEvents,
}

/// One statement of the engine, with the values it binds.
#[derive(Debug, Clone, PartialEq, Eq)]
pub enum Query {
    JournalModeWal,
    ForeignKeysOn,
    BusyTimeout,
    CreateTable { table: Table },
    CountSessions,
    InsertSession { id: SessionId, title: String, active_branch_id: BranchId, at: i64 },
    InsertRootBranch { id: BranchId, session_id: SessionId, at: i64 },
    InsertForkBranch { id: BranchId, session_id: SessionId, parent_branch_id: BranchId, at: i64 },
    ListSessions { include_deleted: bool },
    GetSession { id: SessionId },
    UpdateSession { id: SessionId, title: Option<String>, at: i64 },
    SoftDeleteSession { id: SessionId, at: i64 },
    RestoreSession { id: SessionId, at: i64 },
    /// Whether a session exists, soft-deleted or not.
    SessionExists { id: SessionId },
    /// Whether a session exists and is not soft-deleted.
    SessionLive { id: SessionId },
    ActiveBranch { session_id: SessionId },
    NextSeq { session_id: SessionId, branch_id: BranchId },
    InsertMessage {
        id: MessageId,
        session_id: SessionId,
        branch_id: BranchId,
        seq: i64,
        role: MessageRole,
        content: String,
        at: i64,
    },
    CopyMessage {
        id: MessageId,
        session_id: SessionId,
        branch_id: BranchId,
        seq: i64,
        role: String,
        content: String,
        at: i64,
    },
    ListMessages { session_id: SessionId, branch_id: BranchId },
    GetMessage { session_id: SessionId, id: MessageId },
    UpdateMessage { session_id: SessionId, id: MessageId, content: Option<String>, at: i64 },
    ForkSource { session_id: SessionId, branch_id: BranchId, id: MessageId },
    ForkPrefix { session_id: SessionId, branch_id: BranchId, max_seq: i64 },
    SetActiveBranch { session_id: SessionId, branch_id: BranchId, at: i64 },
    SoftDeleteBranch { session_id: SessionId, branch_id: BranchId, at: i64 },
    MessageExists { session_id: SessionId, id: MessageId },
    InsertMediaRef {
        id: MediaRefId,
        session_id: SessionId,
        message_id: MessageId,
        uri: String,
        mime_type: String,
        size_bytes: i64,
        duration_ms: Option<i64>,
        width_px: Option<i64>,
        height_px: Option<i64>,
        sha256_hex: Option<String>,
        at: i64,
    },
    ListMedia { session_id: SessionId, message_id: MessageId, include_deleted: bool },
    SoftDeleteMedia { session_id: SessionId, message_id: MessageId, id: MediaRefId, at: i64 },
    MediaRefExists { session_id: SessionId, message_id: MessageId, id: MediaRefId },
    JsonValid { payload: String },
    InsertAgentEvent {
        id: AgentEventId,
        session_id: SessionId,
        message_id: Option<MessageId>,
        event_type: String,
        payload_json: String,
        at: i64,
    },
    ListAgentEvents { session_id: SessionId, message_id: Option<MessageId> },
}

/// The model of an optional message identifier: its text, or `Null`.
pub open spec fn opt_message(id: Option<MessageId>) -> Param {
    match id {
        Some(id) => Param::Text(id.text()),
        None => Param::Null,
    }
}

/// The statement that creates a table, if the table is not there yet.
pub open spec fn create_table_text(table: Table) -> Seq<char> {
    match table {
        Table::Sessions => "CREATE TABLE IF NOT EXISTS sessions (id TEXT PRIMARY KEY NOT NULL, title TEXT NOT NULL, active_branch_id TEXT, created_at INTEGER NOT NULL, updated_at INTEGER NOT NULL, deleted_at INTEGER)"@,
        Table::Branches => "CREATE TABLE IF NOT EXISTS branches (id TEXT PRIMARY KEY NOT NULL, session_id TEXT NOT NULL REFERENCES sessions (id), parent_branch_id TEXT REFERENCES branches (id), created_at INTEGER NOT NULL, deleted_at INTEGER, UNIQUE (session_id, id))"@,
        Table::Messages => "CREATE TABLE IF NOT EXISTS messages (id TEXT PRIMARY KEY NOT NULL, session_id TEXT NOT NULL, branch_id TEXT NOT NULL, seq INTEGER NOT NULL, role TEXT NOT NULL, content TEXT NOT NULL, created_at INTEGER NOT NULL, updated_at INTEGER NOT NULL, deleted_at INTEGER, UNIQUE (session_id, id), UNIQUE (session_id, branch_id, seq), FOREIGN KEY (session_id, branch_id) REFERENCES branches (session_id, id))"@,
        Table::MediaRefs => "CREATE TABLE IF NOT EXISTS media_refs (id TEXT PRIMARY KEY NOT NULL, session_id TEXT NOT NULL, message_id TEXT NOT NULL, uri TEXT NOT NULL, mime_type TEXT NOT NULL, size_bytes INTEGER NOT NULL, duration_ms INTEGER, width_px INTEGER, height_px INTEGER, sha256_hex TEXT, created_at INTEGER NOT NULL, deleted_at INTEGER, FOREIGN KEY (session_id, message_id) REFERENCES messages (session_id, id))"@,
        Table::AgentEvents => "CREATE TABLE IF NOT EXISTS agent_events (id TEXT PRIMARY KEY NOT NULL, session_id TEXT NOT NULL REFERENCES sessions (id), message_id TEXT, event_type TEXT NOT NULL, payload_json TEXT NOT NULL CHECK (json_valid(payload_json)), created_at INTEGER NOT NULL, FOREIGN KEY (session_id, message_id) REFERENCES messages (session_id, id))"@,
    }
}

fn create_table_sql(table: Table) -> (text: &'static str)
    ensures
        text@ == create_table_text(table),
{
    match table {
        Table::Sessions => "CREATE TABLE IF NOT EXISTS sessions (id TEXT PRIMARY KEY NOT NULL, title TEXT NOT NULL, active_branch_id TEXT, created_at INTEGER NOT NULL, updated_at INTEGER NOT NULL, deleted_at INTEGER)",
        Table::Branches => "CREATE TABLE IF NOT EXISTS branches (id TEXT PRIMARY KEY NOT NULL, session_id TEXT NOT NULL REFERENCES sessions (id), parent_branch_id TEXT REFERENCES branches (id), created_at INTEGER NOT NULL, deleted_at INTEGER, UNIQUE (session_id, id))",
        Table::Messages => "CREATE TABLE IF NOT EXISTS messages (id TEXT PRIMARY KEY NOT NULL, session_id TEXT NOT NULL, branch_id TEXT NOT NULL, seq INTEGER NOT NULL, role TEXT NOT NULL, content TEXT NOT NULL, created_at INTEGER NOT NULL, updated_at INTEGER NOT NULL, deleted_at INTEGER, UNIQUE (session_id, id), UNIQUE (session_id, branch_id, seq), FOREIGN KEY (session_id, branch_id) REFERENCES branches (session_id, id))",
        Table::MediaRefs => "CREATE TABLE IF NOT EXISTS media_refs (id TEXT PRIMARY KEY NOT NULL, session_id TEXT NOT NULL, message_id TEXT NOT NULL, uri TEXT NOT NULL, mime_type TEXT NOT NULL, size_bytes INTEGER NOT NULL, duration_ms INTEGER, width_px INTEGER, height_px INTEGER, sha256_hex TEXT, created_at INTEGER NOT NULL, deleted_at INTEGER, FOREIGN KEY (session_id, message_id) REFERENCES messages (session_id, id))",
        Table::AgentEvents => "CREATE TABLE IF NOT EXISTS agent_events (id TEXT PRIMARY KEY NOT NULL, session_id TEXT NOT NULL REFERENCES sessions (id), message_id TEXT, event_type TEXT NOT NULL, payload_json TEXT NOT NULL CHECK (json_valid(payload_json)), created_at INTEGER NOT NULL, FOREIGN KEY (session_id, message_id) REFERENCES messages (session_id, id))",
    }
}

impl Query {
    /// The text of the statement, with a `?` for each bound value.
    pub open spec fn text(self) -> Seq<char> {
        match self {
            Query::JournalModeWal => "PRAGMA journal_mode = WAL;"@,
            Query::ForeignKeysOn => "PRAGMA foreign_keys = ON;"@,
            Query::BusyTimeout => "PRAGMA busy_timeout = 5000;"@,
            Query::CreateTable { table } => create_table_text(table),
            Query::CountSessions => "SELECT COUNT(*) FROM sessions"@,
            Query::InsertSession { .. } => "INSERT INTO sessions (id, title, active_branch_id, created_at, updated_at, deleted_at) VALUES (?, ?, ?, ?, ?, NULL)"@,
            Query::InsertRootBranch { .. } => "INSERT INTO branches (id, session_id, parent_branch_id, created_at, deleted_at) VALUES (?, ?, NULL, ?, NULL)"@,
            Query::InsertForkBranch { .. } => "INSERT INTO branches (id, session_id, parent_branch_id, created_at, deleted_at) VALUES (?, ?, ?, ?, NULL)"@,
            Query::ListSessions { include_deleted } => if include_deleted {
                "SELECT id, title, active_branch_id, updated_at, deleted_at FROM sessions ORDER BY updated_at DESC, id DESC"@
            } else {
                "SELECT id, title, active_branch_id, updated_at, deleted_at FROM sessions WHERE deleted_at IS NULL ORDER BY updated_at DESC, id DESC"@
            },
            Query::GetSession { .. } => "SELECT id, title, active_branch_id, updated_at, deleted_at FROM sessions WHERE id = ?"@,
            Query::UpdateSession { .. } => "UPDATE sessions SET title = COALESCE(?, title), updated_at = ? WHERE id = ?"@,
            Query::SoftDeleteSession { .. } => "UPDATE sessions SET deleted_at = ?, updated_at = ? WHERE id = ? AND deleted_at IS NULL"@,
            Query::RestoreSession { .. } => "UPDATE sessions SET deleted_at = NULL, updated_at = ? WHERE id = ? AND deleted_at IS NOT NULL"@,
            Query::SessionExists { .. } => "SELECT 1 FROM sessions WHERE id = ? LIMIT 1"@,
            Query::SessionLive { .. } => "SELECT 1 FROM sessions WHERE id = ? AND deleted_at IS NULL LIMIT 1"@,
            Query::ActiveBranch { .. } => "SELECT active_branch_id FROM sessions WHERE id = ? AND deleted_at IS NULL"@,
            Query::NextSeq { .. } => "SELECT COALESCE(MAX(seq), 0) + 1 FROM messages WHERE session_id = ? AND branch_id = ?"@,
            Query::InsertMessage { .. } => "INSERT INTO messages (id, session_id, branch_id, seq, role, content, created_at, updated_at, deleted_at) VALUES (?, ?, ?, ?, ?, ?, ?, ?, NULL)"@,
            Query::CopyMessage { .. } => "INSERT INTO messages (id, session_id, branch_id, seq, role, content, created_at, updated_at, deleted_at) VALUES (?, ?, ?, ?, ?, ?, ?, ?, NULL)"@,
            Query::ListMessages { .. } => "SELECT id, session_id, branch_id, seq, role, content, deleted_at FROM messages WHERE session_id = ? AND branch_id = ? AND deleted_at IS NULL ORDER BY seq ASC, id ASC"@,
            Query::GetMessage { .. } => "SELECT id, session_id, branch_id, seq, role, content, deleted_at FROM messages WHERE session_id = ? AND id = ? AND deleted_at IS NULL"@,
            Query::UpdateMessage { .. } => "UPDATE messages SET content = COALESCE(?, content), updated_at = ? WHERE session_id = ? AND id = ? AND deleted_at IS NULL"@,
            Query::ForkSource { .. } => "SELECT seq FROM messages WHERE session_id = ? AND branch_id = ? AND id = ? AND deleted_at IS NULL"@,
            Query::ForkPrefix { .. } => "SELECT id, seq, role, content FROM messages WHERE session_id = ? AND branch_id = ? AND deleted_at IS NULL AND seq <= ? ORDER BY seq ASC, id ASC"@,
            Query::SetActiveBranch { .. } => "UPDATE sessions SET active_branch_id = ?, updated_at = ? WHERE id = ?"@,
            Query::SoftDeleteBranch { .. } => "UPDATE branches SET deleted_at = ? WHERE session_id = ? AND id = ?"@,
            Query::MessageExists { .. } => "SELECT 1 FROM messages WHERE session_id = ? AND id = ? AND deleted_at IS NULL LIMIT 1"@,
            Query::InsertMediaRef { .. } => "INSERT INTO media_refs (id, session_id, message_id, uri, mime_type, size_bytes, duration_ms, width_px, height_px, sha256_hex, created_at, deleted_at) VALUES (?, ?, ?, ?, ?, ?, ?, ?, ?, ?, ?, NULL)"@,
            Query::ListMedia { include_deleted, .. } => if include_deleted {
                "SELECT id, session_id, message_id, uri, mime_type, size_bytes, duration_ms, width_px, height_px, sha256_hex, deleted_at FROM media_refs WHERE session_id = ? AND message_id = ? ORDER BY created_at ASC, id ASC"@
            } else {
                "SELECT id, session_id, message_id, uri, mime_type, size_bytes, duration_ms, width_px, height_px, sha256_hex, deleted_at FROM media_refs WHERE session_id = ? AND message_id = ? AND deleted_at IS NULL ORDER BY created_at ASC, id ASC"@
            },
            Query::SoftDeleteMedia { .. } => "UPDATE media_refs SET deleted_at = ? WHERE session_id = ? AND message_id = ? AND id = ? AND deleted_at IS NULL"@,
            Query::MediaRefExists { .. } => "SELECT 1 FROM media_refs WHERE session_id = ? AND message_id = ? AND id = ? LIMIT 1"@,
            Query::JsonValid { .. } => "SELECT json_valid(?)"@,
            Query::InsertAgentEvent { .. } => "INSERT INTO agent_events (id, session_id, message_id, event_type, payload_json, created_at) VALUES (?, ?, ?, ?, ?, ?)"@,
            Query::ListAgentEvents { message_id, .. } => if message_id is Some {
                "SELECT id, session_id, message_id, event_type, payload_json, created_at FROM agent_events WHERE session_id = ? AND message_id = ? ORDER BY created_at ASC, id ASC"@
            } else {
                "SELECT id, session_id, message_id, event_type, payload_json, created_at FROM agent_events WHERE session_id = ? ORDER BY created_at ASC, id ASC"@
            },
        }
    }

    /// The values that the statement binds, in the order of its `?`.
    pub open spec fn bound(self) -> Seq<Param> {
        match self {
            Query::JournalModeWal => seq![],
            Query::ForeignKeysOn => seq![],
            Query::BusyTimeout => seq![],
            Query::CreateTable { .. } => seq![],
            Query::CountSessions => seq![],
            Query::InsertSession { id, title, active_branch_id, at } => seq![
                Param::Text(id.text()),
                Param::Text(title@),
                Param::Text(active_branch_id.text()),
                Param::Integer(at),
                Param::Integer(at),
            ],
            Query::InsertRootBranch { id, session_id, at } => seq![
                Param::Text(id.text()),
                Param::Text(session_id.text()),
                Param::Integer(at),
            ],
            Query::InsertForkBranch { id, session_id, parent_branch_id, at } => seq![
                Param::Text(id.text()),
                Param::Text(session_id.text()),
                Param::Text(parent_branch_id.text()),
                Param::Integer(at),
            ],
            Query::ListSessions { .. } => seq![],
            Query::GetSession { id } => seq![Param::Text(id.text())],
            Query::UpdateSession { id, title, at } => seq![
                opt_text(title),
                Param::Integer(at),
                Param::Text(id.text()),
            ],
            Query::SoftDeleteSession { id, at } => seq![
                Param::Integer(at),
                Param::Integer(at),
                Param::Text(id.text()),
            ],
            Query::RestoreSession { id, at } => seq![Param::Integer(at), Param::Text(id.text())],
            Query::SessionExists { id } => seq![Param::Text(id.text())],
            Query::SessionLive { id } => seq![Param::Text(id.text())],
            Query::ActiveBranch { session_id } => seq![Param::Text(session_id.text())],
            Query::NextSeq { session_id, branch_id } => seq![
                Param::Text(session_id.text()),
                Param::Text(branch_id.text()),
            ],
            Query::InsertMessage { id, session_id, branch_id, seq, role, content, at } => seq![
                Param::Text(id.text()),
                Param::Text(session_id.text()),
                Param::Text(branch_id.text()),
                Param::Integer(seq),
                Param::Text(role_name(role)),
                Param::Text(content@),
                Param::Integer(at),
                Param::Integer(at),
            ],
            Query::CopyMessage { id, session_id, branch_id, seq, role, content, at } => seq![
                Param::Text(id.text()),
                Param::Text(session_id.text()),
                Param::Text(branch_id.text()),
                Param::Integer(seq),
                Param::Text(role@),
                Param::Text(content@),
                Param::Integer(at),
                Param::Integer(at),
            ],
            Query::ListMessages { session_id, branch_id } => seq![
                Param::Text(session_id.text()),
                Param::Text(branch_id.text()),
            ],
            Query::GetMessage { session_id, id } => seq![
                Param::Text(session_id.text()),
                Param::Text(id.text()),
            ],
            Query::UpdateMessage { session_id, id, content, at } => seq![
                opt_text(content),
                Param::Integer(at),
                Param::Text(session_id.text()),
                Param::Text(id.text()),
            ],
            Query::ForkSource { session_id, branch_id, id } => seq![
                Param::Text(session_id.text()),
                Param::Text(branch_id.text()),
                Param::Text(id.text()),
            ],
            Query::ForkPrefix { session_id, branch_id, max_seq } => seq![
                Param::Text(session_id.text()),
                Param::Text(branch_id.text()),
                Param::Integer(max_seq),
            ],
            Query::SetActiveBranch { session_id, branch_id, at } => seq![
                Param::Text(branch_id.text()),
                Param::Integer(at),
                Param::Text(session_id.text()),
            ],
            Query::SoftDeleteBranch { session_id, branch_id, at } => seq![
                Param::Integer(at),
                Param::Text(session_id.text()),
                Param::Text(branch_id.text()),
            ],
            Query::MessageExists { session_id, id } => seq![
                Param::Text(session_id.text()),
                Param::Text(id.text()),
            ],
            Query::InsertMediaRef {
                id,
                session_id,
                message_id,
                uri,
                mime_type,
                size_bytes,
                duration_ms,
                width_px,
                height_px,
                sha256_hex,
                at,
            } => seq![
                Param::Text(id.text()),
                Param::Text(session_id.text()),
                Param::Text(message_id.text()),
                Param::Text(uri@),
                Param::Text(mime_type@),
                Param::Integer(size_bytes),
                opt_integer(duration_ms),
                opt_integer(width_px),
                opt_integer(height_px),
                opt_text(sha256_hex),
                Param::Integer(at),
            ],
            Query::ListMedia { session_id, message_id, .. } => seq![
                Param::Text(session_id.text()),
                Param::Text(message_id.text()),
            ],
            Query::SoftDeleteMedia { session_id, message_id, id, at } => seq![
                Param::Integer(at),
                Param::Text(session_id.text()),
                Param::Text(message_id.text()),
                Param::Text(id.text()),
            ],
            Query::MediaRefExists { session_id, message_id, id } => seq![
                Param::Text(session_id.text()),
                Param::Text(message_id.text()),
                Param::Text(id.text()),
            ],
            Query::JsonValid { payload } => seq![Param::Text(payload@)],
            Query::InsertAgentEvent { id, session_id, message_id, event_type, payload_json, at } => seq![
                Param::Text(id.text()),
                Param::Text(session_id.text()),
                opt_message(message_id),
                Param::Text(event_type@),
                Param::Text(payload_json@),
                Param::Integer(at),
            ],
            Query::ListAgentEvents { session_id, message_id } => match message_id {
                Some(message_id) => seq![
                    Param::Text(session_id.text()),
                    Param::Text(message_id.text()),
                ],
                None => seq![Param::Text(session_id.text())],
            },
        }
    }
}


fn push_value(out: &mut Vec<SqlValue>, value: SqlValue)
    ensures
        params_of(final(out)@) == params_of(old(out)@).push(value@),
{
    out.push(value);
    assert(params_of(out@) =~= params_of(old(out)@).push(value@));
}

fn push_text(out: &mut Vec<SqlValue>, text: String)
    ensures
        params_of(final(out)@) == params_of(old(out)@).push(Param::Text(text@)),
{
    push_value(out, SqlValue::Text(text));
}

fn push_integer(out: &mut Vec<SqlValue>, value: i64)
    ensures
        params_of(final(out)@) == params_of(old(out)@).push(Param::Integer(value)),
{
    push_value(out, SqlValue::Integer(value));
}

fn push_opt_text(out: &mut Vec<SqlValue>, text: &Option<String>)
    ensures
        params_of(final(out)@) == params_of(old(out)@).push(opt_text(*text)),
{
    match text {
        Some(text) => push_value(out, SqlValue::Text(text.clone())),
        None => push_value(out, SqlValue::Null),
    }
}

fn push_opt_integer(out: &mut Vec<SqlValue>, value: Option<i64>)
    ensures
        params_of(final(out)@) == params_of(old(out)@).push(opt_integer(value)),
{
    match value {
        Some(value) => push_value(out, SqlValue::Integer(value)),
        None => push_value(out, SqlValue::Null),
    }
}

impl Query {
    /// The text of the statement.
    pub fn sql(&self) -> (text: &'static str)
        ensures
            text@ == self.text(),
    {
        match self {
            Query::JournalModeWal => "PRAGMA journal_mode = WAL;",
            Query::ForeignKeysOn => "PRAGMA foreign_keys = ON;",
            Query::BusyTimeout => "PRAGMA busy_timeout = 5000;",
            Query::CreateTable { table } => create_table_sql(*table),
            Query::CountSessions => "SELECT COUNT(*) FROM sessions",
            Query::InsertSession { .. } => "INSERT INTO sessions (id, title, active_branch_id, created_at, updated_at, deleted_at) VALUES (?, ?, ?, ?, ?, NULL)",
            Query::InsertRootBranch { .. } => "INSERT INTO branches (id, session_id, parent_branch_id, created_at, deleted_at) VALUES (?, ?, NULL, ?, NULL)",
            Query::InsertForkBranch { .. } => "INSERT INTO branches (id, session_id, parent_branch_id, created_at, deleted_at) VALUES (?, ?, ?, ?, NULL)",
            Query::ListSessions { include_deleted } => if *include_deleted {
                "SELECT id, title, active_branch_id, updated_at, deleted_at FROM sessions ORDER BY updated_at DESC, id DESC"
            } else {
                "SELECT id, title, active_branch_id, updated_at, deleted_at FROM sessions WHERE deleted_at IS NULL ORDER BY updated_at DESC, id DESC"
            },
            Query::GetSession { .. } => "SELECT id, title, active_branch_id, updated_at, deleted_at FROM sessions WHERE id = ?",
            Query::UpdateSession { .. } => "UPDATE sessions SET title = COALESCE(?, title), updated_at = ? WHERE id = ?",
            Query::SoftDeleteSession { .. } => "UPDATE sessions SET deleted_at = ?, updated_at = ? WHERE id = ? AND deleted_at IS NULL",
            Query::RestoreSession { .. } => "UPDATE sessions SET deleted_at = NULL, updated_at = ? WHERE id = ? AND deleted_at IS NOT NULL",
            Query::SessionExists { .. } => "SELECT 1 FROM sessions WHERE id = ? LIMIT 1",
            Query::SessionLive { .. } => "SELECT 1 FROM sessions WHERE id = ? AND deleted_at IS NULL LIMIT 1",
            Query::ActiveBranch { .. } => "SELECT active_branch_id FROM sessions WHERE id = ? AND deleted_at IS NULL",
            Query::NextSeq { .. } => "SELECT COALESCE(MAX(seq), 0) + 1 FROM messages WHERE session_id = ? AND branch_id = ?",
            Query::InsertMessage { .. } => "INSERT INTO messages (id, session_id, branch_id, seq, role, content, created_at, updated_at, deleted_at) VALUES (?, ?, ?, ?, ?, ?, ?, ?, NULL)",
            Query::CopyMessage { .. } => "INSERT INTO messages (id, session_id, branch_id, seq, role, content, created_at, updated_at, deleted_at) VALUES (?, ?, ?, ?, ?, ?, ?, ?, NULL)",
            Query::ListMessages { .. } => "SELECT id, session_id, branch_id, seq, role, content, deleted_at FROM messages WHERE session_id = ? AND branch_id = ? AND deleted_at IS NULL ORDER BY seq ASC, id ASC",
            Query::GetMessage { .. } => "SELECT id, session_id, branch_id, seq, role, content, deleted_at FROM messages WHERE session_id = ? AND id = ? AND deleted_at IS NULL",
            Query::UpdateMessage { .. } => "UPDATE messages SET content = COALESCE(?, content), updated_at = ? WHERE session_id = ? AND id = ? AND deleted_at IS NULL",
            Query::ForkSource { .. } => "SELECT seq FROM messages WHERE session_id = ? AND branch_id = ? AND id = ? AND deleted_at IS NULL",
            Query::ForkPrefix { .. } => "SELECT id, seq, role, content FROM messages WHERE session_id = ? AND branch_id = ? AND deleted_at IS NULL AND seq <= ? ORDER BY seq ASC, id ASC",
            Query::SetActiveBranch { .. } => "UPDATE sessions SET active_branch_id = ?, updated_at = ? WHERE id = ?",
            Query::SoftDeleteBranch { .. } => "UPDATE branches SET deleted_at = ? WHERE session_id = ? AND id = ?",
            Query::MessageExists { .. } => "SELECT 1 FROM messages WHERE session_id = ? AND id = ? AND deleted_at IS NULL LIMIT 1",
            Query::InsertMediaRef { .. } => "INSERT INTO media_refs (id, session_id, message_id, uri, mime_type, size_bytes, duration_ms, width_px, height_px, sha256_hex, created_at, deleted_at) VALUES (?, ?, ?, ?, ?, ?, ?, ?, ?, ?, ?, NULL)",
            Query::ListMedia { include_deleted, .. } => if *include_deleted {
                "SELECT id, session_id, message_id, uri, mime_type, size_bytes, duration_ms, width_px, height_px, sha256_hex, deleted_at FROM media_refs WHERE session_id = ? AND message_id = ? ORDER BY created_at ASC, id ASC"
            } else {
                "SELECT id, session_id, message_id, uri, mime_type, size_bytes, duration_ms, width_px, height_px, sha256_hex, deleted_at FROM media_refs WHERE session_id = ? AND message_id = ? AND deleted_at IS NULL ORDER BY created_at ASC, id ASC"
            },
            Query::SoftDeleteMedia { .. } => "UPDATE media_refs SET deleted_at = ? WHERE session_id = ? AND message_id = ? AND id = ? AND deleted_at IS NULL",
            Query::MediaRefExists { .. } => "SELECT 1 FROM media_refs WHERE session_id = ? AND message_id = ? AND id = ? LIMIT 1",
            Query::JsonValid { .. } => "SELECT json_valid(?)",
            Query::InsertAgentEvent { .. } => "INSERT INTO agent_events (id, session_id, message_id, event_type, payload_json, created_at) VALUES (?, ?, ?, ?, ?, ?)",
            Query::ListAgentEvents { message_id, .. } => if message_id.is_some() {
                "SELECT id, session_id, message_id, event_type, payload_json, created_at FROM agent_events WHERE session_id = ? AND message_id = ? ORDER BY created_at ASC, id ASC"
            } else {
                "SELECT id, session_id, message_id, event_type, payload_json, created_at FROM agent_events WHERE session_id = ? ORDER BY created_at ASC, id ASC"
            },
        }
    }

    /// The values to bind, in the order of the `?` of the text.
    pub fn params(&self) -> (values: Vec<SqlValue>)
        ensures
            params_of(values@) == self.bound(),
    {
        let mut out: Vec<SqlValue> = Vec::new();
        assert(params_of(out@) =~= Seq::<Param>::empty());
        match self {
            Query::JournalModeWal => {},
            Query::ForeignKeysOn => {},
            Query::BusyTimeout => {},
            Query::CreateTable { .. } => {},
            Query::CountSessions => {},
            Query::ListSessions { .. } => {},
            Query::InsertSession { id, title, active_branch_id, at } => {
                push_text(&mut out, id.to_text());
                push_text(&mut out, title.clone());
                push_text(&mut out, active_branch_id.to_text());
                push_integer(&mut out, *at);
                push_integer(&mut out, *at);
            },
            Query::InsertRootBranch { id, session_id, at } => {
                push_text(&mut out, id.to_text());
                push_text(&mut out, session_id.to_text());
                push_integer(&mut out, *at);
            },
            Query::InsertForkBranch { id, session_id, parent_branch_id, at } => {
                push_text(&mut out, id.to_text());
                push_text(&mut out, session_id.to_text());
                push_text(&mut out, parent_branch_id.to_text());
                push_integer(&mut out, *at);
            },
            Query::GetSession { id } => {
                push_text(&mut out, id.to_text());
            },
            Query::UpdateSession { id, title, at } => {
                push_opt_text(&mut out, title);
                push_integer(&mut out, *at);
                push_text(&mut out, id.to_text());
            },
            Query::SoftDeleteSession { id, at } => {
                push_integer(&mut out, *at);
                push_integer(&mut out, *at);
                push_text(&mut out, id.to_text());
            },
            Query::RestoreSession { id, at } => {
                push_integer(&mut out, *at);
                push_text(&mut out, id.to_text());
            },
            Query::SessionExists { id } => {
                push_text(&mut out, id.to_text());
            },
            Query::SessionLive { id } => {
                push_text(&mut out, id.to_text());
            },
            Query::ActiveBranch { session_id } => {
                push_text(&mut out, session_id.to_text());
            },
            Query::NextSeq { session_id, branch_id } => {
                push_text(&mut out, session_id.to_text());
                push_text(&mut out, branch_id.to_text());
            },
            Query::InsertMessage { id, session_id, branch_id, seq, role, content, at } => {
                push_text(&mut out, id.to_text());
                push_text(&mut out, session_id.to_text());
                push_text(&mut out, branch_id.to_text());
                push_integer(&mut out, *seq);
                push_text(&mut out, role_to_sql(*role).to_owned());
                push_text(&mut out, content.clone());
                push_integer(&mut out, *at);
                push_integer(&mut out, *at);
            },
            Query::CopyMessage { id, session_id, branch_id, seq, role, content, at } => {
                push_text(&mut out, id.to_text());
                push_text(&mut out, session_id.to_text());
                push_text(&mut out, branch_id.to_text());
                push_integer(&mut out, *seq);
                push_text(&mut out, role.clone());
                push_text(&mut out, content.clone());
                push_integer(&mut out, *at);
                push_integer(&mut out, *at);
            },
            Query::ListMessages { session_id, branch_id } => {
                push_text(&mut out, session_id.to_text());
                push_text(&mut out, branch_id.to_text());
            },
            Query::GetMessage { session_id, id } => {
                push_text(&mut out, session_id.to_text());
                push_text(&mut out, id.to_text());
            },
            Query::UpdateMessage { session_id, id, content, at } => {
                push_opt_text(&mut out, content);
                push_integer(&mut out, *at);
                push_text(&mut out, session_id.to_text());
                push_text(&mut out, id.to_text());
            },
            Query::ForkSource { session_id, branch_id, id } => {
                push_text(&mut out, session_id.to_text());
                push_text(&mut out, branch_id.to_text());
                push_text(&mut out, id.to_text());
            },
            Query::ForkPrefix { session_id, branch_id, max_seq } => {
                push_text(&mut out, session_id.to_text());
                push_text(&mut out, branch_id.to_text());
                push_integer(&mut out, *max_seq);
            },
            Query::SetActiveBranch { session_id, branch_id, at } => {
                push_text(&mut out, branch_id.to_text());
                push_integer(&mut out, *at);
                push_text(&mut out, session_id.to_text());
            },
            Query::SoftDeleteBranch { session_id, branch_id, at } => {
                push_integer(&mut out, *at);
                push_text(&mut out, session_id.to_text());
                push_text(&mut out, branch_id.to_text());
            },
            Query::MessageExists { session_id, id } => {
                push_text(&mut out, session_id.to_text());
                push_text(&mut out, id.to_text());
            },
            Query::InsertMediaRef {
                id,
                session_id,
                message_id,
                uri,
                mime_type,
                size_bytes,
                duration_ms,
                width_px,
                height_px,
                sha256_hex,
                at,
            } => {
                push_text(&mut out, id.to_text());
                push_text(&mut out, session_id.to_text());
                push_text(&mut out, message_id.to_text());
                push_text(&mut out, uri.clone());
                push_text(&mut out, mime_type.clone());
                push_integer(&mut out, *size_bytes);
                push_opt_integer(&mut out, *duration_ms);
                push_opt_integer(&mut out, *width_px);
                push_opt_integer(&mut out, *height_px);
                push_opt_text(&mut out, sha256_hex);
                push_integer(&mut out, *at);
            },
            Query::ListMedia { session_id, message_id, .. } => {
                push_text(&mut out, session_id.to_text());
                push_text(&mut out, message_id.to_text());
            },
            Query::SoftDeleteMedia { session_id, message_id, id, at } => {
                push_integer(&mut out, *at);
                push_text(&mut out, session_id.to_text());
                push_text(&mut out, message_id.to_text());
                push_text(&mut out, id.to_text());
            },
            Query::MediaRefExists { session_id, message_id, id } => {
                push_text(&mut out, session_id.to_text());
                push_text(&mut out, message_id.to_text());
                push_text(&mut out, id.to_text());
            },
            Query::JsonValid { payload } => {
                push_text(&mut out, payload.clone());
            },
            Query::InsertAgentEvent { id, session_id, message_id, event_type, payload_json, at } => {
                push_text(&mut out, id.to_text());
                push_text(&mut out, session_id.to_text());
                match message_id {
                    Some(message_id) => push_text(&mut out, message_id.to_text()),
                    None => push_value(&mut out, SqlValue::Null),
                }
                push_text(&mut out, event_type.clone());
                push_text(&mut out, payload_json.clone());
                push_integer(&mut out, *at);
            },
            Query::ListAgentEvents { session_id, message_id } => {
                push_text(&mut out, session_id.to_text());
                match message_id {
                    Some(message_id) => push_text(&mut out, message_id.to_text()),
                    None => {},
                }
            },
        }
        out
    }
}


/// The shape of the rows that a statement returns.
#[derive(Debug, Clone, Copy, PartialEq, Eq, Structural, Hash)]
pub enum RowShape {
    /// The statement returns no rows.
    Nothing,
    Sessions,
    Messages,
    ForkSources,
    ForkPrefix,
    MediaRefs,
    AgentEvents,
    /// One integer a row.
    Integers,
    /// One text a row, which may be null.
    Texts,
}

impl Query {
    /// The shape of the rows that the statement returns.
    pub open spec fn rows(self) -> RowShape {
        match self {
            Query::JournalModeWal => RowShape::Texts,
            Query::ActiveBranch { .. } => RowShape::Texts,
            Query::CountSessions => RowShape::Integers,
            Query::SessionExists { .. } => RowShape::Integers,
            Query::SessionLive { .. } => RowShape::Integers,
            Query::NextSeq { .. } => RowShape::Integers,
            Query::MessageExists { .. } => RowShape::Integers,
            Query::MediaRefExists { .. } => RowShape::Integers,
            Query::JsonValid { .. } => RowShape::Integers,
            Query::ListSessions { .. } => RowShape::Sessions,
            Query::GetSession { .. } => RowShape::Sessions,
            Query::ListMessages { .. } => RowShape::Messages,
            Query::GetMessage { .. } => RowShape::Messages,
            Query::ForkSource { .. } => RowShape::ForkSources,
            Query::ForkPrefix { .. } => RowShape::ForkPrefix,
            Query::ListMedia { .. } => RowShape::MediaRefs,
            Query::ListAgentEvents { .. } => RowShape::AgentEvents,
            _ => RowShape::Nothing,
        }
    }

    /// The shape of the rows that the statement returns.
    pub fn shape(&self) -> (shape: RowShape)
        ensures
            shape == self.rows(),
    {
        match self {
            Query::JournalModeWal => RowShape::Texts,
            Query::ActiveBranch { .. } => RowShape::Texts,
            Query::CountSessions => RowShape::Integers,
            Query::SessionExists { .. } => RowShape::Integers,
            Query::SessionLive { .. } => RowShape::Integers,
            Query::NextSeq { .. } => RowShape::Integers,
            Query::MessageExists { .. } => RowShape::Integers,
            Query::MediaRefExists { .. } => RowShape::Integers,
            Query::JsonValid { .. } => RowShape::Integers,
            Query::ListSessions { .. } => RowShape::Sessions,
            Query::GetSession { .. } => RowShape::Sessions,
            Query::ListMessages { .. } => RowShape::Messages,
            Query::GetMessage { .. } => RowShape::Messages,
            Query::ForkSource { .. } => RowShape::ForkSources,
            Query::ForkPrefix { .. } => RowShape::ForkPrefix,
            Query::ListMedia { .. } => RowShape::MediaRefs,
            Query::ListAgentEvents { .. } => RowShape::AgentEvents,
            _ => RowShape::Nothing,
        }
    }
}

} // verus!
