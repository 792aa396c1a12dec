//! Rows as the database returns them, and their mapping to typed records.

use vstd::prelude::*;
use vstd::string::StringExecFns;
use crate::storage::error::{Fault, StorageError, StorageResult};
use crate::storage::ids::{
    parse_outcome, AgentEventId, BranchId, MediaRefId, MessageId, SessionId,
};
use crate::storage::sql::role_name;
use crate::storage::types::{
    AgentEventRecord, MediaRefRecord, MessageRecord, MessageRole, SessionRecord,
};
use crate::text::{i64_text, same_text, signed_decimal, decimal, u64_text};

verus! {

/// A row of `sessions`.
#[derive(Debug, Clone, PartialEq, Eq)]
pub struct SessionRow {
    pub id: String,
    pub title: String,
    pub active_branch_id: Option<String>,
    pub updated_at: i64,
    pub deleted_at: Option<i64>,
}

/// A row of `messages`.
#[derive(Debug, Clone, PartialEq, Eq)]
pub struct MessageRow {
    pub id: String,
    pub session_id: String,
    pub branch_id: String,
    pub seq: i64,
    pub role: String,
    pub content: String,
    pub deleted_at: Option<i64>,
}

/// The sequence number of the message at which a fork starts.
#[derive(Debug, Clone, Copy, PartialEq, Eq, Structural)]
pub struct ForkSourceRow {
    pub seq: i64,
}

/// A message of the prefix that a fork carries over.
#[derive(Debug, Clone, PartialEq, Eq)]
pub struct ForkPrefixRow {
    pub id: String,
    pub seq: i64,
    pub role: String,
    pub content: String,
}

/// A row of `media_refs`.
#[derive(Debug, Clone, PartialEq, Eq)]
pub struct MediaRefRow {
    pub id: String,
    pub session_id: String,
    pub message_id: String,
    pub uri: String,
    pub mime_type: String,
    pub size_bytes: i64,
    pub duration_ms: Option<i64>,
    pub width_px: Option<i64>,
    pub height_px: Option<i64>,
    pub sha256_hex: Option<String>,
    pub deleted_at: Option<i64>,
}

/// A row of `agent_events`.
#[derive(Debug, Clone, PartialEq, Eq)]
pub struct AgentEventRow {
    pub id: String,
    pub session_id: String,
    pub message_id: Option<String>,
    pub event_type: String,
    pub payload_json: String,
    pub created_at: i64,
}

/// Whether `result` is what `model` describes: the same value, or an error
/// that says what the fault says.
pub open spec fn agrees<T>(result: StorageResult<T>, model: Result<T, Fault>) -> bool {
    match result {
        Ok(value) => model == Ok::<T, Fault>(value),
        Err(error) => model == Err::<T, Fault>(error@),
    }
}

/// The fault reported for a stored integer that is negative.
pub open spec fn negative_fault(value: i64, stage: Seq<char>) -> Fault {
    Fault::InvariantViolation {
        stage,
        details: "negative sqlite integer '"@ + signed_decimal(value as int)
            + "' cannot map to u64"@,
    }
}

/// A stored integer as a `u64`; a negative one is an invariant violation.
pub open spec fn to_u64(value: i64, stage: Seq<char>) -> Result<u64, Fault> {
    if value >= 0 {
        Ok(value as u64)
    } else {
        Err(negative_fault(value, stage))
    }
}

/// A stored integer as a `u32`; one out of range is an invariant violation.
pub open spec fn to_u32(value: i64, stage: Seq<char>) -> Result<u32, Fault> {
    if 0 <= value <= u32::MAX {
        Ok(value as u32)
    } else {
        Err(
            Fault::InvariantViolation {
                stage,
                details: "sqlite integer '"@ + signed_decimal(value as int)
                    + "' cannot map to u32"@,
            },
        )
    }
}

/// A `u64` as a stored integer; one above `i64::MAX` is an invariant
/// violation.
pub open spec fn to_i64(value: u64, stage: Seq<char>) -> Result<i64, Fault> {
    if value <= i64::MAX {
        Ok(value as i64)
    } else {
        Err(
            Fault::InvariantViolation {
                stage,
                details: "u64 '"@ + decimal(value as nat) + "' cannot map to sqlite i64"@,
            },
        )
    }
}

/// An optional stored integer as an optional `u64`.
pub open spec fn opt_to_u64(value: Option<i64>, stage: Seq<char>) -> Result<Option<u64>, Fault> {
    match value {
        None => Ok(None),
        Some(value) => match to_u64(value, stage) {
            Ok(converted) => Ok(Some(converted)),
            Err(fault) => Err(fault),
        },
    }
}

/// An optional stored integer as an optional `u32`.
pub open spec fn opt_to_u32(value: Option<i64>, stage: Seq<char>) -> Result<Option<u32>, Fault> {
    match value {
        None => Ok(None),
        Some(value) => match to_u32(value, stage) {
            Ok(converted) => Ok(Some(converted)),
            Err(fault) => Err(fault),
        },
    }
}

/// An optional `u64` as an optional stored integer.
pub open spec fn opt_to_i64(value: Option<u64>, stage: Seq<char>) -> Result<Option<i64>, Fault> {
    match value {
        None => Ok(None),
        Some(value) => match to_i64(value, stage) {
            Ok(converted) => Ok(Some(converted)),
            Err(fault) => Err(fault),
        },
    }
}

fn quoted(before: &'static str, middle: String, after: &'static str) -> (text: String)
    ensures
        text@ == before@ + middle@ + after@,
{
    let mut text = before.to_owned();
    text.append(middle.as_str());
    text.append(after);
    text
}

/// Reads a stored integer as a `u64`.
pub fn i64_to_u64(value: i64, stage: &'static str) -> (result: StorageResult<u64>)
    ensures
        agrees(result, to_u64(value, stage@)),
{
    if value >= 0 {
        Ok(value as u64)
    } else {
        Err(
            StorageError::InvariantViolation {
                stage,
                details: quoted("negative sqlite integer '", i64_text(value), "' cannot map to u64"),
            },
        )
    }
}

/// Reads a stored integer as a `u32`.
pub fn i64_to_u32(value: i64, stage: &'static str) -> (result: StorageResult<u32>)
    ensures
        agrees(result, to_u32(value, stage@)),
{
    if 0 <= value && value <= 0xffff_ffff {
        Ok(value as u32)
    } else {
        Err(
            StorageError::InvariantViolation {
                stage,
                details: quoted("sqlite integer '", i64_text(value), "' cannot map to u32"),
            },
        )
    }
}

/// Makes a `u64` a stored integer.
pub fn u64_to_i64(value: u64, stage: &'static str) -> (result: StorageResult<i64>)
    ensures
        agrees(result, to_i64(value, stage@)),
{
    if value <= 0x7fff_ffff_ffff_ffff {
        Ok(value as i64)
    } else {
        Err(
            StorageError::InvariantViolation {
                stage,
                details: quoted("u64 '", u64_text(value), "' cannot map to sqlite i64"),
            },
        )
    }
}

/// Reads an optional stored integer as a `u64`.
pub fn opt_i64_to_u64(value: Option<i64>, stage: &'static str) -> (result: StorageResult<
    Option<u64>,
>)
    ensures
        agrees(result, opt_to_u64(value, stage@)),
{
    match value {
        None => Ok(None),
        Some(value) => match i64_to_u64(value, stage) {
            Ok(converted) => Ok(Some(converted)),
            Err(error) => Err(error),
        },
    }
}

/// Reads an optional stored integer as a `u32`.
pub fn opt_i64_to_u32(value: Option<i64>, stage: &'static str) -> (result: StorageResult<
    Option<u32>,
>)
    ensures
        agrees(result, opt_to_u32(value, stage@)),
{
    match value {
        None => Ok(None),
        Some(value) => match i64_to_u32(value, stage) {
            Ok(converted) => Ok(Some(converted)),
            Err(error) => Err(error),
        },
    }
}

/// Makes an optional `u64` a stored integer.
pub fn opt_u64_to_i64(value: Option<u64>, stage: &'static str) -> (result: StorageResult<
    Option<i64>,
>)
    ensures
        agrees(result, opt_to_i64(value, stage@)),
{
    match value {
        None => Ok(None),
        Some(value) => match u64_to_i64(value, stage) {
            Ok(converted) => Ok(Some(converted)),
            Err(error) => Err(error),
        },
    }
}

/// The role stored under a name; an unknown name is an invariant violation.
pub open spec fn role_of(raw: Seq<char>) -> Result<MessageRole, Fault> {
    if raw == "system"@ {
        Ok(MessageRole::System)
    } else if raw == "user"@ {
        Ok(MessageRole::User)
    } else if raw == "assistant"@ {
        Ok(MessageRole::Assistant)
    } else {
        Err(
            Fault::InvariantViolation {
                stage: "message-role-from-sql"@,
                details: "unknown message role '"@ + raw + "'"@,
            },
        )
    }
}

/// Reads a role from the name under which it is stored.
pub fn role_from_sql(raw: &str) -> (result: StorageResult<MessageRole>)
    ensures
        agrees(result, role_of(raw@)),
{
    if same_text(raw, "system") {
        Ok(MessageRole::System)
    } else if same_text(raw, "user") {
        Ok(MessageRole::User)
    } else if same_text(raw, "assistant") {
        Ok(MessageRole::Assistant)
    } else {
        Err(
            StorageError::InvariantViolation {
                stage: "message-role-from-sql",
                details: quoted("unknown message role '", raw.to_owned(), "'"),
            },
        )
    }
}

/// Every role is stored under a name that is read back as that role.
pub proof fn lemma_role_round_trip(role: MessageRole)
    ensures
        role_of(role_name(role)) == Ok::<MessageRole, Fault>(role),
{
    reveal_strlit("system");
    reveal_strlit("user");
    reveal_strlit("assistant");
    assert("system"@.len() == 6);
    assert("user"@.len() == 4);
    assert("assistant"@.len() == 9);
}


/// The record that a row of `sessions` stands for, or the first fault met
/// when its columns are read in order.
pub open spec fn session_record_of(row: SessionRow) -> Result<SessionRecord, Fault> {
    match parse_outcome(row.id@, "session-id"@) {
        Err(fault) => Err(fault),
        Ok(id) => match row.active_branch_id {
            None => Err(
                Fault::InvariantViolation {
                    stage: "session-row-active-branch-missing"@,
                    details: "session row is missing active_branch_id"@,
                },
            ),
            Some(branch_text) => match parse_outcome(branch_text@, "branch-id"@) {
                Err(fault) => Err(fault),
                Ok(branch) => match to_u64(row.updated_at, "session-row-updated-at"@) {
                    Err(fault) => Err(fault),
                    Ok(updated) => match opt_to_u64(row.deleted_at, "session-row-deleted-at"@) {
                        Err(fault) => Err(fault),
                        Ok(deleted) => Ok(
                            SessionRecord {
                                id: SessionId(id),
                                title: row.title,
                                active_branch_id: BranchId(branch),
                                updated_at_unix_seconds: updated,
                                deleted_at_unix_seconds: deleted,
                            },
                        ),
                    },
                },
            },
        },
    }
}

/// Reads a row of `sessions` as a session.
pub fn session_row_to_record(row: SessionRow) -> (result: StorageResult<SessionRecord>)
    ensures
        agrees(result, session_record_of(row)),
{
    let id = SessionId::parse(row.id.as_str())?;
    let branch_text = match row.active_branch_id {
        Some(text) => text,
        None => {
            return Err(
                StorageError::InvariantViolation {
                    stage: "session-row-active-branch-missing",
                    details: "session row is missing active_branch_id".to_owned(),
                },
            );
        },
    };
    let active_branch_id = BranchId::parse(branch_text.as_str())?;
    let updated_at_unix_seconds = i64_to_u64(row.updated_at, "session-row-updated-at")?;
    let deleted_at_unix_seconds = opt_i64_to_u64(row.deleted_at, "session-row-deleted-at")?;
    Ok(
        SessionRecord {
            id,
            title: row.title,
            active_branch_id,
            updated_at_unix_seconds,
            deleted_at_unix_seconds,
        },
    )
}

/// The record that a row of `messages` stands for, or the first fault met
/// when its columns are read in order.
pub open spec fn message_record_of(row: MessageRow) -> Result<MessageRecord, Fault> {
    match parse_outcome(row.id@, "message-id"@) {
        Err(fault) => Err(fault),
        Ok(id) => match parse_outcome(row.session_id@, "session-id"@) {
            Err(fault) => Err(fault),
            Ok(session) => match parse_outcome(row.branch_id@, "branch-id"@) {
                Err(fault) => Err(fault),
                Ok(branch) => match to_u64(row.seq, "message-row-seq"@) {
                    Err(fault) => Err(fault),
                    Ok(seq) => match role_of(row.role@) {
                        Err(fault) => Err(fault),
                        Ok(role) => match opt_to_u64(row.deleted_at, "message-row-deleted-at"@) {
                            Err(fault) => Err(fault),
                            Ok(deleted) => Ok(
                                MessageRecord {
                                    id: MessageId(id),
                                    session_id: SessionId(session),
                                    branch_id: BranchId(branch),
                                    seq,
                                    role,
                                    content: row.content,
                                    deleted_at_unix_seconds: deleted,
                                },
                            ),
                        },
                    },
                },
            },
        },
    }
}

/// Reads a row of `messages` as a message.
pub fn message_row_to_record(row: MessageRow) -> (result: StorageResult<MessageRecord>)
    ensures
        agrees(result, message_record_of(row)),
{
    let id = MessageId::parse(row.id.as_str())?;
    let session_id = SessionId::parse(row.session_id.as_str())?;
    let branch_id = BranchId::parse(row.branch_id.as_str())?;
    let seq = i64_to_u64(row.seq, "message-row-seq")?;
    let role = role_from_sql(row.role.as_str())?;
    let deleted_at_unix_seconds = opt_i64_to_u64(row.deleted_at, "message-row-deleted-at")?;
    Ok(
        MessageRecord {
            id,
            session_id,
            branch_id,
            seq,
            role,
            content: row.content,
            deleted_at_unix_seconds,
        },
    )
}

/// The record that a row of `media_refs` stands for, or the first fault met
/// when its columns are read in order.
pub open spec fn media_ref_record_of(row: MediaRefRow) -> Result<MediaRefRecord, Fault> {
    match parse_outcome(row.id@, "media-ref-id"@) {
        Err(fault) => Err(fault),
        Ok(id) => match parse_outcome(row.session_id@, "session-id"@) {
            Err(fault) => Err(fault),
            Ok(session) => match parse_outcome(row.message_id@, "message-id"@) {
                Err(fault) => Err(fault),
                Ok(message) => match to_u64(row.size_bytes, "media-row-size-bytes"@) {
                    Err(fault) => Err(fault),
                    Ok(size) => match opt_to_u64(row.duration_ms, "media-row-duration-ms"@) {
                        Err(fault) => Err(fault),
                        Ok(duration) => match opt_to_u32(row.width_px, "media-row-width-px"@) {
                            Err(fault) => Err(fault),
                            Ok(width) => match opt_to_u32(row.height_px, "media-row-height-px"@) {
                                Err(fault) => Err(fault),
                                Ok(height) => match opt_to_u64(
                                    row.deleted_at,
                                    "media-row-deleted-at"@,
                                ) {
                                    Err(fault) => Err(fault),
                                    Ok(deleted) => Ok(
                                        MediaRefRecord {
                                            id: MediaRefId(id),
                                            session_id: SessionId(session),
                                            message_id: MessageId(message),
                                            uri: row.uri,
                                            mime_type: row.mime_type,
                                            size_bytes: size,
                                            duration_ms: duration,
                                            width_px: width,
                                            height_px: height,
                                            sha256_hex: row.sha256_hex,
                                            deleted_at_unix_seconds: deleted,
                                        },
                                    ),
                                },
                            },
                        },
                    },
                },
            },
        },
    }
}

/// Reads a row of `media_refs` as a media reference.
pub fn media_ref_row_to_record(row: MediaRefRow) -> (result: StorageResult<MediaRefRecord>)
    ensures
        agrees(result, media_ref_record_of(row)),
{
    let id = MediaRefId::parse(row.id.as_str())?;
    let session_id = SessionId::parse(row.session_id.as_str())?;
    let message_id = MessageId::parse(row.message_id.as_str())?;
    let size_bytes = i64_to_u64(row.size_bytes, "media-row-size-bytes")?;
    let duration_ms = opt_i64_to_u64(row.duration_ms, "media-row-duration-ms")?;
    let width_px = opt_i64_to_u32(row.width_px, "media-row-width-px")?;
    let height_px = opt_i64_to_u32(row.height_px, "media-row-height-px")?;
    let deleted_at_unix_seconds = opt_i64_to_u64(row.deleted_at, "media-row-deleted-at")?;
    Ok(
        MediaRefRecord {
            id,
            session_id,
            message_id,
            uri: row.uri,
            mime_type: row.mime_type,
            size_bytes,
            duration_ms,
            width_px,
            height_px,
            sha256_hex: row.sha256_hex,
            deleted_at_unix_seconds,
        },
    )
}

/// The message that an optional text names.
pub open spec fn opt_message_of(text: Option<String>) -> Result<Option<MessageId>, Fault> {
    match text {
        None => Ok(None),
        Some(text) => match parse_outcome(text@, "message-id"@) {
            Err(fault) => Err(fault),
            Ok(message) => Ok(Some(MessageId(message))),
        },
    }
}

/// The record that a row of `agent_events` stands for, or the first fault
/// met when its columns are read in order.
pub open spec fn agent_event_record_of(row: AgentEventRow) -> Result<AgentEventRecord, Fault> {
    match parse_outcome(row.id@, "agent-event-id"@) {
        Err(fault) => Err(fault),
        Ok(id) => match parse_outcome(row.session_id@, "session-id"@) {
            Err(fault) => Err(fault),
            Ok(session) => match opt_message_of(row.message_id) {
                Err(fault) => Err(fault),
                Ok(message) => match to_u64(row.created_at, "agent-event-row-created-at"@) {
                    Err(fault) => Err(fault),
                    Ok(created) => Ok(
                        AgentEventRecord {
                            id: AgentEventId(id),
                            session_id: SessionId(session),
                            message_id: message,
                            event_type: row.event_type,
                            payload_json: row.payload_json,
                            created_at_unix_seconds: created,
                        },
                    ),
                },
            },
        },
    }
}

/// Reads a row of `agent_events` as an agent event.
pub fn agent_event_row_to_record(row: AgentEventRow) -> (result: StorageResult<AgentEventRecord>)
    ensures
        agrees(result, agent_event_record_of(row)),
{
    let id = AgentEventId::parse(row.id.as_str())?;
    let session_id = SessionId::parse(row.session_id.as_str())?;
    let message_id = match &row.message_id {
        None => None,
        Some(text) => Some(MessageId::parse(text.as_str())?),
    };
    let created_at_unix_seconds = i64_to_u64(row.created_at, "agent-event-row-created-at")?;
    Ok(
        AgentEventRecord {
            id,
            session_id,
            message_id,
            event_type: row.event_type,
            payload_json: row.payload_json,
            created_at_unix_seconds,
        },
    )
}

/// Whether `result` is what mapping `rows` in order with `f` gives: every
/// record, or the fault of the first row that stands for none.
pub open spec fn maps_all<R, T>(
    rows: Seq<R>,
    f: spec_fn(R) -> Result<T, Fault>,
    result: StorageResult<Vec<T>>,
) -> bool {
    match result {
        Ok(records) => {
            &&& records@.len() == rows.len()
            &&& forall|i: int| 0 <= i < rows.len() ==> f(#[trigger] rows[i]) == Ok::<T, Fault>(records@[i])
        },
        Err(error) => exists|k: int|
            {
                &&& 0 <= k < rows.len()
                &&& #[trigger] f(rows[k]) == Err::<T, Fault>(error@)
                &&& forall|i: int| 0 <= i < k ==> f(#[trigger] rows[i]) is Ok
            },
    }
}

/// Maps rows in order with `convert`, stopping at the first row that
/// stands for no record.
pub fn map_rows<R, T, F: Fn(R) -> StorageResult<T>>(
    rows: Vec<R>,
    convert: F,
    Ghost(model): Ghost<spec_fn(R) -> Result<T, Fault>>,
) -> (result: StorageResult<Vec<T>>)
    requires
        forall|row: R| call_requires(convert, (row,)),
        forall|row: R, out: StorageResult<T>|
            call_ensures(convert, (row,), out) ==> agrees(out, model(row)),
    ensures
        maps_all(rows@, model, result),
{
    let mut records: Vec<T> = Vec::new();
    let ghost all = rows@;
    for row in it: rows
        invariant
            it.seq() == all,
            records@.len() == it.index(),
            forall|row: R| call_requires(convert, (row,)),
            forall|row: R, out: StorageResult<T>|
                call_ensures(convert, (row,), out) ==> agrees(out, model(row)),
            forall|j: int|
                0 <= j < it.index() ==> model(#[trigger] all[j]) == Ok::<T, Fault>(records@[j]),
    {
        match convert(row) {
            Ok(record) => records.push(record),
            Err(error) => {
                assert(model(all[it.index() as int]) == Err::<T, Fault>(error@));
                return Err(error);
            },
        }
    }
    Ok(records)
}

/// Reads rows of `sessions` in order.
pub fn session_rows_to_records(rows: Vec<SessionRow>) -> (result: StorageResult<Vec<SessionRecord>>)
    ensures
        maps_all(rows@, |row: SessionRow| session_record_of(row), result),
{
    map_rows(rows, session_row_to_record, Ghost(|row: SessionRow| session_record_of(row)))
}

/// Reads rows of `messages` in order.
pub fn message_rows_to_records(rows: Vec<MessageRow>) -> (result: StorageResult<Vec<MessageRecord>>)
    ensures
        maps_all(rows@, |row: MessageRow| message_record_of(row), result),
{
    map_rows(rows, message_row_to_record, Ghost(|row: MessageRow| message_record_of(row)))
}

/// Reads rows of `media_refs` in order.
pub fn media_ref_rows_to_records(rows: Vec<MediaRefRow>) -> (result: StorageResult<
    Vec<MediaRefRecord>,
>)
    ensures
        maps_all(rows@, |row: MediaRefRow| media_ref_record_of(row), result),
{
    map_rows(rows, media_ref_row_to_record, Ghost(|row: MediaRefRow| media_ref_record_of(row)))
}

/// Reads rows of `agent_events` in order.
pub fn agent_event_rows_to_records(rows: Vec<AgentEventRow>) -> (result: StorageResult<
    Vec<AgentEventRecord>,
>)
    ensures
        maps_all(rows@, |row: AgentEventRow| agent_event_record_of(row), result),
{
    map_rows(
        rows,
        agent_event_row_to_record,
        Ghost(|row: AgentEventRow| agent_event_record_of(row)),
    )
}


/// The first of a list of rows, if it has one.
pub fn first_row<R>(rows: Vec<R>) -> (first: Option<R>)
    ensures
        first == (if rows@.len() == 0 {
            None
        } else {
            Some(rows@[0])
        }),
{
    let mut rows = rows;
    if rows.len() == 0 {
        None
    } else {
        Some(rows.remove(0))
    }
}

} // verus!
