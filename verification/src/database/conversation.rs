//! Conversations kept in a text file, one per line, as
//! `id<TAB>updated_at<TAB>title`. The store reads and writes the text; the
//! file itself is the caller's.

use vstd::prelude::*;
use vstd::string::StringExecFns;
use crate::chat::message::ConversationId;
use crate::storage::legacy::{
    decode_title_from, decoded_title, find_char, find_char_between, legacy_title,
    lemma_find_char, lemma_find_char_offset, lemma_find_char_skips, lemma_scan_lines_offset,
    line_stop, parsed_row,
    rows_view, scan_lines, sort_rows, sorted_rows, LegacyConversationRow, LegacyRow,
    LegacyWarning,
};
use crate::text::{
    all_digits, blank, blank_between, chars_between, chars_of, decimal, is_blank, is_digit,
    is_space, lemma_decimal_is_read_back, lemma_u64_text_round_trip, parse_u64_between,
    parsed_u64, push_decimal, text_between, text_of,
};

verus! {

/// Title given to a conversation that is created without one.
pub const DEFAULT_CONVERSATION_TITLE: &'static str = "New Conversation";

/// Where the store lives, relative to the working directory, unless told
/// otherwise.
pub const DEFAULT_STORE_RELATIVE_PATH: &'static str = ".zova/conversations.tsv";

/// One conversation of the store.
#[derive(Debug, Clone, PartialEq, Eq)]
pub struct ConversationRecord {
    pub id: ConversationId,
    pub title: String,
    pub updated_at_unix_seconds: u64,
}

impl View for ConversationRecord {
    type V = LegacyRow;

    open spec fn view(&self) -> LegacyRow {
        LegacyRow {
            legacy_id: self.id.0,
            updated_at_unix_seconds: self.updated_at_unix_seconds,
            title: self.title@,
        }
    }
}

impl ConversationRecord {
    /// A conversation with these values.
    pub fn new(id: ConversationId, title: String, updated_at_unix_seconds: u64) -> (record: Self)
        ensures
            record == (ConversationRecord { id, title, updated_at_unix_seconds }),
    {
        ConversationRecord { id, title, updated_at_unix_seconds }
    }
}

/// The conversations of a list, each as its model.
pub open spec fn records_view(records: Seq<ConversationRecord>) -> Seq<LegacyRow> {
    records.map_values(|record: ConversationRecord| record@)
}

/// Why the store could not be read or written.
#[derive(Debug)]
pub enum ConversationStoreError {
    CreateStoreDirectory { stage: &'static str, path: String, source: String },
    ReadStore { stage: &'static str, path: String, source: String },
    WriteStore { stage: &'static str, path: String, source: String },
    ParseStoreLine { stage: &'static str, line_number: usize, line: String },
    ParseConversationId { stage: &'static str, raw: String },
    ParseUpdatedAt { stage: &'static str, raw: String },
}

/// The result of reading or writing the store.
pub type ConversationStoreResult<T> = Result<T, ConversationStoreError>;

/// What a [`ConversationStoreError`] says, with every text taken as its
/// characters.
pub enum StoreFault {
    CreateStoreDirectory { stage: Seq<char>, path: Seq<char>, source: Seq<char> },
    ReadStore { stage: Seq<char>, path: Seq<char>, source: Seq<char> },
    WriteStore { stage: Seq<char>, path: Seq<char>, source: Seq<char> },
    ParseStoreLine { stage: Seq<char>, line_number: int, line: Seq<char> },
    ParseConversationId { stage: Seq<char>, raw: Seq<char> },
    ParseUpdatedAt { stage: Seq<char>, raw: Seq<char> },
}

impl View for ConversationStoreError {
    type V = StoreFault;

    open spec fn view(&self) -> StoreFault {
        match *self {
            ConversationStoreError::CreateStoreDirectory { stage, path, source } => {
                StoreFault::CreateStoreDirectory { stage: stage@, path: path@, source: source@ }
            },
            ConversationStoreError::ReadStore { stage, path, source } => StoreFault::ReadStore {
                stage: stage@,
                path: path@,
                source: source@,
            },
            ConversationStoreError::WriteStore { stage, path, source } => StoreFault::WriteStore {
                stage: stage@,
                path: path@,
                source: source@,
            },
            ConversationStoreError::ParseStoreLine { stage, line_number, line } => {
                StoreFault::ParseStoreLine {
                    stage: stage@,
                    line_number: line_number as int,
                    line: line@,
                }
            },
            ConversationStoreError::ParseConversationId { stage, raw } => {
                StoreFault::ParseConversationId { stage: stage@, raw: raw@ }
            },
            ConversationStoreError::ParseUpdatedAt { stage, raw } => StoreFault::ParseUpdatedAt {
                stage: stage@,
                raw: raw@,
            },
        }
    }
}

/// What a fault of the store says in words.
pub open spec fn store_message_of(fault: StoreFault) -> Seq<char> {
    match fault {
        StoreFault::CreateStoreDirectory { path, .. } => {
            "failed to create conversation store directory at "@ + path
        },
        StoreFault::ReadStore { path, .. } => "failed to read conversation store from "@ + path,
        StoreFault::WriteStore { path, .. } => "failed to write conversation store to "@ + path,
        StoreFault::ParseStoreLine { line_number, line, .. } => {
            "failed to parse conversation store line "@ + decimal(line_number as nat) + ": "@
                + line
        },
        StoreFault::ParseConversationId { raw, .. } => "failed to parse conversation id '"@ + raw
            + "'"@,
        StoreFault::ParseUpdatedAt { raw, .. } => "failed to parse conversation timestamp '"@
            + raw + "'"@,
    }
}

impl ConversationStoreError {
    /// What the error says in words.
    pub fn message(&self) -> (text: String)
        ensures
            text@ == store_message_of(self@),
    {
        match self {
            ConversationStoreError::CreateStoreDirectory { path, .. } => {
                let mut text = "failed to create conversation store directory at ".to_owned();
                text.append(path.as_str());
                text
            },
            ConversationStoreError::ReadStore { path, .. } => {
                let mut text = "failed to read conversation store from ".to_owned();
                text.append(path.as_str());
                text
            },
            ConversationStoreError::WriteStore { path, .. } => {
                let mut text = "failed to write conversation store to ".to_owned();
                text.append(path.as_str());
                text
            },
            ConversationStoreError::ParseStoreLine { line_number, line, .. } => {
                let mut text = "failed to parse conversation store line ".to_owned();
                push_decimal(&mut text, *line_number as u64);
                text.append(": ");
                text.append(line.as_str());
                text
            },
            ConversationStoreError::ParseConversationId { raw, .. } => {
                let mut text = "failed to parse conversation id '".to_owned();
                text.append(raw.as_str());
                text.append("'");
                text
            },
            ConversationStoreError::ParseUpdatedAt { raw, .. } => {
                let mut text = "failed to parse conversation timestamp '".to_owned();
                text.append(raw.as_str());
                text.append("'");
                text
            },
        }
    }
}

/// How a character is written in a title: a backslash and a letter for the
/// backslash, the line feed, the tab and the carriage return; every other
/// character as itself.
pub open spec fn escaped(c: char) -> Seq<char> {
    if c == '\\' {
        seq!['\\', '\\']
    } else if c == '\n' {
        seq!['\\', 'n']
    } else if c == '\t' {
        seq!['\\', 't']
    } else if c == '\r' {
        seq!['\\', 'r']
    } else {
        seq![c]
    }
}

/// A title as it is written: every character escaped.
pub open spec fn encoded_title(s: Seq<char>) -> Seq<char>
    decreases s.len(),
{
    if s.len() == 0 {
        Seq::empty()
    } else {
        escaped(s[0]) + encoded_title(s.drop_first())
    }
}

fn push_encoded(out: &mut String, chars: &Vec<char>)
    ensures
        final(out)@ == old(out)@ + encoded_title(chars@),
{
    let n = chars.len();
    let mut i: usize = 0;
    assert(chars@.subrange(0, n as int) == chars@);
    assert(out@ + encoded_title(chars@.subrange(0, n as int)) == old(out)@ + encoded_title(
        chars@,
    ));
    while i < n
        invariant
            0 <= i <= n,
            n == chars.len(),
            out@ + encoded_title(chars@.subrange(i as int, n as int)) == old(out)@
                + encoded_title(chars@),
        decreases n - i,
    {
        let ghost rest = chars@.subrange(i as int, n as int);
        let ghost before = out@;
        let c = chars[i];
        assert(rest[0] == c);
        if c == '\\' {
            out.push('\\');
            out.push('\\');
        } else if c == '\n' {
            out.push('\\');
            out.push('n');
        } else if c == '\t' {
            out.push('\\');
            out.push('t');
        } else if c == '\r' {
            out.push('\\');
            out.push('r');
        } else {
            out.push(c);
        }
        i += 1;
        assert(rest.drop_first() == chars@.subrange(i as int, n as int));
        assert(out@ =~= before + escaped(c));
        assert(out@ + encoded_title(chars@.subrange(i as int, n as int)) =~= before
            + encoded_title(rest));
    }
    assert(chars@.subrange(n as int, n as int).len() == 0);
    assert(out@ + Seq::<char>::empty() =~= out@);
}

/// Writes a title so that it fits on one line of the store.
pub fn encode_title(title: &str) -> (encoded: String)
    ensures
        encoded@ == encoded_title(title@),
{
    let chars = chars_of(title);
    let mut encoded = String::new();
    push_encoded(&mut encoded, &chars);
    assert(Seq::<char>::empty() + encoded_title(title@) =~= encoded_title(title@));
    encoded
}

/// Reads a title as it was before it was written.
pub fn decode_title(encoded_title: &str) -> (decoded: String)
    ensures
        decoded@ == decoded_title(encoded_title@),
{
    crate::storage::legacy::decode_legacy_title(encoded_title)
}

/// A title is read back as it was written.
pub proof fn lemma_title_round_trip(s: Seq<char>)
    ensures
        decoded_title(encoded_title(s)) == s,
    decreases s.len(),
{
    if s.len() > 0 {
        let c = s[0];
        let rest = encoded_title(s.drop_first());
        let whole = escaped(c) + rest;
        lemma_title_round_trip(s.drop_first());
        if c == '\\' || c == '\n' || c == '\t' || c == '\r' {
            assert(whole.subrange(2, whole.len() as int) =~= rest);
            assert(whole[0] == '\\');
        } else {
            assert(whole.drop_first() =~= rest);
            assert(whole[0] == c);
        }
        assert(seq![c] + s.drop_first() =~= s);
    }
}

/// The conversation that a line stands for, or the fault of the line: fewer
/// than three fields, or an id or a time that is no number.
pub open spec fn parsed_line(line: Seq<char>, line_number: int) -> Result<LegacyRow, StoreFault> {
    let first = find_char(line, '\t', 0);
    if first >= line.len() {
        Err(
            StoreFault::ParseStoreLine {
                stage: "parse-store-line-updated-at"@,
                line_number,
                line,
            },
        )
    } else {
        let second = find_char(line, '\t', first + 1);
        if second >= line.len() {
            Err(
                StoreFault::ParseStoreLine { stage: "parse-store-line-title"@, line_number, line },
            )
        } else {
            match parsed_u64(line.subrange(0, first)) {
                None => Err(
                    StoreFault::ParseConversationId {
                        stage: "parse-conversation-id"@,
                        raw: line.subrange(0, first),
                    },
                ),
                Some(legacy_id) => match parsed_u64(line.subrange(first + 1, second)) {
                    None => Err(
                        StoreFault::ParseUpdatedAt {
                            stage: "parse-conversation-updated-at"@,
                            raw: line.subrange(first + 1, second),
                        },
                    ),
                    Some(updated_at_unix_seconds) => Ok(
                        LegacyRow {
                            legacy_id,
                            updated_at_unix_seconds,
                            title: decoded_title(line.subrange(second + 1, line.len() as int)),
                        },
                    ),
                },
            }
        }
    }
}

/// Whether `result` is what the line stands for.
pub open spec fn is_parsed_line(
    result: ConversationStoreResult<ConversationRecord>,
    line: Seq<char>,
    line_number: int,
) -> bool {
    match result {
        Ok(record) => parsed_line(line, line_number) == Ok::<LegacyRow, StoreFault>(record@),
        Err(error) => parsed_line(line, line_number) == Err::<LegacyRow, StoreFault>(error@),
    }
}

fn parse_line_chars(chars: &Vec<char>, line_number: usize) -> (result: ConversationStoreResult<
    ConversationRecord,
>)
    ensures
        is_parsed_line(result, chars@, line_number as int),
{
    let n = chars.len();
    assert(chars@.subrange(0, n as int) == chars@);
    let first = find_char_between(chars, '\t', 0, n);
    if first >= n {
        return Err(
            ConversationStoreError::ParseStoreLine {
                stage: "parse-store-line-updated-at",
                line_number,
                line: text_of(chars),
            },
        );
    }
    let second = find_char_between(chars, '\t', first + 1, n);
    if second >= n {
        return Err(
            ConversationStoreError::ParseStoreLine {
                stage: "parse-store-line-title",
                line_number,
                line: text_of(chars),
            },
        );
    }
    let id = match parse_u64_between(chars, 0, first) {
        Some(value) => value,
        None => {
            return Err(
                ConversationStoreError::ParseConversationId {
                    stage: "parse-conversation-id",
                    raw: text_between(chars, 0, first),
                },
            );
        },
    };
    let updated_at_unix_seconds = match parse_u64_between(chars, first + 1, second) {
        Some(value) => value,
        None => {
            return Err(
                ConversationStoreError::ParseUpdatedAt {
                    stage: "parse-conversation-updated-at",
                    raw: text_between(chars, first + 1, second),
                },
            );
        },
    };
    let decoded = decode_title_from(chars, second + 1);
    Ok(ConversationRecord::new(ConversationId::new(id), text_of(&decoded), updated_at_unix_seconds))
}

/// Parses one line of the store.
pub fn parse_line(line: &str, line_number: usize) -> (result: ConversationStoreResult<
    ConversationRecord,
>)
    ensures
        is_parsed_line(result, line@, line_number as int),
{
    let chars = chars_of(line);
    parse_line_chars(&chars, line_number)
}

/// The conversations of the lines of `s` from position `from` on, where
/// `index` lines came before, or the fault of the first line that stands for
/// none. A line that is empty or white space only is passed over.
pub open spec fn scan_store(s: Seq<char>, from: int, index: int) -> Result<
    Seq<LegacyRow>,
    StoreFault,
>
    decreases s.len() + 1 - from,
    via scan_store_decreases
{
    if from < 0 || from >= s.len() {
        Ok(Seq::empty())
    } else {
        let end = find_char(s, '\n', from);
        let line = s.subrange(from, line_stop(s, from));
        if is_blank(line) {
            scan_store(s, end + 1, index + 1)
        } else {
            match parsed_line(line, index + 1) {
                Err(fault) => Err(fault),
                Ok(row) => match scan_store(s, end + 1, index + 1) {
                    Err(fault) => Err(fault),
                    Ok(rows) => Ok(seq![row] + rows),
                },
            }
        }
    }
}

#[via_fn]
proof fn scan_store_decreases(s: Seq<char>, from: int, index: int) {
    if 0 <= from < s.len() {
        lemma_find_char(s, '\n', from);
    }
}

/// The rows read so far followed by what the rest of the store gives.
pub open spec fn continued(rows: Seq<LegacyRow>, rest: Result<Seq<LegacyRow>, StoreFault>) -> Result<
    Seq<LegacyRow>,
    StoreFault,
> {
    match rest {
        Ok(more) => Ok(rows + more),
        Err(fault) => Err(fault),
    }
}

/// What listing a store gives: its conversations newest first, or the fault
/// of its first malformed line.
pub open spec fn listed(s: Seq<char>) -> Result<Seq<LegacyRow>, StoreFault> {
    match scan_store(s, 0, 0) {
        Ok(rows) => Ok(sorted_rows(rows)),
        Err(fault) => Err(fault),
    }
}

/// Whether `result` is what `model` describes.
pub open spec fn is_listing(
    result: ConversationStoreResult<Vec<ConversationRecord>>,
    model: Result<Seq<LegacyRow>, StoreFault>,
) -> bool {
    match result {
        Ok(records) => model == Ok::<Seq<LegacyRow>, StoreFault>(records_view(records@)),
        Err(error) => model == Err::<Seq<LegacyRow>, StoreFault>(error@),
    }
}

fn scan(store: &str) -> (result: ConversationStoreResult<Vec<ConversationRecord>>)
    ensures
        is_listing(result, scan_store(store@, 0, 0)),
{
    let chars = chars_of(store);
    let n = chars.len();
    let ghost s = store@;
    let mut records: Vec<ConversationRecord> = Vec::new();
    let mut i: usize = 0;
    let mut index: usize = 0;
    assert(records_view(records@) + scan_store(s, 0, 0)->Ok_0 =~= scan_store(s, 0, 0)->Ok_0);
    while i < n
        invariant
            0 <= index <= i <= n,
            n == chars.len(),
            chars@ == s,
            s == store@,
            scan_store(s, 0, 0) == continued(
                records_view(records@),
                scan_store(s, i as int, index as int),
            ),
        decreases n - i,
    {
        assert(chars@.subrange(0, n as int) == chars@);
        let end = find_char_between(&chars, '\n', i, n);
        let stop = if end < n && i < end && chars[end - 1] == '\r' {
            end - 1
        } else {
            end
        };
        proof {
            lemma_find_char(s, '\n', i as int);
        }
        let line = chars_between(&chars, i, stop);
        assert(line@ == s.subrange(i as int, line_stop(s, i as int)));
        assert(line@.subrange(0, line.len() as int) == line@);
        let ghost rest = scan_store(s, end + 1, index + 1);
        let ghost before = records_view(records@);
        if !blank_between(&line, 0, line.len()) {
            match parse_line_chars(&line, index + 1) {
                Ok(record) => {
                    records.push(record);
                    assert(records_view(records@) =~= before.push(record@));
                    proof {
                        if rest is Ok {
                            assert(records_view(records@) + rest->Ok_0 =~= before + (seq![
                                record@,
                            ] + rest->Ok_0));
                        }
                    }
                },
                Err(error) => {
                    assert(scan_store(s, i as int, index as int) == Err::<
                        Seq<LegacyRow>,
                        StoreFault,
                    >(error@));
                    return Err(error);
                },
            }
        }
        index += 1;
        if end < n {
            i = end + 1;
        } else {
            i = n;
            assert(scan_store(s, end + 1, index as int) == scan_store(s, n as int, index as int));
        }
    }
    assert(records_view(records@) + Seq::<LegacyRow>::empty() =~= records_view(records@));
    Ok(records)
}

fn to_rows(records: Vec<ConversationRecord>) -> (rows: Vec<LegacyConversationRow>)
    ensures
        rows_view(rows@) == records_view(records@),
{
    let mut rows: Vec<LegacyConversationRow> = Vec::new();
    for record in it: records
        invariant
            it.seq() == records@,
            rows_view(rows@) == records_view(records@.take(it.index() as int)),
    {
        let ghost before = rows_view(rows@);
        rows.push(
            LegacyConversationRow {
                legacy_id: record.id.0,
                updated_at_unix_seconds: record.updated_at_unix_seconds,
                title: record.title,
            },
        );
        assert(rows_view(rows@) =~= before.push(record@));
        assert(records_view(records@.take(it.index() + 1)) =~= before.push(record@));
    }
    assert(records@.take(records@.len() as int) == records@);
    rows
}

fn to_records(rows: Vec<LegacyConversationRow>) -> (records: Vec<ConversationRecord>)
    ensures
        records_view(records@) == rows_view(rows@),
{
    let mut records: Vec<ConversationRecord> = Vec::new();
    for row in it: rows
        invariant
            it.seq() == rows@,
            records_view(records@) == rows_view(rows@.take(it.index() as int)),
    {
        let ghost before = records_view(records@);
        records.push(
            ConversationRecord {
                id: ConversationId(row.legacy_id),
                title: row.title,
                updated_at_unix_seconds: row.updated_at_unix_seconds,
            },
        );
        assert(records_view(records@) =~= before.push(row@));
        assert(rows_view(rows@.take(it.index() + 1)) =~= before.push(row@));
    }
    assert(rows@.take(rows@.len() as int) == rows@);
    records
}

/// Puts conversations in listing order: newest first, equal times by id
/// descending.
pub fn sort_records(records: Vec<ConversationRecord>) -> (sorted: Vec<ConversationRecord>)
    ensures
        records_view(sorted@) == sorted_rows(records_view(records@)),
{
    to_records(sort_rows(to_rows(records)))
}

/// The greatest id of a list, or 0 for none.
pub open spec fn greatest_id(rows: Seq<LegacyRow>) -> u64
    decreases rows.len(),
{
    if rows.len() == 0 {
        0
    } else if rows.last().legacy_id > greatest_id(rows.drop_last()) {
        rows.last().legacy_id
    } else {
        greatest_id(rows.drop_last())
    }
}

/// The id of the next conversation: one more than the greatest, as far as
/// ids go.
pub open spec fn following_id(rows: Seq<LegacyRow>) -> u64 {
    if greatest_id(rows) == u64::MAX {
        u64::MAX
    } else {
        (greatest_id(rows) + 1) as u64
    }
}

/// The id of the next conversation.
pub fn next_conversation_id(records: &Vec<ConversationRecord>) -> (id: u64)
    ensures
        id == following_id(records_view(records@)),
{
    let ghost rows = records_view(records@);
    let mut greatest: u64 = 0;
    let mut i: usize = 0;
    assert(rows.take(0) =~= Seq::<LegacyRow>::empty());
    while i < records.len()
        invariant
            0 <= i <= records.len(),
            rows == records_view(records@),
            greatest == greatest_id(rows.take(i as int)),
        decreases records.len() - i,
    {
        assert(rows.take(i + 1).drop_last() == rows.take(i as int));
        assert(rows.take(i + 1).last() == records@[i as int]@);
        if records[i].id.0 > greatest {
            greatest = records[i].id.0;
        }
        i += 1;
    }
    assert(rows.take(records.len() as int) == rows);
    if greatest == u64::MAX {
        greatest
    } else {
        greatest + 1
    }
}

/// One conversation as a line of the store.
pub open spec fn serialized_row(row: LegacyRow) -> Seq<char> {
    decimal(row.legacy_id as nat) + seq!['\t'] + decimal(row.updated_at_unix_seconds as nat)
        + seq!['\t'] + encoded_title(row.title) + seq!['\n']
}

/// Conversations as the text of the store: a line for each, in order.
pub open spec fn serialized(rows: Seq<LegacyRow>) -> Seq<char>
    decreases rows.len(),
{
    if rows.len() == 0 {
        Seq::empty()
    } else {
        serialized(rows.drop_last()) + serialized_row(rows.last())
    }
}

/// The text of a store that holds these conversations.
pub fn serialize_conversations(conversations: &Vec<ConversationRecord>) -> (text: String)
    ensures
        text@ == serialized(records_view(conversations@)),
{
    let ghost rows = records_view(conversations@);
    let mut text = String::new();
    let mut i: usize = 0;
    assert(rows.take(0) =~= Seq::<LegacyRow>::empty());
    while i < conversations.len()
        invariant
            0 <= i <= conversations.len(),
            rows == records_view(conversations@),
            text@ == serialized(rows.take(i as int)),
        decreases conversations.len() - i,
    {
        let ghost before = text@;
        let conversation = &conversations[i];
        assert(rows.take(i + 1).drop_last() == rows.take(i as int));
        assert(rows.take(i + 1).last() == conversation@);
        push_decimal(&mut text, conversation.id.0);
        text.push('\t');
        push_decimal(&mut text, conversation.updated_at_unix_seconds);
        text.push('\t');
        let title = chars_of(conversation.title.as_str());
        push_encoded(&mut text, &title);
        text.push('\n');
        assert(text@ =~= before + serialized_row(conversation@));
        i += 1;
    }
    assert(rows.take(conversations.len() as int) == rows);
    text
}

/// The title of a new conversation: the one given, or the default where
/// that is empty or white space only.
pub open spec fn new_title(title: Seq<char>) -> Seq<char> {
    if is_blank(title) {
        DEFAULT_CONVERSATION_TITLE@
    } else {
        title
    }
}

/// The first conversation of a list with the id `id`.
pub open spec fn found(rows: Seq<LegacyRow>, id: u64) -> Option<LegacyRow>
    decreases rows.len(),
{
    if rows.len() == 0 {
        None
    } else if rows[0].legacy_id == id {
        Some(rows[0])
    } else {
        found(rows.drop_first(), id)
    }
}

/// A handle on the store at a path.
#[derive(Debug, Clone)]
pub struct ConversationStore {
    path: String,
}

impl Default for ConversationStore {
    fn default() -> (store: Self)
        ensures
            store.location() == DEFAULT_STORE_RELATIVE_PATH@,
    {
        ConversationStore { path: DEFAULT_STORE_RELATIVE_PATH.to_owned() }
    }
}

impl ConversationStore {
    /// The path of the store, as characters.
    pub closed spec fn location(self) -> Seq<char> {
        self.path@
    }

    /// A handle on the store at `path`.
    pub fn new(path: String) -> (store: Self)
        ensures
            store.location() == path@,
    {
        ConversationStore { path }
    }

    /// The path of the store.
    pub fn path(&self) -> (path: &str)
        ensures
            path@ == self.location(),
    {
        self.path.as_str()
    }

    /// Lists the conversations of the store text, newest first. One
    /// malformed line fails the listing.
    pub fn list_conversations(&self, store: &str) -> (result: ConversationStoreResult<
        Vec<ConversationRecord>,
    >)
        ensures
            is_listing(result, listed(store@)),
    {
        match scan(store) {
            Ok(records) => Ok(sort_records(records)),
            Err(error) => Err(error),
        }
    }

    /// Adds a conversation at the time `now`, with the next id and the
    /// given title, and gives it back with the new text of the store.
    pub fn create_conversation(&self, store: &str, title: String, now: u64) -> (result:
        ConversationStoreResult<(ConversationRecord, String)>)
        ensures
            match result {
                Ok((created, text)) => {
                    &&& listed(store@) is Ok
                    &&& created@ == (LegacyRow {
                        legacy_id: following_id(listed(store@)->Ok_0),
                        updated_at_unix_seconds: now,
                        title: new_title(title@),
                    })
                    &&& text@ == serialized(sorted_rows(listed(store@)->Ok_0.push(created@)))
                },
                Err(error) => listed(store@) == Err::<Seq<LegacyRow>, StoreFault>(error@),
            },
    {
        let mut conversations = match self.list_conversations(store) {
            Ok(conversations) => conversations,
            Err(error) => {
                return Err(error);
            },
        };
        let next_id = next_conversation_id(&conversations);
        let title = if blank(title.as_str()) {
            DEFAULT_CONVERSATION_TITLE.to_owned()
        } else {
            title
        };
        let created = ConversationRecord::new(ConversationId::new(next_id), title, now);
        let ghost before = records_view(conversations@);
        conversations.push(
            ConversationRecord {
                id: created.id,
                title: created.title.clone(),
                updated_at_unix_seconds: created.updated_at_unix_seconds,
            },
        );
        assert(records_view(conversations@) =~= before.push(created@));
        let sorted = sort_records(conversations);
        let text = serialize_conversations(&sorted);
        Ok((created, text))
    }

    /// Looks a conversation up by its id.
    pub fn load_conversation(&self, store: &str, conversation_id: ConversationId) -> (result:
        ConversationStoreResult<Option<ConversationRecord>>)
        ensures
            match result {
                Ok(Some(record)) => listed(store@) is Ok && found(
                    listed(store@)->Ok_0,
                    conversation_id.0,
                ) == Some(record@),
                Ok(None) => listed(store@) is Ok && found(listed(store@)->Ok_0, conversation_id.0)
                    is None,
                Err(error) => listed(store@) == Err::<Seq<LegacyRow>, StoreFault>(error@),
            },
    {
        let conversations = match self.list_conversations(store) {
            Ok(conversations) => conversations,
            Err(error) => {
                return Err(error);
            },
        };
        let ghost rows = records_view(conversations@);
        assert(rows.subrange(0, rows.len() as int) == rows);
        for record in it: conversations
            invariant
                it.seq() == conversations@,
                rows == records_view(conversations@),
                listed(store@) == Ok::<Seq<LegacyRow>, StoreFault>(rows),
                found(rows, conversation_id.0) == found(
                    rows.subrange(it.index() as int, rows.len() as int),
                    conversation_id.0,
                ),
        {
            let ghost rest = rows.subrange(it.index() as int, rows.len() as int);
            assert(rest[0] == record@);
            if record.id.0 == conversation_id.0 {
                return Ok(Some(record));
            }
            assert(rest.drop_first() == rows.subrange(it.index() + 1, rows.len() as int));
        }
        assert(rows.subrange(rows.len() as int, rows.len() as int).len() == 0);
        Ok(None)
    }
}


/// One conversation as it is written, without the line feed that ends its
/// line.
pub open spec fn written_line(row: LegacyRow) -> Seq<char> {
    decimal(row.legacy_id as nat) + seq!['\t'] + decimal(row.updated_at_unix_seconds as nat)
        + seq!['\t'] + encoded_title(row.title)
}

/// A written title holds no tab, no line feed and no carriage return.
pub proof fn lemma_encoded_title_fits_on_a_line(s: Seq<char>)
    ensures
        forall|i: int|
            0 <= i < encoded_title(s).len() ==> {
                let c = #[trigger] encoded_title(s)[i];
                c != '\t' && c != '\n' && c != '\r'
            },
    decreases s.len(),
{
    if s.len() > 0 {
        lemma_encoded_title_fits_on_a_line(s.drop_first());
        let head = escaped(s[0]);
        let rest = encoded_title(s.drop_first());
        assert forall|i: int| 0 <= i < (head + rest).len() implies {
            let c = #[trigger] (head + rest)[i];
            c != '\t' && c != '\n' && c != '\r'
        } by {
            if i >= head.len() {
                assert((head + rest)[i] == rest[i - head.len()]);
            }
        }
    }
}

/// What the store writes, it reads back, and so does the import. Every
/// written conversation stands on one line that is not blank; the store
/// reads the line as that conversation, and the import reads it as that
/// conversation with its title defaulted where it is blank.
pub proof fn lemma_written_line_is_read_back(row: LegacyRow, line_number: int)
    ensures
        forall|i: int|
            0 <= i < written_line(row).len() ==> #[trigger] written_line(row)[i] != '\n',
        !is_blank(written_line(row)),
        serialized_row(row) == written_line(row) + seq!['\n'],
        parsed_line(written_line(row), line_number) == Ok::<LegacyRow, StoreFault>(row),
        parsed_row(written_line(row)) == Ok::<LegacyRow, Seq<char>>(
            LegacyRow { title: legacy_title(encoded_title(row.title)), ..row },
        ),
        legacy_title(encoded_title(row.title)) == (if is_blank(row.title) {
            crate::storage::types::DEFAULT_SESSION_TITLE@
        } else {
            row.title
        }),
{
    let id = decimal(row.legacy_id as nat);
    let time = decimal(row.updated_at_unix_seconds as nat);
    let title = encoded_title(row.title);
    let line = written_line(row);
    let first = id.len() as int;
    let second = first + 1 + time.len();
    lemma_decimal_is_read_back(row.legacy_id as nat);
    lemma_decimal_is_read_back(row.updated_at_unix_seconds as nat);
    lemma_u64_text_round_trip(row.legacy_id);
    lemma_u64_text_round_trip(row.updated_at_unix_seconds);
    lemma_encoded_title_fits_on_a_line(row.title);
    lemma_title_round_trip(row.title);
    assert(line.len() == second + 1 + title.len());
    assert forall|i: int| 0 <= i < first implies line[i] == id[i] by {}
    assert(line[first] == '\t');
    assert forall|i: int| first < i < second implies line[i] == time[i - first - 1] by {}
    assert(line[second] == '\t');
    assert forall|i: int| second < i < line.len() implies line[i] == title[i - second - 1] by {}
    assert forall|i: int| 0 <= i < line.len() implies #[trigger] line[i] != '\n' by {
        if i < first {
            assert(is_digit(id[i]));
        } else if first < i < second {
            assert(is_digit(time[i - first - 1]));
        } else if i > second {
            assert(title[i - second - 1] != '\n');
        }
    }
    assert(!is_blank(line)) by {
        assert(is_digit(id[0]));
        assert(line[0] == id[0]);
        assert(!is_space(line[0]));
    }
    assert(find_char(line, '\t', 0) == first) by {
        assert forall|k: int| 0 <= k < first implies line[k] != '\t' by {
            assert(is_digit(id[k]));
        }
        lemma_find_char_skips(line, '\t', 0, first);
    }
    assert(find_char(line, '\t', first + 1) == second) by {
        assert forall|k: int| first + 1 <= k < second implies line[k] != '\t' by {
            assert(is_digit(time[k - first - 1]));
        }
        lemma_find_char_skips(line, '\t', first + 1, second);
    }
    assert(line.subrange(0, first) =~= id);
    assert(line.subrange(first + 1, second) =~= time);
    assert(line.subrange(second + 1, line.len() as int) =~= title);
    assert(serialized_row(row) =~= line + seq!['\n']);
}


/// The text of a store begins with the line of its first conversation.
pub proof fn lemma_serialized_begins_with_first(rows: Seq<LegacyRow>)
    requires
        rows.len() > 0,
    ensures
        serialized(rows) == serialized_row(rows[0]) + serialized(rows.drop_first()),
    decreases rows.len(),
{
    if rows.len() == 1 {
        assert(rows.drop_last() =~= Seq::<LegacyRow>::empty());
        assert(rows.drop_first() =~= Seq::<LegacyRow>::empty());
        assert(serialized(rows) =~= serialized_row(rows[0]) + serialized(rows.drop_first()));
    } else {
        let front = rows.drop_last();
        lemma_serialized_begins_with_first(front);
        assert(front.drop_first() =~= rows.drop_first().drop_last());
        assert(rows.drop_first().last() == rows.last());
        assert(serialized(rows) =~= serialized_row(rows[0]) + serialized(rows.drop_first()));
    }
}

/// The conversations as the import takes them: each with its title
/// defaulted where it is blank.
pub open spec fn imported(rows: Seq<LegacyRow>) -> Seq<LegacyRow> {
    Seq::new(
        rows.len(),
        |i: int| LegacyRow { title: legacy_title(encoded_title(rows[i].title)), ..rows[i] },
    )
}

/// The import reads every conversation that the store wrote, in the order
/// of the store, and warns of none.
pub proof fn lemma_import_reads_a_written_store(rows: Seq<LegacyRow>, index: int)
    ensures
        scan_lines(serialized(rows), 0, index) == (imported(rows), Seq::<LegacyWarning>::empty()),
    decreases rows.len(),
{
    let text = serialized(rows);
    if rows.len() == 0 {
        assert(imported(rows) =~= Seq::<LegacyRow>::empty());
    } else {
        let row = rows[0];
        let line = written_line(row);
        let rest = serialized(rows.drop_first());
        lemma_serialized_begins_with_first(rows);
        lemma_written_line_is_read_back(row, index + 1);
        lemma_encoded_title_fits_on_a_line(row.title);
        lemma_decimal_is_read_back(row.updated_at_unix_seconds as nat);
        let end = line.len() as int;
        assert(text =~= line + seq!['\n'] + rest);
        assert(text[end] == '\n');
        assert forall|k: int| 0 <= k < end implies text[k] != '\n' by {
            assert(text[k] == line[k]);
        }
        lemma_find_char_skips(text, '\n', 0, end);
        assert(find_char(text, '\n', 0) == end);
        assert(text[end - 1] != '\r') by {
            let title = encoded_title(row.title);
            assert(text[end - 1] == line[end - 1]);
            if title.len() > 0 {
                assert(line[end - 1] == title[title.len() - 1]);
            } else {
                assert(line[end - 1] == '\t');
            }
        }
        assert(line_stop(text, 0) == end);
        assert(text.subrange(0, end) =~= line);
        lemma_scan_lines_offset(text, end + 1, index + 1);
        assert(text.subrange(end + 1, text.len() as int) =~= rest);
        lemma_import_reads_a_written_store(rows.drop_first(), index + 1);
        assert(seq![imported(rows)[0]] + imported(rows.drop_first()) =~= imported(rows));
    }
}


/// The conversations from a position on are those of the rest of the text.
pub proof fn lemma_scan_store_offset(s: Seq<char>, k: int, index: int)
    requires
        0 <= k <= s.len(),
    ensures
        scan_store(s, k, index) == scan_store(s.subrange(k, s.len() as int), 0, index),
    decreases s.len() - k,
{
    let n = s.len() as int;
    let rest = s.subrange(k, n);
    if k < n {
        lemma_find_char_offset(s, '\n', k, 0);
        lemma_find_char(s, '\n', k);
        lemma_find_char(rest, '\n', 0);
        let end = find_char(s, '\n', k);
        let end_rest = find_char(rest, '\n', 0);
        assert(end == k + end_rest);
        if end < n && k < end {
            assert(rest[end_rest - 1] == s[end - 1]);
        }
        assert(line_stop(s, k) == k + line_stop(rest, 0));
        assert(s.subrange(k, line_stop(s, k)) =~= rest.subrange(0, line_stop(rest, 0)));
        if end < n {
            lemma_scan_store_offset(s, end + 1, index + 1);
            lemma_scan_store_offset(rest, end_rest + 1, index + 1);
            assert(rest.subrange(end_rest + 1, rest.len() as int) =~= s.subrange(end + 1, n));
        } else {
            assert(scan_store(s, end + 1, index + 1) == Ok::<Seq<LegacyRow>, StoreFault>(
                Seq::empty(),
            ));
            assert(scan_store(rest, end_rest + 1, index + 1) == Ok::<Seq<LegacyRow>, StoreFault>(
                Seq::empty(),
            ));
        }
    } else {
        assert(scan_store(s, k, index) == Ok::<Seq<LegacyRow>, StoreFault>(Seq::empty()));
        assert(scan_store(rest, 0, index) == Ok::<Seq<LegacyRow>, StoreFault>(Seq::empty()));
    }
}

/// The store reads every conversation that it wrote, in the order in which
/// it wrote them.
pub proof fn lemma_store_reads_what_it_wrote(rows: Seq<LegacyRow>, index: int)
    ensures
        scan_store(serialized(rows), 0, index) == Ok::<Seq<LegacyRow>, StoreFault>(rows),
    decreases rows.len(),
{
    let text = serialized(rows);
    if rows.len() == 0 {
        assert(rows =~= Seq::<LegacyRow>::empty());
    } else {
        let row = rows[0];
        let line = written_line(row);
        let rest = serialized(rows.drop_first());
        lemma_serialized_begins_with_first(rows);
        lemma_written_line_is_read_back(row, index + 1);
        lemma_encoded_title_fits_on_a_line(row.title);
        let end = line.len() as int;
        assert(text =~= line + seq!['\n'] + rest);
        assert(text[end] == '\n');
        assert forall|k: int| 0 <= k < end implies text[k] != '\n' by {
            assert(text[k] == line[k]);
        }
        lemma_find_char_skips(text, '\n', 0, end);
        assert(find_char(text, '\n', 0) == end);
        assert(text[end - 1] != '\r') by {
            let title = encoded_title(row.title);
            assert(text[end - 1] == line[end - 1]);
            if title.len() > 0 {
                assert(line[end - 1] == title[title.len() - 1]);
            } else {
                assert(line[end - 1] == '\t');
            }
        }
        assert(line_stop(text, 0) == end);
        assert(text.subrange(0, end) =~= line);
        lemma_scan_store_offset(text, end + 1, index + 1);
        assert(text.subrange(end + 1, text.len() as int) =~= rest);
        lemma_store_reads_what_it_wrote(rows.drop_first(), index + 1);
        assert(seq![row] + rows.drop_first() =~= rows);
    }
}

/// Listing the text that the store wrote gives its conversations in listing
/// order.
pub proof fn lemma_store_lists_what_it_wrote(rows: Seq<LegacyRow>)
    ensures
        listed(serialized(rows)) == Ok::<Seq<LegacyRow>, StoreFault>(sorted_rows(rows)),
{
    lemma_store_reads_what_it_wrote(rows, 0);
}

} // verus!
