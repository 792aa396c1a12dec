//! The legacy conversation file: one conversation per line, as
//! `id<TAB>updated_at<TAB>title`, the title with its control characters
//! escaped by a backslash.

use vstd::prelude::*;
use crate::storage::types::DEFAULT_SESSION_TITLE;
use crate::text::{
    blank_between, chars_between, chars_of, is_blank, parse_u64_between, parsed_u64, text_of,
};

verus! {

/// A line that could not be imported, with the reason.
#[derive(Debug, Clone, PartialEq, Eq)]
pub struct LegacyImportWarning {
    pub line_number: usize,
    pub reason: &'static str,
}

/// A conversation of the legacy file.
#[derive(Debug, Clone, PartialEq, Eq)]
pub struct LegacyConversationRow {
    pub legacy_id: u64,
    pub updated_at_unix_seconds: u64,
    pub title: String,
}

/// A conversation of the legacy file, with its title taken as characters.
pub struct LegacyRow {
    pub legacy_id: u64,
    pub updated_at_unix_seconds: u64,
    pub title: Seq<char>,
}

/// A warning, with its reason taken as characters.
pub struct LegacyWarning {
    pub line_number: int,
    pub reason: Seq<char>,
}

impl View for LegacyConversationRow {
    type V = LegacyRow;

    open spec fn view(&self) -> LegacyRow {
        LegacyRow {
            legacy_id: self.legacy_id,
            updated_at_unix_seconds: self.updated_at_unix_seconds,
            title: self.title@,
        }
    }
}

impl View for LegacyImportWarning {
    type V = LegacyWarning;

    open spec fn view(&self) -> LegacyWarning {
        LegacyWarning { line_number: self.line_number as int, reason: self.reason@ }
    }
}

/// The rows of a list, each as its model.
pub open spec fn rows_view(rows: Seq<LegacyConversationRow>) -> Seq<LegacyRow> {
    rows.map_values(|row: LegacyConversationRow| row@)
}

/// The warnings of a list, each as its model.
pub open spec fn warnings_view(warnings: Seq<LegacyImportWarning>) -> Seq<LegacyWarning> {
    warnings.map_values(|warning: LegacyImportWarning| warning@)
}

/// What an escape sequence stands for: the character after the backslash
/// names a control character or the backslash itself; any other character
/// keeps its backslash.
pub open spec fn unescaped(c: char) -> Seq<char> {
    if c == 'n' {
        seq!['\n']
    } else if c == 't' {
        seq!['\t']
    } else if c == 'r' {
        seq!['\r']
    } else if c == '\\' {
        seq!['\\']
    } else {
        seq!['\\', c]
    }
}

/// The title that an escaped title stands for. A backslash at the very end
/// stands for itself.
pub open spec fn decoded_title(s: Seq<char>) -> Seq<char>
    decreases s.len(),
{
    if s.len() == 0 {
        Seq::empty()
    } else if s[0] != '\\' {
        seq![s[0]] + decoded_title(s.drop_first())
    } else if s.len() == 1 {
        seq!['\\']
    } else {
        unescaped(s[1]) + decoded_title(s.subrange(2, s.len() as int))
    }
}

/// Decodes the escaped title `chars[from..]`.
pub fn decode_title_from(chars: &Vec<char>, from: usize) -> (decoded: Vec<char>)
    requires
        from <= chars.len(),
    ensures
        decoded@ == decoded_title(chars@.subrange(from as int, chars.len() as int)),
{
    let n = chars.len();
    let ghost whole = chars@.subrange(from as int, n as int);
    let mut out: Vec<char> = Vec::new();
    let mut i: usize = from;
    assert(out@ + decoded_title(chars@.subrange(i as int, n as int)) =~= decoded_title(whole));
    while i < n
        invariant
            from <= i <= n,
            n == chars.len(),
            whole == chars@.subrange(from as int, n as int),
            decoded_title(whole) == out@ + decoded_title(chars@.subrange(i as int, n as int)),
        decreases n - i,
    {
        let ghost rest = chars@.subrange(i as int, n as int);
        let ghost before = out@;
        let c = chars[i];
        assert(rest[0] == c);
        if c != '\\' {
            out.push(c);
            i += 1;
            assert(rest.drop_first() == chars@.subrange(i as int, n as int));
            assert(out@ + decoded_title(chars@.subrange(i as int, n as int)) =~= before
                + decoded_title(rest));
        } else if i + 1 == n {
            out.push('\\');
            i += 1;
            assert(rest.len() == 1);
            assert(chars@.subrange(i as int, n as int).len() == 0);
            assert(out@ + decoded_title(chars@.subrange(i as int, n as int)) =~= before
                + decoded_title(rest));
        } else {
            let e = chars[i + 1];
            assert(rest[1] == e);
            if e == 'n' {
                out.push('\n');
            } else if e == 't' {
                out.push('\t');
            } else if e == 'r' {
                out.push('\r');
            } else if e == '\\' {
                out.push('\\');
            } else {
                out.push('\\');
                out.push(e);
            }
            i += 2;
            assert(rest.subrange(2, rest.len() as int) == chars@.subrange(i as int, n as int));
            assert(out@ =~= before + unescaped(e));
            assert(out@ + decoded_title(chars@.subrange(i as int, n as int)) =~= before
                + decoded_title(rest));
        }
    }
    assert(chars@.subrange(n as int, n as int).len() == 0);
    assert(out@ + Seq::<char>::empty() =~= out@);
    out
}

/// Decodes an escaped title.
pub fn decode_legacy_title(encoded_title: &str) -> (decoded: String)
    ensures
        decoded@ == decoded_title(encoded_title@),
{
    let chars = chars_of(encoded_title);
    assert(chars@.subrange(0, chars.len() as int) == chars@);
    let decoded = decode_title_from(&chars, 0);
    text_of(&decoded)
}

/// The position of the first `c` in `s` at or after `from`, or the length of
/// `s` where there is none.
pub open spec fn find_char(s: Seq<char>, c: char, from: int) -> int
    decreases s.len() - from,
{
    if from >= s.len() {
        s.len() as int
    } else if s[from] == c {
        from
    } else {
        find_char(s, c, from + 1)
    }
}

/// The position of the first `c` in `chars[..end]` at or after `from`, or
/// `end`.
pub fn find_char_between(chars: &Vec<char>, c: char, from: usize, end: usize) -> (at: usize)
    requires
        from <= end <= chars.len(),
    ensures
        from <= at <= end,
        at == find_char(chars@.subrange(0, end as int), c, from as int),
{
    let ghost s = chars@.subrange(0, end as int);
    let mut i: usize = from;
    while i < end && chars[i] != c
        invariant
            from <= i <= end <= chars.len(),
            s == chars@.subrange(0, end as int),
            find_char(s, c, from as int) == find_char(s, c, i as int),
        decreases end - i,
    {
        assert(s[i as int] == chars@[i as int]);
        i += 1;
    }
    proof {
        if i < end {
            assert(s[i as int] == chars@[i as int]);
        }
    }
    i
}

/// The title of an imported row: the decoded title, or the default where
/// that is empty or white space only.
pub open spec fn legacy_title(raw: Seq<char>) -> Seq<char> {
    let decoded = decoded_title(raw);
    if is_blank(decoded) {
        DEFAULT_SESSION_TITLE@
    } else {
        decoded
    }
}

/// The conversation that a line stands for, or the reason why it stands for
/// none: fewer than three fields, or an id or a time that is no number.
pub open spec fn parsed_row(line: Seq<char>) -> Result<LegacyRow, Seq<char>> {
    let first = find_char(line, '\t', 0);
    if first >= line.len() {
        Err("missing-updated-at"@)
    } else {
        let second = find_char(line, '\t', first + 1);
        if second >= line.len() {
            Err("missing-title"@)
        } else {
            match parsed_u64(line.subrange(0, first)) {
                None => Err("invalid-id"@),
                Some(legacy_id) => match parsed_u64(line.subrange(first + 1, second)) {
                    None => Err("invalid-updated-at"@),
                    Some(updated_at_unix_seconds) => Ok(
                        LegacyRow {
                            legacy_id,
                            updated_at_unix_seconds,
                            title: legacy_title(line.subrange(second + 1, line.len() as int)),
                        },
                    ),
                },
            }
        }
    }
}

/// Whether `result` is what the line stands for.
pub open spec fn is_parsed_row(
    result: Result<LegacyConversationRow, &'static str>,
    line: Seq<char>,
) -> bool {
    match result {
        Ok(row) => parsed_row(line) == Ok::<LegacyRow, Seq<char>>(row@),
        Err(reason) => parsed_row(line) == Err::<LegacyRow, Seq<char>>(reason@),
    }
}

/// Parses one line of the legacy file, given as all its characters.
pub fn parse_row_chars(chars: &Vec<char>) -> (result: Result<LegacyConversationRow, &'static str>)
    ensures
        is_parsed_row(result, chars@),
{
    let n = chars.len();
    assert(chars@.subrange(0, n as int) == chars@);
    let first = find_char_between(chars, '\t', 0, n);
    if first >= n {
        return Err("missing-updated-at");
    }
    let second = find_char_between(chars, '\t', first + 1, n);
    if second >= n {
        return Err("missing-title");
    }
    let legacy_id = match parse_u64_between(chars, 0, first) {
        Some(value) => value,
        None => {
            return Err("invalid-id");
        },
    };
    let updated_at_unix_seconds = match parse_u64_between(chars, first + 1, second) {
        Some(value) => value,
        None => {
            return Err("invalid-updated-at");
        },
    };
    let decoded = decode_title_from(chars, second + 1);
    assert(decoded@.subrange(0, decoded.len() as int) == decoded@);
    let title = if blank_between(&decoded, 0, decoded.len()) {
        DEFAULT_SESSION_TITLE.to_owned()
    } else {
        text_of(&decoded)
    };
    Ok(LegacyConversationRow { legacy_id, updated_at_unix_seconds, title })
}

/// Parses one line of the legacy file.
pub fn parse_legacy_conversation_row(line: &str) -> (result: Result<
    LegacyConversationRow,
    &'static str,
>)
    ensures
        is_parsed_row(result, line@),
{
    let chars = chars_of(line);
    parse_row_chars(&chars)
}

/// Reads a number of the legacy file.
pub fn parse_legacy_u64(raw: &str) -> (value: Option<u64>)
    ensures
        value == parsed_u64(raw@),
{
    crate::text::parse_u64(raw)
}


/// The first `c` at or after `from` stands at or after `from`, and no `c`
/// stands between.
pub proof fn lemma_find_char(s: Seq<char>, c: char, from: int)
    requires
        0 <= from,
    ensures
        from <= s.len() ==> from <= find_char(s, c, from) <= s.len(),
        find_char(s, c, from) < s.len() ==> s[find_char(s, c, from)] == c,
        forall|k: int| from <= k < find_char(s, c, from) && k < s.len() ==> s[k] != c,
    decreases s.len() - from,
{
    if from < s.len() && s[from] != c {
        lemma_find_char(s, c, from + 1);
    }
}

/// Where the line that begins at `from` ends: before its line feed, and
/// before a carriage return that stands right before the line feed. A last
/// line without a line feed ends with the text.
pub open spec fn line_stop(s: Seq<char>, from: int) -> int {
    let end = find_char(s, '\n', from);
    if end < s.len() && from < end && s[end - 1] == '\r' {
        end - 1
    } else {
        end
    }
}

/// The rows and the warnings of a text whose first line is `line`, the
/// line number `number`, and whose other lines give `rest`. A line that is
/// empty or white space only gives neither a row nor a warning.
pub open spec fn with_line(
    line: Seq<char>,
    number: int,
    rest: (Seq<LegacyRow>, Seq<LegacyWarning>),
) -> (Seq<LegacyRow>, Seq<LegacyWarning>) {
    if is_blank(line) {
        rest
    } else {
        match parsed_row(line) {
            Ok(row) => (seq![row] + rest.0, rest.1),
            Err(reason) => (rest.0, seq![LegacyWarning { line_number: number, reason }] + rest.1),
        }
    }
}

/// The rows and the warnings of the lines of `s` from position `from` on,
/// where `index` lines came before. A warning names its line, counted from
/// 1.
pub open spec fn scan_lines(s: Seq<char>, from: int, index: int) -> (
    Seq<LegacyRow>,
    Seq<LegacyWarning>,
)
    decreases s.len() + 1 - from,
    via scan_lines_decreases
{
    if from < 0 || from >= s.len() {
        (Seq::empty(), Seq::empty())
    } else {
        with_line(
            s.subrange(from, line_stop(s, from)),
            index + 1,
            scan_lines(s, find_char(s, '\n', from) + 1, index + 1),
        )
    }
}

#[via_fn]
proof fn scan_lines_decreases(s: Seq<char>, from: int, index: int) {
    if 0 <= from < s.len() {
        lemma_find_char(s, '\n', from);
    }
}

/// Whether `x` comes before `y` in the import order: it was updated later,
/// or at the same time and has the greater legacy id.
pub open spec fn more_recent(x: LegacyRow, y: LegacyRow) -> bool {
    x.updated_at_unix_seconds > y.updated_at_unix_seconds || (x.updated_at_unix_seconds
        == y.updated_at_unix_seconds && x.legacy_id > y.legacy_id)
}

/// An ordered list with `x` put in: behind every row that it does not come
/// before.
pub open spec fn insert_sorted(s: Seq<LegacyRow>, x: LegacyRow) -> Seq<LegacyRow>
    decreases s.len(),
{
    if s.len() == 0 {
        seq![x]
    } else if more_recent(x, s.last()) {
        insert_sorted(s.drop_last(), x).push(s.last())
    } else {
        s.push(x)
    }
}

/// The rows in import order: newest first, equal times by legacy id
/// descending, and rows equal in both in the order of the source.
pub open spec fn sorted_rows(s: Seq<LegacyRow>) -> Seq<LegacyRow>
    decreases s.len(),
{
    if s.len() == 0 {
        Seq::empty()
    } else {
        insert_sorted(sorted_rows(s.drop_last()), s.last())
    }
}

/// Whether a list is in import order: no row comes before one that stands
/// in front of it.
pub open spec fn in_import_order(s: Seq<LegacyRow>) -> bool {
    forall|i: int, j: int| 0 <= i < j < s.len() ==> !more_recent(#[trigger] s[j], #[trigger] s[i])
}

fn comes_before(x: &LegacyConversationRow, y: &LegacyConversationRow) -> (before: bool)
    ensures
        before == more_recent(x@, y@),
{
    x.updated_at_unix_seconds > y.updated_at_unix_seconds || (x.updated_at_unix_seconds
        == y.updated_at_unix_seconds && x.legacy_id > y.legacy_id)
}

fn insert_row(out: &mut Vec<LegacyConversationRow>, row: LegacyConversationRow)
    ensures
        rows_view(final(out)@) == insert_sorted(rows_view(old(out)@), row@),
{
    let ghost all = rows_view(out@);
    let n = out.len();
    let mut j: usize = n;
    assert(all.subrange(0, n as int) == all);
    assert(insert_sorted(all, row@) =~= insert_sorted(all.subrange(0, j as int), row@)
        + all.subrange(j as int, n as int));
    while j > 0 && comes_before(&row, &out[j - 1])
        invariant
            0 <= j <= n,
            n == out.len(),
            out@ == old(out)@,
            all == rows_view(out@),
            insert_sorted(all, row@) == insert_sorted(all.subrange(0, j as int), row@)
                + all.subrange(j as int, n as int),
        decreases j,
    {
        let ghost front = all.subrange(0, j as int);
        assert(front.last() == out@[j - 1]@);
        assert(front.drop_last() == all.subrange(0, j - 1));
        j -= 1;
        assert(insert_sorted(all.subrange(0, j as int), row@) + all.subrange(j as int, n as int)
            =~= insert_sorted(front, row@) + all.subrange(j + 1, n as int));
    }
    proof {
        let front = all.subrange(0, j as int);
        if j > 0 {
            assert(front.last() == out@[j - 1]@);
        }
        assert(insert_sorted(front, row@) == front.push(row@));
        assert(front.push(row@) + all.subrange(j as int, n as int) =~= all.insert(
            j as int,
            row@,
        ));
    }
    out.insert(j, row);
    assert(rows_view(out@) =~= all.insert(j as int, row@));
}

/// Puts rows in import order.
pub fn sort_rows(rows: Vec<LegacyConversationRow>) -> (sorted: Vec<LegacyConversationRow>)
    ensures
        rows_view(sorted@) == sorted_rows(rows_view(rows@)),
{
    let mut out: Vec<LegacyConversationRow> = Vec::new();
    let ghost all = rows_view(rows@);
    assert(rows_view(out@) =~= sorted_rows(all.take(0)));
    for row in it: rows
        invariant
            it.seq() == rows@,
            all == rows_view(rows@),
            rows_view(out@) == sorted_rows(all.take(it.index() as int)),
    {
        proof {
            let k = it.index() as int;
            assert(all.take(k + 1).drop_last() == all.take(k));
            assert(all.take(k + 1).last() == row@);
        }
        insert_row(&mut out, row);
    }
    assert(all.take(rows@.len() as int) == all);
    out
}

/// Reads the legacy file: the conversations of its valid lines in import
/// order, and a warning for each line that is neither blank nor valid, in
/// the order of the lines.
pub fn parse_legacy_conversation_rows(store: &str) -> (result: (
    Vec<LegacyConversationRow>,
    Vec<LegacyImportWarning>,
))
    ensures
        rows_view(result.0@) == sorted_rows(scan_lines(store@, 0, 0).0),
        warnings_view(result.1@) == scan_lines(store@, 0, 0).1,
{
    let chars = chars_of(store);
    let n = chars.len();
    let ghost s = store@;
    let mut rows: Vec<LegacyConversationRow> = Vec::new();
    let mut warnings: Vec<LegacyImportWarning> = Vec::new();
    let mut i: usize = 0;
    let mut index: usize = 0;
    assert(rows_view(rows@) + scan_lines(s, 0, 0).0 =~= scan_lines(s, 0, 0).0);
    assert(warnings_view(warnings@) + scan_lines(s, 0, 0).1 =~= scan_lines(s, 0, 0).1);
    while i < n
        invariant
            0 <= index <= i <= n,
            n == chars.len(),
            chars@ == s,
            scan_lines(s, 0, 0).0 == rows_view(rows@) + scan_lines(s, i as int, index as int).0,
            scan_lines(s, 0, 0).1 == warnings_view(warnings@) + scan_lines(
                s,
                i as int,
                index as int,
            ).1,
        decreases n - i,
    {
        assert(chars@.subrange(0, n as int) == chars@);
        let end = find_char_between(&chars, '\n', i, n);
        let stop = if end < n && i < end && chars[end - 1] == '\r' {
            end - 1
        } else {
            end
        };
        proof {
            lemma_find_char(s, '\n', i as int);
        }
        let line = chars_between(&chars, i, stop);
        assert(line@ == s.subrange(i as int, line_stop(s, i as int)));
        assert(line@.subrange(0, line.len() as int) == line@);
        let ghost rest = scan_lines(s, end + 1, index + 1);
        let ghost old_rows = rows_view(rows@);
        let ghost old_warnings = warnings_view(warnings@);
        assert(scan_lines(s, i as int, index as int) == with_line(line@, index + 1, rest));
        if !blank_between(&line, 0, line.len()) {
            match parse_row_chars(&line) {
                Ok(row) => {
                    rows.push(row);
                    assert(rows_view(rows@) =~= old_rows.push(row@));
                    assert(rows_view(rows@) + rest.0 =~= old_rows + (seq![row@] + rest.0));
                },
                Err(reason) => {
                    let warning = LegacyImportWarning { line_number: index + 1, reason };
                    warnings.push(warning);
                    assert(warnings_view(warnings@) =~= old_warnings.push(warning@));
                    assert(warnings_view(warnings@) + rest.1 =~= old_warnings + (seq![warning@]
                        + rest.1));
                },
            }
        }
        assert(scan_lines(s, 0, 0).0 == rows_view(rows@) + rest.0);
        assert(scan_lines(s, 0, 0).1 == warnings_view(warnings@) + rest.1);
        index += 1;
        if end < n {
            i = end + 1;
        } else {
            i = n;
            assert(scan_lines(s, end + 1, index as int) == scan_lines(s, n as int, index as int));
        }
    }
    assert(rows_view(rows@) + Seq::<LegacyRow>::empty() =~= rows_view(rows@));
    assert(warnings_view(warnings@) + Seq::<LegacyWarning>::empty() =~= warnings_view(warnings@));
    (sort_rows(rows), warnings)
}


/// Where an ordered list takes `x` in: behind every row that `x` does not
/// come before.
pub open spec fn insert_position(s: Seq<LegacyRow>, x: LegacyRow) -> int
    decreases s.len(),
{
    if s.len() == 0 {
        0
    } else if more_recent(x, s.last()) {
        insert_position(s.drop_last(), x)
    } else {
        s.len() as int
    }
}

/// Putting `x` in places it at `insert_position`, in front of rows that it
/// comes before and right behind a row that it does not come before.
pub proof fn lemma_insert_sorted_places(s: Seq<LegacyRow>, x: LegacyRow)
    ensures
        0 <= insert_position(s, x) <= s.len(),
        insert_sorted(s, x) == s.insert(insert_position(s, x), x),
        forall|i: int| insert_position(s, x) <= i < s.len() ==> more_recent(x, #[trigger] s[i]),
        insert_position(s, x) > 0 ==> !more_recent(x, s[insert_position(s, x) - 1]),
    decreases s.len(),
{
    if s.len() == 0 {
        assert(seq![x] =~= s.insert(0, x));
    } else if more_recent(x, s.last()) {
        let front = s.drop_last();
        lemma_insert_sorted_places(front, x);
        let p = insert_position(front, x);
        assert(front.insert(p, x).push(s.last()) =~= s.insert(p, x));
        assert forall|i: int| p <= i < s.len() implies more_recent(x, #[trigger] s[i]) by {
            if i < front.len() {
                assert(front[i] == s[i]);
            }
        }
        if p > 0 {
            assert(front[p - 1] == s[p - 1]);
        }
    } else {
        assert(s.push(x) =~= s.insert(s.len() as int, x));
    }
}

/// Putting a row into a list that is in import order leaves it in import
/// order.
pub proof fn lemma_insert_sorted_keeps_order(s: Seq<LegacyRow>, x: LegacyRow)
    requires
        in_import_order(s),
    ensures
        in_import_order(insert_sorted(s, x)),
{
    lemma_insert_sorted_places(s, x);
    let p = insert_position(s, x);
    let r = s.insert(p, x);
    assert forall|i: int, j: int| 0 <= i < j < r.len() implies !more_recent(
        #[trigger] r[j],
        #[trigger] r[i],
    ) by {
        if j == p {
            assert(r[i] == s[i]);
            if i < p - 1 {
                assert(!more_recent(s[p - 1], s[i]));
            }
        } else if i == p {
            assert(r[j] == s[j - 1]);
            assert(more_recent(x, s[j - 1]));
        } else {
            let a = if i < p {
                i
            } else {
                i - 1
            };
            let b = if j < p {
                j
            } else {
                j - 1
            };
            assert(r[i] == s[a]);
            assert(r[j] == s[b]);
            assert(!more_recent(s[b], s[a]));
        }
    }
}

/// The import order is an order of the same rows: `sorted_rows` keeps every
/// row, as often as it occurs, and no row of its result comes before one
/// that stands in front of it.
pub proof fn lemma_sorted_rows_orders_the_same_rows(s: Seq<LegacyRow>)
    ensures
        in_import_order(sorted_rows(s)),
        sorted_rows(s).to_multiset() == s.to_multiset(),
        sorted_rows(s).len() == s.len(),
    decreases s.len(),
{
    if s.len() == 0 {
        assert(sorted_rows(s) =~= s);
    } else {
        let front = s.drop_last();
        lemma_sorted_rows_orders_the_same_rows(front);
        lemma_insert_sorted_keeps_order(sorted_rows(front), s.last());
        lemma_insert_sorted_places(sorted_rows(front), s.last());
        vstd::seq_lib::to_multiset_insert(
            sorted_rows(front),
            insert_position(sorted_rows(front), s.last()),
            s.last(),
        );
        vstd::seq_lib::to_multiset_build(front, s.last());
        assert(front.push(s.last()) =~= s);
    }
}


/// Where no `c` stands between `from` and `to`, the first `c` at or after
/// `from` is the first at or after `to`.
pub proof fn lemma_find_char_skips(s: Seq<char>, c: char, from: int, to: int)
    requires
        0 <= from <= to <= s.len(),
        forall|k: int| from <= k < to ==> s[k] != c,
    ensures
        find_char(s, c, from) == find_char(s, c, to),
    decreases to - from,
{
    if from < to {
        lemma_find_char_skips(s, c, from + 1, to);
    }
}


/// Searching from a position on is searching the rest of the text.
pub proof fn lemma_find_char_offset(s: Seq<char>, c: char, k: int, j: int)
    requires
        0 <= k <= s.len(),
        0 <= j,
    ensures
        find_char(s, c, k + j) == k + find_char(s.subrange(k, s.len() as int), c, j),
    decreases s.len() - k - j,
{
    let rest = s.subrange(k, s.len() as int);
    if k + j < s.len() {
        assert(rest[j] == s[k + j]);
        if s[k + j] != c {
            lemma_find_char_offset(s, c, k, j + 1);
        }
    }
}

/// The rows and warnings from a position on are those of the rest of the
/// text.
pub proof fn lemma_scan_lines_offset(s: Seq<char>, k: int, index: int)
    requires
        0 <= k <= s.len(),
    ensures
        scan_lines(s, k, index) == scan_lines(s.subrange(k, s.len() as int), 0, index),
    decreases s.len() - k,
{
    let n = s.len() as int;
    let rest = s.subrange(k, n);
    if k < n {
        lemma_find_char_offset(s, '\n', k, 0);
        lemma_find_char(s, '\n', k);
        lemma_find_char(rest, '\n', 0);
        let end = find_char(s, '\n', k);
        let end_rest = find_char(rest, '\n', 0);
        assert(end == k + end_rest);
        if end < n && k < end {
            assert(rest[end_rest - 1] == s[end - 1]);
        }
        assert(line_stop(s, k) == k + line_stop(rest, 0));
        assert(s.subrange(k, line_stop(s, k)) =~= rest.subrange(0, line_stop(rest, 0)));
        if end < n {
            lemma_scan_lines_offset(s, end + 1, index + 1);
            lemma_scan_lines_offset(rest, end_rest + 1, index + 1);
            assert(rest.subrange(end_rest + 1, rest.len() as int) =~= s.subrange(end + 1, n));
        } else {
            assert(scan_lines(s, end + 1, index + 1) == (
                Seq::<LegacyRow>::empty(),
                Seq::<LegacyWarning>::empty(),
            ));
            assert(scan_lines(rest, end_rest + 1, index + 1) == (
                Seq::<LegacyRow>::empty(),
                Seq::<LegacyWarning>::empty(),
            ));
        }
    } else {
        assert(scan_lines(s, k, index) == (
            Seq::<LegacyRow>::empty(),
            Seq::<LegacyWarning>::empty(),
        ));
        assert(scan_lines(rest, 0, index) == (
            Seq::<LegacyRow>::empty(),
            Seq::<LegacyWarning>::empty(),
        ));
    }
}

} // verus!
