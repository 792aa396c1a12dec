//! Character-level helpers shared by the parsers of this crate.

use vstd::prelude::*;

verus! {

/// `String::push` appends one character.
pub assume_specification[ String::push ](text: &mut String, c: char)
    ensures
        final(text)@ == old(text)@.push(c),
;

/// Collects the characters of `s` into a vector.
pub fn chars_of(s: &str) -> (out: Vec<char>)
    ensures
        out@ == s@,
{
    let mut out: Vec<char> = Vec::new();
    for c in it: s.chars()
        invariant
            out@ == it.seq().take(it.index() as int),
            it.seq() == s@,
    {
        out.push(c);
    }
    out
}

/// The text made of the characters `chars[from..to]`.
pub fn text_between(chars: &Vec<char>, from: usize, to: usize) -> (text: String)
    requires
        from <= to <= chars.len(),
    ensures
        text@ == chars@.subrange(from as int, to as int),
{
    let mut text = String::new();
    let mut i: usize = from;
    while i < to
        invariant
            from <= i <= to <= chars.len(),
            text@ == chars@.subrange(from as int, i as int),
        decreases to - i,
    {
        text.push(chars[i]);
        i += 1;
        assert(chars@.subrange(from as int, i as int) == chars@.subrange(
            from as int,
            i as int - 1,
        ).push(chars@[i as int - 1]));
    }
    text
}

/// The characters `chars[from..to]`.
pub fn chars_between(chars: &Vec<char>, from: usize, to: usize) -> (out: Vec<char>)
    requires
        from <= to <= chars.len(),
    ensures
        out@ == chars@.subrange(from as int, to as int),
{
    let mut out: Vec<char> = Vec::new();
    let mut i: usize = from;
    while i < to
        invariant
            from <= i <= to <= chars.len(),
            out@ == chars@.subrange(from as int, i as int),
        decreases to - i,
    {
        out.push(chars[i]);
        i += 1;
        assert(chars@.subrange(from as int, i as int) == chars@.subrange(
            from as int,
            i as int - 1,
        ).push(chars@[i as int - 1]));
    }
    out
}

/// The text made of all of `chars`.
pub fn text_of(chars: &Vec<char>) -> (text: String)
    ensures
        text@ == chars@,
{
    let text = text_between(chars, 0, chars.len());
    assert(chars@.subrange(0, chars.len() as int) == chars@);
    text
}

/// Whether two texts hold the same characters.
pub fn same_text(a: &str, b: &str) -> (same: bool)
    ensures
        same == (a@ == b@),
{
    let x = a.to_owned();
    let y = b.to_owned();
    x == y
}

/// Whether `c` is white space: a character with the Unicode property
/// `White_Space`.
pub open spec fn is_space(c: char) -> bool {
    let n = c as u32;
    ||| 0x09 <= n <= 0x0d
    ||| n == 0x20
    ||| n == 0x85
    ||| n == 0xa0
    ||| n == 0x1680
    ||| 0x2000 <= n <= 0x200a
    ||| n == 0x2028
    ||| n == 0x2029
    ||| n == 0x202f
    ||| n == 0x205f
    ||| n == 0x3000
}

/// Whether `c` is white space.
pub fn char_is_space(c: char) -> (space: bool)
    ensures
        space == is_space(c),
{
    let n: u32 = c as u32;
    (0x09 <= n && n <= 0x0d) || n == 0x20 || n == 0x85 || n == 0xa0 || n == 0x1680 || (0x2000 <= n
        && n <= 0x200a) || n == 0x2028 || n == 0x2029 || n == 0x202f || n == 0x205f || n == 0x3000
}

/// Whether a text is empty or holds white space only.
pub open spec fn is_blank(s: Seq<char>) -> bool {
    forall|i: int| 0 <= i < s.len() ==> is_space(#[trigger] s[i])
}

/// Whether `chars[from..to]` is empty or holds white space only.
pub fn blank_between(chars: &Vec<char>, from: usize, to: usize) -> (blank: bool)
    requires
        from <= to <= chars.len(),
    ensures
        blank == is_blank(chars@.subrange(from as int, to as int)),
{
    let mut i: usize = from;
    while i < to
        invariant
            from <= i <= to <= chars.len(),
            is_blank(chars@.subrange(from as int, i as int)),
        decreases to - i,
    {
        if !char_is_space(chars[i]) {
            assert(chars@.subrange(from as int, to as int)[i - from] == chars@[i as int]);
            return false;
        }
        i += 1;
        assert forall|k: int| 0 <= k < i - from implies is_space(
            #[trigger] chars@.subrange(from as int, i as int)[k],
        ) by {
            if k < i - from - 1 {
                assert(chars@.subrange(from as int, i as int - 1)[k] == chars@.subrange(
                    from as int,
                    i as int,
                )[k]);
            }
        }
    }
    true
}

/// Whether a text is empty or holds white space only.
pub fn blank(s: &str) -> (blank: bool)
    ensures
        blank == is_blank(s@),
{
    let chars = chars_of(s);
    assert(chars@.subrange(0, chars.len() as int) == chars@);
    blank_between(&chars, 0, chars.len())
}

/// The ten decimal digits.
pub open spec fn decimal_digits() -> Seq<char> {
    seq!['0', '1', '2', '3', '4', '5', '6', '7', '8', '9']
}

/// Whether `c` is one of `0` to `9`.
pub open spec fn is_digit(c: char) -> bool {
    '0' <= c <= '9'
}

/// The number that the digit `c` stands for.
pub open spec fn digit_value(c: char) -> int {
    c as u32 - 48
}

/// Whether a text holds decimal digits only.
pub open spec fn all_digits(s: Seq<char>) -> bool {
    forall|i: int| 0 <= i < s.len() ==> is_digit(#[trigger] s[i])
}

/// The number that a text of decimal digits stands for.
pub open spec fn digits_value(s: Seq<char>) -> int
    decreases s.len(),
{
    if s.len() == 0 {
        0
    } else {
        digits_value(s.drop_last()) * 10 + digit_value(s.last())
    }
}

/// The digits of an unsigned number text: the text without one leading `+`.
pub open spec fn unsigned_body(s: Seq<char>) -> Seq<char> {
    if s.len() > 0 && s[0] == '+' {
        s.drop_first()
    } else {
        s
    }
}

/// The number that a text stands for as a `u64`: decimal digits, at least
/// one, with at most one `+` before them, and a value that fits.
pub open spec fn parsed_u64(s: Seq<char>) -> Option<u64> {
    let body = unsigned_body(s);
    if body.len() > 0 && all_digits(body) && digits_value(body) <= u64::MAX {
        Some(digits_value(body) as u64)
    } else {
        None
    }
}

/// A text of digits stands for at least as much as each of its beginnings.
pub proof fn lemma_digits_value_grows(s: Seq<char>, k: int)
    requires
        all_digits(s),
        0 <= k <= s.len(),
    ensures
        0 <= digits_value(s.subrange(0, k)) <= digits_value(s),
    decreases s.len() - k,
{
    lemma_digits_value_nonnegative(s.subrange(0, k));
    if k == s.len() {
        assert(s.subrange(0, k) == s);
    } else {
        lemma_digits_value_grows(s, k + 1);
        let longer = s.subrange(0, k + 1);
        assert(longer.drop_last() == s.subrange(0, k));
        assert(is_digit(longer[k]));
    }
}

/// A text of digits stands for a number that is not negative.
pub proof fn lemma_digits_value_nonnegative(s: Seq<char>)
    requires
        all_digits(s),
    ensures
        0 <= digits_value(s),
    decreases s.len(),
{
    if s.len() > 0 {
        assert(is_digit(s[s.len() - 1]));
        assert forall|i: int| 0 <= i < s.drop_last().len() implies is_digit(
            #[trigger] s.drop_last()[i],
        ) by {
            assert(s.drop_last()[i] == s[i]);
        }
        lemma_digits_value_nonnegative(s.drop_last());
    }
}

/// Reads `chars[from..to]` as a `u64`.
pub fn parse_u64_between(chars: &Vec<char>, from: usize, to: usize) -> (value: Option<u64>)
    requires
        from <= to <= chars.len(),
    ensures
        value == parsed_u64(chars@.subrange(from as int, to as int)),
{
    let ghost whole = chars@.subrange(from as int, to as int);
    let start: usize = if from < to && chars[from] == '+' {
        from + 1
    } else {
        from
    };
    let ghost body = chars@.subrange(start as int, to as int);
    assert(body == unsigned_body(whole)) by {
        if from < to {
            assert(whole[0] == chars@[from as int]);
        }
        if start == from + 1 {
            assert(whole.drop_first() == body);
        } else {
            assert(whole == body);
        }
    }
    if start == to {
        return None;
    }
    let mut acc: u64 = 0;
    let mut i: usize = start;
    while i < to
        invariant
            start <= i <= to <= chars.len(),
            body == chars@.subrange(start as int, to as int),
            whole == chars@.subrange(from as int, to as int),
            body == unsigned_body(whole),
            body.len() > 0,
            all_digits(body.subrange(0, i - start)),
            acc == digits_value(body.subrange(0, i - start)),
        decreases to - i,
    {
        let c = chars[i];
        assert(body[i - start] == c);
        if !('0' <= c && c <= '9') {
            return None;
        }
        let digit: u64 = (c as u32 - 48) as u64;
        let ghost longer = body.subrange(0, i - start + 1);
        assert(longer.drop_last() == body.subrange(0, i - start));
        assert(longer.last() == c);
        assert(all_digits(longer)) by {
            assert forall|k: int| 0 <= k < longer.len() implies is_digit(#[trigger] longer[k]) by {
                if k < i - start {
                    assert(longer[k] == body.subrange(0, i - start)[k]);
                }
            }
        }
        if acc > (u64::MAX - digit) / 10 {
            proof {
                if all_digits(body) {
                    lemma_digits_value_grows(body, i - start + 1);
                }
            }
            return None;
        }
        acc = acc * 10 + digit;
        i += 1;
    }
    assert(body.subrange(0, to - start) == body);
    Some(acc)
}

/// Reads a text as a `u64`.
pub fn parse_u64(s: &str) -> (value: Option<u64>)
    ensures
        value == parsed_u64(s@),
{
    let chars = chars_of(s);
    assert(chars@.subrange(0, chars.len() as int) == chars@);
    parse_u64_between(&chars, 0, chars.len())
}

/// The decimal text of a number, without leading zeros.
pub open spec fn decimal(n: nat) -> Seq<char>
    decreases n,
{
    if n < 10 {
        seq![decimal_digits()[n as int]]
    } else {
        decimal(n / 10).push(decimal_digits()[(n % 10) as int])
    }
}

/// The decimal text of a number that may be negative.
pub open spec fn signed_decimal(v: int) -> Seq<char> {
    if v < 0 {
        seq!['-'] + decimal((-v) as nat)
    } else {
        decimal(v as nat)
    }
}

fn digit_char(d: u64) -> (c: char)
    requires
        d < 10,
    ensures
        c == decimal_digits()[d as int],
{
    let code: u8 = 48 + (d as u8);
    code as char
}

/// Appends the decimal text of `n` to `text`.
pub fn push_decimal(text: &mut String, n: u64)
    ensures
        final(text)@ == old(text)@ + decimal(n as nat),
    decreases n,
{
    if n >= 10 {
        push_decimal(text, n / 10);
    }
    text.push(digit_char(n % 10));
}

/// The decimal text of `n`.
pub fn u64_text(n: u64) -> (text: String)
    ensures
        text@ == decimal(n as nat),
{
    let mut text = String::new();
    push_decimal(&mut text, n);
    text
}

/// The decimal text of `v`.
pub fn i64_text(v: i64) -> (text: String)
    ensures
        text@ == signed_decimal(v as int),
{
    let mut text = String::new();
    if v < 0 {
        text.push('-');
        let magnitude: u64 = ((-(v + 1)) as u64) + 1;
        push_decimal(&mut text, magnitude);
    } else {
        push_decimal(&mut text, v as u64);
    }
    text
}


/// The lower-case form of an ASCII capital; every other character itself.
pub open spec fn ascii_lower(c: char) -> char {
    if 'A' <= c <= 'Z' {
        ((c as u8 + 32) as u8) as char
    } else {
        c
    }
}

/// A text with its ASCII capitals in lower case.
pub open spec fn lowered(s: Seq<char>) -> Seq<char> {
    Seq::new(s.len(), |i: int| ascii_lower(s[i]))
}

/// The lower-case form of `c`, where `c` is an ASCII capital.
pub fn char_lower(c: char) -> (lower: char)
    ensures
        lower == ascii_lower(c),
{
    if 'A' <= c && c <= 'Z' {
        let code: u8 = c as u8;
        (code + 32) as char
    } else {
        c
    }
}

/// The characters of a text, with its ASCII capitals in lower case.
pub fn lowered_chars(s: &str) -> (out: Vec<char>)
    ensures
        out@ == lowered(s@),
{
    let chars = chars_of(s);
    let mut out: Vec<char> = Vec::new();
    let mut i: usize = 0;
    while i < chars.len()
        invariant
            0 <= i <= chars.len(),
            chars@ == s@,
            out@.len() == i,
            forall|k: int| 0 <= k < i ==> out@[k] == ascii_lower(#[trigger] s@[k]),
        decreases chars.len() - i,
    {
        out.push(char_lower(chars[i]));
        i += 1;
    }
    assert(out@ =~= lowered(s@));
    out
}

/// Whether `needle` stands in `hay` at position `at`.
pub open spec fn occurs_at(hay: Seq<char>, needle: Seq<char>, at: int) -> bool {
    &&& 0 <= at
    &&& at + needle.len() <= hay.len()
    &&& hay.subrange(at, at + needle.len()) == needle
}

/// Whether `needle` stands somewhere in `hay`.
pub open spec fn occurs(hay: Seq<char>, needle: Seq<char>) -> bool {
    exists|at: int| occurs_at(hay, needle, at)
}

/// Whether `needle` stands in `hay` at position `at`.
pub fn found_at(hay: &Vec<char>, needle: &Vec<char>, at: usize) -> (found: bool)
    ensures
        found == occurs_at(hay@, needle@, at as int),
{
    if needle.len() > hay.len() || at > hay.len() - needle.len() {
        return false;
    }
    let mut k: usize = 0;
    while k < needle.len()
        invariant
            0 <= k <= needle.len(),
            at + needle.len() <= hay.len(),
            forall|j: int| 0 <= j < k ==> hay@[at + j] == needle@[j],
        decreases needle.len() - k,
    {
        if hay[at + k] != needle[k] {
            assert(hay@.subrange(at as int, at + needle.len())[k as int] == hay@[at + k]);
            return false;
        }
        k += 1;
    }
    assert(hay@.subrange(at as int, at + needle.len()) =~= needle@);
    true
}

/// Whether `needle` stands somewhere in `hay`.
pub fn found_in(hay: &Vec<char>, needle: &Vec<char>) -> (found: bool)
    ensures
        found == occurs(hay@, needle@),
{
    if needle.len() > hay.len() {
        return false;
    }
    let last: usize = hay.len() - needle.len();
    let mut at: usize = 0;
    while at < last
        invariant
            0 <= at <= last,
            last == hay.len() - needle.len(),
            forall|j: int| 0 <= j < at ==> !occurs_at(hay@, needle@, j),
        decreases last - at,
    {
        if found_at(hay, needle, at) {
            return true;
        }
        at += 1;
    }
    found_at(hay, needle, last)
}

/// Whether `s` begins with `prefix`.
pub fn starts_with(s: &str, prefix: &str) -> (found: bool)
    ensures
        found == occurs_at(s@, prefix@, 0),
{
    let hay = chars_of(s);
    let needle = chars_of(prefix);
    found_at(&hay, &needle, 0)
}


/// Where the text without its leading white space begins.
pub open spec fn trim_start(s: Seq<char>) -> int
    decreases s.len(),
{
    if s.len() > 0 && is_space(s[0]) {
        1 + trim_start(s.drop_first())
    } else {
        0
    }
}

/// Where the text without its trailing white space ends.
pub open spec fn trim_end(s: Seq<char>) -> int
    decreases s.len(),
{
    if s.len() > 0 && is_space(s.last()) {
        trim_end(s.drop_last())
    } else {
        s.len() as int
    }
}

/// A text without the white space at its ends.
pub open spec fn trimmed(s: Seq<char>) -> Seq<char> {
    if trim_start(s) >= trim_end(s) {
        Seq::empty()
    } else {
        s.subrange(trim_start(s), trim_end(s))
    }
}

/// A text without the white space at its ends.
pub fn trim(s: &str) -> (out: String)
    ensures
        out@ == trimmed(s@),
{
    let chars = chars_of(s);
    let n = chars.len();
    let mut start: usize = 0;
    assert(chars@.subrange(0, n as int) == chars@);
    while start < n && char_is_space(chars[start])
        invariant
            0 <= start <= n,
            n == chars.len(),
            trim_start(chars@) == start + trim_start(chars@.subrange(start as int, n as int)),
        decreases n - start,
    {
        let ghost rest = chars@.subrange(start as int, n as int);
        assert(rest[0] == chars@[start as int]);
        assert(rest.drop_first() == chars@.subrange(start + 1, n as int));
        start += 1;
    }
    proof {
        let rest = chars@.subrange(start as int, n as int);
        if start < n {
            assert(rest[0] == chars@[start as int]);
        }
        assert(trim_start(rest) == 0);
    }
    let mut end: usize = n;
    while end > 0 && char_is_space(chars[end - 1])
        invariant
            0 <= end <= n,
            n == chars.len(),
            trim_end(chars@) == trim_end(chars@.subrange(0, end as int)),
        decreases end,
    {
        let ghost front = chars@.subrange(0, end as int);
        assert(front.last() == chars@[end - 1]);
        assert(front.drop_last() == chars@.subrange(0, end - 1));
        end -= 1;
    }
    proof {
        let front = chars@.subrange(0, end as int);
        if end > 0 {
            assert(front.last() == chars@[end - 1]);
        }
        assert(trim_end(front) == end);
    }
    if start >= end {
        String::new()
    } else {
        text_between(&chars, start, end)
    }
}


/// The decimal text of a number holds digits only, at least one, and stands
/// for the number.
pub proof fn lemma_decimal_is_read_back(n: nat)
    ensures
        decimal(n).len() > 0,
        all_digits(decimal(n)),
        digits_value(decimal(n)) == n,
    decreases n,
{
    if n < 10 {
        let s = decimal(n);
        assert(s.len() == 1);
        assert(s[0] == decimal_digits()[n as int]);
        assert(s.drop_last().len() == 0);
        assert(digits_value(s.drop_last()) == 0);
    } else {
        lemma_decimal_is_read_back(n / 10);
        let front = decimal(n / 10);
        let c = decimal_digits()[(n % 10) as int];
        let s = front.push(c);
        assert(s.drop_last() == front);
        assert(s.last() == c);
        assert(digit_value(c) == n % 10);
        assert forall|i: int| 0 <= i < s.len() implies is_digit(#[trigger] s[i]) by {
            if i < front.len() {
                assert(s[i] == front[i]);
            }
        }
    }
}

/// A `u64` is read back from its decimal text.
pub proof fn lemma_u64_text_round_trip(n: u64)
    ensures
        parsed_u64(decimal(n as nat)) == Some(n),
{
    lemma_decimal_is_read_back(n as nat);
    let s = decimal(n as nat);
    assert(is_digit(s[0]));
    assert(unsigned_body(s) == s);
}

} // verus!
