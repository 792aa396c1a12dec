//! Typed identifiers.
//!
//! Each of the five identifier types holds a 128-bit time-ordered value and
//! has one canonical text form. The types are distinct: an identifier of one
//! entity kind is never taken for one of another.

use vstd::prelude::*;
use vstd::arithmetic::power::pow;
use crate::storage::clock::clock_reading;
use crate::storage::error::{Fault, StorageError, StorageResult};

verus! {

/// The value that `uuid::Uuid::parse_str` reads from a text, or `None` where
/// it refuses the text.
pub uninterp spec fn uuid_parsed(raw: Seq<char>) -> Option<u128>;

/// The sixteen lower-case hexadecimal digits.
pub open spec fn hex_digits() -> Seq<char> {
    seq!['0', '1', '2', '3', '4', '5', '6', '7', '8', '9', 'a', 'b', 'c', 'd', 'e', 'f']
}

/// The `k`-th hexadecimal digit of `value`, counted from the most significant.
pub open spec fn nibble(value: u128, k: int) -> int
    recommends
        0 <= k < 32,
{
    (value as int / pow(16, (31 - k) as nat)) % 16
}

/// The number of hyphens that stand before position `i` of the canonical text.
pub open spec fn hyphens_before(i: int) -> int {
    if i < 8 {
        0
    } else if i < 13 {
        1
    } else if i < 18 {
        2
    } else if i < 23 {
        3
    } else {
        4
    }
}

/// The canonical text of a value: 32 lower-case hexadecimal digits, most
/// significant first, in groups of 8, 4, 4, 4 and 12 with hyphens between.
pub open spec fn hyphenated(value: u128) -> Seq<char> {
    Seq::new(
        36,
        |i: int|
            if i == 8 || i == 13 || i == 18 || i == 23 {
                '-'
            } else {
                hex_digits()[nibble(value, i - hyphens_before(i))]
            },
    )
}

/// Whether a value is a time-ordered identifier of version 7 in the
/// standard variant: its thirteenth hexadecimal digit is 7, and its
/// seventeenth is one of 8, 9, a and b.
pub open spec fn is_version_7(value: u128) -> bool {
    nibble(value, 12) == 7 && 8 <= nibble(value, 16) <= 11
}

/// The milliseconds since the epoch of a time given in seconds and
/// nanoseconds, as far as 64 bits go.
pub open spec fn unix_millis(seconds: u64, subsec_nanos: u32) -> int {
    let whole = if seconds * 1000 > u64::MAX {
        u64::MAX as int
    } else {
        seconds * 1000
    };
    if whole + subsec_nanos / 1_000_000 > u64::MAX {
        u64::MAX as int
    } else {
        whole + subsec_nanos / 1_000_000
    }
}

/// The time with which a value begins: its most significant 48 bits.
pub open spec fn time_of(value: u128) -> int {
    value as int / 0x1_0000_0000_0000_0000_0000
}

/// `uuid::Uuid::new_v7` on `uuid::Timestamp::from_unix` without a counter,
/// as a 128-bit value. The value is drawn by chance below its first 48
/// bits; whatever is drawn, it begins with the low 48 bits of the time in
/// milliseconds and carries the version 7 and the standard variant.
#[verifier::external_body]
fn uuid_new_v7(seconds: u64, subsec_nanos: u32) -> (value: u128)
    ensures
        is_version_7(value),
        time_of(value) == unix_millis(seconds, subsec_nanos) % 0x1_0000_0000_0000,
{
    let timestamp = uuid::Timestamp::from_unix(uuid::NoContext, seconds, subsec_nanos);
    uuid::Uuid::new_v7(timestamp).as_u128()
}

/// Mints the value of an identifier of version 7 for a given time: it
/// begins with the low 48 bits of that time in milliseconds.
pub fn mint_v7_at(seconds: u64, subsec_nanos: u32) -> (value: u128)
    ensures
        is_version_7(value),
        time_of(value) == unix_millis(seconds, subsec_nanos) % 0x1_0000_0000_0000,
{
    uuid_new_v7(seconds, subsec_nanos)
}

/// `uuid::Uuid::now_v7`, as a 128-bit value. The value depends on the clock
/// and on chance; whatever it is, it carries the version 7 and the standard
/// variant. The outside function reads the clock itself and does not return
/// where the clock stands before the epoch: it is called only right after
/// the clock was read at or after the epoch.
#[verifier::external_body]
fn uuid_now_v7() -> (value: u128)
    ensures
        is_version_7(value),
{
    uuid::Uuid::now_v7().as_u128()
}

/// Mints the value of an identifier of version 7 for the current time. A
/// clock that stands before the epoch counts as the epoch itself.
fn mint_v7() -> (value: u128)
    ensures
        is_version_7(value),
{
    match clock_reading() {
        Some(_) => uuid_now_v7(),
        None => mint_v7_at(0, 0),
    }
}

/// Identifiers sort as the times with which they begin: of two values, the
/// one that begins with the later time is the greater.
pub proof fn lemma_ids_sort_by_time(earlier: u128, later: u128)
    requires
        time_of(earlier) < time_of(later),
    ensures
        earlier < later,
{
    assert(earlier < later) by (nonlinear_arith)
        requires
            earlier as int / 0x1_0000_0000_0000_0000_0000 < later as int
                / 0x1_0000_0000_0000_0000_0000,
    ;
}

/// `uuid::Uuid::parse_str`, with the value read taken as big-endian. It
/// succeeds exactly on the texts that `uuid_parsed` accepts.
#[verifier::external_body]
fn uuid_parse_str(raw: &str) -> (result: Result<u128, uuid::Error>)
    ensures
        result is Ok <==> uuid_parsed(raw@) is Some,
        result matches Ok(value) ==> uuid_parsed(raw@) == Some(value),
{
    uuid::Uuid::parse_str(raw).map(|parsed| parsed.as_u128())
}

/// `Display` of `uuid::Uuid`: the canonical text of the value, which
/// `uuid::Uuid::parse_str` reads back as that value.
#[verifier::external_body]
fn uuid_to_text(value: u128) -> (text: String)
    ensures
        text@ == hyphenated(value),
        uuid_parsed(text@) == Some(value),
{
    uuid::Uuid::from_u128(value).to_string()
}

/// What parsing `raw` as an identifier of type `id_type` gives: the value
/// read, or the `InvalidId` fault that names the type and the text.
pub open spec fn parse_outcome(raw: Seq<char>, id_type: Seq<char>) -> Result<u128, Fault> {
    match uuid_parsed(raw) {
        Some(value) => Ok(value),
        None => Err(Fault::InvalidId { stage: "parse-storage-id"@, id_type, raw }),
    }
}

/// Whether `result` is what parsing `raw` as an identifier of type `id_type`
/// gives.
pub open spec fn is_parse_outcome(
    result: StorageResult<u128>,
    raw: Seq<char>,
    id_type: Seq<char>,
) -> bool {
    match result {
        Ok(value) => parse_outcome(raw, id_type) == Ok::<u128, Fault>(value),
        Err(error) => parse_outcome(raw, id_type) == Err::<u128, Fault>(error@),
    }
}

/// What the outcome of reading `raw` means for an identifier of type
/// `id_type`: the value read, or `InvalidId` with the type and the text.
pub fn value_or_invalid(
    outcome: Result<u128, uuid::Error>,
    raw: &str,
    id_type: &'static str,
) -> (result: StorageResult<u128>)
    ensures
        match outcome {
            Ok(value) => result == Ok::<u128, StorageError>(value),
            Err(_) => result is Err && result->Err_0@ == (Fault::InvalidId {
                stage: "parse-storage-id"@,
                id_type: id_type@,
                raw: raw@,
            }),
        },
{
    match outcome {
        Ok(value) => Ok(value),
        Err(source) => Err(
            StorageError::InvalidId {
                stage: "parse-storage-id",
                id_type,
                raw: raw.to_owned(),
                source,
            },
        ),
    }
}

/// Reads the 128-bit value of an identifier text.
pub fn parse_value(raw: &str, id_type: &'static str) -> (result: StorageResult<u128>)
    ensures
        is_parse_outcome(result, raw@, id_type@),
{
    value_or_invalid(uuid_parse_str(raw), raw, id_type)
}

/// Identifier of a session.
#[derive(Debug, Clone, Copy, PartialEq, Eq, Structural, Hash, PartialOrd, Ord)]
pub struct SessionId(pub u128);

impl SessionId {
    /// The canonical text of this identifier.
    pub open spec fn text(self) -> Seq<char> {
        hyphenated(self.0)
    }

    /// The identifier that `raw` stands for, if it stands for one.
    pub open spec fn parsed(raw: Seq<char>) -> Option<SessionId> {
        match uuid_parsed(raw) {
            Some(value) => Some(SessionId(value)),
            None => None,
        }
    }

    /// Wraps a 128-bit value.
    pub fn new(raw: u128) -> (id: Self)
        ensures
            id == SessionId(raw),
    {
        SessionId(raw)
    }

    /// Mints a fresh identifier of version 7 for the current time.
    pub fn new_v7() -> (id: Self)
        ensures
            is_version_7(id.0),
    {
        SessionId(mint_v7())
    }

    /// Reads an identifier from its text. A text that is no identifier gives
    /// `InvalidId`.
    pub fn parse(raw: &str) -> (result: StorageResult<Self>)
        ensures
            match result {
                Ok(id) => Self::parsed(raw@) == Some(id),
                Err(error) => Self::parsed(raw@) is None && error@ == (Fault::InvalidId {
                    stage: "parse-storage-id"@,
                    id_type: "session-id"@,
                    raw: raw@,
                }),
            },
    {
        let result = parse_value(raw, "session-id");
        match result {
            Ok(value) => Ok(SessionId(value)),
            Err(error) => Err(error),
        }
    }

    /// The 128-bit value.
    pub fn as_u128(&self) -> (value: u128)
        ensures
            value == self.0,
    {
        self.0
    }

    /// The canonical text of this identifier. Parsing it gives the
    /// identifier back.
    pub fn to_text(&self) -> (text: String)
        ensures
            text@ == self.text(),
            Self::parsed(text@) == Some(*self),
    {
        uuid_to_text(self.0)
    }
}

/// Identifier of a message.
#[derive(Debug, Clone, Copy, PartialEq, Eq, Structural, Hash, PartialOrd, Ord)]
pub struct MessageId(pub u128);

impl MessageId {
    /// The canonical text of this identifier.
    pub open spec fn text(self) -> Seq<char> {
        hyphenated(self.0)
    }

    /// The identifier that `raw` stands for, if it stands for one.
    pub open spec fn parsed(raw: Seq<char>) -> Option<MessageId> {
        match uuid_parsed(raw) {
            Some(value) => Some(MessageId(value)),
            None => None,
        }
    }

    /// Wraps a 128-bit value.
    pub fn new(raw: u128) -> (id: Self)
        ensures
            id == MessageId(raw),
    {
        MessageId(raw)
    }

    /// Mints a fresh identifier of version 7 for the current time.
    pub fn new_v7() -> (id: Self)
        ensures
            is_version_7(id.0),
    {
        MessageId(mint_v7())
    }

    /// Reads an identifier from its text. A text that is no identifier gives
    /// `InvalidId`.
    pub fn parse(raw: &str) -> (result: StorageResult<Self>)
        ensures
            match result {
                Ok(id) => Self::parsed(raw@) == Some(id),
                Err(error) => Self::parsed(raw@) is None && error@ == (Fault::InvalidId {
                    stage: "parse-storage-id"@,
                    id_type: "message-id"@,
                    raw: raw@,
                }),
            },
    {
        let result = parse_value(raw, "message-id");
        match result {
            Ok(value) => Ok(MessageId(value)),
            Err(error) => Err(error),
        }
    }

    /// The 128-bit value.
    pub fn as_u128(&self) -> (value: u128)
        ensures
            value == self.0,
    {
        self.0
    }

    /// The canonical text of this identifier. Parsing it gives the
    /// identifier back.
    pub fn to_text(&self) -> (text: String)
        ensures
            text@ == self.text(),
            Self::parsed(text@) == Some(*self),
    {
        uuid_to_text(self.0)
    }
}

/// Identifier of a branch.
#[derive(Debug, Clone, Copy, PartialEq, Eq, Structural, Hash, PartialOrd, Ord)]
pub struct BranchId(pub u128);

impl BranchId {
    /// The canonical text of this identifier.
    pub open spec fn text(self) -> Seq<char> {
        hyphenated(self.0)
    }

    /// The identifier that `raw` stands for, if it stands for one.
    pub open spec fn parsed(raw: Seq<char>) -> Option<BranchId> {
        match uuid_parsed(raw) {
            Some(value) => Some(BranchId(value)),
            None => None,
        }
    }

    /// Wraps a 128-bit value.
    pub fn new(raw: u128) -> (id: Self)
        ensures
            id == BranchId(raw),
    {
        BranchId(raw)
    }

    /// Mints a fresh identifier of version 7 for the current time.
    pub fn new_v7() -> (id: Self)
        ensures
            is_version_7(id.0),
    {
        BranchId(mint_v7())
    }

    /// Reads an identifier from its text. A text that is no identifier gives
    /// `InvalidId`.
    pub fn parse(raw: &str) -> (result: StorageResult<Self>)
        ensures
            match result {
                Ok(id) => Self::parsed(raw@) == Some(id),
                Err(error) => Self::parsed(raw@) is None && error@ == (Fault::InvalidId {
                    stage: "parse-storage-id"@,
                    id_type: "branch-id"@,
                    raw: raw@,
                }),
            },
    {
        let result = parse_value(raw, "branch-id");
        match result {
            Ok(value) => Ok(BranchId(value)),
            Err(error) => Err(error),
        }
    }

    /// The 128-bit value.
    pub fn as_u128(&self) -> (value: u128)
        ensures
            value == self.0,
    {
        self.0
    }

    /// The canonical text of this identifier. Parsing it gives the
    /// identifier back.
    pub fn to_text(&self) -> (text: String)
        ensures
            text@ == self.text(),
            Self::parsed(text@) == Some(*self),
    {
        uuid_to_text(self.0)
    }
}

/// Identifier of a media reference.
#[derive(Debug, Clone, Copy, PartialEq, Eq, Structural, Hash, PartialOrd, Ord)]
pub struct MediaRefId(pub u128);

impl MediaRefId {
    /// The canonical text of this identifier.
    pub open spec fn text(self) -> Seq<char> {
        hyphenated(self.0)
    }

    /// The identifier that `raw` stands for, if it stands for one.
    pub open spec fn parsed(raw: Seq<char>) -> Option<MediaRefId> {
        match uuid_parsed(raw) {
            Some(value) => Some(MediaRefId(value)),
            None => None,
        }
    }

    /// Wraps a 128-bit value.
    pub fn new(raw: u128) -> (id: Self)
        ensures
            id == MediaRefId(raw),
    {
        MediaRefId(raw)
    }

    /// Mints a fresh identifier of version 7 for the current time.
    pub fn new_v7() -> (id: Self)
        ensures
            is_version_7(id.0),
    {
        MediaRefId(mint_v7())
    }

    /// Reads an identifier from its text. A text that is no identifier gives
    /// `InvalidId`.
    pub fn parse(raw: &str) -> (result: StorageResult<Self>)
        ensures
            match result {
                Ok(id) => Self::parsed(raw@) == Some(id),
                Err(error) => Self::parsed(raw@) is None && error@ == (Fault::InvalidId {
                    stage: "parse-storage-id"@,
                    id_type: "media-ref-id"@,
                    raw: raw@,
                }),
            },
    {
        let result = parse_value(raw, "media-ref-id");
        match result {
            Ok(value) => Ok(MediaRefId(value)),
            Err(error) => Err(error),
        }
    }

    /// The 128-bit value.
    pub fn as_u128(&self) -> (value: u128)
        ensures
            value == self.0,
    {
        self.0
    }

    /// The canonical text of this identifier. Parsing it gives the
    /// identifier back.
    pub fn to_text(&self) -> (text: String)
        ensures
            text@ == self.text(),
            Self::parsed(text@) == Some(*self),
    {
        uuid_to_text(self.0)
    }
}

/// Identifier of a agent event.
#[derive(Debug, Clone, Copy, PartialEq, Eq, Structural, Hash, PartialOrd, Ord)]
pub struct AgentEventId(pub u128);

impl AgentEventId {
    /// The canonical text of this identifier.
    pub open spec fn text(self) -> Seq<char> {
        hyphenated(self.0)
    }

    /// The identifier that `raw` stands for, if it stands for one.
    pub open spec fn parsed(raw: Seq<char>) -> Option<AgentEventId> {
        match uuid_parsed(raw) {
            Some(value) => Some(AgentEventId(value)),
            None => None,
        }
    }

    /// Wraps a 128-bit value.
    pub fn new(raw: u128) -> (id: Self)
        ensures
            id == AgentEventId(raw),
    {
        AgentEventId(raw)
    }

    /// Mints a fresh identifier of version 7 for the current time.
    pub fn new_v7() -> (id: Self)
        ensures
            is_version_7(id.0),
    {
        AgentEventId(mint_v7())
    }

    /// Reads an identifier from its text. A text that is no identifier gives
    /// `InvalidId`.
    pub fn parse(raw: &str) -> (result: StorageResult<Self>)
        ensures
            match result {
                Ok(id) => Self::parsed(raw@) == Some(id),
                Err(error) => Self::parsed(raw@) is None && error@ == (Fault::InvalidId {
                    stage: "parse-storage-id"@,
                    id_type: "agent-event-id"@,
                    raw: raw@,
                }),
            },
    {
        let result = parse_value(raw, "agent-event-id");
        match result {
            Ok(value) => Ok(AgentEventId(value)),
            Err(error) => Err(error),
        }
    }

    /// The 128-bit value.
    pub fn as_u128(&self) -> (value: u128)
        ensures
            value == self.0,
    {
        self.0
    }

    /// The canonical text of this identifier. Parsing it gives the
    /// identifier back.
    pub fn to_text(&self) -> (text: String)
        ensures
            text@ == self.text(),
            Self::parsed(text@) == Some(*self),
    {
        uuid_to_text(self.0)
    }
}


impl core::str::FromStr for SessionId {
    type Err = StorageError;

    /// Reads an identifier from its text, as `parse` does.
    fn from_str(raw: &str) -> (result: StorageResult<Self>)
        ensures
            match result {
                Ok(id) => Self::parsed(raw@) == Some(id),
                Err(error) => Self::parsed(raw@) is None && error@ == (Fault::InvalidId {
                    stage: "parse-storage-id"@,
                    id_type: "session-id"@,
                    raw: raw@,
                }),
            },
    {
        SessionId::parse(raw)
    }
}

impl core::str::FromStr for MessageId {
    type Err = StorageError;

    /// Reads an identifier from its text, as `parse` does.
    fn from_str(raw: &str) -> (result: StorageResult<Self>)
        ensures
            match result {
                Ok(id) => Self::parsed(raw@) == Some(id),
                Err(error) => Self::parsed(raw@) is None && error@ == (Fault::InvalidId {
                    stage: "parse-storage-id"@,
                    id_type: "message-id"@,
                    raw: raw@,
                }),
            },
    {
        MessageId::parse(raw)
    }
}

impl core::str::FromStr for BranchId {
    type Err = StorageError;

    /// Reads an identifier from its text, as `parse` does.
    fn from_str(raw: &str) -> (result: StorageResult<Self>)
        ensures
            match result {
                Ok(id) => Self::parsed(raw@) == Some(id),
                Err(error) => Self::parsed(raw@) is None && error@ == (Fault::InvalidId {
                    stage: "parse-storage-id"@,
                    id_type: "branch-id"@,
                    raw: raw@,
                }),
            },
    {
        BranchId::parse(raw)
    }
}

impl core::str::FromStr for MediaRefId {
    type Err = StorageError;

    /// Reads an identifier from its text, as `parse` does.
    fn from_str(raw: &str) -> (result: StorageResult<Self>)
        ensures
            match result {
                Ok(id) => Self::parsed(raw@) == Some(id),
                Err(error) => Self::parsed(raw@) is None && error@ == (Fault::InvalidId {
                    stage: "parse-storage-id"@,
                    id_type: "media-ref-id"@,
                    raw: raw@,
                }),
            },
    {
        MediaRefId::parse(raw)
    }
}

impl core::str::FromStr for AgentEventId {
    type Err = StorageError;

    /// Reads an identifier from its text, as `parse` does.
    fn from_str(raw: &str) -> (result: StorageResult<Self>)
        ensures
            match result {
                Ok(id) => Self::parsed(raw@) == Some(id),
                Err(error) => Self::parsed(raw@) is None && error@ == (Fault::InvalidId {
                    stage: "parse-storage-id"@,
                    id_type: "agent-event-id"@,
                    raw: raw@,
                }),
            },
    {
        AgentEventId::parse(raw)
    }
}

} // verus!
