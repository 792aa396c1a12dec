//! The order in which conversations are listed.

use vstd::prelude::*;
use core::cmp::Ordering;
use crate::database::conversation::ConversationRecord;
use crate::storage::legacy::more_recent;

verus! {

/// Orders conversations newest first, and conversations of the same time by
/// id descending: `Less` where `left` comes first.
pub fn sort_by_recent_desc(left: &ConversationRecord, right: &ConversationRecord) -> (order:
    Ordering)
    ensures
        order == Ordering::Less <==> more_recent(left@, right@),
        order == Ordering::Greater <==> more_recent(right@, left@),
{
    if left.updated_at_unix_seconds > right.updated_at_unix_seconds {
        Ordering::Less
    } else if left.updated_at_unix_seconds < right.updated_at_unix_seconds {
        Ordering::Greater
    } else if left.id.0 > right.id.0 {
        Ordering::Less
    } else if left.id.0 < right.id.0 {
        Ordering::Greater
    } else {
        Ordering::Equal
    }
}

} // verus!
