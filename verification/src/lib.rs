//! Conversation storage: typed identifiers, entity records, and the decision
//! logic of the storage engine, together with the chat domain that it serves.

use vstd::prelude::*;

pub mod chat;
pub mod database;
pub mod llm;
pub mod storage;
pub mod text;

verus! {

/// Returns a stable marker used by integration smoke tests.
pub fn smoke_marker() -> (marker: &'static str)
    ensures
        marker@ == "zova"@,
{
    "zova"
}

} // verus!
