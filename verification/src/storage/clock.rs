//! The wall clock, in whole seconds.

use vstd::prelude::*;
use core::time::Duration;

verus! {

/// `SystemTime::elapsed` of `UNIX_EPOCH`: the time since the epoch, or
/// `None` where the clock stands before it. Nothing is claimed of the time.
#[verifier::external_body]
fn epoch_elapsed() -> (elapsed: Option<Duration>) {
    std::time::UNIX_EPOCH.elapsed().ok()
}

/// `Duration::as_secs`: the whole seconds of a duration.
#[verifier::external_body]
fn whole_seconds(elapsed: &Duration) -> (seconds: u64) {
    elapsed.as_secs()
}

/// `Duration::subsec_nanos`: the part of a duration below one second, in
/// nanoseconds.
#[verifier::external_body]
fn subsec_nanos(elapsed: &Duration) -> (nanos: u32)
    ensures
        nanos < 1_000_000_000,
{
    elapsed.subsec_nanos()
}

/// The seconds since the epoch, or 0 where the clock stands before it.
pub(crate) fn unix_timestamp_seconds() -> i64 {
    match epoch_elapsed() {
        Some(elapsed) => timestamp_of(Some(whole_seconds(&elapsed))),
        None => timestamp_of(None),
    }
}

/// The time since the epoch as whole seconds and the nanoseconds beyond
/// them, or `None` where the clock stands before the epoch.
pub(crate) fn clock_reading() -> (reading: Option<(u64, u32)>)
    ensures
        reading matches Some(time) ==> time.1 < 1_000_000_000,
{
    match epoch_elapsed() {
        Some(elapsed) => Some((whole_seconds(&elapsed), subsec_nanos(&elapsed))),
        None => None,
    }
}

/// The time stamp of a reading of the clock: its whole seconds as a stored
/// integer, cut to 64 bits, or 0 for a clock that stands before the epoch.
pub fn timestamp_of(elapsed_seconds: Option<u64>) -> (timestamp: i64)
    ensures
        timestamp == (match elapsed_seconds {
            Some(seconds) => seconds as i64,
            None => 0,
        }),
{
    match elapsed_seconds {
        Some(seconds) => {
            #[verifier::truncate]
            (seconds as i64)
        },
        None => 0,
    }
}

} // verus!
