//! The wall clock, in whole seconds since the Unix epoch.

use vstd::prelude::*;

verus! {

/// Calls `chrono::Utc::now` and takes the `timestamp` of what it returns:
/// the seconds between the Unix epoch and the moment of the call. Nothing is
/// claimed of the number, two calls may give any two values. chrono stops
/// the program instead of answering when the system clock is set before the
/// epoch.
#[verifier::external_body]
fn utc_timestamp() -> (seconds: i64) {
    chrono::Utc::now().timestamp()
}

/// The current time in seconds since the Unix epoch. A clock before the
/// epoch reads as zero.
pub fn unix_now() -> (now: u64)
    ensures
        now <= i64::MAX,
{
    seconds_since_epoch(utc_timestamp())
}

/// A timestamp as seconds since the Unix epoch: itself from the epoch on,
/// zero before it.
pub open spec fn clamped_at_epoch(timestamp: i64) -> u64 {
    if timestamp < 0 {
        0
    } else {
        timestamp as u64
    }
}

/// Turns what the clock gave into seconds since the Unix epoch. A moment
/// before the epoch counts as the epoch.
pub fn seconds_since_epoch(timestamp: i64) -> (seconds: u64)
    ensures
        seconds == clamped_at_epoch(timestamp),
        timestamp >= 0 ==> seconds == timestamp,
        timestamp < 0 ==> seconds == 0,
{
    if timestamp < 0 {
        0
    } else {
        timestamp as u64
    }
}

} // verus!
