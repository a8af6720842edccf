//! Timeouts: kept as milliseconds, handed out as durations.

use std::time::Duration;
use vstd::prelude::*;

verus! {

/// The length of a duration in nanoseconds, as `Duration::as_nanos` gives it.
pub uninterp spec fn duration_nanos(duration: Duration) -> nat;

/// Assumed of `Duration::from_millis`, on the word of its documentation and
/// without proof: the duration that it makes lasts the given number of
/// milliseconds, a million nanoseconds each.
pub assume_specification[ Duration::from_millis ](millis: u64) -> (duration: Duration)
    ensures
        duration_nanos(duration) == millis as nat * 1_000_000,
;

/// Whether `timeout` is the slot `millis`, a number of milliseconds, as a
/// duration: absent where the slot is absent, and of that length where it is
/// present.
pub open spec fn is_timeout(timeout: Option<Duration>, millis: Option<u64>) -> bool {
    match millis {
        Some(millis) => timeout matches Some(duration) && duration_nanos(duration) == millis as nat
            * 1_000_000,
        None => timeout is None,
    }
}

/// A slot of milliseconds as a duration.
pub fn timeout_of(millis: Option<u64>) -> (timeout: Option<Duration>)
    ensures
        is_timeout(timeout, millis),
{
    match millis {
        Some(millis) => Some(Duration::from_millis(millis)),
        None => None,
    }
}

} // verus!
