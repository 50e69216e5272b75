//! Polling intervals as `std::time::Duration` values.

use std::time::Duration;
use vstd::prelude::*;

verus! {

/// The duration of the given number of milliseconds.
pub uninterp spec fn millis(ms: u64) -> Duration;

/// `Duration`'s `clone`, which yields a duration equal to the one cloned.
pub assume_specification[ <Duration as Clone>::clone ](duration: &Duration) -> (copy: Duration)
    ensures
        copy == *duration,
;

/// Makes a duration with `Duration::from_millis`, which yields the duration
/// of exactly the given number of milliseconds.
#[verifier::external_body]
pub(crate) fn duration_from_millis(ms: u64) -> (duration: Duration)
    ensures
        duration == millis(ms),
{
    Duration::from_millis(ms)
}

/// Reads a duration with `Duration::as_millis`, which yields the whole
/// milliseconds that the duration holds: for a duration made of a number of
/// milliseconds, that number.
#[verifier::external_body]
pub(crate) fn duration_as_millis(duration: &Duration) -> (ms: u128)
    ensures
        forall|made_of: u64| *duration == #[trigger] millis(made_of) ==> ms == made_of,
{
    duration.as_millis()
}

} // verus!
