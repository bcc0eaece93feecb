//! What the library takes from `std::time`.
//!
//! A `Duration` is known by its length in nanoseconds. An `Instant` is known
//! by nothing: the clock is read behind the two functions that take one, and
//! no contract says what it shows.

use std::time::{Duration, Instant};
use vstd::prelude::*;

verus! {

/// Trusted: makes `std::time::Instant` known to the verifier as an opaque
/// type. Nothing is claimed of its values.
#[verifier::external_type_specification]
#[verifier::external_body]
pub struct ExInstant(Instant);

/// Trusted name: the length of a duration in whole nanoseconds, as
/// `Duration::as_nanos` returns it.
pub uninterp spec fn nanos_of(duration: Duration) -> nat;

/// Trusted: `Duration::from_nanos`, the duration of that many nanoseconds.
#[verifier::external_body]
pub(crate) fn duration_from_nanos(nanos: u64) -> (duration: Duration)
    ensures
        nanos_of(duration) == nanos,
{
    Duration::from_nanos(nanos)
}

/// Trusted: `Duration::from_millis`, the duration of that many milliseconds,
/// each of them a million nanoseconds.
#[verifier::external_body]
pub(crate) fn duration_from_millis(millis: u64) -> (duration: Duration)
    ensures
        nanos_of(duration) == millis * 1_000_000,
{
    Duration::from_millis(millis)
}

/// Trusted: `Duration::as_nanos`, the length in whole nanoseconds.
#[verifier::external_body]
pub(crate) fn duration_as_nanos(duration: &Duration) -> (nanos: u128)
    ensures
        nanos == nanos_of(*duration),
{
    duration.as_nanos()
}

/// Trusted: `Instant::now`, the reading of the monotonic clock. It is
/// different at every call, so nothing is claimed of it.
#[verifier::external_body]
pub(crate) fn instant_now() -> Instant {
    Instant::now()
}

/// Trusted: `Instant::elapsed`, the time since an instant. It depends on the
/// clock, so nothing is claimed of it.
#[verifier::external_body]
pub(crate) fn instant_elapsed(since: &Instant) -> Duration {
    since.elapsed()
}

} // verus!
