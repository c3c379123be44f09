//! Durations and instants from `std::time`, seen through their length in nanoseconds.

use std::time::{Duration, Instant};
use vstd::prelude::*;

verus! {

/// The longest `Duration`: `u64::MAX` seconds and 999,999,999 nanoseconds.
pub open spec fn max_duration_nanos() -> nat {
    18_446_744_073_709_551_615 * 1_000_000_000 + 999_999_999
}

/// What `Duration::as_nanos` returns for `d`: its whole length in nanoseconds.
pub uninterp spec fn nanos_of(d: Duration) -> u128;

/// `std::time::Instant`, a point in time, carried through as an opaque value.
#[verifier::external_type_specification]
#[verifier::external_body]
pub struct ExInstant(Instant);

/// `Duration` is `Copy`: its `clone` returns the same duration.
pub assume_specification[ <Duration as Clone>::clone ](d: &Duration) -> (r: Duration)
    ensures
        r == *d,
;

/// `Instant` is `Copy`: its `clone` returns the same instant.
pub assume_specification[ <Instant as Clone>::clone ](t: &Instant) -> (r: Instant)
    ensures
        r == *t,
;

/// `Duration::as_nanos`: the total number of nanoseconds in `d`, which never exceeds
/// the length of `Duration::MAX`.
#[verifier::external_body]
pub fn as_nanos(d: Duration) -> (r: u128)
    ensures
        r == nanos_of(d),
        r <= max_duration_nanos(),
{
    d.as_nanos()
}

/// `Duration::from_secs`: a duration of `secs` whole seconds.
#[verifier::external_body]
pub fn from_secs(secs: u64) -> (r: Duration)
    ensures
        nanos_of(r) == secs * 1_000_000_000,
{
    Duration::from_secs(secs)
}

/// `Duration::from_millis`: a duration of `millis` milliseconds.
#[verifier::external_body]
pub fn from_millis(millis: u64) -> (r: Duration)
    ensures
        nanos_of(r) == millis * 1_000_000,
{
    Duration::from_millis(millis)
}

/// `Duration * u32` (`Mul<u32>`): `d` repeated `k` times. std panics when the product
/// does not fit in a `Duration`; the precondition leaves those inputs out.
#[verifier::external_body]
pub fn times(d: Duration, k: u32) -> (r: Duration)
    requires
        nanos_of(d) * k <= max_duration_nanos(),
    ensures
        nanos_of(r) == nanos_of(d) * k,
{
    d * k
}

/// `Instant::now`: the current time. It depends on the clock, so nothing is promised of
/// the value.
#[verifier::external_body]
pub fn now() -> (r: Instant) {
    Instant::now()
}

/// `Instant::elapsed`: the time passed since `t`. It depends on the clock, so nothing
/// is promised of the value.
#[verifier::external_body]
pub fn elapsed(t: &Instant) -> (r: Duration) {
    t.elapsed()
}

} // verus!
