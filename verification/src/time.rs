//! Trusted specifications of the parts of `std::time` that the library reads.
//!
//! A `Duration` is opaque to the verifier; its value is described by the number of
//! whole seconds and the sub-second nanoseconds that `as_secs` and `subsec_nanos`
//! report, and everything else about it is stated in terms of the total number of
//! nanoseconds those two give.
use std::time::{Duration, Instant};

use vstd::prelude::*;

verus! {

#[verifier::external_type_specification]
#[verifier::external_body]
pub struct ExInstant(Instant);

/// What `Duration::as_secs` returns for a duration: its whole seconds.
pub uninterp spec fn duration_secs(d: Duration) -> u64;

/// What `Duration::subsec_nanos` returns for a duration: its nanoseconds beyond the
/// whole seconds.
pub uninterp spec fn duration_subsec_nanos(d: Duration) -> u32;

/// What `Instant::duration_since` returns for two instants.
pub uninterp spec fn instant_elapsed(later: Instant, earlier: Instant) -> Duration;

/// The number of nanoseconds in one second.
pub const NANOS_PER_SEC: u64 = 1_000_000_000;

/// The length of a duration in nanoseconds.
pub open spec fn duration_nanos(d: Duration) -> int {
    duration_secs(d) * NANOS_PER_SEC + duration_subsec_nanos(d)
}

/// `Duration::as_secs`: the whole seconds of the duration.
#[verifier::external_body]
pub(crate) fn duration_as_secs(d: &Duration) -> (secs: u64)
    ensures
        secs == duration_secs(*d),
{
    d.as_secs()
}

/// `Duration::subsec_nanos`: the nanoseconds beyond the whole seconds, which std
/// documents to be less than one billion.
#[verifier::external_body]
pub(crate) fn duration_subsec(d: &Duration) -> (nanos: u32)
    ensures
        nanos == duration_subsec_nanos(*d),
        nanos < NANOS_PER_SEC,
{
    d.subsec_nanos()
}

/// `Duration::abs_diff`: the absolute difference of two durations.
#[verifier::external_body]
pub(crate) fn duration_abs_diff(a: Duration, b: Duration) -> (diff: Duration)
    ensures
        duration_nanos(diff) == if duration_nanos(a) >= duration_nanos(b) {
            duration_nanos(a) - duration_nanos(b)
        } else {
            duration_nanos(b) - duration_nanos(a)
        },
{
    a.abs_diff(b)
}

/// `<` on durations (`PartialOrd::lt`), which orders durations by their length.
#[verifier::external_body]
pub(crate) fn duration_lt(a: &Duration, b: &Duration) -> (less: bool)
    ensures
        less == (duration_nanos(*a) < duration_nanos(*b)),
{
    *a < *b
}

/// `Duration::ZERO`, the empty duration.
#[verifier::external_body]
pub(crate) fn duration_zero() -> (zero: Duration)
    ensures
        duration_secs(zero) == 0,
        duration_subsec_nanos(zero) == 0,
{
    Duration::ZERO
}

/// `Instant::now`: the current reading of the monotonic clock. Nothing is stated of
/// the value, which depends on when the call is made.
#[verifier::external_body]
pub(crate) fn instant_now() -> (now: Instant) {
    Instant::now()
}

/// `Instant::duration_since`: the time elapsed from `earlier` to `later`, which std
/// documents as zero when `earlier` is the later instant. The result is tied to the
/// two instants by name only: the verifier sees nothing inside an `Instant`.
#[verifier::external_body]
pub(crate) fn instant_duration_since(later: &Instant, earlier: &Instant) -> (elapsed: Duration)
    ensures
        elapsed == instant_elapsed(*later, *earlier),
{
    later.duration_since(*earlier)
}

} // verus!
