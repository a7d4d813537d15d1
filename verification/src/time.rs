//! What the library relies on of `std::time::Duration` and
//! `std::time::Instant`.
use vstd::prelude::*;
use std::time::{Duration, Instant};

verus! {

/// Length of a `Duration` in nanoseconds.
pub uninterp spec fn duration_nanos(d: Duration) -> nat;

/// `Duration::from_secs`: a duration of `secs` seconds.
pub assume_specification[ Duration::from_secs ](secs: u64) -> (d: Duration)
    ensures
        duration_nanos(d) == secs as nat * 1_000_000_000,
;

/// `Duration::from_millis`: a duration of `millis` milliseconds.
pub assume_specification[ Duration::from_millis ](millis: u64) -> (d: Duration)
    ensures
        duration_nanos(d) == millis as nat * 1_000_000,
;

/// `Duration::as_millis`: the number of whole milliseconds in `d`.
pub assume_specification[ Duration::as_millis ](d: &Duration) -> (r: u128)
    ensures
        r as nat == duration_nanos(*d) / 1_000_000,
;

/// `Duration::clone`: `Duration` is `Copy`, its clone is the same value.
pub assume_specification[ <Duration as Clone>::clone ](d: &Duration) -> (r: Duration)
    ensures
        r == *d,
;

/// `std::time::Instant`, a point in time; nothing of its content is used.
#[verifier::external_type_specification]
#[verifier::external_body]
pub struct ExInstant(Instant);

/// `Instant::now`: the current time. It depends on the clock, so nothing is
/// stated of it.
pub assume_specification[ Instant::now ]() -> Instant;

/// `Instant::elapsed`: the time since the instant. It depends on the clock,
/// so nothing is stated of it.
pub assume_specification[ Instant::elapsed ](i: &Instant) -> Duration;

/// `Instant::clone`: `Instant` is `Copy`, its clone is the same value.
pub assume_specification[ <Instant as Clone>::clone ](i: &Instant) -> (r: Instant)
    ensures
        r == *i,
;

/// `Duration::partial_cmp` through `<`: whether `a` is shorter than `b`.
#[verifier::external_body]
pub(crate) fn duration_shorter(a: &Duration, b: &Duration) -> (r: bool)
    ensures
        r == (duration_nanos(*a) < duration_nanos(*b)),
{
    a < b
}

} // verus!
