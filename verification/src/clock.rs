//! The clock: instants, elapsed time and spans of time. What the clock
//! gives depends on when it is asked, so nothing is claimed of those
//! results; a span made of a number of seconds depends on that number
//! alone.

use vstd::prelude::*;

use core::time::Duration;
use std::time::Instant;

verus! {

#[verifier::external_type_specification]
#[verifier::external_body]
pub struct ExInstant(std::time::Instant);

/// `Instant::now`: the current instant.
#[verifier::external_body]
pub fn instant_now() -> (r: Instant) {
    Instant::now()
}

/// `Instant::elapsed`: the time since `since`.
#[verifier::external_body]
pub fn elapsed_since(since: &Instant) -> (r: Duration) {
    since.elapsed()
}

/// `Instant < Instant`: whether `a` came before `b`.
#[verifier::external_body]
pub fn instant_before(a: &Instant, b: &Instant) -> (r: bool) {
    *a < *b
}

/// `Duration > Duration`: whether `a` is longer than `b`.
#[verifier::external_body]
pub fn duration_exceeds(a: Duration, b: Duration) -> (r: bool) {
    a > b
}

/// The span of time that `Duration::from_secs` makes of `secs` seconds.
pub uninterp spec fn seconds_span(secs: u64) -> Duration;

/// `Duration::from_secs`: a span of `secs` seconds. Claimed: the span is a
/// function of `secs` alone.
#[verifier::external_body]
pub fn duration_from_secs(secs: u64) -> (r: Duration)
    ensures
        r == seconds_span(secs),
{
    Duration::from_secs(secs)
}

} // verus!
