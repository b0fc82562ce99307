//! The monotonic clock that the playback position runs on.
use std::time::{Duration, Instant};

use vstd::prelude::*;

verus! {

#[verifier::external_type_specification]
#[verifier::external_body]
pub struct ExInstant(Instant);

/// Reads the clock (`Instant::now`). Nothing is stated of the result: it is
/// whatever time it is.
#[verifier::external_body]
pub fn now() -> Instant {
    Instant::now()
}

/// The time that passed since `at` (`Instant::elapsed`). Nothing is stated of
/// the result: it depends on when the call is made.
#[verifier::external_body]
pub fn elapsed(at: &Instant) -> Duration {
    at.elapsed()
}

/// Whole milliseconds in `duration` (`Duration::as_millis`). Nothing is
/// stated of the result: the library keeps `Duration` opaque.
#[verifier::external_body]
pub fn whole_millis(duration: &Duration) -> u128 {
    duration.as_millis()
}

/// Milliseconds that passed since `at`.
pub fn millis_since(at: &Instant) -> u128 {
    let passed = elapsed(at);
    whole_millis(&passed)
}

} // verus!
