//! Access to the monotonic clock.
//!
//! Readings of the clock depend on when they are taken, so nothing is
//! promised of their values; the logic that uses them takes the reading as
//! an argument.

use vstd::prelude::*;
use std::time::Instant;

verus! {

/// `std::time::Instant` is held opaquely: only the clock reads it.
#[verifier::external_type_specification]
#[verifier::external_body]
pub struct ExInstant(Instant);

/// Calls `Instant::now`. The reading depends on the time of the call, so
/// the contract states nothing of it.
#[verifier::external_body]
pub fn instant_now() -> Instant {
    Instant::now()
}

/// Calls `Instant::elapsed` and converts the duration to whole
/// milliseconds (`Duration::as_millis`). The value depends on the time of
/// the call, so the contract states nothing of it.
#[verifier::external_body]
pub fn elapsed_millis(start: &Instant) -> u128 {
    start.elapsed().as_millis()
}

} // verus!
