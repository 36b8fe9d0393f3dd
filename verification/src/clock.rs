//! Reading the monotonic clock.
//!
//! Nothing is known statically about what the clock returns: the functions
//! here only carry its readings to the code that decides on them.

use std::time::Duration;
use std::time::Instant;
use vstd::prelude::*;

verus! {

#[verifier::external_type_specification]
#[verifier::external_body]
pub struct ExInstant(std::time::Instant);

/// `Instant::now` reads the monotonic clock. Nothing is claimed of the reading.
pub assume_specification[ Instant::now ]() -> (now: Instant);

/// `Instant::elapsed` measures the time since the instant was taken. Nothing is
/// claimed of the measure.
pub assume_specification[ Instant::elapsed ](start: &Instant) -> (elapsed: Duration);

/// `Duration::as_millis` gives the whole milliseconds in a duration. Nothing is
/// claimed of the number.
pub assume_specification[ Duration::as_millis ](duration: &Duration) -> (millis: u128);

/// The whole milliseconds that have passed since `start`.
pub(crate) fn elapsed_millis(start: &Instant) -> (millis: u128) {
    let elapsed = start.elapsed();
    elapsed.as_millis()
}

} // verus!
