//! The monotonic clock, as far as the engine needs it: a reading is taken
//! when a run or a step starts, and the time since then is read when it ends.
//! Nothing is promised of any reading.

use std::time::Duration;
use std::time::Instant;
use vstd::prelude::*;

verus! {

/// `std::time::Instant`, as an opaque type: a reading of the clock.
#[verifier::external_type_specification]
#[verifier::external_body]
pub struct ExInstant(std::time::Instant);

/// `Instant::now` reads the clock. The reading depends on the moment of the
/// call, so no property of it is stated.
pub assume_specification[ Instant::now ]() -> (now: Instant);

/// `Instant::elapsed` gives the time that has passed since the reading was
/// taken. It depends on the moment of the call, so nothing is stated of it.
pub assume_specification[ Instant::elapsed ](start: &Instant) -> (elapsed: Duration);

/// `Duration::as_nanos` gives the whole duration in nanoseconds. The contract
/// leaves the number unstated: the engine records it and never computes on it.
pub assume_specification[ Duration::as_nanos ](duration: &Duration) -> (nanos: u128);

/// The nanoseconds that have passed since `start` was read.
pub fn nanos_since(start: &Instant) -> (nanos: u128) {
    let elapsed = start.elapsed();
    elapsed.as_nanos()
}

} // verus!
