//! The monotonic clock that frame seeds are taken from.

use std::time::Duration;
use std::time::Instant;
use vstd::prelude::*;

verus! {

/// `std::time::Instant`, carried as an opaque value.
#[verifier::external_type_specification]
#[verifier::external_body]
pub struct ExInstant(std::time::Instant);

/// `Instant::now` reads the monotonic clock; nothing is known of the reading.
pub assume_specification[ Instant::now ]() -> (now: Instant);

/// `Instant::elapsed` gives the time since the instant was taken; it depends
/// on the moment of the call, so nothing is stated of it.
pub assume_specification[ Instant::elapsed ](start: &Instant) -> (elapsed: Duration);

/// `Duration::as_nanos` gives the whole duration in nanoseconds.
pub assume_specification[ Duration::as_nanos ](duration: &Duration) -> (nanos: u128);

/// Measures the time since a renderer was started.
#[derive(Clone, Copy, Debug)]
pub struct FrameClock {
    start: Instant,
}

impl FrameClock {
    /// Starts a clock at the present moment.
    pub fn start() -> (clock: FrameClock) {
        FrameClock { start: Instant::now() }
    }

    /// Nanoseconds since the clock was started. Two readings of one clock may
    /// differ, so callers learn nothing of the value.
    pub fn elapsed_nanos(&self) -> (nanos: u128) {
        let elapsed: Duration = self.start.elapsed();
        elapsed.as_nanos()
    }
}

} // verus!
