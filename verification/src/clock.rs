//! The clock: time as nanoseconds since the clock was started.
use std::time::Instant;
use vstd::prelude::*;

verus! {

/// `std::time::Instant`: a reading of the monotonic clock. Nothing is known
/// of what it holds.
#[verifier::external_type_specification]
#[verifier::external_body]
pub struct ExInstant(Instant);

/// `Instant::now` reads the monotonic clock. Nothing is claimed of the
/// reading.
pub assume_specification[ Instant::now ]() -> Instant;

/// `Instant::elapsed` gives the time since an earlier reading, here as a
/// number of nanoseconds. Nothing is claimed of how much time has passed.
#[verifier::external_body]
fn elapsed_nanos(since: &Instant) -> (r: u128) {
    since.elapsed().as_nanos()
}

/// A running clock.
#[derive(Debug)]
pub struct Clock {
    start: Instant,
}

impl Clock {
    /// Starts a clock.
    pub(crate) fn new() -> (r: Self) {
        Clock { start: Instant::now() }
    }

    /// The time since the clock was started, in nanoseconds.
    pub(crate) fn now(&self) -> (r: u128) {
        elapsed_nanos(&self.start)
    }
}

} // verus!
