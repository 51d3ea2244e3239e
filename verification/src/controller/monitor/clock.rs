//! The monotonic clock that timestamps the monitor's observations.
use std::time::{Duration, Instant};
use vstd::prelude::*;

verus! {

#[verifier::external_type_specification]
#[verifier::external_body]
pub struct ExInstant(Instant);

/// Calls `Instant::now`, the current instant of the monotonic clock; nothing is stated of it.
#[verifier::external_body]
fn instant_now() -> Instant {
    Instant::now()
}

/// Calls `Instant::elapsed`, the time passed since `origin`; nothing is stated of it,
/// as it depends on when it is called.
#[verifier::external_body]
fn elapsed_since(origin: &Instant) -> Duration {
    origin.elapsed()
}

/// Calls `Duration::as_nanos`, the nanoseconds of `duration`, kept to 64 bits.
/// `Duration` is opaque here, so nothing is stated of the result.
#[verifier::external_body]
fn whole_nanos(duration: Duration) -> u64 {
    duration.as_nanos() as u64
}

/// Nanoseconds on a monotonic clock, counted from the moment the clock was started.
#[derive(Clone, Copy, Debug)]
pub struct MonotonicClock {
    origin: Instant,
}

impl MonotonicClock {
    pub fn start() -> Self {
        MonotonicClock { origin: instant_now() }
    }

    /// The nanoseconds since the clock was started, as precise as the clock's instants.
    pub fn now_nanos(&self) -> u64 {
        whole_nanos(elapsed_since(&self.origin))
    }
}

} // verus!
