//! The wall clock of a phase.

use std::time::{Duration, Instant};
use vstd::prelude::*;

verus! {

/// `std::time::Instant`: a reading of the monotonic clock. Nothing of what
/// it holds is visible here.
#[verifier::external_type_specification]
#[verifier::external_body]
pub struct ExInstant(Instant);

/// A clock started at some moment, read in whole seconds since then.
pub struct Stopwatch {
    started: Instant,
}

impl Stopwatch {
    /// Starts a stopwatch now.
    pub fn start() -> Stopwatch {
        Stopwatch { started: now() }
    }

    /// The whole seconds that have passed since the start. The reading
    /// depends on the moment of the call, so nothing is promised of it.
    pub fn elapsed_secs(&self) -> u64 {
        let elapsed = elapsed_since(&self.started);
        whole_seconds(&elapsed)
    }
}

/// `Instant::now` of std: the present reading of the monotonic clock.
/// Nothing is claimed of it.
#[verifier::external_body]
fn now() -> Instant {
    Instant::now()
}

/// `Instant::elapsed` of std: the time since `start` was read. Nothing is
/// claimed of it.
#[verifier::external_body]
fn elapsed_since(start: &Instant) -> Duration {
    start.elapsed()
}

/// `Duration::as_secs` of std: the whole seconds of `span`. A `Duration` is
/// opaque here, so nothing is claimed of the number.
#[verifier::external_body]
fn whole_seconds(span: &Duration) -> u64 {
    span.as_secs()
}

} // verus!
