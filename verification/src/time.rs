//! Points in time and spans between them, counted in nanoseconds.

use std::time::Instant;
use vstd::prelude::*;

verus! {

/// How many nanoseconds one millisecond has.
pub const NANOS_PER_MILLI: u64 = 1_000_000;

/// The largest number of whole milliseconds that a [`Duration`] or a
/// [`Timestamp`] can hold.
pub const MAX_MILLIS: u64 = 18_446_744_073_709;

/// A span of time.
#[derive(Clone, Copy, Debug, PartialEq, Eq, PartialOrd, Ord, Structural)]
pub struct Duration {
    pub nanos: u64,
}

impl Duration {
    /// The span that lasts `millis` milliseconds.
    pub fn from_millis(millis: u64) -> (r: Duration)
        requires
            millis <= MAX_MILLIS,
        ensures
            r.nanos == millis * NANOS_PER_MILLI,
    {
        Duration { nanos: millis * NANOS_PER_MILLI }
    }
}

/// A point in time: the nanoseconds that have passed since the clock that
/// took it was started.
#[derive(Clone, Copy, Debug, PartialEq, Eq, PartialOrd, Ord, Structural)]
pub struct Timestamp {
    pub nanos: u64,
}

/// The nanoseconds from `earlier` to `later`, or zero where `later` comes first.
pub open spec fn nanos_since(later: Timestamp, earlier: Timestamp) -> int {
    if later.nanos >= earlier.nanos {
        later.nanos - earlier.nanos
    } else {
        0
    }
}

/// Whole milliseconds as nanoseconds.
pub open spec fn millis(ms: int) -> int {
    ms * NANOS_PER_MILLI
}

impl Timestamp {
    /// The point `millis` milliseconds after the clock was started.
    pub fn from_millis(millis: u64) -> (r: Timestamp)
        requires
            millis <= MAX_MILLIS,
        ensures
            r.nanos == millis * NANOS_PER_MILLI,
    {
        Timestamp { nanos: millis * NANOS_PER_MILLI }
    }

    /// The span from `earlier` to this point. A point that lies before
    /// `earlier` is at distance zero from it.
    pub fn duration_since(&self, earlier: Timestamp) -> (r: Duration)
        ensures
            r.nanos == nanos_since(*self, earlier),
    {
        Duration { nanos: self.nanos.saturating_sub(earlier.nanos) }
    }
}

/// `std::time::Instant`, a reading of the system's monotonic clock.
#[verifier::external_type_specification]
#[verifier::external_body]
pub struct ExInstant(std::time::Instant);

/// Calls `std::time::Instant::now`. Nothing is claimed of what the clock reads.
#[verifier::external_body]
fn read_clock() -> Instant {
    Instant::now()
}

/// Calls `std::time::Instant::elapsed` and counts the nanoseconds. Nothing is
/// claimed of what the clock reads.
#[verifier::external_body]
fn nanos_elapsed(since: &Instant) -> u64 {
    since.elapsed().as_nanos() as u64
}

/// A running clock, whose readings are counted from the moment it was started.
pub struct Clock {
    origin: Instant,
}

impl Clock {
    /// Starts a clock.
    pub fn start() -> Clock {
        Clock { origin: read_clock() }
    }

    /// Reads the clock.
    pub fn now(&self) -> Timestamp {
        Timestamp { nanos: nanos_elapsed(&self.origin) }
    }
}

} // verus!
