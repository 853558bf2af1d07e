//! Time spans and timestamps in whole nanoseconds.

use vstd::prelude::*;

verus! {

/// A span of time in nanoseconds.
#[derive(Clone, Copy, Debug, PartialEq, Eq, Hash, PartialOrd, Ord, Structural)]
pub struct Duration {
    /// Length in nanoseconds.
    pub nanos: u64,
}

/// Nanoseconds in one second.
pub const NANOS_PER_SEC: u64 = 1_000_000_000;

/// Nanoseconds in one millisecond.
pub const NANOS_PER_MILLI: u64 = 1_000_000;

impl Duration {
    /// The empty span.
    pub fn zero() -> (r: Duration)
        ensures
            r.nanos == 0,
    {
        Duration { nanos: 0 }
    }

    /// A span of `secs` seconds.
    pub fn from_secs(secs: u64) -> (r: Duration)
        requires
            secs * NANOS_PER_SEC <= u64::MAX,
        ensures
            r.nanos == secs * NANOS_PER_SEC,
    {
        Duration { nanos: secs * NANOS_PER_SEC }
    }

    /// A span of `millis` milliseconds.
    pub fn from_millis(millis: u64) -> (r: Duration)
        requires
            millis * NANOS_PER_MILLI <= u64::MAX,
        ensures
            r.nanos == millis * NANOS_PER_MILLI,
    {
        Duration { nanos: millis * NANOS_PER_MILLI }
    }

    /// A span of `nanos` nanoseconds.
    pub fn from_nanos(nanos: u64) -> (r: Duration)
        ensures
            r.nanos == nanos,
    {
        Duration { nanos }
    }

    /// The length in nanoseconds.
    pub fn as_nanos(&self) -> (r: u64)
        ensures
            r == self.nanos,
    {
        self.nanos
    }

    /// The length in whole milliseconds (rounded down).
    pub fn as_millis(&self) -> (r: u64)
        ensures
            r == self.nanos / NANOS_PER_MILLI,
    {
        self.nanos / NANOS_PER_MILLI
    }

    /// The length in whole seconds (rounded down).
    pub fn as_secs(&self) -> (r: u64)
        ensures
            r == self.nanos / NANOS_PER_SEC,
    {
        self.nanos / NANOS_PER_SEC
    }

    /// True for the empty span.
    pub fn is_zero(&self) -> (r: bool)
        ensures
            r == (self.nanos == 0),
    {
        self.nanos == 0
    }
}

/// A point in time: nanoseconds since a [`MonotonicClock`] started.
#[derive(Clone, Copy, Debug, PartialEq, Eq, Hash, PartialOrd, Ord, Structural)]
pub struct Instant {
    /// Nanoseconds since the clock started.
    pub nanos: u64,
}

impl Instant {
    /// The instant `nanos` nanoseconds after the clock started.
    pub fn from_nanos(nanos: u64) -> (r: Instant)
        ensures
            r.nanos == nanos,
    {
        Instant { nanos }
    }

    /// The span from `earlier` to `self`, or zero when `earlier` is later.
    pub fn duration_since(&self, earlier: Instant) -> (r: Duration)
        ensures
            r.nanos == if self.nanos >= earlier.nanos {
                self.nanos - earlier.nanos
            } else {
                0
            },
    {
        if self.nanos >= earlier.nanos {
            Duration { nanos: self.nanos - earlier.nanos }
        } else {
            Duration { nanos: 0 }
        }
    }
}

/// The monotonic clock of the platform (`std::time::Instant`), as an opaque
/// value: a clock's starting point.
#[verifier::external_type_specification]
#[verifier::external_body]
pub struct StdInstant(std::time::Instant);

/// Reads the platform's monotonic clock (`std::time::Instant::now`). Nothing
/// is claimed of the value: it is where a [`MonotonicClock`] starts.
#[verifier::external_body]
fn monotonic_origin() -> std::time::Instant {
    std::time::Instant::now()
}

/// A monotonic clock: readings are the nanoseconds elapsed since the
/// clock was started, and no reading is earlier than the one before it.
/// Copies of a clock share its start, so their readings are comparable.
#[derive(Clone, Copy, Debug)]
pub struct MonotonicClock {
    origin: std::time::Instant,
    last: u64,
}

impl MonotonicClock {
    /// The latest reading taken through this clock (0 before the first).
    pub closed spec fn last_reading(&self) -> u64 {
        self.last
    }

    /// Whether `other` is this clock, started at the same instant.
    pub closed spec fn same_clock(&self, other: MonotonicClock) -> bool {
        self.origin == other.origin
    }

    /// A clock started now.
    pub fn start() -> (r: MonotonicClock)
        ensures
            r.last_reading() == 0,
    {
        MonotonicClock { origin: monotonic_origin(), last: 0 }
    }

    /// The nanoseconds elapsed since the clock started
    /// (`std::time::Instant::elapsed`), saturated to the range of `u64`.
    /// `std::time::Instant` is documented as never going back, and `last`
    /// only ever holds an earlier reading of the same start (or 0), so the
    /// reading is at least `last`.
    #[verifier::external_body]
    fn read(&self) -> (r: u64)
        ensures
            r >= self.last_reading(),
    {
        u64::try_from(self.origin.elapsed().as_nanos()).unwrap_or(u64::MAX)
    }

    /// The current instant: never earlier than the previous reading.
    pub fn now(&mut self) -> (r: Instant)
        ensures
            r.nanos >= old(self).last_reading(),
            final(self).last_reading() == r.nanos,
            final(self).same_clock(*old(self)),
    {
        let nanos = self.read();
        self.last = nanos;
        Instant { nanos }
    }
}

/// Instants read in order from a monotonic clock are in order, and the
/// time elapsed since any earlier instant never shrinks between them:
/// an age or uptime read later is at least one read earlier.
pub proof fn lemma_elapsed_never_decreases(earlier: Instant, u1: Instant, u2: Instant)
    requires
        u1.nanos <= u2.nanos,
    ensures
        (if u1.nanos >= earlier.nanos { u1.nanos - earlier.nanos } else { 0 }) <= (if u2.nanos
            >= earlier.nanos {
            u2.nanos - earlier.nanos
        } else {
            0
        }),
{
}

} // verus!
