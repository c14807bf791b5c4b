//! Moments on a monotonic clock.

use vstd::prelude::*;

verus! {

/// A moment, in nanoseconds since some fixed origin of the clock.
#[derive(Clone, Copy, Debug, PartialEq, Eq, Structural)]
pub struct Instant {
    pub nanos: u64,
}

/// Nanoseconds in a millisecond.
pub const NANOS_PER_MILLI: u64 = 1_000_000;

/// The nanoseconds in some milliseconds.
pub open spec fn millis(ms: int) -> int {
    ms * NANOS_PER_MILLI
}

impl Instant {
    /// The nanoseconds from `earlier` to this moment; none where it lies ahead.
    pub open spec fn since(self, earlier: Instant) -> int {
        if self.nanos >= earlier.nanos {
            self.nanos - earlier.nanos
        } else {
            0
        }
    }

    /// The moment some nanoseconds later, or the last one that the clock has.
    pub open spec fn later(self, nanos: int) -> Instant {
        if self.nanos + nanos <= u64::MAX {
            Instant { nanos: (self.nanos + nanos) as u64 }
        } else {
            Instant { nanos: u64::MAX }
        }
    }

    /// The nanoseconds from `earlier` to this moment; none where it lies ahead.
    pub fn duration_since(&self, earlier: Instant) -> (nanos: u64)
        ensures
            nanos == self.since(earlier),
    {
        self.nanos.saturating_sub(earlier.nanos)
    }

    /// The moment some milliseconds later, or the last one that the clock has.
    pub fn plus_millis(&self, ms: u64) -> (later: Instant)
        ensures
            later == self.later(millis(ms as int)),
    {
        if ms > u64::MAX / NANOS_PER_MILLI {
            Instant { nanos: u64::MAX }
        } else {
            Instant { nanos: self.nanos.saturating_add(ms * NANOS_PER_MILLI) }
        }
    }

    /// Whether more than some milliseconds have passed since `earlier`.
    pub fn is_more_than_millis_after(&self, earlier: Instant, ms: u64) -> (passed: bool)
        ensures
            passed == (self.since(earlier) > millis(ms as int)),
    {
        if ms > u64::MAX / NANOS_PER_MILLI {
            false
        } else {
            self.duration_since(earlier) > ms * NANOS_PER_MILLI
        }
    }

    /// Whether some milliseconds or more have passed since `earlier`.
    pub fn is_millis_after(&self, earlier: Instant, ms: u64) -> (passed: bool)
        ensures
            passed == (self.since(earlier) >= millis(ms as int)),
    {
        if ms > u64::MAX / NANOS_PER_MILLI {
            false
        } else {
            self.duration_since(earlier) >= ms * NANOS_PER_MILLI
        }
    }
}

/// What comes later by some time is later by exactly that, as long as the clock
/// reaches so far, and then at its last moment; time does not run backwards.
pub proof fn law_time_adds_up(now: Instant, ms: int)
    requires
        ms >= 0,
    ensures
        now.nanos + ms * 1_000_000 <= u64::MAX ==> now.later(millis(ms)).since(now) == ms
            * 1_000_000,
        now.nanos + ms * 1_000_000 > u64::MAX ==> now.later(millis(ms)).nanos == u64::MAX,
        now.since(now.later(millis(ms))) == 0,
        now.later(millis(ms)).nanos >= now.nanos,
{
}

} // verus!
