//! The night clock: monotonic elapsed time within a night, compared against
//! the economy's target sleep duration.

use vstd::prelude::*;

verus! {

/// Saturating 64-bit addition; the clock never wraps.
pub open spec fn spec_sat_add_u64(a: int, b: int) -> int {
    if a + b > u64::MAX {
        u64::MAX as int
    } else {
        a + b
    }
}

/// Elapsed night time in milliseconds; reset when a night starts.
#[derive(Clone, Copy, PartialEq, Eq, Structural, Debug)]
pub struct NightClock {
    pub elapsed_ms: u64,
}

impl NightClock {
    pub fn new() -> (r: NightClock)
        ensures
            r == (NightClock { elapsed_ms: 0u64 }),
    {
        NightClock { elapsed_ms: 0 }
    }

    /// Advance the clock by one tick's delta.
    pub fn tick(&mut self, delta_ms: u64)
        ensures
            final(self).elapsed_ms == spec_sat_add_u64(
                old(self).elapsed_ms as int,
                delta_ms as int,
            ),
            final(self).elapsed_ms >= old(self).elapsed_ms,
    {
        if self.elapsed_ms > u64::MAX - delta_ms {
            self.elapsed_ms = u64::MAX;
        } else {
            self.elapsed_ms = self.elapsed_ms + delta_ms;
        }
    }

    /// The expiry predicate: the night ends once the elapsed time passes the
    /// target sleep duration. A pure predicate, re-evaluated every tick; the
    /// phase transition consumes it.
    pub fn has_expired(&self, sleep_ms: u64) -> (r: bool)
        ensures
            r == (self.elapsed_ms > sleep_ms),
    {
        self.elapsed_ms > sleep_ms
    }

    /// Whole elapsed seconds, the amount credited as rest on expiry.
    pub fn elapsed_whole_secs(&self) -> (r: u64)
        ensures
            r == self.elapsed_ms as int / 1000,
    {
        self.elapsed_ms / 1000
    }
}

} // verus!
