//! Event timestamps and durations.
//!
//! Timestamps are the second/microsecond pairs that kernel input events
//! carry; they come from a monotonic clock, so an event is never older than
//! the timestamps already recorded from the same streams.

use vstd::prelude::*;

verus! {

/// Upper bound on the seconds field of a well-formed timestamp, far beyond
/// any uptime a monotonic clock can reach, chosen so that durations in
/// microseconds fit comfortably in 64 bits.
pub const MAX_TV_SEC: i64 = 4_000_000_000_000;

/// A kernel event timestamp: seconds and microseconds.
#[derive(Clone, Copy, Debug, PartialEq, Eq, Structural)]
pub struct TimeVal {
    pub tv_sec: i64,
    pub tv_usec: i64,
}

impl TimeVal {
    /// The timestamp as a single count of microseconds.
    pub open spec fn spec_micros(self) -> int {
        self.tv_sec * 1_000_000 + self.tv_usec
    }

    /// A normalized timestamp from a bounded clock: microseconds below one
    /// second, nothing negative, seconds within `MAX_TV_SEC`.
    pub open spec fn spec_wf(self) -> bool {
        0 <= self.tv_sec <= MAX_TV_SEC && 0 <= self.tv_usec < 1_000_000
    }

    /// `self` is no earlier than `other`.
    pub open spec fn spec_ge(self, other: TimeVal) -> bool {
        self.spec_micros() >= other.spec_micros()
    }

    /// Time elapsed from `other` to `self`, exact in microseconds.
    ///
    /// `self` must be no earlier than `other`: elapsed time is asked only of
    /// a new event against timestamps recorded from earlier events.
    pub fn elapsed_since(&self, other: Self) -> (r: CustomDuration)
        requires
            self.spec_wf(),
            other.spec_wf(),
            self.spec_ge(other),
        ensures
            r.micros == self.spec_micros() - other.spec_micros(),
    {
        let micros_per_sec: i64 = 1_000_000;
        let (secs, usec): (i64, i64) = if self.tv_usec >= other.tv_usec {
            (self.tv_sec - other.tv_sec, self.tv_usec - other.tv_usec)
        } else {
            (self.tv_sec - other.tv_sec - 1, self.tv_usec - other.tv_usec + micros_per_sec)
        };
        CustomDuration { micros: (secs * micros_per_sec + usec) as u64 }
    }
}

/// Microseconds elapsed from `since` to `now`.
pub open spec fn spec_elapsed(now: TimeVal, since: TimeVal) -> int {
    now.spec_micros() - since.spec_micros()
}

/// A duration held as a count of microseconds.
#[derive(Clone, Copy, Debug, PartialEq, Eq, Structural)]
pub struct CustomDuration {
    pub micros: u64,
}

impl CustomDuration {
    pub fn from_millis(millis: u64) -> (r: Self)
        requires
            millis <= u64::MAX / 1000,
        ensures
            r.micros == millis * 1000,
    {
        Self { micros: millis * 1000 }
    }
}

} // verus!
