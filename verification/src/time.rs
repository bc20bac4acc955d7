//! Instants and durations on the node's monotonic clock, in microseconds.

use vstd::prelude::*;

verus! {

/// A span of time, in microseconds.
#[derive(Debug, Clone, Copy, PartialEq, Eq, Structural)]
pub struct Duration {
    pub micros: u64,
}

/// A point on the node's monotonic clock, in microseconds since boot.
#[derive(Debug, Clone, Copy, PartialEq, Eq, Structural)]
pub struct Instant {
    pub micros: u64,
}

impl Duration {
    pub fn from_micros(micros: u64) -> (r: Duration)
        ensures
            r.micros == micros,
    {
        Duration { micros }
    }

    pub fn from_millis(millis: u64) -> (r: Duration)
        requires
            millis * 1000 <= u64::MAX,
        ensures
            r.micros == millis * 1000,
    {
        Duration { micros: millis * 1000 }
    }

    pub fn from_secs(secs: u64) -> (r: Duration)
        requires
            secs * 1_000_000 <= u64::MAX,
        ensures
            r.micros == secs * 1_000_000,
    {
        Duration { micros: secs * 1_000_000 }
    }

    pub fn as_millis(self) -> (r: u64)
        ensures
            r == self.micros / 1000,
    {
        self.micros / 1000
    }

    pub fn as_micros(self) -> (r: u64)
        ensures
            r == self.micros,
    {
        self.micros
    }

    /// Whole seconds in the span.
    pub fn as_secs(self) -> (r: u64)
        ensures
            r == self.micros / 1_000_000,
    {
        self.micros / 1_000_000
    }
}

impl Instant {
    pub fn from_micros(micros: u64) -> (r: Instant)
        ensures
            r.micros == micros,
    {
        Instant { micros }
    }

    pub fn from_millis(millis: u64) -> (r: Instant)
        requires
            millis * 1000 <= u64::MAX,
        ensures
            r.micros == millis * 1000,
    {
        Instant { micros: millis * 1000 }
    }

    pub fn as_millis(self) -> (r: u64)
        ensures
            r == self.micros / 1000,
    {
        self.micros / 1000
    }

    /// Time elapsed from `earlier` to `self`.
    pub fn duration_since(self, earlier: Instant) -> (r: Duration)
        requires
            earlier.micros <= self.micros,
        ensures
            r.micros == self.micros - earlier.micros,
    {
        Duration { micros: self.micros - earlier.micros }
    }

    /// Time elapsed from `earlier` to `self`, or zero when `earlier` is later.
    pub fn saturating_duration_since(self, earlier: Instant) -> (r: Duration)
        ensures
            r.micros == (if earlier.micros <= self.micros {
                self.micros - earlier.micros
            } else {
                0
            }),
    {
        if earlier.micros <= self.micros {
            Duration { micros: self.micros - earlier.micros }
        } else {
            Duration { micros: 0 }
        }
    }

    /// The instant `d` after `self`.
    pub fn plus(self, d: Duration) -> (r: Instant)
        requires
            self.micros + d.micros <= u64::MAX,
        ensures
            r.micros == self.micros + d.micros,
    {
        Instant { micros: self.micros + d.micros }
    }

    /// Whether `self` comes strictly before `other`.
    pub fn is_before(self, other: Instant) -> (r: bool)
        ensures
            r == (self.micros < other.micros),
    {
        self.micros < other.micros
    }
}

} // verus!
