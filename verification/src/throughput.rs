//! The receive side of a link throughput test: a request arms a measurement,
//! stream frames of the test are counted, and once the requested duration
//! has passed the totals and the achieved rate are reported.

use vstd::prelude::*;

use crate::time::Instant;

verus! {

/// A running or finished receive measurement.
#[derive(Debug, Clone, Copy, PartialEq, Eq, Structural)]
pub struct ThroughputState {
    pub test_id: u32,
    pub frames_recv: u32,
    pub bytes_recv: u64,
    pub started_at: Option<Instant>,
    pub duration_secs: u8,
    pub active: bool,
}

/// The result of a finished measurement.
#[derive(Debug, Clone, Copy, PartialEq, Eq, Structural)]
pub struct ThroughputReport {
    pub test_id: u32,
    pub frames_recv: u32,
    pub bytes_recv: u64,
    pub elapsed_us: u64,
    pub achieved_bps: u64,
}

/// `a * b` capped at `u64::MAX`.
pub open spec fn sat_mul(a: u64, b: u64) -> u64 {
    if a * b > u64::MAX {
        u64::MAX
    } else {
        (a * b) as u64
    }
}

/// `a + b` capped at the type's maximum.
pub open spec fn sat_add(a: int, b: int, max: int) -> int {
    if a + b > max {
        max
    } else {
        a + b
    }
}

/// Bits per second for `bytes` over `elapsed_us` microseconds, with the
/// intermediate products saturating; zero for no elapsed time.
pub open spec fn spec_achieved_bps(bytes: u64, elapsed_us: u64) -> u64 {
    if elapsed_us == 0 {
        0
    } else {
        (sat_mul(sat_mul(bytes, 8), 1_000_000) / elapsed_us) as u64
    }
}

pub fn achieved_bps(bytes: u64, elapsed_us: u64) -> (r: u64)
    ensures
        r == spec_achieved_bps(bytes, elapsed_us),
{
    let bits = match bytes.checked_mul(8) {
        Some(v) => v,
        None => u64::MAX,
    };
    let scaled = match bits.checked_mul(1_000_000) {
        Some(v) => v,
        None => u64::MAX,
    };
    match scaled.checked_div(elapsed_us) {
        Some(v) => v,
        None => 0,
    }
}

/// The state after a frame of a stream at `now`, and the report when the
/// test just finished.
pub open spec fn spec_on_stream(s: ThroughputState, test_id: u32, payload_len: usize, now: Instant) -> (
    ThroughputState,
    Option<ThroughputReport>,
) {
    if !s.active || test_id != s.test_id {
        (s, None)
    } else {
        let counted = ThroughputState {
            frames_recv: sat_add(s.frames_recv as int, 1, u32::MAX as int) as u32,
            bytes_recv: sat_add(s.bytes_recv as int, payload_len as int, u64::MAX as int) as u64,
            ..s
        };
        match s.started_at {
            None => (counted, None),
            Some(t) => {
                let elapsed: u64 = if now.micros >= t.micros {
                    (now.micros - t.micros) as u64
                } else {
                    0
                };
                if elapsed < s.duration_secs * 1_000_000 {
                    (counted, None)
                } else {
                    (
                        ThroughputState { active: false, ..counted },
                        Some(
                            ThroughputReport {
                                test_id: counted.test_id,
                                frames_recv: counted.frames_recv,
                                bytes_recv: counted.bytes_recv,
                                elapsed_us: elapsed,
                                achieved_bps: spec_achieved_bps(counted.bytes_recv, elapsed),
                            },
                        ),
                    )
                }
            },
        }
    }
}

impl ThroughputState {
    /// No measurement.
    pub fn idle() -> (s: Self)
        ensures
            s == (ThroughputState {
                test_id: 0,
                frames_recv: 0,
                bytes_recv: 0,
                started_at: None,
                duration_secs: 0,
                active: false,
            }),
    {
        ThroughputState { test_id: 0, frames_recv: 0, bytes_recv: 0, started_at: None, duration_secs: 0, active: false }
    }

    /// A test request at `now`: a receive-direction request (direction 0)
    /// starts a fresh measurement; other directions leave the state alone.
    pub fn on_request(&mut self, test_id: u32, direction: u8, duration_secs: u8, now: Instant)
        ensures
            direction == 0 ==> *final(self) == (ThroughputState {
                test_id,
                frames_recv: 0,
                bytes_recv: 0,
                started_at: Some(now),
                duration_secs,
                active: true,
            }),
            direction != 0 ==> *final(self) == *old(self),
    {
        if direction == 0 {
            *self = ThroughputState {
                test_id,
                frames_recv: 0,
                bytes_recv: 0,
                started_at: Some(now),
                duration_secs,
                active: true,
            };
        }
    }

    /// A stream frame of test `test_id` carrying `payload_len` bytes at `now`.
    pub fn on_stream(&mut self, test_id: u32, payload_len: usize, now: Instant) -> (r: Option<ThroughputReport>)
        ensures
            (*final(self), r) == spec_on_stream(*old(self), test_id, payload_len, now),
    {
        if !self.active || test_id != self.test_id {
            return None;
        }
        self.frames_recv = match self.frames_recv.checked_add(1) {
            Some(v) => v,
            None => u32::MAX,
        };
        self.bytes_recv = match self.bytes_recv.checked_add(payload_len as u64) {
            Some(v) => v,
            None => u64::MAX,
        };
        let started = match self.started_at {
            Some(t) => t,
            None => return None,
        };
        let elapsed_us = if now.micros >= started.micros {
            now.micros - started.micros
        } else {
            0
        };
        let target_us = (self.duration_secs as u64) * 1_000_000;
        if elapsed_us < target_us {
            return None;
        }
        self.active = false;
        Some(
            ThroughputReport {
                test_id: self.test_id,
                frames_recv: self.frames_recv,
                bytes_recv: self.bytes_recv,
                elapsed_us,
                achieved_bps: achieved_bps(self.bytes_recv, elapsed_us),
            },
        )
    }
}

/// A measurement reports exactly once: after its report, further stream
/// frames change nothing and report nothing until a new request arrives.
pub proof fn lemma_report_once(s: ThroughputState, test_id: u32, len1: usize, len2: usize, t1: Instant, t2: Instant)
    requires
        spec_on_stream(s, test_id, len1, t1).1 is Some,
    ensures
        ({
            let after = spec_on_stream(s, test_id, len1, t1).0;
            &&& !after.active
            &&& spec_on_stream(after, test_id, len2, t2) == (after, None::<ThroughputReport>)
        }),
{
}

} // verus!
