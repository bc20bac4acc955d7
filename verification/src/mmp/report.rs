//! The two periodic link reports and the pacing constants they share.

use vstd::prelude::*;

verus! {

/// Report interval while the first RTT samples arrive.
pub const DEFAULT_COLD_START_INTERVAL_MS: u64 = 200;
/// How many RTT samples count as the cold start.
pub const COLD_START_SAMPLES: u32 = 5;
/// Shortest report interval after the cold start.
pub const MIN_REPORT_INTERVAL_MS: u64 = 1_000;
/// Longest report interval.
pub const MAX_REPORT_INTERVAL_MS: u64 = 5_000;
/// Default window of one-way-delay samples kept for trend detection.
pub const DEFAULT_OWD_WINDOW_SIZE: usize = 32;

/// What a sender reports about one interval of its transmissions.
#[derive(Debug, Clone, Copy, PartialEq, Eq, Structural)]
pub struct SenderReport {
    pub interval_start_counter: u64,
    pub interval_end_counter: u64,
    pub interval_start_timestamp: u32,
    pub interval_end_timestamp: u32,
    pub interval_bytes_sent: u32,
    pub cumulative_packets_sent: u64,
    pub cumulative_bytes_sent: u64,
}

/// What a receiver reports about one interval of its receptions.
#[derive(Debug, Clone, Copy, PartialEq, Eq, Structural)]
pub struct ReceiverReport {
    pub highest_counter: u64,
    pub cumulative_packets_recv: u64,
    pub cumulative_bytes_recv: u64,
    pub timestamp_echo: u32,
    pub dwell_time: u16,
    pub max_burst_loss: u16,
    pub mean_burst_loss: u16,
    pub jitter: u32,
    pub ecn_ce_count: u32,
    pub owd_trend: i32,
    pub burst_loss_count: u32,
    pub cumulative_reorder_count: u32,
    pub interval_packets_recv: u32,
    pub interval_bytes_recv: u32,
}

/// `v` clamped into `[lo, hi]`.
pub open spec fn clamp(v: nat, lo: nat, hi: nat) -> nat {
    if v < lo {
        lo
    } else if v > hi {
        hi
    } else {
        v
    }
}

/// `a + b` capped at `u32::MAX`.
pub open spec fn sat_add_u32(a: u32, b: int) -> u32 {
    if a + b > u32::MAX {
        u32::MAX
    } else {
        (a + b) as u32
    }
}

/// `a + b` capped at `u32::MAX` (exec).
pub fn saturating_add_u32(a: u32, b: u32) -> (r: u32)
    ensures
        r == sat_add_u32(a, b as int),
{
    if b > 0xffff_ffff - a {
        0xffff_ffff
    } else {
        a + b
    }
}

/// The report interval, in milliseconds, that an RTT-derived estimate yields
/// within the bounds.
pub fn clamp_ms(v: u64, lo: u64, hi: u64) -> (r: u64)
    requires
        lo <= hi,
    ensures
        r == clamp(v as nat, lo as nat, hi as nat),
{
    if v < lo {
        lo
    } else if v > hi {
        hi
    } else {
        v
    }
}

} // verus!
