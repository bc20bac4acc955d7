//! Sender-side interval bookkeeping and report pacing.

use vstd::prelude::*;

use crate::mmp::report::{
    clamp, clamp_ms, sat_add_u32, saturating_add_u32, SenderReport, COLD_START_SAMPLES,
    DEFAULT_COLD_START_INTERVAL_MS, MAX_REPORT_INTERVAL_MS, MIN_REPORT_INTERVAL_MS,
};
use crate::time::{Duration, Instant};

verus! {

/// Abstract state of a [`SenderState`].
pub struct SenderView {
    pub cumulative_packets_sent: u64,
    pub cumulative_bytes_sent: u64,
    pub interval_start_counter: u64,
    pub interval_start_timestamp: u32,
    pub interval_bytes_sent: u32,
    pub last_counter: u64,
    pub last_timestamp: u32,
    pub interval_has_data: bool,
    pub last_report_time: Option<Instant>,
    pub report_interval: Duration,
    pub consecutive_send_failures: u32,
    pub srtt_sample_count: u32,
}

/// The state after one frame was sent.
pub open spec fn spec_record_sent(s: SenderView, counter: u64, timestamp: u32, bytes: usize) -> SenderView {
    let s1 = if !s.interval_has_data {
        SenderView {
            interval_start_counter: counter,
            interval_start_timestamp: timestamp,
            interval_has_data: true,
            ..s
        }
    } else {
        s
    };
    SenderView {
        last_counter: counter,
        last_timestamp: timestamp,
        interval_bytes_sent: sat_add_u32(s1.interval_bytes_sent, (bytes as nat % 0x1_0000_0000) as int),
        cumulative_packets_sent: (s1.cumulative_packets_sent + 1) as u64,
        cumulative_bytes_sent: (s1.cumulative_bytes_sent + bytes) as u64,
        ..s1
    }
}

/// The backoff factor after `failures` consecutive send failures: 1, then
/// doubling per failure up to 32.
pub open spec fn spec_backoff_multiplier(failures: u32) -> u64 {
    if failures == 0 {
        1
    } else if failures == 1 {
        2
    } else if failures == 2 {
        4
    } else if failures == 3 {
        8
    } else if failures == 4 {
        16
    } else {
        32
    }
}

/// Whether a report is due at `now`: the interval has data, and either none
/// was sent yet or the report interval, stretched by the failure backoff, has
/// passed (in whole milliseconds).
pub open spec fn spec_sender_report_due(s: SenderView, now: Instant) -> bool {
    s.interval_has_data && match s.last_report_time {
        None => true,
        Some(last) => (now.micros - last.micros) / 1000 >= (s.report_interval.micros / 1000)
            * spec_backoff_multiplier(s.consecutive_send_failures),
    }
}

/// The report interval for an RTT estimate: twice the RTT, in milliseconds,
/// within the bounds; a non-positive estimate leaves it unchanged.
pub open spec fn spec_sender_interval(current: Duration, srtt_us: i64, min_ms: u64, max_ms: u64) -> Duration {
    if srtt_us <= 0 {
        current
    } else {
        Duration { micros: (clamp((2 * srtt_us) as nat / 1000, min_ms as nat, max_ms as nat) * 1000) as u64 }
    }
}

/// The lower bound of the report interval after `count` RTT samples.
pub open spec fn interval_floor_ms(count: u32) -> u64 {
    if count <= COLD_START_SAMPLES {
        DEFAULT_COLD_START_INTERVAL_MS
    } else {
        MIN_REPORT_INTERVAL_MS
    }
}

/// `count + 1` capped at `u32::MAX`.
pub open spec fn next_sample_count(count: u32) -> u32 {
    sat_add_u32(count, 1)
}

pub struct SenderState {
    cumulative_packets_sent: u64,
    cumulative_bytes_sent: u64,
    interval_start_counter: u64,
    interval_start_timestamp: u32,
    interval_bytes_sent: u32,
    last_counter: u64,
    last_timestamp: u32,
    interval_has_data: bool,
    last_report_time: Option<Instant>,
    report_interval: Duration,
    consecutive_send_failures: u32,
    srtt_sample_count: u32,
}

impl View for SenderState {
    type V = SenderView;

    closed spec fn view(&self) -> SenderView {
        SenderView {
            cumulative_packets_sent: self.cumulative_packets_sent,
            cumulative_bytes_sent: self.cumulative_bytes_sent,
            interval_start_counter: self.interval_start_counter,
            interval_start_timestamp: self.interval_start_timestamp,
            interval_bytes_sent: self.interval_bytes_sent,
            last_counter: self.last_counter,
            last_timestamp: self.last_timestamp,
            interval_has_data: self.interval_has_data,
            last_report_time: self.last_report_time,
            report_interval: self.report_interval,
            consecutive_send_failures: self.consecutive_send_failures,
            srtt_sample_count: self.srtt_sample_count,
        }
    }
}

/// The sender after an RTT estimate: one more sample counted and the report
/// interval adapted within the bounds of that sample count.
pub open spec fn spec_sender_after_srtt(v: SenderView, srtt_us: i64) -> SenderView {
    SenderView {
        srtt_sample_count: next_sample_count(v.srtt_sample_count),
        report_interval: spec_sender_interval(
            v.report_interval,
            srtt_us,
            interval_floor_ms(next_sample_count(v.srtt_sample_count)),
            MAX_REPORT_INTERVAL_MS,
        ),
        ..v
    }
}

impl SenderState {
    pub fn new() -> (r: Self)
        ensures
            r@ == Self::spec_fresh(DEFAULT_COLD_START_INTERVAL_MS),
    {
        Self::new_with_cold_start(DEFAULT_COLD_START_INTERVAL_MS)
    }

    /// A sender with nothing sent, reporting every `cold_start_ms` at first.
    pub open spec fn spec_fresh(cold_start_ms: u64) -> SenderView {
        SenderView {
            cumulative_packets_sent: 0,
            cumulative_bytes_sent: 0,
            interval_start_counter: 0,
            interval_start_timestamp: 0,
            interval_bytes_sent: 0,
            last_counter: 0,
            last_timestamp: 0,
            interval_has_data: false,
            last_report_time: None,
            report_interval: Duration { micros: (cold_start_ms * 1000) as u64 },
            consecutive_send_failures: 0,
            srtt_sample_count: 0,
        }
    }

    pub fn new_with_cold_start(cold_start_ms: u64) -> (r: Self)
        requires
            cold_start_ms * 1000 <= u64::MAX,
        ensures
            r@ == Self::spec_fresh(cold_start_ms),
    {
        SenderState {
            cumulative_packets_sent: 0,
            cumulative_bytes_sent: 0,
            interval_start_counter: 0,
            interval_start_timestamp: 0,
            interval_bytes_sent: 0,
            last_counter: 0,
            last_timestamp: 0,
            interval_has_data: false,
            last_report_time: None,
            report_interval: Duration::from_millis(cold_start_ms),
            consecutive_send_failures: 0,
            srtt_sample_count: 0,
        }
    }

    /// Records a sent frame.
    pub fn record_sent(&mut self, counter: u64, timestamp: u32, bytes: usize)
        requires
            old(self)@.cumulative_packets_sent < u64::MAX,
            old(self)@.cumulative_bytes_sent + bytes <= u64::MAX,
        ensures
            final(self)@ == spec_record_sent(old(self)@, counter, timestamp, bytes),
    {
        if !self.interval_has_data {
            self.interval_start_counter = counter;
            self.interval_start_timestamp = timestamp;
            self.interval_has_data = true;
        }
        self.last_counter = counter;
        self.last_timestamp = timestamp;
        let b32 = ((bytes as u64) % 0x1_0000_0000) as u32;
        self.interval_bytes_sent = saturating_add_u32(self.interval_bytes_sent, b32);
        self.cumulative_packets_sent = self.cumulative_packets_sent + 1;
        self.cumulative_bytes_sent = self.cumulative_bytes_sent + bytes as u64;
    }

    /// Closes the interval into a report, or `None` when nothing was sent in it.
    pub fn build_report(&mut self, now: Instant) -> (r: Option<SenderReport>)
        ensures
            !old(self)@.interval_has_data ==> r is None && final(self)@ == old(self)@,
            old(self)@.interval_has_data ==> {
                &&& r == Some(
                    (SenderReport {
                        interval_start_counter: old(self)@.interval_start_counter,
                        interval_end_counter: old(self)@.last_counter,
                        interval_start_timestamp: old(self)@.interval_start_timestamp,
                        interval_end_timestamp: old(self)@.last_timestamp,
                        interval_bytes_sent: old(self)@.interval_bytes_sent,
                        cumulative_packets_sent: old(self)@.cumulative_packets_sent,
                        cumulative_bytes_sent: old(self)@.cumulative_bytes_sent,
                    }),
                )
                &&& final(self)@ == (SenderView {
                    interval_has_data: false,
                    interval_bytes_sent: 0,
                    last_report_time: Some(now),
                    ..old(self)@
                })
            },
    {
        if !self.interval_has_data {
            return None;
        }
        let report = SenderReport {
            interval_start_counter: self.interval_start_counter,
            interval_end_counter: self.last_counter,
            interval_start_timestamp: self.interval_start_timestamp,
            interval_end_timestamp: self.last_timestamp,
            interval_bytes_sent: self.interval_bytes_sent,
            cumulative_packets_sent: self.cumulative_packets_sent,
            cumulative_bytes_sent: self.cumulative_bytes_sent,
        };
        self.interval_has_data = false;
        self.interval_bytes_sent = 0;
        self.last_report_time = Some(now);
        Some(report)
    }

    /// Whether a report is due at `now`.
    pub fn should_send_report(&self, now: Instant) -> (r: bool)
        requires
            self@.last_report_time matches Some(last) ==> last.micros <= now.micros,
        ensures
            r == spec_sender_report_due(self@, now),
    {
        if !self.interval_has_data {
            return false;
        }
        match self.last_report_time {
            None => true,
            Some(last) => {
                let interval_ms = self.report_interval.as_millis() as u128;
                let mult = self.send_failure_backoff_multiplier() as u128;
                assert(interval_ms * mult <= 0xffff_ffff_ffff_ffff * 32) by (nonlinear_arith)
                    requires
                        interval_ms <= 0xffff_ffff_ffff_ffff,
                        mult <= 32,
                ;
                let effective_ms = interval_ms * mult;
                (now.duration_since(last).as_millis() as u128) >= effective_ms
            },
        }
    }

    /// Counts a failed send; returns the number of consecutive failures.
    pub fn record_send_failure(&mut self) -> (r: u32)
        requires
            old(self)@.consecutive_send_failures < u32::MAX,
        ensures
            r == old(self)@.consecutive_send_failures + 1,
            final(self)@ == (SenderView { consecutive_send_failures: r, ..old(self)@ }),
    {
        self.consecutive_send_failures = self.consecutive_send_failures + 1;
        self.consecutive_send_failures
    }

    /// Clears the failure count; returns how many failures preceded the success.
    pub fn record_send_success(&mut self) -> (r: u32)
        ensures
            r == old(self)@.consecutive_send_failures,
            final(self)@ == (SenderView { consecutive_send_failures: 0, ..old(self)@ }),
    {
        let prev = self.consecutive_send_failures;
        self.consecutive_send_failures = 0;
        prev
    }

    /// Factor by which consecutive send failures stretch the report interval.
    pub fn send_failure_backoff_multiplier(&self) -> (r: u64)
        ensures
            r == spec_backoff_multiplier(self@.consecutive_send_failures),
    {
        let f = self.consecutive_send_failures;
        if f == 0 {
            1
        } else if f == 1 {
            2
        } else if f == 2 {
            4
        } else if f == 3 {
            8
        } else if f == 4 {
            16
        } else {
            32
        }
    }

    /// Adapts the report interval to a new smoothed RTT (µs): the bounds are
    /// the cold-start interval for the first samples, the minimum after.
    pub fn update_report_interval_from_srtt(&mut self, srtt_us: i64)
        requires
            srtt_us <= i64::MAX / 2,
        ensures
            final(self)@ == spec_sender_after_srtt(old(self)@, srtt_us),
    {
        self.srtt_sample_count = saturating_add_u32(self.srtt_sample_count, 1);
        let floor = if self.srtt_sample_count <= COLD_START_SAMPLES {
            DEFAULT_COLD_START_INTERVAL_MS
        } else {
            MIN_REPORT_INTERVAL_MS
        };
        self.update_report_interval_with_bounds(srtt_us, floor, MAX_REPORT_INTERVAL_MS);
    }

    /// Sets the report interval to twice the RTT within `[min_ms, max_ms]`.
    pub fn update_report_interval_with_bounds(&mut self, srtt_us: i64, min_ms: u64, max_ms: u64)
        requires
            srtt_us <= i64::MAX / 2,
            min_ms <= max_ms,
            max_ms * 1000 <= u64::MAX,
        ensures
            final(self)@ == (SenderView {
                report_interval: spec_sender_interval(old(self)@.report_interval, srtt_us, min_ms, max_ms),
                ..old(self)@
            }),
    {
        if srtt_us <= 0 {
            return;
        }
        let interval_us = (srtt_us * 2) as u64;
        let interval_ms = clamp_ms(interval_us / 1000, min_ms, max_ms);
        self.report_interval = Duration::from_millis(interval_ms);
    }

    pub fn cumulative_packets_sent(&self) -> (r: u64)
        ensures
            r == self@.cumulative_packets_sent,
    {
        self.cumulative_packets_sent
    }

    pub fn cumulative_bytes_sent(&self) -> (r: u64)
        ensures
            r == self@.cumulative_bytes_sent,
    {
        self.cumulative_bytes_sent
    }

    pub fn report_interval(&self) -> (r: Duration)
        ensures
            r == self@.report_interval,
    {
        self.report_interval
    }

    pub fn consecutive_send_failures(&self) -> (r: u32)
        ensures
            r == self@.consecutive_send_failures,
    {
        self.consecutive_send_failures
    }
}

impl Default for SenderState {
    fn default() -> (r: Self)
        ensures
            r@ == Self::spec_fresh(DEFAULT_COLD_START_INTERVAL_MS),
    {
        Self::new()
    }
}

/// The report interval always ends up within the bounds it was adapted with.
pub proof fn lemma_sender_interval_bounded(current: Duration, srtt_us: i64, min_ms: u64, max_ms: u64)
    requires
        srtt_us > 0,
        min_ms <= max_ms,
        max_ms * 1000 <= u64::MAX,
    ensures
        min_ms * 1000 <= spec_sender_interval(current, srtt_us, min_ms, max_ms).micros <= max_ms * 1000,
{
}

} // verus!
