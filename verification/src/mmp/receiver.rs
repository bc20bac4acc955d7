//! Receiver-side interval bookkeeping and report construction.
//!
//! The jitter estimator and the one-way-delay trend detector live with the
//! caller: `record_recv` returns the samples to feed them, and `build_report`
//! takes their current outputs.

use vstd::prelude::*;

use crate::mmp::gap::{can_finish_burst, can_observe, spec_observe, spec_take_interval_stats, GapTracker, GapView};
use crate::mmp::report::{
    clamp, clamp_ms, sat_add_u32, saturating_add_u32, ReceiverReport, COLD_START_SAMPLES,
    DEFAULT_COLD_START_INTERVAL_MS, DEFAULT_OWD_WINDOW_SIZE, MAX_REPORT_INTERVAL_MS, MIN_REPORT_INTERVAL_MS,
};
use crate::mmp::sender::{interval_floor_ms, next_sample_count};
use crate::time::{Duration, Instant};

verus! {

/// Seconds after a rekey during which no jitter samples are taken.
pub const REKEY_JITTER_GRACE_SECS: u64 = 15;

/// Abstract state of a [`ReceiverState`].
pub struct ReceiverView {
    pub cumulative_packets_recv: u64,
    pub cumulative_bytes_recv: u64,
    pub cumulative_reorder_count: u64,
    pub highest_counter: u64,
    pub interval_packets_recv: u32,
    pub interval_bytes_recv: u32,
    pub owd_seq: u32,
    pub gap: GapView,
    pub ecn_ce_count: u32,
    pub last_sender_timestamp: u32,
    pub last_recv_time: Option<Instant>,
    pub rekey_jitter_grace_until: Option<Instant>,
    pub last_report_time: Option<Instant>,
    pub report_interval: Duration,
    pub interval_has_data: bool,
    pub srtt_sample_count: u32,
}

/// The samples one reception yields for the delay estimators.
#[derive(Debug, Clone, Copy, PartialEq, Eq, Structural)]
pub struct RecvSample {
    /// Change in transit time since the previous frame (µs), for the jitter
    /// estimator; `None` for the first frame and during the rekey grace period.
    pub transit_delta_us: Option<i32>,
    /// Sequence number of the one-way-delay sample.
    pub owd_seq: u32,
    /// One-way delay relative to the first reception (µs), for the trend detector.
    pub owd_us: i64,
}

/// `a + 1`, wrapping.
pub open spec fn wrapping_inc_u32(a: u32) -> u32 {
    if a == u32::MAX {
        0
    } else {
        (a + 1) as u32
    }
}

/// Transit-time change between the previous reception and this one.
pub open spec fn spec_transit_delta(prev: Instant, now: Instant, last_ts: u32, ts: u32) -> int {
    (now.micros - prev.micros) as i64 - (ts * 1000 - last_ts * 1000)
}

/// Recording a reception keeps every counter in range and time monotone.
pub open spec fn can_record(r: ReceiverView, counter: u64, ts: u32, bytes: usize, now: Instant) -> bool {
    &&& r.cumulative_packets_recv < u64::MAX
    &&& r.cumulative_bytes_recv + bytes <= u64::MAX
    &&& (counter < r.highest_counter ==> r.cumulative_reorder_count < u64::MAX)
    &&& can_observe(r.gap, counter)
    &&& r.last_recv_time matches Some(prev) ==> {
        &&& prev.micros <= now.micros
        &&& i64::MIN <= spec_transit_delta(prev, now, r.last_sender_timestamp, ts) <= i64::MAX
        &&& i64::MIN <= (now.micros - prev.micros) as i64 - ts * 1000 <= i64::MAX
    }
}

/// The state after a reception, and the samples it yields.
pub open spec fn spec_record_recv(
    r: ReceiverView,
    counter: u64,
    ts: u32,
    bytes: usize,
    ce: bool,
    now: Instant,
) -> (ReceiverView, RecvSample) {
    let in_grace = r.rekey_jitter_grace_until matches Some(d) && now.micros < d.micros;
    let transit: Option<i32> = if in_grace {
        None
    } else {
        match r.last_recv_time {
            Some(prev) => Some(spec_transit_delta(prev, now, r.last_sender_timestamp, ts) as i32),
            None => None,
        }
    };
    let offset: int = match r.last_recv_time {
        Some(prev) => (now.micros - prev.micros) as i64 as int,
        None => 0,
    };
    let seq = wrapping_inc_u32(r.owd_seq);
    let reordered = counter < r.highest_counter;
    (
        ReceiverView {
            interval_has_data: true,
            cumulative_packets_recv: (r.cumulative_packets_recv + 1) as u64,
            cumulative_bytes_recv: (r.cumulative_bytes_recv + bytes) as u64,
            interval_packets_recv: sat_add_u32(r.interval_packets_recv, 1),
            interval_bytes_recv: sat_add_u32(r.interval_bytes_recv, (bytes as nat % 0x1_0000_0000) as int),
            cumulative_reorder_count: if reordered {
                (r.cumulative_reorder_count + 1) as u64
            } else {
                r.cumulative_reorder_count
            },
            highest_counter: if reordered {
                r.highest_counter
            } else {
                counter
            },
            gap: spec_observe(r.gap, counter).0,
            ecn_ce_count: if ce {
                sat_add_u32(r.ecn_ce_count, 1)
            } else {
                r.ecn_ce_count
            },
            rekey_jitter_grace_until: if in_grace {
                r.rekey_jitter_grace_until
            } else {
                None
            },
            owd_seq: seq,
            last_sender_timestamp: ts,
            last_recv_time: Some(now),
            ..r
        },
        RecvSample { transit_delta_us: transit, owd_seq: seq, owd_us: (offset - ts * 1000) as i64 },
    )
}

/// The timestamp echo and dwell time a report carries at `now`: the last
/// sender timestamp and the milliseconds since that frame arrived, or, when the
/// dwell exceeds `u16::MAX` ms, no echo and a capped dwell.
pub open spec fn spec_echo_dwell(r: ReceiverView, now: Instant) -> (u32, u16) {
    match r.last_recv_time {
        None => (0, 0),
        Some(t) => {
            let dwell_ms = (now.micros - t.micros) / 1000;
            if dwell_ms > u16::MAX {
                (0, u16::MAX)
            } else {
                (r.last_sender_timestamp, dwell_ms as u16)
            }
        },
    }
}

/// The report closing the interval at `now`, given the estimators' outputs.
pub open spec fn spec_receiver_report(r: ReceiverView, now: Instant, jitter_us: u32, owd_trend: i32) -> ReceiverReport {
    let (echo, dwell) = spec_echo_dwell(r, now);
    let (count, max_burst, mean_burst) = spec_take_interval_stats(r.gap).1;
    ReceiverReport {
        highest_counter: r.highest_counter,
        cumulative_packets_recv: r.cumulative_packets_recv,
        cumulative_bytes_recv: r.cumulative_bytes_recv,
        timestamp_echo: echo,
        dwell_time: dwell,
        max_burst_loss: max_burst,
        mean_burst_loss: mean_burst,
        jitter: jitter_us,
        ecn_ce_count: r.ecn_ce_count,
        owd_trend,
        burst_loss_count: count,
        cumulative_reorder_count: (r.cumulative_reorder_count as nat % 0x1_0000_0000) as u32,
        interval_packets_recv: r.interval_packets_recv,
        interval_bytes_recv: r.interval_bytes_recv,
    }
}

/// Whether a receiver report is due at `now`: something arrived in the
/// interval and the interval has elapsed since the last report (or there was
/// none).
pub open spec fn spec_report_due(r: ReceiverView, now: Instant) -> bool {
    r.interval_has_data && match r.last_report_time {
        None => true,
        Some(last) => now.micros - last.micros >= r.report_interval.micros,
    }
}

/// The receiver after the interval closed into a report at `now`.
pub open spec fn spec_after_report(r: ReceiverView, now: Instant) -> ReceiverView {
    ReceiverView {
        gap: spec_take_interval_stats(r.gap).0,
        interval_packets_recv: 0,
        interval_bytes_recv: 0,
        interval_has_data: false,
        last_report_time: Some(now),
        ..r
    }
}

/// The receiver after a rekey cutover at `now`: counter-dependent state
/// cleared, jitter samples suppressed for the grace period.
pub open spec fn spec_rekey_reset(r: ReceiverView, now: Instant) -> ReceiverView {
    ReceiverView {
        highest_counter: 0,
        cumulative_reorder_count: 0,
        gap: fresh_gap(),
        interval_packets_recv: 0,
        interval_bytes_recv: 0,
        owd_seq: 0,
        last_sender_timestamp: 0,
        last_recv_time: None,
        rekey_jitter_grace_until: Some(Instant { micros: (now.micros + REKEY_JITTER_GRACE_SECS * 1_000_000) as u64 }),
        ecn_ce_count: 0,
        interval_has_data: false,
        ..r
    }
}

/// The receiver after an RTT estimate: one more sample counted and the
/// report interval adapted within the bounds of that sample count.
pub open spec fn spec_after_srtt(r: ReceiverView, srtt_us: i64) -> ReceiverView {
    ReceiverView {
        srtt_sample_count: next_sample_count(r.srtt_sample_count),
        report_interval: spec_receiver_interval(
            r.report_interval,
            srtt_us,
            interval_floor_ms(next_sample_count(r.srtt_sample_count)),
            MAX_REPORT_INTERVAL_MS,
        ),
        ..r
    }
}

/// The report interval for an RTT estimate: the RTT in milliseconds within
/// the bounds; a non-positive estimate leaves it unchanged.
pub open spec fn spec_receiver_interval(current: Duration, srtt_us: i64, min_ms: u64, max_ms: u64) -> Duration {
    if srtt_us <= 0 {
        current
    } else {
        Duration { micros: (clamp(srtt_us as nat / 1000, min_ms as nat, max_ms as nat) * 1000) as u64 }
    }
}

pub struct ReceiverState {
    cumulative_packets_recv: u64,
    cumulative_bytes_recv: u64,
    cumulative_reorder_count: u64,
    highest_counter: u64,
    interval_packets_recv: u32,
    interval_bytes_recv: u32,
    owd_seq: u32,
    gap_tracker: GapTracker,
    ecn_ce_count: u32,
    last_sender_timestamp: u32,
    last_recv_time: Option<Instant>,
    rekey_jitter_grace_until: Option<Instant>,
    last_report_time: Option<Instant>,
    report_interval: Duration,
    interval_has_data: bool,
    srtt_sample_count: u32,
}

impl View for ReceiverState {
    type V = ReceiverView;

    closed spec fn view(&self) -> ReceiverView {
        ReceiverView {
            cumulative_packets_recv: self.cumulative_packets_recv,
            cumulative_bytes_recv: self.cumulative_bytes_recv,
            cumulative_reorder_count: self.cumulative_reorder_count,
            highest_counter: self.highest_counter,
            interval_packets_recv: self.interval_packets_recv,
            interval_bytes_recv: self.interval_bytes_recv,
            owd_seq: self.owd_seq,
            gap: self.gap_tracker@,
            ecn_ce_count: self.ecn_ce_count,
            last_sender_timestamp: self.last_sender_timestamp,
            last_recv_time: self.last_recv_time,
            rekey_jitter_grace_until: self.rekey_jitter_grace_until,
            last_report_time: self.last_report_time,
            report_interval: self.report_interval,
            interval_has_data: self.interval_has_data,
            srtt_sample_count: self.srtt_sample_count,
        }
    }
}

/// The burst tracker of a fresh or rekeyed receiver.
pub open spec fn fresh_gap() -> GapView {
    GapView {
        expected_next: None,
        in_burst: false,
        current_burst_len: 0,
        burst_count: 0,
        max_burst_len: 0,
        total_burst_len: 0,
    }
}

impl ReceiverState {
    /// A receiver with nothing received, reporting every `cold_start_ms` at first.
    pub open spec fn spec_fresh(cold_start_ms: u64) -> ReceiverView {
        ReceiverView {
            cumulative_packets_recv: 0,
            cumulative_bytes_recv: 0,
            cumulative_reorder_count: 0,
            highest_counter: 0,
            interval_packets_recv: 0,
            interval_bytes_recv: 0,
            owd_seq: 0,
            gap: fresh_gap(),
            ecn_ce_count: 0,
            last_sender_timestamp: 0,
            last_recv_time: None,
            rekey_jitter_grace_until: None,
            last_report_time: None,
            report_interval: Duration { micros: (cold_start_ms * 1000) as u64 },
            interval_has_data: false,
            srtt_sample_count: 0,
        }
    }

    /// A fresh receiver; `owd_window_size` sizes the caller's trend detector.
    pub fn new(owd_window_size: usize) -> (r: Self)
        ensures
            r@ == Self::spec_fresh(DEFAULT_COLD_START_INTERVAL_MS),
    {
        Self::new_with_cold_start(owd_window_size, DEFAULT_COLD_START_INTERVAL_MS)
    }

    pub fn new_with_cold_start(_owd_window_size: usize, cold_start_ms: u64) -> (r: Self)
        requires
            cold_start_ms * 1000 <= u64::MAX,
        ensures
            r@ == Self::spec_fresh(cold_start_ms),
    {
        ReceiverState {
            cumulative_packets_recv: 0,
            cumulative_bytes_recv: 0,
            cumulative_reorder_count: 0,
            highest_counter: 0,
            interval_packets_recv: 0,
            interval_bytes_recv: 0,
            owd_seq: 0,
            gap_tracker: GapTracker::new(),
            ecn_ce_count: 0,
            last_sender_timestamp: 0,
            last_recv_time: None,
            rekey_jitter_grace_until: None,
            last_report_time: None,
            report_interval: Duration::from_millis(cold_start_ms),
            interval_has_data: false,
            srtt_sample_count: 0,
        }
    }

    /// Resets the counter-dependent state at a rekey cutover; jitter samples
    /// are suppressed for the grace period after `now`.
    pub fn reset_for_rekey(&mut self, now: Instant)
        requires
            now.micros + REKEY_JITTER_GRACE_SECS * 1_000_000 <= u64::MAX,
        ensures
            final(self)@ == spec_rekey_reset(old(self)@, now),
    {
        self.highest_counter = 0;
        self.cumulative_reorder_count = 0;
        self.gap_tracker = GapTracker::new();
        self.interval_packets_recv = 0;
        self.interval_bytes_recv = 0;
        self.owd_seq = 0;
        self.last_sender_timestamp = 0;
        self.last_recv_time = None;
        self.rekey_jitter_grace_until = Some(now.plus(Duration::from_secs(REKEY_JITTER_GRACE_SECS)));
        self.ecn_ce_count = 0;
        self.interval_has_data = false;
    }

    /// Records a received frame; returns the samples for the delay estimators.
    pub fn record_recv(&mut self, counter: u64, sender_timestamp_ms: u32, bytes: usize, ce_flag: bool, now: Instant) -> (s:
        RecvSample)
        requires
            can_record(old(self)@, counter, sender_timestamp_ms, bytes, now),
        ensures
            (final(self)@, s) == spec_record_recv(old(self)@, counter, sender_timestamp_ms, bytes, ce_flag, now),
    {
        self.interval_has_data = true;
        self.cumulative_packets_recv = self.cumulative_packets_recv + 1;
        self.cumulative_bytes_recv = self.cumulative_bytes_recv + bytes as u64;
        self.interval_packets_recv = saturating_add_u32(self.interval_packets_recv, 1);
        let b32 = ((bytes as u64) % 0x1_0000_0000) as u32;
        self.interval_bytes_recv = saturating_add_u32(self.interval_bytes_recv, b32);
        if counter < self.highest_counter {
            self.cumulative_reorder_count = self.cumulative_reorder_count + 1;
        } else {
            self.highest_counter = counter;
        }
        let _lost = self.gap_tracker.observe(counter);
        if ce_flag {
            self.ecn_ce_count = saturating_add_u32(self.ecn_ce_count, 1);
        }
        let sender_us = (sender_timestamp_ms as i64) * 1000;
        let in_grace = match self.rekey_jitter_grace_until {
            Some(deadline) => now.is_before(deadline),
            None => false,
        };
        let mut transit: Option<i32> = None;
        if !in_grace {
            self.rekey_jitter_grace_until = None;
            if let Some(prev_recv) = self.last_recv_time {
                let recv_delta_us = now.duration_since(prev_recv).as_micros() as i64;
                let send_delta_us = sender_us - (self.last_sender_timestamp as i64 * 1000);
                transit = Some((recv_delta_us - send_delta_us) as i32);
            }
        }
        let first_recv = match self.last_recv_time {
            Some(t) => t,
            None => now,
        };
        let recv_offset_us = now.duration_since(first_recv).as_micros() as i64;
        let owd_us = recv_offset_us - sender_us;
        self.owd_seq = self.owd_seq.wrapping_add(1);
        self.last_sender_timestamp = sender_timestamp_ms;
        self.last_recv_time = Some(now);
        RecvSample { transit_delta_us: transit, owd_seq: self.owd_seq, owd_us }
    }

    /// Closes the interval into a report, or `None` when nothing arrived in it.
    /// `jitter_us` and `owd_trend` are the current outputs of the delay estimators.
    pub fn build_report(&mut self, now: Instant, jitter_us: u32, owd_trend: i32) -> (r: Option<ReceiverReport>)
        requires
            old(self)@.last_recv_time matches Some(t) ==> t.micros <= now.micros,
            can_finish_burst(old(self)@.gap),
        ensures
            !old(self)@.interval_has_data ==> r is None && final(self)@ == old(self)@,
            old(self)@.interval_has_data ==> {
                &&& r == Some(spec_receiver_report(old(self)@, now, jitter_us, owd_trend))
                &&& final(self)@ == spec_after_report(old(self)@, now)
            },
    {
        if !self.interval_has_data {
            return None;
        }
        let (timestamp_echo, dwell_time) = match self.last_recv_time {
            Some(t) => {
                let dwell_ms = now.duration_since(t).as_millis();
                if dwell_ms > 65535 {
                    (0u32, 65535u16)
                } else {
                    (self.last_sender_timestamp, dwell_ms as u16)
                }
            },
            None => (0u32, 0u16),
        };
        let (burst_count, max_burst, mean_burst) = self.gap_tracker.take_interval_stats();
        let report = ReceiverReport {
            highest_counter: self.highest_counter,
            cumulative_packets_recv: self.cumulative_packets_recv,
            cumulative_bytes_recv: self.cumulative_bytes_recv,
            timestamp_echo,
            dwell_time,
            max_burst_loss: max_burst,
            mean_burst_loss: mean_burst,
            jitter: jitter_us,
            ecn_ce_count: self.ecn_ce_count,
            owd_trend,
            burst_loss_count: burst_count,
            cumulative_reorder_count: (self.cumulative_reorder_count % 0x1_0000_0000) as u32,
            interval_packets_recv: self.interval_packets_recv,
            interval_bytes_recv: self.interval_bytes_recv,
        };
        self.interval_packets_recv = 0;
        self.interval_bytes_recv = 0;
        self.interval_has_data = false;
        self.last_report_time = Some(now);
        Some(report)
    }

    /// Whether a report is due at `now`.
    pub fn should_send_report(&self, now: Instant) -> (r: bool)
        requires
            self@.last_report_time matches Some(last) ==> last.micros <= now.micros,
        ensures
            r == spec_report_due(self@, now),
    {
        if !self.interval_has_data {
            return false;
        }
        match self.last_report_time {
            None => true,
            Some(last) => now.duration_since(last).as_micros() >= self.report_interval.as_micros(),
        }
    }

    /// Adapts the report interval to a new smoothed RTT (µs).
    pub fn update_report_interval_from_srtt(&mut self, srtt_us: i64)
        ensures
            final(self)@ == spec_after_srtt(old(self)@, srtt_us),
    {
        self.srtt_sample_count = saturating_add_u32(self.srtt_sample_count, 1);
        let floor = if self.srtt_sample_count <= COLD_START_SAMPLES {
            DEFAULT_COLD_START_INTERVAL_MS
        } else {
            MIN_REPORT_INTERVAL_MS
        };
        self.update_report_interval_with_bounds(srtt_us, floor, MAX_REPORT_INTERVAL_MS);
    }

    /// Sets the report interval to the RTT within `[min_ms, max_ms]`.
    pub fn update_report_interval_with_bounds(&mut self, srtt_us: i64, min_ms: u64, max_ms: u64)
        requires
            min_ms <= max_ms,
            max_ms * 1000 <= u64::MAX,
        ensures
            final(self)@ == (ReceiverView {
                report_interval: spec_receiver_interval(old(self)@.report_interval, srtt_us, min_ms, max_ms),
                ..old(self)@
            }),
    {
        if srtt_us <= 0 {
            return;
        }
        let interval_ms = clamp_ms((srtt_us as u64) / 1000, min_ms, max_ms);
        self.report_interval = Duration::from_millis(interval_ms);
    }

    pub fn cumulative_packets_recv(&self) -> (r: u64)
        ensures
            r == self@.cumulative_packets_recv,
    {
        self.cumulative_packets_recv
    }

    pub fn cumulative_bytes_recv(&self) -> (r: u64)
        ensures
            r == self@.cumulative_bytes_recv,
    {
        self.cumulative_bytes_recv
    }

    pub fn cumulative_reorder_count(&self) -> (r: u64)
        ensures
            r == self@.cumulative_reorder_count,
    {
        self.cumulative_reorder_count
    }

    pub fn highest_counter(&self) -> (r: u64)
        ensures
            r == self@.highest_counter,
    {
        self.highest_counter
    }

    pub fn report_interval(&self) -> (r: Duration)
        ensures
            r == self@.report_interval,
    {
        self.report_interval
    }

    pub fn last_recv_time(&self) -> (r: Option<Instant>)
        ensures
            r == self@.last_recv_time,
    {
        self.last_recv_time
    }

    pub fn ecn_ce_count(&self) -> (r: u32)
        ensures
            r == self@.ecn_ce_count,
    {
        self.ecn_ce_count
    }
}

impl Default for ReceiverState {
    fn default() -> (r: Self)
        ensures
            r@ == Self::spec_fresh(DEFAULT_COLD_START_INTERVAL_MS),
    {
        Self::new(DEFAULT_OWD_WINDOW_SIZE)
    }
}

/// A reception always advances the cumulative totals and is never lower than
/// the highest counter seen unless it counts as reordered.
pub proof fn lemma_record_counts(r: ReceiverView, counter: u64, ts: u32, bytes: usize, ce: bool, now: Instant)
    requires
        can_record(r, counter, ts, bytes, now),
    ensures
        ({
            let (r2, _) = spec_record_recv(r, counter, ts, bytes, ce, now);
            &&& r2.cumulative_packets_recv == r.cumulative_packets_recv + 1
            &&& r2.cumulative_bytes_recv == r.cumulative_bytes_recv + bytes
            &&& r2.highest_counter >= r.highest_counter
            &&& r2.highest_counter >= counter
            &&& r2.cumulative_reorder_count == r.cumulative_reorder_count + (if counter < r.highest_counter {
                1int
            } else {
                0int
            })
            &&& r2.interval_has_data
        }),
{
}

/// One received frame, as `record_recv` takes it.
pub struct Reception {
    pub counter: u64,
    pub sender_timestamp_ms: u32,
    pub bytes: usize,
    pub ce_flag: bool,
    pub now: Instant,
}

/// The counters of a run of receptions, in order.
pub open spec fn counters_of(rs: Seq<Reception>) -> Seq<u64> {
    rs.map_values(|x: Reception| x.counter)
}

/// The highest of `start` and the counters in `cs`.
pub open spec fn highest_of(start: u64, cs: Seq<u64>) -> u64
    decreases cs.len(),
{
    if cs.len() == 0 {
        start
    } else {
        let before = highest_of(start, cs.drop_last());
        if cs.last() > before {
            cs.last()
        } else {
            before
        }
    }
}

/// How many counters in `cs` arrive below the highest counter seen before
/// them (that of `start` and the earlier counters in `cs`).
pub open spec fn late_arrivals(start: u64, cs: Seq<u64>) -> nat
    decreases cs.len(),
{
    if cs.len() == 0 {
        0
    } else {
        late_arrivals(start, cs.drop_last()) + if cs.last() < highest_of(start, cs.drop_last()) {
            1nat
        } else {
            0nat
        }
    }
}

/// The receiver after recording each reception of `rs` in turn.
pub open spec fn spec_record_all(r: ReceiverView, rs: Seq<Reception>) -> ReceiverView
    decreases rs.len(),
{
    if rs.len() == 0 {
        r
    } else {
        let x = rs.last();
        spec_record_recv(
            spec_record_all(r, rs.drop_last()),
            x.counter,
            x.sender_timestamp_ms,
            x.bytes,
            x.ce_flag,
            x.now,
        ).0
    }
}

/// Whether every reception of `rs` can be recorded in turn.
pub open spec fn can_record_all(r: ReceiverView, rs: Seq<Reception>) -> bool
    decreases rs.len(),
{
    if rs.len() == 0 {
        true
    } else {
        let x = rs.last();
        can_record_all(r, rs.drop_last()) && can_record(
            spec_record_all(r, rs.drop_last()),
            x.counter,
            x.sender_timestamp_ms,
            x.bytes,
            x.now,
        )
    }
}

/// Over any run of receptions the receiver counts every frame, tracks the
/// highest counter seen, and counts as reordered exactly the frames that
/// arrive below the highest counter seen before them.
pub proof fn lemma_record_all_counts(r: ReceiverView, rs: Seq<Reception>)
    requires
        can_record_all(r, rs),
    ensures
        spec_record_all(r, rs).cumulative_packets_recv == r.cumulative_packets_recv + rs.len(),
        spec_record_all(r, rs).highest_counter == highest_of(r.highest_counter, counters_of(rs)),
        spec_record_all(r, rs).cumulative_reorder_count == r.cumulative_reorder_count + late_arrivals(
            r.highest_counter,
            counters_of(rs),
        ),
        rs.len() > 0 ==> spec_record_all(r, rs).interval_has_data,
    decreases rs.len(),
{
    if rs.len() > 0 {
        lemma_record_all_counts(r, rs.drop_last());
        assert(counters_of(rs).drop_last() =~= counters_of(rs.drop_last()));
        assert(counters_of(rs).last() == rs.last().counter);
    }
}

/// The report that closes the interval after a run of receptions carries the
/// receiver's own totals: the packets counted, the highest counter seen, the
/// frames that arrived out of order (within 32 bits), and the estimator
/// outputs it was given.
pub proof fn lemma_report_after_receptions(
    r: ReceiverView,
    rs: Seq<Reception>,
    now: Instant,
    jitter_us: u32,
    owd_trend: i32,
)
    requires
        can_record_all(r, rs),
        rs.len() > 0,
    ensures
        ({
            let after = spec_record_all(r, rs);
            let report = spec_receiver_report(after, now, jitter_us, owd_trend);
            &&& after.interval_has_data
            &&& report.cumulative_packets_recv == r.cumulative_packets_recv + rs.len()
            &&& report.highest_counter == highest_of(r.highest_counter, counters_of(rs))
            &&& report.cumulative_reorder_count == (r.cumulative_reorder_count + late_arrivals(
                r.highest_counter,
                counters_of(rs),
            )) % 0x1_0000_0000
            &&& report.jitter == jitter_us
            &&& report.owd_trend == owd_trend
        }),
{
    lemma_record_all_counts(r, rs);
}

/// From a fresh receiver, the report after a run of receptions counts the
/// frames that arrived below the highest counter seen before them.
pub proof fn lemma_fresh_report_counts_reordering(
    cold_start_ms: u64,
    rs: Seq<Reception>,
    now: Instant,
    jitter_us: u32,
    owd_trend: i32,
)
    requires
        can_record_all(ReceiverState::spec_fresh(cold_start_ms), rs),
        rs.len() > 0,
    ensures
        spec_receiver_report(
            spec_record_all(ReceiverState::spec_fresh(cold_start_ms), rs),
            now,
            jitter_us,
            owd_trend,
        ).cumulative_reorder_count == late_arrivals(0, counters_of(rs)) % 0x1_0000_0000,
{
    lemma_report_after_receptions(ReceiverState::spec_fresh(cold_start_ms), rs, now, jitter_us, owd_trend);
}

} // verus!
