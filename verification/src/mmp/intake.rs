//! Taking in the peer's receiver reports: which reports count, the RTT sample
//! a timestamp echo yields, and the counter deltas since the last accepted
//! report. The smoothing estimators consume what comes out.

use vstd::prelude::*;

use crate::mmp::report::ReceiverReport;
use crate::time::{Duration, Instant};

verus! {

/// Seconds between periodic metrics logs.
pub const DEFAULT_LOG_INTERVAL_SECS: u64 = 30;

/// The RTT sample (ms) of a report echoing our timestamp `echo` after holding
/// it `dwell` ms, seen at our timestamp `our_ts`: none without an echo, when
/// the sums leave the 32-bit range, or when it is not positive.
pub open spec fn spec_rtt_sample_ms(echo: u32, dwell: u16, our_ts: u32) -> Option<u32> {
    if echo == 0 || echo + dwell > u32::MAX || our_ts < echo + dwell || our_ts - (echo + dwell) == 0 {
        None
    } else {
        Some((our_ts - (echo + dwell)) as u32)
    }
}

pub fn rtt_sample_ms(echo: u32, dwell: u16, our_ts: u32) -> (r: Option<u32>)
    ensures
        r == spec_rtt_sample_ms(echo, dwell, our_ts),
{
    if echo == 0 {
        return None;
    }
    let send_done = match echo.checked_add(dwell as u32) {
        Some(v) => v,
        None => return None,
    };
    match our_ts.checked_sub(send_done) {
        Some(rtt) => if rtt > 0 {
            Some(rtt)
        } else {
            None
        },
        None => None,
    }
}

/// `a - b`, or zero when `b` is larger.
pub open spec fn sat_sub(a: u64, b: u64) -> u64 {
    if a >= b {
        (a - b) as u64
    } else {
        0
    }
}

/// The counters of the last accepted report.
#[derive(Debug, Clone, Copy, PartialEq, Eq, Structural)]
pub struct ReportBaseline {
    pub highest_counter: u64,
    pub cum_packets: u64,
    pub cum_bytes: u64,
    pub ecn_ce: u32,
    pub reorder: u32,
    pub time: Instant,
}

/// Counter span, packets and bytes between two accepted reports.
#[derive(Debug, Clone, Copy, PartialEq, Eq, Structural)]
pub struct CounterDeltas {
    pub counter_span: u64,
    pub packets: u64,
    pub bytes: u64,
}

/// What an accepted report contributes to the link metrics.
#[derive(Debug, Clone, Copy, PartialEq, Eq, Structural)]
pub struct ReportDeltas {
    pub rtt_sample_ms: Option<u32>,
    /// Counter span, packets and bytes since the previous accepted report
    /// (`None` for the first one).
    pub since_previous: Option<CounterDeltas>,
    /// Time since the previous accepted report.
    pub elapsed: Option<Duration>,
    pub jitter_us: u32,
}

/// Whether a report's counters went back, or all stayed exactly where the
/// previous report left them.
pub open spec fn spec_stale_or_duplicate(b: ReportBaseline, rr: ReceiverReport) -> bool {
    let regressed = rr.highest_counter < b.highest_counter || rr.cumulative_packets_recv < b.cum_packets
        || rr.cumulative_bytes_recv < b.cum_bytes || rr.ecn_ce_count < b.ecn_ce || rr.cumulative_reorder_count
        < b.reorder;
    let duplicate = rr.highest_counter == b.highest_counter && rr.cumulative_packets_recv == b.cum_packets
        && rr.cumulative_bytes_recv == b.cum_bytes && rr.ecn_ce_count == b.ecn_ce && rr.cumulative_reorder_count
        == b.reorder;
    regressed || duplicate
}

/// The baseline a report at `now` leaves.
pub open spec fn baseline_of(rr: ReceiverReport, now: Instant) -> ReportBaseline {
    ReportBaseline {
        highest_counter: rr.highest_counter,
        cum_packets: rr.cumulative_packets_recv,
        cum_bytes: rr.cumulative_bytes_recv,
        ecn_ce: rr.ecn_ce_count,
        reorder: rr.cumulative_reorder_count,
        time: now,
    }
}

/// What taking in `rr` at our timestamp `our_ts` and instant `now` yields:
/// a stale or duplicate report is refused and changes nothing; otherwise the
/// report becomes the baseline and its deltas against the previous one are
/// returned.
pub open spec fn spec_accept(prev: Option<ReportBaseline>, rr: ReceiverReport, our_ts: u32, now: Instant) -> (
    Option<ReportBaseline>,
    Option<ReportDeltas>,
) {
    match prev {
        Some(b) if spec_stale_or_duplicate(b, rr) => (prev, None),
        _ => (
            Some(baseline_of(rr, now)),
            Some(
                ReportDeltas {
                    rtt_sample_ms: spec_rtt_sample_ms(rr.timestamp_echo, rr.dwell_time, our_ts),
                    since_previous: match prev {
                        Some(b) => Some(
                            CounterDeltas {
                                counter_span: sat_sub(rr.highest_counter, b.highest_counter),
                                packets: sat_sub(rr.cumulative_packets_recv, b.cum_packets),
                                bytes: sat_sub(rr.cumulative_bytes_recv, b.cum_bytes),
                            },
                        ),
                        None => None,
                    },
                    elapsed: match prev {
                        Some(b) => Some(Duration { micros: (now.micros - b.time.micros) as u64 }),
                        None => None,
                    },
                    jitter_us: rr.jitter,
                },
            ),
        ),
    }
}

/// The previous reverse-direction sample: our received-packet count and the
/// peer's highest counter.
#[derive(Debug, Clone, Copy, PartialEq, Eq, Structural)]
pub struct ReverseBaseline {
    pub our_recv_packets: u64,
    pub peer_highest: u64,
}

/// Counter span and packets delta between two reverse-direction samples.
#[derive(Debug, Clone, Copy, PartialEq, Eq, Structural)]
pub struct ReverseDelta {
    pub counter_span: u64,
    pub packets: u64,
}

/// Taking in a reverse-direction sample: the counter span and packets
/// delta against the previous sample, if any.
pub open spec fn spec_reverse(prev: Option<ReverseBaseline>, our_recv_packets: u64, peer_highest: u64) -> (
    Option<ReverseBaseline>,
    Option<ReverseDelta>,
) {
    (
        Some(ReverseBaseline { our_recv_packets, peer_highest }),
        match prev {
            Some(b) => Some(
                ReverseDelta {
                    counter_span: sat_sub(peer_highest, b.peer_highest),
                    packets: sat_sub(our_recv_packets, b.our_recv_packets),
                },
            ),
            None => None,
        },
    )
}

/// The report-intake state of a link.
#[derive(Debug, Clone, Copy, PartialEq, Eq, Structural)]
pub struct ReportIntake {
    pub baseline: Option<ReportBaseline>,
    pub reverse: Option<ReverseBaseline>,
}

fn sub_or_zero(a: u64, b: u64) -> (r: u64)
    ensures
        r == sat_sub(a, b),
{
    if a >= b {
        a - b
    } else {
        0
    }
}

impl ReportIntake {
    pub fn new() -> (r: Self)
        ensures
            r == (ReportIntake { baseline: None, reverse: None }),
    {
        ReportIntake { baseline: None, reverse: None }
    }

    /// Forgets every baseline at a rekey cutover.
    pub fn reset_for_rekey(&mut self)
        ensures
            *final(self) == (ReportIntake { baseline: None, reverse: None }),
    {
        self.baseline = None;
        self.reverse = None;
    }

    /// Whether `rr` repeats or regresses the last accepted report.
    pub fn is_stale_or_duplicate(&self, rr: &ReceiverReport) -> (r: bool)
        ensures
            r == (self.baseline matches Some(b) && spec_stale_or_duplicate(b, *rr)),
    {
        match self.baseline {
            None => false,
            Some(b) => {
                let regressed = rr.highest_counter < b.highest_counter || rr.cumulative_packets_recv < b.cum_packets
                    || rr.cumulative_bytes_recv < b.cum_bytes || rr.ecn_ce_count < b.ecn_ce
                    || rr.cumulative_reorder_count < b.reorder;
                let duplicate = rr.highest_counter == b.highest_counter && rr.cumulative_packets_recv
                    == b.cum_packets && rr.cumulative_bytes_recv == b.cum_bytes && rr.ecn_ce_count == b.ecn_ce
                    && rr.cumulative_reorder_count == b.reorder;
                regressed || duplicate
            },
        }
    }

    /// Takes in a receiver report; `None` when it was refused.
    pub fn accept(&mut self, rr: &ReceiverReport, our_ts: u32, now: Instant) -> (d: Option<ReportDeltas>)
        requires
            old(self).baseline matches Some(b) ==> b.time.micros <= now.micros,
        ensures
            (final(self).baseline, d) == spec_accept(old(self).baseline, *rr, our_ts, now),
            final(self).reverse == old(self).reverse,
    {
        if self.is_stale_or_duplicate(rr) {
            return None;
        }
        let rtt = rtt_sample_ms(rr.timestamp_echo, rr.dwell_time, our_ts);
        let (since_previous, elapsed) = match self.baseline {
            Some(b) => (
                Some(
                    CounterDeltas {
                        counter_span: sub_or_zero(rr.highest_counter, b.highest_counter),
                        packets: sub_or_zero(rr.cumulative_packets_recv, b.cum_packets),
                        bytes: sub_or_zero(rr.cumulative_bytes_recv, b.cum_bytes),
                    },
                ),
                Some(now.duration_since(b.time)),
            ),
            None => (None, None),
        };
        self.baseline = Some(
            ReportBaseline {
                highest_counter: rr.highest_counter,
                cum_packets: rr.cumulative_packets_recv,
                cum_bytes: rr.cumulative_bytes_recv,
                ecn_ce: rr.ecn_ce_count,
                reorder: rr.cumulative_reorder_count,
                time: now,
            },
        );
        Some(ReportDeltas { rtt_sample_ms: rtt, since_previous, elapsed, jitter_us: rr.jitter })
    }

    /// Takes in a reverse-direction sample.
    pub fn reverse_delta(&mut self, our_recv_packets: u64, peer_highest: u64) -> (r: Option<ReverseDelta>)
        ensures
            (final(self).reverse, r) == spec_reverse(old(self).reverse, our_recv_packets, peer_highest),
            final(self).baseline == old(self).baseline,
    {
        let r = match self.reverse {
            Some(b) => Some(
                ReverseDelta {
                    counter_span: sub_or_zero(peer_highest, b.peer_highest),
                    packets: sub_or_zero(our_recv_packets, b.our_recv_packets),
                },
            ),
            None => None,
        };
        self.reverse = Some(ReverseBaseline { our_recv_packets, peer_highest });
        r
    }

    /// The ECN CE count of the last accepted report.
    pub fn last_ecn_ce_count(&self) -> (r: u32)
        ensures
            r == (match self.baseline {
                Some(b) => b.ecn_ce,
                None => 0,
            }),
    {
        match self.baseline {
            Some(b) => b.ecn_ce,
            None => 0,
        }
    }
}

/// Paces the periodic metrics log.
#[derive(Debug, Clone, Copy, PartialEq, Eq, Structural)]
pub struct LogPacer {
    pub interval: Duration,
    pub last_log_time: Option<Instant>,
}

impl LogPacer {
    /// A pacer that logs every `DEFAULT_LOG_INTERVAL_SECS`, the first time at once.
    pub fn new() -> (r: Self)
        ensures
            r == (LogPacer { interval: Duration { micros: (DEFAULT_LOG_INTERVAL_SECS * 1_000_000) as u64 }, last_log_time: None }),
    {
        LogPacer { interval: Duration::from_secs(DEFAULT_LOG_INTERVAL_SECS), last_log_time: None }
    }

    /// Whether a log is due at `now`.
    pub fn should_log(&self, now: Instant) -> (r: bool)
        requires
            self.last_log_time matches Some(t) ==> t.micros <= now.micros,
        ensures
            r == (match self.last_log_time {
                None => true,
                Some(t) => now.micros - t.micros >= self.interval.micros,
            }),
    {
        match self.last_log_time {
            None => true,
            Some(last) => now.duration_since(last).as_micros() >= self.interval.as_micros(),
        }
    }

    /// A log was emitted at `now`.
    pub fn mark_logged(&mut self, now: Instant)
        ensures
            *final(self) == (LogPacer { last_log_time: Some(now), ..*old(self) }),
    {
        self.last_log_time = Some(now);
    }
}

/// Whether report `rr` moves forward from the counters of `b`: none of them
/// went back and at least one advanced.
pub open spec fn moves_forward(b: ReportBaseline, rr: ReceiverReport) -> bool {
    let no_step_back = rr.highest_counter >= b.highest_counter && rr.cumulative_packets_recv >= b.cum_packets
        && rr.cumulative_bytes_recv >= b.cum_bytes && rr.ecn_ce_count >= b.ecn_ce && rr.cumulative_reorder_count
        >= b.reorder;
    let some_step = rr.highest_counter > b.highest_counter || rr.cumulative_packets_recv > b.cum_packets
        || rr.cumulative_bytes_recv > b.cum_bytes || rr.ecn_ce_count > b.ecn_ce || rr.cumulative_reorder_count
        > b.reorder;
    no_step_back && some_step
}

/// A report is taken in exactly when it is the first one or moves forward
/// from the last one taken in. A report taken in becomes the baseline, and
/// what it feeds the link metrics is the peer's own jitter figure and the RTT
/// its timestamp echo yields; a refused report changes nothing.
pub proof fn lemma_accepted_report_feeds_metrics(
    prev: Option<ReportBaseline>,
    rr: ReceiverReport,
    our_ts: u32,
    now: Instant,
)
    ensures
        ({
            let (after, d) = spec_accept(prev, rr, our_ts, now);
            &&& d is Some <==> (prev matches Some(b) ==> moves_forward(b, rr))
            &&& d matches Some(x) ==> {
                &&& x.jitter_us == rr.jitter
                &&& x.rtt_sample_ms == spec_rtt_sample_ms(rr.timestamp_echo, rr.dwell_time, our_ts)
                &&& (x.since_previous is None <==> prev is None)
                &&& after == Some(
                    ReportBaseline {
                        highest_counter: rr.highest_counter,
                        cum_packets: rr.cumulative_packets_recv,
                        cum_bytes: rr.cumulative_bytes_recv,
                        ecn_ce: rr.ecn_ce_count,
                        reorder: rr.cumulative_reorder_count,
                        time: now,
                    },
                )
            }
            &&& d is None ==> after == prev
        }),
{
}

/// Two reports taken in one after the other: the second yields exactly how
/// far its counters moved past the first, the time between them, and its own
/// jitter figure.
pub proof fn lemma_consecutive_reports(
    prev: Option<ReportBaseline>,
    rr1: ReceiverReport,
    rr2: ReceiverReport,
    ts1: u32,
    ts2: u32,
    t1: Instant,
    t2: Instant,
)
    requires
        spec_accept(prev, rr1, ts1, t1).1 is Some,
        t1.micros <= t2.micros,
        moves_forward(baseline_of(rr1, t1), rr2),
    ensures
        spec_accept(spec_accept(prev, rr1, ts1, t1).0, rr2, ts2, t2).1 == Some(
            ReportDeltas {
                rtt_sample_ms: spec_rtt_sample_ms(rr2.timestamp_echo, rr2.dwell_time, ts2),
                since_previous: Some(
                    CounterDeltas {
                        counter_span: (rr2.highest_counter - rr1.highest_counter) as u64,
                        packets: (rr2.cumulative_packets_recv - rr1.cumulative_packets_recv) as u64,
                        bytes: (rr2.cumulative_bytes_recv - rr1.cumulative_bytes_recv) as u64,
                    },
                ),
                elapsed: Some(Duration { micros: (t2.micros - t1.micros) as u64 }),
                jitter_us: rr2.jitter,
            },
        ),
{
}

/// Once a report was accepted, sending the same report again is refused and
/// changes nothing, and so is any report whose counters went back.
pub proof fn lemma_duplicate_report_refused(
    prev: Option<ReportBaseline>,
    rr: ReceiverReport,
    older: ReceiverReport,
    our_ts: u32,
    now: Instant,
    later_ts: u32,
    later: Instant,
)
    requires
        spec_accept(prev, rr, our_ts, now).1 is Some,
        older.highest_counter < rr.highest_counter,
    ensures
        ({
            let after = spec_accept(prev, rr, our_ts, now).0;
            &&& spec_accept(after, rr, later_ts, later) == (after, None::<ReportDeltas>)
            &&& spec_accept(after, older, later_ts, later) == (after, None::<ReportDeltas>)
        }),
{
}

/// The RTT sample is exactly the time between our send and the echo's
/// arrival, less the time the peer held it.
pub proof fn lemma_rtt_sample_exact(echo: u32, dwell: u16, our_ts: u32)
    requires
        echo > 0,
        echo + dwell < our_ts,
    ensures
        spec_rtt_sample_ms(echo, dwell, our_ts) == Some((our_ts - echo - dwell) as u32),
{
}

} // verus!
