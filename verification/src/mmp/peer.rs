//! The metrics state of one peer link: sender and receiver interval state,
//! receiver-report intake and log pacing, and how the link's report traffic
//! drives them.

use vstd::prelude::*;

use crate::mmp::intake::{
    spec_accept, spec_reverse, LogPacer, ReportDeltas, ReportIntake, ReverseDelta,
};
use crate::mmp::gap::can_finish_burst;
use crate::mmp::receiver::{
    spec_after_report, spec_after_srtt, spec_receiver_report, spec_rekey_reset, spec_report_due,
    ReceiverState, REKEY_JITTER_GRACE_SECS,
};
use crate::mmp::report::ReceiverReport;
use crate::mmp::sender::{spec_sender_after_srtt, SenderState};
use crate::time::Instant;

verus! {

/// The metrics state of one peer link.
pub struct MmpPeerState {
    pub sender: SenderState,
    pub receiver: ReceiverState,
    pub intake: ReportIntake,
    pub log: LogPacer,
}

impl MmpPeerState {
    pub fn new() -> (s: Self)
        ensures
            s.sender@ == SenderState::spec_fresh(crate::mmp::report::DEFAULT_COLD_START_INTERVAL_MS),
            s.receiver@ == ReceiverState::spec_fresh(crate::mmp::report::DEFAULT_COLD_START_INTERVAL_MS),
            s.intake == (ReportIntake { baseline: None, reverse: None }),
            s.log == (LogPacer {
                interval: crate::time::Duration { micros: (crate::mmp::intake::DEFAULT_LOG_INTERVAL_SECS * 1_000_000) as u64 },
                last_log_time: None,
            }),
    {
        MmpPeerState {
            sender: SenderState::new(),
            receiver: ReceiverState::new(crate::mmp::report::DEFAULT_OWD_WINDOW_SIZE),
            intake: ReportIntake::new(),
            log: LogPacer::new(),
        }
    }

    /// The counter-dependent state restarts at a rekey cutover.
    pub fn reset_for_rekey(&mut self, now: Instant)
        requires
            now.micros + REKEY_JITTER_GRACE_SECS * 1_000_000 <= u64::MAX,
        ensures
            final(self).receiver@ == spec_rekey_reset(old(self).receiver@, now),
            final(self).intake == (ReportIntake { baseline: None, reverse: None }),
            final(self).sender@ == old(self).sender@,
            final(self).log == old(self).log,
    {
        self.receiver.reset_for_rekey(now);
        self.intake.reset_for_rekey();
    }

    /// Whether a periodic metrics log is due.
    pub fn should_log(&self, now: Instant) -> (r: bool)
        requires
            self.log.last_log_time matches Some(t) ==> t.micros <= now.micros,
        ensures
            r == (match self.log.last_log_time {
                None => true,
                Some(t) => now.micros - t.micros >= self.log.interval.micros,
            }),
    {
        self.log.should_log(now)
    }

    /// A periodic metrics log was emitted.
    pub fn mark_logged(&mut self, now: Instant)
        ensures
            final(self).log == (LogPacer { last_log_time: Some(now), ..old(self).log }),
            final(self).sender@ == old(self).sender@,
            final(self).receiver@ == old(self).receiver@,
            final(self).intake == old(self).intake,
    {
        self.log.mark_logged(now);
    }

    /// The peer's sender report arrived at `now`: when our receiver report is
    /// due it closes the interval and is returned for sending.
    pub fn on_sender_report(&mut self, now: Instant, jitter_us: u32, owd_trend: i32) -> (r: Option<ReceiverReport>)
        requires
            old(self).receiver@.last_report_time matches Some(t) ==> t.micros <= now.micros,
            old(self).receiver@.last_recv_time matches Some(t) ==> t.micros <= now.micros,
            can_finish_burst(old(self).receiver@.gap),
        ensures
            spec_report_due(old(self).receiver@, now) ==> {
                &&& r == Some(spec_receiver_report(old(self).receiver@, now, jitter_us, owd_trend))
                &&& final(self).receiver@ == spec_after_report(old(self).receiver@, now)
            },
            !spec_report_due(old(self).receiver@, now) ==> r is None && final(self).receiver@ == old(
                self,
            ).receiver@,
            final(self).sender@ == old(self).sender@,
            final(self).intake == old(self).intake,
    {
        if self.receiver.should_send_report(now) {
            self.receiver.build_report(now, jitter_us, owd_trend)
        } else {
            None
        }
    }

    /// The peer's receiver report arrived at our timestamp `our_ts` and
    /// instant `now`: it is taken in (or refused), and the reverse-direction
    /// sample is taken from what we received.
    pub fn on_receiver_report(&mut self, rr: &ReceiverReport, our_ts: u32, now: Instant) -> (r: (
        Option<ReportDeltas>,
        Option<ReverseDelta>,
    ))
        requires
            old(self).intake.baseline matches Some(b) ==> b.time.micros <= now.micros,
        ensures
            (final(self).intake.baseline, r.0) == spec_accept(old(self).intake.baseline, *rr, our_ts, now),
            (final(self).intake.reverse, r.1) == spec_reverse(
                old(self).intake.reverse,
                old(self).receiver@.cumulative_packets_recv,
                old(self).receiver@.highest_counter,
            ),
            final(self).sender@ == old(self).sender@,
            final(self).receiver@ == old(self).receiver@,
    {
        let deltas = self.intake.accept(rr, our_ts, now);
        let our_recv = self.receiver.cumulative_packets_recv();
        let peer_highest = self.receiver.highest_counter();
        let reverse = self.intake.reverse_delta(our_recv, peer_highest);
        (deltas, reverse)
    }
    /// A new smoothed RTT estimate (µs) adapts both report intervals.
    pub fn apply_srtt(&mut self, srtt_us: i64)
        requires
            srtt_us <= i64::MAX / 2,
        ensures
            final(self).sender@ == spec_sender_after_srtt(old(self).sender@, srtt_us),
            final(self).receiver@ == spec_after_srtt(old(self).receiver@, srtt_us),
            final(self).intake == old(self).intake,
            final(self).log == old(self).log,
    {
        self.sender.update_report_interval_from_srtt(srtt_us);
        self.receiver.update_report_interval_from_srtt(srtt_us);
    }
}

} // verus!
