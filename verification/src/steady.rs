//! Decisions of an established link: when it is dead, when the timers fire,
//! which key epoch a frame is tried under, how a rekey is paced and when the
//! previous epoch is retired.
//!
//! The runtime owns the keys, the transport and the clock; it hands each
//! event to [`SteadyState`] and performs what comes back.

use vstd::prelude::*;

use crate::node::{spec_resend_timeout_ms, NodeTiming};
use crate::time::{Duration, Instant};

verus! {

/// Seconds the previous key epoch stays live after its last authenticated use.
pub const DRAIN_WINDOW_SECS: u64 = 10;

/// Seconds after a peer-initiated rekey during which we initiate none ourselves.
pub const REKEY_DAMPENING_SECS: u64 = 30;

/// Whether `secs` seconds after `t` is still on the clock.
pub open spec fn fits_secs(t: Instant, secs: u64) -> bool {
    t.micros + secs * 1_000_000 <= u64::MAX
}

/// The instant `secs` seconds after `t`.
pub open spec fn secs_after(t: Instant, secs: u64) -> Instant {
    Instant { micros: (t.micros + secs * 1_000_000) as u64 }
}

/// The instant `ms` milliseconds after `t`.
pub open spec fn ms_after(t: Instant, ms: u64) -> Instant {
    Instant { micros: (t.micros + ms * 1_000) as u64 }
}

/// Whole seconds from `earlier` to `now`, zero when `earlier` is later.
pub open spec fn whole_secs_since(now: Instant, earlier: Instant) -> int {
    if earlier.micros <= now.micros {
        (now.micros - earlier.micros) / 1_000_000
    } else {
        0
    }
}

/// The earlier of two instants.
pub open spec fn earlier_of(a: Instant, b: Instant) -> Instant {
    if a.micros <= b.micros {
        a
    } else {
        b
    }
}

fn after_secs(t: Instant, secs: u64) -> (r: Instant)
    requires
        fits_secs(t, secs),
    ensures
        r == secs_after(t, secs),
{
    t.plus(Duration::from_secs(secs))
}

fn secs_since(now: Instant, earlier: Instant) -> (r: u64)
    ensures
        r == whole_secs_since(now, earlier),
{
    now.saturating_duration_since(earlier).as_secs()
}

fn earlier(a: Instant, b: Instant) -> (r: Instant)
    ensures
        r == earlier_of(a, b),
{
    if a.micros <= b.micros {
        a
    } else {
        b
    }
}

/// A key epoch of the link.
#[derive(Debug, Clone, Copy, PartialEq, Eq, Structural)]
pub enum EpochSlotKind {
    /// The active epoch.
    Current,
    /// A completed rekey waiting for the cutover.
    Pending,
    /// The retired epoch, kept for stragglers.
    Previous,
}

/// What to do with an inbound rekey msg1.
#[derive(Debug, Clone, Copy, PartialEq, Eq, Structural)]
pub enum RekeyMsg1Action {
    /// A resend of the msg1 already answered: send the cached msg2 again.
    ResendCachedAnswer,
    /// A new msg1: run the responder handshake.
    AnswerFresh,
    /// A new msg1 arriving too soon after the last fresh answer: drop it.
    Suppress,
}

/// What to do with a frame that no live epoch decrypts.
#[derive(Debug, Clone, Copy, PartialEq, Eq, Structural)]
pub enum UndecryptableAction {
    /// Inside the grace window after a key-epoch boundary: drop it silently.
    DropInGrace,
    /// Drop it and charge it to the bad-frame policy.
    Charge,
}

/// The timers and key-epoch bookkeeping of an established link.
#[derive(Debug, Clone, Copy, PartialEq, Eq, Structural)]
pub struct SteadyState {
    pub next_heartbeat: Instant,
    pub next_sender_report: Instant,
    pub next_receiver_report: Instant,
    /// Last authenticated traffic from the peer.
    pub last_rx: Instant,
    /// Until this instant undecryptable frames are not charged.
    pub bad_frame_grace_until: Instant,
    /// Start of the current key epoch.
    pub epoch_started: Instant,
    /// Last authenticated use of the previous epoch.
    pub prev_drain_base: Instant,
    pub last_peer_rekey_at: Option<Instant>,
    pub last_fresh_answer_at: Option<Instant>,
    /// The key-epoch bit of the current epoch.
    pub current_k_bit: bool,
    pub has_pending: bool,
    /// The pending epoch was armed by a rekey we initiated.
    pub pending_self: bool,
    pub has_previous: bool,
}

impl SteadyState {
    /// Whether the entry timers of a link established at `now` are on the clock.
    pub open spec fn entry_fits(now: Instant, timing: NodeTiming) -> bool {
        &&& fits_secs(now, 1)
        &&& fits_secs(now, timing.heartbeat_interval_secs / 2)
        &&& fits_secs(now, timing.bad_frame_grace_secs)
    }

    /// The state of a link established at `now`: first heartbeat after one
    /// second, first reports after half a heartbeat interval, and the entry
    /// itself treated as a key-epoch boundary.
    pub open spec fn spec_enter(now: Instant, timing: NodeTiming) -> SteadyState {
        SteadyState {
            next_heartbeat: secs_after(now, 1),
            next_sender_report: secs_after(now, timing.heartbeat_interval_secs / 2),
            next_receiver_report: secs_after(now, timing.heartbeat_interval_secs / 2),
            last_rx: now,
            bad_frame_grace_until: secs_after(now, timing.bad_frame_grace_secs),
            epoch_started: now,
            prev_drain_base: now,
            last_peer_rekey_at: None,
            last_fresh_answer_at: None,
            current_k_bit: false,
            has_pending: false,
            pending_self: false,
            has_previous: false,
        }
    }

    pub fn enter(now: Instant, timing: &NodeTiming) -> (s: Self)
        requires
            Self::entry_fits(now, *timing),
        ensures
            s == Self::spec_enter(now, *timing),
    {
        let report_at = after_secs(now, timing.heartbeat_interval_secs / 2);
        SteadyState {
            next_heartbeat: after_secs(now, 1),
            next_sender_report: report_at,
            next_receiver_report: report_at,
            last_rx: now,
            bad_frame_grace_until: after_secs(now, timing.bad_frame_grace_secs),
            epoch_started: now,
            prev_drain_base: now,
            last_peer_rekey_at: None,
            last_fresh_answer_at: None,
            current_k_bit: false,
            has_pending: false,
            pending_self: false,
            has_previous: false,
        }
    }

    /// The link is dead once more whole seconds than the timeout have passed
    /// without authenticated traffic.
    pub fn link_dead(&self, now: Instant, timing: &NodeTiming) -> (r: bool)
        ensures
            r == (whole_secs_since(now, self.last_rx) > timing.link_dead_timeout_secs),
    {
        secs_since(now, self.last_rx) > timing.link_dead_timeout_secs
    }

    /// When to wake if nothing arrives: the earliest timer, or the handler's
    /// tick if that comes first.
    pub open spec fn spec_wake_at(self, tick: Option<Instant>) -> Instant {
        let base = earlier_of(earlier_of(self.next_heartbeat, self.next_sender_report), self.next_receiver_report);
        match tick {
            Some(t) => earlier_of(t, base),
            None => base,
        }
    }

    pub fn wake_at(&self, tick: Option<Instant>) -> (r: Instant)
        ensures
            r == self.spec_wake_at(tick),
    {
        let base = earlier(earlier(self.next_heartbeat, self.next_sender_report), self.next_receiver_report);
        match tick {
            Some(t) => earlier(t, base),
            None => base,
        }
    }

    /// Whether a fresh rekey answer is allowed at `now`.
    pub open spec fn fresh_answer_allowed(self, now: Instant, timing: NodeTiming) -> bool {
        match self.last_fresh_answer_at {
            None => true,
            Some(t) => now.micros - t.micros >= timing.rekey_answer_min_interval_ms * 1000,
        }
    }

    /// The action for an inbound rekey msg1 and the state after it.
    pub open spec fn spec_on_rekey_msg1(self, duplicate: bool, now: Instant, timing: NodeTiming) -> (
        SteadyState,
        RekeyMsg1Action,
    ) {
        if duplicate {
            (SteadyState { last_peer_rekey_at: Some(now), last_rx: now, ..self }, RekeyMsg1Action::ResendCachedAnswer)
        } else if self.fresh_answer_allowed(now, timing) {
            (SteadyState { last_fresh_answer_at: Some(now), ..self }, RekeyMsg1Action::AnswerFresh)
        } else {
            (self, RekeyMsg1Action::Suppress)
        }
    }

    /// An inbound rekey msg1. A byte-identical resend of the msg1 already
    /// answered counts as traffic from the peer; a new one is answered at most
    /// once per `rekey_answer_min_interval_ms`, and a suppressed one is a pure
    /// drop.
    pub fn on_rekey_msg1(&mut self, duplicate: bool, now: Instant, timing: &NodeTiming) -> (a: RekeyMsg1Action)
        requires
            old(self).last_fresh_answer_at matches Some(t) ==> t.micros <= now.micros,
            timing.rekey_answer_min_interval_ms * 1000 <= u64::MAX,
        ensures
            (*final(self), a) == old(self).spec_on_rekey_msg1(duplicate, now, *timing),
    {
        if duplicate {
            self.last_peer_rekey_at = Some(now);
            self.last_rx = now;
            return RekeyMsg1Action::ResendCachedAnswer;
        }
        let allowed = match self.last_fresh_answer_at {
            None => true,
            Some(t) => now.duration_since(t).as_micros() >= Duration::from_millis(
                timing.rekey_answer_min_interval_ms,
            ).as_micros(),
        };
        if allowed {
            self.last_fresh_answer_at = Some(now);
            RekeyMsg1Action::AnswerFresh
        } else {
            RekeyMsg1Action::Suppress
        }
    }

    /// The peer's fresh rekey msg1 passed the responder handshake.
    pub fn on_rekey_answered(&mut self, now: Instant)
        ensures
            *final(self) == (SteadyState { last_peer_rekey_at: Some(now), last_rx: now, ..*old(self) }),
    {
        self.last_peer_rekey_at = Some(now);
        self.last_rx = now;
    }

    /// Other rekey handshake traffic from the peer.
    pub fn on_rekey_traffic(&mut self, now: Instant)
        ensures
            *final(self) == (SteadyState { last_rx: now, ..*old(self) }),
    {
        self.last_rx = now;
    }

    /// A rekey answered for the peer completed: its epoch is pending until
    /// the peer proves the cutover.
    pub fn arm_pending_for_peer(&mut self)
        ensures
            *final(self) == (SteadyState { has_pending: true, ..*old(self) }),
    {
        self.has_pending = true;
    }

    /// A rekey we initiated completed: its epoch is promoted at the next tick.
    pub fn arm_pending_for_self(&mut self)
        ensures
            *final(self) == (SteadyState { has_pending: true, pending_self: true, ..*old(self) }),
    {
        self.has_pending = true;
        self.pending_self = true;
    }

    /// The pending epoch is tried first when the frame's key-epoch bit
    /// differs from the current epoch's.
    pub open spec fn spec_pending_first(self, recv_k_bit: bool) -> bool {
        recv_k_bit != self.current_k_bit && self.has_pending
    }

    /// The live epochs in the order a frame is tried under them.
    pub open spec fn spec_trial_order(self, recv_k_bit: bool) -> Seq<EpochSlotKind> {
        let pending = if self.has_pending {
            seq![EpochSlotKind::Pending]
        } else {
            Seq::<EpochSlotKind>::empty()
        };
        let previous = if self.has_previous {
            seq![EpochSlotKind::Previous]
        } else {
            Seq::<EpochSlotKind>::empty()
        };
        if self.spec_pending_first(recv_k_bit) {
            pending + seq![EpochSlotKind::Current] + previous
        } else {
            seq![EpochSlotKind::Current] + pending + previous
        }
    }

    /// The epochs to try a frame under, in order; the first that decrypts wins.
    pub fn trial_order(&self, recv_k_bit: bool) -> (order: Vec<EpochSlotKind>)
        ensures
            order@ == self.spec_trial_order(recv_k_bit),
    {
        let mut order: Vec<EpochSlotKind> = Vec::new();
        let pending_first = recv_k_bit != self.current_k_bit && self.has_pending;
        if pending_first {
            order.push(EpochSlotKind::Pending);
            order.push(EpochSlotKind::Current);
        } else {
            order.push(EpochSlotKind::Current);
            if self.has_pending {
                order.push(EpochSlotKind::Pending);
            }
        }
        if self.has_previous {
            order.push(EpochSlotKind::Previous);
        }
        proof {
            if pending_first {
                assert(order@ =~= self.spec_trial_order(recv_k_bit));
            } else if self.has_pending {
                assert(order@ =~= self.spec_trial_order(recv_k_bit));
            } else {
                assert(order@ =~= self.spec_trial_order(recv_k_bit));
            }
        }
        order
    }

    /// The cutover to the pending epoch at `now`: the current epoch becomes
    /// the previous one, the key-epoch bit flips, the new epoch starts aging
    /// and a new grace window opens.
    pub open spec fn spec_cutover(self, now: Instant, timing: NodeTiming) -> SteadyState {
        SteadyState {
            has_pending: false,
            has_previous: true,
            current_k_bit: !self.current_k_bit,
            prev_drain_base: now,
            epoch_started: now,
            bad_frame_grace_until: secs_after(now, timing.bad_frame_grace_secs),
            ..self
        }
    }

    /// The state after a frame decrypted under `slot` at `now`.
    pub open spec fn spec_on_decrypted(self, slot: EpochSlotKind, now: Instant, timing: NodeTiming) -> SteadyState {
        match slot {
            EpochSlotKind::Current => SteadyState { last_rx: now, ..self },
            EpochSlotKind::Pending => SteadyState { last_rx: now, ..self.spec_cutover(now, timing) },
            EpochSlotKind::Previous => SteadyState { last_rx: now, prev_drain_base: now, ..self },
        }
    }

    /// A frame authenticated under `slot`. Success under the pending epoch is
    /// the peer's cutover proof; under the previous one it holds that epoch
    /// open for another drain window.
    pub fn on_decrypted(&mut self, slot: EpochSlotKind, now: Instant, timing: &NodeTiming)
        requires
            slot == EpochSlotKind::Pending ==> old(self).has_pending && fits_secs(
                now,
                timing.bad_frame_grace_secs,
            ),
            slot == EpochSlotKind::Previous ==> old(self).has_previous,
        ensures
            *final(self) == old(self).spec_on_decrypted(slot, now, *timing),
    {
        match slot {
            EpochSlotKind::Current => {
                self.last_rx = now;
            },
            EpochSlotKind::Pending => {
                self.cutover(now, timing);
                self.last_rx = now;
            },
            EpochSlotKind::Previous => {
                self.last_rx = now;
                self.prev_drain_base = now;
            },
        }
    }

    fn cutover(&mut self, now: Instant, timing: &NodeTiming)
        requires
            fits_secs(now, timing.bad_frame_grace_secs),
        ensures
            *final(self) == old(self).spec_cutover(now, *timing),
    {
        self.has_pending = false;
        self.has_previous = true;
        self.current_k_bit = !self.current_k_bit;
        self.prev_drain_base = now;
        self.epoch_started = now;
        self.bad_frame_grace_until = after_secs(now, timing.bad_frame_grace_secs);
    }

    /// A frame that no live epoch decrypts.
    pub fn on_undecryptable(&self, now: Instant) -> (a: UndecryptableAction)
        ensures
            a == (if now.micros < self.bad_frame_grace_until.micros {
                UndecryptableAction::DropInGrace
            } else {
                UndecryptableAction::Charge
            }),
    {
        if now.is_before(self.bad_frame_grace_until) {
            UndecryptableAction::DropInGrace
        } else {
            UndecryptableAction::Charge
        }
    }

    /// At a timer wake-up, a pending epoch armed by our own rekey is promoted.
    pub fn on_wake_cutover(&mut self, now: Instant, timing: &NodeTiming) -> (promoted: bool)
        requires
            fits_secs(now, timing.bad_frame_grace_secs),
        ensures
            promoted == (old(self).pending_self && old(self).has_pending),
            promoted ==> *final(self) == (SteadyState {
                pending_self: false,
                ..old(self).spec_cutover(now, *timing)
            }),
            !promoted ==> *final(self) == *old(self),
    {
        if self.pending_self && self.has_pending {
            self.cutover(now, timing);
            self.pending_self = false;
            true
        } else {
            false
        }
    }

    /// Whether we initiated no rekey because the peer initiated one recently.
    pub open spec fn rekey_dampened(self, now: Instant) -> bool {
        self.last_peer_rekey_at matches Some(t) && whole_secs_since(now, t) < REKEY_DAMPENING_SECS
    }

    /// Whether to initiate a rekey at `now`: none is in flight or pending, the
    /// peer did not rekey recently, and the epoch is old enough or has carried
    /// enough messages (each trigger off at 0).
    pub open spec fn spec_rekey_due(self, now: Instant, send_ctr: u64, rekey_in_flight: bool, timing: NodeTiming) -> bool {
        &&& !rekey_in_flight
        &&& !self.has_pending
        &&& !self.rekey_dampened(now)
        &&& {
            ||| timing.rekey_after_secs > 0 && whole_secs_since(now, self.epoch_started) >= timing.rekey_after_secs
            ||| timing.rekey_after_messages > 0 && send_ctr >= timing.rekey_after_messages
        }
    }

    pub fn rekey_due(&self, now: Instant, send_ctr: u64, rekey_in_flight: bool, timing: &NodeTiming) -> (r: bool)
        ensures
            r == self.spec_rekey_due(now, send_ctr, rekey_in_flight, *timing),
    {
        if rekey_in_flight || self.has_pending {
            return false;
        }
        let dampened = match self.last_peer_rekey_at {
            Some(t) => secs_since(now, t) < REKEY_DAMPENING_SECS,
            None => false,
        };
        if dampened {
            return false;
        }
        (timing.rekey_after_secs > 0 && secs_since(now, self.epoch_started) >= timing.rekey_after_secs) || (
        timing.rekey_after_messages > 0 && send_ctr >= timing.rekey_after_messages)
    }

    /// Whether the previous epoch has been silent for a full drain window.
    pub fn drain_due(&self, now: Instant) -> (r: bool)
        ensures
            r == (self.has_previous && whole_secs_since(now, self.prev_drain_base) > DRAIN_WINDOW_SECS),
    {
        self.has_previous && secs_since(now, self.prev_drain_base) > DRAIN_WINDOW_SECS
    }

    /// The previous epoch's keys were wiped.
    pub fn retire_previous(&mut self)
        ensures
            *final(self) == (SteadyState { has_previous: false, ..*old(self) }),
    {
        self.has_previous = false;
    }

    pub fn heartbeat_due(&self, now: Instant) -> (r: bool)
        ensures
            r == (now.micros >= self.next_heartbeat.micros),
    {
        !now.is_before(self.next_heartbeat)
    }

    /// A heartbeat went out at `now`; the next is due an interval later.
    pub fn heartbeat_sent(&mut self, now: Instant, timing: &NodeTiming)
        requires
            fits_secs(now, timing.heartbeat_interval_secs),
        ensures
            *final(self) == (SteadyState {
                next_heartbeat: secs_after(now, timing.heartbeat_interval_secs),
                ..*old(self)
            }),
    {
        self.next_heartbeat = after_secs(now, timing.heartbeat_interval_secs);
    }

    pub fn sender_report_due(&self, now: Instant) -> (r: bool)
        ensures
            r == (now.micros >= self.next_sender_report.micros),
    {
        !now.is_before(self.next_sender_report)
    }

    /// The sender-report timer fired at `now`; the next is `interval` later.
    pub fn sender_report_rescheduled(&mut self, now: Instant, interval: Duration)
        requires
            now.micros + interval.micros <= u64::MAX,
        ensures
            *final(self) == (SteadyState {
                next_sender_report: Instant { micros: (now.micros + interval.micros) as u64 },
                ..*old(self)
            }),
    {
        self.next_sender_report = now.plus(interval);
    }

    pub fn receiver_report_due(&self, now: Instant) -> (r: bool)
        ensures
            r == (now.micros >= self.next_receiver_report.micros),
    {
        !now.is_before(self.next_receiver_report)
    }

    /// The receiver-report timer fired at `now`; the next is `interval` later.
    pub fn receiver_report_rescheduled(&mut self, now: Instant, interval: Duration)
        requires
            now.micros + interval.micros <= u64::MAX,
        ensures
            *final(self) == (SteadyState {
                next_receiver_report: Instant { micros: (now.micros + interval.micros) as u64 },
                ..*old(self)
            }),
    {
        self.next_receiver_report = now.plus(interval);
    }
}

/// What the resend ladder of a self-initiated rekey does at a wake-up.
#[derive(Debug, Clone, Copy, PartialEq, Eq, Structural)]
pub enum ResendStep {
    /// Not due yet.
    Wait,
    /// Every resend went unanswered: give up this rekey cycle.
    Abandon,
    /// Send the cached msg1 again.
    Resend,
}

/// The resend ladder of a self-initiated rekey msg1.
#[derive(Debug, Clone, Copy, PartialEq, Eq, Structural)]
pub struct RekeyResend {
    pub resends: u32,
    pub next_resend_at: Instant,
}

impl RekeyResend {
    /// The ladder of a msg1 sent at `now`.
    pub fn start(now: Instant, timing: &NodeTiming) -> (r: Self)
        requires
            now.micros + timing.handshake_resend_interval_ms * 1000 <= u64::MAX,
        ensures
            r == (RekeyResend { resends: 0, next_resend_at: ms_after(now, timing.handshake_resend_interval_ms) }),
    {
        RekeyResend { resends: 0, next_resend_at: now.plus(Duration::from_millis(timing.handshake_resend_interval_ms)) }
    }

    /// The ladder at a wake-up at `now`: once due, resend with the backed-off
    /// wait until the resends run out, then abandon.
    pub open spec fn spec_step(self, now: Instant, timing: NodeTiming) -> (RekeyResend, ResendStep) {
        if now.micros < self.next_resend_at.micros {
            (self, ResendStep::Wait)
        } else if self.resends >= timing.handshake_max_resends {
            (self, ResendStep::Abandon)
        } else {
            let n = (self.resends + 1) as u32;
            (
                RekeyResend { resends: n, next_resend_at: ms_after(now, spec_resend_timeout_ms(timing, n) as u64) },
                ResendStep::Resend,
            )
        }
    }

    pub fn step(&mut self, now: Instant, timing: &NodeTiming) -> (s: ResendStep)
        requires
            now.micros + u32::MAX * 1000 <= u64::MAX,
        ensures
            (*final(self), s) == old(self).spec_step(now, *timing),
    {
        if now.is_before(self.next_resend_at) {
            return ResendStep::Wait;
        }
        if self.resends >= timing.handshake_max_resends {
            return ResendStep::Abandon;
        }
        self.resends = self.resends + 1;
        let delay = timing.handshake_resend_timeout_ms(self.resends);
        self.next_resend_at = now.plus(Duration::from_millis(delay as u64));
        ResendStep::Resend
    }
}

/// A fresh rekey answer at `t` suppresses every new rekey msg1 for the next
/// `rekey_answer_min_interval_ms`, while resends of the msg1 already answered
/// are still served.
pub proof fn lemma_rekey_answers_rate_limited(s: SteadyState, t: Instant, now: Instant, timing: NodeTiming)
    requires
        s.spec_on_rekey_msg1(false, t, timing).1 == RekeyMsg1Action::AnswerFresh,
        t.micros <= now.micros,
        now.micros < t.micros + timing.rekey_answer_min_interval_ms * 1000,
    ensures
        ({
            let after = s.spec_on_rekey_msg1(false, t, timing).0;
            &&& after.spec_on_rekey_msg1(false, now, timing).1 == RekeyMsg1Action::Suppress
            &&& after.spec_on_rekey_msg1(false, now, timing).0 == after
            &&& after.spec_on_rekey_msg1(true, now, timing).1 == RekeyMsg1Action::ResendCachedAnswer
        }),
{
}

/// For `REKEY_DAMPENING_SECS` after answering the peer's rekey we initiate
/// none of our own, whatever the triggers say.
pub proof fn lemma_no_rekey_while_dampened(
    s: SteadyState,
    t: Instant,
    now: Instant,
    send_ctr: u64,
    rekey_in_flight: bool,
    timing: NodeTiming,
)
    requires
        t.micros <= now.micros,
        now.micros < t.micros + REKEY_DAMPENING_SECS * 1_000_000,
    ensures
        !(SteadyState { last_peer_rekey_at: Some(t), last_rx: t, ..s }).spec_rekey_due(
            now,
            send_ctr,
            rekey_in_flight,
            timing,
        ),
{
    assert((now.micros - t.micros) / 1_000_000 < REKEY_DAMPENING_SECS);
}

/// The peer's cutover proof promotes the pending epoch: the key-epoch bit
/// flips, the old epoch stays live as the previous one, and frames no epoch
/// decrypts are dropped without charge for the next `bad_frame_grace_secs`.
pub proof fn lemma_cutover_opens_grace(s: SteadyState, now: Instant, later: Instant, timing: NodeTiming)
    requires
        s.has_pending,
        fits_secs(now, timing.bad_frame_grace_secs),
        now.micros <= later.micros,
        later.micros < now.micros + timing.bad_frame_grace_secs * 1_000_000,
    ensures
        ({
            let after = s.spec_on_decrypted(EpochSlotKind::Pending, now, timing);
            &&& after.current_k_bit != s.current_k_bit
            &&& after.has_previous
            &&& !after.has_pending
            &&& after.epoch_started == now
            &&& later.micros < after.bad_frame_grace_until.micros
        }),
{
}

/// Authenticated traffic at `now` keeps the link alive for the next
/// `link_dead_timeout_secs` whole seconds.
pub proof fn lemma_authenticated_traffic_keeps_link_alive(
    s: SteadyState,
    slot: EpochSlotKind,
    now: Instant,
    later: Instant,
    timing: NodeTiming,
)
    requires
        now.micros <= later.micros,
        later.micros < now.micros + (timing.link_dead_timeout_secs + 1) * 1_000_000,
    ensures
        !(whole_secs_since(later, s.spec_on_decrypted(slot, now, timing).last_rx) > timing.link_dead_timeout_secs),
{
    assert((later.micros - now.micros) / 1_000_000 <= timing.link_dead_timeout_secs) by (nonlinear_arith)
        requires
            later.micros - now.micros < (timing.link_dead_timeout_secs + 1) * 1_000_000,
            later.micros - now.micros >= 0,
    ;
}

/// A frame is tried under each live epoch exactly once, the current one always.
pub proof fn lemma_trial_order_covers_live_epochs(s: SteadyState, recv_k_bit: bool)
    ensures
        ({
            let order = s.spec_trial_order(recv_k_bit);
            &&& order.contains(EpochSlotKind::Current)
            &&& order.contains(EpochSlotKind::Pending) == s.has_pending
            &&& order.contains(EpochSlotKind::Previous) == s.has_previous
            &&& order.no_duplicates()
            &&& s.spec_pending_first(recv_k_bit) ==> order[0] == EpochSlotKind::Pending
            &&& !s.spec_pending_first(recv_k_bit) ==> order[0] == EpochSlotKind::Current
        }),
{
    let order = s.spec_trial_order(recv_k_bit);
    let c = EpochSlotKind::Current;
    let p = EpochSlotKind::Pending;
    let v = EpochSlotKind::Previous;
    if s.spec_pending_first(recv_k_bit) {
        if s.has_previous {
            assert(order =~= seq![p, c, v]);
        } else {
            assert(order =~= seq![p, c]);
        }
    } else if s.has_pending {
        if s.has_previous {
            assert(order =~= seq![c, p, v]);
        } else {
            assert(order =~= seq![c, p]);
        }
    } else {
        if s.has_previous {
            assert(order =~= seq![c, v]);
        } else {
            assert(order =~= seq![c]);
        }
    }
    assert(order.contains(c) && order.contains(p) == s.has_pending && order.contains(v) == s.has_previous) by {
        if s.has_pending {
            assert(order.contains(p) == true) by {
                let i = if s.spec_pending_first(recv_k_bit) { 0int } else { 1int };
                assert(order[i] == p);
            }
        }
        if s.has_previous {
            assert(order[order.len() - 1] == v);
        }
        let ci = if s.spec_pending_first(recv_k_bit) { 1int } else { 0int };
        assert(order[ci] == c);
    }
}

/// The resend ladder never counts past `handshake_max_resends`: once that
/// many resends went unanswered, the next due wake-up abandons the cycle.
pub proof fn lemma_rekey_resends_bounded(r: RekeyResend, now: Instant, timing: NodeTiming)
    requires
        r.resends <= timing.handshake_max_resends,
    ensures
        r.spec_step(now, timing).0.resends <= timing.handshake_max_resends,
        r.resends == timing.handshake_max_resends && now.micros >= r.next_resend_at.micros ==> r.spec_step(
            now,
            timing,
        ).1 == ResendStep::Abandon,
{
}

} // verus!
