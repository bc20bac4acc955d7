use microfips::error::ProtocolError;
use microfips::handshake::{after_timeout, msg1_disposition, Msg1Disposition};
use microfips::node::NodeTiming;
use microfips::steady::{
    EpochSlotKind, RekeyMsg1Action, RekeyResend, ResendStep, SteadyState, UndecryptableAction,
    DRAIN_WINDOW_SECS, REKEY_DAMPENING_SECS,
};
use microfips::time::{Duration, Instant};

fn at_ms(ms: u64) -> Instant {
    Instant::from_millis(ms)
}

fn entered() -> (SteadyState, NodeTiming) {
    let timing = NodeTiming::default();
    (SteadyState::enter(at_ms(100_000), &timing), timing)
}

#[test]
fn entry_schedules_first_heartbeat_and_reports() {
    let (s, timing) = entered();
    assert_eq!(s.next_heartbeat, at_ms(101_000));
    assert_eq!(s.next_sender_report, at_ms(105_000));
    assert_eq!(s.next_receiver_report, at_ms(105_000));
    assert_eq!(s.bad_frame_grace_until, at_ms(100_000 + timing.bad_frame_grace_secs * 1000));
    assert!(!s.has_pending && !s.has_previous && !s.current_k_bit);
}

#[test]
fn link_dies_after_timeout_of_silence() {
    let (s, timing) = entered();
    assert!(!s.link_dead(at_ms(100_000 + 30_999), &timing));
    assert!(s.link_dead(at_ms(100_000 + 31_000), &timing));
    assert!(!s.link_dead(at_ms(50_000), &timing));
}

#[test]
fn wake_at_takes_earliest_timer_or_tick() {
    let (s, _) = entered();
    assert_eq!(s.wake_at(None), at_ms(101_000));
    assert_eq!(s.wake_at(Some(at_ms(100_500))), at_ms(100_500));
    assert_eq!(s.wake_at(Some(at_ms(200_000))), at_ms(101_000));
}

#[test]
fn fresh_rekey_answers_are_rate_limited() {
    let (mut s, timing) = entered();
    assert_eq!(s.on_rekey_msg1(false, at_ms(110_000), &timing), RekeyMsg1Action::AnswerFresh);
    assert_eq!(s.on_rekey_msg1(false, at_ms(110_499), &timing), RekeyMsg1Action::Suppress);
    assert_eq!(s.on_rekey_msg1(true, at_ms(110_499), &timing), RekeyMsg1Action::ResendCachedAnswer);
    assert_eq!(s.last_rx, at_ms(110_499));
    assert_eq!(s.on_rekey_msg1(false, at_ms(110_500), &timing), RekeyMsg1Action::AnswerFresh);
}

#[test]
fn rekey_answers_unlimited_when_interval_zero() {
    let (mut s, mut timing) = entered();
    timing.rekey_answer_min_interval_ms = 0;
    for _ in 0..5 {
        assert_eq!(s.on_rekey_msg1(false, at_ms(110_000), &timing), RekeyMsg1Action::AnswerFresh);
    }
}

#[test]
fn trial_order_follows_key_epoch_bit() {
    let (mut s, _) = entered();
    assert_eq!(s.trial_order(true), vec![EpochSlotKind::Current]);
    s.arm_pending_for_peer();
    assert_eq!(s.trial_order(false), vec![EpochSlotKind::Current, EpochSlotKind::Pending]);
    assert_eq!(s.trial_order(true), vec![EpochSlotKind::Pending, EpochSlotKind::Current]);
}

#[test]
fn peer_cutover_flips_epoch_and_opens_grace() {
    let (mut s, timing) = entered();
    s.arm_pending_for_peer();
    s.on_decrypted(EpochSlotKind::Pending, at_ms(200_000), &timing);
    assert!(s.current_k_bit);
    assert!(s.has_previous && !s.has_pending);
    assert_eq!(s.epoch_started, at_ms(200_000));
    assert_eq!(s.on_undecryptable(at_ms(205_000)), UndecryptableAction::DropInGrace);
    assert_eq!(s.on_undecryptable(at_ms(210_000)), UndecryptableAction::Charge);
    assert_eq!(
        s.trial_order(false),
        vec![EpochSlotKind::Current, EpochSlotKind::Previous]
    );
}

#[test]
fn previous_epoch_drains_after_window() {
    let (mut s, timing) = entered();
    s.arm_pending_for_peer();
    s.on_decrypted(EpochSlotKind::Pending, at_ms(200_000), &timing);
    s.on_decrypted(EpochSlotKind::Previous, at_ms(205_000), &timing);
    assert!(!s.drain_due(at_ms(205_000 + DRAIN_WINDOW_SECS * 1000)));
    assert!(s.drain_due(at_ms(205_000 + (DRAIN_WINDOW_SECS + 1) * 1000)));
    s.retire_previous();
    assert!(!s.drain_due(at_ms(900_000)));
}

#[test]
fn self_armed_epoch_is_promoted_at_next_wake() {
    let (mut s, timing) = entered();
    assert!(!s.on_wake_cutover(at_ms(120_000), &timing));
    s.arm_pending_for_self();
    assert!(s.on_wake_cutover(at_ms(120_000), &timing));
    assert!(!s.pending_self && !s.has_pending && s.has_previous);
    assert!(s.current_k_bit);
}

#[test]
fn rekey_trigger_respects_age_messages_and_dampening() {
    let (mut s, mut timing) = entered();
    assert!(!s.rekey_due(at_ms(900_000), 1_000_000, false, &timing));
    timing.rekey_after_secs = 60;
    assert!(!s.rekey_due(at_ms(159_999), 0, false, &timing));
    assert!(s.rekey_due(at_ms(160_000), 0, false, &timing));
    assert!(!s.rekey_due(at_ms(160_000), 0, true, &timing));
    s.on_rekey_answered(at_ms(150_000));
    assert!(!s.rekey_due(at_ms(150_000 + REKEY_DAMPENING_SECS * 1000 - 1), 0, false, &timing));
    assert!(s.rekey_due(at_ms(150_000 + REKEY_DAMPENING_SECS * 1000), 0, false, &timing));
    timing.rekey_after_secs = 0;
    timing.rekey_after_messages = 100;
    assert!(!s.rekey_due(at_ms(900_000), 99, false, &timing));
    assert!(s.rekey_due(at_ms(900_000), 100, false, &timing));
}

#[test]
fn heartbeat_and_report_timers() {
    let (mut s, timing) = entered();
    assert!(!s.heartbeat_due(at_ms(100_999)));
    assert!(s.heartbeat_due(at_ms(101_000)));
    s.heartbeat_sent(at_ms(101_000), &timing);
    assert_eq!(s.next_heartbeat, at_ms(111_000));
    assert!(s.sender_report_due(at_ms(105_000)));
    s.sender_report_rescheduled(at_ms(105_000), Duration::from_millis(1_000));
    assert_eq!(s.next_sender_report, at_ms(106_000));
    assert!(!s.receiver_report_due(at_ms(104_999)));
    s.receiver_report_rescheduled(at_ms(105_000), Duration::from_millis(200));
    assert_eq!(s.next_receiver_report, at_ms(105_200));
}

#[test]
fn rekey_resend_ladder_abandons_after_max() {
    let mut timing = NodeTiming::default();
    timing.handshake_max_resends = 2;
    timing.handshake_resend_interval_ms = 100;
    timing.handshake_resend_backoff = 2;
    let mut r = RekeyResend::start(at_ms(1_000), &timing);
    assert_eq!(r.next_resend_at, at_ms(1_100));
    assert_eq!(r.step(at_ms(1_050), &timing), ResendStep::Wait);
    assert_eq!(r.step(at_ms(1_100), &timing), ResendStep::Resend);
    assert_eq!(r.resends, 1);
    assert_eq!(r.next_resend_at, at_ms(1_300));
    assert_eq!(r.step(at_ms(1_300), &timing), ResendStep::Resend);
    assert_eq!(r.next_resend_at, at_ms(1_700));
    assert_eq!(r.step(at_ms(1_700), &timing), ResendStep::Abandon);
}

#[test]
fn crossing_msg1_tiebreak() {
    let low = [1u8; 16];
    let mut high = [1u8; 16];
    high[15] = 2;
    assert_eq!(msg1_disposition(&low, &high, false), Msg1Disposition::KeepInitiating);
    assert_eq!(msg1_disposition(&high, &low, false), Msg1Disposition::Respond);
    assert_eq!(msg1_disposition(&low, &high, true), Msg1Disposition::Respond);
    assert_eq!(msg1_disposition(&low, &low, false), Msg1Disposition::SelfConnection);
    assert_eq!(msg1_disposition(&low, &low, true), Msg1Disposition::SelfConnection);
}

#[test]
fn tiebreak_compares_from_first_byte() {
    let mut a = [0u8; 16];
    let mut b = [0u8; 16];
    a[0] = 1;
    b[0] = 2;
    a[1] = 0xff;
    assert_eq!(msg1_disposition(&a, &b, false), Msg1Disposition::KeepInitiating);
    assert_eq!(msg1_disposition(&b, &a, false), Msg1Disposition::Respond);
}

#[test]
fn handshake_gives_up_after_max_resends() {
    let timing = NodeTiming::default();
    let mut count = 0u32;
    for expected in 1..=timing.handshake_max_resends {
        count = after_timeout(count, &timing).unwrap();
        assert_eq!(count, expected);
    }
    assert_eq!(after_timeout(count, &timing), Err(ProtocolError::Timeout));
}
