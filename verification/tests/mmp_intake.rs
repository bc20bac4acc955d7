use microfips::mmp::peer::MmpPeerState;
use microfips::mmp::intake::{
    rtt_sample_ms, CounterDeltas, LogPacer, ReportIntake, ReverseDelta, DEFAULT_LOG_INTERVAL_SECS,
};
use microfips::mmp::report::ReceiverReport;
use microfips::time::{Duration, Instant};

fn make_rr(
    highest_counter: u64,
    cum_packets: u64,
    cum_bytes: u64,
    timestamp_echo: u32,
    dwell: u16,
    jitter: u32,
) -> ReceiverReport {
    ReceiverReport {
        highest_counter,
        cumulative_packets_recv: cum_packets,
        cumulative_bytes_recv: cum_bytes,
        timestamp_echo,
        dwell_time: dwell,
        max_burst_loss: 0,
        mean_burst_loss: 0,
        jitter,
        ecn_ce_count: 0,
        owd_trend: 0,
        burst_loss_count: 0,
        cumulative_reorder_count: 0,
        interval_packets_recv: 0,
        interval_bytes_recv: 0,
    }
}

fn t0() -> Instant {
    Instant::from_millis(100_000)
}

#[test]
fn test_rtt_from_echo() {
    let mut m = ReportIntake::new();
    let rr = make_rr(10, 10, 5000, 1000, 5, 0);
    let d = m.accept(&rr, 1050, t0()).unwrap();
    assert_eq!(d.rtt_sample_ms, Some(45));
    assert_eq!(d.since_previous, None);
}

#[test]
fn test_no_rtt_without_echo() {
    let mut m = ReportIntake::new();
    let rr = make_rr(10, 10, 5000, 0, 0, 0);
    let d = m.accept(&rr, 1000, t0()).unwrap();
    assert_eq!(d.rtt_sample_ms, None);
}

#[test]
fn test_loss_rate_computation() {
    let mut m = ReportIntake::new();
    m.accept(&make_rr(100, 100, 50_000, 0, 0, 0), 0, t0()).unwrap();
    let d = m
        .accept(&make_rr(300, 290, 145_000, 0, 0, 0), 0, t0().plus(Duration::from_secs(1)))
        .unwrap();
    let deltas = d.since_previous.unwrap();
    assert_eq!(deltas, CounterDeltas { counter_span: 200, packets: 190, bytes: 95_000 });
    // delivered 190 of 200: 5% loss
    assert_eq!((deltas.counter_span - deltas.packets) * 100 / deltas.counter_span, 5);
}

#[test]
fn test_goodput_bps() {
    let mut m = ReportIntake::new();
    m.accept(&make_rr(100, 100, 50_000, 0, 0, 0), 0, t0()).unwrap();
    let d = m
        .accept(&make_rr(300, 290, 150_000, 0, 0, 0), 0, t0().plus(Duration::from_secs(1)))
        .unwrap();
    assert_eq!(d.since_previous.unwrap().bytes, 100_000);
    assert_eq!(d.elapsed, Some(Duration::from_secs(1)));
}

#[test]
fn test_reverse_delivery_delta() {
    let mut m = ReportIntake::new();
    assert_eq!(m.reverse_delta(100, 100), None);
    assert_eq!(m.reverse_delta(300, 300), Some(ReverseDelta { counter_span: 200, packets: 200 }));
    assert_eq!(m.reverse_delta(350, 400), Some(ReverseDelta { counter_span: 100, packets: 50 }));
}

#[test]
fn test_ignores_duplicate_receiver_report_after_valid_sample() {
    let mut m = ReportIntake::new();
    let rr1 = make_rr(10, 10, 5_000, 1_000, 5, 0);
    m.accept(&rr1, 1_050, t0()).unwrap();
    let rr2 = make_rr(20, 18, 14_000, 1_100, 5, 0);
    let d = m.accept(&rr2, 1_150, t0().plus(Duration::from_secs(1))).unwrap();
    assert_eq!(d.rtt_sample_ms, Some(45));
    let baseline = m;

    // A duplicate of rr2 arriving later would be a ~4.9 s RTT sample if accepted.
    assert_eq!(m.accept(&rr2, 6_000, t0().plus(Duration::from_secs(5))), None);
    assert_eq!(m, baseline);
    // So would a regressed one.
    assert_eq!(m.accept(&rr1, 6_000, t0().plus(Duration::from_secs(5))), None);
    assert_eq!(m, baseline);
}

#[test]
fn rtt_sample_guards_against_wrap_and_underflow() {
    assert_eq!(rtt_sample_ms(u32::MAX, 10, 5), None);
    assert_eq!(rtt_sample_ms(1000, 50, 1000), None);
    assert_eq!(rtt_sample_ms(1000, 50, 1050), None);
    assert_eq!(rtt_sample_ms(1000, 50, 1051), Some(1));
}

#[test]
fn rekey_forgets_baselines() {
    let mut m = ReportIntake::new();
    let rr = make_rr(10, 10, 5000, 0, 0, 0);
    m.accept(&rr, 0, t0()).unwrap();
    m.reset_for_rekey();
    let d = m.accept(&rr, 0, t0()).unwrap();
    assert_eq!(d.since_previous, None);
}

#[test]
fn log_pacer_logs_first_then_every_interval() {
    let mut p = LogPacer::new();
    assert!(p.should_log(t0()));
    p.mark_logged(t0());
    let just_before = Instant::from_micros(t0().micros + DEFAULT_LOG_INTERVAL_SECS * 1_000_000 - 1);
    assert!(!p.should_log(just_before));
    assert!(p.should_log(t0().plus(Duration::from_secs(DEFAULT_LOG_INTERVAL_SECS))));
}

#[test]
fn peer_state_answers_sender_report_when_due() {
    let mut p = MmpPeerState::new();
    let t = t0();
    assert_eq!(p.on_sender_report(t, 0, 0), None);
    p.receiver.record_recv(1, 100, 500, false, t);
    let rr = p.on_sender_report(t, 9, 0).unwrap();
    assert_eq!(rr.cumulative_packets_recv, 1);
    assert_eq!(rr.jitter, 9);
    assert_eq!(p.on_sender_report(t, 9, 0), None);

    let (deltas, reverse) = p.on_receiver_report(&make_rr(10, 10, 5000, 0, 0, 0), 0, t);
    assert!(deltas.is_some());
    assert_eq!(reverse, None);
    let (deltas, reverse) = p.on_receiver_report(&make_rr(10, 10, 5000, 0, 0, 0), 0, t);
    assert_eq!(deltas, None);
    assert_eq!(reverse, Some(ReverseDelta { counter_span: 0, packets: 0 }));

    p.apply_srtt(500_000);
    assert_eq!(p.sender.report_interval(), Duration::from_millis(1000));
    assert_eq!(p.receiver.report_interval(), Duration::from_millis(500));
    assert!(p.should_log(t));
    p.mark_logged(t);
    assert!(!p.should_log(t));
    p.reset_for_rekey(t);
    assert_eq!(p.receiver.highest_counter(), 0);
    assert_eq!(p.intake.baseline, None);
}
