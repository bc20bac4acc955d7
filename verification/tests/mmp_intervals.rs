use microfips::mmp::receiver::ReceiverState;
use microfips::mmp::report::{COLD_START_SAMPLES, MAX_REPORT_INTERVAL_MS, MIN_REPORT_INTERVAL_MS};
use microfips::mmp::sender::SenderState;
use microfips::time::{Duration, Instant};

fn start() -> Instant {
    Instant::from_millis(1_000_000)
}

fn after(t: Instant, ms: u64) -> Instant {
    t.plus(Duration::from_millis(ms))
}

#[test]
fn test_new_sender_state() {
    let s = SenderState::new();
    assert_eq!(s.cumulative_packets_sent(), 0);
    assert_eq!(s.cumulative_bytes_sent(), 0);
}

#[test]
fn test_record_sent() {
    let mut s = SenderState::new();
    s.record_sent(1, 100, 500);
    s.record_sent(2, 200, 600);
    assert_eq!(s.cumulative_packets_sent(), 2);
    assert_eq!(s.cumulative_bytes_sent(), 1100);
}

#[test]
fn sender_test_build_report_empty() {
    let mut s = SenderState::new();
    assert!(s.build_report(start()).is_none());
}

#[test]
fn sender_test_build_report() {
    let mut s = SenderState::new();
    s.record_sent(10, 1000, 500);
    s.record_sent(11, 1100, 600);
    s.record_sent(12, 1200, 400);

    let report = s.build_report(start()).unwrap();
    assert_eq!(report.interval_start_counter, 10);
    assert_eq!(report.interval_end_counter, 12);
    assert_eq!(report.interval_start_timestamp, 1000);
    assert_eq!(report.interval_end_timestamp, 1200);
    assert_eq!(report.interval_bytes_sent, 1500);
    assert_eq!(report.cumulative_packets_sent, 3);
    assert_eq!(report.cumulative_bytes_sent, 1500);
}

#[test]
fn sender_test_build_report_resets_interval() {
    let mut s = SenderState::new();
    s.record_sent(1, 100, 500);
    let _ = s.build_report(start());
    assert!(s.build_report(start()).is_none());

    s.record_sent(2, 200, 300);
    let report = s.build_report(start()).unwrap();
    assert_eq!(report.interval_start_counter, 2);
    assert_eq!(report.interval_bytes_sent, 300);
    assert_eq!(report.cumulative_packets_sent, 2);
    assert_eq!(report.cumulative_bytes_sent, 800);
}

#[test]
fn test_should_send_report_no_data() {
    let s = SenderState::new();
    assert!(!s.should_send_report(start()));
}

#[test]
fn test_should_send_report_first_time() {
    let mut s = SenderState::new();
    s.record_sent(1, 100, 500);
    assert!(s.should_send_report(start()));
}

#[test]
fn sender_test_update_report_interval_cold_start() {
    let mut s = SenderState::new();
    s.update_report_interval_from_srtt(50_000);
    assert_eq!(s.report_interval(), Duration::from_millis(200));

    s.update_report_interval_from_srtt(500_000);
    assert_eq!(s.report_interval(), Duration::from_millis(1000));
}

#[test]
fn sender_test_update_report_interval_after_cold_start() {
    let mut s = SenderState::new();
    for _ in 0..COLD_START_SAMPLES {
        s.update_report_interval_from_srtt(500_000);
    }
    s.update_report_interval_from_srtt(50_000);
    assert_eq!(s.report_interval(), Duration::from_millis(MIN_REPORT_INTERVAL_MS));

    s.update_report_interval_from_srtt(3_000_000);
    assert_eq!(s.report_interval(), Duration::from_millis(MAX_REPORT_INTERVAL_MS));
}

#[test]
fn test_backoff_multiplier_progression() {
    let mut s = SenderState::new();
    assert_eq!(s.send_failure_backoff_multiplier() as f64, 1.0);

    let expected = [2.0, 4.0, 8.0, 16.0, 32.0];
    for (i, &exp) in expected.iter().enumerate() {
        let count = s.record_send_failure();
        assert_eq!(count, (i + 1) as u32);
        assert_eq!(s.send_failure_backoff_multiplier() as f64, exp);
    }

    s.record_send_failure();
    assert_eq!(s.send_failure_backoff_multiplier() as f64, 32.0);
}

#[test]
fn test_backoff_reset_on_success() {
    let mut s = SenderState::new();
    s.record_send_failure();
    s.record_send_failure();
    s.record_send_failure();
    assert_eq!(s.consecutive_send_failures(), 3);

    let prev = s.record_send_success();
    assert_eq!(prev, 3);
    assert_eq!(s.consecutive_send_failures(), 0);
    assert_eq!(s.send_failure_backoff_multiplier() as f64, 1.0);
}

#[test]
fn test_new_receiver_state() {
    let r = ReceiverState::new(32);
    assert_eq!(r.cumulative_packets_recv(), 0);
    assert_eq!(r.cumulative_bytes_recv(), 0);
    assert_eq!(r.highest_counter(), 0);
}

#[test]
fn test_record_recv_basic() {
    let mut r = ReceiverState::new(32);
    let now = start();
    r.record_recv(1, 100, 500, false, now);
    r.record_recv(2, 200, 600, false, after(now, 100));

    assert_eq!(r.cumulative_packets_recv(), 2);
    assert_eq!(r.cumulative_bytes_recv(), 1100);
    assert_eq!(r.highest_counter(), 2);
}

#[test]
fn test_reorder_detection() {
    let mut r = ReceiverState::new(32);
    let now = start();
    r.record_recv(5, 500, 100, false, now);
    r.record_recv(3, 300, 100, false, after(now, 10));

    assert_eq!(r.cumulative_reorder_count(), 1);
    assert_eq!(r.highest_counter(), 5);
}

#[test]
fn test_ecn_counting() {
    let mut r = ReceiverState::new(32);
    let now = start();
    r.record_recv(1, 100, 100, true, now);
    r.record_recv(2, 200, 100, false, now);
    r.record_recv(3, 300, 100, true, now);

    assert_eq!(r.ecn_ce_count(), 2);
}

#[test]
fn receiver_test_build_report_empty() {
    let mut r = ReceiverState::new(32);
    assert!(r.build_report(start(), 0, 0).is_none());
}

#[test]
fn receiver_test_build_report() {
    let mut r = ReceiverState::new(32);
    let t0 = start();
    r.record_recv(1, 100, 500, false, t0);
    r.record_recv(2, 200, 600, false, after(t0, 100));

    let report = r.build_report(after(t0, 150), 0, 0).unwrap();
    assert_eq!(report.highest_counter, 2);
    assert_eq!(report.cumulative_packets_recv, 2);
    assert_eq!(report.cumulative_bytes_recv, 1100);
    assert_eq!(report.timestamp_echo, 200);
    assert_eq!(report.interval_packets_recv, 2);
    assert_eq!(report.interval_bytes_recv, 1100);
}

#[test]
fn receiver_test_build_report_resets_interval() {
    let mut r = ReceiverState::new(32);
    let t0 = start();
    r.record_recv(1, 100, 500, false, t0);
    let _ = r.build_report(t0, 0, 0);

    assert!(r.build_report(t0, 0, 0).is_none());

    r.record_recv(2, 200, 300, false, after(t0, 100));
    let report = r.build_report(after(t0, 150), 0, 0).unwrap();
    assert_eq!(report.interval_packets_recv, 1);
    assert_eq!(report.interval_bytes_recv, 300);
    assert_eq!(report.cumulative_packets_recv, 2);
}

#[test]
fn test_should_send_report_timing() {
    let mut r = ReceiverState::new(32);
    let t0 = start();

    assert!(!r.should_send_report(t0));

    r.record_recv(1, 100, 500, false, t0);
    assert!(r.should_send_report(t0));

    let _ = r.build_report(t0, 0, 0);
    r.record_recv(2, 200, 500, false, t0);
    assert!(!r.should_send_report(t0));

    let t1 = t0.plus(r.report_interval()).plus(Duration::from_millis(1));
    assert!(r.should_send_report(t1));
}

#[test]
fn receiver_test_update_report_interval_cold_start() {
    let mut r = ReceiverState::new(32);
    r.update_report_interval_from_srtt(50_000);
    assert_eq!(r.report_interval(), Duration::from_millis(200));

    r.update_report_interval_from_srtt(500_000);
    assert_eq!(r.report_interval(), Duration::from_millis(500));
}

#[test]
fn receiver_test_update_report_interval_after_cold_start() {
    let mut r = ReceiverState::new(32);
    for _ in 0..COLD_START_SAMPLES {
        r.update_report_interval_from_srtt(500_000);
    }

    r.update_report_interval_from_srtt(50_000);
    assert_eq!(r.report_interval(), Duration::from_millis(MIN_REPORT_INTERVAL_MS));

    r.update_report_interval_from_srtt(3_000_000);
    assert_eq!(r.report_interval(), Duration::from_millis(3000));
}

#[test]
fn test_build_report_suppresses_rtt_echo_when_dwell_overflows() {
    let mut r = ReceiverState::new(32);
    let t0 = start();
    r.record_recv(1, 100, 500, false, t0);

    let report = r.build_report(after(t0, u64::from(u16::MAX) + 1), 0, 0).unwrap();

    assert_eq!(report.timestamp_echo, 0);
    assert_eq!(report.dwell_time, u16::MAX);
    assert_eq!(report.cumulative_packets_recv, 1);
}

#[test]
fn record_recv_yields_transit_and_delay_samples() {
    let mut r = ReceiverState::new(32);
    let t0 = start();
    let first = r.record_recv(1, 100, 500, false, t0);
    assert_eq!(first.transit_delta_us, None);
    assert_eq!(first.owd_seq, 1);
    assert_eq!(first.owd_us, -100_000);

    let second = r.record_recv(2, 250, 500, false, after(t0, 100));
    assert_eq!(second.transit_delta_us, Some(-50_000));
    assert_eq!(second.owd_seq, 2);
    assert_eq!(second.owd_us, -150_000);
}

#[test]
fn rekey_suppresses_jitter_samples_during_grace() {
    let mut r = ReceiverState::new(32);
    let t0 = start();
    r.record_recv(10, 100, 500, false, t0);
    r.reset_for_rekey(after(t0, 10));
    assert_eq!(r.highest_counter(), 0);
    assert_eq!(r.cumulative_packets_recv(), 1);

    let a = r.record_recv(1, 200, 500, false, after(t0, 20));
    let b = r.record_recv(2, 300, 500, false, after(t0, 120));
    assert_eq!(a.transit_delta_us, None);
    assert_eq!(b.transit_delta_us, None);

    let c = r.record_recv(3, 400, 500, false, after(t0, 16_000));
    assert!(c.transit_delta_us.is_some());
}

#[test]
fn receiver_report_carries_estimator_outputs_and_burst_loss() {
    let mut r = ReceiverState::default();
    let t0 = start();
    r.record_recv(1, 100, 100, false, t0);
    r.record_recv(4, 110, 100, true, after(t0, 10));
    r.record_recv(5, 120, 100, false, after(t0, 20));
    let report = r.build_report(after(t0, 30), 1234, -7).unwrap();
    assert_eq!(report.jitter, 1234);
    assert_eq!(report.owd_trend, -7);
    assert_eq!(report.burst_loss_count, 1);
    assert_eq!(report.max_burst_loss, 2);
    assert_eq!(report.ecn_ce_count, 1);
    assert_eq!(report.dwell_time, 10);
    assert_eq!(report.timestamp_echo, 120);
}
