use microfips::keylog::keylog_line;
use microfips::throughput::{achieved_bps, ThroughputState};
use microfips::time::{Duration, Instant};

#[test]
fn link_line_matches_keylog_contract() {
    let x = [0xabu8; 32];
    let line = keylog_line(&x, &x, &[0x11u8; 32], &[0x22u8; 32]);
    let s = core::str::from_utf8(&line).unwrap();
    let mut fields = s.split(' ');
    assert_eq!(fields.next(), Some("FIPS_LINK"), "line: {s}");
    let hex_fields: [&str; 4] = [
        fields.next().expect("local x-only field"),
        fields.next().expect("peer x-only field"),
        fields.next().expect("send key field"),
        fields.next().expect("recv key field"),
    ];
    assert_eq!(fields.next(), None, "exactly 4 fields: {s}");
    for p in hex_fields {
        assert_eq!(p.len(), 64, "field must be 64 hex chars: {p}");
        assert!(
            p.bytes().all(|b| matches!(b, b'0'..=b'9' | b'a'..=b'f')),
            "lowercase-only hex (keylog consumers match [0-9a-f]): {p}"
        );
    }
    assert!(hex_fields[0].bytes().all(|b| b == b'a' || b == b'b'));
    assert!(hex_fields[2].bytes().all(|b| b == b'1'));
    assert!(hex_fields[3].bytes().all(|b| b == b'2'));
}

#[test]
fn keylog_hex_is_high_nibble_first() {
    let mut local = [0u8; 32];
    local[0] = 0x0f;
    local[31] = 0xf0;
    let line = keylog_line(&local, &[0u8; 32], &[0u8; 32], &[0u8; 32]);
    assert_eq!(&line[10..12], b"0f");
    assert_eq!(&line[72..74], b"f0");
}

#[test]
fn test_handle_frame_throughput_request_activates_state() {
    let mut throughput = ThroughputState::idle();
    let now = Instant::from_millis(1_000);
    throughput.on_request(0x12345678, 0, 1, now);
    assert!(throughput.active);
    assert_eq!(throughput.test_id, 0x12345678);
    assert_eq!(throughput.duration_secs, 1);
    let mut other = ThroughputState::idle();
    other.on_request(0x12345678, 1, 1, now);
    assert!(!other.active);
}

#[test]
fn test_handle_frame_throughput_stream_sends_report() {
    let now = Instant::from_millis(1_000);
    let mut throughput = ThroughputState {
        test_id: 0x12345678,
        frames_recv: 0,
        bytes_recv: 0,
        started_at: Some(now),
        duration_secs: 0,
        active: true,
    };
    let report = throughput.on_stream(0x12345678, 12, now).unwrap();
    assert!(!throughput.active);
    assert_eq!(report.test_id, 0x12345678);
    assert_eq!(report.frames_recv, 1);
    assert_eq!(report.bytes_recv, 12);
    assert_eq!(report.elapsed_us, 0);
    assert_eq!(report.achieved_bps, 0);
    assert_eq!(throughput.on_stream(0x12345678, 12, now), None);
}

#[test]
fn throughput_counts_until_duration_then_reports_rate() {
    let t0 = Instant::from_millis(1_000);
    let mut state = ThroughputState::idle();
    state.on_request(7, 0, 2, t0);
    assert_eq!(state.on_stream(8, 100, t0.plus(Duration::from_millis(10))), None);
    assert_eq!(state.frames_recv, 0);
    assert_eq!(state.on_stream(7, 1_000, t0.plus(Duration::from_millis(500))), None);
    let report = state.on_stream(7, 1_000, t0.plus(Duration::from_secs(2))).unwrap();
    assert_eq!(report.frames_recv, 2);
    assert_eq!(report.bytes_recv, 2_000);
    assert_eq!(report.elapsed_us, 2_000_000);
    assert_eq!(report.achieved_bps, 8_000);
    assert_eq!(achieved_bps(u64::MAX, 1), u64::MAX);
}
