use microfips::error::ProtocolError;
use microfips::harness::{NoopHandler, RecordingHandler};
use microfips::node::{HandleResult, NodeEvent};
use microfips::framing::frame_header;
use microfips::node::{
    EpochCounter, FrameBuffer, NodeTiming, DEFAULT_CONNECT_DELAY_MS, DEFAULT_HANDSHAKE_MAX_RESENDS,
    DEFAULT_HANDSHAKE_RESEND_INTERVAL_MS, DEFAULT_HEARTBEAT_INTERVAL_SECS, DEFAULT_LINK_DEAD_TIMEOUT_SECS,
};

#[test]
fn test_send_frame_works() {
    let mut wire = frame_header(5).to_vec();
    wire.extend_from_slice(b"hello");
    let expected: Vec<u8> = {
        let mut v = (5u16).to_le_bytes().to_vec();
        v.extend_from_slice(b"hello");
        v
    };
    assert_eq!(wire, expected);
}

#[test]
fn test_node_new_uses_fips_aligned_default_timing() {
    let timing = NodeTiming::default();
    assert_eq!(timing.heartbeat_interval_secs, DEFAULT_HEARTBEAT_INTERVAL_SECS);
    assert_eq!(timing.link_dead_timeout_secs, DEFAULT_LINK_DEAD_TIMEOUT_SECS);
    assert_eq!(timing.handshake_resend_interval_ms, DEFAULT_HANDSHAKE_RESEND_INTERVAL_MS);
    assert_eq!(timing.handshake_max_resends, DEFAULT_HANDSHAKE_MAX_RESENDS);
    assert_eq!(timing.connect_delay_ms, DEFAULT_CONNECT_DELAY_MS);
    assert_eq!(timing.rekey_after_secs, 0);
    assert_eq!(timing.rekey_after_messages, 0);
}

#[test]
fn test_node_with_timing_overrides_defaults() {
    let timing = NodeTiming {
        heartbeat_interval_secs: 7,
        link_dead_timeout_secs: 9,
        retry_base_interval_secs: 2,
        retry_max_backoff_secs: 11,
        handshake_resend_interval_ms: 250,
        handshake_resend_backoff: 3,
        handshake_max_resends: 4,
        connect_delay_ms: 42,
        rekey_after_secs: 0,
        rekey_after_messages: 0,
        bad_frame_grace_secs: 13,
        rekey_answer_min_interval_ms: 777,
    };

    assert_ne!(timing, NodeTiming::default());
    assert_eq!(timing.handshake_resend_timeout_ms(0), 250);
    assert_eq!(timing.handshake_resend_timeout_ms(1), 750);
    assert_eq!(timing.handshake_resend_timeout_ms(2), 2_250);
}

#[test]
fn test_recv_frame_from_buffer() {
    let mut rx = FrameBuffer::new();
    let frame: Vec<u8> = {
        let mut v = (3u16).to_le_bytes().to_vec();
        v.extend_from_slice(b"abc");
        v
    };
    rx.push_received(&frame);

    let mut out = [0u8; 256];
    let n = rx.take_frame(&mut out).unwrap();
    assert_eq!(n, 3);
    assert_eq!(&out[..3], b"abc");
}

#[test]
fn test_advance_epoch_starts_at_one_and_uses_little_endian() {
    let mut epoch = EpochCounter::new(0);

    assert_eq!(epoch.advance(), 1u64.to_le_bytes());
    assert_eq!(epoch.epoch(), 1);
    let mut epoch = EpochCounter::new(0x0102_0304_0506_0707);
    assert_eq!(epoch.advance(), 0x0102_0304_0506_0708u64.to_le_bytes());
    assert_eq!(epoch.epoch(), 0x0102_0304_0506_0708);
}

#[test]
fn test_advance_epoch_wraps() {
    let mut epoch = EpochCounter::new(u64::MAX);
    assert_eq!(epoch.advance(), 0u64.to_le_bytes());
    assert_eq!(epoch.epoch(), 0);
}

#[test]
fn frame_buffer_reassembles_chunks_and_skips_empty_headers() {
    let mut rx = FrameBuffer::new();
    let mut out = [0u8; 16];
    rx.push_received(&[0, 0, 4]);
    assert_eq!(rx.take_frame(&mut out), None);
    rx.push_received(&[0, b'p', b'i']);
    assert_eq!(rx.take_frame(&mut out), None);
    rx.push_received(&[b'n', b'g', 2, 0, b'o', b'k']);
    assert_eq!(rx.take_frame(&mut out), Some(4));
    assert_eq!(&out[..4], b"ping");
    assert_eq!(rx.take_frame(&mut out), Some(2));
    assert_eq!(&out[..2], b"ok");
    assert_eq!(rx.take_frame(&mut out), None);
}

#[test]
fn frame_buffer_drops_pending_on_overflow() {
    let mut rx = FrameBuffer::new();
    rx.push_received(&[5, 0, 1, 2]);
    rx.push_received(&[0u8; 2047]);
    let mut out = [0u8; 8];
    assert_eq!(rx.take_frame(&mut out), None);
    rx.push_received(&[1, 0, 9]);
    assert_eq!(rx.take_frame(&mut out), Some(1));
    assert_eq!(out[0], 9);
}

#[test]
fn resend_timeout_grows_by_backoff_and_saturates() {
    let mut timing = NodeTiming::default();
    assert_eq!(timing.handshake_resend_timeout_ms(0), 3_000);
    assert_eq!(timing.handshake_resend_timeout_ms(5), 3_000);
    timing.handshake_resend_backoff = 2;
    assert_eq!(timing.handshake_resend_timeout_ms(3), 24_000);
    assert_eq!(timing.handshake_resend_timeout_ms(40), 98_304_000);
    timing.handshake_resend_backoff = 100;
    assert_eq!(timing.handshake_resend_timeout_ms(40), u32::MAX);
}

#[test]
fn recording_handler_keeps_events_in_order() {
    let mut h = RecordingHandler::default();
    h.on_event(NodeEvent::Connected);
    h.on_event(NodeEvent::HandshakeOk);
    let mut resp = [7u8; 4];
    assert_eq!(h.on_message(0, b"x", &mut resp), HandleResult::NoReply);
    assert_eq!(resp, [7u8; 4]);
    assert_eq!(h.events, vec![NodeEvent::Connected, NodeEvent::HandshakeOk]);
    let mut noop = NoopHandler;
    noop.on_event(NodeEvent::Error);
    assert_eq!(noop.on_message(0, b"x", &mut resp), HandleResult::NoReply);
}

#[test]
fn protocol_error_texts() {
    assert_eq!(ProtocolError::Timeout.to_string(), "timeout");
    assert_eq!(ProtocolError::DecryptFailed.to_string(), "decrypt failed");
    assert_eq!(ProtocolError::PeerDisconnected.text(), "peer disconnected");
}
