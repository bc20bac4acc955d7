use microfips::board::{
    cdc_packets, led_pattern, next_uptime, push_decimal, state_name, status_lines, BoardStats,
    LedPattern, LineStyle, S_BOOT, S_ERR, S_HANDSHAKE_OK, S_HB_RX, S_USB_READY,
};
use microfips::node::{HandleResult, NodeEvent};

#[test]
fn led_patterns_per_state() {
    let off = LedPattern { green: false, orange: false, red: false, blue: false };
    assert_eq!(led_pattern(S_BOOT), Some(off));
    assert_eq!(
        led_pattern(S_HANDSHAKE_OK),
        Some(LedPattern { green: true, orange: true, red: false, blue: true })
    );
    assert_eq!(
        led_pattern(S_HB_RX),
        Some(LedPattern { green: true, orange: true, red: true, blue: true })
    );
    assert_eq!(
        led_pattern(S_ERR),
        Some(LedPattern { green: false, orange: false, red: true, blue: false })
    );
    assert_eq!(led_pattern(8), None);
}

#[test]
fn state_names() {
    assert_eq!(state_name(S_USB_READY), "USB_READY");
    assert_eq!(state_name(S_HANDSHAKE_OK), "HS_OK");
    assert_eq!(state_name(S_ERR), "ERROR");
    assert_eq!(state_name(7), "DISCONNECTED");
    assert_eq!(state_name(42), "???");
}

#[test]
fn events_count_and_set_state() {
    let mut stats = BoardStats::new();
    assert_eq!(stats.on_event(NodeEvent::Connected), S_USB_READY);
    stats.on_event(NodeEvent::Msg1Sent);
    stats.on_event(NodeEvent::HandshakeOk);
    stats.on_event(NodeEvent::HeartbeatSent);
    stats.on_event(NodeEvent::HeartbeatSent);
    assert_eq!(stats.on_event(NodeEvent::HeartbeatRecv), S_HB_RX);
    assert_eq!(stats.msg1_tx, 1);
    assert_eq!(stats.msg2_rx, 1);
    assert_eq!(stats.hb_tx, 2);
    assert_eq!(stats.hb_rx, 1);
    assert_eq!(stats.state, S_HB_RX);
    stats.hb_tx = u32::MAX;
    stats.on_event(NodeEvent::HeartbeatSent);
    assert_eq!(stats.hb_tx, 0);
}

#[test]
fn only_session_datagrams_reach_the_session_layer() {
    let mut stats = BoardStats::new();
    assert!(!stats.accept_message(0x51));
    assert_eq!(stats.data_rx, 0);
    assert!(stats.accept_message(0));
    assert_eq!(stats.data_rx, 1);
    stats.note_session_result(HandleResult::NoReply);
    assert_eq!(stats.data_tx, 0);
    stats.note_session_result(HandleResult::SendDatagram(40));
    assert_eq!(stats.data_tx, 1);
}

#[test]
fn decimal_digits() {
    let mut v = Vec::new();
    push_decimal(&mut v, 0);
    assert_eq!(v, b"0".to_vec());
    let mut v = b"x".to_vec();
    push_decimal(&mut v, 4_294_967_295);
    assert_eq!(v, b"x4294967295".to_vec());
}

#[test]
fn status_screen_text_and_styles() {
    let mut stats = BoardStats::new();
    stats.on_event(NodeEvent::Error);
    stats.msg1_tx = 3;
    stats.usb_err = 2;
    stats.recv_pkt = 17;
    let lines = status_lines(&stats, 61);
    let texts: Vec<String> = lines.iter().map(|l| String::from_utf8(l.text.clone()).unwrap()).collect();
    assert_eq!(
        texts,
        vec![
            "microfips STM32F469I",
            "State: ERROR",
            "MSG1:3 MSG2:0",
            "HB tx:0 rx:0",
            "Data tx:0 rx:0",
            "USB err:2 Pkt:17",
            "Uptime: 61s",
        ]
    );
    assert_eq!(lines[1].style, LineStyle::Alert);
    assert_eq!(lines[5].style, LineStyle::Alert);
    assert_eq!(lines[6].style, LineStyle::Dim);
    assert_eq!(lines[0].y, 12);
    assert_eq!(lines[6].y, 84);
    let calm = status_lines(&BoardStats::new(), 0);
    assert_eq!(calm[1].style, LineStyle::Normal);
    assert_eq!(calm[5].style, LineStyle::Dim);
}

#[test]
fn uptime_saturates() {
    assert_eq!(next_uptime(5), 6);
    assert_eq!(next_uptime(u32::MAX), u32::MAX);
}

#[test]
fn cdc_packetization() {
    assert!(cdc_packets(0).is_empty());
    assert_eq!(cdc_packets(10), vec![(0, 10)]);
    assert_eq!(cdc_packets(64), vec![(0, 64), (64, 64)]);
    assert_eq!(cdc_packets(130), vec![(0, 64), (64, 128), (128, 130)]);
    assert_eq!(cdc_packets(128), vec![(0, 64), (64, 128), (128, 128)]);
}
