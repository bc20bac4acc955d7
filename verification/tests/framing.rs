use microfips::framing::{compact, extract_length_prefixed_frame, frame_header, MAX_FRAME};
use microfips::l2cap::same_x_only;

#[test]
fn compact_moves_remaining_to_front() {
    let mut buf = [0u8; 16];
    buf[4..10].copy_from_slice(b"hello!");
    let mut pos = 4usize;
    let mut len = 10usize;
    compact(&mut buf, &mut pos, &mut len);
    assert_eq!(pos, 0);
    assert_eq!(len, 6);
    assert_eq!(&buf[..6], b"hello!");
}

#[test]
fn compact_noop_when_pos_zero() {
    let mut buf = [0u8; 8];
    buf[..4].copy_from_slice(b"test");
    let mut pos = 0usize;
    let mut len = 4usize;
    compact(&mut buf, &mut pos, &mut len);
    assert_eq!(pos, 0);
    assert_eq!(len, 4);
    assert_eq!(&buf[..4], b"test");
}

#[test]
fn compact_noop_when_everything_was_read() {
    let mut buf = *b"abcdef";
    let mut pos = 6usize;
    let mut len = 6usize;
    compact(&mut buf, &mut pos, &mut len);
    assert_eq!((pos, len), (6, 6));
    assert_eq!(&buf, b"abcdef");
}

#[test]
fn test_extract_length_prefixed_complete() {
    let mut buf = [0u8; 16];
    let payload = b"hello";
    buf[..2].copy_from_slice(&(payload.len() as u16).to_le_bytes());
    buf[2..2 + payload.len()].copy_from_slice(payload);
    let (frame, pos) = extract_length_prefixed_frame(&buf, 0, 7).unwrap();
    assert_eq!(frame, payload);
    assert_eq!(pos, 7);
}

#[test]
fn test_extract_length_prefixed_incomplete() {
    let buf = [0x05, 0x00, 0x68, 0x65];
    assert_eq!(extract_length_prefixed_frame(&buf, 0, 4), None);
}

#[test]
fn test_extract_length_prefixed_zero_length() {
    let buf = [0x00, 0x00, 0xFF, 0xFF];
    let (frame, pos) = extract_length_prefixed_frame(&buf, 0, 4).unwrap();
    assert!(frame.is_empty());
    assert_eq!(pos, 2);
}

#[test]
fn test_extract_length_prefixed_exceeds_max() {
    let buf = [
        (MAX_FRAME as u16 + 1).to_le_bytes()[0],
        (MAX_FRAME as u16 + 1).to_le_bytes()[1],
        0x00,
    ];
    let (frame, pos) = extract_length_prefixed_frame(&buf, 0, 3).unwrap();
    assert!(frame.is_empty());
    assert_eq!(pos, 2);
}

#[test]
fn test_extract_length_prefixed_empty_buffer() {
    assert_eq!(extract_length_prefixed_frame(&[], 0, 0), None);
    assert_eq!(extract_length_prefixed_frame(&[0x05], 0, 1), None);
}

#[test]
fn test_extract_length_prefixed_multiple_frames() {
    let mut buf = [0u8; 20];
    buf[0..2].copy_from_slice(&3u16.to_le_bytes());
    buf[2..5].copy_from_slice(b"abc");
    buf[5..7].copy_from_slice(&2u16.to_le_bytes());
    buf[7..9].copy_from_slice(b"xy");
    let (frame, pos) = extract_length_prefixed_frame(&buf, 0, 9).unwrap();
    assert_eq!(frame, b"abc");
    assert_eq!(pos, 5);
    let (frame2, pos2) = extract_length_prefixed_frame(&buf, pos, 9).unwrap();
    assert_eq!(frame2, b"xy");
    assert_eq!(pos2, 9);
}

#[test]
fn frame_header_is_little_endian_length() {
    assert_eq!(frame_header(5), [5, 0]);
    assert_eq!(frame_header(0x1234), [0x34, 0x12]);
    assert_eq!(frame_header(0x1_0001), [1, 0]);
}

#[test]
fn test_xonly_peer_comparison_accepts_odd_parity() {
    // Same x-coordinate, different prefix byte (even vs odd y-parity)
    let mut peer_pub_even = [0u8; 33];
    peer_pub_even[0] = 0x02;
    peer_pub_even[1..33].copy_from_slice(&[0xABu8; 32]);

    let mut initiator_pub_odd = [0u8; 33];
    initiator_pub_odd[0] = 0x03; // different prefix
    initiator_pub_odd[1..33].copy_from_slice(&[0xABu8; 32]); // same x-coord

    // x-only comparison should match
    assert_eq!(
        initiator_pub_odd[1..33],
        peer_pub_even[1..33],
        "x-only comparison failed: same x-coord should match regardless of prefix"
    );
    assert!(same_x_only(&initiator_pub_odd, &peer_pub_even));

    // Full comparison would wrongly fail
    assert_ne!(
        initiator_pub_odd, peer_pub_even,
        "full comparison correctly differs when prefix differs"
    );
}
