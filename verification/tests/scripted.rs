use microfips::error::ProtocolError;
use microfips::scripted::{ExactBytes, RecvPoll, ScriptedTransport, SendMatcher, Step};

fn recv_now<M: SendMatcher>(t: &mut ScriptedTransport<M>, buf: &mut [u8]) -> Result<usize, ProtocolError> {
    loop {
        match t.poll_recv(buf)? {
            RecvPoll::Data(n) => return Ok(n),
            RecvPoll::Sleep(_) => {}
        }
    }
}

#[test]
fn test_scripted_recv_returns_data() {
    let mut transport = ScriptedTransport::<ExactBytes>::recv_bytes(&[1, 2, 3]);
    let mut buf = [0u8; 8];
    let n = recv_now(&mut transport, &mut buf).unwrap();
    assert_eq!(n, 3);
    assert_eq!(&buf[..n], &[1, 2, 3]);
}

#[test]
fn test_scripted_send_captures_data() {
    let mut transport = ScriptedTransport::<ExactBytes>::empty();
    transport.send(&[9, 8, 7]).unwrap();
    assert_eq!(transport.sent_data(), &[vec![9, 8, 7]]);
}

#[test]
fn test_scripted_close_returns_error() {
    let mut transport = ScriptedTransport::<ExactBytes>::new(vec![Step::Close]);
    let mut buf = [0u8; 8];
    assert_eq!(recv_now(&mut transport, &mut buf), Err(ProtocolError::Disconnected));
}

#[test]
fn test_scripted_multiple_steps() {
    let mut transport = ScriptedTransport::new(vec![
        Step::Recv(vec![1, 2]),
        Step::ExpectSend(ExactBytes(vec![3, 4])),
        Step::Recv(vec![5, 6]),
    ]);
    let mut buf = [0u8; 8];
    let n1 = recv_now(&mut transport, &mut buf).unwrap();
    assert_eq!(&buf[..n1], &[1, 2]);
    transport.send(&[3, 4]).unwrap();
    let n2 = recv_now(&mut transport, &mut buf).unwrap();
    assert_eq!(&buf[..n2], &[5, 6]);
    assert_eq!(transport.sent_data(), &[vec![3, 4]]);
}

#[test]
fn expected_send_blocks_receive_until_sent() {
    let mut transport = ScriptedTransport::new(vec![
        Step::ExpectSend(ExactBytes(vec![1])),
        Step::Recv(vec![2]),
    ]);
    let mut buf = [0u8; 4];
    assert_eq!(transport.poll_recv(&mut buf), Ok(RecvPoll::Sleep(1)));
    assert_eq!(transport.send(&[9]), Err(ProtocolError::InvalidMessage));
    assert_eq!(transport.poll_recv(&mut buf), Ok(RecvPoll::Data(1)));
    assert_eq!(buf[0], 2);
    assert_eq!(transport.poll_recv(&mut buf), Ok(RecvPoll::Sleep(1)));
    assert_eq!(transport.into_sent_data(), vec![vec![9]]);
}

#[test]
fn delay_and_partial_receives() {
    let mut transport = ScriptedTransport::<ExactBytes>::new(vec![
        Step::DelayMs(10),
        Step::Recv(vec![0xAA, 0xBB, 0xCC]),
    ]);
    let mut small = [0u8; 2];
    assert_eq!(transport.poll_recv(&mut small), Ok(RecvPoll::Sleep(10)));
    assert_eq!(transport.poll_recv(&mut small), Ok(RecvPoll::Data(2)));
    assert_eq!(small, [0xAA, 0xBB]);
    assert_eq!(transport.poll_recv(&mut small), Ok(RecvPoll::Data(1)));
    assert_eq!(small[0], 0xCC);
    assert!(transport.wait_ready().is_ok());
}

#[test]
fn exact_bytes_matcher() {
    let m = ExactBytes(vec![1, 2]);
    assert!(m.accepts(&[1, 2]));
    assert!(!m.accepts(&[1]));
    assert!(!m.accepts(&[1, 3]));
}
