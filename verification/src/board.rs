//! What the STM32F469I-DISCO firmware decides around the node: the LED
//! pattern of each state, the event counters, the status screen's text and
//! how a frame is cut into USB CDC packets.

use vstd::prelude::*;
use vstd::string::StringSliceAdditionalSpecFns;

use crate::node::{HandleResult, NodeEvent};

verus! {

/// Bytes in one USB CDC packet.
pub const CDC_PKT: usize = 64;

pub const S_BOOT: u32 = 0;
pub const S_USB_READY: u32 = 1;
pub const S_MSG1_SENT: u32 = 2;
pub const S_HANDSHAKE_OK: u32 = 3;
pub const S_HB_TX: u32 = 4;
pub const S_HB_RX: u32 = 5;
pub const S_ERR: u32 = 6;
pub const S_DISCONNECTED: u32 = 7;

/// The four board LEDs, lit or not.
#[derive(Debug, Clone, Copy, PartialEq, Eq, Structural)]
pub struct LedPattern {
    pub green: bool,
    pub orange: bool,
    pub red: bool,
    pub blue: bool,
}

/// The LED pattern of a state; an unknown state leaves the LEDs as they are.
pub open spec fn spec_led_pattern(state: u32) -> Option<LedPattern> {
    let p = |g: bool, o: bool, r: bool, b: bool| LedPattern { green: g, orange: o, red: r, blue: b };
    if state == S_BOOT {
        Some(p(false, false, false, false))
    } else if state == S_USB_READY {
        Some(p(true, false, false, false))
    } else if state == S_MSG1_SENT {
        Some(p(true, true, false, false))
    } else if state == S_HANDSHAKE_OK {
        Some(p(true, true, false, true))
    } else if state == S_HB_TX {
        Some(p(true, true, false, false))
    } else if state == S_HB_RX {
        Some(p(true, true, true, true))
    } else if state == S_ERR {
        Some(p(false, false, true, false))
    } else if state == S_DISCONNECTED {
        Some(p(false, false, false, false))
    } else {
        None
    }
}

/// Each LED tells one thing about the node: a state is shown exactly when it
/// is one of the eight known states; green is lit while the link is up (USB
/// ready through heartbeat received); orange once msg1 went out and until the
/// link drops; blue once the handshake completed (handshake done, heartbeat
/// received); red only on an error or a received heartbeat. So a state that is
/// not the error state never shows the error pattern (red alone).
pub proof fn lemma_led_meaning(state: u32)
    ensures
        spec_led_pattern(state) is Some <==> state <= S_DISCONNECTED,
        spec_led_pattern(state) matches Some(p) ==> {
            &&& p.green <==> (S_USB_READY <= state <= S_HB_RX)
            &&& p.orange <==> (S_MSG1_SENT <= state <= S_HB_RX)
            &&& p.blue <==> (state == S_HANDSHAKE_OK || state == S_HB_RX)
            &&& p.red <==> (state == S_ERR || state == S_HB_RX)
            &&& (p.red && !p.green) ==> state == S_ERR
        },
{
}

/// Along the handshake (USB ready, msg1 sent, handshake done, heartbeat
/// received) each step keeps every LED the previous step lit.
pub proof fn lemma_led_progress_only_adds(a: u32, b: u32)
    requires
        S_USB_READY <= a <= b,
        b <= S_HB_RX,
        a != S_HB_TX,
        b != S_HB_TX,
    ensures
        ({
            let pa = spec_led_pattern(a)->0;
            let pb = spec_led_pattern(b)->0;
            &&& pa.green ==> pb.green
            &&& pa.orange ==> pb.orange
            &&& pa.blue ==> pb.blue
            &&& pa.red ==> pb.red
        }),
{
}

pub fn led_pattern(state: u32) -> (r: Option<LedPattern>)
    ensures
        r == spec_led_pattern(state),
{
    let (g, o, red, b) = if state == S_BOOT {
        (false, false, false, false)
    } else if state == S_USB_READY {
        (true, false, false, false)
    } else if state == S_MSG1_SENT {
        (true, true, false, false)
    } else if state == S_HANDSHAKE_OK {
        (true, true, false, true)
    } else if state == S_HB_TX {
        (true, true, false, false)
    } else if state == S_HB_RX {
        (true, true, true, true)
    } else if state == S_ERR {
        (false, false, true, false)
    } else if state == S_DISCONNECTED {
        (false, false, false, false)
    } else {
        return None;
    };
    Some(LedPattern { green: g, orange: o, red, blue: b })
}

/// The screen name of a state.
pub open spec fn spec_state_name(state: u32) -> &'static str {
    if state == S_BOOT {
        "BOOT"
    } else if state == S_USB_READY {
        "USB_READY"
    } else if state == S_MSG1_SENT {
        "MSG1_SENT"
    } else if state == S_HANDSHAKE_OK {
        "HS_OK"
    } else if state == S_HB_TX {
        "HB_TX"
    } else if state == S_HB_RX {
        "HB_RX"
    } else if state == S_ERR {
        "ERROR"
    } else if state == S_DISCONNECTED {
        "DISCONNECTED"
    } else {
        "???"
    }
}

pub fn state_name(state: u32) -> (r: &'static str)
    ensures
        r == spec_state_name(state),
{
    if state == S_BOOT {
        "BOOT"
    } else if state == S_USB_READY {
        "USB_READY"
    } else if state == S_MSG1_SENT {
        "MSG1_SENT"
    } else if state == S_HANDSHAKE_OK {
        "HS_OK"
    } else if state == S_HB_TX {
        "HB_TX"
    } else if state == S_HB_RX {
        "HB_RX"
    } else if state == S_ERR {
        "ERROR"
    } else if state == S_DISCONNECTED {
        "DISCONNECTED"
    } else {
        "???"
    }
}

/// The state a protocol event puts the board in.
pub open spec fn spec_event_state(event: NodeEvent) -> u32 {
    match event {
        NodeEvent::Connected => S_USB_READY,
        NodeEvent::Msg1Sent => S_MSG1_SENT,
        NodeEvent::HandshakeOk => S_HANDSHAKE_OK,
        NodeEvent::HeartbeatSent => S_HB_TX,
        NodeEvent::HeartbeatRecv => S_HB_RX,
        NodeEvent::Disconnected => S_DISCONNECTED,
        NodeEvent::Error => S_ERR,
    }
}

/// `a + 1`, wrapping like an atomic counter.
pub open spec fn bump(a: u32) -> u32 {
    if a == u32::MAX {
        0
    } else {
        (a + 1) as u32
    }
}

/// The firmware's counters and current state.
#[derive(Debug, Clone, Copy, PartialEq, Eq, Structural)]
pub struct BoardStats {
    pub msg1_tx: u32,
    pub msg2_rx: u32,
    pub hb_tx: u32,
    pub hb_rx: u32,
    pub usb_err: u32,
    pub state: u32,
    pub recv_pkt: u32,
    pub data_rx: u32,
    pub data_tx: u32,
}

impl BoardStats {
    pub fn new() -> (r: Self)
        ensures
            r == (BoardStats {
                msg1_tx: 0,
                msg2_rx: 0,
                hb_tx: 0,
                hb_rx: 0,
                usb_err: 0,
                state: S_BOOT,
                recv_pkt: 0,
                data_rx: 0,
                data_tx: 0,
            }),
    {
        BoardStats {
            msg1_tx: 0,
            msg2_rx: 0,
            hb_tx: 0,
            hb_rx: 0,
            usb_err: 0,
            state: S_BOOT,
            recv_pkt: 0,
            data_rx: 0,
            data_tx: 0,
        }
    }

    /// Records the state the LEDs were set to.
    pub fn set_state(&mut self, state: u32)
        ensures
            *final(self) == (BoardStats { state, ..*old(self) }),
    {
        self.state = state;
    }

    /// The counters after a protocol event.
    pub open spec fn spec_on_event(self, event: NodeEvent) -> BoardStats {
        let s = BoardStats { state: spec_event_state(event), ..self };
        match event {
            NodeEvent::Msg1Sent => BoardStats { msg1_tx: bump(self.msg1_tx), ..s },
            NodeEvent::HandshakeOk => BoardStats { msg2_rx: bump(self.msg2_rx), ..s },
            NodeEvent::HeartbeatSent => BoardStats { hb_tx: bump(self.hb_tx), ..s },
            NodeEvent::HeartbeatRecv => BoardStats { hb_rx: bump(self.hb_rx), ..s },
            _ => s,
        }
    }

    /// A protocol event: counts it and returns the state to show.
    pub fn on_event(&mut self, event: NodeEvent) -> (state: u32)
        ensures
            *final(self) == old(self).spec_on_event(event),
            state == spec_event_state(event),
    {
        match event {
            NodeEvent::Msg1Sent => self.msg1_tx = self.msg1_tx.wrapping_add(1),
            NodeEvent::HandshakeOk => self.msg2_rx = self.msg2_rx.wrapping_add(1),
            NodeEvent::HeartbeatSent => self.hb_tx = self.hb_tx.wrapping_add(1),
            NodeEvent::HeartbeatRecv => self.hb_rx = self.hb_rx.wrapping_add(1),
            _ => {},
        }
        let state = match event {
            NodeEvent::Connected => S_USB_READY,
            NodeEvent::Msg1Sent => S_MSG1_SENT,
            NodeEvent::HandshakeOk => S_HANDSHAKE_OK,
            NodeEvent::HeartbeatSent => S_HB_TX,
            NodeEvent::HeartbeatRecv => S_HB_RX,
            NodeEvent::Disconnected => S_DISCONNECTED,
            NodeEvent::Error => S_ERR,
        };
        self.state = state;
        state
    }

    /// A link message for the handler: only session datagrams (type 0) go on
    /// to the session layer, and they are counted.
    pub fn accept_message(&mut self, msg_type: u8) -> (forward: bool)
        ensures
            forward == (msg_type == 0),
            forward ==> *final(self) == (BoardStats { data_rx: bump(old(self).data_rx), ..*old(self) }),
            !forward ==> *final(self) == *old(self),
    {
        if msg_type != 0 {
            return false;
        }
        self.data_rx = self.data_rx.wrapping_add(1);
        true
    }

    /// What the session layer answered a datagram; a reply is counted.
    pub fn note_session_result(&mut self, result: HandleResult)
        ensures
            result is SendDatagram ==> *final(self) == (BoardStats { data_tx: bump(old(self).data_tx), ..*old(self) }),
            !(result is SendDatagram) ==> *final(self) == *old(self),
    {
        if let HandleResult::SendDatagram(_) = result {
            self.data_tx = self.data_tx.wrapping_add(1);
        }
    }

    /// A USB transfer failed.
    pub fn note_usb_error(&mut self)
        ensures
            *final(self) == (BoardStats { usb_err: bump(old(self).usb_err), ..*old(self) }),
    {
        self.usb_err = self.usb_err.wrapping_add(1);
    }

    /// A USB packet arrived.
    pub fn note_packet_received(&mut self)
        ensures
            *final(self) == (BoardStats { recv_pkt: bump(old(self).recv_pkt), ..*old(self) }),
    {
        self.recv_pkt = self.recv_pkt.wrapping_add(1);
    }
}

/// The decimal digits of `n`, most significant first.
pub open spec fn decimal(n: nat) -> Seq<u8>
    decreases n,
{
    if n < 10 {
        seq![(48 + n) as u8]
    } else {
        decimal(n / 10).push((48 + n % 10) as u8)
    }
}

/// Appends the decimal digits of `n`.
pub fn push_decimal(out: &mut Vec<u8>, n: u32)
    ensures
        final(out)@ == old(out)@ + decimal(n as nat),
    decreases n,
{
    if n >= 10 {
        push_decimal(out, n / 10);
    }
    out.push(48u8 + (n % 10) as u8);
    proof {
        if n < 10 {
            assert(final(out)@ =~= old(out)@ + decimal(n as nat));
        } else {
            assert(final(out)@ =~= old(out)@ + decimal(n as nat));
        }
    }
}

fn push_str(out: &mut Vec<u8>, s: &str)
    ensures
        final(out)@ == old(out)@ + s.spec_bytes(),
{
    let b = s.as_bytes();
    let mut i: usize = 0;
    while i < b.len()
        invariant
            0 <= i <= b@.len(),
            b@ == s.spec_bytes(),
            out@ == old(out)@ + b@.take(i as int),
        decreases b.len() - i,
    {
        out.push(b[i]);
        proof {
            assert(b@.take(i + 1) =~= b@.take(i as int).push(b@[i as int]));
        }
        i = i + 1;
    }
    proof {
        assert(b@.take(b@.len() as int) =~= b@);
    }
}

/// How a status line is drawn.
#[derive(Debug, Clone, Copy, PartialEq, Eq, Structural)]
pub enum LineStyle {
    Normal,
    Alert,
    Dim,
}

/// One line of the status screen: its text, style and baseline.
pub struct StatusLine {
    pub text: Vec<u8>,
    pub style: LineStyle,
    pub y: u32,
}

/// The text of each status line, top to bottom.
pub open spec fn status_texts(stats: BoardStats, uptime_secs: u32) -> Seq<Seq<u8>> {
    seq![
        "microfips STM32F469I".spec_bytes(),
        "State: ".spec_bytes() + spec_state_name(stats.state).spec_bytes(),
        "MSG1:".spec_bytes() + decimal(stats.msg1_tx as nat) + " MSG2:".spec_bytes() + decimal(stats.msg2_rx as nat),
        "HB tx:".spec_bytes() + decimal(stats.hb_tx as nat) + " rx:".spec_bytes() + decimal(stats.hb_rx as nat),
        "Data tx:".spec_bytes() + decimal(stats.data_tx as nat) + " rx:".spec_bytes() + decimal(
            stats.data_rx as nat,
        ),
        "USB err:".spec_bytes() + decimal(stats.usb_err as nat) + " Pkt:".spec_bytes() + decimal(
            stats.recv_pkt as nat,
        ),
        "Uptime: ".spec_bytes() + decimal(uptime_secs as nat) + "s".spec_bytes()
    ]
}

/// The style of each status line: the state line alerts in the error state,
/// the USB line alerts once an error was counted and is dim otherwise, the
/// uptime line is dim.
pub open spec fn status_styles(stats: BoardStats) -> Seq<LineStyle> {
    seq![
        LineStyle::Normal,
        if stats.state == S_ERR {
            LineStyle::Alert
        } else {
            LineStyle::Normal
        },
        LineStyle::Normal,
        LineStyle::Normal,
        LineStyle::Normal,
        if stats.usb_err > 0 {
            LineStyle::Alert
        } else {
            LineStyle::Dim
        },
        LineStyle::Dim
    ]
}

fn line(text: Vec<u8>, style: LineStyle, y: u32) -> (l: StatusLine)
    ensures
        l.text@ == text@,
        l.style == style,
        l.y == y,
{
    StatusLine { text, style, y }
}

/// The status screen: seven lines, 12 pixels apart from the top.
pub fn status_lines(stats: &BoardStats, uptime_secs: u32) -> (lines: Vec<StatusLine>)
    ensures
        lines@.len() == 7,
        forall|i: int|
            0 <= i < 7 ==> {
                &&& #[trigger] lines@[i].text@ == status_texts(*stats, uptime_secs)[i]
                &&& lines@[i].style == status_styles(*stats)[i]
                &&& lines@[i].y == 12 * (i + 1)
            },
{
    let mut lines: Vec<StatusLine> = Vec::new();

    let mut t = Vec::new();
    push_str(&mut t, "microfips STM32F469I");
    lines.push(line(t, LineStyle::Normal, 12));

    let mut t = Vec::new();
    push_str(&mut t, "State: ");
    push_str(&mut t, state_name(stats.state));
    let style = if stats.state == S_ERR {
        LineStyle::Alert
    } else {
        LineStyle::Normal
    };
    lines.push(line(t, style, 24));

    let mut t = Vec::new();
    push_str(&mut t, "MSG1:");
    push_decimal(&mut t, stats.msg1_tx);
    push_str(&mut t, " MSG2:");
    push_decimal(&mut t, stats.msg2_rx);
    lines.push(line(t, LineStyle::Normal, 36));

    let mut t = Vec::new();
    push_str(&mut t, "HB tx:");
    push_decimal(&mut t, stats.hb_tx);
    push_str(&mut t, " rx:");
    push_decimal(&mut t, stats.hb_rx);
    lines.push(line(t, LineStyle::Normal, 48));

    let mut t = Vec::new();
    push_str(&mut t, "Data tx:");
    push_decimal(&mut t, stats.data_tx);
    push_str(&mut t, " rx:");
    push_decimal(&mut t, stats.data_rx);
    lines.push(line(t, LineStyle::Normal, 60));

    let mut t = Vec::new();
    push_str(&mut t, "USB err:");
    push_decimal(&mut t, stats.usb_err);
    push_str(&mut t, " Pkt:");
    push_decimal(&mut t, stats.recv_pkt);
    let style = if stats.usb_err > 0 {
        LineStyle::Alert
    } else {
        LineStyle::Dim
    };
    lines.push(line(t, style, 72));

    let mut t = Vec::new();
    push_str(&mut t, "Uptime: ");
    push_decimal(&mut t, uptime_secs);
    push_str(&mut t, "s");
    lines.push(line(t, LineStyle::Dim, 84));

    proof {
        let texts = status_texts(*stats, uptime_secs);
        let styles = status_styles(*stats);
        assert forall|i: int| 0 <= i < 7 implies {
            &&& #[trigger] lines@[i].text@ == texts[i]
            &&& lines@[i].style == styles[i]
            &&& lines@[i].y == 12 * (i + 1)
        } by {
            assert(Seq::<u8>::empty() + "microfips STM32F469I".spec_bytes() =~= texts[0]);
        }
    }
    lines
}

/// The uptime after one more second of display refresh, saturating.
pub fn next_uptime(uptime_secs: u32) -> (r: u32)
    ensures
        r == (if uptime_secs == u32::MAX {
            u32::MAX
        } else {
            (uptime_secs + 1) as u32
        }),
{
    uptime_secs.saturating_add(1)
}

/// The byte ranges a frame of `len` bytes goes out in over USB CDC: full
/// packets, then the remainder, then a zero-length packet when the frame is
/// non-empty and ends on a packet boundary, so that every transfer ends with
/// a short packet.
pub open spec fn spec_cdc_packets(len: nat) -> Seq<(int, int)> {
    let n = (len + CDC_PKT - 1) / CDC_PKT as int;
    let data = Seq::new(n as nat, |k: int| (k * CDC_PKT, if (k + 1) * CDC_PKT <= len { (k + 1) * CDC_PKT } else { len as int }));
    if len > 0 && len % CDC_PKT as nat == 0 {
        data.push((len as int, len as int))
    } else {
        data
    }
}

/// The packet ranges of a frame of `len` bytes.
pub fn cdc_packets(len: usize) -> (r: Vec<(usize, usize)>)
    ensures
        r@.len() == spec_cdc_packets(len as nat).len(),
        forall|i: int|
            0 <= i < r@.len() ==> (#[trigger] r@[i].0 as int, r@[i].1 as int) == spec_cdc_packets(len as nat)[i],
{
    let mut r: Vec<(usize, usize)> = Vec::new();
    let mut off: usize = 0;
    while off < len
        invariant
            off <= len,
            off % CDC_PKT == 0 || off == len,
            r@.len() == (off as int) / (CDC_PKT as int) + (if off == len && off % CDC_PKT != 0 { 1int } else { 0int }),
            forall|k: int|
                0 <= k < r@.len() ==> (#[trigger] r@[k].0 as int, r@[k].1 as int) == (k * CDC_PKT, if (k + 1) * CDC_PKT
                    <= len { (k + 1) * CDC_PKT } else { len as int }),
        decreases len - off,
    {
        let end = if len - off > CDC_PKT {
            off + CDC_PKT
        } else {
            len
        };
        r.push((off, end));
        off = end;
    }
    if len > 0 && len % CDC_PKT == 0 {
        r.push((len, len));
    }
    r
}

/// The packets of a frame cover it in order without gaps, none is longer than
/// a packet, and a non-empty frame always ends with a short packet.
pub proof fn lemma_cdc_packets_cover(len: nat)
    ensures
        len == 0 ==> spec_cdc_packets(len).len() == 0,
        len > 0 ==> {
            let p = spec_cdc_packets(len);
            &&& p.len() > 0
            &&& p[0].0 == 0
            &&& p.last().1 == len
            &&& p.last().1 - p.last().0 < CDC_PKT
        },
        forall|i: int|
            0 <= i < spec_cdc_packets(len).len() ==> 0 <= #[trigger] spec_cdc_packets(len)[i].1
                - spec_cdc_packets(len)[i].0 <= CDC_PKT,
        forall|i: int|
            0 <= i < spec_cdc_packets(len).len() - 1 ==> #[trigger] spec_cdc_packets(len)[i].1 == spec_cdc_packets(
                len,
            )[i + 1].0,
{
    let c = CDC_PKT as int;
    let n = (len + c - 1) / c;
    assert(n * c >= len && (n - 1) * c < len || len == 0) by (nonlinear_arith)
        requires
            n == (len + c - 1) / c,
            c == 64,
    ;
    assert(len == 0 ==> n == 0);
    assert(len > 0 ==> n >= 1) by (nonlinear_arith)
        requires
            n == (len + c - 1) / c,
            c == 64,
    ;
    assert(len > 0 && len % (c as nat) == 0 ==> n * c == len) by (nonlinear_arith)
        requires
            n == (len + c - 1) / c,
            c == 64,
    ;
    let p = spec_cdc_packets(len);
    assert forall|i: int| 0 <= i < p.len() implies 0 <= #[trigger] p[i].1 - p[i].0 <= CDC_PKT by {
        if i < n {
            assert(len > 0);
            assert((n - 1) * c < len);
            assert(i * c <= (n - 1) * c) by (nonlinear_arith)
                requires
                    0 <= i <= n - 1,
                    c == 64,
            ;
            assert((i + 1) * c == i * c + c) by (nonlinear_arith);
        }
    }
    assert forall|i: int| 0 <= i < p.len() - 1 implies #[trigger] p[i].1 == p[i + 1].0 by {
        assert((i + 1) * c == i * c + c) by (nonlinear_arith);
        if i + 1 < n {
            assert((i + 1) * c <= (n - 1) * c) by (nonlinear_arith)
                requires
                    i + 1 <= n - 1,
                    c == 64,
            ;
        }
    }
    if len > 0 {
        assert((n - 1 + 1) * c == (n - 1) * c + c) by (nonlinear_arith);
    }
}

} // verus!
