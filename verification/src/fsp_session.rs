//! The pacing of an outgoing FSP session: when the initiator sends its
//! setup, resends it, waits for the handshake to finish and pings, and which
//! inbound datagrams it acts on.
//!
//! The runtime holds the session's cryptographic state and reports its phase;
//! [`FspDriver`] decides, and keeps the setup bytes a retry resends.

use vstd::prelude::*;

use crate::node::NodeEvent;
use crate::steady::{fits_secs, secs_after};
use crate::time::{Duration, Instant};

verus! {

/// Seconds after the link handshake before the first session setup.
pub const FSP_START_DELAY_SECS: u64 = 5;

/// Seconds between setup retries and while waiting for the session to finish.
pub const FSP_RETRY_SECS: u64 = 8;

/// Seconds allowed for the handshake's third message to settle.
pub const FSP_MSG3_TIMEOUT_SECS: u64 = 2;

/// Seconds between pings on an established session.
pub const FSP_PING_INTERVAL_SECS: u64 = 10;

/// The link message type that carries session datagrams.
pub const MSG_SESSION_DATAGRAM: u8 = 0x00;

/// The FSP phase of an encrypted data message.
pub const FSP_PHASE_DATA: u8 = 0x00;

/// The FSP phase of a session setup.
pub const FSP_PHASE_SETUP: u8 = 0x01;

/// The FSP phase of a setup acknowledgement.
pub const FSP_PHASE_ACK: u8 = 0x02;

/// The FSP phase of the handshake's third message.
pub const FSP_PHASE_MSG3: u8 = 0x03;

/// The phase an FSP message announces in the low nibble of its first byte.
pub fn fsp_phase(first_byte: u8) -> (r: u8)
    ensures
        r == first_byte % 16,
{
    let r = first_byte & 0x0f;
    assert(first_byte & 0x0f == first_byte % 16) by (bit_vector);
    r
}

/// Where the initiator's handshake stands.
#[derive(Debug, Clone, Copy, PartialEq, Eq, Structural)]
pub enum FspInitiatorPhase {
    Idle,
    AwaitingAck,
    AwaitingEstablished,
    Established,
}

/// What to do when the session timer fires.
#[derive(Debug, Clone, Copy, PartialEq, Eq, Structural)]
pub enum TickAction {
    Nothing,
    /// Build and send a fresh setup, then report it with `setup_sent`.
    BuildSetup,
    /// Send the cached setup bytes again.
    ResendSetup,
    /// Send a ping, then report it with `ping_sent`.
    SendPing,
}

/// What to do with a session datagram for the initiator.
#[derive(Debug, Clone, Copy, PartialEq, Eq, Structural)]
pub enum InitiatorAction {
    Nothing,
    /// Process the acknowledgement; on success send the third message and
    /// report it with `msg3_sent`.
    ProcessAck,
    /// Decrypt the data message and check it with `pong_ends_test`.
    CheckPong,
}

/// Abstract state of an [`FspDriver`].
pub struct FspDriverView {
    pub has_initiator: bool,
    pub timer: Option<Instant>,
    pub last_setup: Option<Seq<u8>>,
    pub test_ping: bool,
}

/// The pacing state of an outgoing FSP session.
pub struct FspDriver {
    has_initiator: bool,
    timer: Option<Instant>,
    last_setup: Option<Vec<u8>>,
    test_ping: bool,
}

/// The timer state after the session timer is re-armed at `at`.
pub open spec fn armed(v: FspDriverView, at: Instant) -> FspDriverView {
    FspDriverView { timer: Some(at), ..v }
}

impl View for FspDriver {
    type V = FspDriverView;

    closed spec fn view(&self) -> FspDriverView {
        FspDriverView {
            has_initiator: self.has_initiator,
            timer: self.timer,
            last_setup: match self.last_setup {
                Some(v) => Some(v@),
                None => None,
            },
            test_ping: self.test_ping,
        }
    }
}

/// The state after a protocol event: a completed link handshake arms the
/// first setup after the start delay; a lost link drops the initiator.
pub open spec fn spec_on_event(v: FspDriverView, event: NodeEvent, now: Instant) -> FspDriverView {
    match event {
        NodeEvent::HandshakeOk => if v.has_initiator {
            armed(v, secs_after(now, FSP_START_DELAY_SECS))
        } else {
            v
        },
        NodeEvent::Disconnected | NodeEvent::Error => FspDriverView { has_initiator: false, timer: None, ..v },
        _ => v,
    }
}

/// The action and state when the timer fires with the initiator in `phase`.
pub open spec fn spec_on_tick(v: FspDriverView, phase: FspInitiatorPhase, now: Instant) -> (FspDriverView, TickAction) {
    if !v.has_initiator {
        (v, TickAction::Nothing)
    } else {
        match phase {
            FspInitiatorPhase::Idle => (v, TickAction::BuildSetup),
            FspInitiatorPhase::AwaitingAck => (
                armed(v, secs_after(now, FSP_RETRY_SECS)),
                if v.last_setup is Some {
                    TickAction::ResendSetup
                } else {
                    TickAction::Nothing
                },
            ),
            FspInitiatorPhase::AwaitingEstablished => (armed(v, secs_after(now, FSP_RETRY_SECS)), TickAction::Nothing),
            FspInitiatorPhase::Established => (v, TickAction::SendPing),
        }
    }
}

/// The action and state for a session datagram with FSP phase `fsp_phase`
/// while the initiator is in `phase`.
pub open spec fn spec_on_datagram(v: FspDriverView, phase: FspInitiatorPhase, fsp_phase: u8, now: Instant) -> (
    FspDriverView,
    InitiatorAction,
) {
    if !v.has_initiator {
        (v, InitiatorAction::Nothing)
    } else {
        match phase {
            FspInitiatorPhase::AwaitingAck => if fsp_phase == FSP_PHASE_ACK {
                (v, InitiatorAction::ProcessAck)
            } else {
                (v, InitiatorAction::Nothing)
            },
            FspInitiatorPhase::AwaitingEstablished => (armed(v, secs_after(now, FSP_RETRY_SECS)), InitiatorAction::Nothing),
            FspInitiatorPhase::Established => if fsp_phase == FSP_PHASE_DATA {
                (v, InitiatorAction::CheckPong)
            } else {
                (v, InitiatorAction::Nothing)
            },
            FspInitiatorPhase::Idle => (v, InitiatorAction::Nothing),
        }
    }
}

/// The latest instants the session timers are set from must stay on the clock.
pub open spec fn timers_fit(now: Instant) -> bool {
    fits_secs(now, FSP_PING_INTERVAL_SECS)
}

fn after_secs(now: Instant, secs: u64) -> (r: Instant)
    requires
        fits_secs(now, secs),
    ensures
        r == secs_after(now, secs),
{
    now.plus(Duration::from_secs(secs))
}

impl FspDriver {
    /// A driver for a handler with an outgoing session (`has_initiator`) or
    /// a responder-only one.
    pub fn new(has_initiator: bool) -> (d: Self)
        ensures
            d@ == (FspDriverView { has_initiator, timer: None, last_setup: None, test_ping: false }),
    {
        FspDriver { has_initiator, timer: None, last_setup: None, test_ping: false }
    }

    /// Whether a returned pong ends the session (a ping test).
    pub fn set_test_ping(&mut self, test_ping: bool)
        ensures
            final(self)@ == (FspDriverView { test_ping, ..old(self)@ }),
    {
        self.test_ping = test_ping;
    }

    /// When the session timer fires next.
    pub fn poll_at(&self) -> (r: Option<Instant>)
        ensures
            r == self@.timer,
    {
        self.timer
    }

    /// The setup bytes a retry resends.
    pub fn last_setup(&self) -> (r: Option<&[u8]>)
        ensures
            match self@.last_setup {
                Some(b) => r matches Some(s) && s@ == b,
                None => r is None,
            },
    {
        match &self.last_setup {
            Some(v) => Some(v.as_slice()),
            None => None,
        }
    }

    /// A protocol event; returns whether the responder session must be reset
    /// (on every completed link handshake).
    pub fn on_event(&mut self, event: NodeEvent, now: Instant) -> (reset_responder: bool)
        requires
            timers_fit(now),
        ensures
            final(self)@ == spec_on_event(old(self)@, event, now),
            reset_responder == (event == NodeEvent::HandshakeOk),
    {
        match event {
            NodeEvent::HandshakeOk => {
                if self.has_initiator {
                    self.timer = Some(after_secs(now, FSP_START_DELAY_SECS));
                }
                true
            },
            NodeEvent::Disconnected | NodeEvent::Error => {
                self.has_initiator = false;
                self.timer = None;
                false
            },
            _ => false,
        }
    }

    /// The session timer fired with the initiator in `phase`.
    pub fn on_tick(&mut self, phase: FspInitiatorPhase, now: Instant) -> (a: TickAction)
        requires
            timers_fit(now),
        ensures
            (final(self)@, a) == spec_on_tick(old(self)@, phase, now),
    {
        if !self.has_initiator {
            return TickAction::Nothing;
        }
        match phase {
            FspInitiatorPhase::Idle => TickAction::BuildSetup,
            FspInitiatorPhase::AwaitingAck => {
                self.timer = Some(after_secs(now, FSP_RETRY_SECS));
                if self.last_setup.is_some() {
                    TickAction::ResendSetup
                } else {
                    TickAction::Nothing
                }
            },
            FspInitiatorPhase::AwaitingEstablished => {
                self.timer = Some(after_secs(now, FSP_RETRY_SECS));
                TickAction::Nothing
            },
            FspInitiatorPhase::Established => TickAction::SendPing,
        }
    }

    /// A fresh setup datagram went out at `now`: it is cached for retries.
    pub fn setup_sent(&mut self, datagram: Vec<u8>, now: Instant)
        requires
            timers_fit(now),
        ensures
            final(self)@ == (FspDriverView {
                last_setup: Some(datagram@),
                timer: Some(secs_after(now, FSP_RETRY_SECS)),
                ..old(self)@
            }),
    {
        self.last_setup = Some(datagram);
        self.timer = Some(after_secs(now, FSP_RETRY_SECS));
    }

    /// A session datagram for the initiator, whose FSP phase is `fsp_phase`.
    pub fn on_datagram(&mut self, phase: FspInitiatorPhase, fsp_phase: u8, now: Instant) -> (a: InitiatorAction)
        requires
            timers_fit(now),
        ensures
            (final(self)@, a) == spec_on_datagram(old(self)@, phase, fsp_phase, now),
    {
        if !self.has_initiator {
            return InitiatorAction::Nothing;
        }
        match phase {
            FspInitiatorPhase::AwaitingAck => if fsp_phase == FSP_PHASE_ACK {
                InitiatorAction::ProcessAck
            } else {
                InitiatorAction::Nothing
            },
            FspInitiatorPhase::AwaitingEstablished => {
                self.timer = Some(after_secs(now, FSP_RETRY_SECS));
                InitiatorAction::Nothing
            },
            FspInitiatorPhase::Established => if fsp_phase == FSP_PHASE_DATA {
                InitiatorAction::CheckPong
            } else {
                InitiatorAction::Nothing
            },
            FspInitiatorPhase::Idle => InitiatorAction::Nothing,
        }
    }

    /// The handshake's third message went out at `now`.
    pub fn msg3_sent(&mut self, now: Instant)
        requires
            timers_fit(now),
        ensures
            final(self)@ == armed(old(self)@, secs_after(now, FSP_MSG3_TIMEOUT_SECS)),
    {
        self.timer = Some(after_secs(now, FSP_MSG3_TIMEOUT_SECS));
    }

    /// A ping went out at `now`.
    pub fn ping_sent(&mut self, now: Instant)
        requires
            timers_fit(now),
        ensures
            final(self)@ == armed(old(self)@, secs_after(now, FSP_PING_INTERVAL_SECS)),
    {
        self.timer = Some(after_secs(now, FSP_PING_INTERVAL_SECS));
    }

    /// Whether a decrypted data payload ends the session: a pong during a
    /// ping test.
    pub fn pong_ends_test(&self, inner_payload: &[u8]) -> (r: bool)
        ensures
            r == (self@.test_ping && inner_payload@ == seq![80u8, 79u8, 78u8, 71u8]),
    {
        if !self.test_ping || inner_payload.len() != 4 {
            return false;
        }
        let r = inner_payload[0] == 80 && inner_payload[1] == 79 && inner_payload[2] == 78 && inner_payload[3] == 71;
        proof {
            if r {
                assert(inner_payload@ =~= seq![80u8, 79u8, 78u8, 71u8]);
            }
        }
        r
    }
}

/// Once the link is lost the initiator stays silent: no later event brings it
/// back, and its timer never asks for anything.
pub proof fn lemma_lost_link_silences_initiator(
    v: FspDriverView,
    lost: NodeEvent,
    later: NodeEvent,
    phase: FspInitiatorPhase,
    fsp_phase: u8,
    t1: Instant,
    t2: Instant,
)
    requires
        lost == NodeEvent::Disconnected || lost == NodeEvent::Error,
    ensures
        ({
            let after = spec_on_event(v, lost, t1);
            &&& !after.has_initiator
            &&& after.timer is None
            &&& !spec_on_event(after, later, t2).has_initiator
            &&& spec_on_tick(after, phase, t2) == (after, TickAction::Nothing)
            &&& spec_on_datagram(after, phase, fsp_phase, t2) == (after, InitiatorAction::Nothing)
        }),
{
}

/// A setup retry resends exactly the bytes of the setup sent from the idle
/// phase, however often the timer fires while the acknowledgement is awaited.
pub proof fn lemma_retry_resends_cached_setup(v: FspDriverView, setup: Seq<u8>, sent_at: Instant, now: Instant)
    requires
        v.has_initiator,
    ensures
        ({
            let after_send = FspDriverView {
                last_setup: Some(setup),
                timer: Some(secs_after(sent_at, FSP_RETRY_SECS)),
                ..v
            };
            let (after_tick, action) = spec_on_tick(after_send, FspInitiatorPhase::AwaitingAck, now);
            &&& action == TickAction::ResendSetup
            &&& after_tick.last_setup == Some(setup)
            &&& after_tick.timer == Some(secs_after(now, FSP_RETRY_SECS))
        }),
{
}

/// Bytes of the routing body in front of every session datagram's FSP data:
/// TTL, path MTU (little-endian), source and destination node addresses.
pub const SESSION_DATAGRAM_BODY_SIZE: usize = 35;

/// The addresses and FSP phase of an inbound session datagram.
#[derive(Debug, Clone, Copy, PartialEq, Eq)]
pub struct SessionDatagram {
    pub src_addr: [u8; 16],
    pub dst_addr: [u8; 16],
    pub fsp_phase: u8,
}

/// A session datagram with a routing body and at least one byte of FSP data:
/// its addresses and the phase of the FSP message.
pub open spec fn spec_parse_session_datagram(msg_type: u8, payload: Seq<u8>) -> Option<(Seq<u8>, Seq<u8>, u8)> {
    if msg_type != MSG_SESSION_DATAGRAM || payload.len() <= SESSION_DATAGRAM_BODY_SIZE {
        None
    } else {
        Some((payload.subrange(3, 19), payload.subrange(19, 35), (payload[35] % 16) as u8))
    }
}

fn copy16(src: &[u8], off: usize) -> (r: [u8; 16])
    requires
        off + 16 <= src@.len(),
    ensures
        r@ == src@.subrange(off as int, off + 16),
{
    let mut r = [0u8; 16];
    let mut i: usize = 0;
    while i < 16
        invariant
            0 <= i <= 16,
            off + 16 <= src.len(),
            forall|k: int| 0 <= k < i ==> r@[k] == src@[off + k],
        decreases 16 - i,
    {
        r[i] = src[off + i];
        i = i + 1;
    }
    assert(r@ =~= src@.subrange(off as int, off + 16));
    r
}

/// Reads the routing body and FSP phase of a session datagram.
pub fn parse_session_datagram(msg_type: u8, payload: &[u8]) -> (r: Option<SessionDatagram>)
    ensures
        match spec_parse_session_datagram(msg_type, payload@) {
            None => r is None,
            Some((src, dst, phase)) => r matches Some(d) && d.src_addr@ == src && d.dst_addr@ == dst
                && d.fsp_phase == phase,
        },
{
    if msg_type != MSG_SESSION_DATAGRAM || payload.len() <= SESSION_DATAGRAM_BODY_SIZE {
        return None;
    }
    Some(
        SessionDatagram {
            src_addr: copy16(payload, 3),
            dst_addr: copy16(payload, 19),
            fsp_phase: fsp_phase(payload[35]),
        },
    )
}

/// The routing body of a datagram from `src` to `dst`: TTL 64 and a path
/// MTU of 1400.
pub open spec fn spec_session_datagram_body(src: Seq<u8>, dst: Seq<u8>) -> Seq<u8> {
    seq![64u8, 0x78u8, 0x05u8] + src + dst
}

pub fn make_session_datagram_body(src: &[u8; 16], dst: &[u8; 16]) -> (r: [u8; 35])
    ensures
        r@ == spec_session_datagram_body(src@, dst@),
{
    let mut body = [0u8; 35];
    body[0] = 64;
    body[1] = 0x78;
    body[2] = 0x05;
    let mut i: usize = 0;
    while i < 16
        invariant
            0 <= i <= 16,
            body@[0] == 64u8 && body@[1] == 0x78u8 && body@[2] == 0x05u8,
            forall|k: int| 0 <= k < i ==> body@[3 + k] == src@[k] && body@[19 + k] == dst@[k],
        decreases 16 - i,
    {
        body[3 + i] = src[i];
        body[19 + i] = dst[i];
        i = i + 1;
    }
    assert(body@ =~= spec_session_datagram_body(src@, dst@));
    body
}

/// What the responder side does with a session datagram's FSP message.
#[derive(Debug, Clone, Copy, PartialEq, Eq, Structural)]
pub enum ResponderStep {
    /// Answer a session setup (the reply needs room past the routing body).
    Setup,
    /// Complete the handshake with its third message.
    Msg3,
    /// Decrypt application data for the application.
    Data,
    Ignore,
}

pub open spec fn spec_responder_step(fsp_phase: u8, resp_len: usize) -> ResponderStep {
    if fsp_phase == FSP_PHASE_SETUP {
        if resp_len > SESSION_DATAGRAM_BODY_SIZE {
            ResponderStep::Setup
        } else {
            ResponderStep::Ignore
        }
    } else if fsp_phase == FSP_PHASE_MSG3 {
        ResponderStep::Msg3
    } else if fsp_phase == FSP_PHASE_DATA {
        ResponderStep::Data
    } else {
        ResponderStep::Ignore
    }
}

pub fn responder_step(fsp_phase: u8, resp_len: usize) -> (r: ResponderStep)
    ensures
        r == spec_responder_step(fsp_phase, resp_len),
{
    if fsp_phase == FSP_PHASE_SETUP {
        if resp_len > SESSION_DATAGRAM_BODY_SIZE {
            ResponderStep::Setup
        } else {
            ResponderStep::Ignore
        }
    } else if fsp_phase == FSP_PHASE_MSG3 {
        ResponderStep::Msg3
    } else if fsp_phase == FSP_PHASE_DATA {
        ResponderStep::Data
    } else {
        ResponderStep::Ignore
    }
}

} // verus!
