//! BLE L2CAP link helpers: SDU framing, the public-key exchange that opens a
//! link, capability flags, the peer allow-list and central/peripheral role
//! selection.

use vstd::prelude::*;

use crate::bytes::{be16, be16_value};

pub mod ble_caps;
pub mod peer_caps;
pub mod stats;

verus! {

pub const L2CAP_MTU: usize = 2048;
/// Largest link frame an SDU may carry.
pub const L2CAP_FRAME_CAP: usize = 768;
/// Largest SDU: a frame plus its 2-byte length header.
pub const L2CAP_SDU_CAP: usize = L2CAP_FRAME_CAP + 2;
pub const L2CAP_PSM: u16 = 0x0085;
pub const L2CAP_RECV_TIMEOUT_SECS: u64 = 45;
pub const L2CAP_SEND_TIMEOUT_SECS: u64 = 15;
pub const CENTRAL_CONNECT_TIMEOUT_SECS: u64 = 3;
pub const CENTRAL_COLLISION_COOLDOWN_MS: u32 = 6_000;
pub const CONNECTION_INTERVAL_MIN_MS: u32 = 20;
pub const CONNECTION_INTERVAL_MAX_MS: u32 = 40;
pub const CONNECTION_MAX_LATENCY: u16 = 0;
pub const SUPERVISION_TIMEOUT_MS: u32 = 4_000;
pub const FIPS_SERVICE_UUID: u128 = 0x9c90b790_2cc5_42c0_9f87_c9cc40648f4c;
pub const FIPS_SERVICE_UUID_LE: [u8; 16] = [
    0x4c,
    0x8f,
    0x64,
    0x40,
    0xcc,
    0xc9,
    0x87,
    0x9f,
    0xc0,
    0x42,
    0xc5,
    0x2c,
    0x90,
    0xb7,
    0x90,
    0x9c,
];
pub const FIPS_CAPS_SERVICE_UUID: [u8; 2] = [0x46, 0x49];

/// The x-only keys of the FIPS daemons a node accepts as link peers.
pub const FIPS_ALLOWED_PUBKEYS: [[u8; 32]; 3] = [
    [
        0xb3,
        0xae,
        0x36,
        0xdf,
        0x8b,
        0xc8,
        0xea,
        0x0e,
        0xc8,
        0x8b,
        0xd5,
        0xf4,
        0x7e,
        0x21,
        0x86,
        0x7e,
        0xb7,
        0xf7,
        0xe0,
        0x2d,
        0xaf,
        0x34,
        0x80,
        0xf3,
        0x52,
        0xf1,
        0xc8,
        0xc4,
        0x9f,
        0xb2,
        0x4d,
        0x6a,
    ],
    [
        0xb3,
        0x98,
        0x90,
        0x43,
        0xc6,
        0x8d,
        0x9c,
        0x2d,
        0x3c,
        0x8f,
        0x94,
        0x9d,
        0x73,
        0xe6,
        0x1c,
        0xae,
        0x27,
        0x99,
        0x79,
        0x93,
        0x43,
        0x2c,
        0x3d,
        0xbb,
        0xd8,
        0x49,
        0x81,
        0x17,
        0xd9,
        0x2d,
        0x95,
        0xbb,
    ],
    [
        0xa3,
        0xd1,
        0xbb,
        0xeb,
        0x71,
        0x40,
        0x30,
        0x86,
        0xff,
        0xb0,
        0x65,
        0xda,
        0x99,
        0xac,
        0x0b,
        0x21,
        0xd9,
        0x59,
        0x66,
        0xb8,
        0xfe,
        0xbf,
        0x74,
        0x14,
        0x72,
        0xa2,
        0xee,
        0xaf,
        0xc4,
        0x44,
        0x99,
        0xd2,
    ],
];

/// Why an L2CAP link was last closed.
#[derive(Debug, Clone, Copy, PartialEq, Eq, Structural)]
pub enum L2capDisconnectCode {
    NoDisconnect,
    CleanYield,
    DataExchanged,
    SendError,
    RecvTimeout,
    SendTimeout,
}

impl L2capDisconnectCode {
    pub open spec fn spec_code(self) -> u32 {
        match self {
            L2capDisconnectCode::NoDisconnect => 0,
            L2capDisconnectCode::CleanYield => 1,
            L2capDisconnectCode::DataExchanged => 2,
            L2capDisconnectCode::SendError => 3,
            L2capDisconnectCode::RecvTimeout => 4,
            L2capDisconnectCode::SendTimeout => 5,
        }
    }

    /// The code recorded in the link statistics.
    pub fn code(self) -> (r: u32)
        ensures
            r == self.spec_code(),
    {
        match self {
            L2capDisconnectCode::NoDisconnect => 0,
            L2capDisconnectCode::CleanYield => 1,
            L2capDisconnectCode::DataExchanged => 2,
            L2capDisconnectCode::SendError => 3,
            L2capDisconnectCode::RecvTimeout => 4,
            L2capDisconnectCode::SendTimeout => 5,
        }
    }
}

/// Distinct reasons are recorded under distinct codes.
pub proof fn lemma_disconnect_codes_distinct(a: L2capDisconnectCode, b: L2capDisconnectCode)
    ensures
        a.spec_code() == b.spec_code() <==> a == b,
        a.spec_code() < 6,
{
}

/// The capability byte a peer advertises.
#[derive(Clone, Copy, Debug, PartialEq, Eq, Structural)]
pub struct PeerCapabilities(pub u8);

impl PeerCapabilities {
    pub fn from_byte(byte: u8) -> (r: Self)
        ensures
            r.0 == byte,
    {
        PeerCapabilities(byte)
    }

    pub fn to_byte(self) -> (r: u8)
        ensures
            r == self.0,
    {
        self.0
    }
}

/// An SDU: the payload length big-endian, then the payload.
pub open spec fn sdu_wire(payload: Seq<u8>) -> Seq<u8> {
    be16(payload.len()) + payload
}

/// Frames `payload` as an SDU.
pub fn build_l2cap_sdu(payload: &[u8]) -> (sdu: Vec<u8>)
    requires
        payload@.len() <= u16::MAX,
    ensures
        sdu@ == sdu_wire(payload@),
{
    let mut sdu: Vec<u8> = Vec::with_capacity(payload.len() + 2);
    let len = payload.len();
    sdu.push((len / 256) as u8);
    sdu.push((len % 256) as u8);
    let mut i: usize = 0;
    while i < len
        invariant
            0 <= i <= len,
            len == payload@.len(),
            len <= u16::MAX,
            sdu@ == be16(len as nat) + payload@.subrange(0, i as int),
        decreases len - i,
    {
        sdu.push(payload[i]);
        i = i + 1;
        assert(payload@.subrange(0, i as int) =~= payload@.subrange(0, i - 1).push(payload@[i - 1]));
    }
    assert(payload@.subrange(0, len as int) =~= payload@);
    sdu
}

/// Why an SDU is refused, in the order the checks are made.
pub open spec fn sdu_error(sdu: Seq<u8>, frame_cap: nat) -> Option<&'static str> {
    if sdu.len() == 0 {
        Some("empty sdu")
    } else if sdu.len() < 2 {
        Some("sdu too short")
    } else if be16_value(sdu[0], sdu[1]) > frame_cap {
        Some("frame too large")
    } else if sdu.len() != be16_value(sdu[0], sdu[1]) + 2 {
        Some("length mismatch")
    } else {
        None
    }
}

/// Parses an SDU into its announced length and payload.
pub fn parse_l2cap_sdu(sdu: &[u8], frame_cap: usize) -> (r: Result<(usize, &[u8]), &'static str>)
    ensures
        match sdu_error(sdu@, frame_cap as nat) {
            Some(msg) => r matches Err(e) && e@ == msg@,
            None => r matches Ok((len, payload)) && len == be16_value(sdu@[0], sdu@[1]) && payload@
                == sdu@.subrange(2, sdu@.len() as int),
        },
{
    if sdu.len() == 0 {
        return Err("empty sdu");
    }
    if sdu.len() < 2 {
        return Err("sdu too short");
    }
    let payload_len = (sdu[0] as usize) * 256 + (sdu[1] as usize);
    if payload_len > frame_cap {
        return Err("frame too large");
    }
    if sdu.len() != payload_len + 2 {
        return Err("length mismatch");
    }
    Ok((payload_len, &sdu[2..sdu.len()]))
}

/// An SDU built from a payload within the cap parses back to that payload.
pub proof fn lemma_sdu_roundtrip(payload: Seq<u8>, frame_cap: nat)
    requires
        payload.len() <= frame_cap,
        payload.len() <= u16::MAX,
    ensures
        sdu_error(sdu_wire(payload), frame_cap) is None,
        be16_value(sdu_wire(payload)[0], sdu_wire(payload)[1]) == payload.len(),
        sdu_wire(payload).subrange(2, sdu_wire(payload).len() as int) == payload,
{
    crate::bytes::lemma_le16_roundtrip(payload.len());
    assert(sdu_wire(payload).subrange(2, sdu_wire(payload).len() as int) =~= payload);
}

/// An SDU announcing more than the cap is refused.
pub proof fn lemma_sdu_over_cap_refused(payload: Seq<u8>, frame_cap: nat)
    requires
        frame_cap < payload.len() <= u16::MAX,
    ensures
        sdu_error(sdu_wire(payload), frame_cap) is Some,
{
    crate::bytes::lemma_le16_roundtrip(payload.len());
}

/// The 36-byte key exchange: length 34 big-endian, a zero prefix byte, the
/// x-only key and the capability flags.
pub open spec fn pubkey_exchange_wire(pubkey_x: Seq<u8>, flags: u8) -> Seq<u8> {
    be16(34) + seq![0u8] + pubkey_x + seq![flags]
}

pub fn build_pubkey_exchange(pubkey_x: &[u8; 32], flags: u8) -> (r: [u8; 36])
    ensures
        r@ == pubkey_exchange_wire(pubkey_x@, flags),
{
    let mut out = [0u8; 36];
    out[0] = 0;
    out[1] = 34;
    out[2] = 0x00;
    let mut i: usize = 0;
    while i < 32
        invariant
            0 <= i <= 32,
            out@.len() == 36,
            out@[0] == 0u8,
            out@[1] == 34u8,
            out@[2] == 0u8,
            forall|k: int| 0 <= k < i ==> out@[3 + k] == #[trigger] pubkey_x@[k],
        decreases 32 - i,
    {
        out[3 + i] = pubkey_x[i];
        i = i + 1;
    }
    out[35] = flags;
    assert(out@ =~= pubkey_exchange_wire(pubkey_x@, flags));
    out
}

/// Why a key exchange is refused, in the order the checks are made.
pub open spec fn pubkey_exchange_error(msg: Seq<u8>) -> Option<&'static str> {
    if msg.len() < 35 {
        Some("message too short")
    } else if be16_value(msg[0], msg[1]) != 33 && be16_value(msg[0], msg[1]) != 34 {
        Some("bad payload length")
    } else if msg.len() != be16_value(msg[0], msg[1]) + 2 {
        Some("bad wire length")
    } else if msg[2] != 0u8 {
        Some("bad pubkey prefix")
    } else {
        None
    }
}

/// Parses a key exchange (the 36-byte form with flags, or the older 35-byte
/// form without) into the peer's compressed key with even parity, and the flags.
pub fn parse_pubkey_exchange(msg: &[u8]) -> (r: Result<([u8; 33], Option<u8>), &'static str>)
    ensures
        match pubkey_exchange_error(msg@) {
            Some(m) => r matches Err(e) && e@ == m@,
            None => r matches Ok((pubkey, flags)) && pubkey@ == seq![2u8] + msg@.subrange(3, 35)
                && flags == (if be16_value(msg@[0], msg@[1]) == 34 {
                Some(msg@[35])
            } else {
                None
            }),
        },
{
    if msg.len() < 35 {
        return Err("message too short");
    }
    let payload_len = (msg[0] as usize) * 256 + (msg[1] as usize);
    if payload_len != 33 && payload_len != 34 {
        return Err("bad payload length");
    }
    if msg.len() != payload_len + 2 {
        return Err("bad wire length");
    }
    if msg[2] != 0x00 {
        return Err("bad pubkey prefix");
    }
    let mut pubkey = [0u8; 33];
    pubkey[0] = 0x02;
    let mut i: usize = 0;
    while i < 32
        invariant
            0 <= i <= 32,
            msg@.len() >= 35,
            pubkey@.len() == 33,
            pubkey@[0] == 2u8,
            forall|k: int| 1 <= k < i + 1 ==> pubkey@[k] == #[trigger] msg@[k + 2],
        decreases 32 - i,
    {
        pubkey[1 + i] = msg[3 + i];
        i = i + 1;
    }
    assert forall|k: int| 1 <= k < 33 implies pubkey@[k] == (seq![2u8] + msg@.subrange(3, 35))[k] by {
        assert(pubkey@[k] == msg@[k + 2]);
    }
    assert(pubkey@ =~= seq![2u8] + msg@.subrange(3, 35));
    let flags = if payload_len == 34 {
        Some(msg[35])
    } else {
        None
    };
    Ok((pubkey, flags))
}

/// A key exchange parses back to the key (with even parity) and the flags it carries.
pub proof fn lemma_pubkey_exchange_roundtrip(pubkey_x: Seq<u8>, flags: u8)
    requires
        pubkey_x.len() == 32,
    ensures
        pubkey_exchange_error(pubkey_exchange_wire(pubkey_x, flags)) is None,
        be16_value(pubkey_exchange_wire(pubkey_x, flags)[0], pubkey_exchange_wire(pubkey_x, flags)[1])
            == 34,
        pubkey_exchange_wire(pubkey_x, flags).subrange(3, 35) == pubkey_x,
        pubkey_exchange_wire(pubkey_x, flags)[35] == flags,
{
    assert(pubkey_exchange_wire(pubkey_x, flags).subrange(3, 35) =~= pubkey_x);
}

/// Whether the key's x coordinate is one of the allowed daemons'.
pub open spec fn spec_peer_is_fips(peer_pub: Seq<u8>) -> bool {
    exists|i: int| 0 <= i < 3 && peer_pub.subrange(1, 33) == #[trigger] FIPS_ALLOWED_PUBKEYS@[i]@
}

/// Whether a compressed key (of either parity) belongs to an allowed daemon.
pub fn peer_is_fips(peer_pub: &[u8; 33]) -> (r: bool)
    ensures
        r == spec_peer_is_fips(peer_pub@),
{
    let allowed = FIPS_ALLOWED_PUBKEYS;
    let mut i: usize = 0;
    while i < 3
        invariant
            0 <= i <= 3,
            allowed@ == FIPS_ALLOWED_PUBKEYS@,
            forall|j: int| 0 <= j < i ==> peer_pub@.subrange(1, 33) != #[trigger] FIPS_ALLOWED_PUBKEYS@[j]@,
        decreases 3 - i,
    {
        if x_only_eq(peer_pub, &allowed[i]) {
            assert(peer_pub@.subrange(1, 33) == FIPS_ALLOWED_PUBKEYS@[i as int]@);
            return true;
        }
        i = i + 1;
    }
    false
}

/// Whether bytes `1..33` of a compressed key equal an x-only key.
fn x_only_eq(peer_pub: &[u8; 33], x_only: &[u8; 32]) -> (r: bool)
    ensures
        r == (peer_pub@.subrange(1, 33) == x_only@),
{
    let mut i: usize = 0;
    while i < 32
        invariant
            0 <= i <= 32,
            forall|k: int| 0 <= k < i ==> peer_pub@[1 + k] == #[trigger] x_only@[k],
        decreases 32 - i,
    {
        if peer_pub[1 + i] != x_only[i] {
            assert(peer_pub@.subrange(1, 33)[i as int] != x_only@[i as int]);
            return false;
        }
        i = i + 1;
    }
    assert(peer_pub@.subrange(1, 33) =~= x_only@);
    true
}

/// Whether two compressed keys share their x coordinate, whatever their parity.
pub fn same_x_only(a: &[u8; 33], b: &[u8; 33]) -> (r: bool)
    ensures
        r == (a@.subrange(1, 33) == b@.subrange(1, 33)),
{
    let mut i: usize = 1;
    while i < 33
        invariant
            1 <= i <= 33,
            forall|k: int| 1 <= k < i ==> a@[k] == b@[k],
        decreases 33 - i,
    {
        if a[i] != b[i] {
            assert(a@.subrange(1, 33)[i - 1] != b@.subrange(1, 33)[i - 1]);
            return false;
        }
        i = i + 1;
    }
    assert(a@.subrange(1, 33) =~= b@.subrange(1, 33));
    true
}

/// Whether the peripheral role is still preferred at `now_ms`.
pub fn should_prefer_peripheral(window_ms: u32, now_ms: u32) -> (r: bool)
    ensures
        r == (now_ms < window_ms),
{
    now_ms < window_ms
}

/// End of the window in which the peripheral role is preferred.
pub fn set_prefer_peripheral_window(now_ms: u32, delay_ms: u32) -> (r: u32)
    ensures
        r == (if now_ms + delay_ms > u32::MAX {
            u32::MAX as int
        } else {
            now_ms + delay_ms
        }),
{
    now_ms.saturating_add(delay_ms)
}

/// Whether the flags allow acting as central.
pub open spec fn spec_supports_central(flags: u8) -> bool {
    flags & (peer_caps::LEGACY_CENTRAL_ONLY | peer_caps::CAN_CENTRAL) != 0
}

/// Whether the flags allow acting as peripheral.
pub open spec fn spec_supports_peripheral(flags: u8) -> bool {
    flags & peer_caps::LEGACY_CENTRAL_ONLY == 0 && flags & peer_caps::CAN_PERIPHERAL != 0
}

pub fn supports_central(flags: u8) -> (r: bool)
    ensures
        r == spec_supports_central(flags),
{
    flags & (peer_caps::LEGACY_CENTRAL_ONLY | peer_caps::CAN_CENTRAL) != 0
}

pub fn supports_peripheral(flags: u8) -> (r: bool)
    ensures
        r == spec_supports_peripheral(flags),
{
    flags & peer_caps::LEGACY_CENTRAL_ONLY == 0 && flags & peer_caps::CAN_PERIPHERAL != 0
}

/// A legacy central-only peer never takes the peripheral role.
pub proof fn lemma_legacy_is_central_only(flags: u8)
    requires
        flags & peer_caps::LEGACY_CENTRAL_ONLY != 0,
    ensures
        spec_supports_central(flags),
        !spec_supports_peripheral(flags),
{
    assert(flags & 0x01u8 != 0 ==> flags & (0x01u8 | 0x08u8) != 0) by (bit_vector);
}

} // verus!
