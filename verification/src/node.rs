//! Link runtime configuration and the decisions of the node runtime that do
//! not depend on the cryptographic core: timing defaults, handshake resend
//! backoff, session epochs and the length-prefixed receive buffer.

use vstd::prelude::*;

use crate::framing::{compact, extract_length_prefixed_frame, spec_extract_length_prefixed};

verus! {

pub const DEFAULT_HEARTBEAT_INTERVAL_SECS: u64 = 10;
pub const DEFAULT_LINK_DEAD_TIMEOUT_SECS: u64 = 30;
pub const DEFAULT_RETRY_BASE_INTERVAL_SECS: u64 = 5;
pub const DEFAULT_RETRY_MAX_BACKOFF_SECS: u64 = 300;
pub const DEFAULT_HANDSHAKE_RESEND_INTERVAL_MS: u64 = 3_000;
pub const DEFAULT_HANDSHAKE_RESEND_BACKOFF: u64 = 1;
pub const DEFAULT_HANDSHAKE_MAX_RESENDS: u32 = 10;
pub const DEFAULT_CONNECT_DELAY_MS: u64 = 500;
/// Seconds of decrypt/replay failures absorbed silently after steady entry
/// and after every key-epoch cutover.
pub const DEFAULT_BAD_FRAME_GRACE_SECS: u64 = 10;
/// Minimum spacing between fresh rekey-answer attempts.
pub const DEFAULT_REKEY_ANSWER_MIN_INTERVAL_MS: u64 = 500;
pub const MAX_COMPETING_MSG1: u32 = 3;

pub const RECV_BUF_SIZE: usize = 1500;
pub const MAX_FRAME_SIZE: usize = 2048;

/// Timing of the node runtime.
#[derive(Debug, Clone, Copy, PartialEq, Eq, Structural)]
pub struct NodeTiming {
    pub heartbeat_interval_secs: u64,
    pub link_dead_timeout_secs: u64,
    /// Seconds in a session before rotating keys (0 = never).
    pub rekey_after_secs: u64,
    /// Outbound messages before rotating keys (0 = never).
    pub rekey_after_messages: u64,
    pub retry_base_interval_secs: u64,
    pub retry_max_backoff_secs: u64,
    pub handshake_resend_interval_ms: u64,
    pub handshake_resend_backoff: u64,
    pub handshake_max_resends: u32,
    pub connect_delay_ms: u64,
    /// Seconds of decrypt/replay failures after steady entry and after each
    /// key-epoch cutover that are dropped without being charged (0 = off).
    pub bad_frame_grace_secs: u64,
    /// Minimum milliseconds between fresh rekey-answer attempts (0 = off).
    pub rekey_answer_min_interval_ms: u64,
}

/// The default timing.
pub open spec fn spec_default_timing() -> NodeTiming {
    NodeTiming {
        heartbeat_interval_secs: DEFAULT_HEARTBEAT_INTERVAL_SECS,
        link_dead_timeout_secs: DEFAULT_LINK_DEAD_TIMEOUT_SECS,
        rekey_after_secs: 0,
        rekey_after_messages: 0,
        retry_base_interval_secs: DEFAULT_RETRY_BASE_INTERVAL_SECS,
        retry_max_backoff_secs: DEFAULT_RETRY_MAX_BACKOFF_SECS,
        handshake_resend_interval_ms: DEFAULT_HANDSHAKE_RESEND_INTERVAL_MS,
        handshake_resend_backoff: DEFAULT_HANDSHAKE_RESEND_BACKOFF,
        handshake_max_resends: DEFAULT_HANDSHAKE_MAX_RESENDS,
        connect_delay_ms: DEFAULT_CONNECT_DELAY_MS,
        bad_frame_grace_secs: DEFAULT_BAD_FRAME_GRACE_SECS,
        rekey_answer_min_interval_ms: DEFAULT_REKEY_ANSWER_MIN_INTERVAL_MS,
    }
}

impl Default for NodeTiming {
    fn default() -> (r: Self)
        ensures
            r == spec_default_timing(),
    {
        NodeTiming {
            heartbeat_interval_secs: DEFAULT_HEARTBEAT_INTERVAL_SECS,
            link_dead_timeout_secs: DEFAULT_LINK_DEAD_TIMEOUT_SECS,
            rekey_after_secs: 0,
            rekey_after_messages: 0,
            retry_base_interval_secs: DEFAULT_RETRY_BASE_INTERVAL_SECS,
            retry_max_backoff_secs: DEFAULT_RETRY_MAX_BACKOFF_SECS,
            handshake_resend_interval_ms: DEFAULT_HANDSHAKE_RESEND_INTERVAL_MS,
            handshake_resend_backoff: DEFAULT_HANDSHAKE_RESEND_BACKOFF,
            handshake_max_resends: DEFAULT_HANDSHAKE_MAX_RESENDS,
            connect_delay_ms: DEFAULT_CONNECT_DELAY_MS,
            bad_frame_grace_secs: DEFAULT_BAD_FRAME_GRACE_SECS,
            rekey_answer_min_interval_ms: DEFAULT_REKEY_ANSWER_MIN_INTERVAL_MS,
        }
    }
}

/// `base * factor^n`, saturating at `u64::MAX`.
pub open spec fn saturating_scale(base: u64, factor: u64, n: nat) -> u64
    decreases n,
{
    if n == 0 {
        base
    } else {
        let prev = saturating_scale(base, factor, (n - 1) as nat);
        if prev * factor > u64::MAX {
            u64::MAX
        } else {
            (prev * factor) as u64
        }
    }
}

/// Wait before resend number `resend_count` of a handshake message: the
/// resend interval scaled by the backoff factor (at least 1) once per earlier
/// resend, at most 15 times, saturating, then capped at `u32::MAX`.
pub open spec fn spec_resend_timeout_ms(timing: NodeTiming, resend_count: u32) -> u32 {
    let base = timing.handshake_resend_interval_ms;
    let factor: u64 = if timing.handshake_resend_backoff >= 1 {
        timing.handshake_resend_backoff
    } else {
        1
    };
    let n: nat = if resend_count > 15 {
        15
    } else {
        resend_count as nat
    };
    let scaled = if resend_count == 0 {
        base
    } else {
        saturating_scale(base, factor, n)
    };
    if scaled > u32::MAX {
        u32::MAX
    } else {
        scaled as u32
    }
}

impl NodeTiming {
    /// Milliseconds to wait for an answer before resend `resend_count` of a
    /// handshake message.
    pub fn handshake_resend_timeout_ms(&self, resend_count: u32) -> (r: u32)
        ensures
            r == spec_resend_timeout_ms(*self, resend_count),
    {
        let base = self.handshake_resend_interval_ms;
        if resend_count == 0 {
            return if base > 0xffff_ffff {
                0xffff_ffff
            } else {
                base as u32
            };
        }
        let factor: u64 = if self.handshake_resend_backoff >= 1 {
            self.handshake_resend_backoff
        } else {
            1
        };
        let rounds: u32 = if resend_count > 15 {
            15
        } else {
            resend_count
        };
        let mut scaled = base;
        let mut i: u32 = 0;
        while i < rounds
            invariant
                0 <= i <= rounds,
                rounds <= 15,
                scaled == saturating_scale(base, factor, i as nat),
            decreases rounds - i,
        {
            scaled = match scaled.checked_mul(factor) {
                Some(v) => v,
                None => 0xffff_ffff_ffff_ffff,
            };
            i = i + 1;
        }
        if scaled > 0xffff_ffff {
            0xffff_ffff
        } else {
            scaled as u32
        }
    }
}

/// A later handshake resend never waits less than an earlier one.
pub proof fn lemma_resend_backoff_monotone(timing: NodeTiming, a: u32, b: u32)
    requires
        a <= b,
    ensures
        spec_resend_timeout_ms(timing, a) <= spec_resend_timeout_ms(timing, b),
{
    let factor: u64 = if timing.handshake_resend_backoff >= 1 {
        timing.handshake_resend_backoff
    } else {
        1
    };
    let na: nat = if a > 15 {
        15
    } else {
        a as nat
    };
    let nb: nat = if b > 15 {
        15
    } else {
        b as nat
    };
    if a == 0 {
        lemma_scale_monotone(timing.handshake_resend_interval_ms, factor, 0, nb);
    } else {
        lemma_scale_monotone(timing.handshake_resend_interval_ms, factor, na, nb);
    }
}

proof fn lemma_scale_monotone(base: u64, factor: u64, a: nat, b: nat)
    requires
        a <= b,
        factor >= 1,
    ensures
        saturating_scale(base, factor, a) <= saturating_scale(base, factor, b),
    decreases b,
{
    if a < b {
        lemma_scale_monotone(base, factor, a, (b - 1) as nat);
        let prev = saturating_scale(base, factor, (b - 1) as nat);
        assert(prev * factor >= prev) by (nonlinear_arith)
            requires
                factor >= 1,
                prev >= 0,
        ;
    }
}

/// Protocol state events emitted to the handler.
#[derive(Debug, Clone, Copy, PartialEq, Eq, Structural)]
pub enum NodeEvent {
    /// Transport is ready.
    Connected,
    /// MSG1 (handshake initiation) has been sent.
    Msg1Sent,
    /// Handshake completed successfully, keys derived.
    HandshakeOk,
    /// A heartbeat was transmitted to the peer.
    HeartbeatSent,
    /// A heartbeat was received from the peer.
    HeartbeatRecv,
    /// Session ended after steady state.
    Disconnected,
    /// Handshake failed.
    Error,
}

/// Result from the handler's message callback.
#[derive(Debug, Clone, Copy, PartialEq, Eq, Structural)]
pub enum HandleResult {
    /// No response needed.
    NoReply,
    /// Send a session datagram response of the given length (written into the response buffer).
    SendDatagram(usize),
    /// Request disconnect.
    Disconnect,
}

/// The counter of session attempts; each attempt is stamped with its epoch.
pub struct EpochCounter {
    epoch: u64,
}

/// Little-endian bytes of a 64-bit value.
pub open spec fn le64(v: u64) -> Seq<u8> {
    Seq::new(8, |i: int| ((v as nat / pow256(i)) % 256) as u8)
}

/// `256^i`.
pub open spec fn pow256(i: int) -> nat
    decreases i,
{
    if i <= 0 {
        1
    } else {
        256 * pow256(i - 1)
    }
}

impl EpochCounter {
    pub closed spec fn value(&self) -> u64 {
        self.epoch
    }

    /// A counter at `epoch` (a fresh node starts at 0).
    pub fn new(epoch: u64) -> (r: Self)
        ensures
            r.value() == epoch,
    {
        EpochCounter { epoch }
    }

    pub fn epoch(&self) -> (r: u64)
        ensures
            r == self.value(),
    {
        self.epoch
    }

    /// Moves to the next epoch (wrapping) and returns it little-endian.
    pub fn advance(&mut self) -> (r: [u8; 8])
        ensures
            final(self).value() == (if old(self).value() == u64::MAX {
                0
            } else {
                old(self).value() + 1
            }),
            r@ == le64(final(self).value()),
    {
        self.epoch = self.epoch.wrapping_add(1);
        let e = self.epoch;
        let mut out = [0u8; 8];
        let mut v = e;
        let mut i: usize = 0;
        assert(pow256(0) == 1);
        assert(e as nat / 1 == e as nat);
        while i < 8
            invariant
                0 <= i <= 8,
                out@.len() == 8,
                v as nat == e as nat / pow256(i as int),
                forall|k: int| 0 <= k < i ==> out@[k] == le64(e)[k],
            decreases 8 - i,
        {
            proof {
                lemma_pow256_pos(i as int);
                lemma_div_step(e as nat, pow256(i as int));
            }
            out[i] = (v % 256) as u8;
            v = v / 256;
            i = i + 1;
        }
        assert(out@ =~= le64(e));
        out
    }
}

proof fn lemma_pow256_pos(i: int)
    ensures
        pow256(i) >= 1,
    decreases i,
{
    if i > 0 {
        lemma_pow256_pos(i - 1);
    }
}

proof fn lemma_div_step(x: nat, p: nat)
    requires
        p >= 1,
    ensures
        x / p / 256 == x / (256 * p),
{
    vstd::arithmetic::div_mod::lemma_div_denominator(x as int, p as int, 256);
    vstd::arithmetic::mul::lemma_mul_is_commutative(p as int, 256);
}

/// Receive buffer of a length-prefixed link: bytes arrive in arbitrary chunks
/// and leave as whole frames.
pub struct FrameBuffer {
    rbuf: [u8; 2048],
    rpos: usize,
    rlen: usize,
}

/// The frames and skipped headers at the front of `pending`: the next
/// non-empty frame and what is left after it, or `None` and what is left when
/// no complete frame is available yet.
pub open spec fn spec_next_frame(pending: Seq<u8>) -> (Option<Seq<u8>>, Seq<u8>)
    decreases pending.len(),
{
    match spec_extract_length_prefixed(pending, 0, pending.len() as int) {
        None => (None, pending),
        Some((frame, next)) => {
            let rest = pending.subrange(next, pending.len() as int);
            if frame.len() == 0 {
                if next > 0 {
                    spec_next_frame(rest)
                } else {
                    (None, pending)
                }
            } else {
                (Some(frame), rest)
            }
        },
    }
}

impl FrameBuffer {
    /// Bytes received but not yet taken as frames.
    pub closed spec fn pending(&self) -> Seq<u8> {
        self.rbuf@.subrange(self.rpos as int, self.rlen as int)
    }

    pub closed spec fn wf(&self) -> bool {
        self.rpos <= self.rlen <= 2048
    }

    pub fn new() -> (r: Self)
        ensures
            r.wf(),
            r.pending() == Seq::<u8>::empty(),
    {
        FrameBuffer { rbuf: [0u8; 2048], rpos: 0, rlen: 0 }
    }

    /// Takes the next frame into `out` (truncated to `out.len()`), skipping
    /// headers that announce zero bytes or more than the frame limit; returns
    /// the number of bytes copied, or `None` until a whole frame has arrived.
    pub fn take_frame(&mut self, out: &mut [u8]) -> (r: Option<usize>)
        requires
            old(self).wf(),
        ensures
            final(self).wf(),
            final(out)@.len() == old(out)@.len(),
            ({
                let (frame, rest) = spec_next_frame(old(self).pending());
                &&& final(self).pending() == rest
                &&& match frame {
                    None => r is None && final(out)@ == old(out)@,
                    Some(f) => {
                        let l = if f.len() < old(out)@.len() {
                            f.len()
                        } else {
                            old(out)@.len()
                        };
                        &&& r == Some(l as usize)
                        &&& final(out)@ == f.subrange(0, l as int) + old(out)@.subrange(
                            l as int,
                            old(out)@.len() as int,
                        )
                    },
                }
            }),
    {
        loop
            invariant
                self.wf(),
                out@ == old(out)@,
                spec_next_frame(self.pending()) == spec_next_frame(old(self).pending()),
            decreases self.pending().len(),
        {
            let ghost before = self.pending();
            let ghost rpos0 = self.rpos;
            proof {
                lemma_extract_shift(self.rbuf@, self.rpos as int, self.rlen as int);
            }
            match extract_length_prefixed_frame(&self.rbuf, self.rpos, self.rlen) {
                Some((frame, new_pos)) => {
                    let fl = frame.len();
                    if fl == 0 {
                        self.rpos = new_pos;
                        if self.rpos >= self.rlen {
                            self.rpos = 0;
                            self.rlen = 0;
                        }
                        proof {
                            assert(self.pending() =~= before.subrange(
                                new_pos - rpos0,
                                before.len() as int,
                            ));
                        }
                    } else {
                        let l = if fl < out.len() {
                            fl
                        } else {
                            out.len()
                        };
                        let ghost o = out@;
                        let mut i: usize = 0;
                        while i < l
                            invariant
                                0 <= i <= l,
                                l <= frame@.len(),
                                l <= out@.len(),
                                out@.len() == o.len(),
                                forall|k: int| 0 <= k < i ==> out@[k] == frame@[k],
                                forall|k: int| i <= k < o.len() ==> out@[k] == o[k],
                            decreases l - i,
                        {
                            out[i] = frame[i];
                            i = i + 1;
                        }
                        self.rpos = new_pos;
                        if self.rpos >= self.rlen {
                            self.rpos = 0;
                            self.rlen = 0;
                        }
                        proof {
                            assert(self.pending() =~= before.subrange(
                                new_pos - rpos0,
                                before.len() as int,
                            ));
                            assert(out@ =~= frame@.subrange(0, l as int) + o.subrange(
                                l as int,
                                o.len() as int,
                            ));
                        }
                        return Some(l);
                    }
                },
                None => {
                    compact(&mut self.rbuf, &mut self.rpos, &mut self.rlen);
                    proof {
                        assert(self.pending() =~= before);
                    }
                    return None;
                },
            }
        }
    }

    /// Appends received bytes; when they would overflow the buffer, everything
    /// pending is dropped instead.
    pub fn push_received(&mut self, data: &[u8])
        requires
            old(self).wf(),
        ensures
            final(self).wf(),
            if old(self).rlen_spec() + data@.len() > 2048 {
                final(self).pending() == Seq::<u8>::empty()
            } else {
                final(self).pending() == old(self).pending() + data@
            },
    {
        if data.len() > 2048 - self.rlen {
            self.rlen = 0;
            self.rpos = 0;
            proof {
                assert(self.pending() =~= Seq::<u8>::empty());
            }
            return;
        }
        let ghost before = self.pending();
        let n = data.len();
        let start = self.rlen;
        let mut i: usize = 0;
        while i < n
            invariant
                0 <= i <= n,
                n == data@.len(),
                start + n <= 2048,
                self.rlen == start,
                self.rpos <= start,
                self.rbuf@.subrange(self.rpos as int, start as int) == before,
                forall|k: int| 0 <= k < i ==> self.rbuf@[start + k] == data@[k],
            decreases n - i,
        {
            proof {
                assert(self.rbuf@.update(start + i, data@[i as int]).subrange(
                    self.rpos as int,
                    start as int,
                ) =~= self.rbuf@.subrange(self.rpos as int, start as int));
            }
            self.rbuf[start + i] = data[i];
            i = i + 1;
        }
        self.rlen = start + n;
        proof {
            assert(self.pending() =~= before + data@);
        }
    }

    /// Index one past the last buffered byte.
    pub closed spec fn rlen_spec(&self) -> nat {
        self.rlen as nat
    }
}

/// Extracting from `buf[pos..len]` is extracting from those bytes alone, with
/// positions shifted by `pos`.
proof fn lemma_extract_shift(buf: Seq<u8>, pos: int, len: int)
    requires
        0 <= pos <= len <= buf.len(),
    ensures
        ({
            let p = buf.subrange(pos, len);
            match spec_extract_length_prefixed(buf, pos, len) {
                None => spec_extract_length_prefixed(p, 0, p.len() as int) is None,
                Some((f, n)) => spec_extract_length_prefixed(p, 0, p.len() as int) == Some(
                    (f, n - pos),
                ) && pos + 2 <= n <= len,
            }
        }),
{
    let p = buf.subrange(pos, len);
    if len - pos >= 2 {
        assert(p[0] == buf[pos]);
        assert(p[1] == buf[pos + 1]);
        let ml = crate::framing::announced_len(buf, pos);
        if !(ml == 0 || ml > crate::framing::MAX_FRAME) && len - pos - 2 >= ml {
            assert(p.subrange(2, 2 + ml as int) =~= buf.subrange(pos + 2, pos + 2 + ml as int));
        }
    }
}

/// Frames pushed back-to-back come out whole and in order: after pushing a
/// well-formed frame into an empty buffer, the next frame taken is exactly it.
pub proof fn lemma_push_then_take(payload: Seq<u8>)
    requires
        0 < payload.len() <= crate::framing::MAX_FRAME,
    ensures
        spec_next_frame(crate::bytes::le16(payload.len()) + payload) == (
            Some(payload),
            Seq::<u8>::empty(),
        ),
{
    let w = crate::bytes::le16(payload.len()) + payload;
    crate::bytes::lemma_le16_roundtrip(payload.len());
    assert(w.subrange(2, 2 + payload.len() as int) =~= payload);
    assert(w.subrange(w.len() as int, w.len() as int) =~= Seq::<u8>::empty());
}

} // verus!
