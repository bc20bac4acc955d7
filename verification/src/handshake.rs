//! Decisions of the link handshake: what to do with the peer's msg1 when ours
//! may be crossing it, and when unanswered resends end the attempt.

use vstd::prelude::*;

use crate::error::ProtocolError;
use crate::node::NodeTiming;

verus! {

/// What to do with a msg1 received while handshaking.
#[derive(Debug, Clone, Copy, PartialEq, Eq, Structural)]
pub enum Msg1Disposition {
    /// The msg1 carries our own address: abort the handshake.
    SelfConnection,
    /// Both sides initiated and ours wins: ignore theirs and wait for msg2.
    KeepInitiating,
    /// Answer it as the responder.
    Respond,
}

/// `a` orders before `b`, comparing bytes from the first.
pub open spec fn addr_less(a: Seq<u8>, b: Seq<u8>) -> bool {
    exists|i: int|
        0 <= i < a.len() && i < b.len() && #[trigger] a[i] < b[i] && forall|j: int| 0 <= j < i ==> a[j] == b[j]
}

/// The disposition of the peer's msg1: a node that sent its own msg1 keeps
/// initiating when its address is the lower one, and answers otherwise.
pub open spec fn spec_msg1_disposition(my_addr: Seq<u8>, peer_addr: Seq<u8>, peer_sent_first: bool) -> Msg1Disposition {
    if my_addr == peer_addr {
        Msg1Disposition::SelfConnection
    } else if !peer_sent_first && addr_less(my_addr, peer_addr) {
        Msg1Disposition::KeepInitiating
    } else {
        Msg1Disposition::Respond
    }
}

fn addr_lt(a: &[u8; 16], b: &[u8; 16]) -> (r: bool)
    ensures
        r == addr_less(a@, b@),
{
    let mut i: usize = 0;
    while i < 16
        invariant
            0 <= i <= 16,
            a@.len() == 16,
            b@.len() == 16,
            forall|j: int| 0 <= j < i ==> a@[j] == b@[j],
        decreases 16 - i,
    {
        if a[i] != b[i] {
            let r = a[i] < b[i];
            proof {
                if !r {
                    assert forall|k: int|
                        0 <= k < a@.len() && k < b@.len() && #[trigger] a@[k] < b@[k] implies !(forall|j: int|
                        0 <= j < k ==> a@[j] == b@[j]) by {
                        if k < i {
                        } else if k == i {
                        } else {
                            assert(a@[i as int] != b@[i as int]);
                        }
                    }
                }
            }
            return r;
        }
        i = i + 1;
    }
    proof {
        assert forall|k: int|
            0 <= k < a@.len() && k < b@.len() && #[trigger] a@[k] < b@[k] implies !(forall|j: int|
            0 <= j < k ==> a@[j] == b@[j]) by {
            assert(a@[k] == b@[k]);
        }
    }
    false
}

fn addr_eq(a: &[u8; 16], b: &[u8; 16]) -> (r: bool)
    ensures
        r == (a@ == b@),
{
    let mut i: usize = 0;
    while i < 16
        invariant
            0 <= i <= 16,
            a@.len() == 16,
            b@.len() == 16,
            forall|j: int| 0 <= j < i ==> a@[j] == b@[j],
        decreases 16 - i,
    {
        if a[i] != b[i] {
            assert(a@[i as int] != b@[i as int]);
            return false;
        }
        i = i + 1;
    }
    assert(a@ =~= b@);
    true
}

/// Decides what to do with the peer's msg1, given both node addresses and
/// whether the peer spoke first (in which case we never sent a msg1).
pub fn msg1_disposition(my_addr: &[u8; 16], peer_addr: &[u8; 16], peer_sent_first: bool) -> (d: Msg1Disposition)
    ensures
        d == spec_msg1_disposition(my_addr@, peer_addr@, peer_sent_first),
{
    if addr_eq(my_addr, peer_addr) {
        Msg1Disposition::SelfConnection
    } else if !peer_sent_first && addr_lt(my_addr, peer_addr) {
        Msg1Disposition::KeepInitiating
    } else {
        Msg1Disposition::Respond
    }
}

/// The resend count after a receive timeout, or `None` when the resends
/// are used up and the handshake fails.
pub open spec fn spec_after_timeout(resend_count: u32, timing: NodeTiming) -> Option<u32> {
    if resend_count + 1 > timing.handshake_max_resends {
        None
    } else {
        Some((resend_count + 1) as u32)
    }
}

/// A receive timed out while waiting for the next handshake message: count
/// it, and either resend (with the next backed-off wait) or fail with a
/// timeout.
pub fn after_timeout(resend_count: u32, timing: &NodeTiming) -> (r: Result<u32, ProtocolError>)
    requires
        resend_count < u32::MAX,
    ensures
        r == (match spec_after_timeout(resend_count, *timing) {
            Some(c) => Ok::<u32, ProtocolError>(c),
            None => Err(ProtocolError::Timeout),
        }),
{
    let next = resend_count + 1;
    if next > timing.handshake_max_resends {
        Err(ProtocolError::Timeout)
    } else {
        Ok(next)
    }
}

/// The resend count after `k` consecutive timeouts from `start`, or `None`
/// once the handshake has given up.
pub open spec fn spec_after_timeouts(start: u32, k: nat, timing: NodeTiming) -> Option<u32>
    decreases k,
{
    if k == 0 {
        Some(start)
    } else {
        match spec_after_timeouts(start, (k - 1) as nat, timing) {
            None => None,
            Some(c) => spec_after_timeout(c, timing),
        }
    }
}

/// Two distinct nodes whose msg1s cross settle the race: exactly one of them
/// answers the other's msg1.
pub proof fn lemma_crossing_msg1_exactly_one_responds(a: Seq<u8>, b: Seq<u8>)
    requires
        a.len() == b.len(),
        a != b,
    ensures
        (spec_msg1_disposition(a, b, false) == Msg1Disposition::Respond) != (spec_msg1_disposition(b, a, false)
            == Msg1Disposition::Respond),
{
    lemma_first_difference(a, b, 0);
    let i = choose|i: int| 0 <= i < a.len() && a[i] != b[i] && forall|j: int| 0 <= j < i ==> a[j] == b[j];
    if a[i] < b[i] {
        assert(addr_less(a, b));
        if addr_less(b, a) {
            let k = choose|k: int|
                0 <= k < b.len() && k < a.len() && #[trigger] b[k] < a[k] && forall|j: int| 0 <= j < k ==> b[j] == a[j];
            assert(k != i);
            if k < i {
                assert(a[k] == b[k]);
            } else {
                assert(b[i] == a[i]);
            }
        }
    } else {
        assert(b[i] < a[i]);
        assert(addr_less(b, a));
        if addr_less(a, b) {
            let k = choose|k: int|
                0 <= k < a.len() && k < b.len() && #[trigger] a[k] < b[k] && forall|j: int| 0 <= j < k ==> a[j] == b[j];
            assert(k != i);
            if k < i {
                assert(a[k] == b[k]);
            } else {
                assert(b[i] == a[i]);
            }
        }
    }
}

/// Distinct sequences of one length differ first at some index.
proof fn lemma_first_difference(a: Seq<u8>, b: Seq<u8>, k: int)
    requires
        a.len() == b.len(),
        a != b,
        0 <= k <= a.len(),
        forall|j: int| 0 <= j < k ==> a[j] == b[j],
    ensures
        exists|i: int| 0 <= i < a.len() && a[i] != b[i] && forall|j: int| 0 <= j < i ==> a[j] == b[j],
    decreases a.len() - k,
{
    if k == a.len() {
        assert(a =~= b);
    } else if a[k] != b[k] {
        assert(0 <= k < a.len() && a[k] != b[k] && forall|j: int| 0 <= j < k ==> a[j] == b[j]);
    } else {
        lemma_first_difference(a, b, k + 1);
    }
}

/// A node never answers a msg1 that carries its own address.
pub proof fn lemma_own_address_is_self_connection(a: Seq<u8>, peer_sent_first: bool)
    ensures
        spec_msg1_disposition(a, a, peer_sent_first) == Msg1Disposition::SelfConnection,
{
}

/// A handshake survives exactly `handshake_max_resends` consecutive
/// timeouts and gives up at the next one.
pub proof fn lemma_handshake_gives_up_after_max_resends(timing: NodeTiming, k: nat)
    ensures
        k <= timing.handshake_max_resends ==> spec_after_timeouts(0, k, timing) == Some(k as u32),
        k > timing.handshake_max_resends ==> spec_after_timeouts(0, k, timing) is None,
    decreases k,
{
    if k > 0 {
        lemma_handshake_gives_up_after_max_resends(timing, (k - 1) as nat);
    }
}

} // verus!
