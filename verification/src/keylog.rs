//! The link keylog line: `FIPS_LINK <local-x-only> <peer-x-only> <send-key>
//! <recv-key>`, every field lowercase hex, as packet-capture tooling parses it.

use vstd::prelude::*;

use crate::bytes::spliced;

verus! {

/// Length of a keylog line for 32-byte fields.
pub const KEYLOG_LINE_LEN: usize = 269;

/// The lowercase hex digit of a nibble.
pub open spec fn hex_digit(n: nat) -> u8 {
    if n < 10 {
        (48 + n) as u8
    } else {
        (87 + n) as u8
    }
}

/// Lowercase hex of `bytes`, high nibble first.
pub open spec fn hex_of(bytes: Seq<u8>) -> Seq<u8>
    decreases bytes.len(),
{
    if bytes.len() == 0 {
        Seq::empty()
    } else {
        hex_of(bytes.drop_last()) + seq![hex_digit(bytes.last() as nat / 16), hex_digit(bytes.last() as nat % 16)]
    }
}

/// The bytes `FIPS_LINK `.
pub open spec fn keylog_prefix() -> Seq<u8> {
    seq![70u8, 73u8, 80u8, 83u8, 95u8, 76u8, 73u8, 78u8, 75u8, 32u8]
}

/// The keylog line for the two x-only keys and the two session keys.
pub open spec fn spec_keylog_line(local: Seq<u8>, peer: Seq<u8>, ks: Seq<u8>, kr: Seq<u8>) -> Seq<u8> {
    keylog_prefix() + hex_of(local) + seq![32u8] + hex_of(peer) + seq![32u8] + hex_of(ks) + seq![32u8] + hex_of(kr)
}

proof fn lemma_hex_len(bytes: Seq<u8>)
    ensures
        hex_of(bytes).len() == 2 * bytes.len(),
    decreases bytes.len(),
{
    if bytes.len() > 0 {
        lemma_hex_len(bytes.drop_last());
    }
}

fn hex_nibble(n: u8) -> (r: u8)
    requires
        n < 16,
    ensures
        r == hex_digit(n as nat),
{
    if n < 10 {
        48 + n
    } else {
        87 + n
    }
}

/// Writes the lowercase hex of `field` at `off`.
fn write_hex(line: &mut [u8; 269], off: usize, field: &[u8])
    requires
        off + 2 * field@.len() <= 269,
    ensures
        final(line)@ == spliced(old(line)@, off as int, hex_of(field@)),
{
    let mut i: usize = 0;
    while i < field.len()
        invariant
            0 <= i <= field@.len(),
            off + 2 * field@.len() <= 269,
            line@.len() == 269,
            line@ == spliced(old(line)@, off as int, hex_of(field@.take(i as int))),
        decreases field.len() - i,
    {
        proof {
            lemma_hex_len(field@.take(i as int));
            assert(field@.take(i + 1).drop_last() =~= field@.take(i as int));
            assert(field@.take(i + 1).last() == field@[i as int]);
        }
        let b = field[i];
        line[off + 2 * i] = hex_nibble(b / 16);
        line[off + 2 * i + 1] = hex_nibble(b % 16);
        proof {
            lemma_hex_len(field@.take(i + 1));
            assert(line@ =~= spliced(old(line)@, off as int, hex_of(field@.take(i + 1))));
        }
        i = i + 1;
    }
    assert(field@.take(field@.len() as int) =~= field@);
}

/// The keylog line for the link: our and the peer's x-only keys, then the
/// send and receive keys.
pub fn keylog_line(local_xonly: &[u8], peer_xonly: &[u8], ks: &[u8; 32], kr: &[u8; 32]) -> (line: [u8; 269])
    requires
        local_xonly@.len() == 32,
        peer_xonly@.len() == 32,
    ensures
        line@ == spec_keylog_line(local_xonly@, peer_xonly@, ks@, kr@),
{
    let mut line = [0u8; 269];
    line[0] = 70;
    line[1] = 73;
    line[2] = 80;
    line[3] = 83;
    line[4] = 95;
    line[5] = 76;
    line[6] = 73;
    line[7] = 78;
    line[8] = 75;
    line[9] = 32;
    write_hex(&mut line, 10, local_xonly);
    line[74] = 32;
    write_hex(&mut line, 75, peer_xonly);
    line[139] = 32;
    write_hex(&mut line, 140, ks.as_slice());
    line[204] = 32;
    write_hex(&mut line, 205, kr.as_slice());
    proof {
        lemma_hex_len(local_xonly@);
        lemma_hex_len(peer_xonly@);
        lemma_hex_len(ks@);
        lemma_hex_len(kr@);
        assert(line@ =~= spec_keylog_line(local_xonly@, peer_xonly@, ks@, kr@));
    }
    line
}

/// Every byte of a keylog field is a lowercase hex digit.
pub proof fn lemma_hex_is_lowercase(bytes: Seq<u8>)
    ensures
        forall|i: int|
            0 <= i < hex_of(bytes).len() ==> {
                let c = #[trigger] hex_of(bytes)[i];
                (48 <= c <= 57) || (97 <= c <= 102)
            },
    decreases bytes.len(),
{
    if bytes.len() > 0 {
        lemma_hex_is_lowercase(bytes.drop_last());
        lemma_hex_len(bytes.drop_last());
        let h = hex_of(bytes);
        let p = hex_of(bytes.drop_last());
        assert forall|i: int| 0 <= i < h.len() implies {
            let c = #[trigger] h[i];
            (48 <= c <= 57) || (97 <= c <= 102)
        } by {
            if i < p.len() {
                assert(h[i] == p[i]);
            }
        }
    }
}

} // verus!
