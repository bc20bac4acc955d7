//! Byte-level helpers shared by the wire formats: little- and big-endian
//! 16-bit fields and copying byte runs into buffers.

use vstd::prelude::*;

verus! {

/// Little-endian encoding of the low 16 bits of `v`.
pub open spec fn le16(v: nat) -> Seq<u8> {
    seq![(v % 256) as u8, ((v / 256) % 256) as u8]
}

/// Value of a little-endian 16-bit field.
pub open spec fn le16_value(lo: u8, hi: u8) -> nat {
    lo as nat + 256 * (hi as nat)
}

/// Big-endian encoding of the low 16 bits of `v`.
pub open spec fn be16(v: nat) -> Seq<u8> {
    seq![((v / 256) % 256) as u8, (v % 256) as u8]
}

/// Value of a big-endian 16-bit field.
pub open spec fn be16_value(hi: u8, lo: u8) -> nat {
    256 * (hi as nat) + lo as nat
}

/// A 16-bit field reads back the value it was written with.
pub proof fn lemma_le16_roundtrip(v: nat)
    requires
        v <= u16::MAX,
    ensures
        le16(v).len() == 2,
        le16_value(le16(v)[0], le16(v)[1]) == v,
        be16(v).len() == 2,
        be16_value(be16(v)[0], be16(v)[1]) == v,
{
}

/// `out` with `bytes` written from index `off` on, everything else unchanged.
pub open spec fn spliced(out: Seq<u8>, off: int, bytes: Seq<u8>) -> Seq<u8> {
    out.subrange(0, off) + bytes + out.subrange(off + bytes.len(), out.len() as int)
}

/// Writes `v` little-endian at `out[off..off + 2]`.
pub fn write_le16(out: &mut [u8], off: usize, v: u16)
    requires
        off + 2 <= old(out)@.len(),
    ensures
        final(out)@ == spliced(old(out)@, off as int, le16(v as nat)),
{
    let ghost orig = out@;
    out[off] = (v % 256) as u8;
    out[off + 1] = (v / 256) as u8;
    assert(out@ =~= spliced(orig, off as int, le16(v as nat)));
}

/// Writes `v` big-endian at `out[off..off + 2]`.
pub fn write_be16(out: &mut [u8], off: usize, v: u16)
    requires
        off + 2 <= old(out)@.len(),
    ensures
        final(out)@ == spliced(old(out)@, off as int, be16(v as nat)),
{
    let ghost orig = out@;
    out[off] = (v / 256) as u8;
    out[off + 1] = (v % 256) as u8;
    assert(out@ =~= spliced(orig, off as int, be16(v as nat)));
}

/// Copies `src` into `out[off..off + src.len()]`.
pub fn write_bytes(out: &mut [u8], off: usize, src: &[u8])
    requires
        off + src@.len() <= old(out)@.len(),
    ensures
        final(out)@ == spliced(old(out)@, off as int, src@),
{
    let ghost orig = out@;
    let n = src.len();
    let olen = out.len();
    let mut i: usize = 0;
    while i < n
        invariant
            0 <= i <= n,
            n == src@.len(),
            olen == orig.len(),
            off + n <= orig.len(),
            out@.len() == orig.len(),
            forall|k: int| 0 <= k < off ==> out@[k] == orig[k],
            forall|k: int| 0 <= k < i ==> out@[off + k] == src@[k],
            forall|k: int| off + i <= k < orig.len() ==> out@[k] == orig[k],
        decreases n - i,
    {
        out[off + i] = src[i];
        i = i + 1;
    }
    assert(out@ =~= spliced(orig, off as int, src@));
}

/// Whether `a` and `b` hold the same bytes.
pub fn bytes_eq(a: &[u8], b: &[u8]) -> (r: bool)
    ensures
        r == (a@ == b@),
{
    if a.len() != b.len() {
        return false;
    }
    let mut i: usize = 0;
    while i < a.len()
        invariant
            0 <= i <= a@.len(),
            a@.len() == b@.len(),
            forall|k: int| 0 <= k < i ==> a@[k] == b@[k],
        decreases a@.len() - i,
    {
        if a[i] != b[i] {
            return false;
        }
        i = i + 1;
    }
    assert(a@ =~= b@);
    true
}

/// Whether `prefix` is a prefix of `s`.
pub fn bytes_starts_with(s: &[u8], prefix: &[u8]) -> (r: bool)
    ensures
        r == prefix@.is_prefix_of(s@),
{
    if prefix.len() > s.len() {
        return false;
    }
    let mut i: usize = 0;
    while i < prefix.len()
        invariant
            0 <= i <= prefix@.len(),
            prefix@.len() <= s@.len(),
            forall|k: int| 0 <= k < i ==> prefix@[k] == s@[k],
        decreases prefix@.len() - i,
    {
        if prefix[i] != s[i] {
            return false;
        }
        i = i + 1;
    }
    true
}

} // verus!
