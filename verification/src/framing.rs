//! Receive-buffer handling and 2-byte length-prefixed link framing.

use vstd::prelude::*;

verus! {

/// Largest payload a length-prefixed frame may carry.
pub const MAX_FRAME: usize = 1500;

/// Moves the unread bytes `buf[pos..len]` to the front of `buf`.
///
/// Nothing changes when `pos` is zero or nothing is left to read.
pub fn compact(buf: &mut [u8], pos: &mut usize, len: &mut usize)
    requires
        *old(pos) > 0 && *old(pos) < *old(len) ==> *old(len) <= old(buf)@.len(),
    ensures
        final(buf)@.len() == old(buf)@.len(),
        (*old(pos) > 0 && *old(pos) < *old(len)) ==> {
            &&& *final(pos) == 0
            &&& *final(len) == *old(len) - *old(pos)
            &&& final(buf)@ == old(buf)@.subrange(*old(pos) as int, *old(len) as int)
                + old(buf)@.subrange(*old(len) - *old(pos), old(buf)@.len() as int)
        },
        !(*old(pos) > 0 && *old(pos) < *old(len)) ==> {
            &&& *final(pos) == *old(pos)
            &&& *final(len) == *old(len)
            &&& final(buf)@ == old(buf)@
        },
{
    if *pos > 0 && *pos < *len {
        let remaining = *len - *pos;
        let start = *pos;
        let ghost orig = buf@;
        let mut i: usize = 0;
        while i < remaining
            invariant
                0 <= i <= remaining,
                remaining == *len - start,
                start > 0,
                *len <= orig.len(),
                buf@.len() == orig.len(),
                forall|k: int| 0 <= k < i ==> buf@[k] == orig[start + k],
                forall|k: int| i <= k < orig.len() ==> buf@[k] == orig[k],
            decreases remaining - i,
        {
            let b = buf[start + i];
            buf[i] = b;
            i = i + 1;
        }
        *pos = 0;
        *len = remaining;
        assert(buf@ =~= orig.subrange(start as int, (start + remaining) as int)
            + orig.subrange(remaining as int, orig.len() as int));
    }
}

} // verus!

verus! {

/// Length announced by the 2-byte little-endian header at `buf[pos..pos + 2]`.
pub open spec fn announced_len(buf: Seq<u8>, pos: int) -> nat {
    crate::bytes::le16_value(buf[pos], buf[pos + 1])
}

/// One frame taken from `buf[pos..len]`: the payload and the position after it.
///
/// `None` while fewer than 2 header bytes or fewer payload bytes than
/// announced are available. A header announcing zero bytes or more than
/// [`MAX_FRAME`] is skipped: an empty payload and the position after the header.
pub open spec fn spec_extract_length_prefixed(buf: Seq<u8>, pos: int, len: int) -> Option<(Seq<u8>, int)> {
    let avail = len - pos;
    if avail < 2 {
        None
    } else {
        let ml = announced_len(buf, pos);
        if ml == 0 || ml > MAX_FRAME {
            Some((Seq::empty(), pos + 2))
        } else if avail - 2 < ml {
            None
        } else {
            Some((buf.subrange(pos + 2, pos + 2 + ml), pos + 2 + ml))
        }
    }
}

/// Extract one complete length-prefixed frame from `buf[pos..len]`.
///
/// Returns `(frame_slice, new_pos)` where `frame_slice` is the payload
/// (without the 2-byte header) and `new_pos` is the buffer position after
/// the frame. Returns `None` if a complete frame is not yet available.
pub fn extract_length_prefixed_frame(buf: &[u8], pos: usize, len: usize) -> (r: Option<(&[u8], usize)>)
    requires
        pos <= len <= buf@.len(),
    ensures
        match spec_extract_length_prefixed(buf@, pos as int, len as int) {
            None => r is None,
            Some((frame, next)) => r matches Some((f, n)) && f@ == frame && n == next,
        },
{
    let avail = len - pos;
    if avail < 2 {
        return None;
    }
    let ml = (buf[pos] as usize) + (buf[pos + 1] as usize) * 256;
    if ml == 0 || ml > MAX_FRAME {
        return Some((&buf[pos..pos], pos + 2));
    }
    if avail - 2 < ml {
        return None;
    }
    let s = pos + 2;
    let e = s + ml;
    Some((&buf[s..e], e))
}

/// Successive extraction walks a buffer of back-to-back frames: once a frame
/// is taken, the next extraction starts right after it, and each taken frame
/// is exactly the payload its header announced.
pub proof fn lemma_extract_advances(buf: Seq<u8>, pos: int, len: int)
    requires
        0 <= pos <= len <= buf.len(),
    ensures
        spec_extract_length_prefixed(buf, pos, len) matches Some((frame, next)) ==> {
            &&& pos + 2 <= next <= len
            &&& frame.len() == next - pos - 2
            &&& frame.len() <= MAX_FRAME
        },
{
}

/// The 2-byte little-endian header that precedes a frame of `len` bytes.
///
/// Only the low 16 bits of the length are sent.
pub fn frame_header(len: usize) -> (r: [u8; 2])
    ensures
        r@ == crate::bytes::le16(len as nat),
{
    let l = len % 65536;
    let h = [(l % 256) as u8, (l / 256) as u8];
    assert(h@ =~= crate::bytes::le16(len as nat));
    h
}

} // verus!
