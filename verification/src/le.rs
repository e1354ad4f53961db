//! Little-endian 32-bit fields inside byte buffers.
//!
//! Every multi-byte integer in a DEX header is little-endian; the scanner,
//! the size estimator and the header repair all read and write such fields.

use vstd::prelude::*;

verus! {

/// The 32-bit little-endian value stored at `off` in `s`.
pub open spec fn le32(s: Seq<u8>, off: int) -> u32
    recommends
        0 <= off,
        off + 4 <= s.len(),
{
    (s[off] as u32) | ((s[off + 1] as u32) << 8) | ((s[off + 2] as u32) << 16)
        | ((s[off + 3] as u32) << 24)
}

/// `s` with the 32-bit little-endian encoding of `v` written at `off`.
pub open spec fn le32_put(s: Seq<u8>, off: int, v: u32) -> Seq<u8>
    recommends
        0 <= off,
        off + 4 <= s.len(),
{
    s.update(off, (v & 0xff) as u8).update(off + 1, ((v >> 8) & 0xff) as u8).update(
        off + 2,
        ((v >> 16) & 0xff) as u8,
    ).update(off + 3, ((v >> 24) & 0xff) as u8)
}

/// Writing a field and reading it back gives the value written.
pub proof fn lemma_le32_put_get(s: Seq<u8>, off: int, v: u32)
    requires
        0 <= off,
        off + 4 <= s.len(),
    ensures
        le32(le32_put(s, off, v), off) == v,
        le32_put(s, off, v).len() == s.len(),
        forall|i: int| 0 <= i < s.len() && !(off <= i < off + 4) ==> le32_put(s, off, v)[i] == s[i],
{
    let t = le32_put(s, off, v);
    assert(t[off] == (v & 0xff) as u8);
    assert(t[off + 1] == ((v >> 8) & 0xff) as u8);
    assert(t[off + 2] == ((v >> 16) & 0xff) as u8);
    assert(t[off + 3] == ((v >> 24) & 0xff) as u8);
    assert(((v & 0xff) as u8 as u32) | (((v >> 8) & 0xff) as u8 as u32) << 8 | (((v >> 16)
        & 0xff) as u8 as u32) << 16 | (((v >> 24) & 0xff) as u8 as u32) << 24 == v)
        by (bit_vector);
}

/// A stored field determines its bytes: if the decoded value is `v`, each of
/// the four bytes is the matching byte of `v`'s little-endian encoding.
pub proof fn lemma_le32_bytes(s: Seq<u8>, off: int)
    requires
        0 <= off,
        off + 4 <= s.len(),
    ensures
        s[off] == (le32(s, off) & 0xff) as u8,
        s[off + 1] == ((le32(s, off) >> 8) & 0xff) as u8,
        s[off + 2] == ((le32(s, off) >> 16) & 0xff) as u8,
        s[off + 3] == ((le32(s, off) >> 24) & 0xff) as u8,
{
    let b0 = s[off];
    let b1 = s[off + 1];
    let b2 = s[off + 2];
    let b3 = s[off + 3];
    let v = le32(s, off);
    assert(v == (b0 as u32) | ((b1 as u32) << 8) | ((b2 as u32) << 16) | ((b3 as u32) << 24));
    assert((((b0 as u32) | ((b1 as u32) << 8) | ((b2 as u32) << 16) | ((b3 as u32) << 24)) & 0xff)
        as u8 == b0) by (bit_vector);
    assert(((((b0 as u32) | ((b1 as u32) << 8) | ((b2 as u32) << 16) | ((b3 as u32) << 24)) >> 8)
        & 0xff) as u8 == b1) by (bit_vector);
    assert(((((b0 as u32) | ((b1 as u32) << 8) | ((b2 as u32) << 16) | ((b3 as u32) << 24)) >> 16)
        & 0xff) as u8 == b2) by (bit_vector);
    assert(((((b0 as u32) | ((b1 as u32) << 8) | ((b2 as u32) << 16) | ((b3 as u32) << 24)) >> 24)
        & 0xff) as u8 == b3) by (bit_vector);
}

/// Reads the 32-bit little-endian field at `off`.
pub fn read_u32_le(bytes: &Vec<u8>, off: usize) -> (r: u32)
    requires
        off + 4 <= bytes@.len(),
    ensures
        r == le32(bytes@, off as int),
{
    let n = bytes.len();
    let b0 = bytes[off] as u32;
    let b1 = bytes[off + 1] as u32;
    let b2 = bytes[off + 2] as u32;
    let b3 = bytes[off + 3] as u32;
    b0 | (b1 << 8) | (b2 << 16) | (b3 << 24)
}

/// Overwrites the 32-bit little-endian field at `off` with `v`.
pub fn write_u32_le(bytes: &mut Vec<u8>, off: usize, v: u32)
    requires
        off + 4 <= old(bytes)@.len(),
    ensures
        final(bytes)@ == le32_put(old(bytes)@, off as int, v),
        final(bytes)@.len() == old(bytes)@.len(),
{
    let n = bytes.len();
    bytes.set(off, (v & 0xff) as u8);
    bytes.set(off + 1, ((v >> 8) & 0xff) as u8);
    bytes.set(off + 2, ((v >> 16) & 0xff) as u8);
    bytes.set(off + 3, ((v >> 24) & 0xff) as u8);
}

} // verus!
