//! Minimal header reconstruction for headerless candidates.
//!
//! A `NoMagic` candidate holds DEX structural data but was stripped of its
//! magic. Repair rewrites the first eight bytes with the canonical
//! magic-and-version literal, re-derives the `file_size` field from the
//! buffer actually captured, pins `header_size` to the fixed value, and
//! replaces a non-canonical endian tag with the little-endian one. Repair is
//! all-or-nothing: a buffer too short for the fields it touches is rejected
//! whole, never partially written.

use vstd::prelude::*;
use crate::le::{le32, le32_put, lemma_le32_bytes, lemma_le32_put_get, read_u32_le, write_u32_le};
use crate::estimate::{OFF_FILE_SIZE, OFF_HEADER_SIZE, OFF_ENDIAN_TAG};

verus! {

/// The little-endian canonical endian tag.
pub const ENDIAN_TAG_LE: u32 = 0x12345678;

/// The byte-swapped canonical endian tag.
pub const ENDIAN_TAG_BE: u32 = 0x78563412;

/// The fixed size of a standard DEX header, written into `header_size`.
pub const DEX_HEADER_SIZE: u32 = 112;

/// Repair touches fields up to and including the endian tag, so a buffer
/// must reach at least this far.
pub const REPAIR_MIN_LEN: usize = 0x2c;

/// `v` is one of the two canonical endian-tag values.
pub open spec fn canonical_endian(v: u32) -> bool {
    v == ENDIAN_TAG_LE || v == ENDIAN_TAG_BE
}

/// The canonical magic-and-version literal `"dex\n035\0"`.
pub open spec fn canonical_magic() -> Seq<u8> {
    seq![0x64u8, 0x65u8, 0x78u8, 0x0au8, 0x30u8, 0x33u8, 0x35u8, 0x00u8]
}

/// `s` with the canonical magic written over its first eight bytes.
pub open spec fn with_magic(s: Seq<u8>) -> Seq<u8>
    recommends
        s.len() >= 8,
{
    s.update(0, 0x64u8).update(1, 0x65u8).update(2, 0x78u8).update(3, 0x0au8).update(
        4,
        0x30u8,
    ).update(5, 0x33u8).update(6, 0x35u8).update(7, 0x00u8)
}

/// What repair produces from `s`: canonical magic, `file_size` re-derived
/// from the captured length, fixed `header_size`, and the endian tag kept
/// when already canonical, else set to the little-endian value.
pub open spec fn repaired(s: Seq<u8>) -> Seq<u8>
    recommends
        REPAIR_MIN_LEN <= s.len() <= u32::MAX,
{
    let t = le32_put(
        le32_put(with_magic(s), OFF_FILE_SIZE as int, s.len() as u32),
        OFF_HEADER_SIZE as int,
        DEX_HEADER_SIZE,
    );
    if canonical_endian(le32(s, OFF_ENDIAN_TAG as int)) {
        t
    } else {
        le32_put(t, OFF_ENDIAN_TAG as int, ENDIAN_TAG_LE)
    }
}

/// `s` already carries a canonical header: the magic literal, a `file_size`
/// equal to its own length, the fixed `header_size`, and a canonical endian
/// tag.
pub open spec fn is_canonical_header(s: Seq<u8>) -> bool {
    &&& REPAIR_MIN_LEN <= s.len() <= u32::MAX
    &&& s.subrange(0, 8) == canonical_magic()
    &&& le32(s, OFF_FILE_SIZE as int) == s.len() as u32
    &&& le32(s, OFF_HEADER_SIZE as int) == DEX_HEADER_SIZE
    &&& canonical_endian(le32(s, OFF_ENDIAN_TAG as int))
}

/// What repair guarantees of its output: the length is kept, the header
/// fields it owns are canonical, and every byte past the endian tag is the
/// input's.
pub proof fn lemma_repaired_fields(s: Seq<u8>)
    requires
        REPAIR_MIN_LEN <= s.len() <= u32::MAX,
    ensures
        repaired(s).len() == s.len(),
        repaired(s).subrange(0, 8) == canonical_magic(),
        le32(repaired(s), OFF_FILE_SIZE as int) == s.len() as u32,
        le32(repaired(s), OFF_HEADER_SIZE as int) == DEX_HEADER_SIZE,
        canonical_endian(le32(repaired(s), OFF_ENDIAN_TAG as int)),
        forall|i: int| REPAIR_MIN_LEN <= i < s.len() ==> repaired(s)[i] == s[i],
        is_canonical_header(repaired(s)),
{
    let m = with_magic(s);
    let t1 = le32_put(m, OFF_FILE_SIZE as int, s.len() as u32);
    let t2 = le32_put(t1, OFF_HEADER_SIZE as int, DEX_HEADER_SIZE);
    lemma_le32_put_get(m, OFF_FILE_SIZE as int, s.len() as u32);
    lemma_le32_put_get(t1, OFF_HEADER_SIZE as int, DEX_HEADER_SIZE);
    assert(le32(t2, OFF_FILE_SIZE as int) == s.len() as u32);
    if canonical_endian(le32(s, OFF_ENDIAN_TAG as int)) {
        assert(le32(repaired(s), OFF_ENDIAN_TAG as int) == le32(s, OFF_ENDIAN_TAG as int));
        assert(repaired(s).subrange(0, 8) =~= canonical_magic());
    } else {
        let t3 = le32_put(t2, OFF_ENDIAN_TAG as int, ENDIAN_TAG_LE);
        lemma_le32_put_get(t2, OFF_ENDIAN_TAG as int, ENDIAN_TAG_LE);
        assert(le32(t3, OFF_FILE_SIZE as int) == s.len() as u32);
        assert(le32(t3, OFF_HEADER_SIZE as int) == DEX_HEADER_SIZE);
        assert(repaired(s).subrange(0, 8) =~= canonical_magic());
    }
}

/// Repair changes nothing on a buffer whose header is already canonical.
pub proof fn lemma_repair_idempotent(s: Seq<u8>)
    requires
        is_canonical_header(s),
    ensures
        repaired(s) == s,
{
    lemma_le32_bytes(s, OFF_FILE_SIZE as int);
    lemma_le32_bytes(s, OFF_HEADER_SIZE as int);
    assert(forall|i: int| 0 <= i < 8 ==> s[i] == canonical_magic()[i]) by {
        assert(forall|i: int| 0 <= i < 8 ==> s.subrange(0, 8)[i] == s[i]);
    }
    assert(repaired(s) =~= s);
}

/// Repairs one captured candidate buffer.
///
/// Succeeds exactly when the buffer reaches past the endian tag, and then
/// returns the `repaired` image of the input; a shorter buffer is rejected
/// untouched. The `file_size` field is 32-bit, so the buffer's length must
/// fit in one.
pub fn fix_dex(dex: &Vec<u8>) -> (r: Option<Vec<u8>>)
    requires
        dex@.len() <= u32::MAX,
    ensures
        r is Some <==> dex@.len() >= REPAIR_MIN_LEN,
        r matches Some(f) ==> f@ == repaired(dex@),
{
    let n = dex.len();
    if n < REPAIR_MIN_LEN {
        return None;
    }
    let mut fix: Vec<u8> = Vec::new();
    let mut i: usize = 0;
    while i < n
        invariant
            0 <= i <= n == dex@.len(),
            fix@ == dex@.take(i as int),
        decreases n - i,
    {
        fix.push(dex[i]);
        i += 1;
    }
    assert(fix@ =~= dex@);
    fix.set(0, 0x64);
    fix.set(1, 0x65);
    fix.set(2, 0x78);
    fix.set(3, 0x0a);
    fix.set(4, 0x30);
    fix.set(5, 0x33);
    fix.set(6, 0x35);
    fix.set(7, 0x00);
    assert(fix@ =~= with_magic(dex@));
    write_u32_le(&mut fix, OFF_FILE_SIZE, n as u32);
    write_u32_le(&mut fix, OFF_HEADER_SIZE, DEX_HEADER_SIZE);
    proof {
        lemma_le32_put_get(with_magic(dex@), OFF_FILE_SIZE as int, n as u32);
        lemma_le32_put_get(
            le32_put(with_magic(dex@), OFF_FILE_SIZE as int, n as u32),
            OFF_HEADER_SIZE as int,
            DEX_HEADER_SIZE,
        );
        assert(le32(fix@, OFF_ENDIAN_TAG as int) == le32(dex@, OFF_ENDIAN_TAG as int));
    }
    let endian_tag = read_u32_le(&fix, OFF_ENDIAN_TAG);
    if endian_tag != ENDIAN_TAG_LE && endian_tag != ENDIAN_TAG_BE {
        write_u32_le(&mut fix, OFF_ENDIAN_TAG, ENDIAN_TAG_LE);
    }
    Some(fix)
}

} // verus!
