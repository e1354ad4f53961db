//! Pattern scan over a captured region's bytes.
//!
//! A DEX header starts with the eight-byte run `"dex\n"`, three ASCII version
//! digits, and a NUL. Every offset of an eligible region where that run
//! occurs anchors a `HasMagic` candidate. Independently, a region whose first
//! three bytes are not the literal `"dex"` yields one `NoMagic` candidate at
//! the region's own start: unpackers typically place a header-stripped DEX at
//! the base of a freshly allocated region, and only there is repair tried.

use vstd::prelude::*;
use crate::mapping::MappingInfo;

verus! {

broadcast use vstd::seq_lib::lemma_seq_contains_after_push;

/// `b` is an ASCII decimal digit.
pub open spec fn is_ascii_digit(b: u8) -> bool {
    0x30 <= b <= 0x39
}

/// The eight-byte DEX magic pattern starts at offset `i` of `s`:
/// `"dex\n"`, three version digits, NUL.
pub open spec fn magic_at(s: Seq<u8>, i: int) -> bool {
    &&& 0 <= i
    &&& i + 8 <= s.len()
    &&& s[i] == 0x64
    &&& s[i + 1] == 0x65
    &&& s[i + 2] == 0x78
    &&& s[i + 3] == 0x0a
    &&& is_ascii_digit(s[i + 4])
    &&& is_ascii_digit(s[i + 5])
    &&& is_ascii_digit(s[i + 6])
    &&& s[i + 7] == 0
}

/// The region's first three bytes are the literal `"dex"`.
pub open spec fn dex_prefix(s: Seq<u8>) -> bool {
    s.len() >= 3 && s[0] == 0x64 && s[1] == 0x65 && s[2] == 0x78
}

/// How a candidate was found: anchored on the magic pattern, or assumed
/// headerless at a region's start.
#[derive(Clone, Copy, PartialEq, Eq, Structural, Debug)]
pub enum Provenance {
    HasMagic,
    NoMagic,
}

/// A byte range in target memory suspected of holding a DEX payload,
/// anchored at absolute address `addr`.
#[derive(Clone, Copy, PartialEq, Eq, Structural, Debug)]
pub struct Candidate {
    pub addr: usize,
    pub provenance: Provenance,
}

/// Tests the magic pattern at offset `i`.
fn is_magic_at(bytes: &Vec<u8>, i: usize) -> (r: bool)
    requires
        i + 8 <= bytes@.len(),
    ensures
        r == magic_at(bytes@, i as int),
{
    let n = bytes.len();
    bytes[i] == 0x64 && bytes[i + 1] == 0x65 && bytes[i + 2] == 0x78 && bytes[i + 3] == 0x0a
        && bytes[i + 4] >= 0x30 && bytes[i + 4] <= 0x39 && bytes[i + 5] >= 0x30 && bytes[i + 5]
        <= 0x39 && bytes[i + 6] >= 0x30 && bytes[i + 6] <= 0x39 && bytes[i + 7] == 0
}

/// Every offset of `bytes` where the magic pattern occurs, in increasing
/// order: nothing else is returned, and no occurrence is missed.
pub fn find_magic_offsets(bytes: &Vec<u8>) -> (r: Vec<usize>)
    ensures
        forall|k: int| 0 <= k < r@.len() ==> magic_at(bytes@, r@[k] as int),
        forall|i: usize| magic_at(bytes@, i as int) ==> r@.contains(i),
        forall|k1: int, k2: int| 0 <= k1 < k2 < r@.len() ==> r@[k1] < r@[k2],
{
    let n = bytes.len();
    let mut r: Vec<usize> = Vec::new();
    if n < 8 {
        return r;
    }
    let mut i: usize = 0;
    while i <= n - 8
        invariant
            8 <= n == bytes@.len(),
            0 <= i <= n - 8 + 1,
            forall|k: int| 0 <= k < r@.len() ==> magic_at(bytes@, r@[k] as int),
            forall|j: usize| j < i && magic_at(bytes@, j as int) ==> r@.contains(j),
            forall|k: int| 0 <= k < r@.len() ==> r@[k] < i,
            forall|k1: int, k2: int| 0 <= k1 < k2 < r@.len() ==> r@[k1] < r@[k2],
        decreases n - i,
    {
        if is_magic_at(bytes, i) {
            r.push(i);
        }
        i += 1;
    }
    assert(forall|j: usize| magic_at(bytes@, j as int) ==> j < i);
    r
}

/// Tests whether the region lacks the literal `"dex"` at its start.
pub fn lacks_dex_prefix(bytes: &Vec<u8>) -> (r: bool)
    requires
        bytes@.len() >= 3,
    ensures
        r == !dex_prefix(bytes@),
{
    let n = bytes.len();
    !(bytes[0] == 0x64 && bytes[1] == 0x65 && bytes[2] == 0x78)
}

/// What the scan of one region promises of the candidates it emits.
///
/// An ineligible mapping yields nothing. For an eligible one, the candidates
/// hold one `HasMagic` entry at `m.start + i` for exactly the offsets `i`
/// where the magic pattern occurs, and a `NoMagic` entry exactly when the
/// region does not begin with `"dex"`, anchored at the mapping's own start
/// and nowhere else.
pub open spec fn candidates_ok(m: MappingInfo, bytes: Seq<u8>, cands: Seq<Candidate>) -> bool {
    &&& (!m.spec_eligible() ==> cands.len() == 0)
    &&& (forall|k: int|
        0 <= k < cands.len() && cands[k].provenance is HasMagic ==> m.start <= cands[k].addr
            && magic_at(bytes, cands[k].addr - m.start))
    &&& (forall|i: usize|
        m.spec_eligible() && magic_at(bytes, i as int) ==> cands.contains(
            Candidate { addr: (m.start + i) as usize, provenance: Provenance::HasMagic },
        ))
    &&& (forall|k: int|
        0 <= k < cands.len() && cands[k].provenance is NoMagic ==> cands[k].addr == m.start
            && !dex_prefix(bytes))
    &&& ((m.spec_eligible() && !dex_prefix(bytes)) ==> cands.contains(
        Candidate { addr: m.start, provenance: Provenance::NoMagic },
    ))
    &&& (forall|k1: int, k2: int|
        0 <= k1 < k2 < cands.len() && cands[k1].provenance is NoMagic ==> !(cands[k2].provenance
            is NoMagic))
}

/// Scans one captured region and emits its candidates, as `candidates_ok`
/// promises.
pub fn scan_mapping(m: &MappingInfo, bytes: &Vec<u8>) -> (r: Vec<Candidate>)
    requires
        m.wf(),
        bytes@.len() == m.size,
    ensures
        candidates_ok(*m, bytes@, r@),
{
    let mut r: Vec<Candidate> = Vec::new();
    if !m.is_eligible() {
        return r;
    }
    let offs = find_magic_offsets(bytes);
    let mut k: usize = 0;
    while k < offs.len()
        invariant
            m.wf(),
            bytes@.len() == m.size,
            0 <= k <= offs@.len(),
            forall|j: int| 0 <= j < offs@.len() ==> magic_at(bytes@, offs@[j] as int),
            r@.len() == k,
            forall|j: int|
                0 <= j < k ==> r@[j] == (Candidate {
                    addr: (m.start + offs@[j]) as usize,
                    provenance: Provenance::HasMagic,
                }),
        decreases offs@.len() - k,
    {
        let off = offs[k];
        assert(magic_at(bytes@, off as int));
        let cand = Candidate { addr: m.start + off, provenance: Provenance::HasMagic };
        r.push(cand);
        k += 1;
    }
    assert(forall|i: usize|
        magic_at(bytes@, i as int) ==> offs@.contains(i) && exists|j: int|
            0 <= j < offs@.len() && offs@[j] == i);
    assert(forall|i: usize|
        magic_at(bytes@, i as int) ==> r@.contains(
            Candidate { addr: (m.start + i) as usize, provenance: Provenance::HasMagic },
        )) by {
        assert forall|i: usize| magic_at(bytes@, i as int) implies r@.contains(
            Candidate { addr: (m.start + i) as usize, provenance: Provenance::HasMagic },
        ) by {
            let j = choose|j: int| 0 <= j < offs@.len() && offs@[j] == i;
            assert(r@[j] == (Candidate {
                addr: (m.start + i) as usize,
                provenance: Provenance::HasMagic,
            }));
        }
    }
    if lacks_dex_prefix(bytes) {
        let ghost before = r@;
        r.push(Candidate { addr: m.start, provenance: Provenance::NoMagic });
        assert(forall|i: usize|
            magic_at(bytes@, i as int) ==> before.contains(
                Candidate { addr: (m.start + i) as usize, provenance: Provenance::HasMagic },
            ) && r@.contains(
                Candidate { addr: (m.start + i) as usize, provenance: Provenance::HasMagic },
            ));
    }
    r
}

} // verus!
