//! Memory mappings of the target process and the eligibility filter.
//!
//! A `MappingInfo` is an immutable snapshot of one virtual-memory region:
//! start address, length, readability, and the backing path (as raw bytes)
//! when the region is file-backed. A mapping is worth scanning only when it
//! is readable, at least as large as a DEX header, and not backed by a file
//! under a trusted system or optimizer-cache prefix, since those hold
//! legitimate DEX files that would flood the results.

use vstd::prelude::*;

verus! {

/// The scan's floor on a region's size: a region smaller than a DEX header
/// is never scanned.
pub const MIN_SCAN_SIZE: usize = 0x60;

/// The bytes of `"/data/dalvik-cache/"`, the optimizer-cache prefix.
pub open spec fn dalvik_cache_prefix() -> Seq<u8> {
    seq![
        0x2fu8,
        0x64u8,
        0x61u8,
        0x74u8,
        0x61u8,
        0x2fu8,
        0x64u8,
        0x61u8,
        0x6cu8,
        0x76u8,
        0x69u8,
        0x6bu8,
        0x2du8,
        0x63u8,
        0x61u8,
        0x63u8,
        0x68u8,
        0x65u8,
        0x2fu8,
    ]
}

/// The bytes of `"/system/"`, the system-library prefix.
pub open spec fn system_prefix() -> Seq<u8> {
    seq![0x2fu8, 0x73u8, 0x79u8, 0x73u8, 0x74u8, 0x65u8, 0x6du8, 0x2fu8]
}

/// `p` is a prefix of `s`.
pub open spec fn has_prefix(s: Seq<u8>, p: Seq<u8>) -> bool {
    p.len() <= s.len() && s.subrange(0, p.len() as int) == p
}

/// A backing path under one of the trusted prefixes: its mapping holds
/// known-good, already-extractable DEX data and is excluded from the scan.
pub open spec fn is_trusted_path(path: Seq<u8>) -> bool {
    has_prefix(path, dalvik_cache_prefix()) || has_prefix(path, system_prefix())
}

/// One region of the target's virtual address space, captured while the
/// target was frozen. `path` holds the backing file's bytes when the region
/// is file-backed.
#[derive(Debug)]
pub struct MappingInfo {
    pub start: usize,
    pub size: usize,
    pub readable: bool,
    pub path: Option<Vec<u8>>,
}

impl MappingInfo {
    /// The region lies within the address space: its end does not wrap.
    pub open spec fn wf(self) -> bool {
        self.start + self.size <= usize::MAX
    }

    /// The mapping is backed by a file under a trusted prefix.
    pub open spec fn spec_trusted(self) -> bool {
        self.path matches Some(p) && is_trusted_path(p@)
    }

    /// The mapping is worth scanning: readable, large enough to hold a DEX
    /// header, and not under a trusted prefix.
    pub open spec fn spec_eligible(self) -> bool {
        self.readable && self.size >= MIN_SCAN_SIZE && !self.spec_trusted()
    }

    /// Decides whether this mapping is scanned.
    pub fn is_eligible(&self) -> (r: bool)
        ensures
            r == self.spec_eligible(),
    {
        if !self.readable || self.size < MIN_SCAN_SIZE {
            return false;
        }
        match &self.path {
            Some(p) => !is_trusted(p),
            None => true,
        }
    }
}

/// Tests `p` for a leading `prefix`.
fn starts_with(p: &Vec<u8>, prefix: &Vec<u8>) -> (r: bool)
    ensures
        r == has_prefix(p@, prefix@),
{
    let m = prefix.len();
    let n = p.len();
    if m > n {
        assert(!has_prefix(p@, prefix@));
        return false;
    }
    let mut i: usize = 0;
    while i < m
        invariant
            0 <= i <= m,
            m <= n,
            m == prefix@.len(),
            n == p@.len(),
            forall|j: int| 0 <= j < i ==> p@[j] == prefix@[j],
        decreases m - i,
    {
        if p[i] != prefix[i] {
            assert(p@.subrange(0, m as int)[i as int] != prefix@[i as int]);
            return false;
        }
        i += 1;
    }
    assert(p@.subrange(0, m as int) =~= prefix@);
    true
}

/// Tests `p` against both trusted prefixes.
pub fn is_trusted(p: &Vec<u8>) -> (r: bool)
    ensures
        r == is_trusted_path(p@),
{
    let dalvik: Vec<u8> = vec![
        0x2fu8, 0x64, 0x61, 0x74, 0x61, 0x2f, 0x64, 0x61, 0x6c, 0x76, 0x69, 0x6b, 0x2d, 0x63,
        0x61, 0x63, 0x68, 0x65, 0x2f,
    ];
    let system: Vec<u8> = vec![0x2fu8, 0x73, 0x79, 0x73, 0x74, 0x65, 0x6d, 0x2f];
    assert(dalvik@ =~= dalvik_cache_prefix());
    assert(system@ =~= system_prefix());
    starts_with(p, &dalvik) || starts_with(p, &system)
}

} // verus!
