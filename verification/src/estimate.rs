//! Size reconstruction from DEX header fields.
//!
//! The header's own `file_size` field is kept only for diagnostics; the size
//! that drives the extraction is rebuilt from the map list: `map_off` points
//! at a four-byte entry count followed by twelve-byte entries, so the file
//! extends to `map_off + map_size * 12 + 4`. A header whose `string_ids_off`
//! field is not the fixed-layout value `0x70` is not a DEX header at all, and
//! the candidate is rejected.

use vstd::prelude::*;
use crate::le::{le32, read_u32_le};

verus! {

/// Header offset of the `file_size` field.
pub const OFF_FILE_SIZE: usize = 0x20;

/// Header offset of the `header_size` field.
pub const OFF_HEADER_SIZE: usize = 0x24;

/// Header offset of the `endian_tag` field.
pub const OFF_ENDIAN_TAG: usize = 0x28;

/// Header offset of the `map_off` field.
pub const OFF_MAP_OFF: usize = 0x34;

/// Header offset of the `string_ids_off` field.
pub const OFF_STRING_IDS: usize = 0x3c;

/// In the standard fixed-layout header, `string_ids_off` is always 0x70.
pub const STRING_IDS_FIXED: u32 = 0x70;

/// How many leading header bytes the estimator reads: up to and including
/// the `string_ids_off` field.
pub const HEADER_PREFIX_LEN: usize = 0x40;

/// Bytes of one map-list entry.
pub const MAP_ENTRY_LEN: u32 = 12;

/// The fields the estimator draws from a header prefix.
#[derive(Clone, Copy, PartialEq, Eq, Structural, Debug)]
pub struct HeaderFields {
    /// The header's self-reported file size, kept for diagnostics.
    pub reported_size: u32,
    /// Offset of the map list, from which the real extent is rebuilt.
    pub map_off: u32,
}

/// The header prefix passes the structural check: `string_ids_off` decodes
/// to the fixed-layout value.
pub open spec fn header_plausible(s: Seq<u8>) -> bool {
    le32(s, OFF_STRING_IDS as int) == STRING_IDS_FIXED
}

/// Draws `file_size` and `map_off` from a header prefix, rejecting any
/// prefix whose `string_ids_off` is not the fixed-layout value.
pub fn parse_header(bytes: &Vec<u8>) -> (r: Option<HeaderFields>)
    requires
        bytes@.len() >= HEADER_PREFIX_LEN,
    ensures
        r is Some <==> header_plausible(bytes@),
        r matches Some(f) ==> f.reported_size == le32(bytes@, OFF_FILE_SIZE as int)
            && f.map_off == le32(bytes@, OFF_MAP_OFF as int),
{
    let string_ids_off = read_u32_le(bytes, OFF_STRING_IDS);
    if string_ids_off != STRING_IDS_FIXED {
        return None;
    }
    Some(
        HeaderFields {
            reported_size: read_u32_le(bytes, OFF_FILE_SIZE),
            map_off: read_u32_le(bytes, OFF_MAP_OFF),
        },
    )
}

/// The reconstructed extent: the map list's offset, its entries, and its
/// leading count word.
pub open spec fn spec_estimated_size(map_off: u32, map_size: u32) -> int {
    map_off + map_size * (MAP_ENTRY_LEN as int) + 4
}

/// Rebuilds the candidate's extent from `map_off` and the map list's entry
/// count. Succeeds exactly when the arithmetic fits in 32 bits, and then
/// returns exactly `map_off + map_size * 12 + 4`; overflow rejects the
/// candidate rather than wrapping.
pub fn estimated_size(map_off: u32, map_size: u32) -> (r: Option<u32>)
    ensures
        r is Some <==> spec_estimated_size(map_off, map_size) <= u32::MAX,
        r matches Some(v) ==> v == spec_estimated_size(map_off, map_size),
{
    let entries = match map_size.checked_mul(MAP_ENTRY_LEN) {
        Some(e) => e,
        None => {
            return None;
        },
    };
    let with_off = match map_off.checked_add(entries) {
        Some(w) => w,
        None => {
            return None;
        },
    };
    with_off.checked_add(4)
}

} // verus!
