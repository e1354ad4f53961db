use dex_dumper::estimate::{estimated_size, parse_header, HeaderFields};
use dex_dumper::le::{read_u32_le, write_u32_le};
use dex_dumper::mapping::{is_trusted, MappingInfo};
use dex_dumper::repair::fix_dex;
use dex_dumper::scan::{find_magic_offsets, lacks_dex_prefix, scan_mapping, Candidate, Provenance};

fn put_u32(buf: &mut Vec<u8>, off: usize, v: u32) {
    buf[off..off + 4].copy_from_slice(&v.to_le_bytes());
}

fn plain_mapping(start: usize, size: usize) -> MappingInfo {
    MappingInfo { start, size, readable: true, path: None }
}

#[test]
fn le_read_exact_value() {
    let bytes = vec![0x78u8, 0x56, 0x34, 0x12, 0xff];
    assert_eq!(read_u32_le(&bytes, 0), 0x12345678);
    assert_eq!(read_u32_le(&bytes, 1), 0xff123456);
}

#[test]
fn le_write_then_read_round_trip() {
    let mut bytes = vec![0u8; 12];
    write_u32_le(&mut bytes, 4, 0xdeadbeef);
    assert_eq!(read_u32_le(&bytes, 4), 0xdeadbeef);
    assert_eq!(bytes[0..4], [0, 0, 0, 0]);
    assert_eq!(bytes[8..12], [0, 0, 0, 0]);
    assert_eq!(bytes[4..8], [0xef, 0xbe, 0xad, 0xde]);
}

#[test]
fn trusted_prefixes_recognized() {
    assert!(is_trusted(&b"/data/dalvik-cache/arm64/app.dex".to_vec()));
    assert!(is_trusted(&b"/system/lib64/libart.so".to_vec()));
    assert!(!is_trusted(&b"/data/app/base.apk".to_vec()));
    assert!(!is_trusted(&b"/sys".to_vec()));
    assert!(!is_trusted(&b"".to_vec()));
}

#[test]
fn eligibility_filter() {
    assert!(plain_mapping(0x1000, 0x60).is_eligible());
    // Too small to hold a header.
    assert!(!plain_mapping(0x1000, 0x5f).is_eligible());
    // Not readable.
    let mut m = plain_mapping(0x1000, 0x1000);
    m.readable = false;
    assert!(!m.is_eligible());
    // Backed by a trusted path.
    let mut m = plain_mapping(0x1000, 0x1000);
    m.path = Some(b"/system/framework/framework.jar".to_vec());
    assert!(!m.is_eligible());
    // An untrusted backing path stays eligible.
    let mut m = plain_mapping(0x1000, 0x1000);
    m.path = Some(b"/data/app/base.apk".to_vec());
    assert!(m.is_eligible());
}

#[test]
fn magic_offsets_found_exactly() {
    let mut buf = vec![0u8; 0x100];
    buf[5..13].copy_from_slice(b"dex\n035\0");
    buf[40..48].copy_from_slice(b"dex\n039\0");
    assert_eq!(find_magic_offsets(&buf), vec![5, 40]);
}

#[test]
fn magic_needs_version_digits_and_nul() {
    let mut buf = vec![0u8; 0x40];
    buf[0..8].copy_from_slice(b"dex\n0a5\0");
    assert_eq!(find_magic_offsets(&buf), Vec::<usize>::new());
    let mut buf = vec![0u8; 0x40];
    buf[0..8].copy_from_slice(b"dex\n035A");
    assert_eq!(find_magic_offsets(&buf), Vec::<usize>::new());
    let mut buf = vec![0u8; 0x40];
    buf[0..8].copy_from_slice(b"dex\n035\0");
    assert_eq!(find_magic_offsets(&buf), vec![0]);
}

#[test]
fn magic_at_buffer_tail() {
    let mut buf = vec![0u8; 0x68];
    buf[0x60..0x68].copy_from_slice(b"dex\n035\0");
    assert_eq!(find_magic_offsets(&buf), vec![0x60]);
}

#[test]
fn dex_prefix_check() {
    assert!(!lacks_dex_prefix(&b"dexXXXX".to_vec()));
    assert!(lacks_dex_prefix(&b"DEXxxxx".to_vec()));
    assert!(lacks_dex_prefix(&vec![0u8; 16]));
}

#[test]
fn scan_trusted_mapping_emits_nothing() {
    let mut bytes = vec![0u8; 0x100];
    bytes[0..8].copy_from_slice(b"dex\n035\0");
    let m = MappingInfo {
        start: 0x7000,
        size: 0x100,
        readable: true,
        path: Some(b"/data/dalvik-cache/x.dex".to_vec()),
    };
    assert_eq!(scan_mapping(&m, &bytes).len(), 0);
}

#[test]
fn scan_small_mapping_emits_nothing() {
    let bytes = vec![0u8; 0x5f];
    let m = plain_mapping(0x7000, 0x5f);
    assert_eq!(scan_mapping(&m, &bytes).len(), 0);
}

#[test]
fn scan_anchors_candidates() {
    let mut bytes = vec![0u8; 0x200];
    bytes[0x10..0x18].copy_from_slice(b"dex\n035\0");
    bytes[0x80..0x88].copy_from_slice(b"dex\n038\0");
    let m = plain_mapping(0x40000, 0x200);
    let cands = scan_mapping(&m, &bytes);
    // Two magic anchors at absolute addresses, and one headerless candidate
    // at the mapping's start, since the region does not begin with "dex".
    assert_eq!(cands.len(), 3);
    assert_eq!(cands[0], Candidate { addr: 0x40010, provenance: Provenance::HasMagic });
    assert_eq!(cands[1], Candidate { addr: 0x40080, provenance: Provenance::HasMagic });
    assert_eq!(cands[2], Candidate { addr: 0x40000, provenance: Provenance::NoMagic });
}

#[test]
fn scan_region_starting_with_dex_gets_no_headerless_candidate() {
    let mut bytes = vec![0u8; 0x100];
    bytes[0..8].copy_from_slice(b"dex\n035\0");
    let m = plain_mapping(0x1000, 0x100);
    let cands = scan_mapping(&m, &bytes);
    assert_eq!(cands.len(), 1);
    assert_eq!(cands[0], Candidate { addr: 0x1000, provenance: Provenance::HasMagic });
}

#[test]
fn parse_header_rejects_wrong_string_ids_off() {
    let mut buf = vec![0u8; 0x40];
    put_u32(&mut buf, 0x3c, 0x74);
    assert_eq!(parse_header(&buf), None);
}

#[test]
fn parse_header_reads_fields() {
    let mut buf = vec![0u8; 0x40];
    put_u32(&mut buf, 0x20, 0x12345);
    put_u32(&mut buf, 0x34, 0x800);
    put_u32(&mut buf, 0x3c, 0x70);
    assert_eq!(
        parse_header(&buf),
        Some(HeaderFields { reported_size: 0x12345, map_off: 0x800 })
    );
}

#[test]
fn estimated_size_formula() {
    assert_eq!(estimated_size(0x70, 3), Some(0x70 + 3 * 12 + 4));
    assert_eq!(estimated_size(0, 0), Some(4));
    assert_eq!(estimated_size(0x1000, 0x100), Some(0x1000 + 0x100 * 12 + 4));
}

#[test]
fn estimated_size_overflow_rejected() {
    assert_eq!(estimated_size(u32::MAX, 1), None);
    assert_eq!(estimated_size(0, u32::MAX / 12 + 1), None);
    assert_eq!(estimated_size(u32::MAX - 15, 1), None);
}

#[test]
fn fix_dex_repairs_fields() {
    let mut raw = vec![0xaau8; 0x100];
    // Stale values in every field repair touches.
    put_u32(&mut raw, 0x20, 0x9999);
    put_u32(&mut raw, 0x24, 0x9999);
    put_u32(&mut raw, 0x28, 0x9999);
    let fixed = fix_dex(&raw).unwrap();
    assert_eq!(fixed.len(), raw.len());
    assert_eq!(&fixed[0..8], b"dex\n035\0");
    assert_eq!(u32::from_le_bytes(fixed[0x20..0x24].try_into().unwrap()), 0x100);
    assert_eq!(u32::from_le_bytes(fixed[0x24..0x28].try_into().unwrap()), 112);
    assert_eq!(u32::from_le_bytes(fixed[0x28..0x2c].try_into().unwrap()), 0x12345678);
    // Bytes past the endian tag are untouched.
    assert_eq!(&fixed[0x2c..], &raw[0x2c..]);
}

#[test]
fn fix_dex_keeps_canonical_endian_tags() {
    let mut raw = vec![0u8; 0x40];
    put_u32(&mut raw, 0x28, 0x78563412);
    let fixed = fix_dex(&raw).unwrap();
    assert_eq!(u32::from_le_bytes(fixed[0x28..0x2c].try_into().unwrap()), 0x78563412);
}

#[test]
fn fix_dex_rejects_short_buffer() {
    assert_eq!(fix_dex(&vec![0u8; 0x2b]), None);
    assert!(fix_dex(&vec![0u8; 0x2c]).is_some());
}

#[test]
fn fix_dex_idempotent_on_canonical_header() {
    // A buffer whose magic, size, header-size and endian-tag fields are
    // already canonical comes back byte-identical.
    let mut raw = vec![0x5au8; 0x90];
    raw[0..8].copy_from_slice(b"dex\n035\0");
    put_u32(&mut raw, 0x20, 0x90);
    put_u32(&mut raw, 0x24, 112);
    put_u32(&mut raw, 0x28, 0x12345678);
    let fixed = fix_dex(&raw).unwrap();
    assert_eq!(fixed, raw);
    let again = fix_dex(&fixed).unwrap();
    assert_eq!(again, fixed);
}
