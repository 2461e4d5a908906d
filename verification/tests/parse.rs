//! Whole-image parsing: the TLV walk, the padding region, the segment
//! arithmetic, and the error taxonomy.

use tbf_inspect::bytes::{push_u16_le, push_u32_le};
use tbf_inspect::header::{BaseHeader, LayoutHeader, ParseError, Stage};
use tbf_inspect::image::parse_image;
use tbf_inspect::tlv::{walk_tlvs, TlvPayload};

fn base_header(header_size: u16, total_size: u32) -> Vec<u8> {
    BaseHeader { version: 2, header_size, total_size, flags: 0, checksum: 0 }.encode()
}

fn layout(got_sym_start: u32) -> Vec<u8> {
    LayoutHeader {
        got_sym_start,
        got_start: 0,
        got_size: 0,
        data_sym_start: 0,
        data_start: 0,
        data_size: 0,
        bss_start: 0,
        bss_size: 0,
        reldata_start: 0,
        stack_size: 0,
    }
    .encode()
}

fn tlv_header(kind: u16, length: u16) -> Vec<u8> {
    let mut v = Vec::new();
    push_u16_le(&mut v, kind);
    push_u16_le(&mut v, length);
    v
}

fn main_tlv(init_fn_offset: u32, protected_size: u32, minimum_ram_size: u32) -> Vec<u8> {
    let mut v = tlv_header(1, 12);
    push_u32_le(&mut v, init_fn_offset);
    push_u32_le(&mut v, protected_size);
    push_u32_le(&mut v, minimum_ram_size);
    v
}

#[test]
fn empty_region_yields_no_records() {
    let r = walk_tlvs(&[]).unwrap();
    assert!(r.0.is_empty());
    assert_eq!(r.1, 0);
}

#[test]
fn region_shorter_than_a_record_header_is_discarded() {
    let r = walk_tlvs(&[0x01, 0x00, 0x0c]).unwrap();
    assert!(r.0.is_empty());
    assert_eq!(r.1, 0);
}

#[test]
fn overlong_record_fails_with_truncated() {
    // An unknown-kind record declaring more payload than the bounded
    // region holds must fail the region, not read past it.
    let mut region = tlv_header(9, 200);
    region.extend([0u8; 6]);
    assert_eq!(walk_tlvs(&region), Err(ParseError::Truncated(Stage::TlvSkip)));
}

#[test]
fn overlong_package_name_fails_with_truncated() {
    let mut region = tlv_header(3, 5);
    region.extend(*b"toc");
    assert_eq!(
        walk_tlvs(&region),
        Err(ParseError::Truncated(Stage::PackageName))
    );
}

#[test]
fn short_main_block_fails_with_truncated() {
    let mut region = tlv_header(1, 12);
    region.extend([0u8; 8]);
    assert_eq!(walk_tlvs(&region), Err(ParseError::Truncated(Stage::MainBlock)));
}

#[test]
fn main_record_sums_padding() {
    let mut region = main_tlv(0x29, 0x10, 0x2000);
    region.extend(main_tlv(0x31, 0x20, 0x1000));
    let (records, padding) = walk_tlvs(&region).unwrap();
    assert_eq!(records.len(), 2);
    assert_eq!(padding, 0x30);
    match &records[0].payload {
        TlvPayload::Main(m) => {
            assert_eq!(m.init_fn_offset, 0x29);
            assert_eq!(m.protected_size, 0x10);
            assert_eq!(m.minimum_ram_size, 0x2000);
        }
        other => panic!("expected a Main payload, got {:?}", other),
    }
}

#[test]
fn unknown_kind_is_skipped_not_fatal() {
    let mut region = tlv_header(9, 3);
    region.extend([0xaa, 0xbb, 0xcc]);
    region.extend(tlv_header(3, 2));
    region.extend(*b"hi");
    let (records, padding) = walk_tlvs(&region).unwrap();
    assert_eq!(records.len(), 2);
    assert_eq!(padding, 0);
    assert_eq!(records[0].kind, 9);
    assert_eq!(records[0].payload, TlvPayload::Skipped);
    assert_eq!(records[1].package_name(), Some("hi".to_string()));
}

#[test]
fn package_name_keeps_exact_declared_length() {
    // Five declared bytes with a trailing NUL: exact-length slicing,
    // no NUL-termination semantics.
    let mut img = base_header(16 + 4 + 5, 0);
    img.extend(tlv_header(3, 5));
    img.extend(*b"tock\0");
    img.extend(layout(44));
    img.extend([0x13, 0x00, 0x00, 0x00]);
    let ins = parse_image(&img).unwrap();
    assert_eq!(ins.records.len(), 1);
    assert_eq!(ins.records[0].kind, 3);
    assert_eq!(ins.records[0].length, 5);
    assert_eq!(
        ins.records[0].payload,
        TlvPayload::PackageName(b"tock\0".to_vec())
    );
    assert_eq!(ins.records[0].package_name(), Some("tock\u{0}".to_string()));
}

#[test]
fn package_name_with_invalid_utf8_is_decoded_lossily() {
    let mut region = tlv_header(3, 3);
    region.extend([0xff, b'a', b'b']);
    let (records, _) = walk_tlvs(&region).unwrap();
    let name = records[0].package_name().unwrap();
    assert_eq!(name, "\u{fffd}ab");
}

#[test]
fn got_sym_start_below_layout_header_is_bad_layout() {
    let mut img = base_header(16, 0);
    img.extend(layout(39));
    assert_eq!(parse_image(&img).err(), Some(ParseError::BadLayout));
}

#[test]
fn header_size_below_base_header_is_bad_layout() {
    let mut img = base_header(8, 0);
    img.extend(layout(44));
    assert_eq!(parse_image(&img).err(), Some(ParseError::BadLayout));
}

#[test]
fn version_one_fails_before_reading_further() {
    // Two bytes are the whole image: the version decides alone.
    assert_eq!(parse_image(&[0x01, 0x00]).err(), Some(ParseError::UnsupportedVersion));
}

#[test]
fn any_version_but_two_fails() {
    let mut img = base_header(16, 0);
    img.extend(layout(44));
    img[0] = 0x03;
    assert_eq!(parse_image(&img).err(), Some(ParseError::UnsupportedVersion));
}

#[test]
fn image_shorter_than_version_field_is_truncated() {
    assert_eq!(
        parse_image(&[0x02]).err(),
        Some(ParseError::Truncated(Stage::BaseHeader))
    );
}

#[test]
fn image_shorter_than_base_header_is_truncated() {
    assert_eq!(
        parse_image(&[0x02, 0x00, 0x10, 0x00]).err(),
        Some(ParseError::Truncated(Stage::BaseHeader))
    );
}

#[test]
fn image_shorter_than_declared_tlv_region_is_truncated() {
    let mut img = base_header(32, 0);
    img.extend([0u8; 4]);
    assert_eq!(parse_image(&img).err(), Some(ParseError::Truncated(Stage::TlvRegion)));
}

#[test]
fn padding_past_end_of_image_is_truncated() {
    let mut img = base_header(16 + 16, 0);
    img.extend(main_tlv(0, 1000, 0));
    assert_eq!(
        parse_image(&img).err(),
        Some(ParseError::Truncated(Stage::ProtectedRegion))
    );
}

#[test]
fn missing_layout_header_is_truncated() {
    let mut img = base_header(16, 0);
    img.extend([0u8; 10]);
    assert_eq!(
        parse_image(&img).err(),
        Some(ParseError::Truncated(Stage::LayoutHeader))
    );
}

#[test]
fn padding_is_skipped_before_the_layout_header() {
    let mut img = base_header(16 + 16, 0);
    img.extend(main_tlv(0x41, 8, 0x600));
    img.extend([0xee; 8]);
    img.extend(layout(48));
    img.extend([0x13, 0x00, 0x00, 0x00, 0x67, 0x80, 0x00, 0x00]);
    img.extend([0x01, 0x02]);
    let ins = parse_image(&img).unwrap();
    assert_eq!(ins.padding, 8);
    assert_eq!(ins.code_offset, 32 + 8 + 40);
    assert_eq!(ins.code_len, 8);
    assert_eq!(ins.trailing_offset, ins.code_offset + 8);
    assert_eq!(ins.code_base_pc, 32 + 40);
    assert_eq!(ins.layout.got_sym_start, 48);
}

#[test]
fn reencoding_parsed_headers_reproduces_the_image_bytes() {
    let mut img = base_header(16 + 16, 0x1234);
    img.extend(main_tlv(0x41, 4, 0x600));
    img.extend([0xee; 4]);
    img.extend(layout(44));
    img.extend([0x13, 0x00, 0x00, 0x00]);
    let ins = parse_image(&img).unwrap();
    assert_eq!(ins.base.encode(), &img[0..16]);
    let layout_off = ins.code_offset - 40;
    assert_eq!(ins.layout.encode(), &img[layout_off..layout_off + 40]);
}

#[test]
fn code_range_is_clamped_to_the_image() {
    let mut img = base_header(16, 0);
    img.extend(layout(0x100));
    img.extend([0x13, 0x00, 0x00, 0x00]);
    let ins = parse_image(&img).unwrap();
    assert_eq!(ins.code_offset, 56);
    assert_eq!(ins.code_len, 4);
    assert_eq!(ins.trailing_offset, img.len());
}
