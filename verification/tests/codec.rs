//! Field codec and fixed-structure round trips.

use tbf_inspect::bytes::{push_u16_le, push_u32_le, read_u16_le, read_u32_le};
use tbf_inspect::header::{BaseHeader, LayoutHeader, ParseError, Stage};

fn sample_base_header() -> BaseHeader {
    BaseHeader {
        version: 2,
        header_size: 0x40,
        total_size: 0x0002_0000,
        flags: 0x0000_0001,
        checksum: 0xdead_beef,
    }
}

fn sample_layout_header() -> LayoutHeader {
    LayoutHeader {
        got_sym_start: 0x0000_1000,
        got_start: 0x2000_0000,
        got_size: 0x60,
        data_sym_start: 0x1060,
        data_start: 0x2000_0060,
        data_size: 0x3a0,
        bss_start: 0x2000_0400,
        bss_size: 0x800,
        reldata_start: 0x4400,
        stack_size: 0x1000,
    }
}

#[test]
fn u16_round_trip() {
    let mut out: Vec<u8> = Vec::new();
    push_u16_le(&mut out, 0x1234);
    assert_eq!(out, vec![0x34, 0x12]);
    assert_eq!(read_u16_le(&out, 0), 0x1234);
}

#[test]
fn u32_round_trip() {
    let mut out: Vec<u8> = Vec::new();
    push_u32_le(&mut out, 0xdead_beef);
    assert_eq!(out, vec![0xef, 0xbe, 0xad, 0xde]);
    assert_eq!(read_u32_le(&out, 0), 0xdead_beef);
}

#[test]
fn base_header_round_trip_is_byte_identical() {
    let h = sample_base_header();
    let bytes = h.encode();
    assert_eq!(bytes.len(), 16);
    let decoded = BaseHeader::decode(&bytes, 0).unwrap();
    assert_eq!(decoded, h);
    assert_eq!(decoded.encode(), bytes);
}

#[test]
fn base_header_decode_known_bytes() {
    let bytes = vec![
        0x02, 0x00, // version
        0x40, 0x00, // header_size
        0x00, 0x00, 0x02, 0x00, // total_size
        0x01, 0x00, 0x00, 0x00, // flags
        0xef, 0xbe, 0xad, 0xde, // checksum
    ];
    let decoded = BaseHeader::decode(&bytes, 0).unwrap();
    assert_eq!(decoded, sample_base_header());
}

#[test]
fn base_header_truncated() {
    let bytes = vec![0u8; 15];
    assert_eq!(
        BaseHeader::decode(&bytes, 0),
        Err(ParseError::Truncated(Stage::BaseHeader))
    );
}

#[test]
fn layout_header_round_trip_is_byte_identical() {
    let l = sample_layout_header();
    let bytes = l.encode();
    assert_eq!(bytes.len(), 40);
    let decoded = LayoutHeader::decode(&bytes, 0).unwrap();
    assert_eq!(decoded, l);
    assert_eq!(decoded.encode(), bytes);
}

#[test]
fn layout_header_round_trip_at_offset() {
    let l = sample_layout_header();
    let mut bytes = vec![0xaa, 0xbb, 0xcc];
    bytes.extend(l.encode());
    let decoded = LayoutHeader::decode(&bytes, 3).unwrap();
    assert_eq!(decoded, l);
    assert_eq!(decoded.encode(), &bytes[3..43]);
}

#[test]
fn layout_header_truncated() {
    let bytes = vec![0u8; 39];
    assert_eq!(
        LayoutHeader::decode(&bytes, 0),
        Err(ParseError::Truncated(Stage::LayoutHeader))
    );
}
