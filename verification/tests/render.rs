//! The hand-off to the collaborators: instruction decoding of the code
//! range and hex rendering of the trailing range.

use tbf_inspect::bytes::push_u16_le;
use tbf_inspect::disasm::disassemble_code;
use tbf_inspect::header::{BaseHeader, LayoutHeader};
use tbf_inspect::image::inspect_image;

fn base_header(header_size: u16) -> Vec<u8> {
    BaseHeader { version: 2, header_size, total_size: 0, flags: 0, checksum: 0 }.encode()
}

fn layout(got_sym_start: u32) -> Vec<u8> {
    LayoutHeader {
        got_sym_start,
        got_start: 0,
        got_size: 0,
        data_sym_start: 0,
        data_start: 0,
        data_size: 0,
        bss_start: 0,
        bss_size: 0,
        reldata_start: 0,
        stack_size: 0,
    }
    .encode()
}

fn rvdasm_text(code: u32) -> String {
    rvdasm::disassembler::Disassembler::new(rvdasm::disassembler::Xlen::XLEN32)
        .disassmeble_one(code)
        .unwrap()
        .to_string()
}

#[test]
fn end_to_end_minimal_image() {
    // version 2, headerSize 16 (no TLVs), no padding, layout with
    // got_sym_start 44: one four-byte instruction, nothing trailing.
    let mut img = base_header(16);
    img.extend(layout(44));
    img.extend([0x13, 0x00, 0x00, 0x00]);
    let report = inspect_image(&img).unwrap();
    assert_eq!(report.inspection.padding, 0);
    assert!(report.inspection.records.is_empty());
    assert_eq!(report.inspection.code_offset, 56);
    assert_eq!(report.inspection.code_len, 4);
    assert_eq!(report.inspection.code_base_pc, 56);
    let lines = report.code_lines.as_ref().unwrap();
    assert_eq!(lines.len(), 1);
    assert_eq!(lines[0].0, 56);
    assert_eq!(lines[0].1, rvdasm_text(0x0000_0013));
    assert_eq!(
        report.trailing_dump,
        pretty_hex::pretty_hex(&Vec::<u8>::new())
    );
}

#[test]
fn disassembly_walks_compressed_and_full_instructions() {
    // A two-byte compressed encoding followed by a four-byte one.
    let code: Vec<u8> = vec![0x01, 0x00, 0x13, 0x00, 0x00, 0x00];
    let lines = disassemble_code(&code, 0x80).unwrap();
    assert_eq!(lines.len(), 2);
    assert_eq!(lines[0].0, 0x80);
    assert_eq!(lines[1].0, 0x82);
    assert_eq!(lines[1].1, rvdasm_text(0x0000_0013));
}

#[test]
fn truncated_final_instruction_yields_no_lines() {
    // The low bits of the third byte promise a four-byte instruction
    // that the buffer does not hold.
    let code: Vec<u8> = vec![0x01, 0x00, 0x13, 0x00];
    assert!(disassemble_code(&code, 0).is_none());
}

#[test]
fn empty_code_range_decodes_to_no_lines() {
    // got_sym_start equal to the layout header size: a zero-length
    // code range, with everything after it trailing.
    let trailing: Vec<u8> = vec![0x01, 0x02, 0x03];
    let mut img = base_header(16);
    img.extend(layout(40));
    img.extend(&trailing);
    let report = inspect_image(&img).unwrap();
    assert_eq!(report.inspection.code_len, 0);
    assert_eq!(report.code_lines.as_ref().unwrap().len(), 0);
    assert_eq!(report.trailing_dump, pretty_hex::pretty_hex(&trailing));
}

#[test]
fn trailing_dump_matches_the_renderer() {
    let trailing: Vec<u8> = vec![0xde, 0xad, 0xbe, 0xef, 0xca, 0xfe, 0x20, 0x18];
    let mut img = base_header(16);
    img.extend(layout(44));
    img.extend([0x13, 0x00, 0x00, 0x00]);
    img.extend(&trailing);
    let report = inspect_image(&img).unwrap();
    assert_eq!(report.trailing_dump, pretty_hex::pretty_hex(&trailing));
    assert!(report.trailing_dump.contains("de ad be ef"));
}

#[test]
fn package_name_bytes_are_not_handed_back_raw() {
    // A non-ASCII payload must come back decoded, not as the raw bytes.
    let mut v: Vec<u8> = Vec::new();
    push_u16_le(&mut v, 3);
    push_u16_le(&mut v, 2);
    v.extend([0xc3, 0xa9]); // UTF-8 for 'e' with acute accent
    let (records, _) = tbf_inspect::tlv::walk_tlvs(&v).unwrap();
    assert_eq!(records[0].package_name(), Some("\u{e9}".to_string()));
}
