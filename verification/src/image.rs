//! The whole inspection of one TBF image, single pass and forward
//! only: version dispatch, base header, the bounded TLV region, the
//! protected padding region, the layout header, and the segment
//! arithmetic that derives the code and trailing byte ranges.
//!
//! `parse_spec` is the mathematical description of the pass;
//! `parse_image` is proved to return exactly its value, and
//! `inspect_image` hands the derived ranges on to the decoder and
//! hex-dump collaborators.

use vstd::prelude::*;

use crate::bytes::le16_at;
use crate::disasm::disassemble_code;
use crate::disasm::insn_offsets;
use crate::disasm::rv32_disasm_texts;
use crate::disasm::walk_ok;
use crate::header::base_header_at;
use crate::header::layout_header_at;
use crate::header::BaseHeader;
use crate::header::LayoutHeader;
use crate::header::ParseError;
use crate::header::Stage;
use crate::header::BASE_HEADER_SIZE;
use crate::header::LAYOUT_HEADER_SIZE;
use crate::header::SUPPORTED_VERSION;
use crate::text::hex_dump_of;
use crate::text::render_hex_dump;
use crate::tlv::records_view;
use crate::tlv::walk_from_start;
use crate::tlv::walk_tlvs;
use crate::tlv::TlvRecord;
use crate::tlv::TlvRecordModel;
use crate::tlv::WalkModel;

verus! {

/// Everything one pass over an image establishes: the decoded
/// structures, the summed padding, and the derived byte ranges.
///
/// The code range starts right after the layout header and is
/// `got_sym_start - 40` bytes long, clamped to the bytes the image
/// actually holds (a forward-only stream can hand out no more); the
/// trailing range is everything after it.  The program-counter base
/// for the first decoded instruction counts the TBF header too:
/// `header_size + 40`, the code's offset within the flashed image.
/// That convention is this library's single documented choice.
pub struct Inspection {
    /// The fixed base header.
    pub base: BaseHeader,
    /// The TLV records of the bounded header region, in stream order.
    pub records: Vec<TlvRecord>,
    /// The summed `protected_size` of every Main record.
    pub padding: u64,
    /// The fixed layout descriptor.
    pub layout: LayoutHeader,
    /// Offset of the code range within the image.
    pub code_offset: usize,
    /// Length of the code range.
    pub code_len: usize,
    /// Offset of the trailing range; it runs to the end of the image.
    pub trailing_offset: usize,
    /// Address of the code range's first instruction.
    pub code_base_pc: u64,
}

/// Mathematical image of an `Inspection`.
#[verifier::ext_equal]
pub struct InspectionModel {
    pub base: BaseHeader,
    pub records: Seq<TlvRecordModel>,
    pub padding: int,
    pub layout: LayoutHeader,
    pub code_offset: int,
    pub code_len: int,
    pub trailing_offset: int,
    pub code_base_pc: int,
}

impl View for Inspection {
    type V = InspectionModel;

    open spec fn view(&self) -> InspectionModel {
        InspectionModel {
            base: self.base,
            records: records_view(self.records@),
            padding: self.padding as int,
            layout: self.layout,
            code_offset: self.code_offset as int,
            code_len: self.code_len as int,
            trailing_offset: self.trailing_offset as int,
            code_base_pc: self.code_base_pc as int,
        }
    }
}

/// One forward pass over `img`.
///
/// The version field is inspected first and anything but the supported
/// value fails the whole run, before any byte beyond the first two
/// matters.  A declared header size smaller than the base header is a
/// `BadLayout`; an image shorter than a fixed structure, the declared
/// TLV region or the declared padding is a `Truncated` naming the
/// stage; a `got_sym_start` smaller than the layout header, whose code
/// range would be negative, is a `BadLayout`.
pub open spec fn parse_spec(img: Seq<u8>) -> Result<InspectionModel, ParseError> {
    if img.len() < 2 {
        Err(ParseError::Truncated(Stage::BaseHeader))
    } else if le16_at(img, 0) != SUPPORTED_VERSION {
        Err(ParseError::UnsupportedVersion)
    } else if img.len() < BASE_HEADER_SIZE {
        Err(ParseError::Truncated(Stage::BaseHeader))
    } else {
        let base = base_header_at(img, 0);
        if base.header_size < BASE_HEADER_SIZE {
            Err(ParseError::BadLayout)
        } else if img.len() < base.header_size {
            Err(ParseError::Truncated(Stage::TlvRegion))
        } else {
            match walk_from_start(img.subrange(BASE_HEADER_SIZE as int, base.header_size as int)) {
                Err(e) => Err(e),
                Ok(w) => {
                    let layout_off = base.header_size + w.padding;
                    if layout_off > img.len() {
                        Err(ParseError::Truncated(Stage::ProtectedRegion))
                    } else if layout_off + LAYOUT_HEADER_SIZE > img.len() {
                        Err(ParseError::Truncated(Stage::LayoutHeader))
                    } else {
                        let layout = layout_header_at(img, layout_off);
                        if layout.got_sym_start < LAYOUT_HEADER_SIZE {
                            Err(ParseError::BadLayout)
                        } else {
                            let code_offset = layout_off + LAYOUT_HEADER_SIZE;
                            let declared = layout.got_sym_start - LAYOUT_HEADER_SIZE;
                            let code_len = if declared <= img.len() - code_offset {
                                declared as int
                            } else {
                                img.len() - code_offset
                            };
                            Ok(
                                InspectionModel {
                                    base,
                                    records: w.records,
                                    padding: w.padding,
                                    layout,
                                    code_offset,
                                    code_len,
                                    trailing_offset: code_offset + code_len,
                                    code_base_pc: base.header_size + LAYOUT_HEADER_SIZE,
                                },
                            )
                        }
                    }
                }
            }
        }
    }
}

/// Decodes the structures of `img` and derives its byte ranges,
/// returning exactly what `parse_spec` says; in particular any version
/// field other than the supported value fails with
/// `UnsupportedVersion` however short or malformed the rest of the
/// image is.
pub fn parse_image(img: &[u8]) -> (r: Result<Inspection, ParseError>)
    ensures
        match r {
            Ok(ins) => parse_spec(img@) == Ok::<InspectionModel, ParseError>(ins@),
            Err(e) => parse_spec(img@) == Err::<InspectionModel, ParseError>(e),
        },
        img@.len() >= 2 && le16_at(img@, 0) != SUPPORTED_VERSION ==> r == Err::<
            Inspection,
            ParseError,
        >(ParseError::UnsupportedVersion),
{
    let n = img.len();
    if n < 2 {
        return Err(ParseError::Truncated(Stage::BaseHeader));
    }
    let version = crate::bytes::read_u16_le(img, 0);
    if version != SUPPORTED_VERSION {
        return Err(ParseError::UnsupportedVersion);
    }
    let base = match BaseHeader::decode(img, 0) {
        Ok(b) => b,
        Err(e) => {
            return Err(e);
        },
    };
    proof {
        assert(base == base_header_at(img@, 0));
    }
    if (base.header_size as usize) < BASE_HEADER_SIZE {
        return Err(ParseError::BadLayout);
    }
    if n < base.header_size as usize {
        return Err(ParseError::Truncated(Stage::TlvRegion));
    }
    let region = &img[BASE_HEADER_SIZE..base.header_size as usize];
    let (records, padding) = match walk_tlvs(region) {
        Ok(p) => p,
        Err(e) => {
            return Err(e);
        },
    };
    let layout_off_wide: u64 = base.header_size as u64 + padding;
    if layout_off_wide > n as u64 {
        return Err(ParseError::Truncated(Stage::ProtectedRegion));
    }
    let layout_off = layout_off_wide as usize;
    if n - layout_off < LAYOUT_HEADER_SIZE {
        return Err(ParseError::Truncated(Stage::LayoutHeader));
    }
    let layout = match LayoutHeader::decode(img, layout_off) {
        Ok(l) => l,
        Err(e) => {
            return Err(e);
        },
    };
    proof {
        assert(layout == layout_header_at(img@, layout_off as int));
    }
    if (layout.got_sym_start as usize) < LAYOUT_HEADER_SIZE {
        return Err(ParseError::BadLayout);
    }
    let code_offset = layout_off + LAYOUT_HEADER_SIZE;
    let declared = layout.got_sym_start as usize - LAYOUT_HEADER_SIZE;
    let avail = n - code_offset;
    let code_len = if declared <= avail {
        declared
    } else {
        avail
    };
    Ok(
        Inspection {
            base,
            records,
            padding,
            layout,
            code_offset,
            code_len,
            trailing_offset: code_offset + code_len,
            code_base_pc: base.header_size as u64 + LAYOUT_HEADER_SIZE as u64,
        },
    )
}

/// Round trip over a whole parsed image: re-serializing the base
/// header and the layout header that a successful parse decoded
/// reproduces, byte for byte, the stretches of the image they were
/// decoded from.
pub proof fn lemma_image_round_trip(img: Seq<u8>, m: InspectionModel, eb: Seq<u8>, el: Seq<u8>)
    requires
        parse_spec(img) == Ok::<InspectionModel, ParseError>(m),
        eb.len() == BASE_HEADER_SIZE,
        m.base.matches(eb, 0),
        el.len() == LAYOUT_HEADER_SIZE,
        m.layout.matches(el, 0),
    ensures
        eb =~= img.subrange(0, BASE_HEADER_SIZE as int),
        el =~= img.subrange(m.code_offset - LAYOUT_HEADER_SIZE, m.code_offset),
{
    let base = base_header_at(img, 0);
    let region = img.subrange(BASE_HEADER_SIZE as int, base.header_size as int);
    let w = walk_from_start(region)->Ok_0;
    crate::tlv::lemma_walk_padding_monotone(
        region,
        0,
        crate::tlv::WalkModel { records: Seq::empty(), padding: 0 },
    );
    let layout_off = base.header_size + w.padding;
    assert(m.base == base && m.layout == layout_header_at(img, layout_off));
    assert(m.code_offset == layout_off + LAYOUT_HEADER_SIZE);
    crate::header::lemma_base_header_round_trip(m.base, img, 0, eb);
    crate::header::lemma_layout_header_round_trip(m.layout, img, layout_off, el);
}

/// A finished inspection: the decoded structures and ranges, the
/// decoded-instruction lines for the code range, and the hex dump of
/// the trailing range.
pub struct Report {
    /// The decoded structures and derived ranges.
    pub inspection: Inspection,
    /// One `(address, text)` line per decoded instruction, in address
    /// order; `None` when the code range's last instruction is cut off
    /// by the end of the image, the one input the decoder cannot take.
    pub code_lines: Option<Vec<(u64, String)>>,
    /// The rendered dump of the trailing range.
    pub trailing_dump: String,
}

/// The bytes of the code range that `parse_spec` derives for `img`.
pub open spec fn code_bytes_of(img: Seq<u8>, m: InspectionModel) -> Seq<u8> {
    img.subrange(m.code_offset, m.code_offset + m.code_len)
}

/// The bytes of the trailing range that `parse_spec` derives for
/// `img`.
pub open spec fn trailing_bytes_of(img: Seq<u8>, m: InspectionModel) -> Seq<u8> {
    img.subrange(m.trailing_offset, img.len() as int)
}

/// Inspects `img` end to end: parses it, disassembles the code range
/// at its documented base address, and renders the trailing range as a
/// hex dump.
pub fn inspect_image(img: &[u8]) -> (r: Result<Report, ParseError>)
    ensures
        match r {
            Ok(rep) => {
                &&& parse_spec(img@) == Ok::<InspectionModel, ParseError>(rep.inspection@)
                &&& (rep.code_lines is Some <==> walk_ok(code_bytes_of(img@, rep.inspection@), 0))
                &&& match rep.code_lines {
                    Some(lines) => {
                        &&& lines@.len() == insn_offsets(
                            code_bytes_of(img@, rep.inspection@),
                            0,
                        ).len()
                        &&& (forall|k: int|
                            0 <= k < lines@.len() ==> lines@[k].0 == rep.inspection@.code_base_pc
                                + insn_offsets(code_bytes_of(img@, rep.inspection@), 0)[k])
                        &&& (forall|k: int|
                            0 <= k < lines@.len() ==> lines@[k].1@ == rv32_disasm_texts(
                                code_bytes_of(img@, rep.inspection@),
                            )[k])
                    },
                    None => true,
                }
                &&& rep.trailing_dump@ == hex_dump_of(trailing_bytes_of(img@, rep.inspection@))
            },
            Err(e) => parse_spec(img@) == Err::<InspectionModel, ParseError>(e),
        },
{
    let ins = match parse_image(img) {
        Ok(i) => i,
        Err(e) => {
            return Err(e);
        },
    };
    let code = &img[ins.code_offset..ins.code_offset + ins.code_len];
    let code_lines = disassemble_code(code, ins.code_base_pc);
    let trailing = &img[ins.trailing_offset..img.len()];
    let trailing_dump = render_hex_dump(trailing);
    Ok(Report { inspection: ins, code_lines, trailing_dump })
}

} // verus!
