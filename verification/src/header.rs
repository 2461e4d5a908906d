//! The fixed-size structures of a TBF image: the 16-byte base header,
//! the 12-byte main block carried by a Main TLV, and the 40-byte layout
//! descriptor that follows the protected region.
//!
//! Each structure has a `matches` predicate saying that its fields are
//! exactly the little-endian fields at an offset of a byte sequence.
//! `decode` is proved to return a matching value whenever enough bytes
//! are present, `encode` to produce matching bytes, and the round-trip
//! lemmas show that encoding a decoded structure reproduces the original
//! bytes exactly.

use vstd::prelude::*;

use crate::bytes::le16_at;
use crate::bytes::le32_at;
use crate::bytes::lemma_le16_at_injective;
use crate::bytes::lemma_le32_at_injective;
use crate::bytes::push_u16_le;
use crate::bytes::push_u32_le;
use crate::bytes::read_u16_le;
use crate::bytes::read_u32_le;

verus! {

/// The stage of the parse at which a truncation was discovered.
#[derive(Clone, Copy, Debug, PartialEq, Eq, Structural)]
pub enum Stage {
    /// The fixed base header itself.
    BaseHeader,
    /// The twelve-byte payload of a Main TLV.
    MainBlock,
    /// The declared-length payload of a PackageName TLV.
    PackageName,
    /// The declared-length payload of an unrecognized TLV, skipped over.
    TlvSkip,
    /// The TLV region as a whole: the image ends before the declared
    /// header size.
    TlvRegion,
    /// The protected padding region declared by the Main block.
    ProtectedRegion,
    /// The fixed layout descriptor.
    LayoutHeader,
}

/// Why an inspection run failed.  `InvalidText` of the error taxonomy is
/// recovered locally during package-name decoding (bytes are kept and
/// rendered lossily), so it never surfaces here.
#[derive(Clone, Copy, Debug, PartialEq, Eq, Structural)]
pub enum ParseError {
    /// The image ended before the named structure could be fully read.
    Truncated(Stage),
    /// The version field holds anything but the one supported value.
    UnsupportedVersion,
    /// Derived offsets are inconsistent: the declared header size is
    /// smaller than the base header, or the code range would be negative.
    BadLayout,
}

/// Size in bytes of the encoded `BaseHeader`.
pub const BASE_HEADER_SIZE: usize = 16;

/// Size in bytes of the encoded `MainBlock`.
pub const MAIN_BLOCK_SIZE: usize = 12;

/// Size in bytes of the encoded `LayoutHeader`.
pub const LAYOUT_HEADER_SIZE: usize = 40;

/// The one header version this inspector supports.
pub const SUPPORTED_VERSION: u16 = 2;

/// The fixed preamble at offset 0 of every TBF image.
#[derive(Clone, Copy, Debug, PartialEq, Eq, Structural)]
pub struct BaseHeader {
    pub version: u16,
    pub header_size: u16,
    pub total_size: u32,
    pub flags: u32,
    pub checksum: u32,
}

/// The base header laid out at offset `i` of `b`.
pub open spec fn base_header_at(b: Seq<u8>, i: int) -> BaseHeader {
    BaseHeader {
        version: le16_at(b, i) as u16,
        header_size: le16_at(b, i + 2) as u16,
        total_size: le32_at(b, i + 4) as u32,
        flags: le32_at(b, i + 8) as u32,
        checksum: le32_at(b, i + 12) as u32,
    }
}

/// The layout header laid out at offset `i` of `b`.
pub open spec fn layout_header_at(b: Seq<u8>, i: int) -> LayoutHeader {
    LayoutHeader {
        got_sym_start: le32_at(b, i) as u32,
        got_start: le32_at(b, i + 4) as u32,
        got_size: le32_at(b, i + 8) as u32,
        data_sym_start: le32_at(b, i + 12) as u32,
        data_start: le32_at(b, i + 16) as u32,
        data_size: le32_at(b, i + 20) as u32,
        bss_start: le32_at(b, i + 24) as u32,
        bss_size: le32_at(b, i + 28) as u32,
        reldata_start: le32_at(b, i + 32) as u32,
        stack_size: le32_at(b, i + 36) as u32,
    }
}

impl BaseHeader {
    /// The fields of `self` are exactly the five little-endian fields
    /// laid out at offset `i` of `b`.
    pub open spec fn matches(self, b: Seq<u8>, i: int) -> bool {
        &&& self.version == le16_at(b, i)
        &&& self.header_size == le16_at(b, i + 2)
        &&& self.total_size == le32_at(b, i + 4)
        &&& self.flags == le32_at(b, i + 8)
        &&& self.checksum == le32_at(b, i + 12)
    }

    /// Decodes the base header at offset `i`, failing with `Truncated`
    /// when fewer than 16 bytes remain.
    pub fn decode(b: &[u8], i: usize) -> (r: Result<BaseHeader, ParseError>)
        ensures
            i + BASE_HEADER_SIZE <= b@.len() ==> (r matches Ok(h) && h.matches(b@, i as int)),
            i + BASE_HEADER_SIZE > b@.len() ==> r == Err::<BaseHeader, ParseError>(
                ParseError::Truncated(Stage::BaseHeader),
            ),
    {
        if b.len() < BASE_HEADER_SIZE || i > b.len() - BASE_HEADER_SIZE {
            return Err(ParseError::Truncated(Stage::BaseHeader));
        }
        Ok(BaseHeader {
            version: read_u16_le(b, i),
            header_size: read_u16_le(b, i + 2),
            total_size: read_u32_le(b, i + 4),
            flags: read_u32_le(b, i + 8),
            checksum: read_u32_le(b, i + 12),
        })
    }

    /// Serializes the header back to its 16-byte little-endian form.
    pub fn encode(&self) -> (r: Vec<u8>)
        ensures
            r@.len() == BASE_HEADER_SIZE,
            self.matches(r@, 0),
    {
        let mut out: Vec<u8> = Vec::new();
        push_u16_le(&mut out, self.version);
        push_u16_le(&mut out, self.header_size);
        push_u32_le(&mut out, self.total_size);
        push_u32_le(&mut out, self.flags);
        push_u32_le(&mut out, self.checksum);
        out
    }
}

/// The payload of a Main TLV record.
#[derive(Clone, Copy, Debug, PartialEq, Eq, Structural)]
pub struct MainBlock {
    pub init_fn_offset: u32,
    pub protected_size: u32,
    pub minimum_ram_size: u32,
}

impl MainBlock {
    /// The fields of `self` are exactly the three little-endian words at
    /// offset `i` of `b`.
    pub open spec fn matches(self, b: Seq<u8>, i: int) -> bool {
        &&& self.init_fn_offset == le32_at(b, i)
        &&& self.protected_size == le32_at(b, i + 4)
        &&& self.minimum_ram_size == le32_at(b, i + 8)
    }

    /// Decodes the main block at offset `i`, failing with `Truncated`
    /// when fewer than 12 bytes remain.
    pub fn decode(b: &[u8], i: usize) -> (r: Result<MainBlock, ParseError>)
        ensures
            i + MAIN_BLOCK_SIZE <= b@.len() ==> (r matches Ok(m) && m.matches(b@, i as int)),
            i + MAIN_BLOCK_SIZE > b@.len() ==> r == Err::<MainBlock, ParseError>(
                ParseError::Truncated(Stage::MainBlock),
            ),
    {
        if b.len() < MAIN_BLOCK_SIZE || i > b.len() - MAIN_BLOCK_SIZE {
            return Err(ParseError::Truncated(Stage::MainBlock));
        }
        Ok(MainBlock {
            init_fn_offset: read_u32_le(b, i),
            protected_size: read_u32_le(b, i + 4),
            minimum_ram_size: read_u32_le(b, i + 8),
        })
    }
}

/// The fixed descriptor of the memory geometry, read immediately after
/// the protected region.
#[derive(Clone, Copy, Debug, PartialEq, Eq, Structural)]
pub struct LayoutHeader {
    pub got_sym_start: u32,
    pub got_start: u32,
    pub got_size: u32,
    pub data_sym_start: u32,
    pub data_start: u32,
    pub data_size: u32,
    pub bss_start: u32,
    pub bss_size: u32,
    pub reldata_start: u32,
    pub stack_size: u32,
}

impl LayoutHeader {
    /// The fields of `self` are exactly the ten little-endian words at
    /// offset `i` of `b`.
    pub open spec fn matches(self, b: Seq<u8>, i: int) -> bool {
        &&& self.got_sym_start == le32_at(b, i)
        &&& self.got_start == le32_at(b, i + 4)
        &&& self.got_size == le32_at(b, i + 8)
        &&& self.data_sym_start == le32_at(b, i + 12)
        &&& self.data_start == le32_at(b, i + 16)
        &&& self.data_size == le32_at(b, i + 20)
        &&& self.bss_start == le32_at(b, i + 24)
        &&& self.bss_size == le32_at(b, i + 28)
        &&& self.reldata_start == le32_at(b, i + 32)
        &&& self.stack_size == le32_at(b, i + 36)
    }

    /// Decodes the layout header at offset `i`, failing with `Truncated`
    /// when fewer than 40 bytes remain.
    pub fn decode(b: &[u8], i: usize) -> (r: Result<LayoutHeader, ParseError>)
        ensures
            i + LAYOUT_HEADER_SIZE <= b@.len() ==> (r matches Ok(l) && l.matches(b@, i as int)),
            i + LAYOUT_HEADER_SIZE > b@.len() ==> r == Err::<LayoutHeader, ParseError>(
                ParseError::Truncated(Stage::LayoutHeader),
            ),
    {
        if b.len() < LAYOUT_HEADER_SIZE || i > b.len() - LAYOUT_HEADER_SIZE {
            return Err(ParseError::Truncated(Stage::LayoutHeader));
        }
        Ok(LayoutHeader {
            got_sym_start: read_u32_le(b, i),
            got_start: read_u32_le(b, i + 4),
            got_size: read_u32_le(b, i + 8),
            data_sym_start: read_u32_le(b, i + 12),
            data_start: read_u32_le(b, i + 16),
            data_size: read_u32_le(b, i + 20),
            bss_start: read_u32_le(b, i + 24),
            bss_size: read_u32_le(b, i + 28),
            reldata_start: read_u32_le(b, i + 32),
            stack_size: read_u32_le(b, i + 36),
        })
    }

    /// Serializes the layout header back to its 40-byte little-endian
    /// form.
    pub fn encode(&self) -> (r: Vec<u8>)
        ensures
            r@.len() == LAYOUT_HEADER_SIZE,
            self.matches(r@, 0),
    {
        let mut out: Vec<u8> = Vec::new();
        push_u32_le(&mut out, self.got_sym_start);
        push_u32_le(&mut out, self.got_start);
        push_u32_le(&mut out, self.got_size);
        push_u32_le(&mut out, self.data_sym_start);
        push_u32_le(&mut out, self.data_start);
        push_u32_le(&mut out, self.data_size);
        push_u32_le(&mut out, self.bss_start);
        push_u32_le(&mut out, self.bss_size);
        push_u32_le(&mut out, self.reldata_start);
        push_u32_le(&mut out, self.stack_size);
        out
    }
}

/// Round trip for the base header: any 16 bytes that a header value was
/// decoded from are reproduced exactly by re-encoding that value.
pub proof fn lemma_base_header_round_trip(h: BaseHeader, a: Seq<u8>, i: int, e: Seq<u8>)
    requires
        0 <= i,
        i + BASE_HEADER_SIZE <= a.len(),
        h.matches(a, i),
        e.len() == BASE_HEADER_SIZE,
        h.matches(e, 0),
    ensures
        e =~= a.subrange(i, i + BASE_HEADER_SIZE),
{
    lemma_le16_at_injective(e, 0, a, i);
    lemma_le16_at_injective(e, 2, a, i + 2);
    lemma_le32_at_injective(e, 4, a, i + 4);
    lemma_le32_at_injective(e, 8, a, i + 8);
    lemma_le32_at_injective(e, 12, a, i + 12);
}

/// Round trip for the layout header: any 40 bytes that a layout value
/// was decoded from are reproduced exactly by re-encoding that value.
pub proof fn lemma_layout_header_round_trip(l: LayoutHeader, a: Seq<u8>, i: int, e: Seq<u8>)
    requires
        0 <= i,
        i + LAYOUT_HEADER_SIZE <= a.len(),
        l.matches(a, i),
        e.len() == LAYOUT_HEADER_SIZE,
        l.matches(e, 0),
    ensures
        e =~= a.subrange(i, i + LAYOUT_HEADER_SIZE),
{
    lemma_le32_at_injective(e, 0, a, i);
    lemma_le32_at_injective(e, 4, a, i + 4);
    lemma_le32_at_injective(e, 8, a, i + 8);
    lemma_le32_at_injective(e, 12, a, i + 12);
    lemma_le32_at_injective(e, 16, a, i + 16);
    lemma_le32_at_injective(e, 20, a, i + 20);
    lemma_le32_at_injective(e, 24, a, i + 24);
    lemma_le32_at_injective(e, 28, a, i + 28);
    lemma_le32_at_injective(e, 32, a, i + 32);
    lemma_le32_at_injective(e, 36, a, i + 36);
}

} // verus!
