//! The Type-Length-Value walker.
//!
//! The metadata block between the base header and the protected region
//! is a run of TLV records confined to `header_size - 16` bytes.  The
//! walker reads record headers until fewer than four bytes remain in
//! that bounded region (the normal termination condition, not an
//! error), dispatching Main records to the main-block reader,
//! PackageName records to the package-name reader, and skipping every
//! other kind over its declared length.  A record that would read past
//! the bounded region fails the whole region with `Truncated` rather
//! than reading out of bounds, and leftover bytes shorter than a record
//! header are discarded without interpretation.
//!
//! `walk_spec` is the mathematical description of one walk, written as
//! a tail recursion with the collected records and the running padding
//! total as accumulators; the executable walker returns exactly its
//! value.

use vstd::prelude::*;

use crate::bytes::le16_at;
use crate::bytes::le32_at;
use crate::bytes::read_u16_le;
use crate::header::MainBlock;
use crate::header::ParseError;
use crate::header::Stage;
use crate::header::MAIN_BLOCK_SIZE;

verus! {

/// TLV type code of a Main record.
pub const TLV_KIND_MAIN: u16 = 1;

/// TLV type code of a WriteableFlashRegions record.
pub const TLV_KIND_WRITEABLE_FLASH_REGIONS: u16 = 2;

/// TLV type code of a PackageName record.
pub const TLV_KIND_PACKAGE_NAME: u16 = 3;

/// TLV type code of the reserved Unused record.
pub const TLV_KIND_UNUSED: u16 = 5;

/// The kind of one TLV record, decoded from its raw type code.
#[derive(Clone, Copy, Debug, PartialEq, Eq, Structural)]
pub enum TlvKind {
    Main,
    WriteableFlashRegions,
    PackageName,
    Unused,
    Other(u16),
}

/// The kind that a raw type code names.  Unrecognized codes map to
/// `Other` so that forward-compatible records are skipped, never
/// aborted on.
pub open spec fn kind_of_spec(t: u16) -> TlvKind {
    if t == TLV_KIND_MAIN {
        TlvKind::Main
    } else if t == TLV_KIND_WRITEABLE_FLASH_REGIONS {
        TlvKind::WriteableFlashRegions
    } else if t == TLV_KIND_PACKAGE_NAME {
        TlvKind::PackageName
    } else if t == TLV_KIND_UNUSED {
        TlvKind::Unused
    } else {
        TlvKind::Other(t)
    }
}

/// Maps a raw TLV type code to its kind.
pub fn kind_of(t: u16) -> (r: TlvKind)
    ensures
        r == kind_of_spec(t),
{
    if t == TLV_KIND_MAIN {
        TlvKind::Main
    } else if t == TLV_KIND_WRITEABLE_FLASH_REGIONS {
        TlvKind::WriteableFlashRegions
    } else if t == TLV_KIND_PACKAGE_NAME {
        TlvKind::PackageName
    } else if t == TLV_KIND_UNUSED {
        TlvKind::Unused
    } else {
        TlvKind::Other(t)
    }
}

/// What one TLV record carried.
#[derive(Clone, Debug, PartialEq, Eq)]
pub enum TlvPayload {
    /// A Main record: its twelve-byte block, decoded.
    Main(MainBlock),
    /// A PackageName record: exactly the declared-length payload bytes.
    PackageName(Vec<u8>),
    /// Any other record: its payload was skipped without interpretation.
    Skipped,
}

/// One TLV record as the walker saw it, in stream order.
#[derive(Clone, Debug, PartialEq, Eq)]
pub struct TlvRecord {
    /// The raw type code.
    pub kind: u16,
    /// The declared payload length.
    pub length: u16,
    /// The decoded payload.
    pub payload: TlvPayload,
}

/// Mathematical image of a `TlvPayload`.
#[verifier::ext_equal]
pub enum TlvPayloadModel {
    Main(MainBlock),
    PackageName(Seq<u8>),
    Skipped,
}

/// Mathematical image of a `TlvRecord`.
#[verifier::ext_equal]
pub struct TlvRecordModel {
    pub kind: u16,
    pub length: u16,
    pub payload: TlvPayloadModel,
}

impl View for TlvPayload {
    type V = TlvPayloadModel;

    open spec fn view(&self) -> TlvPayloadModel {
        match self {
            TlvPayload::Main(m) => TlvPayloadModel::Main(*m),
            TlvPayload::PackageName(b) => TlvPayloadModel::PackageName(b@),
            TlvPayload::Skipped => TlvPayloadModel::Skipped,
        }
    }
}

impl View for TlvRecord {
    type V = TlvRecordModel;

    open spec fn view(&self) -> TlvRecordModel {
        TlvRecordModel { kind: self.kind, length: self.length, payload: self.payload@ }
    }
}

impl TlvRecord {
    /// The package name this record carries, decoded lossily from its
    /// exact payload bytes (invalid UTF-8 becomes replacement
    /// characters, never a failure; ASCII bytes decode to themselves).
    /// `None` for every other kind of record.
    pub fn package_name(&self) -> (r: Option<String>)
        ensures
            match r {
                Some(s) => {
                    &&& self.payload@ matches TlvPayloadModel::PackageName(b)
                    &&& s@ == crate::text::lossy_utf8_of(b)
                    &&& (forall|i: int| 0 <= i < b.len() ==> b[i] < 0x80) ==> (s@.len() == b.len()
                        && (forall|i: int| 0 <= i < b.len() ==> s@[i] == b[i] as char))
                },
                None => !(self.payload@ is PackageName),
            },
    {
        match &self.payload {
            TlvPayload::PackageName(b) => Some(crate::text::utf8_lossy(b.as_slice())),
            _ => None,
        }
    }
}

/// The views of a sequence of records.
pub open spec fn records_view(s: Seq<TlvRecord>) -> Seq<TlvRecordModel> {
    s.map_values(|r: TlvRecord| r@)
}

/// What a finished walk yields: the records in stream order and the sum
/// of every Main record's `protected_size`.
#[verifier::ext_equal]
pub struct WalkModel {
    pub records: Seq<TlvRecordModel>,
    pub padding: int,
}

/// The main block laid out at offset `i` of `b`.
pub open spec fn main_block_at(b: Seq<u8>, i: int) -> MainBlock {
    MainBlock {
        init_fn_offset: le32_at(b, i) as u32,
        protected_size: le32_at(b, i + 4) as u32,
        minimum_ram_size: le32_at(b, i + 8) as u32,
    }
}

/// The record beginning at offset `pos` of `region` (whose four-byte
/// type/length header is in bounds).
pub open spec fn record_at(region: Seq<u8>, pos: int) -> TlvRecordModel {
    let t = le16_at(region, pos) as u16;
    let l = le16_at(region, pos + 2) as u16;
    TlvRecordModel {
        kind: t,
        length: l,
        payload: match kind_of_spec(t) {
            TlvKind::Main => TlvPayloadModel::Main(main_block_at(region, pos + 4)),
            TlvKind::PackageName => TlvPayloadModel::PackageName(
                region.subrange(pos + 4, pos + 4 + l),
            ),
            _ => TlvPayloadModel::Skipped,
        },
    }
}

/// How many region bytes the record at `pos` consumes: its four-byte
/// header, plus twelve bytes for a Main record (whose reader takes
/// exactly the main block, whatever length was declared) or the
/// declared length for every other kind.
pub open spec fn record_size(region: Seq<u8>, pos: int) -> int {
    if kind_of_spec(le16_at(region, pos) as u16) == TlvKind::Main {
        4 + MAIN_BLOCK_SIZE
    } else {
        4 + le16_at(region, pos + 2)
    }
}

/// The stage blamed when the record at `pos` would cross the end of the
/// bounded region.
pub open spec fn record_stage(region: Seq<u8>, pos: int) -> Stage {
    match kind_of_spec(le16_at(region, pos) as u16) {
        TlvKind::Main => Stage::MainBlock,
        TlvKind::PackageName => Stage::PackageName,
        _ => Stage::TlvSkip,
    }
}

/// One walk over `region` starting at `pos`, with the records and
/// padding collected so far.  Stops, keeping the accumulators, when
/// fewer than four bytes remain; fails with `Truncated` when a record
/// would read past the end of the region.
pub open spec fn walk_spec(region: Seq<u8>, pos: int, acc: WalkModel) -> Result<
    WalkModel,
    ParseError,
>
    decreases region.len() - pos
        when 0 <= pos <= region.len()
{
    if pos + 4 > region.len() {
        Ok(acc)
    } else if pos + record_size(region, pos) > region.len() {
        Err(ParseError::Truncated(record_stage(region, pos)))
    } else {
        let rec = record_at(region, pos);
        walk_spec(
            region,
            pos + record_size(region, pos),
            WalkModel {
                records: acc.records.push(rec),
                padding: acc.padding + match rec.payload {
                    TlvPayloadModel::Main(m) => m.protected_size as int,
                    _ => 0,
                },
            },
        )
    }
}

/// The walk from the start of a region with nothing collected yet.
pub open spec fn walk_from_start(region: Seq<u8>) -> Result<WalkModel, ParseError> {
    walk_spec(region, 0, WalkModel { records: Seq::empty(), padding: 0 })
}

/// A walk only ever adds to the padding it started with.
pub proof fn lemma_walk_padding_monotone(region: Seq<u8>, pos: int, acc: WalkModel)
    requires
        0 <= pos <= region.len(),
    ensures
        walk_spec(region, pos, acc) matches Ok(w) ==> w.padding >= acc.padding,
    decreases region.len() - pos,
{
    if pos + 4 > region.len() {
    } else if pos + record_size(region, pos) > region.len() {
    } else {
        let rec = record_at(region, pos);
        lemma_walk_padding_monotone(
            region,
            pos + record_size(region, pos),
            WalkModel {
                records: acc.records.push(rec),
                padding: acc.padding + match rec.payload {
                    TlvPayloadModel::Main(m) => m.protected_size as int,
                    _ => 0,
                },
            },
        );
    }
}

/// A bounded region of length zero terminates the walk immediately and
/// yields no records and no padding.
pub proof fn lemma_walk_empty_region(region: Seq<u8>)
    requires
        region.len() == 0,
    ensures
        walk_from_start(region) == Ok::<WalkModel, ParseError>(
            WalkModel { records: Seq::empty(), padding: 0 },
        ),
{
}

/// A record whose declared extent crosses the end of the bounded region
/// fails the walk with `Truncated`: the boundary is honored even where
/// the length field alone would read past it.
pub proof fn lemma_walk_overlong_record(region: Seq<u8>)
    requires
        region.len() >= 4,
        record_size(region, 0) > region.len(),
    ensures
        walk_from_start(region) == Err::<WalkModel, ParseError>(
            ParseError::Truncated(record_stage(region, 0)),
        ),
{
}

/// Walks the TLV records held in `region`, returning them in stream
/// order together with the summed `protected_size` padding total.
///
/// The bounded region is exactly `region`; the walk stops the moment
/// fewer than four bytes remain, and a record whose payload would cross
/// the end of the region fails with `Truncated` instead of reading past
/// it.  A region of length zero therefore yields no records at all.
pub fn walk_tlvs(region: &[u8]) -> (r: Result<(Vec<TlvRecord>, u64), ParseError>)
    requires
        region@.len() < 0x1_0000,
    ensures
        match r {
            Ok((records, padding)) => {
                &&& walk_from_start(region@) == Ok::<WalkModel, ParseError>(
                    WalkModel { records: records_view(records@), padding: padding as int },
                )
                &&& padding <= region@.len() * 0x1000_0000
            },
            Err(e) => walk_from_start(region@) == Err::<WalkModel, ParseError>(e),
        },
{
    let mut records: Vec<TlvRecord> = Vec::new();
    let mut padding: u64 = 0;
    let mut pos: usize = 0;
    proof {
        assert(records_view(records@) =~= Seq::<TlvRecordModel>::empty());
    }
    loop
        invariant
            pos <= region@.len(),
            region@.len() < 0x1_0000,
            padding <= pos * 0x1000_0000,
            walk_from_start(region@) == walk_spec(
                region@,
                pos as int,
                WalkModel { records: records_view(records@), padding: padding as int },
            ),
        decreases region@.len() - pos,
    {
        let ghost acc = WalkModel { records: records_view(records@), padding: padding as int };
        if region.len() < 4 || pos > region.len() - 4 {
            return Ok((records, padding));
        }
        let t = read_u16_le(region, pos);
        let l = read_u16_le(region, pos + 2);
        let kind = kind_of(t);
        if kind == TlvKind::Main {
            if region.len() - pos - 4 < MAIN_BLOCK_SIZE {
                return Err(ParseError::Truncated(Stage::MainBlock));
            }
            let m = match MainBlock::decode(region, pos + 4) {
                Ok(m) => m,
                Err(e) => {
                    return Err(e);
                },
            };
            records.push(TlvRecord { kind: t, length: l, payload: TlvPayload::Main(m) });
            proof {
                assert(m == main_block_at(region@, pos + 4));
                assert(records_view(records@) =~~= acc.records.push(
                    record_at(region@, pos as int),
                ));
            }
            padding = padding + m.protected_size as u64;
            pos = pos + 4 + MAIN_BLOCK_SIZE;
        } else if kind == TlvKind::PackageName {
            if region.len() - pos - 4 < l as usize {
                return Err(ParseError::Truncated(Stage::PackageName));
            }
            let mut name: Vec<u8> = Vec::new();
            let mut j: usize = 0;
            while j < l as usize
                invariant
                    j <= l,
                    pos + 4 + l <= region@.len(),
                    region@.len() < 0x1_0000,
                    name@ =~= region@.subrange(pos + 4, pos + 4 + j),
                decreases l as int - j,
            {
                let c = region[pos + 4 + j];
                name.push(c);
                j = j + 1;
                proof {
                    assert(name@ =~= region@.subrange(pos as int + 4, pos + 4 + j));
                }
            }
            records.push(TlvRecord { kind: t, length: l, payload: TlvPayload::PackageName(name) });
            proof {
                assert(records_view(records@) =~~= acc.records.push(
                    record_at(region@, pos as int),
                ));
            }
            pos = pos + 4 + l as usize;
        } else {
            if region.len() - pos - 4 < l as usize {
                return Err(ParseError::Truncated(Stage::TlvSkip));
            }
            records.push(TlvRecord { kind: t, length: l, payload: TlvPayload::Skipped });
            proof {
                assert(records_view(records@) =~~= acc.records.push(
                    record_at(region@, pos as int),
                ));
            }
            pos = pos + 4 + l as usize;
        }
    }
}

} // verus!
