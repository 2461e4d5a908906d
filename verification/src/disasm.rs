//! The instruction-decoder collaborator.
//!
//! Decoding RISC-V encodings into mnemonic text is outside this
//! library's scope: it is consumed as a capability, here provided by
//! the `rvdasm` crate.  What this module does own is the safety of the
//! hand-off.  `rvdasm` walks a code buffer two or four bytes at a time
//! (the low two bits of an instruction's first byte say which) and
//! indexes the buffer without checking that the last instruction is
//! complete, so handing it a buffer whose final instruction is cut off
//! would panic.  `walk_ok` is that walk, written out; the verified
//! guard `disassemble_code` only makes the outside call when the walk
//! stays in bounds, and reports a truncated tail as `None` instead.

use vstd::prelude::*;

verus! {

/// How many bytes the instruction whose first byte is `b` occupies:
/// two for a compressed encoding (low two bits not both set), four
/// otherwise.
pub open spec fn insn_width(b: u8) -> int {
    if (b & 0x03) < 0x03 {
        2
    } else {
        4
    }
}

/// The decoder's walk from offset `i` stays within `code`: every
/// instruction it starts is complete.
pub open spec fn walk_ok(code: Seq<u8>, i: int) -> bool
    decreases code.len() - i
        when 0 <= i <= code.len()
{
    if i == code.len() {
        true
    } else if i + insn_width(code[i]) > code.len() {
        false
    } else {
        walk_ok(code, i + insn_width(code[i]))
    }
}

/// The offsets at which the decoder's walk from `i` starts an
/// instruction, in increasing order.
pub open spec fn insn_offsets(code: Seq<u8>, i: int) -> Seq<int>
    decreases code.len() - i
        when 0 <= i <= code.len()
{
    if i == code.len() {
        Seq::empty()
    } else if i + insn_width(code[i]) > code.len() {
        Seq::empty()
    } else {
        seq![i].add(insn_offsets(code, i + insn_width(code[i])))
    }
}

/// The mnemonic text `rvdasm` renders for each instruction of `code`,
/// one entry per walk offset.  The text of an instruction depends on
/// its encoded bytes alone, so this is a function of the buffer.
pub uninterp spec fn rv32_disasm_texts(code: Seq<u8>) -> Seq<Seq<char>>;

/// Relies on rvdasm's `Disassembler::disassemble_each` (32-bit ISA):
/// it hands out one `(address, instruction)` pair per instruction, in
/// address order, starting each instruction at the walk offsets and
/// addressing it at the entry point plus its offset; undecodable
/// encodings still yield a pair, so the walk never desynchronises.
/// Each instruction is rendered by rvdasm's `Insn::to_string`, a pure
/// function of the instruction's encoding.
#[verifier::external_body]
fn rv32_disasm(code: &[u8], base: u64) -> (r: Vec<(u64, String)>)
    requires
        walk_ok(code@, 0),
        base + code@.len() <= u64::MAX,
    ensures
        r@.len() == insn_offsets(code@, 0).len(),
        forall|k: int|
            0 <= k < r@.len() ==> r@[k].0 == base + insn_offsets(code@, 0)[k],
        forall|k: int| 0 <= k < r@.len() ==> r@[k].1@ == rv32_disasm_texts(code@)[k],
{
    let d = rvdasm::disassembler::Disassembler::new(rvdasm::disassembler::Xlen::XLEN32);
    let mut out: Vec<(u64, String)> = Vec::new();
    d.disassemble_each(code, base, |addr, insn| {
        out.push((addr, insn.to_string()));
    });
    out
}

/// Whether the decoder's walk over `code` stays in bounds.
pub fn code_walk_is_clean(code: &[u8]) -> (r: bool)
    ensures
        r == walk_ok(code@, 0),
{
    let n = code.len();
    let mut i: usize = 0;
    loop
        invariant
            i <= n,
            n == code@.len(),
            walk_ok(code@, 0) == walk_ok(code@, i as int),
        decreases n - i,
    {
        if i == n {
            return true;
        }
        let w: usize = if (code[i] & 0x03) < 0x03 {
            2
        } else {
            4
        };
        if n - i < w {
            return false;
        }
        i = i + w;
    }
}

/// Disassembles `code` as 32-bit RISC-V, one `(address, text)` line
/// per instruction, with the first instruction addressed at `base`.
///
/// Returns `None` exactly when the buffer's last instruction is cut
/// off, the one shape of input the decoder cannot take; every complete
/// buffer produces one line per instruction of the decoder's walk, in
/// address order.
pub fn disassemble_code(code: &[u8], base: u64) -> (r: Option<Vec<(u64, String)>>)
    requires
        base + code@.len() <= u64::MAX,
    ensures
        r is Some <==> walk_ok(code@, 0),
        match r {
            Some(lines) => {
                &&& lines@.len() == insn_offsets(code@, 0).len()
                &&& (forall|k: int|
                    0 <= k < lines@.len() ==> lines@[k].0 == base + insn_offsets(code@, 0)[k])
                &&& (forall|k: int|
                    0 <= k < lines@.len() ==> lines@[k].1@ == rv32_disasm_texts(code@)[k])
            },
            None => true,
        },
{
    if code_walk_is_clean(code) {
        Some(rv32_disasm(code, base))
    } else {
        None
    }
}

} // verus!
