//! Little-endian field decoding and encoding over byte sequences.
//!
//! Every multi-byte field of a TBF image is stored little-endian.  The
//! spec functions here give the mathematical value of a 16-bit or 32-bit
//! field at an offset of a byte sequence; the executable readers and
//! writers are proved against them, and the injectivity lemmas show that
//! a field value determines its bytes, which is what the encode/decode
//! round-trip rests on.

use vstd::prelude::*;

verus! {

/// Value of the little-endian 16-bit field at offset `i` of `b`.
pub open spec fn le16_at(b: Seq<u8>, i: int) -> int {
    b[i] + 0x100 * b[i + 1]
}

/// Value of the little-endian 32-bit field at offset `i` of `b`.
pub open spec fn le32_at(b: Seq<u8>, i: int) -> int {
    le16_at(b, i) + 0x1_0000 * le16_at(b, i + 2)
}

/// A 16-bit little-endian field value determines both of its bytes.
pub proof fn lemma_le16_at_injective(a: Seq<u8>, i: int, b: Seq<u8>, j: int)
    requires
        0 <= i,
        i + 2 <= a.len(),
        0 <= j,
        j + 2 <= b.len(),
        le16_at(a, i) == le16_at(b, j),
    ensures
        a[i] == b[j],
        a[i + 1] == b[j + 1],
{
    assert(a[i] - b[j] == 0x100 * (b[j + 1] - a[i + 1]));
}

/// A 32-bit little-endian field value determines all four of its bytes.
pub proof fn lemma_le32_at_injective(a: Seq<u8>, i: int, b: Seq<u8>, j: int)
    requires
        0 <= i,
        i + 4 <= a.len(),
        0 <= j,
        j + 4 <= b.len(),
        le32_at(a, i) == le32_at(b, j),
    ensures
        a[i] == b[j],
        a[i + 1] == b[j + 1],
        a[i + 2] == b[j + 2],
        a[i + 3] == b[j + 3],
{
    assert(0 <= le16_at(a, i) < 0x1_0000);
    assert(0 <= le16_at(b, j) < 0x1_0000);
    assert(le16_at(a, i) - le16_at(b, j) == 0x1_0000 * (le16_at(b, j + 2) - le16_at(a, i + 2)));
    lemma_le16_at_injective(a, i, b, j);
    lemma_le16_at_injective(a, i + 2, b, j + 2);
}

/// Reads the little-endian `u16` at offset `i` of `b`.
pub fn read_u16_le(b: &[u8], i: usize) -> (r: u16)
    requires
        i + 2 <= b@.len() <= usize::MAX,
    ensures
        r == le16_at(b@, i as int),
{
    let lo = b[i];
    let hi = b[i + 1];
    lo as u16 + 0x100 * hi as u16
}

/// Reads the little-endian `u32` at offset `i` of `b`.
pub fn read_u32_le(b: &[u8], i: usize) -> (r: u32)
    requires
        i + 4 <= b@.len() <= usize::MAX,
    ensures
        r == le32_at(b@, i as int),
{
    let lo = read_u16_le(b, i);
    let hi = read_u16_le(b, i + 2);
    lo as u32 + 0x1_0000 * hi as u32
}

/// Appends `v` to `out` as two little-endian bytes.
pub fn push_u16_le(out: &mut Vec<u8>, v: u16)
    requires
        old(out)@.len() + 2 <= usize::MAX,
    ensures
        final(out)@.len() == old(out)@.len() + 2,
        final(out)@.subrange(0, old(out)@.len() as int) == old(out)@,
        le16_at(final(out)@, old(out)@.len() as int) == v,
{
    let ghost n = out@.len() as int;
    out.push((v % 0x100) as u8);
    out.push((v / 0x100) as u8);
    assert(final(out)@.subrange(0, n) =~= old(out)@);
    assert(v % 0x100 + 0x100 * (v / 0x100) == v) by {
        vstd::arithmetic::div_mod::lemma_fundamental_div_mod(v as int, 0x100);
    }
}

/// Appends `v` to `out` as four little-endian bytes.
pub fn push_u32_le(out: &mut Vec<u8>, v: u32)
    requires
        old(out)@.len() + 4 <= usize::MAX,
    ensures
        final(out)@.len() == old(out)@.len() + 4,
        final(out)@.subrange(0, old(out)@.len() as int) == old(out)@,
        le32_at(final(out)@, old(out)@.len() as int) == v,
{
    let ghost n = out@.len() as int;
    push_u16_le(out, (v % 0x1_0000) as u16);
    let ghost mid = out@;
    push_u16_le(out, (v / 0x1_0000) as u16);
    assert(final(out)@.subrange(0, n) =~= old(out)@) by {
        assert(mid.subrange(0, n) =~= old(out)@);
        assert(final(out)@.subrange(0, n + 2).subrange(0, n) =~= final(out)@.subrange(0, n));
    }
    assert(le16_at(final(out)@, n) == v % 0x1_0000) by {
        assert(final(out)@.subrange(0, n + 2) =~= mid);
        assert(final(out)@[n] == mid[n] && final(out)@[n + 1] == mid[n + 1]);
    }
    assert(v % 0x1_0000 + 0x1_0000 * (v / 0x1_0000) == v) by {
        vstd::arithmetic::div_mod::lemma_fundamental_div_mod(v as int, 0x1_0000);
    }
}

} // verus!
