//! The text-rendering collaborators.
//!
//! Package-name payloads are kept as their exact bytes by the TLV
//! walker; turning them into text is lossy UTF-8 decoding, recovered
//! locally (invalid sequences become replacement characters, never a
//! parse failure).  Rendering arbitrary bytes as a human-readable hex
//! dump is outside this library's scope and is consumed as a
//! capability, provided by the `pretty-hex` crate.

use vstd::prelude::*;

verus! {

/// The text that lossy UTF-8 decoding yields for `b`.  The decoding
/// depends on the bytes alone.
pub uninterp spec fn lossy_utf8_of(b: Seq<u8>) -> Seq<char>;

/// Relies on `String::from_utf8_lossy`: invalid UTF-8 sequences are
/// replaced, never an error, and ASCII bytes decode to themselves.
#[verifier::external_body]
pub(crate) fn utf8_lossy(b: &[u8]) -> (r: String)
    ensures
        r@ == lossy_utf8_of(b@),
        (forall|i: int| 0 <= i < b@.len() ==> b@[i] < 0x80) ==> (r@.len() == b@.len()
            && (forall|i: int| 0 <= i < b@.len() ==> r@[i] == b@[i] as char)),
{
    String::from_utf8_lossy(b).into_owned()
}

/// The hex dump that `pretty-hex` renders for `b`.  The dump depends
/// on the bytes alone.
pub uninterp spec fn hex_dump_of(b: Seq<u8>) -> Seq<char>;

/// Relies on `pretty_hex::pretty_hex`: a multi-line dump with a length
/// title, addressing, hex digits and an ASCII column, a pure function
/// of the bytes.
#[verifier::external_body]
pub(crate) fn render_hex_dump(b: &[u8]) -> (r: String)
    ensures
        r@ == hex_dump_of(b@),
{
    pretty_hex::pretty_hex(&b)
}

} // verus!
