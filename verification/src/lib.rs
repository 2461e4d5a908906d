//! Inspector for Tock Binary Format (TBF) images.
//!
//! A TBF image begins with a fixed 16-byte base header, followed by a
//! Type-Length-Value metadata block bounded by the declared header size,
//! an optional protected (padding) region, a fixed 40-byte layout
//! descriptor, the executable code, and any trailing bytes.  This crate
//! decodes those structures from a byte buffer, computes the code and
//! trailing byte ranges, and hands the code range to a RISC-V instruction
//! decoder and the trailing range to a hex-dump renderer.

pub mod bytes;
pub mod disasm;
pub mod header;
pub mod image;
pub mod text;
pub mod tlv;
