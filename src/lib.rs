//! A disassembler library for WE32100 COFF object files: a reader for the
//! container (headers, sections, symbols, strings), a decoder for the
//! instruction stream, and text renderings of both.
use vstd::prelude::*;

pub mod coff;
pub mod container;
pub mod cursor;
pub mod decode;
pub mod dump;
pub mod errors;
pub mod mnemonics;
pub mod render;
pub mod strtab;
pub mod symbol;
pub mod text;
pub mod we32k;

verus! {

} // verus!
