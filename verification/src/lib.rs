//! Decoder core for RISC-V machine words.
//!
//! A client hands a raw 16-bit or 32-bit word and the active ISA width to
//! [`decode::Decode::decode`] and receives either a fully resolved
//! [`instruction::Instruction`] or a precise [`decode::DecodingError`].

use vstd::prelude::*;

pub mod decode;
pub mod instruction;

verus! {

/// Address-space width the decoder is running under.
#[derive(Debug, Clone, Copy, PartialEq, Eq)]
pub enum Isa {
    /// 32-bit address space.
    Rv32,
    /// 64-bit address space.
    Rv64,
}

} // verus!
