//! Decoded-instruction data model: extension families, opcode identities and
//! the assembled [`Instruction`] value.

use vstd::prelude::*;

verus! {

/// ISA extension family an opcode belongs to.
#[derive(Debug, Clone, Copy, PartialEq, Eq)]
pub enum Extensions {
    /// Base integer instruction set.
    BaseI,
    /// Multiply / divide extension.
    M,
    /// Atomic extension.
    A,
    /// Compressed (16-bit) extension.
    C,
}

/// Mnemonics of the base integer instruction set, including the
/// word-narrowed variants that only exist under the 64-bit ISA.
#[derive(Debug, Clone, Copy, PartialEq, Eq)]
pub enum BaseIOpcode {
    Lui,
    Auipc,
    Jal,
    Jalr,
    Beq,
    Bne,
    Blt,
    Bge,
    Bltu,
    Bgeu,
    Lb,
    Lh,
    Lw,
    Lbu,
    Lhu,
    Lwu,
    Ld,
    Sb,
    Sh,
    Sw,
    Sd,
    Addi,
    Slti,
    Sltiu,
    Xori,
    Ori,
    Andi,
    Slli,
    Srli,
    Srai,
    Add,
    Sub,
    Sll,
    Slt,
    Sltu,
    Xor,
    Srl,
    Sra,
    Or,
    And,
    Fence,
    Ecall,
    Ebreak,
    Addiw,
    Slliw,
    Srliw,
    Sraiw,
    Addw,
    Subw,
    Sllw,
    Srlw,
    Sraw,
}

/// Mnemonics of the multiply / divide extension.
#[derive(Debug, Clone, Copy, PartialEq, Eq)]
pub enum MOpcode {
    Mul,
    Mulh,
    Mulhsu,
    Mulhu,
    Div,
    Divu,
    Rem,
    Remu,
    Mulw,
    Divw,
    Divuw,
    Remw,
    Remuw,
}

/// Mnemonics of the atomic extension.
#[derive(Debug, Clone, Copy, PartialEq, Eq)]
pub enum AOpcode {
    LrW,
    ScW,
    AmoswapW,
    AmoaddW,
    AmoxorW,
    AmoandW,
    AmoorW,
    AmominW,
    AmomaxW,
    AmominuW,
    AmomaxuW,
    LrD,
    ScD,
    AmoswapD,
    AmoaddD,
    AmoxorD,
    AmoandD,
    AmoorD,
    AmominD,
    AmomaxD,
    AmominuD,
    AmomaxuD,
}

/// Mnemonics of the compressed (16-bit) extension.
#[derive(Debug, Clone, Copy, PartialEq, Eq)]
pub enum COpcode {
    CAddi4spn,
    CLw,
    CSw,
    CLd,
    CSd,
    CAddi,
    CJal,
    CAddiw,
    CLi,
    CAddi16sp,
    CLui,
    CSrli,
    CSrai,
    CAndi,
    CSub,
    CXor,
    COr,
    CAnd,
    CSubw,
    CAddw,
    CJ,
    CBeqz,
    CBnez,
    CSlli,
    CLwsp,
    CLdsp,
    CJr,
    CMv,
    CEbreak,
    CJalr,
    CAdd,
    CSwsp,
    CSdsp,
}

/// One specific instruction mnemonic, tagged with the extension family it
/// belongs to.
#[derive(Debug, Clone, Copy, PartialEq, Eq)]
pub enum OpcodeKind {
    BaseI(BaseIOpcode),
    M(MOpcode),
    A(AOpcode),
    C(COpcode),
}

/// Result of a successful decode: the opcode identity plus whichever
/// operand fields apply to it.  A field that the opcode's format does not
/// carry is `None`.
#[derive(Debug, Clone, Copy, PartialEq, Eq)]
pub struct Instruction {
    /// Resolved opcode identity.
    pub opc: OpcodeKind,
    /// Destination register index, when the format has one.
    pub rd: Option<usize>,
    /// First source register index, when the format has one.
    pub rs1: Option<usize>,
    /// Second source register index, when the format has one.
    pub rs2: Option<usize>,
    /// Sign-extended immediate, when the format has one.
    pub imm: Option<i32>,
}

} // verus!
