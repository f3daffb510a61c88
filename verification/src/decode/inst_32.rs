//! The 32-bit format decoder: field-layout tables for the standard
//! instruction encoding, built on the shared bit primitives.

use vstd::prelude::*;
use vstd::arithmetic::power2::{lemma2_to64, pow2};
use vstd::bits::{
    lemma_u32_low_bits_mask_is_mod, lemma_u32_pow2_no_overflow, lemma_u32_shl_is_mul,
    lemma_u32_shr_is_div, low_bits_mask,
};

use super::{
    imm_signed, only_rv64, spec_gather, spec_imm_signed, spec_only_rv64, spec_slice,
    spec_to_signed, Decode, DecodeUtil, DecodingError,
};
use crate::instruction::{AOpcode, BaseIOpcode, Extensions, Instruction, MOpcode, OpcodeKind};
use crate::Isa;

verus! {

impl DecodeUtil for u32 {
    open spec fn as_nat(self) -> nat {
        self as nat
    }

    open spec fn width(self) -> nat {
        32
    }

    open spec fn spec_extension(self) -> Extensions {
        let op = spec_slice(self as nat, 6, 0);
        let funct7 = spec_slice(self as nat, 31, 25);
        if op == 0x2f {
            Extensions::A
        } else if (op == 0x33 || op == 0x3b) && funct7 == 1 {
            Extensions::M
        } else {
            Extensions::BaseI
        }
    }

    fn slice(self, end: u32, start: u32) -> (r: u32) {
        let shifted: u32 = self >> start;
        let len: u32 = end - start + 1;
        proof {
            lemma_u32_shr_is_div(self, start);
        }
        if len == 32 {
            proof {
                lemma2_to64();
                vstd::arithmetic::div_mod::lemma_small_mod(shifted as nat, pow2(32));
            }
            shifted
        } else {
            proof {
                lemma_u32_pow2_no_overflow(len as nat);
                lemma_u32_shl_is_mul(1u32, len);
                lemma_u32_low_bits_mask_is_mod(shifted, len as nat);
            }
            shifted & ((1u32 << len) - 1)
        }
    }

    fn gather(self, mask: &[u32]) -> (r: u32) {
        let mut res: u32 = 0;
        let mut k: usize = 0;
        proof {
            lemma2_to64();
            assert(mask@.take(0) =~= Seq::<u32>::empty());
        }
        while k < mask.len()
            invariant
                k <= mask@.len(),
                mask@.len() <= 32,
                forall|i: int| 0 <= i < mask@.len() ==> (mask@[i] as nat) < 32,
                res as nat == spec_gather(self as nat, mask@.take(k as int)),
                (res as nat) < pow2(k as nat),
            decreases mask@.len() - k,
        {
            let m: u32 = mask[k];
            let b: u32 = (self >> m) & 1;
            proof {
                lemma_u32_shr_is_div(self, m);
                lemma_u32_low_bits_mask_is_mod(self >> m, 1);
                lemma2_to64();
                assert(low_bits_mask(1) == 1);
                assert(b as nat == (self as nat / pow2(m as nat)) % 2);
                assert(mask@.take(k as int + 1).drop_last() =~= mask@.take(k as int));
                assert(mask@.take(k as int + 1).last() == mask@[k as int]);
                super::lemma_pow2_step_bound(k as nat);
            }
            res = res * 2 + b;
            k = k + 1;
        }
        proof {
            assert(mask@.take(mask@.len() as int) =~= mask@);
        }
        res
    }

    fn extension(self) -> (r: Extensions) {
        let op: u32 = self.slice(6, 0);
        let funct7: u32 = self.slice(31, 25);
        if op == 0x2f {
            Extensions::A
        } else if (op == 0x33 || op == 0x3b) && funct7 == 1 {
            Extensions::M
        } else {
            Extensions::BaseI
        }
    }

    fn to_signed_nbit(self, imm32: i32, bit_size: u32) -> (r: i32) {
        super::to_signed_nbit_impl(imm32, bit_size)
    }
}

} // verus!

verus! {

/// Opcode table of the base integer family, with the ISA-width gate
/// applied to every 64-bit-only mnemonic.
pub open spec fn spec_opcode_base_32(word: u32, isa: Isa) -> Result<OpcodeKind, DecodingError> {
    let v = word as nat;
    let op = spec_slice(v, 6, 0);
    let funct3 = spec_slice(v, 14, 12);
    let funct6 = spec_slice(v, 31, 26);
    let funct7 = spec_slice(v, 31, 25);
    if op == 0x37 {
        Ok(OpcodeKind::BaseI(BaseIOpcode::Lui))
    } else if op == 0x17 {
        Ok(OpcodeKind::BaseI(BaseIOpcode::Auipc))
    } else if op == 0x6f {
        Ok(OpcodeKind::BaseI(BaseIOpcode::Jal))
    } else if op == 0x67 {
        Ok(OpcodeKind::BaseI(BaseIOpcode::Jalr))
    } else if op == 0x63 {
        if funct3 == 0 {
            Ok(OpcodeKind::BaseI(BaseIOpcode::Beq))
        } else if funct3 == 1 {
            Ok(OpcodeKind::BaseI(BaseIOpcode::Bne))
        } else if funct3 == 4 {
            Ok(OpcodeKind::BaseI(BaseIOpcode::Blt))
        } else if funct3 == 5 {
            Ok(OpcodeKind::BaseI(BaseIOpcode::Bge))
        } else if funct3 == 6 {
            Ok(OpcodeKind::BaseI(BaseIOpcode::Bltu))
        } else if funct3 == 7 {
            Ok(OpcodeKind::BaseI(BaseIOpcode::Bgeu))
        } else {
            Err(DecodingError::IllegalFunct3)
        }
    } else if op == 0x03 {
        if funct3 == 0 {
            Ok(OpcodeKind::BaseI(BaseIOpcode::Lb))
        } else if funct3 == 1 {
            Ok(OpcodeKind::BaseI(BaseIOpcode::Lh))
        } else if funct3 == 2 {
            Ok(OpcodeKind::BaseI(BaseIOpcode::Lw))
        } else if funct3 == 3 {
            spec_only_rv64(OpcodeKind::BaseI(BaseIOpcode::Ld), isa)
        } else if funct3 == 4 {
            Ok(OpcodeKind::BaseI(BaseIOpcode::Lbu))
        } else if funct3 == 5 {
            Ok(OpcodeKind::BaseI(BaseIOpcode::Lhu))
        } else if funct3 == 6 {
            spec_only_rv64(OpcodeKind::BaseI(BaseIOpcode::Lwu), isa)
        } else {
            Err(DecodingError::IllegalFunct3)
        }
    } else if op == 0x23 {
        if funct3 == 0 {
            Ok(OpcodeKind::BaseI(BaseIOpcode::Sb))
        } else if funct3 == 1 {
            Ok(OpcodeKind::BaseI(BaseIOpcode::Sh))
        } else if funct3 == 2 {
            Ok(OpcodeKind::BaseI(BaseIOpcode::Sw))
        } else if funct3 == 3 {
            spec_only_rv64(OpcodeKind::BaseI(BaseIOpcode::Sd), isa)
        } else {
            Err(DecodingError::IllegalFunct3)
        }
    } else if op == 0x13 {
        if funct3 == 0 {
            Ok(OpcodeKind::BaseI(BaseIOpcode::Addi))
        } else if funct3 == 1 {
            if funct6 == 0 {
                Ok(OpcodeKind::BaseI(BaseIOpcode::Slli))
            } else {
                Err(DecodingError::IllegalFunct6)
            }
        } else if funct3 == 2 {
            Ok(OpcodeKind::BaseI(BaseIOpcode::Slti))
        } else if funct3 == 3 {
            Ok(OpcodeKind::BaseI(BaseIOpcode::Sltiu))
        } else if funct3 == 4 {
            Ok(OpcodeKind::BaseI(BaseIOpcode::Xori))
        } else if funct3 == 5 {
            if funct6 == 0 {
                Ok(OpcodeKind::BaseI(BaseIOpcode::Srli))
            } else if funct6 == 0x10 {
                Ok(OpcodeKind::BaseI(BaseIOpcode::Srai))
            } else {
                Err(DecodingError::IllegalFunct6)
            }
        } else if funct3 == 6 {
            Ok(OpcodeKind::BaseI(BaseIOpcode::Ori))
        } else {
            Ok(OpcodeKind::BaseI(BaseIOpcode::Andi))
        }
    } else if op == 0x33 {
        if funct3 == 0 {
            if funct7 == 0 {
                Ok(OpcodeKind::BaseI(BaseIOpcode::Add))
            } else if funct7 == 0x20 {
                Ok(OpcodeKind::BaseI(BaseIOpcode::Sub))
            } else {
                Err(DecodingError::IllegalFunct7)
            }
        } else if funct3 == 1 {
            if funct7 == 0 {
                Ok(OpcodeKind::BaseI(BaseIOpcode::Sll))
            } else {
                Err(DecodingError::IllegalFunct7)
            }
        } else if funct3 == 2 {
            if funct7 == 0 {
                Ok(OpcodeKind::BaseI(BaseIOpcode::Slt))
            } else {
                Err(DecodingError::IllegalFunct7)
            }
        } else if funct3 == 3 {
            if funct7 == 0 {
                Ok(OpcodeKind::BaseI(BaseIOpcode::Sltu))
            } else {
                Err(DecodingError::IllegalFunct7)
            }
        } else if funct3 == 4 {
            if funct7 == 0 {
                Ok(OpcodeKind::BaseI(BaseIOpcode::Xor))
            } else {
                Err(DecodingError::IllegalFunct7)
            }
        } else if funct3 == 5 {
            if funct7 == 0 {
                Ok(OpcodeKind::BaseI(BaseIOpcode::Srl))
            } else if funct7 == 0x20 {
                Ok(OpcodeKind::BaseI(BaseIOpcode::Sra))
            } else {
                Err(DecodingError::IllegalFunct7)
            }
        } else if funct3 == 6 {
            if funct7 == 0 {
                Ok(OpcodeKind::BaseI(BaseIOpcode::Or))
            } else {
                Err(DecodingError::IllegalFunct7)
            }
        } else {
            if funct7 == 0 {
                Ok(OpcodeKind::BaseI(BaseIOpcode::And))
            } else {
                Err(DecodingError::IllegalFunct7)
            }
        }
    } else if op == 0x1b {
        if funct3 == 0 {
            spec_only_rv64(OpcodeKind::BaseI(BaseIOpcode::Addiw), isa)
        } else if funct3 == 1 {
            if funct7 == 0 {
                spec_only_rv64(OpcodeKind::BaseI(BaseIOpcode::Slliw), isa)
            } else {
                Err(DecodingError::IllegalFunct7)
            }
        } else if funct3 == 5 {
            if funct7 == 0 {
                spec_only_rv64(OpcodeKind::BaseI(BaseIOpcode::Srliw), isa)
            } else if funct7 == 0x20 {
                spec_only_rv64(OpcodeKind::BaseI(BaseIOpcode::Sraiw), isa)
            } else {
                Err(DecodingError::IllegalFunct7)
            }
        } else {
            Err(DecodingError::IllegalFunct3)
        }
    } else if op == 0x3b {
        if funct3 == 0 {
            if funct7 == 0 {
                spec_only_rv64(OpcodeKind::BaseI(BaseIOpcode::Addw), isa)
            } else if funct7 == 0x20 {
                spec_only_rv64(OpcodeKind::BaseI(BaseIOpcode::Subw), isa)
            } else {
                Err(DecodingError::IllegalFunct7)
            }
        } else if funct3 == 1 {
            if funct7 == 0 {
                spec_only_rv64(OpcodeKind::BaseI(BaseIOpcode::Sllw), isa)
            } else {
                Err(DecodingError::IllegalFunct7)
            }
        } else if funct3 == 5 {
            if funct7 == 0 {
                spec_only_rv64(OpcodeKind::BaseI(BaseIOpcode::Srlw), isa)
            } else if funct7 == 0x20 {
                spec_only_rv64(OpcodeKind::BaseI(BaseIOpcode::Sraw), isa)
            } else {
                Err(DecodingError::IllegalFunct7)
            }
        } else {
            Err(DecodingError::IllegalFunct3)
        }
    } else if op == 0x0f {
        Ok(OpcodeKind::BaseI(BaseIOpcode::Fence))
    } else if op == 0x73 {
        if funct3 == 0 {
            let imm12 = spec_slice(v, 31, 20);
            if imm12 == 0 {
                Ok(OpcodeKind::BaseI(BaseIOpcode::Ecall))
            } else if imm12 == 1 {
                Ok(OpcodeKind::BaseI(BaseIOpcode::Ebreak))
            } else {
                Err(DecodingError::IllegalOpcode)
            }
        } else {
            Err(DecodingError::IllegalFunct3)
        }
    } else {
        Err(DecodingError::IllegalOpcode)
    }
}

/// Opcode table of the multiply / divide family.
pub open spec fn spec_opcode_m_32(word: u32, isa: Isa) -> Result<OpcodeKind, DecodingError> {
    let v = word as nat;
    let op = spec_slice(v, 6, 0);
    let funct3 = spec_slice(v, 14, 12);
    if op == 0x33 {
        if funct3 == 0 {
            Ok(OpcodeKind::M(MOpcode::Mul))
        } else if funct3 == 1 {
            Ok(OpcodeKind::M(MOpcode::Mulh))
        } else if funct3 == 2 {
            Ok(OpcodeKind::M(MOpcode::Mulhsu))
        } else if funct3 == 3 {
            Ok(OpcodeKind::M(MOpcode::Mulhu))
        } else if funct3 == 4 {
            Ok(OpcodeKind::M(MOpcode::Div))
        } else if funct3 == 5 {
            Ok(OpcodeKind::M(MOpcode::Divu))
        } else if funct3 == 6 {
            Ok(OpcodeKind::M(MOpcode::Rem))
        } else {
            Ok(OpcodeKind::M(MOpcode::Remu))
        }
    } else {
        if funct3 == 0 {
            spec_only_rv64(OpcodeKind::M(MOpcode::Mulw), isa)
        } else if funct3 == 4 {
            spec_only_rv64(OpcodeKind::M(MOpcode::Divw), isa)
        } else if funct3 == 5 {
            spec_only_rv64(OpcodeKind::M(MOpcode::Divuw), isa)
        } else if funct3 == 6 {
            spec_only_rv64(OpcodeKind::M(MOpcode::Remw), isa)
        } else if funct3 == 7 {
            spec_only_rv64(OpcodeKind::M(MOpcode::Remuw), isa)
        } else {
            Err(DecodingError::IllegalFunct3)
        }
    }
}

/// Opcode table of the atomic family: funct3 selects the word or
/// doubleword group, funct5 the operation.
pub open spec fn spec_opcode_a_32(word: u32, isa: Isa) -> Result<OpcodeKind, DecodingError> {
    let v = word as nat;
    let funct3 = spec_slice(v, 14, 12);
    let funct5 = spec_slice(v, 31, 27);
    if funct3 == 2 {
        if funct5 == 0 {
            Ok(OpcodeKind::A(AOpcode::AmoaddW))
        } else if funct5 == 1 {
            Ok(OpcodeKind::A(AOpcode::AmoswapW))
        } else if funct5 == 2 {
            Ok(OpcodeKind::A(AOpcode::LrW))
        } else if funct5 == 3 {
            Ok(OpcodeKind::A(AOpcode::ScW))
        } else if funct5 == 4 {
            Ok(OpcodeKind::A(AOpcode::AmoxorW))
        } else if funct5 == 8 {
            Ok(OpcodeKind::A(AOpcode::AmoorW))
        } else if funct5 == 0xc {
            Ok(OpcodeKind::A(AOpcode::AmoandW))
        } else if funct5 == 0x10 {
            Ok(OpcodeKind::A(AOpcode::AmominW))
        } else if funct5 == 0x14 {
            Ok(OpcodeKind::A(AOpcode::AmomaxW))
        } else if funct5 == 0x18 {
            Ok(OpcodeKind::A(AOpcode::AmominuW))
        } else if funct5 == 0x1c {
            Ok(OpcodeKind::A(AOpcode::AmomaxuW))
        } else {
            Err(DecodingError::IllegalFunct5)
        }
    } else if funct3 == 3 {
        if funct5 == 0 {
            spec_only_rv64(OpcodeKind::A(AOpcode::AmoaddD), isa)
        } else if funct5 == 1 {
            spec_only_rv64(OpcodeKind::A(AOpcode::AmoswapD), isa)
        } else if funct5 == 2 {
            spec_only_rv64(OpcodeKind::A(AOpcode::LrD), isa)
        } else if funct5 == 3 {
            spec_only_rv64(OpcodeKind::A(AOpcode::ScD), isa)
        } else if funct5 == 4 {
            spec_only_rv64(OpcodeKind::A(AOpcode::AmoxorD), isa)
        } else if funct5 == 8 {
            spec_only_rv64(OpcodeKind::A(AOpcode::AmoorD), isa)
        } else if funct5 == 0xc {
            spec_only_rv64(OpcodeKind::A(AOpcode::AmoandD), isa)
        } else if funct5 == 0x10 {
            spec_only_rv64(OpcodeKind::A(AOpcode::AmominD), isa)
        } else if funct5 == 0x14 {
            spec_only_rv64(OpcodeKind::A(AOpcode::AmomaxD), isa)
        } else if funct5 == 0x18 {
            spec_only_rv64(OpcodeKind::A(AOpcode::AmominuD), isa)
        } else if funct5 == 0x1c {
            spec_only_rv64(OpcodeKind::A(AOpcode::AmomaxuD), isa)
        } else {
            Err(DecodingError::IllegalFunct5)
        }
    } else {
        Err(DecodingError::IllegalFunct3)
    }
}

} // verus!

verus! {

/// Resolves a base-integer-family word against its opcode table.
fn opcode_base_32(word: u32, isa: Isa) -> (res: Result<OpcodeKind, DecodingError>)
    ensures
        res == spec_opcode_base_32(word, isa),
{
    let op: u32 = word.slice(6, 0);
    let funct3: u32 = word.slice(14, 12);
    let funct6: u32 = word.slice(31, 26);
    let funct7: u32 = word.slice(31, 25);
    if op == 0x37 {
        Ok(OpcodeKind::BaseI(BaseIOpcode::Lui))
    } else if op == 0x17 {
        Ok(OpcodeKind::BaseI(BaseIOpcode::Auipc))
    } else if op == 0x6f {
        Ok(OpcodeKind::BaseI(BaseIOpcode::Jal))
    } else if op == 0x67 {
        Ok(OpcodeKind::BaseI(BaseIOpcode::Jalr))
    } else if op == 0x63 {
        if funct3 == 0 {
            Ok(OpcodeKind::BaseI(BaseIOpcode::Beq))
        } else if funct3 == 1 {
            Ok(OpcodeKind::BaseI(BaseIOpcode::Bne))
        } else if funct3 == 4 {
            Ok(OpcodeKind::BaseI(BaseIOpcode::Blt))
        } else if funct3 == 5 {
            Ok(OpcodeKind::BaseI(BaseIOpcode::Bge))
        } else if funct3 == 6 {
            Ok(OpcodeKind::BaseI(BaseIOpcode::Bltu))
        } else if funct3 == 7 {
            Ok(OpcodeKind::BaseI(BaseIOpcode::Bgeu))
        } else {
            Err(DecodingError::IllegalFunct3)
        }
    } else if op == 0x03 {
        if funct3 == 0 {
            Ok(OpcodeKind::BaseI(BaseIOpcode::Lb))
        } else if funct3 == 1 {
            Ok(OpcodeKind::BaseI(BaseIOpcode::Lh))
        } else if funct3 == 2 {
            Ok(OpcodeKind::BaseI(BaseIOpcode::Lw))
        } else if funct3 == 3 {
            only_rv64(OpcodeKind::BaseI(BaseIOpcode::Ld), isa)
        } else if funct3 == 4 {
            Ok(OpcodeKind::BaseI(BaseIOpcode::Lbu))
        } else if funct3 == 5 {
            Ok(OpcodeKind::BaseI(BaseIOpcode::Lhu))
        } else if funct3 == 6 {
            only_rv64(OpcodeKind::BaseI(BaseIOpcode::Lwu), isa)
        } else {
            Err(DecodingError::IllegalFunct3)
        }
    } else if op == 0x23 {
        if funct3 == 0 {
            Ok(OpcodeKind::BaseI(BaseIOpcode::Sb))
        } else if funct3 == 1 {
            Ok(OpcodeKind::BaseI(BaseIOpcode::Sh))
        } else if funct3 == 2 {
            Ok(OpcodeKind::BaseI(BaseIOpcode::Sw))
        } else if funct3 == 3 {
            only_rv64(OpcodeKind::BaseI(BaseIOpcode::Sd), isa)
        } else {
            Err(DecodingError::IllegalFunct3)
        }
    } else if op == 0x13 {
        if funct3 == 0 {
            Ok(OpcodeKind::BaseI(BaseIOpcode::Addi))
        } else if funct3 == 1 {
            if funct6 == 0 {
                Ok(OpcodeKind::BaseI(BaseIOpcode::Slli))
            } else {
                Err(DecodingError::IllegalFunct6)
            }
        } else if funct3 == 2 {
            Ok(OpcodeKind::BaseI(BaseIOpcode::Slti))
        } else if funct3 == 3 {
            Ok(OpcodeKind::BaseI(BaseIOpcode::Sltiu))
        } else if funct3 == 4 {
            Ok(OpcodeKind::BaseI(BaseIOpcode::Xori))
        } else if funct3 == 5 {
            if funct6 == 0 {
                Ok(OpcodeKind::BaseI(BaseIOpcode::Srli))
            } else if funct6 == 0x10 {
                Ok(OpcodeKind::BaseI(BaseIOpcode::Srai))
            } else {
                Err(DecodingError::IllegalFunct6)
            }
        } else if funct3 == 6 {
            Ok(OpcodeKind::BaseI(BaseIOpcode::Ori))
        } else {
            Ok(OpcodeKind::BaseI(BaseIOpcode::Andi))
        }
    } else if op == 0x33 {
        if funct3 == 0 {
            if funct7 == 0 {
                Ok(OpcodeKind::BaseI(BaseIOpcode::Add))
            } else if funct7 == 0x20 {
                Ok(OpcodeKind::BaseI(BaseIOpcode::Sub))
            } else {
                Err(DecodingError::IllegalFunct7)
            }
        } else if funct3 == 1 {
            if funct7 == 0 {
                Ok(OpcodeKind::BaseI(BaseIOpcode::Sll))
            } else {
                Err(DecodingError::IllegalFunct7)
            }
        } else if funct3 == 2 {
            if funct7 == 0 {
                Ok(OpcodeKind::BaseI(BaseIOpcode::Slt))
            } else {
                Err(DecodingError::IllegalFunct7)
            }
        } else if funct3 == 3 {
            if funct7 == 0 {
                Ok(OpcodeKind::BaseI(BaseIOpcode::Sltu))
            } else {
                Err(DecodingError::IllegalFunct7)
            }
        } else if funct3 == 4 {
            if funct7 == 0 {
                Ok(OpcodeKind::BaseI(BaseIOpcode::Xor))
            } else {
                Err(DecodingError::IllegalFunct7)
            }
        } else if funct3 == 5 {
            if funct7 == 0 {
                Ok(OpcodeKind::BaseI(BaseIOpcode::Srl))
            } else if funct7 == 0x20 {
                Ok(OpcodeKind::BaseI(BaseIOpcode::Sra))
            } else {
                Err(DecodingError::IllegalFunct7)
            }
        } else if funct3 == 6 {
            if funct7 == 0 {
                Ok(OpcodeKind::BaseI(BaseIOpcode::Or))
            } else {
                Err(DecodingError::IllegalFunct7)
            }
        } else {
            if funct7 == 0 {
                Ok(OpcodeKind::BaseI(BaseIOpcode::And))
            } else {
                Err(DecodingError::IllegalFunct7)
            }
        }
    } else if op == 0x1b {
        if funct3 == 0 {
            only_rv64(OpcodeKind::BaseI(BaseIOpcode::Addiw), isa)
        } else if funct3 == 1 {
            if funct7 == 0 {
                only_rv64(OpcodeKind::BaseI(BaseIOpcode::Slliw), isa)
            } else {
                Err(DecodingError::IllegalFunct7)
            }
        } else if funct3 == 5 {
            if funct7 == 0 {
                only_rv64(OpcodeKind::BaseI(BaseIOpcode::Srliw), isa)
            } else if funct7 == 0x20 {
                only_rv64(OpcodeKind::BaseI(BaseIOpcode::Sraiw), isa)
            } else {
                Err(DecodingError::IllegalFunct7)
            }
        } else {
            Err(DecodingError::IllegalFunct3)
        }
    } else if op == 0x3b {
        if funct3 == 0 {
            if funct7 == 0 {
                only_rv64(OpcodeKind::BaseI(BaseIOpcode::Addw), isa)
            } else if funct7 == 0x20 {
                only_rv64(OpcodeKind::BaseI(BaseIOpcode::Subw), isa)
            } else {
                Err(DecodingError::IllegalFunct7)
            }
        } else if funct3 == 1 {
            if funct7 == 0 {
                only_rv64(OpcodeKind::BaseI(BaseIOpcode::Sllw), isa)
            } else {
                Err(DecodingError::IllegalFunct7)
            }
        } else if funct3 == 5 {
            if funct7 == 0 {
                only_rv64(OpcodeKind::BaseI(BaseIOpcode::Srlw), isa)
            } else if funct7 == 0x20 {
                only_rv64(OpcodeKind::BaseI(BaseIOpcode::Sraw), isa)
            } else {
                Err(DecodingError::IllegalFunct7)
            }
        } else {
            Err(DecodingError::IllegalFunct3)
        }
    } else if op == 0x0f {
        Ok(OpcodeKind::BaseI(BaseIOpcode::Fence))
    } else if op == 0x73 {
        if funct3 == 0 {
            let imm12: u32 = word.slice(31, 20);
            if imm12 == 0 {
                Ok(OpcodeKind::BaseI(BaseIOpcode::Ecall))
            } else if imm12 == 1 {
                Ok(OpcodeKind::BaseI(BaseIOpcode::Ebreak))
            } else {
                Err(DecodingError::IllegalOpcode)
            }
        } else {
            Err(DecodingError::IllegalFunct3)
        }
    } else {
        Err(DecodingError::IllegalOpcode)
    }
}

/// Resolves a multiply / divide-family word against its opcode table.
fn opcode_m_32(word: u32, isa: Isa) -> (res: Result<OpcodeKind, DecodingError>)
    ensures
        res == spec_opcode_m_32(word, isa),
{
    let op: u32 = word.slice(6, 0);
    let funct3: u32 = word.slice(14, 12);
    if op == 0x33 {
        if funct3 == 0 {
            Ok(OpcodeKind::M(MOpcode::Mul))
        } else if funct3 == 1 {
            Ok(OpcodeKind::M(MOpcode::Mulh))
        } else if funct3 == 2 {
            Ok(OpcodeKind::M(MOpcode::Mulhsu))
        } else if funct3 == 3 {
            Ok(OpcodeKind::M(MOpcode::Mulhu))
        } else if funct3 == 4 {
            Ok(OpcodeKind::M(MOpcode::Div))
        } else if funct3 == 5 {
            Ok(OpcodeKind::M(MOpcode::Divu))
        } else if funct3 == 6 {
            Ok(OpcodeKind::M(MOpcode::Rem))
        } else {
            Ok(OpcodeKind::M(MOpcode::Remu))
        }
    } else {
        if funct3 == 0 {
            only_rv64(OpcodeKind::M(MOpcode::Mulw), isa)
        } else if funct3 == 4 {
            only_rv64(OpcodeKind::M(MOpcode::Divw), isa)
        } else if funct3 == 5 {
            only_rv64(OpcodeKind::M(MOpcode::Divuw), isa)
        } else if funct3 == 6 {
            only_rv64(OpcodeKind::M(MOpcode::Remw), isa)
        } else if funct3 == 7 {
            only_rv64(OpcodeKind::M(MOpcode::Remuw), isa)
        } else {
            Err(DecodingError::IllegalFunct3)
        }
    }
}

/// Resolves an atomic-family word against its opcode table.
fn opcode_a_32(word: u32, isa: Isa) -> (res: Result<OpcodeKind, DecodingError>)
    ensures
        res == spec_opcode_a_32(word, isa),
{
    let funct3: u32 = word.slice(14, 12);
    let funct5: u32 = word.slice(31, 27);
    if funct3 == 2 {
        if funct5 == 0 {
            Ok(OpcodeKind::A(AOpcode::AmoaddW))
        } else if funct5 == 1 {
            Ok(OpcodeKind::A(AOpcode::AmoswapW))
        } else if funct5 == 2 {
            Ok(OpcodeKind::A(AOpcode::LrW))
        } else if funct5 == 3 {
            Ok(OpcodeKind::A(AOpcode::ScW))
        } else if funct5 == 4 {
            Ok(OpcodeKind::A(AOpcode::AmoxorW))
        } else if funct5 == 8 {
            Ok(OpcodeKind::A(AOpcode::AmoorW))
        } else if funct5 == 0xc {
            Ok(OpcodeKind::A(AOpcode::AmoandW))
        } else if funct5 == 0x10 {
            Ok(OpcodeKind::A(AOpcode::AmominW))
        } else if funct5 == 0x14 {
            Ok(OpcodeKind::A(AOpcode::AmomaxW))
        } else if funct5 == 0x18 {
            Ok(OpcodeKind::A(AOpcode::AmominuW))
        } else if funct5 == 0x1c {
            Ok(OpcodeKind::A(AOpcode::AmomaxuW))
        } else {
            Err(DecodingError::IllegalFunct5)
        }
    } else if funct3 == 3 {
        if funct5 == 0 {
            only_rv64(OpcodeKind::A(AOpcode::AmoaddD), isa)
        } else if funct5 == 1 {
            only_rv64(OpcodeKind::A(AOpcode::AmoswapD), isa)
        } else if funct5 == 2 {
            only_rv64(OpcodeKind::A(AOpcode::LrD), isa)
        } else if funct5 == 3 {
            only_rv64(OpcodeKind::A(AOpcode::ScD), isa)
        } else if funct5 == 4 {
            only_rv64(OpcodeKind::A(AOpcode::AmoxorD), isa)
        } else if funct5 == 8 {
            only_rv64(OpcodeKind::A(AOpcode::AmoorD), isa)
        } else if funct5 == 0xc {
            only_rv64(OpcodeKind::A(AOpcode::AmoandD), isa)
        } else if funct5 == 0x10 {
            only_rv64(OpcodeKind::A(AOpcode::AmominD), isa)
        } else if funct5 == 0x14 {
            only_rv64(OpcodeKind::A(AOpcode::AmomaxD), isa)
        } else if funct5 == 0x18 {
            only_rv64(OpcodeKind::A(AOpcode::AmominuD), isa)
        } else if funct5 == 0x1c {
            only_rv64(OpcodeKind::A(AOpcode::AmomaxuD), isa)
        } else {
            Err(DecodingError::IllegalFunct5)
        }
    } else {
        Err(DecodingError::IllegalFunct3)
    }
}

} // verus!

verus! {

impl Decode for u32 {
    open spec fn spec_parse_opcode(self, isa: Isa) -> Result<OpcodeKind, DecodingError> {
        if spec_slice(self as nat, 1, 0) != 3 {
            Err(DecodingError::Not32BitInst)
        } else {
            match self.spec_extension() {
                Extensions::M => spec_opcode_m_32(self, isa),
                Extensions::A => spec_opcode_a_32(self, isa),
                _ => spec_opcode_base_32(self, isa),
            }
        }
    }

    open spec fn spec_parse_rd(self, opkind: OpcodeKind) -> Result<Option<usize>, DecodingError> {
        let rd = spec_slice(self as nat, 11, 7) as usize;
        match opkind {
            OpcodeKind::BaseI(
                BaseIOpcode::Beq | BaseIOpcode::Bne | BaseIOpcode::Blt | BaseIOpcode::Bge
                    | BaseIOpcode::Bltu | BaseIOpcode::Bgeu | BaseIOpcode::Sb | BaseIOpcode::Sh
                    | BaseIOpcode::Sw | BaseIOpcode::Sd | BaseIOpcode::Fence | BaseIOpcode::Ecall
                    | BaseIOpcode::Ebreak,
            ) => Ok(None),
            _ => Ok(Some(rd)),
        }
    }

    open spec fn spec_parse_rs1(self, opkind: OpcodeKind) -> Result<Option<usize>, DecodingError> {
        let rs1 = spec_slice(self as nat, 19, 15) as usize;
        match opkind {
            OpcodeKind::BaseI(
                BaseIOpcode::Lui | BaseIOpcode::Auipc | BaseIOpcode::Jal | BaseIOpcode::Fence
                    | BaseIOpcode::Ecall | BaseIOpcode::Ebreak,
            ) => Ok(None),
            _ => Ok(Some(rs1)),
        }
    }

    open spec fn spec_parse_rs2(self, opkind: OpcodeKind) -> Result<Option<usize>, DecodingError> {
        let rs2 = spec_slice(self as nat, 24, 20) as usize;
        match opkind {
            OpcodeKind::BaseI(
                BaseIOpcode::Beq | BaseIOpcode::Bne | BaseIOpcode::Blt | BaseIOpcode::Bge
                    | BaseIOpcode::Bltu | BaseIOpcode::Bgeu | BaseIOpcode::Sb | BaseIOpcode::Sh
                    | BaseIOpcode::Sw | BaseIOpcode::Sd | BaseIOpcode::Add | BaseIOpcode::Sub
                    | BaseIOpcode::Sll | BaseIOpcode::Slt | BaseIOpcode::Sltu | BaseIOpcode::Xor
                    | BaseIOpcode::Srl | BaseIOpcode::Sra | BaseIOpcode::Or | BaseIOpcode::And
                    | BaseIOpcode::Addw | BaseIOpcode::Subw | BaseIOpcode::Sllw | BaseIOpcode::Srlw
                    | BaseIOpcode::Sraw,
            ) => Ok(Some(rs2)),
            OpcodeKind::M(_) => Ok(Some(rs2)),
            OpcodeKind::A(AOpcode::LrW | AOpcode::LrD) => Ok(None),
            OpcodeKind::A(_) => Ok(Some(rs2)),
            _ => Ok(None),
        }
    }

    open spec fn spec_parse_imm(self, opkind: OpcodeKind, isa: Isa) -> Result<
        Option<i32>,
        DecodingError,
    > {
        let v = self as nat;
        match opkind {
            OpcodeKind::BaseI(BaseIOpcode::Lui | BaseIOpcode::Auipc) => Ok(
                Some(spec_to_signed(spec_slice(v, 31, 12) as u32, 20)),
            ),
            OpcodeKind::BaseI(BaseIOpcode::Jal) => Ok(
                Some(
                    spec_imm_signed(
                        v,
                        seq![
                            31u32, 19u32, 18u32, 17u32, 16u32, 15u32, 14u32, 13u32, 12u32, 20u32,
                            30u32, 29u32, 28u32, 27u32, 26u32, 25u32, 24u32, 23u32, 22u32, 21u32,
                        ],
                        1,
                        21,
                    ),
                ),
            ),
            OpcodeKind::BaseI(
                BaseIOpcode::Jalr | BaseIOpcode::Lb | BaseIOpcode::Lh | BaseIOpcode::Lw
                    | BaseIOpcode::Lbu | BaseIOpcode::Lhu | BaseIOpcode::Lwu | BaseIOpcode::Ld
                    | BaseIOpcode::Addi | BaseIOpcode::Slti | BaseIOpcode::Sltiu | BaseIOpcode::Xori
                    | BaseIOpcode::Ori | BaseIOpcode::Andi | BaseIOpcode::Addiw,
            ) => Ok(Some(spec_to_signed(spec_slice(v, 31, 20) as u32, 12))),
            OpcodeKind::BaseI(BaseIOpcode::Slli | BaseIOpcode::Srli | BaseIOpcode::Srai) => Ok(
                Some(spec_slice(v, 25, 20) as i32),
            ),
            OpcodeKind::BaseI(BaseIOpcode::Slliw | BaseIOpcode::Srliw | BaseIOpcode::Sraiw) => Ok(
                Some(spec_slice(v, 24, 20) as i32),
            ),
            OpcodeKind::BaseI(
                BaseIOpcode::Sb | BaseIOpcode::Sh | BaseIOpcode::Sw | BaseIOpcode::Sd,
            ) => Ok(
                Some(
                    spec_imm_signed(
                        v,
                        seq![
                            31u32, 30u32, 29u32, 28u32, 27u32, 26u32, 25u32, 11u32, 10u32, 9u32,
                            8u32, 7u32,
                        ],
                        0,
                        12,
                    ),
                ),
            ),
            OpcodeKind::BaseI(
                BaseIOpcode::Beq | BaseIOpcode::Bne | BaseIOpcode::Blt | BaseIOpcode::Bge
                    | BaseIOpcode::Bltu | BaseIOpcode::Bgeu,
            ) => Ok(
                Some(
                    spec_imm_signed(
                        v,
                        seq![
                            31u32, 7u32, 30u32, 29u32, 28u32, 27u32, 26u32, 25u32, 11u32, 10u32,
                            9u32, 8u32,
                        ],
                        1,
                        13,
                    ),
                ),
            ),
            _ => Ok(None),
        }
    }

    fn decode(&self, isa: Isa) -> (res: Result<Instruction, DecodingError>) {
        let opc = match self.parse_opcode(isa) {
            Ok(o) => o,
            Err(e) => {
                return Err(e);
            },
        };
        let rd = match self.parse_rd(&opc) {
            Ok(r) => r,
            Err(e) => {
                return Err(e);
            },
        };
        let rs1 = match self.parse_rs1(&opc) {
            Ok(r) => r,
            Err(e) => {
                return Err(e);
            },
        };
        let rs2 = match self.parse_rs2(&opc) {
            Ok(r) => r,
            Err(e) => {
                return Err(e);
            },
        };
        let imm = match self.parse_imm(&opc, isa) {
            Ok(i) => i,
            Err(e) => {
                return Err(e);
            },
        };
        Ok(Instruction { opc, rd, rs1, rs2, imm })
    }

    fn parse_opcode(self, isa: Isa) -> (res: Result<OpcodeKind, DecodingError>) {
        if self.slice(1, 0) != 3 {
            return Err(DecodingError::Not32BitInst);
        }
        match self.extension() {
            Extensions::M => opcode_m_32(self, isa),
            Extensions::A => opcode_a_32(self, isa),
            _ => opcode_base_32(self, isa),
        }
    }

    fn parse_rd(self, opkind: &OpcodeKind) -> (res: Result<Option<usize>, DecodingError>) {
        let rd: usize = self.slice(11, 7) as usize;
        match opkind {
            OpcodeKind::BaseI(
                BaseIOpcode::Beq | BaseIOpcode::Bne | BaseIOpcode::Blt | BaseIOpcode::Bge
                    | BaseIOpcode::Bltu | BaseIOpcode::Bgeu | BaseIOpcode::Sb | BaseIOpcode::Sh
                    | BaseIOpcode::Sw | BaseIOpcode::Sd | BaseIOpcode::Fence | BaseIOpcode::Ecall
                    | BaseIOpcode::Ebreak,
            ) => Ok(None),
            _ => Ok(Some(rd)),
        }
    }

    fn parse_rs1(self, opkind: &OpcodeKind) -> (res: Result<Option<usize>, DecodingError>) {
        let rs1: usize = self.slice(19, 15) as usize;
        match opkind {
            OpcodeKind::BaseI(
                BaseIOpcode::Lui | BaseIOpcode::Auipc | BaseIOpcode::Jal | BaseIOpcode::Fence
                    | BaseIOpcode::Ecall | BaseIOpcode::Ebreak,
            ) => Ok(None),
            _ => Ok(Some(rs1)),
        }
    }

    fn parse_rs2(self, opkind: &OpcodeKind) -> (res: Result<Option<usize>, DecodingError>) {
        let rs2: usize = self.slice(24, 20) as usize;
        match opkind {
            OpcodeKind::BaseI(
                BaseIOpcode::Beq | BaseIOpcode::Bne | BaseIOpcode::Blt | BaseIOpcode::Bge
                    | BaseIOpcode::Bltu | BaseIOpcode::Bgeu | BaseIOpcode::Sb | BaseIOpcode::Sh
                    | BaseIOpcode::Sw | BaseIOpcode::Sd | BaseIOpcode::Add | BaseIOpcode::Sub
                    | BaseIOpcode::Sll | BaseIOpcode::Slt | BaseIOpcode::Sltu | BaseIOpcode::Xor
                    | BaseIOpcode::Srl | BaseIOpcode::Sra | BaseIOpcode::Or | BaseIOpcode::And
                    | BaseIOpcode::Addw | BaseIOpcode::Subw | BaseIOpcode::Sllw | BaseIOpcode::Srlw
                    | BaseIOpcode::Sraw,
            ) => Ok(Some(rs2)),
            OpcodeKind::M(_) => Ok(Some(rs2)),
            OpcodeKind::A(AOpcode::LrW | AOpcode::LrD) => Ok(None),
            OpcodeKind::A(_) => Ok(Some(rs2)),
            _ => Ok(None),
        }
    }

    fn parse_imm(self, opkind: &OpcodeKind, isa: Isa) -> (res: Result<Option<i32>, DecodingError>) {
        proof {
            vstd::arithmetic::power2::lemma2_to64();
        }
        match opkind {
            OpcodeKind::BaseI(BaseIOpcode::Lui | BaseIOpcode::Auipc) => {
                let upper: u32 = self.slice(31, 12);
                Ok(Some(self.to_signed_nbit(upper as i32, 20)))
            },
            OpcodeKind::BaseI(BaseIOpcode::Jal) => Ok(
                Some(
                    imm_signed(
                        self,
                        &[
                            31u32, 19u32, 18u32, 17u32, 16u32, 15u32, 14u32, 13u32, 12u32, 20u32,
                            30u32, 29u32, 28u32, 27u32, 26u32, 25u32, 24u32, 23u32, 22u32, 21u32,
                        ],
                        1,
                        21,
                    ),
                ),
            ),
            OpcodeKind::BaseI(
                BaseIOpcode::Jalr | BaseIOpcode::Lb | BaseIOpcode::Lh | BaseIOpcode::Lw
                    | BaseIOpcode::Lbu | BaseIOpcode::Lhu | BaseIOpcode::Lwu | BaseIOpcode::Ld
                    | BaseIOpcode::Addi | BaseIOpcode::Slti | BaseIOpcode::Sltiu | BaseIOpcode::Xori
                    | BaseIOpcode::Ori | BaseIOpcode::Andi | BaseIOpcode::Addiw,
            ) => {
                let low: u32 = self.slice(31, 20);
                Ok(Some(self.to_signed_nbit(low as i32, 12)))
            },
            OpcodeKind::BaseI(BaseIOpcode::Slli | BaseIOpcode::Srli | BaseIOpcode::Srai) => {
                let shamt: u32 = self.slice(25, 20);
                Ok(Some(shamt as i32))
            },
            OpcodeKind::BaseI(BaseIOpcode::Slliw | BaseIOpcode::Srliw | BaseIOpcode::Sraiw) => {
                let shamt: u32 = self.slice(24, 20);
                Ok(Some(shamt as i32))
            },
            OpcodeKind::BaseI(
                BaseIOpcode::Sb | BaseIOpcode::Sh | BaseIOpcode::Sw | BaseIOpcode::Sd,
            ) => Ok(
                Some(
                    imm_signed(
                        self,
                        &[
                            31u32, 30u32, 29u32, 28u32, 27u32, 26u32, 25u32, 11u32, 10u32, 9u32,
                            8u32, 7u32,
                        ],
                        0,
                        12,
                    ),
                ),
            ),
            OpcodeKind::BaseI(
                BaseIOpcode::Beq | BaseIOpcode::Bne | BaseIOpcode::Blt | BaseIOpcode::Bge
                    | BaseIOpcode::Bltu | BaseIOpcode::Bgeu,
            ) => Ok(
                Some(
                    imm_signed(
                        self,
                        &[
                            31u32, 7u32, 30u32, 29u32, 28u32, 27u32, 26u32, 25u32, 11u32, 10u32,
                            9u32, 8u32,
                        ],
                        1,
                        13,
                    ),
                ),
            ),
            _ => Ok(None),
        }
    }
}

} // verus!
