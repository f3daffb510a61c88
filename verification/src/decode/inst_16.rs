//! The 16-bit (compressed) format decoder: field-layout tables for the
//! compressed instruction encoding, built on the shared bit primitives.

use vstd::prelude::*;
use vstd::arithmetic::power2::{lemma2_to64, pow2};
use vstd::bits::{
    lemma_u16_low_bits_mask_is_mod, lemma_u16_pow2_no_overflow, lemma_u16_shl_is_mul,
    lemma_u16_shr_is_div, lemma_u32_low_bits_mask_is_mod, lemma_u32_shr_is_div, low_bits_mask,
};

use super::{
    imm_signed, imm_unsigned, only_rv64, spec_gather, spec_imm_signed, spec_imm_unsigned,
    spec_only_rv64, spec_slice, Decode, DecodeUtil, DecodingError,
};
use crate::instruction::{COpcode, Extensions, Instruction, OpcodeKind};
use crate::Isa;

verus! {

impl DecodeUtil for u16 {
    open spec fn as_nat(self) -> nat {
        self as nat
    }

    open spec fn width(self) -> nat {
        16
    }

    open spec fn spec_extension(self) -> Extensions {
        Extensions::C
    }

    fn slice(self, end: u32, start: u32) -> (r: u16) {
        let shifted: u16 = self >> start;
        let len: u32 = end - start + 1;
        proof {
            lemma_u16_shr_is_div(self, start as u16);
        }
        if len == 16 {
            proof {
                lemma2_to64();
                vstd::arithmetic::div_mod::lemma_small_mod(shifted as nat, pow2(16));
            }
            shifted
        } else {
            proof {
                lemma_u16_pow2_no_overflow(len as nat);
                lemma_u16_shl_is_mul(1u16, #[verifier::truncate] (len as u16));
                lemma_u16_low_bits_mask_is_mod(shifted, len as nat);
            }
            shifted & ((1u16 << len) - 1)
        }
    }

    fn gather(self, mask: &[u32]) -> (r: u32) {
        let wide: u32 = self as u32;
        let mut res: u32 = 0;
        let mut k: usize = 0;
        proof {
            lemma2_to64();
            assert(mask@.take(0) =~= Seq::<u32>::empty());
        }
        while k < mask.len()
            invariant
                wide as nat == self as nat,
                k <= mask@.len(),
                mask@.len() <= 32,
                forall|i: int| 0 <= i < mask@.len() ==> (mask@[i] as nat) < 16,
                res as nat == spec_gather(self as nat, mask@.take(k as int)),
                (res as nat) < pow2(k as nat),
            decreases mask@.len() - k,
        {
            let m: u32 = mask[k];
            let b: u32 = (wide >> m) & 1;
            proof {
                lemma_u32_shr_is_div(wide, m);
                lemma_u32_low_bits_mask_is_mod(wide >> m, 1);
                lemma2_to64();
                assert(low_bits_mask(1) == 1);
                assert(b as nat == (self as nat / pow2(m as nat)) % 2);
                assert(mask@.take(k as int + 1).drop_last() =~= mask@.take(k as int));
                assert(mask@.take(k as int + 1).last() == mask@[k as int]);
                super::lemma_pow2_step_bound(k as nat);
            }
            res = res * 2 + b;
            k = k + 1;
        }
        proof {
            assert(mask@.take(mask@.len() as int) =~= mask@);
        }
        res
    }

    fn extension(self) -> (r: Extensions) {
        Extensions::C
    }

    fn to_signed_nbit(self, imm32: i32, bit_size: u32) -> (r: i32) {
        super::to_signed_nbit_impl(imm32, bit_size)
    }
}

} // verus!

verus! {

/// Opcode table of the compressed quadrant whose low bits are `00`.
pub open spec fn spec_opcode_c0(word: u16, isa: Isa) -> Result<OpcodeKind, DecodingError> {
    let funct3 = spec_slice(word as nat, 15, 13);
    if funct3 == 0 {
        Ok(OpcodeKind::C(COpcode::CAddi4spn))
    } else if funct3 == 2 {
        Ok(OpcodeKind::C(COpcode::CLw))
    } else if funct3 == 3 {
        spec_only_rv64(OpcodeKind::C(COpcode::CLd), isa)
    } else if funct3 == 6 {
        Ok(OpcodeKind::C(COpcode::CSw))
    } else if funct3 == 7 {
        spec_only_rv64(OpcodeKind::C(COpcode::CSd), isa)
    } else {
        Err(DecodingError::IllegalFunct3)
    }
}

/// Opcode table of the compressed quadrant whose low bits are `01`.
pub open spec fn spec_opcode_c1(word: u16, isa: Isa) -> Result<OpcodeKind, DecodingError> {
    let v = word as nat;
    let funct3 = spec_slice(v, 15, 13);
    if funct3 == 0 {
        Ok(OpcodeKind::C(COpcode::CAddi))
    } else if funct3 == 1 {
        match isa {
            Isa::Rv32 => Ok(OpcodeKind::C(COpcode::CJal)),
            Isa::Rv64 => Ok(OpcodeKind::C(COpcode::CAddiw)),
        }
    } else if funct3 == 2 {
        Ok(OpcodeKind::C(COpcode::CLi))
    } else if funct3 == 3 {
        if spec_slice(v, 11, 7) == 2 {
            Ok(OpcodeKind::C(COpcode::CAddi16sp))
        } else {
            Ok(OpcodeKind::C(COpcode::CLui))
        }
    } else if funct3 == 4 {
        let group = spec_slice(v, 11, 10);
        if group == 0 {
            Ok(OpcodeKind::C(COpcode::CSrli))
        } else if group == 1 {
            Ok(OpcodeKind::C(COpcode::CSrai))
        } else if group == 2 {
            Ok(OpcodeKind::C(COpcode::CAndi))
        } else {
            let funct6 = spec_slice(v, 15, 10);
            let funct2 = spec_slice(v, 6, 5);
            if funct6 == 0x23 {
                if funct2 == 0 {
                    Ok(OpcodeKind::C(COpcode::CSub))
                } else if funct2 == 1 {
                    Ok(OpcodeKind::C(COpcode::CXor))
                } else if funct2 == 2 {
                    Ok(OpcodeKind::C(COpcode::COr))
                } else {
                    Ok(OpcodeKind::C(COpcode::CAnd))
                }
            } else if funct6 == 0x27 {
                if funct2 == 0 {
                    spec_only_rv64(OpcodeKind::C(COpcode::CSubw), isa)
                } else if funct2 == 1 {
                    spec_only_rv64(OpcodeKind::C(COpcode::CAddw), isa)
                } else {
                    Err(DecodingError::IllegalFunct6)
                }
            } else {
                Err(DecodingError::IllegalFunct6)
            }
        }
    } else if funct3 == 5 {
        Ok(OpcodeKind::C(COpcode::CJ))
    } else if funct3 == 6 {
        Ok(OpcodeKind::C(COpcode::CBeqz))
    } else {
        Ok(OpcodeKind::C(COpcode::CBnez))
    }
}

/// Opcode table of the compressed quadrant whose low bits are `10`.
pub open spec fn spec_opcode_c2(word: u16, isa: Isa) -> Result<OpcodeKind, DecodingError> {
    let v = word as nat;
    let funct3 = spec_slice(v, 15, 13);
    if funct3 == 0 {
        Ok(OpcodeKind::C(COpcode::CSlli))
    } else if funct3 == 2 {
        Ok(OpcodeKind::C(COpcode::CLwsp))
    } else if funct3 == 3 {
        spec_only_rv64(OpcodeKind::C(COpcode::CLdsp), isa)
    } else if funct3 == 4 {
        let bit12 = spec_slice(v, 12, 12);
        let rs2f = spec_slice(v, 6, 2);
        let rdf = spec_slice(v, 11, 7);
        if bit12 == 0 {
            if rs2f == 0 {
                Ok(OpcodeKind::C(COpcode::CJr))
            } else {
                Ok(OpcodeKind::C(COpcode::CMv))
            }
        } else {
            if rs2f == 0 && rdf == 0 {
                Ok(OpcodeKind::C(COpcode::CEbreak))
            } else if rs2f == 0 {
                Ok(OpcodeKind::C(COpcode::CJalr))
            } else {
                Ok(OpcodeKind::C(COpcode::CAdd))
            }
        }
    } else if funct3 == 6 {
        Ok(OpcodeKind::C(COpcode::CSwsp))
    } else if funct3 == 7 {
        spec_only_rv64(OpcodeKind::C(COpcode::CSdsp), isa)
    } else {
        Err(DecodingError::IllegalFunct3)
    }
}

/// Resolves a quadrant-`00` word against its opcode table.
fn opcode_c0(word: u16, isa: Isa) -> (res: Result<OpcodeKind, DecodingError>)
    ensures
        res == spec_opcode_c0(word, isa),
{
    let funct3: u16 = word.slice(15, 13);
    if funct3 == 0 {
        Ok(OpcodeKind::C(COpcode::CAddi4spn))
    } else if funct3 == 2 {
        Ok(OpcodeKind::C(COpcode::CLw))
    } else if funct3 == 3 {
        only_rv64(OpcodeKind::C(COpcode::CLd), isa)
    } else if funct3 == 6 {
        Ok(OpcodeKind::C(COpcode::CSw))
    } else if funct3 == 7 {
        only_rv64(OpcodeKind::C(COpcode::CSd), isa)
    } else {
        Err(DecodingError::IllegalFunct3)
    }
}

/// Resolves a quadrant-`01` word against its opcode table.
fn opcode_c1(word: u16, isa: Isa) -> (res: Result<OpcodeKind, DecodingError>)
    ensures
        res == spec_opcode_c1(word, isa),
{
    let funct3: u16 = word.slice(15, 13);
    if funct3 == 0 {
        Ok(OpcodeKind::C(COpcode::CAddi))
    } else if funct3 == 1 {
        match isa {
            Isa::Rv32 => Ok(OpcodeKind::C(COpcode::CJal)),
            Isa::Rv64 => Ok(OpcodeKind::C(COpcode::CAddiw)),
        }
    } else if funct3 == 2 {
        Ok(OpcodeKind::C(COpcode::CLi))
    } else if funct3 == 3 {
        if word.slice(11, 7) == 2 {
            Ok(OpcodeKind::C(COpcode::CAddi16sp))
        } else {
            Ok(OpcodeKind::C(COpcode::CLui))
        }
    } else if funct3 == 4 {
        let group: u16 = word.slice(11, 10);
        if group == 0 {
            Ok(OpcodeKind::C(COpcode::CSrli))
        } else if group == 1 {
            Ok(OpcodeKind::C(COpcode::CSrai))
        } else if group == 2 {
            Ok(OpcodeKind::C(COpcode::CAndi))
        } else {
            let funct6: u16 = word.slice(15, 10);
            let funct2: u16 = word.slice(6, 5);
            if funct6 == 0x23 {
                if funct2 == 0 {
                    Ok(OpcodeKind::C(COpcode::CSub))
                } else if funct2 == 1 {
                    Ok(OpcodeKind::C(COpcode::CXor))
                } else if funct2 == 2 {
                    Ok(OpcodeKind::C(COpcode::COr))
                } else {
                    Ok(OpcodeKind::C(COpcode::CAnd))
                }
            } else if funct6 == 0x27 {
                if funct2 == 0 {
                    only_rv64(OpcodeKind::C(COpcode::CSubw), isa)
                } else if funct2 == 1 {
                    only_rv64(OpcodeKind::C(COpcode::CAddw), isa)
                } else {
                    Err(DecodingError::IllegalFunct6)
                }
            } else {
                Err(DecodingError::IllegalFunct6)
            }
        }
    } else if funct3 == 5 {
        Ok(OpcodeKind::C(COpcode::CJ))
    } else if funct3 == 6 {
        Ok(OpcodeKind::C(COpcode::CBeqz))
    } else {
        Ok(OpcodeKind::C(COpcode::CBnez))
    }
}

/// Resolves a quadrant-`10` word against its opcode table.
fn opcode_c2(word: u16, isa: Isa) -> (res: Result<OpcodeKind, DecodingError>)
    ensures
        res == spec_opcode_c2(word, isa),
{
    let funct3: u16 = word.slice(15, 13);
    if funct3 == 0 {
        Ok(OpcodeKind::C(COpcode::CSlli))
    } else if funct3 == 2 {
        Ok(OpcodeKind::C(COpcode::CLwsp))
    } else if funct3 == 3 {
        only_rv64(OpcodeKind::C(COpcode::CLdsp), isa)
    } else if funct3 == 4 {
        let bit12: u16 = word.slice(12, 12);
        let rs2f: u16 = word.slice(6, 2);
        let rdf: u16 = word.slice(11, 7);
        if bit12 == 0 {
            if rs2f == 0 {
                Ok(OpcodeKind::C(COpcode::CJr))
            } else {
                Ok(OpcodeKind::C(COpcode::CMv))
            }
        } else {
            if rs2f == 0 && rdf == 0 {
                Ok(OpcodeKind::C(COpcode::CEbreak))
            } else if rs2f == 0 {
                Ok(OpcodeKind::C(COpcode::CJalr))
            } else {
                Ok(OpcodeKind::C(COpcode::CAdd))
            }
        }
    } else if funct3 == 6 {
        Ok(OpcodeKind::C(COpcode::CSwsp))
    } else if funct3 == 7 {
        only_rv64(OpcodeKind::C(COpcode::CSdsp), isa)
    } else {
        Err(DecodingError::IllegalFunct3)
    }
}

} // verus!

verus! {

impl Decode for u16 {
    open spec fn spec_parse_opcode(self, isa: Isa) -> Result<OpcodeKind, DecodingError> {
        let quadrant = spec_slice(self as nat, 1, 0);
        if quadrant == 3 {
            Err(DecodingError::Not16BitInst)
        } else if quadrant == 0 {
            spec_opcode_c0(self, isa)
        } else if quadrant == 1 {
            spec_opcode_c1(self, isa)
        } else {
            spec_opcode_c2(self, isa)
        }
    }

    open spec fn spec_parse_rd(self, opkind: OpcodeKind) -> Result<Option<usize>, DecodingError> {
        let v = self as nat;
        let full = spec_slice(v, 11, 7) as usize;
        let low = (spec_slice(v, 4, 2) + 8) as usize;
        let high = (spec_slice(v, 9, 7) + 8) as usize;
        match opkind {
            OpcodeKind::C(COpcode::CAddi4spn | COpcode::CLw | COpcode::CLd) => Ok(Some(low)),
            OpcodeKind::C(
                COpcode::CAddi | COpcode::CAddiw | COpcode::CLi | COpcode::CLui
                    | COpcode::CAddi16sp | COpcode::CSlli | COpcode::CLwsp | COpcode::CLdsp
                    | COpcode::CMv | COpcode::CAdd,
            ) => Ok(Some(full)),
            OpcodeKind::C(
                COpcode::CSrli | COpcode::CSrai | COpcode::CAndi | COpcode::CSub | COpcode::CXor
                    | COpcode::COr | COpcode::CAnd | COpcode::CSubw | COpcode::CAddw,
            ) => Ok(Some(high)),
            _ => Ok(None),
        }
    }

    open spec fn spec_parse_rs1(self, opkind: OpcodeKind) -> Result<Option<usize>, DecodingError> {
        let v = self as nat;
        let full = spec_slice(v, 11, 7) as usize;
        let high = (spec_slice(v, 9, 7) + 8) as usize;
        match opkind {
            OpcodeKind::C(
                COpcode::CLw | COpcode::CSw | COpcode::CLd | COpcode::CSd | COpcode::CSrli
                    | COpcode::CSrai | COpcode::CAndi | COpcode::CSub | COpcode::CXor | COpcode::COr
                    | COpcode::CAnd | COpcode::CSubw | COpcode::CAddw | COpcode::CBeqz
                    | COpcode::CBnez,
            ) => Ok(Some(high)),
            OpcodeKind::C(
                COpcode::CAddi | COpcode::CAddiw | COpcode::CAddi16sp | COpcode::CSlli
                    | COpcode::CJr | COpcode::CJalr | COpcode::CAdd,
            ) => Ok(Some(full)),
            OpcodeKind::C(
                COpcode::CAddi4spn | COpcode::CLwsp | COpcode::CLdsp | COpcode::CSwsp
                    | COpcode::CSdsp,
            ) => Ok(Some(2)),
            _ => Ok(None),
        }
    }

    open spec fn spec_parse_rs2(self, opkind: OpcodeKind) -> Result<Option<usize>, DecodingError> {
        let v = self as nat;
        let full = spec_slice(v, 6, 2) as usize;
        let low = (spec_slice(v, 4, 2) + 8) as usize;
        match opkind {
            OpcodeKind::C(
                COpcode::CSw | COpcode::CSd | COpcode::CSub | COpcode::CXor | COpcode::COr
                    | COpcode::CAnd | COpcode::CSubw | COpcode::CAddw,
            ) => Ok(Some(low)),
            OpcodeKind::C(COpcode::CMv | COpcode::CAdd | COpcode::CSwsp | COpcode::CSdsp) => Ok(
                Some(full),
            ),
            _ => Ok(None),
        }
    }

    open spec fn spec_parse_imm(self, opkind: OpcodeKind, isa: Isa) -> Result<
        Option<i32>,
        DecodingError,
    > {
        let v = self as nat;
        match opkind {
            OpcodeKind::C(COpcode::CAddi4spn) => Ok(
                Some(
                    spec_imm_unsigned(
                        v,
                        seq![10u32, 9u32, 8u32, 7u32, 12u32, 11u32, 5u32, 6u32],
                        2,
                    ),
                ),
            ),
            OpcodeKind::C(COpcode::CLw | COpcode::CSw) => Ok(
                Some(spec_imm_unsigned(v, seq![5u32, 12u32, 11u32, 10u32, 6u32], 2)),
            ),
            OpcodeKind::C(COpcode::CLd | COpcode::CSd) => Ok(
                Some(spec_imm_unsigned(v, seq![6u32, 5u32, 12u32, 11u32, 10u32], 3)),
            ),
            OpcodeKind::C(COpcode::CAddi | COpcode::CAddiw | COpcode::CLi | COpcode::CLui
                | COpcode::CAndi) => Ok(
                Some(spec_imm_signed(v, seq![12u32, 6u32, 5u32, 4u32, 3u32, 2u32], 0, 6)),
            ),
            OpcodeKind::C(COpcode::CAddi16sp) => Ok(
                Some(spec_imm_signed(v, seq![12u32, 4u32, 3u32, 5u32, 2u32, 6u32], 4, 10)),
            ),
            OpcodeKind::C(COpcode::CJal | COpcode::CJ) => Ok(
                Some(
                    spec_imm_signed(
                        v,
                        seq![
                            12u32, 8u32, 10u32, 9u32, 6u32, 7u32, 2u32, 11u32, 5u32, 4u32, 3u32,
                        ],
                        1,
                        12,
                    ),
                ),
            ),
            OpcodeKind::C(COpcode::CSrli | COpcode::CSrai | COpcode::CSlli) => Ok(
                Some(spec_imm_unsigned(v, seq![12u32, 6u32, 5u32, 4u32, 3u32, 2u32], 0)),
            ),
            OpcodeKind::C(COpcode::CBeqz | COpcode::CBnez) => Ok(
                Some(
                    spec_imm_signed(
                        v,
                        seq![12u32, 6u32, 5u32, 2u32, 11u32, 10u32, 4u32, 3u32],
                        1,
                        9,
                    ),
                ),
            ),
            OpcodeKind::C(COpcode::CLwsp) => Ok(
                Some(spec_imm_unsigned(v, seq![3u32, 2u32, 12u32, 6u32, 5u32, 4u32], 2)),
            ),
            OpcodeKind::C(COpcode::CLdsp) => Ok(
                Some(spec_imm_unsigned(v, seq![4u32, 3u32, 2u32, 12u32, 6u32, 5u32], 3)),
            ),
            OpcodeKind::C(COpcode::CSwsp) => Ok(
                Some(spec_imm_unsigned(v, seq![8u32, 7u32, 12u32, 11u32, 10u32, 9u32], 2)),
            ),
            OpcodeKind::C(COpcode::CSdsp) => Ok(
                Some(spec_imm_unsigned(v, seq![9u32, 8u32, 7u32, 12u32, 11u32, 10u32], 3)),
            ),
            _ => Ok(None),
        }
    }

    fn decode(&self, isa: Isa) -> (res: Result<Instruction, DecodingError>) {
        let opc = match self.parse_opcode(isa) {
            Ok(o) => o,
            Err(e) => {
                return Err(e);
            },
        };
        let rd = match self.parse_rd(&opc) {
            Ok(r) => r,
            Err(e) => {
                return Err(e);
            },
        };
        let rs1 = match self.parse_rs1(&opc) {
            Ok(r) => r,
            Err(e) => {
                return Err(e);
            },
        };
        let rs2 = match self.parse_rs2(&opc) {
            Ok(r) => r,
            Err(e) => {
                return Err(e);
            },
        };
        let imm = match self.parse_imm(&opc, isa) {
            Ok(i) => i,
            Err(e) => {
                return Err(e);
            },
        };
        Ok(Instruction { opc, rd, rs1, rs2, imm })
    }

    fn parse_opcode(self, isa: Isa) -> (res: Result<OpcodeKind, DecodingError>) {
        let quadrant: u16 = self.slice(1, 0);
        if quadrant == 3 {
            Err(DecodingError::Not16BitInst)
        } else if quadrant == 0 {
            opcode_c0(self, isa)
        } else if quadrant == 1 {
            opcode_c1(self, isa)
        } else {
            opcode_c2(self, isa)
        }
    }

    fn parse_rd(self, opkind: &OpcodeKind) -> (res: Result<Option<usize>, DecodingError>) {
        let full: usize = self.slice(11, 7) as usize;
        let low: usize = self.slice(4, 2) as usize + 8;
        let high: usize = self.slice(9, 7) as usize + 8;
        match opkind {
            OpcodeKind::C(COpcode::CAddi4spn | COpcode::CLw | COpcode::CLd) => Ok(Some(low)),
            OpcodeKind::C(
                COpcode::CAddi | COpcode::CAddiw | COpcode::CLi | COpcode::CLui
                    | COpcode::CAddi16sp | COpcode::CSlli | COpcode::CLwsp | COpcode::CLdsp
                    | COpcode::CMv | COpcode::CAdd,
            ) => Ok(Some(full)),
            OpcodeKind::C(
                COpcode::CSrli | COpcode::CSrai | COpcode::CAndi | COpcode::CSub | COpcode::CXor
                    | COpcode::COr | COpcode::CAnd | COpcode::CSubw | COpcode::CAddw,
            ) => Ok(Some(high)),
            _ => Ok(None),
        }
    }

    fn parse_rs1(self, opkind: &OpcodeKind) -> (res: Result<Option<usize>, DecodingError>) {
        let full: usize = self.slice(11, 7) as usize;
        let high: usize = self.slice(9, 7) as usize + 8;
        match opkind {
            OpcodeKind::C(
                COpcode::CLw | COpcode::CSw | COpcode::CLd | COpcode::CSd | COpcode::CSrli
                    | COpcode::CSrai | COpcode::CAndi | COpcode::CSub | COpcode::CXor | COpcode::COr
                    | COpcode::CAnd | COpcode::CSubw | COpcode::CAddw | COpcode::CBeqz
                    | COpcode::CBnez,
            ) => Ok(Some(high)),
            OpcodeKind::C(
                COpcode::CAddi | COpcode::CAddiw | COpcode::CAddi16sp | COpcode::CSlli
                    | COpcode::CJr | COpcode::CJalr | COpcode::CAdd,
            ) => Ok(Some(full)),
            OpcodeKind::C(
                COpcode::CAddi4spn | COpcode::CLwsp | COpcode::CLdsp | COpcode::CSwsp
                    | COpcode::CSdsp,
            ) => Ok(Some(2)),
            _ => Ok(None),
        }
    }

    fn parse_rs2(self, opkind: &OpcodeKind) -> (res: Result<Option<usize>, DecodingError>) {
        let full: usize = self.slice(6, 2) as usize;
        let low: usize = self.slice(4, 2) as usize + 8;
        match opkind {
            OpcodeKind::C(
                COpcode::CSw | COpcode::CSd | COpcode::CSub | COpcode::CXor | COpcode::COr
                    | COpcode::CAnd | COpcode::CSubw | COpcode::CAddw,
            ) => Ok(Some(low)),
            OpcodeKind::C(COpcode::CMv | COpcode::CAdd | COpcode::CSwsp | COpcode::CSdsp) => Ok(
                Some(full),
            ),
            _ => Ok(None),
        }
    }

    fn parse_imm(self, opkind: &OpcodeKind, isa: Isa) -> (res: Result<Option<i32>, DecodingError>) {
        match opkind {
            OpcodeKind::C(COpcode::CAddi4spn) => Ok(
                Some(imm_unsigned(self, &[10u32, 9u32, 8u32, 7u32, 12u32, 11u32, 5u32, 6u32], 2)),
            ),
            OpcodeKind::C(COpcode::CLw | COpcode::CSw) => Ok(
                Some(imm_unsigned(self, &[5u32, 12u32, 11u32, 10u32, 6u32], 2)),
            ),
            OpcodeKind::C(COpcode::CLd | COpcode::CSd) => Ok(
                Some(imm_unsigned(self, &[6u32, 5u32, 12u32, 11u32, 10u32], 3)),
            ),
            OpcodeKind::C(COpcode::CAddi | COpcode::CAddiw | COpcode::CLi | COpcode::CLui
                | COpcode::CAndi) => Ok(
                Some(imm_signed(self, &[12u32, 6u32, 5u32, 4u32, 3u32, 2u32], 0, 6)),
            ),
            OpcodeKind::C(COpcode::CAddi16sp) => Ok(
                Some(imm_signed(self, &[12u32, 4u32, 3u32, 5u32, 2u32, 6u32], 4, 10)),
            ),
            OpcodeKind::C(COpcode::CJal | COpcode::CJ) => Ok(
                Some(
                    imm_signed(
                        self,
                        &[12u32, 8u32, 10u32, 9u32, 6u32, 7u32, 2u32, 11u32, 5u32, 4u32, 3u32],
                        1,
                        12,
                    ),
                ),
            ),
            OpcodeKind::C(COpcode::CSrli | COpcode::CSrai | COpcode::CSlli) => Ok(
                Some(imm_unsigned(self, &[12u32, 6u32, 5u32, 4u32, 3u32, 2u32], 0)),
            ),
            OpcodeKind::C(COpcode::CBeqz | COpcode::CBnez) => Ok(
                Some(
                    imm_signed(self, &[12u32, 6u32, 5u32, 2u32, 11u32, 10u32, 4u32, 3u32], 1, 9),
                ),
            ),
            OpcodeKind::C(COpcode::CLwsp) => Ok(
                Some(imm_unsigned(self, &[3u32, 2u32, 12u32, 6u32, 5u32, 4u32], 2)),
            ),
            OpcodeKind::C(COpcode::CLdsp) => Ok(
                Some(imm_unsigned(self, &[4u32, 3u32, 2u32, 12u32, 6u32, 5u32], 3)),
            ),
            OpcodeKind::C(COpcode::CSwsp) => Ok(
                Some(imm_unsigned(self, &[8u32, 7u32, 12u32, 11u32, 10u32, 9u32], 2)),
            ),
            OpcodeKind::C(COpcode::CSdsp) => Ok(
                Some(imm_unsigned(self, &[9u32, 8u32, 7u32, 12u32, 11u32, 10u32], 3)),
            ),
            _ => Ok(None),
        }
    }
}

} // verus!
