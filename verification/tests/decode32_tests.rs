use rv_decode::decode::{only_rv64, Decode, DecodeUtil, DecodingError};
use rv_decode::instruction::{
    AOpcode, BaseIOpcode, Extensions, Instruction, MOpcode, OpcodeKind,
};
use rv_decode::Isa;

#[test]
fn isa_gate_rejects_under_rv32_and_passes_under_rv64() {
    let op = OpcodeKind::BaseI(BaseIOpcode::Ld);
    assert_eq!(only_rv64(op, Isa::Rv32), Err(DecodingError::OnlyRv64Inst));
    assert_eq!(only_rv64(op, Isa::Rv64), Ok(op));
    let amo = OpcodeKind::A(AOpcode::AmoaddD);
    assert_eq!(only_rv64(amo, Isa::Rv32), Err(DecodingError::OnlyRv64Inst));
    assert_eq!(only_rv64(amo, Isa::Rv64), Ok(amo));
}

#[test]
fn word_extension_classification() {
    assert_eq!(0x1000_A12Fu32.extension(), Extensions::A);
    assert_eq!(0x0231_00B3u32.extension(), Extensions::M);
    assert_eq!(0x0030_8133u32.extension(), Extensions::BaseI);
    assert_eq!(0x0001_3083u32.extension(), Extensions::BaseI);
}

#[test]
fn non_32bit_marker_fails_32bit_path() {
    // Low two bits 0b01: not the 32-bit encoding space.
    assert_eq!(0x0000_0001u32.decode(Isa::Rv32), Err(DecodingError::Not32BitInst));
    assert_eq!(
        0x0000_0002u32.parse_opcode(Isa::Rv64),
        Err(DecodingError::Not32BitInst)
    );
}

#[test]
fn add_register_decodes_end_to_end() {
    // add x2, x1, x3
    let inst = 0x0030_8133u32.decode(Isa::Rv32).unwrap();
    assert_eq!(
        inst,
        Instruction {
            opc: OpcodeKind::BaseI(BaseIOpcode::Add),
            rd: Some(2),
            rs1: Some(1),
            rs2: Some(3),
            imm: None,
        }
    );
}

#[test]
fn branch_scattered_immediate_decodes_end_to_end() {
    // beq x0, x0, -4: the thirteen-bit offset is scattered over the word.
    let inst = 0xFE00_0EE3u32.decode(Isa::Rv32).unwrap();
    assert_eq!(inst.opc, OpcodeKind::BaseI(BaseIOpcode::Beq));
    assert_eq!(inst.rd, None);
    assert_eq!(inst.rs1, Some(0));
    assert_eq!(inst.rs2, Some(0));
    assert_eq!(inst.imm, Some(-4));
}

#[test]
fn jal_scattered_immediate_decodes_end_to_end() {
    // jal x1, -2: the twenty-one-bit offset is scattered over the word.
    let inst = 0xFFFF_F0EFu32.decode(Isa::Rv32).unwrap();
    assert_eq!(inst.opc, OpcodeKind::BaseI(BaseIOpcode::Jal));
    assert_eq!(inst.rd, Some(1));
    assert_eq!(inst.rs1, None);
    assert_eq!(inst.rs2, None);
    assert_eq!(inst.imm, Some(-2));
}

#[test]
fn rv64_only_word_gated_by_isa() {
    // ld x1, 0(x2)
    let word: u32 = 0x0001_3083;
    assert_eq!(word.decode(Isa::Rv32), Err(DecodingError::OnlyRv64Inst));
    let inst = word.decode(Isa::Rv64).unwrap();
    assert_eq!(
        inst,
        Instruction {
            opc: OpcodeKind::BaseI(BaseIOpcode::Ld),
            rd: Some(1),
            rs1: Some(2),
            rs2: None,
            imm: Some(0),
        }
    );
}

#[test]
fn rv64_only_addiw_gated_by_isa() {
    // addiw x1, x2, -1
    let word: u32 = 0xFFF1_009B;
    assert_eq!(word.decode(Isa::Rv32), Err(DecodingError::OnlyRv64Inst));
    let inst = word.decode(Isa::Rv64).unwrap();
    assert_eq!(inst.opc, OpcodeKind::BaseI(BaseIOpcode::Addiw));
    assert_eq!(inst.rd, Some(1));
    assert_eq!(inst.rs1, Some(2));
    assert_eq!(inst.imm, Some(-1));
}

#[test]
fn unknown_opcode_field_is_illegal_opcode() {
    assert_eq!(0x0000_007Fu32.decode(Isa::Rv64), Err(DecodingError::IllegalOpcode));
}

#[test]
fn unmapped_funct3_is_illegal_funct3() {
    // Branch family with funct3 == 2, which maps to nothing.
    assert_eq!(0x0000_2063u32.decode(Isa::Rv64), Err(DecodingError::IllegalFunct3));
}

#[test]
fn unmapped_funct5_is_illegal_funct5() {
    // Atomic family with funct5 == 5, which maps to nothing.
    assert_eq!(0x2800_202Fu32.decode(Isa::Rv64), Err(DecodingError::IllegalFunct5));
}

#[test]
fn unmapped_funct6_is_illegal_funct6() {
    // Shift-immediate with funct6 == 1, which maps to nothing.
    assert_eq!(0x0400_1013u32.decode(Isa::Rv64), Err(DecodingError::IllegalFunct6));
}

#[test]
fn unmapped_funct7_is_illegal_funct7() {
    // Register arithmetic with funct7 == 5, which maps to nothing.
    assert_eq!(0x0A00_0033u32.decode(Isa::Rv64), Err(DecodingError::IllegalFunct7));
}

#[test]
fn lui_upper_immediate() {
    // lui x5, 0x12345
    let inst = 0x1234_52B7u32.decode(Isa::Rv32).unwrap();
    assert_eq!(inst.opc, OpcodeKind::BaseI(BaseIOpcode::Lui));
    assert_eq!(inst.rd, Some(5));
    assert_eq!(inst.rs1, None);
    assert_eq!(inst.imm, Some(0x12345));
}

#[test]
fn store_immediate_reassembled() {
    // sw x3, 8(x2)
    let inst = 0x0031_2423u32.decode(Isa::Rv32).unwrap();
    assert_eq!(inst.opc, OpcodeKind::BaseI(BaseIOpcode::Sw));
    assert_eq!(inst.rd, None);
    assert_eq!(inst.rs1, Some(2));
    assert_eq!(inst.rs2, Some(3));
    assert_eq!(inst.imm, Some(8));
}

#[test]
fn shift_immediate_is_unsigned_shamt() {
    // slli x1, x1, 5
    let inst = 0x0050_9093u32.decode(Isa::Rv32).unwrap();
    assert_eq!(inst.opc, OpcodeKind::BaseI(BaseIOpcode::Slli));
    assert_eq!(inst.imm, Some(5));
}

#[test]
fn multiply_family_decodes() {
    // mul x1, x2, x3
    let inst = 0x0231_00B3u32.decode(Isa::Rv32).unwrap();
    assert_eq!(
        inst,
        Instruction {
            opc: OpcodeKind::M(MOpcode::Mul),
            rd: Some(1),
            rs1: Some(2),
            rs2: Some(3),
            imm: None,
        }
    );
}

#[test]
fn atomic_family_decodes_and_lr_has_no_rs2() {
    // lr.w x2, (x1)
    let inst = 0x1000_A12Fu32.decode(Isa::Rv32).unwrap();
    assert_eq!(inst.opc, OpcodeKind::A(AOpcode::LrW));
    assert_eq!(inst.rd, Some(2));
    assert_eq!(inst.rs1, Some(1));
    assert_eq!(inst.rs2, None);
    assert_eq!(inst.imm, None);
}

#[test]
fn atomic_doubleword_gated_by_isa() {
    // amoadd.d x0, x0, (x0)
    let word: u32 = 0x0000_302F;
    assert_eq!(word.decode(Isa::Rv32), Err(DecodingError::OnlyRv64Inst));
    assert_eq!(
        word.decode(Isa::Rv64).unwrap().opc,
        OpcodeKind::A(AOpcode::AmoaddD)
    );
}

#[test]
fn fence_and_system_words_carry_no_operands() {
    let fence = 0x0000_000Fu32.decode(Isa::Rv32).unwrap();
    assert_eq!(
        fence,
        Instruction {
            opc: OpcodeKind::BaseI(BaseIOpcode::Fence),
            rd: None,
            rs1: None,
            rs2: None,
            imm: None,
        }
    );
    let ecall = 0x0000_0073u32.decode(Isa::Rv32).unwrap();
    assert_eq!(ecall.opc, OpcodeKind::BaseI(BaseIOpcode::Ecall));
    assert_eq!((ecall.rd, ecall.rs1, ecall.rs2, ecall.imm), (None, None, None, None));
    let ebreak = 0x0010_0073u32.decode(Isa::Rv32).unwrap();
    assert_eq!(ebreak.opc, OpcodeKind::BaseI(BaseIOpcode::Ebreak));
}

#[test]
fn parse_steps_match_full_decode() {
    let word: u32 = 0x0030_8133;
    let opc = word.parse_opcode(Isa::Rv32).unwrap();
    assert_eq!(opc, OpcodeKind::BaseI(BaseIOpcode::Add));
    assert_eq!(word.parse_rd(&opc), Ok(Some(2)));
    assert_eq!(word.parse_rs1(&opc), Ok(Some(1)));
    assert_eq!(word.parse_rs2(&opc), Ok(Some(3)));
    assert_eq!(word.parse_imm(&opc, Isa::Rv32), Ok(None));
}
