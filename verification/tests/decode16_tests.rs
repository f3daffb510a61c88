use rv_decode::decode::{Decode, DecodeUtil, DecodingError};
use rv_decode::instruction::{COpcode, Extensions, Instruction, OpcodeKind};
use rv_decode::Isa;

#[test]
fn half_word_extension_is_compressed() {
    assert_eq!(0x0195u16.extension(), Extensions::C);
    assert_eq!(0x9002u16.extension(), Extensions::C);
}

#[test]
fn full_size_marker_fails_16bit_path() {
    // Low two bits 0b11: the 32-bit encoding space.
    assert_eq!(0x0003u16.decode(Isa::Rv32), Err(DecodingError::Not16BitInst));
    assert_eq!(0xFFFFu16.parse_opcode(Isa::Rv64), Err(DecodingError::Not16BitInst));
}

#[test]
fn compressed_addi_decodes_end_to_end() {
    // c.addi x3, 5
    let inst = 0x0195u16.decode(Isa::Rv32).unwrap();
    assert_eq!(
        inst,
        Instruction {
            opc: OpcodeKind::C(COpcode::CAddi),
            rd: Some(3),
            rs1: Some(3),
            rs2: None,
            imm: Some(5),
        }
    );
}

#[test]
fn compressed_add_decodes_end_to_end() {
    // c.add x1, x2
    let inst = 0x908Au16.decode(Isa::Rv64).unwrap();
    assert_eq!(
        inst,
        Instruction {
            opc: OpcodeKind::C(COpcode::CAdd),
            rd: Some(1),
            rs1: Some(1),
            rs2: Some(2),
            imm: None,
        }
    );
}

#[test]
fn compressed_load_uses_prime_registers_and_scaled_offset() {
    // c.lw x9, 4(x10)
    let inst = 0x4144u16.decode(Isa::Rv32).unwrap();
    assert_eq!(inst.opc, OpcodeKind::C(COpcode::CLw));
    assert_eq!(inst.rd, Some(9));
    assert_eq!(inst.rs1, Some(10));
    assert_eq!(inst.rs2, None);
    assert_eq!(inst.imm, Some(4));
}

#[test]
fn compressed_stack_load_reads_stack_pointer() {
    // c.lwsp x4, 8(sp)
    let inst = 0x4222u16.decode(Isa::Rv32).unwrap();
    assert_eq!(inst.opc, OpcodeKind::C(COpcode::CLwsp));
    assert_eq!(inst.rd, Some(4));
    assert_eq!(inst.rs1, Some(2));
    assert_eq!(inst.imm, Some(8));
}

#[test]
fn same_encoding_resolves_by_isa_width() {
    // Quadrant 01, funct3 001: a jump-and-link under the 32-bit ISA, a
    // word-narrowed add-immediate under the 64-bit ISA.
    let word: u16 = 0x2001;
    let narrow = word.decode(Isa::Rv32).unwrap();
    assert_eq!(narrow.opc, OpcodeKind::C(COpcode::CJal));
    assert_eq!(narrow.rd, None);
    assert_eq!(narrow.imm, Some(0));
    let wide = word.decode(Isa::Rv64).unwrap();
    assert_eq!(wide.opc, OpcodeKind::C(COpcode::CAddiw));
    assert_eq!(wide.rd, Some(0));
    assert_eq!(wide.imm, Some(0));
}

#[test]
fn compressed_subw_gated_by_isa() {
    // c.subw x8, x8
    let word: u16 = 0x9C01;
    assert_eq!(word.decode(Isa::Rv32), Err(DecodingError::OnlyRv64Inst));
    let inst = word.decode(Isa::Rv64).unwrap();
    assert_eq!(inst.opc, OpcodeKind::C(COpcode::CSubw));
    assert_eq!(inst.rd, Some(8));
    assert_eq!(inst.rs1, Some(8));
    assert_eq!(inst.rs2, Some(8));
}

#[test]
fn unmapped_compressed_funct6_group_is_illegal_funct6() {
    assert_eq!(0x9C41u16.decode(Isa::Rv64), Err(DecodingError::IllegalFunct6));
}

#[test]
fn unmapped_compressed_funct3_is_illegal_funct3() {
    // Quadrant 00, funct3 001: no mapping in this decoder.
    assert_eq!(0x2000u16.decode(Isa::Rv32), Err(DecodingError::IllegalFunct3));
}

#[test]
fn compressed_jump_register_and_ebreak() {
    // c.jr x1
    let jr = 0x8082u16.decode(Isa::Rv32).unwrap();
    assert_eq!(jr.opc, OpcodeKind::C(COpcode::CJr));
    assert_eq!(jr.rd, None);
    assert_eq!(jr.rs1, Some(1));
    // c.ebreak
    let ebreak = 0x9002u16.decode(Isa::Rv32).unwrap();
    assert_eq!(ebreak.opc, OpcodeKind::C(COpcode::CEbreak));
    assert_eq!((ebreak.rd, ebreak.rs1, ebreak.rs2, ebreak.imm), (None, None, None, None));
}

#[test]
fn compressed_move_takes_only_source_register() {
    // c.mv x1, x2
    let inst = 0x808Au16.decode(Isa::Rv32).unwrap();
    assert_eq!(inst.opc, OpcodeKind::C(COpcode::CMv));
    assert_eq!(inst.rd, Some(1));
    assert_eq!(inst.rs1, None);
    assert_eq!(inst.rs2, Some(2));
}

#[test]
fn compressed_stack_store_gated_by_isa() {
    // c.sdsp x0, 0(sp)
    let word: u16 = 0xE002;
    assert_eq!(word.decode(Isa::Rv32), Err(DecodingError::OnlyRv64Inst));
    let inst = word.decode(Isa::Rv64).unwrap();
    assert_eq!(inst.opc, OpcodeKind::C(COpcode::CSdsp));
    assert_eq!(inst.rs1, Some(2));
    assert_eq!(inst.rs2, Some(0));
    assert_eq!(inst.imm, Some(0));
}

#[test]
fn compressed_branch_offset_reassembled() {
    // c.beqz x8, -2: offset bits scattered over the halfword.
    // offset -2 in nine bits: 1_1111_1110.
    let word: u16 = 0xDC7D;
    let inst = word.decode(Isa::Rv32).unwrap();
    assert_eq!(inst.opc, OpcodeKind::C(COpcode::CBeqz));
    assert_eq!(inst.rs1, Some(8));
    assert_eq!(inst.rs2, None);
    assert_eq!(inst.imm, Some(-2));
}
