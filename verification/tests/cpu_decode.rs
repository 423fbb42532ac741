use zetaboy::emulator::cpu::instructions::instruction::Instruction;
use zetaboy::emulator::cpu::instructions::operands::{
    ArithmeticSource8, FlagCondition, LoadByteSource, LoadByteTarget, LoadType,
};
use zetaboy::emulator::cpu::instructions::opcode_info::OpcodeInfo;
use zetaboy::emulator::cpu::registers::{join, split, Registers};

#[test]
fn decodes_nop_and_halt() {
    assert_eq!(Instruction::from_byte(0x00, false), Some(Instruction::NOP));
    assert_eq!(Instruction::from_byte(0x76, false), Some(Instruction::HALT));
}

#[test]
fn decodes_load_immediate_into_a() {
    assert_eq!(
        Instruction::from_byte(0x3E, false),
        Some(Instruction::LD(LoadType::Byte(LoadByteTarget::A, LoadByteSource::D8)))
    );
    assert_eq!(
        Instruction::from_byte(0x41, false),
        Some(Instruction::LD(LoadType::Byte(LoadByteTarget::B, LoadByteSource::C)))
    );
}

#[test]
fn decodes_conditional_jump() {
    assert_eq!(Instruction::from_byte(0xC3, false), Some(Instruction::JP(None)));
    assert_eq!(
        Instruction::from_byte(0xCA, false),
        Some(Instruction::JP(Some(FlagCondition::Zero)))
    );
}

#[test]
fn decodes_prefixed_bit_and_swap() {
    assert_eq!(
        Instruction::from_byte(0x7C, true),
        Some(Instruction::BIT(7, ArithmeticSource8::H))
    );
    assert_eq!(Instruction::from_byte(0x37, true), Some(Instruction::SWAP(ArithmeticSource8::A)));
}

#[test]
fn decodes_immediate_alu_operands() {
    assert_eq!(Instruction::from_byte(0xC6, false), Some(Instruction::ADD(ArithmeticSource8::D8)));
    assert_eq!(Instruction::from_byte(0xFE, false), Some(Instruction::CP(ArithmeticSource8::D8)));
}

#[test]
fn unused_opcodes_decode_to_none() {
    for byte in [0xD3u8, 0xDB, 0xDD, 0xE3, 0xE4, 0xEB, 0xEC, 0xED, 0xF4, 0xFC, 0xFD] {
        assert_eq!(Instruction::from_byte(byte, false), None);
    }
}

#[test]
fn every_prefixed_opcode_decodes() {
    for byte in 0u8..=255 {
        assert!(Instruction::from_byte(byte, true).is_some());
    }
}

#[test]
fn opcode_info_gives_size_and_cycles() {
    let nop = OpcodeInfo::from_byte(0x00, false).unwrap();
    assert_eq!(nop.mnemonic, "NOP");
    assert_eq!(nop.size, 1);
    assert_eq!(nop.cycles, 4);
    let jp = OpcodeInfo::from_byte(0xC3, false).unwrap();
    assert_eq!(jp.size, 3);
    assert_eq!(jp.cycles, 16);
    assert!(OpcodeInfo::from_byte(0xD3, false).is_none());
}

#[test]
fn register_pairs_round_trip() {
    let mut r = Registers::new();
    assert_eq!(r.pc, 0x100);
    assert_eq!(r.sp, 0xFFFE);
    r.set_hl(0xBEEF);
    assert_eq!(r.get_hl(), 0xBEEF);
    assert_eq!(r.h, 0xBE);
    assert_eq!(r.l, 0xEF);
    r.set_bc(0x1234);
    assert_eq!(r.get_bc(), 0x1234);
    r.set_de(0xA55A);
    assert_eq!(r.get_de(), 0xA55A);
}

#[test]
fn flags_keep_only_the_high_nibble() {
    let mut r = Registers::new();
    r.set_af(0x12FF);
    assert_eq!(r.get_af(), 0x12F0);
    assert!(r.f.z && r.f.n && r.f.h && r.f.c);
}

#[test]
fn join_and_split_are_inverse() {
    assert_eq!(join(0x12, 0x34), 0x1234);
    assert_eq!(split(0xABCD), (0xAB, 0xCD));
}
