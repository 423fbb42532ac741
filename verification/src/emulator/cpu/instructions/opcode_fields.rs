use vstd::prelude::*;
use crate::emulator::cpu::instructions::decode;
use crate::emulator::cpu::instructions::instruction::Instruction;
use crate::emulator::cpu::instructions::operands::{
    ArithmeticSource8, LoadByteSource, LoadByteTarget, LoadType,
};

verus! {

/// The SM83 register numbering of 8-bit operands: B=0, C=1, D=2, E=3, H=4, L=5, (HL)=6,
/// A=7; the immediate byte has no register number.
pub open spec fn operand_number(s: ArithmeticSource8) -> int {
    match s {
        ArithmeticSource8::B => 0,
        ArithmeticSource8::C => 1,
        ArithmeticSource8::D => 2,
        ArithmeticSource8::E => 3,
        ArithmeticSource8::H => 4,
        ArithmeticSource8::L => 5,
        ArithmeticSource8::HLI => 6,
        ArithmeticSource8::A => 7,
        ArithmeticSource8::D8 => 8,
    }
}

/// The register number of the destination of an 8-bit load.
pub open spec fn target_number(t: LoadByteTarget) -> int {
    match t {
        LoadByteTarget::B => 0,
        LoadByteTarget::C => 1,
        LoadByteTarget::D => 2,
        LoadByteTarget::E => 3,
        LoadByteTarget::H => 4,
        LoadByteTarget::L => 5,
        LoadByteTarget::HLI => 6,
        LoadByteTarget::A => 7,
    }
}

/// The register number of the source of an 8-bit load (the immediate byte has none).
pub open spec fn source_number(s: LoadByteSource) -> int {
    match s {
        LoadByteSource::B => 0,
        LoadByteSource::C => 1,
        LoadByteSource::D => 2,
        LoadByteSource::E => 3,
        LoadByteSource::H => 4,
        LoadByteSource::L => 5,
        LoadByteSource::HLI => 6,
        LoadByteSource::A => 7,
        _ => 8,
    }
}

/// The 8-bit ALU operations in their opcode order (ADD=0, ADC, SUB, SBC, AND, XOR, OR,
/// CP=7), with their operand; `None` for any other instruction.
pub open spec fn alu_parts(i: Instruction) -> Option<(int, ArithmeticSource8)> {
    match i {
        Instruction::ADD(s) => Some((0, s)),
        Instruction::ADC(s) => Some((1, s)),
        Instruction::SUB(s) => Some((2, s)),
        Instruction::SBC(s) => Some((3, s)),
        Instruction::AND(s) => Some((4, s)),
        Instruction::XOR(s) => Some((5, s)),
        Instruction::OR(s) => Some((6, s)),
        Instruction::CP(s) => Some((7, s)),
        _ => None,
    }
}

/// The 0xCB operations on an operand, in their opcode order: the eight rotations and shifts
/// (RLC=0, RRC, RL, RR, SLA, SRA, SWAP, SRL=7), then BIT, RES and SET of bit `b` as
/// 8 + b, 16 + b and 24 + b; with their operand.
pub open spec fn cb_parts(i: Instruction) -> Option<(int, ArithmeticSource8)> {
    match i {
        Instruction::RLC(s) => Some((0, s)),
        Instruction::RRC(s) => Some((1, s)),
        Instruction::RL(s) => Some((2, s)),
        Instruction::RR(s) => Some((3, s)),
        Instruction::SLA(s) => Some((4, s)),
        Instruction::SRA(s) => Some((5, s)),
        Instruction::SWAP(s) => Some((6, s)),
        Instruction::SRL(s) => Some((7, s)),
        Instruction::BIT(b, s) => Some((8 + b, s)),
        Instruction::RES(b, s) => Some((16 + b, s)),
        Instruction::SET(b, s) => Some((24 + b, s)),
        _ => None,
    }
}

/// LD r, r' (0x40-0x7F but HALT at 0x76): the destination register is numbered by bits
/// 5-3 of the opcode and the source register by bits 2-0.
pub proof fn lemma_register_loads(byte: u8)
    requires
        0x40 <= byte < 0x80,
        byte != 0x76,
    ensures
        decode(byte, false) matches Some(Instruction::LD(LoadType::Byte(t, s)))
            && target_number(t) == (byte / 8) % 8 && source_number(s) == byte % 8,
{
}

/// The ALU block (0x80-0xBF): bits 5-3 of the opcode number the operation and bits 2-0
/// the register operand; the immediate forms 0xC6, 0xCE, ..., 0xFE take the same
/// operation numbers with the immediate byte.
pub proof fn lemma_alu_opcodes(byte: u8)
    requires
        0x80 <= byte < 0xC0,
    ensures
        decode(byte, false) matches Some(i) && alu_parts(i) matches Some((k, s))
            && k == (byte / 8) % 8 && operand_number(s) == byte % 8,
        decode(((byte / 8) % 8 * 8 + 0xC6) as u8, false) matches Some(j)
            && alu_parts(j) == Some((((byte / 8) % 8) as int, ArithmeticSource8::D8)),
{
}

/// The 0xCB map: bits 7-3 of the opcode number the operation (the bit of BIT, RES and SET
/// being bits 5-3) and bits 2-0 the register operand.
pub proof fn lemma_prefixed_opcodes(byte: u8)
    ensures
        decode(byte, true) matches Some(i) && cb_parts(i) matches Some((k, s))
            && k == byte / 8 && operand_number(s) == byte % 8,
{
}

} // verus!
