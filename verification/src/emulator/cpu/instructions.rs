use vstd::prelude::*;
use crate::emulator::cpu::instructions::instruction::Instruction;
use crate::emulator::cpu::instructions::operands::{
    ArithmeticSource16, ArithmeticSource8, FlagCondition, IncDecSource, LoadByteSource, LoadByteTarget,
    LoadIndirect, LoadType, LoadWordSource, LoadWordTarget, StackOperand,
};

pub mod instruction;
pub mod opcode_fields;
pub mod opcode_info;
pub mod operands;

verus! {

/// 8-bit operand number `i` (0-7) of the opcode map: B, C, D, E, H, L, (HL), A.
pub open spec fn operand8(i: int) -> ArithmeticSource8 {
    if i == 0 {
        ArithmeticSource8::B
    } else if i == 1 {
        ArithmeticSource8::C
    } else if i == 2 {
        ArithmeticSource8::D
    } else if i == 3 {
        ArithmeticSource8::E
    } else if i == 4 {
        ArithmeticSource8::H
    } else if i == 5 {
        ArithmeticSource8::L
    } else if i == 6 {
        ArithmeticSource8::HLI
    } else {
        ArithmeticSource8::A
    }
}

pub open spec fn load_target8(i: int) -> LoadByteTarget {
    if i == 0 {
        LoadByteTarget::B
    } else if i == 1 {
        LoadByteTarget::C
    } else if i == 2 {
        LoadByteTarget::D
    } else if i == 3 {
        LoadByteTarget::E
    } else if i == 4 {
        LoadByteTarget::H
    } else if i == 5 {
        LoadByteTarget::L
    } else if i == 6 {
        LoadByteTarget::HLI
    } else {
        LoadByteTarget::A
    }
}

pub open spec fn load_source8(i: int) -> LoadByteSource {
    if i == 0 {
        LoadByteSource::B
    } else if i == 1 {
        LoadByteSource::C
    } else if i == 2 {
        LoadByteSource::D
    } else if i == 3 {
        LoadByteSource::E
    } else if i == 4 {
        LoadByteSource::H
    } else if i == 5 {
        LoadByteSource::L
    } else if i == 6 {
        LoadByteSource::HLI
    } else {
        LoadByteSource::A
    }
}

pub open spec fn incdec8(i: int) -> IncDecSource {
    if i == 0 {
        IncDecSource::B
    } else if i == 1 {
        IncDecSource::C
    } else if i == 2 {
        IncDecSource::D
    } else if i == 3 {
        IncDecSource::E
    } else if i == 4 {
        IncDecSource::H
    } else if i == 5 {
        IncDecSource::L
    } else if i == 6 {
        IncDecSource::HLI
    } else {
        IncDecSource::A
    }
}

/// Register pair number `p` (0-3): BC, DE, HL, SP.
pub open spec fn incdec16(p: int) -> IncDecSource {
    if p == 0 {
        IncDecSource::BC
    } else if p == 1 {
        IncDecSource::DE
    } else if p == 2 {
        IncDecSource::HL
    } else {
        IncDecSource::SP
    }
}

pub open spec fn arith16(p: int) -> ArithmeticSource16 {
    if p == 0 {
        ArithmeticSource16::BC
    } else if p == 1 {
        ArithmeticSource16::DE
    } else if p == 2 {
        ArithmeticSource16::HL
    } else {
        ArithmeticSource16::SP
    }
}

pub open spec fn word_target(p: int) -> LoadWordTarget {
    if p == 0 {
        LoadWordTarget::BC
    } else if p == 1 {
        LoadWordTarget::DE
    } else if p == 2 {
        LoadWordTarget::HL
    } else {
        LoadWordTarget::SP
    }
}

/// Stack register pair number `p` (0-3): BC, DE, HL, AF.
pub open spec fn stack_operand(p: int) -> StackOperand {
    if p == 0 {
        StackOperand::BC
    } else if p == 1 {
        StackOperand::DE
    } else if p == 2 {
        StackOperand::HL
    } else {
        StackOperand::AF
    }
}

/// Condition number `i` (0-3): NZ, Z, NC, C.
pub open spec fn condition(i: int) -> FlagCondition {
    if i == 0 {
        FlagCondition::NotZero
    } else if i == 1 {
        FlagCondition::Zero
    } else if i == 2 {
        FlagCondition::NotCarry
    } else {
        FlagCondition::Carry
    }
}

/// Indirect operand of the 0x02/0x0A column, number `p` (0-3): (BC), (DE), (HL+), (HL-).
pub open spec fn indirect(p: int) -> LoadIndirect {
    if p == 0 {
        LoadIndirect::BC
    } else if p == 1 {
        LoadIndirect::DE
    } else if p == 2 {
        LoadIndirect::HLinc
    } else {
        LoadIndirect::HLdec
    }
}

/// Accumulator operation number `y` (0-7) on operand `s`.
pub open spec fn alu_op(y: int, s: ArithmeticSource8) -> Instruction {
    if y == 0 {
        Instruction::ADD(s)
    } else if y == 1 {
        Instruction::ADC(s)
    } else if y == 2 {
        Instruction::SUB(s)
    } else if y == 3 {
        Instruction::SBC(s)
    } else if y == 4 {
        Instruction::AND(s)
    } else if y == 5 {
        Instruction::XOR(s)
    } else if y == 6 {
        Instruction::OR(s)
    } else {
        Instruction::CP(s)
    }
}

/// The unprefixed opcode map, read by the octal fields of the opcode: `x` (bits 7-6),
/// `y` (bits 5-3, split into `p` = bits 5-4 and `q` = bit 3) and `z` (bits 2-0).
/// 0xCB (the prefix) and the eleven unused opcodes decode to `None`.
pub open spec fn decode_unprefixed(byte: u8) -> Option<Instruction> {
    let x = byte as int / 64;
    let y = (byte as int / 8) % 8;
    let z = byte as int % 8;
    let p = y / 2;
    let q = y % 2;
    if x == 0 {
        if z == 0 {
            if y == 0 {
                Some(Instruction::NOP)
            } else if y == 1 {
                Some(Instruction::LD(LoadType::Word(LoadWordTarget::A16, LoadWordSource::SP)))
            } else if y == 2 {
                Some(Instruction::STOP)
            } else if y == 3 {
                Some(Instruction::JR)
            } else {
                Some(Instruction::JRIF(condition(y - 4)))
            }
        } else if z == 1 {
            if q == 0 {
                Some(Instruction::LD(LoadType::Word(word_target(p), LoadWordSource::D16)))
            } else {
                Some(Instruction::ADDHL(arith16(p)))
            }
        } else if z == 2 {
            if q == 0 {
                Some(Instruction::LD(LoadType::IndirectFromA(indirect(p))))
            } else {
                Some(Instruction::LD(LoadType::AFromIndirect(indirect(p))))
            }
        } else if z == 3 {
            if q == 0 {
                Some(Instruction::INC(incdec16(p)))
            } else {
                Some(Instruction::DEC(incdec16(p)))
            }
        } else if z == 4 {
            Some(Instruction::INC(incdec8(y)))
        } else if z == 5 {
            Some(Instruction::DEC(incdec8(y)))
        } else if z == 6 {
            Some(Instruction::LD(LoadType::Byte(load_target8(y), LoadByteSource::D8)))
        } else if y == 0 {
            Some(Instruction::RLCA)
        } else if y == 1 {
            Some(Instruction::RRCA)
        } else if y == 2 {
            Some(Instruction::RLA)
        } else if y == 3 {
            Some(Instruction::RRA)
        } else if y == 4 {
            Some(Instruction::DAA)
        } else if y == 5 {
            Some(Instruction::CPL)
        } else if y == 6 {
            Some(Instruction::SCF)
        } else {
            Some(Instruction::CCF)
        }
    } else if x == 1 {
        if byte == 0x76 {
            Some(Instruction::HALT)
        } else {
            Some(Instruction::LD(LoadType::Byte(load_target8(y), load_source8(z))))
        }
    } else if x == 2 {
        Some(alu_op(y, operand8(z)))
    } else if z == 0 {
        if y < 4 {
            Some(Instruction::RET(Some(condition(y))))
        } else if y == 4 {
            Some(Instruction::LD(LoadType::IndirectFromA(LoadIndirect::A8)))
        } else if y == 5 {
            Some(Instruction::ADDSP)
        } else if y == 6 {
            Some(Instruction::LD(LoadType::AFromIndirect(LoadIndirect::A8)))
        } else {
            Some(Instruction::LD(LoadType::Word(LoadWordTarget::HL, LoadWordSource::SP)))
        }
    } else if z == 1 {
        if q == 0 {
            Some(Instruction::POP(stack_operand(p)))
        } else if p == 0 {
            Some(Instruction::RET(None))
        } else if p == 1 {
            Some(Instruction::RETI)
        } else if p == 2 {
            Some(Instruction::JPHL)
        } else {
            Some(Instruction::LD(LoadType::Word(LoadWordTarget::SP, LoadWordSource::HL)))
        }
    } else if z == 2 {
        if y < 4 {
            Some(Instruction::JP(Some(condition(y))))
        } else if y == 4 {
            Some(Instruction::LD(LoadType::IndirectFromA(LoadIndirect::C)))
        } else if y == 5 {
            Some(Instruction::LD(LoadType::IndirectFromA(LoadIndirect::A16)))
        } else if y == 6 {
            Some(Instruction::LD(LoadType::AFromIndirect(LoadIndirect::C)))
        } else {
            Some(Instruction::LD(LoadType::AFromIndirect(LoadIndirect::A16)))
        }
    } else if z == 3 {
        if y == 0 {
            Some(Instruction::JP(None))
        } else if y == 6 {
            Some(Instruction::DI)
        } else if y == 7 {
            Some(Instruction::EI)
        } else {
            None
        }
    } else if z == 4 {
        if y < 4 {
            Some(Instruction::CALL(Some(condition(y))))
        } else {
            None
        }
    } else if z == 5 {
        if q == 0 {
            Some(Instruction::PUSH(stack_operand(p)))
        } else if p == 0 {
            Some(Instruction::CALL(None))
        } else {
            None
        }
    } else if z == 6 {
        Some(alu_op(y, ArithmeticSource8::D8))
    } else {
        Some(Instruction::RST((y * 8) as u16))
    }
}

/// The 0xCB-prefixed opcode map: rotations and shifts (`x` = 0, by `y`), then BIT, RES and
/// SET of bit `y`, each on operand `z`.
pub open spec fn decode_prefixed(byte: u8) -> Instruction {
    let x = byte as int / 64;
    let y = (byte as int / 8) % 8;
    let s = operand8(byte as int % 8);
    if x == 0 {
        if y == 0 {
            Instruction::RLC(s)
        } else if y == 1 {
            Instruction::RRC(s)
        } else if y == 2 {
            Instruction::RL(s)
        } else if y == 3 {
            Instruction::RR(s)
        } else if y == 4 {
            Instruction::SLA(s)
        } else if y == 5 {
            Instruction::SRA(s)
        } else if y == 6 {
            Instruction::SWAP(s)
        } else {
            Instruction::SRL(s)
        }
    } else if x == 1 {
        Instruction::BIT(y as u8, s)
    } else if x == 2 {
        Instruction::RES(y as u8, s)
    } else {
        Instruction::SET(y as u8, s)
    }
}

/// Instruction of an opcode, prefixed by 0xCB or not.
pub open spec fn decode(byte: u8, prefixed: bool) -> Option<Instruction> {
    if prefixed {
        Some(decode_prefixed(byte))
    } else {
        decode_unprefixed(byte)
    }
}

fn load_target8_of(i: u8) -> (res: LoadByteTarget)
    requires
        i < 8,
    ensures
        res == load_target8(i as int),
{
    if i == 0 {
        LoadByteTarget::B
    } else if i == 1 {
        LoadByteTarget::C
    } else if i == 2 {
        LoadByteTarget::D
    } else if i == 3 {
        LoadByteTarget::E
    } else if i == 4 {
        LoadByteTarget::H
    } else if i == 5 {
        LoadByteTarget::L
    } else if i == 6 {
        LoadByteTarget::HLI
    } else {
        LoadByteTarget::A
    }
}

fn load_source8_of(i: u8) -> (res: LoadByteSource)
    requires
        i < 8,
    ensures
        res == load_source8(i as int),
{
    if i == 0 {
        LoadByteSource::B
    } else if i == 1 {
        LoadByteSource::C
    } else if i == 2 {
        LoadByteSource::D
    } else if i == 3 {
        LoadByteSource::E
    } else if i == 4 {
        LoadByteSource::H
    } else if i == 5 {
        LoadByteSource::L
    } else if i == 6 {
        LoadByteSource::HLI
    } else {
        LoadByteSource::A
    }
}

fn incdec8_of(i: u8) -> (res: IncDecSource)
    requires
        i < 8,
    ensures
        res == incdec8(i as int),
{
    if i == 0 {
        IncDecSource::B
    } else if i == 1 {
        IncDecSource::C
    } else if i == 2 {
        IncDecSource::D
    } else if i == 3 {
        IncDecSource::E
    } else if i == 4 {
        IncDecSource::H
    } else if i == 5 {
        IncDecSource::L
    } else if i == 6 {
        IncDecSource::HLI
    } else {
        IncDecSource::A
    }
}

fn incdec16_of(p: u8) -> (res: IncDecSource)
    requires
        p < 4,
    ensures
        res == incdec16(p as int),
{
    if p == 0 {
        IncDecSource::BC
    } else if p == 1 {
        IncDecSource::DE
    } else if p == 2 {
        IncDecSource::HL
    } else {
        IncDecSource::SP
    }
}

fn arith16_of(p: u8) -> (res: ArithmeticSource16)
    requires
        p < 4,
    ensures
        res == arith16(p as int),
{
    if p == 0 {
        ArithmeticSource16::BC
    } else if p == 1 {
        ArithmeticSource16::DE
    } else if p == 2 {
        ArithmeticSource16::HL
    } else {
        ArithmeticSource16::SP
    }
}

fn word_target_of(p: u8) -> (res: LoadWordTarget)
    requires
        p < 4,
    ensures
        res == word_target(p as int),
{
    if p == 0 {
        LoadWordTarget::BC
    } else if p == 1 {
        LoadWordTarget::DE
    } else if p == 2 {
        LoadWordTarget::HL
    } else {
        LoadWordTarget::SP
    }
}

fn stack_operand_of(p: u8) -> (res: StackOperand)
    requires
        p < 4,
    ensures
        res == stack_operand(p as int),
{
    if p == 0 {
        StackOperand::BC
    } else if p == 1 {
        StackOperand::DE
    } else if p == 2 {
        StackOperand::HL
    } else {
        StackOperand::AF
    }
}

fn condition_of(i: u8) -> (res: FlagCondition)
    requires
        i < 4,
    ensures
        res == condition(i as int),
{
    if i == 0 {
        FlagCondition::NotZero
    } else if i == 1 {
        FlagCondition::Zero
    } else if i == 2 {
        FlagCondition::NotCarry
    } else {
        FlagCondition::Carry
    }
}

fn indirect_of(p: u8) -> (res: LoadIndirect)
    requires
        p < 4,
    ensures
        res == indirect(p as int),
{
    if p == 0 {
        LoadIndirect::BC
    } else if p == 1 {
        LoadIndirect::DE
    } else if p == 2 {
        LoadIndirect::HLinc
    } else {
        LoadIndirect::HLdec
    }
}

fn alu_op_of(y: u8, s: ArithmeticSource8) -> (res: Instruction)
    requires
        y < 8,
    ensures
        res == alu_op(y as int, s),
{
    if y == 0 {
        Instruction::ADD(s)
    } else if y == 1 {
        Instruction::ADC(s)
    } else if y == 2 {
        Instruction::SUB(s)
    } else if y == 3 {
        Instruction::SBC(s)
    } else if y == 4 {
        Instruction::AND(s)
    } else if y == 5 {
        Instruction::XOR(s)
    } else if y == 6 {
        Instruction::OR(s)
    } else {
        Instruction::CP(s)
    }
}

fn operand8_of(i: u8) -> (res: ArithmeticSource8)
    requires
        i < 8,
    ensures
        res == operand8(i as int),
{
    match i {
        0 => ArithmeticSource8::B,
        1 => ArithmeticSource8::C,
        2 => ArithmeticSource8::D,
        3 => ArithmeticSource8::E,
        4 => ArithmeticSource8::H,
        5 => ArithmeticSource8::L,
        6 => ArithmeticSource8::HLI,
        _ => ArithmeticSource8::A,
    }
}

impl Instruction {
    pub fn from_byte(byte: u8, prefixed: bool) -> (res: Option<Self>)
        ensures
            res == decode(byte, prefixed),
    {
        match prefixed {
            false => Instruction::from_byte_not_prefixed(byte),
            true => Instruction::from_byte_prefixed(byte),
        }
    }

    pub fn from_byte_prefixed(byte: u8) -> (res: Option<Self>)
        ensures
            res == Some(decode_prefixed(byte)),
    {
        let x = byte / 64;
        let y = (byte / 8) % 8;
        let s = operand8_of(byte % 8);
        let i = match x {
            0 => match y {
                0 => Instruction::RLC(s),
                1 => Instruction::RRC(s),
                2 => Instruction::RL(s),
                3 => Instruction::RR(s),
                4 => Instruction::SLA(s),
                5 => Instruction::SRA(s),
                6 => Instruction::SWAP(s),
                _ => Instruction::SRL(s),
            },
            1 => Instruction::BIT(y, s),
            2 => Instruction::RES(y, s),
            _ => Instruction::SET(y, s),
        };
        Some(i)
    }

    pub fn from_byte_not_prefixed(byte: u8) -> (res: Option<Self>)
        ensures
            res == decode_unprefixed(byte),
    {
        let x: u8 = byte / 64;
        let y: u8 = (byte / 8) % 8;
        let z: u8 = byte % 8;
        let p: u8 = y / 2;
        let q: u8 = y % 2;
        if x == 0 {
            if z == 0 {
                if y == 0 {
                    Some(Instruction::NOP)
                } else if y == 1 {
                    Some(Instruction::LD(LoadType::Word(LoadWordTarget::A16, LoadWordSource::SP)))
                } else if y == 2 {
                    Some(Instruction::STOP)
                } else if y == 3 {
                    Some(Instruction::JR)
                } else {
                    Some(Instruction::JRIF(condition_of(y - 4)))
                }
            } else if z == 1 {
                if q == 0 {
                    Some(Instruction::LD(LoadType::Word(word_target_of(p), LoadWordSource::D16)))
                } else {
                    Some(Instruction::ADDHL(arith16_of(p)))
                }
            } else if z == 2 {
                if q == 0 {
                    Some(Instruction::LD(LoadType::IndirectFromA(indirect_of(p))))
                } else {
                    Some(Instruction::LD(LoadType::AFromIndirect(indirect_of(p))))
                }
            } else if z == 3 {
                if q == 0 {
                    Some(Instruction::INC(incdec16_of(p)))
                } else {
                    Some(Instruction::DEC(incdec16_of(p)))
                }
            } else if z == 4 {
                Some(Instruction::INC(incdec8_of(y)))
            } else if z == 5 {
                Some(Instruction::DEC(incdec8_of(y)))
            } else if z == 6 {
                Some(Instruction::LD(LoadType::Byte(load_target8_of(y), LoadByteSource::D8)))
            } else if y == 0 {
                Some(Instruction::RLCA)
            } else if y == 1 {
                Some(Instruction::RRCA)
            } else if y == 2 {
                Some(Instruction::RLA)
            } else if y == 3 {
                Some(Instruction::RRA)
            } else if y == 4 {
                Some(Instruction::DAA)
            } else if y == 5 {
                Some(Instruction::CPL)
            } else if y == 6 {
                Some(Instruction::SCF)
            } else {
                Some(Instruction::CCF)
            }
        } else if x == 1 {
            if byte == 0x76 {
                Some(Instruction::HALT)
            } else {
                Some(Instruction::LD(LoadType::Byte(load_target8_of(y), load_source8_of(z))))
            }
        } else if x == 2 {
            Some(alu_op_of(y, operand8_of(z)))
        } else if z == 0 {
            if y < 4 {
                Some(Instruction::RET(Some(condition_of(y))))
            } else if y == 4 {
                Some(Instruction::LD(LoadType::IndirectFromA(LoadIndirect::A8)))
            } else if y == 5 {
                Some(Instruction::ADDSP)
            } else if y == 6 {
                Some(Instruction::LD(LoadType::AFromIndirect(LoadIndirect::A8)))
            } else {
                Some(Instruction::LD(LoadType::Word(LoadWordTarget::HL, LoadWordSource::SP)))
            }
        } else if z == 1 {
            if q == 0 {
                Some(Instruction::POP(stack_operand_of(p)))
            } else if p == 0 {
                Some(Instruction::RET(None))
            } else if p == 1 {
                Some(Instruction::RETI)
            } else if p == 2 {
                Some(Instruction::JPHL)
            } else {
                Some(Instruction::LD(LoadType::Word(LoadWordTarget::SP, LoadWordSource::HL)))
            }
        } else if z == 2 {
            if y < 4 {
                Some(Instruction::JP(Some(condition_of(y))))
            } else if y == 4 {
                Some(Instruction::LD(LoadType::IndirectFromA(LoadIndirect::C)))
            } else if y == 5 {
                Some(Instruction::LD(LoadType::IndirectFromA(LoadIndirect::A16)))
            } else if y == 6 {
                Some(Instruction::LD(LoadType::AFromIndirect(LoadIndirect::C)))
            } else {
                Some(Instruction::LD(LoadType::AFromIndirect(LoadIndirect::A16)))
            }
        } else if z == 3 {
            if y == 0 {
                Some(Instruction::JP(None))
            } else if y == 6 {
                Some(Instruction::DI)
            } else if y == 7 {
                Some(Instruction::EI)
            } else {
                None
            }
        } else if z == 4 {
            if y < 4 {
                Some(Instruction::CALL(Some(condition_of(y))))
            } else {
                None
            }
        } else if z == 5 {
            if q == 0 {
                Some(Instruction::PUSH(stack_operand_of(p)))
            } else if p == 0 {
                Some(Instruction::CALL(None))
            } else {
                None
            }
        } else if z == 6 {
            Some(alu_op_of(y, ArithmeticSource8::D8))
        } else {
            Some(Instruction::RST((y as u16) * 8))
        }
    }
}

/// Whether a condition tests the carry flag (C, NC) rather than the zero flag (Z, NZ).
pub open spec fn tests_carry(c: FlagCondition) -> bool {
    c == FlagCondition::Carry || c == FlagCondition::NotCarry
}

/// Whether a condition holds when its flag is set (Z, C) rather than clear (NZ, NC).
pub open spec fn tests_set(c: FlagCondition) -> bool {
    c == FlagCondition::Zero || c == FlagCondition::Carry
}

/// The condition of a conditional opcode, by its bits: bit 4 picks the flag (0: Z,
/// 1: C) and bit 3 the sense (0: the flag clear, 1: the flag set).
pub open spec fn condition_bits_match(byte: u8, c: FlagCondition) -> bool {
    &&& tests_carry(c) == ((byte / 16) % 2 == 1)
    &&& tests_set(c) == ((byte / 8) % 2 == 1)
}

/// Conditional jumps, calls and returns: JR cc (0x20, 0x28, 0x30, 0x38), RET cc (0xC0,
/// 0xC8, 0xD0, 0xD8), JP cc (0xC2, ...) and CALL cc (0xC4, ...) decode to the instruction
/// of their column with the condition their bits 4-3 name: NZ, Z, NC, C in this order.
pub proof fn lemma_conditional_opcodes(k: u8)
    requires
        k < 4,
    ensures
        decode((0x20 + 8 * k) as u8, false) matches Some(Instruction::JRIF(c)) && condition_bits_match((0x20 + 8 * k) as u8, c),
        decode((0xC0 + 8 * k) as u8, false) matches Some(Instruction::RET(Some(c))) && condition_bits_match((0xC0 + 8 * k) as u8, c),
        decode((0xC2 + 8 * k) as u8, false) matches Some(Instruction::JP(Some(c))) && condition_bits_match((0xC2 + 8 * k) as u8, c),
        decode((0xC4 + 8 * k) as u8, false) matches Some(Instruction::CALL(Some(c))) && condition_bits_match((0xC4 + 8 * k) as u8, c),
{
}

} // verus!
