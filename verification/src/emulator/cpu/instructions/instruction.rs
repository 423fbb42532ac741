use vstd::prelude::*;
use crate::emulator::cpu::instructions::operands::{
    ArithmeticSource16, ArithmeticSource8, FlagCondition, IncDecSource, LoadType, StackOperand,
};

verus! {

/// One decoded SM83 instruction.
#[derive(Clone, Copy, PartialEq, Eq, Structural, Debug)]
pub enum Instruction {
    NOP,
    STOP,
    HALT,
    DI,
    EI,
    JP(Option<FlagCondition>),
    JPHL,
    JR,
    JRIF(FlagCondition),
    CALL(Option<FlagCondition>),
    RET(Option<FlagCondition>),
    RETI,
    RST(u16),
    ADD(ArithmeticSource8),
    ADC(ArithmeticSource8),
    SUB(ArithmeticSource8),
    SBC(ArithmeticSource8),
    AND(ArithmeticSource8),
    XOR(ArithmeticSource8),
    OR(ArithmeticSource8),
    CP(ArithmeticSource8),
    DAA,
    SCF,
    CPL,
    CCF,
    ADDHL(ArithmeticSource16),
    ADDSP,
    POP(StackOperand),
    PUSH(StackOperand),
    RLCA,
    RLA,
    RRCA,
    RRA,
    BIT(u8, ArithmeticSource8),
    RLC(ArithmeticSource8),
    RRC(ArithmeticSource8),
    RL(ArithmeticSource8),
    RR(ArithmeticSource8),
    SET(u8, ArithmeticSource8),
    SLA(ArithmeticSource8),
    SRA(ArithmeticSource8),
    SRL(ArithmeticSource8),
    SWAP(ArithmeticSource8),
    RES(u8, ArithmeticSource8),
    INC(IncDecSource),
    DEC(IncDecSource),
    LD(LoadType),
}

} // verus!
