use vstd::prelude::*;
use crate::emulator::cpu::{CPU, CpuMode, CpuView, flag_bit};
use crate::emulator::cpu::{
    alu_adc_spec, alu_add_spec, alu_and_spec, alu_bit_spec, alu_cp_spec, alu_cpl_spec, alu_daa_spec,
    alu_dec_spec, alu_inc_spec, alu_or_spec, alu_rl_spec, alu_rlc_spec, alu_rr_spec, alu_rrc_spec,
    alu_sbc_spec, alu_set_spec, alu_sla_spec, alu_sra_spec, alu_srl_spec, alu_sub_spec, alu_swap_spec,
    alu_xor_spec, alu_add_hl_spec, alu_add_sp_spec, jump_condition_holds, flag_condition_holds, sign_extend,
    bus_read,
};
use crate::emulator::cpu::instructions::instruction::Instruction;
use crate::emulator::cpu::instructions::operands::{
    ArithmeticSource16, ArithmeticSource8, FlagCondition, IncDecSource, LoadByteSource, LoadByteTarget,
    LoadIndirect, LoadType, LoadWordSource, LoadWordTarget, StackOperand,
};
use crate::emulator::cpu::registers::{FlagsRegister, Registers, hi_byte, lo_byte};
use crate::emulator::cpu::control_unit::load::ld_next;

pub mod dispatch;
pub mod load;

pub use self::dispatch::execute;

verus! {

/// Instructions the control unit can run: CB-prefixed operations never name an immediate
/// operand, and RES clears a bit number below 8.
pub open spec fn instruction_valid(i: Instruction) -> bool {
    match i {
        Instruction::RLC(s) | Instruction::RRC(s) | Instruction::RL(s) | Instruction::RR(s) | Instruction::SLA(s)
        | Instruction::SRA(s) | Instruction::SRL(s) | Instruction::SWAP(s) => s != ArithmeticSource8::D8,
        Instruction::BIT(_, s) | Instruction::SET(_, s) => s != ArithmeticSource8::D8,
        Instruction::RES(b, s) => b < 8 && s != ArithmeticSource8::D8,
        _ => true,
    }
}

/// Value of a register operand (A-L).
pub open spec fn reg8(r: Registers, s: ArithmeticSource8) -> u8 {
    match s {
        ArithmeticSource8::A => r.a,
        ArithmeticSource8::B => r.b,
        ArithmeticSource8::C => r.c,
        ArithmeticSource8::D => r.d,
        ArithmeticSource8::E => r.e,
        ArithmeticSource8::H => r.h,
        ArithmeticSource8::L => r.l,
        _ => 0,
    }
}

/// Registers with a register operand (A-L) set to `v`.
pub open spec fn set_reg8(r: Registers, s: ArithmeticSource8, v: u8) -> Registers {
    match s {
        ArithmeticSource8::A => Registers { a: v, ..r },
        ArithmeticSource8::B => Registers { b: v, ..r },
        ArithmeticSource8::C => Registers { c: v, ..r },
        ArithmeticSource8::D => Registers { d: v, ..r },
        ArithmeticSource8::E => Registers { e: v, ..r },
        ArithmeticSource8::H => Registers { h: v, ..r },
        ArithmeticSource8::L => Registers { l: v, ..r },
        _ => r,
    }
}

/// State after an 8-bit operand is fetched, and its value: a register, the byte at HL, or
/// the byte after the opcode.
pub open spec fn operand8_next(c: CpuView, s: ArithmeticSource8) -> (CpuView, u8) {
    match s {
        ArithmeticSource8::HLI => c.read_hl_next(),
        ArithmeticSource8::D8 => c.fetch_next(),
        _ => (c, reg8(c.reg, s)),
    }
}

/// The kinds of accumulator operations.
#[derive(Clone, Copy)]
pub enum AccOp {
    Add,
    Adc,
    Sub,
    Sbc,
    And,
    Xor,
    Or,
    Cp,
}

pub open spec fn acc_op_spec(op: AccOp, r: Registers, v: u8) -> Registers {
    match op {
        AccOp::Add => alu_add_spec(r, v),
        AccOp::Adc => alu_adc_spec(r, v),
        AccOp::Sub => alu_sub_spec(r, v),
        AccOp::Sbc => alu_sbc_spec(r, v),
        AccOp::And => alu_and_spec(r, v),
        AccOp::Xor => alu_xor_spec(r, v),
        AccOp::Or => alu_or_spec(r, v),
        AccOp::Cp => alu_cp_spec(r, v),
    }
}

/// An accumulator operation on an 8-bit operand.
#[verifier::opaque]
pub open spec fn acc_next(c: CpuView, op: AccOp, s: ArithmeticSource8) -> CpuView {
    let (c1, v) = operand8_next(c, s);
    c1.with_reg(acc_op_spec(op, c1.reg, v))
}

/// The kinds of CB rotations and shifts.
#[derive(Clone, Copy)]
pub enum ShiftOp {
    Rlc,
    Rrc,
    Rl,
    Rr,
    Sla,
    Sra,
    Srl,
    Swap,
}

pub open spec fn shift_spec(op: ShiftOp, f: FlagsRegister, v: u8) -> (u8, FlagsRegister) {
    match op {
        ShiftOp::Rlc => alu_rlc_spec(f, v),
        ShiftOp::Rrc => alu_rrc_spec(f, v),
        ShiftOp::Rl => alu_rl_spec(f, v),
        ShiftOp::Rr => alu_rr_spec(f, v),
        ShiftOp::Sla => alu_sla_spec(f, v),
        ShiftOp::Sra => alu_sra_spec(f, v),
        ShiftOp::Srl => alu_srl_spec(f, v),
        ShiftOp::Swap => alu_swap_spec(f, v),
    }
}

/// A rotation or shift of a register or of the byte at HL (read, one internal M-cycle,
/// write back).
#[verifier::opaque]
pub open spec fn shift_next(c: CpuView, op: ShiftOp, s: ArithmeticSource8, times: Seq<u64>) -> CpuView {
    if s == ArithmeticSource8::HLI {
        let addr = c.reg.hl();
        let (c1, old) = c.read_next(addr);
        let (nv, f) = shift_spec(op, c1.reg.f, old);
        c1.with_reg(Registers { f, ..c1.reg }).tick4_next().write_next(addr, nv, times[0])
    } else {
        let (nv, f) = shift_spec(op, c.reg.f, reg8(c.reg, s));
        c.with_reg(set_reg8(Registers { f, ..c.reg }, s, nv)).tick4_next()
    }
}

/// Accumulator rotation (RLCA, RRCA, RLA, RRA): Z is cleared.
#[verifier::opaque]
pub open spec fn rotate_a_next(c: CpuView, op: ShiftOp) -> CpuView {
    let (nv, f) = shift_spec(op, c.reg.f, c.reg.a);
    let c1 = c.with_reg(Registers { f, ..c.reg }).tick4_next();
    c1.with_reg(Registers { a: nv, f: FlagsRegister { z: false, ..c1.reg.f }, ..c1.reg })
}

/// INC or DEC of an 8-bit register or of the byte at HL, or of a 16-bit register.
pub open spec fn step8(inc: bool, f: FlagsRegister, v: u8) -> (u8, FlagsRegister) {
    if inc { alu_inc_spec(f, v) } else { alu_dec_spec(f, v) }
}

pub open spec fn step16(inc: bool, v: u16) -> u16 {
    if inc { v.wrapping_add(1) } else { v.wrapping_sub(1) }
}

/// INC or DEC of one of the registers A-L.
pub open spec fn incdec_reg_next(c: CpuView, s: IncDecSource, inc: bool) -> CpuView {
    match s {
        IncDecSource::A => {
            let (v, f) = step8(inc, c.reg.f, c.reg.a);
            c.with_reg(Registers { a: v, f, ..c.reg })
        },
        IncDecSource::B => {
            let (v, f) = step8(inc, c.reg.f, c.reg.b);
            c.with_reg(Registers { b: v, f, ..c.reg })
        },
        IncDecSource::C => {
            let (v, f) = step8(inc, c.reg.f, c.reg.c);
            c.with_reg(Registers { c: v, f, ..c.reg })
        },
        IncDecSource::D => {
            let (v, f) = step8(inc, c.reg.f, c.reg.d);
            c.with_reg(Registers { d: v, f, ..c.reg })
        },
        IncDecSource::E => {
            let (v, f) = step8(inc, c.reg.f, c.reg.e);
            c.with_reg(Registers { e: v, f, ..c.reg })
        },
        IncDecSource::H => {
            let (v, f) = step8(inc, c.reg.f, c.reg.h);
            c.with_reg(Registers { h: v, f, ..c.reg })
        },
        _ => {
            let (v, f) = step8(inc, c.reg.f, c.reg.l);
            c.with_reg(Registers { l: v, f, ..c.reg })
        },
    }
}

/// INC or DEC of one of the 16-bit registers (one internal M-cycle).
pub open spec fn incdec_pair_next(c: CpuView, s: IncDecSource, inc: bool) -> CpuView {
    let t = c.tick4_next();
    match s {
        IncDecSource::BC => t.with_reg(c.reg.with_bc(step16(inc, c.reg.bc()))),
        IncDecSource::DE => t.with_reg(c.reg.with_de(step16(inc, c.reg.de()))),
        IncDecSource::HL => t.with_reg(c.reg.with_hl(step16(inc, c.reg.hl()))),
        _ => t.with_reg(Registers { sp: step16(inc, c.reg.sp), ..c.reg }),
    }
}

/// INC or DEC of the byte at HL.
pub open spec fn incdec_hli_next(c: CpuView, inc: bool, times: Seq<u64>) -> CpuView {
    let hl = c.reg.hl();
    let (c1, old) = c.read_next(hl);
    let (v, f) = step8(inc, c1.reg.f, old);
    c1.with_reg(Registers { f, ..c1.reg }).write_next(hl, v, times[0])
}

#[verifier::opaque]
pub open spec fn incdec_next(c: CpuView, s: IncDecSource, inc: bool, times: Seq<u64>) -> CpuView {
    match s {
        IncDecSource::HLI => incdec_hli_next(c, inc, times),
        IncDecSource::BC | IncDecSource::DE | IncDecSource::HL | IncDecSource::SP => incdec_pair_next(c, s, inc),
        _ => incdec_reg_next(c, s, inc),
    }
}

/// Value of a register pair on the stack side.
pub open spec fn stack_value(r: Registers, s: StackOperand) -> u16 {
    match s {
        StackOperand::AF => r.af(),
        StackOperand::BC => r.bc(),
        StackOperand::DE => r.de(),
        StackOperand::HL => r.hl(),
    }
}

pub open spec fn with_stack_value(r: Registers, s: StackOperand, v: u16) -> Registers {
    match s {
        StackOperand::AF => r.with_af(v),
        StackOperand::BC => r.with_bc(v),
        StackOperand::DE => r.with_de(v),
        StackOperand::HL => r.with_hl(v),
    }
}

pub open spec fn arith16_value(r: Registers, s: ArithmeticSource16) -> u16 {
    match s {
        ArithmeticSource16::BC => r.bc(),
        ArithmeticSource16::DE => r.de(),
        ArithmeticSource16::HL => r.hl(),
        ArithmeticSource16::SP => r.sp,
    }
}

/// BIT, RES or SET on a register or on the byte at HL.
#[verifier::opaque]
pub open spec fn bit_next(c: CpuView, bit: u8, s: ArithmeticSource8) -> CpuView {
    if s == ArithmeticSource8::HLI {
        let (c1, v) = c.read_next(c.reg.hl());
        c1.with_reg(Registers { f: alu_bit_spec(c1.reg.f, bit, v), ..c1.reg }).tick4_next()
    } else {
        c.with_reg(Registers { f: alu_bit_spec(c.reg.f, bit, reg8(c.reg, s)), ..c.reg }).tick4_next()
    }
}

#[verifier::opaque]
pub open spec fn res_next(c: CpuView, bit: u8, s: ArithmeticSource8, times: Seq<u64>) -> CpuView {
    let mask = !(1u8 << bit);
    let c0 = c.tick4_next();
    if s == ArithmeticSource8::HLI {
        let addr = c0.reg.hl();
        let (c1, v) = c0.read_next(addr);
        c1.write_next(addr, v & mask, times[0])
    } else {
        c0.with_reg(set_reg8(c0.reg, s, reg8(c0.reg, s) & mask))
    }
}

#[verifier::opaque]
pub open spec fn set_next(c: CpuView, bit: u8, s: ArithmeticSource8, times: Seq<u64>) -> CpuView {
    if s == ArithmeticSource8::HLI {
        let addr = c.reg.hl();
        let (c1, v) = c.read_next(addr);
        c1.write_next(addr, alu_set_spec(bit, v), times[0])
    } else {
        c.with_reg(set_reg8(c.reg, s, alu_set_spec(bit, reg8(c.reg, s))))
    }
}

/// HALT: with IME set the CPU halts; otherwise it waits for an interrupt, or, with one
/// already pending, falls into the HALT bug.
#[verifier::opaque]
pub open spec fn halt_next(c: CpuView) -> CpuView {
    if c.ime {
        CpuView { mode: CpuMode::Halt, ..c }
    } else if bus_read(c.bus, 0xFF0F) & bus_read(c.bus, 0xFFFF) & 0x1F != 0 {
        CpuView { mode: CpuMode::HaltBug, ..c }
    } else {
        CpuView { mode: CpuMode::HaltDI, ..c }
    }
}

/// STOP: the byte after it is skipped; an armed CGB speed switch is performed, otherwise
/// the CPU stops.
#[verifier::opaque]
pub open spec fn stop_next(c: CpuView) -> CpuView {
    let c1 = c.with_reg(Registers { pc: c.reg.pc.wrapping_add(1), ..c.reg });
    if c1.bus.ppu.cgb_mode && (c1.bus.key1 & 0x01) != 0 {
        CpuView {
            bus: crate::emulator::cpu::memory_bus::MemoryBusView { key1: (c1.bus.key1 ^ 0x80) & !0x01u8, ..c1.bus },
            ..c1
        }
    } else {
        CpuView { mode: CpuMode::Stop, ..c1 }
    }
}

#[verifier::opaque]
pub open spec fn add_sp_next(c: CpuView) -> CpuView {
    let (c1, b) = c.fetch_next();
    let c2 = c1.tick4_next().tick4_next();
    c2.with_reg(alu_add_sp_spec(c2.reg, b))
}

#[verifier::opaque]
pub open spec fn call_next(c: CpuView, test: Option<FlagCondition>, times: Seq<u64>) -> CpuView {
    let (c1, target) = c.fetch_word_next();
    if jump_condition_holds(c1.reg.f, test) {
        let c2 = c1.push_next(c1.reg.pc, times[0], times[1]);
        c2.with_reg(Registers { pc: target, ..c2.reg })
    } else {
        c1
    }
}

#[verifier::opaque]
pub open spec fn ccf_next(c: CpuView) -> CpuView {
    c.with_reg(Registers { f: FlagsRegister { n: false, h: false, c: !c.reg.f.c, ..c.reg.f }, ..c.reg })
}

#[verifier::opaque]
pub open spec fn scf_next(c: CpuView) -> CpuView {
    c.with_reg(Registers { f: FlagsRegister { n: false, h: false, c: true, ..c.reg.f }, ..c.reg })
}

#[verifier::opaque]
pub open spec fn set_ime_next(c: CpuView, value: bool) -> CpuView {
    if value {
        CpuView { mode: CpuMode::EnableIME, ..c }
    } else {
        CpuView { ime: false, ..c }
    }
}

#[verifier::opaque]
pub open spec fn jp_next(c: CpuView, test: Option<FlagCondition>) -> CpuView {
    let (c1, target) = c.fetch_word_next();
    if jump_condition_holds(c1.reg.f, test) {
        c1.with_reg(Registers { pc: target, ..c1.reg }).tick4_next()
    } else {
        c1
    }
}

#[verifier::opaque]
pub open spec fn jr_next(c: CpuView) -> CpuView {
    let (c1, off) = c.fetch_next();
    c1.with_reg(Registers { pc: c1.reg.pc.wrapping_add(sign_extend(off)), ..c1.reg }).tick4_next()
}

#[verifier::opaque]
pub open spec fn jr_if_next(c: CpuView, cond: FlagCondition) -> CpuView {
    let (c1, off) = c.fetch_next();
    if flag_condition_holds(c1.reg.f, cond) {
        c1.with_reg(Registers { pc: c1.reg.pc.wrapping_add(sign_extend(off)), ..c1.reg }).tick4_next()
    } else {
        c1
    }
}

#[verifier::opaque]
pub open spec fn pop_instr_next(c: CpuView, s: StackOperand) -> CpuView {
    let (c1, v) = c.pop_next();
    c1.with_reg(with_stack_value(c1.reg, s, v))
}

#[verifier::opaque]
pub open spec fn push_instr_next(c: CpuView, s: StackOperand, times: Seq<u64>) -> CpuView {
    c.push_next(stack_value(c.reg, s), times[0], times[1])
}

#[verifier::opaque]
pub open spec fn ret_next(c: CpuView, test: Option<FlagCondition>) -> CpuView {
    if jump_condition_holds(c.reg.f, test) {
        let c0 = if test is Some { c.tick4_next() } else { c };
        let (c1, v) = c0.pop_next();
        c1.with_reg(Registers { pc: v, ..c1.reg }).tick4_next()
    } else {
        c
    }
}

#[verifier::opaque]
pub open spec fn reti_next(c: CpuView) -> CpuView {
    let (c1, v) = CpuView { ime: true, ..c }.pop_next();
    c1.with_reg(Registers { pc: v, ..c1.reg })
}

#[verifier::opaque]
pub open spec fn add_hl_next(c: CpuView, s: ArithmeticSource16) -> CpuView {
    c.with_reg(alu_add_hl_spec(c.reg, arith16_value(c.reg, s))).tick4_next()
}

/// [`executes`] for the arithmetic and logic instructions on A and the 8-bit increments.
#[verifier::opaque]
pub open spec fn executes_alu(c: CpuView, instruction: Instruction, c2: CpuView) -> bool {
    match instruction {
        Instruction::ADC(s) => c2 == acc_next(c, AccOp::Adc, s),
        Instruction::ADD(s) => c2 == acc_next(c, AccOp::Add, s),
        Instruction::SUB(s) => c2 == acc_next(c, AccOp::Sub, s),
        Instruction::SBC(s) => c2 == acc_next(c, AccOp::Sbc, s),
        Instruction::AND(s) => c2 == acc_next(c, AccOp::And, s),
        Instruction::XOR(s) => c2 == acc_next(c, AccOp::Xor, s),
        Instruction::OR(s) => c2 == acc_next(c, AccOp::Or, s),
        Instruction::CP(s) => c2 == acc_next(c, AccOp::Cp, s),
        Instruction::DEC(s) => exists|times: Seq<u64>| c2 == incdec_next(c, s, false, times),
        Instruction::INC(s) => exists|times: Seq<u64>| c2 == incdec_next(c, s, true, times),
        _ => false,
    }
}

/// [`executes`] for the 16-bit additions and the flag, interrupt-enable and low-power instructions.
#[verifier::opaque]
pub open spec fn executes_misc(c: CpuView, instruction: Instruction, c2: CpuView) -> bool {
    match instruction {
        Instruction::ADDHL(s) => c2 == add_hl_next(c, s),
        Instruction::ADDSP => c2 == add_sp_next(c),
        Instruction::CCF => c2 == ccf_next(c),
        Instruction::SCF => c2 == scf_next(c),
        Instruction::CPL => c2 == c.with_reg(alu_cpl_spec(c.reg)),
        Instruction::DAA => c2 == c.with_reg(alu_daa_spec(c.reg)),
        Instruction::DI => c2 == set_ime_next(c, false),
        Instruction::EI => c2 == set_ime_next(c, true),
        Instruction::HALT => c2 == halt_next(c),
        Instruction::STOP => c2 == stop_next(c),
        _ => false,
    }
}

/// [`executes`] for the jumps.
#[verifier::opaque]
pub open spec fn executes_jump(c: CpuView, instruction: Instruction, c2: CpuView) -> bool {
    match instruction {
        Instruction::JP(test) => c2 == jp_next(c, test),
        Instruction::JPHL => c2 == c.with_reg(Registers { pc: c.reg.hl(), ..c.reg }),
        Instruction::JR => c2 == jr_next(c),
        Instruction::JRIF(cond) => c2 == jr_if_next(c, cond),
        Instruction::NOP => c2 == c,
        _ => false,
    }
}

/// [`executes`] for the calls, returns and restarts.
#[verifier::opaque]
pub open spec fn executes_call(c: CpuView, instruction: Instruction, c2: CpuView) -> bool {
    match instruction {
        Instruction::CALL(test) => exists|times: Seq<u64>| c2 == call_next(c, test, times),
        Instruction::RET(test) => c2 == ret_next(c, test),
        Instruction::RETI => c2 == reti_next(c),
        Instruction::RST(v) => exists|t0: u64, t1: u64| c2 == c.rst_next(v, t0, t1),
        _ => false,
    }
}

/// [`executes`] for the loads and stack transfers.
#[verifier::opaque]
pub open spec fn executes_transfer(c: CpuView, instruction: Instruction, c2: CpuView) -> bool {
    match instruction {
        Instruction::LD(load) => exists|times: Seq<u64>| c2 == ld_next(c, load, times),
        Instruction::POP(s) => c2 == pop_instr_next(c, s),
        Instruction::PUSH(s) => exists|times: Seq<u64>| c2 == push_instr_next(c, s, times),
        _ => false,
    }
}

/// [`executes`] for the rotations of A.
#[verifier::opaque]
pub open spec fn executes_rotate_a(c: CpuView, instruction: Instruction, c2: CpuView) -> bool {
    match instruction {
        Instruction::RLA => c2 == rotate_a_next(c, ShiftOp::Rl),
        Instruction::RLCA => c2 == rotate_a_next(c, ShiftOp::Rlc),
        Instruction::RRA => c2 == rotate_a_next(c, ShiftOp::Rr),
        Instruction::RRCA => c2 == rotate_a_next(c, ShiftOp::Rrc),
        _ => false,
    }
}

/// [`executes`] for the CB-prefixed single-bit instructions.
#[verifier::opaque]
pub open spec fn executes_bit(c: CpuView, instruction: Instruction, c2: CpuView) -> bool {
    match instruction {
        Instruction::BIT(b, s) => c2 == bit_next(c, b, s),
        Instruction::RES(b, s) => exists|times: Seq<u64>| c2 == res_next(c, b, s, times),
        Instruction::SET(b, s) => exists|times: Seq<u64>| c2 == set_next(c, b, s, times),
        _ => false,
    }
}

/// [`executes`] for the CB-prefixed rotations.
#[verifier::opaque]
pub open spec fn executes_rotate(c: CpuView, instruction: Instruction, c2: CpuView) -> bool {
    match instruction {
        Instruction::RLC(s) => exists|times: Seq<u64>| c2 == shift_next(c, ShiftOp::Rlc, s, times),
        Instruction::RRC(s) => exists|times: Seq<u64>| c2 == shift_next(c, ShiftOp::Rrc, s, times),
        Instruction::RL(s) => exists|times: Seq<u64>| c2 == shift_next(c, ShiftOp::Rl, s, times),
        Instruction::RR(s) => exists|times: Seq<u64>| c2 == shift_next(c, ShiftOp::Rr, s, times),
        _ => false,
    }
}

/// [`executes`] for the CB-prefixed shifts and nibble swap.
#[verifier::opaque]
pub open spec fn executes_shift(c: CpuView, instruction: Instruction, c2: CpuView) -> bool {
    match instruction {
        Instruction::SLA(s) => exists|times: Seq<u64>| c2 == shift_next(c, ShiftOp::Sla, s, times),
        Instruction::SRA(s) => exists|times: Seq<u64>| c2 == shift_next(c, ShiftOp::Sra, s, times),
        Instruction::SRL(s) => exists|times: Seq<u64>| c2 == shift_next(c, ShiftOp::Srl, s, times),
        Instruction::SWAP(s) => exists|times: Seq<u64>| c2 == shift_next(c, ShiftOp::Swap, s, times),
        _ => false,
    }
}

/// Whether `c2` is a state in which `instruction` can leave the CPU when it runs from `c`:
/// each bus write may happen at any time of the clock, all else is determined.
pub open spec fn executes(c: CpuView, instruction: Instruction, c2: CpuView) -> bool {
    match instruction {
        Instruction::ADC(..) | Instruction::ADD(..) | Instruction::SUB(..) | Instruction::SBC(..) | Instruction::AND(..) | Instruction::XOR(..) | Instruction::OR(..) | Instruction::CP(..) | Instruction::DEC(..) | Instruction::INC(..) => executes_alu(c, instruction, c2),
        Instruction::ADDHL(..) | Instruction::ADDSP | Instruction::CCF | Instruction::SCF | Instruction::CPL | Instruction::DAA | Instruction::DI | Instruction::EI | Instruction::HALT | Instruction::STOP => executes_misc(c, instruction, c2),
        Instruction::JP(..) | Instruction::JPHL | Instruction::JR | Instruction::JRIF(..) | Instruction::NOP => executes_jump(c, instruction, c2),
        Instruction::CALL(..) | Instruction::RET(..) | Instruction::RETI | Instruction::RST(..) => executes_call(c, instruction, c2),
        Instruction::LD(..) | Instruction::POP(..) | Instruction::PUSH(..) => executes_transfer(c, instruction, c2),
        Instruction::RLA | Instruction::RLCA | Instruction::RRA | Instruction::RRCA => executes_rotate_a(c, instruction, c2),
        Instruction::BIT(..) | Instruction::RES(..) | Instruction::SET(..) => executes_bit(c, instruction, c2),
        Instruction::RLC(..) | Instruction::RRC(..) | Instruction::RL(..) | Instruction::RR(..) => executes_rotate(c, instruction, c2),
        Instruction::SLA(..) | Instruction::SRA(..) | Instruction::SRL(..) | Instruction::SWAP(..) => executes_shift(c, instruction, c2),
    }
}

/// Reads an 8-bit operand: a register, the byte at HL or the byte after the opcode.
fn read_operand8(cpu: &mut CPU, source: ArithmeticSource8) -> (res: u8)
    requires
        old(cpu)@.wf(),
    ensures
        (final(cpu)@, res) == operand8_next(old(cpu)@, source),
        final(cpu)@.wf(),
{
    match source {
        ArithmeticSource8::A => cpu.reg.a,
        ArithmeticSource8::B => cpu.reg.b,
        ArithmeticSource8::C => cpu.reg.c,
        ArithmeticSource8::D => cpu.reg.d,
        ArithmeticSource8::E => cpu.reg.e,
        ArithmeticSource8::H => cpu.reg.h,
        ArithmeticSource8::L => cpu.reg.l,
        ArithmeticSource8::HLI => cpu.read_byte_at_hl(),
        ArithmeticSource8::D8 => cpu.read_byte_at_pc(),
    }
}

/// Sets a register operand (A-L).
fn write_reg8(cpu: &mut CPU, target: ArithmeticSource8, value: u8)
    ensures
        final(cpu)@ == old(cpu)@.with_reg(set_reg8(old(cpu).reg, target, value)),
{
    match target {
        ArithmeticSource8::A => cpu.reg.a = value,
        ArithmeticSource8::B => cpu.reg.b = value,
        ArithmeticSource8::C => cpu.reg.c = value,
        ArithmeticSource8::D => cpu.reg.d = value,
        ArithmeticSource8::E => cpu.reg.e = value,
        ArithmeticSource8::H => cpu.reg.h = value,
        ArithmeticSource8::L => cpu.reg.l = value,
        _ => {},
    }
}

/// Runs an accumulator operation on an operand.
fn accumulate(cpu: &mut CPU, op: AccOp, source: ArithmeticSource8)
    requires
        old(cpu)@.wf(),
    ensures
        final(cpu)@ == acc_next(old(cpu)@, op, source),
        final(cpu)@.wf(),
{
    proof {
        reveal(acc_next);
    }
    let value = read_operand8(cpu, source);
    match op {
        AccOp::Add => cpu.alu_add(value),
        AccOp::Adc => cpu.alu_adc(value),
        AccOp::Sub => cpu.alu_sub(value),
        AccOp::Sbc => cpu.alu_sbc(value),
        AccOp::And => cpu.alu_and(value),
        AccOp::Xor => cpu.alu_xor(value),
        AccOp::Or => cpu.alu_or(value),
        AccOp::Cp => cpu.alu_cp(value),
    }
}

/// Adds an operand to A.
fn add(cpu: &mut CPU, source: ArithmeticSource8)
    requires
        old(cpu)@.wf(),
    ensures
        final(cpu)@ == acc_next(old(cpu)@, AccOp::Add, source),
        final(cpu)@.wf(),
{
    proof {
        reveal(acc_next);
    }
    accumulate(cpu, AccOp::Add, source)
}

/// Adds an operand and the carry to A.
fn adc(cpu: &mut CPU, source: ArithmeticSource8)
    requires
        old(cpu)@.wf(),
    ensures
        final(cpu)@ == acc_next(old(cpu)@, AccOp::Adc, source),
        final(cpu)@.wf(),
{
    proof {
        reveal(acc_next);
    }
    accumulate(cpu, AccOp::Adc, source)
}

fn sub(cpu: &mut CPU, source: ArithmeticSource8)
    requires
        old(cpu)@.wf(),
    ensures
        final(cpu)@ == acc_next(old(cpu)@, AccOp::Sub, source),
        final(cpu)@.wf(),
{
    proof {
        reveal(acc_next);
    }
    accumulate(cpu, AccOp::Sub, source)
}

fn sbc(cpu: &mut CPU, source: ArithmeticSource8)
    requires
        old(cpu)@.wf(),
    ensures
        final(cpu)@ == acc_next(old(cpu)@, AccOp::Sbc, source),
        final(cpu)@.wf(),
{
    proof {
        reveal(acc_next);
    }
    accumulate(cpu, AccOp::Sbc, source)
}

fn and(cpu: &mut CPU, source: ArithmeticSource8)
    requires
        old(cpu)@.wf(),
    ensures
        final(cpu)@ == acc_next(old(cpu)@, AccOp::And, source),
        final(cpu)@.wf(),
{
    proof {
        reveal(acc_next);
    }
    accumulate(cpu, AccOp::And, source)
}

fn xor(cpu: &mut CPU, source: ArithmeticSource8)
    requires
        old(cpu)@.wf(),
    ensures
        final(cpu)@ == acc_next(old(cpu)@, AccOp::Xor, source),
        final(cpu)@.wf(),
{
    proof {
        reveal(acc_next);
    }
    accumulate(cpu, AccOp::Xor, source)
}

fn or(cpu: &mut CPU, source: ArithmeticSource8)
    requires
        old(cpu)@.wf(),
    ensures
        final(cpu)@ == acc_next(old(cpu)@, AccOp::Or, source),
        final(cpu)@.wf(),
{
    proof {
        reveal(acc_next);
    }
    accumulate(cpu, AccOp::Or, source)
}

fn cp(cpu: &mut CPU, source: ArithmeticSource8)
    requires
        old(cpu)@.wf(),
    ensures
        final(cpu)@ == acc_next(old(cpu)@, AccOp::Cp, source),
        final(cpu)@.wf(),
{
    proof {
        reveal(acc_next);
    }
    accumulate(cpu, AccOp::Cp, source)
}

/// Applies a rotation or shift to a value (one internal M-cycle).
fn apply_shift(cpu: &mut CPU, op: ShiftOp, value: u8) -> (res: u8)
    requires
        old(cpu)@.wf(),
    ensures
        res == shift_spec(op, old(cpu).reg.f, value).0,
        final(cpu)@ == old(cpu)@.with_reg(Registers { f: shift_spec(op, old(cpu).reg.f, value).1, ..old(cpu).reg }).tick4_next(),
        final(cpu)@.wf(),
{
    match op {
        ShiftOp::Rlc => cpu.alu_rlc(value),
        ShiftOp::Rrc => cpu.alu_rrc(value),
        ShiftOp::Rl => cpu.alu_rl(value),
        ShiftOp::Rr => cpu.alu_rr(value),
        ShiftOp::Sla => cpu.alu_sla(value),
        ShiftOp::Sra => cpu.alu_sra(value),
        ShiftOp::Srl => cpu.alu_srl(value),
        ShiftOp::Swap => cpu.alu_swap(value),
    }
}

/// A rotation or shift of a register or of the byte at HL.
fn shift(cpu: &mut CPU, op: ShiftOp, target: ArithmeticSource8)
    requires
        old(cpu)@.wf(),
        target != ArithmeticSource8::D8,
    ensures
        exists|times: Seq<u64>| final(cpu)@ == shift_next(old(cpu)@, op, target, times),
        final(cpu)@.wf(),
{
    proof {
        reveal(shift_next);
    }
    if let ArithmeticSource8::HLI = target {
        let addr = cpu.reg.get_hl();
        let old_value = cpu.read_byte(addr);
        let new_value = apply_shift(cpu, op, old_value);
        let ghost mid = cpu@;
        cpu.write_byte(addr, new_value);
        proof {
            let w = choose|now: u64| cpu@ == mid.write_next(addr, new_value, now);
            assert(cpu@ == shift_next(old(cpu)@, op, target, seq![w]));
        }
    } else {
        let value = read_operand8(cpu, target);
        let new_value = apply_shift(cpu, op, value);
        write_reg8(cpu, target, new_value);
        assert(cpu@ == shift_next(old(cpu)@, op, target, Seq::empty()));
    }
}

fn rlc(cpu: &mut CPU, target: ArithmeticSource8)
    requires
        old(cpu)@.wf(),
        target != ArithmeticSource8::D8,
    ensures
        exists|times: Seq<u64>| final(cpu)@ == shift_next(old(cpu)@, ShiftOp::Rlc, target, times),
        final(cpu)@.wf(),
{
    proof {
        reveal(shift_next);
    }
    shift(cpu, ShiftOp::Rlc, target)
}

fn rrc(cpu: &mut CPU, target: ArithmeticSource8)
    requires
        old(cpu)@.wf(),
        target != ArithmeticSource8::D8,
    ensures
        exists|times: Seq<u64>| final(cpu)@ == shift_next(old(cpu)@, ShiftOp::Rrc, target, times),
        final(cpu)@.wf(),
{
    proof {
        reveal(shift_next);
    }
    shift(cpu, ShiftOp::Rrc, target)
}

fn rl(cpu: &mut CPU, target: ArithmeticSource8)
    requires
        old(cpu)@.wf(),
        target != ArithmeticSource8::D8,
    ensures
        exists|times: Seq<u64>| final(cpu)@ == shift_next(old(cpu)@, ShiftOp::Rl, target, times),
        final(cpu)@.wf(),
{
    proof {
        reveal(shift_next);
    }
    shift(cpu, ShiftOp::Rl, target)
}

fn rr(cpu: &mut CPU, target: ArithmeticSource8)
    requires
        old(cpu)@.wf(),
        target != ArithmeticSource8::D8,
    ensures
        exists|times: Seq<u64>| final(cpu)@ == shift_next(old(cpu)@, ShiftOp::Rr, target, times),
        final(cpu)@.wf(),
{
    proof {
        reveal(shift_next);
    }
    shift(cpu, ShiftOp::Rr, target)
}

fn sla(cpu: &mut CPU, target: ArithmeticSource8)
    requires
        old(cpu)@.wf(),
        target != ArithmeticSource8::D8,
    ensures
        exists|times: Seq<u64>| final(cpu)@ == shift_next(old(cpu)@, ShiftOp::Sla, target, times),
        final(cpu)@.wf(),
{
    proof {
        reveal(shift_next);
    }
    shift(cpu, ShiftOp::Sla, target)
}

fn sra(cpu: &mut CPU, target: ArithmeticSource8)
    requires
        old(cpu)@.wf(),
        target != ArithmeticSource8::D8,
    ensures
        exists|times: Seq<u64>| final(cpu)@ == shift_next(old(cpu)@, ShiftOp::Sra, target, times),
        final(cpu)@.wf(),
{
    proof {
        reveal(shift_next);
    }
    shift(cpu, ShiftOp::Sra, target)
}

fn srl(cpu: &mut CPU, target: ArithmeticSource8)
    requires
        old(cpu)@.wf(),
        target != ArithmeticSource8::D8,
    ensures
        exists|times: Seq<u64>| final(cpu)@ == shift_next(old(cpu)@, ShiftOp::Srl, target, times),
        final(cpu)@.wf(),
{
    proof {
        reveal(shift_next);
    }
    shift(cpu, ShiftOp::Srl, target)
}

fn swap(cpu: &mut CPU, target: ArithmeticSource8)
    requires
        old(cpu)@.wf(),
        target != ArithmeticSource8::D8,
    ensures
        exists|times: Seq<u64>| final(cpu)@ == shift_next(old(cpu)@, ShiftOp::Swap, target, times),
        final(cpu)@.wf(),
{
    proof {
        reveal(shift_next);
    }
    shift(cpu, ShiftOp::Swap, target)
}

/// Accumulator rotation: like the CB form on A, with Z cleared.
fn rotate_a(cpu: &mut CPU, op: ShiftOp)
    requires
        old(cpu)@.wf(),
    ensures
        final(cpu)@ == rotate_a_next(old(cpu)@, op),
        final(cpu)@.wf(),
{
    proof {
        reveal(rotate_a_next);
    }
    let v = apply_shift(cpu, op, cpu.reg.a);
    cpu.reg.a = v;
    cpu.reg.f.z = false;
}

fn rla(cpu: &mut CPU)
    requires
        old(cpu)@.wf(),
    ensures
        final(cpu)@ == rotate_a_next(old(cpu)@, ShiftOp::Rl),
        final(cpu)@.wf(),
{
    proof {
        reveal(rotate_a_next);
    }
    rotate_a(cpu, ShiftOp::Rl)
}

fn rlca(cpu: &mut CPU)
    requires
        old(cpu)@.wf(),
    ensures
        final(cpu)@ == rotate_a_next(old(cpu)@, ShiftOp::Rlc),
        final(cpu)@.wf(),
{
    proof {
        reveal(rotate_a_next);
    }
    rotate_a(cpu, ShiftOp::Rlc)
}

fn rra(cpu: &mut CPU)
    requires
        old(cpu)@.wf(),
    ensures
        final(cpu)@ == rotate_a_next(old(cpu)@, ShiftOp::Rr),
        final(cpu)@.wf(),
{
    proof {
        reveal(rotate_a_next);
    }
    rotate_a(cpu, ShiftOp::Rr)
}

fn rrca(cpu: &mut CPU)
    requires
        old(cpu)@.wf(),
    ensures
        final(cpu)@ == rotate_a_next(old(cpu)@, ShiftOp::Rrc),
        final(cpu)@.wf(),
{
    proof {
        reveal(rotate_a_next);
    }
    rotate_a(cpu, ShiftOp::Rrc)
}

/// INC or DEC of one of the registers A-L.
fn inc_dec_reg(cpu: &mut CPU, value: IncDecSource, inc: bool)
    ensures
        final(cpu)@ == incdec_reg_next(old(cpu)@, value, inc),
{
    let current = match value {
        IncDecSource::A => cpu.reg.a,
        IncDecSource::B => cpu.reg.b,
        IncDecSource::C => cpu.reg.c,
        IncDecSource::D => cpu.reg.d,
        IncDecSource::E => cpu.reg.e,
        IncDecSource::H => cpu.reg.h,
        _ => cpu.reg.l,
    };
    let v = if inc { cpu.alu_inc(current) } else { cpu.alu_dec(current) };
    match value {
        IncDecSource::A => cpu.reg.a = v,
        IncDecSource::B => cpu.reg.b = v,
        IncDecSource::C => cpu.reg.c = v,
        IncDecSource::D => cpu.reg.d = v,
        IncDecSource::E => cpu.reg.e = v,
        IncDecSource::H => cpu.reg.h = v,
        _ => cpu.reg.l = v,
    }
}

/// INC or DEC of one of the 16-bit registers.
#[verifier::rlimit(60)]
fn inc_dec_pair(cpu: &mut CPU, value: IncDecSource, inc: bool)
    requires
        old(cpu)@.wf(),
    ensures
        final(cpu)@ == incdec_pair_next(old(cpu)@, value, inc),
        final(cpu)@.wf(),
{
    match value {
        IncDecSource::BC => {
            let r = if inc { cpu.alu_inc_16(cpu.reg.get_bc()) } else { cpu.alu_dec_16(cpu.reg.get_bc()) };
            cpu.reg.set_bc(r);
        },
        IncDecSource::DE => {
            let r = if inc { cpu.alu_inc_16(cpu.reg.get_de()) } else { cpu.alu_dec_16(cpu.reg.get_de()) };
            cpu.reg.set_de(r);
        },
        IncDecSource::HL => {
            let r = if inc { cpu.alu_inc_16(cpu.reg.get_hl()) } else { cpu.alu_dec_16(cpu.reg.get_hl()) };
            cpu.reg.set_hl(r);
        },
        _ => {
            let r = if inc { cpu.alu_inc_16(cpu.reg.sp) } else { cpu.alu_dec_16(cpu.reg.sp) };
            cpu.reg.sp = r;
        },
    }
}

/// INC or DEC of an operand.
fn inc_dec(cpu: &mut CPU, value: IncDecSource, inc: bool)
    requires
        old(cpu)@.wf(),
    ensures
        exists|times: Seq<u64>| final(cpu)@ == incdec_next(old(cpu)@, value, inc, times),
        final(cpu)@.wf(),
{
    proof {
        reveal(incdec_next);
    }
    match value {
        IncDecSource::HLI => {
            let hl = cpu.reg.get_hl();
            let old_value = cpu.read_byte(hl);
            let new_value = if inc { cpu.alu_inc(old_value) } else { cpu.alu_dec(old_value) };
            let ghost mid = cpu@;
            cpu.write_byte(hl, new_value);
            proof {
                let w = choose|now: u64| cpu@ == mid.write_next(hl, new_value, now);
                assert(cpu@ == incdec_next(old(cpu)@, value, inc, seq![w]));
            }
        },
        IncDecSource::BC | IncDecSource::DE | IncDecSource::HL | IncDecSource::SP => {
            inc_dec_pair(cpu, value, inc);
            assert(cpu@ == incdec_next(old(cpu)@, value, inc, Seq::empty()));
        },
        _ => {
            inc_dec_reg(cpu, value, inc);
            assert(cpu@ == incdec_next(old(cpu)@, value, inc, Seq::empty()));
        },
    }
}

fn dec(cpu: &mut CPU, value: IncDecSource)
    requires
        old(cpu)@.wf(),
    ensures
        exists|times: Seq<u64>| final(cpu)@ == incdec_next(old(cpu)@, value, false, times),
        final(cpu)@.wf(),
{
    proof {
        reveal(incdec_next);
    }
    inc_dec(cpu, value, false)
}

fn inc(cpu: &mut CPU, value: IncDecSource)
    requires
        old(cpu)@.wf(),
    ensures
        exists|times: Seq<u64>| final(cpu)@ == incdec_next(old(cpu)@, value, true, times),
        final(cpu)@.wf(),
{
    proof {
        reveal(incdec_next);
    }
    inc_dec(cpu, value, true)
}

/// Adds a register pair to HL.
fn add_hl(cpu: &mut CPU, source: ArithmeticSource16)
    requires
        old(cpu)@.wf(),
    ensures
        final(cpu)@ == add_hl_next(old(cpu)@, source),
        final(cpu)@.wf(),
{
    proof {
        reveal(add_hl_next);
    }
    let value = match source {
        ArithmeticSource16::BC => cpu.reg.get_bc(),
        ArithmeticSource16::DE => cpu.reg.get_de(),
        ArithmeticSource16::HL => cpu.reg.get_hl(),
        ArithmeticSource16::SP => cpu.reg.sp,
    };
    cpu.alu_add_hl(value);
}

/// Adds the signed byte after the opcode to SP.
fn add_sp(cpu: &mut CPU)
    requires
        old(cpu)@.wf(),
    ensures
        final(cpu)@ == add_sp_next(old(cpu)@),
        final(cpu)@.wf(),
{
    proof {
        reveal(add_sp_next);
    }
    let value = cpu.read_byte_at_pc();
    cpu.alu_add_sp(value);
}

fn scf(cpu: &mut CPU)
    requires
        old(cpu)@.wf(),
    ensures
        final(cpu)@ == scf_next(old(cpu)@),
        final(cpu)@.wf(),
{
    proof {
        reveal(scf_next);
    }
    cpu.reg.f.n = false;
    cpu.reg.f.h = false;
    cpu.reg.f.c = true;
}

fn ccf(cpu: &mut CPU)
    requires
        old(cpu)@.wf(),
    ensures
        final(cpu)@ == ccf_next(old(cpu)@),
        final(cpu)@.wf(),
{
    proof {
        reveal(ccf_next);
    }
    cpu.reg.f.n = false;
    cpu.reg.f.h = false;
    cpu.reg.f.c = !cpu.reg.f.c;
}

/// Calls the address after the opcode when the condition holds.
fn call(cpu: &mut CPU, test: Option<FlagCondition>)
    requires
        old(cpu)@.wf(),
    ensures
        exists|times: Seq<u64>| final(cpu)@ == call_next(old(cpu)@, test, times),
        final(cpu)@.wf(),
{
    proof {
        reveal(call_next);
    }
    let target_addr = cpu.read_word_at_pc();
    if cpu.test_jump_condition(test) {
        let ghost m = cpu@;
        cpu.alu_push(cpu.reg.pc);
        proof {
            let (t0, t1) = choose|t0: u64, t1: u64| cpu@ == m.push_next(m.reg.pc, t0, t1);
            assert(cpu@.with_reg(Registers { pc: target_addr, ..cpu@.reg }) == call_next(old(cpu)@, test, seq![t0, t1]));
        }
        cpu.reg.pc = target_addr;
    } else {
        assert(cpu@ == call_next(old(cpu)@, test, Seq::empty()));
    }
}

/// Jumps to the address after the opcode when the condition holds.
fn jp(cpu: &mut CPU, test: Option<FlagCondition>)
    requires
        old(cpu)@.wf(),
    ensures
        final(cpu)@ == jp_next(old(cpu)@, test),
        final(cpu)@.wf(),
{
    proof {
        reveal(jp_next);
    }
    let target_addr = cpu.read_word_at_pc();
    if cpu.test_jump_condition(test) {
        cpu.alu_jp(target_addr);
    }
}

fn jr(cpu: &mut CPU)
    requires
        old(cpu)@.wf(),
    ensures
        final(cpu)@ == jr_next(old(cpu)@),
        final(cpu)@.wf(),
{
    proof {
        reveal(jr_next);
    }
    let offset = cpu.read_byte_at_pc();
    cpu.alu_jr(offset);
}

fn jr_if(cpu: &mut CPU, condition: FlagCondition)
    requires
        old(cpu)@.wf(),
    ensures
        final(cpu)@ == jr_if_next(old(cpu)@, condition),
        final(cpu)@.wf(),
{
    proof {
        reveal(jr_if_next);
    }
    let offset = cpu.read_byte_at_pc();
    if cpu.test_flag_condition(condition) {
        cpu.alu_jr(offset);
    }
}

fn pop(cpu: &mut CPU, target: StackOperand)
    requires
        old(cpu)@.wf(),
    ensures
        final(cpu)@ == pop_instr_next(old(cpu)@, target),
        final(cpu)@.wf(),
{
    proof {
        reveal(pop_instr_next);
    }
    let result = cpu.alu_pop();
    match target {
        StackOperand::AF => cpu.reg.set_af(result),
        StackOperand::BC => cpu.reg.set_bc(result),
        StackOperand::DE => cpu.reg.set_de(result),
        StackOperand::HL => cpu.reg.set_hl(result),
    }
}

fn push(cpu: &mut CPU, source: StackOperand)
    requires
        old(cpu)@.wf(),
    ensures
        exists|times: Seq<u64>| final(cpu)@ == push_instr_next(old(cpu)@, source, times),
        final(cpu)@.wf(),
{
    proof {
        reveal(push_instr_next);
    }
    let value = match source {
        StackOperand::AF => cpu.reg.get_af(),
        StackOperand::BC => cpu.reg.get_bc(),
        StackOperand::DE => cpu.reg.get_de(),
        StackOperand::HL => cpu.reg.get_hl(),
    };
    cpu.alu_push(value);
    proof {
        let (t0, t1) = choose|t0: u64, t1: u64| cpu@ == old(cpu)@.push_next(value, t0, t1);
        assert(cpu@ == push_instr_next(old(cpu)@, source, seq![t0, t1]));
    }
}

/// Returns when the condition holds (one more M-cycle for a conditional return).
#[verifier::rlimit(60)]
fn ret(cpu: &mut CPU, test: Option<FlagCondition>)
    requires
        old(cpu)@.wf(),
    ensures
        final(cpu)@ == ret_next(old(cpu)@, test),
        final(cpu)@.wf(),
{
    proof {
        reveal(ret_next);
    }
    if cpu.test_jump_condition(test) {
        let ghost c0 = cpu@;
        if let Some(_) = test {
            cpu.tick4();
        }
        let ghost c1 = cpu@;
        assert(c1 == (if test is Some { c0.tick4_next() } else { c0 }));
        let v = cpu.alu_pop();
        cpu.reg.pc = v;
        cpu.tick4();
    }
}

fn reti(cpu: &mut CPU)
    requires
        old(cpu)@.wf(),
    ensures
        final(cpu)@ == reti_next(old(cpu)@),
        final(cpu)@.wf(),
{
    proof {
        reveal(reti_next);
    }
    cpu.ime = true;
    let v = cpu.alu_pop();
    cpu.reg.pc = v;
}

/// DI clears IME; EI sets it after the next instruction.
fn set_ime(cpu: &mut CPU, value: bool)
    requires
        old(cpu)@.wf(),
    ensures
        final(cpu)@ == set_ime_next(old(cpu)@, value),
        final(cpu)@.wf(),
{
    proof {
        reveal(set_ime_next);
    }
    if value {
        cpu.mode = CpuMode::EnableIME;
    } else {
        cpu.ime = false;
    }
}

fn halt(cpu: &mut CPU)
    requires
        old(cpu)@.wf(),
    ensures
        final(cpu)@ == halt_next(old(cpu)@),
        final(cpu)@.wf(),
{
    proof {
        reveal(halt_next);
    }
    if cpu.ime {
        cpu.mode = CpuMode::Halt;
    } else {
        let int_f = cpu.bus.read_byte(0xFF0F);
        let int_e = cpu.bus.read_byte(0xFFFF);
        proof {
            reveal(bus_read);
        }
        if int_f & int_e & 0x1F != 0 {
            cpu.mode = CpuMode::HaltBug;
        } else {
            cpu.mode = CpuMode::HaltDI;
        }
    }
}

fn stop(cpu: &mut CPU)
    requires
        old(cpu)@.wf(),
    ensures
        final(cpu)@ == stop_next(old(cpu)@),
        final(cpu)@.wf(),
{
    proof {
        reveal(stop_next);
    }
    cpu.reg.pc = cpu.reg.pc.wrapping_add(1);
    if cpu.bus.is_speed_switch_prepared() {
        cpu.bus.perform_speed_switch();
    } else {
        cpu.mode = CpuMode::Stop;
    }
}

/// BIT: tests a bit of a register or of the byte at HL.
fn set_bit(cpu: &mut CPU, bit: u8, target: ArithmeticSource8)
    requires
        old(cpu)@.wf(),
        target != ArithmeticSource8::D8,
    ensures
        final(cpu)@ == bit_next(old(cpu)@, bit, target),
        final(cpu)@.wf(),
{
    proof {
        reveal(bit_next);
    }
    let value = read_operand8(cpu, target);
    cpu.alu_bit(bit, value);
}

/// RES: clears a bit of a register or of the byte at HL.
fn res(cpu: &mut CPU, bit: u8, target: ArithmeticSource8)
    requires
        old(cpu)@.wf(),
        bit < 8,
        target != ArithmeticSource8::D8,
    ensures
        exists|times: Seq<u64>| final(cpu)@ == res_next(old(cpu)@, bit, target, times),
        final(cpu)@.wf(),
{
    proof {
        reveal(res_next);
    }
    let inverted_mask: u8 = !(1u8 << bit);
    cpu.tick4();
    if let ArithmeticSource8::HLI = target {
        let addr = cpu.reg.get_hl();
        let value = cpu.read_byte(addr);
        let ghost mid = cpu@;
        cpu.write_byte(addr, value & inverted_mask);
        proof {
            let w = choose|now: u64| cpu@ == mid.write_next(addr, value & inverted_mask, now);
            assert(cpu@ == res_next(old(cpu)@, bit, target, seq![w]));
        }
    } else {
        let value = read_operand8(cpu, target);
        write_reg8(cpu, target, value & inverted_mask);
        assert(cpu@ == res_next(old(cpu)@, bit, target, Seq::empty()));
    }
}

/// SET: sets a bit of a register or of the byte at HL.
fn set(cpu: &mut CPU, bit: u8, target: ArithmeticSource8)
    requires
        old(cpu)@.wf(),
        target != ArithmeticSource8::D8,
    ensures
        exists|times: Seq<u64>| final(cpu)@ == set_next(old(cpu)@, bit, target, times),
        final(cpu)@.wf(),
{
    proof {
        reveal(set_next);
    }
    if let ArithmeticSource8::HLI = target {
        let addr = cpu.reg.get_hl();
        let old_value = cpu.read_byte(addr);
        let new_value = cpu.alu_set(bit, old_value);
        let ghost mid = cpu@;
        cpu.write_byte(addr, new_value);
        proof {
            let w = choose|now: u64| cpu@ == mid.write_next(addr, new_value, now);
            assert(cpu@ == set_next(old(cpu)@, bit, target, seq![w]));
        }
    } else {
        let value = read_operand8(cpu, target);
        let new_value = cpu.alu_set(bit, value);
        write_reg8(cpu, target, new_value);
        assert(cpu@ == set_next(old(cpu)@, bit, target, Seq::empty()));
    }
}

} // verus!
