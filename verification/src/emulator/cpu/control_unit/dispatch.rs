use vstd::prelude::*;
use crate::emulator::cpu::{CPU, CpuMode, CpuView};
use crate::emulator::cpu::instructions::instruction::Instruction;
use crate::emulator::cpu::control_unit::load::ld;
use crate::emulator::cpu::control_unit::{
    set_ime_next, executes, executes_alu, executes_misc, executes_jump, executes_call, executes_transfer, executes_rotate_a,
    executes_bit, executes_rotate, executes_shift, instruction_valid, adc, sbc, and, xor, or, cp, add_hl, add_sp, ccf, scf, dec, inc, call,
    set_ime, halt, stop, jp, jr, jr_if, pop, push, ret, reti, rla, rlca, rra, rrca, set_bit, res, rlc,
    rrc, rl, rr, sla, sra, srl, swap,
};

verus! {

/// Runs one of the arithmetic and logic instructions on A and the 8-bit increments.
fn execute_alu(cpu: &mut CPU, instruction: Instruction)
    requires
        old(cpu)@.wf(),
        instruction is ADC || instruction is ADD || instruction is SUB || instruction is SBC || instruction is AND || instruction is XOR || instruction is OR || instruction is CP || instruction is DEC || instruction is INC,
    ensures
        executes(old(cpu)@, instruction, final(cpu)@),
        final(cpu)@.wf(),
{
    proof {
        reveal(executes_alu);
    }
    match instruction {
        Instruction::ADC(s) => adc(cpu, s),
        Instruction::ADD(s) => super::add(cpu, s),
        Instruction::SUB(s) => super::sub(cpu, s),
        Instruction::SBC(s) => sbc(cpu, s),
        Instruction::AND(s) => and(cpu, s),
        Instruction::XOR(s) => xor(cpu, s),
        Instruction::OR(s) => or(cpu, s),
        Instruction::CP(s) => cp(cpu, s),
        Instruction::DEC(s) => dec(cpu, s),
        Instruction::INC(s) => inc(cpu, s),
        _ => {},
    }
}

/// Runs one of the 16-bit additions and the flag, interrupt-enable and low-power instructions.
fn execute_misc(cpu: &mut CPU, instruction: Instruction)
    requires
        old(cpu)@.wf(),
        instruction is ADDHL || instruction is ADDSP || instruction is CCF || instruction is SCF || instruction is CPL || instruction is DAA || instruction is DI || instruction is EI || instruction is HALT || instruction is STOP,
    ensures
        executes(old(cpu)@, instruction, final(cpu)@),
        final(cpu)@.wf(),
{
    proof {
        reveal(executes_misc);
    }
    match instruction {
        Instruction::ADDHL(s) => add_hl(cpu, s),
        Instruction::ADDSP => add_sp(cpu),
        Instruction::CCF => ccf(cpu),
        Instruction::SCF => scf(cpu),
        Instruction::CPL => cpu.alu_cpl(),
        Instruction::DAA => cpu.alu_daa(),
        Instruction::DI => set_ime(cpu, false),
        Instruction::EI => set_ime(cpu, true),
        Instruction::HALT => halt(cpu),
        Instruction::STOP => stop(cpu),
        _ => {},
    }
}

/// Runs one of the jumps.
fn execute_jump(cpu: &mut CPU, instruction: Instruction)
    requires
        old(cpu)@.wf(),
        instruction is JP || instruction is JPHL || instruction is JR || instruction is JRIF || instruction is NOP,
    ensures
        executes(old(cpu)@, instruction, final(cpu)@),
        final(cpu)@.wf(),
{
    proof {
        reveal(executes_jump);
    }
    match instruction {
        Instruction::JP(test) => jp(cpu, test),
        Instruction::JPHL => cpu.reg.pc = cpu.reg.get_hl(),
        Instruction::JR => jr(cpu),
        Instruction::JRIF(cond) => jr_if(cpu, cond),
        Instruction::NOP => {},
        _ => {},
    }
}

/// Runs one of the calls, returns and restarts.
fn execute_call(cpu: &mut CPU, instruction: Instruction)
    requires
        old(cpu)@.wf(),
        instruction is CALL || instruction is RET || instruction is RETI || instruction is RST,
    ensures
        executes(old(cpu)@, instruction, final(cpu)@),
        final(cpu)@.wf(),
{
    proof {
        reveal(executes_call);
    }
    match instruction {
        Instruction::CALL(test) => call(cpu, test),
        Instruction::RET(test) => ret(cpu, test),
        Instruction::RETI => reti(cpu),
        Instruction::RST(v) => cpu.alu_rst(v),
        _ => {},
    }
}

/// Runs one of the loads and stack transfers.
fn execute_transfer(cpu: &mut CPU, instruction: Instruction)
    requires
        old(cpu)@.wf(),
        instruction is LD || instruction is POP || instruction is PUSH,
    ensures
        executes(old(cpu)@, instruction, final(cpu)@),
        final(cpu)@.wf(),
{
    proof {
        reveal(executes_transfer);
    }
    match instruction {
        Instruction::LD(load) => ld(cpu, load),
        Instruction::POP(s) => pop(cpu, s),
        Instruction::PUSH(s) => push(cpu, s),
        _ => {},
    }
}

/// Runs one of the rotations of A.
fn execute_rotate_a(cpu: &mut CPU, instruction: Instruction)
    requires
        old(cpu)@.wf(),
        instruction is RLA || instruction is RLCA || instruction is RRA || instruction is RRCA,
    ensures
        executes(old(cpu)@, instruction, final(cpu)@),
        final(cpu)@.wf(),
{
    proof {
        reveal(executes_rotate_a);
    }
    match instruction {
        Instruction::RLA => rla(cpu),
        Instruction::RLCA => rlca(cpu),
        Instruction::RRA => rra(cpu),
        Instruction::RRCA => rrca(cpu),
        _ => {},
    }
}

/// Runs one of the CB-prefixed single-bit instructions.
fn execute_bit(cpu: &mut CPU, instruction: Instruction)
    requires
        old(cpu)@.wf(),
        instruction_valid(instruction),
        instruction is BIT || instruction is RES || instruction is SET,
    ensures
        executes(old(cpu)@, instruction, final(cpu)@),
        final(cpu)@.wf(),
{
    proof {
        reveal(executes_bit);
    }
    match instruction {
        Instruction::BIT(b, s) => set_bit(cpu, b, s),
        Instruction::RES(b, s) => res(cpu, b, s),
        Instruction::SET(b, s) => super::set(cpu, b, s),
        _ => {},
    }
}

/// Runs one of the CB-prefixed rotations.
fn execute_rotate(cpu: &mut CPU, instruction: Instruction)
    requires
        old(cpu)@.wf(),
        instruction_valid(instruction),
        instruction is RLC || instruction is RRC || instruction is RL || instruction is RR,
    ensures
        executes(old(cpu)@, instruction, final(cpu)@),
        final(cpu)@.wf(),
{
    proof {
        reveal(executes_rotate);
    }
    match instruction {
        Instruction::RLC(s) => rlc(cpu, s),
        Instruction::RRC(s) => rrc(cpu, s),
        Instruction::RL(s) => rl(cpu, s),
        Instruction::RR(s) => rr(cpu, s),
        _ => {},
    }
}

/// Runs one of the CB-prefixed shifts and nibble swap.
fn execute_shift(cpu: &mut CPU, instruction: Instruction)
    requires
        old(cpu)@.wf(),
        instruction_valid(instruction),
        instruction is SLA || instruction is SRA || instruction is SRL || instruction is SWAP,
    ensures
        executes(old(cpu)@, instruction, final(cpu)@),
        final(cpu)@.wf(),
{
    proof {
        reveal(executes_shift);
    }
    match instruction {
        Instruction::SLA(s) => sla(cpu, s),
        Instruction::SRA(s) => sra(cpu, s),
        Instruction::SRL(s) => srl(cpu, s),
        Instruction::SWAP(s) => swap(cpu, s),
        _ => {},
    }
}

/// Executes one decoded instruction, after its opcode bytes have been fetched.
pub fn execute(cpu: &mut CPU, instruction: Instruction)
    requires
        old(cpu)@.wf(),
        instruction_valid(instruction),
    ensures
        executes(old(cpu)@, instruction, final(cpu)@),
        final(cpu)@.wf(),
{
    match instruction {
        Instruction::ADC(..) | Instruction::ADD(..) | Instruction::SUB(..) | Instruction::SBC(..) | Instruction::AND(..) | Instruction::XOR(..) | Instruction::OR(..) | Instruction::CP(..) | Instruction::DEC(..) | Instruction::INC(..) => execute_alu(cpu, instruction),
        Instruction::ADDHL(..) | Instruction::ADDSP | Instruction::CCF | Instruction::SCF | Instruction::CPL | Instruction::DAA | Instruction::DI | Instruction::EI | Instruction::HALT | Instruction::STOP => execute_misc(cpu, instruction),
        Instruction::JP(..) | Instruction::JPHL | Instruction::JR | Instruction::JRIF(..) | Instruction::NOP => execute_jump(cpu, instruction),
        Instruction::CALL(..) | Instruction::RET(..) | Instruction::RETI | Instruction::RST(..) => execute_call(cpu, instruction),
        Instruction::LD(..) | Instruction::POP(..) | Instruction::PUSH(..) => execute_transfer(cpu, instruction),
        Instruction::RLA | Instruction::RLCA | Instruction::RRA | Instruction::RRCA => execute_rotate_a(cpu, instruction),
        Instruction::BIT(..) | Instruction::RES(..) | Instruction::SET(..) => execute_bit(cpu, instruction),
        Instruction::RLC(..) | Instruction::RRC(..) | Instruction::RL(..) | Instruction::RR(..) => execute_rotate(cpu, instruction),
        Instruction::SLA(..) | Instruction::SRA(..) | Instruction::SRL(..) | Instruction::SWAP(..) => execute_shift(cpu, instruction),
    }
}

/// EI takes effect one instruction late: it leaves IME as it was and puts the CPU in the
/// mode in which the next step sets IME first; DI clears IME at once.
pub proof fn lemma_ei_delayed_di_immediate(c: CpuView, c2: CpuView, c3: CpuView)
    requires
        executes(c, Instruction::EI, c2),
        executes(c, Instruction::DI, c3),
    ensures
        c2.ime == c.ime,
        c2.mode == CpuMode::EnableIME,
        !c3.ime,
        c3.mode == c.mode,
{
    reveal(executes_misc);
    reveal(set_ime_next);
}

} // verus!
