use vstd::prelude::*;
use crate::emulator::cpu::{CPU, CpuMode, CpuView, flag_bit};
use crate::emulator::cpu::{
    alu_adc_spec, alu_add_spec, alu_and_spec, alu_bit_spec, alu_cp_spec, alu_cpl_spec, alu_daa_spec,
    alu_dec_spec, alu_inc_spec, alu_or_spec, alu_rl_spec, alu_rlc_spec, alu_rr_spec, alu_rrc_spec,
    alu_sbc_spec, alu_set_spec, alu_sla_spec, alu_sra_spec, alu_srl_spec, alu_sub_spec, alu_swap_spec,
    alu_xor_spec, alu_add_hl_spec, alu_add_sp_spec, jump_condition_holds, flag_condition_holds, sign_extend,
    bus_read,
};
use crate::emulator::cpu::instructions::instruction::Instruction;
use crate::emulator::cpu::instructions::operands::{
    ArithmeticSource16, ArithmeticSource8, FlagCondition, IncDecSource, LoadByteSource, LoadByteTarget,
    LoadIndirect, LoadType, LoadWordSource, LoadWordTarget, StackOperand,
};
use crate::emulator::cpu::registers::{FlagsRegister, Registers, hi_byte, lo_byte};
use crate::emulator::cpu::control_unit::{set_reg8};

verus! {

/// Value of a byte-load source, after any fetch.
pub open spec fn load_source_next(c: CpuView, s: LoadByteSource) -> (CpuView, u8) {
    match s {
        LoadByteSource::A => (c, c.reg.a),
        LoadByteSource::B => (c, c.reg.b),
        LoadByteSource::C => (c, c.reg.c),
        LoadByteSource::D => (c, c.reg.d),
        LoadByteSource::E => (c, c.reg.e),
        LoadByteSource::H => (c, c.reg.h),
        LoadByteSource::L => (c, c.reg.l),
        LoadByteSource::D8 => c.fetch_next(),
        LoadByteSource::HLI => c.read_hl_next(),
    }
}

/// Address of an indirect operand other than the immediate ones, and the HL step that
/// follows the access.
pub open spec fn indirect_address(r: Registers, i: LoadIndirect) -> u16 {
    match i {
        LoadIndirect::BC => r.bc(),
        LoadIndirect::DE => r.de(),
        LoadIndirect::C => 0xFF00u16 | (r.c as u16),
        _ => r.hl(),
    }
}

/// LD r,r' / LD r,d8 / LD r,(HL) / LD (HL),r.
#[verifier::opaque]
pub open spec fn ld_byte_next(c: CpuView, t: LoadByteTarget, s: LoadByteSource, times: Seq<u64>) -> CpuView {
    let (c1, v) = load_source_next(c, s);
    match t {
        LoadByteTarget::A => c1.with_reg(Registers { a: v, ..c1.reg }),
        LoadByteTarget::B => c1.with_reg(Registers { b: v, ..c1.reg }),
        LoadByteTarget::C => c1.with_reg(Registers { c: v, ..c1.reg }),
        LoadByteTarget::D => c1.with_reg(Registers { d: v, ..c1.reg }),
        LoadByteTarget::E => c1.with_reg(Registers { e: v, ..c1.reg }),
        LoadByteTarget::H => c1.with_reg(Registers { h: v, ..c1.reg }),
        LoadByteTarget::L => c1.with_reg(Registers { l: v, ..c1.reg }),
        LoadByteTarget::HLI => c1.write_next(c1.reg.hl(), v, times[0]),
    }
}

/// Source of a 16-bit load, after any fetch; LD HL,SP+r8 sets the flags of the addition.
pub open spec fn ld_word_source_next(c: CpuView, t: LoadWordTarget, s: LoadWordSource) -> (CpuView, u16) {
    match s {
        LoadWordSource::D16 => c.fetch_word_next(),
        LoadWordSource::HL => (c, c.reg.hl()),
        LoadWordSource::SP => if t == LoadWordTarget::HL {
            let (cf, r8) = c.fetch_next();
            let off = sign_extend(r8);
            (
                cf.with_reg(
                    Registers {
                        f: FlagsRegister {
                            z: false,
                            n: false,
                            h: (cf.reg.sp & 0xF) + (off & 0xF) > 0xF,
                            c: (cf.reg.sp & 0xFF) + (off & 0xFF) > 0xFF,
                        },
                        ..cf.reg
                    },
                ),
                cf.reg.sp.wrapping_add(off),
            )
        } else {
            (c, c.reg.sp)
        },
    }
}

/// LD rr,d16 / LD SP,HL / LD HL,SP+r8 / LD (a16),SP.
#[verifier::opaque]
pub open spec fn ld_word_next(c: CpuView, t: LoadWordTarget, s: LoadWordSource, times: Seq<u64>) -> CpuView {
    let (c1, v) = ld_word_source_next(c, t, s);
    match t {
        LoadWordTarget::HL => c1.with_reg(c1.reg.with_hl(v)),
        LoadWordTarget::BC => c1.with_reg(c1.reg.with_bc(v)),
        LoadWordTarget::DE => c1.with_reg(c1.reg.with_de(v)),
        LoadWordTarget::SP => c1.with_reg(Registers { sp: v, ..c1.reg }),
        LoadWordTarget::A16 => {
            let (c2, addr) = c1.fetch_word_next();
            c2.write_word_next(addr, c2.reg.sp, times[0], times[1])
        },
    }
}

/// Stores A through an indirect operand.
#[verifier::opaque]
pub open spec fn ld_indirect_from_a_next(c: CpuView, t: LoadIndirect, times: Seq<u64>) -> CpuView {
    match t {
        LoadIndirect::A8 => {
            let (c1, a8) = c.fetch_next();
            c1.write_next(0xFF00u16 | (a8 as u16), c1.reg.a, times[0])
        },
        LoadIndirect::A16 => {
            let (c1, addr) = c.fetch_word_next();
            c1.write_next(addr, c1.reg.a, times[0])
        },
        LoadIndirect::HLinc => {
            let hl = c.reg.hl();
            let c1 = c.write_next(hl, c.reg.a, times[0]);
            c1.with_reg(c1.reg.with_hl(hl.wrapping_add(1)))
        },
        LoadIndirect::HLdec => {
            let hl = c.reg.hl();
            let c1 = c.write_next(hl, c.reg.a, times[0]);
            c1.with_reg(c1.reg.with_hl(hl.wrapping_sub(1)))
        },
        _ => c.write_next(indirect_address(c.reg, t), c.reg.a, times[0]),
    }
}

/// Loads A through an indirect operand.
#[verifier::opaque]
pub open spec fn ld_a_from_indirect_next(c: CpuView, s: LoadIndirect) -> CpuView {
    match s {
        LoadIndirect::A8 => {
            let (c1, a8) = c.fetch_next();
            let (c2, v) = c1.read_next(0xFF00u16 | (a8 as u16));
            c2.with_reg(Registers { a: v, ..c2.reg })
        },
        LoadIndirect::A16 => {
            let (c1, addr) = c.fetch_word_next();
            let (c2, v) = c1.read_next(addr);
            c2.with_reg(Registers { a: v, ..c2.reg })
        },
        LoadIndirect::HLinc => {
            let hl = c.reg.hl();
            let (c1, v) = c.read_next(hl);
            c1.with_reg(Registers { a: v, ..c1.reg }.with_hl(hl.wrapping_add(1)))
        },
        LoadIndirect::HLdec => {
            let hl = c.reg.hl();
            let (c1, v) = c.read_next(hl);
            c1.with_reg(Registers { a: v, ..c1.reg }.with_hl(hl.wrapping_sub(1)))
        },
        _ => {
            let (c1, v) = c.read_next(indirect_address(c.reg, s));
            c1.with_reg(Registers { a: v, ..c1.reg })
        },
    }
}

/// State of a load instruction.
#[verifier::opaque]
pub open spec fn ld_next(c: CpuView, load: LoadType, times: Seq<u64>) -> CpuView {
    match load {
        LoadType::Byte(t, s) => ld_byte_next(c, t, s, times),
        LoadType::Word(t, s) => ld_word_next(c, t, s, times),
        LoadType::IndirectFromA(t) => ld_indirect_from_a_next(c, t, times),
        LoadType::AFromIndirect(s) => ld_a_from_indirect_next(c, s),
    }
}

/// Reads a byte-load source.
fn load_source(cpu: &mut CPU, source: LoadByteSource) -> (res: u8)
    requires
        old(cpu)@.wf(),
    ensures
        (final(cpu)@, res) == load_source_next(old(cpu)@, source),
        final(cpu)@.wf(),
{
    match source {
        LoadByteSource::A => cpu.reg.a,
        LoadByteSource::B => cpu.reg.b,
        LoadByteSource::C => cpu.reg.c,
        LoadByteSource::D => cpu.reg.d,
        LoadByteSource::E => cpu.reg.e,
        LoadByteSource::H => cpu.reg.h,
        LoadByteSource::L => cpu.reg.l,
        LoadByteSource::D8 => cpu.read_byte_at_pc(),
        LoadByteSource::HLI => cpu.read_byte_at_hl(),
    }
}

#[verifier::rlimit(60)]
fn ld_byte(cpu: &mut CPU, target: LoadByteTarget, source: LoadByteSource)
    requires
        old(cpu)@.wf(),
    ensures
        exists|times: Seq<u64>| final(cpu)@ == ld_byte_next(old(cpu)@, target, source, times),
        final(cpu)@.wf(),
{
    proof {
        reveal(ld_byte_next);
    }
    let source_value = load_source(cpu, source);
    match target {
        LoadByteTarget::A => cpu.reg.a = source_value,
        LoadByteTarget::B => cpu.reg.b = source_value,
        LoadByteTarget::C => cpu.reg.c = source_value,
        LoadByteTarget::D => cpu.reg.d = source_value,
        LoadByteTarget::E => cpu.reg.e = source_value,
        LoadByteTarget::H => cpu.reg.h = source_value,
        LoadByteTarget::L => cpu.reg.l = source_value,
        LoadByteTarget::HLI => {
            let hl = cpu.reg.get_hl();
            let ghost mid = cpu@;
            cpu.write_byte(hl, source_value);
            proof {
                let w = choose|now: u64| cpu@ == mid.write_next(hl, source_value, now);
                assert(cpu@ == ld_byte_next(old(cpu)@, target, source, seq![w]));
            }
        },
    }
    proof {
        if target != LoadByteTarget::HLI {
            assert(cpu@ == ld_byte_next(old(cpu)@, target, source, Seq::empty()));
        }
    }
}

#[verifier::rlimit(60)]
fn ld_word(cpu: &mut CPU, target: LoadWordTarget, source: LoadWordSource)
    requires
        old(cpu)@.wf(),
    ensures
        exists|times: Seq<u64>| final(cpu)@ == ld_word_next(old(cpu)@, target, source, times),
        final(cpu)@.wf(),
{
    proof {
        reveal(ld_word_next);
    }
    let source_value = match source {
        LoadWordSource::D16 => cpu.read_word_at_pc(),
        LoadWordSource::HL => cpu.reg.get_hl(),
        LoadWordSource::SP => match target {
            LoadWordTarget::HL => {
                let r8 = cpu.read_byte_at_pc();
                let off: u16 = if r8 < 0x80 { r8 as u16 } else { r8 as u16 + 0xFF00 };
                cpu.reg.f.z = false;
                cpu.reg.f.n = false;
                cpu.reg.f.h = ((cpu.reg.sp & 0xF) as u32 + (off & 0xF) as u32) > 0xF;
                cpu.reg.f.c = ((cpu.reg.sp & 0xFF) as u32 + (off & 0xFF) as u32) > 0xFF;
                cpu.reg.sp.wrapping_add(off)
            },
            _ => cpu.reg.sp,
        },
    };
    let ghost c1 = cpu@;
    assert((c1, source_value) == ld_word_source_next(old(cpu)@, target, source));
    match target {
        LoadWordTarget::HL => cpu.reg.set_hl(source_value),
        LoadWordTarget::BC => cpu.reg.set_bc(source_value),
        LoadWordTarget::DE => cpu.reg.set_de(source_value),
        LoadWordTarget::SP => cpu.reg.sp = source_value,
        LoadWordTarget::A16 => {
            let addr = cpu.read_word_at_pc();
            let ghost c2 = cpu@;
            cpu.write_word(addr, cpu.reg.sp);
            proof {
                let (t0, t1) = choose|t0: u64, t1: u64| cpu@ == c2.write_word_next(addr, c2.reg.sp, t0, t1);
                assert(cpu@ == ld_word_next(old(cpu)@, target, source, seq![t0, t1]));
            }
        },
    }
    proof {
        if target != LoadWordTarget::A16 {
            assert(cpu@ == ld_word_next(old(cpu)@, target, source, Seq::empty()));
        }
    }
}

/// Writes A at `addr` (one M-cycle), then steps HL from `addr` by +1 (`step` 1) or -1
/// (`step` 2); any other `step` leaves HL alone.
pub open spec fn store_a_next(c: CpuView, addr: u16, step: u8, now: u64) -> CpuView {
    let c1 = c.write_next(addr, c.reg.a, now);
    if step == 1 {
        c1.with_reg(c1.reg.with_hl(addr.wrapping_add(1)))
    } else if step == 2 {
        c1.with_reg(c1.reg.with_hl(addr.wrapping_sub(1)))
    } else {
        c1
    }
}

/// Reads A from `addr` (one M-cycle), then steps HL as `store_a_next` does.
pub open spec fn load_a_next(c: CpuView, addr: u16, step: u8) -> CpuView {
    let (c1, v) = c.read_next(addr);
    let r = Registers { a: v, ..c1.reg };
    if step == 1 {
        c1.with_reg(r.with_hl(addr.wrapping_add(1)))
    } else if step == 2 {
        c1.with_reg(r.with_hl(addr.wrapping_sub(1)))
    } else {
        c1.with_reg(r)
    }
}

fn store_a(cpu: &mut CPU, addr: u16, step: u8)
    requires
        old(cpu)@.wf(),
    ensures
        exists|now: u64| final(cpu)@ == store_a_next(old(cpu)@, addr, step, now),
        final(cpu)@.wf(),
{
    cpu.write_byte(addr, cpu.reg.a);
    let ghost mid = cpu@;
    if step == 1 {
        cpu.reg.set_hl(addr.wrapping_add(1));
    } else if step == 2 {
        cpu.reg.set_hl(addr.wrapping_sub(1));
    }
    proof {
        let w = choose|now: u64| mid == old(cpu)@.write_next(addr, old(cpu).reg.a, now);
        assert(cpu@ == store_a_next(old(cpu)@, addr, step, w));
    }
}

fn load_a(cpu: &mut CPU, addr: u16, step: u8)
    requires
        old(cpu)@.wf(),
    ensures
        final(cpu)@ == load_a_next(old(cpu)@, addr, step),
        final(cpu)@.wf(),
{
    let v = cpu.read_byte(addr);
    cpu.reg.a = v;
    if step == 1 {
        cpu.reg.set_hl(addr.wrapping_add(1));
    } else if step == 2 {
        cpu.reg.set_hl(addr.wrapping_sub(1));
    }
}

#[verifier::rlimit(60)]
fn ld_indirect_from_a(cpu: &mut CPU, target: LoadIndirect)
    requires
        old(cpu)@.wf(),
    ensures
        exists|times: Seq<u64>| final(cpu)@ == ld_indirect_from_a_next(old(cpu)@, target, times),
        final(cpu)@.wf(),
{
    proof {
        reveal(ld_indirect_from_a_next);
    }
    let ghost c0 = cpu@;
    let (addr, step): (u16, u8) = match target {
        LoadIndirect::A8 => {
            let a8 = cpu.read_byte_at_pc();
            (0xFF00 | (a8 as u16), 0)
        },
        LoadIndirect::A16 => (cpu.read_word_at_pc(), 0),
        LoadIndirect::HLinc => (cpu.reg.get_hl(), 1),
        LoadIndirect::HLdec => (cpu.reg.get_hl(), 2),
        LoadIndirect::BC => (cpu.reg.get_bc(), 0),
        LoadIndirect::DE => (cpu.reg.get_de(), 0),
        LoadIndirect::HL => (cpu.reg.get_hl(), 0),
        LoadIndirect::C => (0xFF00 | (cpu.reg.c as u16), 0),
    };
    let ghost mid = cpu@;
    store_a(cpu, addr, step);
    proof {
        let w = choose|now: u64| cpu@ == store_a_next(mid, addr, step, now);
        assert(cpu@ == ld_indirect_from_a_next(c0, target, seq![w]));
    }
}

#[verifier::rlimit(60)]
fn ld_a_from_indirect(cpu: &mut CPU, source: LoadIndirect)
    requires
        old(cpu)@.wf(),
    ensures
        final(cpu)@ == ld_a_from_indirect_next(old(cpu)@, source),
        final(cpu)@.wf(),
{
    proof {
        reveal(ld_a_from_indirect_next);
    }
    let (addr, step): (u16, u8) = match source {
        LoadIndirect::A8 => {
            let a8 = cpu.read_byte_at_pc();
            (0xFF00 | (a8 as u16), 0)
        },
        LoadIndirect::A16 => (cpu.read_word_at_pc(), 0),
        LoadIndirect::HLinc => (cpu.reg.get_hl(), 1),
        LoadIndirect::HLdec => (cpu.reg.get_hl(), 2),
        LoadIndirect::BC => (cpu.reg.get_bc(), 0),
        LoadIndirect::DE => (cpu.reg.get_de(), 0),
        LoadIndirect::HL => (cpu.reg.get_hl(), 0),
        LoadIndirect::C => (0xFF00 | (cpu.reg.c as u16), 0),
    };
    load_a(cpu, addr, step);
}

/// Runs a load instruction.
#[verifier::rlimit(100)]
pub(crate) fn ld(cpu: &mut CPU, load_type: LoadType)
    requires
        old(cpu)@.wf(),
    ensures
        exists|times: Seq<u64>| final(cpu)@ == ld_next(old(cpu)@, load_type, times),
        final(cpu)@.wf(),
{
    proof {
        reveal(ld_next);
    }
    match load_type {
        LoadType::Byte(target, source) => {
            let ghost c0 = cpu@;
            ld_byte(cpu, target, source);
            proof {
                let w = choose|times: Seq<u64>| cpu@ == ld_byte_next(c0, target, source, times);
                assert(cpu@ == ld_next(c0, load_type, w));
            }
        },
        LoadType::Word(target, source) => {
            let ghost c0 = cpu@;
            ld_word(cpu, target, source);
            proof {
                let w = choose|times: Seq<u64>| cpu@ == ld_word_next(c0, target, source, times);
                assert(cpu@ == ld_next(c0, load_type, w));
            }
        },
        LoadType::IndirectFromA(target) => {
            let ghost c0 = cpu@;
            ld_indirect_from_a(cpu, target);
            proof {
                let w = choose|times: Seq<u64>| cpu@ == ld_indirect_from_a_next(c0, target, times);
                assert(cpu@ == ld_next(c0, load_type, w));
            }
        },
        LoadType::AFromIndirect(source) => {
            ld_a_from_indirect(cpu, source);
            assert(cpu@ == ld_next(old(cpu)@, load_type, Seq::empty()));
        },
    }
}

} // verus!
