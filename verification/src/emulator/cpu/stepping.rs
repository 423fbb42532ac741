use vstd::prelude::*;
use crate::emulator::cpu::{CPU, CpuMode, CpuView, bus_read, bus_write, interrupt_mask};
use crate::emulator::cpu::registers::{Registers, hi_byte, lo_byte, pair, split};
use crate::emulator::cpu::bus_tick4;
use crate::emulator::cpu::memory_bus::lemma_tick_keeps_ram;
use crate::emulator::cpu::control_unit::{execute, executes, instruction_valid};
use crate::emulator::cpu::instructions::decode;
use crate::emulator::cpu::instructions::instruction::Instruction;

verus! {

/// Opcode fetch: one byte at PC, a second one after the 0xCB prefix; the decoded
/// instruction, or `None` for an unused opcode.
pub open spec fn fetch_instruction_next(c: CpuView) -> (CpuView, Option<Instruction>) {
    let (c1, op) = c.fetch_next();
    if op == 0xCB {
        let (c2, op2) = c1.fetch_next();
        (c2, decode(op2, true))
    } else {
        (c1, decode(op, false))
    }
}

/// The state before the fetch of a step in a fetching mode: EI takes effect.
pub open spec fn fetch_start(c: CpuView) -> CpuView {
    if c.mode == CpuMode::EnableIME {
        CpuView { ime: true, mode: CpuMode::Normal, ..c }
    } else {
        c
    }
}

/// Whether a step in mode `m` fetches an instruction.
pub open spec fn fetches(m: CpuMode) -> bool {
    m == CpuMode::Normal || m == CpuMode::EnableIME || m == CpuMode::HaltBug
}

/// HALT and STOP end when an interrupt is handled.
pub open spec fn woken(c: CpuView) -> CpuView {
    if c.mode == CpuMode::Halt || c.mode == CpuMode::Stop {
        CpuView { mode: CpuMode::Normal, ..c }
    } else {
        c
    }
}

/// PC's high byte pushed: SP steps down, then one M-cycle writes at the new SP.
#[verifier::opaque]
pub open spec fn push_high_next(c: CpuView, t: u64) -> CpuView {
    let sp1 = c.reg.sp.wrapping_sub(1);
    c.with_reg(Registers { sp: sp1, ..c.reg }).write_next(sp1, hi_byte(c.reg.pc), t)
}

/// The push of the high byte landed on IE (0xFFFF) and cleared the enable bit `mask`:
/// the service is cancelled.
pub open spec fn service_cancelled(c1: CpuView, mask: u8) -> bool {
    c1.reg.sp == 0xFFFF && bus_read(c1.bus, 0xFFFF) & mask == 0
}

/// Vector of interrupt number `i` (0-4): 0x40, 0x48, 0x50, 0x58, 0x60.
pub open spec fn interrupt_vector(i: int) -> u16 {
    (0x40 + 8 * i) as u16
}

/// Rest of the service of interrupt `i` once the high byte of `pc` is pushed: the low
/// byte is pushed, the interrupt's IF bit cleared, PC set to its vector, then three
/// internal M-cycles.
#[verifier::opaque]
pub open spec fn finish_service_next(c1: CpuView, pc: u16, i: int, t1: u64, t2: u64) -> CpuView {
    let sp2 = c1.reg.sp.wrapping_sub(1);
    let c2 = c1.with_reg(Registers { sp: sp2, ..c1.reg }).write_next(sp2, lo_byte(pc), t1);
    let f = bus_read(c2.bus, 0xFF0F);
    let c3 = CpuView {
        bus: bus_write(c2.bus, 0xFF0F, f & !interrupt_mask(i), t2),
        reg: Registers { pc: interrupt_vector(i), ..c2.reg },
        ..c2
    };
    c3.tick4_next().tick4_next().tick4_next()
}

/// Service of the first interrupt of `pending` from number `i` on; the bus writes take
/// their times from the front of `times`. A cancelled service sets PC to 0 and goes on
/// with the next interrupt.
#[verifier::opaque]
pub open spec fn serve_from(c: CpuView, pending: u8, i: int, times: Seq<u64>) -> CpuView
    decreases 5 - i,
{
    if i < 0 || i >= 5 {
        c
    } else if pending & interrupt_mask(i) == 0 {
        serve_from(c, pending, i + 1, times)
    } else {
        let c1 = push_high_next(c, times[0]);
        if service_cancelled(c1, interrupt_mask(i)) {
            serve_from(c1.with_reg(Registers { pc: 0, ..c1.reg }), pending, i + 1, times.drop_first())
        } else {
            finish_service_next(c1, c.reg.pc, i, times[1], times[2])
        }
    }
}

/// Interrupt handling for `pending`: HALT and STOP end; with IME set, IME clears and the
/// first pending interrupt is served.
#[verifier::opaque]
pub open spec fn interrupts_served(c: CpuView, pending: u8, times: Seq<u64>) -> CpuView {
    let w = woken(c);
    if w.ime {
        serve_from(CpuView { ime: false, ..w }, pending, 0, times)
    } else {
        w
    }
}

/// Interrupts looked at after an instruction: IF & IE when `check`, else none.
pub open spec fn pending_after(m: CpuView, check: bool) -> u8 {
    if check {
        m.pending_interrupts()
    } else {
        0
    }
}

/// `c2` follows `m` once the interrupts pending in `m` (looked at only when `check`) are
/// handled.
#[verifier::opaque]
pub open spec fn after_interrupts(m: CpuView, check: bool, c2: CpuView) -> bool {
    let pending = pending_after(m, check);
    if pending != 0 {
        exists|times: Seq<u64>| #[trigger] interrupts_served(m, pending, times) == c2
    } else {
        c2 == m
    }
}

/// `c2` can follow `c` by one CPU step returning `res`.
/// - HALT, STOP: one M-cycle, then the pending interrupts are handled.
/// - HALT with IME clear: one M-cycle; the CPU resumes when an interrupt is pending.
/// - Otherwise (EI taking effect first): an instruction is fetched; an unused opcode gives
///   `None` with the state after the fetch. Else the instruction runs (with the HALT bug,
///   from PC one byte back, and the CPU back to normal mode), and with IME set the
///   pending interrupts are handled.
/// A `Some` result is the change of the cycle counter.
#[verifier::opaque]
pub open spec fn step_relation(c: CpuView, c2: CpuView, res: Option<u64>) -> bool {
    let cycles = c2.total_cycles.wrapping_sub(c.total_cycles);
    if c.mode == CpuMode::Halt || c.mode == CpuMode::Stop {
        res == Some(cycles) && after_interrupts(c.tick4_next(), true, c2)
    } else if c.mode == CpuMode::HaltDI {
        let m = c.tick4_next();
        res == Some(cycles) && c2 == (if m.pending_interrupts() != 0 {
            CpuView { mode: CpuMode::Normal, ..m }
        } else {
            m
        })
    } else {
        let (c1, oi) = fetch_instruction_next(fetch_start(c));
        match oi {
            None => res is None && c2 == c1,
            Some(i) => res == Some(cycles) && if c.mode == CpuMode::HaltBug {
                exists|m: CpuView|
                    #[trigger] executes(c1.with_reg(Registers { pc: c1.reg.pc.wrapping_sub(1), ..c1.reg }), i, m)
                        && after_interrupts(CpuView { mode: CpuMode::Normal, ..m }, m.ime, c2)
            } else {
                exists|m: CpuView| #[trigger] executes(c1, i, m) && after_interrupts(m, m.ime, c2)
            },
        }
    }
}

proof fn lemma_after_none(m: CpuView, check: bool)
    requires
        pending_after(m, check) == 0,
    ensures
        after_interrupts(m, check, m),
{
    reveal(after_interrupts);
}

proof fn lemma_after_served(m: CpuView, check: bool, c2: CpuView, t: Seq<u64>)
    requires
        pending_after(m, check) != 0,
        c2 == interrupts_served(m, pending_after(m, check), t),
    ensures
        after_interrupts(m, check, c2),
{
    reveal(after_interrupts);
    assert(interrupts_served(m, pending_after(m, check), t) == c2);
}

proof fn lemma_step_halted(c: CpuView, c2: CpuView)
    requires
        c.mode == CpuMode::Halt || c.mode == CpuMode::Stop,
        after_interrupts(c.tick4_next(), true, c2),
    ensures
        step_relation(c, c2, Some(c2.total_cycles.wrapping_sub(c.total_cycles))),
{
    reveal(step_relation);
}

proof fn lemma_step_halt_di(c: CpuView, c2: CpuView)
    requires
        c.mode == CpuMode::HaltDI,
        c2 == (if c.tick4_next().pending_interrupts() != 0 {
            CpuView { mode: CpuMode::Normal, ..c.tick4_next() }
        } else {
            c.tick4_next()
        }),
    ensures
        step_relation(c, c2, Some(c2.total_cycles.wrapping_sub(c.total_cycles))),
{
    reveal(step_relation);
}

proof fn lemma_step_unused_opcode(c: CpuView, c2: CpuView)
    requires
        fetches(c.mode),
        fetch_instruction_next(fetch_start(c)) == (c2, None::<Instruction>),
    ensures
        step_relation(c, c2, None),
{
    reveal(step_relation);
}

proof fn lemma_step_ran(c: CpuView, c1: CpuView, i: Instruction, m: CpuView, c2: CpuView)
    requires
        c.mode == CpuMode::Normal || c.mode == CpuMode::EnableIME,
        fetch_instruction_next(fetch_start(c)) == (c1, Some(i)),
        executes(c1, i, m),
        after_interrupts(m, m.ime, c2),
    ensures
        step_relation(c, c2, Some(c2.total_cycles.wrapping_sub(c.total_cycles))),
{
    reveal(step_relation);
}

proof fn lemma_step_halt_bug(c: CpuView, c1: CpuView, i: Instruction, m: CpuView, c2: CpuView)
    requires
        c.mode == CpuMode::HaltBug,
        fetch_instruction_next(c) == (c1, Some(i)),
        executes(c1.with_reg(Registers { pc: c1.reg.pc.wrapping_sub(1), ..c1.reg }), i, m),
        after_interrupts(CpuView { mode: CpuMode::Normal, ..m }, m.ime, c2),
    ensures
        step_relation(c, c2, Some(c2.total_cycles.wrapping_sub(c.total_cycles))),
{
    reveal(step_relation);
}

/// A served interrupt `i` (its service not cancelled) leaves PC at the interrupt's vector,
/// SP two bytes down and IME clear.
pub proof fn lemma_service_registers(c1: CpuView, pc: u16, i: int, t1: u64, t2: u64)
    requires
        0 <= i < 5,
    ensures
        finish_service_next(c1, pc, i, t1, t2).reg.pc == 0x40 + 8 * i,
        finish_service_next(c1, pc, i, t1, t2).reg.sp == c1.reg.sp.wrapping_sub(1),
        finish_service_next(c1, pc, i, t1, t2).ime == c1.ime,
{
    reveal(finish_service_next);
}

/// Pushing the high byte moves SP down by one and keeps PC.
pub proof fn lemma_push_high_registers(c: CpuView, t: u64)
    ensures
        push_high_next(c, t).reg.sp == c.reg.sp.wrapping_sub(1),
        push_high_next(c, t).reg.pc == c.reg.pc,
        push_high_next(c, t).ime == c.ime,
{
    reveal(push_high_next);
}

/// Every instruction that decoding yields can be run by the control unit.
pub proof fn lemma_decoded_instructions_are_valid(byte: u8, prefixed: bool)
    ensures
        decode(byte, prefixed) matches Some(i) ==> instruction_valid(i),
{
}

fn mask_of(i: u8) -> (res: u8)
    requires
        i < 5,
    ensures
        res == interrupt_mask(i as int),
{
    if i == 0 {
        1
    } else if i == 1 {
        2
    } else if i == 2 {
        4
    } else if i == 3 {
        8
    } else {
        16
    }
}

impl CPU {
    /// Fetches and decodes the next instruction; `None` for an unused opcode.
    fn read_instr(&mut self) -> (res: Option<Instruction>)
        requires
            old(self)@.wf(),
        ensures
            (final(self)@, res) == fetch_instruction_next(old(self)@),
            final(self)@.wf(),
            res matches Some(i) ==> instruction_valid(i),
    {
        let mut opcode = self.read_byte_at_pc();
        let prefixed = opcode == 0xCB;
        if prefixed {
            opcode = self.read_byte_at_pc();
        }
        proof {
            lemma_decoded_instructions_are_valid(opcode, prefixed);
        }
        Instruction::from_byte(opcode, prefixed)
    }

    fn run_instr(&mut self, instruction: Instruction)
        requires
            old(self)@.wf(),
            instruction_valid(instruction),
        ensures
            executes(old(self)@, instruction, final(self)@),
            final(self)@.wf(),
    {
        execute(self, instruction);
    }

    /// Pushes the high byte of PC.
    fn push_high(&mut self)
        requires
            old(self)@.wf(),
        ensures
            exists|t: u64| #[trigger] push_high_next(old(self)@, t) == final(self)@,
            final(self)@.wf(),
    {
        let (hi, _) = split(self.reg.pc);
        self.reg.sp = self.reg.sp.wrapping_sub(1);
        let ghost c0 = self@;
        let sp = self.reg.sp;
        self.write_byte(sp, hi);
        proof {
            reveal(push_high_next);
            let t = choose|t: u64| self@ == c0.write_next(sp, hi, t);
            assert(push_high_next(old(self)@, t) == self@);
        }
    }

    /// Pushes the low byte of `pc`, clears the IF bit of interrupt `i`, jumps to its
    /// vector and spends three M-cycles.
    fn finish_service(&mut self, pc: u16, i: u8)
        requires
            old(self)@.wf(),
            i < 5,
        ensures
            exists|t1: u64, t2: u64| #[trigger] finish_service_next(old(self)@, pc, i as int, t1, t2) == final(self)@,
            final(self)@.wf(),
    {
        let (_, lo) = split(pc);
        let mask = mask_of(i);
        self.reg.sp = self.reg.sp.wrapping_sub(1);
        let ghost c1 = self@;
        let sp = self.reg.sp;
        self.write_byte(sp, lo);
        let ghost c2 = self@;
        let f = self.bus.read_byte(0xFF0F);
        let cleared: u8 = f & !mask;
        let ghost b2 = self.bus@;
        self.bus.write_byte(0xFF0F, cleared);
        let ghost b3 = self.bus@;
        self.reg.pc = if i == 0 {
            0x40
        } else if i == 1 {
            0x48
        } else if i == 2 {
            0x50
        } else if i == 3 {
            0x58
        } else {
            0x60
        };
        let ghost c3 = self@;
        self.tick4();
        self.tick4();
        self.tick4();
        proof {
            reveal(finish_service_next);
            reveal(bus_read);
            reveal(bus_write);
            let t1 = choose|t: u64| c2 == c1.write_next(sp, lo, t);
            let t2 = choose|t: u64| b3 == b2.write_next(0xFF0F, cleared, t);
            assert(b2 == c2.bus);
            assert(c3 == CpuView {
                bus: bus_write(c2.bus, 0xFF0F, f & !interrupt_mask(i as int), t2),
                reg: Registers { pc: interrupt_vector(i as int), ..c2.reg },
                ..c2
            });
            assert(finish_service_next(old(self)@, pc, i as int, t1, t2) == self@);
        }
    }

    /// Serves the first interrupt of `pending` from number `i` on.
    fn serve_interrupt(&mut self, pending: u8, i: u8)
        requires
            old(self)@.wf(),
            i <= 5,
        ensures
            exists|times: Seq<u64>| #[trigger] serve_from(old(self)@, pending, i as int, times) == final(self)@,
            final(self)@.wf(),
        decreases 5 - i,
    {
        if i >= 5 {
            proof {
                reveal(serve_from);
                assert(serve_from(old(self)@, pending, i as int, Seq::empty()) == self@);
            }
            return;
        }
        let mask = mask_of(i);
        let ghost j: int = i + 1;
        if pending & mask == 0 {
            self.serve_interrupt(pending, i + 1);
            proof {
                reveal(serve_from);
                let t = choose|t: Seq<u64>| #[trigger] serve_from(old(self)@, pending, j, t) == self@;
                assert(serve_from(old(self)@, pending, i as int, t) == self@);
            }
            return;
        }
        let pc = self.reg.pc;
        self.push_high();
        let ghost c1 = self@;
        let cancelled = self.reg.sp == 0xFFFF && self.bus.read_byte(0xFFFF) & mask == 0;
        if cancelled {
            self.reg.pc = 0;
            let ghost c1b = self@;
            self.serve_interrupt(pending, i + 1);
            proof {
                reveal(serve_from);
                reveal(bus_read);
                let t0 = choose|t: u64| #[trigger] push_high_next(old(self)@, t) == c1;
                let t = choose|t: Seq<u64>| #[trigger] serve_from(c1b, pending, j, t) == self@;
                let times = seq![t0] + t;
                assert(times.drop_first() =~= t);
                assert(service_cancelled(c1, interrupt_mask(i as int)));
                assert(c1b == c1.with_reg(Registers { pc: 0, ..c1.reg }));
                assert(serve_from(old(self)@, pending, i as int, times) == self@);
            }
        } else {
            self.finish_service(pc, i);
            proof {
                reveal(serve_from);
                reveal(bus_read);
                let t0 = choose|t: u64| #[trigger] push_high_next(old(self)@, t) == c1;
                let (t1, t2) = choose|t1: u64, t2: u64| #[trigger] finish_service_next(c1, pc, i as int, t1, t2) == self@;
                assert(!service_cancelled(c1, interrupt_mask(i as int)));
                let times = seq![t0, t1, t2];
                assert(serve_from(old(self)@, pending, i as int, times) == self@);
            }
        }
    }

    /// Handles the interrupts of `pending`: HALT and STOP end; with IME set, IME clears
    /// and the first pending interrupt is served.
    fn execute_interrupts(&mut self, pending: u8)
        requires
            old(self)@.wf(),
        ensures
            exists|times: Seq<u64>| #[trigger] interrupts_served(old(self)@, pending, times) == final(self)@,
            final(self)@.wf(),
    {
        if self.mode == CpuMode::Halt || self.mode == CpuMode::Stop {
            self.mode = CpuMode::Normal;
        }
        if self.ime {
            self.ime = false;
            let ghost w = self@;
            self.serve_interrupt(pending, 0);
            proof {
                reveal(interrupts_served);
                let t = choose|t: Seq<u64>| #[trigger] serve_from(w, pending, 0, t) == self@;
                assert(interrupts_served(old(self)@, pending, t) == self@);
            }
        } else {
            proof {
                reveal(interrupts_served);
                assert(interrupts_served(old(self)@, pending, Seq::empty()) == self@);
            }
        }
    }

    /// Handles the interrupts pending now (IF & IE) when `check` holds.
    fn finish_step(&mut self, check: bool)
        requires
            old(self)@.wf(),
        ensures
            after_interrupts(old(self)@, check, final(self)@),
            final(self)@.wf(),
    {
        let pending: u8 = if check { self.get_pending_interrupts() } else { 0 };
        if pending != 0 {
            self.execute_interrupts(pending);
            proof {
                let t = choose|t: Seq<u64>| #[trigger] interrupts_served(old(self)@, pending, t) == self@;
                lemma_after_served(old(self)@, check, self@, t);
            }
        } else {
            proof {
                lemma_after_none(old(self)@, check);
            }
        }
    }

    fn step_halted(&mut self) -> (res: Option<u64>)
        requires
            old(self)@.wf(),
            old(self).mode == CpuMode::Halt || old(self).mode == CpuMode::Stop,
        ensures
            step_relation(old(self)@, final(self)@, res),
            final(self)@.wf(),
    {
        let cycles_before = self.total_cycles;
        self.tick4();
        self.finish_step(true);
        proof {
            lemma_step_halted(old(self)@, self@);
        }
        Some(self.total_cycles.wrapping_sub(cycles_before))
    }

    fn step_halt_di(&mut self) -> (res: Option<u64>)
        requires
            old(self)@.wf(),
            old(self).mode == CpuMode::HaltDI,
        ensures
            step_relation(old(self)@, final(self)@, res),
            final(self)@.wf(),
    {
        let cycles_before = self.total_cycles;
        self.tick4();
        if self.get_pending_interrupts() != 0 {
            self.mode = CpuMode::Normal;
        }
        proof {
            lemma_step_halt_di(old(self)@, self@);
        }
        Some(self.total_cycles.wrapping_sub(cycles_before))
    }

    fn step_halt_bug(&mut self) -> (res: Option<u64>)
        requires
            old(self)@.wf(),
            old(self).mode == CpuMode::HaltBug,
        ensures
            step_relation(old(self)@, final(self)@, res),
            final(self)@.wf(),
    {
        let cycles_before = self.total_cycles;
        let fetched = self.read_instr();
        let ghost c1 = self@;
        let instr = match fetched {
            Some(i) => i,
            None => {
                proof {
                    lemma_step_unused_opcode(old(self)@, self@);
                }
                return None;
            },
        };
        self.reg.pc = self.reg.pc.wrapping_sub(1);
        self.run_instr(instr);
        let ghost m = self@;
        self.mode = CpuMode::Normal;
        let check = self.ime;
        self.finish_step(check);
        proof {
            assert(CpuView { mode: CpuMode::Normal, ..m }.ime == m.ime);
            lemma_step_halt_bug(old(self)@, c1, instr, m, self@);
        }
        Some(self.total_cycles.wrapping_sub(cycles_before))
    }

    fn step_instruction(&mut self) -> (res: Option<u64>)
        requires
            old(self)@.wf(),
            old(self).mode == CpuMode::Normal || old(self).mode == CpuMode::EnableIME,
        ensures
            step_relation(old(self)@, final(self)@, res),
            final(self)@.wf(),
    {
        let cycles_before = self.total_cycles;
        if self.mode == CpuMode::EnableIME {
            self.ime = true;
            self.mode = CpuMode::Normal;
        }
        assert(self@ == fetch_start(old(self)@));
        let fetched = self.read_instr();
        let ghost c1 = self@;
        let instr = match fetched {
            Some(i) => i,
            None => {
                proof {
                    lemma_step_unused_opcode(old(self)@, self@);
                }
                return None;
            },
        };
        self.run_instr(instr);
        let ghost m = self@;
        let check = self.ime;
        self.finish_step(check);
        proof {
            lemma_step_ran(old(self)@, c1, instr, m, self@);
        }
        Some(self.total_cycles.wrapping_sub(cycles_before))
    }

    /// Runs one step: an instruction with the interrupts that follow it, or one M-cycle of
    /// HALT or STOP. Returns the T-cycles taken, or `None` when the opcode fetched is unused.
    pub fn step(&mut self) -> (res: Option<u64>)
        requires
            old(self)@.wf(),
        ensures
            step_relation(old(self)@, final(self)@, res),
            final(self)@.wf(),
    {
        match self.mode {
            CpuMode::Halt | CpuMode::Stop => self.step_halted(),
            CpuMode::HaltDI => self.step_halt_di(),
            CpuMode::HaltBug => self.step_halt_bug(),
            _ => self.step_instruction(),
        }
    }
}

/// An M-cycle leaves work RAM, its bank register and high RAM as they were.
proof fn lemma_tick4_keeps_ram(c: CpuView)
    ensures
        c.tick4_next().bus.wram == c.bus.wram,
        c.tick4_next().bus.hram == c.bus.hram,
        c.tick4_next().bus.wram_bank == c.bus.wram_bank,
{
    reveal(bus_tick4);
    let b = c.bus;
    lemma_tick_keeps_ram(b);
    lemma_tick_keeps_ram(b.tick_next());
    lemma_tick_keeps_ram(b.tick_next().tick_next());
    lemma_tick_keeps_ram(b.tick_next().tick_next().tick_next());
}

/// Whether `address` is in work RAM (bank 0 or the switchable bank) or high RAM.
pub open spec fn stack_ram(address: u16) -> bool {
    0xC000 <= address <= 0xDFFF || 0xFF80 <= address <= 0xFFFE
}

/// POP gives back what PUSH stored: with both stack bytes in work or high RAM, popping a
/// pushed word returns it and restores SP.
pub proof fn lemma_push_then_pop(c: CpuView, value: u16, t0: u64, t1: u64)
    requires
        c.wf(),
        1 <= c.bus.wram_bank <= 7,
        c.bus.wram.len() == 0x8000,
        c.bus.hram.len() == 0x7F,
        stack_ram(c.reg.sp.wrapping_sub(1)),
        stack_ram(c.reg.sp.wrapping_sub(2)),
    ensures
        c.push_next(value, t0, t1).pop_next().1 == value,
        c.push_next(value, t0, t1).pop_next().0.reg.sp == c.reg.sp,
{
    reveal(bus_read);
    reveal(bus_write);
    let c0 = c.tick4_next();
    lemma_tick4_keeps_ram(c);
    let sp1 = c0.reg.sp.wrapping_sub(1);
    let a = c0.with_reg(Registers { sp: sp1, ..c0.reg });
    lemma_tick4_keeps_ram(a);
    let c1 = a.write_next(sp1, hi_byte(value), t0);
    let sp2 = sp1.wrapping_sub(1);
    let b = c1.with_reg(Registers { sp: sp2, ..c1.reg });
    lemma_tick4_keeps_ram(b);
    let c2 = b.write_next(sp2, lo_byte(value), t1);
    assert(c.push_next(value, t0, t1) == c2);
    lemma_tick4_keeps_ram(c2);
    let (r1, lsb) = c2.read_next(c2.reg.sp);
    assert(lsb == lo_byte(value));
    let s1 = r1.with_reg(Registers { sp: c2.reg.sp.wrapping_add(1), ..r1.reg });
    lemma_tick4_keeps_ram(s1);
    let (r2, msb) = s1.read_next(s1.reg.sp);
    assert(s1.reg.sp == sp1);
    assert(msb == hi_byte(value));
    assert(pair(hi_byte(value), lo_byte(value)) == value);
}

} // verus!
