use vstd::prelude::*;
use crate::emulator::cart::Cart;
use crate::emulator::cpu::instructions::instruction::Instruction;
use crate::emulator::cpu::instructions::operands::FlagCondition;
use crate::emulator::cpu::memory_bus::{MemoryBus, MemoryBusView};
use crate::emulator::cpu::registers::{FlagsRegister, Registers, hi_byte, lo_byte, pair, split, join};

pub mod alu_laws;
pub mod bus;
pub mod control_unit;
pub mod instructions;
pub mod interrupt_laws;
pub mod memory_bus;
pub mod registers;
pub mod stepping;

verus! {

/// Execution state of the CPU between instructions.
#[derive(Clone, Copy, PartialEq, Eq, Structural, Debug)]
pub enum CpuMode {
    Normal,
    Halt,
    Stop,
    /// HALT with IME clear and an interrupt pending: the next opcode byte is read twice.
    HaltBug,
    /// HALT with IME clear: waits for an interrupt to be pending without serving it.
    HaltDI,
    /// EI was executed: IME is set before the next instruction.
    EnableIME,
}

/// The SM83 CPU with the bus it drives.
pub struct CPU {
    pub reg: Registers,
    pub bus: MemoryBus,
    pub mode: CpuMode,
    pub ime: bool,
    pub total_cycles: u64,
}

/// Mathematical model of a [`CPU`].
pub struct CpuView {
    pub reg: Registers,
    pub bus: MemoryBusView,
    pub mode: CpuMode,
    pub ime: bool,
    pub total_cycles: u64,
}

impl View for CPU {
    type V = CpuView;

    open spec fn view(&self) -> CpuView {
        CpuView { reg: self.reg, bus: self.bus@, mode: self.mode, ime: self.ime, total_cycles: self.total_cycles }
    }
}

/// The bus after one M-cycle (four T-cycles).
#[verifier::opaque]
pub open spec fn bus_tick4(b: MemoryBusView) -> MemoryBusView {
    b.tick_next().tick_next().tick_next().tick_next()
}

/// The byte the bus gives at `address`.
#[verifier::opaque]
pub open spec fn bus_read(b: MemoryBusView, address: u16) -> u8 {
    b.read_spec(address)
}

/// The bus after `value` is written at `address`, the wall clock reading `now`.
#[verifier::opaque]
pub open spec fn bus_write(b: MemoryBusView, address: u16, value: u8, now: u64) -> MemoryBusView {
    b.write_next(address, value, now)
}

/// 0 or 1 for a flag.
pub open spec fn flag_bit(b: bool) -> u8 {
    if b { 1 } else { 0 }
}

/// A signed 8-bit offset widened to 16 bits (two's complement).
pub open spec fn sign_extend(byte: u8) -> u16 {
    if byte < 0x80 { byte as u16 } else { (byte + 0xFF00) as u16 }
}

/// Whether a flag condition holds.
pub open spec fn flag_condition_holds(f: FlagsRegister, test: FlagCondition) -> bool {
    match test {
        FlagCondition::Zero => f.z,
        FlagCondition::NotZero => !f.z,
        FlagCondition::Carry => f.c,
        FlagCondition::NotCarry => !f.c,
    }
}

/// Whether a jump with an optional condition is taken.
pub open spec fn jump_condition_holds(f: FlagsRegister, test: Option<FlagCondition>) -> bool {
    match test {
        None => true,
        Some(c) => flag_condition_holds(f, c),
    }
}

/// A + value + carry, with Z, N, H, C.
pub open spec fn alu_adc_spec(r: Registers, value: u8) -> Registers {
    let c = flag_bit(r.f.c);
    let nv = r.a.wrapping_add(value).wrapping_add(c);
    Registers {
        a: nv,
        f: FlagsRegister {
            z: nv == 0,
            n: false,
            h: (r.a & 0xF) + (value & 0xF) + (c & 0xF) > 0xF,
            c: r.a + value + c > 0xFF,
        },
        ..r
    }
}

/// A + value, with Z, N, H, C.
pub open spec fn alu_add_spec(r: Registers, value: u8) -> Registers {
    let nv = r.a.wrapping_add(value);
    Registers {
        a: nv,
        f: FlagsRegister { z: nv == 0, n: false, h: (r.a & 0xF) + (value & 0xF) > 0xF, c: r.a + value > 0xFF },
        ..r
    }
}

/// Flags of A - value; A unchanged.
pub open spec fn alu_cp_spec(r: Registers, value: u8) -> Registers {
    Registers {
        f: FlagsRegister {
            z: r.a.wrapping_sub(value) == 0,
            n: true,
            h: (r.a & 0xF) < (value & 0xF),
            c: r.a < value,
        },
        ..r
    }
}

/// A - value - carry, with Z, N, H, C.
pub open spec fn alu_sbc_spec(r: Registers, value: u8) -> Registers {
    let c = flag_bit(r.f.c);
    let nv = r.a.wrapping_sub(value).wrapping_sub(c);
    Registers {
        a: nv,
        f: FlagsRegister { z: nv == 0, n: true, h: (r.a & 0xF) < (value & 0xF) + c, c: r.a < value + c },
        ..r
    }
}

/// A - value, with Z, N, H, C.
pub open spec fn alu_sub_spec(r: Registers, value: u8) -> Registers {
    let nv = r.a.wrapping_sub(value);
    Registers {
        a: nv,
        f: FlagsRegister { z: nv == 0, n: true, h: (r.a & 0xF) < (value & 0xF), c: r.a < value },
        ..r
    }
}

pub open spec fn alu_or_spec(r: Registers, value: u8) -> Registers {
    let nv = r.a | value;
    Registers { a: nv, f: FlagsRegister { z: nv == 0, n: false, h: false, c: false }, ..r }
}

pub open spec fn alu_and_spec(r: Registers, value: u8) -> Registers {
    let nv = r.a & value;
    Registers { a: nv, f: FlagsRegister { z: nv == 0, n: false, h: true, c: false }, ..r }
}

pub open spec fn alu_xor_spec(r: Registers, value: u8) -> Registers {
    let nv = r.a ^ value;
    Registers { a: nv, f: FlagsRegister { z: nv == 0, n: false, h: false, c: false }, ..r }
}

/// Complement of A; N and H set.
pub open spec fn alu_cpl_spec(r: Registers) -> Registers {
    Registers { a: !r.a, f: FlagsRegister { n: true, h: true, ..r.f }, ..r }
}

/// Decimal adjustment of A after a BCD addition (N clear) or subtraction (N set).
pub open spec fn alu_daa_spec(r: Registers) -> Registers {
    if !r.f.n {
        let lo: u8 = if r.f.h || (r.a & 0x0F) > 0x09 { 0x06 } else { 0 };
        let hi: u8 = if r.f.c || r.a > 0x99 { 0x60 } else { 0 };
        let a = r.a.wrapping_add(lo | hi);
        Registers { a, f: FlagsRegister { z: a == 0, h: false, c: if r.f.c || r.a > 0x99 { true } else { r.f.c }, ..r.f }, ..r }
    } else {
        let lo: u8 = if r.f.h { 0x06 } else { 0 };
        let hi: u8 = if r.f.c { 0x60 } else { 0 };
        let a = r.a.wrapping_sub(lo | hi);
        Registers { a, f: FlagsRegister { z: a == 0, h: false, ..r.f }, ..r }
    }
}

/// value - 1 and the flags Z, N, H it sets.
pub open spec fn alu_dec_spec(f: FlagsRegister, value: u8) -> (u8, FlagsRegister) {
    let nv = value.wrapping_sub(1);
    (nv, FlagsRegister { z: nv == 0, n: true, h: (value & 0x0F) == 0, ..f })
}

/// value + 1 and the flags Z, N, H it sets.
pub open spec fn alu_inc_spec(f: FlagsRegister, value: u8) -> (u8, FlagsRegister) {
    let nv = value.wrapping_add(1);
    (nv, FlagsRegister { z: nv == 0, n: false, h: (value & 0x0F) == 0x0F, ..f })
}

/// Rotation left through carry, with the flags it sets.
pub open spec fn alu_rl_spec(f: FlagsRegister, value: u8) -> (u8, FlagsRegister) {
    let nv = (value << 1u8) | flag_bit(f.c);
    (nv, FlagsRegister { z: nv == 0, n: false, h: false, c: (value & 0x80) >> 7u8 == 1 })
}

/// Rotation left, bit 7 into carry and bit 0.
pub open spec fn alu_rlc_spec(f: FlagsRegister, value: u8) -> (u8, FlagsRegister) {
    let b7 = (value & 0x80) >> 7u8;
    let nv = (value << 1u8) | b7;
    (nv, FlagsRegister { z: nv == 0, n: false, h: false, c: b7 == 1 })
}

/// Rotation right through carry.
pub open spec fn alu_rr_spec(f: FlagsRegister, value: u8) -> (u8, FlagsRegister) {
    let nv = (value >> 1u8) | (flag_bit(f.c) << 7u8);
    (nv, FlagsRegister { z: nv == 0, n: false, h: false, c: value & 1 == 1 })
}

/// Rotation right, bit 0 into carry and bit 7.
pub open spec fn alu_rrc_spec(f: FlagsRegister, value: u8) -> (u8, FlagsRegister) {
    let b0 = value & 1;
    let nv = (value >> 1u8) | (b0 << 7u8);
    (nv, FlagsRegister { z: nv == 0, n: false, h: false, c: b0 == 1 })
}

/// Arithmetic shift left into carry.
pub open spec fn alu_sla_spec(f: FlagsRegister, value: u8) -> (u8, FlagsRegister) {
    let nv = value << 1u8;
    (nv, FlagsRegister { z: nv == 0, n: false, h: false, c: (value & 0x80) >> 7u8 == 1 })
}

/// Shift right into carry, bit 7 set to 0 (as the SRA instruction is documented here).
pub open spec fn alu_sra_spec(f: FlagsRegister, value: u8) -> (u8, FlagsRegister) {
    let nv = value >> 1u8;
    (nv, FlagsRegister { z: nv == 0, n: false, h: false, c: value & 1 == 1 })
}

/// Logical shift right into carry.
pub open spec fn alu_srl_spec(f: FlagsRegister, value: u8) -> (u8, FlagsRegister) {
    let nv = value >> 1u8;
    (nv, FlagsRegister { z: nv == 0, n: false, h: false, c: value & 1 == 1 })
}

/// Exchange of the two nibbles.
pub open spec fn alu_swap_spec(f: FlagsRegister, value: u8) -> (u8, FlagsRegister) {
    let nv = ((value & 0xF0) >> 4u8) | ((value & 0x0F) << 4u8);
    (nv, FlagsRegister { z: nv == 0, n: false, h: false, c: false })
}

/// Flags after testing bit `bit` of `value`.
pub open spec fn alu_bit_spec(f: FlagsRegister, bit: u8, value: u8) -> FlagsRegister {
    FlagsRegister {
        z: if bit < 8 { (value & (1u8 << bit)) == 0 } else { true },
        n: false,
        h: true,
        ..f
    }
}

/// `value` with bit `bit` set (unchanged for a bit number above 7).
pub open spec fn alu_set_spec(bit: u8, value: u8) -> u8 {
    if bit < 8 { value | (1u8 << bit) } else { value }
}

/// HL + value, with N, H (carry from bit 11) and C.
pub open spec fn alu_add_hl_spec(r: Registers, value: u16) -> Registers {
    let hl = r.hl();
    Registers {
        f: FlagsRegister { n: false, h: (hl & 0x0FFF) + (value & 0x0FFF) > 0x0FFF, c: hl + value > 0xFFFF, ..r.f },
        ..r
    }.with_hl(hl.wrapping_add(value))
}

/// SP + signed offset, with Z and N clear and H, C from the low byte.
pub open spec fn alu_add_sp_spec(r: Registers, offset: u8) -> Registers {
    let off = sign_extend(offset);
    Registers {
        sp: r.sp.wrapping_add(off),
        f: FlagsRegister {
            z: false,
            n: false,
            h: (r.sp & 0xF) + (off & 0xF) > 0xF,
            c: (r.sp & 0xFF) + (off & 0xFF) > 0xFF,
        },
        ..r
    }
}

/// Bit of interrupt number `i` (0-4).
pub open spec fn interrupt_mask(i: int) -> u8 {
    if i == 0 {
        1
    } else if i == 1 {
        2
    } else if i == 2 {
        4
    } else if i == 3 {
        8
    } else {
        16
    }
}

impl CpuView {
    pub open spec fn wf(self) -> bool {
        self.bus.wf()
    }

    pub open spec fn with_reg(self, reg: Registers) -> CpuView {
        CpuView { reg, ..self }
    }

    /// State after one M-cycle.
    pub open spec fn tick4_next(self) -> CpuView {
        CpuView { bus: bus_tick4(self.bus), total_cycles: self.total_cycles.wrapping_add(4), ..self }
    }

    /// State after an M-cycle that reads `address`, and the byte read.
    pub open spec fn read_next(self, address: u16) -> (CpuView, u8) {
        let c = self.tick4_next();
        (c, bus_read(c.bus, address))
    }

    /// State after an M-cycle that writes `value` at `address`.
    pub open spec fn write_next(self, address: u16, value: u8, now: u64) -> CpuView {
        let c = self.tick4_next();
        CpuView { bus: bus_write(c.bus, address, value, now), ..c }
    }

    /// Little-endian word read at `address` and `address + 1`.
    pub open spec fn read_word_next(self, address: u16) -> (CpuView, u16) {
        let (c1, lo) = self.read_next(address);
        let (c2, hi) = c1.read_next(address.wrapping_add(1));
        (c2, pair(hi, lo))
    }

    /// Little-endian word written at `address` and `address + 1`.
    pub open spec fn write_word_next(self, address: u16, value: u16, t0: u64, t1: u64) -> CpuView {
        self.write_next(address, lo_byte(value), t0).write_next(address.wrapping_add(1), hi_byte(value), t1)
    }

    /// The byte at PC, PC moved past it.
    pub open spec fn fetch_next(self) -> (CpuView, u8) {
        let (c, v) = self.read_next(self.reg.pc);
        (c.with_reg(Registers { pc: self.reg.pc.wrapping_add(1), ..c.reg }), v)
    }

    /// The word at PC, PC moved past it.
    pub open spec fn fetch_word_next(self) -> (CpuView, u16) {
        let (c, v) = self.read_word_next(self.reg.pc);
        (c.with_reg(Registers { pc: self.reg.pc.wrapping_add(2), ..c.reg }), v)
    }

    /// The byte at HL.
    pub open spec fn read_hl_next(self) -> (CpuView, u8) {
        self.read_next(self.reg.hl())
    }

    /// A word popped from the stack (low byte first).
    pub open spec fn pop_next(self) -> (CpuView, u16) {
        let (c1, lsb) = self.read_next(self.reg.sp);
        let s1 = c1.with_reg(Registers { sp: self.reg.sp.wrapping_add(1), ..c1.reg });
        let (c2, msb) = s1.read_next(s1.reg.sp);
        (c2.with_reg(Registers { sp: s1.reg.sp.wrapping_add(1), ..c2.reg }), pair(msb, lsb))
    }

    /// A word pushed on the stack (high byte first) after an internal M-cycle.
    pub open spec fn push_next(self, value: u16, t0: u64, t1: u64) -> CpuView {
        let c0 = self.tick4_next();
        let sp1 = c0.reg.sp.wrapping_sub(1);
        let c1 = c0.with_reg(Registers { sp: sp1, ..c0.reg }).write_next(sp1, hi_byte(value), t0);
        let sp2 = sp1.wrapping_sub(1);
        c1.with_reg(Registers { sp: sp2, ..c1.reg }).write_next(sp2, lo_byte(value), t1)
    }

    /// Restart: PC pushed, then PC = `vector`, one internal M-cycle.
    #[verifier::opaque]
    pub open spec fn rst_next(self, vector: u16, t0: u64, t1: u64) -> CpuView {
        let c = self.push_next(self.reg.pc, t0, t1);
        c.with_reg(Registers { pc: vector, ..c.reg }).tick4_next()
    }

    /// Pending interrupts: IF & IE.
    pub open spec fn pending_interrupts(self) -> u8 {
        self.bus.interrupt_flag & self.bus.interrupt_enable
    }
}

impl CPU {
    pub fn new(cart: Cart) -> (res: Self)
        requires
            cart@.wf(),
            cart@.mbc.bank_switch_ok(),
        ensures
            res@.wf(),
            res.reg == Registers::initial(),
            res.mode == CpuMode::Normal,
            !res.ime,
            res.total_cycles == 0,
            res@.bus.cart == cart@,
    {
        CPU { reg: Registers::new(), bus: MemoryBus::new(cart), ime: false, mode: CpuMode::Normal, total_cycles: 0 }
    }

    /// One M-cycle: four bus T-cycles.
    fn tick4(&mut self)
        requires
            old(self)@.wf(),
        ensures
            final(self)@ == old(self)@.tick4_next(),
            final(self)@.wf(),
    {
        let mut i: u8 = 0;
        let ghost b0 = self.bus@;
        while i < 4
            invariant
                i <= 4,
                self.bus@.wf(),
                self.bus@ == (if i == 0 {
                    b0
                } else if i == 1 {
                    b0.tick_next()
                } else if i == 2 {
                    b0.tick_next().tick_next()
                } else if i == 3 {
                    b0.tick_next().tick_next().tick_next()
                } else {
                    b0.tick_next().tick_next().tick_next().tick_next()
                }),
                self.reg == old(self).reg,
                self.mode == old(self).mode,
                self.ime == old(self).ime,
                self.total_cycles == old(self).total_cycles,
            decreases 4 - i,
        {
            self.bus.tick();
            i = i + 1;
        }
        self.total_cycles = self.total_cycles.wrapping_add(4);
        proof {
            reveal(bus_tick4);
        }
    }

    /// Reads `address` in one M-cycle.
    fn read_byte(&mut self, address: u16) -> (res: u8)
        requires
            old(self)@.wf(),
        ensures
            (final(self)@, res) == old(self)@.read_next(address),
            final(self)@.wf(),
    {
        self.tick4();
        proof {
            reveal(bus_read);
        }
        self.bus.read_byte(address)
    }

    /// Writes `address` in one M-cycle.
    fn write_byte(&mut self, address: u16, value: u8)
        requires
            old(self)@.wf(),
        ensures
            exists|now: u64| final(self)@ == old(self)@.write_next(address, value, now),
            final(self)@.wf(),
    {
        self.tick4();
        let ghost mid = self@;
        self.bus.write_byte(address, value);
        proof {
            reveal(bus_write);
            let w = choose|now: u64| self.bus@ == mid.bus.write_next(address, value, now);
            assert(self@ == old(self)@.write_next(address, value, w));
        }
    }
}

impl CPU {
    fn read_word(&mut self, address: u16) -> (res: u16)
        requires
            old(self)@.wf(),
        ensures
            (final(self)@, res) == old(self)@.read_word_next(address),
            final(self)@.wf(),
    {
        let a = self.read_byte(address);
        let b = self.read_byte(address.wrapping_add(1));
        join(b, a)
    }

    fn write_word(&mut self, address: u16, value: u16)
        requires
            old(self)@.wf(),
        ensures
            exists|t0: u64, t1: u64| final(self)@ == old(self)@.write_word_next(address, value, t0, t1),
            final(self)@.wf(),
    {
        let (hi, lo) = split(value);
        self.write_byte(address, lo);
        let ghost mid = self@;
        self.write_byte(address.wrapping_add(1), hi);
        proof {
            let t0 = choose|now: u64| mid == old(self)@.write_next(address, lo, now);
            let t1 = choose|now: u64| self@ == mid.write_next(address.wrapping_add(1), hi, now);
            assert(self@ == old(self)@.write_word_next(address, value, t0, t1));
        }
    }

    /// The byte at PC; PC moves past it.
    fn read_byte_at_pc(&mut self) -> (res: u8)
        requires
            old(self)@.wf(),
        ensures
            (final(self)@, res) == old(self)@.fetch_next(),
            final(self)@.wf(),
    {
        let result = self.read_byte(self.reg.pc);
        self.reg.pc = self.reg.pc.wrapping_add(1);
        result
    }

    /// The word at PC; PC moves past it.
    fn read_word_at_pc(&mut self) -> (res: u16)
        requires
            old(self)@.wf(),
        ensures
            (final(self)@, res) == old(self)@.fetch_word_next(),
            final(self)@.wf(),
    {
        let result = self.read_word(self.reg.pc);
        self.reg.pc = self.reg.pc.wrapping_add(2);
        result
    }

    /// The byte at HL.
    fn read_byte_at_hl(&mut self) -> (res: u8)
        requires
            old(self)@.wf(),
        ensures
            (final(self)@, res) == old(self)@.read_hl_next(),
            final(self)@.wf(),
    {
        let hl = self.reg.get_hl();
        self.read_byte(hl)
    }

    fn test_flag_condition(&self, test: FlagCondition) -> (res: bool)
        ensures
            res == flag_condition_holds(self.reg.f, test),
    {
        match test {
            FlagCondition::Zero => self.reg.f.z == true,
            FlagCondition::NotZero => self.reg.f.z == false,
            FlagCondition::Carry => self.reg.f.c == true,
            FlagCondition::NotCarry => self.reg.f.c == false,
        }
    }

    fn test_jump_condition(&self, test: Option<FlagCondition>) -> (res: bool)
        ensures
            res == jump_condition_holds(self.reg.f, test),
    {
        match test {
            None => true,
            Some(fc) => self.test_flag_condition(fc),
        }
    }

    /// IF & IE.
    fn get_pending_interrupts(&self) -> (res: u8)
        ensures
            res == self@.pending_interrupts(),
    {
        let int_f = self.bus.get_interrupt_flags();
        let int_e = self.bus.get_interrupt_enable();
        int_f & int_e
    }

    fn alu_adc(&mut self, value: u8)
        ensures
            final(self)@ == old(self)@.with_reg(alu_adc_spec(old(self).reg, value)),
    {
        let a = self.reg.a;
        let c: u8 = if self.reg.f.c { 1 } else { 0 };
        let new_value = a.wrapping_add(value).wrapping_add(c);
        self.reg.f.z = new_value == 0;
        self.reg.f.n = false;
        self.reg.f.h = (a & 0xF) as u16 + (value & 0xF) as u16 + (c & 0xF) as u16 > 0xF;
        self.reg.f.c = (a as u16) + (value as u16) + (c as u16) > 0xFF;
        self.reg.a = new_value;
    }

    fn alu_add(&mut self, value: u8)
        ensures
            final(self)@ == old(self)@.with_reg(alu_add_spec(old(self).reg, value)),
    {
        let a = self.reg.a;
        let new_value = a.wrapping_add(value);
        self.reg.f.z = new_value == 0;
        self.reg.f.n = false;
        self.reg.f.h = (a & 0xF) as u16 + (value & 0xF) as u16 > 0xF;
        self.reg.f.c = (a as u16) + (value as u16) > 0xFF;
        self.reg.a = new_value;
    }

    fn alu_add_hl(&mut self, value: u16)
        requires
            old(self)@.wf(),
        ensures
            final(self)@ == old(self)@.with_reg(alu_add_hl_spec(old(self).reg, value)).tick4_next(),
            final(self)@.wf(),
    {
        let old_hl = self.reg.get_hl();
        let new_value = old_hl.wrapping_add(value);
        self.reg.f.n = false;
        self.reg.f.h = (old_hl & 0x0FFF) as u32 + (value & 0x0FFF) as u32 > 0x0FFF;
        self.reg.f.c = (old_hl as u32) + (value as u32) > 0xFFFF;
        self.reg.set_hl(new_value);
        self.tick4();
    }

    /// Adds the signed byte `offset` to SP (two internal M-cycles first).
    fn alu_add_sp(&mut self, offset: u8)
        requires
            old(self)@.wf(),
        ensures
            final(self)@ == ({
                let c = old(self)@.tick4_next().tick4_next();
                c.with_reg(alu_add_sp_spec(c.reg, offset))
            }),
            final(self)@.wf(),
    {
        self.tick4();
        self.tick4();
        let sp = self.reg.sp;
        let off: u16 = if offset < 0x80 { offset as u16 } else { offset as u16 + 0xFF00 };
        let result = sp.wrapping_add(off);
        self.reg.f.z = false;
        self.reg.f.n = false;
        self.reg.f.h = ((sp & 0xF) as u32 + (off & 0xF) as u32) > 0xF;
        self.reg.f.c = ((sp & 0xFF) as u32 + (off & 0xFF) as u32) > 0xFF;
        self.reg.sp = result;
    }

    fn alu_cp(&mut self, value: u8)
        ensures
            final(self)@ == old(self)@.with_reg(alu_cp_spec(old(self).reg, value)),
    {
        let a = self.reg.a;
        let result = a.wrapping_sub(value);
        self.reg.f.z = result == 0;
        self.reg.f.n = true;
        self.reg.f.h = (a & 0xF) < (value & 0xF);
        self.reg.f.c = (a as u16) < (value as u16);
    }

    fn alu_cpl(&mut self)
        ensures
            final(self)@ == old(self)@.with_reg(alu_cpl_spec(old(self).reg)),
    {
        self.reg.a = !self.reg.a;
        self.reg.f.n = true;
        self.reg.f.h = true;
    }

    fn alu_daa(&mut self)
        ensures
            final(self)@ == old(self)@.with_reg(alu_daa_spec(old(self).reg)),
    {
        let mut a = self.reg.a;
        let mut set_carry = false;
        if !self.reg.f.n {
            let low_fix: u8 = if self.reg.f.h || (a & 0x0F) > 0x09 { 0x06 } else { 0 };
            let high_fix: u8 = if self.reg.f.c || a > 0x99 { 0x60 } else { 0 };
            if self.reg.f.c || a > 0x99 {
                set_carry = true;
            }
            a = a.wrapping_add(low_fix | high_fix);
        } else {
            let low_fix: u8 = if self.reg.f.h { 0x06 } else { 0 };
            let high_fix: u8 = if self.reg.f.c { 0x60 } else { 0 };
            a = a.wrapping_sub(low_fix | high_fix);
        }
        self.reg.f.z = a == 0;
        self.reg.f.h = false;
        if set_carry {
            self.reg.f.c = true;
        }
        self.reg.a = a;
    }

    fn alu_dec(&mut self, value: u8) -> (res: u8)
        ensures
            res == alu_dec_spec(old(self).reg.f, value).0,
            final(self)@ == old(self)@.with_reg(Registers { f: alu_dec_spec(old(self).reg.f, value).1, ..old(self).reg }),
    {
        let new_value = value.wrapping_sub(1);
        self.reg.f.z = new_value == 0;
        self.reg.f.n = true;
        self.reg.f.h = (value & 0x0F) == 0;
        new_value
    }

    fn alu_dec_16(&mut self, value: u16) -> (res: u16)
        requires
            old(self)@.wf(),
        ensures
            res == value.wrapping_sub(1),
            final(self)@ == old(self)@.tick4_next(),
            final(self)@.wf(),
    {
        let result = value.wrapping_sub(1);
        self.tick4();
        result
    }

    fn alu_inc(&mut self, value: u8) -> (res: u8)
        ensures
            res == alu_inc_spec(old(self).reg.f, value).0,
            final(self)@ == old(self)@.with_reg(Registers { f: alu_inc_spec(old(self).reg.f, value).1, ..old(self).reg }),
    {
        let new_value = value.wrapping_add(1);
        self.reg.f.z = new_value == 0;
        self.reg.f.n = false;
        self.reg.f.h = (value & 0x0F) == 0x0F;
        new_value
    }

    fn alu_inc_16(&mut self, value: u16) -> (res: u16)
        requires
            old(self)@.wf(),
        ensures
            res == value.wrapping_add(1),
            final(self)@ == old(self)@.tick4_next(),
            final(self)@.wf(),
    {
        let result = value.wrapping_add(1);
        self.tick4();
        result
    }

    /// PC = `address`, one internal M-cycle.
    fn alu_jp(&mut self, address: u16)
        requires
            old(self)@.wf(),
        ensures
            final(self)@ == old(self)@.with_reg(Registers { pc: address, ..old(self).reg }).tick4_next(),
            final(self)@.wf(),
    {
        self.reg.pc = address;
        self.tick4();
    }

    /// Relative jump by the signed byte `offset` from the current PC.
    fn alu_jr(&mut self, offset: u8)
        requires
            old(self)@.wf(),
        ensures
            final(self)@ == old(self)@.with_reg(
                Registers { pc: old(self).reg.pc.wrapping_add(sign_extend(offset)), ..old(self).reg },
            ).tick4_next(),
            final(self)@.wf(),
    {
        let off: u16 = if offset < 0x80 { offset as u16 } else { offset as u16 + 0xFF00 };
        let target_addr = self.reg.pc.wrapping_add(off);
        self.alu_jp(target_addr);
    }

    fn alu_rl(&mut self, value: u8) -> (res: u8)
        requires
            old(self)@.wf(),
        ensures
            res == alu_rl_spec(old(self).reg.f, value).0,
            final(self)@ == old(self)@.with_reg(Registers { f: alu_rl_spec(old(self).reg.f, value).1, ..old(self).reg }).tick4_next(),
            final(self)@.wf(),
    {
        let old_bit_7 = (value & 0x80) >> 7;
        let c: u8 = if self.reg.f.c { 1 } else { 0 };
        let new_value = (value << 1) | c;
        self.reg.f.z = new_value == 0;
        self.reg.f.n = false;
        self.reg.f.h = false;
        self.reg.f.c = old_bit_7 == 1;
        self.tick4();
        new_value
    }

    fn alu_rlc(&mut self, value: u8) -> (res: u8)
        requires
            old(self)@.wf(),
        ensures
            res == alu_rlc_spec(old(self).reg.f, value).0,
            final(self)@ == old(self)@.with_reg(Registers { f: alu_rlc_spec(old(self).reg.f, value).1, ..old(self).reg }).tick4_next(),
            final(self)@.wf(),
    {
        let old_bit_7 = (value & 0x80) >> 7;
        let new_value = (value << 1) | old_bit_7;
        self.reg.f.z = new_value == 0;
        self.reg.f.n = false;
        self.reg.f.h = false;
        self.reg.f.c = old_bit_7 == 1;
        self.tick4();
        new_value
    }

    fn alu_rr(&mut self, value: u8) -> (res: u8)
        requires
            old(self)@.wf(),
        ensures
            res == alu_rr_spec(old(self).reg.f, value).0,
            final(self)@ == old(self)@.with_reg(Registers { f: alu_rr_spec(old(self).reg.f, value).1, ..old(self).reg }).tick4_next(),
            final(self)@.wf(),
    {
        let old_bit_0 = value & 1;
        let c: u8 = if self.reg.f.c { 1 } else { 0 };
        let new_value = (value >> 1) | (c << 7);
        self.reg.f.z = new_value == 0;
        self.reg.f.n = false;
        self.reg.f.h = false;
        self.reg.f.c = old_bit_0 == 1;
        self.tick4();
        new_value
    }

    fn alu_rrc(&mut self, value: u8) -> (res: u8)
        requires
            old(self)@.wf(),
        ensures
            res == alu_rrc_spec(old(self).reg.f, value).0,
            final(self)@ == old(self)@.with_reg(Registers { f: alu_rrc_spec(old(self).reg.f, value).1, ..old(self).reg }).tick4_next(),
            final(self)@.wf(),
    {
        let old_bit_0 = value & 1;
        let new_value = (value >> 1) | (old_bit_0 << 7);
        self.reg.f.z = new_value == 0;
        self.reg.f.n = false;
        self.reg.f.h = false;
        self.reg.f.c = old_bit_0 == 1;
        self.tick4();
        new_value
    }

    fn alu_sbc(&mut self, value: u8)
        ensures
            final(self)@ == old(self)@.with_reg(alu_sbc_spec(old(self).reg, value)),
    {
        let a = self.reg.a;
        let c: u8 = if self.reg.f.c { 1 } else { 0 };
        let new_value = a.wrapping_sub(value).wrapping_sub(c);
        self.reg.f.z = new_value == 0;
        self.reg.f.n = true;
        self.reg.f.h = ((a & 0xF) as u16) < (value & 0xF) as u16 + c as u16;
        self.reg.f.c = (a as u16) < (value as u16) + (c as u16);
        self.reg.a = new_value;
    }

    fn alu_sub(&mut self, value: u8)
        ensures
            final(self)@ == old(self)@.with_reg(alu_sub_spec(old(self).reg, value)),
    {
        let old_a = self.reg.a;
        let new_a = self.reg.a.wrapping_sub(value);
        self.reg.f.z = new_a == 0;
        self.reg.f.n = true;
        self.reg.f.h = (old_a & 0xF) < (value & 0xF);
        self.reg.f.c = (old_a as u16) < (value as u16);
        self.reg.a = new_a;
    }

    fn alu_or(&mut self, value: u8)
        ensures
            final(self)@ == old(self)@.with_reg(alu_or_spec(old(self).reg, value)),
    {
        let new_value = self.reg.a | value;
        self.reg.f.z = new_value == 0;
        self.reg.f.n = false;
        self.reg.f.h = false;
        self.reg.f.c = false;
        self.reg.a = new_value;
    }

    fn alu_and(&mut self, value: u8)
        ensures
            final(self)@ == old(self)@.with_reg(alu_and_spec(old(self).reg, value)),
    {
        let new_value = self.reg.a & value;
        self.reg.f.z = new_value == 0;
        self.reg.f.n = false;
        self.reg.f.h = true;
        self.reg.f.c = false;
        self.reg.a = new_value;
    }

    fn alu_xor(&mut self, value: u8)
        ensures
            final(self)@ == old(self)@.with_reg(alu_xor_spec(old(self).reg, value)),
    {
        let new_value = self.reg.a ^ value;
        self.reg.f.z = new_value == 0;
        self.reg.f.n = false;
        self.reg.f.h = false;
        self.reg.f.c = false;
        self.reg.a = new_value;
    }

    /// Pops a word from the stack.
    fn alu_pop(&mut self) -> (res: u16)
        requires
            old(self)@.wf(),
        ensures
            (final(self)@, res) == old(self)@.pop_next(),
            final(self)@.wf(),
    {
        let lsb = self.read_byte(self.reg.sp);
        self.reg.sp = self.reg.sp.wrapping_add(1);
        let msb = self.read_byte(self.reg.sp);
        self.reg.sp = self.reg.sp.wrapping_add(1);
        join(msb, lsb)
    }

    /// Pushes a word on the stack.
    fn alu_push(&mut self, value: u16)
        requires
            old(self)@.wf(),
        ensures
            exists|t0: u64, t1: u64| final(self)@ == old(self)@.push_next(value, t0, t1),
            final(self)@.wf(),
    {
        self.tick4();
        let (hi, lo) = split(value);
        self.reg.sp = self.reg.sp.wrapping_sub(1);
        let ghost m1 = self@;
        self.write_byte(self.reg.sp, hi);
        let ghost m2 = self@;
        self.reg.sp = self.reg.sp.wrapping_sub(1);
        let ghost m3 = self@;
        self.write_byte(self.reg.sp, lo);
        proof {
            let t0 = choose|now: u64| m2 == m1.write_next(m1.reg.sp, hi, now);
            let t1 = choose|now: u64| self@ == m3.write_next(m3.reg.sp, lo, now);
            assert(self@ == old(self)@.push_next(value, t0, t1));
        }
    }

    /// `value` with bit `bit` set.
    pub fn alu_set(&mut self, bit: u8, value: u8) -> (res: u8)
        ensures
            res == alu_set_spec(bit, value),
            *final(self) == *old(self),
    {
        if bit < 8 {
            let mask: u8 = 1 << bit;
            value | mask
        } else {
            value
        }
    }

    /// Shifts `value` left into carry.
    pub fn alu_sla(&mut self, value: u8) -> (res: u8)
        requires
            old(self)@.wf(),
        ensures
            res == alu_sla_spec(old(self).reg.f, value).0,
            final(self)@ == old(self)@.with_reg(Registers { f: alu_sla_spec(old(self).reg.f, value).1, ..old(self).reg }).tick4_next(),
            final(self)@.wf(),
    {
        let old_bit_7 = (value & 0x80) >> 7;
        let new_value = value << 1;
        self.reg.f.z = new_value == 0;
        self.reg.f.n = false;
        self.reg.f.h = false;
        self.reg.f.c = old_bit_7 == 1;
        self.tick4();
        new_value
    }

    /// Shifts `value` right into carry; bit 7 becomes 0.
    pub fn alu_sra(&mut self, value: u8) -> (res: u8)
        requires
            old(self)@.wf(),
        ensures
            res == alu_sra_spec(old(self).reg.f, value).0,
            final(self)@ == old(self)@.with_reg(Registers { f: alu_sra_spec(old(self).reg.f, value).1, ..old(self).reg }).tick4_next(),
            final(self)@.wf(),
    {
        let old_bit_0 = value & 1;
        let new_value = value >> 1;
        self.reg.f.z = new_value == 0;
        self.reg.f.n = false;
        self.reg.f.h = false;
        self.reg.f.c = old_bit_0 == 1;
        self.tick4();
        new_value
    }

    /// Shifts `value` right into carry; bit 7 becomes 0.
    pub fn alu_srl(&mut self, value: u8) -> (res: u8)
        requires
            old(self)@.wf(),
        ensures
            res == alu_srl_spec(old(self).reg.f, value).0,
            final(self)@ == old(self)@.with_reg(Registers { f: alu_srl_spec(old(self).reg.f, value).1, ..old(self).reg }).tick4_next(),
            final(self)@.wf(),
    {
        let old_bit_0 = value & 1;
        let new_value = value >> 1;
        self.reg.f.z = new_value == 0;
        self.reg.f.n = false;
        self.reg.f.h = false;
        self.reg.f.c = old_bit_0 == 1;
        self.tick4();
        new_value
    }

    /// Swaps the nibbles of `value`.
    pub fn alu_swap(&mut self, value: u8) -> (res: u8)
        requires
            old(self)@.wf(),
        ensures
            res == alu_swap_spec(old(self).reg.f, value).0,
            final(self)@ == old(self)@.with_reg(Registers { f: alu_swap_spec(old(self).reg.f, value).1, ..old(self).reg }).tick4_next(),
            final(self)@.wf(),
    {
        let new_value = ((value & 0xF0) >> 4) | ((value & 0x0F) << 4);
        self.reg.f.z = new_value == 0;
        self.reg.f.n = false;
        self.reg.f.h = false;
        self.reg.f.c = false;
        self.tick4();
        new_value
    }

    /// Tests bit `bit` of `value` into Z.
    pub fn alu_bit(&mut self, bit: u8, value: u8)
        requires
            old(self)@.wf(),
        ensures
            final(self)@ == old(self)@.with_reg(Registers { f: alu_bit_spec(old(self).reg.f, bit, value), ..old(self).reg }).tick4_next(),
            final(self)@.wf(),
    {
        if bit < 8 {
            let mask: u8 = 1 << bit;
            self.reg.f.z = (value & mask) == 0;
        } else {
            self.reg.f.z = true;
        }
        self.reg.f.n = false;
        self.reg.f.h = true;
        self.tick4();
    }

    /// Calls the restart vector `value`: PC is pushed, then PC = `value`.
    pub fn alu_rst(&mut self, value: u16)
        requires
            old(self)@.wf(),
        ensures
            exists|t0: u64, t1: u64| final(self)@ == old(self)@.rst_next(value, t0, t1),
            final(self)@.wf(),
    {
        let pc = self.reg.pc;
        self.alu_push(pc);
        let ghost m = self@;
        self.reg.pc = value;
        self.tick4();
        proof {
            reveal(CpuView::rst_next);
            let (t0, t1) = choose|t0: u64, t1: u64| m == old(self)@.push_next(pc, t0, t1);
            assert(self@ == old(self)@.rst_next(value, t0, t1));
        }
    }
}

} // verus!
