use vstd::prelude::*;
use crate::bits::BIT_2;

verus! {

/// Timer interrupt bit in the IF register.
pub const TIMER_INTERRUPT: u8 = 0x04;

/// Divider bit watched for each TAC clock select, in T-cycles.
pub open spec fn divider_bit(select: u8) -> u16 {
    if select % 4 == 0 {
        1u16 << 9u16
    } else if select % 4 == 1 {
        1u16 << 3u16
    } else if select % 4 == 2 {
        1u16 << 5u16
    } else {
        1u16 << 7u16
    }
}

/// DIV/TIMA/TMA/TAC timer with the falling-edge increment and the delayed TIMA reload.
#[derive(Clone, Copy)]
pub struct Timer {
    pub div: u16,
    pub tima: u8,
    pub tma: u8,
    pub tac: u8,
    pub timer_enabled: bool,
    pub current_bit: u16,
    pub last_bit: bool,
    pub overflow: bool,
    pub ticks_since_overflow: u8,
}

impl Timer {
    pub open spec fn read_spec(self, addr: u16) -> u8 {
        if addr == 0xFF04 {
            (self.div / 256) as u8
        } else if addr == 0xFF05 {
            self.tima
        } else if addr == 0xFF06 {
            self.tma
        } else if addr == 0xFF07 {
            self.tac | 0xF8
        } else {
            0
        }
    }

    /// TIMA increments when the watched divider bit goes from 1 to 0 on an enabled timer.
    pub open spec fn glitch_next(self, old_enabled: bool, old_bit: u16, flag: u8) -> (Timer, u8) {
        if old_enabled && (self.div & old_bit) != 0 && (!self.timer_enabled || !(self.div & self.current_bit) != 0) {
            let t = (self.tima + 1) % 256;
            if t == 0 {
                (Timer { tima: self.tma, last_bit: false, ..self }, flag | TIMER_INTERRUPT)
            } else {
                (Timer { tima: t as u8, last_bit: false, ..self }, flag)
            }
        } else {
            (self, flag)
        }
    }

    /// State and IF register after writing a timer register.
    pub open spec fn write_next(self, addr: u16, value: u8, flag: u8) -> (Timer, u8) {
        if addr == 0xFF04 {
            (Timer { div: 0, ..self }, flag)
        } else if addr == 0xFF05 {
            if self.ticks_since_overflow != 5 {
                (Timer { tima: value, overflow: false, ticks_since_overflow: 0, ..self }, flag)
            } else {
                (self, flag)
            }
        } else if addr == 0xFF06 {
            (Timer { tma: value, tima: if self.ticks_since_overflow == 5 { value } else { self.tima }, ..self }, flag)
        } else if addr == 0xFF07 {
            let tac = value & 0b111;
            let t = Timer {
                tac,
                current_bit: divider_bit(tac),
                timer_enabled: (tac & BIT_2) != 0,
                ..self
            };
            t.glitch_next(self.timer_enabled, self.current_bit, flag)
        } else {
            (self, flag)
        }
    }

    /// State and IF register after one T-cycle.
    pub open spec fn tick_next(self, flag: u8) -> (Timer, u8) {
        let div = ((self.div + 1) % 0x10000) as u16;
        let bit = self.timer_enabled && (div & self.current_bit) != 0;
        let falling = self.last_bit && !bit;
        let tima = if falling { ((self.tima + 1) % 256) as u8 } else { self.tima };
        let t = Timer {
            div,
            tima,
            overflow: if falling && tima == 0 { true } else { self.overflow },
            ticks_since_overflow: if falling && tima == 0 { 0 } else { self.ticks_since_overflow },
            last_bit: bit,
            ..self
        };
        if t.overflow {
            let n = ((t.ticks_since_overflow + 1) % 256) as u8;
            if n == 4 {
                (Timer { ticks_since_overflow: n, ..t }, flag | TIMER_INTERRUPT)
            } else if n == 5 {
                (Timer { ticks_since_overflow: n, tima: t.tma, ..t }, flag)
            } else if n == 6 {
                (Timer { ticks_since_overflow: 0, overflow: false, ..t }, flag)
            } else {
                (Timer { ticks_since_overflow: n, ..t }, flag)
            }
        } else {
            (t, flag)
        }
    }

    pub fn new() -> (res: Self)
        ensures
            res.div == 0 && res.tima == 0 && res.tma == 0 && res.tac == 0,
            !res.timer_enabled && !res.last_bit && !res.overflow,
            res.current_bit == divider_bit(0),
            res.ticks_since_overflow == 0,
    {
        Self {
            div: 0,
            tima: 0,
            tma: 0,
            tac: 0,
            timer_enabled: false,
            current_bit: 1 << 9,
            last_bit: false,
            overflow: false,
            ticks_since_overflow: 0,
        }
    }

    /// Reads DIV (the upper divider byte), TIMA, TMA or TAC.
    pub fn read(&self, addr: u16) -> (res: u8)
        ensures
            res == self.read_spec(addr),
    {
        match addr {
            0xFF04 => {
                let d = self.div;
                assert(d >> 8u16 == d / 256) by (bit_vector);
                (self.div >> 8) as u8
            },
            0xFF05 => self.tima,
            0xFF06 => self.tma,
            0xFF07 => self.tac | 0xF8,
            _ => 0,
        }
    }

    /// Writes a timer register; a TAC write may increment TIMA (and request the timer
    /// interrupt in `interrupt_flag`) when it turns the watched divider bit off.
    pub fn write(&mut self, addr: u16, value: u8, interrupt_flag: &mut u8)
        ensures
            (*final(self), *final(interrupt_flag)) == old(self).write_next(addr, value, *old(interrupt_flag)),
    {
        match addr {
            0xFF04 => self.div = 0,
            0xFF05 => {
                if self.ticks_since_overflow != 5 {
                    self.tima = value;
                    self.overflow = false;
                    self.ticks_since_overflow = 0;
                }
            },
            0xFF06 => {
                self.tma = value;
                if self.ticks_since_overflow == 5 {
                    self.tima = value;
                }
            },
            0xFF07 => {
                let old_enabled = self.timer_enabled;
                let old_bit = self.current_bit;
                self.tac = value & 0b111;
                self.current_bit = Timer::bit_for(self.tac);
                self.timer_enabled = (self.tac & BIT_2) != 0;
                self.tima_glitch(old_enabled, old_bit, interrupt_flag);
            },
            _ => {},
        }
    }

    fn bit_for(select: u8) -> (res: u16)
        ensures
            res == divider_bit(select),
    {
        let bits: [u16; 4] = [9, 3, 5, 7];
        assert(select & 0b11 == select % 4) by (bit_vector);
        let shift = bits[(select & 0b11) as usize];
        1u16 << shift
    }

    /// Advances the timer by one T-cycle.
    pub fn tick(&mut self, interrupt_flag: &mut u8)
        ensures
            (*final(self), *final(interrupt_flag)) == old(self).tick_next(*old(interrupt_flag)),
    {
        self.div = self.div.wrapping_add(1);
        let bit = self.timer_enabled && (self.div & self.current_bit) != 0;
        if self.last_bit && !bit {
            self.tima = self.tima.wrapping_add(1);
            if self.tima == 0 {
                self.overflow = true;
                self.ticks_since_overflow = 0;
            }
        }
        self.last_bit = bit;
        if self.overflow {
            self.ticks_since_overflow = self.ticks_since_overflow.wrapping_add(1);
            if self.ticks_since_overflow == 4 {
                *interrupt_flag |= TIMER_INTERRUPT;
            } else if self.ticks_since_overflow == 5 {
                self.tima = self.tma;
            } else if self.ticks_since_overflow == 6 {
                self.overflow = false;
                self.ticks_since_overflow = 0;
            }
        }
    }

    fn tima_glitch(&mut self, old_enabled: bool, old_bit: u16, interrupt_flag: &mut u8)
        ensures
            (*final(self), *final(interrupt_flag)) == old(self).glitch_next(old_enabled, old_bit, *old(interrupt_flag)),
    {
        if !old_enabled {
            return;
        }
        if (self.div & old_bit) != 0 {
            if !self.timer_enabled || !(self.div & self.current_bit) != 0 {
                self.tima = self.tima.wrapping_add(1);
                if self.tima == 0 {
                    self.tima = self.tma;
                    *interrupt_flag |= TIMER_INTERRUPT;
                }
                self.last_bit = false;
            }
        }
    }
}

/// TMA is read back as written, and TAC reads with its unused upper bits set.
pub proof fn lemma_timer_register_roundtrip(t: Timer, value: u8, flag: u8)
    ensures
        t.write_next(0xFF06, value, flag).0.read_spec(0xFF06) == value,
        t.write_next(0xFF07, value, flag).0.read_spec(0xFF07) == ((value & 0b111) | 0xF8),
        t.write_next(0xFF04, value, flag).0.read_spec(0xFF04) == 0,
{
}

/// T-cycles between two increments of TIMA for a TAC clock select: 4096, 262144, 65536
/// and 16384 Hz of the 4194304 Hz clock.
pub open spec fn timer_period(tac: u8) -> int {
    if tac % 4 == 0 {
        1024
    } else if tac % 4 == 1 {
        16
    } else if tac % 4 == 2 {
        64
    } else {
        256
    }
}

proof fn lemma_falling_edges(d: u16)
    by (bit_vector)
    ensures
        ((d & 512) != 0 && ((((d + 1) % 0x10000) as u16) & 512) == 0) == ((d + 1) % 1024 == 0),
        ((d & 8) != 0 && ((((d + 1) % 0x10000) as u16) & 8) == 0) == ((d + 1) % 16 == 0),
        ((d & 32) != 0 && ((((d + 1) % 0x10000) as u16) & 32) == 0) == ((d + 1) % 64 == 0),
        ((d & 128) != 0 && ((((d + 1) % 0x10000) as u16) & 128) == 0) == ((d + 1) % 256 == 0),
        1u16 << 9u16 == 512u16,
        1u16 << 3u16 == 8u16,
        1u16 << 5u16 == 32u16,
        1u16 << 7u16 == 128u16,
{
}

/// The TIMA rate: on a running timer whose watched divider bit and its last value agree,
/// a T-cycle increments TIMA exactly when the divider reaches a multiple of the selected
/// period (1024, 16, 64 or 256 T-cycles), and the watched bit stays in step.
pub proof fn lemma_timer_rate(t: Timer, flag: u8)
    requires
        t.timer_enabled,
        t.current_bit == divider_bit(t.tac),
        t.last_bit == ((t.div & t.current_bit) != 0),
        !t.overflow,
    ensures
        t.tick_next(flag).0.tima as int == (if (t.div as int + 1) % timer_period(t.tac) == 0 {
            (t.tima + 1) % 256
        } else {
            t.tima as int
        }),
        t.tick_next(flag).0.last_bit == ((t.tick_next(flag).0.div & t.current_bit) != 0),
        t.tick_next(flag).0.current_bit == t.current_bit,
        t.tick_next(flag).0.tac == t.tac,
{
    lemma_falling_edges(t.div);
}

/// One T-cycle of a running timer whose watched bit is in step with the divider: the bit
/// stays in step, and the tick sees a falling edge exactly when the divider reaches a
/// multiple of the selected period.
proof fn lemma_quiet_tick(t: Timer, flag: u8)
    requires
        t.timer_enabled,
        t.current_bit == divider_bit(t.tac),
        t.last_bit == ((t.div & t.current_bit) != 0),
    ensures
        ({
            let (t1, f1) = t.tick_next(flag);
            &&& t1.last_bit == ((t1.div & t1.current_bit) != 0)
            &&& t1.current_bit == t.current_bit && t1.tac == t.tac && t1.timer_enabled
            &&& t1.tma == t.tma
            &&& t1.div == (t.div + 1) % 0x10000
            &&& (t.last_bit && !t1.last_bit) == ((t.div as int + 1) % timer_period(t.tac) == 0)
        }),
{
    lemma_falling_edges(t.div);
}

/// TIMA overflow: when TIMA wraps from 0xFF to 0 on a running timer, it reads 0 for four
/// T-cycles; the timer interrupt is requested on the fourth, and on the fifth TIMA is
/// loaded from TMA; after the sixth the timer counts normally again.
pub proof fn lemma_timer_overflow(t: Timer, flag: u8)
    requires
        t.timer_enabled,
        t.current_bit == divider_bit(t.tac),
        t.last_bit == ((t.div & t.current_bit) != 0),
        !t.overflow,
        t.tima == 0xFF,
        (t.div as int + 1) % timer_period(t.tac) == 0,
    ensures
        ({
            let (t1, f1) = t.tick_next(flag);
            let (t2, f2) = t1.tick_next(f1);
            let (t3, f3) = t2.tick_next(f2);
            let (t4, f4) = t3.tick_next(f3);
            let (t5, f5) = t4.tick_next(f4);
            let (t6, f6) = t5.tick_next(f5);
            &&& t1.tima == 0 && t2.tima == 0 && t3.tima == 0 && t4.tima == 0
            &&& f1 == flag && f2 == flag && f3 == flag
            &&& f4 == flag | TIMER_INTERRUPT
            &&& t5.tima == t.tma && f5 == f4
            &&& t6.tima == t.tma && f6 == f4 && !t6.overflow
        }),
{
    let (t1, f1) = t.tick_next(flag);
    let (t2, f2) = t1.tick_next(f1);
    let (t3, f3) = t2.tick_next(f2);
    let (t4, f4) = t3.tick_next(f3);
    let (t5, f5) = t4.tick_next(f4);
    lemma_quiet_tick(t, flag);
    lemma_quiet_tick(t1, f1);
    lemma_quiet_tick(t2, f2);
    lemma_quiet_tick(t3, f3);
    lemma_quiet_tick(t4, f4);
    lemma_quiet_tick(t5, f5);
}

} // verus!
