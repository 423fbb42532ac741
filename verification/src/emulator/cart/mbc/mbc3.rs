use vstd::prelude::*;
use crate::emulator::cart::mbc::mbc0::{byte_or_ff, read_or_ff, write_if_inside};
use crate::emulator::cart::mbc::mbc1::rom_offset;

verus! {

pub const INVALID_MAX_SECONDS: u8 = 63;
pub const INVALID_MAX_MINUTES: u8 = 63;
pub const INVALID_MAX_HOURS: u8 = 31;

#[verifier::external_type_specification]
#[verifier::external_body]
pub struct ExSystemTime(std::time::SystemTime);

/// `std::time::SystemTime::now`: the current wall-clock time. Nothing is claimed of the value.
#[verifier::external_body]
fn system_time_now() -> std::time::SystemTime {
    std::time::SystemTime::now()
}

/// `SystemTime::duration_since(UNIX_EPOCH)`: the time elapsed since the Unix epoch, `None`
/// for a time before it. Nothing is claimed of the value.
#[verifier::external_body]
fn duration_since_epoch(time: std::time::SystemTime) -> Option<std::time::Duration> {
    time.duration_since(std::time::UNIX_EPOCH).ok()
}

/// `Duration::as_millis`: the whole milliseconds of a duration. Nothing is claimed of the value.
#[verifier::external_body]
fn duration_as_millis(d: std::time::Duration) -> u128 {
    d.as_millis()
}

/// Clock value from the milliseconds since the Unix epoch: the low 64 bits, 0 for a time
/// before the epoch (`None`).
pub fn millis_or_zero(since_epoch: Option<u128>) -> (res: u64)
    ensures
        res == (match since_epoch {
            Some(m) => m as u64,
            None => 0u64,
        }),
{
    match since_epoch {
        Some(m) => m as u64,
        None => 0,
    }
}

/// Milliseconds since the Unix epoch of `time` (truncated to 64 bits), 0 before the epoch.
/// The wall clock promises nothing of the value; `millis_or_zero` states how it is formed.
pub fn system_time_to_u64_millis(time: std::time::SystemTime) -> u64 {
    let since_epoch = match duration_since_epoch(time) {
        Some(d) => Some(duration_as_millis(d)),
        None => None,
    };
    millis_or_zero(since_epoch)
}

/// Real-time clock of an MBC3 cartridge.
#[derive(Clone, Copy, PartialEq, Eq, Structural)]
pub struct Rtc {
    pub millis: u16,
    pub seconds: u8,
    pub minutes: u8,
    pub hours: u8,
    pub days: u16,
    pub halted: bool,
    pub base_timestamp: u64,
    pub day_carry: bool,
}

/// Clock registers after `elapsed` milliseconds. Registers holding out-of-range values
/// count up to their 6-bit (5-bit for hours) limit and then wrap to 0 without carrying.
pub open spec fn rtc_advanced(rtc: Rtc, elapsed: u64) -> Rtc {
    let m0 = rtc.millis + elapsed;
    let s0 = rtc.seconds + m0 / 1000;
    let millis = m0 % 1000;
    let (s1, mi0, inv1) = if rtc.seconds < 60 {
        (s0 % 60, rtc.minutes + s0 / 60, false)
    } else if s0 > INVALID_MAX_SECONDS {
        (0int, rtc.minutes as int, true)
    } else {
        (s0, rtc.minutes as int, false)
    };
    let (mi1, h0, inv2) = if rtc.minutes < 60 && !inv1 {
        (mi0 % 60, rtc.hours + mi0 / 60, inv1)
    } else if mi0 > INVALID_MAX_MINUTES {
        (0int, rtc.hours as int, true)
    } else {
        (mi0, rtc.hours as int, inv1)
    };
    let (h1, d0, inv3) = if rtc.hours < 24 && !inv2 {
        (h0 % 24, rtc.days + h0 / 24, inv2)
    } else if h0 > INVALID_MAX_HOURS {
        (0int, rtc.days as int, true)
    } else {
        (h0, rtc.days as int, inv2)
    };
    let (d1, carry) = if d0 >= 512 && !inv3 { (d0 % 512, true) } else { (d0, rtc.day_carry) };
    Rtc {
        millis: millis as u16,
        seconds: s1 as u64 as u8,
        minutes: mi1 as u64 as u8,
        hours: h1 as u64 as u8,
        days: d1 as u64 as u16,
        day_carry: carry,
        ..rtc
    }
}

impl Rtc {
    pub fn new() -> (res: Self)
        ensures
            res == (Rtc {
                millis: 0,
                seconds: 0,
                minutes: 0,
                hours: 0,
                days: 0,
                halted: false,
                base_timestamp: 0,
                day_carry: false,
            }),
    {
        Rtc {
            millis: 0,
            seconds: 0,
            minutes: 0,
            hours: 0,
            days: 0,
            halted: false,
            base_timestamp: 0,
            day_carry: false,
        }
    }
}

/// MBC3: 7-bit ROM bank register, RAM banks and a real-time clock. Where the clock is
/// persisted, `rtc_save_pending` asks the owner of the cartridge to store `rtc`.
#[derive(Clone, Copy, PartialEq, Eq, Structural)]
pub struct Mbc3 {
    pub rom_bank: u8,
    pub ram_rtc_selection: u8,
    pub ram_rtc_enabled: bool,
    pub banking_mode: u8,
    pub rom_banks_number: usize,
    pub ram_banks_number: usize,
    pub rtc_enabled: bool,
    pub rtc: Rtc,
    pub rtc_latch: u8,
    pub rtc_save_pending: bool,
}

impl Mbc3 {
    /// Clock state after catching up with `now` (ms since the epoch), when not halted. A clock
    /// reading behind the last one, or an elapsed time whose sum with the milliseconds
    /// register leaves 64 bits, leaves the registers as they are.
    pub open spec fn caught_up(self, now: u64) -> Rtc {
        if !self.rtc.halted && now >= self.rtc.base_timestamp {
            let elapsed = (now - self.rtc.base_timestamp) as u64;
            if elapsed > 0 && self.rtc.millis + elapsed <= u64::MAX {
                rtc_advanced(self.rtc, elapsed)
            } else {
                self.rtc
            }
        } else {
            self.rtc
        }
    }

    pub open spec fn read_rom_spec(self, rom: Seq<u8>, address: u16) -> u8 {
        if address <= 0x7FFF {
            byte_or_ff(rom, rom_offset(self.rom_bank, self.banking_mode, rom.len(), address))
        } else {
            0xFF
        }
    }

    /// State after a write to the control area, with the wall clock reading `now`.
    pub open spec fn write_rom_next(self, address: u16, value: u8, now: u64) -> Mbc3 {
        if address <= 0x1FFF {
            Mbc3 { ram_rtc_enabled: value % 16 == 0x0A, ..self }
        } else if address <= 0x3FFF {
            Mbc3 { rom_bank: if value == 0 { 1 } else { value % 128 }, ..self }
        } else if address <= 0x5FFF {
            if value <= 0x03 || (value >= 0x08 && value <= 0x0C) {
                Mbc3 { ram_rtc_selection: value, ..self }
            } else {
                self
            }
        } else if address <= 0x7FFF {
            if self.rtc_enabled {
                let m = if self.rtc_latch == 0 && value == 1 {
                    let r = self.caught_up(now);
                    if r != self.rtc {
                        Mbc3 { rtc: Rtc { base_timestamp: now, ..r }, rtc_save_pending: true, ..self }
                    } else {
                        self
                    }
                } else {
                    self
                };
                Mbc3 { rtc_latch: value, ..m }
            } else {
                self
            }
        } else {
            self
        }
    }

    pub open spec fn ram_offset(self, address: u16) -> int {
        let bank = if self.banking_mode == 1 { self.ram_rtc_selection as int } else { 0 };
        0x2000 * bank + (address - 0xA000)
    }

    pub open spec fn read_ram_spec(self, ram: Seq<u8>, address: u16) -> u8 {
        if !self.ram_rtc_enabled {
            0xFF
        } else {
            let sel = self.ram_rtc_selection;
            if sel <= 0x03 {
                byte_or_ff(ram, self.ram_offset(address))
            } else if sel == 0x08 {
                self.rtc.seconds
            } else if sel == 0x09 {
                self.rtc.minutes
            } else if sel == 0x0A {
                self.rtc.hours
            } else if sel == 0x0B {
                (self.rtc.days % 256) as u8
            } else if sel == 0x0C {
                ((self.rtc.days / 256) % 2 + (if self.rtc.halted { 0x40int } else { 0 }) + (if self.rtc.day_carry { 0x80int } else { 0 })) as u8
            } else {
                0xFF
            }
        }
    }

    /// RAM contents and controller state after a write to 0xA000-0xBFFF at time `now`.
    pub open spec fn write_ram_next(self, ram: Seq<u8>, address: u16, value: u8, now: u64) -> (Mbc3, Seq<u8>) {
        if !self.ram_rtc_enabled {
            (self, ram)
        } else {
            let sel = self.ram_rtc_selection;
            if sel <= 0x03 {
                let off = self.ram_offset(address);
                (self, if off < ram.len() { ram.update(off, value) } else { ram })
            } else if sel == 0x08 {
                (Mbc3 { rtc: Rtc { seconds: value, ..self.rtc }, ..self }, ram)
            } else if sel == 0x09 {
                (Mbc3 { rtc: Rtc { minutes: value, ..self.rtc }, ..self }, ram)
            } else if sel == 0x0A {
                (Mbc3 { rtc: Rtc { hours: value, ..self.rtc }, ..self }, ram)
            } else if sel == 0x0B {
                (Mbc3 { rtc: Rtc { days: ((self.rtc.days / 256) % 2 * 256 + value) as u16, ..self.rtc }, ..self }, ram)
            } else if sel == 0x0C {
                (Mbc3 { rtc: Rtc { base_timestamp: now, ..self.caught_up(now) }, rtc_save_pending: true, ..self }, ram)
            } else {
                (self, ram)
            }
        }
    }

    pub fn new(rom_banks_number: usize, ram_banks_number: usize, rtc_enabled: bool, loaded_rtc: Option<Rtc>) -> (res: Self)
        ensures
            res == (Mbc3 {
                rom_bank: 1,
                ram_rtc_selection: 0,
                ram_rtc_enabled: false,
                banking_mode: 0,
                rom_banks_number,
                ram_banks_number,
                rtc_enabled,
                rtc: match loaded_rtc {
                    Some(r) => r,
                    None => Rtc {
                        millis: 0,
                        seconds: 0,
                        minutes: 0,
                        hours: 0,
                        days: 0,
                        halted: false,
                        base_timestamp: 0,
                        day_carry: false,
                    },
                },
                rtc_latch: 0xFF,
                rtc_save_pending: false,
            }),
    {
        Mbc3 {
            rom_bank: 1,
            ram_rtc_selection: 0,
            ram_rtc_enabled: false,
            banking_mode: 0,
            rom_banks_number,
            ram_banks_number,
            rtc_enabled,
            rtc: match loaded_rtc {
                Some(r) => r,
                None => Rtc::new(),
            },
            rtc_latch: 0xFF,
            rtc_save_pending: false,
        }
    }

    /// Advances the clock registers by `elapsed_ms` milliseconds.
    pub fn update_rtc_registers(&mut self, elapsed_ms: u64)
        requires
            old(self).rtc.millis + elapsed_ms <= u64::MAX,
        ensures
            *final(self) == (Mbc3 { rtc: rtc_advanced(old(self).rtc, elapsed_ms), ..*old(self) }),
    {
        let mut new_millis = self.rtc.millis as u64 + elapsed_ms;
        let mut new_seconds = self.rtc.seconds as u64;
        let mut new_minutes = self.rtc.minutes as u64;
        let mut new_hours = self.rtc.hours as u64;
        let mut new_days = self.rtc.days as u64;
        let mut invalid_rollover = false;

        new_seconds += new_millis / 1000;
        new_millis %= 1000;

        if self.rtc.seconds < 60 {
            new_minutes += new_seconds / 60;
            new_seconds %= 60;
        } else if new_seconds > INVALID_MAX_SECONDS as u64 {
            invalid_rollover = true;
            new_seconds = 0;
        }
        if self.rtc.minutes < 60 && !invalid_rollover {
            new_hours += new_minutes / 60;
            new_minutes %= 60;
        } else if new_minutes > INVALID_MAX_MINUTES as u64 {
            invalid_rollover = true;
            new_minutes = 0;
        }
        if self.rtc.hours < 24 && !invalid_rollover {
            new_days += new_hours / 24;
            new_hours %= 24;
        } else if new_hours > INVALID_MAX_HOURS as u64 {
            invalid_rollover = true;
            new_hours = 0;
        }
        if new_days >= 512 && !invalid_rollover {
            new_days %= 512;
            self.rtc.day_carry = true;
        }
        self.rtc.millis = new_millis as u16;
        self.rtc.seconds = new_seconds as u8;
        self.rtc.minutes = new_minutes as u8;
        self.rtc.hours = new_hours as u8;
        self.rtc.days = new_days as u16;
    }

    /// Brings the clock up to `now` when it runs; returns whether it changed.
    fn catch_up(&mut self, now: u64) -> (changed: bool)
        ensures
            *final(self) == (Mbc3 { rtc: old(self).caught_up(now), ..*old(self) }),
            changed == (old(self).caught_up(now) != old(self).rtc),
    {
        if !self.rtc.halted && now >= self.rtc.base_timestamp {
            let elapsed_ms = now - self.rtc.base_timestamp;
            if elapsed_ms > 0 && elapsed_ms <= u64::MAX - self.rtc.millis as u64 {
                let before = self.rtc;
                self.update_rtc_registers(elapsed_ms);
                return self.rtc != before;
            }
        }
        false
    }

    pub fn read_rom(&self, rom_data: &[u8], address: u16) -> (res: u8)
        ensures
            res == self.read_rom_spec(rom_data@, address),
    {
        let address = address as usize;
        if address <= 0x3FFF {
            let bank = if self.banking_mode == 0 { 0 } else { self.rom_bank as usize & 0x60 };
            proof {
                crate::bits::lemma_u8_and_widen(self.rom_bank, 0x60);
                crate::bits::lemma_u8_and_le(self.rom_bank, 0x60);
            }
            read_or_ff(rom_data, bank * 0x4000 + address)
        } else if address <= 0x7FFF {
            let max_banks = rom_data.len() / 0x4000;
            let divisor = if max_banks < 1 { 1 } else { max_banks };
            let bank = self.rom_bank as usize % divisor;
            proof {
                crate::bits::lemma_mod_le(self.rom_bank as usize, divisor);
            }
            read_or_ff(rom_data, bank * 0x4000 + (address - 0x4000))
        } else {
            0xFF
        }
    }

    /// Control writes at time `now` (ms since the epoch).
    pub fn write_rom_at(&mut self, address: u16, value: u8, now: u64)
        ensures
            *final(self) == old(self).write_rom_next(address, value, now),
    {
        assert((value & 0x0F) == value % 16 && (value & 0x7F) == value % 128) by (bit_vector);
        match address {
            0x0000..=0x1FFF => self.ram_rtc_enabled = (value & 0x0F) == 0x0A,
            0x2000..=0x3FFF => {
                self.rom_bank = if value == 0 { 1 } else { value & 0x7F };
            },
            0x4000..=0x5FFF => {
                if value <= 0x03 || (value >= 0x08 && value <= 0x0C) {
                    self.ram_rtc_selection = value;
                }
            },
            0x6000..=0x7FFF => {
                if self.rtc_enabled {
                    if self.rtc_latch == 0 && value == 1 {
                        if self.catch_up(now) {
                            self.rtc.base_timestamp = now;
                            self.rtc_save_pending = true;
                        }
                    }
                    self.rtc_latch = value;
                }
            },
            _ => {},
        }
    }

    /// Control writes; latching the clock reads the wall clock.
    pub fn write_rom(&mut self, address: u16, value: u8)
        ensures
            exists|now: u64| *final(self) == old(self).write_rom_next(address, value, now),
    {
        let now = if 0x6000 <= address && address <= 0x7FFF && self.rtc_enabled && self.rtc_latch == 0
            && value == 1 {
            system_time_to_u64_millis(system_time_now())
        } else {
            0
        };
        self.write_rom_at(address, value, now);
    }

    pub fn read_ram(&self, ram_data: &[u8], address: u16) -> (res: u8)
        requires
            0xA000 <= address,
        ensures
            res == self.read_ram_spec(ram_data@, address),
    {
        if self.ram_rtc_enabled {
            match self.ram_rtc_selection {
                0x00..=0x03 => {
                    let address = (address - 0xA000) as usize;
                    let bank = if self.banking_mode == 1 { self.ram_rtc_selection as usize } else { 0 };
                    read_or_ff(ram_data, 0x2000 * bank + address)
                },
                0x08 => self.rtc.seconds,
                0x09 => self.rtc.minutes,
                0x0A => self.rtc.hours,
                0x0B => {
                    let d = self.rtc.days;
                    assert(d & 0xFF == d % 256) by (bit_vector);
                    (self.rtc.days & 0xFF) as u8
                },
                0x0C => {
                    let d = self.rtc.days;
                    assert((d >> 8u16) & 0x01 == (d / 256) % 2) by (bit_vector);
                    let mut value = ((self.rtc.days >> 8) & 0x01) as u8;
                    assert(value <= 1);
                    if self.rtc.halted {
                        assert(value <= 1 ==> value | 0x40 == value + 0x40) by (bit_vector);
                        value |= 0x40;
                    }
                    if self.rtc.day_carry {
                        assert(value <= 0x41 && (value == 0 || value == 1 || value == 0x40 || value == 0x41)
                            ==> value | 0x80 == value + 0x80) by (bit_vector);
                        value |= 0x80;
                    }
                    value
                },
                _ => 0xFF,
            }
        } else {
            0xFF
        }
    }

    /// RAM and clock-register writes at time `now` (ms since the epoch).
    pub fn write_ram_at(&mut self, ram_data: &mut [u8], address: u16, value: u8, now: u64)
        requires
            0xA000 <= address,
        ensures
            (*final(self), final(ram_data)@) == old(self).write_ram_next(old(ram_data)@, address, value, now),
    {
        if self.ram_rtc_enabled {
            match self.ram_rtc_selection {
                0x00..=0x03 => {
                    let address = (address - 0xA000) as usize;
                    let bank = if self.banking_mode == 1 { self.ram_rtc_selection as usize } else { 0 };
                    write_if_inside(ram_data, 0x2000 * bank + address, value);
                },
                0x08 => self.rtc.seconds = value,
                0x09 => self.rtc.minutes = value,
                0x0A => self.rtc.hours = value,
                0x0B => {
                    let d = self.rtc.days;
                    assert((d & 0x100) | (value as u16) == (d / 256) % 2 * 256 + value) by (bit_vector);
                    self.rtc.days = (self.rtc.days & 0x100) | value as u16;
                },
                0x0C => {
                    let _ = self.catch_up(now);
                    self.rtc.base_timestamp = now;
                    self.rtc_save_pending = true;
                },
                _ => {},
            }
        }
    }

    /// RAM and clock-register writes; writing the control register reads the wall clock.
    pub fn write_ram(&mut self, ram_data: &mut [u8], address: u16, value: u8)
        requires
            0xA000 <= address,
        ensures
            exists|now: u64| (*final(self), final(ram_data)@) == old(self).write_ram_next(old(ram_data)@, address, value, now),
    {
        let now = if self.ram_rtc_enabled && self.ram_rtc_selection == 0x0C {
            system_time_to_u64_millis(system_time_now())
        } else {
            0
        };
        self.write_ram_at(ram_data, address, value, now);
    }
}

/// Within range, a minute of elapsed time moves the seconds-and-minutes clock forward by one
/// minute and keeps the seconds.
pub proof fn lemma_rtc_one_minute(rtc: Rtc)
    requires
        rtc.millis < 1000,
        rtc.seconds < 60,
        rtc.minutes < 59,
        rtc.hours < 24,
    ensures
        rtc_advanced(rtc, 60_000).seconds == rtc.seconds,
        rtc_advanced(rtc, 60_000).minutes == rtc.minutes + 1,
        rtc_advanced(rtc, 60_000).millis == rtc.millis,
        rtc_advanced(rtc, 60_000).hours == rtc.hours,
{
}

/// Time the clock registers stand for, in milliseconds.
pub open spec fn clock_millis(r: Rtc) -> int {
    r.days * 86_400_000 + r.hours * 3_600_000 + r.minutes * 60_000 + r.seconds * 1_000 + r.millis
}

/// With every register in range, advancing the clock by `elapsed` adds it to the time the
/// registers stand for, modulo the 512-day range of the day counter; the day-carry flag
/// is set when that range overflows, and the registers stay in range.
pub proof fn lemma_rtc_modular_time(r: Rtc, elapsed: u64)
    requires
        r.millis < 1000,
        r.seconds < 60,
        r.minutes < 60,
        r.hours < 24,
        r.days < 512,
    ensures
        ({
            let n = rtc_advanced(r, elapsed);
            &&& n.millis < 1000 && n.seconds < 60 && n.minutes < 60 && n.hours < 24 && n.days < 512
            &&& clock_millis(n) == (clock_millis(r) + elapsed) % (512 * 86_400_000int)
            &&& n.day_carry == (r.day_carry || clock_millis(r) + elapsed >= 512 * 86_400_000)
            &&& n.halted == r.halted && n.base_timestamp == r.base_timestamp
        }),
{
    let m0: int = r.millis + elapsed;
    vstd::arithmetic::div_mod::lemma_fundamental_div_mod(m0, 1000);
    let s0: int = r.seconds + m0 / 1000;
    vstd::arithmetic::div_mod::lemma_fundamental_div_mod(s0, 60);
    let mi0: int = r.minutes + s0 / 60;
    vstd::arithmetic::div_mod::lemma_fundamental_div_mod(mi0, 60);
    let h0: int = r.hours + mi0 / 60;
    vstd::arithmetic::div_mod::lemma_fundamental_div_mod(h0, 24);
    let d0: int = r.days + h0 / 24;
    vstd::arithmetic::div_mod::lemma_fundamental_div_mod(d0, 512);
    let rest: int = (h0 % 24) * 3_600_000 + (mi0 % 60) * 60_000 + (s0 % 60) * 1_000 + m0 % 1000;
    assert(0 <= rest < 86_400_000);
    let x: int = clock_millis(r) + elapsed;
    assert(x == d0 * 86_400_000 + rest);
    let b: int = (d0 % 512) * 86_400_000 + rest;
    let q: int = d0 / 512;
    let rm: int = d0 % 512;
    assert(x == 44_236_800_000int * q + b) by (nonlinear_arith)
        requires
            d0 == 512 * q + rm,
            x == d0 * 86_400_000 + rest,
            b == rm * 86_400_000 + rest,
    ;
    assert(0 <= b < 512 * 86_400_000);
    vstd::arithmetic::div_mod::lemma_mod_multiples_vanish(d0 / 512, b, 512 * 86_400_000int);
    vstd::arithmetic::div_mod::lemma_small_mod(b as nat, (512 * 86_400_000) as nat);
    let n = rtc_advanced(r, elapsed);
    assert(clock_millis(n) == b);
}

/// Bank switching on an MBC3: writing a bank number `v` (below the number of 16 KiB banks
/// of a ROM of two banks or more, at most 128) to 0x2000-0x3FFF maps ROM bank `v` at 0x4000-0x7FFF (bank 1
/// for 0).
pub proof fn lemma_mbc3_selects_bank(m: Mbc3, rom: Seq<u8>, v: u8, now: u64, off: int)
    requires
        rom.len() % 0x4000 == 0,
        rom.len() >= 0x8000,
        v < rom.len() / 0x4000,
        v < 128,
        0 <= off < 0x4000,
    ensures
        m.write_rom_next(0x2000, v, now).read_rom_spec(rom, (0x4000 + off) as u16)
            == rom[(if v == 0 { 1 } else { v as int }) * 0x4000 + off],
{
    let n = rom.len() / 0x4000;
    let b: int = if v == 0 { 1 } else { v as int };
    assert(m.write_rom_next(0x2000, v, now).rom_bank == b);
    vstd::arithmetic::div_mod::lemma_small_mod(b as nat, n);
    vstd::arithmetic::div_mod::lemma_fundamental_div_mod(rom.len() as int, 0x4000);
}

} // verus!
