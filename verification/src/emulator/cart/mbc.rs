use vstd::prelude::*;
use crate::emulator::cart::mbc::mbc0::{byte_or_ff, Mbc0};
use crate::emulator::cart::mbc::mbc1::Mbc1;
use crate::emulator::cart::mbc::mbc2::Mbc2;
use crate::emulator::cart::mbc::mbc3::Mbc3;
use crate::emulator::cart::mbc::mbc5::Mbc5;

pub mod mbc0;
pub mod mbc1;
pub mod mbc2;
pub mod mbc3;
pub mod mbc5;
pub mod mbc7;

verus! {

/// Cartridge type codes (header byte 0x147) that have a memory bank controller here.
pub open spec fn is_supported_cart_type(code: u8) -> bool {
    ||| code == 0x00
    ||| 0x01 <= code <= 0x03
    ||| code == 0x05 || code == 0x06
    ||| 0x0F <= code <= 0x13
    ||| 0x19 <= code <= 0x1E
}

/// Cartridge types with battery-backed memory.
pub open spec fn cart_type_has_battery(code: u8) -> bool {
    code == 0x03 || code == 0x06 || code == 0x09 || code == 0x0D || code == 0x0F || code == 0x10
        || code == 0x13 || code == 0x1B || code == 0x1E || code == 0x22
}

/// Cartridge types with a real-time clock.
pub open spec fn cart_type_has_timer(code: u8) -> bool {
    code == 0x0F || code == 0x10
}

/// Display name of a cartridge type code.
pub open spec fn cart_type_name(code: u8) -> &'static str {
    match code {
        0x00 => "ROM ONLY",
        0x01 => "MBC1",
        0x02 => "MBC1+RAM",
        0x03 => "MBC1+RAM+BATTERY",
        0x04 => "0x04 ???",
        0x05 => "MBC2",
        0x06 => "MBC2+BATTERY",
        0x07 => "0x07 ???",
        0x08 => "ROM+RAM 1",
        0x09 => "ROM+RAM+BATTERY 1",
        0x0A => "0x0A ???",
        0x0B => "MMM01",
        0x0C => "MMM01+RAM",
        0x0D => "MMM01+RAM+BATTERY",
        0x0E => "0x0E ???",
        0x0F => "MBC3+TIMER+BATTERY",
        0x10 => "MBC3+TIMER+RAM+BATTERY 2",
        0x11 => "MBC3",
        0x12 => "MBC3+RAM 2",
        0x13 => "MBC3+RAM+BATTERY 2",
        0x14 => "0x14 ???",
        0x15 => "0x15 ???",
        0x16 => "0x16 ???",
        0x17 => "0x17 ???",
        0x18 => "0x18 ???",
        0x19 => "MBC5",
        0x1A => "MBC5+RAM",
        0x1B => "MBC5+RAM+BATTERY",
        0x1C => "MBC5+RUMBLE",
        0x1D => "MBC5+RUMBLE+RAM",
        0x1E => "MBC5+RUMBLE+RAM+BATTERY",
        0x1F => "0x1F ???",
        0x20 => "MBC6",
        0x21 => "0x21 ???",
        0x22 => "MBC7+SENSOR+RUMBLE+RAM+BATTERY",
        _ => "UNKNOWN",

    }
}

/// The memory bank controller of a cartridge.
#[derive(Clone, Copy, PartialEq, Eq, Structural)]
pub enum MbcType {
    Mbc0(Mbc0),
    Mbc1(Mbc1),
    Mbc2(Mbc2),
    Mbc3(Mbc3),
    Mbc5(Mbc5),
}

impl MbcType {
    /// Controller chosen for a supported cartridge type, in its power-on state.
    pub open spec fn from_byte_spec(byte: u8, rom_banks: usize, ram_banks: usize) -> MbcType {
        if byte == 0x00 {
            MbcType::Mbc0(Mbc0 {})
        } else if byte <= 0x03 {
            MbcType::Mbc1(Mbc1 { rom_bank: 1, ram_bank: 0, ram_enabled: false, banking_mode: 0, rom_banks_number: rom_banks })
        } else if byte <= 0x06 {
            MbcType::Mbc2(Mbc2 { rom_bank_select: 1, rom_bank_count: rom_banks, ram_enable: false })
        } else if byte <= 0x13 {
            MbcType::Mbc3(Mbc3 {
                rom_bank: 1,
                ram_rtc_selection: 0,
                ram_rtc_enabled: false,
                banking_mode: 0,
                rom_banks_number: rom_banks,
                ram_banks_number: ram_banks,
                rtc_enabled: cart_type_has_timer(byte),
                rtc: crate::emulator::cart::mbc::mbc3::Rtc {
                    millis: 0,
                    seconds: 0,
                    minutes: 0,
                    hours: 0,
                    days: 0,
                    halted: false,
                    base_timestamp: 0,
                    day_carry: false,
                },
                rtc_latch: 0xFF,
                rtc_save_pending: false,
            })
        } else {
            MbcType::Mbc5(Mbc5 { rom_bank: 1, ram_bank: 0, ram_enabled: false, rom_banks, ram_banks })
        }
    }

    /// What the controller's own registers must satisfy.
    pub open spec fn regs_ok(self) -> bool {
        match self {
            MbcType::Mbc5(m) => m.rom_bank <= 0x1FF,
            _ => true,
        }
    }

    /// Whether a write to the ROM-bank register (0x2000-0x3FFF) can be served: MBC1 knows
    /// the bank-number mask only for 2 to 128 banks.
    pub open spec fn bank_switch_ok(self) -> bool {
        match self {
            MbcType::Mbc1(m) => m.wf(),
            _ => true,
        }
    }

    /// What the controller needs of the ROM it maps.
    pub open spec fn rom_ok(self, rom: Seq<u8>) -> bool {
        match self {
            MbcType::Mbc2(m) => m.rom_bank_count > 0 && rom.len() >= m.rom_bank_count * 0x4000,
            MbcType::Mbc5(m) => m.wf_with(rom),
            _ => true,
        }
    }

    /// What the controller needs of the RAM it maps.
    pub open spec fn ram_ok(self, ram: Seq<u8>) -> bool {
        match self {
            MbcType::Mbc2(_) => ram.len() >= 0x200,
            _ => true,
        }
    }

    pub open spec fn wf_with(self, rom: Seq<u8>, ram: Seq<u8>) -> bool {
        self.regs_ok() && self.rom_ok(rom) && self.ram_ok(ram)
    }

    pub open spec fn read_rom_spec(self, rom: Seq<u8>, address: u16) -> u8 {
        match self {
            MbcType::Mbc0(_) => byte_or_ff(rom, address as int),
            MbcType::Mbc1(m) => m.read_rom_spec(rom, address),
            MbcType::Mbc2(m) => m.read_rom_spec(rom, address),
            MbcType::Mbc3(m) => m.read_rom_spec(rom, address),
            MbcType::Mbc5(m) => m.read_rom_spec(rom, address),
        }
    }

    /// Controller after a write to 0x0000-0x7FFF, the wall clock reading `now`.
    pub open spec fn write_rom_next(self, address: u16, value: u8, now: u64) -> MbcType {
        match self {
            MbcType::Mbc0(m) => MbcType::Mbc0(m),
            MbcType::Mbc1(m) => MbcType::Mbc1(m.write_rom_next(address, value)),
            MbcType::Mbc2(m) => MbcType::Mbc2(m.write_rom_next(address, value)),
            MbcType::Mbc3(m) => MbcType::Mbc3(m.write_rom_next(address, value, now)),
            MbcType::Mbc5(m) => MbcType::Mbc5(m.write_rom_next(address, value)),
        }
    }

    pub open spec fn read_ram_spec(self, ram: Seq<u8>, address: u16) -> u8 {
        match self {
            MbcType::Mbc0(_) => 0xFF,
            MbcType::Mbc1(m) => m.read_ram_spec(ram, address),
            MbcType::Mbc2(m) => m.read_ram_spec(ram, address),
            MbcType::Mbc3(m) => m.read_ram_spec(ram, address),
            MbcType::Mbc5(m) => m.read_ram_spec(ram, address),
        }
    }

    /// Controller and RAM after a write to 0xA000-0xBFFF, the wall clock reading `now`.
    pub open spec fn write_ram_next(self, ram: Seq<u8>, address: u16, value: u8, now: u64) -> (MbcType, Seq<u8>) {
        match self {
            MbcType::Mbc0(m) => (MbcType::Mbc0(m), ram),
            MbcType::Mbc1(m) => (MbcType::Mbc1(m), m.write_ram_spec(ram, address, value)),
            MbcType::Mbc2(m) => (MbcType::Mbc2(m), m.write_ram_spec(ram, address, value)),
            MbcType::Mbc3(m) => {
                let (m2, r2) = m.write_ram_next(ram, address, value, now);
                (MbcType::Mbc3(m2), r2)
            },
            MbcType::Mbc5(m) => (MbcType::Mbc5(m), m.write_ram_spec(ram, address, value)),
        }
    }

    pub fn from_byte(byte: u8, rom_banks: usize, ram_banks: usize) -> (res: Self)
        requires
            is_supported_cart_type(byte),
        ensures
            res == MbcType::from_byte_spec(byte, rom_banks, ram_banks),
    {
        match byte {
            0x00 => MbcType::Mbc0(Mbc0 {}),
            0x01 | 0x02 | 0x03 => MbcType::Mbc1(Mbc1::new(rom_banks)),
            0x05 | 0x06 => MbcType::Mbc2(Mbc2::new(rom_banks)),
            0x0F | 0x10 | 0x11 | 0x12 | 0x13 => {
                MbcType::Mbc3(Mbc3::new(rom_banks, ram_banks, Self::has_timer(byte), None))
            },
            _ => MbcType::Mbc5(Mbc5::new(rom_banks, ram_banks)),
        }
    }

    pub fn read_rom(&self, rom_data: &[u8], address: u16) -> (res: u8)
        requires
            self.rom_ok(rom_data@),
        ensures
            res == self.read_rom_spec(rom_data@, address),
    {
        match self {
            MbcType::Mbc0(mbc) => mbc.read_rom(rom_data, address),
            MbcType::Mbc1(mbc) => mbc.read_rom(rom_data, address),
            MbcType::Mbc2(mbc) => mbc.read_rom(rom_data, address),
            MbcType::Mbc3(mbc) => mbc.read_rom(rom_data, address),
            MbcType::Mbc5(mbc) => mbc.read_rom(rom_data, address),
        }
    }

    pub fn write_rom(&mut self, address: u16, value: u8)
        requires
            old(self).regs_ok(),
            0x2000 <= address <= 0x3FFF ==> old(self).bank_switch_ok(),
        ensures
            exists|now: u64| *final(self) == old(self).write_rom_next(address, value, now),
            final(self).regs_ok(),
            final(self).bank_switch_ok() == old(self).bank_switch_ok(),
            forall|rom: Seq<u8>| old(self).rom_ok(rom) ==> #[trigger] final(self).rom_ok(rom),
            forall|ram: Seq<u8>| old(self).ram_ok(ram) ==> #[trigger] final(self).ram_ok(ram),
    {
        let ghost before = *self;
        match self {
            MbcType::Mbc0(mbc) => mbc.write_rom(address, value),
            MbcType::Mbc1(mbc) => mbc.write_rom(address, value),
            MbcType::Mbc2(mbc) => mbc.write_rom(address, value),
            MbcType::Mbc3(mbc) => mbc.write_rom(address, value),
            MbcType::Mbc5(mbc) => mbc.write_rom(address, value),
        }
        proof {
            let w: u64 = match (before, *self) {
                (MbcType::Mbc3(m0), MbcType::Mbc3(m1)) => choose|now: u64| m1 == m0.write_rom_next(address, value, now),
                _ => 0,
            };
            assert(*self == before.write_rom_next(address, value, w));
        }
    }

    pub fn read_ram(&self, ram_data: &[u8], address: u16) -> (res: u8)
        requires
            0xA000 <= address,
            self.ram_ok(ram_data@),
        ensures
            res == self.read_ram_spec(ram_data@, address),
    {
        match self {
            MbcType::Mbc0(mbc) => mbc.read_ram(ram_data, address),
            MbcType::Mbc1(mbc) => mbc.read_ram(ram_data, address),
            MbcType::Mbc2(mbc) => mbc.read_ram(ram_data, address),
            MbcType::Mbc3(mbc) => mbc.read_ram(ram_data, address),
            MbcType::Mbc5(mbc) => mbc.read_ram(ram_data, address),
        }
    }

    pub fn write_ram(&mut self, ram_data: &mut [u8], address: u16, value: u8)
        requires
            0xA000 <= address,
            old(self).ram_ok(old(ram_data)@),
        ensures
            exists|now: u64|
                (*final(self), final(ram_data)@) == old(self).write_ram_next(old(ram_data)@, address, value, now),
            final(ram_data)@.len() == old(ram_data)@.len(),
            old(self).regs_ok() ==> final(self).regs_ok(),
            forall|rom: Seq<u8>| old(self).rom_ok(rom) ==> #[trigger] final(self).rom_ok(rom),
            forall|ram: Seq<u8>| old(self).ram_ok(ram) ==> #[trigger] final(self).ram_ok(ram),
    {
        let ghost before = *self;
        let ghost ram_before = ram_data@;
        match self {
            MbcType::Mbc0(mbc) => mbc.write_ram(ram_data, address, value),
            MbcType::Mbc1(mbc) => mbc.write_ram(ram_data, address, value),
            MbcType::Mbc2(mbc) => mbc.write_ram(ram_data, address, value),
            MbcType::Mbc3(mbc) => mbc.write_ram(ram_data, address, value),
            MbcType::Mbc5(mbc) => mbc.write_ram(ram_data, address, value),
        }
        proof {
            let w: u64 = match (before, *self) {
                (MbcType::Mbc3(m0), MbcType::Mbc3(m1)) => choose|now: u64|
                    (m1, ram_data@) == m0.write_ram_next(ram_before, address, value, now),
                _ => 0,
            };
            assert((*self, ram_data@) == before.write_ram_next(ram_before, address, value, w));
        }
    }

    pub fn is_supported(code: u8) -> (res: bool)
        ensures
            res == is_supported_cart_type(code),
    {
        matches!(code, 0x00 | 0x01 | 0x02 | 0x03 | 0x05 | 0x06 | 0x0F | 0x10 | 0x11 | 0x12 | 0x13 | 0x19 | 0x1A
            | 0x1B | 0x1C | 0x1D | 0x1E)
    }

    /// Whether writes to the ROM-bank register can be served (see `bank_switch_ok`).
    pub fn supports_bank_switching(&self) -> (res: bool)
        ensures
            res == self.bank_switch_ok(),
    {
        match self {
            MbcType::Mbc1(m) => matches!(m.rom_banks_number, 2 | 4 | 8 | 16 | 32 | 64 | 128),
            _ => true,
        }
    }

    /// Whether the controller can map this ROM and RAM.
    pub fn fits(&self, rom: &[u8], ram: &[u8]) -> (res: bool)
        ensures
            res == self.wf_with(rom@, ram@),
    {
        let rom_len = rom.len();
        match self {
            MbcType::Mbc0(_) => true,
            MbcType::Mbc1(_) => true,
            MbcType::Mbc2(m) => {
                let c = m.rom_bank_count;
                assert(c <= rom_len / 0x4000 <==> c * 0x4000 <= rom_len) by (nonlinear_arith);
                c > 0 && c <= rom_len / 0x4000 && ram.len() >= 0x200
            },
            MbcType::Mbc3(_) => true,
            MbcType::Mbc5(m) => {
                let c = m.rom_banks;
                assert(c <= rom_len / 0x4000 <==> c * 0x4000 <= rom_len) by (nonlinear_arith);
                c > 0 && c <= rom_len / 0x4000 && m.rom_bank <= 0x1FF
            },
        }
    }

    pub fn name(code: u8) -> (res: &'static str)
        ensures
            res == cart_type_name(code),
    {
        match code {
            0x00 => "ROM ONLY",
            0x01 => "MBC1",
            0x02 => "MBC1+RAM",
            0x03 => "MBC1+RAM+BATTERY",
            0x04 => "0x04 ???",
            0x05 => "MBC2",
            0x06 => "MBC2+BATTERY",
            0x07 => "0x07 ???",
            0x08 => "ROM+RAM 1",
            0x09 => "ROM+RAM+BATTERY 1",
            0x0A => "0x0A ???",
            0x0B => "MMM01",
            0x0C => "MMM01+RAM",
            0x0D => "MMM01+RAM+BATTERY",
            0x0E => "0x0E ???",
            0x0F => "MBC3+TIMER+BATTERY",
            0x10 => "MBC3+TIMER+RAM+BATTERY 2",
            0x11 => "MBC3",
            0x12 => "MBC3+RAM 2",
            0x13 => "MBC3+RAM+BATTERY 2",
            0x14 => "0x14 ???",
            0x15 => "0x15 ???",
            0x16 => "0x16 ???",
            0x17 => "0x17 ???",
            0x18 => "0x18 ???",
            0x19 => "MBC5",
            0x1A => "MBC5+RAM",
            0x1B => "MBC5+RAM+BATTERY",
            0x1C => "MBC5+RUMBLE",
            0x1D => "MBC5+RUMBLE+RAM",
            0x1E => "MBC5+RUMBLE+RAM+BATTERY",
            0x1F => "0x1F ???",
            0x20 => "MBC6",
            0x21 => "0x21 ???",
            0x22 => "MBC7+SENSOR+RUMBLE+RAM+BATTERY",
            _ => "UNKNOWN",

        }
    }

    pub fn has_battery(code: u8) -> (res: bool)
        ensures
            res == cart_type_has_battery(code),
    {
        matches!(code, 0x03 | 0x06 | 0x09 | 0x0D | 0x0F | 0x10 | 0x13 | 0x1B | 0x1E | 0x22)
    }

    pub fn has_timer(code: u8) -> (res: bool)
        ensures
            res == cart_type_has_timer(code),
    {
        matches!(code, 0x0F | 0x10)
    }
}

/// The cartridge-type byte picks the controller: 0x00 ROM only, 0x01-0x03 MBC1, 0x05-0x06
/// MBC2, 0x0F-0x13 MBC3 (with its clock exactly for 0x0F and 0x10), 0x19-0x1E MBC5.
pub proof fn lemma_controller_of_type(byte: u8, rom_banks: usize, ram_banks: usize)
    requires
        is_supported_cart_type(byte),
    ensures
        (MbcType::from_byte_spec(byte, rom_banks, ram_banks) is Mbc0) <==> byte == 0x00,
        (MbcType::from_byte_spec(byte, rom_banks, ram_banks) is Mbc1) <==> 0x01 <= byte <= 0x03,
        (MbcType::from_byte_spec(byte, rom_banks, ram_banks) is Mbc2) <==> 0x05 <= byte <= 0x06,
        (MbcType::from_byte_spec(byte, rom_banks, ram_banks) is Mbc3) <==> 0x0F <= byte <= 0x13,
        (MbcType::from_byte_spec(byte, rom_banks, ram_banks) is Mbc5) <==> 0x19 <= byte <= 0x1E,
        MbcType::from_byte_spec(byte, rom_banks, ram_banks) matches MbcType::Mbc3(m)
            ==> (m.rtc_enabled <==> (byte == 0x0F || byte == 0x10)),
{
}

} // verus!
