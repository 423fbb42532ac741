use vstd::prelude::*;
use crate::emulator::cart::mbc::mbc0::{read_or_ff, write_if_inside};

verus! {

/// MBC1: 5+2 bit ROM bank register, RAM banking and a banking-mode switch.
#[derive(Clone, Copy, PartialEq, Eq, Structural)]
pub struct Mbc1 {
    pub rom_bank: u8,
    pub ram_bank: u8,
    pub ram_enabled: bool,
    pub banking_mode: u8,
    pub rom_banks_number: usize,
}

/// ROM bank counts whose bank-number mask is known.
pub open spec fn supported_rom_banks(n: usize) -> bool {
    n == 2 || n == 4 || n == 8 || n == 16 || n == 32 || n == 64 || n == 128
}

/// Mask applied to the low bank bits for a ROM with `n` banks.
pub open spec fn bank_mask(n: usize) -> u8 {
    if n >= 32 { 0x1F } else if n == 16 { 0x0F } else if n == 8 { 0x07 } else if n == 4 { 0x03 } else { 0x01 }
}

/// Offset in ROM of `address` (0x0000-0x7FFF) for the given bank registers.
pub open spec fn rom_offset(rom_bank: u8, banking_mode: u8, rom_len: nat, address: u16) -> int {
    if address <= 0x3FFF {
        let bank = if banking_mode == 0 { 0 } else { (rom_bank & 0x60) as int };
        bank * 0x4000 + address
    } else {
        let max_banks = rom_len / 0x4000;
        let bank = (rom_bank as int) % (if max_banks < 1 { 1 } else { max_banks as int });
        bank * 0x4000 + (address - 0x4000)
    }
}

/// Offset in RAM of `address` (0xA000-0xBFFF): bank selection applies in RAM banking mode.
pub open spec fn ram_offset(ram_bank: u8, banking_mode: u8, address: u16) -> int {
    let bank = if banking_mode == 1 { ram_bank as int } else { 0 };
    0x2000 * bank + (address - 0xA000)
}

impl Mbc1 {
    pub open spec fn wf(self) -> bool {
        supported_rom_banks(self.rom_banks_number)
    }

    pub open spec fn read_rom_spec(self, rom: Seq<u8>, address: u16) -> u8 {
        if address <= 0x7FFF {
            crate::emulator::cart::mbc::mbc0::byte_or_ff(rom, rom_offset(self.rom_bank, self.banking_mode, rom.len(), address))
        } else {
            0xFF
        }
    }

    pub open spec fn write_rom_next(self, address: u16, value: u8) -> Mbc1 {
        if address <= 0x1FFF {
            Mbc1 { ram_enabled: (value & 0x0F) == 0x0A, ..self }
        } else if address <= 0x3FFF {
            let v = value & 0x1F;
            Mbc1 {
                rom_bank: (self.rom_bank & 0x60) | (if v == 0 { 1u8 } else { v & bank_mask(self.rom_banks_number) }),
                ..self
            }
        } else if address <= 0x5FFF {
            let v = value & 0x03;
            if self.banking_mode == 0 {
                Mbc1 { rom_bank: (self.rom_bank & 0x1F) | (v << 5u8), ..self }
            } else {
                Mbc1 { ram_bank: v, ..self }
            }
        } else if address <= 0x7FFF {
            let mode = value & 0x01;
            Mbc1 { banking_mode: mode, ram_bank: if mode == 0 { 0 } else { self.ram_bank }, ..self }
        } else {
            self
        }
    }

    pub open spec fn ram_accessible(self, ram: Seq<u8>) -> bool {
        self.ram_enabled && ram.len() > 0
    }

    pub open spec fn read_ram_spec(self, ram: Seq<u8>, address: u16) -> u8 {
        if !self.ram_accessible(ram) {
            0xFF
        } else {
            crate::emulator::cart::mbc::mbc0::byte_or_ff(ram, ram_offset(self.ram_bank, self.banking_mode, address))
        }
    }

    pub open spec fn write_ram_spec(self, ram: Seq<u8>, address: u16, value: u8) -> Seq<u8> {
        let off = ram_offset(self.ram_bank, self.banking_mode, address);
        if self.ram_accessible(ram) && 0 <= off < ram.len() {
            ram.update(off, value)
        } else {
            ram
        }
    }

    pub fn new(rom_banks_number: usize) -> (res: Self)
        ensures
            res == (Mbc1 { rom_bank: 1, ram_bank: 0, ram_enabled: false, banking_mode: 0, rom_banks_number }),
    {
        Mbc1 { rom_bank: 1, ram_bank: 0, ram_enabled: false, banking_mode: 0, rom_banks_number }
    }

    pub fn read_rom(&self, rom_data: &[u8], address: u16) -> (res: u8)
        ensures
            res == self.read_rom_spec(rom_data@, address),
    {
        let address = address as usize;
        if address <= 0x3FFF {
            let bank = if self.banking_mode == 0 { 0 } else { self.rom_bank as usize & 0x60 };
            proof {
                crate::bits::lemma_u8_and_widen(self.rom_bank, 0x60);
                crate::bits::lemma_u8_and_le(self.rom_bank, 0x60);
            }
            read_or_ff(rom_data, bank * 0x4000 + address)
        } else if address <= 0x7FFF {
            let len = rom_data.len();
            let max_banks = len / 0x4000;
            let divisor = if max_banks < 1 { 1 } else { max_banks };
            let bank = self.rom_bank as usize % divisor;
            proof {
                crate::bits::lemma_mod_le(self.rom_bank as usize, divisor);
            }
            read_or_ff(rom_data, bank * 0x4000 + (address - 0x4000))
        } else {
            0xFF
        }
    }

    /// Writes a banking register; the ROM-bank register (0x2000-0x3FFF) needs a supported
    /// bank count.
    pub fn write_rom(&mut self, address: u16, value: u8)
        requires
            0x2000 <= address <= 0x3FFF ==> old(self).wf(),
        ensures
            *final(self) == old(self).write_rom_next(address, value),
    {
        match address {
            0x0000..=0x1FFF => self.ram_enabled = (value & 0x0F) == 0x0A,
            0x2000..=0x3FFF => {
                let bitmask: u8 = match self.rom_banks_number {
                    128 => 0b00011111,
                    64 => 0b00011111,
                    32 => 0b00011111,
                    16 => 0b00001111,
                    8 => 0b00000111,
                    4 => 0b00000011,
                    _ => 0b00000001,
                };
                let value = value & 0x1F;
                self.rom_bank = (self.rom_bank & 0x60) | if value == 0 { 1 } else { value & bitmask };
            },
            0x4000..=0x5FFF => {
                let value = value & 0x03;
                if self.banking_mode == 0 {
                    self.rom_bank = (self.rom_bank & 0x1F) | (value << 5);
                } else {
                    self.ram_bank = value;
                }
            },
            0x6000..=0x7FFF => {
                self.banking_mode = value & 0x01;
                if self.banking_mode == 0 {
                    self.ram_bank = 0;
                }
            },
            _ => {},
        }
    }

    pub fn read_ram(&self, ram_data: &[u8], address: u16) -> (res: u8)
        requires
            0xA000 <= address,
        ensures
            res == self.read_ram_spec(ram_data@, address),
    {
        if !self.ram_enabled || ram_data.len() == 0 {
            return 0xFF;
        }
        let address = (address - 0xA000) as usize;
        let bank = if self.banking_mode == 1 { self.ram_bank as usize } else { 0 };
        read_or_ff(ram_data, 0x2000 * bank + address)
    }

    pub fn write_ram(&mut self, ram_data: &mut [u8], address: u16, value: u8)
        requires
            0xA000 <= address,
        ensures
            *final(self) == *old(self),
            final(ram_data)@ == old(self).write_ram_spec(old(ram_data)@, address, value),
    {
        if !self.ram_enabled || ram_data.len() == 0 {
            return;
        }
        let address = (address - 0xA000) as usize;
        let bank = if self.banking_mode == 1 { self.ram_bank as usize } else { 0 };
        write_if_inside(ram_data, 0x2000 * bank + address, value);
    }
}

proof fn lemma_bank_register_bits(rb: u8, v: u8)
    by (bit_vector)
    requires
        v < 32,
    ensures
        ((rb & 0x60) | v) % 32 == v,
{
}

/// Bank switching on an MBC1 with `n` ROM banks (2 to 32): writing a bank number `v`
/// (v < n) to 0x2000-0x3FFF maps ROM bank `v` at 0x4000-0x7FFF (bank 1 for 0), whatever
/// the upper bank bits and the banking mode hold.
pub proof fn lemma_mbc1_selects_bank(m: Mbc1, rom: Seq<u8>, v: u8, off: int)
    requires
        supported_rom_banks(m.rom_banks_number),
        m.rom_banks_number <= 32,
        rom.len() == m.rom_banks_number * 0x4000,
        v < m.rom_banks_number,
        0 <= off < 0x4000,
    ensures
        m.write_rom_next(0x2000, v).read_rom_spec(rom, (0x4000 + off) as u16)
            == rom[(if v == 0 { 1 } else { v as int }) * 0x4000 + off],
{
    let n = m.rom_banks_number as int;
    crate::bits::lemma_u8_facts(v);
    let m2 = m.write_rom_next(0x2000, v);
    let b: u8 = if v == 0 { 1 } else { v };
    assert(v & 0x1F == v);
    if v != 0 {
        assert(v & bank_mask(m.rom_banks_number) == v);
    }
    assert(m2.rom_bank == (m.rom_bank & 0x60) | b);
    lemma_bank_register_bits(m.rom_bank, b);
    let x = m2.rom_bank as int;
    if n == 2 {
        vstd::arithmetic::div_mod::lemma_mod_mod(x, 2, 16);
    } else if n == 4 {
        vstd::arithmetic::div_mod::lemma_mod_mod(x, 4, 8);
    } else if n == 8 {
        vstd::arithmetic::div_mod::lemma_mod_mod(x, 8, 4);
    } else if n == 16 {
        vstd::arithmetic::div_mod::lemma_mod_mod(x, 16, 2);
    }
    assert(rom.len() / 0x4000 == n);
    assert((m2.rom_bank as int) % n == b);
}

} // verus!
