use vstd::prelude::*;
use crate::emulator::cart::mbc::mbc0::{byte_or_ff, read_or_ff, write_if_inside};

verus! {

/// MBC5: 9-bit ROM bank register and up to 16 RAM banks.
#[derive(Clone, Copy, PartialEq, Eq, Structural)]
pub struct Mbc5 {
    pub rom_bank: u16,
    pub ram_bank: u8,
    pub ram_enabled: bool,
    pub rom_banks: usize,
    pub ram_banks: usize,
}

impl Mbc5 {
    pub open spec fn wf_with(self, rom: Seq<u8>) -> bool {
        &&& self.rom_banks > 0
        &&& rom.len() >= self.rom_banks * 0x4000
        &&& self.rom_bank <= 0x1FF
    }

    pub open spec fn read_rom_spec(self, rom: Seq<u8>, address: u16) -> u8 {
        if address <= 0x3FFF {
            rom[address as int]
        } else if address <= 0x7FFF {
            rom[((self.rom_bank as int) % (self.rom_banks as int)) * 0x4000 + (address - 0x4000)]
        } else {
            0xFF
        }
    }

    pub open spec fn write_rom_next(self, address: u16, value: u8) -> Mbc5 {
        if address <= 0x1FFF {
            Mbc5 { ram_enabled: value % 16 == 0x0A, ..self }
        } else if address <= 0x2FFF {
            Mbc5 { rom_bank: ((self.rom_bank / 256) * 256 + value) as u16, ..self }
        } else if address <= 0x3FFF {
            Mbc5 { rom_bank: ((value % 2) * 256 + self.rom_bank % 256) as u16, ..self }
        } else if address <= 0x5FFF {
            Mbc5 { ram_bank: value % 16, ..self }
        } else {
            self
        }
    }

    pub open spec fn ram_offset(self, address: u16) -> int {
        let banks = if self.ram_banks < 1 { 1 } else { self.ram_banks as int };
        ((self.ram_bank as int) % banks) * 0x2000 + (address - 0xA000)
    }

    pub open spec fn read_ram_spec(self, ram: Seq<u8>, address: u16) -> u8 {
        if !self.ram_enabled || ram.len() == 0 {
            0xFF
        } else {
            byte_or_ff(ram, self.ram_offset(address))
        }
    }

    pub open spec fn write_ram_spec(self, ram: Seq<u8>, address: u16, value: u8) -> Seq<u8> {
        let off = self.ram_offset(address);
        if self.ram_enabled && ram.len() > 0 && off < ram.len() {
            ram.update(off, value)
        } else {
            ram
        }
    }

    pub fn new(rom_banks: usize, ram_banks: usize) -> (res: Self)
        ensures
            res == (Mbc5 { rom_bank: 1, ram_bank: 0, ram_enabled: false, rom_banks, ram_banks }),
    {
        Self { rom_bank: 1, ram_bank: 0, ram_enabled: false, rom_banks, ram_banks }
    }

    pub fn read_rom(&self, rom_data: &[u8], address: u16) -> (res: u8)
        requires
            self.wf_with(rom_data@),
        ensures
            res == self.read_rom_spec(rom_data@, address),
    {
        match address {
            0x0000..=0x3FFF => rom_data[address as usize],
            0x4000..=0x7FFF => {
                let bank = self.rom_bank as usize % self.rom_banks;
                proof {
                    crate::bits::lemma_mod_le(self.rom_bank as usize, self.rom_banks);
                    assert(bank * 0x4000 + 0x3FFF < self.rom_banks * 0x4000) by (nonlinear_arith)
                        requires
                            bank < self.rom_banks,
                    ;
                }
                let offset = (bank * 0x4000) + (address as usize - 0x4000);
                rom_data[offset]
            },
            _ => 0xFF,
        }
    }

    pub fn write_rom(&mut self, address: u16, value: u8)
        requires
            old(self).rom_bank <= 0x1FF,
        ensures
            *final(self) == old(self).write_rom_next(address, value),
            final(self).rom_bank <= 0x1FF,
    {
        let b = self.rom_bank;
        assert((value & 0x0F) == value % 16 && (b & 0x0100) | (value as u16) == (b / 256) * 256 + value
            && (b & 0x00FF) | (((value & 0x01) as u16) << 8u16) == (value % 2) * 256 + b % 256) by (bit_vector)
            requires
                b <= 0x1FF,
        ;
        match address {
            0x0000..=0x1FFF => {
                self.ram_enabled = (value & 0x0F) == 0x0A;
            },
            0x2000..=0x2FFF => {
                self.rom_bank = (self.rom_bank & 0x0100) | (value as u16);
            },
            0x3000..=0x3FFF => {
                self.rom_bank = (self.rom_bank & 0x00FF) | (((value & 0x01) as u16) << 8);
            },
            0x4000..=0x5FFF => {
                self.ram_bank = value & 0x0F;
            },
            _ => {},
        }
    }

    pub fn read_ram(&self, ram_data: &[u8], address: u16) -> (res: u8)
        requires
            0xA000 <= address,
        ensures
            res == self.read_ram_spec(ram_data@, address),
    {
        if !self.ram_enabled || ram_data.len() == 0 {
            return 0xFF;
        }
        let banks = if self.ram_banks < 1 { 1 } else { self.ram_banks };
        let bank = self.ram_bank as usize % banks;
        proof {
            crate::bits::lemma_mod_le(self.ram_bank as usize, banks);
        }
        read_or_ff(ram_data, (bank * 0x2000) + (address as usize - 0xA000))
    }

    pub fn write_ram(&mut self, ram_data: &mut [u8], address: u16, value: u8)
        requires
            0xA000 <= address,
        ensures
            *final(self) == *old(self),
            final(ram_data)@ == old(self).write_ram_spec(old(ram_data)@, address, value),
    {
        if !self.ram_enabled || ram_data.len() == 0 {
            return;
        }
        let banks = if self.ram_banks < 1 { 1 } else { self.ram_banks };
        let bank = self.ram_bank as usize % banks;
        proof {
            crate::bits::lemma_mod_le(self.ram_bank as usize, banks);
        }
        write_if_inside(ram_data, (bank * 0x2000) + (address as usize - 0xA000), value);
    }
}

/// Bank switching on an MBC5: writing the low eight bits of a bank number `b` (below the
/// cartridge's bank count) to 0x2000-0x2FFF and its ninth bit to 0x3000-0x3FFF, in either
/// order, maps ROM bank `b` at 0x4000-0x7FFF (bank 0 too).
pub proof fn lemma_mbc5_selects_bank(m: Mbc5, rom: Seq<u8>, b: u16, off: int)
    requires
        m.wf_with(rom),
        b < m.rom_banks,
        b < 512,
        0 <= off < 0x4000,
    ensures
        m.write_rom_next(0x2000, (b % 256) as u8).write_rom_next(0x3000, (b / 256) as u8)
            .read_rom_spec(rom, (0x4000 + off) as u16) == rom[b * 0x4000 + off],
        m.write_rom_next(0x3000, (b / 256) as u8).write_rom_next(0x2000, (b % 256) as u8)
            .read_rom_spec(rom, (0x4000 + off) as u16) == rom[b * 0x4000 + off],
{
    let lo = (b % 256) as u8;
    let hi = (b / 256) as u8;
    assert(hi % 2 == hi);
    assert((hi % 2) * 256 + lo == b);
    let m1 = m.write_rom_next(0x2000, lo).write_rom_next(0x3000, hi);
    let m2 = m.write_rom_next(0x3000, hi).write_rom_next(0x2000, lo);
    assert(m1.rom_bank == b);
    let r: int = (hi % 2) * 256 + m.rom_bank % 256;
    vstd::arithmetic::div_mod::lemma_fundamental_div_mod_converse(r, 256, hi as int, (m.rom_bank % 256) as int);
    let mh = m.write_rom_next(0x3000, hi);
    assert(mh.rom_bank as int == r);
    assert(mh.rom_bank / 256 == hi);
    assert(m2 == mh.write_rom_next(0x2000, lo));
    assert(m2.rom_bank == b);
    vstd::arithmetic::div_mod::lemma_small_mod(b as nat, m.rom_banks as nat);
}

} // verus!
