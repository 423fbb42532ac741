use vstd::prelude::*;

verus! {

/// MBC2: 4-bit ROM bank register and 512 half-bytes of built-in RAM.
#[derive(Clone, Copy, PartialEq, Eq, Structural)]
pub struct Mbc2 {
    pub rom_bank_select: u8,
    pub rom_bank_count: usize,
    pub ram_enable: bool,
}

impl Mbc2 {
    /// The ROM holds every bank and the RAM covers the 512 addressable cells.
    pub open spec fn wf_with(self, rom: Seq<u8>, ram: Seq<u8>) -> bool {
        &&& self.rom_bank_count > 0
        &&& rom.len() >= self.rom_bank_count * 0x4000
        &&& ram.len() >= 0x200
    }

    pub open spec fn read_rom_spec(self, rom: Seq<u8>, address: u16) -> u8 {
        if address <= 0x3FFF {
            rom[address as int]
        } else if address <= 0x7FFF {
            rom[((self.rom_bank_select as int) % (self.rom_bank_count as int)) * 0x4000 + (address - 0x4000)]
        } else {
            0xFF
        }
    }

    pub open spec fn write_rom_next(self, address: u16, value: u8) -> Mbc2 {
        if address <= 0x3FFF {
            if address & 0x0100 == 0 {
                Mbc2 { ram_enable: value % 16 == 0xA, ..self }
            } else {
                Mbc2 { rom_bank_select: if value % 16 == 0 { 1 } else { value % 16 }, ..self }
            }
        } else {
            self
        }
    }

    pub open spec fn ram_index(address: u16) -> int {
        ((address - 0xA000) as int) % 0x200
    }

    pub open spec fn read_ram_spec(self, ram: Seq<u8>, address: u16) -> u8 {
        if self.ram_enable {
            ram[Mbc2::ram_index(address)]
        } else {
            0xFF
        }
    }

    pub open spec fn write_ram_spec(self, ram: Seq<u8>, address: u16, value: u8) -> Seq<u8> {
        if self.ram_enable {
            ram.update(Mbc2::ram_index(address), value % 16)
        } else {
            ram
        }
    }

    pub fn new(rom_bank_count: usize) -> (res: Self)
        ensures
            res == (Mbc2 { rom_bank_select: 1, rom_bank_count, ram_enable: false }),
    {
        Mbc2 { rom_bank_select: 1, rom_bank_count, ram_enable: false }
    }

    pub fn read_rom(&self, rom_data: &[u8], address: u16) -> (res: u8)
        requires
            self.rom_bank_count > 0,
            rom_data@.len() >= self.rom_bank_count * 0x4000,
        ensures
            res == self.read_rom_spec(rom_data@, address),
    {
        match address {
            0x0000..=0x3FFF => rom_data[address as usize],
            0x4000..=0x7FFF => {
                let bank = (self.rom_bank_select as usize) % self.rom_bank_count;
                proof {
                    crate::bits::lemma_mod_le(self.rom_bank_select as usize, self.rom_bank_count);
                    assert(bank * 0x4000 + 0x3FFF < self.rom_bank_count * 0x4000) by (nonlinear_arith)
                        requires
                            bank < self.rom_bank_count,
                    ;
                }
                let rom_address = bank * 0x4000 + (address as usize - 0x4000);
                rom_data[rom_address]
            },
            _ => 0xFF,
        }
    }

    pub fn write_rom(&mut self, address: u16, value: u8)
        ensures
            *final(self) == old(self).write_rom_next(address, value),
    {
        assert(value & 0xF == value % 16 && value & 0x0F == value % 16) by (bit_vector);
        match address {
            0x0000..=0x3FFF => {
                if address & 0x0100 == 0 {
                    self.ram_enable = value & 0xF == 0xA;
                } else {
                    let v = value & 0x0F;
                    self.rom_bank_select = if v < 1 { 1 } else { v };
                }
            },
            _ => {},
        }
    }

    pub fn read_ram(&self, ram_data: &[u8], address: u16) -> (res: u8)
        requires
            0xA000 <= address,
            ram_data@.len() >= 0x200,
        ensures
            res == self.read_ram_spec(ram_data@, address),
    {
        if self.ram_enable {
            let offset = address - 0xA000;
            assert(offset as usize & 0x1FF == (offset as int) % 0x200) by (bit_vector);
            let ram_address = (address - 0xA000) as usize & 0x1FF;
            ram_data[ram_address]
        } else {
            0xFF
        }
    }

    pub fn write_ram(&mut self, ram_data: &mut [u8], address: u16, value: u8)
        requires
            0xA000 <= address,
            old(ram_data)@.len() >= 0x200,
        ensures
            *final(self) == *old(self),
            final(ram_data)@ == old(self).write_ram_spec(old(ram_data)@, address, value),
    {
        if self.ram_enable {
            let offset = address - 0xA000;
            assert(offset as usize & 0x1FF == (offset as int) % 0x200 && value & 0x0F == value % 16) by (bit_vector);
            let ram_address = (address - 0xA000) as usize & 0x1FF;
            ram_data[ram_address] = value & 0x0F;
        }
    }
}

} // verus!
