use vstd::prelude::*;

verus! {

/// Byte of `data` at `index`, or 0xFF past its end.
pub open spec fn byte_or_ff(data: Seq<u8>, index: int) -> u8 {
    if 0 <= index < data.len() {
        data[index]
    } else {
        0xFF
    }
}

/// Reads `data[index]`, or 0xFF when the index is past the end.
pub fn read_or_ff(data: &[u8], index: usize) -> (res: u8)
    ensures
        res == byte_or_ff(data@, index as int),
{
    if index < data.len() {
        data[index]
    } else {
        0xFF
    }
}

/// Writes `data[index] = value` when the index is inside the data.
pub fn write_if_inside(data: &mut [u8], index: usize, value: u8)
    ensures
        final(data)@ == (if (index as int) < old(data)@.len() {
            old(data)@.update(index as int, value)
        } else {
            old(data)@
        }),
{
    if index < data.len() {
        data[index] = value;
    }
}

/// ROM-only cartridge: no banking and no RAM.
#[derive(Clone, Copy, PartialEq, Eq, Structural)]
pub struct Mbc0 {}

impl Mbc0 {
    pub fn read_rom(&self, rom_data: &[u8], address: u16) -> (res: u8)
        ensures
            res == byte_or_ff(rom_data@, address as int),
    {
        read_or_ff(rom_data, address as usize)
    }

    pub fn write_rom(&mut self, _address: u16, _value: u8)
        ensures
            *final(self) == *old(self),
    {
    }

    pub fn read_ram(&self, _ram_data: &[u8], _address: u16) -> (res: u8)
        ensures
            res == 0xFF,
    {
        0xFF
    }

    pub fn write_ram(&mut self, _ram_data: &mut [u8], _address: u16, _value: u8)
        ensures
            *final(self) == *old(self),
            final(_ram_data)@ == old(_ram_data)@,
    {
    }
}

} // verus!
