use vstd::prelude::*;
use crate::emulator::cart::mbc::{MbcType, cart_type_name};

verus! {

/// Family of memory bank controller named by a cartridge type code.
#[derive(Clone, Copy, PartialEq, Eq, Structural, Debug)]
pub enum MBCType {
    RomOnly,
    MBC1,
    MBC2,
    MBC3,
    MBC5,
    MBC6,
    MBC7,
}

/// Controller family of a cartridge type code; codes without a known family read as `RomOnly`.
pub open spec fn mbc_family(byte: u8) -> MBCType {
    if 0x01 <= byte <= 0x03 {
        MBCType::MBC1
    } else if byte == 0x05 || byte == 0x06 {
        MBCType::MBC2
    } else if 0x11 <= byte <= 0x13 {
        MBCType::MBC3
    } else if 0x19 <= byte <= 0x1B {
        MBCType::MBC5
    } else if byte == 0x20 {
        MBCType::MBC6
    } else if byte == 0x22 {
        MBCType::MBC7
    } else {
        MBCType::RomOnly
    }
}

impl MBCType {
    pub fn from_byte(byte: u8) -> (res: Self)
        ensures
            res == mbc_family(byte),
    {
        match byte {
            0x00 => MBCType::RomOnly,
            0x01 | 0x02 | 0x03 => MBCType::MBC1,
            0x05 | 0x06 => MBCType::MBC2,
            0x11 | 0x12 | 0x13 => MBCType::MBC3,
            0x19 | 0x1A | 0x1B => MBCType::MBC5,
            0x20 => MBCType::MBC6,
            0x22 => MBCType::MBC7,
            _ => MBCType::RomOnly,
        }
    }

    pub fn name(code: u8) -> (res: &'static str)
        ensures
            res == cart_type_name(code),
    {
        MbcType::name(code)
    }
}

} // verus!
