use vstd::prelude::*;

verus! {

// Memory map:
// 0x0000 - 0x7FFF : cartridge ROM (bank 0, then the switchable bank)
// 0x8000 - 0x9FFF : video RAM (tile data and the two background maps)
// 0xA000 - 0xBFFF : cartridge RAM
// 0xC000 - 0xDFFF : work RAM
// 0xE000 - 0xFDFF : echo RAM (unusable)
// 0xFE00 - 0xFE9F : object attribute memory
// 0xFEA0 - 0xFEFF : reserved (unusable)
// 0xFF00 - 0xFF7F : I/O registers
// 0xFF80 - 0xFFFE : high RAM
// 0xFFFF          : interrupt enable register
#[derive(Clone, Copy, Debug, PartialEq, Eq, Structural)]
pub enum MemoryRegion {
    ROM,
    VRAM,
    CRAM,
    WRAM,
    ECHO,
    OAM,
    RESERVED,
    IO,
    HRAM,
    IE,
}

/// The region that holds `address`.
pub open spec fn region_of(address: int) -> MemoryRegion {
    if address <= 0x7FFF {
        MemoryRegion::ROM
    } else if address <= 0x9FFF {
        MemoryRegion::VRAM
    } else if address <= 0xBFFF {
        MemoryRegion::CRAM
    } else if address <= 0xDFFF {
        MemoryRegion::WRAM
    } else if address <= 0xFDFF {
        MemoryRegion::ECHO
    } else if address <= 0xFE9F {
        MemoryRegion::OAM
    } else if address <= 0xFEFF {
        MemoryRegion::RESERVED
    } else if address <= 0xFF7F {
        MemoryRegion::IO
    } else if address <= 0xFFFE {
        MemoryRegion::HRAM
    } else {
        MemoryRegion::IE
    }
}

impl MemoryRegion {
    /// Region of a 16-bit address; addresses above 0xFFFF are not in the map.
    pub fn from_address(address: usize) -> (res: Self)
        requires
            address <= 0xFFFF,
        ensures
            res == region_of(address as int),
    {
        if address <= 0x7FFF {
            Self::ROM
        } else if address <= 0x9FFF {
            Self::VRAM
        } else if address <= 0xBFFF {
            Self::CRAM
        } else if address <= 0xDFFF {
            Self::WRAM
        } else if address <= 0xFDFF {
            Self::ECHO
        } else if address <= 0xFE9F {
            Self::OAM
        } else if address <= 0xFEFF {
            Self::RESERVED
        } else if address <= 0xFF7F {
            Self::IO
        } else if address <= 0xFFFE {
            Self::HRAM
        } else {
            Self::IE
        }
    }
}

/// The regions tile the address space in order: each address of a region lies between
/// that region's first and last address.
pub proof fn lemma_region_bounds(address: int)
    requires
        0 <= address <= 0xFFFF,
    ensures
        region_of(address) == MemoryRegion::WRAM <==> 0xC000 <= address <= 0xDFFF,
        region_of(address) == MemoryRegion::HRAM <==> 0xFF80 <= address <= 0xFFFE,
        region_of(address) == MemoryRegion::IE <==> address == 0xFFFF,
        region_of(address) == MemoryRegion::ROM <==> address <= 0x7FFF,
{
}

} // verus!
