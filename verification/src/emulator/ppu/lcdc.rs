use vstd::prelude::*;
use crate::bits::{BIT_0, BIT_1, BIT_2, BIT_3, BIT_4, BIT_5, BIT_6, BIT_7};

verus! {

/// The LCD control register (LCDC, 0xFF40) as named flags.
#[derive(Clone, Copy, PartialEq, Eq, Structural)]
pub struct LcdcData {
    pub bg_enable: bool,
    pub obj_enable: bool,
    /// 8x16 sprites when set, 8x8 otherwise.
    pub obj_size: bool,
    /// Background tile map at 0x9C00 when set, 0x9800 otherwise.
    pub bg_tile_map: bool,
    /// Unsigned tile data at 0x8000 when set, signed at 0x9000 otherwise.
    pub bg_window_tile_data: bool,
    pub window_enable: bool,
    /// Window tile map at 0x9C00 when set, 0x9800 otherwise.
    pub window_tile_map: bool,
    pub lcd_enable: bool,
}

/// Flags of an LCDC byte, bit 0 first.
pub open spec fn lcdc_data_of(byte: u8) -> LcdcData {
    LcdcData {
        bg_enable: (byte & BIT_0) != 0,
        obj_enable: (byte & BIT_1) != 0,
        obj_size: (byte & BIT_2) != 0,
        bg_tile_map: (byte & BIT_3) != 0,
        bg_window_tile_data: (byte & BIT_4) != 0,
        window_enable: (byte & BIT_5) != 0,
        window_tile_map: (byte & BIT_6) != 0,
        lcd_enable: (byte & BIT_7) != 0,
    }
}

impl From<u8> for LcdcData {
    fn from(byte: u8) -> (res: Self) {
        LcdcData {
            bg_enable: (byte & BIT_0) != 0,
            obj_enable: (byte & BIT_1) != 0,
            obj_size: (byte & BIT_2) != 0,
            bg_tile_map: (byte & BIT_3) != 0,
            bg_window_tile_data: (byte & BIT_4) != 0,
            window_enable: (byte & BIT_5) != 0,
            window_tile_map: (byte & BIT_6) != 0,
            lcd_enable: (byte & BIT_7) != 0,
        }
    }
}

impl vstd::std_specs::convert::FromSpecImpl<u8> for LcdcData {
    open spec fn obeys_from_spec() -> bool {
        true
    }

    open spec fn from_spec(byte: u8) -> LcdcData {
        lcdc_data_of(byte)
    }
}

} // verus!
