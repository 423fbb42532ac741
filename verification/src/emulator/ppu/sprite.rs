use vstd::prelude::*;
use crate::bits::{BIT_4, BIT_5, BIT_6, BIT_7};

verus! {

pub const SPRITE_SIZE_BYTES: u8 = 4;
pub const SPRITE_OFFSET_Y: u8 = 16;
pub const SPRITE_OFFSET_X: u8 = 8;
pub const SPRITE_WIDTH: u8 = 8;

/// Raw sprite data as stored in OAM.
#[derive(Clone, Copy, PartialEq, Eq, Structural)]
pub struct OAMSprite {
    pub y: u8,
    pub x: u8,
    pub tile_index: u8,
    pub attributes: u8,
    pub oam_index: usize,
}

/// The four OAM bytes of sprite `oam_index`.
pub open spec fn oam_sprite_at(oam: Seq<u8>, oam_index: usize) -> OAMSprite {
    let base = oam_index * 4;
    OAMSprite {
        y: oam[base],
        x: oam[base + 1],
        tile_index: oam[base + 2],
        attributes: oam[base + 3],
        oam_index,
    }
}

impl OAMSprite {
    /// Sprite number `oam_index` (0-39) of the OAM.
    pub fn at_oam(oam: &[u8], oam_index: usize) -> (res: Self)
        requires
            oam_index * 4 + 3 < oam@.len(),
        ensures
            res == oam_sprite_at(oam@, oam_index),
    {
        let _len = oam.len();
        let base = oam_index * 4;
        OAMSprite {
            y: oam[base],
            x: oam[base + 1],
            tile_index: oam[base + 2],
            attributes: oam[base + 3],
            oam_index,
        }
    }
}

/// Sprite prepared for rendering, with its attributes decoded.
#[derive(Clone, Copy, PartialEq, Eq, Structural)]
pub struct RenderSprite {
    pub screen_x: i16,
    pub screen_y: i16,
    pub tile_index: u8,
    /// OBP1 when set, OBP0 otherwise.
    pub palette_index: bool,
    pub x_flip: bool,
    pub y_flip: bool,
    /// Drawn only over background color 0 when set.
    pub bg_priority: bool,
    /// CGB: VRAM bank of the tile data.
    pub cgb_vram_bank: u8,
    /// CGB: object palette number.
    pub cgb_palette: u8,
    pub oam_index: usize,
}

/// Rendering view of an OAM entry.
pub open spec fn render_sprite_of(s: OAMSprite) -> RenderSprite {
    let attr = s.attributes;
    RenderSprite {
        screen_x: (s.x as i16 - SPRITE_OFFSET_X as i16) as i16,
        screen_y: (s.y as i16 - SPRITE_OFFSET_Y as i16) as i16,
        tile_index: s.tile_index,
        palette_index: (attr & BIT_4) != 0,
        x_flip: (attr & BIT_5) != 0,
        y_flip: (attr & BIT_6) != 0,
        bg_priority: (attr & BIT_7) != 0,
        cgb_vram_bank: (attr & 0x08) >> 3u8,
        cgb_palette: attr & 0x07,
        oam_index: s.oam_index,
    }
}

impl From<OAMSprite> for RenderSprite {
    fn from(oam_sprite: OAMSprite) -> (res: Self) {
        let attr = oam_sprite.attributes;
        RenderSprite {
            screen_x: oam_sprite.x as i16 - SPRITE_OFFSET_X as i16,
            screen_y: oam_sprite.y as i16 - SPRITE_OFFSET_Y as i16,
            tile_index: oam_sprite.tile_index,
            palette_index: (attr & BIT_4) != 0,
            x_flip: (attr & BIT_5) != 0,
            y_flip: (attr & BIT_6) != 0,
            bg_priority: (attr & BIT_7) != 0,
            cgb_vram_bank: (attr & 0x08) >> 3,
            cgb_palette: attr & 0x07,
            oam_index: oam_sprite.oam_index,
        }
    }
}

impl vstd::std_specs::convert::FromSpecImpl<OAMSprite> for RenderSprite {
    open spec fn obeys_from_spec() -> bool {
        true
    }

    open spec fn from_spec(s: OAMSprite) -> RenderSprite {
        render_sprite_of(s)
    }
}

impl RenderSprite {
    /// Scanline `ly` crosses the sprite.
    pub open spec fn visible_on(self, ly: u8, sprite_height: u8) -> bool {
        self.screen_y <= ly && ly < self.screen_y + sprite_height
    }

    /// Row of the sprite drawn on scanline `ly`, counted from its top as stored.
    pub open spec fn line_in_sprite(self, ly: u8, sprite_height: u8) -> u8 {
        (if self.y_flip {
            sprite_height - 1 - (ly - self.screen_y)
        } else {
            ly - self.screen_y
        }) as u8
    }

    pub fn is_visible_on_line(&self, ly: u8, sprite_height: u8) -> (res: bool)
        ensures
            res == self.visible_on(ly, sprite_height),
    {
        let scanline = ly as i16;
        scanline >= self.screen_y && (scanline as i32) < self.screen_y as i32 + sprite_height as i32
    }

    pub fn get_line_in_sprite(&self, ly: u8, sprite_height: u8) -> (res: u8)
        ensures
            res == self.line_in_sprite(ly, sprite_height),
    {
        let d = ly as i32 - self.screen_y as i32;
        (if self.y_flip {
            sprite_height as i32 - 1 - d
        } else {
            d
        }) as u8
    }

    /// Address of the sprite's DMG palette register.
    pub fn get_obp_address(&self) -> (res: u16)
        ensures
            res == (if self.palette_index { 0xFF49u16 } else { 0xFF48u16 }),
    {
        if self.palette_index {
            0xFF49
        } else {
            0xFF48
        }
    }
}

} // verus!
