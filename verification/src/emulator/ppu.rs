use vstd::prelude::*;
use vstd::arithmetic::power2::{lemma2_to64, pow2};
use crate::bits::{BIT_0, BIT_2, BIT_3, BIT_4, BIT_5, BIT_6, BIT_7};
use crate::emulator::ppu::lcdc::{LcdcData, lcdc_data_of};
use crate::emulator::ppu::sprite::{OAMSprite, RenderSprite};

pub mod lcdc;
pub mod sprite;

verus! {

pub const WIDTH: usize = 160;
pub const HEIGHT: usize = 144;
/// Pixels in a frame.
pub const FRAME_PIXELS: usize = 23040;

/// Bytes in one VRAM bank.
pub const VRAM_SIZE: usize = 0x2000;
pub const OAM_SIZE: usize = 160;
pub const VRAM_BANKS: usize = 2;
pub const BG_PALETTE_SIZE: usize = 64;
pub const OBJ_PALETTE_SIZE: usize = 64;
pub const MAX_SPRITES_PER_SCANLINE: usize = 10;

pub const REG_LCDC: u16 = 0xFF40;
pub const REG_STAT: u16 = 0xFF41;
pub const REG_SCY: u16 = 0xFF42;
pub const REG_SCX: u16 = 0xFF43;
pub const REG_LY: u16 = 0xFF44;
pub const REG_LYC: u16 = 0xFF45;
pub const REG_BGP: u16 = 0xFF47;
pub const REG_OBP0: u16 = 0xFF48;
pub const REG_OBP1: u16 = 0xFF49;
pub const REG_WY: u16 = 0xFF4A;
pub const REG_WX: u16 = 0xFF4B;

/// Interrupt request bits used by the PPU.
pub const INT_VBLANK: u8 = 0x01;
pub const INT_LCD_STAT: u8 = 0x02;

#[derive(Clone, Copy, PartialEq, Eq, Structural, Debug)]
pub enum PPUMode {
    HBlank,
    VBlank,
    OAMSearch,
    PixelTransfer,
}

/// Number of a PPU mode as shown in STAT bits 0-1.
pub open spec fn mode_number(mode: PPUMode) -> u8 {
    match mode {
        PPUMode::HBlank => 0,
        PPUMode::VBlank => 1,
        PPUMode::OAMSearch => 2,
        PPUMode::PixelTransfer => 3,
    }
}

pub fn mode_bits(mode: PPUMode) -> (res: u8)
    ensures
        res == mode_number(mode),
{
    match mode {
        PPUMode::HBlank => 0,
        PPUMode::VBlank => 1,
        PPUMode::OAMSearch => 2,
        PPUMode::PixelTransfer => 3,
    }
}

/// Picture processing unit: video memory, OAM, LCD registers, palettes and the frame
/// being drawn. VRAM bank `b` occupies `vram[b * 0x2000 ..]`.
pub struct PPU {
    pub buffer: Vec<u32>,
    pub vram: [u8; 0x4000],
    pub oam: [u8; 160],
    pub mode: PPUMode,
    pub dot_counter: u16,
    pub window_line: u8,
    pub bg_color_indices: Vec<u8>,
    pub cgb_mode: bool,
    pub vram_bank: usize,
    pub bg_palette_data: [u8; 64],
    pub bg_palette_index: u8,
    pub bg_palette_auto_increment: bool,
    pub obj_palette_data: [u8; 64],
    pub obj_palette_index: u8,
    pub obj_palette_auto_increment: bool,
    pub lcdc: u8,
    pub stat: u8,
    pub scy: u8,
    pub scx: u8,
    pub ly: u8,
    pub lyc: u8,
    pub bgp: u8,
    pub obp0: u8,
    pub obp1: u8,
    pub wy: u8,
    pub wx: u8,
}

/// Mathematical model of a [`PPU`].
pub struct PpuView {
    pub buffer: Seq<u32>,
    pub vram: Seq<u8>,
    pub oam: Seq<u8>,
    pub mode: PPUMode,
    pub dot_counter: u16,
    pub window_line: u8,
    pub bg_color_indices: Seq<u8>,
    pub cgb_mode: bool,
    pub vram_bank: usize,
    pub bg_palette_data: Seq<u8>,
    pub bg_palette_index: u8,
    pub bg_palette_auto_increment: bool,
    pub obj_palette_data: Seq<u8>,
    pub obj_palette_index: u8,
    pub obj_palette_auto_increment: bool,
    pub lcdc: u8,
    pub stat: u8,
    pub scy: u8,
    pub scx: u8,
    pub ly: u8,
    pub lyc: u8,
    pub bgp: u8,
    pub obp0: u8,
    pub obp1: u8,
    pub wy: u8,
    pub wx: u8,
}

impl View for PPU {
    type V = PpuView;

    open spec fn view(&self) -> PpuView {
        PpuView {
            buffer: self.buffer@,
            vram: self.vram@,
            oam: self.oam@,
            mode: self.mode,
            dot_counter: self.dot_counter,
            window_line: self.window_line,
            bg_color_indices: self.bg_color_indices@,
            cgb_mode: self.cgb_mode,
            vram_bank: self.vram_bank,
            bg_palette_data: self.bg_palette_data@,
            bg_palette_index: self.bg_palette_index,
            bg_palette_auto_increment: self.bg_palette_auto_increment,
            obj_palette_data: self.obj_palette_data@,
            obj_palette_index: self.obj_palette_index,
            obj_palette_auto_increment: self.obj_palette_auto_increment,
            lcdc: self.lcdc,
            stat: self.stat,
            scy: self.scy,
            scx: self.scx,
            ly: self.ly,
            lyc: self.lyc,
            bgp: self.bgp,
            obp0: self.obp0,
            obp1: self.obp1,
            wy: self.wy,
            wx: self.wx,
        }
    }
}

/// Index in the flat VRAM of `address` (0x8000-0x9FFF) in bank `bank`.
pub open spec fn vram_offset(bank: int, address: u16) -> int {
    bank * 0x2000 + (address - 0x8000)
}


/// DMG shade of `color_index` (0-3) through a palette register, as ARGB.
pub open spec fn dmg_color(palette: u8, color_index: u8) -> u32 {
    let c = (palette >> ((color_index * 2) as u8)) & 0x03;
    if c == 0 {
        0xFF9A9E3F
    } else if c == 1 {
        0xFF496B22
    } else if c == 2 {
        0xFF0E450B
    } else {
        0xFF1B2A09
    }
}

/// CGB color `color_index` of palette `palette_num` in a palette block (little-endian
/// RGB555 words), widened to 8 bits per channel as ARGB.
pub open spec fn cgb_color(data: Seq<u8>, palette_num: u8, color_index: u8) -> u32 {
    let base = palette_num * 8 + color_index * 2;
    let rgb555 = ((data[base + 1] as u16) << 8u16) | (data[base] as u16);
    let r5 = (rgb555 & 0x1F) as u8;
    let g5 = ((rgb555 >> 5u16) & 0x1F) as u8;
    let b5 = ((rgb555 >> 10u16) & 0x1F) as u8;
    let r = (r5 << 3u8) | (r5 >> 2u8);
    let g = (g5 << 3u8) | (g5 >> 2u8);
    let b = (b5 << 3u8) | (b5 >> 2u8);
    0xFF000000u32 | ((r as u32) << 16u32) | ((g as u32) << 8u32) | (b as u32)
}

/// Address of the 16 bytes of tile `tile_id`: unsigned from 0x8000, or signed around 0x9000.
pub open spec fn tile_address(tile_id: u8, unsigned_area: bool) -> u16 {
    if unsigned_area {
        (0x8000 + tile_id * 16) as u16
    } else if tile_id < 128 {
        (0x9000 + tile_id * 16) as u16
    } else {
        (0x9000 - (256 - tile_id) * 16) as u16
    }
}

/// Color index (0-3) of column `px` (0 leftmost) of a tile row given by its two bytes.
pub open spec fn row_color_index(byte1: u8, byte2: u8, px: int) -> u8 {
    (((byte2 >> ((7 - px) as u8)) & 1u8) << 1u8) | ((byte1 >> ((7 - px) as u8)) & 1u8)
}

/// `s` with the 160 entries of line `ly` given by `f`.
pub open spec fn with_row<T>(s: Seq<T>, ly: int, f: spec_fn(int) -> T) -> Seq<T> {
    Seq::new(s.len(), |i: int| if ly * 160 <= i < ly * 160 + 160 { f(i - ly * 160) } else { s[i] })
}

/// Sprite height for the LCDC object-size flag.
pub open spec fn sprite_height_for(obj_size: bool) -> u8 {
    if obj_size { 16 } else { 8 }
}

/// Drawing order key: lower X first, then lower OAM index.
pub open spec fn sprite_before(a: crate::emulator::ppu::sprite::RenderSprite, b: crate::emulator::ppu::sprite::RenderSprite) -> bool {
    a.screen_x < b.screen_x || (a.screen_x == b.screen_x && a.oam_index < b.oam_index)
}

/// `x` placed into `s` before the first element it goes before.
pub open spec fn insert_sorted(
    s: Seq<crate::emulator::ppu::sprite::RenderSprite>,
    x: crate::emulator::ppu::sprite::RenderSprite,
) -> Seq<crate::emulator::ppu::sprite::RenderSprite>
    decreases s.len(),
{
    if s.len() == 0 {
        seq![x]
    } else if sprite_before(x, s[0]) {
        seq![x] + s
    } else {
        seq![s[0]] + insert_sorted(s.drop_first(), x)
    }
}

/// `s` sorted by [`sprite_before`], equal keys keeping their order.
pub open spec fn sort_sprites(s: Seq<crate::emulator::ppu::sprite::RenderSprite>) -> Seq<
    crate::emulator::ppu::sprite::RenderSprite,
>
    decreases s.len(),
{
    if s.len() == 0 {
        s
    } else {
        insert_sorted(sort_sprites(s.drop_last()), s.last())
    }
}

/// The sprites among the first `n` OAM entries that cross line `ly`, in OAM order, at
/// most ten of them.
pub open spec fn visible_sprites_upto(oam: Seq<u8>, ly: u8, h: u8, n: int) -> Seq<
    crate::emulator::ppu::sprite::RenderSprite,
>
    decreases n,
{
    if n <= 0 {
        seq![]
    } else {
        let prev = visible_sprites_upto(oam, ly, h, n - 1);
        let s = crate::emulator::ppu::sprite::render_sprite_of(
            crate::emulator::ppu::sprite::oam_sprite_at(oam, (n - 1) as usize),
        );
        if prev.len() < 10 && s.visible_on(ly, h) {
            prev.push(s)
        } else {
            prev
        }
    }
}

/// Every sprite has a VRAM bank of 0 or 1 and a CGB palette number below 8.
pub open spec fn sprites_bounded(s: Seq<crate::emulator::ppu::sprite::RenderSprite>) -> bool {
    forall|i: int| 0 <= i < s.len() ==> (#[trigger] s[i]).cgb_vram_bank < 2 && s[i].cgb_palette < 8
}

/// The sprites drawn on line `ly`, in priority order.
pub open spec fn line_sprites(oam: Seq<u8>, ly: u8, h: u8) -> Seq<crate::emulator::ppu::sprite::RenderSprite> {
    sort_sprites(visible_sprites_upto(oam, ly, h, 40))
}

impl PpuView {
    /// Shape of the state: frame buffers of a whole frame, a VRAM bank of 0 or 1, palette
    /// indexes inside the palettes, and a beam position inside the 154 lines of 456 dots.
    pub open spec fn wf(self) -> bool {
        &&& self.buffer.len() == FRAME_PIXELS
        &&& self.bg_color_indices.len() == FRAME_PIXELS
        &&& self.vram.len() == 0x4000
        &&& self.oam.len() == 160
        &&& self.bg_palette_data.len() == 64
        &&& self.obj_palette_data.len() == 64
        &&& self.vram_bank < 2
        &&& self.bg_palette_index < 64
        &&& self.obj_palette_index < 64
        &&& self.ly < 154
        &&& self.dot_counter < 456
    }

    pub open spec fn window_visible(self) -> bool {
        self.ly >= self.wy && self.wx <= 166 && self.wy <= 143
    }

    /// First screen column covered by the window.
    pub open spec fn window_start(self) -> int {
        if self.wx >= 7 { self.wx - 7 } else { 0 }
    }

    pub open spec fn uses_window(self, x: int) -> bool {
        lcdc_data_of(self.lcdc).window_enable && self.window_visible() && x >= self.window_start()
    }

    /// Color and color index of the background or window pixel at (`xc`, `yc`) of the tile
    /// map at `map_base`.
    pub open spec fn tile_pixel(self, map_base: u16, xc: int, yc: int) -> (u32, u8) {
        let l = lcdc_data_of(self.lcdc);
        let tile_id_addr = (map_base + ((yc / 8) % 32) * 32 + ((xc / 8) % 32)) as u16;
        let tile_id = self.vram[vram_offset(0, tile_id_addr)];
        let attr: u8 = if self.cgb_mode { self.vram[vram_offset(1, tile_id_addr)] } else { 0 };
        let bank: int = if self.cgb_mode { ((attr & 0x08) >> 3u8) as int } else { self.vram_bank as int };
        let x_flip = self.cgb_mode && (attr & 0x20) != 0;
        let y_flip = self.cgb_mode && (attr & 0x40) != 0;
        let fy = if y_flip { 7 - yc % 8 } else { yc % 8 };
        let data_addr = (tile_address(tile_id, l.bg_window_tile_data) + fy * 2) as u16;
        let b1 = self.vram[vram_offset(bank, data_addr)];
        let b2 = self.vram[vram_offset(bank, data_addr) + 1];
        let fx = if x_flip { 7 - xc % 8 } else { xc % 8 };
        let ci = row_color_index(b1, b2, fx);
        let color = if self.cgb_mode {
            cgb_color(self.bg_palette_data, attr & 0x07, ci)
        } else {
            dmg_color(self.bgp, ci)
        };
        (color, ci)
    }

    /// Background or window pixel at column `x` of the current line.
    pub open spec fn bg_pixel(self, x: int) -> (u32, u8) {
        let l = lcdc_data_of(self.lcdc);
        if self.uses_window(x) {
            self.tile_pixel(
                if l.window_tile_map { 0x9C00 } else { 0x9800 },
                x - self.window_start(),
                self.window_line as int,
            )
        } else {
            self.tile_pixel(
                if l.bg_tile_map { 0x9C00 } else { 0x9800 },
                x + self.scx,
                ((self.ly + self.scy) % 256) as int,
            )
        }
    }

    /// Color of a sprite pixel with the given color index.
    pub open spec fn sprite_color(self, sp: crate::emulator::ppu::sprite::RenderSprite, ci: u8) -> u32 {
        if self.cgb_mode {
            cgb_color(self.obj_palette_data, sp.cgb_palette, ci)
        } else {
            dmg_color(if sp.palette_index { self.obp1 } else { self.obp0 }, ci)
        }
    }

    /// The two bytes of the row of `sp` drawn on the current line.
    pub open spec fn sprite_row(self, sp: crate::emulator::ppu::sprite::RenderSprite, h: u8) -> (u8, u8) {
        let line = sp.line_in_sprite(self.ly, h);
        let tile_num: u8 = if h == 16 {
            if line < 8 { sp.tile_index & 0xFE } else { ((sp.tile_index & 0xFE) + 1) as u8 }
        } else {
            sp.tile_index
        };
        let line_offset: int = if h == 16 && line >= 8 { line - 8 } else { line as int };
        let bank: int = if self.cgb_mode { sp.cgb_vram_bank as int } else { self.vram_bank as int };
        let addr = (0x8000 + tile_num * 16 + line_offset * 2) as u16;
        (self.vram[vram_offset(bank, addr)], self.vram[vram_offset(bank, addr) + 1])
    }

    /// `buf` after sprite `sp` is drawn on the current line: opaque pixels on screen, and
    /// over background color 0 only when the sprite has background priority.
    pub open spec fn draw_sprite(self, buf: Seq<u32>, sp: crate::emulator::ppu::sprite::RenderSprite, h: u8) -> Seq<u32> {
        let (b1, b2) = self.sprite_row(sp, h);
        let row = self.ly as int * 160;
        Seq::new(
            buf.len(),
            |j: int|
                {
                    let px = j - row - sp.screen_x;
                    let ci = row_color_index(b1, b2, if sp.x_flip { 7 - px } else { px });
                    if row <= j < row + 160 && 0 <= px < 8 && ci != 0 && (!sp.bg_priority
                        || self.bg_color_indices[j] == 0) {
                        self.sprite_color(sp, ci)
                    } else {
                        buf[j]
                    }
                },
        )
    }

    /// Frame buffer after `sprites[i..]` are drawn, the last one first.
    pub open spec fn draw_sprites_from(self, sprites: Seq<crate::emulator::ppu::sprite::RenderSprite>, h: u8, i: int) -> Seq<u32>
        decreases sprites.len() - i,
    {
        if i < 0 || i >= sprites.len() {
            self.buffer
        } else {
            self.draw_sprite(self.draw_sprites_from(sprites, h, i + 1), sprites[i], h)
        }
    }

    /// State after the sprites of the current line are drawn.
    pub open spec fn render_sprites_next(self) -> PpuView {
        let h = sprite_height_for(lcdc_data_of(self.lcdc).obj_size);
        PpuView { buffer: self.draw_sprites_from(line_sprites(self.oam, self.ly, h), h, 0), ..self }
    }

    /// State after the current line is drawn into the frame.
    pub open spec fn render_scanline_next(self) -> PpuView {
        let l = lcdc_data_of(self.lcdc);
        if !l.lcd_enable {
            self
        } else if !l.bg_enable {
            PpuView { buffer: with_row(self.buffer, self.ly as int, |x: int| dmg_color(self.bgp, 0)), ..self }
        } else {
            let v1 = PpuView {
                buffer: with_row(self.buffer, self.ly as int, |x: int| self.bg_pixel(x).0),
                bg_color_indices: with_row(self.bg_color_indices, self.ly as int, |x: int| self.bg_pixel(x).1),
                ..self
            };
            if l.obj_enable {
                v1.render_sprites_next()
            } else {
                v1
            }
        }
    }

    /// State and interrupt flags after one dot (T-cycle).
    pub open spec fn tick_next(self, iflag: u8) -> (PpuView, u8) {
        let l = lcdc_data_of(self.lcdc);
        if !l.lcd_enable {
            (self, iflag)
        } else {
            let prev_mode = self.mode;
            let prev_line = self.ly;
            let new_scanline = self.dot_counter + 1 == 456;
            let dot: u16 = if new_scanline { 0 } else { (self.dot_counter + 1) as u16 };
            let ly: u8 = if new_scanline {
                if prev_line + 1 == 154 { 0 } else { (prev_line + 1) as u8 }
            } else {
                prev_line
            };
            let wl0: u8 = if ly == 0 { 0 } else { self.window_line };
            let wl: u8 = if new_scanline && ly < 144 && l.window_enable && (ly >= self.wy && self.wx <= 166
                && self.wy <= 143) && ly > self.wy {
                wl0.wrapping_add(1)
            } else {
                wl0
            };
            let v1 = PpuView { dot_counter: dot, ly, window_line: wl, ..self };
            let new_mode = if ly >= 144 {
                PPUMode::VBlank
            } else if dot < 80 {
                PPUMode::OAMSearch
            } else if dot < 252 {
                PPUMode::PixelTransfer
            } else {
                PPUMode::HBlank
            };
            let if1 = if ly >= 144 && prev_line == 143 && ly == 144 { iflag | INT_VBLANK } else { iflag };
            let v2 = if new_mode == PPUMode::HBlank && prev_mode != PPUMode::HBlank {
                v1.render_scanline_next()
            } else {
                v1
            };
            let stat = (v2.stat & 0xF8) | mode_number(new_mode) | (if ly == v2.lyc { BIT_2 } else { 0 });
            let v3 = PpuView { mode: new_mode, stat, ..v2 };
            let if2 = if new_mode != prev_mode && v3.stat_interrupt_line() { if1 | INT_LCD_STAT } else { if1 };
            (v3, if2)
        }
    }

    pub open spec fn read_register_spec(self, address: u16) -> u8 {
        if address == REG_LCDC {
            self.lcdc
        } else if address == REG_STAT {
            self.stat
        } else if address == REG_SCY {
            self.scy
        } else if address == REG_SCX {
            self.scx
        } else if address == REG_LY {
            self.ly
        } else if address == REG_LYC {
            self.lyc
        } else if address == REG_BGP {
            self.bgp
        } else if address == REG_OBP0 {
            self.obp0
        } else if address == REG_OBP1 {
            self.obp1
        } else if address == REG_WY {
            self.wy
        } else if address == REG_WX {
            self.wx
        } else {
            0xFF
        }
    }

    /// Register write as the CPU sees it: LY is read-only and STAT bits 0-2 and 7 are kept.
    pub open spec fn write_register_next(self, address: u16, value: u8) -> PpuView {
        if address == REG_STAT {
            PpuView { stat: (self.stat & 0x87) | (value & 0x78), ..self }
        } else if address == REG_LY {
            self
        } else {
            self.force_write_register_next(address, value)
        }
    }

    /// Register write that sets the whole register, LY and STAT included.
    pub open spec fn force_write_register_next(self, address: u16, value: u8) -> PpuView {
        if address == REG_LCDC {
            PpuView { lcdc: value, ..self }
        } else if address == REG_STAT {
            PpuView { stat: value, ..self }
        } else if address == REG_SCY {
            PpuView { scy: value, ..self }
        } else if address == REG_SCX {
            PpuView { scx: value, ..self }
        } else if address == REG_LY {
            PpuView { ly: value, ..self }
        } else if address == REG_LYC {
            PpuView { lyc: value, ..self }
        } else if address == REG_BGP {
            PpuView { bgp: value, ..self }
        } else if address == REG_OBP0 {
            PpuView { obp0: value, ..self }
        } else if address == REG_OBP1 {
            PpuView { obp1: value, ..self }
        } else if address == REG_WY {
            PpuView { wy: value, ..self }
        } else if address == REG_WX {
            PpuView { wx: value, ..self }
        } else {
            self
        }
    }

    pub open spec fn read_vram_spec(self, address: u16) -> u8 {
        if self.mode == PPUMode::PixelTransfer {
            0xFF
        } else {
            self.vram[vram_offset(self.vram_bank as int, address)]
        }
    }

    pub open spec fn write_vram_next(self, address: u16, value: u8) -> PpuView {
        PpuView { vram: self.vram.update(vram_offset(self.vram_bank as int, address), value), ..self }
    }

    pub open spec fn write_oam_next(self, address: u16, value: u8) -> PpuView {
        PpuView { oam: self.oam.update(address - 0xFE00, value), ..self }
    }

    /// STAT with the LYC=LY flag (bit 2) brought up to date.
    pub open spec fn check_lyc_next(self) -> PpuView {
        PpuView { stat: if self.ly == self.lyc { self.stat | BIT_2 } else { self.stat & !BIT_2 }, ..self }
    }

    /// The STAT interrupt line: a mode whose interrupt is enabled, or LYC=LY with its
    /// interrupt enabled.
    pub open spec fn stat_interrupt_line(self) -> bool {
        ||| self.mode == PPUMode::HBlank && (self.stat & BIT_3) != 0
        ||| self.mode == PPUMode::VBlank && (self.stat & BIT_4) != 0
        ||| self.mode == PPUMode::OAMSearch && (self.stat & BIT_5) != 0
        ||| (self.stat & BIT_6) != 0 && (self.stat & BIT_2) != 0
    }
}


/// Byte `i` of a palette block filled with the default CGB grey ramp (white, light grey,
/// dark grey, black as little-endian RGB555 words).
pub open spec fn default_cgb_palette_byte(i: int) -> u8 {
    let k = i % 8;
    if k == 0 {
        0xFF
    } else if k == 1 {
        0x7F
    } else if k == 2 {
        0x94
    } else if k == 3 {
        0x52
    } else if k == 4 {
        0x4A
    } else if k == 5 {
        0x29
    } else {
        0x00
    }
}

/// Both palette blocks with the default CGB grey ramp in each of the eight palettes.
pub open spec fn default_cgb_palettes() -> Seq<u8> {
    Seq::new(64, |i: int| default_cgb_palette_byte(i))
}

fn default_palette_byte(k: usize) -> (res: u8)
    requires
        k < 8,
    ensures
        res == default_cgb_palette_byte(k as int),
{
    match k {
        0 => 0xFF,
        1 => 0x7F,
        2 => 0x94,
        3 => 0x52,
        4 => 0x4A,
        5 => 0x29,
        _ => 0x00,
    }
}

impl PPU {
    pub fn new() -> (res: Self)
        ensures
            res@.wf(),
            res@.buffer == Seq::new(FRAME_PIXELS as nat, |_i: int| 0u32),
            res@.bg_color_indices == Seq::new(FRAME_PIXELS as nat, |_i: int| 0u8),
            res@.vram == Seq::new(0x4000, |_i: int| 0u8),
            res@.oam == Seq::new(160, |_i: int| 0u8),
            res@.bg_palette_data == Seq::new(64, |_i: int| 0u8),
            res@.obj_palette_data == Seq::new(64, |_i: int| 0u8),
            res.mode == PPUMode::OAMSearch,
            res.dot_counter == 0,
            res.window_line == 0,
            !res.cgb_mode,
            res.vram_bank == 0,
            res.bg_palette_index == 0,
            !res.bg_palette_auto_increment,
            res.obj_palette_index == 0,
            !res.obj_palette_auto_increment,
            res.lcdc == 0x91,
            res.stat == 0,
            res.scy == 0,
            res.scx == 0,
            res.ly == 0,
            res.lyc == 0,
            res.bgp == 0xFC,
            res.obp0 == 0xFF,
            res.obp1 == 0xFF,
            res.wy == 0,
            res.wx == 0,
    {
        let ppu = PPU {
            buffer: vec![0u32; FRAME_PIXELS],
            vram: [0u8; 0x4000],
            oam: [0u8; 160],
            mode: PPUMode::OAMSearch,
            dot_counter: 0,
            window_line: 0,
            bg_color_indices: vec![0u8; FRAME_PIXELS],
            cgb_mode: false,
            vram_bank: 0,
            bg_palette_data: [0u8; 64],
            bg_palette_index: 0,
            bg_palette_auto_increment: false,
            obj_palette_data: [0u8; 64],
            obj_palette_index: 0,
            obj_palette_auto_increment: false,
            lcdc: 0x91,
            stat: 0,
            scy: 0,
            scx: 0,
            ly: 0,
            lyc: 0,
            bgp: 0xFC,
            obp0: 0xFF,
            obp1: 0xFF,
            wy: 0,
            wx: 0,
        };
        assert(ppu@.buffer =~= Seq::new(FRAME_PIXELS as nat, |_i: int| 0u32));
        assert(ppu@.bg_color_indices =~= Seq::new(FRAME_PIXELS as nat, |_i: int| 0u8));
        ppu
    }

    pub fn set_cgb_mode(&mut self, enabled: bool)
        ensures
            final(self)@ == (if enabled {
                PpuView {
                    cgb_mode: true,
                    bg_palette_data: default_cgb_palettes(),
                    obj_palette_data: default_cgb_palettes(),
                    ..old(self)@
                }
            } else {
                PpuView { cgb_mode: false, ..old(self)@ }
            }),
    {
        self.cgb_mode = enabled;
        if enabled {
            self.init_default_cgb_palettes();
        }
    }

    fn init_default_cgb_palettes(&mut self)
        ensures
            final(self)@ == (PpuView {
                bg_palette_data: default_cgb_palettes(),
                obj_palette_data: default_cgb_palettes(),
                ..old(self)@
            }),
    {
        let mut bg = self.bg_palette_data;
        let mut obj = self.obj_palette_data;
        let mut i: usize = 0;
        while i < 64
            invariant
                i <= 64,
                bg@.len() == 64,
                obj@.len() == 64,
                forall|j: int| 0 <= j < i ==> bg@[j] == default_cgb_palette_byte(j),
                forall|j: int| 0 <= j < i ==> obj@[j] == default_cgb_palette_byte(j),
            decreases 64 - i,
        {
            let b = default_palette_byte(i % 8);
            assert(default_cgb_palette_byte((i % 8) as int) == default_cgb_palette_byte(i as int));
            bg[i] = b;
            obj[i] = b;
            i = i + 1;
        }
        assert(bg@ =~= default_cgb_palettes());
        assert(obj@ =~= default_cgb_palettes());
        self.bg_palette_data = bg;
        self.obj_palette_data = obj;
    }

    /// Gives the frame buffers their full size again where they lost it (after a state was
    /// restored without them).
    pub fn reinit_buffers(&mut self)
        ensures
            final(self)@.buffer.len() == FRAME_PIXELS,
            final(self)@.bg_color_indices.len() == FRAME_PIXELS,
            old(self)@.buffer.len() == FRAME_PIXELS ==> final(self)@.buffer == old(self)@.buffer,
            old(self)@.bg_color_indices.len() == FRAME_PIXELS ==> final(self)@.bg_color_indices
                == old(self)@.bg_color_indices,
            old(self)@.buffer.len() != FRAME_PIXELS ==> final(self)@.buffer == Seq::new(
                FRAME_PIXELS as nat,
                |_i: int| 0u32,
            ),
            old(self)@.bg_color_indices.len() != FRAME_PIXELS ==> final(self)@.bg_color_indices
                == Seq::new(FRAME_PIXELS as nat, |_i: int| 0u8),
            final(self)@ == (PpuView {
                buffer: final(self)@.buffer,
                bg_color_indices: final(self)@.bg_color_indices,
                ..old(self)@
            }),
    {
        if self.buffer.len() != FRAME_PIXELS {
            self.buffer = vec![0u32; FRAME_PIXELS];
            assert(self.buffer@ =~= Seq::new(FRAME_PIXELS as nat, |_i: int| 0u32));
        }
        if self.bg_color_indices.len() != FRAME_PIXELS {
            self.bg_color_indices = vec![0u8; FRAME_PIXELS];
            assert(self.bg_color_indices@ =~= Seq::new(FRAME_PIXELS as nat, |_i: int| 0u8));
        }
    }

    pub fn read_register(&self, address: u16) -> (res: u8)
        ensures
            res == self@.read_register_spec(address),
    {
        match address {
            REG_LCDC => self.lcdc,
            REG_STAT => self.stat,
            REG_SCY => self.scy,
            REG_SCX => self.scx,
            REG_LY => self.ly,
            REG_LYC => self.lyc,
            REG_BGP => self.bgp,
            REG_OBP0 => self.obp0,
            REG_OBP1 => self.obp1,
            REG_WY => self.wy,
            REG_WX => self.wx,
            _ => 0xFF,
        }
    }

    pub fn write_register(&mut self, address: u16, value: u8)
        ensures
            final(self)@ == old(self)@.write_register_next(address, value),
    {
        match address {
            REG_STAT => {
                self.stat = (self.stat & 0x87) | (value & 0x78);
            },
            REG_LY => {},
            _ => self.force_write_register(address, value),
        }
    }

    pub fn force_write_register(&mut self, address: u16, value: u8)
        ensures
            final(self)@ == old(self)@.force_write_register_next(address, value),
    {
        match address {
            REG_LCDC => self.lcdc = value,
            REG_STAT => self.stat = value,
            REG_SCY => self.scy = value,
            REG_SCX => self.scx = value,
            REG_LY => self.ly = value,
            REG_LYC => self.lyc = value,
            REG_BGP => self.bgp = value,
            REG_OBP0 => self.obp0 = value,
            REG_OBP1 => self.obp1 = value,
            REG_WY => self.wy = value,
            REG_WX => self.wx = value,
            _ => {},
        }
    }

    /// VBK (0xFF4F): bank number in bit 0, other bits read as 1; 0xFF outside CGB mode.
    pub fn read_vram_bank(&self) -> (res: u8)
        requires
            self@.vram_bank < 2,
        ensures
            res == (if !self.cgb_mode { 0xFFu8 } else if self.vram_bank == 0 { 0xFEu8 } else { 0xFFu8 }),
    {
        if !self.cgb_mode {
            return 0xFF;
        }
        let b = self.vram_bank as u8;
        assert(b < 2 ==> (b | 0xFE) == (if b == 0 { 0xFEu8 } else { 0xFFu8 })) by (bit_vector);
        b | 0xFE
    }

    pub fn write_vram_bank(&mut self, value: u8)
        ensures
            final(self)@ == (if old(self).cgb_mode {
                PpuView { vram_bank: (value % 2) as usize, ..old(self)@ }
            } else {
                old(self)@
            }),
    {
        if !self.cgb_mode {
            return;
        }
        proof {
            crate::bits::lemma_u8_facts(value);
        }
        self.vram_bank = (value & 0x01) as usize;
    }

    /// BCPS (0xFF68): index in bits 0-5, auto-increment in bit 7.
    pub fn read_bg_palette_index(&self) -> (res: u8)
        ensures
            res == (if !self.cgb_mode {
                0xFFu8
            } else {
                self.bg_palette_index | (if self.bg_palette_auto_increment { 0x80u8 } else { 0u8 })
            }),
    {
        if !self.cgb_mode {
            return 0xFF;
        }
        self.bg_palette_index | if self.bg_palette_auto_increment { 0x80 } else { 0x00 }
    }

    pub fn write_bg_palette_index(&mut self, value: u8)
        ensures
            final(self)@ == (if old(self).cgb_mode {
                PpuView {
                    bg_palette_index: value % 64,
                    bg_palette_auto_increment: value >= 0x80,
                    ..old(self)@
                }
            } else {
                old(self)@
            }),
    {
        if !self.cgb_mode {
            return;
        }
        proof {
            crate::bits::lemma_u8_facts(value);
        }
        self.bg_palette_index = value & 0x3F;
        self.bg_palette_auto_increment = (value & 0x80) != 0;
    }

    /// BCPD (0xFF69): the palette byte at the current index.
    pub fn read_bg_palette_data(&self) -> (res: u8)
        requires
            self@.wf(),
        ensures
            res == (if !self.cgb_mode { 0xFFu8 } else { self@.bg_palette_data[self.bg_palette_index as int] }),
    {
        if !self.cgb_mode {
            return 0xFF;
        }
        self.bg_palette_data[self.bg_palette_index as usize]
    }

    pub fn write_bg_palette_data(&mut self, value: u8)
        requires
            old(self)@.wf(),
        ensures
            final(self)@ == (if old(self).cgb_mode {
                PpuView {
                    bg_palette_data: old(self)@.bg_palette_data.update(old(self).bg_palette_index as int, value),
                    bg_palette_index: if old(self).bg_palette_auto_increment {
                        ((old(self).bg_palette_index + 1) % 64) as u8
                    } else {
                        old(self).bg_palette_index
                    },
                    ..old(self)@
                }
            } else {
                old(self)@
            }),
    {
        if !self.cgb_mode {
            return;
        }
        self.bg_palette_data[self.bg_palette_index as usize] = value;
        if self.bg_palette_auto_increment {
            let next = self.bg_palette_index + 1;
            proof {
                crate::bits::lemma_u8_facts(next);
            }
            self.bg_palette_index = next & 0x3F;
        }
    }

    /// OCPS (0xFF6A): index in bits 0-5, auto-increment in bit 7.
    pub fn read_obj_palette_index(&self) -> (res: u8)
        ensures
            res == (if !self.cgb_mode {
                0xFFu8
            } else {
                self.obj_palette_index | (if self.obj_palette_auto_increment { 0x80u8 } else { 0u8 })
            }),
    {
        if !self.cgb_mode {
            return 0xFF;
        }
        self.obj_palette_index | if self.obj_palette_auto_increment { 0x80 } else { 0x00 }
    }

    pub fn write_obj_palette_index(&mut self, value: u8)
        ensures
            final(self)@ == (if old(self).cgb_mode {
                PpuView {
                    obj_palette_index: value % 64,
                    obj_palette_auto_increment: value >= 0x80,
                    ..old(self)@
                }
            } else {
                old(self)@
            }),
    {
        if !self.cgb_mode {
            return;
        }
        proof {
            crate::bits::lemma_u8_facts(value);
        }
        self.obj_palette_index = value & 0x3F;
        self.obj_palette_auto_increment = (value & 0x80) != 0;
    }

    /// OCPD (0xFF6B): the palette byte at the current index.
    pub fn read_obj_palette_data(&self) -> (res: u8)
        requires
            self@.wf(),
        ensures
            res == (if !self.cgb_mode { 0xFFu8 } else { self@.obj_palette_data[self.obj_palette_index as int] }),
    {
        if !self.cgb_mode {
            return 0xFF;
        }
        self.obj_palette_data[self.obj_palette_index as usize]
    }

    pub fn write_obj_palette_data(&mut self, value: u8)
        requires
            old(self)@.wf(),
        ensures
            final(self)@ == (if old(self).cgb_mode {
                PpuView {
                    obj_palette_data: old(self)@.obj_palette_data.update(old(self).obj_palette_index as int, value),
                    obj_palette_index: if old(self).obj_palette_auto_increment {
                        ((old(self).obj_palette_index + 1) % 64) as u8
                    } else {
                        old(self).obj_palette_index
                    },
                    ..old(self)@
                }
            } else {
                old(self)@
            }),
    {
        if !self.cgb_mode {
            return;
        }
        self.obj_palette_data[self.obj_palette_index as usize] = value;
        if self.obj_palette_auto_increment {
            let next = self.obj_palette_index + 1;
            proof {
                crate::bits::lemma_u8_facts(next);
            }
            self.obj_palette_index = next & 0x3F;
        }
    }

    /// CPU read of VRAM (0x8000-0x9FFF) in the selected bank; 0xFF while pixels are drawn.
    pub fn read_vram(&self, address: u16) -> (res: u8)
        requires
            self@.wf(),
            0x8000 <= address <= 0x9FFF,
        ensures
            res == self@.read_vram_spec(address),
    {
        if self.mode == PPUMode::PixelTransfer {
            return 0xFF;
        }
        self.vram[self.vram_bank * VRAM_SIZE + vram_index(address)]
    }

    pub fn write_vram(&mut self, address: u16, value: u8)
        requires
            old(self)@.wf(),
            0x8000 <= address <= 0x9FFF,
        ensures
            final(self)@ == old(self)@.write_vram_next(address, value),
    {
        self.vram[self.vram_bank * VRAM_SIZE + vram_index(address)] = value;
        assert(self.vram@ =~= old(self)@.vram.update(vram_offset(old(self).vram_bank as int, address), value));
    }

    /// OAM is free for the CPU outside OAM search and pixel transfer.
    pub fn can_use_oam(&self) -> (res: bool)
        ensures
            res == (self.mode != PPUMode::PixelTransfer && self.mode != PPUMode::OAMSearch),
    {
        self.mode != PPUMode::PixelTransfer && self.mode != PPUMode::OAMSearch
    }

    pub fn read_oam(&self, address: u16) -> (res: u8)
        requires
            0xFE00 <= address <= 0xFE9F,
        ensures
            res == self@.oam[address - 0xFE00],
    {
        self.oam[(address - 0xFE00) as usize]
    }

    pub fn write_oam(&mut self, address: u16, value: u8)
        requires
            0xFE00 <= address <= 0xFE9F,
        ensures
            final(self)@ == old(self)@.write_oam_next(address, value),
    {
        self.oam[(address - 0xFE00) as usize] = value;
        assert(self.oam@ =~= old(self)@.oam.update(address - 0xFE00, value));
    }

    pub fn is_lcd_enabled(&self) -> (res: bool)
        ensures
            res == ((self.lcdc & BIT_7) != 0),
    {
        (self.lcdc & BIT_7) != 0
    }

    pub fn is_vblank(&self) -> (res: bool)
        ensures
            res == (self.mode == PPUMode::VBlank),
    {
        self.mode == PPUMode::VBlank
    }

    pub fn check_lyc(&mut self)
        ensures
            final(self)@ == old(self)@.check_lyc_next(),
    {
        let ly_eq_lyc = self.ly == self.lyc;
        self.stat = if ly_eq_lyc { self.stat | BIT_2 } else { self.stat & !BIT_2 };
    }

    /// Requests the LCD STAT interrupt while its line is up.
    pub fn check_stat_interrupts(&self, interrupt_flag: &mut u8)
        ensures
            *final(interrupt_flag) == (if self@.stat_interrupt_line() {
                *old(interrupt_flag) | INT_LCD_STAT
            } else {
                *old(interrupt_flag)
            }),
    {
        if (self.mode == PPUMode::HBlank && (self.stat & BIT_3) != 0) || (self.mode == PPUMode::VBlank && (
        self.stat & BIT_4) != 0) || (self.mode == PPUMode::OAMSearch && (self.stat & BIT_5) != 0) || ((self.stat
            & BIT_6) != 0 && (self.stat & BIT_2) != 0) {
            *interrupt_flag = *interrupt_flag | INT_LCD_STAT;
        }
    }
}

/// Whether sprite `a` is drawn over sprite `b` when both cover a pixel.
fn sprite_goes_before(a: &RenderSprite, b: &RenderSprite) -> (res: bool)
    ensures
        res == sprite_before(*a, *b),
{
    a.screen_x < b.screen_x || (a.screen_x == b.screen_x && a.oam_index < b.oam_index)
}

/// Placing `x` at the first position where it goes before the next sprite is what
/// [`insert_sorted`] does.
proof fn lemma_insert_sorted_at(s: Seq<RenderSprite>, x: RenderSprite, pos: int)
    requires
        0 <= pos <= s.len(),
        forall|j: int| 0 <= j < pos ==> !sprite_before(x, #[trigger] s[j]),
        pos == s.len() || sprite_before(x, s[pos]),
    ensures
        insert_sorted(s, x) == s.insert(pos, x),
    decreases s.len(),
{
    if s.len() == 0 {
        assert(s.insert(pos, x) =~= seq![x]);
    } else if sprite_before(x, s[0]) {
        assert(pos == 0);
        assert(s.insert(pos, x) =~= seq![x] + s);
    } else {
        let t = s.drop_first();
        assert forall|j: int| 0 <= j < pos - 1 implies !sprite_before(x, #[trigger] t[j]) by {
            assert(t[j] == s[j + 1]);
        }
        lemma_insert_sorted_at(t, x, pos - 1);
        assert(s.insert(pos, x) =~= seq![s[0]] + t.insert(pos - 1, x));
    }
}

impl PPU {
    fn get_dmg_color(&self, obp: u8, color_index: u8) -> (res: u32)
        requires
            color_index < 4,
        ensures
            res == dmg_color(obp, color_index),
    {
        let color = (obp >> (color_index * 2)) & 0b11;
        match color {
            0 => 0xFF9A9E3F,
            1 => 0xFF496B22,
            2 => 0xFF0E450B,
            _ => 0xFF1B2A09,
        }
    }

    fn get_cgb_color(&self, palette_num: u8, color_index: u8, is_obj: bool) -> (res: u32)
        requires
            self@.wf(),
            palette_num < 8,
            color_index < 4,
        ensures
            res == cgb_color(if is_obj { self@.obj_palette_data } else { self@.bg_palette_data }, palette_num, color_index),
    {
        let base_index = (palette_num * 8 + color_index * 2) as usize;
        let (low, high) = if is_obj {
            (self.obj_palette_data[base_index] as u16, self.obj_palette_data[base_index + 1] as u16)
        } else {
            (self.bg_palette_data[base_index] as u16, self.bg_palette_data[base_index + 1] as u16)
        };
        let rgb555 = (high << 8) | low;
        let r5 = (rgb555 & 0x1F) as u8;
        let g5 = ((rgb555 >> 5) & 0x1F) as u8;
        let b5 = ((rgb555 >> 10) & 0x1F) as u8;
        let r = (r5 << 3) | (r5 >> 2);
        let g = (g5 << 3) | (g5 >> 2);
        let b = (b5 << 3) | (b5 >> 2);
        0xFF000000 | ((r as u32) << 16) | ((g as u32) << 8) | (b as u32)
    }

    /// Color and color index of the pixel at (`x_coord`, `y_coord`) of the tile map at `map_base`.
    fn tile_pixel(&self, map_base: u16, x_coord: usize, y_coord: usize, unsigned_area: bool) -> (res: (u32, u8))
        requires
            self@.wf(),
            map_base == 0x9800 || map_base == 0x9C00,
            x_coord < 0x1000,
            y_coord < 0x100,
            unsigned_area == lcdc_data_of(self.lcdc).bg_window_tile_data,
        ensures
            res == self@.tile_pixel(map_base, x_coord as int, y_coord as int),
            res.1 < 4,
    {
        let tile_map_x = (x_coord / 8) % 32;
        let tile_map_y = (y_coord / 8) % 32;
        let tile_x = x_coord % 8;
        let tile_y = y_coord % 8;
        let tile_map_index = tile_map_y * 32 + tile_map_x;
        let tile_id_addr = map_base + tile_map_index as u16;
        let tile_id = self.vram[vram_index(tile_id_addr)];
        let (palette_num, bank, x_flip, y_flip) = if self.cgb_mode {
            let attr = self.vram[VRAM_SIZE + vram_index(tile_id_addr)];
            proof {
                crate::bits::lemma_u8_and_le(attr, 0x08);
                crate::bits::lemma_u8_and_le(attr, 0x07);
                crate::bits::lemma_u8_facts(attr & 0x08);
            }
            (attr & 0x07, ((attr & 0x08) >> 3) as usize, (attr & 0x20) != 0, (attr & 0x40) != 0)
        } else {
            (0u8, self.vram_bank, false, false)
        };
        let flipped_tile_y = if y_flip { 7 - tile_y } else { tile_y };
        let tile_addr = get_tile_address(tile_id, unsigned_area);
        let tile_data_addr = tile_addr + (flipped_tile_y as u16) * 2;
        let index = bank * VRAM_SIZE + vram_index(tile_data_addr);
        let byte1 = self.vram[index];
        let byte2 = self.vram[index + 1];
        let flipped_tile_x = if x_flip { 7 - tile_x } else { tile_x };
        let shift = (7 - flipped_tile_x) as u8;
        let bit1 = (byte1 >> shift) & BIT_0;
        let bit2 = (byte2 >> shift) & BIT_0;
        proof {
            crate::bits::lemma_two_bits_lt4(byte1 >> shift, byte2 >> shift);
        }
        let color_index = (bit2 << 1) | bit1;
        let out_color = if self.cgb_mode {
            self.get_cgb_color(palette_num, color_index, false)
        } else {
            self.get_dmg_color(self.bgp, color_index)
        };
        (out_color, color_index)
    }
}

proof fn lemma_draw_sprites_len(v: PpuView, sprites: Seq<RenderSprite>, h: u8, i: int)
    ensures
        v.draw_sprites_from(sprites, h, i).len() == v.buffer.len(),
    decreases sprites.len() - i,
{
    if 0 <= i < sprites.len() {
        lemma_draw_sprites_len(v, sprites, h, i + 1);
    }
}

proof fn lemma_render_sprite_bounds(o: OAMSprite)
    ensures
        crate::emulator::ppu::sprite::render_sprite_of(o).cgb_vram_bank < 2,
        crate::emulator::ppu::sprite::render_sprite_of(o).cgb_palette < 8,
{
    crate::bits::lemma_u8_and_le(o.attributes, 0x08);
    crate::bits::lemma_u8_and_le(o.attributes, 0x07);
    crate::bits::lemma_u8_facts(o.attributes & 0x08);
}

impl PPU {
    /// The sprites drawn on line `ly`: the first ten in OAM order that cross it, sorted by X
    /// and then by OAM index.
    fn get_visible_sprites(&self, ly: u8, sprite_height: u8) -> (res: Vec<RenderSprite>)
        requires
            self@.wf(),
        ensures
            res@ == line_sprites(self@.oam, ly, sprite_height),
            sprites_bounded(res@),
    {
        let mut visible: Vec<RenderSprite> = Vec::new();
        let mut i: usize = 0;
        while i < 40
            invariant
                i <= 40,
                self@.wf(),
                visible@ == visible_sprites_upto(self@.oam, ly, sprite_height, i as int),
                visible.len() <= 10,
                sprites_bounded(visible@),
            decreases 40 - i,
        {
            let oam_sprite = OAMSprite::at_oam(self.oam.as_slice(), i);
            let render_sprite = RenderSprite::from(oam_sprite);
            proof {
                lemma_render_sprite_bounds(oam_sprite);
            }
            if visible.len() < MAX_SPRITES_PER_SCANLINE && render_sprite.is_visible_on_line(ly, sprite_height) {
                visible.push(render_sprite);
            }
            i = i + 1;
        }
        let mut sorted: Vec<RenderSprite> = Vec::new();
        let mut k: usize = 0;
        while k < visible.len()
            invariant
                k <= visible.len(),
                sorted@ == sort_sprites(visible@.take(k as int)),
                sprites_bounded(visible@),
                sprites_bounded(sorted@),
            decreases visible.len() - k,
        {
            let x = visible[k];
            let mut pos: usize = 0;
            while pos < sorted.len() && !sprite_goes_before(&x, &sorted[pos])
                invariant
                    pos <= sorted.len(),
                    forall|j: int| 0 <= j < pos ==> !sprite_before(x, #[trigger] sorted@[j]),
                decreases sorted.len() - pos,
            {
                pos = pos + 1;
            }
            let ghost old_sorted = sorted@;
            proof {
                lemma_insert_sorted_at(sorted@, x, pos as int);
                assert(visible@.take(k + 1).drop_last() =~= visible@.take(k as int));
            }
            sorted.insert(pos, x);
            assert(sprites_bounded(sorted@)) by {
                assert forall|j: int| 0 <= j < sorted@.len() implies (#[trigger] sorted@[j]).cgb_vram_bank < 2
                    && sorted@[j].cgb_palette < 8 by {
                    if j < pos {
                    } else if j > pos {
                        assert(sorted@[j] == old_sorted[j - 1]);
                    }
                }
            }
            k = k + 1;
        }
        assert(visible@.take(visible.len() as int) =~= visible@);
        sorted
    }

    /// Draws the sprites of the current line, lowest priority first.
    fn render_sprites(&mut self)
        requires
            old(self)@.wf(),
            old(self).ly < 144,
        ensures
            final(self)@ == old(self)@.render_sprites_next(),
            final(self)@.wf(),
    {
        let lcdc_data = LcdcData::from(self.lcdc);
        let sprite_height = get_sprite_height(lcdc_data.obj_size);
        let visible_sprites = self.get_visible_sprites(self.ly, sprite_height);
        let ghost v0 = self@;
        let mut k = visible_sprites.len();
        proof {
            lemma_draw_sprites_len(v0, visible_sprites@, sprite_height, k as int);
        }
        while k > 0
            invariant
                k <= visible_sprites.len(),
                v0.wf(),
                v0.ly < 144,
                sprites_bounded(visible_sprites@),
                sprite_height == 8 || sprite_height == 16,
                self@.wf(),
                self@ == (PpuView { buffer: v0.draw_sprites_from(visible_sprites@, sprite_height, k as int), ..v0 }),
            decreases k,
        {
            k = k - 1;
            let sprite = visible_sprites[k];
            let ghost before = self@;
            self.draw_sprite(&sprite, sprite_height);
            assert(before.draw_sprite(before.buffer, sprite, sprite_height) =~= v0.draw_sprite(
                before.buffer,
                sprite,
                sprite_height,
            ));
        }
    }

    /// The background or window pixel at column `x` of the current line; `window_x` is the
    /// column within the window.
    #[verifier::rlimit(40)]
    fn bg_pixel_at(
        &self,
        lcdc_data: LcdcData,
        x: usize,
        window_x: usize,
        bg_map: u16,
        win_map: u16,
        window_enabled: bool,
        window_visible: bool,
        window_start: u8,
    ) -> (res: (u32, u8))
        requires
            self@.wf(),
            self.ly < 144,
            x < WIDTH,
            lcdc_data == lcdc_data_of(self.lcdc),
            bg_map == (if lcdc_data.bg_tile_map { 0x9C00u16 } else { 0x9800u16 }),
            win_map == (if lcdc_data.window_tile_map { 0x9C00u16 } else { 0x9800u16 }),
            window_enabled == lcdc_data.window_enable,
            window_visible == self@.window_visible(),
            window_start == self@.window_start(),
            window_x == (if window_enabled && window_visible && x > window_start { x - window_start } else { 0 }),
        ensures
            res == self@.bg_pixel(x as int),
    {
        let use_window = window_enabled && window_visible && (x as u8) >= window_start;
        let (tile_map_addr, x_coord, y_coord) = if use_window {
            (win_map, window_x, self.window_line as usize)
        } else {
            (bg_map, x + self.scx as usize, self.ly.wrapping_add(self.scy) as usize)
        };
        self.tile_pixel(tile_map_addr, x_coord, y_coord, lcdc_data.bg_window_tile_data)
    }

    /// Draws the background and window pixels of the current line.
    #[verifier::rlimit(60)]
    fn render_background(&mut self, lcdc_data: LcdcData)
        requires
            old(self)@.wf(),
            old(self).ly < 144,
            lcdc_data == lcdc_data_of(old(self).lcdc),
            lcdc_data.bg_enable,
        ensures
            final(self)@ == (PpuView {
                buffer: with_row(old(self)@.buffer, old(self).ly as int, |x: int| old(self)@.bg_pixel(x).0),
                bg_color_indices: with_row(old(self)@.bg_color_indices, old(self).ly as int, |x: int| old(self)@.bg_pixel(x).1),
                ..old(self)@
            }),
    {
        let ghost v0 = self@;
        let row = self.ly as usize * WIDTH;
        let bg_tile_map_addr: u16 = if lcdc_data.bg_tile_map { 0x9C00 } else { 0x9800 };
        let win_tile_map_addr: u16 = if lcdc_data.window_tile_map { 0x9C00 } else { 0x9800 };
        let window_enabled = lcdc_data.window_enable;
        let window_visible = self.ly >= self.wy && self.wx <= 166 && self.wy <= 143;
        let window_start = self.wx.saturating_sub(7);
        let mut window_x_counter: usize = 0;
        let mut x: usize = 0;
        assert(self@.buffer =~= Seq::new(
            v0.buffer.len(),
            |i: int| if row <= i < row + x { v0.bg_pixel(i - row).0 } else { v0.buffer[i] },
        ));
        assert(self@.bg_color_indices =~= Seq::new(
            v0.bg_color_indices.len(),
            |i: int| if row <= i < row + x { v0.bg_pixel(i - row).1 } else { v0.bg_color_indices[i] },
        ));
        while x < WIDTH
            invariant
                x <= WIDTH,
                v0.wf(),
                v0.ly < 144,
                lcdc_data == lcdc_data_of(v0.lcdc),
                lcdc_data.bg_enable,
                row == v0.ly as int * 160,
                bg_tile_map_addr == (if lcdc_data.bg_tile_map { 0x9C00u16 } else { 0x9800u16 }),
                win_tile_map_addr == (if lcdc_data.window_tile_map { 0x9C00u16 } else { 0x9800u16 }),
                window_enabled == lcdc_data.window_enable,
                window_visible == v0.window_visible(),
                window_start == v0.window_start(),
                window_x_counter == (if window_enabled && window_visible && x > window_start {
                    x - window_start
                } else {
                    0
                }),
                self@ == (PpuView {
                    buffer: Seq::new(
                        v0.buffer.len(),
                        |i: int| if row <= i < row + x { v0.bg_pixel(i - row).0 } else { v0.buffer[i] },
                    ),
                    bg_color_indices: Seq::new(
                        v0.bg_color_indices.len(),
                        |i: int| if row <= i < row + x { v0.bg_pixel(i - row).1 } else { v0.bg_color_indices[i] },
                    ),
                    ..v0
                }),
            decreases WIDTH - x,
        {
            let use_window = window_enabled && window_visible && (x as u8) >= window_start;
            let (out_color, color_index) = self.bg_pixel_at(
                lcdc_data,
                x,
                window_x_counter,
                bg_tile_map_addr,
                win_tile_map_addr,
                window_enabled,
                window_visible,
                window_start,
            );
            proof {
                lemma_bg_pixel_frame(self@, v0, x as int);
            }
            if use_window {
                window_x_counter = window_x_counter + 1;
            }
            self.buffer.set(row + x, out_color);
            self.bg_color_indices.set(row + x, color_index);
            x = x + 1;
            assert(self@.buffer =~= Seq::new(
                v0.buffer.len(),
                |i: int| if row <= i < row + x { v0.bg_pixel(i - row).0 } else { v0.buffer[i] },
            ));
            assert(self@.bg_color_indices =~= Seq::new(
                v0.bg_color_indices.len(),
                |i: int| if row <= i < row + x { v0.bg_pixel(i - row).1 } else { v0.bg_color_indices[i] },
            ));
        }
        assert(self@.buffer =~= with_row(v0.buffer, v0.ly as int, |x: int| v0.bg_pixel(x).0));
        assert(self@.bg_color_indices =~= with_row(v0.bg_color_indices, v0.ly as int, |x: int| v0.bg_pixel(x).1));
    }

    /// Draws the current line: background and window, then sprites.
    fn render_scanline(&mut self)
        requires
            old(self)@.wf(),
            old(self).ly < 144,
        ensures
            final(self)@ == old(self)@.render_scanline_next(),
            final(self)@.wf(),
    {
        let ghost v0 = self@;
        let lcdc_data = LcdcData::from(self.lcdc);
        if !lcdc_data.lcd_enable {
            return;
        }
        let row = self.ly as usize * WIDTH;
        if !lcdc_data.bg_enable {
            let color = self.get_dmg_color(self.bgp, 0);
            let mut x: usize = 0;
            assert(self@.buffer =~= Seq::new(
                v0.buffer.len(),
                |i: int| if row <= i < row + x { color } else { v0.buffer[i] },
            ));
            while x < WIDTH
                invariant
                    x <= WIDTH,
                    v0.wf(),
                    v0.ly < 144,
                    row == v0.ly as int * 160,
                    color == dmg_color(v0.bgp, 0),
                    self@ == (PpuView {
                        buffer: Seq::new(
                            v0.buffer.len(),
                            |i: int| if row <= i < row + x { color } else { v0.buffer[i] },
                        ),
                        ..v0
                    }),
                decreases WIDTH - x,
            {
                self.buffer.set(row + x, color);
                x = x + 1;
                assert(self@.buffer =~= Seq::new(
                    v0.buffer.len(),
                    |i: int| if row <= i < row + x { color } else { v0.buffer[i] },
                ));
            }
            assert(self@.buffer =~= with_row(v0.buffer, v0.ly as int, |x: int| dmg_color(v0.bgp, 0)));
            return;
        }
        self.render_background(lcdc_data);
        if lcdc_data.obj_enable {
            self.render_sprites();
        }
    }

    /// Advances the PPU by one dot: beam position, window line, mode, STAT, rendering on
    /// entry to H-Blank, and the V-Blank and STAT interrupt requests.
    pub fn tick(&mut self, interrupt_flag: &mut u8)
        requires
            old(self)@.wf(),
        ensures
            final(self)@.wf(),
            (final(self)@, *final(interrupt_flag)) == old(self)@.tick_next(*old(interrupt_flag)),
    {
        let lcdc_data = LcdcData::from(self.lcdc);
        if !lcdc_data.lcd_enable {
            return;
        }
        let previous_mode = self.mode;
        let previous_line = self.ly;
        self.dot_counter = self.dot_counter + 1;
        let mut ly = previous_line;
        let new_scanline = self.dot_counter == 456;
        if new_scanline {
            self.dot_counter = 0;
            ly = ly + 1;
            if ly == 154 {
                ly = 0;
            }
            self.ly = ly;
        }
        if ly == 0 {
            self.window_line = 0;
        }
        if new_scanline && ly < 144 {
            let window_enabled = lcdc_data.window_enable;
            let window_visible = ly >= self.wy && self.wx <= 166 && self.wy <= 143;
            if window_enabled && window_visible {
                if ly > self.wy {
                    self.window_line = self.window_line.wrapping_add(1);
                }
            }
        }
        let new_mode = if ly >= 144 {
            if previous_line == 143 && ly == 144 {
                *interrupt_flag = *interrupt_flag | INT_VBLANK;
            }
            PPUMode::VBlank
        } else if self.dot_counter < 80 {
            PPUMode::OAMSearch
        } else if self.dot_counter < 252 {
            PPUMode::PixelTransfer
        } else {
            if previous_mode != PPUMode::HBlank {
                self.render_scanline();
            }
            PPUMode::HBlank
        };
        self.mode = new_mode;
        let ly_eq_lyc_flag = if ly == self.lyc { BIT_2 } else { 0 };
        self.stat = (self.stat & 0xF8) | mode_bits(new_mode) | ly_eq_lyc_flag;
        if self.mode != previous_mode {
            self.check_stat_interrupts(interrupt_flag);
        }
    }

    /// Draws one sprite on the current line.
    fn draw_sprite(&mut self, sprite: &RenderSprite, sprite_height: u8)
        requires
            old(self)@.wf(),
            old(self).ly < 144,
            sprite_height == 8 || sprite_height == 16,
            sprite.cgb_vram_bank < 2,
            sprite.cgb_palette < 8,
        ensures
            final(self)@ == (PpuView {
                buffer: old(self)@.draw_sprite(old(self)@.buffer, *sprite, sprite_height),
                ..old(self)@
            }),
    {
        let ghost v0 = self@;
        let line_in_sprite = sprite.get_line_in_sprite(self.ly, sprite_height);
        let (tile_num, line_offset) = if sprite_height == 16 {
            let top_half = line_in_sprite < 8;
            proof {
                crate::bits::lemma_u8_and_le(sprite.tile_index, 0xFE);
            }
            let tile_num = (sprite.tile_index & 0xFE) + if top_half { 0 } else { 1 };
            let line_in_tile = if top_half { line_in_sprite } else { line_in_sprite - 8 };
            (tile_num, line_in_tile)
        } else {
            (sprite.tile_index, line_in_sprite)
        };
        let sprite_vram_bank = if self.cgb_mode { sprite.cgb_vram_bank as usize } else { self.vram_bank };
        let tile_addr = get_sprite_tile_address(tile_num) + (line_offset as u16) * 2;
        let index = sprite_vram_bank * VRAM_SIZE + vram_index(tile_addr);
        let byte1 = self.vram[index];
        let byte2 = self.vram[index + 1];
        assert((byte1, byte2) == v0.sprite_row(*sprite, sprite_height));
        let row = self.ly as usize * WIDTH;
        let mut px: u8 = 0;
        assert(self@.buffer =~= Seq::new(
            v0.buffer.len(),
            |j: int|
                {
                    let p = j - row - sprite.screen_x;
                    let ci = row_color_index(byte1, byte2, if sprite.x_flip { 7 - p } else { p });
                    if row <= j < row + 160 && 0 <= p < px && ci != 0 && (!sprite.bg_priority
                        || v0.bg_color_indices[j] == 0) {
                        v0.sprite_color(*sprite, ci)
                    } else {
                        v0.buffer[j]
                    }
                },
        ));
        while px < 8
            invariant
                px <= 8,
                v0.wf(),
                v0.ly < 144,
                row == v0.ly as int * 160,
                (byte1, byte2) == v0.sprite_row(*sprite, sprite_height),
                sprite.cgb_palette < 8,
                self@ == (PpuView {
                    buffer: Seq::new(
                        v0.buffer.len(),
                        |j: int|
                            {
                                let p = j - row - sprite.screen_x;
                                let ci = row_color_index(byte1, byte2, if sprite.x_flip { 7 - p } else { p });
                                if row <= j < row + 160 && 0 <= p < px && ci != 0 && (!sprite.bg_priority
                                    || v0.bg_color_indices[j] == 0) {
                                    v0.sprite_color(*sprite, ci)
                                } else {
                                    v0.buffer[j]
                                }
                            },
                    ),
                    ..v0
                }),
            decreases 8 - px,
        {
            let bit: u8 = if sprite.x_flip { px } else { 7 - px };
            let bit1 = (byte1 >> bit) & BIT_0;
            let bit2 = (byte2 >> bit) & BIT_0;
            proof {
                crate::bits::lemma_two_bits_lt4(byte1 >> bit, byte2 >> bit);
            }
            let color_index = (bit2 << 1) | bit1;
            let pixel_x = sprite.screen_x as i32 + px as i32;
            if color_index != 0 && 0 <= pixel_x && pixel_x < WIDTH as i32 {
                let buffer_index = row + pixel_x as usize;
                let out_color = if self.cgb_mode {
                    self.get_cgb_color(sprite.cgb_palette, color_index, true)
                } else {
                    let obp = if sprite.palette_index { self.obp1 } else { self.obp0 };
                    self.get_dmg_color(obp, color_index)
                };
                if !sprite.bg_priority || self.bg_color_indices[buffer_index] == 0 {
                    self.buffer.set(buffer_index, out_color);
                }
            }
            let ghost prev = self@.buffer;
            px = px + 1;
            assert(self@.buffer =~= Seq::new(
                v0.buffer.len(),
                |j: int|
                    {
                        let p = j - row - sprite.screen_x;
                        let ci = row_color_index(byte1, byte2, if sprite.x_flip { 7 - p } else { p });
                        if row <= j < row + 160 && 0 <= p < px && ci != 0 && (!sprite.bg_priority
                            || v0.bg_color_indices[j] == 0) {
                            v0.sprite_color(*sprite, ci)
                        } else {
                            v0.buffer[j]
                        }
                    },
            ));
        }
        assert(self@.buffer =~= v0.draw_sprite(v0.buffer, *sprite, sprite_height));
    }
}

/// Address of tile `tile_id` in the unsigned (0x8000) or signed (0x9000) data area.
pub fn get_tile_address(tile_id: u8, bg_window_tile_data: bool) -> (res: u16)
    ensures
        res == tile_address(tile_id, bg_window_tile_data),
        0x8000 <= res <= 0x97F0,
{
    if bg_window_tile_data {
        0x8000 + (tile_id as u16) * 16
    } else if tile_id < 128 {
        0x9000 + (tile_id as u16) * 16
    } else {
        0x9000 - (256 - tile_id as u16) * 16
    }
}

/// Sprite height for the LCDC object-size flag.
pub fn get_sprite_height(lcdc_obj_size: bool) -> (res: u8)
    ensures
        res == sprite_height_for(lcdc_obj_size),
{
    if lcdc_obj_size { 16 } else { 8 }
}

/// Address of the data of sprite tile `tile_num`.
pub fn get_sprite_tile_address(tile_num: u8) -> (res: u16)
    ensures
        res == 0x8000 + tile_num * 16,
{
    0x8000 + (tile_num as u16) * 16
}

/// Whether a pixel lies outside the 160x144 screen.
pub fn is_pixel_out_of_bounds(x: i16, y: i16) -> (res: bool)
    ensures
        res == (x < 0 || x >= 160 || y < 0 || y >= 144),
{
    x < 0 || x >= WIDTH as i16 || y < 0 || y >= HEIGHT as i16
}

/// Index within a VRAM bank of `addr` (0x8000-0x9FFF).
pub fn vram_index(addr: u16) -> (res: usize)
    requires
        0x8000 <= addr <= 0x9FFF,
    ensures
        res == addr - 0x8000,
{
    (addr - 0x8000) as usize
}


/// The DMG palette registers: color index `i` takes the shade numbered by bits 2i+1..2i of
/// the palette (lightest 0 to darkest 3), so index 0 reads bits 1-0 and index 3 bits 7-6.
pub proof fn lemma_dmg_palette_bits(palette: u8, i: u8)
    requires
        i < 4,
    ensures
        ({
            let shade: int = if i == 0 {
                (palette % 4) as int
            } else if i == 1 {
                ((palette / 4) % 4) as int
            } else if i == 2 {
                ((palette / 16) % 4) as int
            } else {
                (palette / 64) as int
            };
            dmg_color(palette, i) == (if shade == 0 {
                0xFF9A9E3Fu32
            } else if shade == 1 {
                0xFF496B22u32
            } else if shade == 2 {
                0xFF0E450Bu32
            } else {
                0xFF1B2A09u32
            })
        }),
{
    crate::bits::lemma_u8_facts(palette);
    crate::bits::lemma_u8_facts(palette >> 2u8);
    crate::bits::lemma_u8_facts(palette >> 4u8);
    crate::bits::lemma_u8_facts(palette >> 6u8);
}

/// Tile rows: the color index of column `px` (0 leftmost) takes its low bit from bit
/// 7 - px of the row's first byte and its high bit from the same bit of the second byte.
pub proof fn lemma_row_color_bits(byte1: u8, byte2: u8, px: int)
    requires
        0 <= px < 8,
    ensures
        row_color_index(byte1, byte2, px) as int
            == 2 * ((byte2 as nat / pow2((7 - px) as nat)) % 2) + (byte1 as nat / pow2((7 - px) as nat)) % 2,
{
    lemma2_to64();
    let k = (7 - px) as u8;
    crate::bits::lemma_u8_facts(byte1);
    crate::bits::lemma_u8_facts(byte2);
    let s1 = byte1 >> k;
    let s2 = byte2 >> k;
    assert(s1 as nat == byte1 as nat / pow2(k as nat) && s2 as nat == byte2 as nat / pow2(k as nat)) by {
        if k == 0 {
            assert(k as nat == 0 && pow2(0) == 1);
            assert(s1 == byte1 >> 0u8 && s2 == byte2 >> 0u8);
            assert(byte1 >> 0u8 == byte1 / 1 && byte2 >> 0u8 == byte2 / 1);
            assert(s1 as nat == byte1 as nat / pow2(k as nat));
            assert(s2 as nat == byte2 as nat / pow2(k as nat));
        } else if k == 1 {
            assert(k as nat == 1 && pow2(1) == 2);
            assert(s1 == byte1 >> 1u8 && s2 == byte2 >> 1u8);
            assert(byte1 >> 1u8 == byte1 / 2 && byte2 >> 1u8 == byte2 / 2);
            assert(s1 as nat == byte1 as nat / pow2(k as nat));
            assert(s2 as nat == byte2 as nat / pow2(k as nat));
        } else if k == 2 {
            assert(k as nat == 2 && pow2(2) == 4);
            assert(s1 == byte1 >> 2u8 && s2 == byte2 >> 2u8);
            assert(byte1 >> 2u8 == byte1 / 4 && byte2 >> 2u8 == byte2 / 4);
            assert(s1 as nat == byte1 as nat / pow2(k as nat));
            assert(s2 as nat == byte2 as nat / pow2(k as nat));
        } else if k == 3 {
            assert(k as nat == 3 && pow2(3) == 8);
            assert(s1 == byte1 >> 3u8 && s2 == byte2 >> 3u8);
            assert(byte1 >> 3u8 == byte1 / 8 && byte2 >> 3u8 == byte2 / 8);
            assert(s1 as nat == byte1 as nat / pow2(k as nat));
            assert(s2 as nat == byte2 as nat / pow2(k as nat));
        } else if k == 4 {
            assert(k as nat == 4 && pow2(4) == 16);
            assert(s1 == byte1 >> 4u8 && s2 == byte2 >> 4u8);
            assert(byte1 >> 4u8 == byte1 / 16 && byte2 >> 4u8 == byte2 / 16);
            assert(s1 as nat == byte1 as nat / pow2(k as nat));
            assert(s2 as nat == byte2 as nat / pow2(k as nat));
        } else if k == 5 {
            assert(k as nat == 5 && pow2(5) == 32);
            assert(s1 == byte1 >> 5u8 && s2 == byte2 >> 5u8);
            assert(byte1 >> 5u8 == byte1 / 32 && byte2 >> 5u8 == byte2 / 32);
            assert(s1 as nat == byte1 as nat / pow2(k as nat));
            assert(s2 as nat == byte2 as nat / pow2(k as nat));
        } else if k == 6 {
            assert(k as nat == 6 && pow2(6) == 64);
            assert(s1 == byte1 >> 6u8 && s2 == byte2 >> 6u8);
            assert(byte1 >> 6u8 == byte1 / 64 && byte2 >> 6u8 == byte2 / 64);
            assert(s1 as nat == byte1 as nat / pow2(k as nat));
            assert(s2 as nat == byte2 as nat / pow2(k as nat));
        } else {
            assert(k as nat == 7 && pow2(7) == 128);
            assert(s1 == byte1 >> 7u8 && s2 == byte2 >> 7u8);
            assert(byte1 >> 7u8 == byte1 / 128 && byte2 >> 7u8 == byte2 / 128);
            assert(s1 as nat == byte1 as nat / pow2(k as nat));
            assert(s2 as nat == byte2 as nat / pow2(k as nat));
        }
    }
    crate::bits::lemma_u8_facts(s1);
    crate::bits::lemma_u8_facts(s2);
    let lo = s1 & 1u8;
    let hi = s2 & 1u8;
    crate::bits::lemma_u8_rotation_facts(hi);
    let v = (hi << 1u8) | lo;
    assert(v == row_color_index(byte1, byte2, px));
    if lo == 1 {
        assert(v / 2 == hi && v % 2 == 1);
    } else {
        assert(v == hi << 1u8);
        assert(v / 2 == hi && v % 2 == 0);
    }
}

/// The two tile data areas: 0x8000 holds tiles 0-255 by their unsigned number; the area
/// around 0x9000 takes tiles 128-255 at the same addresses and tiles 0-127 0x1000 higher.
pub proof fn lemma_tile_data_areas(tile_id: u8)
    ensures
        tile_address(tile_id, true) == 0x8000 + 16 * tile_id,
        tile_id >= 128 ==> tile_address(tile_id, false) == tile_address(tile_id, true),
        tile_id < 128 ==> tile_address(tile_id, false) == tile_address(tile_id, true) + 0x1000,
{
}

/// Background pixels do not depend on the frame buffers.
proof fn lemma_bg_pixel_frame(p: PpuView, q: PpuView, x: int)
    requires
        p == (PpuView { buffer: p.buffer, bg_color_indices: p.bg_color_indices, ..q }),
    ensures
        p.bg_pixel(x) == q.bg_pixel(x),
{
}

} // verus!
