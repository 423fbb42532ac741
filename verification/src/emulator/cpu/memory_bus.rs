use vstd::prelude::*;
use crate::bits::BIT_7;
use crate::emulator::apu::Apu;
use crate::emulator::cart::{Cart, CartView};
use crate::emulator::joypad::{Joypad, JoypadButton};
use crate::emulator::ppu::{PPU, PPUMode, PpuView, FRAME_PIXELS, default_cgb_palettes};
use crate::emulator::apu::channel::pulse_channel::PulseChannel;
use crate::emulator::timer::divider_bit;
use crate::emulator::serial::Serial;
use crate::emulator::timer::Timer;
use crate::emulator::cpu::memory_bus::dma::Dma;
use crate::emulator::cpu::memory_bus::hdma::Hdma;

pub mod dma;
pub mod hdma;
pub mod io_registers;

verus! {

pub const HRAM_SIZE: usize = 0x7F;
pub const WRAM_SIZE: usize = 0x8000;

/// Interrupt sources, by their bit in IF and IE.
#[derive(Clone, Copy, PartialEq, Eq, Structural, Debug)]
pub enum InterruptBit {
    VBlank,
    LCDStat,
    Timer,
    Joypad,
}

impl InterruptBit {
    pub open spec fn mask_spec(self) -> u8 {
        match self {
            InterruptBit::VBlank => 0x01,
            InterruptBit::LCDStat => 0x02,
            InterruptBit::Timer => 0x04,
            InterruptBit::Joypad => 0x10,
        }
    }

    /// The interrupt's bit in IF and IE.
    pub fn mask(self) -> (res: u8)
        ensures
            res == self.mask_spec(),
    {
        match self {
            InterruptBit::VBlank => 0x01,
            InterruptBit::LCDStat => 0x02,
            InterruptBit::Timer => 0x04,
            InterruptBit::Joypad => 0x10,
        }
    }
}

/// The address space seen by the CPU: cartridge, video, audio, timer, joypad and serial
/// units, work and high RAM, the DMA engines, KEY1 and the interrupt registers.
pub struct MemoryBus {
    pub cart: Cart,
    pub ppu: PPU,
    pub apu: Apu,
    pub timer: Timer,
    pub joypad: Joypad,
    pub serial: Serial,
    pub hram: [u8; 0x7F],
    pub wram: [u8; 0x8000],
    pub wram_bank: usize,
    pub dma: Dma,
    pub hdma: Hdma,
    /// CGB speed switch register.
    pub key1: u8,
    /// IF (0xFF0F).
    pub interrupt_flag: u8,
    /// IE (0xFFFF).
    pub interrupt_enable: u8,
}

/// Mathematical model of a [`MemoryBus`].
pub struct MemoryBusView {
    pub cart: CartView,
    pub ppu: PpuView,
    pub apu: Apu,
    pub timer: Timer,
    pub joypad: Joypad,
    pub serial: Serial,
    pub hram: Seq<u8>,
    pub wram: Seq<u8>,
    pub wram_bank: usize,
    pub dma: Dma,
    pub hdma: Hdma,
    pub key1: u8,
    pub interrupt_flag: u8,
    pub interrupt_enable: u8,
}

impl View for MemoryBus {
    type V = MemoryBusView;

    open spec fn view(&self) -> MemoryBusView {
        MemoryBusView {
            cart: self.cart@,
            ppu: self.ppu@,
            apu: self.apu,
            timer: self.timer,
            joypad: self.joypad,
            serial: self.serial,
            hram: self.hram@,
            wram: self.wram@,
            wram_bank: self.wram_bank,
            dma: self.dma,
            hdma: self.hdma,
            key1: self.key1,
            interrupt_flag: self.interrupt_flag,
            interrupt_enable: self.interrupt_enable,
        }
    }
}

/// The LCD is on (LCDC bit 7).
pub open spec fn lcd_on(lcdc: u8) -> bool {
    (lcdc & BIT_7) != 0
}

/// Copying a block changes nothing but VRAM.
pub proof fn lemma_copy_block_frame(b: MemoryBusView, source: u16, dest: u16, n: int)
    ensures
        b.copy_block_upto(source, dest, n) == (MemoryBusView { ppu: b.copy_block_upto(source, dest, n).ppu, ..b }),
        b.copy_block_upto(source, dest, n).ppu == (PpuView { vram: b.copy_block_upto(source, dest, n).ppu.vram, ..b.ppu }),
    decreases n,
{
    if n > 0 {
        lemma_copy_block_frame(b, source, dest, n - 1);
    }
}

impl MemoryBusView {
    /// Shape of the state: each unit in its own shape, the RAM sizes, a switchable WRAM bank
    /// of 1-7, and blocks left in an active HDMA transfer.
    pub open spec fn wf(self) -> bool {
        &&& self.cart.wf()
        &&& self.cart.mbc.bank_switch_ok()
        &&& self.ppu.wf()
        &&& self.apu.wf()
        &&& self.serial.wf()
        &&& self.dma.wf()
        &&& self.hram.len() == 0x7F
        &&& self.wram.len() == 0x8000
        &&& 1 <= self.wram_bank <= 7
        &&& self.hdma.active ==> self.hdma.remaining_blocks > 0
    }

    /// Index in WRAM of an address of 0xC000-0xFDFF (echo area included).
    pub open spec fn wram_index(self, address: u16) -> int {
        if address <= 0xCFFF {
            address - 0xC000
        } else if address <= 0xDFFF {
            address - 0xD000 + 0x1000 * self.wram_bank
        } else if address <= 0xEFFF {
            address - 0xE000
        } else {
            address - 0xF000 + 0x1000 * self.wram_bank
        }
    }

    /// Value read from an I/O register (0xFF00-0xFF7F).
    pub open spec fn io_read_spec(self, address: u16) -> u8 {
        if address == 0xFF00 {
            self.joypad.read_p1_spec()
        } else if address == 0xFF01 {
            self.serial.sb
        } else if address == 0xFF02 {
            self.serial.sc
        } else if 0xFF04 <= address <= 0xFF07 {
            self.timer.read_spec(address)
        } else if address == 0xFF0F {
            self.interrupt_flag
        } else if 0xFF10 <= address <= 0xFF3F {
            self.apu.read_spec(address)
        } else if 0xFF40 <= address <= 0xFF45 || 0xFF47 <= address <= 0xFF4B {
            self.ppu.read_register_spec(address)
        } else if address == 0xFF46 {
            self.dma.last_value
        } else if address == 0xFF4F {
            if !self.ppu.cgb_mode { 0xFF } else if self.ppu.vram_bank == 0 { 0xFE } else { 0xFF }
        } else if address == 0xFF51 {
            self.hdma.source_high
        } else if address == 0xFF52 {
            self.hdma.source_low
        } else if address == 0xFF53 {
            self.hdma.dest_high
        } else if address == 0xFF54 {
            self.hdma.dest_low
        } else if address == 0xFF55 {
            self.hdma.read_mode_length_spec()
        } else if address == 0xFF4D {
            if self.ppu.cgb_mode { self.key1 | 0x7E } else { 0xFF }
        } else if address == 0xFF68 {
            if !self.ppu.cgb_mode {
                0xFF
            } else {
                self.ppu.bg_palette_index | (if self.ppu.bg_palette_auto_increment { 0x80u8 } else { 0u8 })
            }
        } else if address == 0xFF69 {
            if !self.ppu.cgb_mode { 0xFF } else { self.ppu.bg_palette_data[self.ppu.bg_palette_index as int] }
        } else if address == 0xFF6A {
            if !self.ppu.cgb_mode {
                0xFF
            } else {
                self.ppu.obj_palette_index | (if self.ppu.obj_palette_auto_increment { 0x80u8 } else { 0u8 })
            }
        } else if address == 0xFF6B {
            if !self.ppu.cgb_mode { 0xFF } else { self.ppu.obj_palette_data[self.ppu.obj_palette_index as int] }
        } else if address == 0xFF70 {
            if self.ppu.cgb_mode { self.wram_bank as u8 } else { 0xFF }
        } else {
            0xFF
        }
    }

    /// Value the CPU reads at `address`.
    pub open spec fn read_spec(self, address: u16) -> u8 {
        if address <= 0x7FFF {
            self.cart.read_rom_spec(address)
        } else if address <= 0x9FFF {
            self.ppu.read_vram_spec(address)
        } else if address <= 0xBFFF {
            self.cart.read_ram_spec(address)
        } else if address <= 0xFDFF {
            self.wram[self.wram_index(address)]
        } else if address <= 0xFE9F {
            if lcd_on(self.ppu.lcdc) && self.dma.enabled {
                0xFF
            } else {
                self.ppu.oam[address - 0xFE00]
            }
        } else if address <= 0xFEFF {
            0x00
        } else if address <= 0xFF7F {
            self.io_read_spec(address)
        } else if address <= 0xFFFE {
            self.hram[address - 0xFF80]
        } else {
            self.interrupt_enable
        }
    }

    /// Byte an HDMA block copies from `address`: cartridge ROM or RAM or WRAM banks 0-1 of
    /// the map, 0xFF elsewhere.
    pub open spec fn hdma_source_byte(self, address: u16) -> u8 {
        if address <= 0x7FFF {
            self.cart.read_rom_spec(address)
        } else if 0xA000 <= address <= 0xBFFF {
            self.cart.read_ram_spec(address)
        } else if 0xC000 <= address <= 0xCFFF {
            self.wram[address - 0xC000]
        } else if 0xD000 <= address <= 0xDFFF {
            self.wram[address - 0xD000 + 0x1000 * self.wram_bank]
        } else {
            0xFF
        }
    }

    /// State after the first `n` bytes of the 16-byte block at `source` are copied to VRAM at
    /// `dest`; bytes whose destination falls outside VRAM are dropped.
    pub open spec fn copy_block_upto(self, source: u16, dest: u16, n: int) -> MemoryBusView
        decreases n,
    {
        if n <= 0 {
            self
        } else {
            let b = self.copy_block_upto(source, dest, n - 1);
            let value = self.hdma_source_byte(((source + n - 1) % 0x10000) as u16);
            let d = ((dest + n - 1) % 0x10000) as u16;
            if 0x8000 <= d <= 0x9FFF {
                MemoryBusView { ppu: b.ppu.write_vram_next(d, value), ..b }
            } else {
                b
            }
        }
    }

    /// State after a general-purpose transfer has moved all its blocks.
    pub open spec fn gdma_next(self) -> MemoryBusView
        decreases self.hdma.remaining_blocks,
    {
        if !self.hdma.active || self.hdma.remaining_blocks == 0 {
            self
        } else {
            let (h, r) = self.hdma.transfer_block_next();
            let b = MemoryBusView { hdma: h, ..self };
            match r {
                Some((source, dest)) => {
                    proof {
                        lemma_copy_block_frame(b, source, dest, 16);
                    }
                    b.copy_block_upto(source, dest, 16).gdma_next()
                },
                None => b,
            }
        }
    }

    /// State after one H-Blank block of an active H-Blank transfer.
    pub open spec fn hdma_hblank_next(self) -> MemoryBusView {
        if !self.hdma.active || !self.hdma.h_blank_mode() {
            self
        } else {
            let (h, r) = self.hdma.transfer_block_next();
            let b = MemoryBusView { hdma: h, ..self };
            match r {
                Some((source, dest)) => b.copy_block_upto(source, dest, 16),
                None => b,
            }
        }
    }

    /// State after a write to an I/O register.
    pub open spec fn io_write_next(self, address: u16, value: u8) -> MemoryBusView {
        if address == 0xFF00 {
            MemoryBusView { joypad: Joypad { select: (value & 0x30) | 0xCF, ..self.joypad }, ..self }
        } else if address == 0xFF01 {
            MemoryBusView { serial: Serial { sb: value, ..self.serial }, ..self }
        } else if address == 0xFF02 {
            MemoryBusView { serial: self.serial.write_sc_next(value), ..self }
        } else if 0xFF04 <= address <= 0xFF07 {
            let (t, f) = self.timer.write_next(address, value, self.interrupt_flag);
            MemoryBusView { timer: t, interrupt_flag: f, ..self }
        } else if address == 0xFF0F {
            MemoryBusView { interrupt_flag: value & 0x1F, ..self }
        } else if 0xFF10 <= address <= 0xFF3F {
            MemoryBusView { apu: self.apu.write_next(address, value), ..self }
        } else if address == 0xFF40 {
            let was_on = lcd_on(self.ppu.lcdc);
            let is_on = lcd_on(value);
            let p = self.ppu.write_register_next(address, value);
            if was_on && !is_on {
                MemoryBusView { ppu: PpuView { mode: PPUMode::HBlank, dot_counter: 0, ly: 0, ..p }, ..self }
            } else if !was_on && is_on {
                let p2 = PpuView { mode: PPUMode::OAMSearch, dot_counter: 0, ly: 0, ..p }.check_lyc_next();
                MemoryBusView {
                    ppu: p2,
                    interrupt_flag: if p2.stat_interrupt_line() { self.interrupt_flag | 0x02 } else { self.interrupt_flag },
                    ..self
                }
            } else {
                MemoryBusView { ppu: p, ..self }
            }
        } else if address == 0xFF41 {
            let f = if (self.ppu.mode == PPUMode::VBlank || self.ppu.mode == PPUMode::HBlank) && lcd_on(
                self.ppu.lcdc,
            ) {
                self.interrupt_flag | 0x02
            } else {
                self.interrupt_flag
            };
            MemoryBusView { ppu: self.ppu.write_register_next(address, value), interrupt_flag: f, ..self }
        } else if 0xFF42 <= address <= 0xFF44 || 0xFF47 <= address <= 0xFF4B {
            MemoryBusView { ppu: self.ppu.write_register_next(address, value), ..self }
        } else if address == 0xFF45 {
            let p = self.ppu.write_register_next(address, value);
            if lcd_on(p.lcdc) {
                let p2 = p.check_lyc_next();
                MemoryBusView {
                    ppu: p2,
                    interrupt_flag: if p2.stat_interrupt_line() { self.interrupt_flag | 0x02 } else { self.interrupt_flag },
                    ..self
                }
            } else {
                MemoryBusView { ppu: p, ..self }
            }
        } else if address == 0xFF46 {
            MemoryBusView { dma: self.dma.start_next(value), ..self }
        } else if address == 0xFF4D {
            if self.ppu.cgb_mode {
                MemoryBusView { key1: (self.key1 & 0x80) | (value & 0x01), ..self }
            } else {
                self
            }
        } else if address == 0xFF4F {
            if self.ppu.cgb_mode {
                MemoryBusView { ppu: PpuView { vram_bank: (value % 2) as usize, ..self.ppu }, ..self }
            } else {
                self
            }
        } else if address == 0xFF51 {
            MemoryBusView { hdma: Hdma { source_high: value, ..self.hdma }, ..self }
        } else if address == 0xFF52 {
            MemoryBusView { hdma: Hdma { source_low: value & 0xF0, ..self.hdma }, ..self }
        } else if address == 0xFF53 {
            MemoryBusView { hdma: Hdma { dest_high: value & 0x1F, ..self.hdma }, ..self }
        } else if address == 0xFF54 {
            MemoryBusView { hdma: Hdma { dest_low: value & 0xF0, ..self.hdma }, ..self }
        } else if address == 0xFF55 {
            let b = MemoryBusView { hdma: self.hdma.write_mode_length_next(value), ..self };
            if !b.hdma.h_blank_mode() {
                b.gdma_next()
            } else {
                b
            }
        } else if address == 0xFF68 {
            if self.ppu.cgb_mode {
                MemoryBusView {
                    ppu: PpuView {
                        bg_palette_index: value % 64,
                        bg_palette_auto_increment: value >= 0x80,
                        ..self.ppu
                    },
                    ..self
                }
            } else {
                self
            }
        } else if address == 0xFF69 {
            if self.ppu.cgb_mode {
                MemoryBusView {
                    ppu: PpuView {
                        bg_palette_data: self.ppu.bg_palette_data.update(self.ppu.bg_palette_index as int, value),
                        bg_palette_index: if self.ppu.bg_palette_auto_increment {
                            ((self.ppu.bg_palette_index + 1) % 64) as u8
                        } else {
                            self.ppu.bg_palette_index
                        },
                        ..self.ppu
                    },
                    ..self
                }
            } else {
                self
            }
        } else if address == 0xFF6A {
            if self.ppu.cgb_mode {
                MemoryBusView {
                    ppu: PpuView {
                        obj_palette_index: value % 64,
                        obj_palette_auto_increment: value >= 0x80,
                        ..self.ppu
                    },
                    ..self
                }
            } else {
                self
            }
        } else if address == 0xFF6B {
            if self.ppu.cgb_mode {
                MemoryBusView {
                    ppu: PpuView {
                        obj_palette_data: self.ppu.obj_palette_data.update(self.ppu.obj_palette_index as int, value),
                        obj_palette_index: if self.ppu.obj_palette_auto_increment {
                            ((self.ppu.obj_palette_index + 1) % 64) as u8
                        } else {
                            self.ppu.obj_palette_index
                        },
                        ..self.ppu
                    },
                    ..self
                }
            } else {
                self
            }
        } else if address == 0xFF70 {
            if self.ppu.cgb_mode {
                MemoryBusView { wram_bank: if value % 8 == 0 { 1 } else { (value % 8) as usize }, ..self }
            } else {
                self
            }
        } else {
            self
        }
    }

    /// State after the CPU writes `value` at `address`, the wall clock reading `now` (used
    /// by a cartridge clock).
    pub open spec fn write_next(self, address: u16, value: u8, now: u64) -> MemoryBusView {
        if address <= 0x7FFF {
            MemoryBusView { cart: self.cart.write_rom_next(address, value, now), ..self }
        } else if address <= 0x9FFF {
            MemoryBusView { ppu: self.ppu.write_vram_next(address, value), ..self }
        } else if address <= 0xBFFF {
            MemoryBusView { cart: self.cart.write_ram_next(address, value, now), ..self }
        } else if address <= 0xFDFF {
            MemoryBusView { wram: self.wram.update(self.wram_index(address), value), ..self }
        } else if address <= 0xFE9F {
            if !lcd_on(self.ppu.lcdc) || (self.ppu.mode != PPUMode::PixelTransfer && self.ppu.mode
                != PPUMode::OAMSearch && !self.dma.enabled) {
                MemoryBusView { ppu: self.ppu.write_oam_next(address, value), ..self }
            } else {
                self
            }
        } else if address <= 0xFEFF {
            self
        } else if address <= 0xFF7F {
            self.io_write_next(address, value)
        } else if address <= 0xFFFE {
            MemoryBusView { hram: self.hram.update(address - 0xFF80, value), ..self }
        } else {
            MemoryBusView { interrupt_enable: value & 0x1F, ..self }
        }
    }

    /// State after one T-cycle of OAM DMA: the due byte is read through the bus and stored
    /// in OAM.
    pub open spec fn dma_tick_next(self) -> MemoryBusView {
        let (d, r) = self.dma.tick_next();
        let b = MemoryBusView { dma: d, ..self };
        match r {
            Some((source, dest)) => MemoryBusView { ppu: b.ppu.write_oam_next(dest, b.read_spec(source)), ..b },
            None => b,
        }
    }

    /// State after one T-cycle: OAM DMA, timer, PPU and APU step, and an H-Blank DMA block
    /// moves on entry to H-Blank.
    pub open spec fn tick_next(self) -> MemoryBusView {
        let previous_mode = self.ppu.mode;
        let b1 = self.dma_tick_next();
        let (t, f1) = b1.timer.tick_next(b1.interrupt_flag);
        let (p, f2) = b1.ppu.tick_next(f1);
        let b2 = MemoryBusView { timer: t, ppu: p, apu: b1.apu.tick_next(), interrupt_flag: f2, ..b1 };
        if previous_mode != PPUMode::HBlank && b2.ppu.mode == PPUMode::HBlank {
            b2.hdma_hblank_next()
        } else {
            b2
        }
    }
}

impl MemoryBus {
    pub fn new(cart: Cart) -> (res: Self)
        requires
            cart@.wf(),
            cart@.mbc.bank_switch_ok(),
        ensures
            res@.wf(),
            res@.cart == cart@,
            res.wram_bank == 1,
            res.key1 == 0,
            res.interrupt_flag == 0,
            res.interrupt_enable == 0,
            res@.hram == Seq::new(0x7F, |_i: int| 0u8),
            res@.wram == Seq::new(0x8000, |_i: int| 0u8),
            res.ppu.cgb_mode == cart@.is_cgb_spec(),
            res.ppu@.buffer == Seq::new(FRAME_PIXELS as nat, |_i: int| 0u32),
            res.ppu@.bg_color_indices == Seq::new(FRAME_PIXELS as nat, |_i: int| 0u8),
            res.ppu@.vram == Seq::new(0x4000, |_i: int| 0u8),
            res.ppu@.oam == Seq::new(160, |_i: int| 0u8),
            res.ppu.mode == PPUMode::OAMSearch,
            res.ppu.dot_counter == 0,
            res.ppu.window_line == 0,
            res.ppu.vram_bank == 0,
            res.ppu.bg_palette_index == 0,
            !res.ppu.bg_palette_auto_increment,
            res.ppu.obj_palette_index == 0,
            !res.ppu.obj_palette_auto_increment,
            res.ppu.lcdc == 0x91,
            res.ppu.stat == 0,
            res.ppu.scy == 0,
            res.ppu.scx == 0,
            res.ppu.ly == 0,
            res.ppu.lyc == 0,
            res.ppu.bgp == 0xFC,
            res.ppu.obp0 == 0xFF,
            res.ppu.obp1 == 0xFF,
            res.ppu.wy == 0,
            res.ppu.wx == 0,
            !res.apu.enabled,
            res.apu.frame_sequencer_step == 0,
            res.apu.frame_sequencer_counter == 0,
            res.apu.master_volume == 0,
            res.apu.sound_panning == 0,
            res.apu.channel_1 == PulseChannel::initial(Some(crate::emulator::apu::sweep::Sweep::new_spec())),
            res.apu.channel_2 == PulseChannel::initial(None),
            res.apu.wf(),
            res.timer.div == 0 && res.timer.tima == 0 && res.timer.tma == 0 && res.timer.tac == 0,
            !res.timer.timer_enabled && !res.timer.last_bit && !res.timer.overflow,
            res.timer.current_bit == divider_bit(0),
            res.timer.ticks_since_overflow == 0,
            res.joypad.button_state == 0xFF,
            res.joypad.select == 0xFF,
            res.serial == (Serial { sb: 0, sc: 0, print_serial: crate::PRINT_SERIAL, transfer_counter: 0, bits_transferred: 0 }),
            res.dma == (Dma { source: 0, copied: 0, enabled: false, delay: 0, last_value: 0xFF, oam_blocked: false }),
            res.hdma == (Hdma {
                source_high: 0xFF,
                source_low: 0xFF,
                dest_high: 0xFF,
                dest_low: 0xFF,
                mode_length: 0xFF,
                active: false,
                remaining_blocks: 0,
            }),
            res.ppu@.bg_palette_data == (if cart@.is_cgb_spec() { default_cgb_palettes() } else { Seq::new(64, |_i: int| 0u8) }),
            res.ppu@.obj_palette_data == (if cart@.is_cgb_spec() { default_cgb_palettes() } else { Seq::new(64, |_i: int| 0u8) }),
    {
        let cgb_mode = cart.is_cgb();
        let mut ppu = PPU::new();
        ppu.set_cgb_mode(cgb_mode);
        MemoryBus {
            cart,
            ppu,
            apu: Apu::new(),
            timer: Timer::new(),
            joypad: Joypad::new(),
            serial: Serial::new(crate::PRINT_SERIAL),
            hram: [0u8; 0x7F],
            wram: [0u8; 0x8000],
            wram_bank: 1,
            dma: Dma::new(),
            hdma: Hdma::new(),
            key1: 0,
            interrupt_flag: 0,
            interrupt_enable: 0,
        }
    }

    /// Index in WRAM of an address of 0xC000-0xFDFF.
    fn wram_index(&self, address: u16) -> (res: usize)
        requires
            self@.wf(),
            0xC000 <= address <= 0xFDFF,
        ensures
            res == self@.wram_index(address),
            res < 0x8000,
    {
        let a = address as usize;
        if address <= 0xCFFF {
            a - 0xC000
        } else if address <= 0xDFFF {
            a - 0xD000 + 0x1000 * self.wram_bank
        } else if address <= 0xEFFF {
            a - 0xE000
        } else {
            a - 0xF000 + 0x1000 * self.wram_bank
        }
    }

    fn read_io(&self, address: u16) -> (res: u8)
        requires
            self@.wf(),
            0xFF00 <= address <= 0xFF7F,
        ensures
            res == self@.io_read_spec(address),
    {
        match address {
            0xFF00 => self.joypad.read_p1(),
            0xFF01 => self.serial.read_sb(),
            0xFF02 => self.serial.read_sc(),
            0xFF04..=0xFF07 => self.timer.read(address),
            0xFF0F => self.interrupt_flag,
            0xFF10..=0xFF3F => self.apu.read(address),
            0xFF40..=0xFF45 => self.ppu.read_register(address),
            0xFF46 => self.dma.read(),
            0xFF47..=0xFF4B => self.ppu.read_register(address),
            0xFF4F => self.ppu.read_vram_bank(),
            0xFF51 => self.hdma.read_source_high(),
            0xFF52 => self.hdma.read_source_low(),
            0xFF53 => self.hdma.read_dest_high(),
            0xFF54 => self.hdma.read_dest_low(),
            0xFF55 => self.hdma.read_mode_length(),
            0xFF4D => {
                if self.ppu.cgb_mode {
                    self.key1 | 0x7E
                } else {
                    0xFF
                }
            },
            0xFF68 => self.ppu.read_bg_palette_index(),
            0xFF69 => self.ppu.read_bg_palette_data(),
            0xFF6A => self.ppu.read_obj_palette_index(),
            0xFF6B => self.ppu.read_obj_palette_data(),
            0xFF70 => {
                if self.ppu.cgb_mode {
                    self.wram_bank as u8
                } else {
                    0xFF
                }
            },
            _ => 0xFF,
        }
    }

    /// Reads the byte at `address`.
    pub fn read_byte(&self, address: u16) -> (res: u8)
        requires
            self@.wf(),
        ensures
            res == self@.read_spec(address),
    {
        match address {
            0x0000..=0x7FFF => self.cart.read_rom(address),
            0x8000..=0x9FFF => self.ppu.read_vram(address),
            0xA000..=0xBFFF => self.cart.read_ram(address),
            0xC000..=0xFDFF => self.wram[self.wram_index(address)],
            0xFE00..=0xFE9F => {
                let lcdc = self.ppu.read_register(0xFF40);
                let lcd_enabled = (lcdc & BIT_7) != 0;
                if !lcd_enabled {
                    self.ppu.read_oam(address)
                } else if self.dma.is_enabled() {
                    0xFF
                } else {
                    self.ppu.read_oam(address)
                }
            },
            0xFEA0..=0xFEFF => 0x00,
            0xFF00..=0xFF7F => self.read_io(address),
            0xFF80..=0xFFFE => self.hram[(address - 0xFF80) as usize],
            _ => self.interrupt_enable,
        }
    }

    pub fn get_interrupt_flags(&self) -> (res: u8)
        ensures
            res == self.interrupt_flag,
    {
        self.interrupt_flag
    }

    pub fn get_interrupt_enable(&self) -> (res: u8)
        ensures
            res == self.interrupt_enable,
    {
        self.interrupt_enable
    }

    /// Sets the interrupt's bit in IF.
    pub fn request_interrupt(&mut self, interrupt: InterruptBit)
        ensures
            final(self)@ == (MemoryBusView {
                interrupt_flag: old(self).interrupt_flag | interrupt.mask_spec(),
                ..old(self)@
            }),
    {
        self.interrupt_flag = self.interrupt_flag | interrupt.mask();
    }
}

impl MemoryBus {
    /// Byte an HDMA block copies from `address`.
    fn hdma_source_byte(&self, address: u16) -> (res: u8)
        requires
            self@.wf(),
        ensures
            res == self@.hdma_source_byte(address),
    {
        match address {
            0x0000..=0x7FFF => self.cart.read_rom(address),
            0xA000..=0xBFFF => self.cart.read_ram(address),
            0xC000..=0xCFFF => self.wram[(address - 0xC000) as usize],
            0xD000..=0xDFFF => {
                let addr = (address - 0xD000) as usize;
                self.wram[addr + 0x1000 * self.wram_bank]
            },
            _ => 0xFF,
        }
    }

    /// Copies the 16-byte block at `source` to VRAM at `dest`.
    fn copy_block(&mut self, source: u16, dest: u16)
        requires
            old(self)@.wf(),
        ensures
            final(self)@ == old(self)@.copy_block_upto(source, dest, 16),
            final(self)@.wf(),
    {
        let ghost b0 = self@;
        let mut i: u16 = 0;
        while i < 16
            invariant
                i <= 16,
                b0.wf(),
                self@ == b0.copy_block_upto(source, dest, i as int),
                self@.wf(),
            decreases 16 - i,
        {
            proof {
                lemma_copy_block_frame(b0, source, dest, i as int);
            }
            let a = source.wrapping_add(i);
            let value = self.hdma_source_byte(a);
            let d = dest.wrapping_add(i);
            if 0x8000 <= d && d <= 0x9FFF {
                self.ppu.write_vram(d, value);
            }
            i = i + 1;
        }
    }

    /// Moves every block of a general-purpose transfer at once.
    fn perform_gdma(&mut self)
        requires
            old(self)@.wf(),
        ensures
            final(self)@ == old(self)@.gdma_next(),
            final(self)@.wf(),
    {
        while self.hdma.is_active()
            invariant
                self@.wf(),
                self@.gdma_next() == old(self)@.gdma_next(),
            decreases self.hdma.remaining_blocks,
        {
            let ghost r0 = self.hdma.remaining_blocks;
            let res = self.hdma.transfer_block();
            assert(self.hdma.remaining_blocks == r0 - 1);
            match res {
                Some((source, dest)) => {
                    let ghost mid = self@;
                    self.copy_block(source, dest);
                    proof {
                        lemma_copy_block_frame(mid, source, dest, 16);
                    }
                    assert(self.hdma == mid.hdma);
                },
                None => {},
            }
        }
    }

    /// Moves one block of an active H-Blank transfer (called on entry to H-Blank).
    pub fn hdma_hblank_transfer(&mut self)
        requires
            old(self)@.wf(),
        ensures
            final(self)@ == old(self)@.hdma_hblank_next(),
            final(self)@.wf(),
    {
        if !self.hdma.is_active() || !self.hdma.is_h_blank_mode() {
            return;
        }
        if let Some((source, dest)) = self.hdma.transfer_block() {
            self.copy_block(source, dest);
        }
    }

    /// Writes LCDC; turning the LCD off or on restarts the beam at the start of line 0.
    #[verifier::rlimit(40)]
    fn write_lcdc(&mut self, value: u8)
        requires
            old(self)@.wf(),
        ensures
            final(self)@ == old(self)@.io_write_next(0xFF40, value),
            final(self)@.wf(),
    {
        let lcdc = self.ppu.read_register(0xFF40);
        let lcd_was_on = lcdc & BIT_7 != 0;
        self.ppu.write_register(0xFF40, value);
        let lcd_is_on = value & BIT_7 != 0;
        if lcd_was_on && !lcd_is_on {
            self.ppu.mode = PPUMode::HBlank;
            self.ppu.dot_counter = 0;
            self.ppu.force_write_register(0xFF44, 0);
        } else if !lcd_was_on && lcd_is_on {
            self.ppu.mode = PPUMode::OAMSearch;
            self.ppu.dot_counter = 0;
            self.ppu.force_write_register(0xFF44, 0);
            self.ppu.check_lyc();
            self.ppu.check_stat_interrupts(&mut self.interrupt_flag);
        }
    }

    /// Writes LCDC, STAT, SCY, SCX, LY or LYC.
    #[verifier::rlimit(80)]
    fn write_lcd_register(&mut self, address: u16, value: u8)
        requires
            old(self)@.wf(),
            0xFF40 <= address <= 0xFF45,
        ensures
            final(self)@ == old(self)@.io_write_next(address, value),
            final(self)@.wf(),
    {
        match address {
            0xFF40 => self.write_lcdc(value),
            0xFF41 => {
                if self.ppu.mode == PPUMode::VBlank || self.ppu.mode == PPUMode::HBlank {
                    let lcdc = self.ppu.read_register(0xFF40);
                    let lcd_enabled = lcdc & BIT_7 != 0;
                    if lcd_enabled {
                        self.request_interrupt(InterruptBit::LCDStat);
                    }
                }
                self.ppu.write_register(address, value);
            },
            0xFF42..=0xFF44 => self.ppu.write_register(address, value),
            0xFF45 => {
                self.ppu.write_register(address, value);
                let lcdc = self.ppu.read_register(0xFF40);
                let lcd_is_on = lcdc & BIT_7 != 0;
                if lcd_is_on {
                    self.ppu.check_lyc();
                    self.ppu.check_stat_interrupts(&mut self.interrupt_flag);
                }
            },
            _ => {},
        }
    }

    /// Writes a CGB register (KEY1, VBK, HDMA1-5, palettes, SVBK).
    fn write_cgb_register(&mut self, address: u16, value: u8)
        requires
            old(self)@.wf(),
            0xFF4D <= address <= 0xFF70,
        ensures
            final(self)@ == old(self)@.io_write_next(address, value),
            final(self)@.wf(),
    {
        match address {
            0xFF4D => {
                if self.ppu.cgb_mode {
                    self.key1 = (self.key1 & 0x80) | (value & 0x01);
                }
            },
            0xFF4F => self.ppu.write_vram_bank(value),
            0xFF51 => self.hdma.write_source_high(value),
            0xFF52 => self.hdma.write_source_low(value),
            0xFF53 => self.hdma.write_dest_high(value),
            0xFF54 => self.hdma.write_dest_low(value),
            0xFF55 => {
                self.hdma.write_mode_length(value);
                if !self.hdma.is_h_blank_mode() {
                    self.perform_gdma();
                }
            },
            0xFF68 => self.ppu.write_bg_palette_index(value),
            0xFF69 => self.ppu.write_bg_palette_data(value),
            0xFF6A => self.ppu.write_obj_palette_index(value),
            0xFF6B => self.ppu.write_obj_palette_data(value),
            0xFF70 => {
                if self.ppu.cgb_mode {
                    let n = value & 0x07;
                    proof {
                        crate::bits::lemma_u8_facts(value);
                    }
                    self.wram_bank = if n == 0 { 1 } else { n as usize };
                }
            },
            _ => {},
        }
    }

    /// Writes an I/O register.
    #[verifier::rlimit(40)]
    fn write_io(&mut self, address: u16, value: u8)
        requires
            old(self)@.wf(),
            0xFF00 <= address <= 0xFF7F,
        ensures
            final(self)@ == old(self)@.io_write_next(address, value),
            final(self)@.wf(),
    {
        match address {
            0xFF00 => self.joypad.write_p1(value),
            0xFF01 => self.serial.write_sb(value),
            0xFF02 => self.serial.write_sc(value),
            0xFF04..=0xFF07 => self.timer.write(address, value, &mut self.interrupt_flag),
            0xFF0F => self.interrupt_flag = value & 0x1F,
            0xFF10..=0xFF3F => self.apu.write(address, value),
            0xFF40..=0xFF45 => self.write_lcd_register(address, value),
            0xFF46 => self.dma.start(value),
            0xFF47..=0xFF4B => self.ppu.write_register(address, value),
            0xFF4D..=0xFF70 => self.write_cgb_register(address, value),
            _ => {},
        }
    }

    /// Writes `value` at `address`.
    pub fn write_byte(&mut self, address: u16, value: u8)
        requires
            old(self)@.wf(),
        ensures
            exists|now: u64| final(self)@ == old(self)@.write_next(address, value, now),
            final(self)@.wf(),
    {
        let ghost before = self@;
        match address {
            0x0000..=0x7FFF => self.cart.write_rom(address, value),
            0x8000..=0x9FFF => self.ppu.write_vram(address, value),
            0xA000..=0xBFFF => self.cart.write_ram(address, value),
            0xC000..=0xFDFF => {
                let i = self.wram_index(address);
                self.wram[i] = value;
            },
            0xFE00..=0xFE9F => {
                let lcdc = self.ppu.read_register(0xFF40);
                let lcd_enabled = (lcdc & BIT_7) != 0;
                if !lcd_enabled {
                    self.ppu.write_oam(address, value);
                } else if self.ppu.can_use_oam() && !self.dma.is_enabled() {
                    self.ppu.write_oam(address, value);
                }
            },
            0xFEA0..=0xFEFF => {},
            0xFF00..=0xFF7F => self.write_io(address, value),
            0xFF80..=0xFFFE => self.hram[(address - 0xFF80) as usize] = value,
            _ => self.interrupt_enable = value & 0x1F,
        }
        proof {
            let w: u64 = if address <= 0x7FFF {
                choose|now: u64| self@.cart == before.cart.write_rom_next(address, value, now)
            } else if 0xA000 <= address <= 0xBFFF {
                choose|now: u64| self@.cart == before.cart.write_ram_next(address, value, now)
            } else {
                0
            };
            assert(self@.wram =~= before.write_next(address, value, w).wram);
            assert(self@.hram =~= before.write_next(address, value, w).hram);
            assert(self@ == before.write_next(address, value, w));
        }
    }

    /// One T-cycle of OAM DMA: the due byte is copied into OAM.
    pub fn dma_tick(&mut self)
        requires
            old(self)@.wf(),
        ensures
            final(self)@ == old(self)@.dma_tick_next(),
            final(self)@.wf(),
    {
        if let Some((source, destination)) = self.dma.tick() {
            let value = self.read_byte(source);
            self.ppu.write_oam(destination, value);
        }
    }

    /// Advances the bus by one T-cycle.
    pub fn tick(&mut self)
        requires
            old(self)@.wf(),
        ensures
            final(self)@ == old(self)@.tick_next(),
            final(self)@.wf(),
    {
        let previous_mode = self.ppu.mode;
        self.dma_tick();
        self.timer.tick(&mut self.interrupt_flag);
        self.ppu.tick(&mut self.interrupt_flag);
        self.apu.tick();
        if previous_mode != PPUMode::HBlank && self.ppu.mode == PPUMode::HBlank {
            self.hdma_hblank_transfer();
        }
    }

    /// A CGB speed switch is armed (KEY1 bit 0).
    pub fn is_speed_switch_prepared(&self) -> (res: bool)
        ensures
            res == (self.ppu.cgb_mode && (self.key1 & 0x01) != 0),
    {
        self.ppu.cgb_mode && (self.key1 & 0x01) != 0
    }

    /// Toggles the CPU speed (KEY1 bit 7) and disarms the switch, when armed.
    pub fn perform_speed_switch(&mut self)
        ensures
            final(self)@ == (if old(self).ppu.cgb_mode && (old(self).key1 & 0x01) != 0 {
                MemoryBusView { key1: (old(self).key1 ^ 0x80) & !0x01u8, ..old(self)@ }
            } else {
                old(self)@
            }),
    {
        if !self.ppu.cgb_mode || (self.key1 & 0x01) == 0 {
            return;
        }
        self.key1 = self.key1 ^ 0x80;
        self.key1 = self.key1 & !0x01;
    }

    /// Records a button; a press of a released button requests the joypad interrupt.
    pub fn set_button_state(&mut self, button: JoypadButton, pressed: bool)
        ensures
            final(self)@ == (MemoryBusView {
                joypad: old(self).joypad.set_button_state_next(button, pressed).0,
                interrupt_flag: if old(self).joypad.set_button_state_next(button, pressed).1 {
                    old(self).interrupt_flag | 0x10
                } else {
                    old(self).interrupt_flag
                },
                ..old(self)@
            }),
    {
        if self.joypad.set_button_state(button, pressed) {
            self.request_interrupt(InterruptBit::Joypad);
        }
    }
}

/// A T-cycle of the bus leaves work RAM, its bank register and high RAM as they were:
/// the devices and DMA units that step only write OAM and VRAM.
pub proof fn lemma_tick_keeps_ram(b: MemoryBusView)
    ensures
        b.tick_next().wram == b.wram,
        b.tick_next().hram == b.hram,
        b.tick_next().wram_bank == b.wram_bank,
{
    let previous_mode = b.ppu.mode;
    let b1 = b.dma_tick_next();
    let (t, f1) = b1.timer.tick_next(b1.interrupt_flag);
    let (p, f2) = b1.ppu.tick_next(f1);
    let b2 = MemoryBusView { timer: t, ppu: p, apu: b1.apu.tick_next(), interrupt_flag: f2, ..b1 };
    if previous_mode != PPUMode::HBlank && b2.ppu.mode == PPUMode::HBlank {
        if b2.hdma.active && b2.hdma.h_blank_mode() {
            let (h, r) = b2.hdma.transfer_block_next();
            let bb = MemoryBusView { hdma: h, ..b2 };
            match r {
                Some((source, dest)) => lemma_copy_block_frame(bb, source, dest, 16),
                None => {},
            }
        }
    }
}

} // verus!
