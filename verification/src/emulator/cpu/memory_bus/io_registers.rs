use vstd::prelude::*;
use crate::bits::{BIT_0, BIT_1, BIT_2};

verus! {

pub const REG_P1: u16 = 0xFF00;
pub const REG_SB: u16 = 0xFF01;
pub const REG_SC: u16 = 0xFF02;
pub const REG_IF: u16 = 0xFF0F;
pub const REG_NR10: u16 = 0xFF10;
pub const REG_NR11: u16 = 0xFF11;
pub const REG_NR12: u16 = 0xFF12;
pub const REG_NR14: u16 = 0xFF14;
pub const REG_NR21: u16 = 0xFF16;
pub const REG_NR24: u16 = 0xFF19;
pub const REG_NR30: u16 = 0xFF1A;
pub const REG_NR31: u16 = 0xFF1B;
pub const REG_NR32: u16 = 0xFF1C;
pub const REG_NR34: u16 = 0xFF1E;
pub const REG_NR41: u16 = 0xFF20;
pub const REG_NR44: u16 = 0xFF23;
pub const REG_NR50: u16 = 0xFF24;
pub const REG_NR51: u16 = 0xFF25;
pub const REG_NR52: u16 = 0xFF26;
pub const REG_LCDC: u16 = 0xFF40;
pub const REG_STAT: u16 = 0xFF41;
pub const REG_SCY: u16 = 0xFF42;
pub const REG_SCX: u16 = 0xFF43;
pub const REG_LY: u16 = 0xFF44;
pub const REG_LYC: u16 = 0xFF45;
pub const REG_BGP: u16 = 0xFF47;
pub const REG_OBP0: u16 = 0xFF48;
pub const REG_OBP1: u16 = 0xFF49;
pub const REG_HDMA1: u16 = 0xFF51;
pub const REG_HDMA2: u16 = 0xFF52;
pub const REG_HDMA5: u16 = 0xFF55;
pub const REG_IE: u16 = 0xFFFF;

/// Bytes of register memory (0xFF00-0xFFFF).
pub const REG_MEM_SIZE: u16 = 0x100;

/// Interrupt sources, by their bit in IF.
#[derive(Clone, Copy, PartialEq, Eq, Structural, Debug)]
pub enum InterruptBit {
    VBlank,
    LCDStat,
    Timer,
}

impl InterruptBit {
    pub open spec fn mask_spec(self) -> u8 {
        match self {
            InterruptBit::VBlank => BIT_0,
            InterruptBit::LCDStat => BIT_1,
            InterruptBit::Timer => BIT_2,
        }
    }

    pub fn mask(self) -> (res: u8)
        ensures
            res == self.mask_spec(),
    {
        match self {
            InterruptBit::VBlank => BIT_0,
            InterruptBit::LCDStat => BIT_1,
            InterruptBit::Timer => BIT_2,
        }
    }
}

#[derive(Clone, Copy, PartialEq, Eq, Structural, Debug)]
pub enum JoypadButton {
    Right,
    Left,
    Up,
    Down,
    A,
    B,
    Select,
    Start,
}

impl JoypadButton {
    pub open spec fn index_spec(self) -> usize {
        match self {
            JoypadButton::Right => 0,
            JoypadButton::Left => 1,
            JoypadButton::Up => 2,
            JoypadButton::Down => 3,
            JoypadButton::A => 4,
            JoypadButton::B => 5,
            JoypadButton::Select => 6,
            JoypadButton::Start => 7,
        }
    }

    /// Bit of the button in the joypad state byte.
    pub fn as_bit_index(&self) -> (res: usize)
        ensures
            res == self.index_spec(),
    {
        match self {
            JoypadButton::Right => 0,
            JoypadButton::Left => 1,
            JoypadButton::Up => 2,
            JoypadButton::Down => 3,
            JoypadButton::A => 4,
            JoypadButton::B => 5,
            JoypadButton::Select => 6,
            JoypadButton::Start => 7,
        }
    }
}

/// The I/O register page as plain memory, with the joypad lines (bit clear = pressed).
pub struct IORegisters {
    pub joypad_state: u8,
    pub mem: [u8; 256],
}

/// Index in the register page of an address of 0xFF00-0xFFFF.
pub open spec fn local_index(address: u16) -> int {
    address - 0xFF00
}

/// Register memory after power-on.
pub open spec fn initial_io(i: int) -> u8 {
    if i == 0x00 {
        0xFF
    } else if i == 0x10 {
        0x80
    } else if i == 0x11 {
        0xBF
    } else if i == 0x12 {
        0xF3
    } else if i == 0x14 {
        0xBF
    } else if i == 0x16 {
        0x3F
    } else if i == 0x19 {
        0xBF
    } else if i == 0x1A {
        0x7F
    } else if i == 0x1B {
        0xFF
    } else if i == 0x1C {
        0x9F
    } else if i == 0x1E {
        0xBF
    } else if i == 0x20 {
        0xFF
    } else if i == 0x23 {
        0xBF
    } else if i == 0x24 {
        0x77
    } else if i == 0x25 {
        0xF3
    } else if i == 0x26 {
        0x8F
    } else if i == 0x40 {
        0x91
    } else if i == 0x47 {
        0xFC
    } else if i == 0x48 {
        0xFF
    } else if i == 0x49 {
        0xFF
    } else if i == 0x51 {
        0xFF
    } else if i == 0x52 {
        0xFF
    } else if i == 0x55 {
        0xFF
    } else {
        0
    }
}

impl IORegisters {
    /// P1 as read: the selected group of buttons (directions when bit 4 is 0, actions when
    /// bit 5 is 0) in the low nibble.
    pub open spec fn p1_spec(self) -> u8 {
        let r0 = self.mem@[0];
        let r1 = if r0 & 0x10 == 0 { (r0 & 0xF0) | (self.joypad_state & 0x0F) } else { r0 };
        if r1 & 0x20 == 0 { (r1 & 0xF0) | ((self.joypad_state >> 4u8) & 0x0F) } else { r1 }
    }

    pub open spec fn read_spec(self, address: u16) -> u8 {
        if address == REG_P1 {
            self.p1_spec()
        } else {
            self.mem@[local_index(address)]
        }
    }

    /// Register memory after a write: P1 keeps only bits 4-5, SC completes an internally
    /// clocked transfer at once, IF and IE keep 5 bits, NR52 only bit 7 and STAT bits 2-6.
    pub open spec fn write_mem(mem: Seq<u8>, address: u16, value: u8) -> Seq<u8> {
        let i = local_index(address);
        if address == REG_P1 {
            mem.update(i, (value & 0x30) | 0xCF)
        } else if address == REG_SC {
            mem.update(i, if value & 0x81 == 0x81 { value & 0x7F } else { value })
        } else if address == REG_IF || address == REG_IE {
            mem.update(i, value & 0x1F)
        } else if address == REG_NR52 {
            mem.update(i, (value & 0x80) | (mem[i] & 0x7F))
        } else if address == REG_STAT {
            mem.update(i, (mem[i] & 0x83) | (value & 0x7C))
        } else {
            mem.update(i, value)
        }
    }

    pub fn new() -> (res: Self)
        ensures
            res.joypad_state == 0xFF,
            res.mem@ == Seq::new(256, |i: int| initial_io(i)),
    {
        let mut mem = [0u8; 256];
        mem[get_local_address(REG_P1)] = 0xFF;
        mem[get_local_address(REG_NR10)] = 0x80;
        mem[get_local_address(REG_NR11)] = 0xBF;
        mem[get_local_address(REG_NR12)] = 0xF3;
        mem[get_local_address(REG_NR14)] = 0xBF;
        mem[get_local_address(REG_NR21)] = 0x3F;
        mem[get_local_address(REG_NR24)] = 0xBF;
        mem[get_local_address(REG_NR30)] = 0x7F;
        mem[get_local_address(REG_NR31)] = 0xFF;
        mem[get_local_address(REG_NR32)] = 0x9F;
        mem[get_local_address(REG_NR34)] = 0xBF;
        mem[get_local_address(REG_NR41)] = 0xFF;
        mem[get_local_address(REG_NR44)] = 0xBF;
        mem[get_local_address(REG_NR50)] = 0x77;
        mem[get_local_address(REG_NR51)] = 0xF3;
        mem[get_local_address(REG_NR52)] = 0b10001111;
        mem[get_local_address(REG_LCDC)] = 0x91;
        mem[get_local_address(REG_BGP)] = 0xFC;
        mem[get_local_address(REG_OBP0)] = 0xFF;
        mem[get_local_address(REG_OBP1)] = 0xFF;
        mem[get_local_address(REG_HDMA1)] = 0xFF;
        mem[get_local_address(REG_HDMA2)] = 0xFF;
        mem[get_local_address(REG_HDMA5)] = 0xFF;
        assert(mem@ =~= Seq::new(256, |i: int| initial_io(i)));
        IORegisters { joypad_state: 0xFF, mem }
    }

    /// Sets the interrupt's bit in IF.
    pub fn request_interrupt(&mut self, interrupt: InterruptBit)
        ensures
            final(self).joypad_state == old(self).joypad_state,
            final(self).mem@ == IORegisters::write_mem(
                old(self).mem@,
                REG_IF,
                old(self).mem@[local_index(REG_IF)] | interrupt.mask_spec(),
            ),
    {
        let v = self.read(REG_IF) | interrupt.mask();
        self.write(REG_IF, v);
    }

    /// Records a button; a press of a released button writes 0x10 (joypad) to IF.
    pub fn set_button_state(&mut self, button: JoypadButton, pressed: bool)
        ensures
            final(self).mem@ == (if (old(self).joypad_state >> (button.index_spec() as u8)) & 1 == 1 && pressed {
                IORegisters::write_mem(old(self).mem@, REG_IF, 0x10)
            } else {
                old(self).mem@
            }),
            final(self).joypad_state == (if pressed {
                old(self).joypad_state & !(1u8 << (button.index_spec() as u8))
            } else {
                old(self).joypad_state | (1u8 << (button.index_spec() as u8))
            }),
    {
        let bit_index = button.as_bit_index() as u8;
        let current_state = (self.joypad_state >> bit_index) & 1;
        let new_state: u8 = if pressed { 0 } else { 1 };
        if current_state == 1 && new_state == 0 {
            self.write(REG_IF, 0x10);
        }
        if pressed {
            self.joypad_state = self.joypad_state & !(1u8 << bit_index);
        } else {
            self.joypad_state = self.joypad_state | (1u8 << bit_index);
        }
    }

    pub fn read(&self, address: u16) -> (res: u8)
        requires
            address >= 0xFF00,
        ensures
            res == self.read_spec(address),
    {
        let local_addr = get_local_address(address);
        match address {
            REG_P1 => {
                let mut result = self.mem[local_addr];
                if result & 0x10 == 0 {
                    result = (result & 0xF0) | (self.joypad_state & 0x0F);
                }
                if result & 0x20 == 0 {
                    result = (result & 0xF0) | ((self.joypad_state >> 4) & 0x0F);
                }
                result
            },
            _ => self.mem[local_addr],
        }
    }

    /// Writes a register. Where a serial byte is sent (SC with bits 7 and 0 set) the transfer
    /// completes at once; the byte stays in SB for the caller to show.
    pub fn write(&mut self, address: u16, value: u8)
        requires
            address >= 0xFF00,
        ensures
            final(self).joypad_state == old(self).joypad_state,
            final(self).mem@ == IORegisters::write_mem(old(self).mem@, address, value),
    {
        let local_addr = get_local_address(address);
        match address {
            REG_P1 => self.mem[local_addr] = (value & 0x30) | 0xCF,
            REG_SC => {
                self.mem[local_addr] = value;
                if value & 0x81 == 0x81 {
                    self.mem[local_addr] = self.mem[local_addr] & 0x7F;
                }
            },
            REG_IF => self.mem[local_addr] = value & 0x1F,
            REG_NR52 => self.mem[local_addr] = (value & 0x80) | (self.mem[local_addr] & 0x7F),
            REG_STAT => self.mem[local_addr] = (self.mem[local_addr] & 0x83) | (value & 0x7C),
            REG_IE => self.mem[local_addr] = value & 0x1F,
            _ => self.mem[local_addr] = value,
        }
        assert(self.mem@ =~= IORegisters::write_mem(old(self).mem@, address, value));
    }
}

/// Index in the register page of `address` (0xFF00-0xFFFF).
pub fn get_local_address(address: u16) -> (res: usize)
    requires
        address >= 0xFF00,
    ensures
        res == local_index(address),
        res < 256,
{
    (address - 0xFF00) as usize
}

} // verus!
