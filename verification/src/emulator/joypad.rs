use vstd::prelude::*;

verus! {

#[derive(Clone, Copy, PartialEq, Eq, Structural, Debug)]
pub enum JoypadButton {
    Right,
    Left,
    Up,
    Down,
    A,
    B,
    Select,
    Start,
}

impl JoypadButton {
    pub open spec fn index_spec(self) -> usize {
        match self {
            JoypadButton::Right => 0,
            JoypadButton::Left => 1,
            JoypadButton::Up => 2,
            JoypadButton::Down => 3,
            JoypadButton::A => 4,
            JoypadButton::B => 5,
            JoypadButton::Select => 6,
            JoypadButton::Start => 7,
        }
    }

    /// Bit of the button in the button state: directions 0-3, actions 4-7.
    pub fn as_bit_index(&self) -> (res: usize)
        ensures
            res == self.index_spec(),
            res < 8,
    {
        match self {
            JoypadButton::Right => 0,
            JoypadButton::Left => 1,
            JoypadButton::Up => 2,
            JoypadButton::Down => 3,
            JoypadButton::A => 4,
            JoypadButton::B => 5,
            JoypadButton::Select => 6,
            JoypadButton::Start => 7,
        }
    }
}

/// Joypad state and the P1 register (0 bits mean pressed / selected).
#[derive(Clone, Copy)]
pub struct Joypad {
    pub button_state: u8,
    pub select: u8,
}

/// Whether button bit `i` of `state` reads as pressed.
pub open spec fn pressed_in(state: u8, i: usize) -> bool {
    (state >> (i as u8)) & 1 == 0
}

impl Joypad {
    pub open spec fn set_button_state_next(self, button: JoypadButton, pressed: bool) -> (Joypad, bool) {
        let i = button.index_spec() as u8;
        let interrupt = (self.button_state >> i) & 1 == 1 && pressed;
        let state = if pressed {
            self.button_state & !(1u8 << i)
        } else {
            self.button_state | (1u8 << i)
        };
        (Joypad { button_state: state, ..self }, interrupt)
    }

    pub open spec fn read_p1_spec(self) -> u8 {
        let r0 = self.select;
        let r1 = if r0 & 0x10 == 0 { (r0 & 0xF0) | (self.button_state & 0x0F) } else { r0 };
        if r1 & 0x20 == 0 {
            (r1 & 0xF0) | ((self.button_state >> 4u8) & 0x0F)
        } else {
            r1
        }
    }

    pub fn new() -> (res: Self)
        ensures
            res.button_state == 0xFF,
            res.select == 0xFF,
    {
        Self { button_state: 0xFF, select: 0xFF }
    }

    /// Records a button's state; returns true on a press of a released button (the
    /// joypad interrupt is then requested).
    pub fn set_button_state(&mut self, button: JoypadButton, pressed: bool) -> (interrupt: bool)
        ensures
            (*final(self), interrupt) == old(self).set_button_state_next(button, pressed),
    {
        let bit_index = button.as_bit_index();
        let i = bit_index as u8;
        let current_state = (self.button_state >> i) & 1;
        let new_state: u8 = if pressed { 0 } else { 1 };
        let should_interrupt = current_state == 1 && new_state == 0;
        if pressed {
            self.button_state &= !(1u8 << i);
        } else {
            self.button_state |= 1u8 << i;
        }
        should_interrupt
    }

    /// P1: the selected button group (directions when bit 4 is 0, actions when bit 5 is 0)
    /// in the low nibble.
    pub fn read_p1(&self) -> (res: u8)
        ensures
            res == self.read_p1_spec(),
    {
        let mut result = self.select;
        if result & 0x10 == 0 {
            result = (result & 0xF0) | (self.button_state & 0x0F);
        }
        if result & 0x20 == 0 {
            result = (result & 0xF0) | ((self.button_state >> 4) & 0x0F);
        }
        result
    }

    /// Only bits 4-5 of P1 are writable; the others read as 1.
    pub fn write_p1(&mut self, value: u8)
        ensures
            *final(self) == (Joypad { select: (value & 0x30) | 0xCF, ..*old(self) }),
    {
        self.select = (value & 0x30) | 0xCF;
    }
}

/// Pressing a button clears exactly its bit, releasing sets it; with the direction group
/// selected (P1 bit 4 clear, bit 5 set), P1 reads a pressed direction as 0.
pub proof fn lemma_press_visible_in_p1(j: Joypad, button: JoypadButton)
    requires
        button.index_spec() < 4,
        j.select == 0xEF,
    ensures
        pressed_in(j.set_button_state_next(button, true).0.button_state, button.index_spec()),
        !pressed_in(j.set_button_state_next(button, false).0.button_state, button.index_spec()),
        pressed_in(j.set_button_state_next(button, true).0.read_p1_spec(), button.index_spec()),
{
    let i = button.index_spec() as u8;
    let s = j.button_state;
    assert(i < 8 ==> ((s & !(1u8 << i)) >> i) & 1 == 0 && ((s | (1u8 << i)) >> i) & 1 == 1) by (bit_vector);
    assert(i < 4 ==> {
        let s2 = s & !(1u8 << i);
        let r1 = (0xEFu8 & 0xF0) | (s2 & 0x0F);
        &&& 0xEFu8 & 0x10 == 0
        &&& r1 & 0x20 != 0
        &&& (r1 >> i) & 1 == 0
    }) by (bit_vector);
}

} // verus!
