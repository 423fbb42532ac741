use vstd::prelude::*;

pub mod apu;
pub mod cart;
pub mod cpu;
pub mod joypad;
pub mod ppu;
pub mod serial;
pub mod timer;

verus! {

/// Clock of the CPU in single speed, in cycles per second.
pub const CPU_FREQUENCY: u32 = 4194304;

/// Buttons held on the host, and the save/load-state keys.
pub struct InputState {
    pub right: bool,
    pub left: bool,
    pub up: bool,
    pub down: bool,
    pub a: bool,
    pub b: bool,
    pub select: bool,
    pub start: bool,
    pub save: bool,
    pub load: bool,
    /// Cleared after a save or load, set again once both keys are released, so that a
    /// held key acts once.
    pub can_change_state: bool,
}

/// What the emulator does with the input of one frame.
#[derive(Clone, Copy, Debug, PartialEq, Eq, Structural)]
pub enum InputAction {
    /// Write a save state.
    SaveState,
    /// Restore the save state.
    LoadState,
    /// Hand the eight buttons to the joypad.
    ApplyButtons,
    /// Nothing this frame: the save and load keys were just released.
    Nothing,
}

/// Action of one frame, and whether a save or load may follow, for the keys `save` and
/// `load` and the earlier permission `can_change`.
pub open spec fn input_step(can_change: bool, save: bool, load: bool) -> (InputAction, bool) {
    if can_change {
        if save {
            (InputAction::SaveState, false)
        } else if load {
            (InputAction::LoadState, false)
        } else {
            (InputAction::ApplyButtons, true)
        }
    } else if !save && !load {
        (InputAction::Nothing, true)
    } else {
        (InputAction::ApplyButtons, false)
    }
}

impl InputState {
    /// No key held; a save or load may happen.
    pub fn new() -> (s: Self)
        ensures
            !s.right && !s.left && !s.up && !s.down,
            !s.a && !s.b && !s.select && !s.start,
            !s.save && !s.load,
            s.can_change_state,
    {
        Self {
            right: false,
            left: false,
            up: false,
            down: false,
            a: false,
            b: false,
            select: false,
            start: false,
            save: false,
            load: false,
            can_change_state: true,
        }
    }

    /// Decides what the input of this frame does: a save or a load when its key is held
    /// and none happened since both keys were last released, else the buttons go to the
    /// joypad, except on the frame the keys are released.
    pub fn next_action(&mut self) -> (action: InputAction)
        ensures
            (action, final(self).can_change_state) == input_step(
                old(self).can_change_state,
                old(self).save,
                old(self).load,
            ),
            final(self).right == old(self).right && final(self).left == old(self).left,
            final(self).up == old(self).up && final(self).down == old(self).down,
            final(self).a == old(self).a && final(self).b == old(self).b,
            final(self).select == old(self).select && final(self).start == old(self).start,
            final(self).save == old(self).save && final(self).load == old(self).load,
    {
        if self.can_change_state {
            if self.save {
                self.can_change_state = false;
                InputAction::SaveState
            } else if self.load {
                self.can_change_state = false;
                InputAction::LoadState
            } else {
                InputAction::ApplyButtons
            }
        } else if !self.save && !self.load {
            self.can_change_state = true;
            InputAction::Nothing
        } else {
            InputAction::ApplyButtons
        }
    }
}

/// A held save or load key acts once: after a save or load, the next frames with a key
/// still held only apply the buttons, until both keys are released.
pub proof fn lemma_state_change_once(can_change: bool, save: bool, load: bool, save2: bool, load2: bool)
    requires
        save2 || load2,
    ensures
        ({
            let (a1, c1) = input_step(can_change, save, load);
            (a1 == InputAction::SaveState || a1 == InputAction::LoadState)
                ==> input_step(c1, save2, load2).0 == InputAction::ApplyButtons
        }),
{
}

} // verus!
