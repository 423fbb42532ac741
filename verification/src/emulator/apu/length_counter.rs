use vstd::prelude::*;

verus! {

/// Length timer of a sound channel: counts down and silences the channel when it expires.
#[derive(Clone, Copy)]
pub struct LengthCounter {
    pub enabled: bool,
    pub counter: u8,
}

impl LengthCounter {
    /// Counter value after loading `length` (the counter counts up to 64).
    pub open spec fn loaded_value(length: u8) -> u8 {
        if length <= 64 {
            (64 - length) as u8
        } else {
            (64 - length + 256) as u8
        }
    }

    /// State after one clock: `(counter, channel_enabled)`.
    pub open spec fn clock_next(self, channel_enabled: bool) -> (LengthCounter, bool) {
        if !self.enabled || self.counter == 0 {
            (self, channel_enabled)
        } else {
            let c = (self.counter - 1) as u8;
            (LengthCounter { counter: c, ..self }, if c == 0 { false } else { channel_enabled })
        }
    }

    pub open spec fn trigger_next(self) -> LengthCounter {
        if self.counter == 0 {
            LengthCounter { counter: 64, ..self }
        } else {
            self
        }
    }

    pub fn new() -> (res: Self)
        ensures
            !res.enabled,
            res.counter == 64,
    {
        Self { enabled: false, counter: 64 }
    }

    pub fn get(&self) -> (res: u8)
        ensures
            res == self.counter,
    {
        self.counter
    }

    /// Loads the counter with `64 - length` (modulo 256 when `length` exceeds 64).
    pub fn load(&mut self, length: u8)
        ensures
            *final(self) == (LengthCounter { counter: LengthCounter::loaded_value(length), ..*old(self) }),
    {
        self.counter = 64u8.wrapping_sub(length);
    }

    /// Counts down once when enabled; the channel is switched off when the counter reaches 0.
    pub fn clock(&mut self, channel_enabled: &mut bool)
        ensures
            (*final(self), *final(channel_enabled)) == old(self).clock_next(*old(channel_enabled)),
    {
        if !self.enabled || self.counter == 0 {
            return;
        }
        self.counter -= 1;
        if self.counter == 0 {
            *channel_enabled = false;
        }
    }

    /// Triggering resets the counter to its maximum when it has expired.
    pub fn trigger(&mut self)
        ensures
            *final(self) == old(self).trigger_next(),
    {
        if self.counter == 0 {
            self.counter = 64;
        }
    }
}

} // verus!
