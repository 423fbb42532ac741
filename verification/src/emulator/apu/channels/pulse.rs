use vstd::prelude::*;

verus! {

/// A pulse channel reduced to its enable and DAC state; its sample is always silent.
#[derive(Clone, Copy)]
pub struct PulseChannel {
    pub channel_enabled: bool,
    pub dac_on: bool,
}

impl PulseChannel {
    pub fn new() -> (res: Self)
        ensures
            !res.channel_enabled,
            !res.dac_on,
    {
        Self { channel_enabled: false, dac_on: false }
    }

    pub fn tick(&mut self)
        ensures
            *final(self) == *old(self),
    {
    }

    pub fn clock_length_counter(&mut self)
        ensures
            *final(self) == *old(self),
    {
    }

    pub fn clock_envelope(&mut self)
        ensures
            *final(self) == *old(self),
    {
    }

    pub fn trigger(&mut self)
        ensures
            *final(self) == *old(self),
    {
    }

    pub fn sample(&self) -> (res: u8)
        ensures
            res == 0,
    {
        0
    }

    pub fn channel_enabled(&self) -> (res: bool)
        ensures
            res == self.channel_enabled,
    {
        self.channel_enabled
    }

    pub fn dac_enabled(&self) -> (res: bool)
        ensures
            res == self.dac_on,
    {
        self.dac_on
    }

    /// Digital sample: no signal with the DAC off, a constant 0 with the channel off,
    /// and no waveform otherwise.
    pub fn sample_digital(&self) -> (res: Option<u8>)
        ensures
            res == (if !self.dac_on { None } else if !self.channel_enabled { Some(0u8) } else { None::<u8> }),
    {
        if !self.dac_on {
            return None;
        }
        if !self.channel_enabled {
            return Some(0);
        }
        None
    }
}

} // verus!
