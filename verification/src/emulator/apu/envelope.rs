use vstd::prelude::*;

verus! {

#[derive(Clone, Copy, PartialEq, Eq, Structural)]
pub enum EnvelopeDirection {
    Decreasing,
    Increasing,
}

/// Volume envelope of a sound channel.
#[derive(Clone, Copy)]
pub struct Envelope {
    pub volume: u8,
    pub counter: u8,
    pub period: u8,
    pub direction: EnvelopeDirection,
    pub starting_volume: u8,
    pub configured_period: u8,
    pub configured_direction: EnvelopeDirection,
}

impl Envelope {
    /// The envelope every channel starts with: everything zero, decreasing.
    pub open spec fn default_spec() -> Envelope {
        Envelope {
            volume: 0,
            counter: 0,
            period: 0,
            direction: EnvelopeDirection::Decreasing,
            starting_volume: 0,
            configured_period: 0,
            configured_direction: EnvelopeDirection::Decreasing,
        }
    }

    /// Reload value of the period counter: a period of 0 counts as 8.
    pub open spec fn reload(period: u8) -> u8 {
        if period == 0 { 8 } else { period }
    }

    /// State after one envelope clock.
    pub open spec fn clock_next(self) -> Envelope {
        if self.configured_period == 0 {
            self
        } else {
            let c = if self.counter > 0 { (self.counter - 1) as u8 } else { 0u8 };
            if c == 0 {
                let v = match (self.direction, self.volume) {
                    (EnvelopeDirection::Decreasing, 0) => 0u8,
                    (EnvelopeDirection::Increasing, 15) => 15u8,
                    (EnvelopeDirection::Decreasing, _) => (self.volume - 1) as u8,
                    (EnvelopeDirection::Increasing, _) => (self.volume + 1) as u8,
                };
                Envelope { counter: Envelope::reload(self.period), volume: v, ..self }
            } else {
                Envelope { counter: c, ..self }
            }
        }
    }

    /// State after a trigger: the configured values become current.
    pub open spec fn trigger_next(self) -> Envelope {
        Envelope {
            volume: self.starting_volume,
            direction: self.configured_direction,
            period: self.configured_period,
            counter: Envelope::reload(self.configured_period),
            ..self
        }
    }

    /// The volume is a 4-bit value.
    pub open spec fn wf(self) -> bool {
        &&& self.volume <= 15
        &&& self.starting_volume <= 15
    }

    pub fn default() -> (res: Envelope)
        ensures
            res == Envelope::default_spec(),
    {
        Envelope {
            volume: 0,
            counter: 0,
            period: 0,
            direction: EnvelopeDirection::Decreasing,
            starting_volume: 0,
            configured_period: 0,
            configured_direction: EnvelopeDirection::Decreasing,
        }
    }

    /// Steps the volume one unit in the current direction, within 0..=15.
    pub fn clock(&mut self)
        requires
            old(self).volume < 255,
        ensures
            *final(self) == old(self).clock_next(),
    {
        if self.configured_period == 0 {
            return;
        }
        if self.counter > 0 {
            self.counter -= 1;
        }
        if self.counter == 0 {
            self.counter = if self.period == 0 { 8 } else { self.period };
            match (self.direction, self.volume) {
                (EnvelopeDirection::Decreasing, 0) | (EnvelopeDirection::Increasing, 15) => {},
                (EnvelopeDirection::Decreasing, _) => self.volume -= 1,
                (EnvelopeDirection::Increasing, _) => self.volume += 1,
            }
        }
    }

    pub fn trigger(&mut self)
        ensures
            *final(self) == old(self).trigger_next(),
    {
        self.volume = self.starting_volume;
        self.direction = self.configured_direction;
        self.period = self.configured_period;
        self.counter = if self.period == 0 { 8 } else { self.period };
    }
}

/// Clocking and triggering keep the volume within 4 bits.
pub proof fn lemma_envelope_keeps_volume(e: Envelope)
    requires
        e.wf(),
    ensures
        e.clock_next().wf(),
        e.trigger_next().wf(),
{
}

} // verus!
