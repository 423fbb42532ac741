use vstd::prelude::*;

verus! {

#[derive(Clone, Copy, PartialEq, Eq, Structural)]
pub enum SweepDirection {
    Increase,
    Decrease,
}

/// Frequency sweep unit of the first pulse channel.
#[derive(Clone, Copy)]
pub struct Sweep {
    pub enabled: bool,
    pub configured_period: u8,
    pub configured_direction: SweepDirection,
    pub configured_shift: u8,
    pub period_counter: u8,
    pub shadow_frequency: u16,
    pub sweep_length_addend: u16,
    pub overflow_occurred: bool,
}

impl Sweep {
    /// Period and shift are 3-bit register fields and frequencies are 11-bit values.
    pub open spec fn wf(self) -> bool {
        &&& self.configured_period <= 7
        &&& self.configured_shift <= 7
        &&& self.shadow_frequency <= 2047
        &&& self.sweep_length_addend <= 2047
    }

    pub open spec fn new_spec() -> Sweep {
        Sweep {
            enabled: false,
            configured_period: 0,
            configured_direction: SweepDirection::Increase,
            configured_shift: 0,
            period_counter: 0,
            shadow_frequency: 0,
            sweep_length_addend: 0,
            overflow_occurred: false,
        }
    }

    /// Reload value of the period counter: a period of 0 counts as 8.
    pub open spec fn reload(self) -> u8 {
        if self.configured_period == 0 { 8 } else { self.configured_period }
    }

    /// `f >> shift` for the frequencies handled here.
    pub open spec fn shifted(f: u16, shift: u8) -> u16 {
        f >> shift
    }

    /// The next frequency of the sweep, or `None` when it would exceed 11 bits.
    pub open spec fn next_frequency(self) -> Option<u16> {
        match self.configured_direction {
            SweepDirection::Increase => {
                if self.shadow_frequency + self.sweep_length_addend > 2047 {
                    None
                } else {
                    Some((self.shadow_frequency + self.sweep_length_addend) as u16)
                }
            },
            SweepDirection::Decrease => {
                if self.configured_shift > 0 {
                    if self.shadow_frequency < self.sweep_length_addend {
                        Some(0u16)
                    } else {
                        Some((self.shadow_frequency - self.sweep_length_addend) as u16)
                    }
                } else {
                    Some(self.shadow_frequency)
                }
            },
        }
    }

    /// State after a trigger with the channel's current frequency, and whether it overflowed.
    pub open spec fn trigger_next(self, current_frequency: u16) -> (Sweep, bool) {
        let s = Sweep {
            shadow_frequency: current_frequency,
            sweep_length_addend: Sweep::shifted(current_frequency, self.configured_shift),
            period_counter: self.reload(),
            overflow_occurred: false,
            enabled: self.configured_period != 0 || self.configured_shift != 0,
            ..self
        };
        if self.configured_shift != 0 && s.next_frequency() is None {
            (Sweep { enabled: false, overflow_occurred: true, ..s }, true)
        } else {
            (s, false)
        }
    }

    /// State after a sweep clock, and the new frequency when the sweep produced one.
    pub open spec fn clock_next(self) -> (Sweep, Option<u16>) {
        if !self.enabled {
            (self, None)
        } else {
            let c = if self.period_counter > 0 { (self.period_counter - 1) as u8 } else { 0u8 };
            if c != 0 {
                (Sweep { period_counter: c, ..self }, None)
            } else {
                let s = Sweep { period_counter: self.reload(), ..self };
                if self.configured_period != 0 && self.configured_shift != 0 {
                    match s.next_frequency() {
                        Some(freq) => {
                            let s2 = Sweep {
                                shadow_frequency: freq,
                                sweep_length_addend: Sweep::shifted(freq, self.configured_shift),
                                ..s
                            };
                            if s2.next_frequency() is None {
                                (Sweep { enabled: false, overflow_occurred: true, ..s2 }, None)
                            } else {
                                (s2, Some(freq))
                            }
                        },
                        None => (Sweep { enabled: false, overflow_occurred: true, ..s }, None),
                    }
                } else {
                    (s, None)
                }
            }
        }
    }

    pub fn new() -> (res: Self)
        ensures
            res == Sweep::new_spec(),
            res.wf(),
    {
        Self {
            enabled: false,
            configured_period: 0,
            configured_direction: SweepDirection::Increase,
            configured_shift: 0,
            period_counter: 0,
            shadow_frequency: 0,
            sweep_length_addend: 0,
            overflow_occurred: false,
        }
    }

    /// Triggers the sweep with the current frequency; returns true when the first
    /// calculation overflows and the channel must be disabled.
    pub fn trigger(&mut self, current_frequency: u16) -> (overflow: bool)
        requires
            old(self).wf(),
            current_frequency <= 2047,
        ensures
            (*final(self), overflow) == old(self).trigger_next(current_frequency),
            final(self).wf(),
    {
        self.shadow_frequency = current_frequency;
        proof {
            crate::bits::lemma_u16_shr_le(current_frequency, self.configured_shift);
        }
        self.sweep_length_addend = current_frequency >> self.configured_shift;
        self.period_counter = if self.configured_period == 0 { 8 } else { self.configured_period };
        self.overflow_occurred = false;
        self.enabled = self.configured_period != 0 || self.configured_shift != 0;
        if self.configured_shift != 0 {
            let new_frequency = self.calculate_new_frequency();
            if new_frequency.is_none() {
                self.enabled = false;
                self.overflow_occurred = true;
                return true;
            }
        }
        false
    }

    /// Clocks the sweep; returns the new frequency when one was computed without overflow.
    pub fn clock(&mut self) -> (res: Option<u16>)
        requires
            old(self).wf(),
        ensures
            (*final(self), res) == old(self).clock_next(),
            final(self).wf(),
            res matches Some(f) ==> f <= 2047,
    {
        if !self.enabled {
            return None;
        }
        if self.period_counter > 0 {
            self.period_counter -= 1;
        }
        if self.period_counter == 0 {
            self.period_counter = if self.configured_period == 0 { 8 } else { self.configured_period };
            if self.configured_period != 0 && self.configured_shift != 0 {
                let new_frequency = self.calculate_new_frequency();
                if let Some(freq) = new_frequency {
                    self.shadow_frequency = freq;
                    proof {
                        crate::bits::lemma_u16_shr_le(freq, self.configured_shift);
                    }
                    self.sweep_length_addend = freq >> self.configured_shift;
                    if self.calculate_new_frequency().is_none() {
                        self.enabled = false;
                        self.overflow_occurred = true;
                        return None;
                    }
                    return Some(freq);
                } else {
                    self.enabled = false;
                    self.overflow_occurred = true;
                    return None;
                }
            }
        }
        None
    }

    pub fn should_disable_channel(&self) -> (res: bool)
        ensures
            res == self.overflow_occurred,
    {
        self.overflow_occurred
    }

    fn calculate_new_frequency(&self) -> (res: Option<u16>)
        requires
            self.wf(),
        ensures
            res == self.next_frequency(),
            res matches Some(f) ==> f <= 2047,
    {
        match self.configured_direction {
            SweepDirection::Increase => {
                let freq = self.shadow_frequency + self.sweep_length_addend;
                if freq > 2047 {
                    return None;
                }
                Some(freq)
            },
            SweepDirection::Decrease => {
                if self.configured_shift > 0 {
                    Some(self.shadow_frequency.saturating_sub(self.sweep_length_addend))
                } else {
                    Some(self.shadow_frequency)
                }
            },
        }
    }

    pub fn default() -> (res: Self)
        ensures
            res == Sweep::new_spec(),
    {
        Self::new()
    }
}

/// Every frequency the sweep hands to its channel fits in 11 bits, and no sweep step breaks
/// the unit's invariant.
pub proof fn lemma_sweep_frequencies_fit(s: Sweep, current: u16)
    requires
        s.wf(),
        current <= 2047,
    ensures
        s.trigger_next(current).0.wf(),
        s.clock_next().0.wf(),
        s.clock_next().1 matches Some(f) ==> f <= 2047,
{
    assert forall|f: u16, sh: u8| f <= 2047 implies #[trigger] Sweep::shifted(f, sh) <= f by {
        crate::bits::lemma_u16_shr_le(f, sh);
    }
}

} // verus!
