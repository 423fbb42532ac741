use vstd::prelude::*;

verus! {

/// Frequency timer of a pulse channel: advances the waveform phase every period.
#[derive(Clone, Copy)]
pub struct PulsePhaseTimer {
    pub phase: u8,
    pub counter: u16,
    pub frequency: u16,
}

impl PulsePhaseTimer {
    /// The frequency is 11 bits wide and the phase indexes an 8-step waveform.
    pub open spec fn wf(self) -> bool {
        &&& self.frequency <= 0x7FF
        &&& self.phase < 8
    }

    /// Number of ticks between two phase steps for the given 11-bit frequency.
    pub open spec fn period_for(frequency: u16) -> u16 {
        ((2047 - frequency) * 2 + 1) as u16
    }

    /// State after one tick, and whether a phase step happened.
    pub open spec fn tick_next(self) -> (PulsePhaseTimer, bool) {
        if self.counter == 0 {
            (
                PulsePhaseTimer {
                    counter: PulsePhaseTimer::period_for(self.frequency),
                    phase: ((self.phase + 1) % 8) as u8,
                    ..self
                },
                true,
            )
        } else {
            (PulsePhaseTimer { counter: (self.counter - 1) as u16, ..self }, false)
        }
    }

    pub open spec fn with_frequency(self, frequency: u16) -> PulsePhaseTimer {
        PulsePhaseTimer {
            frequency,
            counter: PulsePhaseTimer::period_for(frequency),
            ..self
        }
    }

    pub open spec fn msb(self) -> u8 {
        (self.frequency / 256) as u8
    }

    pub fn new() -> (res: Self)
        ensures
            res.phase == 0,
            res.counter == 4 * 2048,
            res.frequency == 0,
            res.wf(),
    {
        Self { phase: 0, counter: 4 * 2048, frequency: 0 }
    }

    /// Advances the timer by one tick; returns true when a phase step occurred.
    pub fn tick(&mut self) -> (stepped: bool)
        requires
            old(self).wf(),
        ensures
            (*final(self), stepped) == old(self).tick_next(),
            final(self).wf(),
    {
        if self.counter == 0 {
            self.update_counter();
            self.phase = (self.phase + 1) % 8;
            return true;
        }
        self.counter -= 1;
        false
    }

    pub fn trigger(&mut self)
        requires
            old(self).wf(),
        ensures
            *final(self) == (PulsePhaseTimer {
                counter: PulsePhaseTimer::period_for(old(self).frequency),
                ..*old(self)
            }),
    {
        self.update_counter();
    }

    fn update_counter(&mut self)
        requires
            old(self).wf(),
        ensures
            *final(self) == (PulsePhaseTimer {
                counter: PulsePhaseTimer::period_for(old(self).frequency),
                ..*old(self)
            }),
    {
        let f = self.frequency;
        assert(f ^ 0x7FF == 0x7FF - f) by (bit_vector)
            requires
                f <= 0x7FF,
        ;
        self.counter = (self.frequency ^ 0x7FF) * 2 + 1;
    }

    pub fn get_phase(&self) -> (res: u8)
        ensures
            res == self.phase,
    {
        self.phase
    }

    pub fn get_frequency(&self) -> (res: u16)
        ensures
            res == self.frequency,
    {
        self.frequency
    }

    /// Sets the 11-bit frequency (higher bits are dropped) and reloads the counter.
    pub fn set_frequency(&mut self, freq: u16)
        requires
            old(self).wf(),
        ensures
            *final(self) == old(self).with_frequency((freq % 0x800) as u16),
            final(self).wf(),
    {
        assert(freq & 0x07FF == freq % 0x800) by (bit_vector);
        self.frequency = freq & 0x07FF;
        self.update_counter();
    }

    /// Replaces the low 8 bits of the frequency.
    pub fn set_frequency_lsb(&mut self, bits: u8)
        requires
            old(self).wf(),
        ensures
            *final(self) == (PulsePhaseTimer {
                frequency: (old(self).msb() as u16 * 256 + bits as u16) as u16,
                ..*old(self)
            }),
            final(self).wf(),
    {
        let f = self.frequency;
        assert((f & 0x0700) | (bits as u16) == (f / 256) * 256 + bits as u16) by (bit_vector)
            requires
                f <= 0x7FF,
        ;
        self.frequency = (self.frequency & 0x0700) | (bits as u16);
    }

    /// The high 3 bits of the frequency.
    pub fn get_frequency_msb(&self) -> (res: u8)
        requires
            self.wf(),
        ensures
            res == self.msb(),
            res <= 7,
    {
        let f = self.frequency;
        assert(((f >> 8) & 0x07) == f / 256) by (bit_vector)
            requires
                f <= 0x7FF,
        ;
        ((self.frequency >> 8) & 0x07) as u8
    }

    /// Replaces the high 3 bits of the frequency with the low 3 bits of `bits`.
    pub fn set_frequency_msb(&mut self, bits: u8)
        requires
            old(self).wf(),
        ensures
            *final(self) == (PulsePhaseTimer {
                frequency: ((bits % 8) as u16 * 256 + old(self).frequency % 256) as u16,
                ..*old(self)
            }),
            final(self).wf(),
    {
        let f = self.frequency;
        assert((f & 0x00FF) | (((bits as u16) & 0x07) << 8) == (bits % 8) as u16 * 256 + f % 256)
            by (bit_vector);
        self.frequency = (self.frequency & 0x00FF) | (((bits as u16) & 0x07) << 8);
    }
}

/// Writing the low and then the high part of the frequency gives the 11-bit value they form.
pub proof fn lemma_frequency_parts(t: PulsePhaseTimer, lsb: u8, msb: u8)
    requires
        t.wf(),
    ensures
        ({
            let t1 = PulsePhaseTimer { frequency: (t.msb() as u16 * 256 + lsb as u16) as u16, ..t };
            let t2 = PulsePhaseTimer { frequency: ((msb % 8) as u16 * 256 + t1.frequency % 256) as u16, ..t1 };
            t2.frequency == (msb % 8) as u16 * 256 + lsb as u16
        }),
{
}

/// State after `k` ticks.
pub open spec fn ticked(t: PulsePhaseTimer, k: nat) -> PulsePhaseTimer
    decreases k,
{
    if k == 0 {
        t
    } else {
        ticked(t, (k - 1) as nat).tick_next().0
    }
}

/// Ticks that do not reach a zero counter only count it down.
pub proof fn lemma_ticks_count_down(t: PulsePhaseTimer, k: nat)
    requires
        k <= t.counter,
    ensures
        ticked(t, k) == (PulsePhaseTimer { counter: (t.counter - k) as u16, ..t }),
    decreases k,
{
    if k > 0 {
        lemma_ticks_count_down(t, (k - 1) as nat);
    }
}

/// The period: after the frequency is set to `f`, the next `2 * (2047 - f) + 1` ticks step
/// nothing and keep phase and frequency; the tick after them steps the phase by one.
pub proof fn lemma_pulse_period(t: PulsePhaseTimer, f: u16, k: nat)
    requires
        t.wf(),
        f <= 0x7FF,
    ensures
        ({
            let t0 = t.with_frequency(f);
            let n = PulsePhaseTimer::period_for(f) as nat;
            &&& n == 2 * (2047 - f) + 1
            &&& k < n ==> !ticked(t0, k).tick_next().1 && ticked(t0, k + 1).phase == t.phase
                && ticked(t0, k + 1).frequency == f
            &&& ticked(t0, n).tick_next().1
            &&& ticked(t0, n + 1).phase == (t.phase + 1) % 8
            &&& ticked(t0, n + 1).frequency == f
        }),
{
    let t0 = t.with_frequency(f);
    let n = PulsePhaseTimer::period_for(f) as nat;
    lemma_ticks_count_down(t0, n);
    if k < n {
        lemma_ticks_count_down(t0, k);
        lemma_ticks_count_down(t0, k + 1);
    }
    assert(ticked(t0, n + 1) == ticked(t0, n).tick_next().0);
}

} // verus!
