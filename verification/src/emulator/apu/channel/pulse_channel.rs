use vstd::prelude::*;
use crate::bits::{BIT_6, BIT_7};
use crate::emulator::apu::duty_cycle::DutyCycle;
use crate::emulator::apu::envelope::Envelope;
use crate::emulator::apu::length_counter::LengthCounter;
use crate::emulator::apu::pulse_phase_timer::PulsePhaseTimer;
use crate::emulator::apu::sweep::{Sweep, SweepDirection};
use crate::emulator::apu::channel::noise_channel::{
    envelope_settings, envelope_with_settings, get_envelope_bits, set_envelope_bits,
};

verus! {

/// First and second sound channels: square waves with a duty cycle, envelope and,
/// for the first channel, a frequency sweep.
#[derive(Clone, Copy)]
pub struct PulseChannel {
    pub channel_enabled: bool,
    pub dac_enabled: bool,
    pub sweep: Option<Sweep>,
    pub timer: PulsePhaseTimer,
    pub duty_cycle: DutyCycle,
    pub length_counter: LengthCounter,
    pub envelope: Envelope,
}

/// NR10 encoding of a sweep's configuration.
pub open spec fn sweep_settings(s: Sweep) -> u8 {
    (((s.configured_period & 0x07) << 4u8)
        | ((if s.configured_direction == SweepDirection::Increase { 0u8 } else { 1u8 }) << 3u8)
        | (s.configured_shift & 0x07)) as u8
}

impl PulseChannel {
    pub open spec fn wf(self) -> bool {
        &&& self.timer.wf()
        &&& self.envelope.wf()
        &&& (self.sweep matches Some(s) ==> s.wf())
    }

    pub open spec fn initial(sweep: Option<Sweep>) -> PulseChannel {
        PulseChannel {
            channel_enabled: false,
            dac_enabled: false,
            sweep,
            timer: PulsePhaseTimer { phase: 0, counter: 8192u16, frequency: 0 },
            duty_cycle: DutyCycle::Eighth,
            length_counter: LengthCounter { enabled: false, counter: 64 },
            envelope: Envelope::default_spec(),
        }
    }

    pub open spec fn tick_next(self) -> PulseChannel {
        PulseChannel { timer: self.timer.tick_next().0, ..self }
    }

    pub open spec fn clock_sweep_next(self) -> PulseChannel {
        match self.sweep {
            Some(s) => {
                let (s2, f) = s.clock_next();
                match f {
                    Some(freq) => PulseChannel {
                        sweep: Some(s2),
                        timer: self.timer.with_frequency((freq % 0x800) as u16),
                        ..self
                    },
                    None => PulseChannel { sweep: Some(s2), ..self },
                }
            },
            None => self,
        }
    }

    pub open spec fn clock_length_counter_next(self) -> PulseChannel {
        let (lc, en) = self.length_counter.clock_next(self.channel_enabled);
        PulseChannel { length_counter: lc, channel_enabled: en, ..self }
    }

    pub open spec fn clock_envelope_next(self) -> PulseChannel {
        PulseChannel { envelope: self.envelope.clock_next(), ..self }
    }

    pub open spec fn trigger_next(self) -> PulseChannel {
        let timer = PulsePhaseTimer { counter: PulsePhaseTimer::period_for(self.timer.frequency), ..self.timer };
        let lc = if self.length_counter.counter == 0 { self.length_counter.trigger_next() } else { self.length_counter };
        PulseChannel {
            channel_enabled: if self.dac_enabled { true } else { self.channel_enabled },
            timer,
            length_counter: lc,
            envelope: self.envelope.trigger_next(),
            sweep: match self.sweep {
                Some(s) => Some(s.trigger_next(timer.frequency).0),
                None => None,
            },
            ..self
        }
    }

    pub open spec fn sweep_settings_spec(self) -> u8 {
        match self.sweep {
            Some(s) => sweep_settings(s),
            None => 0xFF,
        }
    }

    pub open spec fn set_sweep_settings_next(self, value: u8) -> PulseChannel {
        match self.sweep {
            Some(s) => PulseChannel {
                sweep: Some(Sweep {
                    configured_period: (value >> 4u8) & 0x07,
                    configured_direction: if (value & 0x08) != 0 {
                        SweepDirection::Decrease
                    } else {
                        SweepDirection::Increase
                    },
                    configured_shift: value & 0x07,
                    ..s
                }),
                ..self
            },
            None => self,
        }
    }

    pub open spec fn length_settings_spec(self) -> u8 {
        ((self.duty_cycle.to_bits_spec() << 6u8) | (self.length_counter.counter & 0x3F)) as u8
    }

    /// NRx1: duty cycle in bits 7-6; the length field `t` in bits 5-0 leaves `64 - t` clocks
    /// to run, the maximum 64 for a zero field.
    pub open spec fn set_length_settings_next(self, value: u8) -> PulseChannel {
        let length_load = value & 0x3F;
        PulseChannel {
            duty_cycle: DutyCycle::from_bits_spec(value >> 6u8),
            length_counter: LengthCounter {
                counter: LengthCounter::loaded_value(length_load),
                ..self.length_counter
            },
            ..self
        }
    }

    pub open spec fn set_envelope_settings_next(self, value: u8) -> PulseChannel {
        let dac = (value & 0xF8) != 0;
        PulseChannel {
            envelope: envelope_with_settings(self.envelope, value),
            dac_enabled: dac,
            channel_enabled: if dac { self.channel_enabled } else { false },
            ..self
        }
    }

    pub open spec fn set_period_low_settings_next(self, value: u8) -> PulseChannel {
        PulseChannel {
            timer: PulsePhaseTimer {
                frequency: (self.timer.msb() as u16 * 256 + value as u16) as u16,
                ..self.timer
            },
            ..self
        }
    }

    pub open spec fn period_high_control_spec(self) -> u8 {
        ((if self.length_counter.enabled { BIT_6 } else { 0 }) | (if self.channel_enabled { BIT_7 } else { 0 })
            | (self.timer.msb() & 0x07)) as u8
    }

    pub open spec fn set_period_high_control_settings_next(self, value: u8) -> PulseChannel {
        let t = if value & BIT_7 != 0 { self.trigger_next() } else { self };
        PulseChannel {
            length_counter: LengthCounter { enabled: (value & BIT_6) != 0, ..t.length_counter },
            timer: PulsePhaseTimer {
                frequency: ((value % 8) as u16 * 256 + t.timer.frequency % 256) as u16,
                ..t.timer
            },
            ..t
        }
    }

    /// Digital level: `None` when the channel or its DAC is off (the DAC rests at its
    /// midpoint), else the waveform step times the envelope volume.
    pub open spec fn digital_spec(self) -> Option<u8> {
        if !self.channel_enabled || !self.dac_enabled {
            None
        } else {
            Some((self.duty_cycle.waveform()[self.timer.phase as int] * self.envelope.volume) as u8)
        }
    }

    pub fn new() -> (res: Self)
        ensures
            res == PulseChannel::initial(None),
            res.wf(),
    {
        Self {
            channel_enabled: false,
            dac_enabled: false,
            sweep: None,
            timer: PulsePhaseTimer::new(),
            duty_cycle: DutyCycle::Eighth,
            length_counter: LengthCounter::new(),
            envelope: Envelope::default(),
        }
    }

    pub fn new_with_sweep() -> (res: Self)
        ensures
            res == PulseChannel::initial(Some(Sweep::new_spec())),
            res.wf(),
    {
        Self {
            channel_enabled: false,
            dac_enabled: false,
            sweep: Some(Sweep::new()),
            timer: PulsePhaseTimer::new(),
            duty_cycle: DutyCycle::Eighth,
            length_counter: LengthCounter::new(),
            envelope: Envelope::default(),
        }
    }

    pub fn tick(&mut self)
        requires
            old(self).wf(),
        ensures
            *final(self) == old(self).tick_next(),
            final(self).wf(),
    {
        self.timer.tick();
    }

    /// Clocks the sweep unit; a new frequency it produces is written to the timer.
    pub fn clock_sweep(&mut self)
        requires
            old(self).wf(),
        ensures
            *final(self) == old(self).clock_sweep_next(),
            final(self).wf(),
    {
        if let Some(mut sweep) = self.sweep {
            let result = sweep.clock();
            self.sweep = Some(sweep);
            if let Some(new_frequency) = result {
                self.timer.set_frequency(new_frequency);
            }
        }
    }

    pub fn clock_length_counter(&mut self)
        ensures
            *final(self) == old(self).clock_length_counter_next(),
    {
        self.length_counter.clock(&mut self.channel_enabled);
    }

    pub fn clock_envelope(&mut self)
        requires
            old(self).wf(),
        ensures
            *final(self) == old(self).clock_envelope_next(),
            final(self).wf(),
    {
        self.envelope.clock();
        proof {
            crate::emulator::apu::envelope::lemma_envelope_keeps_volume(old(self).envelope);
        }
    }

    /// Digital output level (see `digital_spec`).
    pub fn digital_output(&self) -> (res: Option<u8>)
        requires
            self.wf(),
        ensures
            res == self.digital_spec(),
    {
        if !self.channel_enabled || !self.dac_enabled {
            return None;
        }
        let waveform_step = self.duty_cycle.waveform_step(self.timer.get_phase());
        let volume = self.envelope.volume;
        assert(waveform_step * volume <= 15) by (nonlinear_arith)
            requires
                waveform_step <= 1,
                volume <= 15,
        ;
        Some(waveform_step * volume)
    }

    fn trigger(&mut self)
        requires
            old(self).wf(),
        ensures
            *final(self) == old(self).trigger_next(),
            final(self).wf(),
    {
        if self.dac_enabled {
            self.channel_enabled = true;
        }
        self.timer.trigger();
        if self.length_counter.get() == 0 {
            self.length_counter.trigger();
        }
        self.envelope.trigger();
        if let Some(mut sweep) = self.sweep {
            let _ = sweep.trigger(self.timer.get_frequency());
            self.sweep = Some(sweep);
        }
        proof {
            crate::emulator::apu::envelope::lemma_envelope_keeps_volume(old(self).envelope);
        }
    }

    pub fn get_sweep_settings(&self) -> (res: u8)
        ensures
            res == self.sweep_settings_spec(),
    {
        if let Some(sweep) = self.sweep {
            ((sweep.configured_period & 0x07) << 4)
                | ((match sweep.configured_direction {
                SweepDirection::Increase => 0u8,
                SweepDirection::Decrease => 1u8,
            }) << 3) | (sweep.configured_shift & 0x07)
        } else {
            0xFF
        }
    }

    pub fn set_sweep_settings(&mut self, value: u8)
        requires
            old(self).wf(),
        ensures
            *final(self) == old(self).set_sweep_settings_next(value),
            final(self).wf(),
    {
        if let Some(mut sweep) = self.sweep {
            sweep.configured_period = (value >> 4) & 0x07;
            sweep.configured_direction = if (value & 0x08) != 0 {
                SweepDirection::Decrease
            } else {
                SweepDirection::Increase
            };
            sweep.configured_shift = value & 0x07;
            assert((value >> 4u8) & 0x07 <= 7 && value & 0x07 <= 7) by (bit_vector);
            self.sweep = Some(sweep);
        }
    }

    pub fn get_length_settings(&self) -> (res: u8)
        ensures
            res == self.length_settings_spec(),
    {
        (self.duty_cycle.to_bits() << 6) | (self.length_counter.get() & 0x3F)
    }

    pub fn set_length_settings(&mut self, value: u8)
        ensures
            *final(self) == old(self).set_length_settings_next(value),
    {
        self.duty_cycle = DutyCycle::from_bits(value >> 6);
        // A zero length field loads the maximum length, 64 (64 - 0).
        self.length_counter.load(value & 0x3F);
    }

    pub fn get_envelope_settings(&self) -> (res: u8)
        ensures
            res == envelope_settings(self.envelope),
    {
        get_envelope_bits(&self.envelope)
    }

    pub fn set_envelope_settings(&mut self, value: u8)
        requires
            old(self).wf(),
        ensures
            *final(self) == old(self).set_envelope_settings_next(value),
            final(self).wf(),
    {
        self.dac_enabled = set_envelope_bits(&mut self.envelope, value);
        if !self.dac_enabled {
            self.channel_enabled = false;
        }
    }

    pub fn set_period_low_settings(&mut self, value: u8)
        requires
            old(self).wf(),
        ensures
            *final(self) == old(self).set_period_low_settings_next(value),
            final(self).wf(),
    {
        self.timer.set_frequency_lsb(value);
    }

    pub fn get_period_high_control_settings(&self) -> (res: u8)
        requires
            self.wf(),
        ensures
            res == self.period_high_control_spec(),
    {
        (if self.length_counter.enabled {
            BIT_6
        } else {
            0
        }) | (if self.channel_enabled {
            BIT_7
        } else {
            0
        }) | (self.timer.get_frequency_msb() & 0x07)
    }

    pub fn set_period_high_control_settings(&mut self, value: u8)
        requires
            old(self).wf(),
        ensures
            *final(self) == old(self).set_period_high_control_settings_next(value),
            final(self).wf(),
    {
        if value & BIT_7 != 0 {
            self.trigger();
        }
        self.length_counter.enabled = (value & BIT_6) != 0;
        self.timer.set_frequency_msb(value);
    }
}

/// NRx4 reads back what was written: the length-enable bit and the three frequency bits
/// of `value`, with bit 7 showing whether the channel is on. Bit 7 of `value` turns a
/// channel with its DAC on, and a write without it leaves the channel as it was.
pub proof fn lemma_period_high_readback(ch: PulseChannel, value: u8)
    ensures
        ({
            let n = ch.set_period_high_control_settings_next(value);
            &&& n.period_high_control_spec() == ((value & 0x47u8) | (if n.channel_enabled { 0x80u8 } else { 0u8 }))
            &&& ((value & 0x80u8) != 0 && ch.dac_enabled ==> n.channel_enabled)
            &&& ((value & 0x80u8) == 0 ==> n.channel_enabled == ch.channel_enabled)
        }),
{
    let n = ch.set_period_high_control_settings_next(value);
    let f = n.timer.frequency;
    assert(f == (value % 8) as u16 * 256 + (if value & BIT_7 != 0 { ch.trigger_next() } else { ch }).timer.frequency % 256);
    assert(n.timer.msb() == value % 8);
    let a: u8 = if n.length_counter.enabled { 0x40u8 } else { 0u8 };
    let m: u8 = n.timer.msb() & 0x07u8;
    let top: u8 = if n.channel_enabled { 0x80u8 } else { 0u8 };
    assert((a | top | m) == ((value & 0x47u8) | top)) by (bit_vector)
        requires
            a == (if (value & 0x40u8) != 0 { 0x40u8 } else { 0u8 }),
            m == ((value % 8) & 0x07u8),
            top == 0x80u8 || top == 0u8,
    ;
}

/// State after `k` length clocks.
pub open spec fn length_clocked(ch: PulseChannel, k: nat) -> PulseChannel
    decreases k,
{
    if k == 0 {
        ch
    } else {
        length_clocked(ch, (k - 1) as nat).clock_length_counter_next()
    }
}

/// With the length counter enabled, `k` clocks (fewer than the counter) count it down and
/// leave the channel as it was.
pub proof fn lemma_length_counts_down(ch: PulseChannel, k: nat)
    requires
        ch.length_counter.enabled,
        k < ch.length_counter.counter,
    ensures
        length_clocked(ch, k).length_counter.counter == ch.length_counter.counter - k,
        length_clocked(ch, k).length_counter.enabled,
        length_clocked(ch, k).channel_enabled == ch.channel_enabled,
    decreases k,
{
    if k > 0 {
        lemma_length_counts_down(ch, (k - 1) as nat);
    }
}

/// NRx1's length field `t` gives the channel `64 - t` length clocks, the maximum 64 for a
/// zero field: with the length counter enabled, the channel is still on after fewer
/// clocks and off after exactly that many.
pub proof fn lemma_length_field(ch: PulseChannel, value: u8)
    requires
        ch.length_counter.enabled,
    ensures
        ({
            let n = ch.set_length_settings_next(value);
            let t = value & 0x3F;
            &&& n.length_counter.counter == 64 - t
            &&& (t == 0 ==> n.length_counter.counter == 64)
            &&& n.channel_enabled ==> length_clocked(n, (63 - t) as nat).channel_enabled
            &&& !length_clocked(n, (64 - t) as nat).channel_enabled
        }),
{
    let n = ch.set_length_settings_next(value);
    let t = value & 0x3F;
    crate::bits::lemma_u8_and_le(value, 0x3F);
    lemma_length_counts_down(n, (63 - t) as nat);
    assert(length_clocked(n, (64 - t) as nat) == length_clocked(n, (63 - t) as nat).clock_length_counter_next());
}

} // verus!
