use vstd::prelude::*;
use crate::bits::{BIT_6, BIT_7};
use crate::emulator::apu::envelope::{Envelope, EnvelopeDirection};
use crate::emulator::apu::length_counter::LengthCounter;

verus! {

pub const LFSR_INITIAL: u16 = 0x7FFF;

/// Fourth sound channel: pseudo-random noise from a linear-feedback shift register.
#[derive(Clone, Copy)]
pub struct NoiseChannel {
    pub channel_enabled: bool,
    pub dac_enabled: bool,
    pub lfsr: u16,
    pub clock_divider: u8,
    pub width_mode: bool,
    pub timer: u16,
    pub timer_period: u16,
    pub length_counter: LengthCounter,
    pub envelope: Envelope,
}

/// Encoding of an envelope's configuration as in NRx2.
pub open spec fn envelope_settings(e: Envelope) -> u8 {
    ((e.starting_volume << 4u8) | ((if e.configured_direction == EnvelopeDirection::Increasing { 1u8 } else { 0u8 }) << 3u8)
        | (e.configured_period & 0x07)) as u8
}

/// Envelope after writing NRx2 with `value`.
pub open spec fn envelope_with_settings(e: Envelope, value: u8) -> Envelope {
    Envelope {
        starting_volume: (value >> 4u8) & 0x0F,
        configured_direction: if (value & 0x08) != 0 {
            EnvelopeDirection::Increasing
        } else {
            EnvelopeDirection::Decreasing
        },
        configured_period: value & 0x07,
        ..e
    }
}

/// Reads the configuration of `e` as NRx2.
pub fn get_envelope_bits(e: &Envelope) -> (res: u8)
    ensures
        res == envelope_settings(*e),
{
    (e.starting_volume << 4)
        | ((match e.configured_direction {
        EnvelopeDirection::Increasing => 1u8,
        EnvelopeDirection::Decreasing => 0u8,
    }) << 3) | (e.configured_period & 0x07)
}

/// Writes NRx2 into the configuration of `e`; returns whether the DAC is on.
pub fn set_envelope_bits(e: &mut Envelope, value: u8) -> (dac_on: bool)
    ensures
        *final(e) == envelope_with_settings(*old(e), value),
        dac_on == ((value & 0xF8) != 0),
        final(e).starting_volume <= 15,
{
    e.starting_volume = (value >> 4) & 0x0F;
    e.configured_direction = if (value & 0x08) != 0 {
        EnvelopeDirection::Increasing
    } else {
        EnvelopeDirection::Decreasing
    };
    e.configured_period = value & 0x07;
    assert((value >> 4u8) & 0x0F <= 15) by (bit_vector);
    (value & 0xF8) != 0
}

/// Next value of a noise LFSR: shift right, feed back bit0 XOR bit1 into bit 14 (and bit 6
/// in 7-bit mode).
pub open spec fn lfsr_step(lfsr: u16, width_mode: bool) -> u16 {
    let feedback = (lfsr & 1) ^ ((lfsr >> 1u16) & 1);
    let shifted = (lfsr >> 1u16) | (feedback << 14u16);
    if width_mode {
        (shifted & !0x40u16) | (feedback << 6u16)
    } else {
        shifted
    }
}

impl NoiseChannel {
    pub open spec fn wf(self) -> bool {
        self.envelope.wf()
    }

    pub open spec fn trigger_next(self) -> NoiseChannel {
        NoiseChannel {
            channel_enabled: if self.dac_enabled { true } else { self.channel_enabled },
            lfsr: LFSR_INITIAL,
            timer: self.timer_period,
            length_counter: self.length_counter.trigger_next(),
            envelope: self.envelope.trigger_next(),
            ..self
        }
    }

    pub open spec fn tick_next(self) -> NoiseChannel {
        if self.timer > 0 {
            NoiseChannel { timer: (self.timer - 1) as u16, ..self }
        } else {
            NoiseChannel { timer: self.timer_period, lfsr: lfsr_step(self.lfsr, self.width_mode), ..self }
        }
    }

    pub open spec fn clock_length_counter_next(self) -> NoiseChannel {
        let (lc, en) = self.length_counter.clock_next(self.channel_enabled);
        NoiseChannel { length_counter: lc, channel_enabled: en, ..self }
    }

    pub open spec fn clock_envelope_next(self) -> NoiseChannel {
        NoiseChannel { envelope: self.envelope.clock_next(), ..self }
    }

    pub open spec fn set_length_settings_next(self, value: u8) -> NoiseChannel {
        NoiseChannel {
            length_counter: LengthCounter {
                counter: LengthCounter::loaded_value(value & 0x3F),
                ..self.length_counter
            },
            ..self
        }
    }

    pub open spec fn set_envelope_settings_next(self, value: u8) -> NoiseChannel {
        let dac = (value & 0xF8) != 0;
        NoiseChannel {
            envelope: envelope_with_settings(self.envelope, value),
            dac_enabled: dac,
            channel_enabled: if dac { self.channel_enabled } else { false },
            ..self
        }
    }

    /// Timer period selected by NR43: divisor (8 for code 0, else 16 * code) shifted left.
    pub open spec fn period_for(value: u8) -> u16 {
        let code = value & 0x07;
        let divisor: u16 = if code == 0 { 8 } else { (code as u16 * 16) as u16 };
        divisor << ((value >> 4u8) & 0x0F)
    }

    pub open spec fn set_frequency_settings_next(self, value: u8) -> NoiseChannel {
        NoiseChannel {
            clock_divider: value & 0x07,
            width_mode: (value & 0x08) != 0,
            timer_period: NoiseChannel::period_for(value),
            ..self
        }
    }

    pub open spec fn set_control_settings_next(self, value: u8) -> NoiseChannel {
        let t = if value & BIT_7 != 0 { self.trigger_next() } else { self };
        NoiseChannel {
            length_counter: LengthCounter { enabled: (value & BIT_6) != 0, ..t.length_counter },
            ..t
        }
    }

    /// Digital level of the channel: the inverted LFSR bit 0 times the envelope volume.
    pub open spec fn digital_spec(self) -> u8 {
        if !self.channel_enabled || !self.dac_enabled {
            0
        } else if self.lfsr & 1 == 0 {
            self.envelope.volume
        } else {
            0
        }
    }

    pub fn new() -> (res: Self)
        ensures
            !res.channel_enabled,
            !res.dac_enabled,
            res.lfsr == LFSR_INITIAL,
            res.clock_divider == 0,
            !res.width_mode,
            res.timer == 0,
            res.timer_period == 0,
            !res.length_counter.enabled,
            res.length_counter.counter == 64,
            res.envelope == Envelope::default_spec(),
            res.wf(),
    {
        Self {
            channel_enabled: false,
            dac_enabled: false,
            lfsr: LFSR_INITIAL,
            clock_divider: 0,
            width_mode: false,
            timer: 0,
            timer_period: 0,
            length_counter: LengthCounter::new(),
            envelope: Envelope::default(),
        }
    }

    pub fn tick(&mut self)
        ensures
            *final(self) == old(self).tick_next(),
    {
        if self.timer > 0 {
            self.timer -= 1;
        } else {
            self.timer = self.timer_period;
            self.clock_lfsr();
        }
    }

    fn clock_lfsr(&mut self)
        ensures
            *final(self) == (NoiseChannel { lfsr: lfsr_step(old(self).lfsr, old(self).width_mode), ..*old(self) }),
    {
        let bit0 = self.lfsr & 1;
        let bit1 = (self.lfsr >> 1) & 1;
        let feedback = bit0 ^ bit1;
        self.lfsr >>= 1;
        self.lfsr |= feedback << 14;
        if self.width_mode {
            self.lfsr &= !0x40;
            self.lfsr |= feedback << 6;
        }
    }

    pub fn clock_length_counter(&mut self)
        ensures
            *final(self) == old(self).clock_length_counter_next(),
    {
        self.length_counter.clock(&mut self.channel_enabled);
    }

    pub fn clock_envelope(&mut self)
        requires
            old(self).wf(),
        ensures
            *final(self) == old(self).clock_envelope_next(),
            final(self).wf(),
    {
        self.envelope.clock();
        proof {
            crate::emulator::apu::envelope::lemma_envelope_keeps_volume(old(self).envelope);
        }
    }

    /// Digital output level (0..=15) of the channel.
    pub fn digital_output(&self) -> (res: u8)
        ensures
            res == self.digital_spec(),
    {
        if !self.channel_enabled || !self.dac_enabled {
            return 0;
        }
        if (self.lfsr & 1) == 0 {
            self.envelope.volume
        } else {
            0
        }
    }

    fn trigger(&mut self)
        requires
            old(self).wf(),
        ensures
            *final(self) == old(self).trigger_next(),
            final(self).wf(),
    {
        if self.dac_enabled {
            self.channel_enabled = true;
        }
        self.lfsr = LFSR_INITIAL;
        self.timer = self.timer_period;
        self.length_counter.trigger();
        self.envelope.trigger();
    }

    pub fn set_length_settings(&mut self, value: u8)
        ensures
            *final(self) == old(self).set_length_settings_next(value),
    {
        self.length_counter.load(value & 0x3F);
    }

    pub fn get_envelope_settings(&self) -> (res: u8)
        ensures
            res == envelope_settings(self.envelope),
    {
        get_envelope_bits(&self.envelope)
    }

    pub fn set_envelope_settings(&mut self, value: u8)
        requires
            old(self).wf(),
        ensures
            *final(self) == old(self).set_envelope_settings_next(value),
            final(self).wf(),
    {
        self.dac_enabled = set_envelope_bits(&mut self.envelope, value);
        if !self.dac_enabled {
            self.channel_enabled = false;
        }
    }

    pub fn get_frequency_settings(&self) -> (res: u8)
        ensures
            res == ((self.clock_divider & 0x07) | (if self.width_mode { 0x08u8 } else { 0x00u8 })),
    {
        (self.clock_divider & 0x07) | (if self.width_mode { 0x08 } else { 0x00 })
    }

    pub fn set_frequency_settings(&mut self, value: u8)
        ensures
            *final(self) == old(self).set_frequency_settings_next(value),
    {
        self.clock_divider = value & 0x07;
        self.width_mode = (value & 0x08) != 0;
        assert(value & 0x07 <= 7) by (bit_vector);
        let divisor: u16 = match self.clock_divider {
            0 => 8,
            n => (n as u16) * 16,
        };
        let shift_amount = (value >> 4) & 0x0F;
        assert((value >> 4u8) & 0x0F <= 15) by (bit_vector);
        self.timer_period = divisor << shift_amount;
    }

    pub fn get_control_settings(&self) -> (res: u8)
        ensures
            res == (if self.length_counter.enabled { BIT_6 } else { 0 }),
    {
        if self.length_counter.enabled {
            BIT_6
        } else {
            0
        }
    }

    pub fn set_control_settings(&mut self, value: u8)
        requires
            old(self).wf(),
        ensures
            *final(self) == old(self).set_control_settings_next(value),
            final(self).wf(),
    {
        if value & BIT_7 != 0 {
            self.trigger();
        }
        self.length_counter.enabled = (value & BIT_6) != 0;
    }
}

} // verus!
