use vstd::prelude::*;
use crate::bits::{BIT_6, BIT_7};
use crate::emulator::apu::length_counter::LengthCounter;

verus! {

pub const SAMPLE_COUNT: u8 = 32;
pub const SAMPLES_PER_BYTE: u8 = 2;
pub const WAVE_RAM_SIZE: u8 = 16;

/// Third sound channel: plays 32 4-bit samples stored in wave RAM.
#[derive(Clone, Copy)]
pub struct WaveChannel {
    pub channel_enabled: bool,
    pub dac_enabled: bool,
    pub wave_ram: [u8; 16],
    pub sample_position: u8,
    pub timer: u16,
    pub timer_period: u16,
    pub volume_shift: u8,
    pub length_counter: LengthCounter,
}

impl WaveChannel {
    /// The sample position indexes the 32 samples; the volume shift is a 2-bit field.
    pub open spec fn wf(self) -> bool {
        &&& self.sample_position < 32
        &&& self.volume_shift <= 3
    }

    pub open spec fn ram(self) -> Seq<u8> {
        self.wave_ram@
    }

    /// Index in wave RAM of the byte holding the current sample.
    pub open spec fn sample_byte_index(self) -> int {
        self.sample_position as int / 2
    }

    pub open spec fn with_ram_byte(self, index: int, value: u8) -> WaveChannel {
        WaveChannel { wave_ram: vstd::array::spec_array_update(self.wave_ram, index, value), ..self }
    }

    pub open spec fn tick_next(self) -> WaveChannel {
        if self.timer > 0 {
            WaveChannel { timer: (self.timer - 1) as u16, ..self }
        } else {
            WaveChannel {
                timer: self.timer_period,
                sample_position: if self.channel_enabled && self.dac_enabled {
                    ((self.sample_position + 1) % 32) as u8
                } else {
                    self.sample_position
                },
                ..self
            }
        }
    }

    pub open spec fn clock_length_counter_next(self) -> WaveChannel {
        let (lc, en) = self.length_counter.clock_next(self.channel_enabled);
        WaveChannel { length_counter: lc, channel_enabled: en, ..self }
    }

    pub open spec fn trigger_next(self) -> WaveChannel {
        WaveChannel {
            channel_enabled: if self.dac_enabled { true } else { self.channel_enabled },
            sample_position: 0,
            timer: self.timer_period,
            length_counter: self.length_counter.trigger_next(),
            ..self
        }
    }

    pub open spec fn set_dac_settings_next(self, value: u8) -> WaveChannel {
        let dac = (value & BIT_7) != 0;
        WaveChannel {
            dac_enabled: dac,
            channel_enabled: if dac { self.channel_enabled } else { false },
            ..self
        }
    }

    pub open spec fn set_length_settings_next(self, value: u8) -> WaveChannel {
        WaveChannel {
            length_counter: LengthCounter {
                counter: LengthCounter::loaded_value(value),
                ..self.length_counter
            },
            ..self
        }
    }

    pub open spec fn set_volume_settings_next(self, value: u8) -> WaveChannel {
        WaveChannel { volume_shift: (value / 32) % 4, ..self }
    }

    pub open spec fn set_period_low_settings_next(self, value: u8) -> WaveChannel {
        WaveChannel { timer_period: ((self.timer_period / 256) * 256 + value) as u16, ..self }
    }

    pub open spec fn set_period_high_control_settings_next(self, value: u8) -> WaveChannel {
        let t = if value & BIT_7 != 0 { self.trigger_next() } else { self };
        let frequency = t.timer_period % 256 + (value % 8) * 256;
        WaveChannel {
            length_counter: LengthCounter { enabled: (value & BIT_6) != 0, ..t.length_counter },
            timer_period: ((2048 - frequency) * 2) as u16,
            ..t
        }
    }

    pub open spec fn write_wave_ram_next(self, offset: u8, value: u8) -> WaveChannel {
        if offset < 16 {
            if self.channel_enabled {
                self.with_ram_byte(self.sample_byte_index(), value)
            } else {
                self.with_ram_byte(offset as int, value)
            }
        } else {
            self
        }
    }

    pub open spec fn read_wave_ram_spec(self, offset: u8) -> u8 {
        if offset < 16 {
            if self.channel_enabled {
                self.wave_ram@[self.sample_byte_index()]
            } else {
                self.wave_ram@[offset as int]
            }
        } else {
            0xFF
        }
    }

    /// Current 4-bit sample after the volume shift (0 when the channel or its DAC is off).
    pub open spec fn digital_spec(self) -> u8 {
        if !self.channel_enabled || !self.dac_enabled {
            0
        } else {
            let byte = self.wave_ram@[self.sample_byte_index()];
            let nibble = if self.sample_position % 2 == 0 { byte / 16 } else { byte % 16 };
            if self.volume_shift == 1 {
                nibble
            } else if self.volume_shift == 2 {
                nibble / 2
            } else if self.volume_shift == 3 {
                nibble / 4
            } else {
                0
            }
        }
    }

    pub fn new() -> (res: Self)
        ensures
            !res.channel_enabled,
            !res.dac_enabled,
            forall|i: int| 0 <= i < 16 ==> res.wave_ram@[i] == 0,
            res.sample_position == 0,
            res.timer == 0,
            res.timer_period == 0,
            res.volume_shift == 0,
            !res.length_counter.enabled,
            res.length_counter.counter == 64,
            res.wf(),
    {
        Self {
            channel_enabled: false,
            dac_enabled: false,
            wave_ram: [0u8; 16],
            sample_position: 0,
            timer: 0,
            timer_period: 0,
            volume_shift: 0,
            length_counter: LengthCounter::new(),
        }
    }

    pub fn tick(&mut self)
        requires
            old(self).wf(),
        ensures
            *final(self) == old(self).tick_next(),
            final(self).wf(),
    {
        if self.timer > 0 {
            self.timer -= 1;
        } else {
            self.timer = self.timer_period;
            if self.channel_enabled && self.dac_enabled {
                self.sample_position = (self.sample_position + 1) % SAMPLE_COUNT;
            }
        }
    }

    pub fn clock_length_counter(&mut self)
        ensures
            *final(self) == old(self).clock_length_counter_next(),
    {
        self.length_counter.clock(&mut self.channel_enabled);
    }

    /// Current digital sample (0..=15).
    pub fn digital_output(&self) -> (res: u8)
        requires
            self.wf(),
        ensures
            res == self.digital_spec(),
    {
        if !self.channel_enabled || !self.dac_enabled {
            return 0;
        }
        let byte_index = (self.sample_position / 2) as usize;
        let byte = self.wave_ram[byte_index];
        assert(byte >> 4u8 == byte / 16 && (byte >> 4u8) & 0x0F == byte >> 4u8 && byte & 0x0F == byte % 16
            && (byte >> 4u8) >> 1u8 == (byte / 16) / 2 && (byte >> 4u8) >> 2u8 == (byte / 16) / 4
            && (byte & 0x0F) >> 1u8 == (byte % 16) / 2 && (byte & 0x0F) >> 2u8 == (byte % 16) / 4)
            by (bit_vector);
        let nibble = if self.sample_position % 2 == 0 {
            (byte >> 4) & 0x0F
        } else {
            byte & 0x0F
        };
        match self.volume_shift {
            0 => 0,
            1 => nibble,
            2 => nibble >> 1,
            3 => nibble >> 2,
            _ => 0,
        }
    }

    fn trigger(&mut self)
        requires
            old(self).wf(),
        ensures
            *final(self) == old(self).trigger_next(),
            final(self).wf(),
    {
        if self.dac_enabled {
            self.channel_enabled = true;
        }
        self.sample_position = 0;
        self.timer = self.timer_period;
        self.length_counter.trigger();
    }

    pub fn get_dac_settings(&self) -> (res: u8)
        ensures
            res == (if self.dac_enabled { BIT_7 } else { 0 }),
    {
        if self.dac_enabled {
            BIT_7
        } else {
            0
        }
    }

    pub fn set_dac_settings(&mut self, value: u8)
        ensures
            *final(self) == old(self).set_dac_settings_next(value),
    {
        self.dac_enabled = (value & BIT_7) != 0;
        if !self.dac_enabled {
            self.channel_enabled = false;
        }
    }

    pub fn set_length_settings(&mut self, value: u8)
        ensures
            *final(self) == old(self).set_length_settings_next(value),
    {
        self.length_counter.load(value);
    }

    pub fn get_volume_settings(&self) -> (res: u8)
        requires
            self.wf(),
        ensures
            res == self.volume_shift * 32,
    {
        let v = self.volume_shift;
        assert(v <= 3 ==> (v & 0x03) << 5u8 == v * 32) by (bit_vector);
        (self.volume_shift & 0x03) << 5
    }

    pub fn set_volume_settings(&mut self, value: u8)
        ensures
            *final(self) == old(self).set_volume_settings_next(value),
    {
        assert((value >> 5u8) & 0x03 == (value / 32) % 4) by (bit_vector);
        self.volume_shift = (value >> 5) & 0x03;
    }

    pub fn set_period_low_settings(&mut self, value: u8)
        ensures
            *final(self) == old(self).set_period_low_settings_next(value),
    {
        let p = self.timer_period;
        assert((p & 0xFF00) | (value as u16) == (p / 256) * 256 + value) by (bit_vector);
        self.timer_period = (self.timer_period & 0xFF00) | (value as u16);
    }

    pub fn get_period_high_control_settings(&self) -> (res: u8)
        ensures
            res == ((if self.length_counter.enabled { BIT_6 } else { 0 })
                | ((self.timer_period >> 8u16) as u8 & 0x07)),
    {
        (if self.length_counter.enabled {
            BIT_6
        } else {
            0
        }) | ((self.timer_period >> 8) as u8 & 0x07)
    }

    /// NR34: optional trigger, length enable, and the high frequency bits; the timer period
    /// becomes `(2048 - frequency) * 2`.
    pub fn set_period_high_control_settings(&mut self, value: u8)
        requires
            old(self).wf(),
        ensures
            *final(self) == old(self).set_period_high_control_settings_next(value),
            final(self).wf(),
    {
        if value & BIT_7 != 0 {
            self.trigger();
        }
        self.length_counter.enabled = (value & BIT_6) != 0;
        let p = self.timer_period;
        assert((p & 0x00FF) | (((value & 0x07) as u16) << 8u16) == p % 256 + (value % 8) * 256)
            by (bit_vector);
        let frequency = (self.timer_period & 0x00FF) | (((value & 0x07) as u16) << 8);
        self.timer_period = (2048 - frequency) * 2;
    }

    pub fn read_wave_ram(&self, offset: u8) -> (res: u8)
        requires
            self.wf(),
        ensures
            res == self.read_wave_ram_spec(offset),
    {
        if offset < 16 {
            if self.channel_enabled {
                self.wave_ram[self.current_sample_index()]
            } else {
                self.wave_ram[offset as usize]
            }
        } else {
            0xFF
        }
    }

    pub fn write_wave_ram(&mut self, offset: u8, value: u8)
        requires
            old(self).wf(),
        ensures
            *final(self) == old(self).write_wave_ram_next(offset, value),
            final(self).wf(),
    {
        if offset < WAVE_RAM_SIZE {
            let i = if self.channel_enabled {
                self.current_sample_index()
            } else {
                offset as usize
            };
            self.wave_ram[i] = value;
            proof {
                broadcast use vstd::array::axiom_spec_array_update, vstd::array::axiom_array_ext_equal;
                assert(self.wave_ram =~= vstd::array::spec_array_update(old(self).wave_ram, i as int, value));
            }
        }
    }

    fn current_sample_index(&self) -> (res: usize)
        requires
            self.wf(),
        ensures
            res == self.sample_byte_index(),
            res < 16,
    {
        (self.sample_position / 2) as usize
    }
}

/// With the channel off, a byte written to wave RAM is read back unchanged.
pub proof fn lemma_wave_ram_read_after_write(w: WaveChannel, offset: u8, value: u8)
    requires
        w.wf(),
        !w.channel_enabled,
        offset < 16,
    ensures
        w.write_wave_ram_next(offset, value).read_wave_ram_spec(offset) == value,
{
    broadcast use vstd::array::axiom_spec_array_update;
}

} // verus!
