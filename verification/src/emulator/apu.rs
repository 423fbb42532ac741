use vstd::prelude::*;
use crate::bits::{BIT_0, BIT_1, BIT_2, BIT_3, BIT_7};

pub mod channel;
pub mod channels;
pub mod duty_cycle;
pub mod envelope;
pub mod length_counter;
pub mod pulse_phase_timer;
pub mod sweep;

use channel::noise_channel::{envelope_settings, NoiseChannel};
use channel::pulse_channel::PulseChannel;
use channel::wave_channel::WaveChannel;

verus! {

/// Audio processing unit: four channels, a frame sequencer and the master registers.
/// The analog mixing of the channels' levels is done outside the library.
#[derive(Clone, Copy)]
pub struct Apu {
    pub enabled: bool,
    pub frame_sequencer_step: u8,
    pub frame_sequencer_counter: u16,
    pub master_volume: u8,
    pub sound_panning: u8,
    pub channel_1: PulseChannel,
    pub channel_2: PulseChannel,
    pub channel_3: WaveChannel,
    pub channel_4: NoiseChannel,
}

impl Apu {
    pub open spec fn wf(self) -> bool {
        &&& self.frame_sequencer_step < 8
        &&& self.frame_sequencer_counter < 2048
        &&& self.channel_1.wf()
        &&& self.channel_2.wf()
        &&& self.channel_3.wf()
        &&& self.channel_4.wf()
        &&& self.channel_1.sweep is Some
        &&& self.channel_2.sweep is None
    }

    /// NR52: master enable in bit 7 and the channels' status in bits 0-3.
    pub open spec fn master_control_spec(self) -> u8 {
        ((if self.enabled { BIT_7 } else { 0 }) | (if self.channel_4.channel_enabled { BIT_3 } else { 0 })
            | (if self.channel_3.channel_enabled { BIT_2 } else { 0 })
            | (if self.channel_2.channel_enabled { BIT_1 } else { 0 })
            | (if self.channel_1.channel_enabled { BIT_0 } else { 0 })) as u8
    }

    /// Value read from an audio register.
    pub open spec fn read_spec(self, addr: u16) -> u8 {
        if addr == 0xFF10 {
            self.channel_1.sweep_settings_spec() | 0x80
        } else if addr == 0xFF11 {
            self.channel_1.length_settings_spec() | 0x3F
        } else if addr == 0xFF12 {
            envelope_settings(self.channel_1.envelope)
        } else if addr == 0xFF14 {
            self.channel_1.period_high_control_spec() | 0xBF
        } else if addr == 0xFF16 {
            self.channel_2.length_settings_spec() | 0x3F
        } else if addr == 0xFF17 {
            envelope_settings(self.channel_2.envelope)
        } else if addr == 0xFF19 {
            self.channel_2.period_high_control_spec() | 0xBF
        } else if addr == 0xFF1A {
            if self.channel_3.dac_enabled { BIT_7 } else { 0 }
        } else if addr == 0xFF1C {
            (self.channel_3.volume_shift * 32) as u8
        } else if addr == 0xFF1E {
            ((if self.channel_3.length_counter.enabled { 0x40u8 } else { 0u8 })
                | ((self.channel_3.timer_period >> 8u16) as u8 & 0x07)) | 0xBF
        } else if addr == 0xFF21 {
            envelope_settings(self.channel_4.envelope)
        } else if addr == 0xFF22 {
            (self.channel_4.clock_divider & 0x07) | (if self.channel_4.width_mode { 0x08u8 } else { 0x00u8 })
        } else if addr == 0xFF23 {
            (if self.channel_4.length_counter.enabled { 0x40u8 } else { 0u8 }) | 0xBF
        } else if addr == 0xFF24 {
            self.master_volume
        } else if addr == 0xFF25 {
            self.sound_panning
        } else if addr == 0xFF26 {
            self.master_control_spec()
        } else if 0xFF30 <= addr <= 0xFF3F {
            self.channel_3.read_wave_ram_spec((addr - 0xFF30) as u8)
        } else {
            0xFF
        }
    }

    /// State after writing `value` to an audio register; only NR52 is writable while the
    /// unit is off.
    pub open spec fn write_next(self, addr: u16, value: u8) -> Apu {
        if !self.enabled && addr != 0xFF26 {
            self
        } else if addr == 0xFF10 {
            Apu { channel_1: self.channel_1.set_sweep_settings_next(value), ..self }
        } else if addr == 0xFF11 {
            Apu { channel_1: self.channel_1.set_length_settings_next(value), ..self }
        } else if addr == 0xFF12 {
            Apu { channel_1: self.channel_1.set_envelope_settings_next(value), ..self }
        } else if addr == 0xFF13 {
            Apu { channel_1: self.channel_1.set_period_low_settings_next(value), ..self }
        } else if addr == 0xFF14 {
            Apu { channel_1: self.channel_1.set_period_high_control_settings_next(value), ..self }
        } else if addr == 0xFF16 {
            Apu { channel_2: self.channel_2.set_length_settings_next(value), ..self }
        } else if addr == 0xFF17 {
            Apu { channel_2: self.channel_2.set_envelope_settings_next(value), ..self }
        } else if addr == 0xFF18 {
            Apu { channel_2: self.channel_2.set_period_low_settings_next(value), ..self }
        } else if addr == 0xFF19 {
            Apu { channel_2: self.channel_2.set_period_high_control_settings_next(value), ..self }
        } else if addr == 0xFF1A {
            Apu { channel_3: self.channel_3.set_dac_settings_next(value), ..self }
        } else if addr == 0xFF1B {
            Apu { channel_3: self.channel_3.set_length_settings_next(value), ..self }
        } else if addr == 0xFF1C {
            Apu { channel_3: self.channel_3.set_volume_settings_next(value), ..self }
        } else if addr == 0xFF1D {
            Apu { channel_3: self.channel_3.set_period_low_settings_next(value), ..self }
        } else if addr == 0xFF1E {
            Apu { channel_3: self.channel_3.set_period_high_control_settings_next(value), ..self }
        } else if addr == 0xFF20 {
            Apu { channel_4: self.channel_4.set_length_settings_next(value), ..self }
        } else if addr == 0xFF21 {
            Apu { channel_4: self.channel_4.set_envelope_settings_next(value), ..self }
        } else if addr == 0xFF22 {
            Apu { channel_4: self.channel_4.set_frequency_settings_next(value), ..self }
        } else if addr == 0xFF23 {
            Apu { channel_4: self.channel_4.set_control_settings_next(value), ..self }
        } else if addr == 0xFF24 {
            Apu { master_volume: value, ..self }
        } else if addr == 0xFF25 {
            Apu { sound_panning: value, ..self }
        } else if addr == 0xFF26 {
            Apu { enabled: (value & BIT_7) != 0, ..self }
        } else if 0xFF30 <= addr <= 0xFF3F {
            Apu { channel_3: self.channel_3.write_wave_ram_next((addr - 0xFF30) as u8, value), ..self }
        } else {
            self
        }
    }

    /// State after one frame-sequencer step: length counters on even steps, the sweep on
    /// steps 2 and 6, envelopes on step 7.
    pub open spec fn frame_sequencer_next(self) -> Apu {
        let step = self.frame_sequencer_step;
        let a = if step % 2 == 0 {
            let a1 = Apu {
                channel_1: self.channel_1.clock_length_counter_next(),
                channel_2: self.channel_2.clock_length_counter_next(),
                channel_3: self.channel_3.clock_length_counter_next(),
                channel_4: self.channel_4.clock_length_counter_next(),
                ..self
            };
            if step == 2 || step == 6 {
                Apu { channel_1: a1.channel_1.clock_sweep_next(), ..a1 }
            } else {
                a1
            }
        } else if step == 7 {
            Apu {
                channel_1: self.channel_1.clock_envelope_next(),
                channel_2: self.channel_2.clock_envelope_next(),
                channel_4: self.channel_4.clock_envelope_next(),
                ..self
            }
        } else {
            self
        };
        Apu { frame_sequencer_step: ((step + 1) % 8) as u8, ..a }
    }

    /// State after one T-cycle.
    pub open spec fn tick_next(self) -> Apu {
        if !self.enabled {
            self
        } else {
            let a = Apu {
                channel_1: self.channel_1.tick_next(),
                channel_2: self.channel_2.tick_next(),
                channel_3: self.channel_3.tick_next(),
                channel_4: self.channel_4.tick_next(),
                frame_sequencer_counter: (self.frame_sequencer_counter + 1) as u16,
                ..self
            };
            if a.frame_sequencer_counter >= 2048 {
                Apu { frame_sequencer_counter: 0, ..a }.frame_sequencer_next()
            } else {
                a
            }
        }
    }

    pub fn new() -> (res: Self)
        ensures
            !res.enabled,
            res.frame_sequencer_step == 0,
            res.frame_sequencer_counter == 0,
            res.master_volume == 0,
            res.sound_panning == 0,
            res.channel_1 == PulseChannel::initial(Some(crate::emulator::apu::sweep::Sweep::new_spec())),
            res.channel_2 == PulseChannel::initial(None),
            res.wf(),
    {
        Self {
            enabled: false,
            frame_sequencer_step: 0,
            frame_sequencer_counter: 0,
            master_volume: 0,
            sound_panning: 0,
            channel_1: PulseChannel::new_with_sweep(),
            channel_2: PulseChannel::new(),
            channel_3: WaveChannel::new(),
            channel_4: NoiseChannel::new(),
        }
    }

    /// Reads an audio register (0xFF10-0xFF3F).
    pub fn read(&self, addr: u16) -> (res: u8)
        requires
            self.wf(),
            0xFF10 <= addr <= 0xFF3F,
        ensures
            res == self.read_spec(addr),
    {
        match addr {
            0xFF10 => self.channel_1.get_sweep_settings() | 0x80,
            0xFF11 => self.channel_1.get_length_settings() | 0x3F,
            0xFF12 => self.channel_1.get_envelope_settings(),
            0xFF14 => self.channel_1.get_period_high_control_settings() | 0xBF,
            0xFF16 => self.channel_2.get_length_settings() | 0x3F,
            0xFF17 => self.channel_2.get_envelope_settings(),
            0xFF19 => self.channel_2.get_period_high_control_settings() | 0xBF,
            0xFF1A => self.channel_3.get_dac_settings(),
            0xFF1C => self.channel_3.get_volume_settings(),
            0xFF1E => self.channel_3.get_period_high_control_settings() | 0xBF,
            0xFF21 => self.channel_4.get_envelope_settings(),
            0xFF22 => self.channel_4.get_frequency_settings(),
            0xFF23 => self.channel_4.get_control_settings() | 0xBF,
            0xFF24 => self.master_volume,
            0xFF25 => self.sound_panning,
            0xFF26 => self.get_master_control(),
            0xFF30..=0xFF3F => self.channel_3.read_wave_ram((addr - 0xFF30) as u8),
            _ => 0xFF,
        }
    }

    /// Writes an audio register; while the unit is off only NR52 can be written.
    pub fn write(&mut self, addr: u16, value: u8)
        requires
            old(self).wf(),
        ensures
            *final(self) == old(self).write_next(addr, value),
            final(self).wf(),
    {
        if !self.enabled && addr != 0xFF26 {
            return;
        }
        match addr {
            0xFF10 => self.channel_1.set_sweep_settings(value),
            0xFF11 => self.channel_1.set_length_settings(value),
            0xFF12 => self.channel_1.set_envelope_settings(value),
            0xFF13 => self.channel_1.set_period_low_settings(value),
            0xFF14 => self.channel_1.set_period_high_control_settings(value),
            0xFF16 => self.channel_2.set_length_settings(value),
            0xFF17 => self.channel_2.set_envelope_settings(value),
            0xFF18 => self.channel_2.set_period_low_settings(value),
            0xFF19 => self.channel_2.set_period_high_control_settings(value),
            0xFF1A => self.channel_3.set_dac_settings(value),
            0xFF1B => self.channel_3.set_length_settings(value),
            0xFF1C => self.channel_3.set_volume_settings(value),
            0xFF1D => self.channel_3.set_period_low_settings(value),
            0xFF1E => self.channel_3.set_period_high_control_settings(value),
            0xFF20 => self.channel_4.set_length_settings(value),
            0xFF21 => self.channel_4.set_envelope_settings(value),
            0xFF22 => self.channel_4.set_frequency_settings(value),
            0xFF23 => self.channel_4.set_control_settings(value),
            0xFF24 => self.master_volume = value,
            0xFF25 => self.sound_panning = value,
            0xFF26 => self.set_master_control(value),
            0xFF30..=0xFF3F => self.channel_3.write_wave_ram((addr - 0xFF30) as u8, value),
            _ => {},
        }
    }

    /// Advances the unit by one T-cycle; the frame sequencer steps every 2048 cycles.
    pub fn tick(&mut self)
        requires
            old(self).wf(),
        ensures
            *final(self) == old(self).tick_next(),
            final(self).wf(),
    {
        if !self.enabled {
            return;
        }
        self.channel_1.tick();
        self.channel_2.tick();
        self.channel_3.tick();
        self.channel_4.tick();
        self.frame_sequencer_counter += 1;
        if self.frame_sequencer_counter >= 2048 {
            self.frame_sequencer_counter = 0;
            self.clock_frame_sequencer();
        }
    }

    fn clock_frame_sequencer(&mut self)
        requires
            old(self).wf(),
        ensures
            *final(self) == old(self).frame_sequencer_next(),
            final(self).wf(),
    {
        if self.frame_sequencer_step % 2 == 0 {
            self.channel_1.clock_length_counter();
            self.channel_2.clock_length_counter();
            self.channel_3.clock_length_counter();
            self.channel_4.clock_length_counter();
            if self.frame_sequencer_step == 2 || self.frame_sequencer_step == 6 {
                self.channel_1.clock_sweep();
            }
        } else if self.frame_sequencer_step == 7 {
            self.channel_1.clock_envelope();
            self.channel_2.clock_envelope();
            self.channel_4.clock_envelope();
        }
        self.frame_sequencer_step = (self.frame_sequencer_step + 1) % 8;
    }

    fn get_master_control(&self) -> (res: u8)
        ensures
            res == self.master_control_spec(),
    {
        (if self.enabled { BIT_7 } else { 0 }) | (if self.channel_4.channel_enabled { BIT_3 } else { 0 })
            | (if self.channel_3.channel_enabled { BIT_2 } else { 0 })
            | (if self.channel_2.channel_enabled { BIT_1 } else { 0 })
            | (if self.channel_1.channel_enabled { BIT_0 } else { 0 })
    }

    fn set_master_control(&mut self, value: u8)
        ensures
            *final(self) == (Apu { enabled: (value & BIT_7) != 0, ..*old(self) }),
    {
        self.enabled = (value & BIT_7) != 0;
    }
}

} // verus!
