use vstd::prelude::*;
use crate::emulator::cart::mbc::mbc0::{byte_or_ff, read_or_ff};

verus! {

/// Number of 16-bit words in the serial EEPROM (256 bytes).
pub const EEPROM_SIZE: usize = 128;

/// Command being received or carried out by the EEPROM.
#[derive(Clone, Copy, PartialEq, Eq, Structural)]
pub enum EepromCommand {
    NoCommand,
    Read,
    Write,
    Erase,
    /// Erase/write enable.
    Ewen,
    /// Erase/write disable.
    Ewds,
    /// Erase all.
    Eral,
    /// Write all.
    Wral,
}

/// 93LC56-style serial EEPROM driven bit by bit through the MBC7 register 0x8.
#[derive(Clone, Copy)]
pub struct Eeprom {
    pub data: [u16; 128],
    /// Chip select.
    pub cs: bool,
    /// Clock.
    pub clk: bool,
    /// Data in.
    pub di: bool,
    /// Data out.
    pub do_: bool,
    pub write_enabled: bool,
    pub command: EepromCommand,
    pub address: u8,
    pub bit_count: u8,
    pub shift_register: u16,
    pub processing: bool,
}

/// Mathematical model of an [`Eeprom`]: its words as a sequence.
pub struct EepromView {
    pub data: Seq<u16>,
    pub cs: bool,
    pub clk: bool,
    pub di: bool,
    pub do_: bool,
    pub write_enabled: bool,
    pub command: EepromCommand,
    pub address: u8,
    pub bit_count: u8,
    pub shift_register: u16,
    pub processing: bool,
}

impl View for Eeprom {
    type V = EepromView;

    open spec fn view(&self) -> EepromView {
        EepromView {
            data: self.data@,
            cs: self.cs,
            clk: self.clk,
            di: self.di,
            do_: self.do_,
            write_enabled: self.write_enabled,
            command: self.command,
            address: self.address,
            bit_count: self.bit_count,
            shift_register: self.shift_register,
            processing: self.processing,
        }
    }
}

/// Every one of the words holds `value`.
pub open spec fn filled(value: u16) -> Seq<u16> {
    Seq::new(128, |_i: int| value)
}

impl EepromView {
    /// Word at `addr`, 0xFFFF past the end.
    pub open spec fn word(self, addr: u8) -> u16 {
        if (addr as int) < 128 {
            self.data[addr as int]
        } else {
            0xFFFF
        }
    }

    /// State after the 10 command bits in the shift register are decoded.
    pub open spec fn decode_next(self) -> EepromView {
        let opcode = (self.shift_register >> 6u16) & 0xFu16;
        let addr = (self.shift_register & 0x7Fu16) as u8;
        if opcode == 0 {
            EepromView { command: EepromCommand::Ewds, write_enabled: false, ..self }
        } else if opcode == 1 {
            EepromView { command: EepromCommand::Wral, bit_count: 10, ..self }
        } else if opcode == 2 {
            if self.write_enabled {
                EepromView { command: EepromCommand::Eral, data: filled(0xFFFF), processing: true, ..self }
            } else {
                EepromView { command: EepromCommand::Eral, ..self }
            }
        } else if opcode == 3 {
            EepromView { command: EepromCommand::Ewen, write_enabled: true, ..self }
        } else if opcode <= 7 {
            EepromView { command: EepromCommand::Write, address: addr, bit_count: 10, ..self }
        } else if opcode <= 11 {
            let w = self.word(addr);
            EepromView {
                command: EepromCommand::Read,
                address: addr,
                shift_register: w,
                bit_count: 0,
                do_: (w & 0x8000u16) != 0,
                ..self
            }
        } else if self.write_enabled && (addr as int) < 128 {
            EepromView {
                command: EepromCommand::Erase,
                address: addr,
                data: self.data.update(addr as int, 0xFFFF),
                processing: true,
                ..self
            }
        } else {
            EepromView { command: EepromCommand::Erase, address: addr, ..self }
        }
    }

    /// State after the 16 data bits of WRITE or WRAL have arrived.
    pub open spec fn execute_write_next(self) -> EepromView {
        let d = self.shift_register & 0xFFFFu16;
        if self.command == EepromCommand::Write {
            if self.write_enabled && (self.address as int) < 128 {
                EepromView { data: self.data.update(self.address as int, d), processing: true, ..self }
            } else {
                self
            }
        } else if self.command == EepromCommand::Wral {
            if self.write_enabled {
                EepromView { data: filled(d), processing: true, ..self }
            } else {
                self
            }
        } else {
            self
        }
    }

    /// State after one bit is clocked in from `di`. The bit counter wraps at 256.
    pub open spec fn shift_next(self) -> EepromView {
        if self.processing {
            self
        } else {
            let sr = (self.shift_register << 1u16) | (if self.di { 1u16 } else { 0u16 });
            let bc = if self.bit_count == 255 { 0u8 } else { (self.bit_count + 1) as u8 };
            let s = EepromView { shift_register: sr, bit_count: bc, ..self };
            if self.command == EepromCommand::NoCommand {
                if bc >= 10 { s.decode_next() } else { s }
            } else if self.command == EepromCommand::Write || self.command == EepromCommand::Wral {
                if bc >= 26 { s.execute_write_next() } else { s }
            } else {
                s
            }
        }
    }

    /// State after the MBC7 register 0x8 is written with `value` (CS bit 7, CLK bit 6, DI bit 1).
    pub open spec fn write_next(self, value: u8) -> EepromView {
        let new_cs = (value & 0x80u8) != 0;
        let new_clk = (value & 0x40u8) != 0;
        let new_di = (value & 0x02u8) != 0;
        let s1 = if new_cs && !self.cs {
            EepromView {
                bit_count: 0,
                shift_register: 0,
                command: EepromCommand::NoCommand,
                processing: false,
                do_: true,
                ..self
            }
        } else {
            self
        };
        let s2 = if !new_cs && self.cs { EepromView { bit_count: 0, shift_register: 0, ..s1 } } else { s1 };
        let s3 = EepromView { cs: new_cs, di: new_di, ..s2 };
        let s4 = if new_clk && !self.clk && new_cs { s3.shift_next() } else { s3 };
        EepromView { clk: new_clk, ..s4 }
    }

    /// State after the register 0x8 is read, and the value read (bit 0).
    pub open spec fn read_next(self) -> (EepromView, u8) {
        if self.processing {
            (EepromView { processing: false, ..self }, 1)
        } else if self.command == EepromCommand::Read && self.cs {
            let bit: u8 = if self.do_ { 1 } else { 0 };
            if self.clk && self.bit_count < 16 {
                let sr = self.shift_register << 1u16;
                (EepromView {
                    bit_count: (self.bit_count + 1) as u8,
                    shift_register: sr,
                    do_: (sr & 0x8000u16) != 0,
                    ..self
                }, bit)
            } else {
                (self, bit)
            }
        } else {
            (self, if self.do_ { 1u8 } else { 0u8 })
        }
    }
}

impl Eeprom {
    pub fn new() -> (res: Self)
        ensures
            res@ == (EepromView {
                data: filled(0xFFFF),
                cs: false,
                clk: false,
                di: false,
                do_: true,
                write_enabled: false,
                command: EepromCommand::NoCommand,
                address: 0,
                bit_count: 0,
                shift_register: 0,
                processing: false,
            }),
    {
        let mut e = Eeprom {
            data: [0u16; 128],
            cs: false,
            clk: false,
            di: false,
            do_: true,
            write_enabled: false,
            command: EepromCommand::NoCommand,
            address: 0,
            bit_count: 0,
            shift_register: 0,
            processing: false,
        };
        e.fill(0xFFFF);
        e
    }

    /// Sets every word to `value`.
    fn fill(&mut self, value: u16)
        ensures
            final(self)@ == (EepromView { data: filled(value), ..old(self)@ }),
    {
        let mut d = self.data;
        let mut i: usize = 0;
        while i < EEPROM_SIZE
            invariant
                i <= 128,
                d@.len() == 128,
                forall|j: int| 0 <= j < i ==> d@[j] == value,
            decreases 128 - i,
        {
            d[i] = value;
            i = i + 1;
        }
        assert(d@ =~= filled(value));
        self.data = d;
    }

    /// Word at `addr`, 0xFFFF past the end.
    fn read_word(&self, addr: u8) -> (res: u16)
        ensures
            res == self@.word(addr),
    {
        if (addr as usize) < EEPROM_SIZE {
            self.data[addr as usize]
        } else {
            0xFFFF
        }
    }

    fn start_read(&mut self)
        ensures
            final(self)@ == (EepromView { do_: (old(self).shift_register & 0x8000u16) != 0, ..old(self)@ }),
    {
        self.do_ = (self.shift_register & 0x8000) != 0;
    }

    fn decode_command(&mut self)
        ensures
            final(self)@ == old(self)@.decode_next(),
    {
        let opcode = (self.shift_register >> 6) & 0xF;
        let addr = (self.shift_register & 0x7F) as u8;
        if opcode == 0 {
            self.command = EepromCommand::Ewds;
            self.write_enabled = false;
        } else if opcode == 1 {
            self.command = EepromCommand::Wral;
            self.bit_count = 10;
        } else if opcode == 2 {
            self.command = EepromCommand::Eral;
            if self.write_enabled {
                self.fill(0xFFFF);
                self.processing = true;
            }
        } else if opcode == 3 {
            self.command = EepromCommand::Ewen;
            self.write_enabled = true;
        } else if opcode <= 7 {
            self.command = EepromCommand::Write;
            self.address = addr;
            self.bit_count = 10;
        } else if opcode <= 11 {
            self.command = EepromCommand::Read;
            self.address = addr;
            self.shift_register = self.read_word(addr);
            self.bit_count = 0;
            self.start_read();
        } else {
            self.command = EepromCommand::Erase;
            self.address = addr;
            if self.write_enabled && (addr as usize) < EEPROM_SIZE {
                self.data[addr as usize] = 0xFFFF;
                self.processing = true;
            }
        }
    }

    fn execute_write(&mut self)
        ensures
            final(self)@ == old(self)@.execute_write_next(),
    {
        let data = self.shift_register & 0xFFFF;
        match self.command {
            EepromCommand::Write => {
                if self.write_enabled && (self.address as usize) < EEPROM_SIZE {
                    self.data[self.address as usize] = data;
                    self.processing = true;
                }
            },
            EepromCommand::Wral => {
                if self.write_enabled {
                    self.fill(data);
                    self.processing = true;
                }
            },
            _ => {},
        }
    }

    fn shift_bit_in(&mut self)
        ensures
            final(self)@ == old(self)@.shift_next(),
    {
        if self.processing {
            return;
        }
        self.shift_register = (self.shift_register << 1) | (if self.di { 1u16 } else { 0u16 });
        self.bit_count = if self.bit_count == 255 { 0 } else { self.bit_count + 1 };
        match self.command {
            EepromCommand::NoCommand => {
                if self.bit_count >= 10 {
                    self.decode_command();
                }
            },
            EepromCommand::Write | EepromCommand::Wral => {
                if self.bit_count >= 26 {
                    self.execute_write();
                }
            },
            _ => {},
        }
    }

    pub fn write(&mut self, value: u8)
        ensures
            final(self)@ == old(self)@.write_next(value),
    {
        let new_cs = (value & 0x80) != 0;
        let new_clk = (value & 0x40) != 0;
        let new_di = (value & 0x02) != 0;
        if new_cs && !self.cs {
            self.bit_count = 0;
            self.shift_register = 0;
            self.command = EepromCommand::NoCommand;
            self.processing = false;
            self.do_ = true;
        }
        if !new_cs && self.cs {
            self.bit_count = 0;
            self.shift_register = 0;
        }
        self.cs = new_cs;
        self.di = new_di;
        if new_clk && !self.clk && self.cs {
            self.shift_bit_in();
        }
        self.clk = new_clk;
    }

    pub fn read(&mut self) -> (res: u8)
        ensures
            (final(self)@, res) == old(self)@.read_next(),
    {
        if self.processing {
            self.processing = false;
            0x01
        } else if self.command == EepromCommand::Read && self.cs {
            let bit: u8 = if self.do_ { 0x01 } else { 0x00 };
            if self.clk && self.bit_count < 16 {
                self.bit_count = self.bit_count + 1;
                self.shift_register = self.shift_register << 1;
                self.do_ = (self.shift_register & 0x8000) != 0;
            }
            bit
        } else {
            if self.do_ { 0x01 } else { 0x00 }
        }
    }
}

/// MBC7: 7-bit ROM bank register, a two-axis accelerometer and a serial EEPROM. Where the
/// EEPROM is persisted, `eeprom_save_pending` asks the owner of the cartridge to store it.
#[derive(Clone, Copy)]
pub struct Mbc7 {
    pub rom_bank: u8,
    /// Enable written at 0x0000-0x1FFF.
    pub ram_enabled_1: bool,
    /// Enable written at 0x4000-0x5FFF (must be 0x40).
    pub ram_enabled_2: bool,
    pub rom_banks: usize,
    pub accel_x: u16,
    pub accel_y: u16,
    pub accel_latched: bool,
    pub eeprom: Eeprom,
    pub eeprom_save_pending: bool,
}

/// Mathematical model of an [`Mbc7`].
pub struct Mbc7View {
    pub rom_bank: u8,
    pub ram_enabled_1: bool,
    pub ram_enabled_2: bool,
    pub rom_banks: usize,
    pub accel_x: u16,
    pub accel_y: u16,
    pub accel_latched: bool,
    pub eeprom: EepromView,
    pub eeprom_save_pending: bool,
}

impl View for Mbc7 {
    type V = Mbc7View;

    open spec fn view(&self) -> Mbc7View {
        Mbc7View {
            rom_bank: self.rom_bank,
            ram_enabled_1: self.ram_enabled_1,
            ram_enabled_2: self.ram_enabled_2,
            rom_banks: self.rom_banks,
            accel_x: self.accel_x,
            accel_y: self.accel_y,
            accel_latched: self.accel_latched,
            eeprom: self.eeprom@,
            eeprom_save_pending: self.eeprom_save_pending,
        }
    }
}

impl Mbc7View {
    pub open spec fn ram_enabled(self) -> bool {
        self.ram_enabled_1 && self.ram_enabled_2
    }

    pub open spec fn read_rom_spec(self, rom: Seq<u8>, address: u16) -> u8 {
        if address <= 0x3FFF {
            byte_or_ff(rom, address as int)
        } else if address <= 0x7FFF {
            let banks = if self.rom_banks < 1 { 1 } else { self.rom_banks as int };
            byte_or_ff(rom, ((self.rom_bank as int) % banks) * 0x4000 + (address - 0x4000))
        } else {
            0xFF
        }
    }

    pub open spec fn write_rom_next(self, address: u16, value: u8) -> Mbc7View {
        if address <= 0x1FFF {
            Mbc7View { ram_enabled_1: (value & 0x0Fu8) == 0x0A, ..self }
        } else if address <= 0x3FFF {
            Mbc7View { rom_bank: if value == 0 { 1 } else { value & 0x7Fu8 }, ..self }
        } else if address <= 0x5FFF {
            Mbc7View { ram_enabled_2: value == 0x40, ..self }
        } else {
            self
        }
    }

    /// Register selected by bits 4-7 of an address in 0xA000-0xBFFF.
    pub open spec fn register(address: u16) -> u16 {
        (address >> 4u16) & 0x0Fu16
    }

    pub open spec fn read_ram_spec(self, address: u16) -> u8 {
        let reg = Mbc7View::register(address);
        if !self.ram_enabled() {
            0xFF
        } else if reg == 2 {
            (self.accel_x & 0xFFu16) as u8
        } else if reg == 3 {
            (self.accel_x >> 8u16) as u8
        } else if reg == 4 {
            (self.accel_y & 0xFFu16) as u8
        } else if reg == 5 {
            (self.accel_y >> 8u16) as u8
        } else if reg == 6 {
            0x00
        } else if reg == 8 {
            self.eeprom.read_next().1
        } else {
            0xFF
        }
    }

    pub open spec fn write_ram_next(self, address: u16, value: u8) -> Mbc7View {
        let reg = Mbc7View::register(address);
        if !self.ram_enabled() {
            self
        } else if reg == 0 {
            if value == 0x55 {
                Mbc7View { accel_x: 0x8000, accel_y: 0x8000, accel_latched: false, ..self }
            } else {
                self
            }
        } else if reg == 1 {
            if value == 0xAA && !self.accel_latched {
                Mbc7View { accel_x: 0x81D0, accel_y: 0x81D0, accel_latched: true, ..self }
            } else {
                self
            }
        } else if reg == 8 {
            Mbc7View { eeprom: self.eeprom.write_next(value), eeprom_save_pending: true, ..self }
        } else {
            self
        }
    }
}

impl Mbc7 {
    /// A controller in its power-on state, with the EEPROM contents loaded from storage if any.
    pub fn new(rom_banks: usize, loaded_eeprom: Option<Eeprom>) -> (res: Self)
        ensures
            res.rom_bank == 1,
            !res.ram_enabled_1,
            !res.ram_enabled_2,
            res.rom_banks == rom_banks,
            res.accel_x == 0x8000,
            res.accel_y == 0x8000,
            !res.accel_latched,
            !res.eeprom_save_pending,
            res.eeprom@ == (match loaded_eeprom {
                Some(e) => e@,
                None => EepromView {
                    data: filled(0xFFFF),
                    cs: false,
                    clk: false,
                    di: false,
                    do_: true,
                    write_enabled: false,
                    command: EepromCommand::NoCommand,
                    address: 0,
                    bit_count: 0,
                    shift_register: 0,
                    processing: false,
                },
            }),
    {
        let eeprom = match loaded_eeprom {
            Some(e) => e,
            None => Eeprom::new(),
        };
        Mbc7 {
            rom_bank: 1,
            ram_enabled_1: false,
            ram_enabled_2: false,
            rom_banks,
            accel_x: 0x8000,
            accel_y: 0x8000,
            accel_latched: false,
            eeprom,
            eeprom_save_pending: false,
        }
    }

    pub fn ram_enabled(&self) -> (res: bool)
        ensures
            res == self@.ram_enabled(),
    {
        self.ram_enabled_1 && self.ram_enabled_2
    }

    pub fn read_rom(&self, rom_data: &[u8], address: u16) -> (res: u8)
        ensures
            res == self@.read_rom_spec(rom_data@, address),
    {
        match address {
            0x0000..=0x3FFF => read_or_ff(rom_data, address as usize),
            0x4000..=0x7FFF => {
                let banks = if self.rom_banks < 1 { 1 } else { self.rom_banks };
                let bank = (self.rom_bank as usize) % banks;
                proof {
                    crate::bits::lemma_mod_le(self.rom_bank as usize, banks);
                }
                read_or_ff(rom_data, (bank * 0x4000) + (address as usize - 0x4000))
            },
            _ => 0xFF,
        }
    }

    pub fn write_rom(&mut self, address: u16, value: u8)
        ensures
            final(self)@ == old(self)@.write_rom_next(address, value),
    {
        match address {
            0x0000..=0x1FFF => {
                self.ram_enabled_1 = (value & 0x0F) == 0x0A;
            },
            0x2000..=0x3FFF => {
                self.rom_bank = if value == 0 { 1 } else { value & 0x7F };
            },
            0x4000..=0x5FFF => {
                self.ram_enabled_2 = value == 0x40;
            },
            _ => {},
        }
    }

    /// Reads a register; the EEPROM is sampled without being clocked.
    pub fn read_ram(&self, _ram_data: &[u8], address: u16) -> (res: u8)
        ensures
            res == self@.read_ram_spec(address),
    {
        if !self.ram_enabled() {
            return 0xFF;
        }
        let reg = (address >> 4) & 0x0F;
        match reg {
            0x2 => (self.accel_x & 0xFF) as u8,
            0x3 => (self.accel_x >> 8) as u8,
            0x4 => (self.accel_y & 0xFF) as u8,
            0x5 => (self.accel_y >> 8) as u8,
            0x6 => 0x00,
            0x8 => {
                let mut eeprom = self.eeprom.clone();
                eeprom.read()
            },
            _ => 0xFF,
        }
    }

    pub fn write_ram(&mut self, _ram_data: &mut [u8], address: u16, value: u8)
        ensures
            final(self)@ == old(self)@.write_ram_next(address, value),
            final(_ram_data)@ == old(_ram_data)@,
    {
        if !self.ram_enabled() {
            return;
        }
        let reg = (address >> 4) & 0x0F;
        match reg {
            0x0 => {
                if value == 0x55 {
                    self.accel_x = 0x8000;
                    self.accel_y = 0x8000;
                    self.accel_latched = false;
                }
            },
            0x1 => {
                if value == 0xAA && !self.accel_latched {
                    self.accel_x = 0x81D0;
                    self.accel_y = 0x81D0;
                    self.accel_latched = true;
                }
            },
            0x8 => {
                self.eeprom.write(value);
                self.eeprom_save_pending = true;
            },
            _ => {},
        }
    }
}

/// Decoding a command: EWEN sets and EWDS clears the write enable; without write enable
/// no command but EWEN touches the data, READ and WRITE (before their data) leave it, and
/// ERASE with write enable sets the addressed word to 0xFFFF.
pub proof fn lemma_decode_command(e: EepromView)
    ensures
        ({
            let op = (e.shift_register >> 6u16) & 0xFu16;
            let addr = (e.shift_register & 0x7Fu16) as u8;
            let d = e.decode_next();
            &&& (op == 3 ==> d.write_enabled)
            &&& (op == 0 ==> !d.write_enabled)
            &&& (!e.write_enabled && op != 3 ==> d.data == e.data)
            &&& (4 <= op <= 11 ==> d.data == e.data)
            &&& (e.write_enabled && op >= 12 ==> d.data == e.data.update(addr as int, 0xFFFF))
        }),
{
    let sr = e.shift_register;
    assert((sr & 0x7Fu16) < 128) by (bit_vector);
}

} // verus!
