use zetaboy::emulator::apu::channel::pulse_channel::PulseChannel;
use zetaboy::emulator::cpu::memory_bus::dma::Dma;
use zetaboy::emulator::apu::pulse_phase_timer::PulsePhaseTimer;
use zetaboy::emulator::cart::mbc::mbc3::Mbc3;
use zetaboy::emulator::serial::Serial;
use zetaboy::emulator::cpu::bus::ram::RAM;
use zetaboy::emulator::cpu::bus::regions::MemoryRegion;
use zetaboy::emulator::{InputAction, InputState, CPU_FREQUENCY};

#[test]
fn ram_reads_back_writes() {
    let mut ram = RAM::new();
    assert_eq!(ram.read_wram(0xC000), 0);
    ram.write_wram(0xC123, 0x42);
    ram.write_hram(0xFF80, 0x99);
    assert_eq!(ram.read_wram(0xC123), 0x42);
    assert_eq!(ram.read_wram(0xC124), 0);
    assert_eq!(ram.read_hram(0xFF80), 0x99);
    assert_eq!(ram.read_hram(0xFFFF), 0);
}

#[test]
fn regions_follow_the_memory_map() {
    assert_eq!(MemoryRegion::from_address(0x0000), MemoryRegion::ROM);
    assert_eq!(MemoryRegion::from_address(0x7FFF), MemoryRegion::ROM);
    assert_eq!(MemoryRegion::from_address(0x8000), MemoryRegion::VRAM);
    assert_eq!(MemoryRegion::from_address(0xA000), MemoryRegion::CRAM);
    assert_eq!(MemoryRegion::from_address(0xDFFF), MemoryRegion::WRAM);
    assert_eq!(MemoryRegion::from_address(0xE000), MemoryRegion::ECHO);
    assert_eq!(MemoryRegion::from_address(0xFE9F), MemoryRegion::OAM);
    assert_eq!(MemoryRegion::from_address(0xFEA0), MemoryRegion::RESERVED);
    assert_eq!(MemoryRegion::from_address(0xFF00), MemoryRegion::IO);
    assert_eq!(MemoryRegion::from_address(0xFF80), MemoryRegion::HRAM);
    assert_eq!(MemoryRegion::from_address(0xFFFF), MemoryRegion::IE);
}

#[test]
fn cpu_frequency_is_four_megahertz() {
    assert_eq!(CPU_FREQUENCY, 4194304);
}

#[test]
fn held_save_key_saves_once() {
    let mut input = InputState::new();
    assert_eq!(input.next_action(), InputAction::ApplyButtons);
    input.save = true;
    assert_eq!(input.next_action(), InputAction::SaveState);
    assert_eq!(input.next_action(), InputAction::ApplyButtons);
    input.save = false;
    assert_eq!(input.next_action(), InputAction::Nothing);
    input.load = true;
    assert_eq!(input.next_action(), InputAction::LoadState);
}

#[test]
fn save_wins_over_load() {
    let mut input = InputState::new();
    input.save = true;
    input.load = true;
    assert_eq!(input.next_action(), InputAction::SaveState);
}

#[test]
fn serial_byte_takes_4096_cycles() {
    let mut serial = Serial::new(false);
    serial.write_sb(0x42);
    serial.write_sc(0x81);
    for _ in 0..4095 {
        assert!(!serial.tick());
    }
    assert!(serial.tick());
    assert_eq!(serial.read_sb(), 0xFF);
    assert_eq!(serial.read_sc() & 0x80, 0);
}

#[test]
fn pulse_timer_period_follows_frequency() {
    let mut t = PulsePhaseTimer::new();
    t.set_frequency(0x7FE);
    let phase = t.get_phase();
    for _ in 0..3 {
        assert!(!t.tick());
        assert_eq!(t.get_phase(), phase);
    }
    assert!(t.tick());
    assert_eq!(t.get_phase(), (phase + 1) % 8);
    assert_eq!(t.get_frequency(), 0x7FE);
}

#[test]
fn rtc_advances_by_elapsed_time() {
    let mut m = Mbc3::new(2, 1, true, None);
    m.update_rtc_registers(86_400_000 + 3_600_000 + 61_500);
    assert_eq!(m.rtc.days, 1);
    assert_eq!(m.rtc.hours, 1);
    assert_eq!(m.rtc.minutes, 1);
    assert_eq!(m.rtc.seconds, 1);
    assert_eq!(m.rtc.millis, 500);
    assert!(!m.rtc.day_carry);
}

#[test]
fn zero_length_field_gives_64_length_clocks() {
    let mut ch = PulseChannel::new();
    ch.set_envelope_settings(0xF0);
    ch.set_length_settings(0x00);
    ch.set_period_high_control_settings(0xC0);
    assert!(ch.channel_enabled);
    for _ in 0..63 {
        ch.clock_length_counter();
        assert!(ch.channel_enabled);
    }
    ch.clock_length_counter();
    assert!(!ch.channel_enabled);
}

#[test]
fn oam_dma_copies_one_byte_every_four_cycles() {
    let mut dma = Dma::new();
    dma.start(0xC1);
    let mut copies = Vec::new();
    for k in 1..=648u32 {
        if let Some((src, dst)) = dma.tick() {
            copies.push((k, src, dst));
        }
        assert_eq!(dma.is_oam_blocked(), (8..648).contains(&k));
    }
    assert_eq!(copies.len(), 160);
    for (i, (k, src, dst)) in copies.iter().enumerate() {
        assert_eq!(*k, 8 + 4 * i as u32);
        assert_eq!(*src, 0xC100 + i as u16);
        assert_eq!(*dst, 0xFE00 + i as u16);
    }
    assert!(!dma.is_enabled());
}
