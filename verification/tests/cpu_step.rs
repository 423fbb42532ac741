use zetaboy::emulator::cart::mbc::MbcType;
use zetaboy::emulator::cart::Cart;
use zetaboy::emulator::cpu::{CpuMode, CPU};

fn rom_with_code(code: &[u8], cart_type: u8, rom_size: u8) -> Vec<u8> {
    let len = 0x8000usize << rom_size;
    let mut rom = vec![0u8; len];
    rom[0x147] = cart_type;
    rom[0x148] = rom_size;
    rom[0x149] = 0;
    for (i, b) in code.iter().enumerate() {
        rom[0x100 + i] = *b;
    }
    rom
}

fn cpu_with_code(code: &[u8]) -> CPU {
    CPU::new(Cart::new(rom_with_code(code, 0x00, 0)).unwrap())
}

#[test]
fn sra_clears_bit_seven() {
    let mut cpu = cpu_with_code(&[0x00]);
    assert_eq!(cpu.alu_sra(0x81), 0x40);
    assert!(cpu.reg.f.c);
    assert!(!cpu.reg.f.z && !cpu.reg.f.n && !cpu.reg.f.h);
}

#[test]
fn nop_step_takes_one_m_cycle() {
    let mut cpu = cpu_with_code(&[0x00, 0x00]);
    assert_eq!(cpu.step(), Some(4));
    assert_eq!(cpu.reg.pc, 0x101);
    assert_eq!(cpu.mode, CpuMode::Normal);
}

#[test]
fn unused_opcode_stops_the_step() {
    let mut cpu = cpu_with_code(&[0xD3]);
    assert_eq!(cpu.step(), None);
    assert_eq!(cpu.reg.pc, 0x101);
}

#[test]
fn pending_interrupt_is_served_after_the_instruction() {
    let mut cpu = cpu_with_code(&[0x00, 0x00]);
    cpu.ime = true;
    cpu.bus.write_byte(0xFFFF, 0x01);
    cpu.bus.write_byte(0xFF0F, 0x01);
    assert_eq!(cpu.step(), Some(24));
    assert_eq!(cpu.reg.pc, 0x40);
    assert_eq!(cpu.reg.sp, 0xFFFC);
    assert_eq!(cpu.bus.read_byte(0xFFFD), 0x01);
    assert_eq!(cpu.bus.read_byte(0xFFFC), 0x01);
    assert_eq!(cpu.bus.get_interrupt_flags() & 0x01, 0);
    assert!(!cpu.ime);
}

#[test]
fn timer_interrupt_uses_its_vector() {
    let mut cpu = cpu_with_code(&[0x00, 0x00]);
    cpu.ime = true;
    cpu.bus.write_byte(0xFFFF, 0x1F);
    cpu.bus.write_byte(0xFF0F, 0x04);
    cpu.step();
    assert_eq!(cpu.reg.pc, 0x50);
}

#[test]
fn ei_enables_interrupts_one_instruction_late() {
    let mut cpu = cpu_with_code(&[0xFB, 0x00, 0xF3]);
    cpu.step();
    assert!(!cpu.ime);
    assert_eq!(cpu.mode, CpuMode::EnableIME);
    cpu.step();
    assert!(cpu.ime);
    cpu.step();
    assert!(!cpu.ime);
}

#[test]
fn large_mbc1_rom_is_accepted() {
    let cart = Cart::new(rom_with_code(&[0x00], 0x01, 0x07)).unwrap();
    assert_eq!(cart.header.get_rom_banks_number(), 256);
    assert!(!cart.mbc_type.supports_bank_switching());
    let small = Cart::new(rom_with_code(&[0x00], 0x01, 0x01)).unwrap();
    assert!(small.mbc_type.supports_bank_switching());
}

#[test]
fn battery_types_are_named_with_battery() {
    for code in 0u8..=255 {
        assert_eq!(MbcType::has_battery(code), MbcType::name(code).contains("BATTERY"), "code {:#04X}", code);
    }
}
