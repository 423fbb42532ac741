use zetaboy::emulator::cart::licensee::old_name;
use zetaboy::emulator::cart::mbc::MbcType;
use zetaboy::emulator::cart::Cart;
use zetaboy::emulator::cpu::memory_bus::MemoryBus;
use zetaboy::emulator::ppu::{get_tile_address, PPU};

fn rom_with(title: &[u8], cart_type: u8, ram_size: u8) -> Vec<u8> {
    let mut rom = vec![0u8; 0x8000];
    for (i, b) in title.iter().enumerate() {
        rom[0x134 + i] = *b;
    }
    rom[0x147] = cart_type;
    rom[0x148] = 0x00;
    rom[0x149] = ram_size;
    rom[0x14B] = 0x01;
    let mut x: u8 = 0;
    for i in 0x134..=0x14C {
        x = x.wrapping_sub(rom[i]).wrapping_sub(1);
    }
    rom[0x14D] = x;
    rom[0x100] = 0xC3;
    rom[0x4000] = 0x77;
    rom
}

#[test]
fn short_rom_is_refused() {
    assert!(Cart::new(vec![0u8; 0x100]).is_none());
}

#[test]
fn unsupported_cart_type_is_refused() {
    assert!(Cart::new(rom_with(b"X", 0xFC, 0)).is_none());
}

#[test]
fn header_fields_are_read() {
    let cart = Cart::new(rom_with(b"TETRIS", 0x00, 0)).unwrap();
    assert_eq!(cart.get_title(), "TETRIS");
    assert!(cart.is_checksum_valid());
    assert!(!cart.has_battery());
    assert!(!cart.is_cgb());
    assert_eq!(cart.header.get_rom_banks_number(), 2);
    assert_eq!(cart.header.lic_to_string(), "Nintendo");
    assert_eq!(cart.header.cart_type_to_string(), "ROM ONLY");
}

#[test]
fn broken_checksum_is_detected() {
    let mut rom = rom_with(b"TETRIS", 0x00, 0);
    rom[0x14D] = rom[0x14D].wrapping_add(1);
    let cart = Cart::new(rom).unwrap();
    assert!(!cart.is_checksum_valid());
}

#[test]
fn rom_only_reads_both_banks() {
    let cart = Cart::new(rom_with(b"A", 0x00, 0)).unwrap();
    assert_eq!(cart.read_rom(0x0100), 0xC3);
    assert_eq!(cart.read_rom(0x4000), 0x77);
}

#[test]
fn mbc1_ram_needs_enabling() {
    let mut cart = Cart::new(rom_with(b"B", 0x03, 0x02)).unwrap();
    assert!(cart.has_battery());
    assert_eq!(cart.header.get_ram_size_in_bytes(), 0x2000);
    assert_eq!(cart.read_ram(0xA000), 0xFF);
    cart.write_rom(0x0000, 0x0A);
    cart.write_ram(0xA000, 0x5A);
    assert_eq!(cart.read_ram(0xA000), 0x5A);
    cart.write_rom(0x0000, 0x00);
    assert_eq!(cart.read_ram(0xA000), 0xFF);
}

#[test]
fn mbc_names_and_licensees() {
    assert_eq!(MbcType::name(0x01), "MBC1");
    assert_eq!(MbcType::name(0x00), "ROM ONLY");
    assert!(MbcType::is_supported(0x13));
    assert!(MbcType::has_battery(0x13));
    assert!(!MbcType::has_battery(0x01));
    assert_eq!(old_name(0x01), "Nintendo");
}

#[test]
fn bus_reads_back_work_and_high_ram() {
    let cart = Cart::new(rom_with(b"C", 0x00, 0)).unwrap();
    let mut bus = MemoryBus::new(cart);
    bus.write_byte(0xC000, 0x12);
    bus.write_byte(0xFF90, 0x34);
    bus.write_byte(0xFFFF, 0x1F);
    assert_eq!(bus.read_byte(0xC000), 0x12);
    assert_eq!(bus.read_byte(0xFF90), 0x34);
    assert_eq!(bus.read_byte(0x0100), 0xC3);
    assert_eq!(bus.get_interrupt_enable(), 0x1F);
}

#[test]
fn ppu_registers_and_tile_addresses() {
    let mut ppu = PPU::new();
    ppu.write_register(0xFF42, 7);
    assert_eq!(ppu.read_register(0xFF42), 7);
    ppu.write_register(0xFF44, 9);
    assert_eq!(ppu.read_register(0xFF44), 0);
    assert_eq!(get_tile_address(0, true), 0x8000);
    assert_eq!(get_tile_address(1, false), 0x9010);
    assert_eq!(get_tile_address(255, false), 0x8FF0);
}
