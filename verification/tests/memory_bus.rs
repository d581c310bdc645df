use crabboy_core::memory::{JoyPad, MemoryBus};

/// A cartridge image of `banks` 16 KiB banks whose header holds `mbc` and
/// `ram_code`; the first byte of each bank holds the bank's number.
fn cartridge(banks: usize, mbc: u8, ram_code: u8) -> Vec<u8> {
    let mut rom = vec![0u8; banks * 0x4000];
    for bank in 0..banks {
        rom[bank * 0x4000] = bank as u8;
        rom[bank * 0x4000 + 1] = 0xB0 + bank as u8;
    }
    rom[0x147] = mbc;
    rom[0x149] = ram_code;
    rom
}

#[test]
fn new_bus_is_zeroed_with_bank_one() {
    let bus = MemoryBus::new();
    assert_eq!(bus.read(0xC000), 0);
    assert_eq!(bus.read(0x8000), 0);
    assert_eq!(bus.rom_bank, 1);
    assert!(!bus.ram_enabled);
    assert!(!bus.ram_dirty);
    assert!(bus.ram.is_empty());
}

#[test]
fn plain_write_reads_back() {
    let mut bus = MemoryBus::new();
    bus.write(0xC000, 0x42);
    bus.write(0x8123, 0x99);
    bus.write(0xFF80, 0x17);
    assert_eq!(bus.read(0xC000), 0x42);
    assert_eq!(bus.read(0x8123), 0x99);
    assert_eq!(bus.read(0xFF80), 0x17);
    assert_eq!(bus.read(0xC001), 0);
}

#[test]
fn div_write_resets_it() {
    let mut bus = MemoryBus::new();
    bus.memory[0xFF04] = 0x55;
    bus.write(0xFF04, 0x12);
    assert_eq!(bus.read(0xFF04), 0);
}

#[test]
fn joypad_reports_directions_when_selected() {
    let mut bus = MemoryBus::new();
    bus.joypad.right = true;
    bus.joypad.up = true;
    bus.write(0xFF00, 0x20);
    // bit 4 low: Right (bit 0) and Up (bit 2) read 0, Left and Down read 1
    assert_eq!(bus.read(0xFF00), 0x20 | 0b1010);
}

#[test]
fn joypad_reports_buttons_when_selected() {
    let mut bus = MemoryBus::new();
    bus.joypad.a_button = true;
    bus.joypad.start = true;
    bus.write(0xFF00, 0x10);
    assert_eq!(bus.read(0xFF00), 0x10 | 0b0110);
}

#[test]
fn joypad_directions_win_when_both_groups_selected() {
    let mut bus = MemoryBus::new();
    bus.joypad.a_button = true;
    bus.joypad.down = true;
    bus.write(0xFF00, 0x00);
    assert_eq!(bus.read(0xFF00), 0b0111);
}

#[test]
fn joypad_unselected_keeps_stored_nibble() {
    let mut bus = MemoryBus::new();
    bus.joypad.a_button = true;
    bus.joypad.right = true;
    bus.write(0xFF00, 0xF5);
    // bits 6 and 7 read as 0, the rest as stored
    assert_eq!(bus.read(0xFF00), 0x35);
}

#[test]
fn joypad_new_has_nothing_pressed() {
    let j = JoyPad::new();
    assert!(!j.up && !j.down && !j.left && !j.right);
    assert!(!j.a_button && !j.b_button && !j.select && !j.start);
}

#[test]
fn load_rom_maps_bank_zero_and_sizes_ram() {
    let mut bus = MemoryBus::new();
    let rom = cartridge(4, 0x03, 0x02);
    bus.load_rom(rom, None);
    assert_eq!(bus.read(0x0000), 0);
    assert_eq!(bus.read(0x0001), 0xB0);
    assert_eq!(bus.read(0x0147), 0x03);
    assert_eq!(bus.ram.len(), 0x2000);
    assert_eq!(bus.mbc_type, 0x03);
    // bank 1 is selected at power on
    assert_eq!(bus.read(0x4000), 1);
    assert_eq!(bus.read(0x4001), 0xB1);
}

#[test]
fn ram_sizes_from_header() {
    let sizes = [(0x00u8, 0usize), (0x01, 0x800), (0x02, 0x2000), (0x03, 0x8000), (0x04, 0x20000), (0x05, 0x10000), (0x06, 0)];
    for (code, size) in sizes {
        let mut bus = MemoryBus::new();
        bus.load_rom(cartridge(2, 0x01, code), None);
        assert_eq!(bus.ram.len(), size);
    }
}

#[test]
fn boot_rom_overlays_until_unmapped() {
    let mut bus = MemoryBus::new();
    let mut boot = [0u8; 256];
    boot[0] = 0x31;
    boot[0xFF] = 0x50;
    let mut rom = cartridge(2, 0x00, 0x00);
    rom[0x00FF] = 0x77;
    bus.load_rom(rom, Some(boot));
    assert!(bus.boot_rom_active);
    assert_eq!(bus.read(0x0000), 0x31);
    assert_eq!(bus.read(0x00FF), 0x50);
    assert_eq!(bus.read(0x0100), 0);
    bus.write(0xFF50, 0x01);
    assert_eq!(bus.read(0x0000), 0x00);
    assert_eq!(bus.read(0x00FF), 0x77);
}

#[test]
fn colour_cartridge_skips_boot_rom() {
    let mut bus = MemoryBus::new();
    let rom = cartridge(2, 0xC0, 0x00);
    bus.load_rom(rom, Some([0xAA; 256]));
    assert!(!bus.boot_rom_active);
    assert_eq!(bus.read(0x0000), 0);
}

#[test]
fn mbc1_bank_zero_selects_bank_one() {
    let mut bus = MemoryBus::new();
    bus.load_rom(cartridge(4, 0x01, 0x00), None);
    bus.write(0x2000, 0x02);
    assert_eq!(bus.read(0x4000), 2);
    bus.write(0x2000, 0x00);
    assert_eq!(bus.read(0x4000), 1);
    assert_eq!(bus.rom_bank, 1);
    // only five bits count: 0x23 selects bank 3
    bus.write(0x3FFF, 0x23);
    assert_eq!(bus.rom_bank, 3);
    assert_eq!(bus.read(0x4000), 3);
    // 0x20 has no low bits: bank 1
    bus.write(0x2000, 0x20);
    assert_eq!(bus.rom_bank, 1);
}

#[test]
fn mbc3_allows_bank_zero() {
    let mut bus = MemoryBus::new();
    bus.load_rom(cartridge(4, 0x13, 0x00), None);
    bus.write(0x2000, 0x00);
    assert_eq!(bus.rom_bank, 0);
    assert_eq!(bus.read(0x4000), 0);
    bus.write(0x2000, 0x83);
    assert_eq!(bus.rom_bank, 3);
}

#[test]
fn mbc5_nine_bit_bank() {
    let mut bus = MemoryBus::new();
    bus.load_rom(cartridge(4, 0x19, 0x00), None);
    bus.write(0x2000, 0x05);
    assert_eq!(bus.rom_bank, 0x005);
    bus.write(0x3000, 0x01);
    assert_eq!(bus.rom_bank, 0x105);
    bus.write(0x2000, 0x02);
    assert_eq!(bus.rom_bank, 0x102);
    bus.write(0x3000, 0x00);
    assert_eq!(bus.rom_bank, 0x002);
    assert_eq!(bus.read(0x4000), 2);
}

#[test]
fn rom_only_and_mbc2_ignore_bank_writes() {
    let mut bus = MemoryBus::new();
    bus.load_rom(cartridge(2, 0x00, 0x00), None);
    bus.write(0x2000, 0x05);
    assert_eq!(bus.rom_bank, 1);
    let mut bus2 = MemoryBus::new();
    bus2.load_rom(cartridge(2, 0x05, 0x00), None);
    bus2.write(0x2000, 0x05);
    assert_eq!(bus2.rom_bank, 1);
}

#[test]
fn bank_beyond_rom_reads_ff() {
    let mut bus = MemoryBus::new();
    bus.load_rom(cartridge(2, 0x01, 0x00), None);
    bus.write(0x2000, 0x07);
    assert_eq!(bus.read(0x4000), 0xFF);
}

#[test]
fn rom_writes_do_not_change_rom() {
    let mut bus = MemoryBus::new();
    bus.load_rom(cartridge(2, 0x01, 0x00), None);
    bus.write(0x0000, 0x0A);
    bus.write(0x4000, 0x03);
    bus.write(0x1234, 0x99);
    assert_eq!(bus.read(0x0000), 0);
    assert_eq!(bus.read(0x1234), 0);
    assert_eq!(bus.rom[0x4000], 1);
    assert_eq!(bus.ram_bank, 3);
}

#[test]
fn external_ram_round_trip_sets_dirty() {
    let mut bus = MemoryBus::new();
    bus.load_rom(cartridge(2, 0x03, 0x03), None);
    bus.write(0x0000, 0x0A);
    assert!(bus.ram_enabled);
    bus.write(0xA000, 0x77);
    bus.write(0xBFFF, 0x66);
    assert_eq!(bus.read(0xA000), 0x77);
    assert_eq!(bus.read(0xBFFF), 0x66);
    assert!(bus.ram_dirty);
    // RAM bank 2 is another 8 KiB
    bus.write(0x4000, 0x02);
    assert_eq!(bus.read(0xA000), 0);
    bus.write(0xA000, 0x55);
    assert_eq!(bus.ram[0x4000], 0x55);
    let saved = bus.save_ram();
    assert_eq!(saved.len(), 0x8000);
    assert_eq!(saved[0], 0x77);
    assert_eq!(saved[0x1FFF], 0x66);
    assert_eq!(saved[0x4000], 0x55);
}

#[test]
fn disabled_ram_reads_ff_and_ignores_writes() {
    let mut bus = MemoryBus::new();
    bus.load_rom(cartridge(2, 0x03, 0x02), None);
    bus.write(0xA000, 0x12);
    assert_eq!(bus.read(0xA000), 0xFF);
    assert!(!bus.ram_dirty);
    bus.write(0x0000, 0x0A);
    bus.write(0xA000, 0x12);
    bus.write(0x0000, 0x00);
    assert!(!bus.ram_enabled);
    assert_eq!(bus.read(0xA000), 0xFF);
    assert_eq!(bus.ram[0], 0x12);
}

#[test]
fn rom_only_cartridge_never_enables_ram() {
    let mut bus = MemoryBus::new();
    bus.load_rom(cartridge(2, 0x00, 0x02), None);
    bus.write(0x0000, 0x0A);
    assert!(!bus.ram_enabled);
}

#[test]
fn ram_bank_outside_ram_reads_ff() {
    let mut bus = MemoryBus::new();
    bus.load_rom(cartridge(2, 0x03, 0x02), None);
    bus.write(0x0000, 0x0A);
    bus.write(0x4000, 0x01);
    bus.write(0xA000, 0x44);
    assert_eq!(bus.read(0xA000), 0xFF);
    assert!(!bus.ram_dirty);
    // a bank number above 3 is ignored
    bus.write(0x4000, 0x09);
    assert_eq!(bus.ram_bank, 1);
}

#[test]
fn load_ram_checks_size() {
    let mut bus = MemoryBus::new();
    bus.load_rom(cartridge(2, 0x03, 0x01), None);
    assert!(!bus.load_ram(vec![1, 2, 3]));
    assert_eq!(bus.ram.len(), 0x800);
    assert_eq!(bus.ram[0], 0);
    let mut image = vec![0u8; 0x800];
    image[0] = 0x5A;
    image[0x7FF] = 0xA5;
    assert!(bus.load_ram(image.clone()));
    assert_eq!(bus.save_ram(), image);
}

#[test]
fn oam_dma_copies_page() {
    let mut bus = MemoryBus::new();
    for i in 0..160u16 {
        bus.write(0xC100 + i, (i as u8).wrapping_mul(3));
    }
    bus.write(0xFF46, 0xC1);
    for i in 0..160u16 {
        assert_eq!(bus.read(0xFE00 + i), (i as u8).wrapping_mul(3));
    }
    assert_eq!(bus.read(0xFF46), 0xC1);
    assert_eq!(bus.read(0xFEA0), 0);
}

#[test]
fn other_cartridge_types_load_and_keep_their_bank() {
    for t in [0x08u8, 0x09, 0x0B, 0x20, 0xFC, 0xFF] {
        let mut bus = MemoryBus::new();
        bus.load_rom(cartridge(4, t, 0x02), None);
        assert_eq!(bus.mbc_type, t);
        assert_eq!(bus.ram.len(), 0x2000);
        bus.write(0x2000, 0x02);
        assert_eq!(bus.rom_bank, 1);
        assert_eq!(bus.read(0x4000), 1);
        // external RAM still answers on a cartridge with a controller byte
        bus.write(0x0000, 0x0A);
        bus.write(0xA000, 0x42);
        assert_eq!(bus.read(0xA000), 0x42);
    }
}
