use crabboy_core::gameboy::{Buttons, GameBoy};

/// A cartridge with `program` at 0x0100, cartridge type `mbc` and RAM size
/// code `ram_code`.
fn cartridge(program: &[u8], mbc: u8, ram_code: u8) -> Vec<u8> {
    let mut rom = vec![0u8; 0x8000];
    rom[0x100..0x100 + program.len()].copy_from_slice(program);
    rom[0x147] = mbc;
    rom[0x149] = ram_code;
    rom
}

fn run(gb: &mut GameBoy, steps: usize) {
    for _ in 0..steps {
        assert!(gb.can_step());
        gb.step();
    }
}

/// Steps until a frame is ready; returns how many steps it took.
fn run_to_frame(gb: &mut GameBoy) -> usize {
    let mut steps = 0;
    loop {
        assert!(gb.can_step());
        steps += 1;
        if gb.step() {
            return steps;
        }
        assert!(steps < 200_000);
    }
}

#[test]
fn new_console_has_blank_screen_and_no_audio() {
    let mut gb = GameBoy::new();
    let frame = gb.framebuffer();
    assert_eq!(frame.len(), 160 * 144);
    assert!(frame.iter().all(|&c| c == 0));
    assert!(gb.drain_audio().is_empty());
    assert!(!gb.is_save_dirty());
    assert!(gb.get_save_data().is_empty());
}

#[test]
fn frame_ready_once_per_frame() {
    let mut gb = GameBoy::new();
    // JR -2: spin forever
    gb.load_rom(cartridge(&[0x18, 0xFE], 0x00, 0x00));
    let first = run_to_frame(&mut gb);
    // a frame is 154 lines of 456 cycles; JR takes 12 cycles
    assert!(first > 5000 && first < 7000);
    // the flag stays up until the frame is taken
    assert!(gb.step());
    // the LCD is off (LCDC is 0): nothing was drawn
    let frame = gb.framebuffer();
    assert!(frame.iter().all(|&c| c == 0));
    assert!(!gb.step());
    let second = run_to_frame(&mut gb);
    assert!(second > 5000 && second < 7000);
}

#[test]
fn framebuffer_repeats_until_next_frame() {
    let mut gb = GameBoy::new();
    gb.load_rom(cartridge(&[0x18, 0xFE], 0x00, 0x00));
    run_to_frame(&mut gb);
    let a = gb.framebuffer();
    let b = gb.framebuffer();
    assert_eq!(a.to_vec(), b.to_vec());
}

#[test]
fn background_tiles_are_drawn() {
    let program = [
        0x3E, 0x91, 0xE0, 0x40, // LD A,0x91; LDH (LCDC),A
        0x3E, 0xE4, 0xE0, 0x47, // LD A,0xE4; LDH (BGP),A
        0x21, 0x00, 0x80, // LD HL,0x8000
        0x3E, 0xFF, // LD A,0xFF
        0x06, 0x10, // LD B,16
        0x22, // loop: LD (HL+),A
        0x05, // DEC B
        0x20, 0xFC, // JR NZ,loop
        0x18, 0xFE, // JR -2
    ];
    let mut gb = GameBoy::new();
    gb.load_rom(cartridge(&program, 0x00, 0x00));
    run_to_frame(&mut gb);
    gb.framebuffer();
    run_to_frame(&mut gb);
    let frame = gb.framebuffer();
    assert!(frame.iter().all(|&c| c == 3));
}

#[test]
fn program_sees_pressed_button_in_ram() {
    let program = [
        0x3E, 0x0A, 0xEA, 0x00, 0x00, // LD A,0x0A; LD (0x0000),A  enable RAM
        0x3E, 0x20, 0xE0, 0x00, // LD A,0x20; LDH (P1),A
        0xF0, 0x00, // LDH A,(P1)
        0xEA, 0x00, 0xA0, // LD (0xA000),A
        0x18, 0xFE, // JR -2
    ];
    let mut gb = GameBoy::new();
    gb.load_rom(cartridge(&program, 0x03, 0x02));
    gb.set_button(Buttons::Right, true);
    gb.set_button(Buttons::Up, true);
    assert!(!gb.is_save_dirty());
    run(&mut gb, 6);
    assert!(gb.is_save_dirty());
    let save = gb.get_save_data();
    assert_eq!(save.len(), 0x2000);
    assert_eq!(save[0], 0x20 | 0b1010);
    gb.clear_save_dirty();
    assert!(!gb.is_save_dirty());
}

#[test]
fn save_data_round_trip() {
    let mut gb = GameBoy::new();
    gb.load_rom(cartridge(&[0x18, 0xFE], 0x03, 0x01));
    assert_eq!(gb.get_save_data(), vec![0u8; 0x800]);
    // wrong size: rejected
    gb.load_save(vec![7u8; 0x10]);
    assert_eq!(gb.get_save_data(), vec![0u8; 0x800]);
    let mut image = vec![0u8; 0x800];
    image[3] = 0x33;
    image[0x7FF] = 0xEE;
    gb.load_save(image.clone());
    assert_eq!(gb.get_save_data(), image);
    assert!(!gb.is_save_dirty());
}

#[test]
fn square_channel_produces_bounded_samples() {
    let program = [
        0x3E, 0x80, 0xE0, 0x26, // NR52: sound on
        0x3E, 0x77, 0xE0, 0x24, // NR50: full master volume
        0x3E, 0xFF, 0xE0, 0x25, // NR51: every channel both sides
        0x3E, 0x80, 0xE0, 0x16, // NR21: 50% duty
        0x3E, 0xF0, 0xE0, 0x17, // NR22: volume 15, no envelope
        0x3E, 0x00, 0xE0, 0x18, // NR23
        0x3E, 0x87, 0xE0, 0x19, // NR24: trigger, frequency high bits 7
        0x18, 0xFE, // JR -2
    ];
    let mut gb = GameBoy::new();
    gb.load_rom(cartridge(&program, 0x00, 0x00));
    run(&mut gb, 3000);
    let samples = gb.drain_audio();
    assert!(!samples.is_empty());
    assert_eq!(samples.len() % 2, 0);
    assert!(samples.iter().all(|&s| s <= 360));
    // channel 2 alone at volume 15 with master 7: 15 * 8
    assert_eq!(*samples.iter().max().unwrap(), 120);
    assert!(samples.iter().any(|&s| s == 0));
    assert!(gb.drain_audio().is_empty());
}

#[test]
fn sound_off_produces_nothing() {
    let mut gb = GameBoy::new();
    gb.load_rom(cartridge(&[0x18, 0xFE], 0x00, 0x00));
    run(&mut gb, 2000);
    assert!(gb.drain_audio().is_empty());
}

#[test]
fn unimplemented_opcode_stops_stepping() {
    let mut gb = GameBoy::new();
    gb.load_rom(cartridge(&[0x00, 0xD3], 0x00, 0x00));
    assert!(gb.can_step());
    gb.step();
    assert!(!gb.can_step());
}

#[test]
fn button_codes() {
    assert!(matches!(Buttons::from_code(1), Some(Buttons::Up)));
    assert!(matches!(Buttons::from_code(4), Some(Buttons::Right)));
    assert!(matches!(Buttons::from_code(5), Some(Buttons::A)));
    assert!(matches!(Buttons::from_code(7), Some(Buttons::Select)));
    assert!(matches!(Buttons::from_code(8), Some(Buttons::Start)));
    assert!(Buttons::from_code(0).is_none());
    assert!(Buttons::from_code(9).is_none());
}

#[test]
fn boot_rom_is_mapped_over_the_cartridge() {
    let program = [
        0x3E, 0x0A, 0xEA, 0x00, 0x00, // enable RAM
        0xFA, 0x00, 0x00, // LD A,(0x0000)
        0xEA, 0x00, 0xA0, // LD (0xA000),A
        0x3E, 0x01, 0xE0, 0x50, // LDH (0x50),A: unmap the boot ROM
        0xFA, 0x00, 0x00, // LD A,(0x0000)
        0xEA, 0x01, 0xA0, // LD (0xA001),A
        0x18, 0xFE,
    ];
    let mut rom = cartridge(&program, 0x03, 0x02);
    rom[0] = 0x11;
    let mut boot = [0u8; 256];
    boot[0] = 0x31;
    let mut gb = GameBoy::new();
    gb.load_rom_with_boot_rom(rom, boot);
    run(&mut gb, 8);
    let save = gb.get_save_data();
    assert_eq!(save[0], 0x31);
    assert_eq!(save[1], 0x11);
}
