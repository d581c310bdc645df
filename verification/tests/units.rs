use crabboy_core::apu::{APU, MAX_LEVEL, SAMPLE_PERIOD};
use crabboy_core::hardware::HardwareMode;
use crabboy_core::memory::MemoryBus;
use crabboy_core::ppu::{PPU, SCREEN_SIZE};

#[test]
fn ppu_starts_in_oam_scan() {
    let ppu = PPU::new();
    assert_eq!(ppu.mode, 2);
    assert_eq!(ppu.ly, 0);
    assert_eq!(ppu.cycles, 0);
    assert!(!ppu.frame_ready);
    assert_eq!(ppu.framebuffer.len(), SCREEN_SIZE);
}

#[test]
fn ppu_mode_sequence_of_a_line() {
    let mut bus = MemoryBus::new();
    let mut ppu = PPU::new();
    ppu.step(&mut bus, 79);
    assert_eq!(ppu.mode, 2);
    assert_eq!(ppu.cycles, 79);
    ppu.step(&mut bus, 5);
    assert_eq!(ppu.mode, 3);
    // the cycles past the end of OAM scan count toward drawing
    assert_eq!(ppu.cycles, 4);
    assert_eq!(bus.read(0xFF41) & 0x03, 3);
    ppu.step(&mut bus, 168);
    assert_eq!(ppu.mode, 0);
    assert_eq!(ppu.cycles, 0);
    assert_eq!(bus.read(0xFF41) & 0x03, 0);
    ppu.step(&mut bus, 204);
    assert_eq!(ppu.mode, 2);
    assert_eq!(ppu.ly, 1);
    assert_eq!(bus.read(0xFF44), 1);
}

#[test]
fn ppu_vblank_raises_interrupt_and_frame() {
    let mut bus = MemoryBus::new();
    let mut ppu = PPU::new();
    let mut frames = 0;
    let mut vblank_seen = false;
    for _ in 0..20000 {
        ppu.step(&mut bus, 12);
        if ppu.mode == 1 && bus.read(0xFF0F) & 0x01 != 0 {
            vblank_seen = true;
        }
        if ppu.frame_ready {
            frames += 1;
            break;
        }
    }
    assert!(vblank_seen);
    assert_eq!(frames, 1);
    assert_eq!(ppu.ly, 0);
    assert_eq!(ppu.mode, 2);
}

#[test]
fn apu_silent_when_sound_off() {
    let mut bus = MemoryBus::new();
    let mut apu = APU::new();
    for _ in 0..100 {
        apu.step(&mut bus, 24);
    }
    assert!(apu.buffer.is_empty());
    assert_eq!(apu.divider, 0);
}

#[test]
fn apu_samples_every_period() {
    let mut bus = MemoryBus::new();
    bus.write(0xFF26, 0x80);
    let mut apu = APU::new();
    apu.step(&mut bus, 94);
    assert!(apu.buffer.is_empty());
    apu.step(&mut bus, 1);
    assert_eq!(apu.buffer.len(), 2);
    assert_eq!(apu.divider, 0);
    apu.step(&mut bus, 100);
    assert_eq!(apu.buffer.len(), 4);
    assert_eq!(apu.divider, 100 - SAMPLE_PERIOD);
    assert!(apu.buffer.iter().all(|&s| s == 0));
}

#[test]
fn apu_trigger_is_acknowledged_on_the_bus() {
    let mut bus = MemoryBus::new();
    bus.write(0xFF26, 0x80);
    bus.write(0xFF24, 0x77);
    bus.write(0xFF25, 0x22);
    bus.write(0xFF16, 0xC0);
    bus.write(0xFF17, 0xA3);
    bus.write(0xFF18, 0x34);
    bus.write(0xFF19, 0xC5);
    let mut apu = APU::new();
    apu.step(&mut bus, 4);
    assert_eq!(bus.read(0xFF19), 0x45);
    assert!(apu.channel_2.active);
    assert_eq!(apu.channel_2.frequency, 0x534);
    assert!(apu.channel_2.length_enable);
    assert_eq!(apu.channel_2.duty, 0b01111110);
    assert_eq!(apu.channel_2.envelope.volume, 0x0A);
    assert_eq!(apu.channel_2.envelope.env_period, 3);
    assert!(!apu.channel_2.envelope.env_direction);
    assert_eq!(apu.l_master, 7);
    assert_eq!(apu.r_master, 7);
    assert!(apu.channel_routing.channel_2.left && apu.channel_routing.channel_2.right);
    assert!(!apu.channel_routing.channel_1.left);
}

#[test]
fn apu_noise_trigger_sets_divisor() {
    let mut bus = MemoryBus::new();
    bus.write(0xFF26, 0x80);
    bus.write(0xFF21, 0xF0);
    bus.write(0xFF22, 0x32);
    bus.write(0xFF23, 0x80);
    let mut apu = APU::new();
    apu.step(&mut bus, 4);
    assert!(apu.channel_4.active);
    // divisor code 2 -> 32, shift 3 -> 256
    assert_eq!(apu.channel_4.timer_period, 256);
    assert_eq!(apu.channel_4.lfsr, 0x7FFF);
    assert_eq!(bus.read(0xFF23), 0x00);
}

#[test]
fn max_level_is_three_full_channels() {
    assert_eq!(MAX_LEVEL, 15 * 8 * 3);
}

#[test]
fn hardware_mode_variants() {
    assert!(HardwareMode::DMG != HardwareMode::GBC);
}

/// Steps the PPU four cycles at a time until line `ly` has been drawn.
fn run_until_drawn(ppu: &mut PPU, bus: &mut MemoryBus, ly: u8) {
    let mut guard = 0;
    while !(ppu.mode == 0 && ppu.ly == ly) {
        ppu.step(bus, 4);
        guard += 1;
        assert!(guard < 40000);
    }
}

#[test]
fn frame_takes_70224_cycles() {
    let mut bus = MemoryBus::new();
    let mut ppu = PPU::new();
    let mut calls = 0;
    while !ppu.frame_ready {
        ppu.step(&mut bus, 4);
        calls += 1;
        assert!(calls <= 20000);
    }
    assert_eq!(calls, 17556);
    assert_eq!(calls * 4, 154 * 456);
}

#[test]
fn vblank_lasts_ten_lines() {
    let mut bus = MemoryBus::new();
    let mut ppu = PPU::new();
    let mut vblank_cycles = 0;
    let mut lines_seen = Vec::new();
    while !ppu.frame_ready {
        ppu.step(&mut bus, 4);
        if ppu.mode == 1 {
            vblank_cycles += 4;
            if lines_seen.last() != Some(&ppu.ly) {
                lines_seen.push(ppu.ly);
            }
        }
    }
    assert_eq!(lines_seen, (144u8..=153).collect::<Vec<u8>>());
    assert_eq!(vblank_cycles, 4560);
    assert_eq!(bus.read(0xFF44), 0);
}

#[test]
fn ly_register_follows_the_line() {
    let mut bus = MemoryBus::new();
    let mut ppu = PPU::new();
    for _ in 0..30000 {
        ppu.step(&mut bus, 4);
        assert_eq!(bus.read(0xFF44), ppu.ly);
    }
}

#[test]
fn lyc_match_keeps_mode_bits() {
    let mut bus = MemoryBus::new();
    bus.write(0xFF45, 145);
    let mut ppu = PPU::new();
    while !(ppu.ly == 145) {
        ppu.step(&mut bus, 4);
    }
    // V-Blank (mode 1) with the coincidence bit set
    assert_eq!(bus.read(0xFF41) & 0x07, 0x05);
    while ppu.ly == 145 {
        ppu.step(&mut bus, 4);
    }
    assert_eq!(bus.read(0xFF41) & 0x07, 0x01);
}

#[test]
fn background_fine_scroll() {
    let mut bus = MemoryBus::new();
    bus.write(0xFF40, 0x91);
    bus.write(0xFF43, 4);
    bus.write(0xFF47, 0xE4);
    // tile 0, row 0: pixels 0-3 color 0, pixels 4-7 color 1
    bus.write(0x8000, 0x0F);
    bus.write(0x8001, 0x00);
    let mut ppu = PPU::new();
    run_until_drawn(&mut ppu, &mut bus, 0);
    assert_eq!(ppu.framebuffer[0..8].to_vec(), vec![1, 1, 1, 1, 0, 0, 0, 0]);
    assert_eq!(ppu.framebuffer[8..12].to_vec(), vec![1, 1, 1, 1]);
    assert!(ppu.framebuffer[160..].iter().all(|&c| c == 0));
}

#[test]
fn background_scroll_wraps_around_the_map() {
    let mut bus = MemoryBus::new();
    bus.write(0xFF40, 0x91);
    bus.write(0xFF43, 252);
    bus.write(0xFF47, 0xE4);
    // map column 31 shows tile 1 (all color 3), the rest tile 0 (color 0)
    bus.write(0x981F, 1);
    bus.write(0x8010, 0xFF);
    bus.write(0x8011, 0xFF);
    let mut ppu = PPU::new();
    run_until_drawn(&mut ppu, &mut bus, 0);
    assert_eq!(ppu.framebuffer[0..8].to_vec(), vec![3, 3, 3, 3, 0, 0, 0, 0]);
}

/// A bus with LCD, background (tile 0, color 0 everywhere) and sprites on.
fn sprite_bus() -> MemoryBus {
    let mut bus = MemoryBus::new();
    bus.write(0xFF40, 0x93);
    bus.write(0xFF47, 0xE4);
    // tile 1, row 0: pixels 0-3 color 1, pixels 4-7 color 0
    bus.write(0x8010, 0xF0);
    bus.write(0x8011, 0x00);
    bus
}

#[test]
fn sprite_color_zero_is_transparent_whatever_the_palette() {
    let mut bus = sprite_bus();
    // OBP0 maps color 0 to shade 1
    bus.write(0xFF48, 0xE5);
    bus.write(0xFE00, 16);
    bus.write(0xFE01, 8);
    bus.write(0xFE02, 1);
    bus.write(0xFE03, 0);
    let mut ppu = PPU::new();
    run_until_drawn(&mut ppu, &mut bus, 0);
    assert_eq!(ppu.framebuffer[0..8].to_vec(), vec![1, 1, 1, 1, 0, 0, 0, 0]);
}

#[test]
fn sprite_behind_background_shows_over_shade_zero() {
    let mut bus = sprite_bus();
    bus.write(0xFF48, 0xE4);
    // BGP maps color 1 to shade 0; the background shows color 1 everywhere
    bus.write(0xFF47, 0xE0);
    bus.write(0x8000, 0xFF);
    bus.write(0x8001, 0x00);
    bus.write(0xFE00, 16);
    bus.write(0xFE01, 8);
    bus.write(0xFE02, 1);
    bus.write(0xFE03, 0x80);
    let mut ppu = PPU::new();
    run_until_drawn(&mut ppu, &mut bus, 0);
    // the pixels behind hold shade 0, so the sprite covers them
    assert_eq!(ppu.framebuffer[0..8].to_vec(), vec![1, 1, 1, 1, 0, 0, 0, 0]);
}

#[test]
fn sprite_behind_background_hidden_by_nonzero_shade() {
    let mut bus = sprite_bus();
    bus.write(0xFF48, 0xE8); // sprite color 1 would show as shade 2
    // the background shows color 1, mapped to shade 1
    bus.write(0x8000, 0xFF);
    bus.write(0x8001, 0x00);
    bus.write(0xFE00, 16);
    bus.write(0xFE01, 8);
    bus.write(0xFE02, 1);
    bus.write(0xFE03, 0x80);
    let mut ppu = PPU::new();
    run_until_drawn(&mut ppu, &mut bus, 0);
    assert!(ppu.framebuffer[0..8].iter().all(|&c| c == 1));
}

#[test]
fn sprite_behind_background_shows_over_color_zero() {
    let mut bus = sprite_bus();
    bus.write(0xFF48, 0xE4);
    bus.write(0xFE00, 16);
    bus.write(0xFE01, 8);
    bus.write(0xFE02, 1);
    bus.write(0xFE03, 0x80);
    let mut ppu = PPU::new();
    run_until_drawn(&mut ppu, &mut bus, 0);
    assert_eq!(ppu.framebuffer[0..8].to_vec(), vec![1, 1, 1, 1, 0, 0, 0, 0]);
}

#[test]
fn sprites_are_clipped_at_the_edges() {
    let mut bus = sprite_bus();
    bus.write(0xFF48, 0xE4);
    // tile 2, row 0: all color 3
    bus.write(0x8020, 0xFF);
    bus.write(0x8021, 0xFF);
    // sprite 0 half off the left edge on line 1, sprite 1 half off the right edge
    bus.write(0xFE00, 17);
    bus.write(0xFE01, 4);
    bus.write(0xFE02, 2);
    bus.write(0xFE03, 0);
    bus.write(0xFE04, 17);
    bus.write(0xFE05, 164);
    bus.write(0xFE06, 2);
    bus.write(0xFE07, 0);
    let mut ppu = PPU::new();
    run_until_drawn(&mut ppu, &mut bus, 1);
    let line0 = &ppu.framebuffer[0..160];
    let line1 = &ppu.framebuffer[160..320];
    let line2 = &ppu.framebuffer[320..480];
    assert!(line0.iter().all(|&c| c == 0));
    assert!(line2.iter().all(|&c| c == 0));
    assert_eq!(line1[0..4].to_vec(), vec![3, 3, 3, 3]);
    assert_eq!(line1[4], 0);
    assert_eq!(line1[156..160].to_vec(), vec![3, 3, 3, 3]);
    assert_eq!(line1[155], 0);
}

#[test]
fn duty_patterns_have_documented_widths() {
    let mut bus = MemoryBus::new();
    bus.write(0xFF26, 0x80);
    let mut apu = APU::new();
    for (code, high) in [(0u8, 1u32), (1, 2), (2, 4), (3, 6)] {
        bus.write(0xFF16, code << 6);
        apu.step(&mut bus, 1);
        assert_eq!(apu.channel_2.duty.count_ones(), high);
    }
}

#[test]
fn envelope_steps_on_the_sequencer() {
    let mut bus = MemoryBus::new();
    bus.write(0xFF26, 0x80);
    bus.write(0xFF17, 0x81); // volume 8, decreasing, period 1
    bus.write(0xFF19, 0x80); // trigger
    let mut apu = APU::new();
    apu.step(&mut bus, 4);
    assert_eq!(apu.channel_2.envelope.volume, 8);
    // seven falling edges of DIV bit 4 bring the sequencer to step 7
    for _ in 0..7 {
        bus.memory[0xFF04] = 0x10;
        apu.step(&mut bus, 4);
        bus.memory[0xFF04] = 0x00;
        apu.step(&mut bus, 4);
    }
    assert_eq!(apu.div_apu, 7);
    assert_eq!(apu.channel_2.envelope.volume, 7);
    assert_eq!(apu.channel_2.envelope.env_timer, 1);
}
