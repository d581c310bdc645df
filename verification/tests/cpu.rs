use crabboy_core::cpu::{is_implemented, FlagsRegister, MemoryBus as FlatBus, Registers, CPU};

/// A processor with `program` placed at the cartridge entry point 0x0100.
fn cpu_with(program: &[u8]) -> CPU {
    let mut rom = vec![0u8; 0x8000];
    rom[0x100..0x100 + program.len()].copy_from_slice(program);
    let mut cpu = CPU::new();
    cpu.memory_bus.load_rom(rom, None);
    cpu
}

fn flags(cpu: &CPU) -> (bool, bool, bool, bool) {
    let f = cpu.registers.f;
    (f.zero, f.subtract, f.half_carry, f.carry)
}

#[test]
fn power_on_registers() {
    let cpu = CPU::new();
    assert_eq!(cpu.registers.pc, 0x0100);
    assert_eq!(cpu.registers.sp, 0xFFFE);
    assert_eq!(cpu.registers.a, 0);
    assert_eq!(cpu.registers.get_af(), 0);
}

#[test]
fn register_pairs_round_trip() {
    let mut cpu = CPU::new();
    let r: &mut Registers = &mut cpu.registers;
    r.set_bc(0x1234);
    r.set_de(0xABCD);
    r.set_hl(0x8001);
    assert_eq!((r.b, r.c), (0x12, 0x34));
    assert_eq!(r.get_bc(), 0x1234);
    assert_eq!(r.get_de(), 0xABCD);
    assert_eq!(r.get_hl(), 0x8001);
    // the low nibble of F always reads 0
    r.set_af(0x12FF);
    assert_eq!(r.a, 0x12);
    assert_eq!(r.get_af(), 0x12F0);
}

#[test]
fn flags_byte_encoding() {
    let mut f = FlagsRegister { zero: true, subtract: false, half_carry: true, carry: false };
    assert_eq!(f.get_register(), 0xA0);
    f.set_register(0x5F);
    assert_eq!((f.zero, f.subtract, f.half_carry, f.carry), (false, true, false, true));
    assert_eq!(f.get_register(), 0x50);
}

#[test]
fn ld_immediate_and_nop_cycles() {
    let mut cpu = cpu_with(&[0x00, 0x3E, 0x12, 0x06, 0x34]);
    assert_eq!(cpu.step(), 4);
    assert_eq!(cpu.registers.pc, 0x0101);
    assert_eq!(cpu.step(), 8);
    assert_eq!(cpu.registers.a, 0x12);
    assert_eq!(cpu.step(), 8);
    assert_eq!(cpu.registers.b, 0x34);
    assert_eq!(cpu.registers.pc, 0x0105);
}

#[test]
fn add_sets_zero_half_carry_and_carry() {
    // LD A,0x3A; LD B,0xC6; ADD A,B
    let mut cpu = cpu_with(&[0x3E, 0x3A, 0x06, 0xC6, 0x80]);
    cpu.step();
    cpu.step();
    assert_eq!(cpu.step(), 4);
    assert_eq!(cpu.registers.a, 0x00);
    assert_eq!(flags(&cpu), (true, false, true, true));
}

#[test]
fn adc_adds_carry_in() {
    // SCF; LD A,0x0F; ADC A,0x01
    let mut cpu = cpu_with(&[0x37, 0x3E, 0x0F, 0xCE, 0x01]);
    cpu.step();
    cpu.step();
    assert_eq!(cpu.step(), 8);
    assert_eq!(cpu.registers.a, 0x11);
    assert_eq!(flags(&cpu), (false, false, true, false));
}

#[test]
fn sub_and_compare() {
    // LD A,0x3E; SUB 0x3E; LD A,0x10; CP 0x20
    let mut cpu = cpu_with(&[0x3E, 0x3E, 0xD6, 0x3E, 0x3E, 0x10, 0xFE, 0x20]);
    cpu.step();
    cpu.step();
    assert_eq!(cpu.registers.a, 0);
    assert_eq!(flags(&cpu), (true, true, false, false));
    cpu.step();
    cpu.step();
    // CP leaves A and borrows
    assert_eq!(cpu.registers.a, 0x10);
    assert_eq!(flags(&cpu), (false, true, false, true));
}

#[test]
fn sbc_subtracts_borrow() {
    // SCF; LD A,0x10; SBC A,0x01
    let mut cpu = cpu_with(&[0x37, 0x3E, 0x10, 0xDE, 0x01]);
    cpu.step();
    cpu.step();
    cpu.step();
    assert_eq!(cpu.registers.a, 0x0E);
    assert_eq!(flags(&cpu), (false, true, true, false));
}

#[test]
fn logic_operations() {
    // LD A,0xF0; AND 0x3C; OR 0x01; XOR 0x31
    let mut cpu = cpu_with(&[0x3E, 0xF0, 0xE6, 0x3C, 0xF6, 0x01, 0xEE, 0x31]);
    cpu.step();
    cpu.step();
    assert_eq!(cpu.registers.a, 0x30);
    assert_eq!(flags(&cpu), (false, false, true, false));
    cpu.step();
    assert_eq!(cpu.registers.a, 0x31);
    assert_eq!(flags(&cpu), (false, false, false, false));
    cpu.step();
    assert_eq!(cpu.registers.a, 0x00);
    assert_eq!(flags(&cpu), (true, false, false, false));
}

#[test]
fn inc_dec_wrap_and_keep_carry() {
    // SCF; LD A,0xFF; INC A; DEC A
    let mut cpu = cpu_with(&[0x37, 0x3E, 0xFF, 0x3C, 0x3D]);
    cpu.step();
    cpu.step();
    cpu.step();
    assert_eq!(cpu.registers.a, 0x00);
    assert_eq!(flags(&cpu), (true, false, true, true));
    cpu.step();
    assert_eq!(cpu.registers.a, 0xFF);
    assert_eq!(flags(&cpu), (false, true, true, true));
}

#[test]
fn sixteen_bit_arithmetic() {
    // LD HL,0x0FFF; LD BC,0x0001; ADD HL,BC; INC BC; DEC DE
    let mut cpu = cpu_with(&[0x21, 0xFF, 0x0F, 0x01, 0x01, 0x00, 0x09, 0x03, 0x1B]);
    assert_eq!(cpu.step(), 12);
    cpu.step();
    assert_eq!(cpu.step(), 8);
    assert_eq!(cpu.registers.get_hl(), 0x1000);
    assert_eq!(flags(&cpu), (false, false, true, false));
    cpu.step();
    assert_eq!(cpu.registers.get_bc(), 0x0002);
    cpu.step();
    assert_eq!(cpu.registers.get_de(), 0xFFFF);
}

#[test]
fn daa_after_addition() {
    // LD A,0x45; ADD A,0x38; DAA
    let mut cpu = cpu_with(&[0x3E, 0x45, 0xC6, 0x38, 0x27]);
    cpu.step();
    cpu.step();
    assert_eq!(cpu.registers.a, 0x7D);
    cpu.step();
    assert_eq!(cpu.registers.a, 0x83);
    assert!(!cpu.registers.f.carry);
}

#[test]
fn daa_after_subtraction() {
    // LD A,0x83; SUB 0x38; DAA
    let mut cpu = cpu_with(&[0x3E, 0x83, 0xD6, 0x38, 0x27]);
    cpu.step();
    cpu.step();
    assert_eq!(cpu.registers.a, 0x4B);
    cpu.step();
    assert_eq!(cpu.registers.a, 0x45);
}

#[test]
fn memory_loads_through_hl() {
    // LD HL,0xC000; LD (HL),0x5A; LD A,(HL+); LD (HL-),A; LD B,(HL)
    let mut cpu = cpu_with(&[0x21, 0x00, 0xC0, 0x36, 0x5A, 0x2A, 0x32, 0x46]);
    cpu.step();
    assert_eq!(cpu.step(), 12);
    assert_eq!(cpu.memory_bus.read(0xC000), 0x5A);
    assert_eq!(cpu.step(), 8);
    assert_eq!(cpu.registers.a, 0x5A);
    assert_eq!(cpu.registers.get_hl(), 0xC001);
    cpu.step();
    assert_eq!(cpu.memory_bus.read(0xC001), 0x5A);
    assert_eq!(cpu.registers.get_hl(), 0xC000);
    assert_eq!(cpu.step(), 8);
    assert_eq!(cpu.registers.b, 0x5A);
}

#[test]
fn high_page_loads() {
    // LD A,0x42; LDH (0x80),A; LD A,0; LDH A,(0x80); LD C,0x81; LD (C),A
    let mut cpu = cpu_with(&[0x3E, 0x42, 0xE0, 0x80, 0x3E, 0x00, 0xF0, 0x80, 0x0E, 0x81, 0xE2]);
    cpu.step();
    assert_eq!(cpu.step(), 12);
    assert_eq!(cpu.memory_bus.read(0xFF80), 0x42);
    cpu.step();
    cpu.step();
    assert_eq!(cpu.registers.a, 0x42);
    cpu.step();
    assert_eq!(cpu.step(), 8);
    assert_eq!(cpu.memory_bus.read(0xFF81), 0x42);
}

#[test]
fn push_pop_round_trip() {
    // LD BC,0xBEEF; PUSH BC; POP DE
    let mut cpu = cpu_with(&[0x01, 0xEF, 0xBE, 0xC5, 0xD1]);
    cpu.step();
    assert_eq!(cpu.step(), 16);
    assert_eq!(cpu.registers.sp, 0xFFFC);
    assert_eq!(cpu.memory_bus.read(0xFFFD), 0xBE);
    assert_eq!(cpu.memory_bus.read(0xFFFC), 0xEF);
    assert_eq!(cpu.step(), 12);
    assert_eq!(cpu.registers.get_de(), 0xBEEF);
    assert_eq!(cpu.registers.sp, 0xFFFE);
}

#[test]
fn pop_af_masks_flags() {
    // LD BC,0x12FF; PUSH BC; POP AF
    let mut cpu = cpu_with(&[0x01, 0xFF, 0x12, 0xC5, 0xF1]);
    cpu.step();
    cpu.step();
    cpu.step();
    assert_eq!(cpu.registers.get_af(), 0x12F0);
}

#[test]
fn call_and_return() {
    // 0x100: CALL 0x0110; 0x103: NOP ... 0x110: RET
    let mut program = vec![0u8; 0x11];
    program[0] = 0xCD;
    program[1] = 0x10;
    program[2] = 0x01;
    program[0x10] = 0xC9;
    let mut cpu = cpu_with(&program);
    assert_eq!(cpu.step(), 24);
    assert_eq!(cpu.registers.pc, 0x0110);
    assert_eq!(cpu.registers.sp, 0xFFFC);
    assert_eq!(cpu.step(), 16);
    assert_eq!(cpu.registers.pc, 0x0103);
    assert_eq!(cpu.registers.sp, 0xFFFE);
}

#[test]
fn conditional_call_not_taken() {
    // XOR A sets Z; CALL NZ,0x0200
    let mut cpu = cpu_with(&[0xAF, 0xC4, 0x00, 0x02]);
    cpu.step();
    assert_eq!(cpu.step(), 12);
    assert_eq!(cpu.registers.pc, 0x0104);
    assert_eq!(cpu.registers.sp, 0xFFFE);
}

#[test]
fn relative_jumps() {
    // 0x100: JR +2; 0x102: NOP NOP; 0x104: XOR A; JR Z,-7 (to 0x0100)
    let mut cpu = cpu_with(&[0x18, 0x02, 0x00, 0x00, 0xAF, 0x28, 0xF9]);
    assert_eq!(cpu.step(), 12);
    assert_eq!(cpu.registers.pc, 0x0104);
    cpu.step();
    assert_eq!(cpu.step(), 12);
    assert_eq!(cpu.registers.pc, 0x0100);
}

#[test]
fn relative_jump_not_taken() {
    // XOR A; JR NZ,+5
    let mut cpu = cpu_with(&[0xAF, 0x20, 0x05]);
    cpu.step();
    assert_eq!(cpu.step(), 8);
    assert_eq!(cpu.registers.pc, 0x0103);
}

#[test]
fn absolute_jump_and_jp_hl() {
    // JP 0x0150 ; at 0x150: LD HL,0x0100; JP (HL)
    let mut program = vec![0u8; 0x60];
    program[0] = 0xC3;
    program[1] = 0x50;
    program[2] = 0x01;
    program[0x50] = 0x21;
    program[0x51] = 0x00;
    program[0x52] = 0x01;
    program[0x53] = 0xE9;
    let mut cpu = cpu_with(&program);
    assert_eq!(cpu.step(), 16);
    assert_eq!(cpu.registers.pc, 0x0150);
    cpu.step();
    assert_eq!(cpu.step(), 4);
    assert_eq!(cpu.registers.pc, 0x0100);
}

#[test]
fn restart_pushes_return_address() {
    // RST 0x28
    let mut cpu = cpu_with(&[0xEF]);
    assert_eq!(cpu.step(), 16);
    assert_eq!(cpu.registers.pc, 0x0028);
    assert_eq!(cpu.registers.sp, 0xFFFC);
    assert_eq!(cpu.memory_bus.read(0xFFFC), 0x01);
    assert_eq!(cpu.memory_bus.read(0xFFFD), 0x01);
}

#[test]
fn accumulator_rotations() {
    // LD A,0x85; RLCA; RRA
    let mut cpu = cpu_with(&[0x3E, 0x85, 0x07, 0x1F]);
    cpu.step();
    cpu.step();
    assert_eq!(cpu.registers.a, 0x0B);
    assert_eq!(flags(&cpu), (false, false, false, true));
    cpu.step();
    // carry 1 rotates into bit 7; bit 0 (1) goes out
    assert_eq!(cpu.registers.a, 0x85);
    assert_eq!(flags(&cpu), (false, false, false, true));
}

#[test]
fn cb_prefix_operations() {
    // LD A,0xF1; SWAP A; LD H,0x80; BIT 7,H; RES 7,H; SET 0,A; SRL A
    let mut cpu = cpu_with(&[0x3E, 0xF1, 0xCB, 0x37, 0x26, 0x80, 0xCB, 0x7C, 0xCB, 0xBC, 0xCB, 0xC7, 0xCB, 0x3F]);
    cpu.step();
    assert_eq!(cpu.step(), 8);
    assert_eq!(cpu.registers.a, 0x1F);
    assert_eq!(flags(&cpu), (false, false, false, false));
    cpu.step();
    cpu.step();
    assert_eq!(flags(&cpu), (false, false, true, false));
    cpu.step();
    assert_eq!(cpu.registers.h, 0x00);
    cpu.step();
    assert_eq!(cpu.registers.a, 0x1F);
    cpu.step();
    assert_eq!(cpu.registers.a, 0x0F);
    assert!(cpu.registers.f.carry);
}

#[test]
fn cb_on_memory_costs_more() {
    // LD HL,0xC000; SET 3,(HL); BIT 3,(HL)
    let mut cpu = cpu_with(&[0x21, 0x00, 0xC0, 0xCB, 0xDE, 0xCB, 0x5E]);
    cpu.step();
    assert_eq!(cpu.step(), 16);
    assert_eq!(cpu.memory_bus.read(0xC000), 0x08);
    assert_eq!(cpu.step(), 12);
    assert!(!cpu.registers.f.zero);
}

#[test]
fn shifts_through_carry() {
    // LD B,0x81; SLA B; SRA B; RL B
    let mut cpu = cpu_with(&[0x06, 0x81, 0xCB, 0x20, 0xCB, 0x28, 0xCB, 0x10]);
    cpu.step();
    cpu.step();
    assert_eq!(cpu.registers.b, 0x02);
    assert!(cpu.registers.f.carry);
    cpu.step();
    assert_eq!(cpu.registers.b, 0x01);
    assert!(!cpu.registers.f.carry);
    cpu.step();
    assert_eq!(cpu.registers.b, 0x02);
}

#[test]
fn stack_pointer_arithmetic() {
    // LD SP,0xFFF8; ADD SP,-8 (0xF8); LD HL,SP+2; LD (0xC000),SP
    let mut cpu = cpu_with(&[0x31, 0xF8, 0xFF, 0xE8, 0xF8, 0xF8, 0x02, 0x08, 0x00, 0xC0]);
    cpu.step();
    assert_eq!(cpu.step(), 16);
    assert_eq!(cpu.registers.sp, 0xFFF0);
    assert_eq!(flags(&cpu), (false, false, true, true));
    assert_eq!(cpu.step(), 12);
    assert_eq!(cpu.registers.get_hl(), 0xFFF2);
    assert_eq!(cpu.step(), 20);
    assert_eq!(cpu.memory_bus.read(0xC000), 0xF0);
    assert_eq!(cpu.memory_bus.read(0xC001), 0xFF);
}

#[test]
fn complement_and_carry_flags() {
    // LD A,0x35; CPL; SCF; CCF
    let mut cpu = cpu_with(&[0x3E, 0x35, 0x2F, 0x37, 0x3F]);
    cpu.step();
    cpu.step();
    assert_eq!(cpu.registers.a, 0xCA);
    assert!(cpu.registers.f.subtract && cpu.registers.f.half_carry);
    cpu.step();
    assert!(cpu.registers.f.carry);
    cpu.step();
    assert!(!cpu.registers.f.carry);
}

#[test]
fn unimplemented_opcodes_are_reported() {
    for op in [0xD3u8, 0xDB, 0xDD, 0xE3, 0xE4, 0xEB, 0xEC, 0xED, 0xF4, 0xFC, 0xFD] {
        assert!(!is_implemented(op));
    }
    for op in [0x00u8, 0x0A, 0x1A, 0x76, 0xCB, 0xFF, 0xF3, 0xFB] {
        assert!(is_implemented(op));
    }
    let cpu = cpu_with(&[0xD3]);
    assert!(!cpu.can_step());
    let cpu = cpu_with(&[0x00]);
    assert!(cpu.can_step());
}

#[test]
fn flat_bus_serial_output() {
    let mut bus = FlatBus::new();
    assert_eq!(bus.read(0xFF01), 0);
    assert_eq!(bus.write(0xFF01, b'A'), None);
    assert_eq!(bus.write(0xFF02, 0x81), Some(b'A'));
    assert_eq!(bus.read(0xFF02), 0x81);
    assert_eq!(bus.write(0xFF02, 0x80), None);
}

#[test]
fn flat_bus_load_program() {
    let mut bus = FlatBus::new();
    bus.write(0x0005, 0x99);
    bus.load_rom(&[1, 2, 3]);
    assert_eq!(bus.read(0), 1);
    assert_eq!(bus.read(2), 3);
    assert_eq!(bus.read(5), 0x99);
}

#[test]
fn load_accumulator_through_bc() {
    // LD BC,0xC000; LD A,0x77; LD (BC),A; XOR A; LD A,(BC)
    let mut cpu = cpu_with(&[0x01, 0x00, 0xC0, 0x3E, 0x77, 0x02, 0xAF, 0x0A]);
    cpu.step();
    cpu.step();
    assert_eq!(cpu.step(), 8);
    assert_eq!(cpu.memory_bus.read(0xC000), 0x77);
    cpu.step();
    assert_eq!(cpu.registers.a, 0);
    assert_eq!(cpu.step(), 8);
    assert_eq!(cpu.registers.a, 0x77);
}

#[test]
fn daa_decimal_overflow_sets_carry() {
    // LD A,0x99; ADD A,0x61 (BCD 99 + 61); DAA
    let mut cpu = cpu_with(&[0x3E, 0x99, 0xC6, 0x61, 0x27]);
    cpu.step();
    cpu.step();
    assert_eq!(cpu.registers.a, 0xFA);
    assert_eq!(flags(&cpu), (false, false, false, false));
    cpu.step();
    assert_eq!(cpu.registers.a, 0x60);
    assert_eq!(flags(&cpu), (false, false, false, true));
}

#[test]
fn daa_low_and_high_corrections() {
    // LD A,0x9A; ADD A,0x00 clears flags; DAA: 9A -> 00 with carry
    let mut cpu = cpu_with(&[0x3E, 0x9A, 0xC6, 0x00, 0x27]);
    cpu.step();
    cpu.step();
    cpu.step();
    assert_eq!(cpu.registers.a, 0x00);
    assert_eq!(flags(&cpu), (true, false, false, true));
}
