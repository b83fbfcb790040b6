use rusty_gbc::boot::{load_rom, BOOT_ROM};
use rusty_gbc::cpu::{Cpu, FrameExit, Pause, FRAME_STEP_LIMIT};
use rusty_gbc::debugger::Debugger;
use rusty_gbc::display::Display;
use rusty_gbc::fault::Fault;
use rusty_gbc::gpu::Gpu;
use rusty_gbc::Color;

struct Screen {
    lines: usize,
    frames: usize,
}

impl Display for Screen {
    fn update_line_from_buffer(&mut self, _buffer: [Color; 160], _pixel_y: u8) {
        self.lines += 1;
    }

    fn render_frame(&mut self) {
        self.frames += 1;
    }
}

fn machine_with(program: &[u8], color: bool) -> Cpu {
    let mut rom: Vec<u8> = vec![0u8; 0x8000];
    for (i, byte) in program.iter().enumerate() {
        rom[0x100 + i] = *byte;
    }
    let boot: Vec<u8> = if color { vec![0u8; 0x900] } else { load_rom() };
    let mut cpu = Cpu::new(rom, Vec::new(), boot, Gpu::new(color).unwrap()).unwrap();
    cpu.mem.write(0xFF50, 1);
    cpu.regs.pc = 0x100;
    cpu.regs.sp = 0xFFFE;
    cpu
}

fn machine(program: &[u8]) -> Cpu {
    machine_with(program, false)
}

fn run(cpu: &mut Cpu, steps: usize) -> Vec<u8> {
    let mut cycles: Vec<u8> = Vec::new();
    for _ in 0..steps {
        cycles.push(cpu.step_cycles().unwrap());
    }
    cycles
}

#[test]
fn machine_starts_in_the_boot_rom() {
    let cpu = Cpu::new(vec![0u8; 0x8000], Vec::new(), load_rom(), Gpu::new(false).unwrap()).unwrap();
    assert_eq!(cpu.regs.pc, 0);
    assert!(cpu.ime);
    assert!(!cpu.halted);
    assert!(cpu.mem.latches.booting);
    assert_eq!(cpu.mem.read(0), 0x31);
}

#[test]
fn boot_program_sets_up_the_stack_and_clears_video_ram() {
    let mut cpu = Cpu::new(vec![0u8; 0x8000], Vec::new(), load_rom(), Gpu::new(false).unwrap()).unwrap();
    cpu.mem.write(0x9FFF, 0x55);
    cpu.mem.write(0x8000, 0x55);
    assert_eq!(cpu.step_cycles(), Ok(12));
    assert_eq!(cpu.regs.sp, 0xFFFE);
    // XOR A; LD HL,0x9FFF; then the loop of three instructions for each of 0x2000 bytes
    run(&mut cpu, 2 + 3 * 0x2000);
    assert_eq!(cpu.regs.pc, 0x000C);
    assert_eq!(cpu.regs.get_hl(), 0x7FFF);
    assert_eq!(cpu.mem.read(0x9FFF), 0);
    assert_eq!(cpu.mem.read(0x8000), 0);
}

#[test]
fn loads_and_adds() {
    // LD A,5; LD B,3; ADD A,B; LD C,A; LD (HL),C with HL = 0xC000
    let mut cpu = machine(&[0x3E, 0x05, 0x06, 0x03, 0x80, 0x4F, 0x21, 0x00, 0xC0, 0x71, 0x7E]);
    assert_eq!(run(&mut cpu, 7), vec![8, 8, 4, 4, 12, 8, 8]);
    assert_eq!(cpu.regs.a, 8);
    assert_eq!(cpu.regs.b, 3);
    assert_eq!(cpu.regs.c, 8);
    assert_eq!(cpu.regs.f, 0x00);
    assert_eq!(cpu.mem.read(0xC000), 8);
    assert_eq!(cpu.regs.pc, 0x10B);
}

#[test]
fn every_register_to_register_load() {
    for to in 0u8..8 {
        for from in 0u8..8 {
            let opcode: u8 = 0x40 | to << 3 | from;
            if opcode == 0x76 {
                continue;
            }
            let mut cpu = machine(&[opcode]);
            cpu.regs.b = 0x10;
            cpu.regs.c = 0x11;
            cpu.regs.d = 0x12;
            cpu.regs.e = 0x13;
            cpu.regs.h = 0xC0;
            cpu.regs.l = 0x15;
            cpu.regs.a = 0x17;
            cpu.mem.write(0xC015, 0x16);
            let before: [u8; 8] = [0x10, 0x11, 0x12, 0x13, 0xC0, 0x15, 0x16, 0x17];
            let cycles = cpu.step_cycles().unwrap();
            assert_eq!(cycles, if to == 6 || from == 6 { 8 } else { 4 });
            let hl_then: u16 = 0xC015;
            let after: [u8; 8] = [
                cpu.regs.b,
                cpu.regs.c,
                cpu.regs.d,
                cpu.regs.e,
                cpu.regs.h,
                cpu.regs.l,
                cpu.mem.read(hl_then),
                cpu.regs.a,
            ];
            for index in 0..8usize {
                if index == to as usize {
                    assert_eq!(after[index], before[from as usize]);
                } else {
                    assert_eq!(after[index], before[index]);
                }
            }
        }
    }
}

#[test]
fn the_eight_operations_on_a() {
    // ADD, ADC, SUB, SBC, AND, XOR, OR, CP with B; A = 0x3C, B = 0x12, carry set
    let expected: [(u8, u8); 8] = [
        (0x4E, 0x00),
        (0x4F, 0x00),
        (0x2A, 0x40),
        (0x29, 0x40),
        (0x10, 0x20),
        (0x2E, 0x00),
        (0x3E, 0x00),
        (0x3C, 0x40),
    ];
    for kind in 0u8..8 {
        let mut cpu = machine(&[0x80 | kind << 3, 0xC6 | kind << 3, 0x12]);
        cpu.regs.a = 0x3C;
        cpu.regs.b = 0x12;
        cpu.regs.f = 0x10;
        assert_eq!(cpu.step_cycles(), Ok(4));
        assert_eq!((cpu.regs.a, cpu.regs.f), expected[kind as usize]);
        // the same with the operand after the opcode
        cpu.regs.a = 0x3C;
        cpu.regs.f = 0x10;
        assert_eq!(cpu.step_cycles(), Ok(8));
        assert_eq!((cpu.regs.a, cpu.regs.f), expected[kind as usize]);
        assert_eq!(cpu.regs.pc, 0x103);
    }
}

#[test]
fn operations_on_the_byte_at_hl_take_longer() {
    // ADD A,(HL); INC (HL); DEC (HL); LD (HL),n
    let mut cpu = machine(&[0x86, 0x34, 0x35, 0x36, 0x99]);
    cpu.regs.set_hl(0xC000);
    cpu.mem.write(0xC000, 0x0F);
    cpu.regs.a = 0x01;
    assert_eq!(run(&mut cpu, 4), vec![8, 12, 12, 12]);
    assert_eq!(cpu.regs.a, 0x10);
    assert_eq!(cpu.mem.read(0xC000), 0x99);
}

#[test]
fn increments_and_decrements() {
    // INC B; DEC C; INC (HL)
    let mut cpu = machine(&[0x04, 0x0D, 0x34]);
    cpu.regs.b = 0xFF;
    cpu.regs.c = 0x10;
    cpu.regs.f = 0x10;
    cpu.regs.set_hl(0xC000);
    cpu.mem.write(0xC000, 0x0F);
    assert_eq!(cpu.step_cycles(), Ok(4));
    assert_eq!((cpu.regs.b, cpu.regs.f), (0x00, 0xB0));
    assert_eq!(cpu.step_cycles(), Ok(4));
    assert_eq!((cpu.regs.c, cpu.regs.f), (0x0F, 0x70));
    assert_eq!(cpu.step_cycles(), Ok(12));
    assert_eq!((cpu.mem.read(0xC000), cpu.regs.f), (0x10, 0x30));
}

#[test]
fn sixteen_bit_loads_and_steps() {
    // LD BC,0x1234; LD DE,0xFFFF; LD HL,0x0000; LD SP,0xC000; INC DE; DEC HL; INC SP; DEC BC
    let mut cpu = machine(&[
        0x01, 0x34, 0x12, 0x11, 0xFF, 0xFF, 0x21, 0x00, 0x00, 0x31, 0x00, 0xC0, 0x13, 0x2B, 0x33,
        0x0B,
    ]);
    cpu.regs.f = 0xF0;
    assert_eq!(run(&mut cpu, 8), vec![12, 12, 12, 12, 8, 8, 8, 8]);
    assert_eq!(cpu.regs.get_bc(), 0x1233);
    assert_eq!(cpu.regs.get_de(), 0x0000);
    assert_eq!(cpu.regs.get_hl(), 0xFFFF);
    assert_eq!(cpu.regs.sp, 0xC001);
    assert_eq!(cpu.regs.f, 0xF0);
}

#[test]
fn add_to_hl() {
    // ADD HL,BC; ADD HL,HL; ADD HL,SP
    let mut cpu = machine(&[0x09, 0x29, 0x39]);
    cpu.regs.set_hl(0x0FFF);
    cpu.regs.set_bc(0x0001);
    cpu.regs.sp = 0xE000;
    cpu.regs.f = 0xC0;
    assert_eq!(cpu.step_cycles(), Ok(8));
    assert_eq!((cpu.regs.get_hl(), cpu.regs.f), (0x1000, 0xA0));
    assert_eq!(cpu.step_cycles(), Ok(8));
    assert_eq!((cpu.regs.get_hl(), cpu.regs.f), (0x2000, 0x80));
    assert_eq!(cpu.step_cycles(), Ok(8));
    assert_eq!((cpu.regs.get_hl(), cpu.regs.f), (0x0000, 0x90));
}

#[test]
fn loads_through_register_pairs() {
    // LD (BC),A; LD (DE),A; LD (HL+),A; LD (HL-),A; LD A,(BC); LD A,(HL-); LD A,(HL+); LD A,(DE)
    let mut cpu = machine(&[0x02, 0x12, 0x22, 0x32, 0x0A, 0x3A, 0x2A, 0x1A]);
    cpu.regs.a = 0x77;
    cpu.regs.set_bc(0xC000);
    cpu.regs.set_de(0xC001);
    cpu.regs.set_hl(0xC002);
    assert_eq!(run(&mut cpu, 4), vec![8, 8, 8, 8]);
    assert_eq!(cpu.mem.read(0xC000), 0x77);
    assert_eq!(cpu.mem.read(0xC001), 0x77);
    assert_eq!(cpu.mem.read(0xC002), 0x77);
    assert_eq!(cpu.mem.read(0xC003), 0x77);
    assert_eq!(cpu.regs.get_hl(), 0xC002);
    cpu.mem.write(0xC000, 1);
    cpu.mem.write(0xC001, 2);
    cpu.mem.write(0xC002, 3);
    assert_eq!(cpu.step_cycles(), Ok(8));
    assert_eq!(cpu.regs.a, 1);
    assert_eq!(cpu.step_cycles(), Ok(8));
    assert_eq!((cpu.regs.a, cpu.regs.get_hl()), (3, 0xC001));
    assert_eq!(cpu.step_cycles(), Ok(8));
    assert_eq!((cpu.regs.a, cpu.regs.get_hl()), (2, 0xC002));
    assert_eq!(cpu.step_cycles(), Ok(8));
    assert_eq!(cpu.regs.a, 2);
}

#[test]
fn loads_in_the_high_page_and_at_addresses() {
    // LDH (0x80),A; LD (FF00+C),A; LD (0xC123),A; LDH A,(0x81); LD A,(FF00+C); LD A,(0xC124); LD (0xC200),SP
    let mut cpu = machine(&[
        0xE0, 0x80, 0xE2, 0xEA, 0x23, 0xC1, 0xF0, 0x81, 0xF2, 0xFA, 0x24, 0xC1, 0x08, 0x00, 0xC2,
    ]);
    cpu.regs.a = 0x42;
    cpu.regs.c = 0x82;
    assert_eq!(run(&mut cpu, 3), vec![12, 8, 8]);
    assert_eq!(cpu.mem.read(0xFF80), 0x42);
    assert_eq!(cpu.mem.read(0xFF82), 0x42);
    assert_eq!(cpu.mem.read(0xC123), 0x42);
    cpu.mem.write(0xFF81, 1);
    cpu.mem.write(0xFF82, 2);
    cpu.mem.write(0xC124, 3);
    assert_eq!(cpu.step_cycles(), Ok(12));
    assert_eq!(cpu.regs.a, 1);
    assert_eq!(cpu.step_cycles(), Ok(8));
    assert_eq!(cpu.regs.a, 2);
    assert_eq!(cpu.step_cycles(), Ok(16));
    assert_eq!(cpu.regs.a, 3);
    assert_eq!(cpu.step_cycles(), Ok(20));
    assert_eq!(cpu.mem.read_u16(0xC200), 0xFFFE);
}

#[test]
fn stack_pointer_arithmetic() {
    // ADD SP,-2; LD HL,SP+5; LD SP,HL
    let mut cpu = machine(&[0xE8, 0xFE, 0xF8, 0x05, 0xF9]);
    cpu.regs.sp = 0xC000;
    cpu.regs.f = 0xF0;
    assert_eq!(cpu.step_cycles(), Ok(16));
    assert_eq!((cpu.regs.sp, cpu.regs.f), (0xBFFE, 0x00));
    assert_eq!(cpu.step_cycles(), Ok(12));
    assert_eq!((cpu.regs.get_hl(), cpu.regs.sp, cpu.regs.f), (0xC003, 0xBFFE, 0x30));
    assert_eq!(cpu.step_cycles(), Ok(8));
    assert_eq!(cpu.regs.sp, 0xC003);
}

#[test]
fn push_and_pop_through_instructions() {
    // PUSH BC; PUSH AF; POP DE; POP HL; PUSH HL; POP AF
    let mut cpu = machine(&[0xC5, 0xF5, 0xD1, 0xE1, 0xD5, 0xF1]);
    cpu.regs.set_bc(0x1234);
    cpu.regs.a = 0xAB;
    cpu.regs.f = 0xC0;
    assert_eq!(run(&mut cpu, 4), vec![16, 16, 12, 12]);
    assert_eq!(cpu.regs.get_de(), 0xABC0);
    assert_eq!(cpu.regs.get_hl(), 0x1234);
    assert_eq!(cpu.regs.sp, 0xFFFE);
    cpu.regs.set_de(0x55FF);
    assert_eq!(run(&mut cpu, 2), vec![16, 12]);
    assert_eq!(cpu.regs.get_af(), 0x55F0);
    assert_eq!(cpu.regs.sp, 0xFFFE);
}

#[test]
fn rotations_of_a_clear_the_zero_flag() {
    // RLCA; RLA; RRCA; RRA
    let mut cpu = machine(&[0x07, 0x17, 0x0F, 0x1F]);
    cpu.regs.a = 0x80;
    cpu.regs.f = 0x80;
    assert_eq!(cpu.step_cycles(), Ok(4));
    assert_eq!((cpu.regs.a, cpu.regs.f), (0x01, 0x10));
    assert_eq!(cpu.step_cycles(), Ok(4));
    assert_eq!((cpu.regs.a, cpu.regs.f), (0x03, 0x00));
    assert_eq!(cpu.step_cycles(), Ok(4));
    assert_eq!((cpu.regs.a, cpu.regs.f), (0x81, 0x10));
    cpu.regs.a = 0x00;
    cpu.regs.f = 0x00;
    assert_eq!(cpu.step_cycles(), Ok(4));
    assert_eq!((cpu.regs.a, cpu.regs.f), (0x00, 0x00));
}

#[test]
fn complement_and_carry_instructions() {
    // CPL; SCF; CCF; CCF; DAA
    let mut cpu = machine(&[0x2F, 0x37, 0x3F, 0x3F, 0x27]);
    cpu.regs.a = 0x35;
    cpu.regs.f = 0x80;
    assert_eq!(cpu.step_cycles(), Ok(4));
    assert_eq!((cpu.regs.a, cpu.regs.f), (0xCA, 0xE0));
    assert_eq!(cpu.step_cycles(), Ok(4));
    assert_eq!(cpu.regs.f, 0x90);
    assert_eq!(cpu.step_cycles(), Ok(4));
    assert_eq!(cpu.regs.f, 0x80);
    assert_eq!(cpu.step_cycles(), Ok(4));
    assert_eq!(cpu.regs.f, 0x90);
    cpu.regs.a = 0x7D;
    cpu.regs.f = 0x00;
    assert_eq!(cpu.step_cycles(), Ok(4));
    assert_eq!((cpu.regs.a, cpu.regs.f), (0x83, 0x00));
}

#[test]
fn relative_jumps() {
    // JR +2; (skipped) ; JR NZ,-4 not taken with zero set; JR Z,+1; NOP; JR C,-2 not taken; JR NC,-2
    let mut cpu = machine(&[0x18, 0x02, 0x00, 0x00, 0x20, 0xFC, 0x28, 0x01, 0x00, 0x38, 0xFE, 0x30, 0xFE]);
    cpu.regs.f = 0x80;
    assert_eq!(cpu.step_cycles(), Ok(8));
    assert_eq!(cpu.regs.pc, 0x104);
    assert_eq!(cpu.step_cycles(), Ok(8));
    assert_eq!(cpu.regs.pc, 0x106);
    assert_eq!(cpu.step_cycles(), Ok(8));
    assert_eq!(cpu.regs.pc, 0x109);
    assert_eq!(cpu.step_cycles(), Ok(8));
    assert_eq!(cpu.regs.pc, 0x10B);
    assert_eq!(cpu.step_cycles(), Ok(8));
    assert_eq!(cpu.regs.pc, 0x10B);
}

#[test]
fn absolute_jumps() {
    // JP NZ,0x0200 not taken; JP Z,0x0110
    let mut cpu = machine(&[0xC2, 0x00, 0x02, 0xCA, 0x10, 0x01]);
    cpu.regs.f = 0x80;
    assert_eq!(cpu.step_cycles(), Ok(12));
    assert_eq!(cpu.regs.pc, 0x103);
    assert_eq!(cpu.step_cycles(), Ok(12));
    assert_eq!(cpu.regs.pc, 0x110);
    // JP 0x0150; at 0x150: JP HL
    let mut cpu = machine(&[0xC3, 0x50, 0x01]);
    cpu.regs.set_hl(0x4321);
    assert_eq!(cpu.step_cycles(), Ok(12));
    assert_eq!(cpu.regs.pc, 0x150);
    let mut cpu = machine(&[0xE9]);
    cpu.regs.set_hl(0x4321);
    assert_eq!(cpu.step_cycles(), Ok(4));
    assert_eq!(cpu.regs.pc, 0x4321);
}

#[test]
fn calls_and_returns() {
    // 0x100: CALL 0x0108; 0x103: CALL C,0x0108 (not taken); 0x106: NOP; 0x107: NOP; 0x108: RET NC (not taken); 0x109: RET C
    let mut cpu = machine(&[0xCD, 0x08, 0x01, 0xDC, 0x08, 0x01, 0x00, 0x00, 0xD0, 0xD8]);
    cpu.regs.f = 0x10;
    assert_eq!(cpu.step_cycles(), Ok(12));
    assert_eq!(cpu.regs.pc, 0x108);
    assert_eq!(cpu.regs.sp, 0xFFFC);
    assert_eq!(cpu.mem.read_u16(0xFFFC), 0x103);
    assert_eq!(cpu.step_cycles(), Ok(8));
    assert_eq!(cpu.regs.pc, 0x109);
    assert_eq!(cpu.step_cycles(), Ok(8));
    assert_eq!(cpu.regs.pc, 0x103);
    assert_eq!(cpu.regs.sp, 0xFFFE);
    cpu.regs.f = 0x00;
    assert_eq!(cpu.step_cycles(), Ok(12));
    assert_eq!(cpu.regs.pc, 0x106);
    assert_eq!(cpu.regs.sp, 0xFFFE);
}

#[test]
fn restarts_call_the_first_page() {
    for n in 0u8..8 {
        let mut cpu = machine(&[0xC7 | n << 3]);
        assert_eq!(cpu.step_cycles(), Ok(32));
        assert_eq!(cpu.regs.pc, n as u16 * 8);
        assert_eq!(cpu.mem.read_u16(0xFFFC), 0x101);
        assert_eq!(cpu.regs.sp, 0xFFFC);
    }
}

#[test]
fn return_from_interrupt_enables_interrupts() {
    // RETI
    let mut cpu = machine(&[0xD9]);
    cpu.ime = false;
    cpu.mem.push_u16(&mut cpu.regs, 0x0234);
    assert_eq!(cpu.step_cycles(), Ok(8));
    assert_eq!(cpu.regs.pc, 0x0234);
    assert!(cpu.ime);
}

#[test]
fn prefixed_rotates_and_shifts() {
    // RLC B; RRC C; RL D; RR E; SLA H; SRA L; SWAP A; SRL A; SWAP (HL)
    let mut cpu = machine(&[
        0xCB, 0x00, 0xCB, 0x09, 0xCB, 0x12, 0xCB, 0x1B, 0xCB, 0x24, 0xCB, 0x2D, 0xCB, 0x37, 0xCB,
        0x3F, 0xCB, 0x36,
    ]);
    cpu.regs.b = 0x85;
    cpu.regs.c = 0x01;
    cpu.regs.d = 0x80;
    cpu.regs.e = 0x01;
    cpu.regs.h = 0xC1;
    cpu.regs.l = 0x81;
    cpu.regs.a = 0xA5;
    assert_eq!(cpu.step_cycles(), Ok(8));
    assert_eq!((cpu.regs.b, cpu.regs.f), (0x0B, 0x10));
    assert_eq!(cpu.step_cycles(), Ok(8));
    assert_eq!((cpu.regs.c, cpu.regs.f), (0x80, 0x10));
    assert_eq!(cpu.step_cycles(), Ok(8));
    assert_eq!((cpu.regs.d, cpu.regs.f), (0x01, 0x10));
    assert_eq!(cpu.step_cycles(), Ok(8));
    assert_eq!((cpu.regs.e, cpu.regs.f), (0x80, 0x10));
    assert_eq!(cpu.step_cycles(), Ok(8));
    assert_eq!((cpu.regs.h, cpu.regs.f), (0x82, 0x10));
    assert_eq!(cpu.step_cycles(), Ok(8));
    assert_eq!((cpu.regs.l, cpu.regs.f), (0xC0, 0x10));
    assert_eq!(cpu.step_cycles(), Ok(8));
    assert_eq!((cpu.regs.a, cpu.regs.f), (0x5A, 0x00));
    assert_eq!(cpu.step_cycles(), Ok(8));
    assert_eq!((cpu.regs.a, cpu.regs.f), (0x2D, 0x00));
    cpu.regs.set_hl(0xC000);
    cpu.mem.write(0xC000, 0xF0);
    assert_eq!(cpu.step_cycles(), Ok(16));
    assert_eq!((cpu.mem.read(0xC000), cpu.regs.f), (0x0F, 0x00));
}

#[test]
fn prefixed_bit_operations_on_every_operand() {
    for bit in 0u8..8 {
        for target in 0u8..8 {
            // BIT, RES, SET
            let mut cpu = machine(&[0xCB, 0x40 | bit << 3 | target, 0xCB, 0x80 | bit << 3 | target, 0xCB, 0xC0 | bit << 3 | target]);
            cpu.regs.set_hl(0xC000);
            let value: u8 = 0xA5;
            let get = |cpu: &Cpu| -> u8 {
                match target {
                    0 => cpu.regs.b,
                    1 => cpu.regs.c,
                    2 => cpu.regs.d,
                    3 => cpu.regs.e,
                    4 => cpu.regs.h,
                    5 => cpu.regs.l,
                    6 => cpu.mem.read(0xC000),
                    _ => cpu.regs.a,
                }
            };
            match target {
                0 => cpu.regs.b = value,
                1 => cpu.regs.c = value,
                2 => cpu.regs.d = value,
                3 => cpu.regs.e = value,
                4 => {},
                5 => {},
                6 => cpu.mem.write(0xC000, value),
                _ => cpu.regs.a = value,
            }
            let held: u8 = get(&cpu);
            cpu.regs.f = 0x50;
            let long: u8 = if target == 6 { 16 } else { 8 };
            assert_eq!(cpu.step_cycles(), Ok(long));
            assert_eq!(cpu.regs.f, if held & (1 << bit) == 0 { 0xB0 } else { 0x30 });
            assert_eq!(get(&cpu), held);
            assert_eq!(cpu.step_cycles(), Ok(long));
            if target != 4 && target != 5 {
                assert_eq!(get(&cpu), held & !(1 << bit));
            }
            assert_eq!(cpu.regs.f, if held & (1 << bit) == 0 { 0xB0 } else { 0x30 });
            assert_eq!(cpu.step_cycles(), Ok(long));
            if target != 4 && target != 5 {
                assert_eq!(get(&cpu), held | (1 << bit));
            }
        }
    }
}

#[test]
fn undefined_opcodes_are_faults() {
    for opcode in [0xD3u8, 0xDB, 0xDD, 0xE3, 0xE4, 0xEB, 0xEC, 0xED, 0xF4, 0xFC, 0xFD] {
        let mut cpu = machine(&[0x00, opcode]);
        assert_eq!(cpu.step_cycles(), Ok(4));
        let fault = Fault::UnknownOpcode { opcode, address: 0x101 };
        assert_eq!(cpu.step_cycles(), Err(Pause::Fault(fault)));
        assert_eq!(cpu.mem.latches.fault, Some(fault));
        // the machine stays stopped
        let pc: u16 = cpu.regs.pc;
        assert_eq!(cpu.step_cycles(), Err(Pause::Fault(fault)));
        assert_eq!(cpu.regs.pc, pc);
        let mut screen = Screen { lines: 0, frames: 0 };
        assert_eq!(cpu.run_one_frame(&mut screen), FrameExit::Fault(fault));
    }
}

#[test]
fn every_other_opcode_is_defined() {
    let undefined: [u8; 11] = [0xD3, 0xDB, 0xDD, 0xE3, 0xE4, 0xEB, 0xEC, 0xED, 0xF4, 0xFC, 0xFD];
    for opcode in 0u16..=255 {
        if undefined.contains(&(opcode as u8)) {
            continue;
        }
        let mut cpu = machine(&[opcode as u8, 0x00, 0x00]);
        cpu.regs.set_hl(0xC000);
        cpu.regs.set_bc(0xC000);
        cpu.regs.set_de(0xC000);
        let cycles: u8 = cpu.step_cycles().unwrap();
        assert!(cycles >= 4 && cycles <= 32 && cycles % 4 == 0);
        assert_eq!(cpu.mem.latches.fault, None);
    }
    for opcode in 0u16..=255 {
        let mut cpu = machine(&[0xCB, opcode as u8]);
        cpu.regs.set_hl(0xC000);
        let cycles: u8 = cpu.step_cycles().unwrap();
        assert_eq!(cycles, if opcode % 8 == 6 { 16 } else { 8 });
        assert_eq!(cpu.regs.pc, 0x102);
    }
}

#[test]
fn interrupt_is_dispatched_in_priority_order() {
    let mut cpu = machine(&[0x00, 0x00]);
    cpu.mem.write(0xFFFF, 0x05);
    cpu.mem.write(0xFF0F, 0x05);
    assert_eq!(cpu.step_cycles(), Ok(20));
    assert_eq!(cpu.regs.pc, 0x40);
    assert_eq!(cpu.mem.read(0xFF0F), 0x04);
    assert!(!cpu.ime);
    assert_eq!(cpu.regs.sp, 0xFFFC);
    assert_eq!(cpu.mem.read_u16(0xFFFC), 0x100);
    // with the master enable set again the timer is next
    cpu.ime = true;
    assert_eq!(cpu.step_cycles(), Ok(20));
    assert_eq!(cpu.regs.pc, 0x50);
    assert_eq!(cpu.mem.read(0xFF0F), 0x00);
    assert_eq!(cpu.mem.read_u16(0xFFFA), 0x40);
}

#[test]
fn every_interrupt_has_its_vector() {
    let vectors: [(u8, u16); 5] = [(1, 0x40), (2, 0x48), (4, 0x50), (8, 0x58), (16, 0x60)];
    for (flag, vector) in vectors {
        let mut cpu = machine(&[0x00]);
        cpu.mem.write(0xFFFF, 0x1F);
        cpu.mem.write(0xFF0F, flag);
        assert_eq!(cpu.step_cycles(), Ok(20));
        assert_eq!(cpu.regs.pc, vector);
        assert_eq!(cpu.mem.read(0xFF0F), 0);
    }
}

#[test]
fn disabled_or_unrequested_interrupts_do_nothing() {
    let mut cpu = machine(&[0x00, 0x00, 0x00]);
    cpu.mem.write(0xFFFF, 0x01);
    cpu.mem.write(0xFF0F, 0x04);
    assert_eq!(cpu.step_cycles(), Ok(4));
    assert_eq!(cpu.regs.pc, 0x101);
    cpu.mem.write(0xFFFF, 0x04);
    cpu.ime = false;
    assert_eq!(cpu.step_cycles(), Ok(4));
    assert_eq!(cpu.regs.pc, 0x102);
    assert_eq!(cpu.mem.read(0xFF0F), 0x04);
}

#[test]
fn halt_waits_for_an_interrupt() {
    // HALT; NOP
    let mut cpu = machine(&[0x76, 0x00]);
    assert_eq!(cpu.step_cycles(), Ok(4));
    assert!(cpu.halted);
    assert_eq!(run(&mut cpu, 3), vec![4, 4, 4]);
    assert_eq!(cpu.regs.pc, 0x101);
    cpu.mem.write(0xFFFF, 0x04);
    cpu.mem.write(0xFF0F, 0x04);
    assert_eq!(cpu.step_cycles(), Ok(24));
    assert!(!cpu.halted);
    assert_eq!(cpu.regs.pc, 0x50);
    assert_eq!(cpu.mem.read_u16(0xFFFC), 0x101);
}

#[test]
fn halt_wakes_without_the_master_enable() {
    let mut cpu = machine(&[0x76, 0x3C]);
    cpu.ime = false;
    assert_eq!(cpu.step_cycles(), Ok(4));
    cpu.mem.write(0xFFFF, 0x10);
    cpu.mem.write(0xFF0F, 0x10);
    assert_eq!(cpu.step_cycles(), Ok(4));
    assert!(!cpu.halted);
    assert_eq!(cpu.regs.pc, 0x101);
    assert_eq!(cpu.mem.read(0xFF0F), 0x10);
    assert_eq!(cpu.step_cycles(), Ok(4));
    assert_eq!(cpu.regs.a, 1);
}

#[test]
fn enable_interrupts_takes_effect_one_instruction_late() {
    // EI; NOP; NOP
    let mut cpu = machine(&[0xFB, 0x00, 0x00]);
    cpu.ime = false;
    cpu.mem.write(0xFFFF, 0x01);
    cpu.mem.write(0xFF0F, 0x01);
    assert_eq!(cpu.step_cycles(), Ok(4));
    assert!(!cpu.ime);
    assert!(cpu.ei);
    assert_eq!(cpu.step_cycles(), Ok(4));
    assert!(cpu.ime);
    assert!(!cpu.ei);
    assert_eq!(cpu.regs.pc, 0x102);
    assert_eq!(cpu.step_cycles(), Ok(20));
    assert_eq!(cpu.regs.pc, 0x40);
    // DI
    let mut cpu = machine(&[0xF3]);
    assert_eq!(cpu.step_cycles(), Ok(4));
    assert!(!cpu.ime);
}

#[test]
fn speed_switch_needs_arming() {
    // STOP; STOP
    let mut cpu = machine_with(&[0x10, 0x10], true);
    assert_eq!(cpu.step_cycles(), Ok(4));
    assert!(!cpu.mem.latches.doublespeed);
    cpu.mem.write(0xFF4D, 1);
    assert_eq!(cpu.step_cycles(), Ok(4));
    assert!(cpu.mem.latches.doublespeed);
    assert!(!cpu.mem.latches.prepare_speed_switch);
    assert_eq!(cpu.mem.read(0xFF4D), 0xFE);
    assert!(!cpu.halted);
}

#[test]
fn armed_speed_switch_on_a_monochrome_machine_is_a_fault() {
    let mut cpu = machine(&[0x10]);
    cpu.mem.latches.prepare_speed_switch = true;
    assert_eq!(cpu.step_cycles(), Err(Pause::Fault(Fault::SpeedSwitchOnMonochrome)));
}

#[test]
fn fault_of_the_video_ram_transfer_stops_the_machine() {
    // LD A,0x80; LDH (0x55),A; NOP
    let mut cpu = machine_with(&[0x3E, 0x80, 0xE0, 0x55, 0x00], true);
    assert_eq!(cpu.step_cycles(), Ok(8));
    assert_eq!(cpu.step_cycles(), Err(Pause::Fault(Fault::HblankDma)));
    assert_eq!(cpu.step_cycles(), Err(Pause::Fault(Fault::HblankDma)));
    assert_eq!(cpu.regs.pc, 0x104);
}

#[test]
fn a_frame_runs_to_its_end() {
    // LD A,0x80; LDH (0x40),A; JR -2
    let mut cpu = machine(&[0x3E, 0x80, 0xE0, 0x40, 0x18, 0xFE]);
    let mut screen = Screen { lines: 0, frames: 0 };
    assert_eq!(cpu.run_one_frame(&mut screen), FrameExit::Complete);
    assert_eq!(screen.lines, 144);
    assert_eq!(screen.frames, 1);
    assert_eq!(cpu.mem.gpu.get_ly(), 0);
    assert!(!cpu.mem.gpu.frame_complete);
    assert_eq!(cpu.mem.read(0xFF0F) & 1, 1);
    assert_eq!(cpu.regs.pc, 0x104);
    // the next frame is drawn and presented as well
    assert_eq!(cpu.run_one_frame(&mut screen), FrameExit::Complete);
    assert_eq!(screen.lines, 288);
    assert_eq!(screen.frames, 2);
}

#[test]
fn a_frame_with_the_lcd_off_ends_at_the_limit() {
    // JR -2
    let mut cpu = machine(&[0x18, 0xFE]);
    let mut screen = Screen { lines: 0, frames: 0 };
    assert_eq!(cpu.run_one_frame(&mut screen), FrameExit::Limit);
    assert_eq!(screen.lines, 0);
    assert_eq!(screen.frames, 0);
    // every step of the loop took 8 cycles of the divider
    assert_eq!(cpu.mem.read(0xFF04), ((FRAME_STEP_LIMIT as u64 * 8) % 256) as u8);
}

#[test]
fn double_speed_runs_twice_the_instructions_in_a_frame() {
    // LD A,0x80; LDH (0x40),A; INC BC; JR -3
    let program: [u8; 7] = [0x3E, 0x80, 0xE0, 0x40, 0x03, 0x18, 0xFD];
    let mut single = machine_with(&program, true);
    let mut double = machine_with(&program, true);
    double.mem.latches.doublespeed = true;
    let mut screen = Screen { lines: 0, frames: 0 };
    assert_eq!(single.run_one_frame(&mut screen), FrameExit::Complete);
    assert_eq!(double.run_one_frame(&mut screen), FrameExit::Complete);
    let once: u32 = single.regs.get_bc() as u32;
    let twice: u32 = double.regs.get_bc() as u32;
    assert!(once > 4000);
    assert!(twice >= 2 * once - 2 && twice <= 2 * once + 2);
}

#[test]
fn breakpoint_stops_before_the_fetch_and_resumes() {
    // LD A,0x80; LDH (0x40),A; INC B; JR -3
    let mut cpu = machine(&[0x3E, 0x80, 0xE0, 0x40, 0x04, 0x18, 0xFD]);
    cpu.attatch_debugger(Debugger::new("0104"));
    let mut screen = Screen { lines: 0, frames: 0 };
    assert_eq!(cpu.run_one_frame(&mut screen), FrameExit::Breakpoint { address: 0x0104 });
    assert_eq!(cpu.regs.pc, 0x0104);
    assert_eq!(cpu.regs.b, 0);
    assert_eq!(cpu.run_one_frame(&mut screen), FrameExit::Breakpoint { address: 0x0104 });
    assert_eq!(cpu.regs.b, 1);
    assert_eq!(cpu.step_cycles(), Ok(4));
    assert_eq!(cpu.regs.b, 2);
    assert_eq!(cpu.step_cycles(), Ok(8));
    assert_eq!(cpu.step_cycles(), Err(Pause::Breakpoint { address: 0x0104 }));
    assert_eq!(cpu.regs.b, 2);
}

#[test]
fn program_reaches_the_serial_port() {
    // LD A,'H'; LDH (0x01),A; LD A,0x81; LDH (0x02),A
    let mut cpu = machine(&[0x3E, b'H', 0xE0, 0x01, 0x3E, 0x81, 0xE0, 0x02]);
    run(&mut cpu, 4);
    assert_eq!(cpu.mem.take_serial(), vec![b'H']);
}

#[test]
fn boot_program_hands_over_to_the_cartridge() {
    let mut rom: Vec<u8> = vec![0u8; 0x8000];
    // the logo that the boot program compares with its own copy
    for i in 0..0x30usize {
        rom[0x104 + i] = BOOT_ROM[0xA8 + i];
    }
    let name = b"BOOT TEST";
    for (i, byte) in name.iter().enumerate() {
        rom[0x134 + i] = *byte;
    }
    // the header checksum: the bytes from 0x134 to 0x14D and 25 add up to 0
    let mut sum: u8 = 0x19;
    for i in 0x134..0x14Dusize {
        sum = sum.wrapping_add(rom[i]);
    }
    rom[0x14D] = 0u8.wrapping_sub(sum);
    // at 0x100: JR -2
    rom[0x100] = 0x18;
    rom[0x101] = 0xFE;
    let mut cpu = Cpu::new(rom, Vec::new(), load_rom(), Gpu::new(false).unwrap()).unwrap();
    let mut screen = Screen { lines: 0, frames: 0 };
    let mut frames: u32 = 0;
    while cpu.mem.latches.booting {
        let exit = cpu.run_one_frame(&mut screen);
        assert!(exit == FrameExit::Complete || exit == FrameExit::Limit);
        frames += 1;
        assert!(frames < 1000);
    }
    assert!(frames > 60);
    assert!(screen.frames > 60);
    assert_eq!(cpu.regs.a, 0x01);
    assert_eq!(cpu.regs.get_bc(), 0x0013);
    assert_eq!(cpu.regs.get_de(), 0x00D8);
    assert_eq!(cpu.regs.get_hl(), 0x014D);
    assert_eq!(cpu.regs.sp, 0xFFFE);
    assert_eq!(cpu.regs.f, 0xB0);
    assert_eq!(cpu.mem.read(0x0000), 0x00);
    assert_eq!(cpu.mem.read(0xFF40), 0x91);
    assert_eq!(cpu.mem.read(0xFF47), 0xFC);
    assert_eq!(cpu.mem.mbc.title()[..9].to_vec(), name.to_vec());
    assert_eq!(cpu.mem.latches.fault, None);
    // the logo went into the tiles and the tile map
    assert_eq!(cpu.mem.gpu.vram[0x1904], 0x01);
    assert_eq!(cpu.mem.gpu.vram[0x1910], 0x19);
}

#[test]
fn boot_program_locks_up_on_a_bad_logo() {
    let rom: Vec<u8> = vec![0u8; 0x8000];
    let mut cpu = Cpu::new(rom, Vec::new(), load_rom(), Gpu::new(false).unwrap()).unwrap();
    let mut screen = Screen { lines: 0, frames: 0 };
    for _ in 0..400 {
        let exit = cpu.run_one_frame(&mut screen);
        assert!(exit == FrameExit::Complete || exit == FrameExit::Limit);
    }
    assert!(cpu.mem.latches.booting);
    assert_eq!(cpu.regs.pc, 0x00E9);
}

fn frame_by_hand(cpu: &mut Cpu) -> (u32, u32, u32) {
    let mut screen = Screen { lines: 0, frames: 0 };
    let mut lines: u32 = 0;
    let mut total: u32 = 0;
    let mut video: u32 = 0;
    while !cpu.mem.gpu.frame_complete {
        let double: bool = cpu.mem.latches.doublespeed;
        let mut cycles: u8 = cpu.step_cycles().unwrap();
        if double {
            cycles += cpu.step_cycles().unwrap();
        }
        let share: u8 = if cpu.mem.latches.doublespeed { cycles / 2 } else { cycles };
        let line: u8 = cpu.mem.gpu.regs.ly;
        cpu.mem.gpu.gpu_step(&mut screen, share);
        cpu.mem.mmu_step(cycles);
        let now: u8 = cpu.mem.gpu.regs.ly;
        if now != line {
            assert_eq!(now, if line == 153 { 0 } else { line + 1 });
            lines += 1;
        }
        total += cycles as u32;
        video += share as u32;
    }
    cpu.mem.gpu.frame_complete = false;
    assert_eq!(screen.lines, 144);
    assert_eq!(screen.frames, 1);
    (lines, total, video)
}

#[test]
fn a_frame_at_native_speed_takes_its_cycles() {
    // LD A,0x80; LDH (0x40),A; INC BC; JR -3
    let mut cpu = machine(&[0x3E, 0x80, 0xE0, 0x40, 0x03, 0x18, 0xFD]);
    run(&mut cpu, 2);
    for _ in 0..3 {
        assert_eq!(cpu.mem.gpu.regs.ly, 0);
        let (lines, total, video) = frame_by_hand(&mut cpu);
        assert_eq!(lines, 154);
        assert_eq!(total, video);
        assert!(total >= 70224);
        assert_eq!(cpu.mem.gpu.regs.ly, 0);
    }
}

#[test]
fn a_frame_at_double_speed_takes_twice_the_cycles() {
    let mut cpu = machine_with(&[0x3E, 0x80, 0xE0, 0x40, 0x03, 0x18, 0xFD], true);
    run(&mut cpu, 2);
    cpu.mem.latches.doublespeed = true;
    for _ in 0..3 {
        let (lines, total, video) = frame_by_hand(&mut cpu);
        assert_eq!(lines, 154);
        assert_eq!(total, 2 * video);
        assert!(video >= 70224);
        assert!(total >= 140448);
        assert_eq!(cpu.mem.gpu.regs.ly, 0);
    }
}

#[test]
fn a_program_that_switches_the_lcd_off_starts_the_frame_again() {
    // LD A,0x80; LDH (0x40),A; then 0x200 NOPs; XOR A; LDH (0x40),A; JR -2
    let mut program: Vec<u8> = vec![0x3E, 0x80, 0xE0, 0x40];
    program.extend(vec![0x00u8; 0x200]);
    program.extend([0xAF, 0xE0, 0x40, 0x18, 0xFE]);
    let mut cpu = machine(&program);
    let mut screen = Screen { lines: 0, frames: 0 };
    assert_eq!(cpu.run_one_frame(&mut screen), FrameExit::Limit);
    assert_eq!(cpu.mem.gpu.get_ly(), 0);
    assert_eq!(screen.frames, 0);
    assert!(screen.lines >= 4 && screen.lines < 144);
}
