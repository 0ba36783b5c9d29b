use gb::cpu::registers::Registers;
use gb::cpu::Fault;
use gb::ppu::Mode;
use gb::{Color, Flags, Gameboy, Joypad, HAL, ROM};

struct Host {
    sent: Vec<u8>,
}

impl HAL for Host {
    fn is_joypad_pressed(&self, _: Joypad) -> bool {
        false
    }

    fn put_pixel(&mut self, _: usize, _: usize, _: Color) {}

    fn serial_callback(&mut self, value: u8) -> u8 {
        self.sent.push(value);
        0xFF
    }
}

fn gameboy(program: &[u8]) -> Gameboy<Host> {
    let mut bytes = vec![0u8; 0x8000];
    bytes[0x100..0x100 + program.len()].copy_from_slice(program);
    let rom = ROM::from(bytes);
    assert!(rom.supported());
    Gameboy::new(rom, Host { sent: Vec::new() })
}

fn flags(zero: bool, subtract: bool, half_carry: bool, carry: bool) -> Flags {
    Flags { zero, subtract, half_carry, carry }
}

fn run(gameboy: &mut Gameboy<Host>, steps: usize) {
    for _ in 0..steps {
        assert_eq!(Ok(()), gameboy.step());
    }
}

/// The m-cycles that have passed since the machine was switched on.
fn m_cycles(gameboy: &Gameboy<Host>) -> u16 {
    gameboy.cpu().bus().timer().counter.wrapping_sub(0xABCC) / 4
}

fn registers(gameboy: &Gameboy<Host>) -> &Registers {
    gameboy.cpu().registers()
}

#[test]
fn post_boot_state() {
    let gameboy = gameboy(&[]);
    let r = registers(&gameboy);
    assert_eq!(0x0100, r.pc());
    assert_eq!(0xFFFE, r.sp());
    assert_eq!(0x01, r.a());
    assert_eq!(0xB0, r.f().bits());
    assert_eq!(0x01B0, r.af());
    assert_eq!(0x0013, r.bc());
    assert_eq!(0x00D8, r.de());
    assert_eq!(0x014D, r.hl());
    assert!(!gameboy.cpu().ime());
    assert!(!gameboy.cpu().halt());
    assert_eq!(Mode::OAMRead, gameboy.cpu().bus().ppu().mode);
}

#[test]
fn nop_advances_pc_by_one() {
    let mut gameboy = gameboy(&[]);
    assert_eq!(Ok(()), gameboy.step());
    let r = registers(&gameboy);
    assert_eq!(0x0101, r.pc());
    assert_eq!(0xFFFE, r.sp());
    assert_eq!(0x01, r.a());
    assert_eq!(0xB0, r.f().bits());
    // One m-cycle: four dots.
    assert_eq!(1, m_cycles(&gameboy));
}

#[test]
fn interrupt_dispatch() {
    let mut gameboy = gameboy(&[]);
    gameboy.cpu.bus.write(0xFF0F, 0xF5);
    gameboy.cpu.bus.write(0xFFFF, 0xFF);
    gameboy.cpu.ime = true;
    assert_eq!(Ok(()), gameboy.step());
    assert_eq!(0x0040, registers(&gameboy).pc());
    assert_eq!(0xFFFC, registers(&gameboy).sp());
    assert!(!gameboy.cpu().ime());
    assert_eq!(0xF4, gameboy.cpu.bus.read(0xFF0F));
    // The return address, high byte first.
    assert_eq!(0x01, gameboy.cpu.bus.read(0xFFFD));
    assert_eq!(0x01, gameboy.cpu.bus.read(0xFFFC));
    // One m-cycle for the NOP, four for the dispatch.
    assert_eq!(5, m_cycles(&gameboy));
}

#[test]
fn no_dispatch_while_interrupts_are_disabled() {
    let mut gameboy = gameboy(&[]);
    gameboy.cpu.bus.write(0xFF0F, 0x01);
    gameboy.cpu.bus.write(0xFFFF, 0x01);
    assert_eq!(Ok(()), gameboy.step());
    assert_eq!(0x0101, registers(&gameboy).pc());
    assert_eq!(0x01, gameboy.cpu.bus.read(0xFF0F));
}

#[test]
fn ei_and_di() {
    let mut gameboy = gameboy(&[0xFB, 0x00, 0xF3, 0x00]);
    run(&mut gameboy, 1);
    assert!(gameboy.cpu().ime());
    run(&mut gameboy, 2);
    assert!(!gameboy.cpu().ime());
    assert_eq!(0x0103, registers(&gameboy).pc());
}

#[test]
fn halt_resumes_without_dispatch_when_interrupts_are_disabled() {
    let mut gameboy = gameboy(&[0x76, 0x3C]);
    run(&mut gameboy, 1);
    assert!(gameboy.cpu().halt());
    assert_eq!(0x0101, registers(&gameboy).pc());
    run(&mut gameboy, 3);
    assert!(gameboy.cpu().halt());
    assert_eq!(0x0101, registers(&gameboy).pc());
    // Halted, a step is one m-cycle.
    assert_eq!(4, m_cycles(&gameboy));
    gameboy.cpu.bus.write(0xFF0F, 0x04);
    gameboy.cpu.bus.write(0xFFFF, 0x04);
    run(&mut gameboy, 1);
    assert!(!gameboy.cpu().halt());
    assert_eq!(0x0101, registers(&gameboy).pc());
    assert_eq!(0xFFFE, registers(&gameboy).sp());
    assert_eq!(0x04, gameboy.cpu.bus.read(0xFF0F));
    run(&mut gameboy, 1);
    assert_eq!(0x0102, registers(&gameboy).pc());
    assert_eq!(0x02, registers(&gameboy).a());
}

#[test]
fn halt_wakes_into_the_handler_when_interrupts_are_enabled() {
    let mut gameboy = gameboy(&[0xFB, 0x76]);
    run(&mut gameboy, 3);
    assert!(gameboy.cpu().halt());
    gameboy.cpu.bus.write(0xFF0F, 0x10);
    gameboy.cpu.bus.write(0xFFFF, 0x10);
    run(&mut gameboy, 1);
    assert!(!gameboy.cpu().halt());
    assert!(!gameboy.cpu().ime());
    assert_eq!(0x0060, registers(&gameboy).pc());
    assert_eq!(0x00, gameboy.cpu.bus.read(0xFF0F));
    assert_eq!(0x01, gameboy.cpu.bus.read(0xFFFD));
    assert_eq!(0x02, gameboy.cpu.bus.read(0xFFFC));
}

#[test]
fn invalid_opcodes_are_faults() {
    for opcode in [0xD3u8, 0xDB, 0xDD, 0xE3, 0xE4, 0xEB, 0xEC, 0xED, 0xF4, 0xFC, 0xFD] {
        let mut gameboy = gameboy(&[opcode]);
        assert_eq!(Err(Fault::InvalidOpcode(opcode)), gameboy.step());
        assert_eq!(0x0101, registers(&gameboy).pc());
    }
}

#[test]
fn stop_is_a_fault() {
    let mut gameboy = gameboy(&[0x10, 0x00]);
    assert_eq!(Err(Fault::Stop), gameboy.step());
    assert_eq!(0x0101, registers(&gameboy).pc());
}

#[test]
fn loads() {
    let mut gameboy = gameboy(&[
        0x06, 0x12, // LD B,0x12
        0x48, // LD C,B
        0x21, 0x00, 0xC0, // LD HL,0xC000
        0x70, // LD (HL),B
        0x3E, 0x00, // LD A,0
        0x7E, // LD A,(HL)
        0x22, // LD (HL+),A
        0x36, 0x34, // LD (HL),0x34
        0x3A, // LD A,(HL-)
        0xEA, 0x10, 0xC0, // LD (0xC010),A
        0xFA, 0x00, 0xC0, // LD A,(0xC000)
        0xE0, 0x80, // LD (0xFF80),A
        0x0E, 0x81, // LD C,0x81
        0xE2, // LD (0xFF00+C),A
        0x3E, 0x99, // LD A,0x99
        0xF0, 0x80, // LD A,(0xFF80)
        0x31, 0xF0, 0xDF, // LD SP,0xDFF0
        0x08, 0x20, 0xC0, // LD (0xC020),SP
        0xF9, // LD SP,HL
    ]);
    run(&mut gameboy, 7);
    {
        let r = registers(&gameboy);
        assert_eq!(0x12, r.b());
        assert_eq!(0x12, r.c());
        assert_eq!(0x12, r.a());
        assert_eq!(0xC001, r.hl());
    }
    assert_eq!(0x12, gameboy.cpu.bus.read(0xC000));
    run(&mut gameboy, 2);
    assert_eq!(0x34, registers(&gameboy).a());
    assert_eq!(0xC000, registers(&gameboy).hl());
    run(&mut gameboy, 2);
    assert_eq!(0x34, gameboy.cpu.bus.read(0xC010));
    assert_eq!(0x12, registers(&gameboy).a());
    run(&mut gameboy, 3);
    assert_eq!(0x12, gameboy.cpu.bus.read(0xFF80));
    assert_eq!(0x12, gameboy.cpu.bus.read(0xFF81));
    run(&mut gameboy, 2);
    assert_eq!(0x12, registers(&gameboy).a());
    run(&mut gameboy, 2);
    assert_eq!(0xF0, gameboy.cpu.bus.read(0xC020));
    assert_eq!(0xDF, gameboy.cpu.bus.read(0xC021));
    run(&mut gameboy, 1);
    assert_eq!(0xC000, registers(&gameboy).sp());
}

#[test]
fn arithmetic_on_the_accumulator() {
    let mut gameboy = gameboy(&[
        0x3E, 0x3A, // LD A,0x3A
        0xC6, 0xC6, // ADD A,0xC6
        0x06, 0x0F, // LD B,0x0F
        0x88, // ADC A,B
        0xD6, 0x20, // SUB 0x20
        0xFE, 0xF0, // CP 0xF0
        0xE6, 0x0F, // AND 0x0F
        0xF6, 0x80, // OR 0x80
        0xEE, 0xFF, // XOR 0xFF
        0x2F, // CPL
        0x37, // SCF
        0x3F, // CCF
        0x17, // RLA
        0x0F, // RRCA
    ]);
    run(&mut gameboy, 2);
    assert_eq!(0x00, registers(&gameboy).a());
    assert_eq!(flags(true, false, true, true), registers(&gameboy).f());
    run(&mut gameboy, 2);
    assert_eq!(0x10, registers(&gameboy).a());
    assert_eq!(flags(false, false, true, false), registers(&gameboy).f());
    run(&mut gameboy, 1);
    assert_eq!(0xF0, registers(&gameboy).a());
    assert_eq!(flags(false, true, false, true), registers(&gameboy).f());
    run(&mut gameboy, 1);
    assert_eq!(0xF0, registers(&gameboy).a());
    assert_eq!(flags(true, true, false, false), registers(&gameboy).f());
    run(&mut gameboy, 1);
    assert_eq!(0x00, registers(&gameboy).a());
    assert_eq!(flags(true, false, true, false), registers(&gameboy).f());
    run(&mut gameboy, 1);
    assert_eq!(0x80, registers(&gameboy).a());
    assert_eq!(flags(false, false, false, false), registers(&gameboy).f());
    run(&mut gameboy, 1);
    assert_eq!(0x7F, registers(&gameboy).a());
    run(&mut gameboy, 1);
    assert_eq!(0x80, registers(&gameboy).a());
    assert_eq!(flags(false, true, true, false), registers(&gameboy).f());
    run(&mut gameboy, 1);
    assert_eq!(flags(false, false, false, true), registers(&gameboy).f());
    run(&mut gameboy, 1);
    assert_eq!(flags(false, false, false, false), registers(&gameboy).f());
    run(&mut gameboy, 1);
    // RLA of 0x80 gives 0x00 with carry, and Z stays clear.
    assert_eq!(0x00, registers(&gameboy).a());
    assert_eq!(flags(false, false, false, true), registers(&gameboy).f());
    run(&mut gameboy, 1);
    assert_eq!(0x00, registers(&gameboy).a());
    assert_eq!(flags(false, false, false, false), registers(&gameboy).f());
}

#[test]
fn increments_and_decrements() {
    let mut gameboy = gameboy(&[
        0x3E, 0xFF, // LD A,0xFF
        0x3C, // INC A
        0x3D, // DEC A
        0x21, 0x00, 0xC0, // LD HL,0xC000
        0x36, 0x0F, // LD (HL),0x0F
        0x34, // INC (HL)
        0x35, // DEC (HL)
        0x01, 0xFF, 0xFF, // LD BC,0xFFFF
        0x03, // INC BC
        0x0B, // DEC BC
        0x33, // INC SP
        0x3B, // DEC SP
    ]);
    run(&mut gameboy, 2);
    assert_eq!(0x00, registers(&gameboy).a());
    // C is kept.
    assert_eq!(flags(true, false, true, true), registers(&gameboy).f());
    run(&mut gameboy, 1);
    assert_eq!(0xFF, registers(&gameboy).a());
    assert_eq!(flags(false, true, true, true), registers(&gameboy).f());
    run(&mut gameboy, 3);
    assert_eq!(0x10, gameboy.cpu.bus.read(0xC000));
    assert_eq!(flags(false, false, true, true), registers(&gameboy).f());
    run(&mut gameboy, 1);
    assert_eq!(0x0F, gameboy.cpu.bus.read(0xC000));
    assert_eq!(flags(false, true, true, true), registers(&gameboy).f());
    run(&mut gameboy, 2);
    assert_eq!(0x0000, registers(&gameboy).bc());
    assert_eq!(flags(false, true, true, true), registers(&gameboy).f());
    run(&mut gameboy, 1);
    assert_eq!(0xFFFF, registers(&gameboy).bc());
    run(&mut gameboy, 1);
    assert_eq!(0xFFFF, registers(&gameboy).sp());
    run(&mut gameboy, 1);
    assert_eq!(0xFFFE, registers(&gameboy).sp());
}

#[test]
fn sixteen_bit_additions() {
    let mut gameboy = gameboy(&[
        0x21, 0x23, 0x8A, // LD HL,0x8A23
        0x01, 0x05, 0x06, // LD BC,0x0605
        0x09, // ADD HL,BC
        0x29, // ADD HL,HL
        0x31, 0xF8, 0xFF, // LD SP,0xFFF8
        0xE8, 0x02, // ADD SP,2
        0xF8, 0x02, // LD HL,SP+2
        0xE8, 0xFE, // ADD SP,-2
        0x31, 0x01, 0x00, // LD SP,0x0001
        0xF8, 0xFF, // LD HL,SP-1
    ]);
    run(&mut gameboy, 3);
    assert_eq!(0x9028, registers(&gameboy).hl());
    // Z is kept.
    assert_eq!(flags(true, false, true, false), registers(&gameboy).f());
    run(&mut gameboy, 1);
    assert_eq!(0x2050, registers(&gameboy).hl());
    assert_eq!(flags(true, false, false, true), registers(&gameboy).f());
    run(&mut gameboy, 2);
    assert_eq!(0xFFFA, registers(&gameboy).sp());
    assert_eq!(flags(false, false, false, false), registers(&gameboy).f());
    run(&mut gameboy, 1);
    assert_eq!(0xFFFC, registers(&gameboy).hl());
    assert_eq!(0xFFFA, registers(&gameboy).sp());
    assert_eq!(flags(false, false, false, false), registers(&gameboy).f());
    run(&mut gameboy, 1);
    assert_eq!(0xFFF8, registers(&gameboy).sp());
    assert_eq!(flags(false, false, true, true), registers(&gameboy).f());
    run(&mut gameboy, 2);
    assert_eq!(0x0000, registers(&gameboy).hl());
    assert_eq!(flags(false, false, true, true), registers(&gameboy).f());
}

#[test]
fn jumps_calls_and_returns() {
    let mut gameboy = gameboy(&[
        0xC3, 0x10, 0x01, // 0x100: JP 0x0110
        0x00, 0x00, 0x00, 0x00, 0x00, 0x00, 0x00, 0x00, 0x00, 0x00, 0x00, 0x00, 0x00,
        0x18, 0x02, // 0x110: JR +2
        0x00, 0x00,
        0xAF, // 0x114: XOR A (Z set)
        0x20, 0x10, // 0x115: JR NZ,+16 (not taken)
        0x28, 0xFE, // 0x117: JR Z,-2 ... replaced below
    ]);
    run(&mut gameboy, 1);
    assert_eq!(0x0110, registers(&gameboy).pc());
    // JP nn: 3 fetches and one more m-cycle
    assert_eq!(4, m_cycles(&gameboy));
    run(&mut gameboy, 1);
    assert_eq!(0x0114, registers(&gameboy).pc());
    assert_eq!(7, m_cycles(&gameboy));
    run(&mut gameboy, 2);
    assert_eq!(0x0117, registers(&gameboy).pc());
    // XOR A: 1 m-cycle; JR not taken: 2 m-cycles
    assert_eq!(10, m_cycles(&gameboy));
    run(&mut gameboy, 1);
    // JR Z,-2 jumps onto itself.
    assert_eq!(0x0117, registers(&gameboy).pc());

    let mut gameboy = gameboy_at_call();
    run(&mut gameboy, 1);
    assert_eq!(0x0120, registers(&gameboy).pc());
    assert_eq!(0xFFFC, registers(&gameboy).sp());
    assert_eq!(0x01, gameboy.cpu.bus.read(0xFFFD));
    assert_eq!(0x03, gameboy.cpu.bus.read(0xFFFC));
    // CALL: 3 fetches, the delay and two writes
    assert_eq!(6, m_cycles(&gameboy));
    run(&mut gameboy, 1);
    // RET NC with C set: not taken, 2 m-cycles
    assert_eq!(0x0121, registers(&gameboy).pc());
    assert_eq!(8, m_cycles(&gameboy));
    run(&mut gameboy, 1);
    // RET C: taken, 5 m-cycles
    assert_eq!(0x0103, registers(&gameboy).pc());
    assert_eq!(0xFFFE, registers(&gameboy).sp());
    assert_eq!(13, m_cycles(&gameboy));
    run(&mut gameboy, 1);
    // CALL NZ with Z set: not taken, 3 m-cycles
    assert_eq!(0x0106, registers(&gameboy).pc());
    assert_eq!(0xFFFE, registers(&gameboy).sp());
    assert_eq!(16, m_cycles(&gameboy));
    run(&mut gameboy, 1);
    // RST 0x28
    assert_eq!(0x0028, registers(&gameboy).pc());
    assert_eq!(0xFFFC, registers(&gameboy).sp());
    assert_eq!(0x07, gameboy.cpu.bus.read(0xFFFC));
    assert_eq!(20, m_cycles(&gameboy));
}

fn gameboy_at_call() -> Gameboy<Host> {
    let mut program = vec![0u8; 0x40];
    program[0x00] = 0xCD; // CALL 0x0120
    program[0x01] = 0x20;
    program[0x02] = 0x01;
    program[0x03] = 0xC4; // CALL NZ,0x0130
    program[0x04] = 0x30;
    program[0x05] = 0x01;
    program[0x06] = 0xEF; // RST 0x28
    program[0x20] = 0xD0; // RET NC
    program[0x21] = 0xD8; // RET C
    gameboy(&program)
}

#[test]
fn jp_hl_and_reti() {
    let mut gameboy = gameboy(&[
        0x21, 0x10, 0x01, // LD HL,0x0110
        0xE5, // PUSH HL
        0x21, 0x08, 0x01, // LD HL,0x0108
        0xE9, // JP (HL)
        0xD9, // 0x108: RETI
    ]);
    run(&mut gameboy, 4);
    assert_eq!(0x0108, registers(&gameboy).pc());
    assert_eq!(0xFFFC, registers(&gameboy).sp());
    run(&mut gameboy, 1);
    assert_eq!(0x0110, registers(&gameboy).pc());
    assert_eq!(0xFFFE, registers(&gameboy).sp());
    assert!(gameboy.cpu().ime());
}

#[test]
fn push_and_pop() {
    let mut gameboy = gameboy(&[
        0x01, 0x34, 0x12, // LD BC,0x1234
        0xC5, // PUSH BC
        0xD1, // POP DE
        0x01, 0xFF, 0xAB, // LD BC,0xABFF
        0xC5, // PUSH BC
        0xF1, // POP AF
        0xF5, // PUSH AF
    ]);
    run(&mut gameboy, 2);
    assert_eq!(0xFFFC, registers(&gameboy).sp());
    assert_eq!(0x12, gameboy.cpu.bus.read(0xFFFD));
    assert_eq!(0x34, gameboy.cpu.bus.read(0xFFFC));
    // PUSH: the fetch, the delay and two writes
    assert_eq!(7, m_cycles(&gameboy));
    run(&mut gameboy, 1);
    assert_eq!(0x1234, registers(&gameboy).de());
    assert_eq!(0xFFFE, registers(&gameboy).sp());
    assert_eq!(10, m_cycles(&gameboy));
    run(&mut gameboy, 3);
    // The low nibble of F does not exist.
    assert_eq!(0xABF0, registers(&gameboy).af());
    assert_eq!(0xF0, registers(&gameboy).f().bits());
    run(&mut gameboy, 1);
    assert_eq!(0xF0, gameboy.cpu.bus.read(0xFFFC));
    assert_eq!(0xAB, gameboy.cpu.bus.read(0xFFFD));
}

#[test]
fn prefixed_instructions() {
    let mut gameboy = gameboy(&[
        0x3E, 0x85, // LD A,0x85
        0xCB, 0x07, // RLC A
        0xCB, 0x37, // SWAP A
        0xCB, 0x7F, // BIT 7,A
        0xCB, 0xC7, // SET 0,A
        0xCB, 0xA7, // RES 4,A
        0x21, 0x00, 0xC0, // LD HL,0xC000
        0x36, 0x80, // LD (HL),0x80
        0xCB, 0x26, // SLA (HL)
        0xCB, 0xFE, // SET 7,(HL)
        0xCB, 0x46, // BIT 0,(HL)
        0xCB, 0x3F, // SRL A
    ]);
    run(&mut gameboy, 2);
    assert_eq!(0x0B, registers(&gameboy).a());
    assert_eq!(flags(false, false, false, true), registers(&gameboy).f());
    run(&mut gameboy, 1);
    assert_eq!(0xB0, registers(&gameboy).a());
    assert_eq!(flags(false, false, false, false), registers(&gameboy).f());
    run(&mut gameboy, 1);
    assert_eq!(0xB0, registers(&gameboy).a());
    assert_eq!(flags(false, false, true, false), registers(&gameboy).f());
    run(&mut gameboy, 2);
    assert_eq!(0xA1, registers(&gameboy).a());
    assert_eq!(flags(false, false, true, false), registers(&gameboy).f());
    let before = m_cycles(&gameboy);
    run(&mut gameboy, 2);
    run(&mut gameboy, 1);
    assert_eq!(0x00, gameboy.cpu.bus.read(0xC000));
    assert_eq!(flags(true, false, false, true), registers(&gameboy).f());
    // LD HL,nn: 3; LD (HL),n: 3; SLA (HL): 4 m-cycles
    assert_eq!(before + 10, m_cycles(&gameboy));
    run(&mut gameboy, 1);
    assert_eq!(0x80, gameboy.cpu.bus.read(0xC000));
    run(&mut gameboy, 1);
    assert_eq!(flags(true, false, true, true), registers(&gameboy).f());
    run(&mut gameboy, 1);
    assert_eq!(0x50, registers(&gameboy).a());
    assert_eq!(flags(false, false, false, true), registers(&gameboy).f());
}

#[test]
fn decimal_adjust_after_addition() {
    let mut gameboy = gameboy(&[
        0x3E, 0x45, // LD A,0x45
        0xC6, 0x38, // ADD A,0x38
        0x27, // DAA
    ]);
    run(&mut gameboy, 3);
    assert_eq!(0x83, registers(&gameboy).a());
    assert_eq!(flags(false, false, false, false), registers(&gameboy).f());
}

#[test]
fn serial_output() {
    let mut gameboy = gameboy(&[
        0x3E, 0x50, // LD A,'P'
        0xE0, 0x01, // LD (0xFF01),A
        0x3E, 0x81, // LD A,0x81
        0xE0, 0x02, // LD (0xFF02),A
        0x00,
    ]);
    run(&mut gameboy, 4);
    assert!(gameboy.hal().sent.is_empty());
    run(&mut gameboy, 1);
    assert_eq!(vec![0x50], gameboy.hal().sent);
    assert_eq!(0xFF, gameboy.cpu.bus.read(0xFF01));
    assert_eq!(0x01, gameboy.cpu.bus.read(0xFF02));
}

#[test]
fn step_frame_runs_to_the_vertical_blank() {
    let mut gameboy = gameboy(&[0x18, 0xFE]); // JR -2
    assert_eq!(Ok(false), gameboy.step_frame(0));
    assert_eq!(0x0100, registers(&gameboy).pc());
    assert_eq!(Ok(false), gameboy.step_frame(10));
    assert_eq!(30, m_cycles(&gameboy));
    assert_eq!(Mode::VRAMRead, gameboy.cpu().bus().ppu().mode);
    assert_eq!(Ok(true), gameboy.step_frame(100_000));
    assert_eq!(Mode::VBlank, gameboy.cpu().bus().ppu().mode);
    assert_eq!(144, gameboy.cpu().bus().ppu().ly);
    // The next frame: out of the vertical blank and into it again.
    assert_eq!(Ok(true), gameboy.step_frame(100_000));
    assert_eq!(Mode::VBlank, gameboy.cpu().bus().ppu().mode);
    assert_eq!(144, gameboy.cpu().bus().ppu().ly);
}

#[test]
fn step_frame_ends_with_the_fault_of_a_step() {
    let mut gameboy = gameboy(&[0x00, 0xDD]);
    assert_eq!(Err(Fault::InvalidOpcode(0xDD)), gameboy.step_frame(100));
    assert_eq!(0x0102, registers(&gameboy).pc());
}

#[test]
fn an_interrupt_that_vanishes_under_the_push_is_a_fault() {
    let mut gameboy = gameboy(&[]);
    gameboy.cpu.bus.write(0xFF0F, 0x02);
    gameboy.cpu.bus.write(0xFFFF, 0x02);
    gameboy.cpu.ime = true;
    // The low byte of the return address lands in IE and disables the
    // interrupt that was pending.
    gameboy.cpu.registers.set_sp(0x0001);
    assert_eq!(Err(Fault::NoInterrupt), gameboy.step());
    assert_eq!(0x0101, registers(&gameboy).pc());
    assert_eq!(0xFFFF, registers(&gameboy).sp());
    assert_eq!(0x01, gameboy.cpu.bus.read(0xFFFF));
    assert_eq!(0x02, gameboy.cpu.bus.read(0xFF0F));
    assert!(!gameboy.cpu().ime());
}
