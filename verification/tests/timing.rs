use gb::cpu::Fault;
use gb::{Color, Gameboy, Joypad, HAL, ROM};

struct Host;

impl HAL for Host {
    fn is_joypad_pressed(&self, _: Joypad) -> bool {
        false
    }

    fn put_pixel(&mut self, _: usize, _: usize, _: Color) {}

    fn serial_callback(&mut self, _: u8) -> u8 {
        0xFF
    }
}

/// The m-cycles that one step takes on a machine whose program is `program`.
/// After the boot Z and C are set, so that the jumps on Z and on C are taken
/// and those on NZ and on NC are not.
fn m_cycles(program: &[u8]) -> Result<u16, Fault> {
    let mut bytes = vec![0u8; 0x8000];
    bytes[0x100..0x100 + program.len()].copy_from_slice(program);
    let mut gameboy = Gameboy::new(ROM::from(bytes), Host);
    gameboy.step()?;
    Ok(gameboy.cpu().bus().timer().counter.wrapping_sub(0xABCC) / 4)
}

/// The m-cycles of the primary opcodes; 0 where the opcode is a fault.
const PRIMARY: [u16; 256] = [
    1, 3, 2, 2, 1, 1, 2, 1, 5, 2, 2, 2, 1, 1, 2, 1, // 0x00
    0, 3, 2, 2, 1, 1, 2, 1, 3, 2, 2, 2, 1, 1, 2, 1, // 0x10
    2, 3, 2, 2, 1, 1, 2, 1, 3, 2, 2, 2, 1, 1, 2, 1, // 0x20
    2, 3, 2, 2, 3, 3, 3, 1, 3, 2, 2, 2, 1, 1, 2, 1, // 0x30
    1, 1, 1, 1, 1, 1, 2, 1, 1, 1, 1, 1, 1, 1, 2, 1, // 0x40
    1, 1, 1, 1, 1, 1, 2, 1, 1, 1, 1, 1, 1, 1, 2, 1, // 0x50
    1, 1, 1, 1, 1, 1, 2, 1, 1, 1, 1, 1, 1, 1, 2, 1, // 0x60
    2, 2, 2, 2, 2, 2, 1, 2, 1, 1, 1, 1, 1, 1, 2, 1, // 0x70
    1, 1, 1, 1, 1, 1, 2, 1, 1, 1, 1, 1, 1, 1, 2, 1, // 0x80
    1, 1, 1, 1, 1, 1, 2, 1, 1, 1, 1, 1, 1, 1, 2, 1, // 0x90
    1, 1, 1, 1, 1, 1, 2, 1, 1, 1, 1, 1, 1, 1, 2, 1, // 0xA0
    1, 1, 1, 1, 1, 1, 2, 1, 1, 1, 1, 1, 1, 1, 2, 1, // 0xB0
    2, 3, 3, 4, 3, 4, 2, 4, 5, 4, 4, 0, 6, 6, 2, 4, // 0xC0
    2, 3, 3, 0, 3, 4, 2, 4, 5, 4, 4, 0, 6, 0, 2, 4, // 0xD0
    3, 3, 2, 0, 0, 4, 2, 4, 4, 1, 4, 0, 0, 0, 2, 4, // 0xE0
    3, 3, 2, 1, 0, 4, 2, 4, 3, 2, 4, 1, 0, 0, 2, 4, // 0xF0
];

#[test]
fn primary_opcodes_take_their_m_cycles() {
    for opcode in 0..=255u8 {
        if opcode == 0xCB {
            continue;
        }
        let expected = PRIMARY[opcode as usize];
        match m_cycles(&[opcode]) {
            Ok(cycles) => assert_eq!(expected, cycles, "opcode {:#04X}", opcode),
            Err(Fault::Stop) => assert_eq!(0x10, opcode),
            Err(Fault::InvalidOpcode(faulty)) => {
                assert_eq!(opcode, faulty);
                assert_eq!(0, expected, "opcode {:#04X}", opcode);
            }
            Err(Fault::NoInterrupt) => panic!("opcode {:#04X}", opcode),
        }
    }
}

#[test]
fn prefixed_opcodes_take_their_m_cycles() {
    for opcode in 0..=255u8 {
        let on_memory = opcode & 0x07 == 0x06;
        let is_bit = opcode & 0xC0 == 0x40;
        let expected = if !on_memory {
            2
        } else if is_bit {
            3
        } else {
            4
        };
        assert_eq!(Ok(expected), m_cycles(&[0xCB, opcode]), "opcode 0xCB {:#04X}", opcode);
    }
}

#[test]
fn a_step_while_halted_takes_one_m_cycle() {
    let mut bytes = vec![0u8; 0x8000];
    bytes[0x100] = 0x76;
    let mut gameboy = Gameboy::new(ROM::from(bytes), Host);
    for step in 1..=8u16 {
        assert_eq!(Ok(()), gameboy.step());
        assert!(gameboy.cpu().halt());
        assert_eq!(step, gameboy.cpu().bus().timer().counter.wrapping_sub(0xABCC) / 4);
    }
}
