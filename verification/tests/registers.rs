use gb::cpu::registers::Registers;
use gb::cpu::Flags;

fn flags(zero: bool, subtract: bool, half_carry: bool, carry: bool) -> Flags {
    Flags { zero, subtract, half_carry, carry }
}

#[test]
fn test_af() {
    let mut registers = Registers::default();
    registers.set_a(0x42);
    registers.set_f(flags(true, false, false, false));

    assert_eq!(0x4280, registers.af());

    let mut registers = Registers::default();
    registers.set_af(0x4269);

    assert_eq!(0x42, registers.a());
    assert_eq!(flags(false, true, true, false), registers.f());
}

#[test]
fn test_bc() {
    let mut registers = Registers::default();
    registers.set_b(0x42);
    registers.set_c(0x69);

    assert_eq!(0x4269, registers.bc());

    let mut registers = Registers::default();
    registers.set_bc(0x4269);

    assert_eq!(0x42, registers.b());
    assert_eq!(0x69, registers.c());
}

#[test]
fn test_de() {
    let mut registers = Registers::default();
    registers.set_d(0x42);
    registers.set_e(0x69);

    assert_eq!(0x4269, registers.de());

    let mut registers = Registers::default();
    registers.set_de(0x4269);

    assert_eq!(0x42, registers.d());
    assert_eq!(0x69, registers.e());
}

#[test]
fn test_hl() {
    let mut registers = Registers::default();
    registers.set_h(0x42);
    registers.set_l(0x69);

    assert_eq!(0x4269, registers.hl());

    let mut registers = Registers::default();
    registers.set_hl(0x4269);

    assert_eq!(0x42, registers.h());
    assert_eq!(0x69, registers.l());
}

#[test]
fn pairs_hold_what_was_written() {
    let mut registers = Registers::default();
    for value in [0x0000u16, 0x0001, 0x00FF, 0x0100, 0x1234, 0x8000, 0xABCD, 0xFFFF] {
        registers.set_bc(value);
        registers.set_de(value.wrapping_add(1));
        registers.set_hl(value.wrapping_add(2));
        registers.set_sp(value.wrapping_add(3));
        registers.set_pc(value.wrapping_add(4));
        registers.set_af(value);
        assert_eq!(value, registers.bc());
        assert_eq!(value.wrapping_add(1), registers.de());
        assert_eq!(value.wrapping_add(2), registers.hl());
        assert_eq!(value.wrapping_add(3), registers.sp());
        assert_eq!(value.wrapping_add(4), registers.pc());
        assert_eq!(value & 0xFFF0, registers.af());
        assert_eq!(0, registers.f().bits() & 0x0F);
        assert_eq!((value >> 8) as u8, registers.b());
        assert_eq!(value as u8, registers.c());
    }
}

#[test]
fn post_boot_values() {
    let registers = Registers::default();
    assert_eq!(0x01, registers.a());
    assert_eq!(flags(true, false, true, true), registers.f());
    assert_eq!(0x00, registers.b());
    assert_eq!(0x13, registers.c());
    assert_eq!(0x00, registers.d());
    assert_eq!(0xD8, registers.e());
    assert_eq!(0x01, registers.h());
    assert_eq!(0x4D, registers.l());
    assert_eq!(0x0100, registers.pc());
    assert_eq!(0xFFFE, registers.sp());
}
