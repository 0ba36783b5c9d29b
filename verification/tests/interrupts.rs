use gb::cpu::Interrupt;
use gb::interrupts::{Interrupts, INTF};

#[test]
fn it_should_convert_to_interrupt_vector() {
    assert_eq!(0x0040, Interrupt::VBlank.to_vector());
    assert_eq!(0x0048, Interrupt::LCDStat.to_vector());
    assert_eq!(0x0050, Interrupt::Timer.to_vector());
    assert_eq!(0x0058, Interrupt::Serial.to_vector());
    assert_eq!(0x0060, Interrupt::Joypad.to_vector());
}

#[test]
fn controller_starts_empty() {
    let interrupts = Interrupts::new();
    assert_eq!(0x00, interrupts.intf().0);
    assert_eq!(0x00, interrupts.inte().0);
    assert!(!interrupts.should_handle_interrupt());
}

#[test]
fn trigger_sets_one_request_bit() {
    let mut interrupts = Interrupts::new();
    interrupts.trigger_interrupt(Interrupt::Timer);
    assert_eq!(0b0000_0100, interrupts.intf().0);
    interrupts.trigger_interrupt(Interrupt::VBlank);
    assert_eq!(0b0000_0101, interrupts.intf().0);
    interrupts.trigger_interrupt(Interrupt::LCDStat);
    interrupts.trigger_interrupt(Interrupt::Serial);
    interrupts.trigger_interrupt(Interrupt::Joypad);
    assert_eq!(0b0001_1111, interrupts.intf().0);
    interrupts.trigger_interrupt(Interrupt::Joypad);
    assert_eq!(0b0001_1111, interrupts.intf().0);
}

#[test]
fn request_without_enable_is_not_pending() {
    let mut interrupts = Interrupts::new();
    interrupts.set_intf(0x1F);
    assert!(!interrupts.should_handle_interrupt());
    interrupts.set_inte(0xE0);
    assert!(!interrupts.should_handle_interrupt());
    assert_eq!(None, interrupts.pop_interrupt());
    assert_eq!(0x1F, interrupts.intf().0);
    interrupts.set_inte(0x10);
    assert!(interrupts.should_handle_interrupt());
}

#[test]
fn pop_takes_the_lowest_pending_bit_and_clears_it_alone() {
    let mut interrupts = Interrupts::new();
    interrupts.set_intf(0xF5);
    interrupts.set_inte(0xFF);
    assert_eq!(Some(Interrupt::VBlank), interrupts.pop_interrupt());
    assert_eq!(0xF4, interrupts.intf().0);
    assert_eq!(0xFF, interrupts.inte().0);
    assert_eq!(Some(Interrupt::Timer), interrupts.pop_interrupt());
    assert_eq!(0xF0, interrupts.intf().0);
    assert_eq!(Some(Interrupt::Joypad), interrupts.pop_interrupt());
    assert_eq!(0xE0, interrupts.intf().0);
    assert_eq!(None, interrupts.pop_interrupt());
    assert_eq!(0xE0, interrupts.intf().0);
}

#[test]
fn pop_skips_a_request_that_is_not_enabled() {
    let mut interrupts = Interrupts::new();
    interrupts.set_intf(0b0000_0011);
    interrupts.set_inte(0b0000_0010);
    assert_eq!(Some(Interrupt::LCDStat), interrupts.pop_interrupt());
    assert_eq!(0b0000_0001, interrupts.intf().0);
}

#[test]
fn highest_priority_is_the_lowest_set_bit() {
    assert_eq!(Some(Interrupt::VBlank), INTF(0b0001_1111).get_highest_priority());
    assert_eq!(Some(Interrupt::LCDStat), INTF(0b0001_1110).get_highest_priority());
    assert_eq!(Some(Interrupt::Timer), INTF(0b0001_1100).get_highest_priority());
    assert_eq!(Some(Interrupt::Serial), INTF(0b0001_1000).get_highest_priority());
    assert_eq!(Some(Interrupt::Joypad), INTF(0b0001_0000).get_highest_priority());
    assert_eq!(None, INTF(0b1110_0000).get_highest_priority());
    assert_eq!(None, INTF(0).get_highest_priority());
}

#[test]
fn request_bits_read_one_by_one() {
    let intf = INTF(0b0000_1010);
    assert!(!intf.vblank());
    assert!(intf.lcd_stat());
    assert!(!intf.timer());
    assert!(intf.serial());
    assert!(!intf.joypad());
    let mut intf = INTF(0xFF);
    intf.set_timer(false);
    assert_eq!(0xFB, intf.0);
}
