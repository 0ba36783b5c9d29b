//! The interrupt controller: the request register IF and the enable
//! register IE.

use crate::bits::{bit, bit_of, lemma_with_bit, set_bit, with_bit};
use crate::cpu::Interrupt;
use vstd::prelude::*;

verus! {

/// The source with the highest priority among the five low bits of `value`:
/// the lowest bit that is set.
pub open spec fn highest_priority(value: u8) -> Option<Interrupt> {
    if bit_of(value, 0) {
        Some(Interrupt::VBlank)
    } else if bit_of(value, 1) {
        Some(Interrupt::LCDStat)
    } else if bit_of(value, 2) {
        Some(Interrupt::Timer)
    } else if bit_of(value, 3) {
        Some(Interrupt::Serial)
    } else if bit_of(value, 4) {
        Some(Interrupt::Joypad)
    } else {
        None
    }
}

/// The interrupt request register, IF.
#[derive(Clone, Copy, Debug)]
pub struct INTF(pub u8);

impl INTF {
    pub fn joypad(&self) -> (r: bool)
        ensures
            r == bit_of(self.0, 4),
    {
        bit(self.0, 4)
    }

    pub fn set_joypad(&mut self, value: bool)
        ensures
            final(self).0 == with_bit(old(self).0, 4, value),
    {
        set_bit(&mut self.0, 4, value)
    }

    pub fn serial(&self) -> (r: bool)
        ensures
            r == bit_of(self.0, 3),
    {
        bit(self.0, 3)
    }

    pub fn set_serial(&mut self, value: bool)
        ensures
            final(self).0 == with_bit(old(self).0, 3, value),
    {
        set_bit(&mut self.0, 3, value)
    }

    pub fn timer(&self) -> (r: bool)
        ensures
            r == bit_of(self.0, 2),
    {
        bit(self.0, 2)
    }

    pub fn set_timer(&mut self, value: bool)
        ensures
            final(self).0 == with_bit(old(self).0, 2, value),
    {
        set_bit(&mut self.0, 2, value)
    }

    pub fn lcd_stat(&self) -> (r: bool)
        ensures
            r == bit_of(self.0, 1),
    {
        bit(self.0, 1)
    }

    pub fn set_lcd_stat(&mut self, value: bool)
        ensures
            final(self).0 == with_bit(old(self).0, 1, value),
    {
        set_bit(&mut self.0, 1, value)
    }

    pub fn vblank(&self) -> (r: bool)
        ensures
            r == bit_of(self.0, 0),
    {
        bit(self.0, 0)
    }

    pub fn set_vblank(&mut self, value: bool)
        ensures
            final(self).0 == with_bit(old(self).0, 0, value),
    {
        set_bit(&mut self.0, 0, value)
    }

    /// The requested source with the highest priority.
    pub fn get_highest_priority(&self) -> (r: Option<Interrupt>)
        ensures
            r == highest_priority(self.0),
    {
        if self.vblank() {
            Some(Interrupt::VBlank)
        } else if self.lcd_stat() {
            Some(Interrupt::LCDStat)
        } else if self.timer() {
            Some(Interrupt::Timer)
        } else if self.serial() {
            Some(Interrupt::Serial)
        } else if self.joypad() {
            Some(Interrupt::Joypad)
        } else {
            None
        }
    }
}

/// The interrupt enable register, IE.
#[derive(Clone, Copy, Debug)]
pub struct INTE(pub u8);

impl INTE {
    pub fn joypad(&self) -> (r: bool)
        ensures
            r == bit_of(self.0, 4),
    {
        bit(self.0, 4)
    }

    pub fn serial(&self) -> (r: bool)
        ensures
            r == bit_of(self.0, 3),
    {
        bit(self.0, 3)
    }

    pub fn timer(&self) -> (r: bool)
        ensures
            r == bit_of(self.0, 2),
    {
        bit(self.0, 2)
    }

    pub fn lcd_stat(&self) -> (r: bool)
        ensures
            r == bit_of(self.0, 1),
    {
        bit(self.0, 1)
    }

    pub fn vblank(&self) -> (r: bool)
        ensures
            r == bit_of(self.0, 0),
    {
        bit(self.0, 0)
    }
}

#[derive(Clone, Copy, Debug)]
pub struct Interrupts {
    pub intf: INTF,
    pub inte: INTE,
}

proof fn lemma_both(requested: u8, enabled: u8)
    by (bit_vector)
    ensures
        (requested & enabled) % 2 == 1 <==> requested % 2 == 1 && enabled % 2 == 1,
        ((requested & enabled) / 2) % 2 == 1 <==> (requested / 2) % 2 == 1 && (enabled / 2) % 2
            == 1,
        ((requested & enabled) / 4) % 2 == 1 <==> (requested / 4) % 2 == 1 && (enabled / 4) % 2
            == 1,
        ((requested & enabled) / 8) % 2 == 1 <==> (requested / 8) % 2 == 1 && (enabled / 8) % 2
            == 1,
        ((requested & enabled) / 16) % 2 == 1 <==> (requested / 16) % 2 == 1 && (enabled / 16)
            % 2 == 1,
{
}

proof fn lemma_any(enabled: u8, requested: u8)
    by (bit_vector)
    ensures
        (enabled & requested & 0x1F) > 0 <==> (requested % 2 == 1 && enabled % 2 == 1) || ((
        requested / 2) % 2 == 1 && (enabled / 2) % 2 == 1) || ((requested / 4) % 2 == 1 && (
        enabled / 4) % 2 == 1) || ((requested / 8) % 2 == 1 && (enabled / 8) % 2 == 1) || ((
        requested / 16) % 2 == 1 && (enabled / 16) % 2 == 1),
{
}

impl Interrupts {
    /// Whether `interrupt` is requested and enabled.
    pub open spec fn is_pending(self, interrupt: Interrupt) -> bool {
        bit_of(self.intf.0, interrupt.index()) && bit_of(self.inte.0, interrupt.index())
    }

    /// The pending interrupt with the highest priority: the lowest bit among
    /// the five that is set in both IF and IE.
    pub open spec fn pending(self) -> Option<Interrupt> {
        if self.is_pending(Interrupt::VBlank) {
            Some(Interrupt::VBlank)
        } else if self.is_pending(Interrupt::LCDStat) {
            Some(Interrupt::LCDStat)
        } else if self.is_pending(Interrupt::Timer) {
            Some(Interrupt::Timer)
        } else if self.is_pending(Interrupt::Serial) {
            Some(Interrupt::Serial)
        } else if self.is_pending(Interrupt::Joypad) {
            Some(Interrupt::Joypad)
        } else {
            None
        }
    }

    /// The controller with `interrupt` requested.
    pub open spec fn requested(self, interrupt: Interrupt) -> Interrupts {
        Interrupts { intf: INTF(with_bit(self.intf.0, interrupt.index(), true) as u8), ..self }
    }

    /// The controller with the request of `interrupt` taken back.
    pub open spec fn cleared(self, interrupt: Interrupt) -> Interrupts {
        Interrupts { intf: INTF(with_bit(self.intf.0, interrupt.index(), false) as u8), ..self }
    }

    pub fn new() -> (r: Interrupts)
        ensures
            r.intf.0 == 0,
            r.inte.0 == 0,
    {
        Interrupts { intf: INTF(0x00), inte: INTE(0x00) }
    }

    pub fn intf(&self) -> (r: INTF)
        ensures
            r == self.intf,
    {
        self.intf
    }

    pub fn set_intf(&mut self, value: u8)
        ensures
            *final(self) == (Interrupts { intf: INTF(value), ..*old(self) }),
    {
        self.intf = INTF(value);
    }

    pub fn inte(&self) -> (r: INTE)
        ensures
            r == self.inte,
    {
        self.inte
    }

    pub fn set_inte(&mut self, value: u8)
        ensures
            *final(self) == (Interrupts { inte: INTE(value), ..*old(self) }),
    {
        self.inte = INTE(value);
    }

    /// Whether any of the five interrupts is requested and enabled.
    pub fn should_handle_interrupt(&self) -> (r: bool)
        ensures
            r == self.pending().is_some(),
    {
        proof {
            lemma_any(self.inte.0, self.intf.0);
            assert(self.is_pending(Interrupt::VBlank) == (self.intf.0 % 2 == 1 && self.inte.0 % 2
                == 1));
            assert(self.is_pending(Interrupt::LCDStat) == ((self.intf.0 / 2) % 2 == 1 && (
            self.inte.0 / 2) % 2 == 1));
            assert(self.is_pending(Interrupt::Timer) == ((self.intf.0 / 4) % 2 == 1 && (self.inte.0
                / 4) % 2 == 1));
            assert(self.is_pending(Interrupt::Serial) == ((self.intf.0 / 8) % 2 == 1 && (
            self.inte.0 / 8) % 2 == 1));
            assert(self.is_pending(Interrupt::Joypad) == ((self.intf.0 / 16) % 2 == 1 && (
            self.inte.0 / 16) % 2 == 1));
        }
        (self.inte.0 & self.intf.0 & 0b00011111) > 0
    }

    /// Takes the pending interrupt with the highest priority, if there is
    /// one: its request bit is cleared and no other bit changes.
    pub fn pop_interrupt(&mut self) -> (r: Option<Interrupt>)
        ensures
            r == old(self).pending(),
            *final(self) == match r {
                Some(interrupt) => old(self).cleared(interrupt),
                None => *old(self),
            },
    {
        proof {
            lemma_both(self.intf.0, self.inte.0);
        }
        let interrupt = INTF(self.intf.0 & self.inte.0).get_highest_priority();
        match interrupt {
            Some(Interrupt::VBlank) => self.intf.set_vblank(false),
            Some(Interrupt::LCDStat) => self.intf.set_lcd_stat(false),
            Some(Interrupt::Timer) => self.intf.set_timer(false),
            Some(Interrupt::Serial) => self.intf.set_serial(false),
            Some(Interrupt::Joypad) => self.intf.set_joypad(false),
            None => {},
        }
        interrupt
    }

    /// Requests `interrupt`: its bit in IF is set and no other bit changes.
    pub fn trigger_interrupt(&mut self, interrupt: Interrupt)
        ensures
            *final(self) == old(self).requested(interrupt),
    {
        match interrupt {
            Interrupt::VBlank => self.intf.set_vblank(true),
            Interrupt::LCDStat => self.intf.set_lcd_stat(true),
            Interrupt::Timer => self.intf.set_timer(true),
            Interrupt::Serial => self.intf.set_serial(true),
            Interrupt::Joypad => self.intf.set_joypad(true),
        }
    }
}

/// Of several pending interrupts the one with the lowest index is taken, and
/// taking it clears its request bit alone: every other request stays, and so
/// does IE.
pub proof fn lemma_priority(interrupts: Interrupts, taken: Interrupt, other: Interrupt)
    requires
        interrupts.pending() == Some(taken),
    ensures
        interrupts.is_pending(taken),
        interrupts.is_pending(other) ==> taken.index() <= other.index(),
        !bit_of(interrupts.cleared(taken).intf.0, taken.index()),
        other != taken ==> bit_of(interrupts.cleared(taken).intf.0, other.index()) == bit_of(
            interrupts.intf.0,
            other.index(),
        ),
        interrupts.cleared(taken).inte == interrupts.inte,
{
    lemma_with_bit(interrupts.intf.0, taken.index(), false, taken.index());
    lemma_with_bit(interrupts.intf.0, taken.index(), false, other.index());
}

} // verus!
