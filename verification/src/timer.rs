//! The timer: a 16-bit counter that runs at the clock of the machine, and the
//! programmable counter TIMA that one of its bits drives.

use crate::bits::{bit, bit_of, bit_range, bits_of};
use vstd::prelude::*;

verus! {

/// The rate at which TIMA counts, named by its frequency in Hz.
#[allow(non_camel_case_types)]
#[derive(Clone, Copy, Debug, PartialEq, Eq)]
pub enum Frequency {
    _4096,
    _262144,
    _65536,
    _16384,
}

impl Frequency {
    /// The frequency that the two low bits of TAC select.
    pub open spec fn of(value: int) -> Frequency {
        if value == 0 {
            Frequency::_4096
        } else if value == 1 {
            Frequency::_262144
        } else if value == 2 {
            Frequency::_65536
        } else {
            Frequency::_16384
        }
    }

    /// Whether the bit of `counter` that is watched at this frequency is set:
    /// bit 9 at 4096 Hz, bit 3 at 262144 Hz, bit 5 at 65536 Hz and bit 7 at
    /// 16384 Hz.
    pub open spec fn selects(self, counter: u16) -> bool {
        match self {
            Frequency::_4096 => (counter / 0x200) % 2 == 1,
            Frequency::_262144 => (counter / 0x08) % 2 == 1,
            Frequency::_65536 => (counter / 0x20) % 2 == 1,
            Frequency::_16384 => (counter / 0x80) % 2 == 1,
        }
    }

    /// The mask that has the watched bit alone.
    pub open spec fn mask(self) -> u16 {
        match self {
            Frequency::_4096 => 0x200,
            Frequency::_262144 => 0x08,
            Frequency::_65536 => 0x20,
            Frequency::_16384 => 0x80,
        }
    }

    pub fn from_bits(value: u8) -> (r: Frequency)
        requires
            value < 4,
        ensures
            r == Frequency::of(value as int),
    {
        match value {
            0 => Frequency::_4096,
            1 => Frequency::_262144,
            2 => Frequency::_65536,
            _ => Frequency::_16384,
        }
    }

    pub fn into_mask(self) -> (r: u16)
        ensures
            r == self.mask(),
    {
        match self {
            Frequency::_4096 => 0b0000_0010_0000_0000,
            Frequency::_16384 => 0b0000_0000_1000_0000,
            Frequency::_65536 => 0b0000_0000_0010_0000,
            Frequency::_262144 => 0b0000_0000_0000_1000,
        }
    }
}

/// The timer control register: bit 2 enables TIMA, bits 1..0 select its
/// frequency.
#[derive(Clone, Copy, Debug)]
pub struct TAC(pub u8);

impl TAC {
    pub open spec fn spec_enabled(&self) -> bool {
        bit_of(self.0, 2)
    }

    pub open spec fn spec_frequency(&self) -> Frequency {
        Frequency::of(bits_of(self.0, 1, 0))
    }

    #[verifier::when_used_as_spec(spec_enabled)]
    pub fn enabled(&self) -> (r: bool)
        ensures
            r == self.spec_enabled(),
    {
        bit(self.0, 2)
    }

    #[verifier::when_used_as_spec(spec_frequency)]
    pub fn frequency(&self) -> (r: Frequency)
        ensures
            r == self.spec_frequency(),
    {
        Frequency::from_bits(bit_range(self.0, 1, 0))
    }
}

#[derive(Clone, Copy, Debug)]
pub struct Timer {
    /// The internal counter. Its high byte is DIV.
    pub counter: u16,
    pub tac: TAC,
    pub tima: u8,
    pub tma: u8,
    /// TIMA has overflowed and is to be reloaded on the next m-cycle.
    pub overflow: bool,
}

proof fn lemma_masks(counter: u16)
    by (bit_vector)
    ensures
        (counter & 0x200 > 0) == ((counter / 0x200) % 2 == 1),
        (counter & 0x08 > 0) == ((counter / 0x08) % 2 == 1),
        (counter & 0x20 > 0) == ((counter / 0x20) % 2 == 1),
        (counter & 0x80 > 0) == ((counter / 0x80) % 2 == 1),
{
}

impl Timer {
    /// The signal whose falling edge makes TIMA count: the watched bit of the
    /// counter, while the timer is enabled.
    pub open spec fn signal(self) -> bool {
        self.tac.spec_enabled() && self.tac.spec_frequency().selects(self.counter)
    }

    /// The timer after the signal has gone from what it was in `previous` to
    /// what it is in `self`. On a falling edge TIMA counts up; from 0xFF it
    /// goes to 0x00 and a reload becomes pending.
    pub open spec fn after_edge(self, previous: Timer) -> Timer {
        if previous.signal() && !self.signal() {
            Timer {
                tima: if self.tima == 0xFF {
                    0u8
                } else {
                    (self.tima + 1) as u8
                },
                overflow: self.tima == 0xFF,
                ..self
            }
        } else {
            self
        }
    }

    /// The timer one m-cycle later. A pending reload is done first, and is
    /// when the interrupt is raised; then the counter goes up by four and a
    /// falling edge of the signal makes TIMA count.
    pub open spec fn ticked(self) -> Timer {
        let reloaded = if self.overflow {
            Timer { tima: self.tma, overflow: false, ..self }
        } else {
            self
        };
        (Timer { counter: ((self.counter + 4) % 0x1_0000) as u16, ..reloaded }).after_edge(self)
    }

    /// The timer after a write to DIV: the counter is zero, and a falling
    /// edge that this causes makes TIMA count.
    pub open spec fn div_written(self) -> Timer {
        (Timer { counter: 0, ..self }).after_edge(self)
    }

    /// The timer after a write of `value` to TAC: the low three bits are
    /// taken, the others read as one, and a falling edge that this causes
    /// makes TIMA count.
    pub open spec fn tac_written(self, value: u8) -> Timer {
        (Timer { tac: TAC(value | 0b1111_1000), ..self }).after_edge(self)
    }

    /// The timer after a write of `value` to TIMA. While a reload is pending
    /// the write is ignored and the reload, with its interrupt, is called
    /// off.
    pub open spec fn tima_written(self, value: u8) -> Timer {
        if self.overflow {
            Timer { overflow: false, ..self }
        } else {
            Timer { tima: value, ..self }
        }
    }

    /// The timer after a write of `value` to TMA. While a reload is pending
    /// TIMA takes the value too.
    pub open spec fn tma_written(self, value: u8) -> Timer {
        Timer {
            tma: value,
            tima: if self.overflow {
                value
            } else {
                self.tima
            },
            ..self
        }
    }

    /// The timer as the boot program leaves it.
    pub fn new() -> (r: Timer)
        ensures
            r == (Timer { counter: 0xABCC, tac: TAC(0x00), tima: 0x00, tma: 0x00, overflow: false }),
    {
        Timer { counter: 0xABCC, tac: TAC(0x00), tima: 0x00, tma: 0x00, overflow: false }
    }

    /// DIV, the high byte of the counter.
    pub fn div(&self) -> (r: u8)
        ensures
            r == self.counter / 256,
    {
        (self.counter / 256) as u8
    }

    pub fn tac(&self) -> (r: TAC)
        ensures
            r == self.tac,
    {
        self.tac
    }

    pub fn tima(&self) -> (r: u8)
        ensures
            r == self.tima,
    {
        self.tima
    }

    pub fn tma(&self) -> (r: u8)
        ensures
            r == self.tma,
    {
        self.tma
    }

    /// One m-cycle in which DIV is written: the write, then the tick. The
    /// result tells whether the timer interrupt is raised.
    pub fn div_write_m_cycle(&mut self, value: u8) -> (interrupt: bool)
        ensures
            *final(self) == old(self).div_written().ticked(),
            interrupt == old(self).div_written().overflow,
    {
        let previous = *self;
        self.counter = 0;
        self.try_increment_tima(&previous);
        self.tick_m_cycle()
    }

    /// One m-cycle in which TAC is written: the write, then the tick.
    pub fn tac_write_m_cycle(&mut self, value: u8) -> (interrupt: bool)
        ensures
            *final(self) == old(self).tac_written(value).ticked(),
            interrupt == old(self).tac_written(value).overflow,
    {
        let previous = *self;
        // Only the lower 3 bits can be written.
        self.tac = TAC(value | 0b1111_1000);
        self.try_increment_tima(&previous);
        self.tick_m_cycle()
    }

    /// One m-cycle in which TIMA is written: the write, then the tick.
    pub fn tima_write_m_cycle(&mut self, value: u8) -> (interrupt: bool)
        ensures
            *final(self) == old(self).tima_written(value).ticked(),
            !interrupt,
    {
        if self.overflow {
            self.overflow = false;
        } else {
            self.tima = value;
        }
        self.tick_m_cycle()
    }

    /// One m-cycle in which TMA is written: the write, then the tick.
    pub fn tma_write_m_cycle(&mut self, value: u8) -> (interrupt: bool)
        ensures
            *final(self) == old(self).tma_written(value).ticked(),
            interrupt == old(self).overflow,
    {
        if self.overflow {
            self.tima = value;
        }
        self.tma = value;
        self.tick_m_cycle()
    }

    pub fn should_increment_tima(&self) -> (r: bool)
        ensures
            r == self.signal(),
    {
        proof {
            lemma_masks(self.counter);
        }
        self.tac.enabled() && (self.counter & self.tac.frequency().into_mask()) > 0
    }

    /// Lets TIMA count if the signal has fallen since `previous`.
    pub fn try_increment_tima(&mut self, previous: &Timer)
        ensures
            *final(self) == old(self).after_edge(*previous),
    {
        let old_bit = previous.should_increment_tima();
        let new_bit = self.should_increment_tima();
        if old_bit && !new_bit {
            let overflow = self.tima == 0xFF;
            self.tima = self.tima.wrapping_add(1);
            self.overflow = overflow;
        }
    }

    /// One m-cycle of the timer. The result tells whether the timer
    /// interrupt is raised: it is when TIMA overflowed one m-cycle before.
    pub fn tick_m_cycle(&mut self) -> (interrupt: bool)
        ensures
            *final(self) == old(self).ticked(),
            interrupt == old(self).overflow,
    {
        let previous = *self;
        let should_interrupt = self.overflow;
        if self.overflow {
            self.tima = self.tma;
            self.overflow = false;
        }
        self.counter = self.counter.wrapping_add(4);
        self.try_increment_tima(&previous);
        should_interrupt
    }
}

/// When the signal falls while TIMA holds 0xFF, TIMA reads 0x00 after that
/// m-cycle and a reload is pending; the m-cycle itself raises no interrupt.
/// The m-cycle after it raises the interrupt and loads TIMA from TMA.
pub proof fn lemma_overflow_then_reload(timer: Timer)
    requires
        !timer.overflow,
        timer.tima == 0xFF,
        timer.signal(),
        !(Timer { counter: ((timer.counter + 4) % 0x1_0000) as u16, ..timer }).signal(),
    ensures
        timer.ticked().tima == 0x00,
        timer.ticked().overflow,
        timer.ticked().ticked().tima == timer.tma,
        !timer.ticked().ticked().overflow,
{
}

} // verus!
