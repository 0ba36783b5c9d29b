//! The serial port: a data byte, a control byte, and a host on the other end
//! of the cable.

use crate::bits::{bit, bit_of, bit_range, bits_of, lemma_with_bit, set_bit, with_bit};
use crate::hal::{Host, HostCall, HAL};
use vstd::prelude::*;

verus! {

/// Which side of the link provides the clock.
#[derive(Clone, Copy, Debug, PartialEq, Eq)]
pub enum ShiftClock {
    External,
    Internal,
}

impl ShiftClock {
    /// The clock that bit 0 of SC selects.
    pub open spec fn of(value: int) -> ShiftClock {
        if value == 0 {
            ShiftClock::External
        } else {
            ShiftClock::Internal
        }
    }

    pub fn from_bits(value: u8) -> (r: ShiftClock)
        requires
            value < 2,
        ensures
            r == ShiftClock::of(value as int),
    {
        match value {
            0 => ShiftClock::External,
            _ => ShiftClock::Internal,
        }
    }
}

/// The serial control register: bit 7 starts a transfer, bit 0 selects the
/// clock.
#[derive(Clone, Copy, Debug)]
pub struct SC(pub u8);

impl SC {
    pub open spec fn spec_transfer_start(&self) -> bool {
        bit_of(self.0, 7)
    }

    #[verifier::when_used_as_spec(spec_transfer_start)]
    pub fn transfer_start(&self) -> (r: bool)
        ensures
            r == self.spec_transfer_start(),
    {
        bit(self.0, 7)
    }

    pub fn set_transfer_start(&mut self, value: bool)
        ensures
            final(self).0 == with_bit(old(self).0, 7, value),
            final(self).spec_transfer_start() == value,
    {
        proof {
            lemma_with_bit(self.0, 7, value, 7);
        }
        set_bit(&mut self.0, 7, value)
    }

    pub fn shift_clock(&self) -> (r: ShiftClock)
        ensures
            r == ShiftClock::of(bits_of(self.0, 0, 0)),
    {
        ShiftClock::from_bits(bit_range(self.0, 0, 0))
    }
}

#[derive(Clone, Copy, Debug)]
pub struct Serial {
    pub sb: u8,
    pub sc: SC,
}

impl Serial {
    /// The port after a transfer in which the host answered `reply`: SB holds
    /// the answer and the start bit of SC is clear.
    pub open spec fn transferred(self, reply: u8) -> Serial {
        Serial { sb: reply, sc: SC(with_bit(self.sc.0, 7, false) as u8) }
    }

    pub fn new() -> (r: Serial)
        ensures
            r == (Serial { sb: 0x00, sc: SC(0x00) }),
    {
        Serial { sb: 0x00, sc: SC(0x00) }
    }

    pub fn sb(&self) -> (r: u8)
        ensures
            r == self.sb,
    {
        self.sb
    }

    pub fn sc(&self) -> (r: SC)
        ensures
            r == self.sc,
    {
        self.sc
    }

    pub fn set_sb(&mut self, value: u8)
        ensures
            *final(self) == (Serial { sb: value, ..*old(self) }),
    {
        self.sb = value;
    }

    pub fn set_sc(&mut self, value: u8)
        ensures
            *final(self) == (Serial { sc: SC(value), ..*old(self) }),
    {
        self.sc = SC(value);
    }

    /// Ends a transfer with the byte that came in.
    pub fn complete_transfer(&mut self, reply: u8)
        ensures
            *final(self) == old(self).transferred(reply),
            !final(self).sc.spec_transfer_start(),
    {
        self.sb = reply;
        self.sc.set_transfer_start(false);
    }

    /// The call of the host that one m-cycle of the port makes: none, or the
    /// transfer of SB, in which the host answers `reply`.
    pub open spec fn calls(self, reply: u8) -> Seq<HostCall> {
        if self.sc.spec_transfer_start() {
            seq![HostCall::Serial { sent: self.sb, received: reply }]
        } else {
            Seq::empty()
        }
    }

    /// The port one m-cycle later, where the host answers `reply` if a
    /// transfer has been started.
    pub open spec fn ticked(self, reply: u8) -> Serial {
        if self.sc.spec_transfer_start() {
            self.transferred(reply)
        } else {
            self
        }
    }

    /// One m-cycle of the port. Where a transfer has been started, SB goes to
    /// the host, the byte that the host answers replaces it, and the start
    /// bit is cleared. No interrupt is raised.
    pub fn tick_m_cycle<H: HAL>(&mut self, host: &mut Host<H>) -> (interrupt: bool)
        ensures
            !interrupt,
            *final(self) == old(self).ticked(final(self).sb),
            final(host).calls@ == old(host).calls@ + old(self).calls(final(self).sb),
    {
        if self.sc.transfer_start() {
            let reply = host.serial_callback(self.sb);
            self.complete_transfer(reply);
            assert(host.calls@ =~= old(host).calls@ + old(self).calls(reply));
        } else {
            assert(host.calls@ =~= old(host).calls@ + old(self).calls(self.sb));
        }
        false
    }
}

} // verus!
