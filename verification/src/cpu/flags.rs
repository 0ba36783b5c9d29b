//! The condition flags of the F register.

use crate::bits::bit_of;
use vstd::prelude::*;

verus! {

/// The four condition flags. They occupy bits 7 to 4 of the F register; the
/// low nibble of F does not exist, so no value of this type can hold it.
#[derive(Clone, Copy, Debug, PartialEq, Eq)]
pub struct Flags {
    pub zero: bool,
    pub subtract: bool,
    pub half_carry: bool,
    pub carry: bool,
}

impl Flags {
    /// The byte that software reads from F.
    pub open spec fn spec_bits(&self) -> u8 {
        ((if self.zero {
            128int
        } else {
            0
        }) + (if self.subtract {
            64int
        } else {
            0
        }) + (if self.half_carry {
            32int
        } else {
            0
        }) + (if self.carry {
            16int
        } else {
            0
        })) as u8
    }

    /// The flags that a byte written to F holds; its low nibble is dropped.
    pub open spec fn spec_from_bits(bits: u8) -> Flags {
        Flags {
            zero: bit_of(bits, 7),
            subtract: bit_of(bits, 6),
            half_carry: bit_of(bits, 5),
            carry: bit_of(bits, 4),
        }
    }

    /// No flag set.
    pub fn empty() -> (r: Flags)
        ensures
            r == (Flags { zero: false, subtract: false, half_carry: false, carry: false }),
    {
        Flags { zero: false, subtract: false, half_carry: false, carry: false }
    }

    #[verifier::when_used_as_spec(spec_bits)]
    pub fn bits(&self) -> (r: u8)
        ensures
            r == self.spec_bits(),
            r % 16 == 0,
    {
        let z: u8 = if self.zero { 0x80 } else { 0 };
        let n: u8 = if self.subtract { 0x40 } else { 0 };
        let h: u8 = if self.half_carry { 0x20 } else { 0 };
        let c: u8 = if self.carry { 0x10 } else { 0 };
        z + n + h + c
    }

    #[verifier::when_used_as_spec(spec_from_bits)]
    pub fn from_bits_truncate(bits: u8) -> (r: Flags)
        ensures
            r == Flags::spec_from_bits(bits),
            r.spec_bits() == bits - bits % 16,
    {
        Flags {
            zero: bits >= 0x80,
            subtract: bits % 0x80 >= 0x40,
            half_carry: bits % 0x40 >= 0x20,
            carry: bits % 0x20 >= 0x10,
        }
    }
}

/// Reading F never yields a set bit in the low nibble, and writing back what
/// was read changes nothing.
pub proof fn lemma_flags_round_trip(flags: Flags)
    ensures
        flags.spec_bits() % 16 == 0,
        Flags::spec_from_bits(flags.spec_bits()) == flags,
{
}

} // verus!
