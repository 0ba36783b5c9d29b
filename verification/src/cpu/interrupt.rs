//! The five interrupt sources.

use vstd::prelude::*;

verus! {

#[derive(Clone, Copy, Debug, PartialEq, Eq)]
pub enum Interrupt {
    VBlank,
    LCDStat,
    Timer,
    Serial,
    Joypad,
}

impl Interrupt {
    /// The bit that stands for this source in IF and IE. A lower index is a
    /// higher priority.
    pub open spec fn index(self) -> int {
        match self {
            Interrupt::VBlank => 0,
            Interrupt::LCDStat => 1,
            Interrupt::Timer => 2,
            Interrupt::Serial => 3,
            Interrupt::Joypad => 4,
        }
    }

    /// The address that the CPU jumps to when it serves this source.
    pub open spec fn spec_to_vector(self) -> u16 {
        (0x40 + 8 * self.index()) as u16
    }

    #[verifier::when_used_as_spec(spec_to_vector)]
    pub fn to_vector(self) -> (r: u16)
        ensures
            r == self.spec_to_vector(),
    {
        match self {
            Interrupt::VBlank => 0x0040,
            Interrupt::LCDStat => 0x0048,
            Interrupt::Timer => 0x0050,
            Interrupt::Serial => 0x0058,
            Interrupt::Joypad => 0x0060,
        }
    }
}

} // verus!
