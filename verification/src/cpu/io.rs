//! Where an instruction takes an operand from and where it puts a result.

use super::instructions::{AluArg, Indirect, Register, RegisterPairAF, RegisterPairSP};
use vstd::prelude::*;
use vstd::std_specs::convert::FromSpecImpl;

verus! {

/// The source of a byte.
#[derive(Copy, Clone, Debug)]
pub enum In8 {
    A,
    B,
    C,
    D,
    E,
    H,
    L,
    /// The byte that follows in the instruction stream.
    N,
    /// The byte in memory at BC.
    BC,
    /// The byte in memory at DE.
    DE,
    /// The byte in memory at HL.
    HL,
    /// The byte in memory at HL; HL is decremented.
    HLMinus,
    /// The byte in memory at HL; HL is incremented.
    HLPlus,
    /// The byte in memory at the address that follows in the instruction stream.
    NN,
    /// The byte in memory at 0xFF00 + C.
    CHigh,
    /// The byte in memory at 0xFF00 + the byte that follows in the instruction stream.
    NHigh,
}

impl In8 {
    pub open spec fn of_register(value: Register) -> In8 {
        match value {
            Register::A => In8::A,
            Register::B => In8::B,
            Register::C => In8::C,
            Register::D => In8::D,
            Register::E => In8::E,
            Register::H => In8::H,
            Register::L => In8::L,
            Register::HL => In8::HL,
        }
    }

    pub open spec fn of_indirect(value: Indirect) -> In8 {
        match value {
            Indirect::BC => In8::BC,
            Indirect::DE => In8::DE,
            Indirect::FFPlusC => In8::CHigh,
            Indirect::FFPlusN => In8::NHigh,
            Indirect::HLMinus => In8::HLMinus,
            Indirect::HLPlus => In8::HLPlus,
            Indirect::NN => In8::NN,
        }
    }

    pub open spec fn of_alu_arg(value: AluArg) -> In8 {
        match value {
            AluArg::Register(register) => In8::of_register(register),
            AluArg::ImmediateU8 => In8::N,
        }
    }
}

impl From<Register> for In8 {
    fn from(value: Register) -> (r: In8) {
        match value {
            Register::A => In8::A,
            Register::B => In8::B,
            Register::C => In8::C,
            Register::D => In8::D,
            Register::E => In8::E,
            Register::H => In8::H,
            Register::L => In8::L,
            Register::HL => In8::HL,
        }
    }
}

impl FromSpecImpl<Register> for In8 {
    open spec fn obeys_from_spec() -> bool {
        true
    }

    open spec fn from_spec(value: Register) -> In8 {
        In8::of_register(value)
    }
}

impl From<Indirect> for In8 {
    fn from(value: Indirect) -> (r: In8) {
        match value {
            Indirect::BC => In8::BC,
            Indirect::DE => In8::DE,
            Indirect::FFPlusC => In8::CHigh,
            Indirect::FFPlusN => In8::NHigh,
            Indirect::HLMinus => In8::HLMinus,
            Indirect::HLPlus => In8::HLPlus,
            Indirect::NN => In8::NN,
        }
    }
}

impl FromSpecImpl<Indirect> for In8 {
    open spec fn obeys_from_spec() -> bool {
        true
    }

    open spec fn from_spec(value: Indirect) -> In8 {
        In8::of_indirect(value)
    }
}

impl From<AluArg> for In8 {
    fn from(value: AluArg) -> (r: In8) {
        match value {
            AluArg::Register(register) => In8::from(register),
            AluArg::ImmediateU8 => In8::N,
        }
    }
}

impl FromSpecImpl<AluArg> for In8 {
    open spec fn obeys_from_spec() -> bool {
        true
    }

    open spec fn from_spec(value: AluArg) -> In8 {
        In8::of_alu_arg(value)
    }
}

/// The destination of a byte.
#[derive(Copy, Clone, Debug)]
pub enum Out8 {
    A,
    B,
    C,
    D,
    E,
    H,
    L,
    /// The byte in memory at BC.
    BC,
    /// The byte in memory at DE.
    DE,
    /// The byte in memory at HL.
    HL,
    /// The byte in memory at HL; HL is decremented.
    HLMinus,
    /// The byte in memory at HL; HL is incremented.
    HLPlus,
    /// The byte in memory at the address that follows in the instruction stream.
    NN,
    /// The byte in memory at 0xFF00 + C.
    CHigh,
    /// The byte in memory at 0xFF00 + the byte that follows in the instruction stream.
    NHigh,
}

impl Out8 {
    pub open spec fn of_register(value: Register) -> Out8 {
        match value {
            Register::A => Out8::A,
            Register::B => Out8::B,
            Register::C => Out8::C,
            Register::D => Out8::D,
            Register::E => Out8::E,
            Register::H => Out8::H,
            Register::L => Out8::L,
            Register::HL => Out8::HL,
        }
    }

    pub open spec fn of_indirect(value: Indirect) -> Out8 {
        match value {
            Indirect::BC => Out8::BC,
            Indirect::DE => Out8::DE,
            Indirect::FFPlusC => Out8::CHigh,
            Indirect::FFPlusN => Out8::NHigh,
            Indirect::HLMinus => Out8::HLMinus,
            Indirect::HLPlus => Out8::HLPlus,
            Indirect::NN => Out8::NN,
        }
    }
}

impl From<Register> for Out8 {
    fn from(value: Register) -> (r: Out8) {
        match value {
            Register::A => Out8::A,
            Register::B => Out8::B,
            Register::C => Out8::C,
            Register::D => Out8::D,
            Register::E => Out8::E,
            Register::H => Out8::H,
            Register::L => Out8::L,
            Register::HL => Out8::HL,
        }
    }
}

impl FromSpecImpl<Register> for Out8 {
    open spec fn obeys_from_spec() -> bool {
        true
    }

    open spec fn from_spec(value: Register) -> Out8 {
        Out8::of_register(value)
    }
}

impl From<Indirect> for Out8 {
    fn from(value: Indirect) -> (r: Out8) {
        match value {
            Indirect::BC => Out8::BC,
            Indirect::DE => Out8::DE,
            Indirect::FFPlusC => Out8::CHigh,
            Indirect::FFPlusN => Out8::NHigh,
            Indirect::HLMinus => Out8::HLMinus,
            Indirect::HLPlus => Out8::HLPlus,
            Indirect::NN => Out8::NN,
        }
    }
}

impl FromSpecImpl<Indirect> for Out8 {
    open spec fn obeys_from_spec() -> bool {
        true
    }

    open spec fn from_spec(value: Indirect) -> Out8 {
        Out8::of_indirect(value)
    }
}

/// The source of a 16-bit word.
#[derive(Copy, Clone, Debug)]
pub enum In16 {
    AF,
    BC,
    DE,
    HL,
    /// The word that follows in the instruction stream, low byte first.
    NN,
    SP,
}

impl In16 {
    pub open spec fn of_pair_af(value: RegisterPairAF) -> In16 {
        match value {
            RegisterPairAF::AF => In16::AF,
            RegisterPairAF::BC => In16::BC,
            RegisterPairAF::DE => In16::DE,
            RegisterPairAF::HL => In16::HL,
        }
    }

    pub open spec fn of_pair_sp(value: RegisterPairSP) -> In16 {
        match value {
            RegisterPairSP::BC => In16::BC,
            RegisterPairSP::DE => In16::DE,
            RegisterPairSP::HL => In16::HL,
            RegisterPairSP::SP => In16::SP,
        }
    }
}

impl From<RegisterPairAF> for In16 {
    fn from(value: RegisterPairAF) -> (r: In16) {
        match value {
            RegisterPairAF::AF => In16::AF,
            RegisterPairAF::BC => In16::BC,
            RegisterPairAF::DE => In16::DE,
            RegisterPairAF::HL => In16::HL,
        }
    }
}

impl FromSpecImpl<RegisterPairAF> for In16 {
    open spec fn obeys_from_spec() -> bool {
        true
    }

    open spec fn from_spec(value: RegisterPairAF) -> In16 {
        In16::of_pair_af(value)
    }
}

impl From<RegisterPairSP> for In16 {
    fn from(value: RegisterPairSP) -> (r: In16) {
        match value {
            RegisterPairSP::BC => In16::BC,
            RegisterPairSP::DE => In16::DE,
            RegisterPairSP::HL => In16::HL,
            RegisterPairSP::SP => In16::SP,
        }
    }
}

impl FromSpecImpl<RegisterPairSP> for In16 {
    open spec fn obeys_from_spec() -> bool {
        true
    }

    open spec fn from_spec(value: RegisterPairSP) -> In16 {
        In16::of_pair_sp(value)
    }
}

/// The destination of a 16-bit word.
#[derive(Copy, Clone, Debug)]
pub enum Out16 {
    AF,
    BC,
    DE,
    HL,
    /// The two bytes in memory at the address that follows in the instruction
    /// stream, low byte first.
    NN,
    SP,
}

impl Out16 {
    pub open spec fn of_pair_af(value: RegisterPairAF) -> Out16 {
        match value {
            RegisterPairAF::AF => Out16::AF,
            RegisterPairAF::BC => Out16::BC,
            RegisterPairAF::DE => Out16::DE,
            RegisterPairAF::HL => Out16::HL,
        }
    }

    pub open spec fn of_pair_sp(value: RegisterPairSP) -> Out16 {
        match value {
            RegisterPairSP::BC => Out16::BC,
            RegisterPairSP::DE => Out16::DE,
            RegisterPairSP::HL => Out16::HL,
            RegisterPairSP::SP => Out16::SP,
        }
    }
}

impl From<RegisterPairAF> for Out16 {
    fn from(value: RegisterPairAF) -> (r: Out16) {
        match value {
            RegisterPairAF::AF => Out16::AF,
            RegisterPairAF::BC => Out16::BC,
            RegisterPairAF::DE => Out16::DE,
            RegisterPairAF::HL => Out16::HL,
        }
    }
}

impl FromSpecImpl<RegisterPairAF> for Out16 {
    open spec fn obeys_from_spec() -> bool {
        true
    }

    open spec fn from_spec(value: RegisterPairAF) -> Out16 {
        Out16::of_pair_af(value)
    }
}

impl From<RegisterPairSP> for Out16 {
    fn from(value: RegisterPairSP) -> (r: Out16) {
        match value {
            RegisterPairSP::BC => Out16::BC,
            RegisterPairSP::DE => Out16::DE,
            RegisterPairSP::HL => Out16::HL,
            RegisterPairSP::SP => Out16::SP,
        }
    }
}

impl FromSpecImpl<RegisterPairSP> for Out16 {
    open spec fn obeys_from_spec() -> bool {
        true
    }

    open spec fn from_spec(value: RegisterPairSP) -> Out16 {
        Out16::of_pair_sp(value)
    }
}

} // verus!
