//! The instruction set and its two decoders: the primary table and the table
//! behind the 0xCB prefix.

use vstd::prelude::*;

verus! {

/// The arithmetic and logic operations that the primary table reaches through
/// bits 5..3 of an opcode.
#[derive(Clone, Copy, Debug, PartialEq, Eq)]
enum AluOp {
    ADD,
    ADC,
    SUB,
    SBC,
    AND,
    XOR,
    OR,
    CP,
}

impl AluOp {
    fn try_from(value: u8) -> (r: Result<AluOp, &'static str>)
        ensures
            value < 8 <==> r is Ok,
            value >= 8 ==> r == Err::<AluOp, &'static str>("invalid alu op"),
            r matches Ok(op) ==> value == match op {
                AluOp::ADD => 0u8,
                AluOp::ADC => 1,
                AluOp::SUB => 2,
                AluOp::SBC => 3,
                AluOp::AND => 4,
                AluOp::XOR => 5,
                AluOp::OR => 6,
                AluOp::CP => 7,
            },
    {
        match value {
            0 => Ok(AluOp::ADD),
            1 => Ok(AluOp::ADC),
            2 => Ok(AluOp::SUB),
            3 => Ok(AluOp::SBC),
            4 => Ok(AluOp::AND),
            5 => Ok(AluOp::XOR),
            6 => Ok(AluOp::OR),
            7 => Ok(AluOp::CP),
            _ => Err("invalid alu op"),
        }
    }
}

#[derive(Clone, Copy, Debug, PartialEq, Eq)]
pub enum Condition {
    NonZero,
    Zero,
    NonCarry,
    Carry,
}

impl Condition {
    /// The condition that the number `index` stands for in an opcode.
    pub open spec fn at(index: int) -> Condition {
        if index == 0 {
            Condition::NonZero
        } else if index == 1 {
            Condition::Zero
        } else if index == 2 {
            Condition::NonCarry
        } else {
            Condition::Carry
        }
    }

    pub fn try_from(value: u8) -> (r: Result<Condition, &'static str>)
        ensures
            value < 4 ==> r == Ok::<Condition, &'static str>(Condition::at(value as int)),
            value >= 4 ==> r == Err::<Condition, &'static str>("invalid condition"),
    {
        match value {
            0 => Ok(Condition::NonZero),
            1 => Ok(Condition::Zero),
            2 => Ok(Condition::NonCarry),
            3 => Ok(Condition::Carry),
            _ => Err("invalid condition"),
        }
    }
}

/// An 8-bit operand that an opcode names by a 3-bit number. `HL` stands for
/// the byte in memory at the address in HL.
#[derive(Clone, Copy, Debug, PartialEq, Eq)]
pub enum Register {
    B,
    C,
    D,
    E,
    H,
    L,
    HL,
    A,
}

impl Register {
    /// The operand that the number `index` stands for in an opcode.
    pub open spec fn at(index: int) -> Register {
        if index == 0 {
            Register::B
        } else if index == 1 {
            Register::C
        } else if index == 2 {
            Register::D
        } else if index == 3 {
            Register::E
        } else if index == 4 {
            Register::H
        } else if index == 5 {
            Register::L
        } else if index == 6 {
            Register::HL
        } else {
            Register::A
        }
    }

    pub fn try_from(value: u8) -> (r: Result<Register, &'static str>)
        ensures
            value < 8 ==> r == Ok::<Register, &'static str>(Register::at(value as int)),
            value >= 8 ==> r == Err::<Register, &'static str>("invalid register"),
    {
        match value {
            0 => Ok(Register::B),
            1 => Ok(Register::C),
            2 => Ok(Register::D),
            3 => Ok(Register::E),
            4 => Ok(Register::H),
            5 => Ok(Register::L),
            6 => Ok(Register::HL),
            7 => Ok(Register::A),
            _ => Err("invalid register"),
        }
    }
}

/// A register pair in the instructions that can name SP.
#[derive(Clone, Copy, Debug, PartialEq, Eq)]
pub enum RegisterPairSP {
    BC,
    DE,
    HL,
    SP,
}

impl RegisterPairSP {
    /// The pair that the number `index` stands for in an opcode.
    pub open spec fn at(index: int) -> RegisterPairSP {
        if index == 0 {
            RegisterPairSP::BC
        } else if index == 1 {
            RegisterPairSP::DE
        } else if index == 2 {
            RegisterPairSP::HL
        } else {
            RegisterPairSP::SP
        }
    }

    pub fn try_from(value: u8) -> (r: Result<RegisterPairSP, &'static str>)
        ensures
            value < 4 ==> r == Ok::<RegisterPairSP, &'static str>(RegisterPairSP::at(value as int)),
            value >= 4 ==> r == Err::<RegisterPairSP, &'static str>("invalid register pair"),
    {
        match value {
            0 => Ok(RegisterPairSP::BC),
            1 => Ok(RegisterPairSP::DE),
            2 => Ok(RegisterPairSP::HL),
            3 => Ok(RegisterPairSP::SP),
            _ => Err("invalid register pair"),
        }
    }
}

/// A register pair in PUSH and POP, which can name AF.
#[derive(Clone, Copy, Debug, PartialEq, Eq)]
pub enum RegisterPairAF {
    BC,
    DE,
    HL,
    AF,
}

impl RegisterPairAF {
    /// The pair that the number `index` stands for in an opcode.
    pub open spec fn at(index: int) -> RegisterPairAF {
        if index == 0 {
            RegisterPairAF::BC
        } else if index == 1 {
            RegisterPairAF::DE
        } else if index == 2 {
            RegisterPairAF::HL
        } else {
            RegisterPairAF::AF
        }
    }

    pub fn try_from(value: u8) -> (r: Result<RegisterPairAF, &'static str>)
        ensures
            value < 4 ==> r == Ok::<RegisterPairAF, &'static str>(RegisterPairAF::at(value as int)),
            value >= 4 ==> r == Err::<RegisterPairAF, &'static str>("invalid register pair"),
    {
        match value {
            0 => Ok(RegisterPairAF::BC),
            1 => Ok(RegisterPairAF::DE),
            2 => Ok(RegisterPairAF::HL),
            3 => Ok(RegisterPairAF::AF),
            _ => Err("invalid register pair"),
        }
    }
}

/// The rotations and shifts behind the prefix, by bits 5..3 of the opcode.
#[derive(Clone, Copy, Debug, PartialEq, Eq)]
enum Rotation {
    RLC,
    RRC,
    RL,
    RR,
    SLA,
    SRA,
    SWAP,
    SRL,
}

impl Rotation {
    fn try_from(value: u8) -> (r: Result<Rotation, &'static str>)
        ensures
            value < 8 <==> r is Ok,
            value >= 8 ==> r == Err::<Rotation, &'static str>("invalid rotation"),
            r matches Ok(rotation) ==> value == match rotation {
                Rotation::RLC => 0u8,
                Rotation::RRC => 1,
                Rotation::RL => 2,
                Rotation::RR => 3,
                Rotation::SLA => 4,
                Rotation::SRA => 5,
                Rotation::SWAP => 6,
                Rotation::SRL => 7,
            },
    {
        match value {
            0 => Ok(Rotation::RLC),
            1 => Ok(Rotation::RRC),
            2 => Ok(Rotation::RL),
            3 => Ok(Rotation::RR),
            4 => Ok(Rotation::SLA),
            5 => Ok(Rotation::SRA),
            6 => Ok(Rotation::SWAP),
            7 => Ok(Rotation::SRL),
            _ => Err("invalid rotation"),
        }
    }
}

#[derive(Clone, Copy, Debug, PartialEq, Eq)]
pub enum AluArg {
    Register(Register),
    ImmediateU8,
}

impl From<Register> for AluArg {
    fn from(value: Register) -> (r: AluArg)
        ensures
            r == AluArg::Register(value),
    {
        AluArg::Register(value)
    }
}

impl vstd::std_specs::convert::FromSpecImpl<Register> for AluArg {
    open spec fn obeys_from_spec() -> bool {
        true
    }

    open spec fn from_spec(value: Register) -> AluArg {
        AluArg::Register(value)
    }
}

#[derive(Clone, Copy, Debug, PartialEq, Eq)]
pub enum AddArg {
    Register(Register),
    RegisterPairSP(RegisterPairSP),
    SPd,
    ImmediateU8,
}

#[derive(Clone, Copy, Debug, PartialEq, Eq)]
pub enum IncDecArg {
    Register(Register),
    RegisterPairSP(RegisterPairSP),
}

/// A byte in memory, named by the way its address is formed.
#[derive(Clone, Copy, Debug, PartialEq, Eq)]
pub enum Indirect {
    BC,
    DE,
    HLPlus,
    HLMinus,
    NN,
    FFPlusN,
    FFPlusC,
}

#[derive(Clone, Copy, Debug, PartialEq, Eq)]
pub enum LoadArgs {
    RegisterToRegister(Register, Register),
    RegisterFromImmediateU8(Register),
    RegisterPairFromImmediateU16(RegisterPairSP),
    AFromIndirect(Indirect),
    IndirectFromA(Indirect),
    SPHL,
    HLSPd,
    NNSP,
}

#[derive(Clone, Copy, Debug, PartialEq, Eq)]
pub enum Instruction {
    ADC(AluArg),
    ADD(AddArg),
    AND(AluArg),
    CALL(Option<Condition>),
    CCF,
    CP(AluArg),
    CPL,
    DAA,
    DEC(IncDecArg),
    DI,
    EI,
    HALT,
    INC(IncDecArg),
    JPHL,
    JP(Option<Condition>),
    JR(Option<Condition>),
    LD(LoadArgs),
    NOP,
    OR(AluArg),
    POP(RegisterPairAF),
    PUSH(RegisterPairAF),
    RET(Option<Condition>),
    RETI,
    RLA,
    RLCA,
    RRA,
    RRCA,
    RST(u16),
    SBC(AluArg),
    SCF,
    STOP,
    SUB(AluArg),
    XOR(AluArg),
    // Behind the 0xCB prefix
    BIT(u8, Register),
    RES(u8, Register),
    RL(Register),
    RLC(Register),
    RR(Register),
    RRC(Register),
    SET(u8, Register),
    SLA(Register),
    SRA(Register),
    SRL(Register),
    SWAP(Register),
}

/// The arithmetic or logic instruction number `y` on the operand `register`.
pub open spec fn alu_on_register(y: int, register: Register) -> Instruction {
    if y == 0 {
        Instruction::ADD(AddArg::Register(register))
    } else if y == 1 {
        Instruction::ADC(AluArg::Register(register))
    } else if y == 2 {
        Instruction::SUB(AluArg::Register(register))
    } else if y == 3 {
        Instruction::SBC(AluArg::Register(register))
    } else if y == 4 {
        Instruction::AND(AluArg::Register(register))
    } else if y == 5 {
        Instruction::XOR(AluArg::Register(register))
    } else if y == 6 {
        Instruction::OR(AluArg::Register(register))
    } else {
        Instruction::CP(AluArg::Register(register))
    }
}

/// The arithmetic or logic instruction number `y` on the byte that follows
/// the opcode.
pub open spec fn alu_on_immediate(y: int) -> Instruction {
    if y == 0 {
        Instruction::ADD(AddArg::ImmediateU8)
    } else if y == 1 {
        Instruction::ADC(AluArg::ImmediateU8)
    } else if y == 2 {
        Instruction::SUB(AluArg::ImmediateU8)
    } else if y == 3 {
        Instruction::SBC(AluArg::ImmediateU8)
    } else if y == 4 {
        Instruction::AND(AluArg::ImmediateU8)
    } else if y == 5 {
        Instruction::XOR(AluArg::ImmediateU8)
    } else if y == 6 {
        Instruction::OR(AluArg::ImmediateU8)
    } else {
        Instruction::CP(AluArg::ImmediateU8)
    }
}

/// The byte that a load through BC, DE, HL+ or HL- addresses, by bits 5..4
/// of the opcode.
pub open spec fn indirect_at(p: int) -> Indirect {
    if p == 0 {
        Indirect::BC
    } else if p == 1 {
        Indirect::DE
    } else if p == 2 {
        Indirect::HLPlus
    } else {
        Indirect::HLMinus
    }
}

/// The opcodes 0x00 to 0x3F, by their fields.
pub open spec fn decoded_low(y: int, z: int, p: int, q: int) -> Instruction {
    if z == 0 {
        if y == 0 {
            Instruction::NOP
        } else if y == 1 {
            Instruction::LD(LoadArgs::NNSP)
        } else if y == 2 {
            Instruction::STOP
        } else if y == 3 {
            Instruction::JR(None)
        } else {
            Instruction::JR(Some(Condition::at(y - 4)))
        }
    } else if z == 1 {
        if q == 0 {
            Instruction::LD(LoadArgs::RegisterPairFromImmediateU16(RegisterPairSP::at(p)))
        } else {
            Instruction::ADD(AddArg::RegisterPairSP(RegisterPairSP::at(p)))
        }
    } else if z == 2 {
        if q == 0 {
            Instruction::LD(LoadArgs::IndirectFromA(indirect_at(p)))
        } else {
            Instruction::LD(LoadArgs::AFromIndirect(indirect_at(p)))
        }
    } else if z == 3 {
        if q == 0 {
            Instruction::INC(IncDecArg::RegisterPairSP(RegisterPairSP::at(p)))
        } else {
            Instruction::DEC(IncDecArg::RegisterPairSP(RegisterPairSP::at(p)))
        }
    } else if z == 4 {
        Instruction::INC(IncDecArg::Register(Register::at(y)))
    } else if z == 5 {
        Instruction::DEC(IncDecArg::Register(Register::at(y)))
    } else if z == 6 {
        Instruction::LD(LoadArgs::RegisterFromImmediateU8(Register::at(y)))
    } else {
        if y == 0 {
            Instruction::RLCA
        } else if y == 1 {
            Instruction::RRCA
        } else if y == 2 {
            Instruction::RLA
        } else if y == 3 {
            Instruction::RRA
        } else if y == 4 {
            Instruction::DAA
        } else if y == 5 {
            Instruction::CPL
        } else if y == 6 {
            Instruction::SCF
        } else {
            Instruction::CCF
        }
    }
}

/// The opcodes 0xC0 to 0xFF, by their fields. `None` stands for the prefix
/// 0xCB and for the eleven opcodes that have no instruction.
pub open spec fn decoded_high(y: int, z: int, p: int, q: int) -> Option<Instruction> {
    if z == 0 {
        Some(
            if y < 4 {
                Instruction::RET(Some(Condition::at(y)))
            } else if y == 4 {
                Instruction::LD(LoadArgs::IndirectFromA(Indirect::FFPlusN))
            } else if y == 5 {
                Instruction::ADD(AddArg::SPd)
            } else if y == 6 {
                Instruction::LD(LoadArgs::AFromIndirect(Indirect::FFPlusN))
            } else {
                Instruction::LD(LoadArgs::HLSPd)
            },
        )
    } else if z == 1 {
        Some(
            if q == 0 {
                Instruction::POP(RegisterPairAF::at(p))
            } else if p == 0 {
                Instruction::RET(None)
            } else if p == 1 {
                Instruction::RETI
            } else if p == 2 {
                Instruction::JPHL
            } else {
                Instruction::LD(LoadArgs::SPHL)
            },
        )
    } else if z == 2 {
        Some(
            if y < 4 {
                Instruction::JP(Some(Condition::at(y)))
            } else if y == 4 {
                Instruction::LD(LoadArgs::IndirectFromA(Indirect::FFPlusC))
            } else if y == 5 {
                Instruction::LD(LoadArgs::IndirectFromA(Indirect::NN))
            } else if y == 6 {
                Instruction::LD(LoadArgs::AFromIndirect(Indirect::FFPlusC))
            } else {
                Instruction::LD(LoadArgs::AFromIndirect(Indirect::NN))
            },
        )
    } else if z == 3 {
        if y == 0 {
            Some(Instruction::JP(None))
        } else if y == 6 {
            Some(Instruction::DI)
        } else if y == 7 {
            Some(Instruction::EI)
        } else {
            None
        }
    } else if z == 4 {
        if y < 4 {
            Some(Instruction::CALL(Some(Condition::at(y))))
        } else {
            None
        }
    } else if z == 5 {
        if q == 0 {
            Some(Instruction::PUSH(RegisterPairAF::at(p)))
        } else if p == 0 {
            Some(Instruction::CALL(None))
        } else {
            None
        }
    } else if z == 6 {
        Some(alu_on_immediate(y))
    } else {
        Some(Instruction::RST((y * 8) as u16))
    }
}

/// The opcodes that have no instruction.
pub open spec fn is_invalid_opcode(opcode: u8) -> bool {
    opcode == 0xD3 || opcode == 0xDB || opcode == 0xDD || opcode == 0xE3 || opcode == 0xE4
        || opcode == 0xEB || opcode == 0xEC || opcode == 0xED || opcode == 0xF4 || opcode == 0xFC
        || opcode == 0xFD
}

/// The instruction of a primary opcode, by its fields x = bits 7..6,
/// y = bits 5..3, z = bits 2..0, p = bits 5..4 and q = bit 3.
pub open spec fn decoded(opcode: u8) -> Option<Instruction> {
    let x = opcode as int / 64;
    let y = (opcode as int / 8) % 8;
    let z = opcode as int % 8;
    let p = (opcode as int / 16) % 4;
    let q = (opcode as int / 8) % 2;
    if x == 0 {
        Some(decoded_low(y, z, p, q))
    } else if x == 1 {
        if opcode == 0x76 {
            Some(Instruction::HALT)
        } else {
            Some(Instruction::LD(LoadArgs::RegisterToRegister(Register::at(y), Register::at(z))))
        }
    } else if x == 2 {
        Some(alu_on_register(y, Register::at(z)))
    } else {
        decoded_high(y, z, p, q)
    }
}

/// The instruction of an opcode that follows the prefix 0xCB.
pub open spec fn decoded_prefixed(opcode: u8) -> Instruction {
    let x = opcode as int / 64;
    let y = (opcode as int / 8) % 8;
    let register = Register::at(opcode as int % 8);
    if x == 0 {
        if y == 0 {
            Instruction::RLC(register)
        } else if y == 1 {
            Instruction::RRC(register)
        } else if y == 2 {
            Instruction::RL(register)
        } else if y == 3 {
            Instruction::RR(register)
        } else if y == 4 {
            Instruction::SLA(register)
        } else if y == 5 {
            Instruction::SRA(register)
        } else if y == 6 {
            Instruction::SWAP(register)
        } else {
            Instruction::SRL(register)
        }
    } else if x == 1 {
        Instruction::BIT(y as u8, register)
    } else if x == 2 {
        Instruction::RES(y as u8, register)
    } else {
        Instruction::SET(y as u8, register)
    }
}

proof fn lemma_opcode_fields(opcode: u8)
    by (bit_vector)
    ensures
        (opcode & 0xC0) >> 6 == (opcode / 64) as u8,
        (opcode & 0x38) >> 3 == ((opcode / 8) % 8) as u8,
        opcode & 0x07 == (opcode % 8) as u8,
        (opcode & 0x30) >> 4 == ((opcode / 16) % 4) as u8,
        (opcode & 0x08 != 0) == ((opcode / 8) % 2 == 1),
{
}

impl Instruction {
    /// Whether a bit instruction names one of the eight bits of a byte. Every
    /// other instruction is well formed.
    pub open spec fn well_formed(self) -> bool {
        match self {
            Instruction::BIT(bit, _) => bit < 8,
            Instruction::RES(bit, _) => bit < 8,
            Instruction::SET(bit, _) => bit < 8,
            _ => true,
        }
    }

    /// Decodes a primary opcode. The prefix 0xCB gives the error "CB"; the
    /// eleven opcodes without an instruction give the empty error; every
    /// other opcode gives its instruction.
    pub fn try_decode(value: u8) -> (r: Result<Instruction, &'static str>)
        ensures
            r is Err <==> value == 0xCB || is_invalid_opcode(value),
            r matches Ok(instruction) ==> decoded(value) == Some(instruction)
                && instruction.well_formed(),
            r is Err ==> decoded(value) is None,
            value == 0xCB ==> r == Err::<Instruction, &'static str>("CB"),
            is_invalid_opcode(value) ==> r == Err::<Instruction, &'static str>(""),
    {
        proof {
            lemma_opcode_fields(value);
        }
        let x = (value & 0b1100_0000) >> 6;
        let y = (value & 0b0011_1000) >> 3;
        let z = value & 0b0000_0111;
        let p = (value & 0b0011_0000) >> 4;
        let q: u8 = if (value & 0b0000_1000) != 0 { 1 } else { 0 };
        match x {
            0 => Self::decode_low(y, z, p, q),
            1 => if z == 6 && y == 6 {
                Ok(Instruction::HALT)
            } else {
                match (Register::try_from(y), Register::try_from(z)) {
                    (Ok(to), Ok(from)) => Ok(
                        Instruction::LD(LoadArgs::RegisterToRegister(to, from)),
                    ),
                    (Err(e), _) => Err(e),
                    (_, Err(e)) => Err(e),
                }
            },
            2 => match (AluOp::try_from(y), Register::try_from(z)) {
                (Ok(op), Ok(register)) => Ok(
                    match op {
                        AluOp::ADD => Instruction::ADD(AddArg::Register(register)),
                        AluOp::ADC => Instruction::ADC(AluArg::Register(register)),
                        AluOp::SUB => Instruction::SUB(AluArg::Register(register)),
                        AluOp::SBC => Instruction::SBC(AluArg::Register(register)),
                        AluOp::AND => Instruction::AND(AluArg::Register(register)),
                        AluOp::XOR => Instruction::XOR(AluArg::Register(register)),
                        AluOp::OR => Instruction::OR(AluArg::Register(register)),
                        AluOp::CP => Instruction::CP(AluArg::Register(register)),
                    },
                ),
                (Err(e), _) => Err(e),
                (_, Err(e)) => Err(e),
            },
            _ => Self::decode_high(y, z, p, q),
        }
    }

    fn decode_low(y: u8, z: u8, p: u8, q: u8) -> (r: Result<Instruction, &'static str>)
        requires
            y < 8,
            z < 8,
            p == y / 2,
            q == y % 2,
        ensures
            r == Ok::<Instruction, &'static str>(decoded_low(y as int, z as int, p as int, q as int)),
    {
        match z {
            0 => match y {
                0 => Ok(Instruction::NOP),
                1 => Ok(Instruction::LD(LoadArgs::NNSP)),
                2 => Ok(Instruction::STOP),
                3 => Ok(Instruction::JR(None)),
                _ => match Condition::try_from(y - 4) {
                    Ok(condition) => Ok(Instruction::JR(Some(condition))),
                    Err(e) => Err(e),
                },
            },
            1 => match RegisterPairSP::try_from(p) {
                Ok(pair) => if q == 0 {
                    Ok(Instruction::LD(LoadArgs::RegisterPairFromImmediateU16(pair)))
                } else {
                    Ok(Instruction::ADD(AddArg::RegisterPairSP(pair)))
                },
                Err(e) => Err(e),
            },
            2 => {
                let indirect = match p {
                    0 => Indirect::BC,
                    1 => Indirect::DE,
                    2 => Indirect::HLPlus,
                    _ => Indirect::HLMinus,
                };
                if q == 0 {
                    Ok(Instruction::LD(LoadArgs::IndirectFromA(indirect)))
                } else {
                    Ok(Instruction::LD(LoadArgs::AFromIndirect(indirect)))
                }
            },
            3 => match RegisterPairSP::try_from(p) {
                Ok(pair) => if q == 0 {
                    Ok(Instruction::INC(IncDecArg::RegisterPairSP(pair)))
                } else {
                    Ok(Instruction::DEC(IncDecArg::RegisterPairSP(pair)))
                },
                Err(e) => Err(e),
            },
            4 => match Register::try_from(y) {
                Ok(register) => Ok(Instruction::INC(IncDecArg::Register(register))),
                Err(e) => Err(e),
            },
            5 => match Register::try_from(y) {
                Ok(register) => Ok(Instruction::DEC(IncDecArg::Register(register))),
                Err(e) => Err(e),
            },
            6 => match Register::try_from(y) {
                Ok(register) => Ok(Instruction::LD(LoadArgs::RegisterFromImmediateU8(register))),
                Err(e) => Err(e),
            },
            _ => match y {
                0 => Ok(Instruction::RLCA),
                1 => Ok(Instruction::RRCA),
                2 => Ok(Instruction::RLA),
                3 => Ok(Instruction::RRA),
                4 => Ok(Instruction::DAA),
                5 => Ok(Instruction::CPL),
                6 => Ok(Instruction::SCF),
                _ => Ok(Instruction::CCF),
            },
        }
    }

    fn decode_high(y: u8, z: u8, p: u8, q: u8) -> (r: Result<Instruction, &'static str>)
        requires
            y < 8,
            z < 8,
            p == y / 2,
            q == y % 2,
        ensures
            match decoded_high(y as int, z as int, p as int, q as int) {
                Some(instruction) => r == Ok::<Instruction, &'static str>(instruction),
                None => if z == 3 && y == 1 {
                    r == Err::<Instruction, &'static str>("CB")
                } else {
                    r == Err::<Instruction, &'static str>("")
                },
            },
    {
        match z {
            0 => match y {
                4 => Ok(Instruction::LD(LoadArgs::IndirectFromA(Indirect::FFPlusN))),
                5 => Ok(Instruction::ADD(AddArg::SPd)),
                6 => Ok(Instruction::LD(LoadArgs::AFromIndirect(Indirect::FFPlusN))),
                7 => Ok(Instruction::LD(LoadArgs::HLSPd)),
                _ => match Condition::try_from(y) {
                    Ok(condition) => Ok(Instruction::RET(Some(condition))),
                    Err(e) => Err(e),
                },
            },
            1 => if q == 0 {
                match RegisterPairAF::try_from(p) {
                    Ok(pair) => Ok(Instruction::POP(pair)),
                    Err(e) => Err(e),
                }
            } else {
                match p {
                    0 => Ok(Instruction::RET(None)),
                    1 => Ok(Instruction::RETI),
                    2 => Ok(Instruction::JPHL),
                    _ => Ok(Instruction::LD(LoadArgs::SPHL)),
                }
            },
            2 => match y {
                4 => Ok(Instruction::LD(LoadArgs::IndirectFromA(Indirect::FFPlusC))),
                5 => Ok(Instruction::LD(LoadArgs::IndirectFromA(Indirect::NN))),
                6 => Ok(Instruction::LD(LoadArgs::AFromIndirect(Indirect::FFPlusC))),
                7 => Ok(Instruction::LD(LoadArgs::AFromIndirect(Indirect::NN))),
                _ => match Condition::try_from(y) {
                    Ok(condition) => Ok(Instruction::JP(Some(condition))),
                    Err(e) => Err(e),
                },
            },
            3 => match y {
                0 => Ok(Instruction::JP(None)),
                1 => Err("CB"),
                6 => Ok(Instruction::DI),
                7 => Ok(Instruction::EI),
                _ => Err(""),
            },
            4 => if y < 4 {
                match Condition::try_from(y) {
                    Ok(condition) => Ok(Instruction::CALL(Some(condition))),
                    Err(e) => Err(e),
                }
            } else {
                Err("")
            },
            5 => if q == 0 {
                match RegisterPairAF::try_from(p) {
                    Ok(pair) => Ok(Instruction::PUSH(pair)),
                    Err(e) => Err(e),
                }
            } else if p == 0 {
                Ok(Instruction::CALL(None))
            } else {
                Err("")
            },
            6 => match AluOp::try_from(y) {
                Ok(op) => Ok(
                    match op {
                        AluOp::ADD => Instruction::ADD(AddArg::ImmediateU8),
                        AluOp::ADC => Instruction::ADC(AluArg::ImmediateU8),
                        AluOp::SUB => Instruction::SUB(AluArg::ImmediateU8),
                        AluOp::SBC => Instruction::SBC(AluArg::ImmediateU8),
                        AluOp::AND => Instruction::AND(AluArg::ImmediateU8),
                        AluOp::XOR => Instruction::XOR(AluArg::ImmediateU8),
                        AluOp::OR => Instruction::OR(AluArg::ImmediateU8),
                        AluOp::CP => Instruction::CP(AluArg::ImmediateU8),
                    },
                ),
                Err(e) => Err(e),
            },
            _ => Ok(Instruction::RST((y * 8) as u16)),
        }
    }

    /// Decodes the opcode that follows the prefix 0xCB. Every byte has an
    /// instruction there.
    pub fn try_decode_prefixed(value: u8) -> (r: Result<Instruction, &'static str>)
        ensures
            r == Ok::<Instruction, &'static str>(decoded_prefixed(value)),
            decoded_prefixed(value).well_formed(),
    {
        proof {
            lemma_opcode_fields(value);
        }
        let x = (value & 0b1100_0000) >> 6;
        let y = (value & 0b0011_1000) >> 3;
        let z = value & 0b0000_0111;
        match Register::try_from(z) {
            Ok(register) => match x {
                0 => match Rotation::try_from(y) {
                    Ok(rotation) => Ok(
                        match rotation {
                            Rotation::RLC => Instruction::RLC(register),
                            Rotation::RRC => Instruction::RRC(register),
                            Rotation::RL => Instruction::RL(register),
                            Rotation::RR => Instruction::RR(register),
                            Rotation::SLA => Instruction::SLA(register),
                            Rotation::SRA => Instruction::SRA(register),
                            Rotation::SWAP => Instruction::SWAP(register),
                            Rotation::SRL => Instruction::SRL(register),
                        },
                    ),
                    Err(e) => Err(e),
                },
                1 => Ok(Instruction::BIT(y, register)),
                2 => Ok(Instruction::RES(y, register)),
                _ => Ok(Instruction::SET(y, register)),
            },
            Err(e) => Err(e),
        }
    }
}

} // verus!
