use gb::cpu::instructions::{
    AddArg, AluArg, Condition, IncDecArg, Indirect, Instruction, LoadArgs, Register,
    RegisterPairAF, RegisterPairSP,
};

#[test]
fn test_try_decode() {
    let result: Vec<_> = (0..u8::MAX).map(Instruction::try_decode).collect();

    assert_eq!(
        vec![
            Ok(Instruction::NOP),
            Ok(Instruction::LD(LoadArgs::RegisterPairFromImmediateU16(
                RegisterPairSP::BC
            ))),
            Ok(Instruction::LD(LoadArgs::IndirectFromA(Indirect::BC))),
            Ok(Instruction::INC(IncDecArg::RegisterPairSP(RegisterPairSP::BC))),
            Ok(Instruction::INC(IncDecArg::Register(Register::B))),
            Ok(Instruction::DEC(IncDecArg::Register(Register::B))),
            Ok(Instruction::LD(LoadArgs::RegisterFromImmediateU8(Register::B))),
            Ok(Instruction::RLCA),
            Ok(Instruction::LD(LoadArgs::NNSP)),
            Ok(Instruction::ADD(AddArg::RegisterPairSP(RegisterPairSP::BC))),
            Ok(Instruction::LD(LoadArgs::AFromIndirect(Indirect::BC))),
            Ok(Instruction::DEC(IncDecArg::RegisterPairSP(RegisterPairSP::BC))),
            Ok(Instruction::INC(IncDecArg::Register(Register::C))),
            Ok(Instruction::DEC(IncDecArg::Register(Register::C))),
            Ok(Instruction::LD(LoadArgs::RegisterFromImmediateU8(Register::C))),
            Ok(Instruction::RRCA),
            Ok(Instruction::STOP),
            Ok(Instruction::LD(LoadArgs::RegisterPairFromImmediateU16(
                RegisterPairSP::DE
            ))),
            Ok(Instruction::LD(LoadArgs::IndirectFromA(Indirect::DE))),
            Ok(Instruction::INC(IncDecArg::RegisterPairSP(RegisterPairSP::DE))),
            Ok(Instruction::INC(IncDecArg::Register(Register::D))),
            Ok(Instruction::DEC(IncDecArg::Register(Register::D))),
            Ok(Instruction::LD(LoadArgs::RegisterFromImmediateU8(Register::D))),
            Ok(Instruction::RLA),
            Ok(Instruction::JR(None)),
            Ok(Instruction::ADD(AddArg::RegisterPairSP(RegisterPairSP::DE))),
            Ok(Instruction::LD(LoadArgs::AFromIndirect(Indirect::DE))),
            Ok(Instruction::DEC(IncDecArg::RegisterPairSP(RegisterPairSP::DE))),
            Ok(Instruction::INC(IncDecArg::Register(Register::E))),
            Ok(Instruction::DEC(IncDecArg::Register(Register::E))),
            Ok(Instruction::LD(LoadArgs::RegisterFromImmediateU8(Register::E))),
            Ok(Instruction::RRA),
            Ok(Instruction::JR(Some(Condition::NonZero))),
            Ok(Instruction::LD(LoadArgs::RegisterPairFromImmediateU16(
                RegisterPairSP::HL
            ))),
            Ok(Instruction::LD(LoadArgs::IndirectFromA(Indirect::HLPlus))),
            Ok(Instruction::INC(IncDecArg::RegisterPairSP(RegisterPairSP::HL))),
            Ok(Instruction::INC(IncDecArg::Register(Register::H))),
            Ok(Instruction::DEC(IncDecArg::Register(Register::H))),
            Ok(Instruction::LD(LoadArgs::RegisterFromImmediateU8(Register::H))),
            Ok(Instruction::DAA),
            Ok(Instruction::JR(Some(Condition::Zero))),
            Ok(Instruction::ADD(AddArg::RegisterPairSP(RegisterPairSP::HL))),
            Ok(Instruction::LD(LoadArgs::AFromIndirect(Indirect::HLPlus))),
            Ok(Instruction::DEC(IncDecArg::RegisterPairSP(RegisterPairSP::HL))),
            Ok(Instruction::INC(IncDecArg::Register(Register::L))),
            Ok(Instruction::DEC(IncDecArg::Register(Register::L))),
            Ok(Instruction::LD(LoadArgs::RegisterFromImmediateU8(Register::L))),
            Ok(Instruction::CPL),
            Ok(Instruction::JR(Some(Condition::NonCarry))),
            Ok(Instruction::LD(LoadArgs::RegisterPairFromImmediateU16(
                RegisterPairSP::SP
            ))),
            Ok(Instruction::LD(LoadArgs::IndirectFromA(Indirect::HLMinus))),
            Ok(Instruction::INC(IncDecArg::RegisterPairSP(RegisterPairSP::SP))),
            Ok(Instruction::INC(IncDecArg::Register(Register::HL))),
            Ok(Instruction::DEC(IncDecArg::Register(Register::HL))),
            Ok(Instruction::LD(LoadArgs::RegisterFromImmediateU8(Register::HL))),
            Ok(Instruction::SCF),
            Ok(Instruction::JR(Some(Condition::Carry))),
            Ok(Instruction::ADD(AddArg::RegisterPairSP(RegisterPairSP::SP))),
            Ok(Instruction::LD(LoadArgs::AFromIndirect(Indirect::HLMinus))),
            Ok(Instruction::DEC(IncDecArg::RegisterPairSP(RegisterPairSP::SP))),
            Ok(Instruction::INC(IncDecArg::Register(Register::A))),
            Ok(Instruction::DEC(IncDecArg::Register(Register::A))),
            Ok(Instruction::LD(LoadArgs::RegisterFromImmediateU8(Register::A))),
            Ok(Instruction::CCF),
            Ok(Instruction::LD(LoadArgs::RegisterToRegister(Register::B, Register::B))),
            Ok(Instruction::LD(LoadArgs::RegisterToRegister(Register::B, Register::C))),
            Ok(Instruction::LD(LoadArgs::RegisterToRegister(Register::B, Register::D))),
            Ok(Instruction::LD(LoadArgs::RegisterToRegister(Register::B, Register::E))),
            Ok(Instruction::LD(LoadArgs::RegisterToRegister(Register::B, Register::H))),
            Ok(Instruction::LD(LoadArgs::RegisterToRegister(Register::B, Register::L))),
            Ok(Instruction::LD(LoadArgs::RegisterToRegister(Register::B, Register::HL))),
            Ok(Instruction::LD(LoadArgs::RegisterToRegister(Register::B, Register::A))),
            Ok(Instruction::LD(LoadArgs::RegisterToRegister(Register::C, Register::B))),
            Ok(Instruction::LD(LoadArgs::RegisterToRegister(Register::C, Register::C))),
            Ok(Instruction::LD(LoadArgs::RegisterToRegister(Register::C, Register::D))),
            Ok(Instruction::LD(LoadArgs::RegisterToRegister(Register::C, Register::E))),
            Ok(Instruction::LD(LoadArgs::RegisterToRegister(Register::C, Register::H))),
            Ok(Instruction::LD(LoadArgs::RegisterToRegister(Register::C, Register::L))),
            Ok(Instruction::LD(LoadArgs::RegisterToRegister(Register::C, Register::HL))),
            Ok(Instruction::LD(LoadArgs::RegisterToRegister(Register::C, Register::A))),
            Ok(Instruction::LD(LoadArgs::RegisterToRegister(Register::D, Register::B))),
            Ok(Instruction::LD(LoadArgs::RegisterToRegister(Register::D, Register::C))),
            Ok(Instruction::LD(LoadArgs::RegisterToRegister(Register::D, Register::D))),
            Ok(Instruction::LD(LoadArgs::RegisterToRegister(Register::D, Register::E))),
            Ok(Instruction::LD(LoadArgs::RegisterToRegister(Register::D, Register::H))),
            Ok(Instruction::LD(LoadArgs::RegisterToRegister(Register::D, Register::L))),
            Ok(Instruction::LD(LoadArgs::RegisterToRegister(Register::D, Register::HL))),
            Ok(Instruction::LD(LoadArgs::RegisterToRegister(Register::D, Register::A))),
            Ok(Instruction::LD(LoadArgs::RegisterToRegister(Register::E, Register::B))),
            Ok(Instruction::LD(LoadArgs::RegisterToRegister(Register::E, Register::C))),
            Ok(Instruction::LD(LoadArgs::RegisterToRegister(Register::E, Register::D))),
            Ok(Instruction::LD(LoadArgs::RegisterToRegister(Register::E, Register::E))),
            Ok(Instruction::LD(LoadArgs::RegisterToRegister(Register::E, Register::H))),
            Ok(Instruction::LD(LoadArgs::RegisterToRegister(Register::E, Register::L))),
            Ok(Instruction::LD(LoadArgs::RegisterToRegister(Register::E, Register::HL))),
            Ok(Instruction::LD(LoadArgs::RegisterToRegister(Register::E, Register::A))),
            Ok(Instruction::LD(LoadArgs::RegisterToRegister(Register::H, Register::B))),
            Ok(Instruction::LD(LoadArgs::RegisterToRegister(Register::H, Register::C))),
            Ok(Instruction::LD(LoadArgs::RegisterToRegister(Register::H, Register::D))),
            Ok(Instruction::LD(LoadArgs::RegisterToRegister(Register::H, Register::E))),
            Ok(Instruction::LD(LoadArgs::RegisterToRegister(Register::H, Register::H))),
            Ok(Instruction::LD(LoadArgs::RegisterToRegister(Register::H, Register::L))),
            Ok(Instruction::LD(LoadArgs::RegisterToRegister(Register::H, Register::HL))),
            Ok(Instruction::LD(LoadArgs::RegisterToRegister(Register::H, Register::A))),
            Ok(Instruction::LD(LoadArgs::RegisterToRegister(Register::L, Register::B))),
            Ok(Instruction::LD(LoadArgs::RegisterToRegister(Register::L, Register::C))),
            Ok(Instruction::LD(LoadArgs::RegisterToRegister(Register::L, Register::D))),
            Ok(Instruction::LD(LoadArgs::RegisterToRegister(Register::L, Register::E))),
            Ok(Instruction::LD(LoadArgs::RegisterToRegister(Register::L, Register::H))),
            Ok(Instruction::LD(LoadArgs::RegisterToRegister(Register::L, Register::L))),
            Ok(Instruction::LD(LoadArgs::RegisterToRegister(Register::L, Register::HL))),
            Ok(Instruction::LD(LoadArgs::RegisterToRegister(Register::L, Register::A))),
            Ok(Instruction::LD(LoadArgs::RegisterToRegister(Register::HL, Register::B))),
            Ok(Instruction::LD(LoadArgs::RegisterToRegister(Register::HL, Register::C))),
            Ok(Instruction::LD(LoadArgs::RegisterToRegister(Register::HL, Register::D))),
            Ok(Instruction::LD(LoadArgs::RegisterToRegister(Register::HL, Register::E))),
            Ok(Instruction::LD(LoadArgs::RegisterToRegister(Register::HL, Register::H))),
            Ok(Instruction::LD(LoadArgs::RegisterToRegister(Register::HL, Register::L))),
            Ok(Instruction::HALT),
            Ok(Instruction::LD(LoadArgs::RegisterToRegister(Register::HL, Register::A))),
            Ok(Instruction::LD(LoadArgs::RegisterToRegister(Register::A, Register::B))),
            Ok(Instruction::LD(LoadArgs::RegisterToRegister(Register::A, Register::C))),
            Ok(Instruction::LD(LoadArgs::RegisterToRegister(Register::A, Register::D))),
            Ok(Instruction::LD(LoadArgs::RegisterToRegister(Register::A, Register::E))),
            Ok(Instruction::LD(LoadArgs::RegisterToRegister(Register::A, Register::H))),
            Ok(Instruction::LD(LoadArgs::RegisterToRegister(Register::A, Register::L))),
            Ok(Instruction::LD(LoadArgs::RegisterToRegister(Register::A, Register::HL))),
            Ok(Instruction::LD(LoadArgs::RegisterToRegister(Register::A, Register::A))),
            Ok(Instruction::ADD(AddArg::Register(Register::B))),
            Ok(Instruction::ADD(AddArg::Register(Register::C))),
            Ok(Instruction::ADD(AddArg::Register(Register::D))),
            Ok(Instruction::ADD(AddArg::Register(Register::E))),
            Ok(Instruction::ADD(AddArg::Register(Register::H))),
            Ok(Instruction::ADD(AddArg::Register(Register::L))),
            Ok(Instruction::ADD(AddArg::Register(Register::HL))),
            Ok(Instruction::ADD(AddArg::Register(Register::A))),
            Ok(Instruction::ADC(AluArg::Register(Register::B))),
            Ok(Instruction::ADC(AluArg::Register(Register::C))),
            Ok(Instruction::ADC(AluArg::Register(Register::D))),
            Ok(Instruction::ADC(AluArg::Register(Register::E))),
            Ok(Instruction::ADC(AluArg::Register(Register::H))),
            Ok(Instruction::ADC(AluArg::Register(Register::L))),
            Ok(Instruction::ADC(AluArg::Register(Register::HL))),
            Ok(Instruction::ADC(AluArg::Register(Register::A))),
            Ok(Instruction::SUB(AluArg::Register(Register::B))),
            Ok(Instruction::SUB(AluArg::Register(Register::C))),
            Ok(Instruction::SUB(AluArg::Register(Register::D))),
            Ok(Instruction::SUB(AluArg::Register(Register::E))),
            Ok(Instruction::SUB(AluArg::Register(Register::H))),
            Ok(Instruction::SUB(AluArg::Register(Register::L))),
            Ok(Instruction::SUB(AluArg::Register(Register::HL))),
            Ok(Instruction::SUB(AluArg::Register(Register::A))),
            Ok(Instruction::SBC(AluArg::Register(Register::B))),
            Ok(Instruction::SBC(AluArg::Register(Register::C))),
            Ok(Instruction::SBC(AluArg::Register(Register::D))),
            Ok(Instruction::SBC(AluArg::Register(Register::E))),
            Ok(Instruction::SBC(AluArg::Register(Register::H))),
            Ok(Instruction::SBC(AluArg::Register(Register::L))),
            Ok(Instruction::SBC(AluArg::Register(Register::HL))),
            Ok(Instruction::SBC(AluArg::Register(Register::A))),
            Ok(Instruction::AND(AluArg::Register(Register::B))),
            Ok(Instruction::AND(AluArg::Register(Register::C))),
            Ok(Instruction::AND(AluArg::Register(Register::D))),
            Ok(Instruction::AND(AluArg::Register(Register::E))),
            Ok(Instruction::AND(AluArg::Register(Register::H))),
            Ok(Instruction::AND(AluArg::Register(Register::L))),
            Ok(Instruction::AND(AluArg::Register(Register::HL))),
            Ok(Instruction::AND(AluArg::Register(Register::A))),
            Ok(Instruction::XOR(AluArg::Register(Register::B))),
            Ok(Instruction::XOR(AluArg::Register(Register::C))),
            Ok(Instruction::XOR(AluArg::Register(Register::D))),
            Ok(Instruction::XOR(AluArg::Register(Register::E))),
            Ok(Instruction::XOR(AluArg::Register(Register::H))),
            Ok(Instruction::XOR(AluArg::Register(Register::L))),
            Ok(Instruction::XOR(AluArg::Register(Register::HL))),
            Ok(Instruction::XOR(AluArg::Register(Register::A))),
            Ok(Instruction::OR(AluArg::Register(Register::B))),
            Ok(Instruction::OR(AluArg::Register(Register::C))),
            Ok(Instruction::OR(AluArg::Register(Register::D))),
            Ok(Instruction::OR(AluArg::Register(Register::E))),
            Ok(Instruction::OR(AluArg::Register(Register::H))),
            Ok(Instruction::OR(AluArg::Register(Register::L))),
            Ok(Instruction::OR(AluArg::Register(Register::HL))),
            Ok(Instruction::OR(AluArg::Register(Register::A))),
            Ok(Instruction::CP(AluArg::Register(Register::B))),
            Ok(Instruction::CP(AluArg::Register(Register::C))),
            Ok(Instruction::CP(AluArg::Register(Register::D))),
            Ok(Instruction::CP(AluArg::Register(Register::E))),
            Ok(Instruction::CP(AluArg::Register(Register::H))),
            Ok(Instruction::CP(AluArg::Register(Register::L))),
            Ok(Instruction::CP(AluArg::Register(Register::HL))),
            Ok(Instruction::CP(AluArg::Register(Register::A))),
            Ok(Instruction::RET(Some(Condition::NonZero))),
            Ok(Instruction::POP(RegisterPairAF::BC)),
            Ok(Instruction::JP(Some(Condition::NonZero))),
            Ok(Instruction::JP(None)),
            Ok(Instruction::CALL(Some(Condition::NonZero))),
            Ok(Instruction::PUSH(RegisterPairAF::BC)),
            Ok(Instruction::ADD(AddArg::ImmediateU8)),
            Ok(Instruction::RST(0)),
            Ok(Instruction::RET(Some(Condition::Zero))),
            Ok(Instruction::RET(None)),
            Ok(Instruction::JP(Some(Condition::Zero))),
            Err("CB"),
            Ok(Instruction::CALL(Some(Condition::Zero))),
            Ok(Instruction::CALL(None)),
            Ok(Instruction::ADC(AluArg::ImmediateU8)),
            Ok(Instruction::RST(8)),
            Ok(Instruction::RET(Some(Condition::NonCarry))),
            Ok(Instruction::POP(RegisterPairAF::DE)),
            Ok(Instruction::JP(Some(Condition::NonCarry))),
            Err(""),
            Ok(Instruction::CALL(Some(Condition::NonCarry))),
            Ok(Instruction::PUSH(RegisterPairAF::DE)),
            Ok(Instruction::SUB(AluArg::ImmediateU8)),
            Ok(Instruction::RST(16)),
            Ok(Instruction::RET(Some(Condition::Carry))),
            Ok(Instruction::RETI),
            Ok(Instruction::JP(Some(Condition::Carry))),
            Err(""),
            Ok(Instruction::CALL(Some(Condition::Carry))),
            Err(""),
            Ok(Instruction::SBC(AluArg::ImmediateU8)),
            Ok(Instruction::RST(24)),
            Ok(Instruction::LD(LoadArgs::IndirectFromA(Indirect::FFPlusN))),
            Ok(Instruction::POP(RegisterPairAF::HL)),
            Ok(Instruction::LD(LoadArgs::IndirectFromA(Indirect::FFPlusC))),
            Err(""),
            Err(""),
            Ok(Instruction::PUSH(RegisterPairAF::HL)),
            Ok(Instruction::AND(AluArg::ImmediateU8)),
            Ok(Instruction::RST(32)),
            Ok(Instruction::ADD(AddArg::SPd)),
            Ok(Instruction::JPHL),
            Ok(Instruction::LD(LoadArgs::IndirectFromA(Indirect::NN))),
            Err(""),
            Err(""),
            Err(""),
            Ok(Instruction::XOR(AluArg::ImmediateU8)),
            Ok(Instruction::RST(40)),
            Ok(Instruction::LD(LoadArgs::AFromIndirect(Indirect::FFPlusN))),
            Ok(Instruction::POP(RegisterPairAF::AF)),
            Ok(Instruction::LD(LoadArgs::AFromIndirect(Indirect::FFPlusC))),
            Ok(Instruction::DI),
            Err(""),
            Ok(Instruction::PUSH(RegisterPairAF::AF)),
            Ok(Instruction::OR(AluArg::ImmediateU8)),
            Ok(Instruction::RST(48)),
            Ok(Instruction::LD(LoadArgs::HLSPd)),
            Ok(Instruction::LD(LoadArgs::SPHL)),
            Ok(Instruction::LD(LoadArgs::AFromIndirect(Indirect::NN))),
            Ok(Instruction::EI),
            Err(""),
            Err(""),
            Ok(Instruction::CP(AluArg::ImmediateU8))
        ],
        result
    );
}

#[test]
fn test_try_decode_prefixed() {
    let result: Vec<_> = (0..u8::MAX).map(Instruction::try_decode_prefixed).collect();

    assert_eq!(
        vec![
            Ok(Instruction::RLC(Register::B)),
            Ok(Instruction::RLC(Register::C)),
            Ok(Instruction::RLC(Register::D)),
            Ok(Instruction::RLC(Register::E)),
            Ok(Instruction::RLC(Register::H)),
            Ok(Instruction::RLC(Register::L)),
            Ok(Instruction::RLC(Register::HL)),
            Ok(Instruction::RLC(Register::A)),
            Ok(Instruction::RRC(Register::B)),
            Ok(Instruction::RRC(Register::C)),
            Ok(Instruction::RRC(Register::D)),
            Ok(Instruction::RRC(Register::E)),
            Ok(Instruction::RRC(Register::H)),
            Ok(Instruction::RRC(Register::L)),
            Ok(Instruction::RRC(Register::HL)),
            Ok(Instruction::RRC(Register::A)),
            Ok(Instruction::RL(Register::B)),
            Ok(Instruction::RL(Register::C)),
            Ok(Instruction::RL(Register::D)),
            Ok(Instruction::RL(Register::E)),
            Ok(Instruction::RL(Register::H)),
            Ok(Instruction::RL(Register::L)),
            Ok(Instruction::RL(Register::HL)),
            Ok(Instruction::RL(Register::A)),
            Ok(Instruction::RR(Register::B)),
            Ok(Instruction::RR(Register::C)),
            Ok(Instruction::RR(Register::D)),
            Ok(Instruction::RR(Register::E)),
            Ok(Instruction::RR(Register::H)),
            Ok(Instruction::RR(Register::L)),
            Ok(Instruction::RR(Register::HL)),
            Ok(Instruction::RR(Register::A)),
            Ok(Instruction::SLA(Register::B)),
            Ok(Instruction::SLA(Register::C)),
            Ok(Instruction::SLA(Register::D)),
            Ok(Instruction::SLA(Register::E)),
            Ok(Instruction::SLA(Register::H)),
            Ok(Instruction::SLA(Register::L)),
            Ok(Instruction::SLA(Register::HL)),
            Ok(Instruction::SLA(Register::A)),
            Ok(Instruction::SRA(Register::B)),
            Ok(Instruction::SRA(Register::C)),
            Ok(Instruction::SRA(Register::D)),
            Ok(Instruction::SRA(Register::E)),
            Ok(Instruction::SRA(Register::H)),
            Ok(Instruction::SRA(Register::L)),
            Ok(Instruction::SRA(Register::HL)),
            Ok(Instruction::SRA(Register::A)),
            Ok(Instruction::SWAP(Register::B)),
            Ok(Instruction::SWAP(Register::C)),
            Ok(Instruction::SWAP(Register::D)),
            Ok(Instruction::SWAP(Register::E)),
            Ok(Instruction::SWAP(Register::H)),
            Ok(Instruction::SWAP(Register::L)),
            Ok(Instruction::SWAP(Register::HL)),
            Ok(Instruction::SWAP(Register::A)),
            Ok(Instruction::SRL(Register::B)),
            Ok(Instruction::SRL(Register::C)),
            Ok(Instruction::SRL(Register::D)),
            Ok(Instruction::SRL(Register::E)),
            Ok(Instruction::SRL(Register::H)),
            Ok(Instruction::SRL(Register::L)),
            Ok(Instruction::SRL(Register::HL)),
            Ok(Instruction::SRL(Register::A)),
            Ok(Instruction::BIT(0, Register::B)),
            Ok(Instruction::BIT(0, Register::C)),
            Ok(Instruction::BIT(0, Register::D)),
            Ok(Instruction::BIT(0, Register::E)),
            Ok(Instruction::BIT(0, Register::H)),
            Ok(Instruction::BIT(0, Register::L)),
            Ok(Instruction::BIT(0, Register::HL)),
            Ok(Instruction::BIT(0, Register::A)),
            Ok(Instruction::BIT(1, Register::B)),
            Ok(Instruction::BIT(1, Register::C)),
            Ok(Instruction::BIT(1, Register::D)),
            Ok(Instruction::BIT(1, Register::E)),
            Ok(Instruction::BIT(1, Register::H)),
            Ok(Instruction::BIT(1, Register::L)),
            Ok(Instruction::BIT(1, Register::HL)),
            Ok(Instruction::BIT(1, Register::A)),
            Ok(Instruction::BIT(2, Register::B)),
            Ok(Instruction::BIT(2, Register::C)),
            Ok(Instruction::BIT(2, Register::D)),
            Ok(Instruction::BIT(2, Register::E)),
            Ok(Instruction::BIT(2, Register::H)),
            Ok(Instruction::BIT(2, Register::L)),
            Ok(Instruction::BIT(2, Register::HL)),
            Ok(Instruction::BIT(2, Register::A)),
            Ok(Instruction::BIT(3, Register::B)),
            Ok(Instruction::BIT(3, Register::C)),
            Ok(Instruction::BIT(3, Register::D)),
            Ok(Instruction::BIT(3, Register::E)),
            Ok(Instruction::BIT(3, Register::H)),
            Ok(Instruction::BIT(3, Register::L)),
            Ok(Instruction::BIT(3, Register::HL)),
            Ok(Instruction::BIT(3, Register::A)),
            Ok(Instruction::BIT(4, Register::B)),
            Ok(Instruction::BIT(4, Register::C)),
            Ok(Instruction::BIT(4, Register::D)),
            Ok(Instruction::BIT(4, Register::E)),
            Ok(Instruction::BIT(4, Register::H)),
            Ok(Instruction::BIT(4, Register::L)),
            Ok(Instruction::BIT(4, Register::HL)),
            Ok(Instruction::BIT(4, Register::A)),
            Ok(Instruction::BIT(5, Register::B)),
            Ok(Instruction::BIT(5, Register::C)),
            Ok(Instruction::BIT(5, Register::D)),
            Ok(Instruction::BIT(5, Register::E)),
            Ok(Instruction::BIT(5, Register::H)),
            Ok(Instruction::BIT(5, Register::L)),
            Ok(Instruction::BIT(5, Register::HL)),
            Ok(Instruction::BIT(5, Register::A)),
            Ok(Instruction::BIT(6, Register::B)),
            Ok(Instruction::BIT(6, Register::C)),
            Ok(Instruction::BIT(6, Register::D)),
            Ok(Instruction::BIT(6, Register::E)),
            Ok(Instruction::BIT(6, Register::H)),
            Ok(Instruction::BIT(6, Register::L)),
            Ok(Instruction::BIT(6, Register::HL)),
            Ok(Instruction::BIT(6, Register::A)),
            Ok(Instruction::BIT(7, Register::B)),
            Ok(Instruction::BIT(7, Register::C)),
            Ok(Instruction::BIT(7, Register::D)),
            Ok(Instruction::BIT(7, Register::E)),
            Ok(Instruction::BIT(7, Register::H)),
            Ok(Instruction::BIT(7, Register::L)),
            Ok(Instruction::BIT(7, Register::HL)),
            Ok(Instruction::BIT(7, Register::A)),
            Ok(Instruction::RES(0, Register::B)),
            Ok(Instruction::RES(0, Register::C)),
            Ok(Instruction::RES(0, Register::D)),
            Ok(Instruction::RES(0, Register::E)),
            Ok(Instruction::RES(0, Register::H)),
            Ok(Instruction::RES(0, Register::L)),
            Ok(Instruction::RES(0, Register::HL)),
            Ok(Instruction::RES(0, Register::A)),
            Ok(Instruction::RES(1, Register::B)),
            Ok(Instruction::RES(1, Register::C)),
            Ok(Instruction::RES(1, Register::D)),
            Ok(Instruction::RES(1, Register::E)),
            Ok(Instruction::RES(1, Register::H)),
            Ok(Instruction::RES(1, Register::L)),
            Ok(Instruction::RES(1, Register::HL)),
            Ok(Instruction::RES(1, Register::A)),
            Ok(Instruction::RES(2, Register::B)),
            Ok(Instruction::RES(2, Register::C)),
            Ok(Instruction::RES(2, Register::D)),
            Ok(Instruction::RES(2, Register::E)),
            Ok(Instruction::RES(2, Register::H)),
            Ok(Instruction::RES(2, Register::L)),
            Ok(Instruction::RES(2, Register::HL)),
            Ok(Instruction::RES(2, Register::A)),
            Ok(Instruction::RES(3, Register::B)),
            Ok(Instruction::RES(3, Register::C)),
            Ok(Instruction::RES(3, Register::D)),
            Ok(Instruction::RES(3, Register::E)),
            Ok(Instruction::RES(3, Register::H)),
            Ok(Instruction::RES(3, Register::L)),
            Ok(Instruction::RES(3, Register::HL)),
            Ok(Instruction::RES(3, Register::A)),
            Ok(Instruction::RES(4, Register::B)),
            Ok(Instruction::RES(4, Register::C)),
            Ok(Instruction::RES(4, Register::D)),
            Ok(Instruction::RES(4, Register::E)),
            Ok(Instruction::RES(4, Register::H)),
            Ok(Instruction::RES(4, Register::L)),
            Ok(Instruction::RES(4, Register::HL)),
            Ok(Instruction::RES(4, Register::A)),
            Ok(Instruction::RES(5, Register::B)),
            Ok(Instruction::RES(5, Register::C)),
            Ok(Instruction::RES(5, Register::D)),
            Ok(Instruction::RES(5, Register::E)),
            Ok(Instruction::RES(5, Register::H)),
            Ok(Instruction::RES(5, Register::L)),
            Ok(Instruction::RES(5, Register::HL)),
            Ok(Instruction::RES(5, Register::A)),
            Ok(Instruction::RES(6, Register::B)),
            Ok(Instruction::RES(6, Register::C)),
            Ok(Instruction::RES(6, Register::D)),
            Ok(Instruction::RES(6, Register::E)),
            Ok(Instruction::RES(6, Register::H)),
            Ok(Instruction::RES(6, Register::L)),
            Ok(Instruction::RES(6, Register::HL)),
            Ok(Instruction::RES(6, Register::A)),
            Ok(Instruction::RES(7, Register::B)),
            Ok(Instruction::RES(7, Register::C)),
            Ok(Instruction::RES(7, Register::D)),
            Ok(Instruction::RES(7, Register::E)),
            Ok(Instruction::RES(7, Register::H)),
            Ok(Instruction::RES(7, Register::L)),
            Ok(Instruction::RES(7, Register::HL)),
            Ok(Instruction::RES(7, Register::A)),
            Ok(Instruction::SET(0, Register::B)),
            Ok(Instruction::SET(0, Register::C)),
            Ok(Instruction::SET(0, Register::D)),
            Ok(Instruction::SET(0, Register::E)),
            Ok(Instruction::SET(0, Register::H)),
            Ok(Instruction::SET(0, Register::L)),
            Ok(Instruction::SET(0, Register::HL)),
            Ok(Instruction::SET(0, Register::A)),
            Ok(Instruction::SET(1, Register::B)),
            Ok(Instruction::SET(1, Register::C)),
            Ok(Instruction::SET(1, Register::D)),
            Ok(Instruction::SET(1, Register::E)),
            Ok(Instruction::SET(1, Register::H)),
            Ok(Instruction::SET(1, Register::L)),
            Ok(Instruction::SET(1, Register::HL)),
            Ok(Instruction::SET(1, Register::A)),
            Ok(Instruction::SET(2, Register::B)),
            Ok(Instruction::SET(2, Register::C)),
            Ok(Instruction::SET(2, Register::D)),
            Ok(Instruction::SET(2, Register::E)),
            Ok(Instruction::SET(2, Register::H)),
            Ok(Instruction::SET(2, Register::L)),
            Ok(Instruction::SET(2, Register::HL)),
            Ok(Instruction::SET(2, Register::A)),
            Ok(Instruction::SET(3, Register::B)),
            Ok(Instruction::SET(3, Register::C)),
            Ok(Instruction::SET(3, Register::D)),
            Ok(Instruction::SET(3, Register::E)),
            Ok(Instruction::SET(3, Register::H)),
            Ok(Instruction::SET(3, Register::L)),
            Ok(Instruction::SET(3, Register::HL)),
            Ok(Instruction::SET(3, Register::A)),
            Ok(Instruction::SET(4, Register::B)),
            Ok(Instruction::SET(4, Register::C)),
            Ok(Instruction::SET(4, Register::D)),
            Ok(Instruction::SET(4, Register::E)),
            Ok(Instruction::SET(4, Register::H)),
            Ok(Instruction::SET(4, Register::L)),
            Ok(Instruction::SET(4, Register::HL)),
            Ok(Instruction::SET(4, Register::A)),
            Ok(Instruction::SET(5, Register::B)),
            Ok(Instruction::SET(5, Register::C)),
            Ok(Instruction::SET(5, Register::D)),
            Ok(Instruction::SET(5, Register::E)),
            Ok(Instruction::SET(5, Register::H)),
            Ok(Instruction::SET(5, Register::L)),
            Ok(Instruction::SET(5, Register::HL)),
            Ok(Instruction::SET(5, Register::A)),
            Ok(Instruction::SET(6, Register::B)),
            Ok(Instruction::SET(6, Register::C)),
            Ok(Instruction::SET(6, Register::D)),
            Ok(Instruction::SET(6, Register::E)),
            Ok(Instruction::SET(6, Register::H)),
            Ok(Instruction::SET(6, Register::L)),
            Ok(Instruction::SET(6, Register::HL)),
            Ok(Instruction::SET(6, Register::A)),
            Ok(Instruction::SET(7, Register::B)),
            Ok(Instruction::SET(7, Register::C)),
            Ok(Instruction::SET(7, Register::D)),
            Ok(Instruction::SET(7, Register::E)),
            Ok(Instruction::SET(7, Register::H)),
            Ok(Instruction::SET(7, Register::L)),
            Ok(Instruction::SET(7, Register::HL))
        ],
        result
    );
}
