//! What every instruction does, stated over the registers and the record of
//! what passed between the CPU and the bus.
//!
//! The bus records each thing the CPU asks of it as a `BusEvent`. Every
//! function here takes the record `events` and the index `at` of the first
//! event of the step it describes. It tells how many events the step takes,
//! whether the events found there are the ones the step must cause
//! (`conforms`), and what the step leaves in the registers, given the bytes
//! that the bus handed back.

use super::alu;
use super::alu::AluOp;
use super::flags::Flags;
use super::instructions::{
    decoded, decoded_prefixed, AddArg, Condition, IncDecArg, Instruction, LoadArgs, Register,
};
use super::interrupt::Interrupt;
use super::io::{In16, In8, Out16, Out8};
use super::registers::{high_byte, low_byte, pair, Registers};
use vstd::prelude::*;

verus! {

/// One thing that the CPU asked of the bus, with the answer where there is one.
/// `Read`, `Write` and `Tick` each take one m-cycle; the other two take none.
pub enum BusEvent {
    Read { addr: u16, value: u8 },
    Write { addr: u16, value: u8 },
    Tick,
    /// The CPU asked whether an enabled interrupt is requested.
    Poll(bool),
    /// The CPU took the interrupt with the highest priority, if there was one.
    Acknowledge(Option<Interrupt>),
}

/// Why the CPU cannot go on.
#[derive(Clone, Copy, Debug, PartialEq, Eq)]
pub enum Fault {
    /// The opcode has no instruction.
    InvalidOpcode(u8),
    /// STOP is not implemented.
    Stop,
    /// An interrupt was pending when the CPU asked, and none was there to
    /// take once the return address had been pushed.
    NoInterrupt,
}

/// The state of the CPU apart from its bus.
pub struct Core {
    pub registers: Registers,
    pub halt: bool,
    pub ime: bool,
}

/// The registers after a step, the number of bus events it took, and whether
/// the events in the record are those that the step causes.
pub struct Effect {
    pub registers: Registers,
    pub events: int,
    pub conforms: bool,
}

/// An `Effect` that also yields a value.
pub struct Access<T> {
    pub registers: Registers,
    pub value: T,
    pub events: int,
    pub conforms: bool,
}

/// The state of the CPU after an instruction, with the events as in `Effect`.
pub struct Outcome {
    pub core: Core,
    pub events: int,
    pub conforms: bool,
}

/// The state of the CPU after `step`, and the fault that ended it, if any.
pub struct Step {
    pub core: Core,
    pub events: int,
    pub conforms: bool,
    pub fault: Option<Fault>,
}

/// `value` reduced to 16 bits.
pub open spec fn wrap16(value: int) -> u16 {
    (value % 0x1_0000) as u16
}

/// `value` reduced to 8 bits.
pub open spec fn wrap8(value: int) -> u8 {
    (value % 0x100) as u8
}

/// The byte `offset` read as a signed number.
pub open spec fn signed(offset: u8) -> int {
    if offset < 0x80 {
        offset as int
    } else {
        offset - 0x100
    }
}

/// The address 0xFF00 + `offset`.
pub open spec fn high_page(offset: u8) -> u16 {
    (0xFF00 + offset) as u16
}

/// `after` begins with the events of `before`.
pub open spec fn extends(before: Seq<BusEvent>, after: Seq<BusEvent>) -> bool {
    &&& before.len() <= after.len()
    &&& forall|i: int| 0 <= i < before.len() ==> #[trigger] after[i] == before[i]
}

/// `after` is `before` with `count` more events.
pub open spec fn continues(before: Seq<BusEvent>, after: Seq<BusEvent>, count: int) -> bool {
    &&& 0 <= count
    &&& after.len() == before.len() + count
    &&& forall|i: int| 0 <= i < before.len() ==> #[trigger] after[i] == before[i]
}

/// The byte that the read at `at` returned.
pub open spec fn read_at(events: Seq<BusEvent>, at: int) -> u8 {
    match events[at] {
        BusEvent::Read { value, .. } => value,
        _ => 0,
    }
}

/// The event at `at` is a read of `addr`.
pub open spec fn reads(events: Seq<BusEvent>, at: int, addr: u16) -> bool {
    0 <= at < events.len() && events[at] == (BusEvent::Read { addr, value: read_at(events, at) })
}

/// The event at `at` is a write of `value` to `addr`.
pub open spec fn writes(events: Seq<BusEvent>, at: int, addr: u16, value: u8) -> bool {
    0 <= at < events.len() && events[at] == (BusEvent::Write { addr, value })
}

/// The event at `at` is an m-cycle without a memory access.
pub open spec fn ticks(events: Seq<BusEvent>, at: int) -> bool {
    0 <= at < events.len() && events[at] == BusEvent::Tick
}

/// Nothing happens.
pub open spec fn idle(r: Registers) -> Effect {
    Effect { registers: r, events: 0, conforms: true }
}

/// One m-cycle passes without a memory access.
pub open spec fn delayed(r: Registers, events: Seq<BusEvent>, at: int) -> Effect {
    Effect { registers: r, events: 1, conforms: ticks(events, at) }
}

/// The byte at PC is read and PC moves on.
pub open spec fn immediate8(r: Registers, events: Seq<BusEvent>, at: int) -> Access<u8> {
    Access {
        registers: Registers { pc: wrap16(r.pc + 1), ..r },
        value: read_at(events, at),
        events: 1,
        conforms: reads(events, at, r.pc),
    }
}

/// The two bytes at PC are read, the low byte first, and PC moves on.
pub open spec fn immediate16(r: Registers, events: Seq<BusEvent>, at: int) -> Access<u16> {
    Access {
        registers: Registers { pc: wrap16(r.pc + 2), ..r },
        value: pair(read_at(events, at + 1), read_at(events, at)),
        events: 2,
        conforms: reads(events, at, r.pc) && reads(events, at + 1, wrap16(r.pc + 1)),
    }
}

/// The byte at `addr` is read.
pub open spec fn loaded(r: Registers, addr: u16, events: Seq<BusEvent>, at: int) -> Access<u8> {
    Access { registers: r, value: read_at(events, at), events: 1, conforms: reads(events, at, addr) }
}

/// A byte is taken from `from`.
#[verifier::opaque]
pub open spec fn in8(r: Registers, from: In8, events: Seq<BusEvent>, at: int) -> Access<u8> {
    match from {
        In8::A => Access { registers: r, value: r.a, events: 0, conforms: true },
        In8::B => Access { registers: r, value: r.b, events: 0, conforms: true },
        In8::C => Access { registers: r, value: r.c, events: 0, conforms: true },
        In8::D => Access { registers: r, value: r.d, events: 0, conforms: true },
        In8::E => Access { registers: r, value: r.e, events: 0, conforms: true },
        In8::H => Access { registers: r, value: r.h, events: 0, conforms: true },
        In8::L => Access { registers: r, value: r.l, events: 0, conforms: true },
        In8::N => immediate8(r, events, at),
        In8::BC => loaded(r, r.spec_bc(), events, at),
        In8::DE => loaded(r, r.spec_de(), events, at),
        In8::HL => loaded(r, r.spec_hl(), events, at),
        In8::HLMinus => loaded(r.with_hl(wrap16(r.spec_hl() - 1)), r.spec_hl(), events, at),
        In8::HLPlus => loaded(r.with_hl(wrap16(r.spec_hl() + 1)), r.spec_hl(), events, at),
        In8::NN => {
            let address = immediate16(r, events, at);
            Access {
                registers: address.registers,
                value: read_at(events, at + 2),
                events: 3,
                conforms: address.conforms && reads(events, at + 2, address.value),
            }
        },
        In8::CHigh => loaded(r, high_page(r.c), events, at),
        In8::NHigh => {
            let offset = immediate8(r, events, at);
            Access {
                registers: offset.registers,
                value: read_at(events, at + 1),
                events: 2,
                conforms: offset.conforms && reads(events, at + 1, high_page(offset.value)),
            }
        },
    }
}

/// `value` is written to `addr`.
pub open spec fn stored(r: Registers, addr: u16, value: u8, events: Seq<BusEvent>, at: int) -> Effect {
    Effect { registers: r, events: 1, conforms: writes(events, at, addr, value) }
}

/// `value` is put to `to`.
#[verifier::opaque]
pub open spec fn out8(r: Registers, to: Out8, value: u8, events: Seq<BusEvent>, at: int) -> Effect {
    match to {
        Out8::A => idle(Registers { a: value, ..r }),
        Out8::B => idle(Registers { b: value, ..r }),
        Out8::C => idle(Registers { c: value, ..r }),
        Out8::D => idle(Registers { d: value, ..r }),
        Out8::E => idle(Registers { e: value, ..r }),
        Out8::H => idle(Registers { h: value, ..r }),
        Out8::L => idle(Registers { l: value, ..r }),
        Out8::BC => stored(r, r.spec_bc(), value, events, at),
        Out8::DE => stored(r, r.spec_de(), value, events, at),
        Out8::HL => stored(r, r.spec_hl(), value, events, at),
        Out8::HLMinus => stored(
            r.with_hl(wrap16(r.spec_hl() - 1)),
            r.spec_hl(),
            value,
            events,
            at,
        ),
        Out8::HLPlus => stored(r.with_hl(wrap16(r.spec_hl() + 1)), r.spec_hl(), value, events, at),
        Out8::NN => {
            let address = immediate16(r, events, at);
            Effect {
                registers: address.registers,
                events: 3,
                conforms: address.conforms && writes(events, at + 2, address.value, value),
            }
        },
        Out8::CHigh => stored(r, high_page(r.c), value, events, at),
        Out8::NHigh => {
            let offset = immediate8(r, events, at);
            Effect {
                registers: offset.registers,
                events: 2,
                conforms: offset.conforms && writes(events, at + 1, high_page(offset.value), value),
            }
        },
    }
}

/// A word is taken from `from`.
pub open spec fn in16(r: Registers, from: In16, events: Seq<BusEvent>, at: int) -> Access<u16> {
    match from {
        In16::AF => Access { registers: r, value: r.spec_af(), events: 0, conforms: true },
        In16::BC => Access { registers: r, value: r.spec_bc(), events: 0, conforms: true },
        In16::DE => Access { registers: r, value: r.spec_de(), events: 0, conforms: true },
        In16::HL => Access { registers: r, value: r.spec_hl(), events: 0, conforms: true },
        In16::NN => immediate16(r, events, at),
        In16::SP => Access { registers: r, value: r.sp, events: 0, conforms: true },
    }
}

/// `value` is put to `to`. In memory its low byte comes first.
pub open spec fn out16(r: Registers, to: Out16, value: u16, events: Seq<BusEvent>, at: int) -> Effect {
    match to {
        Out16::AF => idle(r.with_af(value)),
        Out16::BC => idle(r.with_bc(value)),
        Out16::DE => idle(r.with_de(value)),
        Out16::HL => idle(r.with_hl(value)),
        Out16::NN => {
            let address = immediate16(r, events, at);
            Effect {
                registers: address.registers,
                events: 4,
                conforms: address.conforms && writes(
                    events,
                    at + 2,
                    address.value,
                    low_byte(value),
                ) && writes(events, at + 3, wrap16(address.value + 1), high_byte(value)),
            }
        },
        Out16::SP => idle(Registers { sp: value, ..r }),
    }
}

/// `value` is pushed: an m-cycle of delay, the high byte to SP-1, the low
/// byte to SP-2, and SP goes down by two.
pub open spec fn pushed(r: Registers, value: u16, events: Seq<BusEvent>, at: int) -> Effect {
    Effect {
        registers: Registers { sp: wrap16(r.sp - 2), ..r },
        events: 3,
        conforms: ticks(events, at) && writes(events, at + 1, wrap16(r.sp - 1), high_byte(value))
            && writes(events, at + 2, wrap16(r.sp - 2), low_byte(value)),
    }
}

/// A word is popped: the low byte from SP, the high byte from SP+1, and SP
/// goes up by two.
pub open spec fn popped(r: Registers, events: Seq<BusEvent>, at: int) -> Access<u16> {
    Access {
        registers: Registers { sp: wrap16(r.sp + 2), ..r },
        value: pair(read_at(events, at + 1), read_at(events, at)),
        events: 2,
        conforms: reads(events, at, r.sp) && reads(events, at + 1, wrap16(r.sp + 1)),
    }
}

/// Whether a jump under `condition` is taken.
pub open spec fn holds(condition: Option<Condition>, flags: Flags) -> bool {
    match condition {
        None => true,
        Some(Condition::Carry) => flags.carry,
        Some(Condition::NonCarry) => !flags.carry,
        Some(Condition::Zero) => flags.zero,
        Some(Condition::NonZero) => !flags.zero,
    }
}

/// The ALU performs `op` on `x` and `y`; the flags go to F and the result to
/// `out`, if there is one.
pub open spec fn computed(
    r: Registers,
    op: AluOp,
    x: u8,
    y: u8,
    out: Option<Register>,
    events: Seq<BusEvent>,
    at: int,
) -> Effect {
    let set = Registers { f: alu::flags_after(op, x, y, r.f), ..r };
    match out {
        Some(register) => out8(
            set,
            Out8::of_register(register),
            alu::result(op, x, y, r.f),
            events,
            at,
        ),
        None => idle(set),
    }
}

/// `op` on A and the byte from `from`, into A.
pub open spec fn accumulated(
    r: Registers,
    op: AluOp,
    from: In8,
    events: Seq<BusEvent>,
    at: int,
) -> Effect {
    let operand = in8(r, from, events, at);
    let done = computed(
        operand.registers,
        op,
        operand.registers.a,
        operand.value,
        Some(Register::A),
        events,
        at + operand.events,
    );
    Effect {
        registers: done.registers,
        events: operand.events + done.events,
        conforms: operand.conforms && done.conforms,
    }
}

/// `op` on the byte in `target` and `y`; the result goes back to `target`
/// where `keep` holds.
pub open spec fn modified(
    r: Registers,
    op: AluOp,
    y: u8,
    target: Register,
    keep: bool,
    events: Seq<BusEvent>,
    at: int,
) -> Effect {
    let operand = in8(r, In8::of_register(target), events, at);
    let done = computed(
        operand.registers,
        op,
        operand.value,
        y,
        if keep {
            Some(target)
        } else {
            None
        },
        events,
        at + operand.events,
    );
    Effect {
        registers: done.registers,
        events: operand.events + done.events,
        conforms: operand.conforms && done.conforms,
    }
}

/// `op` on A alone; Z is cleared afterwards where `clear_zero` holds, as the
/// four rotations of the accumulator do.
pub open spec fn accumulator_only(r: Registers, op: AluOp, clear_zero: bool) -> Effect {
    let flags = alu::flags_after(op, r.a, 0, r.f);
    idle(
        Registers {
            a: alu::result(op, r.a, 0, r.f),
            f: if clear_zero {
                Flags { zero: false, ..flags }
            } else {
                flags
            },
            ..r
        },
    )
}

/// HL + `value` into HL. Z stays; N is cleared; H and C are the carries out
/// of bit 11 and bit 15. One m-cycle passes.
pub open spec fn added_to_hl(r: Registers, value: u16, events: Seq<BusEvent>, at: int) -> Effect {
    let hl = r.spec_hl();
    let flags = Flags {
        zero: r.f.zero,
        subtract: false,
        half_carry: hl % 0x1000 + value % 0x1000 > 0xFFF,
        carry: hl + value > 0xFFFF,
    };
    delayed(Registers { f: flags, ..r.with_hl(wrap16(hl + value)) }, events, at)
}

/// The flags after SP + d: Z and N cleared, H and C the carries out of bit 3
/// and bit 7 of the sum of the low byte of SP and the unsigned byte.
pub open spec fn offset_flags(sp: u16, offset: u8) -> Flags {
    Flags {
        zero: false,
        subtract: false,
        half_carry: sp % 0x10 + offset % 0x10 > 0xF,
        carry: sp % 0x100 + offset > 0xFF,
    }
}

/// ADD, with its four kinds of operand.
pub open spec fn added(r: Registers, arg: AddArg, events: Seq<BusEvent>, at: int) -> Effect {
    match arg {
        AddArg::ImmediateU8 => accumulated(r, AluOp::ADD, In8::N, events, at),
        AddArg::Register(register) => accumulated(
            r,
            AluOp::ADD,
            In8::of_register(register),
            events,
            at,
        ),
        AddArg::RegisterPairSP(p) => added_to_hl(
            r,
            in16(r, In16::of_pair_sp(p), events, at).value,
            events,
            at,
        ),
        AddArg::SPd => {
            let offset = immediate8(r, events, at);
            Effect {
                registers: Registers {
                    sp: wrap16(r.sp + signed(offset.value)),
                    f: offset_flags(r.sp, offset.value),
                    ..offset.registers
                },
                events: 3,
                conforms: offset.conforms && ticks(events, at + 1) && ticks(events, at + 2),
            }
        },
    }
}

/// INC where `up` holds, DEC where it does not.
pub open spec fn counted(
    r: Registers,
    arg: IncDecArg,
    up: bool,
    events: Seq<BusEvent>,
    at: int,
) -> Effect {
    let step = if up {
        1int
    } else {
        -1int
    };
    match arg {
        IncDecArg::Register(register) => {
            let operand = in8(r, In8::of_register(register), events, at);
            let value = wrap8(operand.value + step);
            let put = out8(
                operand.registers,
                Out8::of_register(register),
                value,
                events,
                at + operand.events,
            );
            Effect {
                registers: Registers {
                    f: Flags {
                        zero: value == 0,
                        subtract: !up,
                        half_carry: if up {
                            operand.value % 0x10 == 0xF
                        } else {
                            operand.value % 0x10 == 0
                        },
                        carry: put.registers.f.carry,
                    },
                    ..put.registers
                },
                events: operand.events + put.events,
                conforms: operand.conforms && put.conforms,
            }
        },
        IncDecArg::RegisterPairSP(p) => {
            let value = in16(r, In16::of_pair_sp(p), events, at).value;
            delayed(
                out16(r, Out16::of_pair_sp(p), wrap16(value + step), events, at).registers,
                events,
                at,
            )
        },
    }
}

/// A byte goes from `from` to `to`.
pub open spec fn moved8(r: Registers, to: Out8, from: In8, events: Seq<BusEvent>, at: int) -> Effect {
    let source = in8(r, from, events, at);
    let put = out8(source.registers, to, source.value, events, at + source.events);
    Effect {
        registers: put.registers,
        events: source.events + put.events,
        conforms: source.conforms && put.conforms,
    }
}

/// A word goes from `from` to `to`.
pub open spec fn moved16(
    r: Registers,
    to: Out16,
    from: In16,
    events: Seq<BusEvent>,
    at: int,
) -> Effect {
    let source = in16(r, from, events, at);
    let put = out16(source.registers, to, source.value, events, at + source.events);
    Effect {
        registers: put.registers,
        events: source.events + put.events,
        conforms: source.conforms && put.conforms,
    }
}

/// LD, with its eight kinds of operands.
pub open spec fn load(r: Registers, args: LoadArgs, events: Seq<BusEvent>, at: int) -> Effect {
    match args {
        LoadArgs::RegisterToRegister(to, from) => moved8(
            r,
            Out8::of_register(to),
            In8::of_register(from),
            events,
            at,
        ),
        LoadArgs::RegisterFromImmediateU8(to) => moved8(
            r,
            Out8::of_register(to),
            In8::N,
            events,
            at,
        ),
        LoadArgs::RegisterPairFromImmediateU16(to) => moved16(
            r,
            Out16::of_pair_sp(to),
            In16::NN,
            events,
            at,
        ),
        LoadArgs::AFromIndirect(from) => moved8(r, Out8::A, In8::of_indirect(from), events, at),
        LoadArgs::IndirectFromA(to) => moved8(r, Out8::of_indirect(to), In8::A, events, at),
        LoadArgs::NNSP => moved16(r, Out16::NN, In16::SP, events, at),
        LoadArgs::SPHL => delayed(Registers { sp: r.spec_hl(), ..r }, events, at),
        LoadArgs::HLSPd => {
            let offset = immediate8(r, events, at);
            Effect {
                registers: Registers {
                    f: offset_flags(r.sp, offset.value),
                    ..offset.registers.with_hl(wrap16(r.sp + signed(offset.value)))
                },
                events: 2,
                conforms: offset.conforms && ticks(events, at + 1),
            }
        },
    }
}

/// JP: the address is read; where the condition holds PC takes it and one
/// more m-cycle passes.
pub open spec fn jumped(
    r: Registers,
    condition: Option<Condition>,
    events: Seq<BusEvent>,
    at: int,
) -> Effect {
    let target = immediate16(r, events, at);
    if holds(condition, r.f) {
        Effect {
            registers: Registers { pc: target.value, ..target.registers },
            events: 3,
            conforms: target.conforms && ticks(events, at + 2),
        }
    } else {
        Effect { registers: target.registers, events: 2, conforms: target.conforms }
    }
}

/// JR: the offset is read; where the condition holds it is added to PC as a
/// signed number and one more m-cycle passes.
pub open spec fn jumped_relative(
    r: Registers,
    condition: Option<Condition>,
    events: Seq<BusEvent>,
    at: int,
) -> Effect {
    let offset = immediate8(r, events, at);
    if holds(condition, r.f) {
        Effect {
            registers: Registers {
                pc: wrap16(offset.registers.pc + signed(offset.value)),
                ..offset.registers
            },
            events: 2,
            conforms: offset.conforms && ticks(events, at + 1),
        }
    } else {
        Effect { registers: offset.registers, events: 1, conforms: offset.conforms }
    }
}

/// CALL: the address is read; where the condition holds, the address of the
/// next instruction is pushed and PC takes the address read.
pub open spec fn called(
    r: Registers,
    condition: Option<Condition>,
    events: Seq<BusEvent>,
    at: int,
) -> Effect {
    let target = immediate16(r, events, at);
    if holds(condition, r.f) {
        let push = pushed(target.registers, target.registers.pc, events, at + 2);
        Effect {
            registers: Registers { pc: target.value, ..push.registers },
            events: 5,
            conforms: target.conforms && push.conforms,
        }
    } else {
        Effect { registers: target.registers, events: 2, conforms: target.conforms }
    }
}

/// RET: a conditional return first spends one m-cycle on the test; where the
/// condition holds, PC is popped and one more m-cycle passes.
pub open spec fn returned(
    r: Registers,
    condition: Option<Condition>,
    events: Seq<BusEvent>,
    at: int,
) -> Effect {
    let test = if condition is Some {
        delayed(r, events, at)
    } else {
        idle(r)
    };
    if holds(condition, r.f) {
        let pop = popped(r, events, at + test.events);
        Effect {
            registers: Registers { pc: pop.value, ..pop.registers },
            events: test.events + 3,
            conforms: test.conforms && pop.conforms && ticks(events, at + test.events + 2),
        }
    } else {
        test
    }
}

/// RST: PC is pushed and takes `addr`.
pub open spec fn restarted(r: Registers, addr: u16, events: Seq<BusEvent>, at: int) -> Effect {
    let push = pushed(r, r.pc, events, at);
    Effect { registers: Registers { pc: addr, ..push.registers }, ..push }
}

/// PUSH and POP of a register pair.
pub open spec fn stack_effect(
    r: Registers,
    instruction: Instruction,
    events: Seq<BusEvent>,
    at: int,
) -> Effect {
    match instruction {
        Instruction::PUSH(from) => pushed(
            r,
            in16(r, In16::of_pair_af(from), events, at).value,
            events,
            at,
        ),
        Instruction::POP(to) => {
            let pop = popped(r, events, at);
            Effect {
                registers: out16(pop.registers, Out16::of_pair_af(to), pop.value, events, at + 2)
                    .registers,
                events: 2,
                conforms: pop.conforms,
            }
        },
        _ => idle(r),
    }
}

/// What an instruction does to the registers.
pub open spec fn effect(
    r: Registers,
    instruction: Instruction,
    events: Seq<BusEvent>,
    at: int,
) -> Effect {
    match instruction {
        Instruction::ADC(from) => accumulated(r, AluOp::ADC, In8::of_alu_arg(from), events, at),
        Instruction::ADD(arg) => added(r, arg, events, at),
        Instruction::AND(from) => accumulated(r, AluOp::AND, In8::of_alu_arg(from), events, at),
        Instruction::CALL(condition) => called(r, condition, events, at),
        Instruction::CCF => accumulator_only(r, AluOp::CCF, false),
        Instruction::CP(from) => accumulated(r, AluOp::CP, In8::of_alu_arg(from), events, at),
        Instruction::CPL => accumulator_only(r, AluOp::CPL, false),
        Instruction::DAA => accumulator_only(r, AluOp::DAA, false),
        Instruction::DEC(arg) => counted(r, arg, false, events, at),
        Instruction::DI => idle(r),
        Instruction::EI => idle(r),
        Instruction::HALT => idle(r),
        Instruction::INC(arg) => counted(r, arg, true, events, at),
        Instruction::JPHL => idle(Registers { pc: r.spec_hl(), ..r }),
        Instruction::JP(condition) => jumped(r, condition, events, at),
        Instruction::JR(condition) => jumped_relative(r, condition, events, at),
        Instruction::LD(args) => load(r, args, events, at),
        Instruction::NOP => idle(r),
        Instruction::OR(from) => accumulated(r, AluOp::OR, In8::of_alu_arg(from), events, at),
        Instruction::POP(_) => stack_effect(r, instruction, events, at),
        Instruction::PUSH(_) => stack_effect(r, instruction, events, at),
        Instruction::RET(condition) => returned(r, condition, events, at),
        Instruction::RETI => returned(r, None, events, at),
        Instruction::RLA => accumulator_only(r, AluOp::RL, true),
        Instruction::RLCA => accumulator_only(r, AluOp::RLC, true),
        Instruction::RRA => accumulator_only(r, AluOp::RR, true),
        Instruction::RRCA => accumulator_only(r, AluOp::RRC, true),
        Instruction::RST(addr) => restarted(r, addr, events, at),
        Instruction::SBC(from) => accumulated(r, AluOp::SBC, In8::of_alu_arg(from), events, at),
        Instruction::SCF => accumulator_only(r, AluOp::SCF, false),
        Instruction::STOP => idle(r),
        Instruction::SUB(from) => accumulated(r, AluOp::SUB, In8::of_alu_arg(from), events, at),
        Instruction::XOR(from) => accumulated(r, AluOp::XOR, In8::of_alu_arg(from), events, at),
        Instruction::BIT(bit, target) => modified(r, AluOp::BIT, bit, target, false, events, at),
        Instruction::RES(bit, target) => modified(r, AluOp::RES, bit, target, true, events, at),
        Instruction::RL(target) => modified(r, AluOp::RL, 0, target, true, events, at),
        Instruction::RLC(target) => modified(r, AluOp::RLC, 0, target, true, events, at),
        Instruction::RR(target) => modified(r, AluOp::RR, 0, target, true, events, at),
        Instruction::RRC(target) => modified(r, AluOp::RRC, 0, target, true, events, at),
        Instruction::SET(bit, target) => modified(r, AluOp::SET, bit, target, true, events, at),
        Instruction::SLA(target) => modified(r, AluOp::SLA, 0, target, true, events, at),
        Instruction::SRA(target) => modified(r, AluOp::SRA, 0, target, true, events, at),
        Instruction::SRL(target) => modified(r, AluOp::SRL, 0, target, true, events, at),
        Instruction::SWAP(target) => modified(r, AluOp::SWAP, 0, target, true, events, at),
    }
}

/// What an instruction does to the CPU: its effect on the registers, and for
/// DI, EI, RETI and HALT the new interrupt master enable or halt flag.
pub open spec fn executed(
    core: Core,
    instruction: Instruction,
    events: Seq<BusEvent>,
    at: int,
) -> Outcome {
    let done = effect(core.registers, instruction, events, at);
    Outcome {
        core: Core {
            registers: done.registers,
            halt: core.halt || instruction is HALT,
            ime: (core.ime || instruction is EI || instruction is RETI) && !(instruction is DI),
        },
        events: done.events,
        conforms: done.conforms,
    }
}

/// The opcode at PC is read and decoded; behind the prefix 0xCB a second
/// opcode is read.
pub open spec fn fetched(r: Registers, events: Seq<BusEvent>, at: int) -> Access<
    Result<Instruction, Fault>,
> {
    let opcode = immediate8(r, events, at);
    if opcode.value == 0xCB {
        let second = immediate8(opcode.registers, events, at + 1);
        Access {
            registers: second.registers,
            value: Ok(decoded_prefixed(second.value)),
            events: 2,
            conforms: opcode.conforms && second.conforms,
        }
    } else {
        Access {
            registers: opcode.registers,
            value: match decoded(opcode.value) {
                Some(instruction) => Ok(instruction),
                None => Err(Fault::InvalidOpcode(opcode.value)),
            },
            events: 1,
            conforms: opcode.conforms,
        }
    }
}

/// The answer that the poll at `at` got.
pub open spec fn polled(events: Seq<BusEvent>, at: int) -> bool {
    match events[at] {
        BusEvent::Poll(pending) => pending,
        _ => false,
    }
}

/// The interrupt that the acknowledgement at `at` took.
pub open spec fn acknowledged(events: Seq<BusEvent>, at: int) -> Option<Interrupt> {
    match events[at] {
        BusEvent::Acknowledge(interrupt) => interrupt,
        _ => None,
    }
}

/// What the CPU does about interrupts once an instruction is done.
///
/// With the master enable clear and the CPU running, nothing. Otherwise the
/// bus is polled. A pending interrupt ends a halt. With the master enable
/// set it is then served: the enable is cleared, two m-cycles pass, PC is
/// pushed high byte first, the interrupt with the highest priority is taken
/// and PC goes to its vector.
pub open spec fn served(core: Core, events: Seq<BusEvent>, at: int) -> Step {
    if !core.ime && !core.halt {
        Step { core, events: 0, conforms: true, fault: None }
    } else {
        let asked = 0 <= at < events.len() && events[at] == BusEvent::Poll(polled(events, at));
        if !polled(events, at) {
            Step { core, events: 1, conforms: asked, fault: None }
        } else if !core.ime {
            Step { core: Core { halt: false, ..core }, events: 1, conforms: asked, fault: None }
        } else {
            let r = core.registers;
            let taken = acknowledged(events, at + 5);
            Step {
                core: Core {
                    registers: Registers {
                        sp: wrap16(r.sp - 2),
                        pc: match taken {
                            Some(interrupt) => interrupt.spec_to_vector(),
                            None => r.pc,
                        },
                        ..r
                    },
                    halt: false,
                    ime: false,
                },
                events: 6,
                conforms: asked && ticks(events, at + 1) && ticks(events, at + 2) && writes(
                    events,
                    at + 3,
                    wrap16(r.sp - 1),
                    high_byte(r.pc),
                ) && writes(events, at + 4, wrap16(r.sp - 2), low_byte(r.pc)) && at + 5
                    < events.len() && events[at + 5] == BusEvent::Acknowledge(taken),
                fault: if taken is None {
                    Some(Fault::NoInterrupt)
                } else {
                    None
                },
            }
        }
    }
}

/// One step of the CPU. Halted, it lets one m-cycle pass. Running, it
/// fetches, decodes and executes one instruction; an opcode without an
/// instruction and STOP end the step with a fault once they are fetched.
/// Then interrupts are seen to.
pub open spec fn stepped(core: Core, events: Seq<BusEvent>, at: int) -> Step {
    if core.halt {
        let after = served(core, events, at + 1);
        Step { events: 1 + after.events, conforms: ticks(events, at) && after.conforms, ..after }
    } else {
        let fetch = fetched(core.registers, events, at);
        let ready = Core { registers: fetch.registers, ..core };
        match fetch.value {
            Err(fault) => Step {
                core: ready,
                events: fetch.events,
                conforms: fetch.conforms,
                fault: Some(fault),
            },
            Ok(Instruction::STOP) => Step {
                core: ready,
                events: fetch.events,
                conforms: fetch.conforms,
                fault: Some(Fault::Stop),
            },
            Ok(instruction) => {
                let done = executed(ready, instruction, events, at + fetch.events);
                let after = served(done.core, events, at + fetch.events + done.events);
                Step {
                    events: fetch.events + done.events + after.events,
                    conforms: fetch.conforms && done.conforms && after.conforms,
                    ..after
                }
            },
        }
    }
}

/// Taking a byte takes at most three events and leaves the flags alone.
pub proof fn lemma_in8_frame(r: Registers, from: In8, events: Seq<BusEvent>, at: int)
    ensures
        0 <= in8(r, from, events, at).events <= 3,
        in8(r, from, events, at).registers.f == r.f,
{
    reveal(in8);
}

/// Putting a byte takes at most three events and leaves the flags alone.
pub proof fn lemma_out8_frame(r: Registers, to: Out8, value: u8, events: Seq<BusEvent>, at: int)
    ensures
        0 <= out8(r, to, value, events, at).events <= 3,
        out8(r, to, value, events, at).registers.f == r.f,
{
    reveal(out8);
}

/// What taking a byte means depends on its own events alone: events that
/// come later change nothing of it.
pub proof fn lemma_in8_stable(
    r: Registers,
    from: In8,
    before: Seq<BusEvent>,
    after: Seq<BusEvent>,
    at: int,
)
    requires
        0 <= at,
        extends(before, after),
        at + in8(r, from, before, at).events <= before.len(),
    ensures
        in8(r, from, after, at) == in8(r, from, before, at),
{
    reveal(in8);
}

/// What putting a byte means depends on its own events alone.
pub proof fn lemma_out8_stable(
    r: Registers,
    to: Out8,
    value: u8,
    before: Seq<BusEvent>,
    after: Seq<BusEvent>,
    at: int,
)
    requires
        0 <= at,
        extends(before, after),
        at + out8(r, to, value, before, at).events <= before.len(),
    ensures
        out8(r, to, value, after, at) == out8(r, to, value, before, at),
{
    reveal(out8);
}

proof fn lemma_computed_stable(
    r: Registers,
    op: AluOp,
    x: u8,
    y: u8,
    out: Option<Register>,
    before: Seq<BusEvent>,
    after: Seq<BusEvent>,
    at: int,
)
    requires
        0 <= at,
        extends(before, after),
        at + computed(r, op, x, y, out, before, at).events <= before.len(),
    ensures
        computed(r, op, x, y, out, after, at) == computed(r, op, x, y, out, before, at),
        0 <= computed(r, op, x, y, out, before, at).events,
{
    let set = Registers { f: alu::flags_after(op, x, y, r.f), ..r };
    match out {
        Some(register) => {
            lemma_out8_frame(
                set,
                Out8::of_register(register),
                alu::result(op, x, y, r.f),
                before,
                at,
            );
            lemma_out8_stable(
                set,
                Out8::of_register(register),
                alu::result(op, x, y, r.f),
                before,
                after,
                at,
            );
        },
        None => {},
    }
}

proof fn lemma_computed_frame(
    r: Registers,
    op: AluOp,
    x: u8,
    y: u8,
    out: Option<Register>,
    events: Seq<BusEvent>,
    at: int,
)
    ensures
        0 <= computed(r, op, x, y, out, events, at).events,
{
    let set = Registers { f: alu::flags_after(op, x, y, r.f), ..r };
    match out {
        Some(register) => {
            lemma_out8_frame(
                set,
                Out8::of_register(register),
                alu::result(op, x, y, r.f),
                events,
                at,
            );
        },
        None => {},
    }
}

proof fn lemma_accumulated_stable(
    r: Registers,
    op: AluOp,
    from: In8,
    before: Seq<BusEvent>,
    after: Seq<BusEvent>,
    at: int,
)
    requires
        0 <= at,
        extends(before, after),
        at + accumulated(r, op, from, before, at).events <= before.len(),
    ensures
        accumulated(r, op, from, after, at) == accumulated(r, op, from, before, at),
{
    let operand = in8(r, from, before, at);
    lemma_in8_frame(r, from, before, at);
    lemma_computed_frame(
        operand.registers,
        op,
        operand.registers.a,
        operand.value,
        Some(Register::A),
        before,
        at + operand.events,
    );
    lemma_in8_stable(r, from, before, after, at);
    lemma_computed_stable(
        operand.registers,
        op,
        operand.registers.a,
        operand.value,
        Some(Register::A),
        before,
        after,
        at + operand.events,
    );
}

proof fn lemma_modified_stable(
    r: Registers,
    op: AluOp,
    y: u8,
    target: Register,
    keep: bool,
    before: Seq<BusEvent>,
    after: Seq<BusEvent>,
    at: int,
)
    requires
        0 <= at,
        extends(before, after),
        at + modified(r, op, y, target, keep, before, at).events <= before.len(),
    ensures
        modified(r, op, y, target, keep, after, at) == modified(r, op, y, target, keep, before, at),
{
    let operand = in8(r, In8::of_register(target), before, at);
    let out = if keep {
        Some(target)
    } else {
        None
    };
    lemma_in8_frame(r, In8::of_register(target), before, at);
    lemma_computed_frame(operand.registers, op, operand.value, y, out, before, at + operand.events);
    lemma_in8_stable(r, In8::of_register(target), before, after, at);
    lemma_computed_stable(
        operand.registers,
        op,
        operand.value,
        y,
        out,
        before,
        after,
        at + operand.events,
    );
}

proof fn lemma_moved8_stable(
    r: Registers,
    to: Out8,
    from: In8,
    before: Seq<BusEvent>,
    after: Seq<BusEvent>,
    at: int,
)
    requires
        0 <= at,
        extends(before, after),
        at + moved8(r, to, from, before, at).events <= before.len(),
    ensures
        moved8(r, to, from, after, at) == moved8(r, to, from, before, at),
{
    let source = in8(r, from, before, at);
    lemma_in8_frame(r, from, before, at);
    lemma_out8_frame(source.registers, to, source.value, before, at + source.events);
    lemma_in8_stable(r, from, before, after, at);
    lemma_out8_stable(source.registers, to, source.value, before, after, at + source.events);
}

proof fn lemma_counted_stable(
    r: Registers,
    arg: IncDecArg,
    up: bool,
    before: Seq<BusEvent>,
    after: Seq<BusEvent>,
    at: int,
)
    requires
        0 <= at,
        extends(before, after),
        at + counted(r, arg, up, before, at).events <= before.len(),
    ensures
        counted(r, arg, up, after, at) == counted(r, arg, up, before, at),
{
    match arg {
        IncDecArg::Register(register) => {
            let step = if up {
                1int
            } else {
                -1int
            };
            let operand = in8(r, In8::of_register(register), before, at);
            let value = wrap8(operand.value + step);
            lemma_in8_frame(r, In8::of_register(register), before, at);
            lemma_out8_frame(
                operand.registers,
                Out8::of_register(register),
                value,
                before,
                at + operand.events,
            );
            lemma_in8_stable(r, In8::of_register(register), before, after, at);
            lemma_out8_stable(
                operand.registers,
                Out8::of_register(register),
                value,
                before,
                after,
                at + operand.events,
            );
        },
        IncDecArg::RegisterPairSP(_) => {},
    }
}

proof fn lemma_added_stable(
    r: Registers,
    arg: AddArg,
    before: Seq<BusEvent>,
    after: Seq<BusEvent>,
    at: int,
)
    requires
        0 <= at,
        extends(before, after),
        at + added(r, arg, before, at).events <= before.len(),
    ensures
        added(r, arg, after, at) == added(r, arg, before, at),
{
    match arg {
        AddArg::ImmediateU8 => lemma_accumulated_stable(r, AluOp::ADD, In8::N, before, after, at),
        AddArg::Register(register) => lemma_accumulated_stable(
            r,
            AluOp::ADD,
            In8::of_register(register),
            before,
            after,
            at,
        ),
        _ => {},
    }
}

proof fn lemma_load_stable(
    r: Registers,
    args: LoadArgs,
    before: Seq<BusEvent>,
    after: Seq<BusEvent>,
    at: int,
)
    requires
        0 <= at,
        extends(before, after),
        at + load(r, args, before, at).events <= before.len(),
    ensures
        load(r, args, after, at) == load(r, args, before, at),
{
    match args {
        LoadArgs::RegisterToRegister(to, from) => lemma_moved8_stable(
            r,
            Out8::of_register(to),
            In8::of_register(from),
            before,
            after,
            at,
        ),
        LoadArgs::RegisterFromImmediateU8(to) => lemma_moved8_stable(
            r,
            Out8::of_register(to),
            In8::N,
            before,
            after,
            at,
        ),
        LoadArgs::AFromIndirect(from) => lemma_moved8_stable(
            r,
            Out8::A,
            In8::of_indirect(from),
            before,
            after,
            at,
        ),
        LoadArgs::IndirectFromA(to) => lemma_moved8_stable(
            r,
            Out8::of_indirect(to),
            In8::A,
            before,
            after,
            at,
        ),
        _ => {},
    }
}

proof fn lemma_flow_stable(
    r: Registers,
    instruction: Instruction,
    before: Seq<BusEvent>,
    after: Seq<BusEvent>,
    at: int,
)
    requires
        0 <= at,
        extends(before, after),
        at + effect(r, instruction, before, at).events <= before.len(),
        instruction is CALL || instruction is JP || instruction is JR || instruction is RET
            || instruction is RETI || instruction is RST || instruction is PUSH
            || instruction is POP,
    ensures
        effect(r, instruction, after, at) == effect(r, instruction, before, at),
{
}

/// What an instruction means depends on its own events alone: events that
/// come later change nothing of it.
pub proof fn lemma_effect_stable(
    r: Registers,
    instruction: Instruction,
    before: Seq<BusEvent>,
    after: Seq<BusEvent>,
    at: int,
)
    requires
        0 <= at,
        extends(before, after),
        at + effect(r, instruction, before, at).events <= before.len(),
    ensures
        effect(r, instruction, after, at) == effect(r, instruction, before, at),
{
    match instruction {
        Instruction::ADC(from) => lemma_accumulated_stable(
            r,
            AluOp::ADC,
            In8::of_alu_arg(from),
            before,
            after,
            at,
        ),
        Instruction::ADD(arg) => lemma_added_stable(r, arg, before, after, at),
        Instruction::AND(from) => lemma_accumulated_stable(
            r,
            AluOp::AND,
            In8::of_alu_arg(from),
            before,
            after,
            at,
        ),
        Instruction::CP(from) => lemma_accumulated_stable(
            r,
            AluOp::CP,
            In8::of_alu_arg(from),
            before,
            after,
            at,
        ),
        Instruction::OR(from) => lemma_accumulated_stable(
            r,
            AluOp::OR,
            In8::of_alu_arg(from),
            before,
            after,
            at,
        ),
        Instruction::SBC(from) => lemma_accumulated_stable(
            r,
            AluOp::SBC,
            In8::of_alu_arg(from),
            before,
            after,
            at,
        ),
        Instruction::SUB(from) => lemma_accumulated_stable(
            r,
            AluOp::SUB,
            In8::of_alu_arg(from),
            before,
            after,
            at,
        ),
        Instruction::XOR(from) => lemma_accumulated_stable(
            r,
            AluOp::XOR,
            In8::of_alu_arg(from),
            before,
            after,
            at,
        ),
        Instruction::DEC(arg) => lemma_counted_stable(r, arg, false, before, after, at),
        Instruction::INC(arg) => lemma_counted_stable(r, arg, true, before, after, at),
        Instruction::LD(args) => lemma_load_stable(r, args, before, after, at),
        Instruction::BIT(bit, target) => lemma_modified_stable(
            r,
            AluOp::BIT,
            bit,
            target,
            false,
            before,
            after,
            at,
        ),
        Instruction::RES(bit, target) => lemma_modified_stable(
            r,
            AluOp::RES,
            bit,
            target,
            true,
            before,
            after,
            at,
        ),
        Instruction::SET(bit, target) => lemma_modified_stable(
            r,
            AluOp::SET,
            bit,
            target,
            true,
            before,
            after,
            at,
        ),
        Instruction::RL(target) => lemma_modified_stable(
            r,
            AluOp::RL,
            0,
            target,
            true,
            before,
            after,
            at,
        ),
        Instruction::RLC(target) => lemma_modified_stable(
            r,
            AluOp::RLC,
            0,
            target,
            true,
            before,
            after,
            at,
        ),
        Instruction::RR(target) => lemma_modified_stable(
            r,
            AluOp::RR,
            0,
            target,
            true,
            before,
            after,
            at,
        ),
        Instruction::RRC(target) => lemma_modified_stable(
            r,
            AluOp::RRC,
            0,
            target,
            true,
            before,
            after,
            at,
        ),
        Instruction::SLA(target) => lemma_modified_stable(
            r,
            AluOp::SLA,
            0,
            target,
            true,
            before,
            after,
            at,
        ),
        Instruction::SRA(target) => lemma_modified_stable(
            r,
            AluOp::SRA,
            0,
            target,
            true,
            before,
            after,
            at,
        ),
        Instruction::SRL(target) => lemma_modified_stable(
            r,
            AluOp::SRL,
            0,
            target,
            true,
            before,
            after,
            at,
        ),
        Instruction::SWAP(target) => lemma_modified_stable(
            r,
            AluOp::SWAP,
            0,
            target,
            true,
            before,
            after,
            at,
        ),
        Instruction::CALL(_)
        | Instruction::JP(_)
        | Instruction::JR(_)
        | Instruction::RET(_)
        | Instruction::RETI
        | Instruction::RST(_)
        | Instruction::PUSH(_)
        | Instruction::POP(_) => lemma_flow_stable(r, instruction, before, after, at),
        _ => {},
    }
}

/// What fetching and decoding means depends on its own events alone.
pub proof fn lemma_fetched_stable(
    r: Registers,
    before: Seq<BusEvent>,
    after: Seq<BusEvent>,
    at: int,
)
    requires
        0 <= at,
        extends(before, after),
        at + fetched(r, before, at).events <= before.len(),
    ensures
        fetched(r, after, at) == fetched(r, before, at),
{
}

} // verus!
