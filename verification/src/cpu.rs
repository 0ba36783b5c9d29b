//! The CPU: registers, a bus, and the interpreter that drives both.

pub mod alu;
pub mod flags;
pub mod instructions;
pub mod interrupt;
pub mod io;
pub mod registers;
pub mod semantics;

pub use flags::Flags;
pub use interrupt::Interrupt;
pub use semantics::{BusEvent, Core, Fault};

use alu::AluOp;
use instructions::{
    AddArg, Condition, IncDecArg, Instruction, LoadArgs, Register, RegisterPairSP,
};
use io::{In16, In8, Out16, Out8};
use registers::{join, split, Registers};
use semantics::{
    accumulated, accumulator_only, added, called, computed, continues, counted, effect,
    executed, extends, fetched, holds, immediate16, immediate8, in16, in8, jumped,
    jumped_relative, lemma_effect_stable, lemma_fetched_stable, lemma_in8_stable, load, loaded,
    modified, moved16, moved8, offset_flags, out16, out8, popped, pushed, restarted, returned,
    served, signed, stack_effect, stepped, stored, wrap16, Access, Effect,
};
use vstd::prelude::*;

verus! {

/// What the CPU needs of the machine around it. Every memory access and
/// every internal delay of an instruction is one call, and each call is one
/// m-cycle for the devices behind the bus.
pub trait Bus {
    /// What the bus must be for its methods to work.
    spec fn inv(&self) -> bool;

    /// Everything the CPU has asked of this bus, in order.
    spec fn events(&self) -> Seq<BusEvent>;

    /// Whether `after` is what this bus can be once it has served `event`.
    spec fn accepts(&self, event: BusEvent, after: &Self) -> bool;

    fn read_m_cycle(&mut self, addr: u16) -> (value: u8)
        requires
            old(self).inv(),
        ensures
            final(self).inv(),
            final(self).events() == old(self).events().push(BusEvent::Read { addr, value }),
            old(self).accepts(BusEvent::Read { addr, value }, final(self)),
    ;

    fn tick_m_cycle(&mut self)
        requires
            old(self).inv(),
        ensures
            final(self).inv(),
            final(self).events() == old(self).events().push(BusEvent::Tick),
            old(self).accepts(BusEvent::Tick, final(self)),
    ;

    fn write_m_cycle(&mut self, addr: u16, value: u8)
        requires
            old(self).inv(),
        ensures
            final(self).inv(),
            final(self).events() == old(self).events().push(BusEvent::Write { addr, value }),
            old(self).accepts(BusEvent::Write { addr, value }, final(self)),
    ;

    fn pop_interrupt(&mut self) -> (interrupt: Option<Interrupt>)
        requires
            old(self).inv(),
        ensures
            final(self).inv(),
            final(self).events() == old(self).events().push(BusEvent::Acknowledge(interrupt)),
            old(self).accepts(BusEvent::Acknowledge(interrupt), final(self)),
    ;

    fn should_handle_interrupt(&mut self) -> (pending: bool)
        requires
            old(self).inv(),
        ensures
            final(self).inv(),
            final(self).events() == old(self).events().push(BusEvent::Poll(pending)),
            old(self).accepts(BusEvent::Poll(pending), final(self)),
    ;
}

/// `chain` leads from `before` to `after`: one bus for every event that
/// `after` has recorded beyond those of `before`, each accepted by the bus
/// before it.
pub open spec fn links<B: Bus>(before: B, after: B, chain: Seq<B>) -> bool {
    let at = before.events().len() as int;
    &&& chain.len() == after.events().len() - at + 1
    &&& chain[0] == before
    &&& chain[chain.len() - 1] == after
    &&& forall|i: int|
        0 <= i < chain.len() - 1 ==> (#[trigger] chain[i]).accepts(
            after.events()[at + i],
            &chain[i + 1],
        )
}

/// `after` is what `before` can be once it has served, one by one, the events
/// that `after` has recorded beyond those of `before`.
#[verifier::opaque]
pub open spec fn reaches<B: Bus>(before: B, after: B) -> bool {
    &&& extends(before.events(), after.events())
    &&& exists|chain: Seq<B>| links(before, after, chain)
}

proof fn lemma_reaches_itself<B: Bus>(bus: B)
    ensures
        reaches(bus, bus),
{
    reveal(reaches);
    assert(links(bus, bus, seq![bus]));
}

proof fn lemma_reaches_next<B: Bus>(before: B, event: BusEvent, after: B)
    requires
        before.accepts(event, &after),
        after.events() == before.events().push(event),
    ensures
        reaches(before, after),
{
    reveal(reaches);
    assert(links(before, after, seq![before, after]));
}

proof fn lemma_reaches_on<B: Bus>(first: B, second: B, third: B)
    requires
        reaches(first, second),
        reaches(second, third),
    ensures
        reaches(first, third),
{
    reveal(reaches);
    let head = choose|chain: Seq<B>| links(first, second, chain);
    let tail = choose|chain: Seq<B>| links(second, third, chain);
    let chain = head + tail.subrange(1, tail.len() as int);
    let at = first.events().len() as int;
    let middle = second.events().len() as int;
    assert forall|i: int| 0 <= i < chain.len() - 1 implies (#[trigger] chain[i]).accepts(
        third.events()[at + i],
        &chain[i + 1],
    ) by {
        if i < head.len() - 1 {
            assert(chain[i] == head[i]);
            assert(chain[i + 1] == head[i + 1]);
            assert(third.events()[at + i] == second.events()[at + i]);
        } else {
            let j = i - (head.len() - 1);
            assert(chain[i] == tail[j]);
            assert(chain[i + 1] == tail[j + 1]);
            assert(at + i == middle + j);
        }
    }
    assert(links(first, third, chain));
}

/// A bus reaches itself, it reaches what it becomes by serving one event, and
/// what a bus it reaches reaches.
pub proof fn lemma_reaches<B: Bus>()
    ensures
        forall|bus: B| #[trigger] reaches(bus, bus),
        forall|before: B, event: BusEvent, after: B|
            #[trigger] before.accepts(event, &after) && after.events() == before.events().push(
                event,
            ) ==> reaches(before, after),
        forall|first: B, second: B, third: B|
            #[trigger] reaches(first, second) && #[trigger] reaches(second, third) ==> reaches(
                first,
                third,
            ),
{
    assert forall|bus: B| #[trigger] reaches(bus, bus) by {
        lemma_reaches_itself(bus);
    }
    assert forall|before: B, event: BusEvent, after: B|
        #[trigger] before.accepts(event, &after) && after.events() == before.events().push(
            event,
        ) implies reaches(before, after) by {
        lemma_reaches_next(before, event, after);
    }
    assert forall|first: B, second: B, third: B|
        #[trigger] reaches(first, second) && #[trigger] reaches(second, third) implies reaches(
            first,
            third,
        ) by {
        lemma_reaches_on(first, second, third);
    }
}

pub struct CPU<B: Bus> {
    pub bus: B,
    pub registers: Registers,
    pub halt: bool,
    pub ime: bool,
}

impl<B: Bus> CPU<B> {
    /// The state of the CPU apart from its bus.
    pub open spec fn state(&self) -> Core {
        Core { registers: self.registers, halt: self.halt, ime: self.ime }
    }

    /// The index that the next event on the bus will have.
    pub open spec fn at(&self) -> int {
        self.bus.events().len() as int
    }

    /// Between `before` and `after` the CPU did what `effect` says: the bus
    /// saw the events, the registers hold the result, nothing else changed.
    pub open spec fn carried_out(before: Self, after: Self, effect: Effect) -> bool {
        &&& after.bus.inv()
        &&& reaches(before.bus, after.bus)
        &&& continues(before.bus.events(), after.bus.events(), effect.events)
        &&& effect.conforms
        &&& after.registers == effect.registers
        &&& after.halt == before.halt
        &&& after.ime == before.ime
    }

    /// As `carried_out`, for a step that yields `value`.
    pub open spec fn obtained<T>(before: Self, after: Self, access: Access<T>, value: T) -> bool {
        &&& after.bus.inv()
        &&& reaches(before.bus, after.bus)
        &&& continues(before.bus.events(), after.bus.events(), access.events)
        &&& access.conforms
        &&& after.registers == access.registers
        &&& access.value == value
        &&& after.halt == before.halt
        &&& after.ime == before.ime
    }

    /// A CPU in the state that the boot program leaves: the registers at
    /// their post-boot values, running, interrupts disabled.
    pub fn new(bus: B) -> (cpu: Self)
        ensures
            cpu.bus == bus,
            cpu.registers == Registers::post_boot(),
            !cpu.halt,
            !cpu.ime,
    {
        proof {
            lemma_reaches::<B>();
        }
        CPU { bus, registers: Registers::default(), halt: false, ime: false }
    }

    pub fn halt(&self) -> (r: bool)
        ensures
            r == self.halt,
    {
        self.halt
    }

    pub fn ime(&self) -> (r: bool)
        ensures
            r == self.ime,
    {
        self.ime
    }

    pub fn bus(&self) -> (r: &B)
        ensures
            *r == self.bus,
    {
        &self.bus
    }

    pub fn registers(&self) -> (r: &Registers)
        ensures
            *r == self.registers,
    {
        &self.registers
    }

    /// Reads the byte at PC and moves PC on.
    pub fn fetch_next(&mut self) -> (value: u8)
        requires
            old(self).bus.inv(),
        ensures
            Self::obtained(
                *old(self),
                *final(self),
                immediate8(old(self).registers, final(self).bus.events(), old(self).at()),
                value,
            ),
    {
        proof {
            lemma_reaches::<B>();
        }
        let pc = self.registers.pc();
        let value = self.bus.read_m_cycle(pc);
        self.registers.set_pc(pc.wrapping_add(1));
        value
    }

    /// Reads the word at PC, low byte first, and moves PC on.
    pub fn fetch_next16(&mut self) -> (value: u16)
        requires
            old(self).bus.inv(),
        ensures
            Self::obtained(
                *old(self),
                *final(self),
                immediate16(old(self).registers, final(self).bus.events(), old(self).at()),
                value,
            ),
    {
        proof {
            lemma_reaches::<B>();
        }
        let low = self.fetch_next();
        let high = self.fetch_next();
        join(high, low)
    }

    /// Reads the opcode at PC, and the one behind it after the prefix 0xCB,
    /// and decodes it. An opcode without an instruction is a fault.
    pub fn fetch_and_decode(&mut self) -> (instruction: Result<Instruction, Fault>)
        requires
            old(self).bus.inv(),
        ensures
            Self::obtained(
                *old(self),
                *final(self),
                fetched(old(self).registers, final(self).bus.events(), old(self).at()),
                instruction,
            ),
            instruction matches Ok(decoded) ==> decoded.well_formed(),
    {
        proof {
            lemma_reaches::<B>();
        }
        let opcode = self.fetch_next();
        if opcode == 0xCB {
            let opcode = self.fetch_next();
            match Instruction::try_decode_prefixed(opcode) {
                Ok(instruction) => Ok(instruction),
                Err(_) => Err(Fault::InvalidOpcode(opcode)),
            }
        } else {
            match Instruction::try_decode(opcode) {
                Ok(instruction) => Ok(instruction),
                Err(_) => Err(Fault::InvalidOpcode(opcode)),
            }
        }
    }

    /// Whether a jump under `condition` is taken with the flags as they are.
    pub fn check_condition(&self, condition: Option<Condition>) -> (r: bool)
        ensures
            r == holds(condition, self.registers.f),
    {
        match condition {
            None => true,
            Some(Condition::Carry) => self.registers.f().carry,
            Some(Condition::NonCarry) => !self.registers.f().carry,
            Some(Condition::Zero) => self.registers.f().zero,
            Some(Condition::NonZero) => !self.registers.f().zero,
        }
    }

    /// Reads the byte at `addr`.
    fn load_from(&mut self, addr: u16) -> (value: u8)
        requires
            old(self).bus.inv(),
        ensures
            Self::obtained(
                *old(self),
                *final(self),
                loaded(old(self).registers, addr, final(self).bus.events(), old(self).at()),
                value,
            ),
    {
        proof {
            lemma_reaches::<B>();
        }
        self.bus.read_m_cycle(addr)
    }

    /// Writes `value` to `addr`.
    fn store_to(&mut self, addr: u16, value: u8)
        requires
            old(self).bus.inv(),
        ensures
            Self::carried_out(
                *old(self),
                *final(self),
                stored(old(self).registers, addr, value, final(self).bus.events(), old(self).at()),
            ),
    {
        proof {
            lemma_reaches::<B>();
        }
        self.bus.write_m_cycle(addr, value)
    }

    /// Takes a byte from `from`.
    pub fn read_byte(&mut self, from: In8) -> (value: u8)
        requires
            old(self).bus.inv(),
        ensures
            Self::obtained(
                *old(self),
                *final(self),
                in8(old(self).registers, from, final(self).bus.events(), old(self).at()),
                value,
            ),
    {
        proof {
            lemma_reaches::<B>();
        }
        proof {
            reveal(in8);
        }
        match from {
            In8::A => self.registers.a(),
            In8::B => self.registers.b(),
            In8::C => self.registers.c(),
            In8::D => self.registers.d(),
            In8::E => self.registers.e(),
            In8::H => self.registers.h(),
            In8::L => self.registers.l(),
            In8::N => self.fetch_next(),
            In8::BC => {
                let addr = self.registers.bc();
                self.load_from(addr)
            },
            In8::DE => {
                let addr = self.registers.de();
                self.load_from(addr)
            },
            In8::HL => {
                let addr = self.registers.hl();
                self.load_from(addr)
            },
            In8::HLMinus => {
                let hl = self.registers.hl();
                self.registers.set_hl(hl.wrapping_sub(1));
                self.load_from(hl)
            },
            In8::HLPlus => {
                let hl = self.registers.hl();
                self.registers.set_hl(hl.wrapping_add(1));
                self.load_from(hl)
            },
            In8::NN => {
                let nn = self.fetch_next16();
                self.load_from(nn)
            },
            In8::CHigh => {
                let addr = 0xFF00 + self.registers.c() as u16;
                self.load_from(addr)
            },
            In8::NHigh => {
                let n = self.fetch_next();
                let addr = 0xFF00 + n as u16;
                self.load_from(addr)
            },
        }
    }

    /// Takes a word from `from`.
    pub fn read_word(&mut self, from: In16) -> (value: u16)
        requires
            old(self).bus.inv(),
        ensures
            Self::obtained(
                *old(self),
                *final(self),
                in16(old(self).registers, from, final(self).bus.events(), old(self).at()),
                value,
            ),
    {
        proof {
            lemma_reaches::<B>();
        }
        match from {
            In16::AF => self.registers.af(),
            In16::BC => self.registers.bc(),
            In16::DE => self.registers.de(),
            In16::HL => self.registers.hl(),
            In16::NN => self.fetch_next16(),
            In16::SP => self.registers.sp(),
        }
    }

    /// Puts `value` to `to`.
    pub fn write_byte(&mut self, value: u8, to: Out8)
        requires
            old(self).bus.inv(),
        ensures
            Self::carried_out(
                *old(self),
                *final(self),
                out8(old(self).registers, to, value, final(self).bus.events(), old(self).at()),
            ),
    {
        proof {
            lemma_reaches::<B>();
        }
        proof {
            reveal(out8);
        }
        match to {
            Out8::A => self.registers.set_a(value),
            Out8::B => self.registers.set_b(value),
            Out8::C => self.registers.set_c(value),
            Out8::D => self.registers.set_d(value),
            Out8::E => self.registers.set_e(value),
            Out8::H => self.registers.set_h(value),
            Out8::L => self.registers.set_l(value),
            Out8::BC => {
                let addr = self.registers.bc();
                self.store_to(addr, value)
            },
            Out8::DE => {
                let addr = self.registers.de();
                self.store_to(addr, value)
            },
            Out8::HL => {
                let addr = self.registers.hl();
                self.store_to(addr, value)
            },
            Out8::HLMinus => {
                let hl = self.registers.hl();
                self.registers.set_hl(hl.wrapping_sub(1));
                self.store_to(hl, value);
            },
            Out8::HLPlus => {
                let hl = self.registers.hl();
                self.registers.set_hl(hl.wrapping_add(1));
                self.store_to(hl, value);
            },
            Out8::NN => {
                let nn = self.fetch_next16();
                self.store_to(nn, value);
            },
            Out8::CHigh => {
                let addr = 0xFF00 + self.registers.c() as u16;
                self.store_to(addr, value);
            },
            Out8::NHigh => {
                let n = self.fetch_next();
                let addr = 0xFF00 + n as u16;
                self.store_to(addr, value);
            },
        }
    }

    /// Puts `value` to `to`.
    pub fn write_word(&mut self, value: u16, to: Out16)
        requires
            old(self).bus.inv(),
        ensures
            Self::carried_out(
                *old(self),
                *final(self),
                out16(old(self).registers, to, value, final(self).bus.events(), old(self).at()),
            ),
    {
        proof {
            lemma_reaches::<B>();
        }
        match to {
            Out16::AF => self.registers.set_af(value),
            Out16::BC => self.registers.set_bc(value),
            Out16::DE => self.registers.set_de(value),
            Out16::HL => self.registers.set_hl(value),
            Out16::NN => {
                let addr = self.fetch_next16();
                let (high, low) = split(value);
                self.bus.write_m_cycle(addr, low);
                self.bus.write_m_cycle(addr.wrapping_add(1), high);
            },
            Out16::SP => self.registers.set_sp(value),
        }
    }

    /// Moves a byte from `from` to `to`.
    pub fn ld_byte(&mut self, to: Out8, from: In8)
        requires
            old(self).bus.inv(),
        ensures
            Self::carried_out(
                *old(self),
                *final(self),
                moved8(old(self).registers, to, from, final(self).bus.events(), old(self).at()),
            ),
    {
        proof {
            lemma_reaches::<B>();
        }
        let value = self.read_byte(from);
        let ghost read = self.bus.events();
        self.write_byte(value, to);
        proof {
            lemma_in8_stable(old(self).registers, from, read, self.bus.events(), old(self).at());
        }
    }

    /// Moves a word from `from` to `to`.
    pub fn ld_word(&mut self, to: Out16, from: In16)
        requires
            old(self).bus.inv(),
        ensures
            Self::carried_out(
                *old(self),
                *final(self),
                moved16(old(self).registers, to, from, final(self).bus.events(), old(self).at()),
            ),
    {
        proof {
            lemma_reaches::<B>();
        }
        let value = self.read_word(from);
        self.write_word(value, to);
    }

    /// Pops a word off the stack.
    pub fn pop(&mut self) -> (value: u16)
        requires
            old(self).bus.inv(),
        ensures
            Self::obtained(
                *old(self),
                *final(self),
                popped(old(self).registers, final(self).bus.events(), old(self).at()),
                value,
            ),
    {
        proof {
            lemma_reaches::<B>();
        }
        let sp = self.registers.sp();
        let low = self.bus.read_m_cycle(sp);
        let sp = sp.wrapping_add(1);
        let high = self.bus.read_m_cycle(sp);
        let sp = sp.wrapping_add(1);
        self.registers.set_sp(sp);
        join(high, low)
    }

    /// Pushes `value` onto the stack.
    pub fn push(&mut self, value: u16)
        requires
            old(self).bus.inv(),
        ensures
            Self::carried_out(
                *old(self),
                *final(self),
                pushed(old(self).registers, value, final(self).bus.events(), old(self).at()),
            ),
    {
        proof {
            lemma_reaches::<B>();
        }
        let sp = self.registers.sp();
        self.bus.tick_m_cycle();
        let (high, low) = split(value);
        let sp = sp.wrapping_sub(1);
        self.bus.write_m_cycle(sp, high);
        let sp = sp.wrapping_sub(1);
        self.bus.write_m_cycle(sp, low);
        self.registers.set_sp(sp);
    }

    /// Lets the ALU perform `op` on `x` and `y`, puts the flags to F and the
    /// result to `out`, if there is one.
    pub fn alu_op(&mut self, op: AluOp, x: u8, y: u8, out: Option<Register>)
        requires
            old(self).bus.inv(),
            op.takes_bit_index() ==> y < 8,
        ensures
            Self::carried_out(
                *old(self),
                *final(self),
                computed(
                    old(self).registers,
                    op,
                    x,
                    y,
                    out,
                    final(self).bus.events(),
                    old(self).at(),
                ),
            ),
    {
        proof {
            lemma_reaches::<B>();
        }
        let flags = self.registers.f();
        let (result, flags) = alu::execute(op, x, y, flags);
        self.registers.set_f(flags);
        if let Some(out) = out {
            self.write_byte(result, Out8::from(out));
        }
    }

    /// Performs `op` on A and the byte from `from`, and puts the result to A.
    fn accumulate(&mut self, op: AluOp, from: In8)
        requires
            old(self).bus.inv(),
            !op.takes_bit_index(),
        ensures
            Self::carried_out(
                *old(self),
                *final(self),
                accumulated(
                    old(self).registers,
                    op,
                    from,
                    final(self).bus.events(),
                    old(self).at(),
                ),
            ),
    {
        proof {
            lemma_reaches::<B>();
        }
        let y = self.read_byte(from);
        let ghost read = self.bus.events();
        let a = self.registers.a();
        self.alu_op(op, a, y, Some(Register::A));
        proof {
            lemma_in8_stable(old(self).registers, from, read, self.bus.events(), old(self).at());
        }
    }

    /// Performs `op` on the byte in `target` and `y`, and puts the result
    /// back where `keep` holds.
    fn modify(&mut self, op: AluOp, y: u8, target: Register, keep: bool)
        requires
            old(self).bus.inv(),
            op.takes_bit_index() ==> y < 8,
        ensures
            Self::carried_out(
                *old(self),
                *final(self),
                modified(
                    old(self).registers,
                    op,
                    y,
                    target,
                    keep,
                    final(self).bus.events(),
                    old(self).at(),
                ),
            ),
    {
        proof {
            lemma_reaches::<B>();
        }
        let x = self.read_byte(In8::from(target));
        let ghost read = self.bus.events();
        self.alu_op(op, x, y, if keep { Some(target) } else { None });
        proof {
            lemma_in8_stable(
                old(self).registers,
                In8::of_register(target),
                read,
                self.bus.events(),
                old(self).at(),
            );
        }
    }

    /// Performs `op` on A alone, and clears Z afterwards where `clear_zero`
    /// holds.
    fn on_accumulator(&mut self, op: AluOp, clear_zero: bool)
        requires
            old(self).bus.inv(),
            !op.takes_bit_index(),
        ensures
            Self::carried_out(
                *old(self),
                *final(self),
                accumulator_only(old(self).registers, op, clear_zero),
            ),
    {
        proof {
            lemma_reaches::<B>();
        }
        proof {
            reveal(out8);
        }
        let a = self.registers.a();
        self.alu_op(op, a, 0, Some(Register::A));
        if clear_zero {
            let flags = self.registers.f();
            self.registers.set_f(Flags { zero: false, ..flags });
        }
    }

    fn execute_add(&mut self, arg: AddArg)
        requires
            old(self).bus.inv(),
        ensures
            Self::carried_out(
                *old(self),
                *final(self),
                added(old(self).registers, arg, final(self).bus.events(), old(self).at()),
            ),
    {
        proof {
            lemma_reaches::<B>();
        }
        match arg {
            AddArg::ImmediateU8 => self.accumulate(AluOp::ADD, In8::N),
            AddArg::Register(register) => self.accumulate(AluOp::ADD, In8::from(register)),
            AddArg::RegisterPairSP(pair) => {
                let flags = self.registers.f();
                let hl = self.read_word(In16::HL);
                let value = self.read_word(In16::from(pair));
                let (sum, flags) = add_words(hl, value, flags);
                self.write_word(sum, Out16::HL);
                self.registers.set_f(flags);
                self.bus.tick_m_cycle();
            },
            AddArg::SPd => {
                let d = self.fetch_next();
                let sp = self.read_word(In16::SP);
                let (sum, flags) = add_offset(sp, d);
                self.write_word(sum, Out16::SP);
                self.registers.set_f(flags);
                self.bus.tick_m_cycle();
                self.bus.tick_m_cycle();
            },
        }
    }

    fn count_byte(&mut self, register: Register, up: bool)
        requires
            old(self).bus.inv(),
        ensures
            Self::carried_out(
                *old(self),
                *final(self),
                counted(
                    old(self).registers,
                    IncDecArg::Register(register),
                    up,
                    final(self).bus.events(),
                    old(self).at(),
                ),
            ),
    {
        proof {
            lemma_reaches::<B>();
        }
        let value = self.read_byte(In8::from(register));
        let ghost read = self.bus.events();
        // A carry or borrow leaves the low nibble where it is all ones before
        // an increment, all zeros before a decrement.
        let (result, half_carry) = if up {
            (value.wrapping_add(1), value % 0x10 == 0xF)
        } else {
            (value.wrapping_sub(1), value % 0x10 == 0)
        };
        self.write_byte(result, Out8::from(register));
        proof {
            lemma_in8_stable(
                old(self).registers,
                In8::of_register(register),
                read,
                self.bus.events(),
                old(self).at(),
            );
        }
        let flags = self.registers.f();
        self.registers.set_f(
            Flags { zero: result == 0, subtract: !up, half_carry, carry: flags.carry },
        );
    }

    fn count_word(&mut self, pair: RegisterPairSP, up: bool)
        requires
            old(self).bus.inv(),
        ensures
            Self::carried_out(
                *old(self),
                *final(self),
                counted(
                    old(self).registers,
                    IncDecArg::RegisterPairSP(pair),
                    up,
                    final(self).bus.events(),
                    old(self).at(),
                ),
            ),
    {
        proof {
            lemma_reaches::<B>();
        }
        let from = In16::from(pair);
        let to = Out16::from(pair);
        let value = self.read_word(from);
        assert(self.bus.events() == old(self).bus.events());
        assert(self.registers == old(self).registers);
        let value = if up {
            value.wrapping_add(1)
        } else {
            value.wrapping_sub(1)
        };
        self.write_word(value, to);
        assert(self.bus.events() == old(self).bus.events());
        self.bus.tick_m_cycle();
    }

    fn execute_count(&mut self, arg: IncDecArg, up: bool)
        requires
            old(self).bus.inv(),
        ensures
            Self::carried_out(
                *old(self),
                *final(self),
                counted(old(self).registers, arg, up, final(self).bus.events(), old(self).at()),
            ),
    {
        proof {
            lemma_reaches::<B>();
        }
        match arg {
            IncDecArg::Register(register) => self.count_byte(register, up),
            IncDecArg::RegisterPairSP(pair) => self.count_word(pair, up),
        }
    }

    fn execute_load(&mut self, args: LoadArgs)
        requires
            old(self).bus.inv(),
        ensures
            Self::carried_out(
                *old(self),
                *final(self),
                load(old(self).registers, args, final(self).bus.events(), old(self).at()),
            ),
    {
        proof {
            lemma_reaches::<B>();
        }
        match args {
            LoadArgs::RegisterToRegister(to, from) => self.ld_byte(Out8::from(to), In8::from(from)),
            LoadArgs::RegisterFromImmediateU8(to) => self.ld_byte(Out8::from(to), In8::N),
            LoadArgs::RegisterPairFromImmediateU16(to) => self.ld_word(Out16::from(to), In16::NN),
            LoadArgs::AFromIndirect(from) => self.ld_byte(Out8::A, In8::from(from)),
            LoadArgs::IndirectFromA(to) => self.ld_byte(Out8::from(to), In8::A),
            LoadArgs::NNSP => self.ld_word(Out16::NN, In16::SP),
            LoadArgs::SPHL => {
                let value = self.read_word(In16::HL);
                self.write_word(value, Out16::SP);
                self.bus.tick_m_cycle();
            },
            LoadArgs::HLSPd => {
                let d = self.fetch_next();
                let sp = self.read_word(In16::SP);
                let (sum, flags) = add_offset(sp, d);
                self.write_word(sum, Out16::HL);
                self.registers.set_f(flags);
                self.bus.tick_m_cycle();
            },
        }
    }

    fn execute_jump(&mut self, condition: Option<Condition>)
        requires
            old(self).bus.inv(),
        ensures
            Self::carried_out(
                *old(self),
                *final(self),
                jumped(old(self).registers, condition, final(self).bus.events(), old(self).at()),
            ),
    {
        proof {
            lemma_reaches::<B>();
        }
        let addr = self.fetch_next16();
        if self.check_condition(condition) {
            self.registers.set_pc(addr);
            self.bus.tick_m_cycle();
        }
    }

    fn execute_jump_relative(&mut self, condition: Option<Condition>)
        requires
            old(self).bus.inv(),
        ensures
            Self::carried_out(
                *old(self),
                *final(self),
                jumped_relative(
                    old(self).registers,
                    condition,
                    final(self).bus.events(),
                    old(self).at(),
                ),
            ),
    {
        proof {
            lemma_reaches::<B>();
        }
        let d = self.fetch_next();
        // The offset as a 16-bit two's complement number.
        let offset: u16 = if d >= 0x80 {
            0xFF00 + d as u16
        } else {
            d as u16
        };
        if self.check_condition(condition) {
            let addr = self.registers.pc().wrapping_add(offset);
            self.registers.set_pc(addr);
            self.bus.tick_m_cycle();
        }
    }

    fn execute_call(&mut self, condition: Option<Condition>)
        requires
            old(self).bus.inv(),
        ensures
            Self::carried_out(
                *old(self),
                *final(self),
                called(old(self).registers, condition, final(self).bus.events(), old(self).at()),
            ),
    {
        proof {
            lemma_reaches::<B>();
        }
        let addr = self.fetch_next16();
        if self.check_condition(condition) {
            let pc = self.registers.pc();
            self.push(pc);
            self.registers.set_pc(addr);
        }
    }

    fn execute_return(&mut self, condition: Option<Condition>)
        requires
            old(self).bus.inv(),
        ensures
            Self::carried_out(
                *old(self),
                *final(self),
                returned(old(self).registers, condition, final(self).bus.events(), old(self).at()),
            ),
    {
        proof {
            lemma_reaches::<B>();
        }
        if condition.is_some() {
            self.bus.tick_m_cycle();
        }
        if self.check_condition(condition) {
            let popped = self.pop();
            self.registers.set_pc(popped);
            self.bus.tick_m_cycle();
        }
    }

    fn execute_restart(&mut self, addr: u16)
        requires
            old(self).bus.inv(),
        ensures
            Self::carried_out(
                *old(self),
                *final(self),
                restarted(old(self).registers, addr, final(self).bus.events(), old(self).at()),
            ),
    {
        proof {
            lemma_reaches::<B>();
        }
        let pc = self.registers.pc();
        self.push(pc);
        self.registers.set_pc(addr);
    }

    fn execute_stack(&mut self, instr: Instruction)
        requires
            old(self).bus.inv(),
            instr is PUSH || instr is POP,
        ensures
            Self::carried_out(
                *old(self),
                *final(self),
                stack_effect(old(self).registers, instr, final(self).bus.events(), old(self).at()),
            ),
    {
        proof {
            lemma_reaches::<B>();
        }
        match instr {
            Instruction::PUSH(from) => {
                let value = self.read_word(In16::from(from));
                self.push(value);
            },
            Instruction::POP(to) => {
                let value = self.pop();
                self.write_word(value, Out16::from(to));
            },
            _ => {},
        }
    }

    /// What `execute` does to the registers.
    fn execute_on_registers(&mut self, instr: Instruction)
        requires
            old(self).bus.inv(),
            instr.well_formed(),
        ensures
            Self::carried_out(
                *old(self),
                *final(self),
                effect(old(self).registers, instr, final(self).bus.events(), old(self).at()),
            ),
    {
        proof {
            lemma_reaches::<B>();
        }
        match instr {
            Instruction::ADC(from) => self.accumulate(AluOp::ADC, In8::from(from)),
            Instruction::ADD(arg) => self.execute_add(arg),
            Instruction::AND(from) => self.accumulate(AluOp::AND, In8::from(from)),
            Instruction::BIT(bit, target) => self.modify(AluOp::BIT, bit, target, false),
            Instruction::CALL(condition) => self.execute_call(condition),
            Instruction::CCF => self.on_accumulator(AluOp::CCF, false),
            Instruction::CP(from) => self.accumulate(AluOp::CP, In8::from(from)),
            Instruction::CPL => self.on_accumulator(AluOp::CPL, false),
            Instruction::DAA => self.on_accumulator(AluOp::DAA, false),
            Instruction::DEC(arg) => self.execute_count(arg, false),
            Instruction::DI => {},
            Instruction::EI => {},
            Instruction::INC(arg) => self.execute_count(arg, true),
            Instruction::LD(args) => self.execute_load(args),
            Instruction::HALT => {},
            Instruction::JP(condition) => self.execute_jump(condition),
            Instruction::JPHL => {
                let hl = self.registers.hl();
                self.registers.set_pc(hl)
            },
            Instruction::JR(condition) => self.execute_jump_relative(condition),
            Instruction::NOP => {},
            Instruction::OR(from) => self.accumulate(AluOp::OR, In8::from(from)),
            Instruction::POP(_) => self.execute_stack(instr),
            Instruction::PUSH(_) => self.execute_stack(instr),
            Instruction::RES(bit, target) => self.modify(AluOp::RES, bit, target, true),
            Instruction::RET(condition) => self.execute_return(condition),
            Instruction::RETI => self.execute_return(None),
            Instruction::RL(target) => self.modify(AluOp::RL, 0, target, true),
            Instruction::RLA => self.on_accumulator(AluOp::RL, true),
            Instruction::RLC(target) => self.modify(AluOp::RLC, 0, target, true),
            Instruction::RLCA => self.on_accumulator(AluOp::RLC, true),
            Instruction::RR(target) => self.modify(AluOp::RR, 0, target, true),
            Instruction::RRA => self.on_accumulator(AluOp::RR, true),
            Instruction::RRC(target) => self.modify(AluOp::RRC, 0, target, true),
            Instruction::RRCA => self.on_accumulator(AluOp::RRC, true),
            Instruction::RST(addr) => self.execute_restart(addr),
            Instruction::SBC(from) => self.accumulate(AluOp::SBC, In8::from(from)),
            Instruction::SCF => self.on_accumulator(AluOp::SCF, false),
            Instruction::SET(bit, target) => self.modify(AluOp::SET, bit, target, true),
            Instruction::SLA(target) => self.modify(AluOp::SLA, 0, target, true),
            Instruction::SRA(target) => self.modify(AluOp::SRA, 0, target, true),
            Instruction::SRL(target) => self.modify(AluOp::SRL, 0, target, true),
            Instruction::STOP => {},
            Instruction::SWAP(target) => self.modify(AluOp::SWAP, 0, target, true),
            Instruction::SUB(from) => self.accumulate(AluOp::SUB, In8::from(from)),
            Instruction::XOR(from) => self.accumulate(AluOp::XOR, In8::from(from)),
        }
    }

    /// Executes one decoded instruction, whose opcode has been fetched.
    /// Every memory access and every internal delay of the instruction is one
    /// m-cycle on the bus, in the order of the hardware. STOP is not
    /// implemented and must not be handed in.
    pub fn execute(&mut self, instr: Instruction)
        requires
            old(self).bus.inv(),
            instr.well_formed(),
            !(instr is STOP),
        ensures
            final(self).bus.inv(),
            reaches(old(self).bus, final(self).bus),
            ({
                let outcome = executed(
                    old(self).state(),
                    instr,
                    final(self).bus.events(),
                    old(self).at(),
                );
                &&& continues(old(self).bus.events(), final(self).bus.events(), outcome.events)
                &&& outcome.conforms
                &&& final(self).state() == outcome.core
            }),
    {
        proof {
            lemma_reaches::<B>();
        }
        self.execute_on_registers(instr);
        match instr {
            Instruction::DI => {
                self.ime = false;
            },
            Instruction::EI => {
                self.ime = true;
            },
            Instruction::RETI => {
                self.ime = true;
            },
            Instruction::HALT => {
                self.halt = true;
            },
            _ => {},
        }
    }

    /// Sees to interrupts once an instruction is done. A pending interrupt
    /// ends a halt; with the master enable set it is served, which takes four
    /// m-cycles and leaves PC at the vector of the interrupt with the highest
    /// priority.
    pub fn handle_interrupts(&mut self) -> (r: Result<(), Fault>)
        requires
            old(self).bus.inv(),
        ensures
            final(self).bus.inv(),
            reaches(old(self).bus, final(self).bus),
            ({
                let step = served(old(self).state(), final(self).bus.events(), old(self).at());
                &&& continues(old(self).bus.events(), final(self).bus.events(), step.events)
                &&& step.conforms
                &&& final(self).state() == step.core
                &&& r == match step.fault {
                    Some(fault) => Err::<(), Fault>(fault),
                    None => Ok::<(), Fault>(()),
                }
            }),
    {
        proof {
            lemma_reaches::<B>();
        }
        if !self.ime && !self.halt {
            return Ok(());
        }
        if !self.bus.should_handle_interrupt() {
            return Ok(());
        }
        self.halt = false;
        if !self.ime {
            return Ok(());
        }
        self.ime = false;
        self.bus.tick_m_cycle();
        self.bus.tick_m_cycle();
        let (high, low) = split(self.registers.pc());
        let sp = self.registers.sp().wrapping_sub(1);
        self.registers.set_sp(sp);
        self.bus.write_m_cycle(sp, high);
        let sp = sp.wrapping_sub(1);
        self.registers.set_sp(sp);
        self.bus.write_m_cycle(sp, low);
        match self.bus.pop_interrupt() {
            Some(interrupt) => {
                self.registers.set_pc(interrupt.to_vector());
                Ok(())
            },
            None => Err(Fault::NoInterrupt),
        }
    }

    /// Executes one instruction, or lets one m-cycle pass while halted, and
    /// then serves at most one pending interrupt.
    pub fn step(&mut self) -> (r: Result<(), Fault>)
        requires
            old(self).bus.inv(),
        ensures
            final(self).bus.inv(),
            reaches(old(self).bus, final(self).bus),
            ({
                let step = stepped(old(self).state(), final(self).bus.events(), old(self).at());
                &&& continues(old(self).bus.events(), final(self).bus.events(), step.events)
                &&& step.conforms
                &&& final(self).state() == step.core
                &&& r == match step.fault {
                    Some(fault) => Err::<(), Fault>(fault),
                    None => Ok::<(), Fault>(()),
                }
            }),
    {
        proof {
            lemma_reaches::<B>();
        }
        if !self.halt {
            match self.fetch_and_decode() {
                Ok(Instruction::STOP) => Err(Fault::Stop),
                Ok(instr) => {
                    let ghost fetch = *self;
                    self.execute(instr);
                    let ghost done = *self;
                    let r = self.handle_interrupts();
                    proof {
                        lemma_effect_stable(
                            fetch.registers,
                            instr,
                            done.bus.events(),
                            self.bus.events(),
                            fetch.at(),
                        );
                        lemma_fetched_stable(
                            old(self).registers,
                            fetch.bus.events(),
                            self.bus.events(),
                            old(self).at(),
                        );
                    }
                    r
                },
                Err(fault) => Err(fault),
            }
        } else {
            self.bus.tick_m_cycle();
            self.handle_interrupts()
        }
    }
}

/// With `c` the carry out of the low bytes, the sum of two words is made of
/// the sums of their bytes.
proof fn lemma_word_sum(h: int, l: int, yh: int, yl: int, c: int)
    requires
        0 <= h < 256,
        0 <= l < 256,
        0 <= yh < 256,
        0 <= yl < 256,
        c == (if l + yl > 255 {
            1int
        } else {
            0int
        }),
    ensures
        ((h + yh + c) % 256) * 256 + (l + yl) % 256 == (h * 256 + l + yh * 256 + yl) % 0x1_0000,
        (h + yh + c > 255) == (h * 256 + l + yh * 256 + yl > 0xFFFF),
        (h % 16 + yh % 16 + c > 15) == ((h * 256 + l) % 0x1000 + (yh * 256 + yl) % 0x1000 > 0xFFF),
{
    let low = (l + yl) % 256;
    let high = (h + yh + c) % 256;
    let top: int = if h + yh + c > 255 { 1 } else { 0 };
    assert(l + yl == c * 256 + low);
    assert(h + yh + c == top * 256 + high);
    assert(h * 256 + l + yh * 256 + yl == top * 0x1_0000 + high * 256 + low);
    assert((h * 256 + l) % 0x1000 == (h % 16) * 256 + l);
    assert((yh * 256 + yl) % 0x1000 == (yh % 16) * 256 + yl);
}

/// Adding 0xFF00 + d to a word gives what adding d - 0x100 gives.
proof fn lemma_signed_sum(sp: int, offset: int)
    requires
        0 <= sp < 0x1_0000,
        0 <= offset < 256,
    ensures
        (sp + 0xFF00 + offset) % 0x1_0000 == (sp + offset - 0x100) % 0x1_0000,
        (sp % 256 + offset > 255) == ((sp % 256) + offset > 0xFF),
        (sp % 256) % 16 == sp % 16,
{
    let a = sp + offset - 0x100;
    assert(sp + 0xFF00 + offset == a + 0x1_0000);
    if a >= 0 {
        assert((a + 0x1_0000) % 0x1_0000 == a % 0x1_0000);
    } else {
        assert((a + 0x1_0000) % 0x1_0000 == a + 0x1_0000);
        assert(a % 0x1_0000 == a + 0x1_0000);
    }
}

/// What the ALU yields for ADD and ADC, as numbers.
proof fn lemma_byte_sum(x: u8, y: u8, flags: Flags)
    ensures
        alu::result(AluOp::ADD, x, y, flags) == (x + y) % 256,
        alu::flags_after(AluOp::ADD, x, y, flags).carry == (x + y > 255),
        alu::flags_after(AluOp::ADD, x, y, flags).half_carry == (x % 16 + y % 16 > 15),
        !alu::flags_after(AluOp::ADD, x, y, flags).subtract,
        alu::result(AluOp::ADC, x, y, flags) == (x + y + alu::carry_in(flags)) % 256,
        alu::flags_after(AluOp::ADC, x, y, flags).carry == (x + y + alu::carry_in(flags) > 255),
        alu::flags_after(AluOp::ADC, x, y, flags).half_carry == (x % 16 + y % 16 + alu::carry_in(
            flags,
        ) > 15),
        !alu::flags_after(AluOp::ADC, x, y, flags).subtract,
{
    reveal(alu::summed);
}

/// The sum of two words, computed as the hardware does: the low bytes are
/// added, then the high bytes with the carry. Z stays as it is in `flags`.
fn add_words(x: u16, y: u16, flags: Flags) -> (r: (u16, Flags))
    ensures
        r.0 == wrap16(x + y),
        r.1 == (Flags {
            zero: flags.zero,
            subtract: false,
            half_carry: x % 0x1000 + y % 0x1000 > 0xFFF,
            carry: x + y > 0xFFFF,
        }),
{
    let (h, l) = split(x);
    let (high, low) = split(y);
    let (sum_low, carried) = alu::execute(AluOp::ADD, l, low, flags);
    let (sum_high, last) = alu::execute(AluOp::ADC, h, high, carried);
    proof {
        lemma_byte_sum(l, low, flags);
        lemma_byte_sum(h, high, carried);
        lemma_word_sum(h as int, l as int, high as int, low as int, alu::carry_in(carried));
    }
    (join(sum_high, sum_low), Flags { zero: flags.zero, ..last })
}

/// A word plus a signed byte, computed as the hardware does: the byte is
/// added to the low byte, then 0x00 or 0xFF with the carry to the high byte.
/// H and C come from the addition of the low bytes.
fn add_offset(sp: u16, offset: u8) -> (r: (u16, Flags))
    ensures
        r.0 == wrap16(sp + signed(offset)),
        r.1 == offset_flags(sp, offset),
{
    let (s, p) = split(sp);
    let extension: u8 = if offset >= 0x80 { 0xFF } else { 0x00 };
    let clear = Flags::empty();
    let (low, flags) = alu::execute(AluOp::ADD, p, offset, clear);
    let (high, _) = alu::execute(AluOp::ADC, s, extension, flags);
    proof {
        lemma_byte_sum(p, offset, clear);
        lemma_byte_sum(s, extension, flags);
        lemma_word_sum(s as int, p as int, extension as int, offset as int, alu::carry_in(flags));
        lemma_signed_sum(sp as int, offset as int);
    }
    (join(high, low), Flags { zero: false, subtract: false, ..flags })
}

/// A halted CPU with interrupts disabled wakes as soon as an enabled
/// interrupt is requested: the halt ends, nothing is dispatched, and the
/// registers stay, so that execution goes on behind the HALT.
pub proof fn lemma_halt_resume(core: Core, events: Seq<BusEvent>, at: int)
    requires
        core.halt,
        !core.ime,
        semantics::polled(events, at),
    ensures
        served(core, events, at).core == (Core { halt: false, ..core }),
        served(core, events, at).events == 1,
        served(core, events, at).fault is None,
{
}

/// Serving an interrupt clears the master enable, pushes PC and jumps to the
/// vector of the interrupt that the bus handed over: 0x40, 0x48, 0x50, 0x58
/// or 0x60.
pub proof fn lemma_dispatch(core: Core, events: Seq<BusEvent>, at: int, interrupt: Interrupt)
    requires
        core.ime,
        semantics::polled(events, at),
        semantics::acknowledged(events, at + 5) == Some(interrupt),
    ensures
        !served(core, events, at).core.ime,
        !served(core, events, at).core.halt,
        served(core, events, at).core.registers.pc == 0x40 + 8 * interrupt.index(),
        served(core, events, at).core.registers.sp == wrap16(core.registers.sp - 2),
        served(core, events, at).fault is None,
{
}

} // verus!
