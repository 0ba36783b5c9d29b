//! A cycle-accurate emulator core for the DMG handheld: the CPU, the bus that
//! clocks every device on each m-cycle, the timer, the PPU, the serial port,
//! the joypad and the cartridge.

pub mod bits;
pub mod bus;
pub mod cartridge;
pub mod cpu;
pub mod hal;
pub mod interrupts;
pub mod joypad;
pub mod ppu;
pub mod rom;
pub mod serial;
pub mod timer;

pub use cpu::Flags;
pub use cpu::Interrupt;
pub use hal::{Color, Joypad, HAL};
pub use rom::ROM;

use bus::Bus;
use cartridge::CartridgeState;
use cpu::registers::Registers;
use cpu::semantics::{continues, stepped};
use cpu::{lemma_reaches, reaches, BusEvent, Fault, CPU};
use vstd::prelude::*;

verus! {

/// The machine: a CPU on a bus with a cartridge, the devices and a host.
pub struct Gameboy<H: HAL> {
    pub cpu: CPU<Bus<H>>,
}

impl<H: HAL> Gameboy<H> {
    /// What every step keeps: the PPU within its frame.
    pub open spec fn inv(&self) -> bool {
        self.cpu.bus.ppu.inv()
    }

    /// The machine as the boot program leaves it, with the cartridge that
    /// the header of `rom` asks for in the slot and `hal` as its host.
    pub fn new(rom: ROM, hal: H) -> (gameboy: Self)
        requires
            rom.is_supported(),
        ensures
            gameboy.inv(),
            gameboy.cpu.registers == Registers::post_boot(),
            !gameboy.cpu.halt,
            !gameboy.cpu.ime,
            gameboy.cpu.bus.events@ == Seq::<BusEvent>::empty(),
            gameboy.cpu.bus.host.hal == hal,
            gameboy.cpu.bus.host.calls@ == Seq::<hal::HostCall>::empty(),
            gameboy.cpu.bus@.is_power_on(
                CartridgeState::fresh(rom@, ROM::kind(rom@[0x147]), ROM::ram_bytes(rom@[0x149])),
            ),
    {
        Gameboy { cpu: CPU::new(Bus::with_cartridge(rom.into_cartridge(), hal)) }
    }

    pub fn cpu(&self) -> (r: &CPU<Bus<H>>)
        ensures
            *r == self.cpu,
    {
        &self.cpu
    }

    /// The host.
    pub fn hal(&self) -> (r: &H)
        ensures
            *r == self.cpu.bus.host.hal,
    {
        self.cpu.bus().hal()
    }

    /// Whether `after` is what `before` becomes in one step that meets the
    /// fault `fault`, if any.
    ///
    /// What the step asks of the bus is recorded, event by event; the CPU is
    /// left as the instruction leaves it, given the bytes that the bus handed
    /// back; and the machine behind the bus is what it becomes by serving
    /// each of the events in turn.
    #[verifier::opaque]
    pub open spec fn steps_to(before: Self, after: Self, fault: Option<Fault>) -> bool {
        let step = stepped(
            before.cpu.state(),
            after.cpu.bus.events@,
            before.cpu.bus.events@.len() as int,
        );
        &&& after.inv()
        &&& reaches(before.cpu.bus, after.cpu.bus)
        &&& continues(before.cpu.bus.events@, after.cpu.bus.events@, step.events)
        &&& step.conforms
        &&& after.cpu.state() == step.core
        &&& fault == step.fault
    }

    /// Whether the PPU has entered the vertical blank between `before` and
    /// `after`.
    pub open spec fn enters_vblank(before: Self, after: Self) -> bool {
        !(before.cpu.bus.ppu.mode is VBlank) && after.cpu.bus.ppu.mode is VBlank
    }

    /// Whether `states` are the states of a frame that ends with `result`:
    /// each comes from the one before it by one step; the frame ends with the
    /// first step that meets a fault or enters the vertical blank, or when
    /// `max_steps` steps are made.
    pub open spec fn frame(states: Seq<Self>, result: Result<bool, Fault>, max_steps: usize) -> bool {
        let steps = states.len() - 1;
        &&& 0 <= steps <= max_steps
        &&& forall|i: int|
            0 <= i < steps - 1 ==> Self::steps_to(#[trigger] states[i], states[i + 1], None)
                && !Self::enters_vblank(states[i], states[i + 1])
        &&& if steps == 0 {
            result == Ok::<bool, Fault>(false) && max_steps == 0
        } else {
            match result {
                Err(fault) => Self::steps_to(states[steps - 1], states[steps], Some(fault)),
                Ok(entered) => {
                    &&& Self::steps_to(states[steps - 1], states[steps], None)
                    &&& entered == Self::enters_vblank(states[steps - 1], states[steps])
                    &&& !entered ==> steps == max_steps
                },
            }
        }
    }

    /// Executes one instruction, or lets one m-cycle pass while the CPU is
    /// halted, and then serves at most one pending interrupt. An opcode
    /// without an instruction, and STOP, end the step with a fault.
    pub fn step(&mut self) -> (r: Result<(), Fault>)
        requires
            old(self).inv(),
        ensures
            final(self).inv(),
            reaches(old(self).cpu.bus, final(self).cpu.bus),
            Self::steps_to(
                *old(self),
                *final(self),
                match r {
                    Ok(_) => None,
                    Err(fault) => Some(fault),
                },
            ),
    {
        proof {
            reveal(Gameboy::steps_to);
        }
        self.cpu.step()
    }

    /// Steps until the PPU enters the vertical blank, for at most `max_steps`
    /// steps. The result tells whether it did; a step that ends with a fault
    /// ends the frame with it.
    pub fn step_frame(&mut self, max_steps: usize) -> (r: Result<bool, Fault>)
        requires
            old(self).inv(),
        ensures
            final(self).inv(),
            reaches(old(self).cpu.bus, final(self).cpu.bus),
            exists|states: Seq<Self>|
                states.len() > 0 && states[0] == *old(self) && states[states.len() - 1]
                    == *final(self) && #[trigger] Self::frame(states, r, max_steps),
    {
        proof {
            lemma_reaches::<Bus<H>>();
        }
        let ghost mut states = seq![*self];
        let mut was_in_vblank = self.cpu.bus().ppu().in_vblank();
        let mut entered = false;
        let mut steps: usize = 0;
        // Run until we are in vblank but were not previously
        while !entered && steps < max_steps
            invariant
                self.inv(),
                reaches(old(self).cpu.bus, self.cpu.bus),
                steps <= max_steps,
                was_in_vblank == (self.cpu.bus.ppu.mode is VBlank),
                states.len() == steps + 1,
                states[0] == *old(self),
                states[steps as int] == *self,
                forall|i: int|
                    0 <= i < steps - 1 ==> Self::steps_to(#[trigger] states[i], states[i + 1], None)
                        && !Self::enters_vblank(states[i], states[i + 1]),
                steps > 0 ==> Self::steps_to(states[steps - 1], states[steps as int], None)
                    && entered == Self::enters_vblank(states[steps - 1], states[steps as int]),
                steps == 0 ==> !entered,
            decreases max_steps - steps,
        {
            proof {
                lemma_reaches::<Bus<H>>();
            }
            let ghost before = *self;
            let result = self.step();
            proof {
                states = states.push(*self);
                assert(states[steps as int] == before);
                assert(states[steps + 1] == *self);
            }
            match result {
                Ok(()) => {},
                Err(fault) => {
                    assert(Self::frame(states, Err(fault), max_steps));
                    return Err(fault);
                },
            }
            steps += 1;
            let in_vblank = self.cpu.bus().ppu().in_vblank();
            entered = in_vblank && !was_in_vblank;
            was_in_vblank = in_vblank;
        }
        assert(Self::frame(states, Ok(entered), max_steps));
        Ok(entered)
    }
}

} // verus!
