//! The bus: the memory map of the machine, and the clock that every access
//! of the CPU gives to the devices behind it.

use crate::cartridge::{is_cartridge_address, Cartridge, CartridgeState};
use crate::cpu::{BusEvent, Interrupt};
use crate::hal::{grown, Host, HostCall, HAL};
use crate::interrupts::Interrupts;
use crate::joypad::Joypad;
use crate::ppu::PPU;
use crate::serial::Serial;
use crate::timer::Timer;
use vstd::prelude::*;

verus! {

/// What the machine behind the bus holds, apart from the host.
pub struct BusState {
    pub cartridge: CartridgeState,
    pub ppu: PPU,
    pub wram: Seq<u8>,
    pub joypad: Joypad,
    pub serial: Serial,
    pub timer: Timer,
    pub interrupts: Interrupts,
    pub hram: Seq<u8>,
}

impl BusState {
    /// The work RAM is 8 KiB, the high RAM 127 bytes, and the PPU is within
    /// its frame.
    pub open spec fn well_formed(self) -> bool {
        &&& self.wram.len() == 0x2000
        &&& self.hram.len() == 127
        &&& self.ppu.inv()
    }

    /// The machine as the boot program leaves it, with `cartridge` in the
    /// slot: work and high RAM cleared, the internal counter of the timer at
    /// 0xABCC with TIMA, TMA and TAC at zero, no interrupt requested or
    /// enabled, SB and SC at zero, both rows of the joypad selected.
    pub open spec fn is_power_on(self, cartridge: CartridgeState) -> bool {
        &&& self.cartridge == cartridge
        &&& self.ppu.is_power_on()
        &&& self.wram == Seq::new(0x2000, |i: int| 0u8)
        &&& self.hram == Seq::new(127, |i: int| 0u8)
        &&& self.joypad.joyp.0 == 0x0F
        &&& self.serial.sb == 0 && self.serial.sc.0 == 0
        &&& self.timer.counter == 0xABCC && self.timer.tac.0 == 0 && self.timer.tima == 0
            && self.timer.tma == 0 && !self.timer.overflow
        &&& self.interrupts.intf.0 == 0 && self.interrupts.inte.0 == 0
    }

    /// The machine with `interrupt` requested where `raised` holds.
    pub open spec fn raising(self, raised: bool, interrupt: Interrupt) -> BusState {
        if raised {
            BusState { interrupts: self.interrupts.requested(interrupt), ..self }
        } else {
            self
        }
    }

    /// What a read of `addr` yields, for every address but that of the
    /// joypad register, whose input lines are the host's to tell.
    ///
    /// 0xE000..=0xFDFF shows the work RAM a second time. Addresses at which
    /// nothing answers read 0xFF.
    #[verifier::opaque]
    pub open spec fn peek(self, addr: u16) -> u8 {
        if is_cartridge_address(addr) {
            self.cartridge.read(addr)
        } else if addr <= 0x9FFF || 0xFE00 <= addr <= 0xFE9F {
            self.ppu.spec_read(addr)
        } else if addr <= 0xFDFF {
            self.wram[(addr - 0xC000) % 0x2000]
        } else if addr == 0xFF01 {
            self.serial.sb
        } else if addr == 0xFF02 {
            self.serial.sc.0
        } else if addr == 0xFF04 {
            (self.timer.counter / 256) as u8
        } else if addr == 0xFF05 {
            self.timer.tima
        } else if addr == 0xFF06 {
            self.timer.tma
        } else if addr == 0xFF07 {
            self.timer.tac.0
        } else if addr == 0xFF0F {
            self.interrupts.intf.0
        } else if addr == 0xFF40 {
            self.ppu.lcdc.0
        } else if addr == 0xFF41 {
            self.ppu.stat.0
        } else if addr == 0xFF42 {
            self.ppu.scy
        } else if addr == 0xFF43 {
            self.ppu.scx
        } else if addr == 0xFF44 {
            if self.ppu.lcdc.spec_lcd_enabled() {
                self.ppu.ly
            } else {
                0
            }
        } else if addr == 0xFF45 {
            self.ppu.lyc
        } else if addr == 0xFF47 {
            self.ppu.bgp.0
        } else if addr == 0xFF48 {
            self.ppu.obp0.0
        } else if addr == 0xFF49 {
            self.ppu.obp1.0
        } else if addr == 0xFF4A {
            self.ppu.wy
        } else if addr == 0xFF4B {
            self.ppu.wx
        } else if 0xFF80 <= addr <= 0xFFFE {
            self.hram[addr - 0xFF80]
        } else if addr == 0xFFFF {
            self.interrupts.inte.0
        } else {
            0xFF
        }
    }

    /// The number of calls that a read of `addr` makes of the host: those of
    /// the joypad, at its register.
    pub open spec fn read_calls(self, addr: u16) -> int {
        if addr == 0xFF00 {
            self.joypad.queries()
        } else {
            0
        }
    }

    /// Whether a read of `addr` yields `value`, where the calls that it makes
    /// of the host are those from `at` on. A read of the joypad register asks
    /// the host for the selected rows and yields the four input lines alone.
    pub open spec fn reads(self, addr: u16, value: u8, calls: Seq<HostCall>, at: int) -> bool {
        if addr == 0xFF00 {
            self.joypad.queried(calls, at) && value == self.joypad.sampled(calls, at) % 16
        } else {
            value == self.peek(addr)
        }
    }

    /// The machine after a write of `value` to `addr`, for every address but
    /// those of the timer, which take a path of their own, and that of DMA.
    /// Addresses at which nothing answers ignore the write.
    #[verifier::opaque]
    pub open spec fn written(self, addr: u16, value: u8) -> BusState {
        if is_cartridge_address(addr) {
            BusState { cartridge: self.cartridge.written(addr, value), ..self }
        } else if addr <= 0x9FFF {
            if self.ppu.mode is VRAMRead {
                self
            } else {
                BusState { ppu: self.ppu.with_vram(addr - 0x8000, value), ..self }
            }
        } else if 0xFE00 <= addr <= 0xFE9F {
            if self.ppu.mode is VRAMRead || self.ppu.mode is OAMRead {
                self
            } else {
                BusState { ppu: self.ppu.with_oam(addr - 0xFE00, value), ..self }
            }
        } else if addr <= 0xFDFF {
            BusState { wram: self.wram.update((addr - 0xC000) % 0x2000, value), ..self }
        } else if addr == 0xFF00 {
            BusState { joypad: self.joypad.selecting(value), ..self }
        } else if addr == 0xFF01 {
            BusState { serial: Serial { sb: value, ..self.serial }, ..self }
        } else if addr == 0xFF02 {
            BusState { serial: Serial { sc: crate::serial::SC(value), ..self.serial }, ..self }
        } else if addr == 0xFF0F {
            BusState {
                interrupts: Interrupts { intf: crate::interrupts::INTF(value), ..self.interrupts },
                ..self
            }
        } else if addr == 0xFF40 {
            BusState { ppu: PPU { lcdc: crate::ppu::LCDC(value), ..self.ppu }, ..self }
        } else if addr == 0xFF41 {
            BusState { ppu: self.ppu.with_stat(value), ..self }
        } else if addr == 0xFF42 {
            BusState { ppu: PPU { scy: value, ..self.ppu }, ..self }
        } else if addr == 0xFF43 {
            BusState { ppu: PPU { scx: value, ..self.ppu }, ..self }
        } else if addr == 0xFF44 {
            BusState { ppu: PPU { ly: 0, ..self.ppu }, ..self }
        } else if addr == 0xFF45 {
            BusState { ppu: PPU { lyc: value, ..self.ppu }, ..self }
        } else if addr == 0xFF47 {
            BusState { ppu: PPU { bgp: crate::ppu::BGP(value), ..self.ppu }, ..self }
        } else if addr == 0xFF48 {
            BusState { ppu: PPU { obp0: crate::ppu::OBP(value), ..self.ppu }, ..self }
        } else if addr == 0xFF49 {
            BusState { ppu: PPU { obp1: crate::ppu::OBP(value), ..self.ppu }, ..self }
        } else if addr == 0xFF4A {
            BusState { ppu: PPU { wy: value, ..self.ppu }, ..self }
        } else if addr == 0xFF4B {
            BusState { ppu: PPU { wx: value, ..self.ppu }, ..self }
        } else if 0xFF80 <= addr <= 0xFFFE {
            BusState { hram: self.hram.update(addr - 0xFF80, value), ..self }
        } else if addr == 0xFFFF {
            BusState {
                interrupts: Interrupts { inte: crate::interrupts::INTE(value), ..self.interrupts },
                ..self
            }
        } else {
            self
        }
    }

    /// The number of calls that a write of `value` to `addr` makes of the
    /// host: those of a read of the joypad register, where DMA starts there.
    pub open spec fn write_calls(self, addr: u16, value: u8) -> int {
        if addr == 0xFF46 {
            self.read_calls((value * 0x100) as u16)
        } else {
            0
        }
    }

    /// Whether `after` is the machine after a write of `value` to `addr`
    /// outside the timer, where the calls that the write makes of the host
    /// are those from `at` on. A write to 0xFF46 copies the 160 bytes that
    /// reads from `value` * 0x100 on yield into OAM, at once.
    pub open spec fn writes(
        self,
        after: BusState,
        addr: u16,
        value: u8,
        calls: Seq<HostCall>,
        at: int,
    ) -> bool {
        if addr == 0xFF46 {
            &&& after == (BusState { ppu: PPU { oam: after.ppu.oam, ..self.ppu }, ..self })
            &&& forall|i: int|
                0 <= i < 160 ==> self.reads(
                    (value * 0x100 + i) as u16,
                    #[trigger] after.ppu.oam[i],
                    calls,
                    at,
                )
        } else {
            after == self.written(addr, value)
        }
    }

    /// The machine after one dot of the PPU: the interrupts that the dot
    /// raises are requested.
    pub open spec fn dotted(self) -> BusState {
        let dot = self.ppu.dot();
        (BusState { ppu: dot.ppu, ..self }).raising(dot.vblank, Interrupt::VBlank).raising(
            dot.lcdstat,
            Interrupt::LCDStat,
        )
    }

    /// The record `calls` of the host with the calls that one m-cycle of the
    /// devices makes: the pixels of a scanline, where one of the four dots
    /// ends the reading of VRAM, and the serial transfer, if one was started,
    /// in which the host answers `reply`.
    pub open spec fn served_calls(self, calls: Seq<HostCall>, reply: u8) -> Seq<HostCall> {
        let second = self.dotted();
        let third = second.dotted();
        let fourth = third.dotted();
        calls + self.ppu.dot_calls() + second.ppu.dot_calls() + third.ppu.dot_calls()
            + fourth.ppu.dot_calls() + fourth.dotted().serial.calls(reply)
    }

    /// The machine after one m-cycle of every device but the timer: four dots
    /// of the PPU, and the serial transfer if one was started, in which the
    /// host answers `reply`.
    pub open spec fn devices_ticked(self, reply: u8) -> BusState {
        let drawn = self.dotted().dotted().dotted().dotted();
        BusState { serial: drawn.serial.ticked(reply), ..drawn }
    }

    /// The machine after one m-cycle of the timer.
    pub open spec fn timer_ticked(self) -> BusState {
        (BusState { timer: self.timer.ticked(), ..self }).raising(
            self.timer.overflow,
            Interrupt::Timer,
        )
    }

    /// The machine after one m-cycle, in which the host answers `reply` if it
    /// is asked for a serial transfer.
    pub open spec fn ticked(self, reply: u8) -> BusState {
        self.devices_ticked(reply).timer_ticked()
    }

    /// The timer after a write of `value` to its register at `addr`.
    pub open spec fn timer_after_write(self, addr: u16, value: u8) -> Timer {
        if addr == 0xFF04 {
            self.timer.div_written()
        } else if addr == 0xFF05 {
            self.timer.tima_written(value)
        } else if addr == 0xFF06 {
            self.timer.tma_written(value)
        } else {
            self.timer.tac_written(value)
        }
    }

    /// The machine after the m-cycle of a write to a timer register: the
    /// other devices have their m-cycle, the write is applied to the timer,
    /// and then the timer has its m-cycle.
    pub open spec fn timer_written(self, addr: u16, value: u8, reply: u8) -> BusState {
        let ticked = self.devices_ticked(reply);
        (BusState { timer: ticked.timer_after_write(addr, value), ..ticked }).timer_ticked()
    }
}

/// Whether `addr` is one of the four registers of the timer.
pub open spec fn is_timer_address(addr: u16) -> bool {
    0xFF04 <= addr <= 0xFF07
}

pub struct Bus<H: HAL> {
    pub cartridge: Cartridge,
    pub ppu: PPU,
    pub wram: [u8; 8192],
    pub joypad: Joypad,
    pub serial: Serial,
    pub timer: Timer,
    pub interrupts: Interrupts,
    pub hram: [u8; 127],
    pub host: Host<H>,
    /// What the CPU has asked of the bus so far.
    pub events: Ghost<Seq<BusEvent>>,
}

impl<H: HAL> View for Bus<H> {
    type V = BusState;

    open spec fn view(&self) -> BusState {
        BusState {
            cartridge: self.cartridge@,
            ppu: self.ppu,
            wram: self.wram@,
            joypad: self.joypad,
            serial: self.serial,
            timer: self.timer,
            interrupts: self.interrupts,
            hram: self.hram@,
        }
    }
}

impl<H: HAL> Bus<H> {
    /// The machine as the boot program leaves it, with `cartridge` in the
    /// slot and `hal` as its host.
    pub fn with_cartridge(cartridge: Cartridge, hal: H) -> (bus: Self)
        ensures
            bus.ppu.inv(),
            bus@.well_formed(),
            bus@.is_power_on(cartridge@),
            bus.events@ == Seq::<BusEvent>::empty(),
            bus.host.hal == hal,
            bus.host.calls@ == Seq::<HostCall>::empty(),
    {
        let bus = Bus {
            cartridge,
            ppu: PPU::new(),
            wram: [0; 8192],
            joypad: Joypad::new(),
            serial: Serial::new(),
            timer: Timer::new(),
            interrupts: Interrupts::new(),
            hram: [0; 127],
            host: Host::new(hal),
            events: Ghost(Seq::empty()),
        };
        assert(bus.wram@ =~= Seq::new(0x2000, |i: int| 0u8));
        assert(bus.hram@ =~= Seq::new(127, |i: int| 0u8));
        bus
    }

    pub fn cartridge(&self) -> (r: &Cartridge)
        ensures
            *r == self.cartridge,
    {
        &self.cartridge
    }

    pub fn ppu(&self) -> (r: &PPU)
        ensures
            *r == self.ppu,
    {
        &self.ppu
    }

    pub fn joypad(&self) -> (r: &Joypad)
        ensures
            *r == self.joypad,
    {
        &self.joypad
    }

    pub fn serial(&self) -> (r: &Serial)
        ensures
            *r == self.serial,
    {
        &self.serial
    }

    pub fn timer(&self) -> (r: &Timer)
        ensures
            *r == self.timer,
    {
        &self.timer
    }

    pub fn interrupts(&self) -> (r: &Interrupts)
        ensures
            *r == self.interrupts,
    {
        &self.interrupts
    }

    /// The host.
    pub fn hal(&self) -> (r: &H)
        ensures
            *r == self.host.hal,
    {
        &self.host.hal
    }

    /// Reads the byte at `addr`, without an m-cycle passing.
    pub fn read(&mut self, addr: u16) -> (value: u8)
        ensures
            final(self)@ == old(self)@,
            final(self).events == old(self).events,
            grown(old(self).host.calls@, final(self).host.calls@, old(self)@.read_calls(addr)),
            old(self)@.reads(
                addr,
                value,
                final(self).host.calls@,
                old(self).host.calls@.len() as int,
            ),
    {
        proof {
            reveal(BusState::peek);
        }
        if addr <= 0x7FFF || (0xA000 <= addr && addr <= 0xBFFF) {
            self.cartridge.read(addr)
        } else if addr <= 0x9FFF || (0xFE00 <= addr && addr <= 0xFE9F) {
            self.ppu.read(addr)
        } else if addr <= 0xFDFF {
            // 0xE000..=0xFDFF mirrors the work RAM
            let offset = (addr as usize - 0xC000) % 8192;
            self.wram[offset]
        } else {
            match addr {
                0xFF00 => self.joypad.joyp(&mut self.host).inputs(),
                0xFF01 => self.serial.sb(),
                0xFF02 => self.serial.sc().0,
                0xFF04 => self.timer.div(),
                0xFF05 => self.timer.tima(),
                0xFF06 => self.timer.tma(),
                0xFF07 => self.timer.tac().0,
                0xFF0F => self.interrupts.intf().0,
                0xFF40 => self.ppu.lcdc().0,
                0xFF41 => self.ppu.stat().0,
                0xFF42 => self.ppu.scy(),
                0xFF43 => self.ppu.scx(),
                0xFF44 => self.ppu.ly(),
                0xFF45 => self.ppu.lyc(),
                0xFF47 => self.ppu.bgp().0,
                0xFF48 => self.ppu.obp0().0,
                0xFF49 => self.ppu.obp1().0,
                0xFF4A => self.ppu.wy(),
                0xFF4B => self.ppu.wx(),
                0xFFFF => self.interrupts.inte().0,
                _ => if 0xFF80 <= addr && addr <= 0xFFFE {
                    self.hram[addr as usize - 0xFF80]
                } else {
                    0xFF
                },
            }
        }
    }

    /// One dot of the PPU, with the interrupts that it raises.
    fn tick_dot(&mut self)
        requires
            old(self).ppu.inv(),
        ensures
            final(self).ppu.inv(),
            final(self)@ == old(self)@.dotted(),
            final(self).events == old(self).events,
            final(self).host.calls@ == old(self).host.calls@ + old(self).ppu.dot_calls(),
    {
        let (vblank, lcd_stat) = self.ppu.tick(&mut self.host);
        if vblank {
            self.interrupts.trigger_interrupt(Interrupt::VBlank);
        }
        if lcd_stat {
            self.interrupts.trigger_interrupt(Interrupt::LCDStat);
        }
    }

    /// One m-cycle of every device but the timer.
    pub fn tick_m_cycle_except_timer(&mut self)
        requires
            old(self).ppu.inv(),
        ensures
            final(self).ppu.inv(),
            final(self)@ == old(self)@.devices_ticked(final(self).serial.sb),
            final(self).events == old(self).events,
            final(self).host.calls@ == old(self)@.served_calls(
                old(self).host.calls@,
                final(self).serial.sb,
            ),
    {
        self.tick_dot();
        self.tick_dot();
        self.tick_dot();
        self.tick_dot();
        if self.serial.tick_m_cycle(&mut self.host) {
            self.interrupts.trigger_interrupt(Interrupt::Serial);
        }
        if self.joypad.tick_m_cycle() {
            self.interrupts.trigger_interrupt(Interrupt::Joypad);
        }
    }

    /// One m-cycle of the timer.
    pub fn tick_m_cycle_timer(&mut self)
        ensures
            final(self)@ == old(self)@.timer_ticked(),
            final(self).events == old(self).events,
            final(self).ppu == old(self).ppu,
            final(self).host == old(self).host,
    {
        if self.timer.tick_m_cycle() {
            self.interrupts.trigger_interrupt(Interrupt::Timer);
        }
    }

    /// The m-cycle of a write to a register of the timer.
    pub fn timer_write_m_cycle(&mut self, addr: u16, value: u8)
        requires
            old(self).ppu.inv(),
            is_timer_address(addr),
        ensures
            final(self).ppu.inv(),
            final(self)@ == old(self)@.timer_written(addr, value, final(self).serial.sb),
            final(self).events == old(self).events,
            final(self).host.calls@ == old(self)@.served_calls(
                old(self).host.calls@,
                final(self).serial.sb,
            ),
    {
        self.tick_m_cycle_except_timer();
        let should_interrupt = match addr {
            0xFF04 => self.timer.div_write_m_cycle(value),
            0xFF05 => self.timer.tima_write_m_cycle(value),
            0xFF06 => self.timer.tma_write_m_cycle(value),
            _ => self.timer.tac_write_m_cycle(value),
        };
        if should_interrupt {
            self.interrupts.trigger_interrupt(Interrupt::Timer);
        }
    }

    /// The 160 bytes that reads from `src` on yield.
    fn dma_source(&mut self, src: u16) -> (data: [u8; 160])
        requires
            src <= 0xFF00,
            src % 0x100 == 0,
        ensures
            final(self)@ == old(self)@,
            final(self).events == old(self).events,
            grown(old(self).host.calls@, final(self).host.calls@, old(self)@.read_calls(src)),
            forall|i: int|
                0 <= i < 160 ==> old(self)@.reads(
                    (src + i) as u16,
                    #[trigger] data[i],
                    final(self).host.calls@,
                    old(self).host.calls@.len() as int,
                ),
    {
        let mut data: [u8; 160] = [0; 160];
        // The first read alone can be one of the joypad register.
        data[0] = self.read(src);
        let ghost calls = self.host.calls@;
        let mut offset: usize = 1;
        while offset < 160
            invariant
                1 <= offset <= 160,
                src <= 0xFF00,
                src % 0x100 == 0,
                self@ == old(self)@,
                self.events == old(self).events,
                self.host.calls@ == calls,
                forall|i: int|
                    0 <= i < offset ==> old(self)@.reads(
                        (src + i) as u16,
                        #[trigger] data[i],
                        calls,
                        old(self).host.calls@.len() as int,
                    ),
            decreases 160 - offset,
        {
            let ghost before = self.host.calls@;
            let value = self.read(src + offset as u16);
            assert(self.host.calls@ =~= before);
            data[offset] = value;
            offset += 1;
        }
        data
    }

    /// A write to the cartridge, to video memory or OAM, or to work or high
    /// RAM.
    fn write_memory(&mut self, addr: u16, value: u8)
        requires
            addr <= 0xFE9F || 0xFF80 <= addr <= 0xFFFE,
        ensures
            final(self).ppu.inv() == old(self).ppu.inv(),
            final(self)@ == old(self)@.written(addr, value),
            final(self).events == old(self).events,
            final(self).host == old(self).host,
    {
        proof {
            reveal(BusState::written);
        }
        if addr <= 0x7FFF || (0xA000 <= addr && addr <= 0xBFFF) {
            self.cartridge.write(addr, value)
        } else if addr <= 0x9FFF || 0xFE00 <= addr {
            if addr <= 0xFE9F {
                self.ppu.write(addr, value)
            } else {
                self.hram[addr as usize - 0xFF80] = value;
            }
        } else {
            // 0xE000..=0xFDFF mirrors the work RAM
            let offset = (addr as usize - 0xC000) % 8192;
            self.wram[offset] = value;
        }
    }

    /// A write to a register of the PPU other than that of DMA.
    fn write_ppu_register(&mut self, addr: u16, value: u8)
        requires
            0xFF40 <= addr <= 0xFF4B,
            addr != 0xFF46,
            old(self).ppu.inv(),
        ensures
            final(self).ppu.inv(),
            final(self)@ == old(self)@.written(addr, value),
            final(self).events == old(self).events,
            final(self).host == old(self).host,
    {
        proof {
            reveal(BusState::written);
        }
        match addr {
            0xFF40 => self.ppu.set_lcdc(value),
            0xFF41 => self.ppu.set_stat(value),
            0xFF42 => self.ppu.set_scy(value),
            0xFF43 => self.ppu.set_scx(value),
            0xFF44 => self.ppu.set_ly(value),
            0xFF45 => self.ppu.set_lyc(value),
            0xFF47 => self.ppu.set_bgp(value),
            0xFF48 => self.ppu.set_obp0(value),
            0xFF49 => self.ppu.set_obp1(value),
            0xFF4A => self.ppu.set_wy(value),
            _ => self.ppu.set_wx(value),
        }
    }

    /// A write to a register of the joypad, the serial port or the interrupt
    /// controller, or to an address at which nothing answers.
    fn write_device_register(&mut self, addr: u16, value: u8)
        requires
            0xFEA0 <= addr <= 0xFF3F || 0xFF4C <= addr <= 0xFF7F || addr == 0xFFFF,
            !is_timer_address(addr),
        ensures
            final(self).ppu == old(self).ppu,
            final(self)@ == old(self)@.written(addr, value),
            final(self).events == old(self).events,
            final(self).host == old(self).host,
    {
        proof {
            reveal(BusState::written);
        }
        match addr {
            0xFF00 => self.joypad.set_joyp(value),
            0xFF01 => self.serial.set_sb(value),
            0xFF02 => self.serial.set_sc(value),
            0xFF0F => self.interrupts.set_intf(value),
            0xFFFF => self.interrupts.set_inte(value),
            _ => {},
        }
    }

    /// Writes `value` to `addr`, without an m-cycle passing. This is not the
    /// way to the registers of the timer.
    pub fn write(&mut self, addr: u16, value: u8)
        requires
            !is_timer_address(addr),
            old(self).ppu.inv(),
        ensures
            final(self).ppu.inv(),
            final(self).events == old(self).events,
            grown(
                old(self).host.calls@,
                final(self).host.calls@,
                old(self)@.write_calls(addr, value),
            ),
            old(self)@.writes(
                final(self)@,
                addr,
                value,
                final(self).host.calls@,
                old(self).host.calls@.len() as int,
            ),
    {
        if addr <= 0xFE9F || (0xFF80 <= addr && addr <= 0xFFFE) {
            self.write_memory(addr, value)
        } else if addr == 0xFF46 {
            let src = value as u16 * 0x100;
            let data = self.dma_source(src);
            self.ppu.dma(data);
        } else if 0xFF40 <= addr && addr <= 0xFF4B {
            self.write_ppu_register(addr, value)
        } else {
            self.write_device_register(addr, value)
        }
    }
}

impl<H: HAL> Bus<H> {
    /// Whether `after` has let an m-cycle pass since `before`, in which the
    /// host answered `reply` if it was asked for a serial transfer, and has
    /// made `more` calls of the host since.
    pub open spec fn cycled(before: Self, after: Self, reply: u8, more: int) -> bool {
        let calls = before@.served_calls(before.host.calls@, reply);
        &&& 0 <= more
        &&& after.host.calls@.len() == calls.len() + more
        &&& after.host.calls@.subrange(0, calls.len() as int) == calls
    }
}

impl<H: HAL> crate::cpu::Bus for Bus<H> {
    open spec fn inv(&self) -> bool {
        self.ppu.inv()
    }

    open spec fn events(&self) -> Seq<BusEvent> {
        self.events@
    }

    /// A read or a delay lets an m-cycle pass; a read then yields its byte. A
    /// write lets an m-cycle pass and then stores its byte, but for the
    /// registers of the timer, which take the byte in the middle of the
    /// m-cycle. A poll changes nothing and tells whether an interrupt is
    /// pending; an acknowledgement takes the pending interrupt with the
    /// highest priority. The host is called as the devices call it in the
    /// m-cycle, and then as the read or the write does.
    open spec fn accepts(&self, event: BusEvent, after: &Self) -> bool {
        match event {
            BusEvent::Read { addr, value } => {
                let ticked = self@.ticked(after.serial.sb);
                &&& after@ == ticked
                &&& Self::cycled(*self, *after, after.serial.sb, ticked.read_calls(addr))
                &&& ticked.reads(
                    addr,
                    value,
                    after.host.calls@,
                    after.host.calls@.len() - ticked.read_calls(addr),
                )
            },
            BusEvent::Tick => after@ == self@.ticked(after.serial.sb) && Self::cycled(
                *self,
                *after,
                after.serial.sb,
                0,
            ),
            BusEvent::Write { addr, value } => if is_timer_address(addr) {
                after@ == self@.timer_written(addr, value, after.serial.sb) && Self::cycled(
                    *self,
                    *after,
                    after.serial.sb,
                    0,
                )
            } else {
                exists|reply: u8| #[trigger]
                    self@.ticked(reply).writes(
                        after@,
                        addr,
                        value,
                        after.host.calls@,
                        after.host.calls@.len() - self@.ticked(reply).write_calls(addr, value),
                    ) && Self::cycled(
                        *self,
                        *after,
                        reply,
                        self@.ticked(reply).write_calls(addr, value),
                    )
            },
            BusEvent::Poll(pending) => after@ == self@ && after.host == self.host && pending
                == self.interrupts.pending().is_some(),
            BusEvent::Acknowledge(interrupt) => interrupt == self.interrupts.pending()
                && after.host == self.host && after@ == (BusState {
                interrupts: match interrupt {
                    Some(taken) => self.interrupts.cleared(taken),
                    None => self.interrupts,
                },
                ..self@
            }),
        }
    }

    /// Takes the pending interrupt with the highest priority.
    fn pop_interrupt(&mut self) -> (interrupt: Option<Interrupt>) {
        let interrupt = self.interrupts.pop_interrupt();
        self.events = Ghost(self.events@.push(BusEvent::Acknowledge(interrupt)));
        interrupt
    }

    /// Tells whether an interrupt is requested and enabled.
    fn should_handle_interrupt(&mut self) -> (pending: bool) {
        let pending = self.interrupts.should_handle_interrupt();
        self.events = Ghost(self.events@.push(BusEvent::Poll(pending)));
        pending
    }

    /// An m-cycle passes, then the byte at `addr` is read.
    fn read_m_cycle(&mut self, addr: u16) -> (value: u8) {
        self.tick_m_cycle_except_timer();
        self.tick_m_cycle_timer();
        let ghost ticked = self.host.calls@;
        let value = self.read(addr);
        self.events = Ghost(self.events@.push(BusEvent::Read { addr, value }));
        proof {
            assert(self.host.calls@.subrange(0, ticked.len() as int) =~= ticked);
        }
        value
    }

    /// An m-cycle passes.
    fn tick_m_cycle(&mut self) {
        self.tick_m_cycle_except_timer();
        self.tick_m_cycle_timer();
        self.events = Ghost(self.events@.push(BusEvent::Tick));
        proof {
            assert(self.host.calls@.subrange(0, self.host.calls@.len() as int) =~= self.host.calls@);
        }
    }

    /// An m-cycle passes, then `value` is written to `addr`. A write to a
    /// register of the timer is applied between the m-cycle of the other
    /// devices and that of the timer.
    fn write_m_cycle(&mut self, addr: u16, value: u8) {
        if addr >= 0xFF04 && addr <= 0xFF07 {
            self.timer_write_m_cycle(addr, value);
            self.events = Ghost(self.events@.push(BusEvent::Write { addr, value }));
            proof {
                assert(self.host.calls@.subrange(0, self.host.calls@.len() as int)
                    =~= self.host.calls@);
                assert(Self::cycled(*old(self), *self, self.serial.sb, 0));
            }
        } else {
            self.tick_m_cycle_except_timer();
            self.tick_m_cycle_timer();
            let ghost reply = self.serial.sb;
            let ghost ticked = self.host.calls@;
            let ghost state = self@;
            self.write(addr, value);
            self.events = Ghost(self.events@.push(BusEvent::Write { addr, value }));
            proof {
                assert(state == old(self)@.ticked(reply));
                assert(self.host.calls@.subrange(0, ticked.len() as int) =~= ticked);
                assert(Self::cycled(*old(self), *self, reply, state.write_calls(addr, value)));
                assert(self.host.calls@.len() - state.write_calls(addr, value) == ticked.len());
                assert(old(self)@.ticked(reply).writes(
                    self@,
                    addr,
                    value,
                    self.host.calls@,
                    self.host.calls@.len() - old(self)@.ticked(reply).write_calls(addr, value),
                ));
            }
        }
    }
}

/// The addresses 0xE000..=0xFDFF show the work RAM: a read there yields what
/// a read 0x2000 below yields, and a write there does what a write 0x2000
/// below does, whatever was written before.
pub proof fn lemma_wram_echo(state: BusState, addr: u16, value: u8)
    requires
        state.well_formed(),
        0xE000 <= addr <= 0xFDFF,
    ensures
        state.peek(addr) == state.peek((addr - 0x2000) as u16),
        state.written(addr, value) == state.written((addr - 0x2000) as u16, value),
        state.written(addr, value).peek((addr - 0x2000) as u16) == value,
        state.written((addr - 0x2000) as u16, value).peek(addr) == value,
{
    reveal(BusState::peek);
    reveal(BusState::written);
}

} // verus!
