//! The cartridge: an image, and for an MBC1 the bank registers and the RAM
//! that go with it.

pub mod mbc1;
pub mod rom_only;

use crate::rom::{image_byte, CartridgeType, ROM};
use mbc1::{MBC1State, MBC1};
use rom_only::ROMOnly;
use vstd::prelude::*;

verus! {

/// Whether the cartridge answers at `addr`: in the ROM windows from 0x0000
/// to 0x7FFF and in the RAM window from 0xA000 to 0xBFFF.
pub open spec fn is_cartridge_address(addr: u16) -> bool {
    addr <= 0x7FFF || 0xA000 <= addr <= 0xBFFF
}

/// What a cartridge holds.
pub enum CartridgeState {
    ROMOnly(Seq<u8>),
    MBC1(MBC1State),
}

impl CartridgeState {
    /// A cartridge of kind `kind` as it is when the machine is switched on,
    /// with `ram_bytes` bytes of RAM if it is an MBC1.
    pub open spec fn fresh(image: Seq<u8>, kind: CartridgeType, ram_bytes: int) -> CartridgeState {
        match kind {
            CartridgeType::ROMOnly => CartridgeState::ROMOnly(image),
            CartridgeType::MBC1 => CartridgeState::MBC1(MBC1State::fresh(image, ram_bytes)),
        }
    }

    /// The image in the cartridge.
    pub open spec fn image(self) -> Seq<u8> {
        match self {
            CartridgeState::ROMOnly(image) => image,
            CartridgeState::MBC1(state) => state.rom,
        }
    }

    /// What a read of `addr` yields. A plain ROM has no RAM: its RAM window
    /// reads 0xFF.
    pub open spec fn read(self, addr: u16) -> u8 {
        match self {
            CartridgeState::ROMOnly(image) => if addr <= 0x7FFF {
                image_byte(image, addr as int)
            } else {
                0xFF
            },
            CartridgeState::MBC1(state) => state.read(addr),
        }
    }

    /// The cartridge after a write of `value` to `addr`. A plain ROM ignores
    /// writes.
    pub open spec fn written(self, addr: u16, value: u8) -> CartridgeState {
        match self {
            CartridgeState::ROMOnly(image) => self,
            CartridgeState::MBC1(state) => CartridgeState::MBC1(state.written(addr, value)),
        }
    }
}

pub enum Cartridge {
    ROMOnly(ROMOnly),
    MBC1(MBC1),
}

impl View for Cartridge {
    type V = CartridgeState;

    open spec fn view(&self) -> CartridgeState {
        match self {
            Cartridge::ROMOnly(rom) => CartridgeState::ROMOnly(rom@),
            Cartridge::MBC1(mbc1) => CartridgeState::MBC1(mbc1@),
        }
    }
}

impl Cartridge {
    pub fn rom_only(rom: ROM) -> (r: Cartridge)
        ensures
            r@ == CartridgeState::ROMOnly(rom@),
    {
        Cartridge::ROMOnly(ROMOnly::new(rom))
    }

    pub fn mbc1(rom: ROM, ram_size: usize) -> (r: Cartridge)
        ensures
            r@ == CartridgeState::MBC1(MBC1State::fresh(rom@, ram_size as int)),
    {
        Cartridge::MBC1(MBC1::new(rom, ram_size))
    }

    pub fn rom(&self) -> (r: &ROM)
        ensures
            r@ == self@.image(),
    {
        match self {
            Cartridge::ROMOnly(rom) => rom.rom(),
            Cartridge::MBC1(mbc1) => mbc1.rom(),
        }
    }

    /// Reads the byte at `addr`.
    pub fn read(&self, addr: u16) -> (r: u8)
        requires
            is_cartridge_address(addr),
        ensures
            r == self@.read(addr),
    {
        match self {
            Cartridge::ROMOnly(rom) => rom.read(addr),
            Cartridge::MBC1(mbc1) => mbc1.read(addr),
        }
    }

    /// Writes `value` to `addr`.
    pub fn write(&mut self, addr: u16, value: u8)
        requires
            is_cartridge_address(addr),
        ensures
            final(self)@ == old(self)@.written(addr, value),
    {
        match self {
            Cartridge::ROMOnly(rom) => rom.write(addr, value),
            Cartridge::MBC1(mbc1) => mbc1.write(addr, value),
        }
    }
}

} // verus!
