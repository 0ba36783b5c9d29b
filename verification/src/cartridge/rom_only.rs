//! A cartridge that is a ROM and nothing else.

use super::is_cartridge_address;
use crate::rom::{image_byte, ROM};
use vstd::prelude::*;

verus! {

pub struct ROMOnly(pub ROM);

impl View for ROMOnly {
    type V = Seq<u8>;

    open spec fn view(&self) -> Seq<u8> {
        self.0@
    }
}

impl ROMOnly {
    pub fn new(rom: ROM) -> (r: ROMOnly)
        ensures
            r@ == rom@,
    {
        ROMOnly(rom)
    }

    pub fn rom(&self) -> (r: &ROM)
        ensures
            r@ == self@,
    {
        &self.0
    }

    /// Reads the byte at `addr`: the byte of the image in the ROM window,
    /// 0xFF where the image ends before it and in the RAM window.
    pub fn read(&self, addr: u16) -> (r: u8)
        requires
            is_cartridge_address(addr),
        ensures
            r == (if addr <= 0x7FFF {
                image_byte(self@, addr as int)
            } else {
                0xFF
            }),
    {
        if addr <= 0x7FFF {
            self.0.read_or_open_bus(addr as usize)
        } else {
            0xFF
        }
    }

    /// A write changes nothing.
    pub fn write(&mut self, addr: u16, value: u8)
        ensures
            final(self)@ == old(self)@,
    {
    }
}

} // verus!
