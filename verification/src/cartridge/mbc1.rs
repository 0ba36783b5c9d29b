//! The MBC1 memory bank controller.

use super::is_cartridge_address;
use crate::bits::{bit_range, set_bit_range, with_bits};
use crate::rom::{image_byte, ROM};
use vstd::prelude::*;

verus! {

/// What the two bits written to 0x4000..=0x5FFF select.
#[derive(Clone, Copy, Debug, PartialEq, Eq)]
pub enum BankMode {
    /// Bits 6..5 of the ROM bank number.
    ROM,
    /// The RAM bank.
    RAM,
}

/// What an MBC1 holds.
pub struct MBC1State {
    pub rom: Seq<u8>,
    pub rom_bank: u8,
    pub ram: Seq<u8>,
    pub ram_bank: u8,
    pub ram_enabled: bool,
    pub bank_mode: BankMode,
}

impl MBC1State {
    /// An MBC1 as it is when the machine is switched on: ROM bank 1, RAM
    /// bank 0, the RAM cleared and disabled, ROM banking mode.
    pub open spec fn fresh(image: Seq<u8>, ram_bytes: int) -> MBC1State {
        MBC1State {
            rom: image,
            rom_bank: 1,
            ram: Seq::new(ram_bytes as nat, |i: int| 0u8),
            ram_bank: 0,
            ram_enabled: false,
            bank_mode: BankMode::ROM,
        }
    }

    /// The bank that the window 0x4000..=0x7FFF shows. The numbers 0x00,
    /// 0x20, 0x40 and 0x60 cannot be chosen: the next bank takes their place.
    pub open spec fn effective_rom_bank(self) -> int {
        if self.rom_bank == 0x00 || self.rom_bank == 0x20 || self.rom_bank == 0x40 || self.rom_bank
            == 0x60 {
            self.rom_bank + 1
        } else {
            self.rom_bank as int
        }
    }

    /// What a read of `addr` yields: bank 0 in the lower window, the chosen
    /// bank in the upper one, and in the RAM window the byte of the chosen
    /// RAM bank while the RAM is enabled. Where the image or the RAM has no
    /// such byte, and while the RAM is disabled, the read yields 0xFF.
    pub open spec fn read(self, addr: u16) -> u8 {
        if addr <= 0x3FFF {
            image_byte(self.rom, addr as int)
        } else if addr <= 0x7FFF {
            image_byte(self.rom, self.effective_rom_bank() * 0x4000 + addr - 0x4000)
        } else if self.ram_enabled {
            image_byte(self.ram, self.ram_bank * 0x2000 + addr - 0xA000)
        } else {
            0xFF
        }
    }

    /// The MBC1 after a write of `value` to `addr`.
    ///
    /// 0x0000..=0x1FFF enables the RAM where the low nibble is 0xA and
    /// disables it otherwise. 0x2000..=0x3FFF gives bits 4..0 of the ROM
    /// bank. 0x4000..=0x5FFF gives bits 6..5 of the ROM bank in ROM banking
    /// mode and the RAM bank in RAM banking mode. 0x6000..=0x7FFF chooses the
    /// mode by bit 0. A write to the RAM window stores the byte while the RAM
    /// is enabled and has a byte there.
    pub open spec fn written(self, addr: u16, value: u8) -> MBC1State {
        if addr <= 0x1FFF {
            MBC1State { ram_enabled: value % 16 == 0x0A, ..self }
        } else if addr <= 0x3FFF {
            MBC1State { rom_bank: with_bits(self.rom_bank, 4, 0, value) as u8, ..self }
        } else if addr <= 0x5FFF {
            match self.bank_mode {
                BankMode::ROM => MBC1State {
                    rom_bank: with_bits(self.rom_bank, 6, 5, value) as u8,
                    ..self
                },
                BankMode::RAM => MBC1State { ram_bank: value % 4, ..self },
            }
        } else if addr <= 0x7FFF {
            MBC1State {
                bank_mode: if value % 2 == 0 {
                    BankMode::ROM
                } else {
                    BankMode::RAM
                },
                ..self
            }
        } else {
            let index = self.ram_bank * 0x2000 + addr - 0xA000;
            if self.ram_enabled && index < self.ram.len() {
                MBC1State { ram: self.ram.update(index, value), ..self }
            } else {
                self
            }
        }
    }
}

pub struct MBC1 {
    pub rom: ROM,
    pub rom_bank: u8,
    pub ram: Vec<u8>,
    pub ram_bank: u8,
    pub ram_enabled: bool,
    pub bank_mode: BankMode,
}

impl View for MBC1 {
    type V = MBC1State;

    open spec fn view(&self) -> MBC1State {
        MBC1State {
            rom: self.rom@,
            rom_bank: self.rom_bank,
            ram: self.ram@,
            ram_bank: self.ram_bank,
            ram_enabled: self.ram_enabled,
            bank_mode: self.bank_mode,
        }
    }
}

impl MBC1 {
    pub fn new(rom: ROM, ram_size: usize) -> (r: MBC1)
        ensures
            r@ == MBC1State::fresh(rom@, ram_size as int),
    {
        let ram: Vec<u8> = vec![0u8; ram_size];
        assert(ram@ =~= Seq::new(ram_size as nat, |i: int| 0u8));
        MBC1 { rom, rom_bank: 1, ram, ram_bank: 0, ram_enabled: false, bank_mode: BankMode::ROM }
    }

    pub fn rom(&self) -> (r: &ROM)
        ensures
            r@ == self@.rom,
    {
        &self.rom
    }

    /// Reads the byte at `addr`.
    pub fn read(&self, addr: u16) -> (r: u8)
        requires
            is_cartridge_address(addr),
        ensures
            r == self@.read(addr),
    {
        if addr <= 0x3FFF {
            // ROM bank 00
            self.rom.read_or_open_bus(addr as usize)
        } else if addr <= 0x7FFF {
            // ROM bank 01-7F
            let rom_bank = match self.rom_bank {
                0x00 => 0x01,
                0x20 => 0x21,
                0x40 => 0x41,
                0x60 => 0x61,
                bank => bank,
            };
            let offset = rom_bank as usize * 0x4000;
            self.rom.read_or_open_bus(addr as usize - 0x4000 + offset)
        } else {
            // RAM bank 00-03, if any
            if !self.ram_enabled {
                return 0xFF;
            }
            let index = self.ram_bank as usize * 0x2000 + (addr as usize - 0xA000);
            if index < self.ram.len() {
                self.ram[index]
            } else {
                0xFF
            }
        }
    }

    /// Writes `value` to `addr`.
    pub fn write(&mut self, addr: u16, value: u8)
        requires
            is_cartridge_address(addr),
        ensures
            final(self)@ == old(self)@.written(addr, value),
    {
        if addr <= 0x1FFF {
            // RAM enable
            self.ram_enabled = bit_range(value, 3, 0) == 0x0A;
        } else if addr <= 0x3FFF {
            // ROM bank number
            set_bit_range(&mut self.rom_bank, 4, 0, value);
        } else if addr <= 0x5FFF {
            // RAM bank number, or upper bits of the ROM bank number
            match self.bank_mode {
                BankMode::ROM => {
                    set_bit_range(&mut self.rom_bank, 6, 5, value);
                },
                BankMode::RAM => {
                    self.ram_bank = bit_range(value, 1, 0);
                },
            }
        } else if addr <= 0x7FFF {
            // ROM/RAM mode select
            self.bank_mode = if bit_range(value, 0, 0) == 0 {
                BankMode::ROM
            } else {
                BankMode::RAM
            };
        } else {
            // RAM bank 00-03, if any
            let index = self.ram_bank as usize * 0x2000 + (addr as usize - 0xA000);
            if self.ram_enabled && index < self.ram.len() {
                self.ram.set(index, value);
            }
        }
    }
}

} // verus!
