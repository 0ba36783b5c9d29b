//! A cartridge image and the header that it carries at 0x0134.

use crate::cartridge::Cartridge;
use vstd::prelude::*;
use vstd::std_specs::convert::FromSpecImpl;

verus! {

/// The kinds of cartridge that the emulator knows.
#[derive(Clone, Copy, Debug, PartialEq, Eq)]
pub enum CartridgeType {
    ROMOnly,
    MBC1,
}

impl CartridgeType {
    /// The name of the kind as the header documentation gives it.
    pub fn name(&self) -> (r: &'static str)
        ensures
            r@ == (match self {
                CartridgeType::ROMOnly => "ROM ONLY"@,
                CartridgeType::MBC1 => "MBC1"@,
            }),
    {
        match self {
            CartridgeType::ROMOnly => "ROM ONLY",
            CartridgeType::MBC1 => "MBC1",
        }
    }
}

/// A cartridge image.
pub struct ROM(pub Vec<u8>);

impl View for ROM {
    type V = Seq<u8>;

    open spec fn view(&self) -> Seq<u8> {
        self.0@
    }
}

impl From<Vec<u8>> for ROM {
    fn from(value: Vec<u8>) -> (r: ROM) {
        ROM(value)
    }
}

impl FromSpecImpl<Vec<u8>> for ROM {
    open spec fn obeys_from_spec() -> bool {
        true
    }

    open spec fn from_spec(value: Vec<u8>) -> ROM {
        ROM(value)
    }
}

/// The characters of the bytes `bytes[from..to]`, up to the first zero byte
/// where `stop_at_zero` holds.
pub open spec fn text(bytes: Seq<u8>, from: int, to: int, stop_at_zero: bool) -> Seq<char>
    decreases to - from,
{
    if from >= to || (stop_at_zero && bytes[from] == 0) {
        Seq::empty()
    } else {
        seq![bytes[from] as char] + text(bytes, from + 1, to, stop_at_zero)
    }
}

/// 32 KiB doubled `code` times.
pub open spec fn banks_size(code: nat) -> nat
    decreases code,
{
    if code == 0 {
        32768
    } else {
        2 * banks_size((code - 1) as nat)
    }
}

proof fn lemma_banks_size_grows(low: nat, high: nat)
    requires
        low <= high,
    ensures
        banks_size(low) <= banks_size(high),
    decreases high,
{
    if low < high {
        lemma_banks_size_grows(low, (high - 1) as nat);
    }
}

/// Calls `String::push`. The contract claims that the string gains `c` at
/// its end, as the documentation of the standard library says.
#[verifier::external_body]
fn push_char(text: &mut String, c: char)
    ensures
        final(text)@ == old(text)@.push(c),
{
    text.push(c)
}

impl ROM {
    /// Whether the header names a kind of cartridge and an amount of RAM
    /// that the emulator knows.
    pub open spec fn is_supported(&self) -> bool {
        self@.len() > 0x149 && self@[0x147] <= 0x03 && self@[0x149] <= 0x03
    }

    /// The kind of cartridge that the type byte `code` stands for.
    pub open spec fn kind(code: u8) -> CartridgeType {
        if code == 0 {
            CartridgeType::ROMOnly
        } else {
            CartridgeType::MBC1
        }
    }

    /// The bytes of cartridge RAM that the size code `code` stands for.
    pub open spec fn ram_bytes(code: u8) -> int {
        if code == 0 {
            0
        } else if code == 1 {
            2048
        } else if code == 2 {
            8192
        } else {
            32768
        }
    }

    /// The characters of `self.0[from..to]`, up to the first zero byte where
    /// `stop_at_zero` holds.
    fn read_text(&self, from: usize, to: usize, stop_at_zero: bool) -> (r: String)
        requires
            from <= to <= self@.len(),
        ensures
            r@ == text(self@, from as int, to as int, stop_at_zero),
    {
        let mut result = String::new();
        let mut i = from;
        while i < to && !(stop_at_zero && self.0[i] == 0)
            invariant
                from <= i <= to <= self@.len(),
                text(self@, from as int, to as int, stop_at_zero) == result@ + text(
                    self@,
                    i as int,
                    to as int,
                    stop_at_zero,
                ),
            decreases to - i,
        {
            let ghost before = result@;
            push_char(&mut result, self.0[i] as char);
            assert(before + (seq![self@[i as int] as char] + text(
                self@,
                i + 1,
                to as int,
                stop_at_zero,
            )) =~= result@ + text(self@, i + 1, to as int, stop_at_zero));
            i += 1;
        }
        assert(result@ + Seq::<char>::empty() =~= result@);
        result
    }

    /// Whether the image holds a header that names a kind of cartridge and
    /// an amount of RAM that the emulator knows.
    pub fn supported(&self) -> (r: bool)
        ensures
            r == self.is_supported(),
    {
        self.0.len() > 0x149 && self.0[0x147] <= 0x03 && self.0[0x149] <= 0x03
    }

    /// The title: the bytes 0x134 to 0x143 up to the first zero.
    pub fn title(&self) -> (r: String)
        requires
            self@.len() >= 0x144,
        ensures
            r@ == text(self@, 0x134, 0x144, true),
    {
        self.read_text(0x134, 0x144, true)
    }

    pub fn manufacturer_code(&self) -> (r: String)
        requires
            self@.len() >= 0x144,
        ensures
            r@ == text(self@, 0x13F, 0x144, false),
    {
        self.read_text(0x13F, 0x144, false)
    }

    pub fn cgb_flag(&self) -> (r: u8)
        requires
            self@.len() > 0x143,
        ensures
            r == self@[0x143],
    {
        self.0[0x143]
    }

    pub fn new_licensee_code(&self) -> (r: String)
        requires
            self@.len() >= 0x146,
        ensures
            r@ == text(self@, 0x144, 0x146, false),
    {
        self.read_text(0x144, 0x146, false)
    }

    pub fn sgb_flag(&self) -> (r: u8)
        requires
            self@.len() > 0x146,
        ensures
            r == self@[0x146],
    {
        self.0[0x146]
    }

    /// The kind of the cartridge: the type byte 0x00 is a plain ROM, 0x01 to
    /// 0x03 an MBC1.
    pub fn cartridge_type(&self) -> (r: CartridgeType)
        requires
            self@.len() > 0x147,
            self@[0x147] <= 0x03,
        ensures
            r == ROM::kind(self@[0x147]),
    {
        match self.0[0x147] {
            0x00 => CartridgeType::ROMOnly,
            _ => CartridgeType::MBC1,
        }
    }

    /// The size of the ROM: 32 KiB shifted left by the size code.
    pub fn rom_size(&self) -> (r: usize)
        requires
            self@.len() > 0x148,
            banks_size(self@[0x148] as nat) <= usize::MAX,
        ensures
            r == banks_size(self@[0x148] as nat),
    {
        let code = self.0[0x148];
        let mut size: usize = 32768;
        let mut doubled: u8 = 0;
        while doubled < code
            invariant
                doubled <= code,
                size == banks_size(doubled as nat),
                banks_size(code as nat) <= usize::MAX,
            decreases code - doubled,
        {
            proof {
                lemma_banks_size_grows((doubled + 1) as nat, code as nat);
            }
            size = size * 2;
            doubled += 1;
        }
        size
    }

    /// The size of the cartridge RAM, by the size code: none, 2 KiB, 8 KiB
    /// or 32 KiB.
    pub fn ram_size(&self) -> (r: usize)
        requires
            self@.len() > 0x149,
            self@[0x149] <= 0x03,
        ensures
            r == ROM::ram_bytes(self@[0x149]),
    {
        match self.0[0x149] {
            0x00 => 0,
            0x01 => 2048,
            0x02 => 8192,
            _ => 32768,
        }
    }

    pub fn destination_code(&self) -> (r: u8)
        requires
            self@.len() > 0x14A,
        ensures
            r == self@[0x14A],
    {
        self.0[0x14A]
    }

    pub fn old_licensee_code(&self) -> (r: u8)
        requires
            self@.len() > 0x14B,
        ensures
            r == self@[0x14B],
    {
        self.0[0x14B]
    }

    pub fn mask_rom_version(&self) -> (r: u8)
        requires
            self@.len() > 0x14C,
        ensures
            r == self@[0x14C],
    {
        self.0[0x14C]
    }

    /// The byte at `addr`.
    pub fn read(&self, addr: u16) -> (r: u8)
        requires
            addr < self@.len(),
        ensures
            r == self@[addr as int],
    {
        self.0[addr as usize]
    }

    /// The byte at `offset`, or 0xFF where the image ends before it.
    pub fn read_or_open_bus(&self, offset: usize) -> (r: u8)
        ensures
            r == image_byte(self@, offset as int),
    {
        if offset < self.0.len() {
            self.0[offset]
        } else {
            0xFF
        }
    }

    /// The cartridge that the header asks for, with this image in it.
    pub fn into_cartridge(self) -> (r: Cartridge)
        requires
            self.is_supported(),
        ensures
            r@ == crate::cartridge::CartridgeState::fresh(
                self@,
                ROM::kind(self@[0x147]),
                ROM::ram_bytes(self@[0x149]),
            ),
    {
        match self.cartridge_type() {
            CartridgeType::ROMOnly => Cartridge::rom_only(self),
            CartridgeType::MBC1 => {
                let ram_size = self.ram_size();
                Cartridge::mbc1(self, ram_size)
            },
        }
    }
}

/// The byte of an image at `offset`; 0xFF where the image has none.
pub open spec fn image_byte(image: Seq<u8>, offset: int) -> u8 {
    if 0 <= offset < image.len() {
        image[offset]
    } else {
        0xFF
    }
}

} // verus!
