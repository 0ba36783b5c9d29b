//! The pixel processing unit: video memory, the LCD registers, the mode cycle
//! of a frame, and the pixels of a scanline.

use crate::bits::{
    bit, bit_of, bit_range, bits_of, lemma_with_bit, set_bit, set_bit_range, with_bit, with_bits,
};
use crate::hal::{Color, Host, HostCall, HAL};
use vstd::prelude::*;

verus! {

/// The dots that the PPU spends on reading OAM at the start of a scanline.
pub const OAM_READ_DOTS: u16 = 80;

/// The dots that the PPU spends on reading VRAM.
pub const VRAM_READ_DOTS: u16 = 172;

/// The dots of the horizontal blank that ends a scanline.
pub const HBLANK_DOTS: u16 = 204;

/// The dots of one scanline.
pub const SCANLINE_DOTS: u16 = 456;

/// The scanlines that are drawn.
pub const VISIBLE_LINES: u8 = 144;

/// The last scanline of the vertical blank.
pub const LAST_LINE: u8 = 153;

/// Where the tile data of background and window lies in memory.
#[allow(non_camel_case_types)]
#[derive(Clone, Copy, Debug, PartialEq, Eq)]
pub enum BackgroundTileData {
    _8800,
    _8000,
}

impl BackgroundTileData {
    pub fn from_bits(value: u8) -> (r: BackgroundTileData)
        requires
            value < 2,
        ensures
            r is _8000 <==> value == 1,
    {
        match value {
            0 => BackgroundTileData::_8800,
            _ => BackgroundTileData::_8000,
        }
    }

    /// The address at which the region begins.
    pub fn into_address(self) -> (r: usize)
        ensures
            r == (if self is _8000 {
                0x8000int
            } else {
                0x8800int
            }),
    {
        match self {
            BackgroundTileData::_8800 => 0x8800,
            BackgroundTileData::_8000 => 0x8000,
        }
    }
}

/// Where a tile map lies in memory.
#[allow(non_camel_case_types)]
#[derive(Clone, Copy, Debug, PartialEq, Eq)]
pub enum TileMapDisplay {
    _9800,
    _9C00,
}

impl TileMapDisplay {
    pub fn from_bits(value: u8) -> (r: TileMapDisplay)
        requires
            value < 2,
        ensures
            r is _9C00 <==> value == 1,
    {
        match value {
            0 => TileMapDisplay::_9800,
            _ => TileMapDisplay::_9C00,
        }
    }

    /// The address at which the map begins.
    pub fn into_address(self) -> (r: usize)
        ensures
            r == (if self is _9C00 {
                0x9C00int
            } else {
                0x9800int
            }),
    {
        match self {
            TileMapDisplay::_9800 => 0x9800,
            TileMapDisplay::_9C00 => 0x9C00,
        }
    }
}

/// The four phases of the PPU.
#[derive(Clone, Copy, Debug, PartialEq, Eq)]
pub enum Mode {
    HBlank,
    OAMRead,
    VBlank,
    VRAMRead,
}

impl Mode {
    /// The number by which STAT names the mode.
    pub open spec fn number(self) -> int {
        match self {
            Mode::HBlank => 0,
            Mode::VBlank => 1,
            Mode::OAMRead => 2,
            Mode::VRAMRead => 3,
        }
    }

    /// The dots after which the mode ends. In the vertical blank it is the
    /// scanline that ends.
    pub open spec fn dots(self) -> int {
        match self {
            Mode::OAMRead => 80,
            Mode::VRAMRead => 172,
            Mode::HBlank => 204,
            Mode::VBlank => 456,
        }
    }

    pub fn from_bits(value: u8) -> (r: Mode)
        requires
            value < 4,
        ensures
            r.number() == value,
    {
        match value {
            0 => Mode::HBlank,
            1 => Mode::VBlank,
            2 => Mode::OAMRead,
            _ => Mode::VRAMRead,
        }
    }
}

/// The size of the sprites.
#[allow(non_camel_case_types)]
#[derive(Clone, Copy, Debug, PartialEq, Eq)]
pub enum OBJSize {
    _8x8,
    _8x16,
}

impl OBJSize {
    pub open spec fn height(self) -> int {
        match self {
            OBJSize::_8x8 => 8,
            OBJSize::_8x16 => 16,
        }
    }

    pub fn from_bits(value: u8) -> (r: OBJSize)
        requires
            value < 2,
        ensures
            r is _8x16 <==> value == 1,
    {
        match value {
            0 => OBJSize::_8x8,
            _ => OBJSize::_8x16,
        }
    }

    pub fn get_height(&self) -> (r: i16)
        ensures
            r == self.height(),
    {
        match self {
            OBJSize::_8x8 => 8,
            OBJSize::_8x16 => 16,
        }
    }
}

/// The LCD control register.
#[derive(Clone, Copy, Debug)]
pub struct LCDC(pub u8);

impl LCDC {
    pub open spec fn spec_lcd_enabled(&self) -> bool {
        bit_of(self.0, 7)
    }

    #[verifier::when_used_as_spec(spec_lcd_enabled)]
    pub fn lcd_enabled(&self) -> (r: bool)
        ensures
            r == self.spec_lcd_enabled(),
    {
        bit(self.0, 7)
    }

    pub fn window_tile_map_display_select(&self) -> (r: TileMapDisplay)
        ensures
            r is _9C00 <==> bit_of(self.0, 6),
    {
        TileMapDisplay::from_bits(bit_range(self.0, 6, 6))
    }

    pub fn window_display_enabled(&self) -> (r: bool)
        ensures
            r == bit_of(self.0, 5),
    {
        bit(self.0, 5)
    }

    pub fn background_and_window_tile_data_select(&self) -> (r: BackgroundTileData)
        ensures
            r is _8000 <==> bit_of(self.0, 4),
    {
        BackgroundTileData::from_bits(bit_range(self.0, 4, 4))
    }

    pub fn background_tile_map_display_select(&self) -> (r: TileMapDisplay)
        ensures
            r is _9C00 <==> bit_of(self.0, 3),
    {
        TileMapDisplay::from_bits(bit_range(self.0, 3, 3))
    }

    pub fn obj_size(&self) -> (r: OBJSize)
        ensures
            r is _8x16 <==> bit_of(self.0, 2),
    {
        OBJSize::from_bits(bit_range(self.0, 2, 2))
    }

    pub fn obj_display_enabled(&self) -> (r: bool)
        ensures
            r == bit_of(self.0, 1),
    {
        bit(self.0, 1)
    }

    pub fn bg_display_enabled(&self) -> (r: bool)
        ensures
            r == bit_of(self.0, 0),
    {
        bit(self.0, 0)
    }
}

/// The LCD status register. Bits 6..3 enable the four sources of the LCDStat
/// interrupt, bit 2 is the coincidence flag.
#[derive(Clone, Copy, Debug)]
pub struct STAT(pub u8);

impl STAT {
    pub fn coincidence_interrupt_enabled(&self) -> (r: bool)
        ensures
            r == bit_of(self.0, 6),
    {
        bit(self.0, 6)
    }

    pub fn oam_interrupt_enabled(&self) -> (r: bool)
        ensures
            r == bit_of(self.0, 5),
    {
        bit(self.0, 5)
    }

    pub fn vblank_interrupt_enabled(&self) -> (r: bool)
        ensures
            r == bit_of(self.0, 4),
    {
        bit(self.0, 4)
    }

    pub fn hblank_interrupt_enabled(&self) -> (r: bool)
        ensures
            r == bit_of(self.0, 3),
    {
        bit(self.0, 3)
    }

    pub fn coincidence_flag(&self) -> (r: bool)
        ensures
            r == bit_of(self.0, 2),
    {
        bit(self.0, 2)
    }

    pub fn set_coincidence_flag(&mut self, value: bool)
        ensures
            final(self).0 == with_bit(old(self).0, 2, value),
    {
        set_bit(&mut self.0, 2, value)
    }

    pub fn mode_flag(&self) -> (r: Mode)
        ensures
            r.number() == bits_of(self.0, 1, 0),
    {
        Mode::from_bits(bit_range(self.0, 1, 0))
    }
}

/// The shade that a palette register gives to the colour number `index`.
pub open spec fn shade(palette: u8, index: int) -> Color {
    Color::of_shade(bits_of(palette, 2 * index + 1, 2 * index))
}

/// The background palette.
#[derive(Clone, Copy, Debug)]
pub struct BGP(pub u8);

impl BGP {
    pub fn color_3(&self) -> (r: Color)
        ensures
            r == shade(self.0, 3),
    {
        Color::from_shade(bit_range(self.0, 7, 6))
    }

    pub fn color_2(&self) -> (r: Color)
        ensures
            r == shade(self.0, 2),
    {
        Color::from_shade(bit_range(self.0, 5, 4))
    }

    pub fn color_1(&self) -> (r: Color)
        ensures
            r == shade(self.0, 1),
    {
        Color::from_shade(bit_range(self.0, 3, 2))
    }

    pub fn color_0(&self) -> (r: Color)
        ensures
            r == shade(self.0, 0),
    {
        Color::from_shade(bit_range(self.0, 1, 0))
    }

    /// The shades of the colour numbers 0 to 3.
    pub fn as_palette(&self) -> (r: [Color; 4])
        ensures
            forall|index: int| 0 <= index < 4 ==> r[index] == #[trigger] shade(self.0, index),
    {
        [self.color_0(), self.color_1(), self.color_2(), self.color_3()]
    }
}

/// A sprite palette. Colour number 0 is transparent and has no shade.
#[derive(Clone, Copy, Debug)]
pub struct OBP(pub u8);

impl OBP {
    pub fn color_3(&self) -> (r: Color)
        ensures
            r == shade(self.0, 3),
    {
        Color::from_shade(bit_range(self.0, 7, 6))
    }

    pub fn color_2(&self) -> (r: Color)
        ensures
            r == shade(self.0, 2),
    {
        Color::from_shade(bit_range(self.0, 5, 4))
    }

    pub fn color_1(&self) -> (r: Color)
        ensures
            r == shade(self.0, 1),
    {
        Color::from_shade(bit_range(self.0, 3, 2))
    }

    /// The shades of the colour numbers 1 to 3.
    pub fn as_palette(&self) -> (r: [Color; 3])
        ensures
            forall|index: int| 1 <= index < 4 ==> r[index - 1] == #[trigger] shade(self.0, index),
    {
        [self.color_1(), self.color_2(), self.color_3()]
    }
}

/// The colour number of the pixel in column `column` of the tile row that is
/// stored at `address` in video memory. A row is two bytes; bit 7 of each
/// belongs to the leftmost pixel, and the second byte holds the high bit.
pub open spec fn row_pixel(vram: Seq<u8>, address: int, column: int) -> int {
    (if bit_of(vram[address], 7 - column) {
        1int
    } else {
        0int
    }) + (if bit_of(vram[address + 1], 7 - column) {
        2int
    } else {
        0int
    })
}

/// The 8-bit tile number `index` read as a signed number.
pub open spec fn signed_index(index: u8) -> int {
    if index < 128 {
        index as int
    } else {
        index - 256
    }
}

pub struct PPU {
    pub vram: [u8; 8192],
    pub oam: [u8; 160],
    pub lcdc: LCDC,
    pub stat: STAT,
    pub scy: u8,
    pub scx: u8,
    pub ly: u8,
    pub lyc: u8,
    pub wy: u8,
    pub wx: u8,
    pub bgp: BGP,
    pub obp0: OBP,
    pub obp1: OBP,
    /// The dots spent in the mode so far.
    pub counter: u16,
    pub mode: Mode,
}

/// What one dot does to the PPU, and the interrupts that it raises.
pub struct Dot {
    pub ppu: PPU,
    pub vblank: bool,
    pub lcdstat: bool,
    /// The dot ends the reading of VRAM: the scanline is drawn.
    pub draws: bool,
}

impl PPU {
    /// The dot counter is within its mode, and LY within the frame: below 144
    /// outside the vertical blank, at most 153 in it.
    pub open spec fn inv(&self) -> bool {
        &&& self.counter < self.mode.dots()
        &&& self.ly <= 153
        &&& !(self.mode is VBlank) ==> self.ly < 144
    }

    /// The PPU as the boot program leaves it: video memory and OAM cleared,
    /// LCDC at 0x91, the palettes at 0xFC, 0xFF and 0xFF, every other register
    /// at zero, at the first dot of the OAM read of scanline 0.
    pub open spec fn is_power_on(&self) -> bool {
        &&& self.vram@ == Seq::new(8192, |i: int| 0u8)
        &&& self.oam@ == Seq::new(160, |i: int| 0u8)
        &&& self.lcdc.0 == 0x91
        &&& self.stat.0 == 0x00
        &&& self.scy == 0 && self.scx == 0 && self.ly == 0 && self.lyc == 0 && self.wy == 0
            && self.wx == 0
        &&& self.bgp.0 == 0xFC
        &&& self.obp0.0 == 0xFF
        &&& self.obp1.0 == 0xFF
        &&& self.counter == 0
        &&& self.mode is OAMRead
    }

    /// The PPU with `value` at `offset` of video memory.
    pub open spec fn with_vram(self, offset: int, value: u8) -> PPU {
        PPU { vram: vstd::array::spec_array_update(self.vram, offset, value), ..self }
    }

    /// The PPU with `value` at `offset` of OAM.
    pub open spec fn with_oam(self, offset: int, value: u8) -> PPU {
        PPU { oam: vstd::array::spec_array_update(self.oam, offset, value), ..self }
    }

    /// The PPU after a write of `value` to STAT: bits 6..3 are taken, the
    /// others stay.
    pub open spec fn with_stat(self, value: u8) -> PPU {
        PPU {
            stat: STAT(with_bits(self.stat.0, 6, 3, bits_of(value, 6, 3) as u8) as u8),
            ..self
        }
    }

    /// The PPU with LY at `ly` and the coincidence flag telling whether that
    /// is LYC.
    pub open spec fn at_line(self, ly: u8) -> PPU {
        PPU { ly, stat: STAT(with_bit(self.stat.0, 2, ly == self.lyc) as u8), ..self }
    }

    /// Whether moving LY to `ly` sets a coincidence flag that was clear while
    /// the coincidence interrupt is enabled.
    pub open spec fn coincides(self, ly: u8) -> bool {
        bit_of(self.stat.0, 6) && ly == self.lyc && !bit_of(self.stat.0, 2)
    }

    /// One dot of the PPU.
    ///
    /// With the LCD off nothing happens. Otherwise a scanline is 80 dots of
    /// OAM read, 172 dots of VRAM read and 204 dots of horizontal blank, for
    /// LY from 0 to 143; then follow the ten scanlines of the vertical blank,
    /// 456 dots each, with LY from 144 to 153, and LY goes back to 0.
    ///
    /// Entering the horizontal blank, the vertical blank or the OAM read
    /// raises LCDStat where bit 3, 4 or 5 of STAT enables it; the vertical
    /// blank also raises VBlank. A change of LY that sets the coincidence
    /// flag raises LCDStat where bit 6 enables it.
    pub open spec fn dot(self) -> Dot {
        let next = (self.counter + 1) as u16;
        let idle = Dot {
            ppu: PPU { counter: next, ..self },
            vblank: false,
            lcdstat: false,
            draws: false,
        };
        if !self.lcdc.spec_lcd_enabled() {
            Dot { ppu: self, ..idle }
        } else if next < self.mode.dots() {
            idle
        } else {
            match self.mode {
                Mode::OAMRead => Dot {
                    ppu: PPU { counter: 0, mode: Mode::VRAMRead, ..self },
                    ..idle
                },
                Mode::VRAMRead => Dot {
                    ppu: PPU { counter: 0, mode: Mode::HBlank, ..self },
                    vblank: false,
                    lcdstat: bit_of(self.stat.0, 3),
                    draws: true,
                },
                Mode::HBlank => {
                    let ly = (self.ly + 1) as u8;
                    if ly == 144 {
                        Dot {
                            ppu: PPU { counter: 0, mode: Mode::VBlank, ..self.at_line(ly) },
                            vblank: true,
                            lcdstat: bit_of(self.stat.0, 4) || self.coincides(ly),
                            draws: false,
                        }
                    } else {
                        Dot {
                            ppu: PPU { counter: 0, mode: Mode::OAMRead, ..self.at_line(ly) },
                            vblank: false,
                            lcdstat: bit_of(self.stat.0, 5) || self.coincides(ly),
                            draws: false,
                        }
                    }
                },
                Mode::VBlank => {
                    if self.ly >= 153 {
                        Dot {
                            ppu: PPU { counter: 0, mode: Mode::OAMRead, ..self.at_line(0) },
                            vblank: false,
                            lcdstat: bit_of(self.stat.0, 5) || self.coincides(0),
                            draws: false,
                        }
                    } else {
                        let ly = (self.ly + 1) as u8;
                        Dot {
                            ppu: PPU { counter: 0, ..self.at_line(ly) },
                            vblank: false,
                            lcdstat: self.coincides(ly),
                            draws: false,
                        }
                    }
                },
            }
        }
    }

    /// What a read of `addr` yields: 0xFF from video memory while the PPU
    /// reads it, 0xFF from OAM while the PPU reads OAM or video memory, and
    /// the byte stored otherwise.
    pub open spec fn spec_read(&self, addr: u16) -> u8 {
        if 0x8000 <= addr <= 0x9FFF {
            if self.mode is VRAMRead {
                0xFF
            } else {
                self.vram[addr - 0x8000]
            }
        } else {
            if self.mode is OAMRead || self.mode is VRAMRead {
                0xFF
            } else {
                self.oam[addr - 0xFE00]
            }
        }
    }

    /// Where the row `line % 8` of the background tile under the pixel lies
    /// in video memory. The tile number comes from the tile map that bit 3 of
    /// LCDC selects. With bit 4 of LCDC set, tile 0 lies at 0x8000 and the
    /// number is unsigned; with it clear, tile 0 lies at 0x9000 and the number
    /// is signed.
    pub open spec fn background_row(&self, line: int, x: int) -> int {
        let map: int = if bit_of(self.lcdc.0, 3) {
            0x1C00
        } else {
            0x1800
        };
        let index = self.vram[map + (line / 8) * 32 + x / 8];
        let tile: int = if bit_of(self.lcdc.0, 4) {
            index as int * 16
        } else {
            0x1000 + signed_index(index) * 16
        };
        tile + (line % 8) * 2
    }

    /// The shade that the background map has at column `x` of row `line`.
    pub open spec fn map_shade(&self, line: int, x: int) -> Color {
        shade(self.bgp.0, row_pixel(self.vram@, self.background_row(line, x), x % 8))
    }

    /// The shade of the background at a pixel: white where the background is
    /// switched off.
    pub open spec fn background_pixel(&self, line: int, x: int) -> Color {
        if bit_of(self.lcdc.0, 0) {
            self.map_shade(line, x)
        } else {
            Color::White
        }
    }

    /// The height of the sprites that bit 2 of LCDC selects.
    pub open spec fn sprite_height(&self) -> int {
        if bit_of(self.lcdc.0, 2) {
            16
        } else {
            8
        }
    }

    /// Whether sprite `sprite` of OAM covers the pixel. Its first byte is the
    /// scanline of its top edge plus 16, its second the column of its left
    /// edge plus 8.
    pub open spec fn covers(&self, sprite: int, line: int, x: int) -> bool {
        let top = self.oam[4 * sprite] - 16;
        let left = self.oam[4 * sprite + 1] - 8;
        &&& 0 < self.oam[4 * sprite] < 160
        &&& top <= line < top + self.sprite_height()
        &&& left <= x < left + 8
    }

    /// The first of the sprites below `limit` that covers the pixel.
    pub open spec fn first_covering(&self, limit: int, line: int, x: int) -> Option<int>
        decreases limit,
    {
        if limit <= 0 {
            None
        } else {
            match self.first_covering(limit - 1, line, x) {
                Some(sprite) => Some(sprite),
                None => if self.covers(limit - 1, line, x) {
                    Some(limit - 1)
                } else {
                    None
                },
            }
        }
    }

    /// The colour number that sprite `sprite` has at the pixel.
    pub open spec fn sprite_index(&self, sprite: int, line: int, x: int) -> int {
        let top = self.oam[4 * sprite] - 16;
        let left = self.oam[4 * sprite + 1] - 8;
        row_pixel(self.vram@, self.oam[4 * sprite + 2] * 16 + (line - top) * 2, x - left)
    }

    /// The shade that sprite `sprite` has at the pixel, from the palette that
    /// bit 4 of its fourth byte selects.
    pub open spec fn sprite_shade(&self, sprite: int, line: int, x: int) -> Color {
        let palette = if bit_of(self.oam[4 * sprite + 3], 4) {
            self.obp1.0
        } else {
            self.obp0.0
        };
        shade(palette, self.sprite_index(sprite, line, x))
    }

    /// The shade of a pixel of the display: that of the first sprite that
    /// covers it, where sprites are switched on and the sprite is not
    /// transparent there, and that of the background otherwise.
    pub open spec fn pixel(&self, line: int, x: int) -> Color {
        match self.first_covering(40, line, x) {
            Some(sprite) if bit_of(self.lcdc.0, 1) && self.sprite_index(sprite, line, x) != 0 =>
                self.sprite_shade(sprite, line, x),
            _ => self.background_pixel(line, x),
        }
    }

    /// The calls that hand scanline LY to the host: its 160 pixels from the
    /// left to the right.
    pub open spec fn line_calls(&self) -> Seq<HostCall> {
        Seq::new(
            160,
            |x: int|
                HostCall::Pixel {
                    line: self.ly as usize,
                    x: x as usize,
                    color: self.pixel(self.ly as int, x),
                },
        )
    }

    /// The calls of the host that one dot makes: those of the scanline, where
    /// the dot ends the reading of VRAM.
    #[verifier::opaque]
    pub open spec fn dot_calls(&self) -> Seq<HostCall> {
        if self.dot().draws {
            self.line_calls()
        } else {
            Seq::empty()
        }
    }

    /// The colour number of pixel (`x`, `y`) of tile `tile`, counted from
    /// the start of video memory.
    pub open spec fn tile_pixel(&self, tile: int, x: int, y: int) -> int {
        row_pixel(self.vram@, tile * 16 + y * 2, x)
    }

    /// The PPU as the boot program leaves it.
    pub fn new() -> (r: PPU)
        ensures
            r.inv(),
            r.is_power_on(),
    {
        let ppu = PPU {
            vram: [0; 8192],
            oam: [0; 160],
            lcdc: LCDC(0x91),
            stat: STAT(0x00),
            scy: 0x00,
            scx: 0x00,
            ly: 0x00,
            lyc: 0x00,
            wy: 0x00,
            wx: 0x00,
            bgp: BGP(0xFC),
            obp0: OBP(0xFF),
            obp1: OBP(0xFF),
            counter: 0,
            mode: Mode::OAMRead,
        };
        assert(ppu.vram@ =~= Seq::new(8192, |i: int| 0u8));
        assert(ppu.oam@ =~= Seq::new(160, |i: int| 0u8));
        ppu
    }

    pub fn in_vblank(&self) -> (r: bool)
        ensures
            r == (self.mode is VBlank),
    {
        match self.mode {
            Mode::VBlank => true,
            _ => false,
        }
    }

    /// Reads a byte of video memory or OAM.
    pub fn read(&self, addr: u16) -> (r: u8)
        requires
            0x8000 <= addr <= 0x9FFF || 0xFE00 <= addr <= 0xFE9F,
        ensures
            r == self.spec_read(addr),
    {
        if addr <= 0x9FFF {
            match self.mode {
                Mode::VRAMRead => 0xFF,
                _ => self.vram[(addr - 0x8000) as usize],
            }
        } else {
            match self.mode {
                Mode::OAMRead | Mode::VRAMRead => 0xFF,
                _ => self.oam[(addr - 0xFE00) as usize],
            }
        }
    }

    /// Replaces OAM by `data`, with the PPU in any mode.
    pub fn dma(&mut self, data: [u8; 160])
        ensures
            *final(self) == (PPU { oam: data, ..*old(self) }),
    {
        self.oam = data;
    }

    /// Writes a byte of video memory or OAM. The write is dropped where a
    /// read would yield 0xFF.
    pub fn write(&mut self, addr: u16, value: u8)
        requires
            0x8000 <= addr <= 0x9FFF || 0xFE00 <= addr <= 0xFE9F,
        ensures
            *final(self) == (if addr <= 0x9FFF {
                if old(self).mode is VRAMRead {
                    *old(self)
                } else {
                    old(self).with_vram(addr - 0x8000, value)
                }
            } else {
                if old(self).mode is VRAMRead || old(self).mode is OAMRead {
                    *old(self)
                } else {
                    old(self).with_oam(addr - 0xFE00, value)
                }
            }),
    {
        if addr <= 0x9FFF {
            match self.mode {
                Mode::VRAMRead => {},
                _ => {
                    self.vram[(addr - 0x8000) as usize] = value;
                },
            }
        } else {
            match self.mode {
                Mode::OAMRead | Mode::VRAMRead => {},
                _ => {
                    self.oam[(addr - 0xFE00) as usize] = value;
                },
            }
        }
    }

    pub fn lcdc(&self) -> (r: LCDC)
        ensures
            r == self.lcdc,
    {
        self.lcdc
    }

    pub fn stat(&self) -> (r: STAT)
        ensures
            r == self.stat,
    {
        self.stat
    }

    pub fn scy(&self) -> (r: u8)
        ensures
            r == self.scy,
    {
        self.scy
    }

    pub fn scx(&self) -> (r: u8)
        ensures
            r == self.scx,
    {
        self.scx
    }

    /// LY as a read finds it: 0 while the LCD is off.
    pub fn ly(&self) -> (r: u8)
        ensures
            r == (if self.lcdc.spec_lcd_enabled() {
                self.ly
            } else {
                0
            }),
    {
        if self.lcdc.lcd_enabled() {
            self.ly
        } else {
            0
        }
    }

    pub fn lyc(&self) -> (r: u8)
        ensures
            r == self.lyc,
    {
        self.lyc
    }

    pub fn wy(&self) -> (r: u8)
        ensures
            r == self.wy,
    {
        self.wy
    }

    pub fn wx(&self) -> (r: u8)
        ensures
            r == self.wx,
    {
        self.wx
    }

    pub fn bgp(&self) -> (r: BGP)
        ensures
            r == self.bgp,
    {
        self.bgp
    }

    pub fn obp0(&self) -> (r: OBP)
        ensures
            r == self.obp0,
    {
        self.obp0
    }

    pub fn obp1(&self) -> (r: OBP)
        ensures
            r == self.obp1,
    {
        self.obp1
    }

    pub fn set_lcdc(&mut self, value: u8)
        ensures
            *final(self) == (PPU { lcdc: LCDC(value), ..*old(self) }),
    {
        self.lcdc = LCDC(value);
    }

    /// A write to STAT: bits 6..3 are taken from `value`, the others stay.
    pub fn set_stat(&mut self, value: u8)
        ensures
            *final(self) == old(self).with_stat(value),
    {
        let mut stat = self.stat.0;
        set_bit_range(&mut stat, 6, 3, bit_range(value, 6, 3));
        self.stat = STAT(stat);
    }

    pub fn set_scy(&mut self, value: u8)
        ensures
            *final(self) == (PPU { scy: value, ..*old(self) }),
    {
        self.scy = value;
    }

    pub fn set_scx(&mut self, value: u8)
        ensures
            *final(self) == (PPU { scx: value, ..*old(self) }),
    {
        self.scx = value;
    }

    /// A write to LY: whatever is written, LY becomes 0.
    pub fn set_ly(&mut self, value: u8)
        ensures
            *final(self) == (PPU { ly: 0, ..*old(self) }),
    {
        self.ly = 0;
    }

    pub fn set_lyc(&mut self, value: u8)
        ensures
            *final(self) == (PPU { lyc: value, ..*old(self) }),
    {
        self.lyc = value;
    }

    pub fn set_wy(&mut self, value: u8)
        ensures
            *final(self) == (PPU { wy: value, ..*old(self) }),
    {
        self.wy = value;
    }

    pub fn set_wx(&mut self, value: u8)
        ensures
            *final(self) == (PPU { wx: value, ..*old(self) }),
    {
        self.wx = value;
    }

    pub fn set_bgp(&mut self, value: u8)
        ensures
            *final(self) == (PPU { bgp: BGP(value), ..*old(self) }),
    {
        self.bgp = BGP(value);
    }

    pub fn set_obp0(&mut self, value: u8)
        ensures
            *final(self) == (PPU { obp0: OBP(value), ..*old(self) }),
    {
        self.obp0 = OBP(value);
    }

    pub fn set_obp1(&mut self, value: u8)
        ensures
            *final(self) == (PPU { obp1: OBP(value), ..*old(self) }),
    {
        self.obp1 = OBP(value);
    }

    /// Lets LY move to `ly` and sets the coincidence flag accordingly.
    fn move_to_line(&mut self, ly: u8) -> (coincides: bool)
        ensures
            *final(self) == old(self).at_line(ly),
            coincides == old(self).coincides(ly),
    {
        let coincides = self.stat.coincidence_interrupt_enabled() && ly == self.lyc
            && !self.stat.coincidence_flag();
        proof {
            lemma_with_bit(self.stat.0, 2, ly == self.lyc, 2);
        }
        self.ly = ly;
        self.stat.set_coincidence_flag(ly == self.lyc);
        coincides
    }

    /// One dot of the PPU. The result tells whether the VBlank interrupt and
    /// whether the LCDStat interrupt is raised. At the end of the VRAM read
    /// the scanline is drawn on the host.
    pub fn tick<H: HAL>(&mut self, host: &mut Host<H>) -> (r: (bool, bool))
        requires
            old(self).inv(),
        ensures
            final(self).inv(),
            *final(self) == old(self).dot().ppu,
            r.0 == old(self).dot().vblank,
            r.1 == old(self).dot().lcdstat,
            final(host).calls@ == old(host).calls@ + old(self).dot_calls(),
    {
        proof {
            reveal(PPU::dot_calls);
        }
        if !self.lcdc.lcd_enabled() {
            assert(host.calls@ =~= old(host).calls@ + old(self).dot_calls());
            return (false, false);
        }
        let next = self.counter + 1;
        let (mut vblank, mut lcdstat) = (false, false);
        match self.mode {
            Mode::OAMRead => {
                if next == OAM_READ_DOTS {
                    self.counter = 0;
                    self.mode = Mode::VRAMRead;
                } else {
                    self.counter = next;
                }
            },
            Mode::VRAMRead => {
                if next == VRAM_READ_DOTS {
                    self.render_scanline(host);
                    self.counter = 0;
                    self.mode = Mode::HBlank;
                    if self.stat.hblank_interrupt_enabled() {
                        lcdstat = true;
                    }
                } else {
                    self.counter = next;
                }
            },
            Mode::HBlank => {
                if next == HBLANK_DOTS {
                    self.counter = 0;
                    let coincides = self.move_to_line(self.ly + 1);
                    if self.ly == VISIBLE_LINES {
                        self.mode = Mode::VBlank;
                        vblank = true;
                        if self.stat.vblank_interrupt_enabled() {
                            lcdstat = true;
                        }
                    } else {
                        self.mode = Mode::OAMRead;
                        if self.stat.oam_interrupt_enabled() {
                            lcdstat = true;
                        }
                    }
                    if coincides {
                        lcdstat = true;
                    }
                } else {
                    self.counter = next;
                }
            },
            Mode::VBlank => {
                if next == SCANLINE_DOTS {
                    self.counter = 0;
                    let coincides = if self.ly >= LAST_LINE {
                        self.mode = Mode::OAMRead;
                        if self.stat.oam_interrupt_enabled() {
                            lcdstat = true;
                        }
                        self.move_to_line(0)
                    } else {
                        self.move_to_line(self.ly + 1)
                    };
                    if coincides {
                        lcdstat = true;
                    }
                } else {
                    self.counter = next;
                }
            },
        }
        assert(host.calls@ =~= old(host).calls@ + old(self).dot_calls());
        (vblank, lcdstat)
    }

    /// The colour number of the pixel in column `column` of the tile row at
    /// `address`.
    fn row_index(&self, address: usize, column: usize) -> (r: u8)
        requires
            address + 1 < 8192,
            column < 8,
        ensures
            r == row_pixel(self.vram@, address as int, column as int),
            r < 4,
    {
        let low = bit(self.vram[address], 7 - column);
        let high = bit(self.vram[address + 1], 7 - column);
        let mut palette_index: u8 = 0;
        set_bit(&mut palette_index, 0, low);
        set_bit(&mut palette_index, 1, high);
        palette_index
    }

    /// The shade that the background map has at column `x` of row `line`.
    fn map_color(&self, line: u8, x: u8) -> (r: Color)
        ensures
            r == self.map_shade(line as int, x as int),
    {
        let palette = self.bgp.as_palette();
        let map: usize = self.lcdc.background_tile_map_display_select().into_address() - 0x8000;
        let tile_index = self.vram[map + (line as usize / 8) * 32 + x as usize / 8];
        let tile: usize = match self.lcdc.background_and_window_tile_data_select() {
            BackgroundTileData::_8000 => tile_index as usize * 16,
            BackgroundTileData::_8800 => if tile_index < 128 {
                0x1000 + tile_index as usize * 16
            } else {
                0x1000 - (256 - tile_index as usize) * 16
            },
        };
        let palette_index = self.row_index(tile + (line as usize % 8) * 2, x as usize % 8);
        palette[palette_index as usize]
    }

    /// Whether sprite `sprite` covers the pixel.
    fn sprite_covers(&self, sprite: usize, line: u8, x: u8) -> (r: bool)
        requires
            sprite < 40,
        ensures
            r == self.covers(sprite as int, line as int, x as int),
    {
        let y = self.oam[4 * sprite];
        let top = y as i16 - 16;
        let left = self.oam[4 * sprite + 1] as i16 - 8;
        let height = self.lcdc.obj_size().get_height();
        y > 0 && y < 160 && line as i16 >= top && (line as i16) < top + height && x as i16 >= left
            && (x as i16) < left + 8
    }

    /// Once a sprite is the first to cover a pixel, it stays the first
    /// however many more sprites are looked at.
    proof fn lemma_first_stays(&self, found: int, limit: int, line: int, x: int)
        requires
            0 <= found < limit,
            self.covers(found, line, x),
            self.first_covering(found, line, x) is None,
        ensures
            self.first_covering(limit, line, x) == Some(found),
        decreases limit,
    {
        if limit > found + 1 {
            self.lemma_first_stays(found, limit - 1, line, x);
        }
    }

    /// The first sprite in OAM that covers the pixel.
    fn find_sprite(&self, line: u8, x: u8) -> (r: Option<usize>)
        ensures
            match r {
                Some(sprite) => sprite < 40 && self.covers(sprite as int, line as int, x as int)
                    && self.first_covering(40, line as int, x as int) == Some(sprite as int),
                None => self.first_covering(40, line as int, x as int) is None,
            },
    {
        let mut sprite: usize = 0;
        while sprite < 40
            invariant
                sprite <= 40,
                self.first_covering(sprite as int, line as int, x as int) is None,
            decreases 40 - sprite,
        {
            if self.sprite_covers(sprite, line, x) {
                proof {
                    self.lemma_first_stays(sprite as int, 40, line as int, x as int);
                }
                return Some(sprite);
            }
            sprite += 1;
        }
        None
    }

    /// The shade of a pixel of the display.
    pub fn color_at(&self, line: u8, x: u8) -> (r: Color)
        ensures
            r == self.pixel(line as int, x as int),
    {
        let background = if self.lcdc.bg_display_enabled() {
            self.map_color(line, x)
        } else {
            Color::White
        };
        if !self.lcdc.obj_display_enabled() {
            return background;
        }
        match self.find_sprite(line, x) {
            Some(sprite) => {
                let top = self.oam[4 * sprite] as i16 - 16;
                let left = self.oam[4 * sprite + 1] as i16 - 8;
                let tile_y = (line as i16 - top) as usize;
                let tile_x = (x as i16 - left) as usize;
                let tile_index = self.oam[4 * sprite + 2] as usize;
                let palette = if !bit(self.oam[4 * sprite + 3], 4) {
                    self.obp0.as_palette()
                } else {
                    self.obp1.as_palette()
                };
                let palette_index = self.row_index(tile_index * 16 + tile_y * 2, tile_x);
                if palette_index == 0 {
                    background
                } else {
                    palette[palette_index as usize - 1]
                }
            },
            None => background,
        }
    }

    /// Draws the scanline LY on the host, from the left to the right.
    fn render_scanline<H: HAL>(&self, host: &mut Host<H>)
        requires
            self.ly < 144,
        ensures
            final(host).calls@ == old(host).calls@ + self.line_calls(),
    {
        let line = self.ly;
        let mut x: u8 = 0;
        assert(host.calls@ =~= old(host).calls@ + self.line_calls().subrange(0, 0));
        while x < 160
            invariant
                x <= 160,
                line == self.ly,
                line < 144,
                host.calls@ == old(host).calls@ + self.line_calls().subrange(0, x as int),
            decreases 160 - x,
        {
            let color = self.color_at(line, x);
            let ghost before = host.calls@;
            host.put_pixel(line as usize, x as usize, color);
            assert(host.calls@ =~= old(host).calls@ + self.line_calls().subrange(0, x + 1)) by {
                assert(self.line_calls().subrange(0, x + 1) =~= self.line_calls().subrange(
                    0,
                    x as int,
                ).push(self.line_calls()[x as int]));
            }
            x += 1;
        }
        assert(self.line_calls().subrange(0, 160) =~= self.line_calls());
    }

    /// The 384 tiles of video memory, each as the colour numbers of its 64
    /// pixels, row by row.
    pub fn tiles(&self) -> (r: Vec<Vec<u8>>)
        ensures
            r.len() == 384,
            forall|tile: int| 0 <= tile < 384 ==> (#[trigger] r[tile]).len() == 64,
            forall|tile: int, x: int, y: int|
                0 <= tile < 384 && 0 <= x < 8 && 0 <= y < 8 ==> r[tile][y * 8 + x]
                    == #[trigger] self.tile_pixel(tile, x, y),
    {
        let mut tiles: Vec<Vec<u8>> = Vec::new();
        let mut tile: usize = 0;
        while tile < 384
            invariant
                tile <= 384,
                tiles.len() == tile,
                forall|t: int| 0 <= t < tile ==> (#[trigger] tiles[t]).len() == 64,
                forall|t: int, x: int, y: int|
                    0 <= t < tile && 0 <= x < 8 && 0 <= y < 8 ==> tiles[t][y * 8 + x]
                        == #[trigger] self.tile_pixel(t, x, y),
            decreases 384 - tile,
        {
            let pixels = self.tile(tile);
            tiles.push(pixels);
            tile += 1;
        }
        tiles
    }

    /// The colour numbers of the 64 pixels of tile `tile`, row by row.
    fn tile(&self, tile: usize) -> (r: Vec<u8>)
        requires
            tile < 384,
        ensures
            r.len() == 64,
            forall|x: int, y: int|
                0 <= x < 8 && 0 <= y < 8 ==> r[y * 8 + x] == #[trigger] self.tile_pixel(
                    tile as int,
                    x,
                    y,
                ),
    {
        let mut pixels: Vec<u8> = Vec::new();
        let mut i: usize = 0;
        while i < 64
            invariant
                i <= 64,
                tile < 384,
                pixels.len() == i,
                forall|k: int|
                    0 <= k < i ==> #[trigger] pixels[k] == self.tile_pixel(tile as int, k % 8, k / 8),
            decreases 64 - i,
        {
            let palette_index = self.row_index(tile * 16 + (i / 8) * 2, i % 8);
            pixels.push(palette_index);
            i += 1;
        }
        assert forall|x: int, y: int| 0 <= x < 8 && 0 <= y < 8 implies pixels[y * 8 + x]
            == #[trigger] self.tile_pixel(tile as int, x, y) by {
            let k = y * 8 + x;
            assert(k % 8 == x && k / 8 == y);
        }
        pixels
    }

    /// The whole background map as 256 rows of 256 shades.
    pub fn background_tile_map(&self) -> (r: Vec<Color>)
        ensures
            r.len() == 256 * 256,
            forall|line: int, x: int|
                0 <= line < 256 && 0 <= x < 256 ==> r[line * 256 + x] == #[trigger] self.map_shade(
                    line,
                    x,
                ),
    {
        let mut map: Vec<Color> = Vec::new();
        let mut i: usize = 0;
        while i < 256 * 256
            invariant
                i <= 256 * 256,
                map.len() == i,
                forall|k: int| 0 <= k < i ==> #[trigger] map[k] == self.map_shade(k / 256, k % 256),
            decreases 256 * 256 - i,
        {
            let color = self.map_color((i / 256) as u8, (i % 256) as u8);
            map.push(color);
            i += 1;
        }
        assert forall|line: int, x: int| 0 <= line < 256 && 0 <= x < 256 implies map[line * 256
            + x] == #[trigger] self.map_shade(line, x) by {
            let k = line * 256 + x;
            assert(k / 256 == line && k % 256 == x);
        }
        map
    }
}

impl PPU {
    /// The PPU after `count` dots.
    pub open spec fn after_dots(self, count: nat) -> PPU
        decreases count,
    {
        if count == 0 {
            self
        } else {
            self.after_dots((count - 1) as nat).dot().ppu
        }
    }

    /// The PPU stands at the first dot of `mode` on scanline `ly`, with the
    /// LCD switched on.
    pub open spec fn begins(self, mode: Mode, ly: int) -> bool {
        &&& self.lcdc.spec_lcd_enabled()
        &&& self.counter == 0
        &&& self.mode == mode
        &&& self.ly == ly
    }
}

proof fn lemma_dots_add(ppu: PPU, first: nat, second: nat)
    ensures
        ppu.after_dots(first + second) == ppu.after_dots(first).after_dots(second),
    decreases second,
{
    if second > 0 {
        lemma_dots_add(ppu, first, (second - 1) as nat);
        assert(ppu.after_dots(first + second) == ppu.after_dots((first + second - 1) as nat).dot().ppu);
    }
}

proof fn lemma_within_mode(ppu: PPU, count: nat)
    requires
        ppu.lcdc.spec_lcd_enabled(),
        ppu.counter + count < ppu.mode.dots(),
    ensures
        ppu.after_dots(count) == (PPU { counter: (ppu.counter + count) as u16, ..ppu }),
    decreases count,
{
    if count > 0 {
        lemma_within_mode(ppu, (count - 1) as nat);
    }
}

/// The last dot of a mode follows `count - 1` dots within it.
proof fn lemma_mode_ends(ppu: PPU, count: nat)
    requires
        ppu.lcdc.spec_lcd_enabled(),
        ppu.counter == 0,
        count == ppu.mode.dots(),
    ensures
        ppu.after_dots(count) == (PPU { counter: (count - 1) as u16, ..ppu }).dot().ppu,
{
    lemma_within_mode(ppu, (count - 1) as nat);
}

/// A scanline that is drawn takes 80 dots of OAM read, 172 dots of VRAM read
/// and 204 dots of horizontal blank: 456 dots after its start the next
/// scanline begins, with the OAM read or, behind scanline 143, with the
/// vertical blank.
pub proof fn lemma_scanline(ppu: PPU)
    requires
        ppu.inv(),
        ppu.begins(Mode::OAMRead, ppu.ly as int),
    ensures
        ppu.after_dots(80) == (PPU { mode: Mode::VRAMRead, ..ppu }),
        ppu.after_dots(80 + 172) == (PPU { mode: Mode::HBlank, ..ppu }),
        ppu.after_dots(80 + 172 + 204).begins(
            if ppu.ly == 143 {
                Mode::VBlank
            } else {
                Mode::OAMRead
            },
            ppu.ly + 1,
        ),
        ppu.after_dots(456).inv(),
        ppu.after_dots(456).lcdc == ppu.lcdc,
        ppu.after_dots(456).lyc == ppu.lyc,
{
    lemma_mode_ends(ppu, 80);
    let reading = PPU { mode: Mode::VRAMRead, ..ppu };
    lemma_mode_ends(reading, 172);
    lemma_dots_add(ppu, 80, 172);
    let blank = PPU { mode: Mode::HBlank, ..ppu };
    lemma_mode_ends(blank, 204);
    lemma_dots_add(ppu, 252, 204);
}

/// A scanline of the vertical blank takes 456 dots. Behind scanline 153 the
/// next frame begins with the OAM read of scanline 0.
pub proof fn lemma_blank_line(ppu: PPU)
    requires
        ppu.inv(),
        ppu.begins(Mode::VBlank, ppu.ly as int),
    ensures
        ppu.after_dots(456).begins(
            if ppu.ly == 153 {
                Mode::OAMRead
            } else {
                Mode::VBlank
            },
            if ppu.ly == 153 {
                0
            } else {
                ppu.ly + 1
            },
        ),
        ppu.after_dots(456).inv(),
        ppu.after_dots(456).lcdc == ppu.lcdc,
        ppu.after_dots(456).lyc == ppu.lyc,
{
    lemma_mode_ends(ppu, 456);
}

proof fn lemma_drawn_lines(ppu: PPU, lines: nat)
    requires
        ppu.inv(),
        ppu.begins(Mode::OAMRead, 0),
        lines <= 144,
    ensures
        ppu.after_dots(456 * lines).begins(
            if lines == 144 {
                Mode::VBlank
            } else {
                Mode::OAMRead
            },
            lines as int,
        ),
        ppu.after_dots(456 * lines).inv(),
    decreases lines,
{
    if lines > 0 {
        let before = (lines - 1) as nat;
        lemma_drawn_lines(ppu, before);
        lemma_scanline(ppu.after_dots(456 * before));
        lemma_dots_add(ppu, 456 * before, 456);
        assert(456 * before + 456 == 456 * lines);
    }
}

proof fn lemma_blank_lines(ppu: PPU, lines: nat)
    requires
        ppu.inv(),
        ppu.begins(Mode::VBlank, 144),
        lines <= 10,
    ensures
        ppu.after_dots(456 * lines).begins(
            if lines == 10 {
                Mode::OAMRead
            } else {
                Mode::VBlank
            },
            if lines == 10 {
                0int
            } else {
                144 + lines as int
            },
        ),
        ppu.after_dots(456 * lines).inv(),
    decreases lines,
{
    if lines > 0 {
        let before = (lines - 1) as nat;
        lemma_blank_lines(ppu, before);
        lemma_blank_line(ppu.after_dots(456 * before));
        lemma_dots_add(ppu, 456 * before, 456);
        assert(456 * before + 456 == 456 * lines);
    }
}

/// A frame is 154 scanlines of 456 dots: 70224 dots after the first dot of
/// scanline 0 the PPU stands there again. The vertical blank begins 144
/// scanlines into the frame.
pub proof fn lemma_frame(ppu: PPU)
    requires
        ppu.inv(),
        ppu.begins(Mode::OAMRead, 0),
    ensures
        ppu.after_dots(144 * 456).begins(Mode::VBlank, 144),
        ppu.after_dots(70224).begins(Mode::OAMRead, 0),
        ppu.after_dots(70224).inv(),
{
    lemma_drawn_lines(ppu, 144);
    let blank = ppu.after_dots(456 * 144);
    lemma_blank_lines(blank, 10);
    lemma_dots_add(ppu, 456 * 144, 456 * 10);
    assert(456 * 144 + 456 * 10 == 70224);
}

} // verus!
