//! What the emulator asks of its host: a display, a joypad and a serial link.

use vstd::prelude::*;

verus! {

/// The four shades of the display.
#[derive(Copy, Clone, Debug, PartialEq, Eq)]
pub enum Color {
    White,
    LightGrey,
    DarkGrey,
    Black,
}

impl Color {
    /// The shade that the two bits `value` of a palette stand for.
    pub open spec fn of_shade(value: int) -> Color {
        if value == 0 {
            Color::White
        } else if value == 1 {
            Color::LightGrey
        } else if value == 2 {
            Color::DarkGrey
        } else {
            Color::Black
        }
    }

    /// The red, green, blue and alpha components of the shade.
    pub open spec fn rgba(self) -> Seq<u8> {
        match self {
            Color::White => seq![155u8, 188u8, 15u8, 255u8],
            Color::LightGrey => seq![139u8, 172u8, 15u8, 255u8],
            Color::DarkGrey => seq![48u8, 98u8, 48u8, 255u8],
            Color::Black => seq![15u8, 56u8, 15u8, 255u8],
        }
    }

    /// The shade that a two-bit palette entry stands for.
    pub fn from_shade(value: u8) -> (r: Color)
        requires
            value < 4,
        ensures
            r == Color::of_shade(value as int),
    {
        match value {
            0 => Color::White,
            1 => Color::LightGrey,
            2 => Color::DarkGrey,
            _ => Color::Black,
        }
    }

    pub fn into_rgba(self) -> (r: [u8; 4])
        ensures
            r@ == self.rgba(),
    {
        let r: [u8; 4] = match self {
            Color::White => [155, 188, 15, 255],
            Color::LightGrey => [139, 172, 15, 255],
            Color::DarkGrey => [48, 98, 48, 255],
            Color::Black => [15, 56, 15, 255],
        };
        assert(r@ =~= self.rgba());
        r
    }
}

/// The eight buttons of the joypad.
#[derive(Copy, Clone, Debug, PartialEq, Eq, Hash)]
pub enum Joypad {
    Up,
    Down,
    Left,
    Right,
    A,
    B,
    Start,
    Select,
}

/// The host. The emulator calls it in the middle of a step and keeps nothing
/// of it between steps; what it answers is up to the host, so the emulator
/// promises nothing that depends on the answers.
pub trait HAL {
    /// Whether `button` is held down right now.
    fn is_joypad_pressed(&self, button: Joypad) -> bool;

    /// Shows `color` at column `x` of scanline `line`.
    fn put_pixel(&mut self, line: usize, x: usize, color: Color)
        requires
            line < 144,
            x < 160,
    ;

    /// Takes the byte that the serial port sends and gives the byte that it
    /// receives.
    fn serial_callback(&mut self, value: u8) -> u8;
}

/// One call of the host, with what the host answered.
pub enum HostCall {
    Pressed { button: Joypad, pressed: bool },
    Pixel { line: usize, x: usize, color: Color },
    Serial { sent: u8, received: u8 },
}

/// `after` is `before` with `count` more calls.
pub open spec fn grown(before: Seq<HostCall>, after: Seq<HostCall>, count: int) -> bool {
    &&& 0 <= count
    &&& after.len() == before.len() + count
    &&& forall|i: int| 0 <= i < before.len() ==> #[trigger] after[i] == before[i]
}

/// A host, and the record of every call that was made of it.
pub struct Host<H: HAL> {
    pub hal: H,
    pub calls: Ghost<Seq<HostCall>>,
}

impl<H: HAL> Host<H> {
    pub fn new(hal: H) -> (host: Self)
        ensures
            host.hal == hal,
            host.calls@ == Seq::<HostCall>::empty(),
    {
        Host { hal, calls: Ghost(Seq::empty()) }
    }

    /// Asks the host whether `button` is held down.
    pub fn is_joypad_pressed(&mut self, button: Joypad) -> (pressed: bool)
        ensures
            final(self).calls@ == old(self).calls@.push(HostCall::Pressed { button, pressed }),
    {
        let pressed = self.hal.is_joypad_pressed(button);
        self.calls = Ghost(self.calls@.push(HostCall::Pressed { button, pressed }));
        pressed
    }

    /// Hands a pixel of the display to the host.
    pub fn put_pixel(&mut self, line: usize, x: usize, color: Color)
        requires
            line < 144,
            x < 160,
        ensures
            final(self).calls@ == old(self).calls@.push(HostCall::Pixel { line, x, color }),
    {
        self.hal.put_pixel(line, x, color);
        self.calls = Ghost(self.calls@.push(HostCall::Pixel { line, x, color }));
    }

    /// Hands the byte that the serial port sends to the host and takes the
    /// byte that it receives.
    pub fn serial_callback(&mut self, value: u8) -> (received: u8)
        ensures
            final(self).calls@ == old(self).calls@.push(
                HostCall::Serial { sent: value, received },
            ),
    {
        let received = self.hal.serial_callback(value);
        self.calls = Ghost(self.calls@.push(HostCall::Serial { sent: value, received }));
        received
    }
}

} // verus!
