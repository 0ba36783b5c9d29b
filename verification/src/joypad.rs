//! The joypad register: two select lines written by the program, four input
//! lines sampled from the host. Every line is active low.

use crate::bits::{bit, bit_of, bit_range, bits_of, set_bit_range, with_bits};
use crate::hal::Joypad as Button;
use crate::hal::{grown, Host, HostCall, HAL};
use vstd::prelude::*;

verus! {

#[derive(Clone, Copy, Debug, PartialEq, Eq)]
pub enum SelectState {
    Selected,
    NotSelected,
}

impl SelectState {
    /// The level of the line: low where the row is selected.
    pub open spec fn level(self) -> u8 {
        match self {
            SelectState::Selected => 0,
            SelectState::NotSelected => 1,
        }
    }

    pub fn from_bits(value: u8) -> (r: SelectState)
        requires
            value < 2,
        ensures
            r.level() == value,
    {
        match value {
            0 => SelectState::Selected,
            _ => SelectState::NotSelected,
        }
    }

    pub fn into_bits(self) -> (r: u8)
        ensures
            r == self.level(),
    {
        match self {
            SelectState::Selected => 0,
            SelectState::NotSelected => 1,
        }
    }

    pub fn is_selected(self) -> (r: bool)
        ensures
            r == (self.level() == 0),
    {
        match self {
            SelectState::Selected => true,
            SelectState::NotSelected => false,
        }
    }
}

#[derive(Clone, Copy, Debug, PartialEq, Eq)]
pub enum ButtonState {
    Pressed,
    Released,
}

impl ButtonState {
    /// The level of the line: low where the button is pressed.
    pub open spec fn level(self) -> u8 {
        match self {
            ButtonState::Pressed => 0,
            ButtonState::Released => 1,
        }
    }

    pub fn from_bits(value: u8) -> (r: ButtonState)
        requires
            value < 2,
        ensures
            r.level() == value,
    {
        match value {
            0 => ButtonState::Pressed,
            _ => ButtonState::Released,
        }
    }

    pub fn into_bits(self) -> (r: u8)
        ensures
            r == self.level(),
    {
        match self {
            ButtonState::Pressed => 0,
            ButtonState::Released => 1,
        }
    }

    pub fn is_pressed(self) -> (r: bool)
        ensures
            r == (self.level() == 0),
    {
        match self {
            ButtonState::Pressed => true,
            ButtonState::Released => false,
        }
    }

    /// Two rows share a line: it is low where either button is pressed.
    pub fn or(self, rhs: ButtonState) -> (r: ButtonState)
        ensures
            r.level() == self.level() * rhs.level(),
    {
        match (self, rhs) {
            (ButtonState::Released, ButtonState::Released) => ButtonState::Released,
            _ => ButtonState::Pressed,
        }
    }
}

/// The joypad register. Bit 5 selects the buttons, bit 4 the directions; bits
/// 3..0 are the lines Down or Start, Up or Select, Left or B, Right or A.
#[derive(Clone, Copy, Debug)]
pub struct JOYP(pub u8);

impl JOYP {
    pub fn select_buttons(&self) -> (r: SelectState)
        ensures
            r.level() == bits_of(self.0, 5, 5),
    {
        SelectState::from_bits(bit_range(self.0, 5, 5))
    }

    pub fn set_select_buttons(&mut self, value: SelectState)
        ensures
            final(self).0 == with_bits(old(self).0, 5, 5, value.level()),
    {
        set_bit_range(&mut self.0, 5, 5, value.into_bits())
    }

    pub fn select_directions(&self) -> (r: SelectState)
        ensures
            r.level() == bits_of(self.0, 4, 4),
    {
        SelectState::from_bits(bit_range(self.0, 4, 4))
    }

    pub fn set_select_directions(&mut self, value: SelectState)
        ensures
            final(self).0 == with_bits(old(self).0, 4, 4, value.level()),
    {
        set_bit_range(&mut self.0, 4, 4, value.into_bits())
    }

    /// The four input lines.
    pub fn inputs(&self) -> (r: u8)
        ensures
            r == self.0 % 16,
    {
        bit_range(self.0, 3, 0)
    }

    pub fn set_inputs(&mut self, value: u8)
        ensures
            final(self).0 == with_bits(old(self).0, 3, 0, value),
    {
        set_bit_range(&mut self.0, 3, 0, value)
    }

    pub fn down_or_start(&self) -> (r: ButtonState)
        ensures
            r.level() == bits_of(self.0, 3, 3),
    {
        ButtonState::from_bits(bit_range(self.0, 3, 3))
    }

    pub fn set_down_or_start(&mut self, value: ButtonState)
        ensures
            final(self).0 == with_bits(old(self).0, 3, 3, value.level()),
    {
        set_bit_range(&mut self.0, 3, 3, value.into_bits())
    }

    pub fn up_or_select(&self) -> (r: ButtonState)
        ensures
            r.level() == bits_of(self.0, 2, 2),
    {
        ButtonState::from_bits(bit_range(self.0, 2, 2))
    }

    pub fn set_up_or_select(&mut self, value: ButtonState)
        ensures
            final(self).0 == with_bits(old(self).0, 2, 2, value.level()),
    {
        set_bit_range(&mut self.0, 2, 2, value.into_bits())
    }

    pub fn left_or_b(&self) -> (r: ButtonState)
        ensures
            r.level() == bits_of(self.0, 1, 1),
    {
        ButtonState::from_bits(bit_range(self.0, 1, 1))
    }

    pub fn set_left_or_b(&mut self, value: ButtonState)
        ensures
            final(self).0 == with_bits(old(self).0, 1, 1, value.level()),
    {
        set_bit_range(&mut self.0, 1, 1, value.into_bits())
    }

    pub fn right_or_a(&self) -> (r: ButtonState)
        ensures
            r.level() == bits_of(self.0, 0, 0),
    {
        ButtonState::from_bits(bit_range(self.0, 0, 0))
    }

    pub fn set_right_or_a(&mut self, value: ButtonState)
        ensures
            final(self).0 == with_bits(old(self).0, 0, 0, value.level()),
    {
        set_bit_range(&mut self.0, 0, 0, value.into_bits())
    }
}

/// The level of input line `index` where the rows `directions` and `buttons`
/// share the lines: low where it is low in either row.
pub open spec fn shared_line(directions: u8, buttons: u8, index: int) -> int {
    bits_of(directions, index, index) * bits_of(buttons, index, index)
}

/// The register that a read yields: the upper nibble as it was written, and
/// on each input line the level that the two rows give it.
pub open spec fn merged(joyp: u8, directions: u8, buttons: u8) -> int {
    (joyp as int / 16) * 16 + shared_line(directions, buttons, 3) * 8 + shared_line(
        directions,
        buttons,
        2,
    ) * 4 + shared_line(directions, buttons, 1) * 2 + shared_line(directions, buttons, 0)
}

proof fn lemma_merge(joyp: u8, directions: u8, buttons: u8)
    by (bit_vector)
    ensures
        (joyp & 0xF0) | (directions & buttons & 0x0F) == ((joyp / 16) * 16 + ((directions / 8) % 2)
            * ((buttons / 8) % 2) * 8 + ((directions / 4) % 2) * ((buttons / 4) % 2) * 4 + ((
        directions / 2) % 2) * ((buttons / 2) % 2) * 2 + (directions % 2) * (buttons % 2)) as u8,
{
}

proof fn lemma_merge_bounds(joyp: u8, directions: u8, buttons: u8)
    by (bit_vector)
    ensures
        (joyp / 16) * 16 + ((directions / 8) % 2) * ((buttons / 8) % 2) * 8 + ((directions / 4)
            % 2) * ((buttons / 4) % 2) * 4 + ((directions / 2) % 2) * ((buttons / 2) % 2) * 2 + (
        directions % 2) * (buttons % 2) < 256,
        ((joyp & 0xF0) | (directions & buttons & 0x0F)) / 16 == joyp / 16,
        directions % 16 == 0x0F && buttons % 16 == 0x0F ==> ((joyp & 0xF0) | (directions & buttons
            & 0x0F)) % 16 == 0x0F,
{
}

/// The level of the line whose button was asked for in call `at`: low where
/// the host answered that it is pressed.
pub open spec fn answer(calls: Seq<HostCall>, at: int) -> int {
    match calls[at] {
        HostCall::Pressed { pressed, .. } => if pressed {
            0
        } else {
            1
        },
        _ => 1,
    }
}

/// Call `at` asks for `button`.
pub open spec fn asks(calls: Seq<HostCall>, at: int, button: Button) -> bool {
    0 <= at < calls.len() && calls[at] == (HostCall::Pressed {
        button,
        pressed: answer(calls, at) == 0,
    })
}

/// The four calls from `at` on ask for the buttons of the lines 3 to 0 of the
/// row of directions.
pub open spec fn asks_directions(calls: Seq<HostCall>, at: int) -> bool {
    asks(calls, at, Button::Down) && asks(calls, at + 1, Button::Up) && asks(
        calls,
        at + 2,
        Button::Left,
    ) && asks(calls, at + 3, Button::Right)
}

/// The four calls from `at` on ask for the buttons of the lines 3 to 0 of the
/// row of buttons.
pub open spec fn asks_buttons(calls: Seq<HostCall>, at: int) -> bool {
    asks(calls, at, Button::Start) && asks(calls, at + 1, Button::Select) && asks(
        calls,
        at + 2,
        Button::B,
    ) && asks(calls, at + 3, Button::A)
}

/// The lines 3 to 0 of a row, as the four calls from `at` on were answered.
pub open spec fn row(calls: Seq<HostCall>, at: int) -> int {
    answer(calls, at) * 8 + answer(calls, at + 1) * 4 + answer(calls, at + 2) * 2 + answer(
        calls,
        at + 3,
    )
}

#[derive(Clone, Copy, Debug)]
pub struct Joypad {
    /// The register as the program last wrote it. Only its select bits count.
    pub joyp: JOYP,
}

impl Joypad {
    /// Whether neither row is selected.
    pub open spec fn nothing_selected(self) -> bool {
        bit_of(self.joyp.0, 4) && bit_of(self.joyp.0, 5)
    }

    /// The joypad after a write of `value` to its register: the two select
    /// bits are taken, the others stay.
    pub open spec fn selecting(self, value: u8) -> Joypad {
        Joypad { joyp: JOYP(with_bits(self.joyp.0, 5, 4, bits_of(value, 5, 4) as u8) as u8) }
    }

    pub fn new() -> (r: Joypad)
        ensures
            r.joyp.0 == 0x0F,
    {
        Joypad { joyp: JOYP(0x0F) }
    }

    /// Whether the row of directions is selected.
    pub open spec fn directions_selected(self) -> bool {
        !bit_of(self.joyp.0, 4)
    }

    /// Whether the row of buttons is selected.
    pub open spec fn buttons_selected(self) -> bool {
        !bit_of(self.joyp.0, 5)
    }

    /// The number of calls that a read of the register makes of the host:
    /// four for each selected row.
    pub open spec fn queries(self) -> int {
        (if self.directions_selected() {
            4int
        } else {
            0int
        }) + (if self.buttons_selected() {
            4int
        } else {
            0int
        })
    }

    /// Whether the calls from `at` on are those of a read of the register:
    /// the directions first, if they are selected, then the buttons, if they
    /// are.
    pub open spec fn queried(self, calls: Seq<HostCall>, at: int) -> bool {
        &&& self.directions_selected() ==> asks_directions(calls, at)
        &&& self.buttons_selected() ==> asks_buttons(
            calls,
            at + (if self.directions_selected() {
                4int
            } else {
                0int
            }),
        )
    }

    /// The register that a read yields, given the answers of the host in the
    /// calls from `at` on. A row that is not selected leaves the lines high.
    pub open spec fn sampled(self, calls: Seq<HostCall>, at: int) -> int {
        let directions = if self.directions_selected() {
            row(calls, at)
        } else {
            0x0F
        };
        let buttons = if self.buttons_selected() {
            row(
                calls,
                at + (if self.directions_selected() {
                    4int
                } else {
                    0int
                }),
            )
        } else {
            0x0F
        };
        merged(self.joyp.0, directions as u8, buttons as u8)
    }

    /// Asks the host for `button`.
    fn button_state<H: HAL>(host: &mut Host<H>, button: Button) -> (state: ButtonState)
        ensures
            grown(old(host).calls@, final(host).calls@, 1),
            asks(final(host).calls@, old(host).calls@.len() as int, button),
            state.level() == answer(final(host).calls@, old(host).calls@.len() as int),
    {
        if host.is_joypad_pressed(button) {
            ButtonState::Pressed
        } else {
            ButtonState::Released
        }
    }

    /// The four lines of one row, as the host reports its buttons: a line is
    /// low while its button is pressed.
    fn read_row<H: HAL>(
        host: &mut Host<H>,
        line3: Button,
        line2: Button,
        line1: Button,
        line0: Button,
    ) -> (r: JOYP)
        ensures
            grown(old(host).calls@, final(host).calls@, 4),
            asks(final(host).calls@, old(host).calls@.len() as int, line3),
            asks(final(host).calls@, old(host).calls@.len() as int + 1, line2),
            asks(final(host).calls@, old(host).calls@.len() as int + 2, line1),
            asks(final(host).calls@, old(host).calls@.len() as int + 3, line0),
            r.0 == row(final(host).calls@, old(host).calls@.len() as int),
    {
        let down_or_start = Self::button_state(host, line3);
        let up_or_select = Self::button_state(host, line2);
        let left_or_b = Self::button_state(host, line1);
        let right_or_a = Self::button_state(host, line0);
        JOYP(
            down_or_start.into_bits() * 8 + up_or_select.into_bits() * 4 + left_or_b.into_bits() * 2
                + right_or_a.into_bits(),
        )
    }

    /// Puts the lines of the two rows on the register: a line is low where
    /// it is low in either row.
    pub fn merge(&self, directions: JOYP, buttons: JOYP) -> (r: JOYP)
        ensures
            r.0 == merged(self.joyp.0, directions.0, buttons.0),
            r.0 / 16 == self.joyp.0 / 16,
            directions.0 % 16 == 0x0F && buttons.0 % 16 == 0x0F ==> r.0 % 16 == 0x0F,
    {
        proof {
            lemma_merge(self.joyp.0, directions.0, buttons.0);
            lemma_merge_bounds(self.joyp.0, directions.0, buttons.0);
        }
        JOYP((self.joyp.0 & 0xF0) | (directions.0 & buttons.0 & 0x0F))
    }

    /// The register as a read finds it. The host is asked for the buttons of
    /// each selected row; a row that is not selected leaves the lines high.
    pub fn joyp<H: HAL>(&self, host: &mut Host<H>) -> (r: JOYP)
        ensures
            grown(old(host).calls@, final(host).calls@, self.queries()),
            self.queried(final(host).calls@, old(host).calls@.len() as int),
            r.0 == self.sampled(final(host).calls@, old(host).calls@.len() as int),
            r.0 / 16 == self.joyp.0 / 16,
            self.nothing_selected() ==> r.0 % 16 == 0x0F,
    {
        let directions = if self.joyp.select_directions().is_selected() {
            Self::read_row(host, Button::Down, Button::Up, Button::Left, Button::Right)
        } else {
            JOYP(0x0F)
        };
        let buttons = if self.joyp.select_buttons().is_selected() {
            Self::read_row(host, Button::Start, Button::Select, Button::B, Button::A)
        } else {
            JOYP(0x0F)
        };
        self.merge(directions, buttons)
    }

    /// A write to the register: the two select bits are taken from `value`,
    /// the other bits stay.
    pub fn set_joyp(&mut self, value: u8)
        ensures
            *final(self) == old(self).selecting(value),
    {
        set_bit_range(&mut self.joyp.0, 5, 4, bit_range(value, 5, 4))
    }

    /// Whether an input line has gone from high to low since `previous`.
    pub fn should_interrupt(&self, previous: &Joypad) -> (r: bool)
        ensures
            r == exists|line: int|
                0 <= line < 4 && bit_of(previous.joyp.0, line) && !bit_of(self.joyp.0, line),
    {
        let mut line: usize = 0;
        let mut fell = false;
        while line < 4
            invariant
                line <= 4,
                fell == exists|i: int|
                    0 <= i < line && bit_of(previous.joyp.0, i) && !bit_of(self.joyp.0, i),
            decreases 4 - line,
        {
            if bit(previous.joyp.0, line) && !bit(self.joyp.0, line) {
                fell = true;
            }
            line += 1;
        }
        fell
    }

    /// One m-cycle of the joypad. It raises no interrupt.
    pub fn tick_m_cycle(&mut self) -> (interrupt: bool)
        ensures
            !interrupt,
            *final(self) == *old(self),
    {
        false
    }
}

} // verus!
