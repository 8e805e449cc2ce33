//! Game Boy physical specs of the DMG-01.

use vstd::prelude::*;

use crate::enuf::Enuf;

verus! {

/// Joypad button layout.
///
/// Each button is a pair of bits: one selects its row of the joypad matrix
/// (bit 4 for the direction keys, bit 5 for the action keys) and one its
/// line (bits 0 to 3).
#[derive(Clone, Copy, Debug, PartialEq, Eq, Structural)]
pub enum Button {
    A,
    B,
    Select,
    Start,
    Right,
    Left,
    Up,
    Down,
}

/// The bits of a button.
pub open spec fn button_bits(b: Button) -> u8 {
    match b {
        Button::A => 0b00100001,
        Button::B => 0b00100010,
        Button::Select => 0b00100100,
        Button::Start => 0b00101000,
        Button::Right => 0b00010001,
        Button::Left => 0b00010010,
        Button::Up => 0b00010100,
        Button::Down => 0b00011000,
    }
}

impl Enuf for Button {
    open spec fn spec_bits(self) -> u8 {
        button_bits(self)
    }

    fn bits(self) -> (r: u8) {
        match self {
            Button::A => 0b00100001,
            Button::B => 0b00100010,
            Button::Select => 0b00100100,
            Button::Start => 0b00101000,
            Button::Right => 0b00010001,
            Button::Left => 0b00010010,
            Button::Up => 0b00010100,
            Button::Down => 0b00011000,
        }
    }
}

/// Screen color values, from lightest to darkest.
#[derive(Clone, Copy, Debug, PartialEq, Eq, Structural)]
pub enum Color {
    /// Lightest
    C0,
    /// Light Medium
    C1,
    /// Dark Medium
    C2,
    /// Darkest
    C3,
}

/// The two-bit value of a color.
pub open spec fn color_value(c: Color) -> usize {
    match c {
        Color::C0 => 0,
        Color::C1 => 1,
        Color::C2 => 2,
        Color::C3 => 3,
    }
}

impl Default for Color {
    fn default() -> (r: Self)
        ensures
            r == Color::C0,
    {
        Color::C0
    }
}

impl From<Color> for usize {
    fn from(color: Color) -> (r: Self) {
        match color {
            Color::C0 => 0,
            Color::C1 => 1,
            Color::C2 => 2,
            Color::C3 => 3,
        }
    }
}

impl vstd::std_specs::convert::FromSpecImpl<Color> for usize {
    open spec fn obeys_from_spec() -> bool {
        true
    }

    open spec fn from_spec(c: Color) -> Self {
        color_value(c)
    }
}

} // verus!
