//! Hex color parser for colors written as `#rgb` or `#rrggbb`.

use core::num::ParseIntError;
use vstd::prelude::*;

use crate::radix::{parse_hex_u32, unsigned_value};
use crate::text::{hex_str, pad_front, push_char, push_hex_padded};

verus! {

/// 32-bit color.
#[derive(Clone, Debug, PartialEq, Eq, Structural, PartialOrd, Ord)]
pub struct Color(u32);

impl View for Color {
    type V = u32;

    closed spec fn view(&self) -> u32 {
        self.0
    }
}

/// The color of `#` followed by `hex`: three digits are repeated, six are
/// taken as they are, and `None` stands for a failed parse.
pub open spec fn parsed_hex(hex: Seq<char>) -> Option<u32> {
    match unsigned_value(hex, 16, 0x1_0000_0000) {
        Some(v) => if hex.len() == 3 {
            Some((((v as u32) << 12u32) | v as u32) as u32)
        } else if hex.len() == 6 {
            Some(v as u32)
        } else {
            None
        },
        None => None,
    }
}

impl Color {
    /// Constructs a new `Color` with the provided integer value.
    pub fn new(color: u32) -> (r: Self)
        ensures
            r@ == color,
    {
        Color(color)
    }

    /// Constructs a new `Color` with the provided RGB values.
    pub fn rgb(r: u8, g: u8, b: u8) -> (c: Self)
        ensures
            c@ == (r as int * 0x10000 + g as int * 0x100 + b as int),
    {
        let v = (r as u32) << 16u32 | (g as u32) << 8u32 | (b as u32);
        assert(v == (r as int * 0x10000 + g as int * 0x100 + b as int) as u32) by (bit_vector)
            requires
                v == (r as u32) << 16u32 | (g as u32) << 8u32 | (b as u32),
        ;
        Color(v)
    }

    /// The color written as `#rrggbb` in lowercase.
    pub fn to_string(&self) -> (r: String)
        ensures
            r@ == seq!['#'] + pad_front(hex_str(self@ as nat), 6, '0'),
    {
        let mut s = String::new();
        push_char(&mut s, '#');
        push_hex_padded(&mut s, self.0 as u64, 6);
        s
    }

    /// Parses a color from `#rgb` or `#rrggbb`.
    pub fn from_str(s: &str) -> (r: Result<Self, Error>)
        ensures
            s@.len() == 0 ==> r matches Err(Error::Empty),
            s@.len() > 0 && s@[0] != '#' ==> r matches Err(Error::MissingHash),
            s@.len() > 0 && s@[0] == '#' ==> match unsigned_value(s@.drop_first(), 16, 0x1_0000_0000) {
                None => r matches Err(Error::ParseInt(_)),
                Some(_) => match parsed_hex(s@.drop_first()) {
                    Some(c) => r matches Ok(col) && col@ == c,
                    None => r matches Err(Error::Unsupported),
                },
            },
    {
        let n = s.unicode_len();
        if n == 0 {
            return Err(Error::Empty);
        }
        if s.get_char(0) != '#' {
            return Err(Error::MissingHash);
        }
        let input = s.substring_char(1, n);
        assert(input@ =~= s@.drop_first());
        let hex = match parse_hex_u32(input) {
            Ok(v) => v,
            Err(e) => return Err(Error::ParseInt(e)),
        };
        let len = n - 1;
        if len == 3 {
            Ok(Color(hex << 12u32 | hex))
        } else if len == 6 {
            Ok(Color(hex))
        } else {
            Err(Error::Unsupported)
        }
    }
}

/// A color below `#ffffff`, as written, is read back.
pub proof fn law_color_reads_back(v: u32)
    requires
        v < 0x100_0000,
    ensures
        parsed_hex(pad_front(hex_str(v as nat), 6, '0')) == Some(v),
{
    crate::radix::lemma_six_hex_digits(v as nat);
}

impl core::str::FromStr for Color {
    type Err = Error;

    /// Parses a color from `#rgb` or `#rrggbb`, as [`Color::from_str`] does.
    fn from_str(s: &str) -> (r: Result<Self, Error>)
        ensures
            s@.len() == 0 ==> r matches Err(Error::Empty),
            s@.len() > 0 && s@[0] != '#' ==> r matches Err(Error::MissingHash),
            s@.len() > 0 && s@[0] == '#' ==> match unsigned_value(s@.drop_first(), 16, 0x1_0000_0000) {
                None => r matches Err(Error::ParseInt(_)),
                Some(_) => match parsed_hex(s@.drop_first()) {
                    Some(c) => r matches Ok(col) && col@ == c,
                    None => r matches Err(Error::Unsupported),
                },
            },
    {
        Color::from_str(s)
    }
}

impl Default for Color {
    fn default() -> (r: Self)
        ensures
            r@ == 0,
    {
        Color(0)
    }
}

impl From<Color> for u32 {
    fn from(color: Color) -> (r: Self)
        ensures
            r == color@,
    {
        color.0
    }
}

impl vstd::std_specs::convert::FromSpecImpl<Color> for u32 {
    open spec fn obeys_from_spec() -> bool {
        true
    }

    open spec fn from_spec(v: Color) -> Self {
        v@
    }
}

/// A type specifying general categories of [`Color`] error.
#[derive(Debug)]
pub enum Error {
    /// The string is empty.
    Empty,
    /// The string does not start with `#`.
    MissingHash,
    /// The hex digits do not parse.
    ParseInt(ParseIntError),
    /// Neither three nor six digits.
    Unsupported,
}

} // verus!
