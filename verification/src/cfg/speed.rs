//! Clock speed values, as written in configuration.
//!
//! A speed is written as `actual`, `turbo`, a speedup ratio `<mult>x`, a
//! clock frequency `<freq>hz` or a frame rate `<rate>fps`. The ratio is a
//! floating point number, which this crate leaves as text: [`parse`] gives
//! its digits, for the caller to read.

use core::num::{ParseFloatError, ParseIntError};
use vstd::prelude::*;

use crate::radix::{parse_dec_u32, parse_dec_u8, unsigned_value};
use crate::text::str_eq;

verus! {

/// The error reading a floating point number reports.
#[verifier::external_type_specification]
#[verifier::external_body]
pub struct ExParseFloatError(std::num::ParseFloatError);

/// Game Boy main clock frequency in Hz: 4 MiHz.
pub const FREQ: u32 = 4_194_304;

/// Clock cycles in one frame: 154 scanlines of 456 dots.
pub const FRAME: u32 = 70_224;

/// A type specifying categories of speed parse error.
#[derive(Debug)]
pub enum ParseSpeedError {
    /// Parse string was empty.
    Empty,
    /// Failure parsing an integer.
    ParseInt(ParseIntError),
    /// Failure parsing a floating point.
    ParseFloat(ParseFloatError),
    /// Unknown parse format.
    Unknown,
}

/// A speed as written, with the multiplier of a speedup ratio left as text.
#[derive(Clone, Debug, PartialEq, Eq)]
pub enum Form {
    /// Actual hardware speed.
    Actual,
    /// Speedup ratio: the text of its multiplier.
    Ratio(String),
    /// Clock frequency (Hz).
    Clock(u32),
    /// Frame rate (FPS).
    Frame(u8),
    /// Maximum possible speed.
    Turbo,
}

/// Whether `s` ends with the characters `suffix`.
pub open spec fn ends_with(s: Seq<char>, suffix: Seq<char>) -> bool {
    s.len() >= suffix.len() && s.subrange(s.len() - suffix.len(), s.len() as int) == suffix
}

/// `s` without its last `n` characters.
pub open spec fn strip(s: Seq<char>, n: nat) -> Seq<char> {
    s.subrange(0, s.len() - n)
}

/// Which form `s` is written in, checked in this order: empty, `actual`,
/// `turbo`, ending in `x`, in `hz`, in `fps`; else unknown.
pub enum Shape {
    /// Nothing is written.
    Empty,
    /// `actual`.
    Actual,
    /// `turbo`.
    Turbo,
    /// A speedup ratio.
    Ratio,
    /// A clock frequency.
    Clock,
    /// A frame rate.
    Frame,
    /// None of the forms.
    Unknown,
}

/// The form in which `s` is written.
pub open spec fn shape(s: Seq<char>) -> Shape {
    if s.len() == 0 {
        Shape::Empty
    } else if s == seq!['a', 'c', 't', 'u', 'a', 'l'] {
        Shape::Actual
    } else if s == seq!['t', 'u', 'r', 'b', 'o'] {
        Shape::Turbo
    } else if ends_with(s, seq!['x']) {
        Shape::Ratio
    } else if ends_with(s, seq!['h', 'z']) {
        Shape::Clock
    } else if ends_with(s, seq!['f', 'p', 's']) {
        Shape::Frame
    } else {
        Shape::Unknown
    }
}

/// Whether `s` ends with the characters of `suffix`.
fn has_suffix(s: &str, suffix: &str) -> (r: bool)
    ensures
        r == ends_with(s@, suffix@),
{
    let n = s.unicode_len();
    let k = suffix.unicode_len();
    if n < k {
        return false;
    }
    str_eq(s.substring_char(n - k, n), suffix)
}

/// Parses a speed.
pub fn parse(s: &str) -> (r: Result<Form, ParseSpeedError>)
    ensures
        match shape(s@) {
            Shape::Empty => r matches Err(ParseSpeedError::Empty),
            Shape::Actual => r matches Ok(Form::Actual),
            Shape::Turbo => r matches Ok(Form::Turbo),
            Shape::Ratio => r matches Ok(Form::Ratio(t)) && t@ == strip(s@, 1),
            Shape::Clock => match unsigned_value(strip(s@, 2), 10, 0x1_0000_0000) {
                Some(v) => r matches Ok(Form::Clock(f)) && f == v,
                None => r matches Err(ParseSpeedError::ParseInt(_)),
            },
            Shape::Frame => match unsigned_value(strip(s@, 3), 10, 0x100) {
                Some(v) => r matches Ok(Form::Frame(f)) && f == v,
                None => r matches Err(ParseSpeedError::ParseInt(_)),
            },
            Shape::Unknown => r matches Err(ParseSpeedError::Unknown),
        },
{
    proof {
        reveal_strlit("actual");
        reveal_strlit("turbo");
        reveal_strlit("x");
        reveal_strlit("hz");
        reveal_strlit("fps");
    }
    let n = s.unicode_len();
    if n == 0 {
        Err(ParseSpeedError::Empty)
    } else if str_eq(s, "actual") {
        assert(s@ =~= seq!['a', 'c', 't', 'u', 'a', 'l']);
        Ok(Form::Actual)
    } else if str_eq(s, "turbo") {
        assert(s@ =~= seq!['t', 'u', 'r', 'b', 'o']);
        Ok(Form::Turbo)
    } else {
        assert(s@ != seq!['a', 'c', 't', 'u', 'a', 'l']) by {
            if s@ == seq!['a', 'c', 't', 'u', 'a', 'l'] {
                assert(s@ =~= "actual"@);
            }
        }
        assert(s@ != seq!['t', 'u', 'r', 'b', 'o']) by {
            if s@ == seq!['t', 'u', 'r', 'b', 'o'] {
                assert(s@ =~= "turbo"@);
            }
        }
        assert("x"@ =~= seq!['x']);
        assert("hz"@ =~= seq!['h', 'z']);
        assert("fps"@ =~= seq!['f', 'p', 's']);
        if has_suffix(s, "x") {
            let mult = s.substring_char(0, n - 1);
            let mut text = String::new();
            text.append(mult);
            assert(text@ =~= strip(s@, 1));
            Ok(Form::Ratio(text))
        } else if has_suffix(s, "hz") {
            let freq = s.substring_char(0, n - 2);
            assert(freq@ =~= strip(s@, 2));
            match parse_dec_u32(freq) {
                Ok(f) => Ok(Form::Clock(f)),
                Err(e) => Err(ParseSpeedError::ParseInt(e)),
            }
        } else if has_suffix(s, "fps") {
            let rate = s.substring_char(0, n - 3);
            assert(rate@ =~= strip(s@, 3));
            match parse_dec_u8(rate) {
                Ok(f) => Ok(Form::Frame(f)),
                Err(e) => Err(ParseSpeedError::ParseInt(e)),
            }
        } else {
            Err(ParseSpeedError::Unknown)
        }
    }
}

/// The clock frequency that a frame rate targets: `rate` frames of
/// [`FRAME`] cycles each second.
pub fn frame_freq(rate: u8) -> (r: u32)
    ensures
        r == rate * FRAME,
{
    (rate as u32) * FRAME
}

} // verus!
