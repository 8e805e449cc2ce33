//! Hex color parser.
//!
//! Parses colors written as `#rgb`, `#rrggbb` or by name, and writes them
//! back as `#rrggbb`.

use core::num::ParseIntError;
use vstd::prelude::*;

use crate::radix::{parse_hex_u32, unsigned_value};
use crate::text::{hex_str, pad_front, push_char, push_hex_padded};

pub mod names;

verus! {

/// 24-bit color value, stored as `0x00RRGGBB`.
#[derive(Clone, Copy, Debug, PartialEq, Eq, Structural, PartialOrd, Ord, Hash)]
pub struct Color(u32);

impl View for Color {
    type V = u32;

    closed spec fn view(&self) -> u32 {
        self.0
    }
}

/// The color of a three digit `#rgb`: every digit is doubled.
pub open spec fn expand3(v: u32) -> u32 {
    (((v & 0xf00) * 0x1100) as u32 | ((v & 0x0f0) * 0x0110) as u32) | ((v & 0x00f) * 0x0011) as u32
}

/// Value of the color with the given channels.
pub open spec fn rgb_value(r: u8, g: u8, b: u8) -> u32 {
    (r as int * 0x10000 + g as int * 0x100 + b as int) as u32
}

/// How a color string reads: the parse of `#` followed by hex digits, a
/// named color, or `None` where [`Color::from_str`] fails.
pub open spec fn parsed_color(s: Seq<char>) -> Option<u32> {
    if s.len() == 0 {
        None
    } else if s[0] == '#' {
        let hex = s.drop_first();
        match unsigned_value(hex, 16, 0x1_0000_0000) {
            Some(v) => if hex.len() == 3 {
                Some(expand3(v as u32))
            } else if hex.len() == 6 {
                Some(v as u32)
            } else {
                None
            },
            None => None,
        }
    } else {
        crate::chex::names::named_color(s)
    }
}

impl Color {
    /// Constructs a new `Color` with the provided integer value.
    pub fn new(color: u32) -> (r: Self)
        ensures
            r@ == color,
    {
        Color(color)
    }

    /// Constructs a new `Color` with the provided RGB values.
    pub fn rgb(r: u8, g: u8, b: u8) -> (c: Self)
        ensures
            c@ == rgb_value(r, g, b),
    {
        let v = ((r as u32) << 16u32) | ((g as u32) << 8u32) | (b as u32);
        assert(v == rgb_value(r, g, b)) by (bit_vector)
            requires
                v == ((r as u32) << 16u32) | ((g as u32) << 8u32) | (b as u32),
        ;
        Color(v)
    }

    /// The color written as `#rrggbb` in lowercase.
    pub fn to_string(&self) -> (r: String)
        ensures
            r@ == seq!['#'] + pad_front(hex_str(self@ as nat), 6, '0'),
    {
        let mut s = String::new();
        push_char(&mut s, '#');
        push_hex_padded(&mut s, self.0 as u64, 6);
        s
    }

    /// Parses a color from `#rgb`, `#rrggbb` (either case) or a color name.
    pub fn from_str(s: &str) -> (r: Result<Self, Error>)
        ensures
            s@.len() == 0 ==> r matches Err(Error::Empty),
            s@.len() > 0 && s@[0] == '#' ==> match unsigned_value(s@.drop_first(), 16, 0x1_0000_0000) {
                None => r matches Err(Error::ParseInt(_)),
                Some(_) => match parsed_color(s@) {
                    Some(c) => r matches Ok(col) && col@ == c,
                    None => r matches Err(Error::Unsupported),
                },
            },
            s@.len() > 0 && s@[0] != '#' ==> match parsed_color(s@) {
                Some(c) => r matches Ok(col) && col@ == c,
                None => r matches Err(Error::Unknown(name)) && name@ == s@,
            },
    {
        let n = s.unicode_len();
        if n == 0 {
            return Err(Error::Empty);
        }
        if s.get_char(0) == '#' {
            let hex = s.substring_char(1, n);
            assert(hex@ =~= s@.drop_first());
            let val = match parse_hex_u32(hex) {
                Ok(v) => v,
                Err(e) => return Err(Error::ParseInt(e)),
            };
            let len = n - 1;
            if len == 3 {
                assert(val & 0xf00 <= 0xf00 && val & 0x0f0 <= 0x0f0 && val & 0x00f <= 0x00f) by (bit_vector);
                let r = (val & 0xf00) * 0x1100;
                let g = (val & 0x0f0) * 0x0110;
                let b = (val & 0x00f) * 0x0011;
                Ok(Color(r | g | b))
            } else if len == 6 {
                Ok(Color(val))
            } else {
                Err(Error::Unsupported)
            }
        } else {
            match names::lookup(s) {
                Some(c) => Ok(Color(c)),
                None => Err(Error::Unknown(s.to_owned())),
            }
        }
    }
}

/// A color below `#ffffff`, as written, is read back.
pub proof fn law_color_reads_back(v: u32)
    requires
        v < 0x100_0000,
    ensures
        parsed_color(seq!['#'] + pad_front(hex_str(v as nat), 6, '0')) == Some(v),
{
    let t = pad_front(hex_str(v as nat), 6, '0');
    crate::radix::lemma_six_hex_digits(v as nat);
    assert((seq!['#'] + t).drop_first() =~= t);
}

/// The sixteen basic colors of HTML and CSS, by their red, green and blue
/// channels.
pub open spec fn basic_color(s: Seq<char>) -> Option<(u8, u8, u8)> {
    if s == "black"@ {
        Some((0x00u8, 0x00u8, 0x00u8))
    } else if s == "silver"@ {
        Some((0xc0u8, 0xc0u8, 0xc0u8))
    } else if s == "gray"@ {
        Some((0x80u8, 0x80u8, 0x80u8))
    } else if s == "white"@ {
        Some((0xffu8, 0xffu8, 0xffu8))
    } else if s == "maroon"@ {
        Some((0x80u8, 0x00u8, 0x00u8))
    } else if s == "red"@ {
        Some((0xffu8, 0x00u8, 0x00u8))
    } else if s == "purple"@ {
        Some((0x80u8, 0x00u8, 0x80u8))
    } else if s == "fuchsia"@ {
        Some((0xffu8, 0x00u8, 0xffu8))
    } else if s == "green"@ {
        Some((0x00u8, 0x80u8, 0x00u8))
    } else if s == "lime"@ {
        Some((0x00u8, 0xffu8, 0x00u8))
    } else if s == "olive"@ {
        Some((0x80u8, 0x80u8, 0x00u8))
    } else if s == "yellow"@ {
        Some((0xffu8, 0xffu8, 0x00u8))
    } else if s == "navy"@ {
        Some((0x00u8, 0x00u8, 0x80u8))
    } else if s == "blue"@ {
        Some((0x00u8, 0x00u8, 0xffu8))
    } else if s == "teal"@ {
        Some((0x00u8, 0x80u8, 0x80u8))
    } else if s == "aqua"@ {
        Some((0x00u8, 0xffu8, 0xffu8))
    } else {
        None
    }
}

/// Every basic color name reads as the color of its channels: `green` as
/// `#008000`, `lime` as `#00ff00`, and so on for all sixteen.
pub proof fn law_basic_colors(s: Seq<char>)
    ensures
        basic_color(s) matches Some((r, g, b)) ==> parsed_color(s) == Some(rgb_value(r, g, b)),
{
    reveal_strlit("aliceblue");
    reveal_strlit("antiquewhite");
    reveal_strlit("aqua");
    reveal_strlit("aquamarine");
    reveal_strlit("azure");
    reveal_strlit("beige");
    reveal_strlit("bisque");
    reveal_strlit("black");
    reveal_strlit("blanchedalmond");
    reveal_strlit("blue");
    reveal_strlit("blueviolet");
    reveal_strlit("brown");
    reveal_strlit("burlywood");
    reveal_strlit("cadetblue");
    reveal_strlit("chartreuse");
    reveal_strlit("chocolate");
    reveal_strlit("coral");
    reveal_strlit("cornflowerblue");
    reveal_strlit("cornsilk");
    reveal_strlit("crimson");
    reveal_strlit("cyan");
    reveal_strlit("darkblue");
    reveal_strlit("darkcyan");
    reveal_strlit("darkgoldenrod");
    reveal_strlit("darkgray");
    reveal_strlit("darkgreen");
    reveal_strlit("darkgrey");
    reveal_strlit("darkkhaki");
    reveal_strlit("darkmagenta");
    reveal_strlit("darkolivegreen");
    reveal_strlit("darkorange");
    reveal_strlit("darkorchid");
    reveal_strlit("darkred");
    reveal_strlit("darksalmon");
    reveal_strlit("darkseagreen");
    reveal_strlit("darkslateblue");
    reveal_strlit("darkslategray");
    reveal_strlit("darkslategrey");
    reveal_strlit("darkturquoise");
    reveal_strlit("darkviolet");
    reveal_strlit("deeppink");
    reveal_strlit("deepskyblue");
    reveal_strlit("dimgray");
    reveal_strlit("dimgrey");
    reveal_strlit("dodgerblue");
    reveal_strlit("firebrick");
    reveal_strlit("floralwhite");
    reveal_strlit("forestgreen");
    reveal_strlit("fuchsia");
    reveal_strlit("gainsboro");
    reveal_strlit("ghostwhite");
    reveal_strlit("gold");
    reveal_strlit("goldenrod");
    reveal_strlit("gray");
    reveal_strlit("green");
    reveal_strlit("greenyellow");
    reveal_strlit("grey");
    reveal_strlit("honeydew");
    reveal_strlit("hotpink");
    reveal_strlit("indianred");
    reveal_strlit("indigo");
    reveal_strlit("ivory");
    reveal_strlit("khaki");
    reveal_strlit("lavender");
    reveal_strlit("lavenderblush");
    reveal_strlit("lawngreen");
    reveal_strlit("lemonchiffon");
    reveal_strlit("lightblue");
    reveal_strlit("lightcoral");
    reveal_strlit("lightcyan");
    reveal_strlit("lightgoldenrodyellow");
    reveal_strlit("lightgray");
    reveal_strlit("lightgreen");
    reveal_strlit("lightgrey");
    reveal_strlit("lightpink");
    reveal_strlit("lightsalmon");
    reveal_strlit("lightseagreen");
    reveal_strlit("lightskyblue");
    reveal_strlit("lightslategray");
    reveal_strlit("lightslategrey");
    reveal_strlit("lightsteelblue");
    reveal_strlit("lightyellow");
    reveal_strlit("lime");
    reveal_strlit("limegreen");
    reveal_strlit("linen");
    reveal_strlit("magenta");
    reveal_strlit("maroon");
    reveal_strlit("mediumaquamarine");
    reveal_strlit("mediumblue");
    reveal_strlit("mediumorchid");
    reveal_strlit("mediumpurple");
    reveal_strlit("mediumseagreen");
    reveal_strlit("mediumslateblue");
    reveal_strlit("mediumspringgreen");
    reveal_strlit("mediumturquoise");
    reveal_strlit("mediumvioletred");
    reveal_strlit("midnightblue");
    reveal_strlit("mintcream");
    reveal_strlit("mistyrose");
    reveal_strlit("moccasin");
    reveal_strlit("navajowhite");
    reveal_strlit("navy");
    reveal_strlit("oldlace");
    reveal_strlit("olive");
    reveal_strlit("olivedrab");
    reveal_strlit("orange");
    reveal_strlit("orangered");
    reveal_strlit("orchid");
    reveal_strlit("palegoldenrod");
    reveal_strlit("palegreen");
    reveal_strlit("paleturquoise");
    reveal_strlit("palevioletred");
    reveal_strlit("papayawhip");
    reveal_strlit("peachpuff");
    reveal_strlit("peru");
    reveal_strlit("pink");
    reveal_strlit("plum");
    reveal_strlit("powderblue");
    reveal_strlit("purple");
    reveal_strlit("rebeccapurple");
    reveal_strlit("red");
    reveal_strlit("rosybrown");
    reveal_strlit("royalblue");
    reveal_strlit("saddlebrown");
    reveal_strlit("salmon");
    reveal_strlit("sandybrown");
    reveal_strlit("seagreen");
    reveal_strlit("seashell");
    reveal_strlit("sienna");
    reveal_strlit("silver");
    reveal_strlit("skyblue");
    reveal_strlit("slateblue");
    reveal_strlit("slategray");
    reveal_strlit("slategrey");
    reveal_strlit("snow");
    reveal_strlit("springgreen");
    reveal_strlit("steelblue");
    reveal_strlit("tan");
    reveal_strlit("teal");
    reveal_strlit("thistle");
    reveal_strlit("tomato");
    reveal_strlit("turquoise");
    reveal_strlit("violet");
    reveal_strlit("wheat");
    reveal_strlit("white");
    reveal_strlit("whitesmoke");
    reveal_strlit("yellow");
    reveal_strlit("yellowgreen");
    if s == "black"@ {
        assert(s[0] != '#');
        assert(crate::chex::names::named_color(s) == Some(0x000000u32));
    } else if s == "silver"@ {
        assert(s[0] != '#');
        assert(crate::chex::names::named_color(s) == Some(0xc0c0c0u32));
    } else if s == "gray"@ {
        assert(s[0] != '#');
        assert(crate::chex::names::named_color(s) == Some(0x808080u32));
    } else if s == "white"@ {
        assert(s[0] != '#');
        assert(crate::chex::names::named_color(s) == Some(0xffffffu32));
    } else if s == "maroon"@ {
        assert(s[0] != '#');
        assert(crate::chex::names::named_color(s) == Some(0x800000u32));
    } else if s == "red"@ {
        assert(s[0] != '#');
        assert(crate::chex::names::named_color(s) == Some(0xff0000u32));
    } else if s == "purple"@ {
        assert(s[0] != '#');
        assert(crate::chex::names::named_color(s) == Some(0x800080u32));
    } else if s == "fuchsia"@ {
        assert(s[0] != '#');
        assert(crate::chex::names::named_color(s) == Some(0xff00ffu32));
    } else if s == "green"@ {
        assert(s[0] != '#');
        assert(crate::chex::names::named_color(s) == Some(0x008000u32));
    } else if s == "lime"@ {
        assert(s[0] != '#');
        assert(crate::chex::names::named_color(s) == Some(0x00ff00u32));
    } else if s == "olive"@ {
        assert(s[0] != '#');
        assert(crate::chex::names::named_color(s) == Some(0x808000u32));
    } else if s == "yellow"@ {
        assert(s[0] != '#');
        assert(crate::chex::names::named_color(s) == Some(0xffff00u32));
    } else if s == "navy"@ {
        assert(s[0] != '#');
        assert(crate::chex::names::named_color(s) == Some(0x000080u32));
    } else if s == "blue"@ {
        assert(s[0] != '#');
        assert(crate::chex::names::named_color(s) == Some(0x0000ffu32));
    } else if s == "teal"@ {
        assert(s[0] != '#');
        assert(crate::chex::names::named_color(s) == Some(0x008080u32));
    } else if s == "aqua"@ {
        assert(s[0] != '#');
        assert(crate::chex::names::named_color(s) == Some(0x00ffffu32));
    }
}

impl core::str::FromStr for Color {
    type Err = Error;

    /// Parses a color from `#rgb`, `#rrggbb` or a color name, as [`Color::from_str`] does.
    fn from_str(s: &str) -> (r: Result<Self, Error>)
        ensures
            s@.len() == 0 ==> r matches Err(Error::Empty),
            s@.len() > 0 && s@[0] == '#' ==> match unsigned_value(s@.drop_first(), 16, 0x1_0000_0000) {
                None => r matches Err(Error::ParseInt(_)),
                Some(_) => match parsed_color(s@) {
                    Some(c) => r matches Ok(col) && col@ == c,
                    None => r matches Err(Error::Unsupported),
                },
            },
            s@.len() > 0 && s@[0] != '#' ==> match parsed_color(s@) {
                Some(c) => r matches Ok(col) && col@ == c,
                None => r matches Err(Error::Unknown(name)) && name@ == s@,
            },
    {
        Color::from_str(s)
    }
}

impl Default for Color {
    fn default() -> (r: Self)
        ensures
            r@ == 0,
    {
        Color(0)
    }
}

impl From<u32> for Color {
    fn from(value: u32) -> (r: Self)
        ensures
            r@ == value,
    {
        Color(value)
    }
}

impl vstd::std_specs::convert::FromSpecImpl<u32> for Color {
    open spec fn obeys_from_spec() -> bool {
        true
    }

    closed spec fn from_spec(v: u32) -> Self {
        Color(v)
    }
}

impl From<Color> for u32 {
    fn from(color: Color) -> (r: Self)
        ensures
            r == color@,
    {
        color.0
    }
}

impl vstd::std_specs::convert::FromSpecImpl<Color> for u32 {
    open spec fn obeys_from_spec() -> bool {
        true
    }

    open spec fn from_spec(v: Color) -> Self {
        v@
    }
}

/// A type specifying categories of [`Color`] error.
#[derive(Debug)]
pub enum Error {
    /// Parse string was empty.
    Empty,
    /// Error parsing value from input.
    ParseInt(ParseIntError),
    /// Unknown color name.
    Unknown(String),
    /// Unsupported hex format.
    Unsupported,
}

} // verus!
