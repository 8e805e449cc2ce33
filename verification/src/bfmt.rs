//! Bytes human formatter.
//!
//! Converts between a count of bytes as an integer and its human readable
//! representation, such as `1.0625 KiB`.

#![allow(non_upper_case_globals)]

use vstd::prelude::*;

use crate::text::{ascii, push_char, push_repeat, push_str, repeat, str_eq, upper};

verus! {

/// byte size for 1 byte
pub const B: u64 = 1;
/// bytes size for 1 kilobyte
pub const KB: u64 = 1_000;
/// bytes size for 1 kibibyte
pub const KiB: u64 = 0x400;
/// bytes size for 1 megabyte
pub const MB: u64 = 1_000_000;
/// bytes size for 1 mebibyte
pub const MiB: u64 = 0x10_0000;
/// bytes size for 1 gigabyte
pub const GB: u64 = 1_000_000_000;
/// bytes size for 1 gibibyte
pub const GiB: u64 = 0x4000_0000;
/// bytes size for 1 terabyte
pub const TB: u64 = 1_000_000_000_000;
/// bytes size for 1 tebibyte
pub const TiB: u64 = 0x100_0000_0000;
/// bytes size for 1 petabyte
pub const PB: u64 = 1_000_000_000_000_000;
/// bytes size for 1 pebibyte
pub const PiB: u64 = 0x4_0000_0000_0000;
/// bytes size for 1 exabyte
pub const EB: u64 = 1_000_000_000_000_000_000;
/// bytes size for 1 exbibyte
pub const EiB: u64 = 0x1000_0000_0000_0000;

/// An error caused by converting between byte size representations.
#[derive(Clone, Copy, Debug, PartialEq, Eq, Structural)]
pub enum Error {
    /// Unknown unit suffix.
    Unit,
    /// Failure parsing size.
    Size,
}

/// Byte size representation
#[derive(Clone, Copy, Debug, PartialEq, Eq, Structural, PartialOrd, Ord, Hash)]
pub enum Unit {
    Byte,
    Kilo,
    Kibi,
    Mega,
    Mebi,
    Giga,
    Gibi,
    Tera,
    Tebi,
    Peta,
    Pebi,
    Exa,
    Exbi,
}

impl Default for Unit {
    fn default() -> (r: Self)
        ensures
            r == Unit::Byte,
    {
        Unit::Byte
    }
}

/// Number of bytes in one `u`.
pub open spec fn unit_value(u: Unit) -> u64 {
    match u {
        Unit::Byte => B,
        Unit::Kilo => KB,
        Unit::Kibi => KiB,
        Unit::Mega => MB,
        Unit::Mebi => MiB,
        Unit::Giga => GB,
        Unit::Gibi => GiB,
        Unit::Tera => TB,
        Unit::Tebi => TiB,
        Unit::Peta => PB,
        Unit::Pebi => PiB,
        Unit::Exa => EB,
        Unit::Exbi => EiB,
    }
}

/// The symbol of `u`, as written after a number.
pub open spec fn unit_symbol(u: Unit) -> Seq<char> {
    match u {
        Unit::Byte => "B"@,
        Unit::Kilo => "KB"@,
        Unit::Kibi => "KiB"@,
        Unit::Mega => "MB"@,
        Unit::Mebi => "MiB"@,
        Unit::Giga => "GB"@,
        Unit::Gibi => "GiB"@,
        Unit::Tera => "TB"@,
        Unit::Tebi => "TiB"@,
        Unit::Peta => "PB"@,
        Unit::Pebi => "PiB"@,
        Unit::Exa => "EB"@,
        Unit::Exbi => "EiB"@,
    }
}

/// The unit whose symbol, in upper case, is `s`.
pub open spec fn unit_named(s: Seq<char>) -> Option<Unit> {
    if s == "B"@ {
        Some(Unit::Byte)
    } else if s == "KB"@ {
        Some(Unit::Kilo)
    } else if s == "KIB"@ {
        Some(Unit::Kibi)
    } else if s == "MB"@ {
        Some(Unit::Mega)
    } else if s == "MIB"@ {
        Some(Unit::Mebi)
    } else if s == "GB"@ {
        Some(Unit::Giga)
    } else if s == "GIB"@ {
        Some(Unit::Gibi)
    } else if s == "TB"@ {
        Some(Unit::Tera)
    } else if s == "TIB"@ {
        Some(Unit::Tebi)
    } else if s == "PB"@ {
        Some(Unit::Peta)
    } else if s == "PIB"@ {
        Some(Unit::Pebi)
    } else if s == "EB"@ {
        Some(Unit::Exa)
    } else if s == "EIB"@ {
        Some(Unit::Exbi)
    } else {
        None
    }
}

/// The upper case mapping of `s`, as `str::to_uppercase` computes it.
pub uninterp spec fn uppercase(s: Seq<char>) -> Seq<char>;

/// Upper case mapping of a string.
///
/// Trusted: `str::to_uppercase`, which maps every character to its Unicode
/// upper case; its result is named [`uppercase`]. Of ASCII text, the Unicode
/// upper case is the ASCII one: small letters become capitals, and every
/// other character stays.
#[verifier::external_body]
fn to_uppercase(s: &str) -> (r: String)
    ensures
        r@ == uppercase(s@),
        ascii(s@) ==> r@ == upper(s@),
{
    s.to_uppercase()
}

/// Whether `c` has the Unicode White_Space property.
pub open spec fn white_space(c: char) -> bool {
    let n = c as u32;
    (9 <= n <= 13) || n == 0x20 || n == 0x85 || n == 0xa0 || n == 0x1680 || (0x2000 <= n <= 0x200a)
        || n == 0x2028 || n == 0x2029 || n == 0x202f || n == 0x205f || n == 0x3000
}

/// Number of white space characters that `s` starts with.
pub open spec fn leading_white(s: Seq<char>) -> nat
    decreases s.len(),
{
    if s.len() > 0 && white_space(s[0]) {
        1 + leading_white(s.drop_first())
    } else {
        0
    }
}

/// Number of white space characters that `s` ends with.
pub open spec fn trailing_white(s: Seq<char>) -> nat
    decreases s.len(),
{
    if s.len() > 0 && white_space(s.last()) {
        1 + trailing_white(s.drop_last())
    } else {
        0
    }
}

/// The text of `s` without leading and trailing white space.
pub open spec fn trimmed(s: Seq<char>) -> Seq<char> {
    let t = s.subrange(leading_white(s) as int, s.len() as int);
    t.subrange(0, t.len() - trailing_white(t))
}

/// Whether `c` has the Unicode White_Space property.
fn is_white(c: char) -> (r: bool)
    ensures
        r == white_space(c),
{
    let n = c as u32;
    (9 <= n && n <= 13) || n == 0x20 || n == 0x85 || n == 0xa0 || n == 0x1680 || (0x2000 <= n && n
        <= 0x200a) || n == 0x2028 || n == 0x2029 || n == 0x202f || n == 0x205f || n == 0x3000
}

/// Trims white space from both ends of a string, as `str::trim` does.
fn trim(s: &str) -> (r: &str)
    ensures
        r@ == trimmed(s@),
{
    let n = s.unicode_len();
    let mut i: usize = 0;
    proof {
        assert(s@.subrange(0, n as int) =~= s@);
    }
    while i < n && is_white(s.get_char(i))
        invariant
            n == s@.len(),
            i <= n,
            leading_white(s@) == i + leading_white(s@.subrange(i as int, n as int)),
        decreases n - i,
    {
        proof {
            let rest = s@.subrange(i as int, n as int);
            assert(rest.drop_first() =~= s@.subrange(i + 1, n as int));
        }
        i = i + 1;
    }
    proof {
        if i < n {
            assert(s@.subrange(i as int, n as int)[0] == s@[i as int]);
        }
    }
    let t = s.substring_char(i, n);
    let m = t.unicode_len();
    let mut j: usize = m;
    proof {
        assert(t@.subrange(0, m as int) =~= t@);
    }
    while j > 0 && is_white(t.get_char(j - 1))
        invariant
            m == t@.len(),
            j <= m,
            trailing_white(t@) == (m - j) + trailing_white(t@.subrange(0, j as int)),
        decreases j,
    {
        proof {
            let front = t@.subrange(0, j as int);
            assert(front.drop_last() =~= t@.subrange(0, j - 1));
            assert(front.last() == t@[j - 1]);
        }
        j = j - 1;
    }
    proof {
        if j > 0 {
            assert(t@.subrange(0, j as int).last() == t@[j - 1]);
        }
    }
    s.substring_char(i, i + j)
}

impl Unit {
    /// Number of bytes in one unit.
    pub fn value(&self) -> (r: u64)
        ensures
            r == unit_value(*self),
    {
        match self {
            Unit::Byte => B,
            Unit::Kilo => KB,
            Unit::Kibi => KiB,
            Unit::Mega => MB,
            Unit::Mebi => MiB,
            Unit::Giga => GB,
            Unit::Gibi => GiB,
            Unit::Tera => TB,
            Unit::Tebi => TiB,
            Unit::Peta => PB,
            Unit::Pebi => PiB,
            Unit::Exa => EB,
            Unit::Exbi => EiB,
        }
    }

    /// The symbol of the unit.
    pub fn to_string(&self) -> (r: String)
        ensures
            r@ == unit_symbol(*self),
    {
        let s = match self {
            Unit::Byte => "B",
            Unit::Kilo => "KB",
            Unit::Kibi => "KiB",
            Unit::Mega => "MB",
            Unit::Mebi => "MiB",
            Unit::Giga => "GB",
            Unit::Gibi => "GiB",
            Unit::Tera => "TB",
            Unit::Tebi => "TiB",
            Unit::Peta => "PB",
            Unit::Pebi => "PiB",
            Unit::Exa => "EB",
            Unit::Exbi => "EiB",
        };
        s.to_owned()
    }

    /// Parses an upper case unit symbol.
    pub fn from_upper(s: &str) -> (r: Result<Unit, Error>)
        ensures
            r == (match unit_named(s@) {
                Some(u) => Ok(u),
                None => Err(Error::Unit),
            }),
    {
        if str_eq(s, "B") {
            Ok(Unit::Byte)
        } else if str_eq(s, "KB") {
            Ok(Unit::Kilo)
        } else if str_eq(s, "KIB") {
            Ok(Unit::Kibi)
        } else if str_eq(s, "MB") {
            Ok(Unit::Mega)
        } else if str_eq(s, "MIB") {
            Ok(Unit::Mebi)
        } else if str_eq(s, "GB") {
            Ok(Unit::Giga)
        } else if str_eq(s, "GIB") {
            Ok(Unit::Gibi)
        } else if str_eq(s, "TB") {
            Ok(Unit::Tera)
        } else if str_eq(s, "TIB") {
            Ok(Unit::Tebi)
        } else if str_eq(s, "PB") {
            Ok(Unit::Peta)
        } else if str_eq(s, "PIB") {
            Ok(Unit::Pebi)
        } else if str_eq(s, "EB") {
            Ok(Unit::Exa)
        } else if str_eq(s, "EIB") {
            Ok(Unit::Exbi)
        } else {
            Err(Error::Unit)
        }
    }

    /// Parses a unit symbol, ignoring case.
    pub fn from_str(s: &str) -> (r: Result<Unit, Error>)
        ensures
            r == (match unit_named(uppercase(s@)) {
                Some(u) => Ok(u),
                None => Err(Error::Unit),
            }),
            ascii(s@) ==> r == (match unit_named(upper(s@)) {
                Some(u) => Ok(u),
                None => Err(Error::Unit),
            }),
    {
        let upper = to_uppercase(s);
        Unit::from_upper(upper.as_str())
    }
}

/// Every unit's symbol is ASCII and is read back as the unit, whatever the
/// case of its letters: reading goes by the upper case of the text.
pub proof fn law_unit_symbol_reads_back(u: Unit, t: Seq<char>)
    ensures
        ascii(unit_symbol(u)),
        unit_named(upper(unit_symbol(u))) == Some(u),
        ascii(t) && upper(t) == upper(unit_symbol(u)) ==> unit_named(upper(t)) == Some(u),
{
    reveal_strlit("B");
    reveal_strlit("KB");
    reveal_strlit("KiB");
    reveal_strlit("KIB");
    reveal_strlit("MB");
    reveal_strlit("MiB");
    reveal_strlit("MIB");
    reveal_strlit("GB");
    reveal_strlit("GiB");
    reveal_strlit("GIB");
    reveal_strlit("TB");
    reveal_strlit("TiB");
    reveal_strlit("TIB");
    reveal_strlit("PB");
    reveal_strlit("PiB");
    reveal_strlit("PIB");
    reveal_strlit("EB");
    reveal_strlit("EiB");
    reveal_strlit("EIB");
    let s = unit_symbol(u);
    assert(ascii(s));
    let up = upper(s);
    assert(up.len() == s.len());
    match u {
        Unit::Byte => {
            assert(up =~= "B"@);
            assert(unit_named("B"@) == Some(Unit::Byte));
        },
        Unit::Kilo => {
            assert(up =~= "KB"@);
            assert(unit_named("KB"@) == Some(Unit::Kilo));
        },
        Unit::Kibi => {
            assert(up =~= "KIB"@);
            assert(unit_named("KIB"@) == Some(Unit::Kibi));
        },
        Unit::Mega => {
            assert(up =~= "MB"@);
            assert("MB"@[0] != "KB"@[0]);
            assert(unit_named("MB"@) == Some(Unit::Mega));
        },
        Unit::Mebi => {
            assert(up =~= "MIB"@);
            assert("MIB"@[0] != "KIB"@[0]);
            assert(unit_named("MIB"@) == Some(Unit::Mebi));
        },
        Unit::Giga => {
            assert(up =~= "GB"@);
            assert("GB"@[0] != "KB"@[0]);
            assert("GB"@[0] != "MB"@[0]);
            assert(unit_named("GB"@) == Some(Unit::Giga));
        },
        Unit::Gibi => {
            assert(up =~= "GIB"@);
            assert("GIB"@[0] != "KIB"@[0]);
            assert("GIB"@[0] != "MIB"@[0]);
            assert(unit_named("GIB"@) == Some(Unit::Gibi));
        },
        Unit::Tera => {
            assert(up =~= "TB"@);
            assert("TB"@[0] != "KB"@[0]);
            assert("TB"@[0] != "MB"@[0]);
            assert("TB"@[0] != "GB"@[0]);
            assert(unit_named("TB"@) == Some(Unit::Tera));
        },
        Unit::Tebi => {
            assert(up =~= "TIB"@);
            assert("TIB"@[0] != "KIB"@[0]);
            assert("TIB"@[0] != "MIB"@[0]);
            assert("TIB"@[0] != "GIB"@[0]);
            assert(unit_named("TIB"@) == Some(Unit::Tebi));
        },
        Unit::Peta => {
            assert(up =~= "PB"@);
            assert("PB"@[0] != "KB"@[0]);
            assert("PB"@[0] != "MB"@[0]);
            assert("PB"@[0] != "GB"@[0]);
            assert("PB"@[0] != "TB"@[0]);
            assert(unit_named("PB"@) == Some(Unit::Peta));
        },
        Unit::Pebi => {
            assert(up =~= "PIB"@);
            assert("PIB"@[0] != "KIB"@[0]);
            assert("PIB"@[0] != "MIB"@[0]);
            assert("PIB"@[0] != "GIB"@[0]);
            assert("PIB"@[0] != "TIB"@[0]);
            assert(unit_named("PIB"@) == Some(Unit::Pebi));
        },
        Unit::Exa => {
            assert(up =~= "EB"@);
            assert("EB"@[0] != "KB"@[0]);
            assert("EB"@[0] != "MB"@[0]);
            assert("EB"@[0] != "GB"@[0]);
            assert("EB"@[0] != "TB"@[0]);
            assert("EB"@[0] != "PB"@[0]);
            assert(unit_named("EB"@) == Some(Unit::Exa));
        },
        Unit::Exbi => {
            assert(up =~= "EIB"@);
            assert("EIB"@[0] != "KIB"@[0]);
            assert("EIB"@[0] != "MIB"@[0]);
            assert("EIB"@[0] != "GIB"@[0]);
            assert("EIB"@[0] != "TIB"@[0]);
            assert("EIB"@[0] != "PIB"@[0]);
            assert(unit_named("EIB"@) == Some(Unit::Exbi));
        },
    }
    assert(unit_named(up) == Some(u));
}

/// Byte size representation.
#[derive(Clone, Copy, Debug, PartialEq, Eq, Structural, PartialOrd, Ord, Hash)]
pub struct Size(u64);

impl View for Size {
    type V = u64;

    closed spec fn view(&self) -> u64 {
        self.0
    }
}

/// The unit a size is displayed in: the largest unit of the decimal (`si`)
/// or binary family that is not above the size, or bytes below one kilo.
pub open spec fn display_unit(v: u64, si: bool) -> Unit {
    if si {
        if v >= EB {
            Unit::Exa
        } else if v >= PB {
            Unit::Peta
        } else if v >= TB {
            Unit::Tera
        } else if v >= GB {
            Unit::Giga
        } else if v >= MB {
            Unit::Mega
        } else if v >= KB {
            Unit::Kilo
        } else {
            Unit::Byte
        }
    } else {
        if v >= EiB {
            Unit::Exbi
        } else if v >= PiB {
            Unit::Pebi
        } else if v >= TiB {
            Unit::Tebi
        } else if v >= GiB {
            Unit::Gibi
        } else if v >= MiB {
            Unit::Mebi
        } else if v >= KiB {
            Unit::Kibi
        } else {
            Unit::Byte
        }
    }
}

/// Whether `u` is of the decimal family: bytes or a power of 1000 of them.
pub open spec fn decimal(u: Unit) -> bool {
    match u {
        Unit::Byte | Unit::Kilo | Unit::Mega | Unit::Giga | Unit::Tera | Unit::Peta | Unit::Exa => true,
        _ => false,
    }
}

/// Whether `u` is of the binary family: bytes or a power of 1024 of them.
pub open spec fn binary(u: Unit) -> bool {
    match u {
        Unit::Byte | Unit::Kibi | Unit::Mebi | Unit::Gibi | Unit::Tebi | Unit::Pebi | Unit::Exbi => true,
        _ => false,
    }
}

/// A size is displayed in a unit of the family asked for (decimal with `si`,
/// binary without), and in the largest unit of that family that is not above
/// the size: every unit of that family at most the size is at most the one
/// chosen. Each unit of the decimal family is 1000 times the one before, and
/// each of the binary family 1024 times.
pub proof fn law_display_unit_family(v: u64, si: bool, u: Unit)
    ensures
        si ==> decimal(display_unit(v, si)),
        !si ==> binary(display_unit(v, si)),
        (si && decimal(u) || !si && binary(u)) && unit_value(u) <= v ==> unit_value(u) <= unit_value(
            display_unit(v, si),
        ),
        unit_value(Unit::Byte) == 1,
        unit_value(Unit::Kilo) == 1000 * unit_value(Unit::Byte),
        unit_value(Unit::Mega) == 1000 * unit_value(Unit::Kilo),
        unit_value(Unit::Giga) == 1000 * unit_value(Unit::Mega),
        unit_value(Unit::Tera) == 1000 * unit_value(Unit::Giga),
        unit_value(Unit::Peta) == 1000 * unit_value(Unit::Tera),
        unit_value(Unit::Exa) == 1000 * unit_value(Unit::Peta),
        unit_value(Unit::Kibi) == 1024 * unit_value(Unit::Byte),
        unit_value(Unit::Mebi) == 1024 * unit_value(Unit::Kibi),
        unit_value(Unit::Gibi) == 1024 * unit_value(Unit::Mebi),
        unit_value(Unit::Tebi) == 1024 * unit_value(Unit::Gibi),
        unit_value(Unit::Pebi) == 1024 * unit_value(Unit::Tebi),
        unit_value(Unit::Exbi) == 1024 * unit_value(Unit::Pebi),
{
}

/// The unit a size is displayed in scales it to at least one and below a
/// thousand (decimal) or 1024 (binary) of the unit, except that the largest
/// unit is not bounded above; a size below one displays in bytes.
pub proof fn law_display_unit_scale(v: u64, si: bool)
    ensures
        v >= 1 ==> unit_value(display_unit(v, si)) <= v,
        v < 1 ==> display_unit(v, si) == Unit::Byte,
        si && display_unit(v, si) != Unit::Exa ==> v < 1000 * unit_value(display_unit(v, si)),
        !si && display_unit(v, si) != Unit::Exbi ==> v < 1024 * unit_value(display_unit(v, si)),
{
}

#[allow(non_snake_case)]
impl Size {
    /// Size of `value` bytes.
    pub fn Byte(value: u64) -> (r: Self)
        requires
            value * B <= u64::MAX,
        ensures
            r@ == value * B,
    {
        Size(value * B)
    }

    /// Size of `value` kilobytes.
    pub fn Kilo(value: u64) -> (r: Self)
        requires
            value * KB <= u64::MAX,
        ensures
            r@ == value * KB,
    {
        Size(value * KB)
    }

    /// Size of `value` kibibytes.
    pub fn Kibi(value: u64) -> (r: Self)
        requires
            value * KiB <= u64::MAX,
        ensures
            r@ == value * KiB,
    {
        Size(value * KiB)
    }

    /// Size of `value` megabytes.
    pub fn Mega(value: u64) -> (r: Self)
        requires
            value * MB <= u64::MAX,
        ensures
            r@ == value * MB,
    {
        Size(value * MB)
    }

    /// Size of `value` mebibytes.
    pub fn Mebi(value: u64) -> (r: Self)
        requires
            value * MiB <= u64::MAX,
        ensures
            r@ == value * MiB,
    {
        Size(value * MiB)
    }

    /// Size of `value` gigabytes.
    pub fn Giga(value: u64) -> (r: Self)
        requires
            value * GB <= u64::MAX,
        ensures
            r@ == value * GB,
    {
        Size(value * GB)
    }

    /// Size of `value` gibibytes.
    pub fn Gibi(value: u64) -> (r: Self)
        requires
            value * GiB <= u64::MAX,
        ensures
            r@ == value * GiB,
    {
        Size(value * GiB)
    }

    /// Size of `value` terabytes.
    pub fn Tera(value: u64) -> (r: Self)
        requires
            value * TB <= u64::MAX,
        ensures
            r@ == value * TB,
    {
        Size(value * TB)
    }

    /// Size of `value` tebibytes.
    pub fn Tebi(value: u64) -> (r: Self)
        requires
            value * TiB <= u64::MAX,
        ensures
            r@ == value * TiB,
    {
        Size(value * TiB)
    }

    /// Size of `value` petabytes.
    pub fn Peta(value: u64) -> (r: Self)
        requires
            value * PB <= u64::MAX,
        ensures
            r@ == value * PB,
    {
        Size(value * PB)
    }

    /// Size of `value` pebibytes.
    pub fn Pebi(value: u64) -> (r: Self)
        requires
            value * PiB <= u64::MAX,
        ensures
            r@ == value * PiB,
    {
        Size(value * PiB)
    }

    /// Size of `value` exabytes.
    pub fn Exa(value: u64) -> (r: Self)
        requires
            value * EB <= u64::MAX,
        ensures
            r@ == value * EB,
    {
        Size(value * EB)
    }

    /// Size of `value` exbibytes.
    pub fn Exbi(value: u64) -> (r: Self)
        requires
            value * EiB <= u64::MAX,
        ensures
            r@ == value * EiB,
    {
        Size(value * EiB)
    }
}

impl Size {
    /// The integer number of bytes as a `usize`.
    pub fn to_usize(&self) -> (r: usize)
        requires
            self@ <= usize::MAX,
        ensures
            r == self@,
    {
        self.0 as usize
    }

    /// The unit the size is displayed in, from the decimal family when `si`
    /// is set and from the binary family otherwise.
    pub fn unit(&self, si: bool) -> (u: Unit)
        ensures
            u == display_unit(self@, si),
    {
        let v = self.0;
        if si {
            if v >= EB {
                Unit::Exa
            } else if v >= PB {
                Unit::Peta
            } else if v >= TB {
                Unit::Tera
            } else if v >= GB {
                Unit::Giga
            } else if v >= MB {
                Unit::Mega
            } else if v >= KB {
                Unit::Kilo
            } else {
                Unit::Byte
            }
        } else {
            if v >= EiB {
                Unit::Exbi
            } else if v >= PiB {
                Unit::Pebi
            } else if v >= TiB {
                Unit::Tebi
            } else if v >= GiB {
                Unit::Gibi
            } else if v >= MiB {
                Unit::Mebi
            } else if v >= KiB {
                Unit::Kibi
            } else {
                Unit::Byte
            }
        }
    }

    /// Splits a size written as `<number> <unit>` into its number text and its
    /// unit. Leading and trailing white space is ignored; the number and the
    /// unit are separated at the first space; the unit ignores case.
    pub fn parse_parts<'a>(s: &'a str) -> (r: Result<(&'a str, Unit), Error>)
        ensures
            match split_at_space(trimmed(s@)) {
                None => r == Err::<(&str, Unit), Error>(Error::Size),
                Some((num, unit)) => match unit_named(uppercase(unit)) {
                    None => r == Err::<(&str, Unit), Error>(Error::Unit),
                    Some(u) => r is Ok && r->Ok_0.0@ == num && r->Ok_0.1 == u,
                },
            },
            match split_at_space(trimmed(s@)) {
                None => true,
                Some((num, unit)) => ascii(unit) ==> match unit_named(upper(unit)) {
                    None => r == Err::<(&str, Unit), Error>(Error::Unit),
                    Some(u) => r is Ok && r->Ok_0.0@ == num && r->Ok_0.1 == u,
                },
            },
    {
        Size::split_parts(trim(s))
    }

    /// Splits text already trimmed of white space, `<number> <unit>`, at its
    /// first space into the number text and the unit, which ignores case.
    pub fn split_parts<'a>(t: &'a str) -> (r: Result<(&'a str, Unit), Error>)
        ensures
            match split_at_space(t@) {
                None => r == Err::<(&str, Unit), Error>(Error::Size),
                Some((num, unit)) => match unit_named(uppercase(unit)) {
                    None => r == Err::<(&str, Unit), Error>(Error::Unit),
                    Some(u) => r is Ok && r->Ok_0.0@ == num && r->Ok_0.1 == u,
                },
            },
            match split_at_space(t@) {
                None => true,
                Some((num, unit)) => ascii(unit) ==> match unit_named(upper(unit)) {
                    None => r == Err::<(&str, Unit), Error>(Error::Unit),
                    Some(u) => r is Ok && r->Ok_0.0@ == num && r->Ok_0.1 == u,
                },
            },
    {
        let n = t.unicode_len();
        let mut i: usize = 0;
        while i < n
            invariant
                n == t@.len(),
                i <= n,
                first_space(t@, 0) == first_space(t@, i as nat),
            ensures
                i == n || t@[i as int] == ' ',
            decreases n - i,
        {
            if t.get_char(i) == ' ' {
                break;
            }
            i = i + 1;
        }
        if i == n {
            return Err(Error::Size);
        }
        assert(first_space(t@, 0) == Some(i as nat));
        let num = t.substring_char(0, i);
        let unit = t.substring_char(i + 1, n);
        match Unit::from_str(unit) {
            Ok(u) => Ok((num, u)),
            Err(e) => Err(e),
        }
    }
}

/// Index of the first space of `s` at or after `i`.
pub open spec fn first_space(s: Seq<char>, i: nat) -> Option<nat>
    decreases s.len() - i,
{
    if i >= s.len() {
        None
    } else if s[i as int] == ' ' {
        Some(i)
    } else {
        first_space(s, i + 1)
    }
}

/// `s` split around its first space.
pub open spec fn split_at_space(s: Seq<char>) -> Option<(Seq<char>, Seq<char>)> {
    match first_space(s, 0) {
        Some(i) => Some((s.subrange(0, i as int), s.subrange((i + 1) as int, s.len() as int))),
        None => None,
    }
}

impl From<u64> for Size {
    fn from(value: u64) -> (r: Self)
        ensures
            r@ == value,
    {
        Size(value)
    }
}

impl vstd::std_specs::convert::FromSpecImpl<u64> for Size {
    open spec fn obeys_from_spec() -> bool {
        true
    }

    closed spec fn from_spec(v: u64) -> Self {
        Size(v)
    }
}

impl From<Size> for u64 {
    fn from(value: Size) -> (r: Self)
        ensures
            r == value@,
    {
        value.0
    }
}

impl vstd::std_specs::convert::FromSpecImpl<Size> for u64 {
    open spec fn obeys_from_spec() -> bool {
        true
    }

    open spec fn from_spec(v: Size) -> Self {
        v@
    }
}

impl From<usize> for Size {
    fn from(value: usize) -> (r: Self)
        ensures
            r@ == value,
    {
        Size(value as u64)
    }
}

impl vstd::std_specs::convert::FromSpecImpl<usize> for Size {
    open spec fn obeys_from_spec() -> bool {
        true
    }

    closed spec fn from_spec(v: usize) -> Self {
        Size(v as u64)
    }
}

/// Horizontal alignment of padded text.
#[derive(Clone, Copy, Debug, PartialEq, Eq, Structural)]
pub enum Align {
    Left,
    Center,
    Right,
}

/// How formatted text is padded to a width, as a number is padded.
#[derive(Clone, Copy, Debug, PartialEq, Eq, Structural)]
pub struct Layout {
    /// Minimum number of characters.
    pub width: Option<usize>,
    /// Alignment within the width; numbers align right by default.
    pub align: Option<Align>,
    /// Character that pads.
    pub fill: char,
    /// Whether a `+` sign is written.
    pub plus: bool,
    /// Whether zeros pad after the sign, ignoring fill and alignment.
    pub zero: bool,
}

/// `text` padded as `layout` asks.
pub open spec fn padded(text: Seq<char>, layout: Layout) -> Seq<char> {
    let sign: Seq<char> = if layout.plus { seq!['+'] } else { Seq::empty() };
    let body = sign + text;
    match layout.width {
        None => body,
        Some(w) => if body.len() >= w {
            body
        } else {
            let gap = (w - body.len()) as nat;
            if layout.zero {
                sign + repeat('0', gap) + text
            } else {
                match layout.align {
                    Some(Align::Left) => body + repeat(layout.fill, gap),
                    Some(Align::Center) => repeat(layout.fill, gap / 2) + body + repeat(
                        layout.fill,
                        (gap - gap / 2) as nat,
                    ),
                    _ => repeat(layout.fill, gap) + body,
                }
            }
        },
    }
}

/// Pads `text` as a number is padded.
pub fn pad(text: &str, layout: &Layout) -> (r: String)
    ensures
        r@ == padded(text@, *layout),
{
    let mut r = String::new();
    let ghost sign: Seq<char> = if layout.plus { seq!['+'] } else { Seq::empty() };
    if layout.plus {
        push_char(&mut r, '+');
    }
    assert(r@ =~= sign);
    let len = text.unicode_len();
    let used = if layout.plus { len.saturating_add(1) } else { len };
    match layout.width {
        Some(w) if used < w => {
            let gap = w - used;
            if layout.zero {
                push_repeat(&mut r, '0', gap);
                push_str(&mut r, text);
                return r;
            }
            let (front, back) = match layout.align {
                Some(Align::Left) => (0, gap),
                Some(Align::Center) => (gap / 2, gap - gap / 2),
                _ => (gap, 0),
            };
            let mut out = String::new();
            push_repeat(&mut out, layout.fill, front);
            push_str(&mut out, r.as_str());
            push_str(&mut out, text);
            push_repeat(&mut out, layout.fill, back);
            assert(repeat(layout.fill, 0) =~= Seq::<char>::empty());
            assert(out@ =~= padded(text@, *layout));
            out
        },
        _ => {
            push_str(&mut r, text);
            r
        },
    }
}

} // verus!
