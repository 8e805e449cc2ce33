//! Integer parsing, as `from_str_radix` does it.

use core::num::ParseIntError;
use vstd::prelude::*;

verus! {

/// The error `from_str_radix` reports.
#[verifier::external_type_specification]
#[verifier::external_body]
pub struct ExParseIntError(std::num::ParseIntError);

/// Value of a digit in base `radix` (at most 36), if `c` is one.
pub open spec fn digit_value(c: char, radix: nat) -> Option<nat> {
    let v: int = if '0' <= c && c <= '9' {
        c as int - 48
    } else if 'a' <= c && c <= 'z' {
        c as int - 87
    } else if 'A' <= c && c <= 'Z' {
        c as int - 55
    } else {
        radix as int
    };
    if 0 <= v < radix {
        Some(v as nat)
    } else {
        None
    }
}

/// Value of the digits `s` in base `radix`, if they all are digits.
pub open spec fn digits_value(s: Seq<char>, radix: nat) -> Option<nat>
    decreases s.len(),
{
    if s.len() == 0 {
        Some(0)
    } else {
        match (digits_value(s.drop_last(), radix), digit_value(s.last(), radix)) {
            (Some(h), Some(d)) => Some(h * radix + d),
            _ => None,
        }
    }
}

/// Value of `s` as an unsigned number below `bound` in base `radix`, as
/// `from_str_radix` reads it: an optional `+` followed by at least one
/// digit, and nothing else.
pub open spec fn unsigned_value(s: Seq<char>, radix: nat, bound: nat) -> Option<nat> {
    let digits = if s.len() > 0 && s[0] == '+' { s.drop_first() } else { s };
    if digits.len() == 0 {
        None
    } else {
        match digits_value(digits, radix) {
            Some(v) => if v < bound { Some(v) } else { None },
            None => None,
        }
    }
}

/// A lowercase hexadecimal digit is read back as its value.
pub proof fn lemma_hex_digit_value(d: nat)
    requires
        d < 16,
    ensures
        digit_value(crate::text::hex_digit(d), 16) == Some(d),
{
}

/// The digits of `n` are read back as `n`.
pub proof fn lemma_hex_str_value(n: nat)
    ensures
        digits_value(crate::text::hex_str(n), 16) == Some(n),
        crate::text::hex_str(n).len() >= 1,
        forall|i: int| 0 <= i < crate::text::hex_str(n).len() ==> digit_value(#[trigger] crate::text::hex_str(n)[i], 16) is Some,
    decreases n,
{
    if n < 16 {
        lemma_hex_digit_value(n);
        let s = crate::text::hex_str(n);
        assert(s.drop_last() =~= Seq::<char>::empty());
        assert(s.last() == crate::text::hex_digit(n));
        assert(digits_value(s.drop_last(), 16) == Some(0nat));
        assert(digit_value(s.last(), 16) == Some(n));
        assert(digits_value(s, 16) == Some(0nat * 16 + n));
    } else {
        lemma_hex_str_value(n / 16);
        lemma_hex_digit_value(n % 16);
        let s = crate::text::hex_str(n);
        assert(s.drop_last() =~= crate::text::hex_str(n / 16));
        assert(s.last() == crate::text::hex_digit(n % 16));
        assert((n / 16) * 16 + n % 16 == n) by (nonlinear_arith);
        assert(digits_value(s, 16) == Some((n / 16) * 16 + n % 16));
        assert forall|i: int| 0 <= i < s.len() implies digit_value(#[trigger] s[i], 16) is Some by {
            if i < s.len() - 1 {
                assert(s[i] == crate::text::hex_str(n / 16)[i]);
            }
        }
    }
}

/// Leading zeros do not change the value of digits.
pub proof fn lemma_leading_zeros(k: nat, s: Seq<char>, radix: nat)
    requires
        radix > 0,
    ensures
        digits_value(crate::text::repeat('0', k) + s, radix) == digits_value(s, radix),
    decreases s.len(),
{
    let z = crate::text::repeat('0', k);
    if s.len() == 0 {
        lemma_zeros_value(k, radix);
        assert(z + s =~= z);
    } else {
        lemma_leading_zeros(k, s.drop_last(), radix);
        assert((z + s).drop_last() =~= z + s.drop_last());
        assert((z + s).last() == s.last());
    }
}

/// Zeros alone are worth zero.
proof fn lemma_zeros_value(k: nat, radix: nat)
    requires
        radix > 0,
    ensures
        digits_value(crate::text::repeat('0', k), radix) == Some(0nat),
    decreases k,
{
    if k > 0 {
        lemma_zeros_value((k - 1) as nat, radix);
        assert(crate::text::repeat('0', k).drop_last() =~= crate::text::repeat('0', (k - 1) as nat));
        assert(crate::text::repeat('0', k).last() == '0');
        assert(0nat * radix + 0 == 0) by (nonlinear_arith);
    } else {
        assert(crate::text::repeat('0', k) =~= Seq::<char>::empty());
    }
}

/// Six hexadecimal digits, zero-padded at the front, read back as the value
/// below `16^6` that they were written for.
pub proof fn lemma_six_hex_digits(v: nat)
    requires
        v < 0x100_0000,
    ensures
        crate::text::pad_front(crate::text::hex_str(v), 6, '0').len() == 6,
        unsigned_value(crate::text::pad_front(crate::text::hex_str(v), 6, '0'), 16, 0x1_0000_0000)
            == Some(v),
{
    let h = crate::text::hex_str(v);
    assert(crate::text::p16(6) == 0x100_0000) by {
        reveal_with_fuel(crate::text::p16, 7);
    }
    crate::text::lemma_hex_len_bound(v, 6);
    lemma_hex_str_value(v);
    let k = (6 - h.len()) as nat;
    let t = crate::text::pad_front(h, 6, '0');
    assert(t =~= crate::text::repeat('0', k) + h);
    lemma_leading_zeros(k, h, 16);
    assert(t[0] != '+') by {
        if k == 0 {
            assert(t[0] == h[0]);
            assert(digit_value(h[0], 16) is Some);
        } else {
            assert(t[0] == '0');
        }
    }
}

/// Parses a hexadecimal `u32`.
///
/// Trusted: `u32::from_str_radix` with radix 16, documented to accept an
/// optional `+` sign followed by digits only, and to fail on an empty
/// string, on any other character and on overflow. The contract states that
/// reading over [`unsigned_value`].
#[verifier::external_body]
pub(crate) fn parse_hex_u32(s: &str) -> (r: Result<u32, ParseIntError>)
    ensures
        match unsigned_value(s@, 16, 0x1_0000_0000) {
            Some(v) => r == Ok::<u32, ParseIntError>(v as u32),
            None => r is Err,
        },
{
    u32::from_str_radix(s, 16)
}

/// Parses a decimal `u32`.
///
/// Trusted: `u32::from_str`, documented to read an optional `+` sign
/// followed by decimal digits only, and to fail otherwise or on overflow.
#[verifier::external_body]
pub(crate) fn parse_dec_u32(s: &str) -> (r: Result<u32, ParseIntError>)
    ensures
        match unsigned_value(s@, 10, 0x1_0000_0000) {
            Some(v) => r == Ok::<u32, ParseIntError>(v as u32),
            None => r is Err,
        },
{
    s.parse::<u32>()
}

/// Parses a decimal `u8`.
///
/// Trusted: `u8::from_str`, documented to read an optional `+` sign
/// followed by decimal digits only, and to fail otherwise or on overflow.
#[verifier::external_body]
pub(crate) fn parse_dec_u8(s: &str) -> (r: Result<u8, ParseIntError>)
    ensures
        match unsigned_value(s@, 10, 0x100) {
            Some(v) => r == Ok::<u8, ParseIntError>(v as u8),
            None => r is Err,
        },
{
    s.parse::<u8>()
}

} // verus!
