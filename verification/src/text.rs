//! Text rendering shared by the formatters of this crate.

use vstd::prelude::*;

verus! {

/// Appends one character to a `String`.
///
/// Trusted: `String::push`, documented to append the given `char` to the end
/// of the string; the contract says exactly that.
#[verifier::external_body]
pub(crate) fn push_char(s: &mut String, c: char)
    ensures
        final(s)@ == old(s)@.push(c),
{
    s.push(c);
}

/// The lowercase hexadecimal digit for a value below sixteen.
pub open spec fn hex_digit(d: nat) -> char {
    if d < 10 {
        (48 + d) as char
    } else {
        (87 + d) as char
    }
}

/// The decimal digit for a value below ten.
pub open spec fn dec_digit(d: nat) -> char {
    (48 + d) as char
}

/// Lowercase hexadecimal digits of `n`, without leading zeros ("0" for zero).
pub open spec fn hex_str(n: nat) -> Seq<char>
    decreases n,
{
    if n < 16 {
        seq![hex_digit(n)]
    } else {
        hex_str(n / 16).push(hex_digit(n % 16))
    }
}

/// Decimal digits of `n`, without leading zeros ("0" for zero).
pub open spec fn dec_str(n: nat) -> Seq<char>
    decreases n,
{
    if n < 10 {
        seq![dec_digit(n)]
    } else {
        dec_str(n / 10).push(dec_digit(n % 10))
    }
}

/// `s` preceded by enough copies of `c` to make it at least `width` long.
pub open spec fn pad_front(s: Seq<char>, width: nat, c: char) -> Seq<char> {
    if s.len() < width {
        Seq::new((width - s.len()) as nat, |i: int| c) + s
    } else {
        s
    }
}

/// `n` copies of `c`.
pub open spec fn repeat(c: char, n: nat) -> Seq<char> {
    Seq::new(n, |i: int| c)
}

/// The character of a hexadecimal digit.
pub fn hex_char(d: u8) -> (c: char)
    requires
        d < 16,
    ensures
        c == hex_digit(d as nat),
{
    if d < 10 {
        (48 + d) as char
    } else {
        (87 + d) as char
    }
}

/// The character of a decimal digit.
pub fn dec_char(d: u8) -> (c: char)
    requires
        d < 10,
    ensures
        c == dec_digit(d as nat),
{
    (48 + d) as char
}

/// Appends the hexadecimal digits of `n`.
pub fn push_hex(s: &mut String, n: u64)
    ensures
        final(s)@ == old(s)@ + hex_str(n as nat),
    decreases n,
{
    if n >= 16 {
        push_hex(s, n / 16);
    }
    push_char(s, hex_char((n % 16) as u8));
    assert(final(s)@ =~= old(s)@ + hex_str(n as nat)) by {
        if n >= 16 {
            assert(hex_str(n as nat) == hex_str((n / 16) as nat).push(hex_digit((n % 16) as nat)));
        }
    }
}

/// Appends the decimal digits of `n`.
pub fn push_dec(s: &mut String, n: u64)
    ensures
        final(s)@ == old(s)@ + dec_str(n as nat),
    decreases n,
{
    if n >= 10 {
        push_dec(s, n / 10);
    }
    push_char(s, dec_char((n % 10) as u8));
    assert(final(s)@ =~= old(s)@ + dec_str(n as nat)) by {
        if n >= 10 {
            assert(dec_str(n as nat) == dec_str((n / 10) as nat).push(dec_digit((n % 10) as nat)));
        }
    }
}


/// Sixteen to the power `k`.
pub open spec fn p16(k: nat) -> nat
    decreases k,
{
    if k == 0 {
        1
    } else {
        16 * p16((k - 1) as nat)
    }
}

/// `hex_str(n)` has at most `k` digits when `n < 16^k`.
pub proof fn lemma_hex_len_bound(n: nat, k: nat)
    requires
        n < p16(k),
    ensures
        1 <= hex_str(n).len() <= k || (k == 0),
        hex_str(n).len() >= 1,
        k >= 1 ==> hex_str(n).len() <= k,
    decreases n,
{
    if n >= 16 && k >= 1 {
        lemma_hex_len_bound(n / 16, (k - 1) as nat);
    }
}

proof fn lemma_hex_len_u64(n: u64)
    ensures
        1 <= hex_str(n as nat).len() <= 16,
{
    assert(p16(16) == 0x1_0000_0000_0000_0000) by {
        reveal_with_fuel(p16, 17);
    }
    lemma_hex_len_bound(n as nat, 16);
}

/// Number of hexadecimal digits of `n`.
pub fn hex_len(n: u64) -> (r: usize)
    ensures
        r == hex_str(n as nat).len(),
        1 <= r <= 16,
    decreases n,
{
    proof {
        lemma_hex_len_u64(n);
    }
    if n < 16 {
        1
    } else {
        let r = hex_len(n / 16);
        r + 1
    }
}

/// Appends `n` copies of `c`.
pub fn push_repeat(s: &mut String, c: char, n: usize)
    ensures
        final(s)@ == old(s)@ + repeat(c, n as nat),
{
    let ghost start = s@;
    let mut i: usize = 0;
    while i < n
        invariant
            i <= n,
            s@ == start + repeat(c, i as nat),
        decreases n - i,
    {
        push_char(s, c);
        i = i + 1;
        assert(s@ =~= start + repeat(c, i as nat));
    }
}

/// Appends `t`.
pub fn push_str(s: &mut String, t: &str)
    ensures
        final(s)@ == old(s)@ + t@,
{
    s.append(t);
}

/// Appends the hexadecimal digits of `n`, zero-padded at the front to `width` digits.
pub fn push_hex_padded(s: &mut String, n: u64, width: usize)
    ensures
        final(s)@ == old(s)@ + pad_front(hex_str(n as nat), width as nat, '0'),
{
    let ghost start = s@;
    let len = hex_len(n);
    if len < width {
        push_repeat(s, '0', width - len);
    }
    push_hex(s, n);
    assert(s@ =~= start + pad_front(hex_str(n as nat), width as nat, '0'));
}

/// `c` in lower case, where it is an ASCII capital letter.
pub open spec fn lower_char(c: char) -> char {
    if 'A' <= c <= 'Z' {
        ((c as u32 + 32) as u8) as char
    } else {
        c
    }
}

/// `s` with its ASCII capital letters in lower case.
pub open spec fn lower(s: Seq<char>) -> Seq<char> {
    s.map_values(|c: char| lower_char(c))
}

/// `c` in upper case, where it is an ASCII small letter.
pub open spec fn upper_char(c: char) -> char {
    if 'a' <= c <= 'z' {
        ((c as u32 - 32) as u8) as char
    } else {
        c
    }
}

/// `s` with its ASCII small letters in upper case.
pub open spec fn upper(s: Seq<char>) -> Seq<char> {
    s.map_values(|c: char| upper_char(c))
}

/// Whether every character of `s` is ASCII.
pub open spec fn ascii(s: Seq<char>) -> bool {
    forall|i: int| 0 <= i < s.len() ==> (#[trigger] s[i] as u32) < 128
}

/// Appends `t` with its ASCII capital letters in lower case.
pub fn push_lower(s: &mut String, t: &str)
    ensures
        final(s)@ == old(s)@ + lower(t@),
{
    let ghost start = s@;
    let n = t.unicode_len();
    let mut i: usize = 0;
    while i < n
        invariant
            n == t@.len(),
            i <= n,
            s@ == start + lower(t@.subrange(0, i as int)),
        decreases n - i,
    {
        let c = t.get_char(i);
        let d = if 'A' <= c && c <= 'Z' {
            ((c as u32 + 32) as u8) as char
        } else {
            c
        };
        push_char(s, d);
        i = i + 1;
        assert(lower(t@.subrange(0, i as int)) =~= lower(t@.subrange(0, i - 1)).push(d));
        assert(s@ =~= start + lower(t@.subrange(0, i as int)));
    }
    assert(t@.subrange(0, n as int) =~= t@);
}

/// Compares two string slices character by character.
pub fn str_eq(a: &str, b: &str) -> (r: bool)
    ensures
        r == (a@ == b@),
{
    let n = a.unicode_len();
    if n != b.unicode_len() {
        return false;
    }
    let mut i: usize = 0;
    while i < n
        invariant
            n == a@.len(),
            n == b@.len(),
            i <= n,
            forall|j: int| 0 <= j < i ==> a@[j] == b@[j],
        decreases n - i,
    {
        if a.get_char(i) != b.get_char(i) {
            return false;
        }
        i = i + 1;
    }
    assert(a@ =~= b@);
    true
}

} // verus!
