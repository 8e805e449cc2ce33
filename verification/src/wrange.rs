//! Wrapping range iteration.
//!
//! A [`Wrange`] is bounded inclusively below and above; when the lower bound
//! is above the upper bound the range wraps about the type's maximum and
//! minimum values.

use core::ops::{Range, RangeInclusive};
use vstd::prelude::*;

verus! {

/// Integer types with a minimum and a maximum that ranges can wrap about.
pub trait Bounded: Copy + Sized {
    /// The value as a mathematical integer.
    spec fn spec_int(self) -> int;

    /// The smallest value of the type.
    spec fn spec_min() -> int;

    /// The largest value of the type.
    spec fn spec_max() -> int;

    /// Every value lies between the bounds, and values are determined by
    /// their integer.
    proof fn lemma_bounds(x: Self, y: Self)
        ensures
            Self::spec_min() <= x.spec_int() <= Self::spec_max(),
            x.spec_int() == y.spec_int() ==> x == y,
    ;

    /// The smallest value.
    fn min_value() -> (r: Self)
        ensures
            r.spec_int() == Self::spec_min(),
    ;

    /// The largest value.
    fn max_value() -> (r: Self)
        ensures
            r.spec_int() == Self::spec_max(),
    ;

    /// Whether `self` is at most `other`.
    fn less_eq(self, other: Self) -> (r: bool)
        ensures
            r == (self.spec_int() <= other.spec_int()),
    ;

    /// The value below, wrapping from the minimum to the maximum.
    spec fn spec_wrapping_dec(self) -> Self;

    /// The value below is below, or the maximum for the minimum.
    proof fn lemma_wrapping_dec(x: Self)
        ensures
            x.spec_wrapping_dec().spec_int() == if x.spec_int() == Self::spec_min() {
                Self::spec_max()
            } else {
                x.spec_int() - 1
            },
    ;

    /// The value below, wrapping from the minimum to the maximum.
    fn wrapping_dec(self) -> (r: Self)
        ensures
            r == self.spec_wrapping_dec(),
            r.spec_int() == if self.spec_int() == Self::spec_min() {
                Self::spec_max()
            } else {
                self.spec_int() - 1
            },
    ;

    /// The value above.
    fn succ(self) -> (r: Self)
        requires
            self.spec_int() < Self::spec_max(),
        ensures
            r.spec_int() == self.spec_int() + 1,
    ;

    /// Number of values from `self` up to `other` inclusive, minus one.
    fn distance(self, other: Self) -> (r: usize)
        requires
            self.spec_int() <= other.spec_int(),
            other.spec_int() - self.spec_int() <= usize::MAX,
        ensures
            r == other.spec_int() - self.spec_int(),
    ;
}

impl Bounded for u8 {
    open spec fn spec_int(self) -> int { self as int }
    open spec fn spec_min() -> int { 0 }
    open spec fn spec_max() -> int { 0xff }
    proof fn lemma_bounds(x: Self, y: Self) {}
    fn min_value() -> u8 { u8::MIN }
    fn max_value() -> u8 { u8::MAX }
    fn less_eq(self, other: Self) -> bool { self <= other }
    open spec fn spec_wrapping_dec(self) -> u8 { self.wrapping_sub(1) }
    proof fn lemma_wrapping_dec(x: Self) {}
    fn wrapping_dec(self) -> u8 { self.wrapping_sub(1) }
    fn succ(self) -> u8 { self + 1 }
    fn distance(self, other: Self) -> usize { (other - self) as usize }
}

impl Bounded for i8 {
    open spec fn spec_int(self) -> int { self as int }
    open spec fn spec_min() -> int { -0x80 }
    open spec fn spec_max() -> int { 0x7f }
    proof fn lemma_bounds(x: Self, y: Self) {}
    fn min_value() -> i8 { i8::MIN }
    fn max_value() -> i8 { i8::MAX }
    fn less_eq(self, other: Self) -> bool { self <= other }
    open spec fn spec_wrapping_dec(self) -> i8 { self.wrapping_sub(1) }
    proof fn lemma_wrapping_dec(x: Self) {}
    fn wrapping_dec(self) -> i8 { self.wrapping_sub(1) }
    fn succ(self) -> i8 { self + 1 }
    fn distance(self, other: Self) -> usize { (other as i16 - self as i16) as usize }
}

impl Bounded for u16 {
    open spec fn spec_int(self) -> int { self as int }
    open spec fn spec_min() -> int { 0 }
    open spec fn spec_max() -> int { 0xffff }
    proof fn lemma_bounds(x: Self, y: Self) {}
    fn min_value() -> u16 { u16::MIN }
    fn max_value() -> u16 { u16::MAX }
    fn less_eq(self, other: Self) -> bool { self <= other }
    open spec fn spec_wrapping_dec(self) -> u16 { self.wrapping_sub(1) }
    proof fn lemma_wrapping_dec(x: Self) {}
    fn wrapping_dec(self) -> u16 { self.wrapping_sub(1) }
    fn succ(self) -> u16 { self + 1 }
    fn distance(self, other: Self) -> usize { (other - self) as usize }
}

impl Bounded for i16 {
    open spec fn spec_int(self) -> int { self as int }
    open spec fn spec_min() -> int { -0x8000 }
    open spec fn spec_max() -> int { 0x7fff }
    proof fn lemma_bounds(x: Self, y: Self) {}
    fn min_value() -> i16 { i16::MIN }
    fn max_value() -> i16 { i16::MAX }
    fn less_eq(self, other: Self) -> bool { self <= other }
    open spec fn spec_wrapping_dec(self) -> i16 { self.wrapping_sub(1) }
    proof fn lemma_wrapping_dec(x: Self) {}
    fn wrapping_dec(self) -> i16 { self.wrapping_sub(1) }
    fn succ(self) -> i16 { self + 1 }
    fn distance(self, other: Self) -> usize { (other as i32 - self as i32) as usize }
}

impl Bounded for u32 {
    open spec fn spec_int(self) -> int { self as int }
    open spec fn spec_min() -> int { 0 }
    open spec fn spec_max() -> int { 0xffff_ffff }
    proof fn lemma_bounds(x: Self, y: Self) {}
    fn min_value() -> u32 { u32::MIN }
    fn max_value() -> u32 { u32::MAX }
    fn less_eq(self, other: Self) -> bool { self <= other }
    open spec fn spec_wrapping_dec(self) -> u32 { self.wrapping_sub(1) }
    proof fn lemma_wrapping_dec(x: Self) {}
    fn wrapping_dec(self) -> u32 { self.wrapping_sub(1) }
    fn succ(self) -> u32 { self + 1 }
    fn distance(self, other: Self) -> usize { (other - self) as usize }
}

impl Bounded for i32 {
    open spec fn spec_int(self) -> int { self as int }
    open spec fn spec_min() -> int { -0x8000_0000 }
    open spec fn spec_max() -> int { 0x7fff_ffff }
    proof fn lemma_bounds(x: Self, y: Self) {}
    fn min_value() -> i32 { i32::MIN }
    fn max_value() -> i32 { i32::MAX }
    fn less_eq(self, other: Self) -> bool { self <= other }
    open spec fn spec_wrapping_dec(self) -> i32 { self.wrapping_sub(1) }
    proof fn lemma_wrapping_dec(x: Self) {}
    fn wrapping_dec(self) -> i32 { self.wrapping_sub(1) }
    fn succ(self) -> i32 { self + 1 }
    fn distance(self, other: Self) -> usize { (other as i64 - self as i64) as usize }
}

impl Bounded for u64 {
    open spec fn spec_int(self) -> int { self as int }
    open spec fn spec_min() -> int { 0 }
    open spec fn spec_max() -> int { 0xffff_ffff_ffff_ffff }
    proof fn lemma_bounds(x: Self, y: Self) {}
    fn min_value() -> u64 { u64::MIN }
    fn max_value() -> u64 { u64::MAX }
    fn less_eq(self, other: Self) -> bool { self <= other }
    open spec fn spec_wrapping_dec(self) -> u64 { self.wrapping_sub(1) }
    proof fn lemma_wrapping_dec(x: Self) {}
    fn wrapping_dec(self) -> u64 { self.wrapping_sub(1) }
    fn succ(self) -> u64 { self + 1 }
    fn distance(self, other: Self) -> usize { (other - self) as usize }
}

impl Bounded for i64 {
    open spec fn spec_int(self) -> int { self as int }
    open spec fn spec_min() -> int { -0x8000_0000_0000_0000 }
    open spec fn spec_max() -> int { 0x7fff_ffff_ffff_ffff }
    proof fn lemma_bounds(x: Self, y: Self) {}
    fn min_value() -> i64 { i64::MIN }
    fn max_value() -> i64 { i64::MAX }
    fn less_eq(self, other: Self) -> bool { self <= other }
    open spec fn spec_wrapping_dec(self) -> i64 { self.wrapping_sub(1) }
    proof fn lemma_wrapping_dec(x: Self) {}
    fn wrapping_dec(self) -> i64 { self.wrapping_sub(1) }
    fn succ(self) -> i64 { self + 1 }
    fn distance(self, other: Self) -> usize { (other as i128 - self as i128) as usize }
}

impl Bounded for usize {
    open spec fn spec_int(self) -> int { self as int }
    open spec fn spec_min() -> int { 0 }
    open spec fn spec_max() -> int { usize::MAX as int }
    proof fn lemma_bounds(x: Self, y: Self) {}
    fn min_value() -> usize { usize::MIN }
    fn max_value() -> usize { usize::MAX }
    fn less_eq(self, other: Self) -> bool { self <= other }
    open spec fn spec_wrapping_dec(self) -> usize { self.wrapping_sub(1) }
    proof fn lemma_wrapping_dec(x: Self) {}
    fn wrapping_dec(self) -> usize { self.wrapping_sub(1) }
    fn succ(self) -> usize { self + 1 }
    fn distance(self, other: Self) -> usize { other - self }
}

impl Bounded for isize {
    open spec fn spec_int(self) -> int { self as int }
    open spec fn spec_min() -> int { isize::MIN as int }
    open spec fn spec_max() -> int { isize::MAX as int }
    proof fn lemma_bounds(x: Self, y: Self) {}
    fn min_value() -> isize { isize::MIN }
    fn max_value() -> isize { isize::MAX }
    fn less_eq(self, other: Self) -> bool { self <= other }
    open spec fn spec_wrapping_dec(self) -> isize { self.wrapping_sub(1) }
    proof fn lemma_wrapping_dec(x: Self) {}
    fn wrapping_dec(self) -> isize { self.wrapping_sub(1) }
    fn succ(self) -> isize { self + 1 }
    fn distance(self, other: Self) -> usize { (other as i128 - self as i128) as usize }
}

/// Number of values of the wrapping range from `s` to `e` inclusive.
pub open spec fn wrap_count(s: int, e: int, min: int, max: int) -> int {
    if s <= e {
        e - s + 1
    } else {
        (max - s + 1) + (e - min + 1)
    }
}

/// The `i`-th value of the wrapping range from `s` to `e` inclusive: up from
/// `s`, past the maximum on to the minimum.
pub open spec fn wrap_nth(s: int, e: int, min: int, max: int, i: int) -> int {
    if s <= e || i <= max - s {
        s + i
    } else {
        min + (i - (max - s + 1))
    }
}

/// Whether `v` lists the wrapping range from `s` to `e` inclusive.
pub open spec fn lists_range<I: Bounded>(v: Seq<I>, s: I, e: I) -> bool {
    &&& v.len() == wrap_count(s.spec_int(), e.spec_int(), I::spec_min(), I::spec_max())
    &&& forall|i: int|
        0 <= i < v.len() ==> (#[trigger] v[i]).spec_int() == wrap_nth(
            s.spec_int(),
            e.spec_int(),
            I::spec_min(),
            I::spec_max(),
            i,
        )
}

/// A listing of a wrapping range is determined by its bounds, repeats no
/// value, and keeps within the bounds: each value is at least the lower
/// bound or at most the upper one. The listing of the whole type, from its
/// minimum to its maximum, holds every value.
pub proof fn law_listing<I: Bounded>(v: Seq<I>, w: Seq<I>, s: I, e: I, x: I)
    requires
        lists_range(v, s, e),
    ensures
        lists_range(w, s, e) ==> v == w,
        forall|i: int, j: int| 0 <= i < j < v.len() ==> v[i] != v[j],
        forall|i: int|
            0 <= i < v.len() ==> s.spec_int() <= (#[trigger] v[i]).spec_int() || v[i].spec_int()
                <= e.spec_int(),
        s.spec_int() == I::spec_min() && e.spec_int() == I::spec_max() ==> exists|i: int|
            0 <= i < v.len() && v[i] == x,
{
    I::lemma_bounds(s, e);
    I::lemma_bounds(e, s);
    if lists_range(w, s, e) {
        assert forall|i: int| 0 <= i < v.len() implies v[i] == w[i] by {
            I::lemma_bounds(v[i], w[i]);
        }
        assert(v =~= w);
    }
    assert forall|i: int, j: int| 0 <= i < j < v.len() implies v[i] != v[j] by {
        let a = v[i].spec_int();
        let b = v[j].spec_int();
        assert(a != b);
    }
    assert forall|i: int|
        0 <= i < v.len() implies s.spec_int() <= (#[trigger] v[i]).spec_int() || v[i].spec_int()
        <= e.spec_int() by {}
    if s.spec_int() == I::spec_min() && e.spec_int() == I::spec_max() {
        I::lemma_bounds(x, s);
        let i = x.spec_int() - I::spec_min();
        I::lemma_bounds(v[i], x);
        assert(v[i] == x);
    }
}

/// Bounds of an inclusive range.
///
/// Trusted: `RangeInclusive::into_inner`, documented to return the pair
/// `(start, end)` the range was built from; once the range has been iterated
/// to exhaustion what it returns is unspecified, and nothing is stated.
#[verifier::external_body]
pub(crate) fn bounds_of<I>(r: RangeInclusive<I>) -> (b: (I, I))
    ensures
        !r@.exhausted ==> b.0 == r@.start && b.1 == r@.end,
{
    r.into_inner()
}

/// A wrapping range bounded (inclusively) below and above.
#[derive(Clone, Copy, Debug)]
pub struct Wrange<I: Bounded> {
    /// The lower bound of the range (inclusive).
    pub start: I,
    /// The upper bound of the range (inclusive).
    pub end: I,
}

impl<I: Bounded> Wrange<I> {
    /// The range from `start` up to the maximum.
    pub fn from_start(start: I) -> (r: Self)
        ensures
            r.start == start,
            r.end.spec_int() == I::spec_max(),
    {
        Wrange { start, end: I::max_value() }
    }

    /// The whole type, from the minimum to the maximum.
    pub fn full() -> (r: Self)
        ensures
            r.start.spec_int() == I::spec_min(),
            r.end.spec_int() == I::spec_max(),
    {
        Wrange { start: I::min_value(), end: I::max_value() }
    }

    /// The range from the minimum up to, but excluding, `end`; wraps about
    /// to the maximum when `end` is the minimum.
    pub fn upto(end: I) -> (r: Self)
        ensures
            r.start.spec_int() == I::spec_min(),
            r.end.spec_int() == if end.spec_int() == I::spec_min() {
                I::spec_max()
            } else {
                end.spec_int() - 1
            },
    {
        Wrange { start: I::min_value(), end: end.wrapping_dec() }
    }

    /// The range from the minimum up to `end` inclusive.
    pub fn upto_inclusive(end: I) -> (r: Self)
        ensures
            r.start.spec_int() == I::spec_min(),
            r.end == end,
    {
        Wrange { start: I::min_value(), end }
    }

    /// Number of values in the range, which must fit in a `usize`.
    pub fn count(&self) -> (r: usize)
        requires
            wrap_count(self.start.spec_int(), self.end.spec_int(), I::spec_min(), I::spec_max())
                <= usize::MAX,
        ensures
            r == wrap_count(self.start.spec_int(), self.end.spec_int(), I::spec_min(), I::spec_max()),
    {
        proof {
            I::lemma_bounds(self.start, self.end);
            I::lemma_bounds(self.end, self.start);
        }
        let min = I::min_value();
        let max = I::max_value();
        if self.start.less_eq(self.end) {
            self.start.distance(self.end) + 1
        } else {
            proof {
                I::lemma_bounds(min, max);
            }
            self.start.distance(max) + 1 + min.distance(self.end) + 1
        }
    }

    /// Lists the values of the range in iteration order: up from the lower
    /// bound, past the maximum on to the minimum when the range wraps, and up
    /// to the upper bound. The number of values must fit in a `usize`.
    pub fn to_vec(self) -> (r: Vec<I>)
        requires
            wrap_count(self.start.spec_int(), self.end.spec_int(), I::spec_min(), I::spec_max())
                <= usize::MAX,
        ensures
            lists_range(r@, self.start, self.end),
    {
        let Wrange { start, end } = self;
        let min = I::min_value();
        let max = I::max_value();
        proof {
            I::lemma_bounds(start, end);
            I::lemma_bounds(end, start);
            I::lemma_bounds(min, max);
        }
        let mut out: Vec<I> = Vec::new();
        let ghost s = start.spec_int();
        let ghost e = end.spec_int();
        let ghost lo = I::spec_min();
        let ghost hi = I::spec_max();
        if start.less_eq(end) {
            push_span(&mut out, start, end);
            assert forall|i: int| 0 <= i < out@.len() implies (#[trigger] out@[i]).spec_int() == wrap_nth(s, e, lo, hi, i) by {}
        } else {
            push_span(&mut out, start, max);
            let ghost first = out@;
            push_span(&mut out, min, end);
            assert forall|i: int| 0 <= i < out@.len() implies (#[trigger] out@[i]).spec_int() == wrap_nth(s, e, lo, hi, i) by {
                if i < first.len() {
                    assert(out@[i] == first[i]);
                }
            }
        }
        out
    }
}

/// Appends the values from `lo` up to `hi` inclusive.
fn push_span<I: Bounded>(out: &mut Vec<I>, lo: I, hi: I)
    requires
        lo.spec_int() <= hi.spec_int(),
    ensures
        final(out)@.len() == old(out)@.len() + (hi.spec_int() - lo.spec_int() + 1),
        forall|i: int| 0 <= i < old(out)@.len() ==> final(out)@[i] == old(out)@[i],
        forall|i: int|
            old(out)@.len() <= i < final(out)@.len() ==> (#[trigger] final(out)@[i]).spec_int() == lo.spec_int() + (i - old(out)@.len()),
{
    let ghost base = out@;
    let mut cur = lo;
    proof {
        I::lemma_bounds(lo, hi);
        I::lemma_bounds(hi, lo);
    }
    loop
        invariant_except_break
            lo.spec_int() <= cur.spec_int() <= hi.spec_int(),
            out@.len() == base.len() + (cur.spec_int() - lo.spec_int()),
        invariant
            I::spec_min() <= lo.spec_int(),
            hi.spec_int() <= I::spec_max(),
            forall|i: int| 0 <= i < base.len() ==> out@[i] == base[i],
            forall|i: int|
                base.len() <= i < out@.len() ==> (#[trigger] out@[i]).spec_int() == lo.spec_int() + (i - base.len()),
        ensures
            out@.len() == base.len() + (hi.spec_int() - lo.spec_int() + 1),
        decreases hi.spec_int() - cur.spec_int(),
    {
        out.push(cur);
        if cur.less_eq(hi) && !hi.less_eq(cur) {
            cur = cur.succ();
        } else {
            break;
        }
    }
}

impl<I: Bounded> From<Range<I>> for Wrange<I> {
    fn from(range: Range<I>) -> (r: Self) {
        Wrange { start: range.start, end: range.end.wrapping_dec() }
    }
}

impl<I: Bounded> vstd::std_specs::convert::FromSpecImpl<Range<I>> for Wrange<I> {
    open spec fn obeys_from_spec() -> bool {
        true
    }

    open spec fn from_spec(range: Range<I>) -> Self {
        Wrange { start: range.start, end: range.end.spec_wrapping_dec() }
    }
}

impl<I: Bounded> vstd::std_specs::convert::FromSpecImpl<RangeInclusive<I>> for Wrange<I> {
    /// A range iterated to exhaustion has unspecified bounds, so no range is
    /// named for every input; `from` states the bounds of a range that has
    /// not been.
    open spec fn obeys_from_spec() -> bool {
        false
    }

    open spec fn from_spec(range: RangeInclusive<I>) -> Self {
        Wrange { start: range@.start, end: range@.end }
    }
}

impl<I: Bounded> From<RangeInclusive<I>> for Wrange<I> {
    fn from(range: RangeInclusive<I>) -> (r: Self)
        ensures
            !range@.exhausted ==> r.start == range@.start && r.end == range@.end,
    {
        let (start, end) = bounds_of(range);
        Wrange { start, end }
    }
}

impl<I: Bounded> Wrange<I> {
    /// The range `start..end`: up to, but excluding, `end`.
    pub fn exclusive(start: I, end: I) -> (r: Self)
        ensures
            r.start == start,
            r.end.spec_int() == if end.spec_int() == I::spec_min() {
                I::spec_max()
            } else {
                end.spec_int() - 1
            },
    {
        Wrange { start, end: end.wrapping_dec() }
    }

    /// The range `start..=end`.
    pub fn inclusive(start: I, end: I) -> (r: Self)
        ensures
            r.start == start,
            r.end == end,
    {
        Wrange { start, end }
    }
}

} // verus!
