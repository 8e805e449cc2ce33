//! Wrapping range iteration.
//!
//! A [`Derange`] is bounded inclusively below and above; when the lower bound
//! is above the upper bound the range wraps about the type's maximum and
//! minimum values. It iterates exactly as a [`Wrange`] with the same bounds.

use core::ops::{Range, RangeInclusive};
use vstd::prelude::*;

use crate::wrange::{lists_range, wrap_count, Bounded, Wrange};

verus! {

/// A wrapping range bounded (inclusively) below and above.
#[derive(Clone, Copy, Debug)]
pub struct Derange<I: Bounded> {
    /// The lower bound of the range (inclusive).
    pub start: I,
    /// The upper bound of the range (inclusive).
    pub end: I,
}

impl<I: Bounded> Derange<I> {
    /// The range from `start` up to the maximum.
    pub fn from_start(start: I) -> (r: Self)
        ensures
            r.start == start,
            r.end.spec_int() == I::spec_max(),
    {
        Derange { start, end: I::max_value() }
    }

    /// The whole type, from the minimum to the maximum.
    pub fn full() -> (r: Self)
        ensures
            r.start.spec_int() == I::spec_min(),
            r.end.spec_int() == I::spec_max(),
    {
        Derange { start: I::min_value(), end: I::max_value() }
    }

    /// The range from the minimum up to, but excluding, `end`; wraps about
    /// to the maximum when `end` is the minimum.
    pub fn upto(end: I) -> (r: Self)
        ensures
            r.start.spec_int() == I::spec_min(),
            r.end == end.spec_wrapping_dec(),
    {
        Derange { start: I::min_value(), end: end.wrapping_dec() }
    }

    /// The range from the minimum up to `end` inclusive.
    pub fn upto_inclusive(end: I) -> (r: Self)
        ensures
            r.start.spec_int() == I::spec_min(),
            r.end == end,
    {
        Derange { start: I::min_value(), end }
    }

    /// Number of values in the range, which must fit in a `usize`.
    pub fn count(&self) -> (r: usize)
        requires
            wrap_count(self.start.spec_int(), self.end.spec_int(), I::spec_min(), I::spec_max())
                <= usize::MAX,
        ensures
            r == wrap_count(self.start.spec_int(), self.end.spec_int(), I::spec_min(), I::spec_max()),
    {
        Wrange { start: self.start, end: self.end }.count()
    }

    /// Lists the values of the range in iteration order. The number of values
    /// must fit in a `usize`.
    pub fn to_vec(self) -> (r: Vec<I>)
        requires
            wrap_count(self.start.spec_int(), self.end.spec_int(), I::spec_min(), I::spec_max())
                <= usize::MAX,
        ensures
            lists_range(r@, self.start, self.end),
    {
        Wrange { start: self.start, end: self.end }.to_vec()
    }
}

impl<I: Bounded> From<Range<I>> for Derange<I> {
    fn from(range: Range<I>) -> (r: Self) {
        Derange { start: range.start, end: range.end.wrapping_dec() }
    }
}

impl<I: Bounded> vstd::std_specs::convert::FromSpecImpl<Range<I>> for Derange<I> {
    open spec fn obeys_from_spec() -> bool {
        true
    }

    open spec fn from_spec(range: Range<I>) -> Self {
        Derange { start: range.start, end: range.end.spec_wrapping_dec() }
    }
}

impl<I: Bounded> From<RangeInclusive<I>> for Derange<I> {
    fn from(range: RangeInclusive<I>) -> (r: Self)
        ensures
            !range@.exhausted ==> r.start == range@.start && r.end == range@.end,
    {
        let w = Wrange::from(range);
        Derange { start: w.start, end: w.end }
    }
}

impl<I: Bounded> vstd::std_specs::convert::FromSpecImpl<RangeInclusive<I>> for Derange<I> {
    /// A range iterated to exhaustion has unspecified bounds, so no range is
    /// named for every input; `from` states the bounds of a range that has
    /// not been.
    open spec fn obeys_from_spec() -> bool {
        false
    }

    open spec fn from_spec(range: RangeInclusive<I>) -> Self {
        Derange { start: range@.start, end: range@.end }
    }
}

} // verus!
