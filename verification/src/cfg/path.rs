//! File system paths held by the configuration.

use std::path::PathBuf;
use vstd::prelude::*;

verus! {

/// An owned file system path.
#[verifier::external_type_specification]
#[verifier::external_body]
pub struct ExPathBuf(std::path::PathBuf);

/// Whether `r` is `path` with its extension replaced by `ext`, or with `ext`
/// added where it has none, as `Path::with_extension` makes it on this
/// platform. This relates a call's arguments to its result; it does not claim
/// that the platform splits paths in any particular way.
pub uninterp spec fn extended(path: PathBuf, ext: Seq<char>, r: PathBuf) -> bool;

/// `path` with its extension replaced by `ext`, or added when it has none.
///
/// Trusted: `Path::with_extension`, which panics when the extension holds a
/// path separator; the extension here holds neither `/` nor `\\`. How it
/// splits a path into its parts depends on the platform's path separators,
/// so the result is only related to its arguments by [`extended`].
#[verifier::external_body]
pub(crate) fn with_extension(path: &PathBuf, ext: &str) -> (r: PathBuf)
    requires
        forall|i: int| 0 <= i < ext@.len() ==> ext@[i] != '/' && ext@[i] != '\\',
    ensures
        extended(*path, ext@, r),
{
    path.with_extension(ext)
}

/// `left` with `right` merged onto it: `right`, if it holds a value.
pub open spec fn over<T>(left: Option<T>, right: Option<T>) -> Option<T> {
    if right is Some {
        right
    } else {
        left
    }
}

/// The number merged onto `left` from `right`: `right`, unless it is zero.
pub open spec fn over_number(left: u32, right: u32) -> u32 {
    if right != 0 {
        right
    } else {
        left
    }
}

/// Merging layers: merging nothing onto a value keeps it, merging a value
/// onto nothing gives the value, and merging in layers gives what merging
/// the layers together first gives, for options, numbers and flags alike.
pub proof fn law_merge_layers<T>(a: Option<T>, b: Option<T>, c: Option<T>, x: u32, y: u32, z: u32, p: bool, q: bool, r: bool)
    ensures
        over(a, None) == a,
        over(None, a) == a,
        over(over(a, b), c) == over(a, over(b, c)),
        over_number(x, 0) == x,
        over_number(0, x) == x,
        over_number(over_number(x, y), z) == over_number(x, over_number(y, z)),
        (p || false) == p,
        (false || p) == p,
        ((p || q) || r) == (p || (q || r)),
{
}

/// Merges `right` onto `left`: `right` replaces `left` if it holds a value.
pub fn merge_option<T>(left: &mut Option<T>, right: Option<T>)
    ensures
        *final(left) == over(*old(left), right),
{
    if right.is_some() {
        *left = right;
    }
}

/// Merges `right` onto `left`: `right` replaces `left` unless it is zero.
pub fn merge_number(left: &mut u32, right: u32)
    ensures
        *final(left) == over_number(*old(left), right),
{
    if right != 0 {
        *left = right;
    }
}

/// Merges `right` onto `left`: a set flag sets `left`.
pub fn merge_flag(left: &mut bool, right: bool)
    ensures
        *final(left) == (*old(left) || right),
{
    if right {
        *left = true;
    }
}

} // verus!
