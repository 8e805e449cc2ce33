//! Breakpoint table: breakpoints by address, in the order their addresses were
//! first used, held in an `IndexMap`.

use indexmap::IndexMap;
use std::hash::RandomState;
use vstd::prelude::*;

verus! {

/// An insertion-ordered hash map.
#[verifier::external_type_specification]
#[verifier::external_body]
#[verifier::reject_recursive_types(K)]
#[verifier::reject_recursive_types(V)]
#[verifier::reject_recursive_types(S)]
pub struct ExIndexMap<K, V, S>(indexmap::IndexMap<K, V, S>);

/// Debugging breakpoint metadata.
#[derive(Clone, Copy, Debug, PartialEq, Eq, Structural)]
pub struct Breakpoint {
    /// Whether the breakpoint is disabled.
    pub disable: bool,
    /// How many more crossings of the breakpoint are ignored.
    pub ignore: usize,
}

/// A table of breakpoints by address. An address keeps the place it was
/// first given, also once its breakpoint is deleted (`None`).
pub type Table = IndexMap<u16, Option<Breakpoint>, RandomState>;

/// The entries of a table, in order.
pub uninterp spec fn entries(t: Table) -> Seq<(u16, Option<Breakpoint>)>;

/// Where the entry of `addr` stands among `s`, searching from the `i`th.
pub open spec fn place(s: Seq<(u16, Option<Breakpoint>)>, addr: u16, i: nat) -> Option<nat>
    decreases s.len() - i,
{
    if i >= s.len() {
        None
    } else if s[i as int].0 == addr {
        Some(i)
    } else {
        place(s, addr, i + 1)
    }
}

/// Whether no two entries of `s` have one address.
pub open spec fn distinct(s: Seq<(u16, Option<Breakpoint>)>) -> bool {
    forall|i: int, j: int| 0 <= i < j < s.len() ==> s[i].0 != s[j].0
}

/// The value at `addr` in `s`, if it has an entry.
pub open spec fn value_at(s: Seq<(u16, Option<Breakpoint>)>, addr: u16) -> Option<Option<Breakpoint>> {
    match place(s, addr, 0) {
        Some(i) => Some(s[i as int].1),
        None => None,
    }
}

/// `s` after `addr` is given `value`: in its place if it has one, else last.
pub open spec fn put(s: Seq<(u16, Option<Breakpoint>)>, addr: u16, value: Option<Breakpoint>) -> Seq<
    (u16, Option<Breakpoint>),
> {
    match place(s, addr, 0) {
        Some(i) => s.update(i as int, (addr, value)),
        None => s.push((addr, value)),
    }
}

/// An empty table.
///
/// Trusted: `IndexMap::new`, documented to create an empty map.
#[verifier::external_body]
pub(crate) fn table_new() -> (r: Table)
    ensures
        entries(r) == Seq::<(u16, Option<Breakpoint>)>::empty(),
{
    IndexMap::new()
}

/// Number of entries.
///
/// Trusted: `IndexMap::len`, documented to give the number of key-value
/// pairs.
#[verifier::external_body]
pub(crate) fn table_len(t: &Table) -> (r: usize)
    ensures
        r == entries(*t).len(),
{
    t.len()
}

/// The value at `addr`, if it has an entry.
///
/// Trusted: `IndexMap::get`, which the source of `indexmap` shows to look up
/// the entry of an equal key and give its value; the value is copied out.
#[verifier::external_body]
pub(crate) fn table_get(t: &Table, addr: u16) -> (r: Option<Option<Breakpoint>>)
    requires
        distinct(entries(*t)),
    ensures
        r == value_at(entries(*t), addr),
{
    t.get(&addr).copied()
}

/// The entry at place `index`, if there is one.
///
/// Trusted: `IndexMap::get_index`, documented to give the key-value pair at
/// a place below the length, and `None` elsewhere; the pair is copied out.
#[verifier::external_body]
pub(crate) fn table_get_index(t: &Table, index: usize) -> (r: Option<(u16, Option<Breakpoint>)>)
    ensures
        r == if index < entries(*t).len() {
            Some(entries(*t)[index as int])
        } else {
            None::<(u16, Option<Breakpoint>)>
        },
{
    t.get_index(index).map(|(k, v)| (*k, *v))
}

/// Gives `addr` the value `value`, and tells its place.
///
/// Trusted: `IndexMap::insert_full`, documented to update the value of an
/// equal key in its place, or else to insert the pair last; it gives the
/// place, and the old value of the key if it had one.
#[verifier::external_body]
pub(crate) fn table_insert(t: &mut Table, addr: u16, value: Option<Breakpoint>) -> (r: (
    usize,
    Option<Option<Breakpoint>>,
))
    requires
        distinct(entries(*old(t))),
    ensures
        entries(*final(t)) == put(entries(*old(t)), addr, value),
        r.0 == match place(entries(*old(t)), addr, 0) {
            Some(i) => i,
            None => entries(*old(t)).len(),
        },
        r.1 == value_at(entries(*old(t)), addr),
{
    t.insert_full(addr, value)
}

/// The place found searching from the `i`th entry holds `addr`, and no entry
/// between holds it.
pub proof fn lemma_place(s: Seq<(u16, Option<Breakpoint>)>, addr: u16, i: nat)
    ensures
        place(s, addr, i) matches Some(p) ==> i <= p < s.len() && s[p as int].0 == addr,
        place(s, addr, i) is None ==> forall|k: int| i <= k < s.len() ==> s[k].0 != addr,
        forall|k: int| i <= k < s.len() && s[k].0 == addr ==> place(s, addr, i) is Some,
    decreases s.len() - i,
{
    if i < s.len() {
        lemma_place(s, addr, i + 1);
    }
}

/// Giving an address a value keeps the addresses distinct, and what is then
/// at that address is the value; every other address keeps its value and
/// its place.
pub proof fn law_put(s: Seq<(u16, Option<Breakpoint>)>, addr: u16, value: Option<Breakpoint>, other: u16)
    requires
        distinct(s),
    ensures
        distinct(put(s, addr, value)),
        value_at(put(s, addr, value), addr) == Some(value),
        other != addr ==> value_at(put(s, addr, value), other) == value_at(s, other),
        other != addr ==> place(put(s, addr, value), other, 0) == place(s, other, 0),
{
    let t = put(s, addr, value);
    lemma_place(s, addr, 0);
    lemma_place(s, other, 0);
    lemma_place_unique(s, addr);
    lemma_place_unique(s, other);
    match place(s, addr, 0) {
        Some(i) => {
            assert forall|k: int| 0 <= k < t.len() implies t[k].0 == s[k].0 by {}
            lemma_place_keys(s, t, addr, 0);
            lemma_place_keys(s, t, other, 0);
            if other != addr {
                if let Some(j) = place(s, other, 0) {
                    assert(s[j as int].0 == other);
                    assert(j != i);
                    assert(t[j as int] == s[j as int]);
                }
            }
        },
        None => {
            assert(distinct(t));
            lemma_place_unique(t, addr);
            lemma_place_unique(t, other);
            lemma_place(t, other, 0);
            assert(t[s.len() as int].0 == addr);
            if other != addr {
                match place(s, other, 0) {
                    Some(j) => {
                        assert(t[j as int] == s[j as int]);
                        assert(place(t, other, 0) == Some(j));
                    },
                    None => {
                        assert forall|k: int| 0 <= k < t.len() implies t[k].0 != other by {
                            if k < s.len() {
                                assert(t[k] == s[k]);
                            }
                        }
                        assert(place(t, other, 0) is None);
                    },
                }
            }
        },
    }
}

/// Entries with the same addresses in the same places give each address the
/// same place.
proof fn lemma_place_keys(s: Seq<(u16, Option<Breakpoint>)>, t: Seq<(u16, Option<Breakpoint>)>, addr: u16, i: nat)
    requires
        s.len() == t.len(),
        forall|k: int| 0 <= k < s.len() ==> s[k].0 == t[k].0,
    ensures
        place(s, addr, i) == place(t, addr, i),
    decreases s.len() - i,
{
    if i < s.len() {
        lemma_place_keys(s, t, addr, i + 1);
    }
}

/// In distinct entries, the place of an address is the one entry holding it.
pub proof fn lemma_place_unique(s: Seq<(u16, Option<Breakpoint>)>, addr: u16)
    ensures
        distinct(s) ==> forall|k: int| 0 <= k < s.len() && s[k].0 == addr ==> place(s, addr, 0) == Some(k as nat),
{
    lemma_place(s, addr, 0);
}

} // verus!
