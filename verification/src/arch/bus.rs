//! Address bus and the devices that can be mapped onto it.
//!
//! A [`Bus`] maps [`Device`]s to ranges of the address space. An access is
//! offered to the mappings whose range covers the address, narrowest range
//! first and, among ranges of one width, in the order they were mapped; it is
//! served by the first device that accepts it, at the address's offset from
//! the start of the range. Since a bus is itself a device, buses nest.

use core::ops::RangeInclusive;
use std::cell::RefCell;
use std::rc::Rc;
use vstd::prelude::*;

use super::mem::{cells_read, cells_write, Error, Memory, Ram, Rom};
use crate::wrange::bounds_of;

verus! {

/// A mutable memory location, here only allocated for its identity.
#[verifier::external_type_specification]
#[verifier::external_body]
#[verifier::reject_recursive_types(T)]
pub struct ExRefCell<T: ?Sized>(std::cell::RefCell<T>);

/// The identity of a device: a handle to an allocation of its own. Handles
/// are equal exactly when one is a copy of the other, that is when they point
/// to one allocation.
pub type Token = Rc<RefCell<()>>;

/// A handle to a new allocation, the identity of a new device.
///
/// Trusted: `Rc::new` and `RefCell::new`, which allocate; nothing is stated
/// of the handle.
#[verifier::external_body]
fn fresh_token() -> Token {
    Rc::new(RefCell::new(()))
}

/// Another handle to the allocation of `token`.
///
/// Trusted: `Rc::clone`, documented to make another pointer to the same
/// allocation; handles to one allocation are equal.
#[verifier::external_body]
fn copy_token(token: &Token) -> (r: Token)
    ensures
        r == *token,
{
    Rc::clone(token)
}

/// Whether two handles point to one allocation.
///
/// Trusted: `Rc::ptr_eq`, documented to tell whether two `Rc`s point to the
/// same allocation, which is when the handles are equal.
#[verifier::external_body]
fn same_token(a: &Token, b: &Token) -> (r: bool)
    ensures
        r == (*a == *b),
{
    Rc::ptr_eq(a, b)
}

/// Model of a device: what its accesses see.
pub enum Chip {
    /// Random-access bytes.
    Ram(Seq<u8>),
    /// Read-only bytes.
    Rom(Seq<u8>),
    /// A bus: its mappings in the order they are consulted.
    Bus(Seq<Slot>),
}

/// Model of a mapping: a device at an inclusive range of addresses.
pub struct Slot {
    /// First address of the range.
    pub base: u16,
    /// Last address of the range.
    pub last: u16,
    /// The identity of the mapped device.
    pub id: Token,
    /// The mapped device.
    pub chip: Chip,
}

/// Whether the range of `slot` holds `addr`.
pub open spec fn covers(slot: Slot, addr: u16) -> bool {
    slot.base <= addr <= slot.last
}

/// The width of a range, as its last address less its first.
pub open spec fn width(base: u16, last: u16) -> int {
    last - base
}

/// Offset of `addr` within `slot`.
pub open spec fn offset(slot: Slot, addr: u16) -> u16 {
    (addr - slot.base) as u16
}

/// What a read of `chip` at `addr` gives.
pub open spec fn chip_read(chip: Chip, addr: u16) -> Result<u8, Error>
    decreases chip, 0nat,
{
    match chip {
        Chip::Ram(cells) => cells_read(cells, addr),
        Chip::Rom(cells) => cells_read(cells, addr),
        Chip::Bus(slots) => slots_read(slots, 0, addr),
    }
}

/// What a read at `addr` gives of the mappings `slots` from the `i`th on:
/// the first of them that covers `addr` and whose device reads it.
pub open spec fn slots_read(slots: Seq<Slot>, i: nat, addr: u16) -> Result<u8, Error>
    decreases slots, slots.len() - i,
{
    if i >= slots.len() {
        Err(Error::Range)
    } else if covers(slots[i as int], addr) && chip_read(
        slots[i as int].chip,
        offset(slots[i as int], addr),
    ) is Ok {
        chip_read(slots[i as int].chip, offset(slots[i as int], addr))
    } else {
        slots_read(slots, i + 1, addr)
    }
}

/// `chip` after a write of `data` at `addr`, and what the write gives.
pub open spec fn chip_write(chip: Chip, addr: u16, data: u8) -> (Chip, Result<(), Error>)
    decreases chip, 0nat,
{
    match chip {
        Chip::Ram(cells) => (Chip::Ram(cells_write(cells, addr, data).0), cells_write(cells, addr, data).1),
        Chip::Rom(cells) => (
            chip,
            Err(
                if cells_read(cells, addr) is Ok {
                    Error::Misuse
                } else {
                    Error::Range
                },
            ),
        ),
        Chip::Bus(slots) => (
            Chip::Bus(slots_write(slots, 0, addr, data).0),
            slots_write(slots, 0, addr, data).1,
        ),
    }
}

/// The mappings `slots` after a write of `data` at `addr`, offered to them
/// from the `i`th on, and what the write gives: the first of them that covers
/// `addr` and whose device accepts the write takes it.
pub open spec fn slots_write(slots: Seq<Slot>, i: nat, addr: u16, data: u8) -> (
    Seq<Slot>,
    Result<(), Error>,
)
    decreases slots, slots.len() - i,
{
    if i >= slots.len() {
        (slots, Err(Error::Range))
    } else if covers(slots[i as int], addr) && chip_write(
        slots[i as int].chip,
        offset(slots[i as int], addr),
        data,
    ).1 is Ok {
        (
            slots.update(
                i as int,
                Slot {
                    chip: chip_write(slots[i as int].chip, offset(slots[i as int], addr), data).0,
                    ..slots[i as int]
                },
            ),
            Ok(()),
        )
    } else {
        slots_write(slots, i + 1, addr, data)
    }
}

/// Whether the widths of the mappings `slots` never decrease.
pub open spec fn sorted(slots: Seq<Slot>) -> bool {
    forall|i: int, j: int|
        0 <= i < j < slots.len() ==> width(slots[i].base, slots[i].last) <= width(
            slots[j].base,
            slots[j].last,
        )
}

/// Where a mapping of width `w` goes among `slots`, searching from the `i`th:
/// after every mapping of at most its width.
pub open spec fn rank(slots: Seq<Slot>, i: nat, w: int) -> nat
    decreases slots.len() - i,
{
    if i < slots.len() && width(slots[i as int].base, slots[i as int].last) <= w {
        rank(slots, i + 1, w)
    } else {
        i
    }
}

/// `slots` with `slot` mapped: placed after every mapping of at most its
/// width, and before the wider ones.
pub open spec fn insert_slot(slots: Seq<Slot>, slot: Slot) -> Seq<Slot> {
    slots.insert(rank(slots, 0, width(slot.base, slot.last)) as int, slot)
}

/// The mappings before the rank of a width are at most that wide; the one at
/// the rank, if any, is wider.
proof fn lemma_rank(slots: Seq<Slot>, i: nat, w: int)
    requires
        i <= slots.len(),
    ensures
        i <= rank(slots, i, w) <= slots.len(),
        forall|k: int|
            i <= k < rank(slots, i, w) ==> width(slots[k].base, slots[k].last) <= w,
        rank(slots, i, w) < slots.len() ==> width(
            slots[rank(slots, i, w) as int].base,
            slots[rank(slots, i, w) as int].last,
        ) > w,
    decreases slots.len() - i,
{
    if i < slots.len() && width(slots[i as int].base, slots[i as int].last) <= w {
        lemma_rank(slots, i + 1, w);
    }
}

/// Mapping a device keeps the mappings ordered from the narrowest to the
/// widest.
pub proof fn law_map_keeps_order(slots: Seq<Slot>, slot: Slot)
    requires
        sorted(slots),
    ensures
        sorted(insert_slot(slots, slot)),
{
    let w = width(slot.base, slot.last);
    lemma_rank(slots, 0, w);
    let r = rank(slots, 0, w) as int;
    let t = insert_slot(slots, slot);
    assert forall|i: int, j: int| 0 <= i < j < t.len() implies width(t[i].base, t[i].last) <= width(
        t[j].base,
        t[j].last,
    ) by {
        if j < r {
        } else if j == r {
            assert(width(slots[i].base, slots[i].last) <= w);
        } else if i < r {
            assert(width(slots[i].base, slots[i].last) <= w);
            assert(width(slots[r].base, slots[r].last) > w);
            assert(width(slots[r].base, slots[r].last) <= width(slots[j - 1].base, slots[j - 1].last));
        } else if i == r {
            assert(width(slots[r].base, slots[r].last) > w);
            assert(width(slots[r].base, slots[r].last) <= width(slots[j - 1].base, slots[j - 1].last));
        } else {
        }
    }
}

/// `slots` without the mappings of the device with identity `id`.
pub open spec fn without(slots: Seq<Slot>, id: Token) -> Seq<Slot>
    decreases slots.len(),
{
    if slots.len() == 0 {
        slots
    } else if slots.last().id == id {
        without(slots.drop_last(), id)
    } else {
        without(slots.drop_last(), id).push(slots.last())
    }
}

/// Whether no read-only memory is reachable in `chip`.
pub open spec fn rom_free(chip: Chip) -> bool
    decreases chip, 0nat,
{
    match chip {
        Chip::Ram(_) => true,
        Chip::Rom(_) => false,
        Chip::Bus(slots) => slots_rom_free(slots, 0),
    }
}

/// Whether no read-only memory is reachable in the mappings `slots` from the
/// `i`th on.
pub open spec fn slots_rom_free(slots: Seq<Slot>, i: nat) -> bool
    decreases slots, slots.len() - i,
{
    if i >= slots.len() {
        true
    } else {
        rom_free(slots[i as int].chip) && slots_rom_free(slots, i + 1)
    }
}

/// A write keeps the number of mappings and their ranges, and the mappings
/// before the `i`th.
proof fn lemma_slots_write_shape(slots: Seq<Slot>, i: nat, addr: u16, data: u8)
    ensures
        slots_write(slots, i, addr, data).0.len() == slots.len(),
        forall|k: int|
            0 <= k < i && k < slots.len() ==> #[trigger] slots_write(slots, i, addr, data).0[k]
                == slots[k],
        forall|k: int|
            0 <= k < slots.len() ==> (#[trigger] slots_write(slots, i, addr, data).0[k]).base
                == slots[k].base && slots_write(slots, i, addr, data).0[k].last == slots[k].last,
    decreases slots.len() - i,
{
    if i < slots.len() {
        lemma_slots_write_shape(slots, i + 1, addr, data);
    }
}

/// A read from the `i`th mapping on looks at no mapping before it.
proof fn lemma_slots_read_suffix(s: Seq<Slot>, t: Seq<Slot>, i: nat, addr: u16)
    requires
        s.len() == t.len(),
        forall|k: int| i <= k < s.len() ==> s[k] == t[k],
    ensures
        slots_read(s, i, addr) == slots_read(t, i, addr),
    decreases s.len() - i,
{
    if i < s.len() {
        lemma_slots_read_suffix(s, t, i + 1, addr);
    }
}

/// In a device without read-only memory, a write at an address succeeds
/// exactly where a read there does.
pub proof fn law_rom_free_write_ok_iff_read_ok(chip: Chip, addr: u16, data: u8)
    requires
        rom_free(chip),
    ensures
        chip_write(chip, addr, data).1 is Ok <==> chip_read(chip, addr) is Ok,
    decreases chip, 0nat,
{
    if let Chip::Bus(slots) = chip {
        lemma_slots_write_ok_iff_read_ok(slots, 0, addr, data);
    }
}

/// Mappings without read-only memory accept a write at an address exactly
/// where they serve a read there.
proof fn lemma_slots_write_ok_iff_read_ok(slots: Seq<Slot>, i: nat, addr: u16, data: u8)
    requires
        slots_rom_free(slots, i),
    ensures
        slots_write(slots, i, addr, data).1 is Ok <==> slots_read(slots, i, addr) is Ok,
    decreases slots, slots.len() - i,
{
    if i < slots.len() {
        let slot = slots[i as int];
        assert(decreases_to!(slots => slots[i as int]));
        law_rom_free_write_ok_iff_read_ok(slot.chip, offset(slot, addr), data);
        lemma_slots_write_ok_iff_read_ok(slots, i + 1, addr, data);
    }
}

/// A write changes no read at another address.
pub proof fn law_write_keeps_other_addresses(chip: Chip, addr: u16, data: u8, other: u16)
    requires
        other != addr,
    ensures
        chip_read(chip_write(chip, addr, data).0, other) == chip_read(chip, other),
    decreases chip, 0nat,
{
    if let Chip::Bus(slots) = chip {
        lemma_slots_write_keeps_other(slots, 0, addr, data, other);
    }
}

/// A write to mappings changes no read at another address.
proof fn lemma_slots_write_keeps_other(slots: Seq<Slot>, i: nat, addr: u16, data: u8, other: u16)
    requires
        other != addr,
    ensures
        slots_read(slots_write(slots, i, addr, data).0, i, other) == slots_read(slots, i, other),
    decreases slots, slots.len() - i,
{
    if i < slots.len() {
        let slot = slots[i as int];
        let after = slots_write(slots, i, addr, data).0;
        lemma_slots_write_shape(slots, i, addr, data);
        lemma_slots_write_shape(slots, i + 1, addr, data);
        assert(decreases_to!(slots => slots[i as int]));
        if covers(slot, addr) && chip_write(slot.chip, offset(slot, addr), data).1 is Ok {
            if covers(slot, other) {
                law_write_keeps_other_addresses(slot.chip, offset(slot, addr), data, offset(slot, other));
            }
            lemma_slots_read_suffix(after, slots, i + 1, other);
        } else {
            lemma_slots_write_keeps_other(slots, i + 1, addr, data, other);
        }
    }
}

/// In a device without read-only memory, a read gives back what a
/// successful write there wrote.
pub proof fn law_rom_free_read_after_write(chip: Chip, addr: u16, data: u8)
    requires
        rom_free(chip),
        chip_write(chip, addr, data).1 is Ok,
    ensures
        chip_read(chip_write(chip, addr, data).0, addr) == Ok::<u8, Error>(data),
    decreases chip, 0nat,
{
    if let Chip::Bus(slots) = chip {
        lemma_slots_read_after_write(slots, 0, addr, data);
    }
}

/// Mappings without read-only memory give back, at an address, what a
/// successful write there wrote.
proof fn lemma_slots_read_after_write(slots: Seq<Slot>, i: nat, addr: u16, data: u8)
    requires
        slots_rom_free(slots, i),
        slots_write(slots, i, addr, data).1 is Ok,
    ensures
        slots_read(slots_write(slots, i, addr, data).0, i, addr) == Ok::<u8, Error>(data),
    decreases slots, slots.len() - i,
{
    if i < slots.len() {
        let slot = slots[i as int];
        lemma_slots_write_shape(slots, i, addr, data);
        lemma_slots_write_shape(slots, i + 1, addr, data);
        assert(decreases_to!(slots => slots[i as int]));
        law_rom_free_write_ok_iff_read_ok(slot.chip, offset(slot, addr), data);
        if covers(slot, addr) && chip_write(slot.chip, offset(slot, addr), data).1 is Ok {
            law_rom_free_read_after_write(slot.chip, offset(slot, addr), data);
        } else {
            lemma_slots_read_after_write(slots, i + 1, addr, data);
        }
    }
}

/// What remains after unmapping the device with identity `id` is mappings of `slots` other than
/// the device with identity `id`.
proof fn lemma_without_from(slots: Seq<Slot>, id: Token)
    ensures
        without(slots, id).len() <= slots.len(),
        forall|k: int|
            0 <= k < without(slots, id).len() ==> (#[trigger] without(slots, id)[k]).id != id
                && exists|m: int| 0 <= m < slots.len() && slots[m] == without(slots, id)[k],
    decreases slots.len(),
{
    if slots.len() > 0 {
        let rest = slots.drop_last();
        lemma_without_from(rest, id);
        let w = without(slots, id);
        assert forall|k: int| 0 <= k < w.len() implies (#[trigger] w[k]).id != id && exists|m: int|
            0 <= m < slots.len() && slots[m] == w[k] by {
            if k < without(rest, id).len() {
                let m = choose|m: int| 0 <= m < rest.len() && rest[m] == without(rest, id)[k];
                assert(slots[m] == w[k]);
            } else {
                assert(slots[slots.len() - 1] == w[k]);
            }
        }
    }
}

/// Unmapping a device removes every mapping of it, and keeps the others
/// ordered from the narrowest to the widest.
pub proof fn law_unmap_keeps_order(slots: Seq<Slot>, id: Token)
    requires
        sorted(slots),
    ensures
        sorted(without(slots, id)),
        forall|k: int| 0 <= k < without(slots, id).len() ==> (#[trigger] without(slots, id)[k]).id != id,
    decreases slots.len(),
{
    lemma_without_from(slots, id);
    if slots.len() > 0 {
        let rest = slots.drop_last();
        assert(sorted(rest));
        law_unmap_keeps_order(rest, id);
        lemma_without_from(rest, id);
        let w = without(slots, id);
        let v = without(rest, id);
        if slots.last().id != id {
            assert forall|i: int, j: int| 0 <= i < j < w.len() implies width(w[i].base, w[i].last) <= width(
                w[j].base,
                w[j].last,
            ) by {
                if j == w.len() - 1 {
                    let m = choose|m: int| 0 <= m < rest.len() && rest[m] == v[i];
                    assert(w[i] == slots[m]);
                }
            }
        }
    }
}

/// Unmapping a device that is not mapped leaves the mappings as they are.
pub proof fn law_unmap_absent(slots: Seq<Slot>, id: Token)
    requires
        forall|k: int| 0 <= k < slots.len() ==> (#[trigger] slots[k]).id != id,
    ensures
        without(slots, id) == slots,
    decreases slots.len(),
{
    if slots.len() > 0 {
        let rest = slots.drop_last();
        assert forall|k: int| 0 <= k < rest.len() implies (#[trigger] rest[k]).id != id by {
            assert(rest[k] == slots[k]);
        }
        law_unmap_absent(rest, id);
        assert(rest.push(slots.last()) =~= slots);
    }
}

/// A memory-mapped device, with an identity.
///
/// The identity is what [`Bus::unmap`] looks for: a clone keeps it, and
/// [`Device::dev`] allocates a new one (its contract states nothing of how it
/// compares with others). The contents are held by value: a clone copies them,
/// so a write through the bus is not seen through another handle.
#[derive(Debug)]
pub struct Device {
    id: Token,
    kind: Kind,
}

/// What a device is.
#[derive(Debug)]
enum Kind {
    /// Random-access memory.
    Ram(Ram<Vec<u8>>),
    /// Read-only memory.
    Rom(Rom<Vec<u8>>),
    /// A nested bus.
    Bus(Box<Bus>),
}

/// A device mapped to an inclusive range of addresses.
#[derive(Debug)]
struct Mapping {
    base: u16,
    last: u16,
    dev: Device,
}

/// Model of a device.
pub closed spec fn chip_of(dev: Device) -> Chip
    decreases dev, 0nat,
{
    match dev.kind {
        Kind::Ram(ram) => Chip::Ram(ram@),
        Kind::Rom(rom) => Chip::Rom(rom@),
        Kind::Bus(bus) => Chip::Bus(slots_of(bus.map@, 0)),
    }
}

/// Model of the mappings `map` from the `i`th on.
closed spec fn slots_of(map: Seq<Mapping>, i: nat) -> Seq<Slot>
    decreases map, map.len() - i,
{
    if i >= map.len() {
        Seq::empty()
    } else {
        seq![
            Slot {
                base: map[i as int].base,
                last: map[i as int].last,
                id: map[i as int].dev.id,
                chip: chip_of(map[i as int].dev),
            },
        ]
            + slots_of(map, i + 1)
    }
}

/// The model of the mappings from the `i`th on holds, in order, the model of
/// each of them.
proof fn lemma_slots_of(map: Seq<Mapping>, i: nat)
    requires
        i <= map.len(),
    ensures
        slots_of(map, i).len() == map.len() - i,
        forall|k: int|
            #![trigger slots_of(map, i)[k]]
            0 <= k < map.len() - i ==> slots_of(map, i)[k] == (Slot {
                base: map[i + k].base,
                last: map[i + k].last,
                id: map[i + k].dev.id,
                chip: chip_of(map[i + k].dev),
            }),
    decreases map.len() - i,
{
    if i < map.len() {
        lemma_slots_of(map, i + 1);
        assert forall|k: int| 0 < k < map.len() - i implies slots_of(map, i)[k] == slots_of(
            map,
            i + 1,
        )[k - 1] by {}
    }
}

impl View for Device {
    type V = Chip;

    open spec fn view(&self) -> Chip {
        chip_of(*self)
    }
}

impl Device {
    /// The identity of the device.
    pub closed spec fn identity(&self) -> Token {
        self.id
    }
}

/// Address bus.
#[derive(Debug)]
pub struct Bus {
    map: Vec<Mapping>,
}

impl View for Bus {
    type V = Seq<Slot>;

    closed spec fn view(&self) -> Seq<Slot> {
        slots_of(self.map@, 0)
    }
}

/// What a read of `dev` at `addr` gives.
fn device_read(dev: &Device, addr: u16) -> (r: Result<u8, Error>)
    ensures
        r == chip_read(dev@, addr),
    decreases dev, 0nat,
{
    match &dev.kind {
        Kind::Ram(ram) => ram.read(addr),
        Kind::Rom(rom) => rom.read(addr),
        Kind::Bus(bus) => bus_read(bus, addr),
    }
}

/// What a read of `bus` at `addr` gives.
fn bus_read(bus: &Bus, addr: u16) -> (r: Result<u8, Error>)
    ensures
        r == slots_read(bus@, 0, addr),
    decreases bus, 1nat,
{
    proof {
        lemma_slots_of(bus.map@, 0);
    }
    let mut i: usize = 0;
    while i < bus.map.len()
        invariant
            i <= bus.map.len(),
            bus@.len() == bus.map.len(),
            slots_read(bus@, 0, addr) == slots_read(bus@, i as nat, addr),
        decreases bus.map.len() - i,
    {
        let m = &bus.map[i];
        proof {
            lemma_slots_of(bus.map@, 0);
        }
        assert(bus@[i as int] == (Slot { base: m.base, last: m.last, id: m.dev.id, chip: m.dev@ }));
        if m.base <= addr && addr <= m.last {
            assert(decreases_to!(bus.map => bus.map[i as int]));
            let r = device_read(&m.dev, addr - m.base);
            if r.is_ok() {
                return r;
            }
        }
        i += 1;
    }
    Err(Error::Range)
}

/// A write that fails leaves the mappings from the `i`th on as they were.
proof fn lemma_slots_write_failed(slots: Seq<Slot>, i: nat, addr: u16, data: u8)
    ensures
        slots_write(slots, i, addr, data).1 is Err ==> slots_write(slots, i, addr, data).0 == slots,
    decreases slots.len() - i,
{
    if i < slots.len() {
        lemma_slots_write_failed(slots, i + 1, addr, data);
    }
}

/// A write that fails leaves a device as it was.
pub proof fn law_failed_write_changes_nothing(chip: Chip, addr: u16, data: u8)
    ensures
        chip_write(chip, addr, data).1 is Err ==> chip_write(chip, addr, data).0 == chip,
{
    if let Chip::Bus(slots) = chip {
        lemma_slots_write_failed(slots, 0, addr, data);
    }
}

/// Writes `data` to `dev` at `addr`.
fn device_write(dev: &mut Device, addr: u16, data: u8) -> (r: Result<(), Error>)
    ensures
        (final(dev)@, r) == chip_write(old(dev)@, addr, data),
        final(dev).id == old(dev).id,
    decreases *old(dev), 0nat,
{
    match &mut dev.kind {
        Kind::Ram(ram) => ram.write(addr, data),
        Kind::Rom(rom) => rom.write(addr, data),
        Kind::Bus(bus) => bus_write(bus, addr, data),
    }
}

/// Writes `data` to `bus` at `addr`.
fn bus_write(bus: &mut Bus, addr: u16, data: u8) -> (r: Result<(), Error>)
    ensures
        (final(bus)@, r) == slots_write(old(bus)@, 0, addr, data),
    decreases *old(bus), 1nat,
{
    let mut i: usize = 0;
    while i < bus.map.len()
        invariant
            i <= bus.map.len(),
            bus.map@.len() == old(bus).map@.len(),
            forall|k: int| i <= k < bus.map@.len() ==> bus.map@[k] == old(bus).map@[k],
            bus@ == old(bus)@,
            slots_write(old(bus)@, 0, addr, data) == slots_write(old(bus)@, i as nat, addr, data),
        decreases bus.map.len() - i,
    {
        proof {
            lemma_slots_of(bus.map@, 0);
        }
        let base = bus.map[i].base;
        let last = bus.map[i].last;
        if base <= addr && addr <= last {
            let ghost before = bus.map@;
            let ghost dev = bus.map@[i as int].dev;
            assert(decreases_to!(old(bus).map => old(bus).map[i as int]));
            let r = device_write(&mut bus.map[i].dev, addr - base, data);
            proof {
                lemma_slots_of(bus.map@, 0);
                lemma_slots_of(before, 0);
                law_failed_write_changes_nothing(dev@, (addr - base) as u16, data);
            }
            if r.is_ok() {
                assert(bus@ =~= old(bus)@.update(
                    i as int,
                    Slot { chip: chip_write(dev@, (addr - base) as u16, data).0, ..old(bus)@[i as int] },
                ));
                return Ok(());
            }
            assert(bus@ =~= old(bus)@);
        }
        i += 1;
    }
    proof {
        lemma_slots_of(bus.map@, 0);
    }
    Err(Error::Range)
}

/// A copy of a byte store.
fn cells_copy(a: &Vec<u8>) -> (r: Vec<u8>)
    ensures
        r@ == a@,
{
    let mut r: Vec<u8> = Vec::new();
    let mut i: usize = 0;
    while i < a.len()
        invariant
            i <= a.len(),
            r@ == a@.subrange(0, i as int),
        decreases a.len() - i,
    {
        r.push(a[i]);
        i += 1;
        assert(r@ =~= a@.subrange(0, i as int));
    }
    assert(r@ =~= a@);
    r
}

/// A copy of a device, with its identity.
fn device_copy(dev: &Device) -> (r: Device)
    ensures
        r@ == dev@,
        r.id == dev.id,
    decreases dev, 0nat,
{
    let kind = match &dev.kind {
        Kind::Ram(ram) => Kind::Ram(Ram::from(cells_copy(ram.inner()))),
        Kind::Rom(rom) => Kind::Rom(Rom::from(cells_copy(rom.inner()))),
        Kind::Bus(bus) => Kind::Bus(Box::new(bus_copy(bus))),
    };
    Device { id: copy_token(&dev.id), kind }
}

/// A copy of a bus.
fn bus_copy(bus: &Bus) -> (r: Bus)
    ensures
        r@ == bus@,
    decreases bus, 1nat,
{
    let mut map: Vec<Mapping> = Vec::new();
    let mut i: usize = 0;
    while i < bus.map.len()
        invariant
            i <= bus.map.len(),
            map.len() == i,
            slots_of(map@, 0) == slots_of(bus.map@, 0).subrange(0, i as int),
        decreases bus.map.len() - i,
    {
        proof {
            lemma_slots_of(bus.map@, 0);
            lemma_slots_of(map@, 0);
        }
        let m = &bus.map[i];
        assert(decreases_to!(bus.map => bus.map[i as int]));
        let dev = device_copy(&m.dev);
        map.push(Mapping { base: m.base, last: m.last, dev });
        i += 1;
        proof {
            lemma_slots_of(map@, 0);
            assert(slots_of(map@, 0) =~= slots_of(bus.map@, 0).subrange(0, i as int));
        }
    }
    proof {
        lemma_slots_of(bus.map@, 0);
        assert(slots_of(bus.map@, 0).subrange(0, i as int) =~= slots_of(bus.map@, 0));
    }
    Bus { map }
}

impl Clone for Device {
    /// A copy of the device, with the same model and the same identity.
    fn clone(&self) -> (r: Self)
        ensures
            r@ == self@,
            r.identity() == self.identity(),
    {
        device_copy(self)
    }
}

impl Clone for Bus {
    /// A copy of the bus, with the same model.
    fn clone(&self) -> (r: Self)
        ensures
            r@ == self@,
    {
        bus_copy(self)
    }
}

impl Memory for Device {
    open spec fn spec_read(&self, addr: u16) -> Result<u8, Error> {
        chip_read(self@, addr)
    }

    open spec fn spec_write(&self, addr: u16, data: u8) -> (Chip, Result<(), Error>) {
        chip_write(self@, addr, data)
    }

    fn read(&self, addr: u16) -> (r: Result<u8, Error>) {
        device_read(self, addr)
    }

    fn write(&mut self, addr: u16, data: u8) -> (r: Result<(), Error>) {
        device_write(self, addr, data)
    }
}

impl Memory for Bus {
    open spec fn spec_read(&self, addr: u16) -> Result<u8, Error> {
        slots_read(self@, 0, addr)
    }

    open spec fn spec_write(&self, addr: u16, data: u8) -> (Seq<Slot>, Result<(), Error>) {
        slots_write(self@, 0, addr, data)
    }

    fn read(&self, addr: u16) -> (r: Result<u8, Error>) {
        bus_read(self, addr)
    }

    fn write(&mut self, addr: u16, data: u8) -> (r: Result<(), Error>) {
        bus_write(self, addr, data)
    }
}

/// Memories that can be mounted as a [`Device`].
pub trait Mount: Sized {
    /// The model of the device that the memory becomes.
    spec fn chip(&self) -> Chip;

    /// The memory as a device.
    fn into_device(self) -> (r: Device)
        ensures
            r@ == self.chip(),
    ;
}

/// A byte store holding the bytes of an array.
fn cells_from_array<const N: usize>(a: &[u8; N]) -> (r: Vec<u8>)
    ensures
        r@ == a@,
{
    let mut r: Vec<u8> = Vec::new();
    let mut i: usize = 0;
    while i < N
        invariant
            i <= N,
            r@ == a@.subrange(0, i as int),
        decreases N - i,
    {
        r.push(a[i]);
        i += 1;
        assert(r@ =~= a@.subrange(0, i as int));
    }
    assert(r@ =~= a@);
    r
}

impl<const N: usize> Mount for Ram<[u8; N]> {
    open spec fn chip(&self) -> Chip {
        Chip::Ram(self@)
    }

    fn into_device(self) -> (r: Device) {
        Device { id: fresh_token(), kind: Kind::Ram(Ram::from(cells_from_array(self.inner()))) }
    }
}

impl<const N: usize> Mount for Rom<[u8; N]> {
    open spec fn chip(&self) -> Chip {
        Chip::Rom(self@)
    }

    fn into_device(self) -> (r: Device) {
        Device { id: fresh_token(), kind: Kind::Rom(Rom::from(cells_from_array(self.inner()))) }
    }
}

impl Mount for Ram<Vec<u8>> {
    open spec fn chip(&self) -> Chip {
        Chip::Ram(self@)
    }

    fn into_device(self) -> (r: Device) {
        Device { id: fresh_token(), kind: Kind::Ram(self) }
    }
}

impl Mount for Rom<Vec<u8>> {
    open spec fn chip(&self) -> Chip {
        Chip::Rom(self@)
    }

    fn into_device(self) -> (r: Device) {
        Device { id: fresh_token(), kind: Kind::Rom(self) }
    }
}

impl Mount for Bus {
    open spec fn chip(&self) -> Chip {
        Chip::Bus(self@)
    }

    fn into_device(self) -> (r: Device) {
        Device { id: fresh_token(), kind: Kind::Bus(Box::new(self)) }
    }
}

impl Mount for Device {
    open spec fn chip(&self) -> Chip {
        self@
    }

    /// The device itself, with its identity.
    fn into_device(self) -> (r: Device)
        ensures
            r.identity() == self.identity(),
    {
        self
    }
}

impl Device {
    /// Constructs a device from a memory.
    pub fn dev<M: Mount>(mem: M) -> (r: Device)
        ensures
            r@ == mem.chip(),
    {
        mem.into_device()
    }
}

/// The model of a mapping of `range` to `dev`.
pub open spec fn entry_slot(entry: (RangeInclusive<u16>, Device)) -> Slot {
    Slot { base: entry.0@.start, last: entry.0@.end, id: entry.1.identity(), chip: entry.1@ }
}

/// Whether none of the ranges of `entries` has been iterated to exhaustion.
pub open spec fn fresh_ranges(entries: Seq<(RangeInclusive<u16>, Device)>) -> bool {
    forall|i: int| 0 <= i < entries.len() ==> !(#[trigger] entries[i]).0@.exhausted
}

/// The models of the mappings `entries`.
pub open spec fn entry_slots(entries: Seq<(RangeInclusive<u16>, Device)>) -> Seq<Slot> {
    entries.map_values(|e: (RangeInclusive<u16>, Device)| entry_slot(e))
}

/// The mappings made by mapping each of `slots` in turn to an empty bus.
pub open spec fn mapped(slots: Seq<Slot>) -> Seq<Slot>
    decreases slots.len(),
{
    if slots.len() == 0 {
        Seq::empty()
    } else {
        insert_slot(mapped(slots.drop_last()), slots.last())
    }
}

/// The items of an array, in order, in a vector.
///
/// Trusted: `<Vec<T> as From<[T; N]>>::from`, documented to allocate a vector
/// and move the array's items into it.
#[verifier::external_body]
fn array_into_vec<T, const N: usize>(a: [T; N]) -> (r: Vec<T>)
    ensures
        r@ == a@,
{
    Vec::from(a)
}

impl<const N: usize> From<[(RangeInclusive<u16>, Device); N]> for Bus {
    /// A bus with each of `arr` mapped in turn. The bounds of a range are
    /// known while it has not been iterated to exhaustion.
    fn from(arr: [(RangeInclusive<u16>, Device); N]) -> (r: Self)
        ensures
            fresh_ranges(arr@) ==> r@ == mapped(entry_slots(arr@)),
    {
        let ghost all = entry_slots(arr@);
        let mut rest = array_into_vec(arr);
        let mut bus = Bus::new();
        proof {
            assert(all.subrange(0, 0).len() == 0);
        }
        while rest.len() > 0
            invariant
                rest.len() <= N,
                rest@ == arr@.subrange(N - rest.len(), N as int),
                all == entry_slots(arr@),
                fresh_ranges(arr@) ==> bus@ == mapped(all.subrange(0, N - rest.len())),
            decreases rest.len(),
        {
            let ghost k = N - rest.len();
            let entry = rest.remove(0);
            proof {
                assert(entry == arr@[k]);
                assert(all[k] == entry_slot(entry));
                assert(rest@ =~= arr@.subrange(N - rest.len(), N as int));
                assert(all.subrange(0, k + 1).drop_last() =~= all.subrange(0, k));
            }
            let (range, dev) = entry;
            proof {
                if fresh_ranges(arr@) {
                    assert(!arr@[k].0@.exhausted);
                }
            }
            bus.map(range, dev);
        }
        assert(all.subrange(0, N as int) =~= all);
        bus
    }
}

impl<const N: usize> vstd::std_specs::convert::FromSpecImpl<[(RangeInclusive<u16>, Device); N]> for Bus {
    /// A bus is not determined by its model, so no bus is named here; what
    /// `from` gives is stated by its model instead.
    open spec fn obeys_from_spec() -> bool {
        false
    }

    closed spec fn from_spec(v: [(RangeInclusive<u16>, Device); N]) -> Self {
        arbitrary()
    }
}

/// The width of the range from `base` to `last`.
fn span(base: u16, last: u16) -> (r: i32)
    ensures
        r == width(base, last),
{
    last as i32 - base as i32
}

impl Bus {
    /// Constructs a new, empty `Bus`.
    pub fn new() -> (r: Self)
        ensures
            r@ == Seq::<Slot>::empty(),
    {
        Bus { map: Vec::new() }
    }

    /// Maps a device to the provided range. The bounds of a range are known
    /// while it has not been iterated to exhaustion.
    pub fn map(&mut self, range: RangeInclusive<u16>, dev: Device)
        ensures
            !range@.exhausted ==> final(self)@ == insert_slot(
                old(self)@,
                Slot { base: range@.start, last: range@.end, id: dev.identity(), chip: dev@ },
            ),
    {
        let (base, last) = bounds_of(range);
        let w = span(base, last);
        let ghost slot = Slot { base, last, id: dev.id, chip: dev@ };
        proof {
            lemma_slots_of(self.map@, 0);
        }
        let mut i: usize = 0;
        while i < self.map.len() && span(self.map[i].base, self.map[i].last) <= w
            invariant
                i <= self.map.len(),
                self@.len() == self.map.len(),
                self.map@ == old(self).map@,
                rank(self@, 0, w as int) == rank(self@, i as nat, w as int),
            decreases self.map.len() - i,
        {
            proof {
                lemma_slots_of(self.map@, 0);
            }
            i += 1;
        }
        self.map.insert(i, Mapping { base, last, dev });
        proof {
            lemma_slots_of(self.map@, 0);
            lemma_slots_of(old(self).map@, 0);
            assert(self@ =~= old(self)@.insert(i as int, slot));
        }
    }

    /// Unmaps every mapping of the device `dev`: of a device with its
    /// identity.
    ///
    /// Returns whether there was one.
    pub fn unmap(&mut self, dev: &Device) -> (r: bool)
        ensures
            final(self)@ == without(old(self)@, dev.identity()),
            r == exists|k: int| 0 <= k < old(self)@.len() && #[trigger] old(self)@[k].id == dev.identity(),
    {
        let ghost whole = old(self)@;
        let ghost mut j: int = 0;
        let mut found = false;
        let mut i: usize = 0;
        proof {
            lemma_slots_of(self.map@, 0);
            assert(whole.subrange(0, 0) =~= Seq::<Slot>::empty());
            assert(self@ =~= without(whole.subrange(0, 0), dev.identity()) + whole.subrange(0, whole.len() as int));
        }
        while i < self.map.len()
            invariant
                0 <= j <= whole.len(),
                i <= self.map.len(),
                self@.len() == self.map.len(),
                i == without(whole.subrange(0, j), dev.identity()).len(),
                self@ == without(whole.subrange(0, j), dev.identity()) + whole.subrange(j, whole.len() as int),
                found == exists|k: int| 0 <= k < j && #[trigger] whole[k].id == dev.identity(),
            decreases self.map.len() - i,
        {
            proof {
                lemma_slots_of(self.map@, 0);
                assert(whole.subrange(0, j + 1).drop_last() =~= whole.subrange(0, j));
            }
            let ghost prefix = without(whole.subrange(0, j), dev.identity());
            assert(self@[i as int] == whole[j]);
            if same_token(&self.map[i].dev.id, &dev.id) {
                let ghost before = self.map@;
                let ghost view_before = self@;
                self.map.remove(i);
                proof {
                    lemma_slots_of(self.map@, 0);
                    lemma_slots_of(before, 0);
                    assert(self@ =~= view_before.remove(i as int));
                    assert(without(whole.subrange(0, j + 1), dev.identity()) == prefix);
                    j = j + 1;
                    assert(self@ =~= without(whole.subrange(0, j), dev.identity()) + whole.subrange(j, whole.len() as int));
                }
                found = true;
            } else {
                proof {
                    j = j + 1;
                    assert(self@ =~= without(whole.subrange(0, j), dev.identity()) + whole.subrange(j, whole.len() as int));
                }
                i += 1;
            }
        }
        proof {
            lemma_slots_of(self.map@, 0);
            assert(whole.subrange(0, j) =~= whole);
            assert(self@ =~= without(whole, dev.identity()));
        }
        found
    }

    /// Number of mappings.
    pub fn len(&self) -> (r: usize)
        ensures
            r == self@.len(),
    {
        proof {
            lemma_slots_of(self.map@, 0);
        }
        self.map.len()
    }

    /// Clears the bus, removing all devices.
    pub fn clear(&mut self)
        ensures
            final(self)@ == Seq::<Slot>::empty(),
    {
        self.map.clear();
    }
}

} // verus!
