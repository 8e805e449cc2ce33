//! Memory interface and memory devices.

use vstd::prelude::*;

verus! {

/// An error caused by a memory access.
#[derive(Clone, Copy, Debug, PartialEq, Eq, Structural)]
pub enum Error {
    /// The address is outside of the memory.
    Range,
    /// The memory does not support the access.
    Misuse,
}

/// What a read of a plain byte store `cells` at `addr` gives.
pub open spec fn cells_read(cells: Seq<u8>, addr: u16) -> Result<u8, Error> {
    if (addr as int) < cells.len() {
        Ok(cells[addr as int])
    } else {
        Err(Error::Range)
    }
}

/// A plain byte store `cells` after a write of `data` at `addr`, and what the
/// write gives.
pub open spec fn cells_write(cells: Seq<u8>, addr: u16, data: u8) -> (Seq<u8>, Result<(), Error>) {
    if (addr as int) < cells.len() {
        (cells.update(addr as int, data), Ok(()))
    } else {
        (cells, Err(Error::Range))
    }
}

/// Memory interface: byte reads and writes at word addresses.
///
/// A memory is modelled by its view; `spec_read` and `spec_write` say what an
/// access does in terms of that view.
pub trait Memory: View + Sized {
    /// What a read at `addr` gives.
    spec fn spec_read(&self, addr: u16) -> Result<u8, Error>;

    /// The view after a write of `data` at `addr`, and what the write gives.
    spec fn spec_write(&self, addr: u16, data: u8) -> (Self::V, Result<(), Error>);

    /// Reads the byte at `addr`.
    fn read(&self, addr: u16) -> (r: Result<u8, Error>)
        ensures
            r == self.spec_read(addr),
    ;

    /// Writes `data` at `addr`.
    fn write(&mut self, addr: u16, data: u8) -> (r: Result<(), Error>)
        ensures
            (final(self)@, r) == old(self).spec_write(addr, data),
    ;
}

impl<const N: usize> Memory for [u8; N] {
    open spec fn spec_read(&self, addr: u16) -> Result<u8, Error> {
        cells_read(self@, addr)
    }

    open spec fn spec_write(&self, addr: u16, data: u8) -> (Seq<u8>, Result<(), Error>) {
        cells_write(self@, addr, data)
    }

    fn read(&self, addr: u16) -> (r: Result<u8, Error>) {
        let i = addr as usize;
        if i < N {
            Ok(self[i])
        } else {
            Err(Error::Range)
        }
    }

    fn write(&mut self, addr: u16, data: u8) -> (r: Result<(), Error>) {
        let i = addr as usize;
        if i < N {
            self[i] = data;
            Ok(())
        } else {
            Err(Error::Range)
        }
    }
}

impl Memory for Vec<u8> {
    open spec fn spec_read(&self, addr: u16) -> Result<u8, Error> {
        cells_read(self@, addr)
    }

    open spec fn spec_write(&self, addr: u16, data: u8) -> (Seq<u8>, Result<(), Error>) {
        cells_write(self@, addr, data)
    }

    fn read(&self, addr: u16) -> (r: Result<u8, Error>) {
        let i = addr as usize;
        if i < self.len() {
            Ok(self[i])
        } else {
            Err(Error::Range)
        }
    }

    fn write(&mut self, addr: u16, data: u8) -> (r: Result<(), Error>) {
        let i = addr as usize;
        if i < self.len() {
            self.set(i, data);
            Ok(())
        } else {
            Err(Error::Range)
        }
    }
}

/// Random-access memory.
#[derive(Clone, Debug, Default, PartialEq, Eq)]
pub struct Ram<M: Memory>(M);

impl<M: Memory> Ram<M> {
    /// The underlying memory.
    pub closed spec fn memory(&self) -> M {
        self.0
    }

    /// Gets a reference to the underlying value.
    pub fn inner(&self) -> (r: &M)
        ensures
            *r == self.memory(),
    {
        &self.0
    }

    /// Gets a mutable reference to the underlying value.
    pub fn inner_mut(&mut self) -> (r: &mut M)
        ensures
            *r == old(self).memory(),
            final(self).memory() == *final(r),
    {
        &mut self.0
    }
}

impl<M: Memory> View for Ram<M> {
    type V = M::V;

    open spec fn view(&self) -> M::V {
        self.memory()@
    }
}

impl<M: Memory> From<M> for Ram<M> {
    fn from(value: M) -> (r: Self)
        ensures
            r.memory() == value,
    {
        Ram(value)
    }
}

impl<M: Memory> vstd::std_specs::convert::FromSpecImpl<M> for Ram<M> {
    open spec fn obeys_from_spec() -> bool {
        true
    }

    closed spec fn from_spec(v: M) -> Self {
        Ram(v)
    }
}

impl<M: Memory> Memory for Ram<M> {
    open spec fn spec_read(&self, addr: u16) -> Result<u8, Error> {
        self.memory().spec_read(addr)
    }

    open spec fn spec_write(&self, addr: u16, data: u8) -> (M::V, Result<(), Error>) {
        self.memory().spec_write(addr, data)
    }

    fn read(&self, addr: u16) -> (r: Result<u8, Error>) {
        self.0.read(addr)
    }

    fn write(&mut self, addr: u16, data: u8) -> (r: Result<(), Error>) {
        self.0.write(addr, data)
    }
}

/// Read-only memory.
#[derive(Clone, Debug, Default, PartialEq, Eq)]
pub struct Rom<M: Memory>(M);

impl<M: Memory> Rom<M> {
    /// The underlying memory.
    pub closed spec fn memory(&self) -> M {
        self.0
    }

    /// Gets a reference to the underlying value.
    pub fn inner(&self) -> (r: &M)
        ensures
            *r == self.memory(),
    {
        &self.0
    }

    /// Gets a mutable reference to the underlying value.
    pub fn inner_mut(&mut self) -> (r: &mut M)
        ensures
            *r == old(self).memory(),
            final(self).memory() == *final(r),
    {
        &mut self.0
    }

}

impl<M: Memory> View for Rom<M> {
    type V = M::V;

    open spec fn view(&self) -> M::V {
        self.memory()@
    }
}

impl<M: Memory> From<M> for Rom<M> {
    fn from(value: M) -> (r: Self)
        ensures
            r.memory() == value,
    {
        Rom(value)
    }
}

impl<M: Memory> vstd::std_specs::convert::FromSpecImpl<M> for Rom<M> {
    open spec fn obeys_from_spec() -> bool {
        true
    }

    closed spec fn from_spec(v: M) -> Self {
        Rom(v)
    }
}

impl<M: Memory> Memory for Rom<M> {
    open spec fn spec_read(&self, addr: u16) -> Result<u8, Error> {
        self.memory().spec_read(addr)
    }

    /// A write changes nothing: it is a misuse where the address can be
    /// read, and out of range elsewhere.
    open spec fn spec_write(&self, addr: u16, data: u8) -> (M::V, Result<(), Error>) {
        (
            self@,
            Err(
                if self.memory().spec_read(addr) is Ok {
                    Error::Misuse
                } else {
                    Error::Range
                },
            ),
        )
    }

    fn read(&self, addr: u16) -> (r: Result<u8, Error>) {
        self.0.read(addr)
    }

    fn write(&mut self, addr: u16, data: u8) -> (r: Result<(), Error>) {
        Err(
            if self.0.read(addr).is_ok() {
                Error::Misuse
            } else {
                Error::Range
            },
        )
    }
}

/// A byte store reads back what was last written to an address, and a write
/// leaves every other address as it was; a write fails, changing nothing,
/// exactly where a read fails.
pub proof fn law_cells_read_after_write(cells: Seq<u8>, addr: u16, data: u8, other: u16)
    ensures
        cells_write(cells, addr, data).1 is Ok <==> cells_read(cells, addr) is Ok,
        cells_write(cells, addr, data).1 is Err ==> cells_write(cells, addr, data).0 == cells,
        cells_write(cells, addr, data).1 is Ok ==> cells_read(cells_write(cells, addr, data).0, addr)
            == Ok::<u8, Error>(data),
        other != addr ==> cells_read(cells_write(cells, addr, data).0, other) == cells_read(
            cells,
            other,
        ),
{
}

} // verus!
