//! Game Boy architecture primitives: registers, memories and the address bus.

pub mod bus;
pub mod mem;
pub mod reg;

use vstd::prelude::*;

verus! {

/// Native architecture byte.
pub type Byte = u8;

/// Native architecture word.
pub type Word = u16;

} // verus!
