//! Register models.

use vstd::prelude::*;

verus! {

/// Register load-store interface.
///
/// A register is modelled by its view; `spec_load` and `spec_store` say what
/// an access does in terms of that view.
pub trait Register: View + Sized {
    /// Value stored by the register.
    type Value;

    /// What a load gives.
    spec fn spec_load(&self) -> Self::Value;

    /// The view after a store of `value`.
    spec fn spec_store(&self, value: Self::Value) -> Self::V;

    /// Loads the value of a register.
    fn load(&self) -> (r: Self::Value)
        ensures
            r == self.spec_load(),
    ;

    /// Stores a value into a register.
    fn store(&mut self, value: Self::Value)
        ensures
            final(self)@ == old(self).spec_store(value),
    ;
}

/// An access point within a register file.
pub trait Port<R: Register>: View + Sized {
    /// Selection name of register.
    type Select;

    /// What a load from the selected register gives.
    spec fn spec_load(&self, reg: Self::Select) -> R;

    /// The view after a store of `value` to the selected register.
    spec fn spec_store(&self, reg: Self::Select, value: R) -> Self::V;

    /// Loads from the specified register.
    fn load(&self, reg: Self::Select) -> (r: R)
        ensures
            r == self.spec_load(reg),
    ;

    /// Stores to the specified register.
    fn store(&mut self, reg: Self::Select, value: R)
        ensures
            final(self)@ == old(self).spec_store(reg, value),
    ;
}

impl Register for u8 {
    type Value = u8;

    open spec fn spec_load(&self) -> u8 {
        *self
    }

    open spec fn spec_store(&self, value: u8) -> u8 {
        value
    }

    fn load(&self) -> u8 {
        *self
    }

    fn store(&mut self, value: u8) {
        *self = value;
    }
}

impl Register for u16 {
    type Value = u16;

    open spec fn spec_load(&self) -> u16 {
        *self
    }

    open spec fn spec_store(&self, value: u16) -> u16 {
        value
    }

    fn load(&self) -> u16 {
        *self
    }

    fn store(&mut self, value: u16) {
        *self = value;
    }
}

} // verus!
