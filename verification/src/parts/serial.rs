//! Serial registers.

use vstd::prelude::*;

use crate::arch::mem::{Error, Memory};
use crate::arch::reg::Register;

verus! {

/// Serial data.
pub type Sb = u8;

/// `SC[7]`: transfer enable flag.
pub const SC_ENA: u8 = 0x80;

/// `SC[0]`: shift clock select flag.
pub const SC_CLK: u8 = 0x01;

/// `SC[6:1]`: unused bits, which always read as 1.
pub const SC_UNUSED: u8 = 0x7e;

/// Bit that starts a transfer sequence: the most significant.
pub const SC_START_BIT: u8 = 0x80;

/// `SC`: Serial control register.
///
/// | Bit | Name                | Use |
/// |-----|---------------------|-----|
/// |   7 | Transfer start flag | R/W |
/// | 6-1 | Unused.             | -   |
/// |   0 | Shift clock.        | R/W |
#[derive(Debug)]
pub struct Sc {
    reg: u8,
    bit: u8,
}

/// Model of the serial control register.
pub struct ScView {
    /// The stored register bits.
    pub reg: u8,
    /// The transfer sequence bit.
    pub bit: u8,
}

impl View for Sc {
    type V = ScView;

    closed spec fn view(&self) -> ScView {
        ScView { reg: self.reg, bit: self.bit }
    }
}

impl Default for Sc {
    fn default() -> (r: Self)
        ensures
            r@ == (ScView { reg: 0, bit: 0 }),
    {
        Sc { reg: 0, bit: 0 }
    }
}

impl Sc {
    /// Transfer enable flag.
    pub fn ena(&self) -> (r: bool)
        ensures
            r == (self@.reg & SC_ENA != 0),
    {
        self.reg & SC_ENA != 0
    }

    /// Shift clock select flag.
    pub fn clk(&self) -> (r: bool)
        ensures
            r == (self@.reg & SC_CLK != 0),
    {
        self.reg & SC_CLK != 0
    }

    /// Sets the transfer enable flag, keeping every other bit.
    pub fn set_ena(&mut self, v: bool)
        ensures
            final(self)@.reg == if v {
                old(self)@.reg | SC_ENA
            } else {
                old(self)@.reg & !SC_ENA
            },
            final(self)@.bit == old(self)@.bit,
    {
        if v {
            self.reg = self.reg | SC_ENA;
        } else {
            self.reg = self.reg & !SC_ENA;
        }
    }

    /// The transfer sequence bit.
    pub fn bit(&self) -> (r: u8)
        ensures
            r == self@.bit,
    {
        self.bit
    }
}

impl Register for Sc {
    type Value = u8;

    /// The stored bits, with the unused ones read as 1.
    open spec fn spec_load(&self) -> u8 {
        self@.reg | SC_UNUSED
    }

    /// A store keeps the bits and restarts the transfer sequence.
    open spec fn spec_store(&self, value: u8) -> ScView {
        ScView { reg: value, bit: SC_START_BIT }
    }

    fn load(&self) -> (r: u8) {
        self.reg | SC_UNUSED
    }

    fn store(&mut self, value: u8) {
        self.reg = value;
        self.bit = SC_START_BIT;
    }
}

impl Memory for Sc {
    /// Every address reads the register.
    open spec fn spec_read(&self, addr: u16) -> Result<u8, Error> {
        Ok(self.spec_load())
    }

    /// Every address stores to the register.
    open spec fn spec_write(&self, addr: u16, data: u8) -> (ScView, Result<(), Error>) {
        (self.spec_store(data), Ok(()))
    }

    fn read(&self, addr: u16) -> (r: Result<u8, Error>) {
        Ok(self.load())
    }

    fn write(&mut self, addr: u16, data: u8) -> (r: Result<(), Error>) {
        self.store(data);
        Ok(())
    }
}

/// Loading the serial control register after storing `value` gives `value`
/// with the unused bits set; the store enables a transfer exactly when bit 7
/// of `value` is set, and restarts the transfer sequence.
pub proof fn law_sc_load_after_store(sc: Sc, after: Sc, value: u8)
    requires
        after@ == sc.spec_store(value),
    ensures
        after.spec_load() == value | 0x7e,
        (after@.reg & SC_ENA != 0) == (value >= 0x80),
        after@.bit == 0x80,
{
    assert((value & 0x80 != 0) == (value >= 0x80)) by (bit_vector);
}

} // verus!
