//! Bit modifiable enum flags.
//!
//! `Enuf` is implemented on fieldless enumerations whose values stand for
//! (usually mutually exclusive) bits of an integer flag.

use vstd::prelude::*;

verus! {

/// Enum flag interface.
pub trait Enuf: Copy {
    /// The bits that this value stands for.
    spec fn spec_bits(self) -> u8;

    /// The bits that this value stands for.
    fn bits(self) -> (r: u8)
        ensures
            r == self.spec_bits(),
    ;

    /// Gets the corresponding bit value from an integer flag: whether any of
    /// this value's bits is set in `f`.
    fn get(self, f: &u8) -> (r: bool)
        ensures
            r == (*f & self.spec_bits() != 0),
    {
        *f & self.bits() != 0
    }

    /// Sets the corresponding bit value on an integer flag: this value's bits
    /// are all set when `enable`, all cleared otherwise, and the other bits
    /// are kept.
    fn set(self, f: &mut u8, enable: bool)
        ensures
            *final(f) == if enable {
                *old(f) | self.spec_bits()
            } else {
                *old(f) & !self.spec_bits()
            },
    {
        let m = self.bits();
        let e: u8 = if enable { 1 } else { 0 };
        let old_f = *f;
        let w = e.wrapping_sub(1);
        let mask = !w & m;
        *f = old_f ^ ((old_f & m) ^ mask);
        assert(enable ==> w == 0);
        assert(!enable ==> w == 0xff);
        assert(w == 0 ==> old_f ^ ((old_f & m) ^ (!w & m)) == old_f | m) by (bit_vector);
        assert(w == 0xff ==> old_f ^ ((old_f & m) ^ (!w & m)) == old_f & !m) by (bit_vector);
    }
}

/// After setting a value's bits on a flag, getting them gives what was set,
/// where the value stands for any bit, and the bits outside the value's are
/// as they were.
pub proof fn law_get_after_set(bits: u8, f: u8, enable: bool, other: u8)
    requires
        other & bits == 0,
    ensures
        bits != 0 ==> ((if enable { f | bits } else { f & !bits }) & bits != 0) == enable,
        (if enable { f | bits } else { f & !bits }) & other == f & other,
{
    assert(bits != 0 ==> (f | bits) & bits != 0) by (bit_vector);
    assert((f & !bits) & bits == 0) by (bit_vector);
    assert(other & bits == 0 ==> (f | bits) & other == f & other) by (bit_vector);
    assert(other & bits == 0 ==> (f & !bits) & other == f & other) by (bit_vector);
}

} // verus!
