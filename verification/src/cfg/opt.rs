//! Emulation configuration.

use std::path::PathBuf;
use vstd::prelude::*;

use crate::cfg::model::When;
use crate::cfg::path::{extended, merge_flag, merge_option, over, with_extension};

verus! {

/// Emulator options.
#[derive(Debug)]
pub struct Emulator {
    /// Booting options.
    pub boot: Boot,
    /// Cartridge options.
    pub cart: Cart,
}

/// Booting options.
#[derive(Debug)]
pub struct Boot {
    /// Boot ROM image file.
    ///
    /// Relative paths are resolved relative to the application's data
    /// directory; absolute paths are used as-is.
    pub rom: Option<PathBuf>,
    /// Skip running boot ROM.
    pub skip: bool,
}

/// Cartridge options.
#[derive(Debug)]
pub struct Cart {
    /// Cartridge ROM image file.
    ///
    /// The cartridge header specifies precisely what hardware will be
    /// instantiated.
    pub rom: Option<PathBuf>,
    /// Check cartridge integrity.
    pub check: bool,
    /// Force cartridge construction.
    pub force: bool,
    /// Cartridge RAM persistence.
    pub save: Option<When>,
}

impl Default for Boot {
    fn default() -> (r: Self)
        ensures
            r.rom is None,
            !r.skip,
    {
        Boot { rom: None, skip: false }
    }
}

impl Default for Cart {
    fn default() -> (r: Self)
        ensures
            r.rom is None,
            !r.check,
            !r.force,
            r.save is None,
    {
        Cart { rom: None, check: false, force: false, save: None }
    }
}

impl Default for Emulator {
    fn default() -> (r: Self)
        ensures
            r.boot.rom is None,
            !r.boot.skip,
            r.cart.rom is None,
            !r.cart.check,
            !r.cart.force,
            r.cart.save is None,
    {
        Emulator { boot: Boot::default(), cart: Cart::default() }
    }
}

impl Boot {
    /// Merges `other` onto these options.
    pub fn merge(&mut self, other: Boot)
        ensures
            final(self).rom == over(old(self).rom, other.rom),
            final(self).skip == (old(self).skip || other.skip),
    {
        merge_option(&mut self.rom, other.rom);
        merge_flag(&mut self.skip, other.skip);
    }
}

impl Cart {
    /// Merges `other` onto these options.
    pub fn merge(&mut self, other: Cart)
        ensures
            final(self).rom == over(old(self).rom, other.rom),
            final(self).check == (old(self).check || other.check),
            final(self).force == (old(self).force || other.force),
            final(self).save == over(old(self).save, other.save),
    {
        merge_option(&mut self.rom, other.rom);
        merge_flag(&mut self.check, other.check);
        merge_flag(&mut self.force, other.force);
        merge_option(&mut self.save, other.save);
    }

    /// Cartridge RAM save file: the ROM's path with the ".sav" extension.
    ///
    /// The cartridge's RAM is initialized from the data in this file.
    pub fn ram(&self) -> (r: Option<PathBuf>)
        ensures
            r is Some <==> self.rom is Some,
            self.rom matches Some(p) ==> (r matches Some(q) && extended(p, "sav"@, q)),
    {
        match &self.rom {
            Some(path) => {
                proof {
                    reveal_strlit("sav");
                }
                Some(with_extension(path, "sav"))
            },
            None => None,
        }
    }
}

impl Emulator {
    /// Merges `other` onto these options.
    pub fn merge(&mut self, other: Emulator)
        ensures
            final(self).boot.rom == over(old(self).boot.rom, other.boot.rom),
            final(self).boot.skip == (old(self).boot.skip || other.boot.skip),
            final(self).cart.rom == over(old(self).cart.rom, other.cart.rom),
            final(self).cart.check == (old(self).cart.check || other.cart.check),
            final(self).cart.force == (old(self).cart.force || other.cart.force),
            final(self).cart.save == over(old(self).cart.save, other.cart.save),
    {
        self.boot.merge(other.boot);
        self.cart.merge(other.cart);
    }
}

} // verus!
