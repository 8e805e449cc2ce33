//! Configuration groups.

use std::path::PathBuf;
use vstd::prelude::*;

use crate::cfg::model::{Dmg, When};
use crate::cfg::path::{merge_flag, merge_number, merge_option, over, over_number};

verus! {

/// Audio options.
#[derive(Debug)]
pub struct Audio {
    /// Audio sample rate.
    ///
    /// Defines the sample rate to use for audio output. On most systems, this
    /// should be in the range of 8 KHz to 96 KHz.
    pub rate: u32,
}

impl Default for Audio {
    fn default() -> (r: Self)
        ensures
            r.rate == 0,
    {
        Audio { rate: 0 }
    }
}

impl Audio {
    /// Merges `other` onto these options: its sample rate, unless zero.
    pub fn merge(&mut self, other: Audio)
        ensures
            final(self).rate == over_number(old(self).rate, other.rate),
    {
        merge_number(&mut self.rate, other.rate);
    }
}

/// Boot ROM options.
#[derive(Debug)]
pub struct Boot {
    /// Boot ROM image file.
    ///
    /// Relative paths are resolved relative to the application's data
    /// directory; absolute paths are used as-is.
    pub rom: Option<PathBuf>,
}

impl Default for Boot {
    fn default() -> (r: Self)
        ensures
            r.rom is None,
    {
        Boot { rom: None }
    }
}

impl Boot {
    /// Merges `other` onto these options: its image file, if any.
    pub fn merge(&mut self, other: Boot)
        ensures
            final(self).rom == over(old(self).rom, other.rom),
    {
        merge_option(&mut self.rom, other.rom);
    }
}

/// Cartridge options.
#[derive(Debug)]
pub struct Cart {
    /// Check cartridge integrity.
    ///
    /// Verifies that both the header and global checksums match the data
    /// within the ROM.
    pub check: bool,
    /// Force cartridge construction.
    ///
    /// Causes the cartridge generation to always succeed, even if the ROM does
    /// not contain valid data.
    pub force: bool,
    /// Cartridge RAM persistence.
    ///
    /// Overrides the cartridge's hardware support for persistent RAM. When
    /// enabled, RAM is loaded and saved from a file with the same path and
    /// name as the ROM, but using the ".sav" extension.
    pub save: Option<When>,
}

impl Default for Cart {
    fn default() -> (r: Self)
        ensures
            !r.check,
            !r.force,
            r.save is None,
    {
        Cart { check: false, force: false, save: None }
    }
}

impl Cart {
    /// Merges `other` onto these options: its set flags and its persistence
    /// setting, if any.
    pub fn merge(&mut self, other: Cart)
        ensures
            final(self).check == (old(self).check || other.check),
            final(self).force == (old(self).force || other.force),
            final(self).save == over(old(self).save, other.save),
    {
        merge_flag(&mut self.check, other.check);
        merge_flag(&mut self.force, other.force);
        merge_option(&mut self.save, other.save);
    }
}

/// Hardware model options.
#[derive(Debug)]
pub struct Model {
    /// DMG options.
    pub dmg: Dmg,
}

impl Default for Model {
    fn default() -> (r: Self)
        ensures
            r.dmg.rev is None,
    {
        Model { dmg: Dmg::default() }
    }
}

impl Model {
    /// Merges `other` onto these options.
    pub fn merge(&mut self, other: Model)
        ensures
            final(self).dmg.rev == over(old(self).dmg.rev, other.dmg.rev),
    {
        self.dmg.merge(other.dmg);
    }
}

} // verus!
