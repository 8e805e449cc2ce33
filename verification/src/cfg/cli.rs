//! Command-line frontend configuration.

use std::path::PathBuf;
use vstd::prelude::*;

verus! {

/// Game Boy main clock frequency, set to 4,194,304 Hz.
pub const FREQUENCY: u32 = 4_194_304;

/// Console hardware description.
#[derive(Debug)]
pub struct Hardware {
    /// Boot ROM image file.
    pub boot: Option<PathBuf>,
}

impl Default for Hardware {
    fn default() -> (r: Self)
        ensures
            r.boot is None,
    {
        Hardware { boot: None }
    }
}

/// Console hardware model.
#[derive(Clone, Copy, Debug, PartialEq, Eq, Structural)]
pub enum Model {
    /// Game Boy
    Dmg,
}

impl Default for Model {
    fn default() -> (r: Self)
        ensures
            r == Model::Dmg,
    {
        Model::Dmg
    }
}

/// Simulated clock frequency.
#[derive(Clone, Copy, Debug, PartialEq, Eq, Structural)]
pub enum Speed {
    /// Half speed mode.
    ///
    /// Convenience preset resulting in emulation at half speed.
    Half,
    /// Actual hardware speed.
    ///
    /// Mimics the actual hardware clock frequency. Equal to 4 MiHz (60 FPS).
    Actual,
    /// Double speed mode.
    ///
    /// Convenience preset resulting in emulation at double speed.
    Double,
    /// Frame rate.
    ///
    /// Frequency that targets supplied frame rate (FPS).
    Rate(u8),
    /// Clock frequency.
    ///
    /// Precise frequency (Hz) to clock the emulator.
    Freq(u32),
    /// Maximum possible.
    ///
    /// Unconstrained, limited only by the host system's capabilities.
    Max,
}

impl Default for Speed {
    fn default() -> (r: Self)
        ensures
            r == Speed::Actual,
    {
        Speed::Actual
    }
}

/// The frequency of a speed, if it is bounded: the clock frequency for one
/// frame in sixty, times the frame rate, for a frame rate.
pub open spec fn speed_freq(speed: Speed) -> Option<u32> {
    match speed {
        Speed::Half => Some((FREQUENCY / 2) as u32),
        Speed::Actual => Some(FREQUENCY),
        Speed::Double => Some((FREQUENCY * 2) as u32),
        Speed::Rate(rate) => Some(((FREQUENCY / 60) * rate) as u32),
        Speed::Freq(freq) => Some(freq),
        Speed::Max => None,
    }
}

impl Speed {
    /// Converts the `Speed` to its corresponding frequency.
    pub fn freq(self) -> (r: Option<u32>)
        ensures
            r == speed_freq(self),
    {
        match self {
            Speed::Half => Some(FREQUENCY / 2),
            Speed::Actual => Some(FREQUENCY),
            Speed::Double => Some(FREQUENCY * 2),
            Speed::Rate(rate) => {
                // At most 255 frames of 69,905 cycles: never saturates.
                let per_frame: u32 = FREQUENCY / 60;
                assert(per_frame == 69905);
                Some(per_frame * (rate as u32))
            },
            Speed::Freq(freq) => Some(freq),
            Speed::Max => None,
        }
    }
}

/// How a cartridge is made from the command line's options.
#[derive(Clone, Copy, Debug, PartialEq, Eq, Structural)]
pub enum Load {
    /// A blank cartridge, without a ROM.
    Blank,
    /// From the ROM, whatever its data.
    Unchecked,
    /// From the ROM, once its header and global checksums match.
    Checked,
    /// From the ROM, as its header describes it.
    Plain,
}

/// The error of asking for no cartridge without forcing one.
#[derive(Clone, Copy, Debug, PartialEq, Eq, Structural)]
pub struct MissingCart;

/// Chooses how to make the cartridge: with a ROM, forcing wins over
/// checking; without one, only a forced, blank cartridge can be made.
pub fn cart_load(rom: bool, check: bool, force: bool) -> (r: Result<Load, MissingCart>)
    ensures
        r == if rom {
            Ok::<Load, MissingCart>(
                if force {
                    Load::Unchecked
                } else if check {
                    Load::Checked
                } else {
                    Load::Plain
                },
            )
        } else if force {
            Ok(Load::Blank)
        } else {
            Err(MissingCart)
        },
{
    if rom {
        if force {
            Ok(Load::Unchecked)
        } else if check {
            Ok(Load::Checked)
        } else {
            Ok(Load::Plain)
        }
    } else if force {
        Ok(Load::Blank)
    } else {
        Err(MissingCart)
    }
}

} // verus!
