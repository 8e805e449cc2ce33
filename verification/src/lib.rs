//! Verified building blocks of a Game Boy emulator and its tooling.

pub mod arch;
pub mod bfmt;
pub mod cfg;
pub mod chex;
pub mod dmg;
pub mod derange;
pub mod enuf;
pub mod gbd;
pub mod hexicolor;
pub mod parts;
pub mod phex;
pub mod radix;
pub mod retro;
pub mod tell;
pub mod text;
pub mod wrange;
