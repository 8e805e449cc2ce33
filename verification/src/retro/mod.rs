//! Plain values of the `libretro` interface.

pub mod dev;
pub mod loc;
pub mod pix;
