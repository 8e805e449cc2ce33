//! Hardware parts of the Game Boy.

pub mod rev;
pub mod serial;
pub mod timer;
