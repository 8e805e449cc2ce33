//! Configuration schema for the emulator's frontends.
//!
//! To layer configuration from different sources, merge one configuration
//! onto another. A merge is always performed right onto left, meaning the
//! left's values are overwritten by the right's, if present: an option is
//! present when it holds a value, a number when it is not zero, and a flag
//! when it is set.

pub mod cli;
pub mod group;
pub mod model;
pub mod opt;
pub mod path;
pub mod speed;
