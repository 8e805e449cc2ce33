//! Game Boy hardware models.

pub mod spec;
