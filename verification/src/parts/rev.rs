//! Revision markers.

use vstd::prelude::*;

verus! {

/// Seals [`Revision`] to the marker types of this crate.
pub(crate) trait Sealed {}

/// Hardware revision marker.
#[allow(private_bounds)]
pub trait Revision: Sealed + core::fmt::Debug + core::fmt::Display + Default + Send + Sync + 'static {}

impl<T: Sealed + core::fmt::Debug + core::fmt::Display + Default + Send + Sync + 'static> Revision for T {}

} // verus!
