//! The stable surface of the commitment contracts: the interface version and
//! the standardized error catalogue.

use vstd::prelude::*;

pub mod category;
pub mod error;

verus! {

/// The generation of the commitment ABI that this interface describes.
pub const INTERFACE_VERSION: u32 = 2;

/// Marker for the interface-only contract; it holds no state and no logic.
pub struct CommitmentInterface;

} // verus!
