//! The trait that closes the set of types that paths are expanded on.

use vstd::prelude::*;

verus! {

/// Implemented in this crate alone, for the types that hold a path.
pub trait Sealed {

}

impl Sealed for [u8] {

}

} // verus!
