//! The sealing trait: implemented only inside this crate, so that the
//! traits bounded by it cannot be implemented elsewhere.

use vstd::prelude::*;

verus! {

/// Implemented by this crate's types only; seals the traits that bound it.
pub trait Sealed {

}

} // verus!
