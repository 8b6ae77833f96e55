use vstd::prelude::*;

verus! {

/// Implemented only inside this crate, so that the access markers are closed.
pub trait Sealed {}

} // verus!
