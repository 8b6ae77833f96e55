use vstd::prelude::*;

verus! {

/// Implemented only inside this crate, so that the lifecycle markers are closed.
pub trait Sealed {}

} // verus!
