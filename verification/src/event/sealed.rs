use vstd::prelude::*;

verus! {

/// Restricts the cycle-kind markers to the types of this crate.
pub trait Sealed {}

} // verus!
