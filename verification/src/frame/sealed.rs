use vstd::prelude::*;

verus! {

/// Restricts the frame and origin marker traits to the types of this crate.
pub trait Sealed {}

} // verus!
