//! Keeps the set of constructor markers closed.
use vstd::prelude::*;

verus! {

/// Implemented by the constructor markers only.
pub trait Sealed {}

impl Sealed for super::constructor::Modifiable {}

impl Sealed for super::constructor::InputsOnlyModifiable {}

impl Sealed for super::constructor::OutputsOnlyModifiable {}

} // verus!
