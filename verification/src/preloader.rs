//! The interface of a value source that a background producer can drive.

use vstd::prelude::*;

verus! {

/// Something that yields one value after another.
pub trait Generator {
    type Output: Sized;

    fn generate(&mut self) -> Self::Output;
}

} // verus!
