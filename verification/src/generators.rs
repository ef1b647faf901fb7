//! Generators: what makes inputs from nothing.

use vstd::prelude::*;
use crate::error::Error;
use crate::inputs::Input;
use crate::utils::Rand;

verus! {

/// What can make a new input.
pub trait Generator<I: Input, R: Rand>: Sized {
    /// Making an input may take the generator from `self` to `after` and the
    /// random source from `rand` to `rand_after`, and end in `result`.
    open spec fn generates(
        &self,
        rand: R,
        after: Self,
        rand_after: R,
        result: Result<I, Error>,
    ) -> bool {
        true
    }

    /// Makes an input.
    fn generate(&mut self, rand: &mut R) -> (result: Result<I, Error>)
        ensures
            old(self).generates(*old(rand), *final(self), *final(rand), result),
    ;
}

} // verus!
