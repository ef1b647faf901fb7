//! What a fuzzing run works on, taken together.

use vstd::prelude::*;
use crate::engines::state::StateView;
use crate::error::Error;

verus! {

/// Whether a call succeeded, and if not, why not.
pub open spec fn outcome<T>(result: Result<T, Error>) -> Result<(), Error> {
    match result {
        Ok(_) => Ok(()),
        Err(error) => Err(error),
    }
}

/// What a fuzzing run works on, as plain values: the random source, the
/// state, the corpus, the executor of the engine and the event manager.
pub struct Campaign<EM, E, FT, C, R> {
    /// The source of random numbers.
    pub rand: R,
    /// What the state holds.
    pub state: StateView<FT>,
    /// The corpus.
    pub corpus: C,
    /// The executor that the engine owns.
    pub executor: E,
    /// The event manager.
    pub manager: EM,
}

impl<EM, E, FT, C, R> Campaign<EM, E, FT, C, R> {
    /// The fuzzing run that is made of these five.
    pub open spec fn of(
        rand: R,
        state: StateView<FT>,
        corpus: C,
        executor: E,
        manager: EM,
    ) -> Self {
        Campaign { rand, state, corpus, executor, manager }
    }
}

} // verus!
