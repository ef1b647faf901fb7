//! Stages: the steps that one fuzzing iteration takes on the chosen entry.

use vstd::prelude::*;
use crate::corpus::Corpus;
use crate::engines::{Campaign, Engine, State};
use crate::error::Error;
use crate::events::EventManager;
use crate::executors::{Executor, HasObservers};
use crate::feedbacks::FeedbacksTuple;
use crate::inputs::Input;
use crate::observers::ObserversTuple;
use crate::utils::Rand;

verus! {

/// One step of a fuzzing iteration, such as a round of mutations of the
/// chosen entry.
pub trait Stage<EM, E, OT, C, I, R>: Sized where
    EM: EventManager<C, E, I, R>,
    E: Executor<I> + HasObservers<OT>,
    OT: ObserversTuple,
    C: Corpus<I, R>,
    I: Input,
    R: Rand,
 {
    /// Performing the stage on the entry at `corpus_idx` may take the stage
    /// from `self` to `after` and the fuzzing run from `before` to
    /// `campaign_after`, and end in `result`. An implementation may narrow the
    /// relation; as it stands it admits every outcome.
    open spec fn performs<FT: FeedbacksTuple<I>>(
        &self,
        before: Campaign<EM, E, FT, C, R>,
        corpus_idx: usize,
        after: Self,
        campaign_after: Campaign<EM, E, FT, C, R>,
        result: Result<(), Error>,
    ) -> bool {
        true
    }

    /// Performs the stage on the entry at `corpus_idx`.
    fn perform<FT: FeedbacksTuple<I>>(
        &mut self,
        rand: &mut R,
        state: &mut State<I, R, FT>,
        corpus: &mut C,
        engine: &mut Engine<E, OT, I>,
        manager: &mut EM,
        corpus_idx: usize,
    ) -> (result: Result<(), Error>)
        ensures
            old(self).performs(
                Campaign::of(*old(rand), old(state)@, *old(corpus), old(engine)@, *old(manager)),
                corpus_idx,
                *final(self),
                Campaign::of(
                    *final(rand),
                    final(state)@,
                    *final(corpus),
                    final(engine)@,
                    *final(manager),
                ),
                result,
            ),
    ;
}

} // verus!
