//! The engine: the owner of the executor.

use vstd::prelude::*;
use core::marker::PhantomData;
use crate::executors::{Executor, HasObservers};
use crate::inputs::Input;
use crate::observers::ObserversTuple;

verus! {

/// The owner of the executor.
#[verifier::reject_recursive_types(OT)]
#[verifier::reject_recursive_types(I)]
pub struct Engine<E, OT, I> where E: Executor<I> + HasObservers<OT>, OT: ObserversTuple, I: Input {
    executor: E,
    phantom: PhantomData<(OT, I)>,
}

impl<E, OT, I> View for Engine<E, OT, I> where
    E: Executor<I> + HasObservers<OT>,
    OT: ObserversTuple,
    I: Input,
 {
    type V = E;

    /// The executor that the engine owns.
    closed spec fn view(&self) -> E {
        self.executor
    }
}

impl<E, OT, I> Engine<E, OT, I> where
    E: Executor<I> + HasObservers<OT>,
    OT: ObserversTuple,
    I: Input,
 {
    /// The executor.
    pub fn executor(&self) -> (executor: &E)
        ensures
            *executor == self@,
    {
        &self.executor
    }

    /// The executor, to use it or change it in place.
    pub fn executor_mut(&mut self) -> (executor: &mut E)
        ensures
            *executor == old(self)@,
            final(self)@ == *final(executor),
    {
        &mut self.executor
    }

    /// An engine that owns `executor`.
    pub fn new(executor: E) -> (engine: Self)
        ensures
            engine@ == executor,
    {
        Self { executor: executor, phantom: PhantomData }
    }
}

} // verus!
