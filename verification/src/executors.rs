//! Executors: what runs the target.

use vstd::prelude::*;
use crate::error::Error;
use crate::inputs::Input;
use crate::observers::ObserversTuple;

verus! {

/// How a run of the target ended.
#[derive(Debug, Clone, Copy, PartialEq, Eq)]
pub enum ExitKind {
    /// The target returned.
    Normal,
    /// The target crashed.
    Crash,
    /// The target ran out of memory.
    OOM,
    /// The target did not return in time.
    Timeout,
}

/// What can run the target on an input, with the observer steps before and
/// after the run.
///
/// Each relation says which outcomes its step may have: the executor that the
/// step leaves and what it hands back. An implementation may narrow them; as
/// they stand they admit every outcome.
pub trait Executor<I: Input>: Sized {
    /// A reset of the observers may take the executor from `self` to `after`
    /// and end in `result`.
    open spec fn resets(&self, after: Self, result: Result<(), Error>) -> bool {
        true
    }

    /// A run of the target on `input` may take the executor from `self` to
    /// `after` and end in `result`.
    open spec fn runs(&self, input: I, after: Self, result: Result<ExitKind, Error>) -> bool {
        true
    }

    /// The observers' step after a run may take the executor from `self` to
    /// `after` and end in `result`.
    open spec fn finishes(&self, after: Self, result: Result<(), Error>) -> bool {
        true
    }

    /// Resets the observers, so that nothing of an earlier run is left in them.
    fn reset_observers(&mut self) -> (result: Result<(), Error>)
        ensures
            old(self).resets(*final(self), result),
    ;

    /// Runs the target on `input`.
    fn run_target(&mut self, input: &I) -> (result: Result<ExitKind, Error>)
        ensures
            old(self).runs(*input, *final(self), result),
    ;

    /// Lets the observers finish what they recorded of the run.
    fn post_exec_observers(&mut self) -> (result: Result<(), Error>)
        ensures
            old(self).finishes(*final(self), result),
    ;
}

/// An executor that holds observers.
pub trait HasObservers<OT: ObserversTuple>: Sized {
    /// The observers that the executor holds.
    open spec fn spec_observers(&self) -> OT {
        arbitrary()
    }

    /// The observers.
    fn observers(&self) -> (observers: &OT)
        ensures
            *observers == self.spec_observers(),
    ;

    /// The observers, to change them in place.
    fn observers_mut(&mut self) -> (observers: &mut OT)
        ensures
            *observers == old(self).spec_observers(),
            final(self).spec_observers() == *final(observers),
    ;
}

} // verus!
