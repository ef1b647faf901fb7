//! Feedbacks: what scores an input by what the observers recorded of its run.

use vstd::prelude::*;
use crate::corpus::testcase::{Testcase, TestcaseView};
use crate::error::Error;
use crate::inputs::Input;
use crate::observers::ObserversTuple;

verus! {

/// The feedbacks of a state, taken together and asked in a fixed order.
///
/// Each relation says which outcomes its step may have. An implementation may
/// narrow them; as they stand they admit every outcome.
pub trait FeedbacksTuple<I: Input>: Sized {
    /// Scoring `input` by `observers` may take the feedbacks from `self` to
    /// `after` and end in `result`.
    open spec fn scores<OT: ObserversTuple>(
        &self,
        input: I,
        observers: OT,
        after: Self,
        result: Result<u32, Error>,
    ) -> bool {
        true
    }

    /// Attaching metadata to `testcase` may take the feedbacks from `self` to
    /// `after`, leave the test case as `attached` and end in `result`.
    open spec fn appends(
        &self,
        testcase: TestcaseView<I>,
        after: Self,
        attached: TestcaseView<I>,
        result: Result<(), Error>,
    ) -> bool {
        true
    }

    /// Dropping what was staged for `input` may take the feedbacks from `self`
    /// to `after` and end in `result`.
    open spec fn discards(&self, input: I, after: Self, result: Result<(), Error>) -> bool {
        true
    }

    /// Scores `input` by what `observers` recorded of its run: zero for an
    /// input that is not worth keeping.
    fn is_interesting_all<OT: ObserversTuple>(&mut self, input: &I, observers: &OT) -> (result:
        Result<u32, Error>)
        ensures
            old(self).scores(*input, *observers, *final(self), result),
    ;

    /// Attaches to `testcase` the metadata that was staged for its input. Only
    /// the metadata of the test case may change.
    fn append_metadata_all(&mut self, testcase: &mut Testcase<I>) -> (result: Result<(), Error>)
        ensures
            old(self).appends(old(testcase)@, *final(self), final(testcase)@, result),
            final(testcase)@.same_but_metadatas(old(testcase)@),
    ;

    /// Drops the metadata that was staged for `input`.
    fn discard_metadata_all(&mut self, input: &I) -> (result: Result<(), Error>)
        ensures
            old(self).discards(*input, *final(self), result),
    ;
}

/// No feedbacks: every input scores zero, nothing is staged and nothing is
/// attached.
impl<I: Input> FeedbacksTuple<I> for () {
    open spec fn appends(
        &self,
        testcase: TestcaseView<I>,
        after: Self,
        attached: TestcaseView<I>,
        result: Result<(), Error>,
    ) -> bool {
        attached == testcase && result is Ok
    }

    open spec fn discards(&self, input: I, after: Self, result: Result<(), Error>) -> bool {
        result is Ok
    }

    fn is_interesting_all<OT: ObserversTuple>(&mut self, input: &I, observers: &OT) -> (result:
        Result<u32, Error>)
        ensures
            result == Ok::<u32, Error>(0),
    {
        Ok(0)
    }

    fn append_metadata_all(&mut self, testcase: &mut Testcase<I>) -> (result: Result<(), Error>) {
        Ok(())
    }

    fn discard_metadata_all(&mut self, input: &I) -> (result: Result<(), Error>) {
        Ok(())
    }
}

} // verus!
