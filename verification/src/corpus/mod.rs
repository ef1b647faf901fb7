//! The corpus: the test cases that were kept, and the choice of the next one.

pub mod inmemory;
pub mod testcase;

use vstd::prelude::*;
use crate::corpus::testcase::Testcase;
use crate::error::Error;
use crate::inputs::Input;
use crate::utils::Rand;

verus! {

/// The message of the error that a choice from an empty corpus gives.
pub open spec fn empty_corpus_message() -> Seq<char> {
    "No entries in corpus"@
}

/// An indexed collection of test cases with a policy that chooses the next
/// one to work on.
pub trait Corpus<I: Input, R: Rand>: Sized {
    /// The entries, each at its index.
    open spec fn entries(&self) -> Seq<Testcase<I>> {
        arbitrary()
    }

    /// Choosing the next entry may take the corpus from `self` to `after` and
    /// the random source from `rand` to `rand_after`, and end in `result`: the
    /// index of the entry, or a failure.
    open spec fn chooses(
        &self,
        rand: R,
        after: Self,
        rand_after: R,
        result: Result<usize, Error>,
    ) -> bool {
        true
    }

    /// The number of entries.
    fn count(&self) -> (count: usize)
        ensures
            count == self.entries().len(),
    ;

    /// Adds `testcase` behind the entries that are there, which keep their
    /// indices, and hands back the index of the new entry.
    fn add(&mut self, testcase: Testcase<I>) -> (idx: usize)
        ensures
            final(self).entries() == old(self).entries().push(testcase),
            idx == old(self).entries().len(),
    ;

    /// The entry at `idx`.
    fn get(&self, idx: usize) -> (testcase: &Testcase<I>)
        requires
            idx < self.entries().len(),
        ensures
            *testcase == self.entries()[idx as int],
    ;

    /// Chooses the entry to work on next and hands it back with its index. On
    /// an empty corpus the choice fails, with `Error::Empty`. The choice keeps
    /// the number of entries.
    fn next(&mut self, rand: &mut R) -> (result: Result<(&Testcase<I>, usize), Error>)
        ensures
            old(self).chooses(
                *old(rand),
                *final(self),
                *final(rand),
                match result {
                    Ok((_, idx)) => Ok(idx),
                    Err(error) => Err(error),
                },
            ),
            final(self).entries().len() == old(self).entries().len(),
            old(self).entries().len() == 0 ==> result matches Err(Error::Empty(_)),
            result matches Ok((testcase, idx)) ==> idx < final(self).entries().len() && *testcase
                == final(self).entries()[idx as int],
    ;
}

} // verus!
