//! A corpus that keeps its entries in memory and chooses among them at
//! random.

use vstd::prelude::*;
use core::marker::PhantomData;
use crate::corpus::testcase::Testcase;
use crate::corpus::{empty_corpus_message, Corpus};
use crate::error::Error;
use crate::inputs::Input;
use crate::utils::{picked, Rand};

verus! {

/// A corpus in memory.
#[verifier::reject_recursive_types(R)]
pub struct InMemoryCorpus<I: Input, R: Rand> {
    entries: Vec<Testcase<I>>,
    phantom: PhantomData<R>,
}

impl<I: Input, R: Rand> InMemoryCorpus<I, R> {
    /// A corpus without entries.
    pub fn new() -> (corpus: Self)
        ensures
            corpus.entries() == Seq::<Testcase<I>>::empty(),
    {
        InMemoryCorpus { entries: Vec::new(), phantom: PhantomData }
    }
}

impl<I: Input, R: Rand> Corpus<I, R> for InMemoryCorpus<I, R> {
    closed spec fn entries(&self) -> Seq<Testcase<I>> {
        self.entries@
    }

    /// The choice fails on a corpus without entries, with `Error::Empty`;
    /// otherwise the index is a number below the number of entries, had from
    /// the random source. The corpus stays as it is.
    open spec fn chooses(
        &self,
        rand: R,
        after: Self,
        rand_after: R,
        result: Result<usize, Error>,
    ) -> bool {
        &&& after == *self
        &&& if self.entries().len() == 0 {
            rand_after == rand && (result matches Err(Error::Empty(message)) && message@
                == empty_corpus_message())
        } else {
            result matches Ok(idx) && idx < self.entries().len() && picked(
                rand,
                self.entries().len() as u64,
                rand_after,
                idx as u64,
            )
        }
    }

    fn count(&self) -> (count: usize) {
        self.entries.len()
    }

    fn add(&mut self, testcase: Testcase<I>) -> (idx: usize) {
        self.entries.push(testcase);
        self.entries.len() - 1
    }

    fn get(&self, idx: usize) -> (testcase: &Testcase<I>) {
        &self.entries[idx]
    }

    fn next(&mut self, rand: &mut R) -> (result: Result<(&Testcase<I>, usize), Error>) {
        if self.entries.len() == 0 {
            Err(Error::Empty("No entries in corpus".to_owned()))
        } else {
            let len = self.entries.len();
            let id = rand.below(len as u64) as usize;
            Ok((&self.entries[id], id))
        }
    }
}

} // verus!
