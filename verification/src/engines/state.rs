//! The state of a fuzzing run: its counters, its metadata, and the pipeline
//! that evaluates an input and keeps it or discards it.

use vstd::prelude::*;
use core::marker::PhantomData;
use crate::corpus::testcase::{Testcase, TestcaseView};
use crate::corpus::Corpus;
use crate::engines::campaign::outcome;
use crate::error::Error;
use crate::executors::{Executor, ExitKind, HasObservers};
use crate::feedbacks::FeedbacksTuple;
use crate::inputs::Input;
use crate::observers::ObserversTuple;
use crate::engines::registry::{metadata_entries, metadata_map_insert, metadata_map_new};
use crate::utils::{current_milliseconds, Rand};

verus! {

/// A metadata that a component keeps in the state, under a name of its own
/// and in a serial form.
pub trait StateMetadata {
    /// The name under which this metadata is filed.
    open spec fn spec_name(&self) -> Seq<char> {
        arbitrary()
    }

    /// The serial form of this metadata.
    open spec fn spec_to_bytes(&self) -> Seq<u8> {
        arbitrary()
    }

    /// The name of this metadata, by which it is found among the others.
    fn name(&self) -> (name: &'static str)
        ensures
            name@ == self.spec_name(),
    ;

    /// This metadata in its serial form, in which the state keeps it.
    fn to_bytes(&self) -> (bytes: Vec<u8>)
        ensures
            bytes@ == self.spec_to_bytes(),
    ;
}

/// What a state holds, as plain values.
pub struct StateView<FT> {
    /// How many times the executor ran the target.
    pub executions: usize,
    /// When the run started, in milliseconds.
    pub start_time: u64,
    /// The serial form of each metadata on file, by its name.
    pub metadatas: Map<Seq<char>, Seq<u8>>,
    /// The feedbacks that score every input.
    pub feedbacks: FT,
}

impl<FT> StateView<FT> {
    /// This state after one more run of the target.
    pub open spec fn ran_once(self) -> Self {
        StateView { executions: (self.executions + 1) as usize, ..self }
    }

    /// This state with other feedbacks.
    pub open spec fn with_feedbacks(self, feedbacks: FT) -> Self {
        StateView { feedbacks, ..self }
    }
}

/// The executions that each second saw, between `start_time` and `now` (both
/// in milliseconds): none while less than a whole second has gone by.
pub open spec fn throughput(executions: usize, start_time: u64, now: u64) -> u64 {
    let seconds = if now >= start_time {
        (now - start_time) / 1000
    } else {
        0
    };
    if seconds == 0 {
        0
    } else {
        (executions as int / seconds) as u64
    }
}

/// `executor` went to `after` through a reset of the observers and a run of
/// the target on `input`, and both succeeded.
pub open spec fn ran<E: Executor<I>, I: Input>(executor: E, input: I, after: E) -> bool {
    exists|reset: E, exit: ExitKind|
        executor.resets(reset, Ok(())) && #[trigger] reset.runs(input, after, Ok(exit))
}

/// `executor` went to `after` and failed with `error` before a run of the
/// target on `input` was done: in the reset of the observers, or in the run.
pub open spec fn stopped_before_ran<E: Executor<I>, I: Input>(
    executor: E,
    input: I,
    after: E,
    error: Error,
) -> bool {
    ||| executor.resets(after, Err(error))
    ||| exists|reset: E| #[trigger]
        executor.resets(reset, Ok(())) && reset.runs(input, after, Err(error))
}

/// How `evaluate_input` takes a state and an executor from `before` and
/// `executor` to `after` and `executor_after`, and what it hands back.
///
/// The observers are reset, the target is run on `input`, the observers
/// finish, and the feedbacks score the input by the observers: in that order,
/// each step on what the one before left, and the first failure ends the
/// call and is handed back. The run is counted once it is done, whatever
/// comes after. The score is what the feedbacks gave.
pub open spec fn evaluates<I, FT, E, OT>(
    before: StateView<FT>,
    executor: E,
    input: I,
    after: StateView<FT>,
    executor_after: E,
    result: Result<u32, Error>,
) -> bool where
    I: Input,
    FT: FeedbacksTuple<I>,
    E: Executor<I> + HasObservers<OT>,
    OT: ObserversTuple,
 {
    ||| {
        &&& result is Err
        &&& stopped_before_ran(executor, input, executor_after, result->Err_0)
        &&& after == before
    }
    ||| {
        &&& result is Err
        &&& exists|done: E| #[trigger]
            ran(executor, input, done) && done.finishes(executor_after, Err(result->Err_0))
        &&& after == before.ran_once()
    }
    ||| {
        &&& exists|done: E| #[trigger]
            ran(executor, input, done) && done.finishes(executor_after, Ok(()))
        &&& before.feedbacks.scores(
            input,
            executor_after.spec_observers(),
            after.feedbacks,
            result,
        )
        &&& after == before.ran_once().with_feedbacks(after.feedbacks)
    }
}

/// An evaluation counts its run of the target, once: unless the call failed
/// before the run was done, the state has one execution more than before,
/// whatever the score and whether or not a later step failed.
pub proof fn lemma_evaluation_counts_the_run<I, FT, E, OT>(
    before: StateView<FT>,
    executor: E,
    input: I,
    after: StateView<FT>,
    executor_after: E,
    result: Result<u32, Error>,
) where I: Input, FT: FeedbacksTuple<I>, E: Executor<I> + HasObservers<OT>, OT: ObserversTuple
    requires
        before.executions < usize::MAX,
        evaluates::<I, FT, E, OT>(before, executor, input, after, executor_after, result),
        !(result matches Err(error) && stopped_before_ran(executor, input, executor_after, error)),
    ensures
        after.executions == before.executions + 1,
{
}

/// An evaluation changes nothing in the state but the count of executions
/// and the feedbacks, and the count by one at most.
pub proof fn lemma_evaluation_keeps_the_rest<I, FT, E, OT>(
    before: StateView<FT>,
    executor: E,
    input: I,
    after: StateView<FT>,
    executor_after: E,
    result: Result<u32, Error>,
) where I: Input, FT: FeedbacksTuple<I>, E: Executor<I> + HasObservers<OT>, OT: ObserversTuple
    requires
        before.executions < usize::MAX,
        evaluates::<I, FT, E, OT>(before, executor, input, after, executor_after, result),
    ensures
        after.executions == before.executions || after.executions == before.executions + 1,
        after.start_time == before.start_time,
        after.metadatas == before.metadatas,
{
}

/// The outcome of a call that hands back a test case, with the test case as
/// plain values.
pub open spec fn viewed<I: Input>(result: Result<Testcase<I>, Error>) -> Result<
    TestcaseView<I>,
    Error,
> {
    match result {
        Ok(testcase) => Ok(testcase@),
        Err(error) => Err(error),
    }
}

/// The outcome of a call that may hand back a test case, with the test case
/// as plain values.
pub open spec fn viewed_if_any<I: Input>(result: Result<Option<Testcase<I>>, Error>) -> Result<
    Option<TestcaseView<I>>,
    Error,
> {
    match result {
        Ok(Some(testcase)) => Ok(Some(testcase@)),
        Ok(None) => Ok(None),
        Err(error) => Err(error),
    }
}

/// How `discard_input` takes a state from `before` to `after`, and how it
/// ends: the feedbacks drop what they staged for `input`; nothing else
/// changes.
pub open spec fn discards<I: Input, FT: FeedbacksTuple<I>>(
    before: StateView<FT>,
    input: I,
    after: StateView<FT>,
    result: Result<(), Error>,
) -> bool {
    &&& before.feedbacks.discards(input, after.feedbacks, result)
    &&& after == before.with_feedbacks(after.feedbacks)
}

/// How `input_to_testcase` takes a state from `before` to `after`, and what
/// it hands back: a test case is made of `input`, with `fitness` for its
/// score, and the feedbacks attach their metadata to it, which leaves all but
/// its metadata as it was. If they fail, so does the call, and the test case
/// is lost.
pub open spec fn creates<I: Input, FT: FeedbacksTuple<I>>(
    before: StateView<FT>,
    input: I,
    fitness: u32,
    after: StateView<FT>,
    result: Result<TestcaseView<I>, Error>,
) -> bool {
    let made = TestcaseView::fresh(input).with_fitness(fitness);
    &&& after == before.with_feedbacks(after.feedbacks)
    &&& match result {
        Ok(testcase) => {
            &&& before.feedbacks.appends(made, after.feedbacks, testcase, Ok(()))
            &&& testcase.same_but_metadatas(made)
        },
        Err(error) => exists|left: TestcaseView<I>| #[trigger]
            before.feedbacks.appends(made, after.feedbacks, left, Err(error)),
    }
}

/// How `testcase_if_interesting` takes a state from `before` to `after`, and
/// what it hands back: with a score above zero the test case that
/// `input_to_testcase` makes; with a score of zero nothing, after
/// `discard_input`.
pub open spec fn considers<I: Input, FT: FeedbacksTuple<I>>(
    before: StateView<FT>,
    input: I,
    fitness: u32,
    after: StateView<FT>,
    result: Result<Option<TestcaseView<I>>, Error>,
) -> bool {
    if fitness > 0 {
        match result {
            Ok(Some(testcase)) => creates(before, input, fitness, after, Ok(testcase)),
            Ok(None) => false,
            Err(error) => creates(before, input, fitness, after, Err(error)),
        }
    } else {
        match result {
            Ok(Some(_)) => false,
            Ok(None) => discards(before, input, after, Ok(())),
            Err(error) => discards(before, input, after, Err(error)),
        }
    }
}

/// How `add_if_interesting` takes a state and a corpus from `before` and
/// `corpus` to `after` and `corpus_after`, and what it hands back: with a
/// score above zero the test case that `input_to_testcase` makes goes behind
/// the entries of the corpus, and its index is handed back; with a score of
/// zero the corpus stays as it is and nothing is handed back, after
/// `discard_input`. A failure leaves the corpus as it is.
pub open spec fn adds<I: Input, R: Rand, FT: FeedbacksTuple<I>, C: Corpus<I, R>>(
    before: StateView<FT>,
    corpus: C,
    input: I,
    fitness: u32,
    after: StateView<FT>,
    corpus_after: C,
    result: Result<Option<usize>, Error>,
) -> bool {
    if fitness > 0 {
        match result {
            Ok(Some(idx)) => {
                let testcase = corpus_after.entries()[idx as int];
                &&& idx == corpus.entries().len()
                &&& corpus_after.entries() == corpus.entries().push(testcase)
                &&& creates(before, input, fitness, after, Ok(testcase@))
            },
            Ok(None) => false,
            Err(error) => corpus_after == corpus && creates(
                before,
                input,
                fitness,
                after,
                Err(error),
            ),
        }
    } else {
        &&& corpus_after == corpus
        &&& match result {
            Ok(Some(_)) => false,
            Ok(None) => discards(before, input, after, Ok(())),
            Err(error) => discards(before, input, after, Err(error)),
        }
    }
}

/// An input is kept exactly if its score is above zero: with a score of zero
/// `testcase_if_interesting` hands back no test case and ends as the
/// discarding of the input does; with a score above zero, where it succeeds,
/// it hands back a test case with that score and that input.
pub proof fn lemma_kept_iff_interesting<I: Input, FT: FeedbacksTuple<I>>(
    before: StateView<FT>,
    input: I,
    fitness: u32,
    after: StateView<FT>,
    result: Result<Option<TestcaseView<I>>, Error>,
)
    requires
        considers(before, input, fitness, after, result),
    ensures
        fitness == 0 ==> !(result matches Ok(Some(_))) && discards(
            before,
            input,
            after,
            outcome(result),
        ),
        fitness > 0 && result is Ok ==> (result matches Ok(Some(testcase)) && testcase.fitness
            == fitness && testcase.input == Some(input)),
{
}

/// An input with a score above zero that `add_if_interesting` adds makes the
/// corpus one entry longer, and the index that is handed back is that of an
/// entry with that input and that score; the entries before it are as they
/// were. With a score of zero, or where the call fails, the corpus stays as it
/// is.
pub proof fn lemma_added_entry_is_found<I: Input, R: Rand, FT: FeedbacksTuple<I>, C: Corpus<I, R>>(
    before: StateView<FT>,
    corpus: C,
    input: I,
    fitness: u32,
    after: StateView<FT>,
    corpus_after: C,
    result: Result<Option<usize>, Error>,
)
    requires
        adds::<I, R, FT, C>(before, corpus, input, fitness, after, corpus_after, result),
    ensures
        fitness == 0 || result is Err ==> corpus_after == corpus,
        fitness == 0 ==> !(result matches Ok(Some(_))),
        fitness > 0 && result is Ok ==> (result matches Ok(Some(idx)) && {
            &&& idx == corpus.entries().len()
            &&& corpus_after.entries().len() == corpus.entries().len() + 1
            &&& corpus_after.entries().take(idx as int) == corpus.entries()
            &&& corpus_after.entries()[idx as int]@.fitness == fitness
            &&& corpus_after.entries()[idx as int]@.input == Some(input)
        }),
        after.executions == before.executions,
{
    if fitness > 0 && result is Ok {
        let idx = result->Ok_0->Some_0;
    }
}

/// The state of a fuzzing run.
pub struct State<I, R, FT> where I: Input, R: Rand, FT: FeedbacksTuple<I> {
    /// How many times the executor ran the target.
    executions: usize,
    /// When the run started, in milliseconds.
    start_time: u64,
    /// The metadata that the components keep, each under its name.
    metadatas: hashbrown::HashMap<&'static str, Vec<u8>>,
    /// The feedbacks that score every input.
    feedbacks: FT,
    phantom: PhantomData<(I, R)>,
}

impl<I, R, FT> View for State<I, R, FT> where I: Input, R: Rand, FT: FeedbacksTuple<I> {
    type V = StateView<FT>;

    closed spec fn view(&self) -> StateView<FT> {
        StateView {
            executions: self.executions,
            start_time: self.start_time,
            metadatas: metadata_entries(self.metadatas),
            feedbacks: self.feedbacks,
        }
    }
}

impl<I, R, FT> State<I, R, FT> where I: Input, R: Rand, FT: FeedbacksTuple<I> {
    /// How many times the executor ran the target.
    #[inline]
    pub fn executions(&self) -> (executions: usize)
        ensures
            executions == self@.executions,
    {
        self.executions
    }

    /// Sets the number of runs.
    #[inline]
    pub fn set_executions(&mut self, executions: usize)
        ensures
            final(self)@ == (StateView { executions, ..old(self)@ }),
    {
        self.executions = executions
    }

    /// When the run started, in milliseconds.
    #[inline]
    pub fn start_time(&self) -> (start_time: u64)
        ensures
            start_time == self@.start_time,
    {
        self.start_time
    }

    /// Sets the time at which the run started.
    #[inline]
    pub fn set_start_time(&mut self, ms: u64)
        ensures
            final(self)@ == (StateView { start_time: ms, ..old(self)@ }),
    {
        self.start_time = ms
    }

    /// The executions that each second saw, from the start of the run to
    /// `now`, in milliseconds.
    pub fn executions_over_seconds_at(&self, now: u64) -> (rate: u64)
        ensures
            rate == throughput(self@.executions, self@.start_time, now),
    {
        if now < self.start_time {
            return 0;
        }
        let elapsed = (now - self.start_time) / 1000;
        if elapsed == 0 {
            0
        } else {
            (self.executions as u64) / elapsed
        }
    }

    /// The executions that each second saw, from the start of the run to the
    /// moment of the call.
    #[inline]
    pub fn executions_over_seconds(&self) -> (rate: u64)
        ensures
            exists|now: u64| rate == #[trigger] throughput(self@.executions, self@.start_time, now),
            self@.executions == 0 ==> rate == 0,
    {
        self.executions_over_seconds_at(current_milliseconds())
    }

    /// The metadata on file.
    #[inline]
    pub fn metadatas(&self) -> (metadatas: &hashbrown::HashMap<&'static str, Vec<u8>>)
        ensures
            metadata_entries(*metadatas) == self@.metadatas,
    {
        &self.metadatas
    }

    /// The metadata on file, to change it in place.
    #[inline]
    pub fn metadatas_mut(&mut self) -> (metadatas: &mut hashbrown::HashMap<&'static str, Vec<u8>>)
        ensures
            metadata_entries(*metadatas) == old(self)@.metadatas,
            final(self)@ == (StateView {
                metadatas: metadata_entries(*final(metadatas)),
                ..old(self)@
            }),
    {
        &mut self.metadatas
    }

    /// Files `meta` under its name, in place of what was there under it.
    #[inline]
    pub fn add_metadata<M: StateMetadata>(&mut self, meta: M)
        ensures
            final(self)@ == (StateView {
                metadatas: old(self)@.metadatas.insert(meta.spec_name(), meta.spec_to_bytes()),
                ..old(self)@
            }),
    {
        let bytes = meta.to_bytes();
        let _ = metadata_map_insert(&mut self.metadatas, meta.name(), bytes);
    }

    /// The feedbacks.
    #[inline]
    pub fn feedbacks(&self) -> (feedbacks: &FT)
        ensures
            *feedbacks == self@.feedbacks,
    {
        &self.feedbacks
    }

    /// The feedbacks, to change them in place.
    #[inline]
    pub fn feedbacks_mut(&mut self) -> (feedbacks: &mut FT)
        ensures
            *feedbacks == old(self)@.feedbacks,
            final(self)@ == old(self)@.with_feedbacks(*final(feedbacks)),
    {
        &mut self.feedbacks
    }

    /// Runs the target on `input` and scores the run.
    pub fn evaluate_input<E, OT>(&mut self, input: &I, executor: &mut E) -> (result: Result<
        u32,
        Error,
    >) where E: Executor<I> + HasObservers<OT>, OT: ObserversTuple
        requires
            old(self)@.executions < usize::MAX,
        ensures
            evaluates(old(self)@, *old(executor), *input, final(self)@, *final(executor), result),
            result is Ok ==> final(self)@.executions == old(self)@.executions + 1,
            final(self)@.executions == old(self)@.executions || final(self)@.executions == old(
                self,
            )@.executions + 1,
            !(result matches Err(error) && stopped_before_ran(
                *old(executor),
                *input,
                *final(executor),
                error,
            )) ==> final(self)@.executions == old(self)@.executions + 1,
    {
        let ghost fresh = *executor;
        executor.reset_observers()?;
        executor.run_target(input)?;
        assert(ran(fresh, *input, *executor));
        self.set_executions(self.executions() + 1);
        executor.post_exec_observers()?;
        let observers = executor.observers();
        self.feedbacks_mut().is_interesting_all(input, observers)
    }

    /// Has the feedbacks drop what they staged for `input`, which is not kept.
    #[inline]
    pub fn discard_input(&mut self, input: &I) -> (result: Result<(), Error>)
        ensures
            discards(old(self)@, *input, final(self)@, result),
    {
        self.feedbacks_mut().discard_metadata_all(input)
    }

    /// Makes a test case of `input`, with `fitness` for its score and the
    /// metadata of each feedback attached.
    #[inline]
    pub fn input_to_testcase(&mut self, input: I, fitness: u32) -> (result: Result<
        Testcase<I>,
        Error,
    >)
        ensures
            creates(old(self)@, input, fitness, final(self)@, viewed(result)),
            result matches Ok(testcase) ==> testcase@.fitness == fitness && testcase@.input
                == Some(input) && testcase@.is_backed(),
    {
        let mut testcase = Testcase::new(input);
        testcase.set_fitness(fitness);
        let ghost made = testcase@;
        let attached = self.feedbacks_mut().append_metadata_all(&mut testcase);
        assert(old(self)@.feedbacks.appends(made, self@.feedbacks, testcase@, attached));
        attached?;
        Ok(testcase)
    }

    /// Makes a test case of `input` if its score says that it is worth
    /// keeping, and discards it if not.
    #[inline]
    pub fn testcase_if_interesting(&mut self, input: I, fitness: u32) -> (result: Result<
        Option<Testcase<I>>,
        Error,
    >)
        ensures
            considers(old(self)@, input, fitness, final(self)@, viewed_if_any(result)),
            fitness == 0 ==> !(result matches Ok(Some(_))) && discards(
                old(self)@,
                input,
                final(self)@,
                outcome(result),
            ),
            fitness > 0 && result is Ok ==> (result matches Ok(Some(testcase)) && testcase@.fitness
                == fitness && testcase@.input == Some(input)),
    {
        if fitness > 0 {
            Ok(Some(self.input_to_testcase(input, fitness)?))
        } else {
            self.discard_input(&input)?;
            Ok(None)
        }
    }

    /// Adds `input` to the corpus if its score says that it is worth keeping,
    /// and discards it if not.
    #[inline]
    pub fn add_if_interesting<C>(&mut self, corpus: &mut C, input: I, fitness: u32) -> (result:
        Result<Option<usize>, Error>) where C: Corpus<I, R>
        ensures
            adds(
                old(self)@,
                *old(corpus),
                input,
                fitness,
                final(self)@,
                *final(corpus),
                result,
            ),
            fitness == 0 ==> *final(corpus) == *old(corpus) && !(result matches Ok(Some(_))),
            result is Err ==> *final(corpus) == *old(corpus),
            fitness > 0 && result is Ok ==> (result matches Ok(Some(idx)) && {
                &&& idx == old(corpus).entries().len()
                &&& final(corpus).entries().len() == old(corpus).entries().len() + 1
                &&& final(corpus).entries().take(idx as int) == old(corpus).entries()
                &&& final(corpus).entries()[idx as int]@.fitness == fitness
                &&& final(corpus).entries()[idx as int]@.input == Some(input)
            }),
    {
        if fitness > 0 {
            let testcase = self.input_to_testcase(input, fitness)?;
            Ok(Some(corpus.add(testcase)))
        } else {
            self.discard_input(&input)?;
            Ok(None)
        }
    }

    /// A state that has run nothing yet, with `feedbacks` to score what it
    /// will run; the run starts at the moment of the call.
    pub fn new(feedbacks: FT) -> (state: Self)
        ensures
            state@.executions == 0,
            state@.metadatas == (Map::<Seq<char>, Seq<u8>>::empty()),
            state@.feedbacks == feedbacks,
    {
        State {
            executions: 0,
            start_time: current_milliseconds(),
            metadatas: metadata_map_new(),
            feedbacks,
            phantom: PhantomData,
        }
    }
}

} // verus!
