//! Seeding: filling the corpus with generated inputs before the fuzzing
//! starts.

use vstd::prelude::*;
use crate::corpus::Corpus;
use crate::engines::campaign::{outcome, Campaign};
use crate::engines::engine::Engine;
use crate::engines::state::{
    adds, evaluates, lemma_added_entry_is_found, lemma_evaluation_counts_the_run, State, StateView,
};
use crate::error::Error;
use crate::events::{Event, EventManager, EventView};
use crate::executors::{Executor, HasObservers};
use crate::feedbacks::FeedbacksTuple;
use crate::generators::Generator;
use crate::inputs::Input;
use crate::observers::ObserversTuple;
use crate::utils::Rand;

verus! {

/// The digit that stands for `d`, a number below ten.
pub open spec fn digit(d: nat) -> char {
    (48 + d) as char
}

/// `n` in decimal digits, without leading zeros.
pub open spec fn decimal(n: nat) -> Seq<char>
    decreases n,
{
    if n < 10 {
        seq![digit(n)]
    } else {
        decimal(n / 10).push(digit(n % 10))
    }
}

/// The text of the summary that ends seeding: how many of `num` generated
/// inputs were added to the corpus.
pub open spec fn loaded_message(added: nat, num: nat) -> Seq<char> {
    "Loaded "@ + decimal(added) + " over "@ + decimal(num) + " initial testcases"@
}

/// A round of seeding that ended with `error` because no input could be
/// generated: all but the generator and the random source is as before.
pub open spec fn round_without_input<G, EM, E, OT, FT, C, I, R>(
    generator: G,
    before: Campaign<EM, E, FT, C, R>,
    generator_after: G,
    after: Campaign<EM, E, FT, C, R>,
    error: Error,
) -> bool where
    G: Generator<I, R>,
    EM: EventManager<C, E, I, R>,
    E: Executor<I> + HasObservers<OT>,
    OT: ObserversTuple,
    FT: FeedbacksTuple<I>,
    C: Corpus<I, R>,
    I: Input,
    R: Rand,
 {
    &&& generator.generates(before.rand, generator_after, after.rand, Err(error))
    &&& after == (Campaign { rand: after.rand, ..before })
}

/// A round of seeding that generated `input` and ended with `error` in its
/// evaluation: the corpus and the event manager are as before.
pub open spec fn round_not_evaluated<G, EM, E, OT, FT, C, I, R>(
    generator: G,
    before: Campaign<EM, E, FT, C, R>,
    generator_after: G,
    after: Campaign<EM, E, FT, C, R>,
    input: I,
    error: Error,
) -> bool where
    G: Generator<I, R>,
    EM: EventManager<C, E, I, R>,
    E: Executor<I> + HasObservers<OT>,
    OT: ObserversTuple,
    FT: FeedbacksTuple<I>,
    C: Corpus<I, R>,
    I: Input,
    R: Rand,
 {
    &&& generator.generates(before.rand, generator_after, after.rand, Ok(input))
    &&& evaluates::<I, FT, E, OT>(
        before.state,
        before.executor,
        input,
        after.state,
        after.executor,
        Err(error),
    )
    &&& after.corpus == before.corpus
    &&& after.manager == before.manager
}

/// A round of seeding that generated `input`, evaluated it to `fitness`,
/// which left the state as `scored`, and ended with `error` when the input
/// was to be added or discarded: the event manager is as before.
pub open spec fn round_not_added<G, EM, E, OT, FT, C, I, R>(
    generator: G,
    before: Campaign<EM, E, FT, C, R>,
    generator_after: G,
    after: Campaign<EM, E, FT, C, R>,
    input: I,
    scored: StateView<FT>,
    fitness: u32,
    error: Error,
) -> bool where
    G: Generator<I, R>,
    EM: EventManager<C, E, I, R>,
    E: Executor<I> + HasObservers<OT>,
    OT: ObserversTuple,
    FT: FeedbacksTuple<I>,
    C: Corpus<I, R>,
    I: Input,
    R: Rand,
 {
    &&& generator.generates(before.rand, generator_after, after.rand, Ok(input))
    &&& evaluates::<I, FT, E, OT>(
        before.state,
        before.executor,
        input,
        scored,
        after.executor,
        Ok(fitness),
    )
    &&& adds::<I, R, FT, C>(
        scored,
        before.corpus,
        input,
        fitness,
        after.state,
        after.corpus,
        Err(error),
    )
    &&& after.manager == before.manager
}

/// A round of seeding that generated `input`, evaluated it to `fitness`,
/// which left the state as `scored`, added it at `index` or discarded it, and
/// sent the event that reports it: the round ends as the sending does, and
/// says whether the input was added.
pub open spec fn round_reported<G, EM, E, OT, FT, C, I, R>(
    generator: G,
    before: Campaign<EM, E, FT, C, R>,
    generator_after: G,
    after: Campaign<EM, E, FT, C, R>,
    input: I,
    scored: StateView<FT>,
    fitness: u32,
    index: Option<usize>,
    result: Result<bool, Error>,
) -> bool where
    G: Generator<I, R>,
    EM: EventManager<C, E, I, R>,
    E: Executor<I> + HasObservers<OT>,
    OT: ObserversTuple,
    FT: FeedbacksTuple<I>,
    C: Corpus<I, R>,
    I: Input,
    R: Rand,
 {
    &&& generator.generates(before.rand, generator_after, after.rand, Ok(input))
    &&& evaluates::<I, FT, E, OT>(
        before.state,
        before.executor,
        input,
        scored,
        after.executor,
        Ok(fitness),
    )
    &&& adds::<I, R, FT, C>(
        scored,
        before.corpus,
        input,
        fitness,
        after.state,
        after.corpus,
        Ok(index),
    )
    &&& match result {
        Ok(added) => added == (index is Some) && before.manager.fires(
            EventView::LoadInitial { sender_id: 0 },
            after.manager,
            Ok(()),
        ),
        Err(error) => before.manager.fires(
            EventView::LoadInitial { sender_id: 0 },
            after.manager,
            Err(error),
        ),
    }
}

/// One round of seeding, from `generator` and `before` to `generator_after`
/// and `after`, and how it ends: an input is generated, evaluated, added to
/// the corpus if its score is above zero, and reported by an event, in that
/// order, each step on what the one before left; the first failure ends the
/// round and is handed back. A round that succeeds says whether the input was
/// added.
pub open spec fn seeds_one<G, EM, E, OT, FT, C, I, R>(
    generator: G,
    before: Campaign<EM, E, FT, C, R>,
    generator_after: G,
    after: Campaign<EM, E, FT, C, R>,
    result: Result<bool, Error>,
) -> bool where
    G: Generator<I, R>,
    EM: EventManager<C, E, I, R>,
    E: Executor<I> + HasObservers<OT>,
    OT: ObserversTuple,
    FT: FeedbacksTuple<I>,
    C: Corpus<I, R>,
    I: Input,
    R: Rand,
 {
    ||| result is Err && round_without_input::<G, EM, E, OT, FT, C, I, R>(
        generator,
        before,
        generator_after,
        after,
        result->Err_0,
    )
    ||| result is Err && exists|input: I|
        round_not_evaluated::<G, EM, E, OT, FT, C, I, R>(
            generator,
            before,
            generator_after,
            after,
            input,
            result->Err_0,
        )
    ||| result is Err && exists|input: I, scored: StateView<FT>, fitness: u32|
        round_not_added::<G, EM, E, OT, FT, C, I, R>(
            generator,
            before,
            generator_after,
            after,
            input,
            scored,
            fitness,
            result->Err_0,
        )
    ||| exists|input: I, scored: StateView<FT>, fitness: u32, index: Option<usize>|
        round_reported::<G, EM, E, OT, FT, C, I, R>(
            generator,
            before,
            generator_after,
            after,
            input,
            scored,
            fitness,
            index,
            result,
        )
}

/// `rounds` rounds of seeding, one after the other and all of them
/// successful, lead from `generator` and `before` to `generator_after` and
/// `after`, and `added` of the inputs were added to the corpus.
pub open spec fn seeded<G, EM, E, OT, FT, C, I, R>(
    rounds: nat,
    generator: G,
    before: Campaign<EM, E, FT, C, R>,
    generator_after: G,
    after: Campaign<EM, E, FT, C, R>,
    added: nat,
) -> bool where
    G: Generator<I, R>,
    EM: EventManager<C, E, I, R>,
    E: Executor<I> + HasObservers<OT>,
    OT: ObserversTuple,
    FT: FeedbacksTuple<I>,
    C: Corpus<I, R>,
    I: Input,
    R: Rand,

    decreases rounds,
{
    if rounds == 0 {
        generator_after == generator && after == before && added == 0
    } else {
        exists|g: G, campaign: Campaign<EM, E, FT, C, R>, kept: bool|
            {
                &&& #[trigger] seeds_one::<G, EM, E, OT, FT, C, I, R>(
                    g,
                    campaign,
                    generator_after,
                    after,
                    Ok(kept),
                )
                &&& kept ==> added > 0
                &&& seeded::<G, EM, E, OT, FT, C, I, R>(
                    (rounds - 1) as nat,
                    generator,
                    before,
                    g,
                    campaign,
                    if kept {
                        (added - 1) as nat
                    } else {
                        added
                    },
                )
            }
    }
}

/// A round of seeding that succeeds counts one execution and makes the
/// corpus one entry longer if it says that the input was added, and no longer
/// if not.
pub proof fn lemma_round_counts<G, EM, E, OT, FT, C, I, R>(
    generator: G,
    before: Campaign<EM, E, FT, C, R>,
    generator_after: G,
    after: Campaign<EM, E, FT, C, R>,
    kept: bool,
) where
    G: Generator<I, R>,
    EM: EventManager<C, E, I, R>,
    E: Executor<I> + HasObservers<OT>,
    OT: ObserversTuple,
    FT: FeedbacksTuple<I>,
    C: Corpus<I, R>,
    I: Input,
    R: Rand,

    requires
        before.state.executions < usize::MAX,
        seeds_one::<G, EM, E, OT, FT, C, I, R>(generator, before, generator_after, after, Ok(kept)),
    ensures
        after.state.executions == before.state.executions + 1,
        after.corpus.entries().len() == before.corpus.entries().len() + (if kept {
            1nat
        } else {
            0nat
        }),
{
    let (input, scored, fitness, index) = choose|
        input: I,
        scored: StateView<FT>,
        fitness: u32,
        index: Option<usize>,
    |
        round_reported::<G, EM, E, OT, FT, C, I, R>(
            generator,
            before,
            generator_after,
            after,
            input,
            scored,
            fitness,
            index,
            Ok(kept),
        );
    lemma_evaluation_counts_the_run::<I, FT, E, OT>(
        before.state,
        before.executor,
        input,
        scored,
        after.executor,
        Ok(fitness),
    );
    lemma_added_entry_is_found::<I, R, FT, C>(
        scored,
        before.corpus,
        input,
        fitness,
        after.state,
        after.corpus,
        Ok(index),
    );
}

/// After `rounds` rounds of seeding, all of them successful, the state has
/// counted `rounds` executions more, and the corpus is longer by the number of
/// inputs that were added, which is `rounds` at most.
pub proof fn lemma_seeded_counts<G, EM, E, OT, FT, C, I, R>(
    rounds: nat,
    generator: G,
    before: Campaign<EM, E, FT, C, R>,
    generator_after: G,
    after: Campaign<EM, E, FT, C, R>,
    added: nat,
) where
    G: Generator<I, R>,
    EM: EventManager<C, E, I, R>,
    E: Executor<I> + HasObservers<OT>,
    OT: ObserversTuple,
    FT: FeedbacksTuple<I>,
    C: Corpus<I, R>,
    I: Input,
    R: Rand,

    requires
        before.state.executions + rounds <= usize::MAX,
        seeded::<G, EM, E, OT, FT, C, I, R>(
            rounds,
            generator,
            before,
            generator_after,
            after,
            added,
        ),
    ensures
        added <= rounds,
        after.state.executions == before.state.executions + rounds,
        after.corpus.entries().len() == before.corpus.entries().len() + added,
    decreases rounds,
{
    if rounds > 0 {
        let (g, campaign, kept) = choose|g: G, campaign: Campaign<EM, E, FT, C, R>, kept: bool|
            {
                &&& #[trigger] seeds_one::<G, EM, E, OT, FT, C, I, R>(
                    g,
                    campaign,
                    generator_after,
                    after,
                    Ok(kept),
                )
                &&& kept ==> added > 0
                &&& seeded::<G, EM, E, OT, FT, C, I, R>(
                    (rounds - 1) as nat,
                    generator,
                    before,
                    g,
                    campaign,
                    if kept {
                        (added - 1) as nat
                    } else {
                        added
                    },
                )
            };
        let earlier = if kept {
            (added - 1) as nat
        } else {
            added
        };
        lemma_seeded_counts::<G, EM, E, OT, FT, C, I, R>(
            (rounds - 1) as nat,
            generator,
            before,
            g,
            campaign,
            earlier,
        );
        lemma_round_counts::<G, EM, E, OT, FT, C, I, R>(g, campaign, generator_after, after, kept);
    }
}

/// The event that ends seeding: how many of `num` generated inputs were
/// added to the corpus.
pub open spec fn summary(added: nat, num: nat) -> EventView {
    EventView::Log { sender_id: 0, severity_level: 0, message: loaded_message(added, num) }
}

/// Seeding ended after its rounds with the summary sent, which left the
/// event manager as `told`, and the events that came in handled, which ended
/// in `handled` and may have changed the state and the corpus.
pub open spec fn reported<EM, E, FT, C, I, R>(
    before: Campaign<EM, E, FT, C, R>,
    added: nat,
    num: nat,
    told: EM,
    handled: Result<usize, Error>,
    after: Campaign<EM, E, FT, C, R>,
) -> bool where
    EM: EventManager<C, E, I, R>,
    E: Executor<I>,
    FT: FeedbacksTuple<I>,
    C: Corpus<I, R>,
    I: Input,
    R: Rand,
 {
    &&& before.manager.fires(summary(added, num), told, Ok(()))
    &&& told.processes(
        before.state,
        before.corpus,
        after.manager,
        after.state,
        after.corpus,
        handled,
    )
    &&& after.rand == before.rand
    &&& after.executor == before.executor
}

/// How seeding ends after its rounds, from `before` to `after`: the summary
/// is sent as a log event, then the event manager handles what came in, which
/// may change the state and the corpus. The first failure is handed back.
pub open spec fn reports<EM, E, FT, C, I, R>(
    before: Campaign<EM, E, FT, C, R>,
    added: nat,
    num: nat,
    after: Campaign<EM, E, FT, C, R>,
    result: Result<(), Error>,
) -> bool where
    EM: EventManager<C, E, I, R>,
    E: Executor<I>,
    FT: FeedbacksTuple<I>,
    C: Corpus<I, R>,
    I: Input,
    R: Rand,
 {
    ||| {
        &&& result is Err
        &&& before.manager.fires(summary(added, num), after.manager, Err(result->Err_0))
        &&& after == (Campaign { manager: after.manager, ..before })
    }
    ||| exists|told: EM, handled: Result<usize, Error>|
        {
            &&& #[trigger] reported::<EM, E, FT, C, I, R>(before, added, num, told, handled, after)
            &&& result == outcome(handled)
        }
}

/// How `generate_initial_inputs` takes a generator and a fuzzing run from
/// `generator` and `before` to `generator_after` and `after`, and how it
/// ends: `num` rounds of seeding, then the summary and the handling of
/// events. The first failure ends the call and is handed back.
pub open spec fn seeds<G, EM, E, OT, FT, C, I, R>(
    num: nat,
    generator: G,
    before: Campaign<EM, E, FT, C, R>,
    generator_after: G,
    after: Campaign<EM, E, FT, C, R>,
    result: Result<(), Error>,
) -> bool where
    G: Generator<I, R>,
    EM: EventManager<C, E, I, R>,
    E: Executor<I> + HasObservers<OT>,
    OT: ObserversTuple,
    FT: FeedbacksTuple<I>,
    C: Corpus<I, R>,
    I: Input,
    R: Rand,
 {
    ||| exists|rounds: nat, g: G, campaign: Campaign<EM, E, FT, C, R>, added: nat|
        {
            &&& rounds < num
            &&& result is Err
            &&& #[trigger] seeded::<G, EM, E, OT, FT, C, I, R>(
                rounds,
                generator,
                before,
                g,
                campaign,
                added,
            )
            &&& seeds_one::<G, EM, E, OT, FT, C, I, R>(
                g,
                campaign,
                generator_after,
                after,
                Err(result->Err_0),
            )
        }
    ||| exists|campaign: Campaign<EM, E, FT, C, R>, added: nat|
        {
            &&& #[trigger] seeded::<G, EM, E, OT, FT, C, I, R>(
                num,
                generator,
                before,
                generator_after,
                campaign,
                added,
            )
            &&& reports::<EM, E, FT, C, I, R>(campaign, added, num, after, result)
        }
}

/// `format!`: the summary of seeding, with the two counts in decimal digits.
#[verifier::external_body]
fn initial_load_message(added: usize, num: usize) -> (message: String)
    ensures
        message@ == loaded_message(added as nat, num as nat),
{
    format!("Loaded {} over {} initial testcases", added, num)
}

impl<I, R, FT> State<I, R, FT> where I: Input, R: Rand, FT: FeedbacksTuple<I> {
    /// One round of seeding: generates an input, evaluates it, adds it to the
    /// corpus if it is worth keeping, and reports it by an event. Says whether
    /// the input was added.
    fn seed_one<G, C, E, OT, EM>(
        &mut self,
        rand: &mut R,
        corpus: &mut C,
        generator: &mut G,
        engine: &mut Engine<E, OT, I>,
        manager: &mut EM,
    ) -> (result: Result<bool, Error>) where
        G: Generator<I, R>,
        C: Corpus<I, R>,
        E: Executor<I> + HasObservers<OT>,
        OT: ObserversTuple,
        EM: EventManager<C, E, I, R>,

        requires
            old(self)@.executions < usize::MAX,
        ensures
            seeds_one::<G, EM, E, OT, FT, C, I, R>(
                *old(generator),
                Campaign::of(*old(rand), old(self)@, *old(corpus), old(engine)@, *old(manager)),
                *final(generator),
                Campaign::of(
                    *final(rand),
                    final(self)@,
                    *final(corpus),
                    final(engine)@,
                    *final(manager),
                ),
                result,
            ),
            final(self)@.executions <= old(self)@.executions + 1,
    {
        let ghost g = *generator;
        let ghost before = Campaign::of(*rand, self@, *corpus, engine@, *manager);
        let input = generator.generate(rand)?;
        let ghost generated = input;
        let evaluated = self.evaluate_input(&input, engine.executor_mut());
        assert(evaluated matches Err(error) ==> round_not_evaluated::<G, EM, E, OT, FT, C, I, R>(
            g,
            before,
            *generator,
            Campaign::of(*rand, self@, *corpus, engine@, *manager),
            generated,
            error,
        ));
        let fitness = evaluated?;
        let ghost scored = self@;
        let added = self.add_if_interesting(corpus, input, fitness);
        assert(added matches Err(error) ==> round_not_added::<G, EM, E, OT, FT, C, I, R>(
            g,
            before,
            *generator,
            Campaign::of(*rand, self@, *corpus, engine@, *manager),
            generated,
            scored,
            fitness,
            error,
        ));
        let index = added?;
        let fired = manager.fire(Event::LoadInitial { sender_id: 0 });
        assert(fired is Ok ==> fired->Ok_0 == ());
        assert(round_reported::<G, EM, E, OT, FT, C, I, R>(
            g,
            before,
            *generator,
            Campaign::of(*rand, self@, *corpus, engine@, *manager),
            generated,
            scored,
            fitness,
            index,
            match fired {
                Ok(_) => Ok(index is Some),
                Err(error) => Err(error),
            },
        ));
        fired?;
        Ok(index.is_some())
    }

    /// Seeds the corpus: generates `num` inputs, evaluates each and adds those
    /// that are worth keeping, and reports each by an event; then sends a
    /// summary and lets the event manager handle what came in. The corpus may
    /// still be empty afterwards.
    pub fn generate_initial_inputs<G, C, E, OT, EM>(
        &mut self,
        rand: &mut R,
        corpus: &mut C,
        generator: &mut G,
        engine: &mut Engine<E, OT, I>,
        manager: &mut EM,
        num: usize,
    ) -> (result: Result<(), Error>) where
        G: Generator<I, R>,
        C: Corpus<I, R>,
        E: Executor<I> + HasObservers<OT>,
        OT: ObserversTuple,
        EM: EventManager<C, E, I, R>,

        requires
            old(self)@.executions + num <= usize::MAX,
        ensures
            seeds::<G, EM, E, OT, FT, C, I, R>(
                num as nat,
                *old(generator),
                Campaign::of(*old(rand), old(self)@, *old(corpus), old(engine)@, *old(manager)),
                *final(generator),
                Campaign::of(
                    *final(rand),
                    final(self)@,
                    *final(corpus),
                    final(engine)@,
                    *final(manager),
                ),
                result,
            ),
    {
        let ghost first = Campaign::of(*rand, self@, *corpus, engine@, *manager);
        let ghost first_generator = *generator;
        let mut added: usize = 0;
        let mut i: usize = 0;
        while i < num
            invariant
                i <= num,
                added <= i,
                self@.executions <= first.state.executions + i,
                first.state.executions + num <= usize::MAX,
                first_generator == *old(generator),
                first == Campaign::of(
                    *old(rand),
                    old(self)@,
                    *old(corpus),
                    old(engine)@,
                    *old(manager),
                ),
                seeded::<G, EM, E, OT, FT, C, I, R>(
                    i as nat,
                    first_generator,
                    first,
                    *generator,
                    Campaign::of(*rand, self@, *corpus, engine@, *manager),
                    added as nat,
                ),
            decreases num - i,
        {
            if self.seed_one(rand, corpus, generator, engine, manager)? {
                added += 1;
            }
            i += 1;
        }
        let ghost told = Campaign::of(*rand, self@, *corpus, engine@, *manager);
        manager.fire(Event::log(0, initial_load_message(added, num)))?;
        let ghost heard = *manager;
        let handled = manager.process(self, corpus);
        assert(reported::<EM, E, FT, C, I, R>(
            told,
            added as nat,
            num as nat,
            heard,
            handled,
            Campaign::of(*rand, self@, *corpus, engine@, *manager),
        ));
        handled?;
        Ok(())
    }
}

} // verus!
