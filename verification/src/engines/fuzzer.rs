//! The fuzzer: the stages, the iteration that performs them on an entry of
//! the corpus, and the turn of the fuzzing loop.

use vstd::prelude::*;
use core::marker::PhantomData;
use crate::corpus::Corpus;
use crate::engines::campaign::Campaign;
use crate::engines::engine::Engine;
use crate::engines::state::{throughput, State, StateView};
use crate::error::Error;
use crate::events::{Event, EventManager, EventView};
use crate::executors::{Executor, HasObservers};
use crate::feedbacks::FeedbacksTuple;
use crate::inputs::Input;
use crate::observers::ObserversTuple;
use crate::stages::Stage;
use crate::utils::{current_milliseconds, Rand};

verus! {

/// The corpus chose the entry at `idx`, which took the fuzzing run from
/// `before` to `after`: the corpus and the random source may have changed.
pub open spec fn chose<EM, E, FT, C, I, R>(
    before: Campaign<EM, E, FT, C, R>,
    after: Campaign<EM, E, FT, C, R>,
    idx: usize,
) -> bool where C: Corpus<I, R>, I: Input, R: Rand {
    &&& before.corpus.chooses(before.rand, after.corpus, after.rand, Ok(idx))
    &&& after == (Campaign { rand: after.rand, corpus: after.corpus, ..before })
}

/// The first `done` of `stages`, each performed with success on the entry at
/// `idx`, in their order and each on what the one before left, take the
/// fuzzing run from `before` to `after`; the stage at each index is then the
/// one at that index in `stages_after`.
pub open spec fn staged<ST, EM, E, OT, FT, C, I, R>(
    done: nat,
    stages: Seq<ST>,
    idx: usize,
    before: Campaign<EM, E, FT, C, R>,
    stages_after: Seq<ST>,
    after: Campaign<EM, E, FT, C, R>,
) -> bool where
    ST: Stage<EM, E, OT, C, I, R>,
    EM: EventManager<C, E, I, R>,
    E: Executor<I> + HasObservers<OT>,
    OT: ObserversTuple,
    FT: FeedbacksTuple<I>,
    C: Corpus<I, R>,
    I: Input,
    R: Rand,

    decreases done,
{
    if done == 0 {
        after == before
    } else {
        exists|campaign: Campaign<EM, E, FT, C, R>|
            {
                &&& #[trigger] stages[done - 1].performs(
                    campaign,
                    idx,
                    stages_after[done - 1],
                    after,
                    Ok(()),
                )
                &&& staged::<ST, EM, E, OT, FT, C, I, R>(
                    (done - 1) as nat,
                    stages,
                    idx,
                    before,
                    stages_after,
                    campaign,
                )
            }
    }
}

/// What the first `done` stages did does not depend on the stages behind
/// them.
proof fn lemma_staged_frame<ST, EM, E, OT, FT, C, I, R>(
    done: nat,
    stages: Seq<ST>,
    idx: usize,
    before: Campaign<EM, E, FT, C, R>,
    stages_after: Seq<ST>,
    stages_later: Seq<ST>,
    after: Campaign<EM, E, FT, C, R>,
) where
    ST: Stage<EM, E, OT, C, I, R>,
    EM: EventManager<C, E, I, R>,
    E: Executor<I> + HasObservers<OT>,
    OT: ObserversTuple,
    FT: FeedbacksTuple<I>,
    C: Corpus<I, R>,
    I: Input,
    R: Rand,

    requires
        staged::<ST, EM, E, OT, FT, C, I, R>(done, stages, idx, before, stages_after, after),
        forall|j: int| 0 <= j < done ==> stages_after[j] == stages_later[j],
    ensures
        staged::<ST, EM, E, OT, FT, C, I, R>(done, stages, idx, before, stages_later, after),
    decreases done,
{
    if done > 0 {
        let campaign = choose|campaign: Campaign<EM, E, FT, C, R>|
            {
                &&& #[trigger] stages[done - 1].performs(
                    campaign,
                    idx,
                    stages_after[done - 1],
                    after,
                    Ok(()),
                )
                &&& staged::<ST, EM, E, OT, FT, C, I, R>(
                    (done - 1) as nat,
                    stages,
                    idx,
                    before,
                    stages_after,
                    campaign,
                )
            };
        lemma_staged_frame::<ST, EM, E, OT, FT, C, I, R>(
            (done - 1) as nat,
            stages,
            idx,
            before,
            stages_after,
            stages_later,
            campaign,
        );
    }
}

/// An iteration that ended with `error` in the stage at `done`, after the
/// corpus chose the entry at `idx`, which left the fuzzing run as `chosen`,
/// and the stages before that one succeeded, which left it as `campaign`. The
/// stages behind the one that failed are as before.
pub open spec fn iteration_stopped<ST, EM, E, OT, FT, C, I, R>(
    stages: Seq<ST>,
    before: Campaign<EM, E, FT, C, R>,
    stages_after: Seq<ST>,
    after: Campaign<EM, E, FT, C, R>,
    idx: usize,
    chosen: Campaign<EM, E, FT, C, R>,
    done: nat,
    campaign: Campaign<EM, E, FT, C, R>,
    error: Error,
) -> bool where
    ST: Stage<EM, E, OT, C, I, R>,
    EM: EventManager<C, E, I, R>,
    E: Executor<I> + HasObservers<OT>,
    OT: ObserversTuple,
    FT: FeedbacksTuple<I>,
    C: Corpus<I, R>,
    I: Input,
    R: Rand,
 {
    &&& chose::<EM, E, FT, C, I, R>(before, chosen, idx)
    &&& done < stages.len()
    &&& staged::<ST, EM, E, OT, FT, C, I, R>(done, stages, idx, chosen, stages_after, campaign)
    &&& stages[done as int].performs(campaign, idx, stages_after[done as int], after, Err(error))
    &&& forall|j: int| done < j < stages.len() ==> stages_after[j] == stages[j]
}

/// An iteration in which the corpus chose the entry at `idx`, which left the
/// fuzzing run as `chosen`, every stage succeeded, which left it as
/// `campaign`, and the event manager handled what came in, which ended in
/// `handled` and may have changed the state and the corpus.
pub open spec fn iteration_done<ST, EM, E, OT, FT, C, I, R>(
    stages: Seq<ST>,
    before: Campaign<EM, E, FT, C, R>,
    stages_after: Seq<ST>,
    after: Campaign<EM, E, FT, C, R>,
    idx: usize,
    chosen: Campaign<EM, E, FT, C, R>,
    campaign: Campaign<EM, E, FT, C, R>,
    handled: Result<usize, Error>,
) -> bool where
    ST: Stage<EM, E, OT, C, I, R>,
    EM: EventManager<C, E, I, R>,
    E: Executor<I> + HasObservers<OT>,
    OT: ObserversTuple,
    FT: FeedbacksTuple<I>,
    C: Corpus<I, R>,
    I: Input,
    R: Rand,
 {
    &&& chose::<EM, E, FT, C, I, R>(before, chosen, idx)
    &&& staged::<ST, EM, E, OT, FT, C, I, R>(
        stages.len(),
        stages,
        idx,
        chosen,
        stages_after,
        campaign,
    )
    &&& campaign.manager.processes(
        campaign.state,
        campaign.corpus,
        after.manager,
        after.state,
        after.corpus,
        handled,
    )
    &&& after.rand == campaign.rand
    &&& after.executor == campaign.executor
}

/// How `fuzz_one` takes the stages and the fuzzing run from `stages` and
/// `before` to `stages_after` and `after`, and what it hands back.
///
/// The corpus chooses an entry; every stage is performed on it, in the order
/// of `stages` and each on what the one before left; then the event manager
/// handles what came in; the index of the entry is handed back. The first
/// failure ends the iteration and is handed back: the stages behind a stage
/// that failed are not performed.
pub open spec fn fuzzes_one<ST, EM, E, OT, FT, C, I, R>(
    stages: Seq<ST>,
    before: Campaign<EM, E, FT, C, R>,
    stages_after: Seq<ST>,
    after: Campaign<EM, E, FT, C, R>,
    result: Result<usize, Error>,
) -> bool where
    ST: Stage<EM, E, OT, C, I, R>,
    EM: EventManager<C, E, I, R>,
    E: Executor<I> + HasObservers<OT>,
    OT: ObserversTuple,
    FT: FeedbacksTuple<I>,
    C: Corpus<I, R>,
    I: Input,
    R: Rand,
 {
    &&& stages_after.len() == stages.len()
    &&& {
        ||| {
            &&& result is Err
            &&& before.corpus.chooses(before.rand, after.corpus, after.rand, Err(result->Err_0))
            &&& after == (Campaign { rand: after.rand, corpus: after.corpus, ..before })
            &&& stages_after == stages
        }
        ||| result is Err && exists|
            idx: usize,
            chosen: Campaign<EM, E, FT, C, R>,
            done: nat,
            campaign: Campaign<EM, E, FT, C, R>,
        |
            iteration_stopped::<ST, EM, E, OT, FT, C, I, R>(
                stages,
                before,
                stages_after,
                after,
                idx,
                chosen,
                done,
                campaign,
                result->Err_0,
            )
        ||| exists|
            idx: usize,
            chosen: Campaign<EM, E, FT, C, R>,
            campaign: Campaign<EM, E, FT, C, R>,
            handled: Result<usize, Error>,
        |
            {
                &&& #[trigger] iteration_done::<ST, EM, E, OT, FT, C, I, R>(
                    stages,
                    before,
                    stages_after,
                    after,
                    idx,
                    chosen,
                    campaign,
                    handled,
                )
                &&& result == (match handled {
                    Ok(_) => Ok::<usize, Error>(idx),
                    Err(error) => Err(error),
                })
            }
    }
}

/// The time between two reports of the statistics, in milliseconds, for a
/// caller that has no other in mind.
pub const STATS_INTERVAL_MS: u64 = 6000;

/// A report of the statistics is due at `now` when more than `interval`
/// milliseconds have gone by since the last one, at `last`.
pub open spec fn report_due(last: u64, now: u64, interval: u64) -> bool {
    now - last > interval
}

/// The event that reports the statistics of `state` at `now`: the executions
/// so far, and how many of them each second saw.
pub open spec fn stats<FT>(state: StateView<FT>, now: u64) -> EventView {
    EventView::UpdateStats {
        sender_id: 0,
        executions: state.executions,
        execs_over_sec: throughput(state.executions, state.start_time, now),
    }
}

/// How `report_stats` takes the event manager from `manager` to `after`, and
/// what it hands back: where a report is due, the statistics are sent and
/// `now` is the time of the last report from then on; where none is due,
/// nothing is sent and `last` stays.
pub open spec fn reports_stats<EM, E, FT, C, I, R>(
    state: StateView<FT>,
    manager: EM,
    last: u64,
    now: u64,
    interval: u64,
    after: EM,
    result: Result<u64, Error>,
) -> bool where EM: EventManager<C, E, I, R>, E: Executor<I>, C: Corpus<I, R>, I: Input, R: Rand {
    if report_due(last, now, interval) {
        match result {
            Ok(reported) => reported == now && manager.fires(stats(state, now), after, Ok(())),
            Err(error) => manager.fires(stats(state, now), after, Err(error)),
        }
    } else {
        after == manager && result == Ok::<u64, Error>(last)
    }
}

/// Sends the statistics of `state` if a report is due at `now`, `last` being
/// the time of the last one. Hands back the time of the last report as it is
/// after the call.
pub fn report_stats<EM, E, FT, C, I, R>(
    state: &State<I, R, FT>,
    manager: &mut EM,
    last: u64,
    now: u64,
    interval: u64,
) -> (result: Result<u64, Error>) where
    EM: EventManager<C, E, I, R>,
    E: Executor<I>,
    FT: FeedbacksTuple<I>,
    C: Corpus<I, R>,
    I: Input,
    R: Rand,

    ensures
        reports_stats::<EM, E, FT, C, I, R>(
            state@,
            *old(manager),
            last,
            now,
            interval,
            *final(manager),
            result,
        ),
{
    if now > last && now - last > interval {
        let event = Event::update_stats(state.executions(), state.executions_over_seconds_at(now));
        manager.fire(event)?;
        Ok(now)
    } else {
        Ok(last)
    }
}

/// A turn of the fuzzing loop in which the iteration succeeded, on the entry
/// at `idx`, which left the fuzzing run as `iterated`, and the statistics
/// were then reported, if a report was due at `now`.
pub open spec fn turn_reported<ST, EM, E, OT, FT, C, I, R>(
    stages: Seq<ST>,
    before: Campaign<EM, E, FT, C, R>,
    last: u64,
    interval: u64,
    stages_after: Seq<ST>,
    after: Campaign<EM, E, FT, C, R>,
    idx: usize,
    iterated: Campaign<EM, E, FT, C, R>,
    now: u64,
    result: Result<u64, Error>,
) -> bool where
    ST: Stage<EM, E, OT, C, I, R>,
    EM: EventManager<C, E, I, R>,
    E: Executor<I> + HasObservers<OT>,
    OT: ObserversTuple,
    FT: FeedbacksTuple<I>,
    C: Corpus<I, R>,
    I: Input,
    R: Rand,
 {
    &&& fuzzes_one::<ST, EM, E, OT, FT, C, I, R>(stages, before, stages_after, iterated, Ok(idx))
    &&& reports_stats::<EM, E, FT, C, I, R>(
        iterated.state,
        iterated.manager,
        last,
        now,
        interval,
        after.manager,
        result,
    )
    &&& after == (Campaign { manager: after.manager, ..iterated })
}

/// How one turn of the fuzzing loop takes the stages and the fuzzing run from
/// `stages` and `before` to `stages_after` and `after`, and what it hands
/// back: one iteration, then the report of the statistics if one is due at
/// the time that the clock shows. A failure of either ends the turn and is
/// handed back; otherwise the time of the last report is.
pub open spec fn turns<ST, EM, E, OT, FT, C, I, R>(
    stages: Seq<ST>,
    before: Campaign<EM, E, FT, C, R>,
    last: u64,
    interval: u64,
    stages_after: Seq<ST>,
    after: Campaign<EM, E, FT, C, R>,
    result: Result<u64, Error>,
) -> bool where
    ST: Stage<EM, E, OT, C, I, R>,
    EM: EventManager<C, E, I, R>,
    E: Executor<I> + HasObservers<OT>,
    OT: ObserversTuple,
    FT: FeedbacksTuple<I>,
    C: Corpus<I, R>,
    I: Input,
    R: Rand,
 {
    ||| result is Err && fuzzes_one::<ST, EM, E, OT, FT, C, I, R>(
        stages,
        before,
        stages_after,
        after,
        Err(result->Err_0),
    )
    ||| exists|idx: usize, iterated: Campaign<EM, E, FT, C, R>, now: u64|
        turn_reported::<ST, EM, E, OT, FT, C, I, R>(
            stages,
            before,
            last,
            interval,
            stages_after,
            after,
            idx,
            iterated,
            now,
            result,
        )
}

/// A fuzzer: the stages, in their order, and the iteration that performs
/// them.
pub trait Fuzzer<ST, EM, E, OT, C, I, R>: Sized where
    ST: Stage<EM, E, OT, C, I, R>,
    EM: EventManager<C, E, I, R>,
    E: Executor<I> + HasObservers<OT>,
    OT: ObserversTuple,
    C: Corpus<I, R>,
    I: Input,
    R: Rand,
 {
    /// The stages, in the order in which an iteration performs them.
    open spec fn spec_stages(&self) -> Seq<ST> {
        arbitrary()
    }

    /// The stages.
    fn stages(&self) -> (stages: &[ST])
        ensures
            stages@ == self.spec_stages(),
    ;

    /// The stages, to change them in place.
    fn stages_mut(&mut self) -> (stages: &mut Vec<ST>)
        ensures
            stages@ == old(self).spec_stages(),
            final(self).spec_stages() == final(stages)@,
    ;

    /// Puts `stage` behind the stages that are there.
    fn add_stage(&mut self, stage: ST)
        ensures
            final(self).spec_stages() == old(self).spec_stages().push(stage),
    {
        self.stages_mut().push(stage);
    }

    /// One iteration: chooses an entry of the corpus, performs every stage on
    /// it, and lets the event manager handle what came in. Hands back the
    /// index of the entry.
    #[verifier::loop_isolation(false)]
    fn fuzz_one<FT>(
        &mut self,
        rand: &mut R,
        state: &mut State<I, R, FT>,
        corpus: &mut C,
        engine: &mut Engine<E, OT, I>,
        manager: &mut EM,
    ) -> (result: Result<usize, Error>) where FT: FeedbacksTuple<I>
        ensures
            fuzzes_one::<ST, EM, E, OT, FT, C, I, R>(
                old(self).spec_stages(),
                Campaign::of(*old(rand), old(state)@, *old(corpus), old(engine)@, *old(manager)),
                final(self).spec_stages(),
                Campaign::of(
                    *final(rand),
                    final(state)@,
                    *final(corpus),
                    final(engine)@,
                    *final(manager),
                ),
                result,
            ),
            old(corpus).entries().len() == 0 ==> result matches Err(Error::Empty(_)),
    {
        let ghost before = Campaign::of(*rand, state@, *corpus, engine@, *manager);
        let ghost first = self.spec_stages();
        let (_, idx) = corpus.next(rand)?;
        let ghost chosen = Campaign::of(*rand, state@, *corpus, engine@, *manager);
        let stages = self.stages_mut();
        let mut i: usize = 0;
        while i < stages.len()
            invariant
                i <= stages.len(),
                stages.len() == first.len(),
                before.corpus == *old(corpus),
                before.corpus.entries().len() != 0,
                chose::<EM, E, FT, C, I, R>(before, chosen, idx),
                forall|j: int| i <= j < first.len() ==> stages@[j] == first[j],
                staged::<ST, EM, E, OT, FT, C, I, R>(
                    i as nat,
                    first,
                    idx,
                    chosen,
                    stages@,
                    Campaign::of(*rand, state@, *corpus, engine@, *manager),
                ),
            decreases stages.len() - i,
        {
            let ghost campaign = Campaign::of(*rand, state@, *corpus, engine@, *manager);
            let ghost earlier = stages@;
            let performed = stages[i].perform(rand, state, corpus, engine, manager, idx);
            let ghost now = Campaign::of(*rand, state@, *corpus, engine@, *manager);
            proof {
                lemma_staged_frame::<ST, EM, E, OT, FT, C, I, R>(
                    i as nat,
                    first,
                    idx,
                    chosen,
                    earlier,
                    stages@,
                    campaign,
                );
                assert(performed is Ok ==> performed->Ok_0 == ());
                assert(performed is Ok ==> first[(i + 1) - 1].performs(
                    campaign,
                    idx,
                    stages@[(i + 1) - 1],
                    now,
                    Ok(()),
                ));
                assert(performed matches Err(error) ==> iteration_stopped::<
                    ST,
                    EM,
                    E,
                    OT,
                    FT,
                    C,
                    I,
                    R,
                >(first, before, stages@, now, idx, chosen, i as nat, campaign, error));
            }
            performed?;
            i += 1;
        }
        let ghost campaign = Campaign::of(*rand, state@, *corpus, engine@, *manager);
        let ghost last = stages@;
        let handled = manager.process(state, corpus);
        assert(iteration_done::<ST, EM, E, OT, FT, C, I, R>(
            first,
            before,
            last,
            Campaign::of(*rand, state@, *corpus, engine@, *manager),
            idx,
            chosen,
            campaign,
            handled,
        ));
        handled?;
        Ok(idx)
    }

    /// One turn of the fuzzing loop: one iteration, then a report of the
    /// statistics if more than `interval` milliseconds have gone by since the
    /// last one, at `last`. Hands back the time of the last report as it is
    /// after the turn, for the next turn. The loop itself never ends, so it is
    /// left to the caller.
    fn fuzz_loop_step<FT>(
        &mut self,
        rand: &mut R,
        state: &mut State<I, R, FT>,
        corpus: &mut C,
        engine: &mut Engine<E, OT, I>,
        manager: &mut EM,
        last: u64,
        interval: u64,
    ) -> (result: Result<u64, Error>) where FT: FeedbacksTuple<I>
        ensures
            turns::<ST, EM, E, OT, FT, C, I, R>(
                old(self).spec_stages(),
                Campaign::of(*old(rand), old(state)@, *old(corpus), old(engine)@, *old(manager)),
                last,
                interval,
                final(self).spec_stages(),
                Campaign::of(
                    *final(rand),
                    final(state)@,
                    *final(corpus),
                    final(engine)@,
                    *final(manager),
                ),
                result,
            ),
    {
        let ghost stages = self.spec_stages();
        let ghost before = Campaign::of(*rand, state@, *corpus, engine@, *manager);
        let idx = self.fuzz_one(rand, state, corpus, engine, manager)?;
        let ghost iterated = Campaign::of(*rand, state@, *corpus, engine@, *manager);
        let now = current_milliseconds();
        let result = report_stats(state, manager, last, now, interval);
        assert(turn_reported::<ST, EM, E, OT, FT, C, I, R>(
            stages,
            before,
            last,
            interval,
            self.spec_stages(),
            Campaign::of(*rand, state@, *corpus, engine@, *manager),
            idx,
            iterated,
            now,
            result,
        ));
        result
    }
}

/// The fuzzer that holds its stages and nothing else.
pub struct StdFuzzer<ST, EM, E, OT, C, I, R> where
    ST: Stage<EM, E, OT, C, I, R>,
    EM: EventManager<C, E, I, R>,
    E: Executor<I> + HasObservers<OT>,
    OT: ObserversTuple,
    C: Corpus<I, R>,
    I: Input,
    R: Rand,
 {
    stages: Vec<ST>,
    phantom: PhantomData<(EM, E, OT, C, I, R)>,
}

impl<ST, EM, E, OT, C, I, R> Fuzzer<ST, EM, E, OT, C, I, R> for StdFuzzer<
    ST,
    EM,
    E,
    OT,
    C,
    I,
    R,
> where
    ST: Stage<EM, E, OT, C, I, R>,
    EM: EventManager<C, E, I, R>,
    E: Executor<I> + HasObservers<OT>,
    OT: ObserversTuple,
    C: Corpus<I, R>,
    I: Input,
    R: Rand,
 {
    closed spec fn spec_stages(&self) -> Seq<ST> {
        self.stages@
    }

    fn stages(&self) -> (stages: &[ST]) {
        self.stages.as_slice()
    }

    fn stages_mut(&mut self) -> (stages: &mut Vec<ST>) {
        &mut self.stages
    }
}

impl<ST, EM, E, OT, C, I, R> StdFuzzer<ST, EM, E, OT, C, I, R> where
    ST: Stage<EM, E, OT, C, I, R>,
    EM: EventManager<C, E, I, R>,
    E: Executor<I> + HasObservers<OT>,
    OT: ObserversTuple,
    C: Corpus<I, R>,
    I: Input,
    R: Rand,
 {
    /// A fuzzer without stages.
    pub fn new() -> (fuzzer: Self)
        ensures
            fuzzer.spec_stages() == Seq::<ST>::empty(),
    {
        Self { stages: vec![], phantom: PhantomData }
    }
}

} // verus!
