//! Events: what the engine tells the outside, and the manager that carries it.

use vstd::prelude::*;
use crate::corpus::Corpus;
use crate::engines::{State, StateView};
use crate::error::Error;
use crate::executors::Executor;
use crate::feedbacks::FeedbacksTuple;
use crate::inputs::Input;
use crate::utils::Rand;

verus! {

/// What the engine reports.
#[derive(Debug, PartialEq, Eq)]
pub enum Event {
    /// An initial test case was generated and evaluated.
    LoadInitial { sender_id: u64 },
    /// A message for the log.
    Log { sender_id: u64, severity_level: u8, message: String },
    /// The count of executions so far, and how many of them a second saw.
    UpdateStats { sender_id: u64, executions: usize, execs_over_sec: u64 },
}

/// An event as plain values.
pub enum EventView {
    /// An initial test case was generated and evaluated.
    LoadInitial { sender_id: u64 },
    /// A message for the log.
    Log { sender_id: u64, severity_level: u8, message: Seq<char> },
    /// The count of executions so far, and how many of them a second saw.
    UpdateStats { sender_id: u64, executions: usize, execs_over_sec: u64 },
}

impl View for Event {
    type V = EventView;

    open spec fn view(&self) -> EventView {
        match *self {
            Event::LoadInitial { sender_id } => EventView::LoadInitial { sender_id },
            Event::Log { sender_id, severity_level, message } => EventView::Log {
                sender_id,
                severity_level,
                message: message@,
            },
            Event::UpdateStats { sender_id, executions, execs_over_sec } => EventView::UpdateStats {
                sender_id,
                executions,
                execs_over_sec,
            },
        }
    }
}

impl Event {
    /// A message for the log, from this process.
    pub fn log(severity_level: u8, message: String) -> (event: Self)
        ensures
            event@ == (EventView::Log { sender_id: 0, severity_level, message: message@ }),
    {
        Event::Log { sender_id: 0, severity_level, message }
    }

    /// A report of the executions so far, from this process.
    pub fn update_stats(executions: usize, execs_over_sec: u64) -> (event: Self)
        ensures
            event@ == (EventView::UpdateStats { sender_id: 0, executions, execs_over_sec }),
    {
        Event::UpdateStats { sender_id: 0, executions, execs_over_sec }
    }
}

/// What carries events out and brings in those of others.
///
/// Each relation says which outcomes its step may have. An implementation may
/// narrow them; as they stand they admit every outcome.
pub trait EventManager<C, E, I, R>: Sized where
    C: Corpus<I, R>,
    E: Executor<I>,
    I: Input,
    R: Rand,
 {
    /// Sending `event` may take the manager from `self` to `after` and end in
    /// `result`.
    open spec fn fires(&self, event: EventView, after: Self, result: Result<(), Error>) -> bool {
        true
    }

    /// Handling the events that came in may take the manager from `self` to
    /// `after`, the state from `state` to `state_after` and the corpus from
    /// `corpus` to `corpus_after`, and end in `result`: the number of events
    /// handled, or a failure.
    open spec fn processes<FT: FeedbacksTuple<I>>(
        &self,
        state: StateView<FT>,
        corpus: C,
        after: Self,
        state_after: StateView<FT>,
        corpus_after: C,
        result: Result<usize, Error>,
    ) -> bool {
        true
    }

    /// Sends `event`.
    fn fire(&mut self, event: Event) -> (result: Result<(), Error>)
        ensures
            old(self).fires(event@, *final(self), result),
    ;

    /// Handles the events that came in; they may change the state and the
    /// corpus.
    fn process<FT: FeedbacksTuple<I>>(
        &mut self,
        state: &mut State<I, R, FT>,
        corpus: &mut C,
    ) -> (result: Result<usize, Error>)
        ensures
            old(self).processes(
                old(state)@,
                *old(corpus),
                *final(self),
                final(state)@,
                *final(corpus),
                result,
            ),
    ;
}

} // verus!
