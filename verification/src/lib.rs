//! The execution core of a coverage-guided fuzzer: test cases and their
//! storage, the run-wide state with its evaluation pipeline, the engine that
//! owns the executor, and the fuzzer that drives stages over a corpus.

pub mod corpus;
pub mod engines;
pub mod error;
pub mod events;
pub mod executors;
pub mod feedbacks;
pub mod generators;
pub mod inputs;
pub mod observers;
pub mod serdeany;
pub mod stages;
pub mod utils;
