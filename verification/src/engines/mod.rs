//! The engine: the state of a fuzzing run with its evaluation pipeline, the
//! owner of the executor, and the fuzzer that drives the stages.

pub mod campaign;
pub mod engine;
pub mod fuzzer;
pub mod registry;
pub mod seeding;
pub mod state;

pub use crate::engines::campaign::Campaign;
pub use crate::engines::engine::Engine;
pub use crate::engines::fuzzer::{report_stats, Fuzzer, StdFuzzer, STATS_INTERVAL_MS};
pub use crate::engines::state::{State, StateMetadata, StateView};
