//! Orchestration of fuzzing runs: a closed registry of fuzz targets, seed
//! corpora built from generated values, harness sources rendered from a
//! template, and the step-by-step protocol that drives one of three fuzzing
//! engines.
//!
//! Nothing here touches the file system or starts a process. Every function
//! maps plain values to plain values; the caller performs the actions that
//! the library decides on and reports back what happened.

pub mod commands;
pub mod corpus;
pub mod engines;
pub mod errors;
pub mod fuzz_targets;
pub mod harness;
pub mod harness_laws;
pub mod run_laws;
pub mod runner;
pub mod text;
pub mod types;

pub use engines::Fuzzer;
pub use errors::{Result, RunError, TariError};
