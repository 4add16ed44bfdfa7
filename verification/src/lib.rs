//! Orchestration library for a personal backup runner.
//!
//! The library plans and accounts for a run of external commands: it renders
//! durations, builds command specifications (argument vectors, environment
//! overlays, piped input), derives credential environment pairs, resolves
//! backup targets, maintains the nested-subsystem allow-list, and aggregates
//! per-task failures into a single report. Spawning processes, reading
//! environment variables and logging are left to the surrounding binary.

pub mod allowlist;
pub mod command;
pub mod config;
pub mod duration;
pub mod errors;
pub mod notify;
pub mod orchestrator;
pub mod strings;
pub mod tasks;
