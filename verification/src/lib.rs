//! Build-time orchestration logic for integrating Compiler Interrupts into a
//! Cargo package: staleness tracking, build-log parsing, the per-file
//! integration pipeline, link rewriting and progress reporting.

pub mod args;
pub mod cargo;
pub mod config;
pub mod diagnose;
pub mod digest;
pub mod error;
pub mod format;
pub mod library;
pub mod link;
pub mod lists;
pub mod llvm;
pub mod opts;
pub mod paths;
pub mod pipeline;
pub mod plan;
pub mod progress;
pub mod run;
pub mod stale;
pub mod target;
pub mod text;
pub mod units;
pub mod util;
pub mod version;
pub mod words;
