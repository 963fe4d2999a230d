//! Engine of a grading harness for programming-assignment submissions.
//!
//! The crate models the harness state (job groups, per-job status and logs,
//! a checkstyle tally), classifies the outcome of one child-process run,
//! plans batches of runs behind a build gate, and aggregates a score.
//! Process spawning, file access and terminal rendering live outside this
//! library; they hand plain values in and take plain values back.

pub mod actions;
pub mod checkstyle;
pub mod diffview;
pub mod harness;
pub mod inputs;
pub mod numfmt;
pub mod runner;
pub mod state;
pub mod status;
pub mod table;
pub mod textutil;
