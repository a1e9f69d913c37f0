//! Job orchestration for an external media downloader: a registry of jobs,
//! the control-signal protocol that pauses or cancels them, the decisions of
//! the per-job supervisor, the progress-line parser and the cleanup policy.
pub mod cleanup;
pub mod control;
pub mod events;
pub mod job;
pub mod precheck;
pub mod progress;
pub mod registry;
pub mod supervisor;
pub mod text;
