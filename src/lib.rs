//! Keeps a fleet of git repositories, described by one manifest, in sync,
//! and runs commands across them.
//!
//! The library holds the logic, verified: the manifest and its validation
//! (`manifest`, on the path rules of `path`), the git sync engine as a state
//! machine (`git`), the decisions of the shell process runner (`process`),
//! and the orchestrator's choice of jobs, count of jobs in flight and
//! summary of failures (`dispatch`). The caller performs the git operations,
//! the processes and the threads, and reports their results back.
pub mod args;
pub mod dispatch;
pub mod error;
pub mod git;
pub mod manifest;
pub mod path;
pub mod process;
pub mod text;
