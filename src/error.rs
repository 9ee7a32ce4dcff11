//! The errors of the library, each tagged with what failed.
use vstd::prelude::*;

verus! {

/// The git operation that failed.
#[derive(PartialEq, Eq, Structural, Clone, Copy, Debug)]
pub enum GitOp {
    Open,
    Init,
    Remote,
    Clone,
    Fetch,
    MergeAnalysis,
    SetTarget,
    SetHead,
    Checkout,
    Reference,
    Status,
}

#[derive(Debug)]
pub enum Error {
    /// A git operation failed, with the diagnostic of the git library.
    Git(GitOp, String),
    /// Anything not classified otherwise.
    General(String),
    /// The names of every project whose task failed.
    Summary(Vec<String>),
    /// A request that the library deliberately does not carry out.
    NotSupported(String),
    /// No project of this name is in the manifest.
    ProjectNotFound(String),
    /// The manifest could not be read, parsed or written.
    Manifest(String),
    /// The shell could not be started or polled: project, command, cause.
    ShellCommand(String, String, String),
    /// The shell ran out of time and was killed: project, command.
    ShellCommandTimeout(String, String),
    /// The shell exited with a non-zero code: project, command, code.
    ShellCommandExit(String, String, i32),
}

} // verus!
