//! The decisions of the shell process runner: how a command line is shown,
//! what an exit status means, and what to do after each poll of the child.
use vstd::prelude::*;

use crate::error::Error;
use crate::text::views;

verus! {

/// The code reported for a child that ended without an exit code (killed by
/// a signal).
pub const NO_EXIT_CODE: i32 = 0xDEAD;

/// The words of a command, separated by single spaces.
pub open spec fn spaced(words: Seq<Seq<char>>) -> Seq<char>
    decreases words.len(),
{
    if words.len() == 0 {
        Seq::empty()
    } else if words.len() == 1 {
        words[0]
    } else {
        spaced(words.drop_last()) + " "@ + words.last()
    }
}

/// The command line as it is shown in messages.
pub fn command_line(args: &Vec<String>) -> (r: String)
    ensures
        r@ == spaced(views(args@)),
{
    let mut r = String::new();
    let mut i: usize = 0;
    while i < args.len()
        invariant
            i <= args@.len(),
            r@ == spaced(views(args@.subrange(0, i as int))),
        decreases args@.len() - i,
    {
        assert(views(args@.subrange(0, i + 1)).drop_last() == views(args@.subrange(0, i as int)));
        assert(views(args@.subrange(0, i + 1)).last() == args@[i as int]@);
        if i > 0 {
            r.append(" ");
        }
        r.append(args[i].as_str());
        i = i + 1;
    }
    assert(args@.subrange(0, args@.len() as int) == args@);
    r
}

/// What the child reported when polled.
pub enum ChildPoll {
    /// It ended, with its exit code where it has one.
    Exited(Option<i32>),
    /// It is still running.
    Running,
    /// Polling failed, for this reason.
    Failed(String),
}

/// What the runner does next.
pub enum RunnerStep {
    /// The run is over, with this outcome.
    Finished(Result<(), Error>),
    /// Sleep for the poll interval and poll again.
    Wait,
    /// The time is up: kill the child.
    Kill,
}

/// The outcome of a child that ended with `code`.
pub fn exit_outcome(project: &str, command: &str, code: Option<i32>) -> (r: Result<(), Error>)
    ensures
        code == Some(0i32) <==> r is Ok,
        r matches Err(e) ==> (e matches Error::ShellCommandExit(p, c, x) && p@ == project@ && c@
            == command@ && x == match code {
            Some(v) => v,
            None => NO_EXIT_CODE,
        }),
{
    match code {
        Some(0) => Ok(()),
        Some(c) => Err(
            Error::ShellCommandExit(String::from_str(project), String::from_str(command), c),
        ),
        None => Err(
            Error::ShellCommandExit(
                String::from_str(project),
                String::from_str(command),
                NO_EXIT_CODE,
            ),
        ),
    }
}

/// Decides after one poll of the child, `elapsed_ms` after it was started.
pub fn runner_step(
    project: &str,
    command: &str,
    poll: ChildPoll,
    elapsed_ms: u64,
    timeout_ms: u64,
) -> (r: RunnerStep)
    ensures
        poll matches ChildPoll::Exited(code) ==> (r matches RunnerStep::Finished(o) && (o is Ok
            <==> code == Some(0i32)) && (o matches Err(e) ==> e matches Error::ShellCommandExit(
            p,
            c,
            x,
        ) && p@ == project@ && c@ == command@ && x == match code {
            Some(v) => v,
            None => NO_EXIT_CODE,
        })),
        poll matches ChildPoll::Failed(why) ==> (r matches RunnerStep::Finished(o) && o matches Err(
            Error::ShellCommand(p, c, w),
        ) && p@ == project@ && c@ == command@ && w@ == why@),
        poll is Running ==> (elapsed_ms >= timeout_ms <==> r is Kill),
        poll is Running ==> (elapsed_ms < timeout_ms <==> r is Wait),
{
    match poll {
        ChildPoll::Exited(code) => RunnerStep::Finished(exit_outcome(project, command, code)),
        ChildPoll::Failed(why) => RunnerStep::Finished(
            Err(Error::ShellCommand(String::from_str(project), String::from_str(command), why)),
        ),
        ChildPoll::Running => if elapsed_ms >= timeout_ms {
            RunnerStep::Kill
        } else {
            RunnerStep::Wait
        },
    }
}

/// The outcome of a run whose time ran out, once the kill was attempted.
pub fn kill_outcome(project: &str, command: &str, kill: Result<(), String>) -> (r: Error)
    ensures
        kill is Ok ==> (r matches Error::ShellCommandTimeout(p, c) && p@ == project@ && c@
            == command@),
        kill matches Err(why) ==> (r matches Error::ShellCommand(p, c, w) && p@ == project@ && c@
            == command@ && w@ == why@),
{
    match kill {
        Ok(()) => Error::ShellCommandTimeout(String::from_str(project), String::from_str(command)),
        Err(why) => Error::ShellCommand(String::from_str(project), String::from_str(command), why),
    }
}

} // verus!
