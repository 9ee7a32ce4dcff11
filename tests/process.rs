use glrepo::error::Error;
use glrepo::process::{command_line, exit_outcome, kill_outcome, runner_step, ChildPoll, RunnerStep, NO_EXIT_CODE};

#[test]
fn command_line_joins_with_spaces() {
    assert_eq!(command_line(&vec![]), "");
    assert_eq!(command_line(&vec!["ls -l".to_string()]), "ls -l");
    assert_eq!(command_line(&vec!["git".to_string(), "status".to_string(), "-s".to_string()]), "git status -s");
}

#[test]
fn exit_zero_is_success() {
    assert!(exit_outcome("p", "true", Some(0)).is_ok());
    assert!(matches!(
        runner_step("p", "true", ChildPoll::Exited(Some(0)), 10, 500),
        RunnerStep::Finished(Ok(()))
    ));
}

#[test]
fn exit_seven_is_exit_failure() {
    match runner_step("proj", "exit 7", ChildPoll::Exited(Some(7)), 10, 500) {
        RunnerStep::Finished(Err(Error::ShellCommandExit(p, c, code))) => {
            assert_eq!(p, "proj");
            assert_eq!(c, "exit 7");
            assert_eq!(code, 7);
        }
        _ => panic!("expected an exit failure"),
    }
}

#[test]
fn exit_without_code_is_reported() {
    match exit_outcome("p", "c", None) {
        Err(Error::ShellCommandExit(_, _, code)) => assert_eq!(code, NO_EXIT_CODE),
        other => panic!("unexpected {:?}", other),
    }
    assert_eq!(NO_EXIT_CODE, 57005);
}

#[test]
fn running_child_waits_then_is_killed_at_timeout() {
    assert!(matches!(runner_step("p", "sleep 9", ChildPoll::Running, 499, 500), RunnerStep::Wait));
    assert!(matches!(runner_step("p", "sleep 9", ChildPoll::Running, 500, 500), RunnerStep::Kill));
    assert!(matches!(runner_step("p", "sleep 9", ChildPoll::Running, 900, 500), RunnerStep::Kill));
    match kill_outcome("p", "sleep 9", Ok(())) {
        Error::ShellCommandTimeout(p, c) => {
            assert_eq!(p, "p");
            assert_eq!(c, "sleep 9");
        }
        other => panic!("unexpected {:?}", other),
    }
}

#[test]
fn failed_poll_and_failed_kill_are_shell_errors() {
    match runner_step("p", "c", ChildPoll::Failed("boom".to_string()), 0, 500) {
        RunnerStep::Finished(Err(Error::ShellCommand(p, c, w))) => {
            assert_eq!((p.as_str(), c.as_str(), w.as_str()), ("p", "c", "boom"));
        }
        _ => panic!("expected a shell error"),
    }
    assert!(matches!(kill_outcome("p", "c", Err("denied".to_string())), Error::ShellCommand(_, _, w) if w == "denied"));
}
