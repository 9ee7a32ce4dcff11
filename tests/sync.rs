use glrepo::error::{Error, GitOp};
use glrepo::git::{ChangedFiles, FileStatus, MergeAnalysis, SyncAction, SyncEngine, SyncEvent, SyncState};

fn analysis(normal: bool, up_to_date: bool, fast_forward: bool) -> MergeAnalysis {
    MergeAnalysis { normal, up_to_date, fast_forward, unborn: false }
}

fn until_analysis(exists: bool) -> SyncEngine {
    let (mut e, first) = SyncEngine::new("main");
    assert!(matches!(first, SyncAction::CheckRepo));
    let a = e.step(SyncEvent::RepoChecked(exists));
    if exists {
        assert!(matches!(a, SyncAction::Open));
    } else {
        assert!(matches!(a, SyncAction::Clone));
    }
    match e.step(SyncEvent::RepoReady) {
        SyncAction::Fetch(n) => assert_eq!(n, "origin/main"),
        _ => panic!("expected a fetch"),
    }
    match e.step(SyncEvent::Fetched) {
        SyncAction::Analyze(n) => assert_eq!(n, "refs/heads/main"),
        _ => panic!("expected an analysis"),
    }
    e
}

#[test]
fn missing_repository_is_cloned() {
    let (mut e, _) = SyncEngine::new("dev");
    assert!(matches!(e.step(SyncEvent::RepoChecked(false)), SyncAction::Clone));
    assert_eq!(e.state, SyncState::Cloning);
}

#[test]
fn up_to_date_changes_nothing() {
    let mut e = until_analysis(true);
    assert!(matches!(e.step(SyncEvent::Analyzed(analysis(false, true, false), true)), SyncAction::Done(Ok(()))));
    assert_eq!(e.state, SyncState::Finished);
}

#[test]
fn fast_forward_moves_the_branch() {
    let mut e = until_analysis(true);
    match e.step(SyncEvent::Analyzed(analysis(false, false, true), true)) {
        SyncAction::FastForward(n) => assert_eq!(n, "refs/heads/main"),
        _ => panic!("expected a fast-forward"),
    }
    assert!(matches!(e.step(SyncEvent::Updated), SyncAction::Done(Ok(()))));
}

#[test]
fn missing_local_branch_is_created() {
    let mut e = until_analysis(false);
    match e.step(SyncEvent::Analyzed(analysis(false, false, true), false)) {
        SyncAction::CreateBranch(n) => assert_eq!(n, "refs/heads/main"),
        _ => panic!("expected a branch creation"),
    }
    assert!(matches!(e.step(SyncEvent::Updated), SyncAction::Done(Ok(()))));
}

#[test]
fn diverged_history_is_refused() {
    let mut e = until_analysis(true);
    match e.step(SyncEvent::Analyzed(analysis(true, false, false), true)) {
        SyncAction::Done(Err(Error::NotSupported(m))) => assert_eq!(m, "Git merge: Only fast forward is supported"),
        _ => panic!("expected a refusal"),
    }
    assert_eq!(e.state, SyncState::Finished);
}

#[test]
fn analysis_without_fast_forward_or_up_to_date_is_refused() {
    let mut e = until_analysis(true);
    let a = MergeAnalysis { normal: false, up_to_date: false, fast_forward: false, unborn: true };
    match e.step(SyncEvent::Analyzed(a, true)) {
        SyncAction::Done(Err(Error::NotSupported(m))) => assert_eq!(m, "Git merge: Only fast forward is supported"),
        _ => panic!("expected a refusal"),
    }
    let mut e = until_analysis(true);
    assert!(matches!(
        e.step(SyncEvent::Analyzed(analysis(false, false, false), true)),
        SyncAction::Done(Err(Error::NotSupported(_)))
    ));
}

#[test]
fn git_failure_ends_the_sync() {
    let (mut e, _) = SyncEngine::new("main");
    e.step(SyncEvent::RepoChecked(true));
    match e.step(SyncEvent::Failed(GitOp::Open, "not a repository".to_string())) {
        SyncAction::Done(Err(Error::Git(op, m))) => {
            assert_eq!(op, GitOp::Open);
            assert_eq!(m, "not a repository");
        }
        _ => panic!("expected a git error"),
    }
}

#[test]
fn failure_tagged_with_another_step_is_out_of_order() {
    let (mut e, _) = SyncEngine::new("main");
    e.step(SyncEvent::RepoChecked(false));
    match e.step(SyncEvent::Failed(GitOp::Open, "x".to_string())) {
        SyncAction::Done(Err(Error::General(m))) => assert_eq!(m, "Sync: event out of order"),
        _ => panic!("expected an error"),
    }
    let (mut e, _) = SyncEngine::new("main");
    e.step(SyncEvent::RepoChecked(false));
    assert!(matches!(
        e.step(SyncEvent::Failed(GitOp::Clone, "no network".to_string())),
        SyncAction::Done(Err(Error::Git(GitOp::Clone, _)))
    ));
    let mut e = until_analysis(true);
    e.step(SyncEvent::Analyzed(analysis(false, false, true), true));
    assert!(matches!(
        e.step(SyncEvent::Failed(GitOp::Checkout, "dirty".to_string())),
        SyncAction::Done(Err(Error::Git(GitOp::Checkout, _)))
    ));
}

#[test]
fn event_out_of_order_ends_the_sync() {
    let (mut e, _) = SyncEngine::new("main");
    match e.step(SyncEvent::Updated) {
        SyncAction::Done(Err(Error::General(m))) => assert_eq!(m, "Sync: event out of order"),
        _ => panic!("expected an error"),
    }
    assert_eq!(e.state, SyncState::Finished);
}

#[test]
fn status_classification() {
    assert_eq!(FileStatus::classify(true, true, true, true, true), FileStatus::IndexNew);
    assert_eq!(FileStatus::classify(false, true, true, false, false), FileStatus::IndexModified);
    assert_eq!(FileStatus::classify(false, false, true, true, false), FileStatus::WorkTreeNew);
    assert_eq!(FileStatus::classify(false, false, false, true, false), FileStatus::WorkTreeModified);
    assert_eq!(FileStatus::classify(false, false, false, false, true), FileStatus::Ignored);
    assert_eq!(FileStatus::classify(false, false, false, false, false), FileStatus::Other);
}

#[test]
fn changed_files_empty_until_a_file_is_recorded() {
    let mut c = ChangedFiles::new();
    assert!(c.is_empty());
    c.insert("src/lib.rs".to_string(), FileStatus::WorkTreeModified);
    assert!(!c.is_empty());
    assert_eq!(c.files.len(), 1);
}
