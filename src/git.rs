//! The git synchronisation engine as a state machine, and the record of a
//! working tree's changed files. The git operations themselves are carried
//! out by the caller, which reports each result back as an event.
use vstd::prelude::*;

use crate::error::{Error, GitOp};

verus! {

/// What a merge analysis of the fetched commit against the local branch found.
#[derive(PartialEq, Eq, Structural, Clone, Copy, Debug)]
pub struct MergeAnalysis {
    /// The histories diverged: only a real merge would join them.
    pub normal: bool,
    /// The local branch already holds the fetched commit.
    pub up_to_date: bool,
    /// The local branch can move forward to the fetched commit.
    pub fast_forward: bool,
    /// HEAD points at a branch that has no commit yet.
    pub unborn: bool,
}

#[derive(PartialEq, Eq, Structural, Clone, Copy, Debug)]
pub enum SyncState {
    /// Deciding between clone and fetch: is a repository there?
    Resolving,
    /// Opening the local repository.
    Opening,
    /// Cloning the remote into the project's path.
    Cloning,
    /// Fetching the reference from "origin".
    Fetching,
    /// Comparing the local branch with the fetched commit.
    Analyzing,
    /// Moving the branch and checking out the working tree.
    Updating,
    /// Done, for good or ill.
    Finished,
}

/// What the caller found when it carried out the last action.
pub enum SyncEvent {
    /// Whether a repository is present at the project's path.
    RepoChecked(bool),
    /// The repository was opened or cloned.
    RepoReady,
    /// The remote reference was fetched and resolved to a commit.
    Fetched,
    /// The merge analysis, and whether the local branch reference exists.
    Analyzed(MergeAnalysis, bool),
    /// The branch was moved and the working tree checked out.
    Updated,
    /// The git operation failed with this diagnostic; taken only where the
    /// operation belongs to the current step.
    Failed(GitOp, String),
}

/// What the caller carries out next.
pub enum SyncAction {
    /// Check whether a repository is present at the project's path.
    CheckRepo,
    /// Open the existing repository at the project's path.
    Open,
    /// Clone the project's fetch URL into its path.
    Clone,
    /// Fetch from "origin" and resolve this short reference name.
    Fetch(String),
    /// Analyze a merge of the fetched commit and look up this local reference.
    Analyze(String),
    /// Move this existing local reference to the fetched commit, make it HEAD
    /// and force the working tree to match.
    FastForward(String),
    /// Create this local reference at the fetched commit, make it HEAD and
    /// check it out.
    CreateBranch(String),
    /// Nothing is left to do: the sync ended with this outcome.
    Done(Result<(), Error>),
}

pub open spec fn remote_ref(reference: Seq<char>) -> Seq<char> {
    "origin/"@ + reference
}

pub open spec fn local_ref(reference: Seq<char>) -> Seq<char> {
    "refs/heads/"@ + reference
}

pub open spec fn merge_refused_message() -> Seq<char> {
    "Git merge: Only fast forward is supported"@
}

pub open spec fn out_of_order_message() -> Seq<char> {
    "Sync: event out of order"@
}

/// The git operations that the action of a state performs, and so the
/// operations whose failure it takes.
pub open spec fn op_of_step(state: SyncState, op: GitOp) -> bool {
    match state {
        SyncState::Opening => op == GitOp::Open,
        SyncState::Cloning => op == GitOp::Clone,
        SyncState::Fetching => op == GitOp::Fetch,
        SyncState::Analyzing => op == GitOp::MergeAnalysis,
        SyncState::Updating => op == GitOp::Reference || op == GitOp::SetTarget || op
            == GitOp::SetHead || op == GitOp::Checkout,
        _ => false,
    }
}

fn step_allows(state: SyncState, op: GitOp) -> (r: bool)
    ensures
        r == op_of_step(state, op),
{
    match state {
        SyncState::Opening => op == GitOp::Open,
        SyncState::Cloning => op == GitOp::Clone,
        SyncState::Fetching => op == GitOp::Fetch,
        SyncState::Analyzing => op == GitOp::MergeAnalysis,
        SyncState::Updating => op == GitOp::Reference || op == GitOp::SetTarget || op
            == GitOp::SetHead || op == GitOp::Checkout,
        _ => false,
    }
}

pub open spec fn is_success(a: SyncAction) -> bool {
    a matches SyncAction::Done(Ok(()))
}

pub open spec fn is_git_failure(a: SyncAction, op: GitOp, why: Seq<char>) -> bool {
    match a {
        SyncAction::Done(Err(Error::Git(o, w))) => o == op && w@ == why,
        _ => false,
    }
}

pub open spec fn is_merge_refusal(a: SyncAction) -> bool {
    match a {
        SyncAction::Done(Err(Error::NotSupported(m))) => m@ == merge_refused_message(),
        _ => false,
    }
}

pub open spec fn is_out_of_order(a: SyncAction) -> bool {
    match a {
        SyncAction::Done(Err(Error::General(m))) => m@ == out_of_order_message(),
        _ => false,
    }
}

pub open spec fn is_fetch_of(a: SyncAction, name: Seq<char>) -> bool {
    match a {
        SyncAction::Fetch(n) => n@ == name,
        _ => false,
    }
}

pub open spec fn is_analysis_of(a: SyncAction, name: Seq<char>) -> bool {
    match a {
        SyncAction::Analyze(n) => n@ == name,
        _ => false,
    }
}

pub open spec fn is_fast_forward_of(a: SyncAction, name: Seq<char>) -> bool {
    match a {
        SyncAction::FastForward(n) => n@ == name,
        _ => false,
    }
}

pub open spec fn is_branch_creation_of(a: SyncAction, name: Seq<char>) -> bool {
    match a {
        SyncAction::CreateBranch(n) => n@ == name,
        _ => false,
    }
}

/// The sync of one project, from deciding between clone and fetch to
/// checking out the fetched commit.
pub struct SyncEngine {
    pub state: SyncState,
    pub reference: String,
}

impl SyncEngine {
    /// Starts a sync that tracks `reference`; the first action is `CheckRepo`.
    pub fn new(reference: &str) -> (r: (SyncEngine, SyncAction))
        ensures
            r.0.state == SyncState::Resolving,
            r.0.reference@ == reference@,
            r.1 is CheckRepo,
    {
        (SyncEngine { state: SyncState::Resolving, reference: String::from_str(reference) }, SyncAction::CheckRepo)
    }

    /// Takes the result of the last action and gives the next one. Only a
    /// fast-forward changes the branch; an analysis that allows no
    /// fast-forward and is not up to date is refused, never merged nor
    /// passed over. An event that does not answer the action of the current
    /// state ends the sync
    /// with an error.
    pub fn step(&mut self, event: SyncEvent) -> (r: SyncAction)
        ensures
            final(self).reference@ == old(self).reference@,
            match event {
                SyncEvent::Failed(op, why) => final(self).state == SyncState::Finished && if op_of_step(
                    old(self).state,
                    op,
                ) {
                    is_git_failure(r, op, why@)
                } else {
                    is_out_of_order(r)
                },
                SyncEvent::RepoChecked(present) => if old(self).state == SyncState::Resolving {
                    if present {
                        final(self).state == SyncState::Opening && r is Open
                    } else {
                        final(self).state == SyncState::Cloning && r is Clone
                    }
                } else {
                    final(self).state == SyncState::Finished && is_out_of_order(r)
                },
                SyncEvent::RepoReady => if old(self).state == SyncState::Opening || old(self).state
                    == SyncState::Cloning {
                    final(self).state == SyncState::Fetching && is_fetch_of(
                        r,
                        remote_ref(old(self).reference@),
                    )
                } else {
                    final(self).state == SyncState::Finished && is_out_of_order(r)
                },
                SyncEvent::Fetched => if old(self).state == SyncState::Fetching {
                    final(self).state == SyncState::Analyzing && is_analysis_of(
                        r,
                        local_ref(old(self).reference@),
                    )
                } else {
                    final(self).state == SyncState::Finished && is_out_of_order(r)
                },
                SyncEvent::Analyzed(a, local) => if old(self).state == SyncState::Analyzing {
                    if a.fast_forward && local {
                        final(self).state == SyncState::Updating && is_fast_forward_of(
                            r,
                            local_ref(old(self).reference@),
                        )
                    } else if a.fast_forward {
                        final(self).state == SyncState::Updating && is_branch_creation_of(
                            r,
                            local_ref(old(self).reference@),
                        )
                    } else if a.up_to_date {
                        final(self).state == SyncState::Finished && is_success(r)
                    } else {
                        final(self).state == SyncState::Finished && is_merge_refusal(r)
                    }
                } else {
                    final(self).state == SyncState::Finished && is_out_of_order(r)
                },
                SyncEvent::Updated => if old(self).state == SyncState::Updating {
                    final(self).state == SyncState::Finished && is_success(r)
                } else {
                    final(self).state == SyncState::Finished && is_out_of_order(r)
                },
            },
    {
        let state = self.state;
        match event {
            SyncEvent::Failed(op, why) => {
                if step_allows(state, op) {
                    self.state = SyncState::Finished;
                    return SyncAction::Done(Err(Error::Git(op, why)));
                }
            },
            SyncEvent::RepoChecked(present) => {
                if state == SyncState::Resolving {
                    if present {
                        self.state = SyncState::Opening;
                        return SyncAction::Open;
                    }
                    self.state = SyncState::Cloning;
                    return SyncAction::Clone;
                }
            },
            SyncEvent::RepoReady => {
                if state == SyncState::Opening || state == SyncState::Cloning {
                    self.state = SyncState::Fetching;
                    let mut n = String::from_str("origin/");
                    n.append(self.reference.as_str());
                    return SyncAction::Fetch(n);
                }
            },
            SyncEvent::Fetched => {
                if state == SyncState::Fetching {
                    self.state = SyncState::Analyzing;
                    let mut n = String::from_str("refs/heads/");
                    n.append(self.reference.as_str());
                    return SyncAction::Analyze(n);
                }
            },
            SyncEvent::Analyzed(a, local) => {
                if state == SyncState::Analyzing {
                    if a.fast_forward {
                        self.state = SyncState::Updating;
                        let mut n = String::from_str("refs/heads/");
                        n.append(self.reference.as_str());
                        return if local {
                            SyncAction::FastForward(n)
                        } else {
                            SyncAction::CreateBranch(n)
                        };
                    }
                    self.state = SyncState::Finished;
                    if a.up_to_date {
                        return SyncAction::Done(Ok(()));
                    }
                    return SyncAction::Done(
                        Err(
                            Error::NotSupported(
                                String::from_str("Git merge: Only fast forward is supported"),
                            ),
                        ),
                    );
                }
            },
            SyncEvent::Updated => {
                if state == SyncState::Updating {
                    self.state = SyncState::Finished;
                    return SyncAction::Done(Ok(()));
                }
            },
        }
        self.state = SyncState::Finished;
        SyncAction::Done(Err(Error::General(String::from_str("Sync: event out of order"))))
    }
}

/// How a file differs from HEAD.
#[derive(PartialEq, Eq, Structural, Clone, Copy, Debug)]
pub enum FileStatus {
    /// New in the index.
    IndexNew,
    /// Changed in the index.
    IndexModified,
    /// New in the working tree and not in the index.
    WorkTreeNew,
    /// Changed in the working tree.
    WorkTreeModified,
    /// Ignored.
    Ignored,
    /// Any other difference (deleted, renamed, conflicted...).
    Other,
}

impl FileStatus {
    /// The classification of a status with these flags, the index first.
    pub fn classify(
        index_new: bool,
        index_modified: bool,
        wt_new: bool,
        wt_modified: bool,
        ignored: bool,
    ) -> (r: FileStatus)
        ensures
            index_new ==> r == FileStatus::IndexNew,
            !index_new && index_modified ==> r == FileStatus::IndexModified,
            !index_new && !index_modified && wt_new ==> r == FileStatus::WorkTreeNew,
            !index_new && !index_modified && !wt_new && wt_modified ==> r
                == FileStatus::WorkTreeModified,
            !index_new && !index_modified && !wt_new && !wt_modified && ignored ==> r
                == FileStatus::Ignored,
            !index_new && !index_modified && !wt_new && !wt_modified && !ignored ==> r
                == FileStatus::Other,
    {
        if index_new {
            FileStatus::IndexNew
        } else if index_modified {
            FileStatus::IndexModified
        } else if wt_new {
            FileStatus::WorkTreeNew
        } else if wt_modified {
            FileStatus::WorkTreeModified
        } else if ignored {
            FileStatus::Ignored
        } else {
            FileStatus::Other
        }
    }
}

/// The files of a working tree that differ from HEAD, by path relative to
/// the repository.
pub struct ChangedFiles {
    pub files: Vec<(String, FileStatus)>,
}

/// The entries as a map; a later entry of a path overrides an earlier one.
pub open spec fn status_map(fs: Seq<(String, FileStatus)>) -> Map<Seq<char>, FileStatus>
    decreases fs.len(),
{
    if fs.len() == 0 {
        Map::empty()
    } else {
        status_map(fs.drop_last()).insert(fs.last().0@, fs.last().1)
    }
}

impl View for ChangedFiles {
    type V = Map<Seq<char>, FileStatus>;

    open spec fn view(&self) -> Map<Seq<char>, FileStatus> {
        status_map(self.files@)
    }
}

impl ChangedFiles {
    pub fn new() -> (r: ChangedFiles)
        ensures
            r@ == Map::<Seq<char>, FileStatus>::empty(),
    {
        ChangedFiles { files: Vec::new() }
    }

    /// Records the status of the file at `path`.
    pub fn insert(&mut self, path: String, status: FileStatus)
        ensures
            final(self)@ == old(self)@.insert(path@, status),
    {
        self.files.push((path, status));
        assert(self.files@.drop_last() == old(self).files@);
    }

    /// Whether the working tree is clean.
    pub fn is_empty(&self) -> (r: bool)
        ensures
            r == (self@ == Map::<Seq<char>, FileStatus>::empty()),
    {
        if self.files.len() == 0 {
            true
        } else {
            assert(self@.contains_key(self.files@.last().0@));
            false
        }
    }
}

} // verus!
