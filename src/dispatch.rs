//! The orchestrator's logic: which projects a command takes in, the jobs it
//! hands to the workers, the count of jobs still in flight, and the summary
//! of the projects that failed.
use vstd::prelude::*;

use crate::args::Command;
use crate::error::Error;
use crate::manifest::{GlProject, GlProjectView, GlProjects};
use crate::text::{same_text, views};

verus! {

/// One unit of per-project work.
pub enum Job {
    /// Sync the project with its remote.
    Sync(GlProject),
    /// Run a shell command in the project's directory.
    Run { project: GlProject, command: String, timeout_ms: u64 },
    /// Report the project's changed files.
    Status(GlProject),
}

/// Whether a sync takes in `p`: the named projects where names are given,
/// else the projects with `auto_sync`.
pub open spec fn selected_for_sync(selected: Seq<Seq<char>>, p: GlProjectView) -> bool {
    if selected.len() == 0 {
        p.auto_sync
    } else {
        selected.contains(p.name)
    }
}

pub open spec fn eligible(c: Command, p: GlProjectView) -> bool {
    match c {
        Command::Sync { projects } => selected_for_sync(views(projects@), p),
        _ => true,
    }
}

/// The projects of `ps` that command `c` takes in, in order.
pub open spec fn eligible_projects(c: Command, ps: Seq<GlProject>) -> Seq<GlProjectView>
    decreases ps.len(),
{
    if ps.len() == 0 {
        Seq::empty()
    } else if eligible(c, ps.last()@) {
        eligible_projects(c, ps.drop_last()).push(ps.last()@)
    } else {
        eligible_projects(c, ps.drop_last())
    }
}

/// `j` is the job of command `c` for project `p`.
pub open spec fn is_job_for(c: Command, j: Job, p: GlProjectView) -> bool {
    match c {
        Command::Sync { .. } => match j {
            Job::Sync(q) => q@ == p,
            _ => false,
        },
        Command::ForEach { args, timeout_ms } => match j {
            Job::Run { project, command, timeout_ms: t } => project@ == p && command@ == args@ && t
                == timeout_ms,
            _ => false,
        },
        _ => match j {
            Job::Status(q) => q@ == p,
            _ => false,
        },
    }
}

pub fn sync_selected(selected: &Vec<String>, p: &GlProject) -> (r: bool)
    ensures
        r == selected_for_sync(views(selected@), p@),
{
    if selected.len() == 0 {
        return p.auto_sync;
    }
    let mut i: usize = 0;
    while i < selected.len()
        invariant
            i <= selected@.len(),
            forall|j: int| 0 <= j < i ==> selected@[j]@ != p.name@,
        decreases selected@.len() - i,
    {
        if same_text(selected[i].as_str(), p.name.as_str()) {
            assert(views(selected@)[i as int] == p.name@);
            return true;
        }
        i = i + 1;
    }
    assert(!views(selected@).contains(p.name@)) by {
        if views(selected@).contains(p.name@) {
            let k = choose|k: int| 0 <= k < views(selected@).len() && views(selected@)[k] == p.name@;
            assert(selected@[k]@ == p.name@);
        }
    }
    false
}

fn job_for(command: &Command, p: &GlProject) -> (r: Job)
    requires
        command is Sync || command is ForEach || command is Changed,
    ensures
        is_job_for(*command, r, p@),
{
    match command {
        Command::Sync { .. } => Job::Sync(p.clone()),
        Command::ForEach { args, timeout_ms } => Job::Run {
            project: p.clone(),
            command: args.clone(),
            timeout_ms: *timeout_ms,
        },
        _ => Job::Status(p.clone()),
    }
}

/// The jobs of a fleet-wide command: one for each project that it takes in,
/// in the fleet's order.
pub fn plan(command: &Command, fleet: &GlProjects) -> (r: Vec<Job>)
    requires
        command is Sync || command is ForEach || command is Changed,
    ensures
        r@.len() == eligible_projects(*command, fleet.projects@).len(),
        forall|j: int|
            0 <= j < r@.len() ==> is_job_for(
                *command,
                #[trigger] r@[j],
                eligible_projects(*command, fleet.projects@)[j],
            ),
{
    let ps = &fleet.projects;
    let mut out: Vec<Job> = Vec::new();
    let mut i: usize = 0;
    while i < ps.len()
        invariant
            command is Sync || command is ForEach || command is Changed,
            i <= ps@.len(),
            out@.len() == eligible_projects(*command, ps@.subrange(0, i as int)).len(),
            forall|j: int|
                0 <= j < out@.len() ==> is_job_for(
                    *command,
                    #[trigger] out@[j],
                    eligible_projects(*command, ps@.subrange(0, i as int))[j],
                ),
        decreases ps@.len() - i,
    {
        let p = &ps[i];
        let ghost before = ps@.subrange(0, i as int);
        let ghost after = ps@.subrange(0, i + 1);
        assert(after.drop_last() == before);
        assert(after.last() == ps@[i as int]);
        let take = match command {
            Command::Sync { projects } => sync_selected(projects, p),
            _ => true,
        };
        if take {
            let ghost prev = out@;
            out.push(job_for(command, p));
            assert forall|j: int| 0 <= j < out@.len() implies is_job_for(
                *command,
                #[trigger] out@[j],
                eligible_projects(*command, after)[j],
            ) by {
                if j < out@.len() - 1 {
                    assert(out@[j] == prev[j]);
                }
            }
        }
        i = i + 1;
    }
    assert(ps@.subrange(0, ps@.len() as int) == ps@);
    out
}

pub struct TrackerView {
    pub submitted: nat,
    pub completed: nat,
    pub sealed: bool,
}

/// Counts the jobs handed to the workers and those that have completed.
/// All work has completed once submission is sealed and every submitted
/// job has completed.
pub struct Tracker {
    submitted: u64,
    completed: u64,
    sealed: bool,
}

impl View for Tracker {
    type V = TrackerView;

    closed spec fn view(&self) -> TrackerView {
        TrackerView {
            submitted: self.submitted as nat,
            completed: self.completed as nat,
            sealed: self.sealed,
        }
    }
}

impl Tracker {
    /// No job is submitted or completed more often than it can be counted,
    /// and none completes that was not submitted.
    pub closed spec fn wf(&self) -> bool {
        self.completed <= self.submitted
    }

    pub fn new() -> (r: Tracker)
        ensures
            r.wf(),
            r@ == (TrackerView { submitted: 0, completed: 0, sealed: false }),
    {
        Tracker { submitted: 0, completed: 0, sealed: false }
    }

    /// Counts one more job; refused once sealed or where the count is full.
    pub fn submit(&mut self) -> (r: bool)
        requires
            old(self).wf(),
        ensures
            final(self).wf(),
            r == (!old(self)@.sealed && old(self)@.submitted < u64::MAX),
            r ==> final(self)@ == (TrackerView { submitted: old(self)@.submitted + 1, ..old(self)@ }),
            !r ==> final(self)@ == old(self)@,
    {
        if self.sealed || self.submitted == u64::MAX {
            return false;
        }
        self.submitted = self.submitted + 1;
        true
    }

    /// Counts one job as completed; refused where every submitted job has
    /// already completed.
    pub fn complete(&mut self) -> (r: bool)
        requires
            old(self).wf(),
        ensures
            final(self).wf(),
            r == (old(self)@.completed < old(self)@.submitted),
            r ==> final(self)@ == (TrackerView { completed: old(self)@.completed + 1, ..old(self)@ }),
            !r ==> final(self)@ == old(self)@,
    {
        if self.completed == self.submitted {
            return false;
        }
        self.completed = self.completed + 1;
        true
    }

    /// Marks the end of submission.
    pub fn seal(&mut self)
        requires
            old(self).wf(),
        ensures
            final(self).wf(),
            final(self)@ == (TrackerView { sealed: true, ..old(self)@ }),
    {
        self.sealed = true;
    }

    /// The jobs submitted and not yet completed.
    pub fn in_flight(&self) -> (r: u64)
        requires
            self.wf(),
        ensures
            r == self@.submitted - self@.completed,
    {
        self.submitted - self.completed
    }

    /// Whether all work has completed.
    pub fn is_done(&self) -> (r: bool)
        ensures
            r == (self@.sealed && self@.completed == self@.submitted),
    {
        self.sealed && self.completed == self.submitted
    }
}

/// The names of the failed projects, in the order their outcomes came, from
/// outcomes given as a project name and whether its job succeeded.
pub open spec fn failed_names(outcomes: Seq<(Seq<char>, bool)>) -> Seq<Seq<char>>
    decreases outcomes.len(),
{
    if outcomes.len() == 0 {
        Seq::empty()
    } else if outcomes.last().1 {
        failed_names(outcomes.drop_last())
    } else {
        failed_names(outcomes.drop_last()).push(outcomes.last().0)
    }
}

/// Notes the outcome of `name`'s job: a failure adds the name.
fn record_outcome(failed: &mut Vec<String>, name: &str, outcome: &Result<(), Error>)
    ensures
        views(final(failed)@) == if outcome is Ok {
            views(old(failed)@)
        } else {
            views(old(failed)@).push(name@)
        },
{
    if outcome.is_err() {
        failed.push(String::from_str(name));
        assert(views(failed@) == views(old(failed)@).push(name@));
    }
}

proof fn lemma_failed_count(outcomes: Seq<(Seq<char>, bool)>, n: Seq<char>)
    ensures
        failed_names(outcomes).to_multiset().count(n) == outcomes.to_multiset().count((n, false)),
    decreases outcomes.len(),
{
    broadcast use vstd::seq_lib::group_to_multiset_ensures;

    if outcomes.len() == 0 {
        assert(failed_names(outcomes) =~= Seq::<Seq<char>>::empty());
    } else {
        let d = outcomes.drop_last();
        lemma_failed_count(d, n);
        assert(d.push(outcomes.last()) == outcomes);
    }
}

/// The summary of a collector names each project exactly as often as its
/// received jobs failed, whatever the order in which the outcomes came: two
/// orders of the same outcomes give the same names, counted with repetition.
pub proof fn lemma_summary_names_failures(a: Seq<(Seq<char>, bool)>, b: Seq<(Seq<char>, bool)>)
    requires
        a.to_multiset() == b.to_multiset(),
    ensures
        forall|n: Seq<char>| #[trigger]
            failed_names(a).to_multiset().count(n) == a.to_multiset().count((n, false)),
        failed_names(a).to_multiset() == failed_names(b).to_multiset(),
{
    assert forall|n: Seq<char>| #[trigger]
        failed_names(a).to_multiset().count(n) == a.to_multiset().count((n, false)) by {
        lemma_failed_count(a, n);
    }
    assert forall|n: Seq<char>| #[trigger]
        failed_names(a).to_multiset().count(n) == failed_names(b).to_multiset().count(n) by {
        lemma_failed_count(a, n);
        lemma_failed_count(b, n);
    }
    assert(failed_names(a).to_multiset() =~= failed_names(b).to_multiset());
}

/// The fleet-wide result: success where no project failed, else a summary
/// that names every failed project.
pub fn summarize(failed: Vec<String>) -> (r: Result<(), Error>)
    ensures
        r is Ok <==> failed@.len() == 0,
        r matches Err(e) ==> match e {
            Error::Summary(names) => views(names@) == views(failed@),
            _ => false,
        },
{
    if failed.len() == 0 {
        Ok(())
    } else {
        Err(Error::Summary(failed))
    }
}

pub struct CollectorView {
    pub submitted: nat,
    pub sealed: bool,
    /// Each received outcome: the project's name and whether its job succeeded.
    pub outcomes: Seq<(Seq<char>, bool)>,
}

/// Gathers the outcomes of the jobs handed to the workers: it counts the
/// submitted jobs, receives one outcome for each, and sums up the failures.
/// All work is in once submission is sealed and every submitted job's
/// outcome has been received.
pub struct Collector {
    tracker: Tracker,
    failed: Vec<String>,
    outcomes: Ghost<Seq<(Seq<char>, bool)>>,
}

impl View for Collector {
    type V = CollectorView;

    closed spec fn view(&self) -> CollectorView {
        CollectorView {
            submitted: self.tracker@.submitted,
            sealed: self.tracker@.sealed,
            outcomes: self.outcomes@,
        }
    }
}

impl Collector {
    /// No outcome is received beyond the submitted jobs, and the failures
    /// kept are those of the received outcomes.
    pub closed spec fn wf(&self) -> bool {
        &&& self.tracker.wf()
        &&& self.tracker@.completed == self.outcomes@.len()
        &&& views(self.failed@) == failed_names(self.outcomes@)
    }

    pub fn new() -> (r: Collector)
        ensures
            r.wf(),
            r@ == (CollectorView { submitted: 0, sealed: false, outcomes: Seq::empty() }),
    {
        let r = Collector { tracker: Tracker::new(), failed: Vec::new(), outcomes: Ghost(Seq::empty()) };
        assert(views(r.failed@) =~= failed_names(r.outcomes@));
        r
    }

    /// Counts one more job; refused once sealed or where the count is full.
    pub fn submit(&mut self) -> (r: bool)
        requires
            old(self).wf(),
        ensures
            final(self).wf(),
            r == (!old(self)@.sealed && old(self)@.submitted < u64::MAX),
            r ==> final(self)@ == (CollectorView { submitted: old(self)@.submitted + 1, ..old(self)@ }),
            !r ==> final(self)@ == old(self)@,
    {
        self.tracker.submit()
    }

    /// Marks the end of submission.
    pub fn seal(&mut self)
        requires
            old(self).wf(),
        ensures
            final(self).wf(),
            final(self)@ == (CollectorView { sealed: true, ..old(self)@ }),
    {
        self.tracker.seal();
    }

    /// Takes the outcome of `name`'s job; refused where an outcome was
    /// already received for every submitted job.
    pub fn receive(&mut self, name: &str, outcome: &Result<(), Error>) -> (r: bool)
        requires
            old(self).wf(),
        ensures
            final(self).wf(),
            r == (old(self)@.outcomes.len() < old(self)@.submitted),
            r ==> final(self)@ == (CollectorView {
                outcomes: old(self)@.outcomes.push((name@, outcome is Ok)),
                ..old(self)@
            }),
            !r ==> final(self)@ == old(self)@,
    {
        if !self.tracker.complete() {
            return false;
        }
        let ghost before = self.outcomes@;
        record_outcome(&mut self.failed, name, outcome);
        self.outcomes = Ghost(before.push((name@, outcome is Ok)));
        assert(self.outcomes@.drop_last() == before);
        true
    }

    /// Whether every submitted job's outcome is in.
    pub fn is_done(&self) -> (r: bool)
        requires
            self.wf(),
        ensures
            r == (self@.sealed && self@.outcomes.len() == self@.submitted),
    {
        self.tracker.is_done()
    }

    /// The fleet-wide result of the received outcomes.
    pub fn summary(self) -> (r: Result<(), Error>)
        requires
            self.wf(),
        ensures
            r is Ok <==> failed_names(self@.outcomes).len() == 0,
            r matches Err(e) ==> match e {
                Error::Summary(names) => views(names@) == failed_names(self@.outcomes),
                _ => false,
            },
    {
        summarize(self.failed)
    }
}

} // verus!
