//! The manifest: the fleet of projects, their shared defaults, and the
//! validation that resolves every project's path and reference.
use vstd::prelude::*;

use crate::error::Error;
use crate::text::same_text;
use crate::path::{
    counted, final_segment_exists, has_final_segment, has_root, is_absolute, join, joined, segments,
};

verus! {

#[derive(Debug)]
pub struct GlProject {
    pub name: String,
    pub fetch_url: String,
    pub path: String,
    pub reference: String,
    pub auto_sync: bool,
}

pub struct GlProjectView {
    pub name: Seq<char>,
    pub fetch_url: Seq<char>,
    pub path: Seq<char>,
    pub reference: Seq<char>,
    pub auto_sync: bool,
}

impl View for GlProject {
    type V = GlProjectView;

    open spec fn view(&self) -> GlProjectView {
        GlProjectView {
            name: self.name@,
            fetch_url: self.fetch_url@,
            path: self.path@,
            reference: self.reference@,
            auto_sync: self.auto_sync,
        }
    }
}

impl Clone for GlProject {
    fn clone(&self) -> (r: Self)
        ensures
            r@ == self@,
    {
        GlProject {
            name: self.name.clone(),
            fetch_url: self.fetch_url.clone(),
            path: self.path.clone(),
            reference: self.reference.clone(),
            auto_sync: self.auto_sync,
        }
    }
}

/// The value of `auto_sync` when a manifest leaves it out.
pub fn default_true() -> (r: bool)
    ensures
        r,
{
    true
}

/// The fleet: shared defaults and the projects, at most one of each name.
#[derive(Debug)]
pub struct GlProjects {
    pub projects_dir: String,
    pub default_reference: String,
    pub projects: Vec<GlProject>,
}

pub struct GlProjectsView {
    pub projects_dir: Seq<char>,
    pub default_reference: Seq<char>,
    pub projects: Map<Seq<char>, GlProjectView>,
}

/// The projects as a map from name to project; a later entry of a name
/// overrides an earlier one.
pub open spec fn project_map(ps: Seq<GlProject>) -> Map<Seq<char>, GlProjectView>
    decreases ps.len(),
{
    if ps.len() == 0 {
        Map::empty()
    } else {
        project_map(ps.drop_last()).insert(ps.last().name@, ps.last()@)
    }
}

pub open spec fn names_unique(ps: Seq<GlProject>) -> bool {
    forall|i: int, j: int|
        0 <= i < j < ps.len() ==> #[trigger] ps[i].name@ != #[trigger] ps[j].name@
}

impl View for GlProjects {
    type V = GlProjectsView;

    open spec fn view(&self) -> GlProjectsView {
        GlProjectsView {
            projects_dir: self.projects_dir@,
            default_reference: self.default_reference@,
            projects: project_map(self.projects@),
        }
    }
}

/// `p` under the name `name`.
pub open spec fn renamed(p: GlProjectView, name: Seq<char>) -> GlProjectView {
    GlProjectView { name, ..p }
}

/// The location of a project: an absolute path stands as it is; a path
/// without a final segment means the project's name under `projects_dir`;
/// any other path is taken under `projects_dir`.
pub open spec fn resolved_path(projects_dir: Seq<char>, name: Seq<char>, path: Seq<char>) -> Seq<
    char,
> {
    if is_absolute(path) {
        path
    } else if !final_segment_exists(path) {
        joined(projects_dir, name)
    } else {
        joined(projects_dir, path)
    }
}

/// The project's reference, or the fleet's default where it has none.
pub open spec fn resolved_reference(default_reference: Seq<char>, reference: Seq<char>) -> Seq<
    char,
> {
    if reference.len() == 0 {
        default_reference
    } else {
        reference
    }
}

pub open spec fn resolved_project(
    projects_dir: Seq<char>,
    default_reference: Seq<char>,
    p: GlProjectView,
) -> GlProjectView {
    GlProjectView {
        path: resolved_path(projects_dir, p.name, p.path),
        reference: resolved_reference(default_reference, p.reference),
        ..p
    }
}

/// Some project has no reference and the fleet offers no default.
pub open spec fn lacks_reference(f: GlProjectsView) -> bool {
    f.default_reference.len() == 0 && exists|k: Seq<char>|
        #[trigger] f.projects.contains_key(k) && f.projects[k].reference.len() == 0
}

pub open spec fn missing_reference_message(name: Seq<char>) -> Seq<char> {
    "Project: "@ + name
        + " are missing reference and the manifest file does not have the field: default_reference!"@
}

/// The projects directory is unset, or names an existing directory found at
/// an absolute location.
pub open spec fn dir_found(projects_dir: Seq<char>, location: Option<String>) -> bool {
    projects_dir.len() == 0 || (location matches Some(l) && is_absolute(l@))
}

/// The directory that project paths are resolved under: none where the
/// projects directory is unset, else where it was found.
pub open spec fn resolution_base(projects_dir: Seq<char>, location: Option<String>) -> Seq<char> {
    if projects_dir.len() == 0 {
        Seq::empty()
    } else {
        match location {
            Some(l) => l@,
            None => Seq::empty(),
        }
    }
}

pub open spec fn missing_dir_message() -> Seq<char> {
    "The projects_dir must point to an existing directory!"@
}

pub open spec fn exists_message(name: Seq<char>) -> Seq<char> {
    "Project: '"@ + name + "' already exists"@
}

proof fn lemma_map_entry(ps: Seq<GlProject>, i: int)
    requires
        names_unique(ps),
        0 <= i < ps.len(),
    ensures
        project_map(ps).contains_key(ps[i].name@),
        project_map(ps)[ps[i].name@] == ps[i]@,
    decreases ps.len(),
{
    if i < ps.len() - 1 {
        let d = ps.drop_last();
        assert(d[i] == ps[i]);
        assert forall|a: int, b: int| 0 <= a < b < d.len() implies #[trigger] d[a].name@
            != #[trigger] d[b].name@ by {
            assert(d[a] == ps[a] && d[b] == ps[b]);
        }
        lemma_map_entry(d, i);
        assert(ps.last() == ps[ps.len() - 1]);
    }
}

proof fn lemma_map_key(ps: Seq<GlProject>, k: Seq<char>) -> (i: int)
    requires
        project_map(ps).contains_key(k),
    ensures
        0 <= i < ps.len(),
        ps[i].name@ == k,
    decreases ps.len(),
{
    if ps.last().name@ == k {
        ps.len() - 1
    } else {
        let i = lemma_map_key(ps.drop_last(), k);
        assert(ps.drop_last()[i] == ps[i]);
        i
    }
}

proof fn lemma_unique_prefix(ps: Seq<GlProject>)
    requires
        names_unique(ps),
        ps.len() > 0,
    ensures
        names_unique(ps.drop_last()),
{
    let d = ps.drop_last();
    assert forall|a: int, b: int| 0 <= a < b < d.len() implies #[trigger] d[a].name@
        != #[trigger] d[b].name@ by {
        assert(d[a] == ps[a] && d[b] == ps[b]);
    }
}

proof fn lemma_map_update(ps: Seq<GlProject>, i: int, x: GlProject)
    requires
        names_unique(ps),
        0 <= i < ps.len(),
        x.name@ == ps[i].name@,
    ensures
        project_map(ps.update(i, x)) == project_map(ps).insert(x.name@, x@),
    decreases ps.len(),
{
    let u = ps.update(i, x);
    let d = ps.drop_last();
    if i == ps.len() - 1 {
        assert(u.drop_last() == d);
        assert(project_map(u) == project_map(ps).insert(x.name@, x@));
    } else {
        lemma_unique_prefix(ps);
        assert(u.drop_last() == d.update(i, x));
        lemma_map_update(d, i, x);
        assert(ps.last().name@ != x.name@) by {
            assert(ps[i].name@ != ps[ps.len() - 1].name@);
        }
        assert(u.last() == ps.last());
        assert(project_map(u) =~= project_map(ps).insert(x.name@, x@));
    }
}

/// Each project of `m` resolved against the fleet's defaults.
pub open spec fn resolved_map(m: Map<Seq<char>, GlProjectView>, dir: Seq<char>, def: Seq<char>) -> Map<
    Seq<char>,
    GlProjectView,
> {
    Map::new(|k: Seq<char>| m.contains_key(k), |k: Seq<char>| resolved_project(dir, def, m[k]))
}

/// Where `out` holds each project of `ps` resolved, its map holds each
/// project of `ps`'s map resolved.
proof fn lemma_map_resolved(ps: Seq<GlProject>, out: Seq<GlProject>, dir: Seq<char>, def: Seq<char>)
    requires
        out.len() == ps.len(),
        forall|j: int| 0 <= j < ps.len() ==> #[trigger] out[j]@ == resolved_project(dir, def, ps[j]@),
    ensures
        project_map(out) == resolved_map(project_map(ps), dir, def),
    decreases ps.len(),
{
    if ps.len() == 0 {
        assert(project_map(out) =~= resolved_map(project_map(ps), dir, def));
    } else {
        let d = ps.drop_last();
        let e = out.drop_last();
        assert forall|j: int| 0 <= j < d.len() implies #[trigger] e[j]@ == resolved_project(
            dir,
            def,
            d[j]@,
        ) by {
            assert(e[j] == out[j] && d[j] == ps[j]);
        }
        lemma_map_resolved(d, e, dir, def);
        assert(out.last()@ == resolved_project(dir, def, ps.last()@)) by {
            assert(out.last() == out[out.len() - 1] && ps.last() == ps[ps.len() - 1]);
        }
        assert(project_map(out) =~= resolved_map(project_map(ps), dir, def));
    }
}

impl GlProjects {
    /// Names are unique among the projects.
    pub open spec fn wf(&self) -> bool {
        names_unique(self.projects@)
    }

    pub fn new(projects_dir: String, default_reference: String) -> (r: Self)
        ensures
            r.wf(),
            r@.projects_dir == projects_dir@,
            r@.default_reference == default_reference@,
            r@.projects == Map::<Seq<char>, GlProjectView>::empty(),
    {
        GlProjects { projects_dir, default_reference, projects: Vec::new() }
    }

    fn position(&self, name: &str) -> (r: Option<usize>)
        ensures
            r matches Some(i) ==> i < self.projects@.len() && self.projects@[i as int].name@
                == name@,
            r is None ==> forall|i: int|
                0 <= i < self.projects@.len() ==> #[trigger] self.projects@[i].name@ != name@,
    {
        let mut i: usize = 0;
        while i < self.projects.len()
            invariant
                i <= self.projects@.len(),
                forall|j: int| 0 <= j < i ==> #[trigger] self.projects@[j].name@ != name@,
            decreases self.projects@.len() - i,
        {
            if same_text(self.projects[i].name.as_str(), name) {
                return Some(i);
            }
            i = i + 1;
        }
        None
    }

    /// Adds `project` under `name`, replacing a project of that name.
    pub fn insert(&mut self, name: &str, project: GlProject)
        requires
            old(self).wf(),
        ensures
            final(self).wf(),
            final(self)@.projects_dir == old(self)@.projects_dir,
            final(self)@.default_reference == old(self)@.default_reference,
            final(self)@.projects == old(self)@.projects.insert(name@, renamed(project@, name@)),
    {
        let ghost given = project@;
        let mut project = project;
        project.name = String::from_str(name);
        assert(project@ == renamed(given, name@));
        match self.position(name) {
            Some(i) => {
                proof {
                    lemma_map_update(self.projects@, i as int, project);
                }
                self.projects.set(i, project);
            },
            None => {
                self.projects.push(project);
                assert(self.projects@.drop_last() == old(self).projects@);
            },
        }
    }

    /// Looks up the project of that name.
    pub fn get(&self, name: &str) -> (r: Option<&GlProject>)
        requires
            self.wf(),
        ensures
            r is Some <==> self@.projects.contains_key(name@),
            r matches Some(p) ==> p@ == self@.projects[name@],
    {
        match self.position(name) {
            Some(i) => {
                proof {
                    lemma_map_entry(self.projects@, i as int);
                }
                Some(&self.projects[i])
            },
            None => {
                proof {
                    if self@.projects.contains_key(name@) {
                        let i = lemma_map_key(self.projects@, name@);
                    }
                }
                None
            },
        }
    }

    /// The local path of the project of that name.
    pub fn path_of(&self, name: &str) -> (r: Result<String, Error>)
        requires
            self.wf(),
        ensures
            self@.projects.contains_key(name@) <==> r is Ok,
            r matches Ok(p) ==> p@ == self@.projects[name@].path,
            r matches Err(e) ==> e matches Error::ProjectNotFound(n) && n@ == name@,
    {
        match self.get(name) {
            Some(p) => Ok(p.path.clone()),
            None => Err(Error::ProjectNotFound(String::from_str(name))),
        }
    }

    /// Fails where a project of that name is already in the fleet.
    pub fn ensure_absent(&self, name: &str) -> (r: Result<(), Error>)
        requires
            self.wf(),
        ensures
            self@.projects.contains_key(name@) <==> r is Err,
            r matches Err(e) ==> e matches Error::General(m) && m@ == exists_message(name@),
    {
        match self.get(name) {
            Some(_) => {
                let mut m = String::from_str("Project: '");
                m.append(name);
                m.append("' already exists");
                Err(Error::General(m))
            },
            None => Ok(()),
        }
    }

    /// Resolves every project's path and reference against the fleet's
    /// defaults. `projects_dir_location` is the absolute path of the
    /// existing directory that `projects_dir` names, where it names one; it
    /// matters only where `projects_dir` is set, and then the projects'
    /// paths are resolved under it, so that they come out absolute.
    pub fn verify(self, projects_dir_location: Option<String>) -> (r: Result<GlProjects, Error>)
        requires
            self.wf(),
        ensures
            !dir_found(self@.projects_dir, projects_dir_location) ==> (r matches Err(
                Error::Manifest(m),
            ) && m@ == missing_dir_message()),
            dir_found(self@.projects_dir, projects_dir_location) ==> {
                &&& r is Ok <==> !lacks_reference(self@)
                &&& r matches Ok(g) ==> {
                    &&& g.wf()
                    &&& g@.projects_dir == self@.projects_dir
                    &&& g@.default_reference == self@.default_reference
                    &&& g@.projects == resolved_map(
                        self@.projects,
                        resolution_base(self@.projects_dir, projects_dir_location),
                        self@.default_reference,
                    )
                }
                &&& r matches Err(e) ==> e matches Error::Manifest(m) && exists|k: Seq<char>|
                    #[trigger] self@.projects.contains_key(k) && self@.projects[k].reference.len()
                        == 0 && m@ == missing_reference_message(k)
            },
    {
        let base = if self.projects_dir.as_str().unicode_len() == 0 {
            String::new()
        } else {
            match projects_dir_location {
                Some(l) => {
                    if !has_root(l.as_str()) {
                        return Err(
                            Error::Manifest(
                                String::from_str(
                                    "The projects_dir must point to an existing directory!",
                                ),
                            ),
                        );
                    }
                    l
                },
                None => {
                    return Err(
                        Error::Manifest(
                            String::from_str("The projects_dir must point to an existing directory!"),
                        ),
                    );
                },
            }
        };
        let ghost ps = self.projects@;
        let ghost dir = base@;
        let ghost def = self.default_reference@;
        let mut out: Vec<GlProject> = Vec::new();
        let mut i: usize = 0;
        while i < self.projects.len()
            invariant
                ps == self.projects@,
                dir == base@,
                def == self.default_reference@,
                dir_found(self@.projects_dir, projects_dir_location),
                dir == resolution_base(self@.projects_dir, projects_dir_location),
                names_unique(ps),
                i <= ps.len(),
                out@.len() == i,
                forall|j: int| 0 <= j < i ==> #[trigger] out@[j]@ == resolved_project(dir, def, ps[j]@),
                forall|j: int| 0 <= j < i ==> #[trigger] ps[j].reference@.len() > 0 || def.len() > 0,
            decreases ps.len() - i,
        {
            let p = &self.projects[i];
            let path = if has_root(p.path.as_str()) {
                p.path.clone()
            } else if !has_final_segment(p.path.as_str()) {
                join(base.as_str(), p.name.as_str())
            } else {
                join(base.as_str(), p.path.as_str())
            };
            let reference = if p.reference.as_str().unicode_len() == 0 {
                if self.default_reference.as_str().unicode_len() == 0 {
                    let mut m = String::from_str("Project: ");
                    m.append(p.name.as_str());
                    m.append(
                        " are missing reference and the manifest file does not have the field: default_reference!",
                    );
                    proof {
                        lemma_map_entry(ps, i as int);
                        let k = ps[i as int].name@;
                        assert(self@.projects.contains_key(k));
                        assert(m@ == missing_reference_message(k));
                    }
                    return Err(Error::Manifest(m));
                }
                self.default_reference.clone()
            } else {
                p.reference.clone()
            };
            out.push(
                GlProject {
                    name: p.name.clone(),
                    fetch_url: p.fetch_url.clone(),
                    path,
                    reference,
                    auto_sync: p.auto_sync,
                },
            );
            i = i + 1;
        }
        proof {
            lemma_map_resolved(ps, out@, dir, def);
            assert forall|a: int, b: int| 0 <= a < b < out@.len() implies #[trigger] out@[a].name@
                != #[trigger] out@[b].name@ by {
                assert(out@[a]@.name == ps[a].name@ && out@[b]@.name == ps[b].name@);
            }
            assert forall|k: Seq<char>| #[trigger]
                self@.projects.contains_key(k) implies self@.projects[k].reference.len() > 0
                || def.len() > 0 by {
                let j = lemma_map_key(ps, k);
                lemma_map_entry(ps, j);
            }
        }
        Ok(
            GlProjects {
                projects_dir: self.projects_dir,
                default_reference: self.default_reference,
                projects: out,
            },
        )
    }
}

impl GlProject {
    /// One line of a listing: the name, then the fetch URL and the path
    /// where asked for, each after a comma.
    pub fn listing(&self, name: &str, fetch_url: bool, path: bool) -> (r: String)
        ensures
            r@ == name@ + (if fetch_url { ","@ + self.fetch_url@ } else { Seq::empty() }) + (
            if path {
                ","@ + self.path@
            } else {
                Seq::empty()
            }),
    {
        proof {
            reveal_strlit(",");
        }
        let mut r = String::from_str(name);
        if fetch_url {
            r.append(",");
            r.append(self.fetch_url.as_str());
        }
        if path {
            r.append(",");
            r.append(self.path.as_str());
        }
        r
    }
}

/// Where the fleet has a default reference and no project has its own,
/// validation finds no project without a reference, and every project
/// resolves to the default reference.
pub proof fn lemma_default_reference_fills(f: GlProjectsView, location: Option<String>)
    requires
        f.default_reference.len() > 0,
        forall|k: Seq<char>| #[trigger]
            f.projects.contains_key(k) ==> f.projects[k].reference.len() == 0,
    ensures
        !lacks_reference(f),
        forall|k: Seq<char>| #[trigger]
            f.projects.contains_key(k) ==> resolved_map(
                f.projects,
                resolution_base(f.projects_dir, location),
                f.default_reference,
            )[k].reference == f.default_reference,
{
}

/// Where a project has no reference and the fleet no default, validation
/// fails; where that project is the only one without a reference, the
/// failure names it.
pub proof fn lemma_missing_reference_named(f: GlProjectsView, name: Seq<char>)
    requires
        f.default_reference.len() == 0,
        f.projects.contains_key(name),
        f.projects[name].reference.len() == 0,
    ensures
        lacks_reference(f),
        (forall|k: Seq<char>| #[trigger]
            f.projects.contains_key(k) && f.projects[k].reference.len() == 0 ==> k == name)
            ==> forall|k: Seq<char>| #[trigger]
            f.projects.contains_key(k) && f.projects[k].reference.len() == 0
                ==> missing_reference_message(k) == missing_reference_message(name),
{
}

/// Under the directory where the projects directory was found, when it does
/// not end in a separator: a project
/// without a path lies at the directory, a separator and its name; a
/// relative path with a final segment lies under the directory; an
/// absolute path stays as it is.
pub proof fn lemma_path_resolution(
    projects_dir: Seq<char>,
    name: Seq<char>,
    relative: Seq<char>,
    absolute: Seq<char>,
)
    requires
        projects_dir.len() > 0,
        projects_dir.last() != '/',
        !is_absolute(name),
        !is_absolute(relative),
        final_segment_exists(relative),
        is_absolute(absolute),
    ensures
        resolved_path(projects_dir, name, Seq::empty()) == projects_dir + seq!['/'] + name,
        resolved_path(projects_dir, name, relative) == projects_dir + seq!['/'] + relative,
        resolved_path(projects_dir, name, absolute) == absolute,
{
    reveal(Seq::filter);
    let segs = segments(Seq::<char>::empty());
    assert(segs.len() == 1 && segs.last().len() == 0);
    assert(segs.drop_last() =~= Seq::<Seq<char>>::empty());
    assert(counted(segs.drop_last()) =~= Seq::<Seq<char>>::empty());
    assert(counted(segs) =~= Seq::<Seq<char>>::empty());
    assert(!final_segment_exists(Seq::<char>::empty()));
}

/// A validated fleet validates to itself: what is saved after loading loads
/// back the same, wherever the projects directory is found each time.
pub proof fn lemma_validation_idempotent(
    f: GlProjectsView,
    first: Option<String>,
    second: Option<String>,
)
    requires
        dir_found(f.projects_dir, first),
        dir_found(f.projects_dir, second),
        !lacks_reference(f),
    ensures
        ({
            let g = GlProjectsView {
                projects: resolved_map(
                    f.projects,
                    resolution_base(f.projects_dir, first),
                    f.default_reference,
                ),
                ..f
            };
            !lacks_reference(g) && resolved_map(
                g.projects,
                resolution_base(g.projects_dir, second),
                g.default_reference,
            ) == g.projects
        }),
{
    let dir = resolution_base(f.projects_dir, first);
    let again = resolution_base(f.projects_dir, second);
    let def = f.default_reference;
    let g = GlProjectsView { projects: resolved_map(f.projects, dir, def), ..f };
    assert forall|k: Seq<char>| #[trigger] g.projects.contains_key(k) implies resolved_project(
        again,
        def,
        g.projects[k],
    ) == g.projects[k] && g.projects[k].reference.len() > 0 by {
        let p = f.projects[k];
        let q = g.projects[k];
        if p.reference.len() == 0 {
            assert(def.len() > 0);
        }
        if !is_absolute(p.path) {
            let x = if final_segment_exists(p.path) {
                p.path
            } else {
                p.name
            };
            if dir.len() == 0 && !is_absolute(x) {
                assert(q.path == x) by {
                    assert(Seq::<char>::empty() + x == x);
                }
            } else if dir.len() > 0 && !is_absolute(x) {
                assert(q.path[0] == '/') by {
                    assert(q.path[0] == dir[0]);
                }
            }
        }
    }
    assert(resolved_map(g.projects, again, def) =~= g.projects);
}

} // verus!
