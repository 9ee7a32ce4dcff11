use glrepo::error::Error;
use glrepo::manifest::{default_true, GlProject, GlProjects};

fn project(fetch_url: &str, path: &str, reference: &str) -> GlProject {
    GlProject {
        name: String::new(),
        fetch_url: fetch_url.to_string(),
        path: path.to_string(),
        reference: reference.to_string(),
        auto_sync: default_true(),
    }
}

fn at(dir: &str) -> Option<String> {
    Some(dir.to_string())
}

fn fleet(projects_dir: &str, default_reference: &str, entries: &[(&str, GlProject)]) -> GlProjects {
    let mut f = GlProjects::new(projects_dir.to_string(), default_reference.to_string());
    for (name, p) in entries {
        f.insert(name, p.clone());
    }
    f
}

#[test]
fn test_verify_without_path() {
    let projs = fleet("", "", &[("foo", project("https://apa", "", "main"))])
        .verify(None)
        .unwrap();
    let project = projs.get("foo").unwrap();
    assert_eq!(String::from("foo"), project.path);
    assert_eq!(String::from("main"), project.reference);
}

#[test]
fn test_verify_with_def_path_without_name() {
    let projs = fleet("/tmp", "", &[("bas", project("https://apa", "", "main"))])
        .verify(at("/tmp"))
        .unwrap();
    let project = projs.get("bas").unwrap();
    assert_eq!(String::from("/tmp/bas"), project.path);
}

#[test]
fn test_verify_path_with_root() {
    let projs = fleet("/usr/bin", "", &[("bas", project("https://apa", "/foo/bar/apa", "main"))])
        .verify(at("/usr/bin"))
        .unwrap();
    let project = projs.get("bas").unwrap();
    assert_eq!(String::from("/foo/bar/apa"), project.path);
}

#[test]
fn test_verify_with_def_path_with_path() {
    let projs = fleet("/tmp", "", &[("bas", project("https://apa", "apa", "main"))])
        .verify(at("/tmp"))
        .unwrap();
    let project = projs.get("bas").unwrap();
    assert_eq!(String::from("/tmp/apa"), project.path);
}

#[test]
fn default_reference_fills_every_project() {
    let names = ["a", "b", "c", "d"];
    let entries: Vec<(&str, GlProject)> = names.iter().map(|n| (*n, project("u", "", ""))).collect();
    let projs = fleet("/srv", "develop", &entries).verify(at("/srv")).unwrap();
    assert_eq!(projs.projects.len(), 4);
    for n in names {
        assert_eq!(projs.get(n).unwrap().reference, "develop");
    }
}

#[test]
fn own_reference_wins_over_default() {
    let projs = fleet("", "develop", &[("a", project("u", "", "stable"))]).verify(None).unwrap();
    assert_eq!(projs.get("a").unwrap().reference, "stable");
}

#[test]
fn missing_reference_names_the_project() {
    let err = fleet("", "", &[("lonely", project("u", "", ""))]).verify(None).unwrap_err();
    match err {
        Error::Manifest(m) => assert_eq!(
            m,
            "Project: lonely are missing reference and the manifest file does not have the field: default_reference!"
        ),
        other => panic!("unexpected error {:?}", other),
    }
}

#[test]
fn missing_projects_dir_is_rejected() {
    let err = fleet("/no/such/dir", "main", &[("a", project("u", "", ""))]).verify(None).unwrap_err();
    match err {
        Error::Manifest(m) => assert_eq!(m, "The projects_dir must point to an existing directory!"),
        other => panic!("unexpected error {:?}", other),
    }
}

#[test]
fn path_without_final_segment_takes_the_name() {
    for p in ["..", "x/..", ".", "./", "./."] {
        let projs = fleet("/tmp", "main", &[("bas", project("u", p, ""))]).verify(at("/tmp")).unwrap();
        assert_eq!(projs.get("bas").unwrap().path, "/tmp/bas", "path {:?}", p);
    }
    let projs = fleet("/tmp/", "main", &[("bas", project("u", "x/.", ""))]).verify(at("/tmp/")).unwrap();
    assert_eq!(projs.get("bas").unwrap().path, "/tmp/x/.");
}

#[test]
fn validation_is_idempotent() {
    let once = fleet(
        "/tmp",
        "main",
        &[("a", project("u", "", "")), ("b", project("v", "rel/b", "dev")), ("c", project("w", "/abs", ""))],
    )
    .verify(at("/tmp"))
    .unwrap();
    let twice = fleet(
        "/tmp",
        "main",
        &[
            ("a", once.get("a").unwrap().clone()),
            ("b", once.get("b").unwrap().clone()),
            ("c", once.get("c").unwrap().clone()),
        ],
    )
    .verify(at("/tmp"))
    .unwrap();
    for n in ["a", "b", "c"] {
        assert_eq!(once.get(n).unwrap().path, twice.get(n).unwrap().path);
        assert_eq!(once.get(n).unwrap().reference, twice.get(n).unwrap().reference);
    }
    assert_eq!(twice.get("b").unwrap().path, "/tmp/rel/b");
}

#[test]
fn insert_replaces_a_project_of_the_same_name() {
    let mut f = fleet("", "", &[("a", project("one", "", "main"))]);
    f.insert("a", project("two", "", "main"));
    f.insert("b", project("three", "", "main"));
    assert_eq!(f.projects.len(), 2);
    assert_eq!(f.get("a").unwrap().fetch_url, "two");
    assert_eq!(f.get("a").unwrap().name, "a");
    assert_eq!(f.get("b").unwrap().fetch_url, "three");
    assert!(f.get("c").is_none());
}

#[test]
fn path_of_known_and_unknown_project() {
    let f = fleet("/tmp", "", &[("a", project("u", "", "main"))]).verify(at("/tmp")).unwrap();
    assert_eq!(f.path_of("a").unwrap(), "/tmp/a");
    assert!(matches!(f.path_of("zz"), Err(Error::ProjectNotFound(n)) if n == "zz"));
}

#[test]
fn ensure_absent_refuses_an_existing_name() {
    let f = fleet("", "", &[("a", project("u", "", "main"))]);
    assert!(f.ensure_absent("b").is_ok());
    match f.ensure_absent("a") {
        Err(Error::General(m)) => assert_eq!(m, "Project: 'a' already exists"),
        other => panic!("unexpected {:?}", other),
    }
}

#[test]
fn listing_line_shapes() {
    let p = project("https://x", "/p", "main");
    assert_eq!(p.listing("n", false, false), "n");
    assert_eq!(p.listing("n", true, false), "n,https://x");
    assert_eq!(p.listing("n", false, true), "n,/p");
    assert_eq!(p.listing("n", true, true), "n,https://x,/p");
}

#[test]
fn relative_projects_dir_resolves_under_its_location() {
    let once = fleet("rel", "main", &[("a", project("u", "x", "")), ("b", project("v", "", ""))])
        .verify(at("/home/u/rel"))
        .unwrap();
    assert_eq!(once.projects_dir, "rel");
    assert_eq!(once.get("a").unwrap().path, "/home/u/rel/x");
    assert_eq!(once.get("b").unwrap().path, "/home/u/rel/b");
    let twice = fleet(
        "rel",
        "main",
        &[("a", once.get("a").unwrap().clone()), ("b", once.get("b").unwrap().clone())],
    )
    .verify(at("/home/u/rel"))
    .unwrap();
    assert_eq!(twice.get("a").unwrap().path, "/home/u/rel/x");
    assert_eq!(twice.get("b").unwrap().path, "/home/u/rel/b");
}

#[test]
fn projects_dir_found_at_a_relative_location_is_rejected() {
    let err = fleet("rel", "main", &[("a", project("u", "", ""))]).verify(at("rel")).unwrap_err();
    assert!(matches!(err, Error::Manifest(m) if m == "The projects_dir must point to an existing directory!"));
}
