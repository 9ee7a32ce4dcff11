use glrepo::args::{manifest_location, worker_count};
use glrepo::path::{has_final_segment, has_root, join};
use glrepo::text::same_text;

#[test]
fn final_segment_cases() {
    for p in ["a", "a/b", "a/", "a/.", "./a", "...", ".a", "a/../b"] {
        assert!(has_final_segment(p), "{:?}", p);
    }
    for p in ["", ".", "..", "./", "./.", "a/..", "a/../", "//"] {
        assert!(!has_final_segment(p), "{:?}", p);
    }
}

#[test]
fn root_and_join() {
    assert!(has_root("/x"));
    assert!(!has_root("x/"));
    assert!(!has_root(""));
    assert_eq!(join("", "foo"), "foo");
    assert_eq!(join("/tmp", "foo"), "/tmp/foo");
    assert_eq!(join("/tmp/", "foo"), "/tmp/foo");
    assert_eq!(join("/tmp", "/etc"), "/etc");
}

#[test]
fn manifest_location_cases() {
    assert_eq!(manifest_location("/home/u/.config/glrepo/", "default.yaml"), "/home/u/.config/glrepo/default.yaml");
    assert_eq!(manifest_location("/cfg", "m.yaml"), "/cfg/m.yaml");
    assert_eq!(manifest_location("/cfg", "/etc/m.yaml"), "/etc/m.yaml");
    assert_eq!(manifest_location("/cfg", "./m.yaml"), "./m.yaml");
    assert_eq!(manifest_location("/cfg", ".m.yaml"), "/cfg/.m.yaml");
}

#[test]
fn worker_count_is_at_least_one() {
    assert_eq!(worker_count(0), 1);
    assert_eq!(worker_count(1), 1);
    assert_eq!(worker_count(16), 16);
}

#[test]
fn same_text_compares_characters() {
    assert!(same_text("åbc", "åbc"));
    assert!(!same_text("abc", "abd"));
    assert!(!same_text("abc", "ab"));
    assert!(same_text("", ""));
}
