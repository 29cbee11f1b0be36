use bote::paths::check_depth;
use bote::paths::is_safe_entry;
use bote::paths::is_safe_link;
use bote::paths::join_under;
use bote::paths::split_components;

#[test]
fn ordinary_relative_names_are_safe() {
    assert!(is_safe_entry("a"));
    assert!(is_safe_entry("a/b.txt"));
    assert!(is_safe_entry("a/c/d.txt"));
    assert!(is_safe_entry("a/./b"));
    assert!(is_safe_entry("a//b"));
}

#[test]
fn dotdot_inside_the_destination_is_safe() {
    assert!(is_safe_entry("a/../b"));
    assert!(is_safe_entry("a/b/../../c"));
}

#[test]
fn traversal_names_are_rejected() {
    assert!(!is_safe_entry("../../etc/passwd"));
    assert!(!is_safe_entry(".."));
    assert!(!is_safe_entry("a/../../b"));
    assert!(!is_safe_entry("../x"));
}

#[test]
fn absolute_and_empty_names_are_rejected() {
    assert!(!is_safe_entry(""));
    assert!(!is_safe_entry("/etc/passwd"));
    assert!(!is_safe_entry("/"));
}

#[test]
fn split_components_keeps_empty_components() {
    let v = split_components("a/b.txt");
    assert_eq!(v, vec!["a".to_string(), "b.txt".to_string()]);
    let v = split_components("a//b/");
    assert_eq!(
        v,
        vec!["a".to_string(), "".to_string(), "b".to_string(), "".to_string()]
    );
    let v = split_components("");
    assert_eq!(v, vec!["".to_string()]);
}

#[test]
fn check_depth_reports_the_final_depth() {
    let comps = split_components("a/b/c");
    assert_eq!(check_depth(&comps, 0), Some(3));
    let comps = split_components("a/../b");
    assert_eq!(check_depth(&comps, 0), Some(1));
    let comps = split_components("..");
    assert_eq!(check_depth(&comps, 0), None);
    assert_eq!(check_depth(&comps, 1), Some(0));
}

#[test]
fn safe_links_stay_inside_the_destination() {
    assert!(is_safe_link("a/link", "b"));
    assert!(is_safe_link("a/link", "../a/file"));
    assert!(is_safe_link("a/b/link", "../../c"));
}

#[test]
fn escaping_links_are_rejected() {
    assert!(!is_safe_link("link", "../x"));
    assert!(!is_safe_link("a/link", "../../x"));
    assert!(!is_safe_link("a/link", "/etc/passwd"));
    assert!(!is_safe_link("a/link", ""));
    assert!(!is_safe_link("../link", "b"));
}

#[test]
fn join_under_joins_with_a_separator() {
    let p = join_under("dest", "a/b.txt");
    assert_eq!(p, "dest/a/b.txt".to_string());
}
