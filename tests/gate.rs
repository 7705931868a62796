use time_sap_lib::{is_allowed_under, starts_with_components, Resolution};

fn comps(parts: &[&str]) -> Vec<String> {
    parts.iter().map(|p| p.to_string()).collect()
}

#[test]
fn descendant_matches_whole_components() {
    let base = comps(&["/", "home", "user"]);
    assert!(starts_with_components(&comps(&["/", "home", "user", "notes.txt"]), &base));
    assert!(starts_with_components(&base, &base));
}

#[test]
fn root_sibling_with_shared_prefix_is_denied() {
    let base = comps(&["/", "home", "user"]);
    assert!(!starts_with_components(&comps(&["/", "home", "userX", "file.txt"]), &base));
}

#[test]
fn shorter_path_is_not_within_base() {
    let base = comps(&["/", "home", "user"]);
    assert!(!starts_with_components(&comps(&["/", "home"]), &base));
}

#[test]
fn empty_root_set_denies_everything() {
    assert!(!is_allowed_under("/usr/share", &vec![]).allowed);
}

#[test]
fn existing_descendant_is_allowed() {
    assert!(is_allowed_under("/usr/share", &vec!["/usr".to_string()]).allowed);
    assert!(is_allowed_under("/usr", &vec!["/usr".to_string()]).allowed);
}

#[test]
fn traversal_out_of_root_is_denied() {
    let roots = vec!["/usr/share".to_string()];
    assert!(!is_allowed_under("/usr/share/../../etc/hostname", &roots).allowed);
    assert!(!is_allowed_under("/usr/share/../../etc/escape.txt", &roots).allowed);
}

#[test]
fn traversal_into_root_is_allowed() {
    assert!(is_allowed_under("/usr/share/../lib", &vec!["/usr/lib".to_string()]).allowed);
}

#[test]
fn new_file_in_allowed_directory_is_allowed() {
    let roots = vec!["/usr/share".to_string()];
    assert!(is_allowed_under("/usr/share/no_such_file_here.txt", &roots).allowed);
}

#[test]
fn new_file_in_missing_directory_is_denied() {
    let roots = vec!["/usr/share".to_string()];
    assert!(!is_allowed_under("/usr/share/no_such_dir_here/file.txt", &roots).allowed);
}

#[test]
fn unresolvable_root_is_skipped_not_fatal() {
    let roots = vec!["/no_such_root_here".to_string(), "/usr".to_string()];
    assert!(is_allowed_under("/usr/share", &roots).allowed);
    assert!(!is_allowed_under("/etc", &roots).allowed);
}

#[test]
fn verdict_carries_the_forms_it_used() {
    let v = is_allowed_under("/usr/share", &vec!["/usr".to_string(), "/no_such_root_here".to_string()]);
    assert!(v.allowed);
    assert_eq!(v.own.queried_path(), "/usr/share");
    assert_eq!(v.own.resolution(), &Resolution::Resolved(comps(&["/", "usr", "share"])));
    assert!(v.parent.is_none());
    assert_eq!(v.canonical_roots.len(), 2);
    assert_eq!(v.canonical_roots[0].queried_path(), "/usr");
    assert_eq!(v.canonical_roots[0].resolution(), &Resolution::Resolved(comps(&["/", "usr"])));
    assert_eq!(v.canonical_roots[1].queried_path(), "/no_such_root_here");
    assert_eq!(v.canonical_roots[1].resolution(), &Resolution::Unresolved);

    let v = is_allowed_under("/usr/share/no_such_file_here.txt", &vec!["/usr/share".to_string()]);
    assert!(v.allowed);
    assert_eq!(v.own.resolution(), &Resolution::Unresolved);
    let parent = v.parent.as_ref().unwrap();
    assert_eq!(parent.queried_path(), "/usr/share");
    assert_eq!(parent.resolution(), &Resolution::Resolved(comps(&["/", "usr", "share"])));

    let v = is_allowed_under("/usr/share/no_such_dir_here/new.txt", &vec!["/usr/share".to_string()]);
    assert!(!v.allowed);
    assert_eq!(v.own.resolution(), &Resolution::Unresolved);
    let parent = v.parent.as_ref().unwrap();
    assert_eq!(parent.queried_path(), "/usr/share/no_such_dir_here");
    assert_eq!(parent.resolution(), &Resolution::Unresolved);
}

#[test]
fn traversal_form_is_resolved_before_comparing() {
    let v = is_allowed_under("/usr/share/../lib", &vec!["/usr/share".to_string()]);
    assert!(!v.allowed);
    assert_eq!(v.own.resolution(), &Resolution::Resolved(comps(&["/", "usr", "lib"])));
}

#[test]
fn no_climbing_past_missing_parent() {
    let roots = vec!["/usr".to_string()];
    assert!(!is_allowed_under("/usr/no_such_dir_here/new.txt", &roots).allowed);
}

#[test]
fn every_root_unresolvable_denies() {
    let roots = vec!["/no_such_root_a".to_string(), "/no_such_root_b".to_string()];
    assert!(!is_allowed_under("/usr/share", &roots).allowed);
}
