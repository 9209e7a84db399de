use tmux_setup::paths::{look_path, path_is_absolute, resolve_dir, search_candidates};

#[test]
fn resolve_keeps_absolute_dir() {
    assert_eq!(resolve_dir("/home/u", "/etc"), "/etc");
    assert_eq!(resolve_dir("", "/etc"), "/etc");
}

#[test]
fn resolve_joins_relative_dir() {
    assert_eq!(resolve_dir("/home/u", "proj"), "/home/u/proj");
    assert_eq!(resolve_dir("/home/u/", "proj"), "/home/u/proj");
    assert_eq!(resolve_dir("", "proj"), "proj");
    assert_eq!(resolve_dir("rel", "a/b"), "rel/a/b");
}

#[test]
fn absolute_paths() {
    assert!(path_is_absolute("/x"));
    assert!(!path_is_absolute("x"));
    assert!(!path_is_absolute(""));
}

#[test]
fn candidates_follow_search_path() {
    assert_eq!(search_candidates("tmux", "/usr/bin:/bin"), vec!["/usr/bin/tmux", "/bin/tmux"]);
    assert_eq!(search_candidates("tmux", "/a/:"), vec!["/a/tmux", "tmux"]);
    assert_eq!(search_candidates("/opt/tmux", "/usr/bin"), vec!["/opt/tmux"]);
}

#[test]
fn look_path_takes_first_existing() {
    let c = vec!["/a/x".to_string(), "/b/x".to_string(), "/c/x".to_string()];
    assert_eq!(look_path(&c, &vec![false, true, true]), Some("/b/x".to_string()));
    assert_eq!(look_path(&c, &vec![false, false, false]), None);
}
