use tmux_setup::session::{check_deps, start_action, DependencyMissing, StartAction};

#[test]
fn missing_dependency_is_named() {
    let deps = Some(vec!["tmux".to_string(), "nonexistent-tool".to_string()]);
    let err = check_deps(&deps, &vec![true, false]).unwrap_err();
    assert_eq!(err.name, "nonexistent-tool");
    assert_eq!(err.message(), "Dependency not found: nonexistent-tool");
    let deps = Some(vec!["nope".to_string(), "tmux".to_string()]);
    assert_eq!(check_deps(&deps, &vec![false, true]).unwrap_err().name, "nope");
}

#[test]
fn first_missing_dependency_wins() {
    let deps = Some(vec!["a".to_string(), "b".to_string(), "c".to_string()]);
    assert_eq!(check_deps(&deps, &vec![true, false, false]).unwrap_err().name, "b");
}

#[test]
fn all_found_or_none_declared_passes() {
    let deps = Some(vec!["a".to_string(), "b".to_string()]);
    assert!(check_deps(&deps, &vec![true, true]).is_ok());
    assert!(check_deps(&None, &vec![]).is_ok());
    assert!(check_deps(&Some(vec![]), &vec![]).is_ok());
}

#[test]
fn running_session_is_attached_not_rebuilt() {
    let missing = DependencyMissing { name: "tmux".to_string() };
    assert!(matches!(start_action(true, Err(missing)), StartAction::Attach));
    assert!(matches!(start_action(true, Ok(())), StartAction::Attach));
}

#[test]
fn missing_dependency_stops_before_building() {
    let missing = DependencyMissing { name: "fzf".to_string() };
    match start_action(false, Err(missing)) {
        StartAction::Stop { missing } => assert_eq!(missing.name, "fzf"),
        _ => panic!("expected a stop"),
    }
    assert!(matches!(start_action(false, Ok(())), StartAction::Build));
}
