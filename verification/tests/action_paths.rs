use arcrelay_desktop::action_paths::{expand_path, screenshot_file_name};

#[test]
fn plain_paths_are_trimmed_and_kept() {
    assert_eq!(expand_path("  /Applications/Notes.app \n"), Ok("/Applications/Notes.app".to_string()));
    assert_eq!(expand_path("relative/dir"), Ok("relative/dir".to_string()));
}

#[test]
fn environment_variables_are_expanded() {
    let expanded = expand_path(" $PATH ").unwrap();
    assert_ne!(expanded, "$PATH");
    assert!(!expanded.contains('$'));
}

#[test]
fn undefined_variables_are_reported() {
    let error = expand_path("${ARCRELAY_SURELY_UNDEFINED_VARIABLE_FOR_TESTS}/x").unwrap_err();
    assert!(error.starts_with("failed to expand path variables: "));
    assert!(error.len() > "failed to expand path variables: ".len());
}

#[test]
fn screenshots_are_named_by_their_time() {
    assert_eq!(screenshot_file_name(1_700_000_000), "ArcRelay-1700000000.png");
    assert_eq!(screenshot_file_name(0), "ArcRelay-0.png");
}
