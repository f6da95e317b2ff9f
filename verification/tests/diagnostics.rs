use arcrelay_desktop::diagnostics::{frontend_log_level, sanitize_event_name, FrontendLogLevel};

#[test]
fn frontend_event_names_are_bounded_and_machine_readable() {
    assert_eq!(
        sanitize_event_name("Input.Handoff Failed!"),
        "input.handofffailed"
    );
    assert_eq!(
        sanitize_event_name("input.handoff.failed"),
        "input.handoff.failed"
    );
    assert_eq!(sanitize_event_name("!!!"), "frontend.event");
}

#[test]
fn long_event_names_keep_their_first_characters() {
    let long = "a".repeat(100) + "b";
    assert_eq!(sanitize_event_name(&long), "a".repeat(96));
    assert_eq!(sanitize_event_name("中文_OK-1"), "_ok-1");
    assert_eq!(sanitize_event_name(""), "frontend.event");
}

#[test]
fn log_levels_are_case_insensitive() {
    assert_eq!(frontend_log_level("ERROR"), FrontendLogLevel::Error);
    assert_eq!(frontend_log_level("Warning"), FrontendLogLevel::Warn);
    assert_eq!(frontend_log_level("warn"), FrontendLogLevel::Warn);
    assert_eq!(frontend_log_level("debug"), FrontendLogLevel::Debug);
    assert_eq!(frontend_log_level("trace"), FrontendLogLevel::Info);
}

#[test]
fn sanitizing_a_sanitized_name_changes_nothing() {
    for name in ["Hello World!!", "", "中文_OK-1", "already.clean_name-2"] {
        let once = sanitize_event_name(name);
        assert_eq!(sanitize_event_name(&once), once);
        assert!(!once.is_empty() && once.len() <= 96);
        assert!(once
            .chars()
            .all(|c| c.is_ascii_lowercase() || c.is_ascii_digit() || matches!(c, '.' | '_' | '-')));
    }
}
