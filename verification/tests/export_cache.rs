use arcrelay_desktop::export_cache::{
    check_capacity, expiry_marker, export_file_name, export_file_names, is_expired, is_export_directory,
    parse_u64, part_file_name,
    should_remove, MAX_CACHE_BYTES, RETENTION_SECS,
};

#[test]
fn filenames_are_distinct_even_when_extensions_match() {
    let first = export_file_name("20240102-030405", 0, "txt");
    let second = export_file_name("20240102-030405", 1, "txt");
    assert_ne!(first, second);
    assert_eq!(first, "Clipboard-20240102-030405-1.txt");
    assert_eq!(second, "Clipboard-20240102-030405-2.txt");
    assert_eq!(part_file_name(9), "10.part");
}

#[test]
fn expiry_follows_the_marker_or_the_age() {
    let now = 1_000_000;
    let marker = expiry_marker(now);
    assert_eq!(marker, now + RETENTION_SECS);
    assert!(!is_expired(Some(marker), None, now + RETENTION_SECS - 2));
    assert!(is_expired(Some(marker), None, now + RETENTION_SECS + 2));
    assert!(is_expired(None, Some(RETENTION_SECS + 1), now));
    assert!(!is_expired(None, Some(RETENTION_SECS), now));
    assert!(!is_expired(None, None, now));
    assert!(!should_remove(Some(1), None, 5, true));
    assert!(should_remove(Some(1), None, 5, false));
    assert_eq!(expiry_marker(u64::MAX), u64::MAX);
}

#[test]
fn markers_parse_like_u64_from_str() {
    assert_eq!(parse_u64("1700000000"), Some(1_700_000_000));
    assert_eq!(parse_u64("+7"), Some(7));
    assert_eq!(parse_u64("18446744073709551615"), Some(u64::MAX));
    assert_eq!(parse_u64("18446744073709551616"), None);
    assert_eq!(parse_u64(""), None);
    assert_eq!(parse_u64("+"), None);
    assert_eq!(parse_u64(" 1"), None);
    assert_eq!(parse_u64("-1"), None);
    for text in ["0", "42", "+15", "999x"] {
        assert_eq!(parse_u64(text), text.parse::<u64>().ok());
    }
}

#[test]
fn the_cache_budget_is_enforced() {
    assert!(check_capacity(MAX_CACHE_BYTES - 10, 10).is_ok());
    assert_eq!(
        check_capacity(MAX_CACHE_BYTES - 10, 11).unwrap_err(),
        "clipboard export cache is full; try again after older exports expire"
    );
    assert!(check_capacity(u64::MAX, u64::MAX).is_err());
}

#[test]
fn generated_names_share_one_stamp() {
    let names = export_file_names(&vec!["png".to_string(), "txt".to_string()]);
    assert_eq!(names.len(), 2);
    let first = names[0].strip_prefix("Clipboard-").unwrap().strip_suffix("-1.png").unwrap();
    let second = names[1].strip_prefix("Clipboard-").unwrap().strip_suffix("-2.txt").unwrap();
    assert_eq!(first, second);
    assert_eq!(first.len(), 15);
    assert_eq!(&first[8..9], "-");
}

#[test]
fn only_uuid_directories_hold_exports() {
    assert!(is_export_directory(true, "67e55044-10b1-426f-9247-bb680e5fe0c8"));
    assert!(!is_export_directory(false, "67e55044-10b1-426f-9247-bb680e5fe0c8"));
    assert!(!is_export_directory(true, "not-a-uuid"));
}

#[test]
fn export_directories_are_named_by_uuids_in_any_accepted_form() {
    assert!(is_export_directory(true, "67e5504410b1426f9247bb680e5fe0c8"));
    assert!(is_export_directory(true, "F9168C5E-CEB2-4faa-B6BF-329BF39FA1E4"));
    assert!(is_export_directory(true, "{6d93bade-bd9f-4e13-8914-9474e1e3567b}"));
    assert!(is_export_directory(true, "URN:uuid:67e55044-10b1-426f-9247-bb680e5fe0c8"));
    assert!(!is_export_directory(true, "67e55044-10b1-426f-9247-bb680e5fe0c"));
    assert!(!is_export_directory(true, "67e55044x10b1-426f-9247-bb680e5fe0c8"));
    assert!(!is_export_directory(true, "67e55044-10b1-426f-9247-bb680e5fe0cg"));
    assert!(!is_export_directory(true, "urn:uid:67e55044-10b1-426f-9247-bb680e5fe0c8"));
    assert!(!is_export_directory(true, ".expires"));
}
