use arcrelay_desktop::sync_rules::{
    connection_admitted, discovery_intent, hosts_desktop_control_service, next_page_cursor, should_start_connection, snapshot_decision,
    take_request_id, ConnectionIntent, RecordVersions, RemoteClipboardVersion, SnapshotDecision,
};

#[test]
fn automatic_discovery_never_initiates_first_pairing() {
    assert!(!should_start_connection(
        "desktop-a",
        "desktop-b",
        false,
        false,
        ConnectionIntent::Automatic,
    ));
    assert!(should_start_connection(
        "desktop-a",
        "desktop-b",
        false,
        false,
        ConnectionIntent::UserInitiated,
    ));
}

#[test]
fn paired_desktops_elect_one_automatic_dialer() {
    assert!(!should_start_connection(
        "desktop-z",
        "desktop-a",
        true,
        true,
        ConnectionIntent::Automatic,
    ));
    assert!(should_start_connection(
        "desktop-a",
        "desktop-z",
        true,
        true,
        ConnectionIntent::Automatic,
    ));
    assert!(!should_start_connection(
        "desktop-a",
        "desktop-a",
        true,
        true,
        ConnectionIntent::Automatic,
    ));
}

#[test]
fn paired_desktops_allow_the_other_side_to_recover_after_the_grace_period() {
    assert!(should_start_connection(
        "desktop-z",
        "desktop-a",
        true,
        true,
        ConnectionIntent::AutomaticFallback,
    ));
    assert!(should_start_connection(
        "desktop-a",
        "desktop-z",
        true,
        true,
        ConnectionIntent::AutomaticFallback,
    ));
    assert!(!should_start_connection(
        "desktop-a",
        "desktop-a",
        true,
        true,
        ConnectionIntent::AutomaticFallback,
    ));
    assert!(!should_start_connection(
        "desktop-z",
        "desktop-a",
        false,
        false,
        ConnectionIntent::AutomaticFallback,
    ));
}

#[test]
fn disabled_auto_connect_blocks_background_dials_but_not_manual_connection() {
    assert!(!should_start_connection(
        "desktop-a",
        "desktop-b",
        true,
        false,
        ConnectionIntent::Automatic,
    ));
    assert!(!should_start_connection(
        "desktop-a",
        "desktop-b",
        true,
        false,
        ConnectionIntent::AutomaticFallback,
    ));
    assert!(should_start_connection(
        "desktop-a",
        "desktop-b",
        true,
        false,
        ConnectionIntent::UserInitiated,
    ));
}

#[test]
fn only_desktop_platforms_host_the_desktop_control_service() {
    for platform in ["macos", "MAC", "darwin", "osx", "windows", "Win32", "linux"] {
        assert!(
            hosts_desktop_control_service(platform),
            "expected {platform} to be a desktop control host"
        );
    }
    for platform in ["ios", "iPadOS", "android", "", "unknown"] {
        assert!(
            !hosts_desktop_control_service(platform),
            "expected {platform} to be rejected as a desktop control host"
        );
    }
    assert!(hosts_desktop_control_service("  Linux\n"));
}

#[test]
fn dialer_election_orders_ids_by_their_bytes() {
    assert!(should_start_connection("a", "ab", true, true, ConnectionIntent::Automatic));
    assert!(!should_start_connection("ab", "a", true, true, ConnectionIntent::Automatic));
    assert!(should_start_connection("Z", "a", true, true, ConnectionIntent::Automatic));
    assert!(should_start_connection("é", "中", true, true, ConnectionIntent::Automatic));
}

#[test]
fn request_ids_skip_zero_and_saturate() {
    let mut next = 0;
    assert_eq!(take_request_id(&mut next), 1);
    assert_eq!(take_request_id(&mut next), 2);
    assert_eq!(next, 3);
    let mut last = u64::MAX;
    assert_eq!(take_request_id(&mut last), u64::MAX);
    assert_eq!(last, u64::MAX);
}

fn versions() -> RecordVersions {
    RecordVersions {
        revision: 4,
        updated_by_device_id: "device-b".into(),
        favorite_revision: 2,
        favorite_updated_by_device_id: "device-b".into(),
        labels: vec![("label-a".into(), 3, "device-b".into())],
        label_memberships: vec![("label-a".into(), 5, "device-b".into())],
    }
}

#[test]
fn remote_clipboard_manifest_skips_records_already_covered() {
    let record = versions();
    let remote = RemoteClipboardVersion::from_versions(&record);
    assert!(remote.has_current_content(&record));
    assert!(remote.covers(&record));
    assert_eq!(snapshot_decision(Some(&remote), &record), SnapshotDecision::Skip);

    let mut newer_membership = versions();
    newer_membership.label_memberships[0].1 += 1;
    assert!(remote.has_current_content(&newer_membership));
    assert!(!remote.covers(&newer_membership));
    assert_eq!(
        snapshot_decision(Some(&remote), &newer_membership),
        SnapshotDecision::Send {
            include_payload: false
        }
    );
    let mut newer_content = versions();
    newer_content.updated_by_device_id = "device-c".into();
    assert_eq!(
        snapshot_decision(Some(&remote), &newer_content),
        SnapshotDecision::Send {
            include_payload: true
        }
    );
    assert_eq!(
        snapshot_decision(None, &record),
        SnapshotDecision::Send {
            include_payload: true
        }
    );
}

#[test]
fn pagination_must_move_forward() {
    assert_eq!(next_page_cursor(5, None), Ok(None));
    assert_eq!(next_page_cursor(5, Some(6)), Ok(Some(6)));
    assert_eq!(
        next_page_cursor(5, Some(5)).unwrap_err(),
        "invalid remote clipboard pagination cursor"
    );
}

#[test]
fn connections_start_only_once_and_to_desktops() {
    assert_eq!(discovery_intent(5, 10), ConnectionIntent::Automatic);
    assert_eq!(discovery_intent(10, 10), ConnectionIntent::AutomaticFallback);
    assert!(connection_admitted("linux", "a", "b", true, true, ConnectionIntent::Automatic, false, false));
    assert!(!connection_admitted("android", "a", "b", true, true, ConnectionIntent::UserInitiated, false, false));
    assert!(!connection_admitted("linux", "a", "b", true, true, ConnectionIntent::Automatic, true, false));
    assert!(!connection_admitted("linux", "a", "b", true, true, ConnectionIntent::Automatic, false, true));
    assert!(!connection_admitted("linux", "b", "a", true, true, ConnectionIntent::Automatic, false, false));
}

use arcrelay_desktop::sync_rules::{desktop_pairing_grants, Capability, GrantDirection, PairingGrant};

#[test]
fn pairing_asks_for_each_desktop_capability_both_ways() {
    let grants = desktop_pairing_grants();
    assert_eq!(grants.len(), 16);
    assert_eq!(grants[0], PairingGrant { capability: Capability::ClipboardRead, direction: GrantDirection::Outbound });
    assert_eq!(grants[1], PairingGrant { capability: Capability::ClipboardRead, direction: GrantDirection::Inbound });
    assert_eq!(grants[14], PairingGrant { capability: Capability::PrintSubmit, direction: GrantDirection::Outbound });
    assert_eq!(grants[15], PairingGrant { capability: Capability::PrintSubmit, direction: GrantDirection::Inbound });
    assert!(grants.contains(&PairingGrant { capability: Capability::CrossScreenInject, direction: GrantDirection::Inbound }));
}
