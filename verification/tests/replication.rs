use arcrelay_desktop::replication::{
    sorted_unique, unsupported_desktop_failures, ClipboardMergeSummary, ConnectedDesktop,
    DiscoveredDesktop, MergeRound, PeerReconciliation, MERGE_ROUNDS,
};

fn peer(received: usize, sent: usize, converged: bool, errors: Vec<&str>) -> PeerReconciliation {
    PeerReconciliation {
        received,
        sent,
        labels_received: 1,
        labels_sent: 0,
        failed: 0,
        total_records: 40 + received,
        converged,
        local_revision: 7,
        remote_revision: 9,
        errors: errors.into_iter().map(String::from).collect(),
    }
}

#[test]
fn merge_adds_up_the_peers_and_completes_on_a_quiet_round() {
    let mut summary = ClipboardMergeSummary::new(2);
    let mut round = MergeRound::new();
    summary.record_reconciled(&mut round, "Laptop", &peer(3, 2, true, vec![]));
    summary.record_reconciled(&mut round, "Desk", &peer(1, 0, false, vec![]));
    assert_eq!(round.changes, 3 + 2 + 1 + 1 + 1);
    assert!(!round.complete);
    assert_eq!(summary.received, 4);
    assert_eq!(summary.sent, 2);
    assert_eq!(summary.labels_received, 2);
    assert_eq!(summary.total_records, 43);
    assert_eq!(
        summary.failures,
        vec!["Desk: new clipboard changes are still being synchronized".to_string()]
    );
    assert!(!summary.finish_round(&round));
    assert_eq!(summary.failures.len(), 1);

    let mut round = MergeRound::new();
    summary.record_reconciled(&mut round, "Laptop", &peer(0, 0, true, vec![]));
    assert!(!summary.finish_round(&round));
    assert!(summary.failures.is_empty());
    assert!(!summary.complete);

    let mut quiet = MergeRound::new();
    assert!(summary.finish_round(&quiet));
    assert!(summary.complete);
    quiet.complete = false;
    assert!(!summary.finish_round(&quiet));
    assert_eq!(MERGE_ROUNDS, 3);
}

#[test]
fn a_failed_peer_stops_the_merge_after_its_round() {
    let mut summary = ClipboardMergeSummary::new(1);
    let mut round = MergeRound::new();
    summary.record_failure(&mut round, "Tower", "clipboard reconciliation timed out; background recovery will continue");
    assert_eq!(summary.failed, 1);
    assert!(!round.complete);
    assert_eq!(
        summary.failures,
        vec!["Tower: clipboard reconciliation timed out; background recovery will continue".to_string()]
    );
    assert!(summary.finish_round(&round));
    assert!(!summary.complete);
}

#[test]
fn unconverged_peer_is_listed_with_its_first_error() {
    let mut summary = ClipboardMergeSummary::new(1);
    let mut round = MergeRound::new();
    summary.record_reconciled(&mut round, "Mac", &peer(0, 0, false, vec!["disk full", "later"]));
    assert_eq!(summary.failures, vec!["Mac: disk full".to_string()]);
}

#[test]
fn desktops_without_reliable_transport_are_reported() {
    let connected = vec![
        ConnectedDesktop {
            has_reliable_transport: false,
            discovered: Some(DiscoveredDesktop { name: "Old PC".into(), platform: " Windows ".into() }),
        },
        ConnectedDesktop {
            has_reliable_transport: true,
            discovered: Some(DiscoveredDesktop { name: "New PC".into(), platform: "linux".into() }),
        },
        ConnectedDesktop {
            has_reliable_transport: false,
            discovered: Some(DiscoveredDesktop { name: "Phone".into(), platform: "android".into() }),
        },
        ConnectedDesktop { has_reliable_transport: false, discovered: None },
    ];
    let failures = unsupported_desktop_failures(&connected);
    assert_eq!(
        failures,
        vec!["Old PC: update this desktop to use reliable clipboard synchronization".to_string()]
    );
    let mut summary = ClipboardMergeSummary::new(1);
    summary.complete = true;
    summary.add_unsupported(failures);
    assert_eq!(summary.devices, 2);
    assert_eq!(summary.failed, 1);
    assert!(!summary.complete);
    summary.add_unsupported(Vec::new());
    assert_eq!(summary.devices, 2);
}

#[test]
fn finishing_sorts_and_deduplicates_the_failures() {
    let mut summary = ClipboardMergeSummary::new(3);
    summary.failures = vec!["b: x".into(), "a: y".into(), "b: x".into(), "Z".into(), "a: y".into()];
    summary.finish(Some(120));
    assert_eq!(summary.failures, vec!["Z".to_string(), "a: y".to_string(), "b: x".to_string()]);
    assert_eq!(summary.total_records, 120);
    summary.finish(None);
    assert_eq!(summary.total_records, 0);
    let v = vec!["é".to_string(), "e".to_string(), "ea".to_string(), "".to_string()];
    assert_eq!(sorted_unique(&v), vec!["".to_string(), "e".to_string(), "ea".to_string(), "é".to_string()]);
}

use arcrelay_desktop::replication::{another_round, start_merge};

#[test]
fn merges_start_only_when_they_can_run() {
    assert_eq!(
        start_merge(true, true, 2).err(),
        Some("clipboard synchronization is already running".to_string())
    );
    assert_eq!(start_merge(false, false, 2).err(), Some("clipboard synchronization is disabled".to_string()));
    assert!(start_merge(false, true, 0).unwrap_err().starts_with("no online desktop supports reliable"));
    let summary = start_merge(false, true, 2).unwrap();
    assert_eq!(summary.devices, 2);
    assert!(!summary.complete);
    assert!(summary.failures.is_empty());
}

#[test]
fn merges_run_at_most_three_rounds() {
    assert_eq!(MERGE_ROUNDS, 3);
    assert!(another_round(0, false));
    assert!(another_round(2, false));
    assert!(!another_round(3, false));
    assert!(!another_round(1, true));
}
