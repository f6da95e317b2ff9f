use arcrelay_desktop::replica_worker::{
    copy_is_current, is_copy_before, revisions_unchanged, LiveCopy, ReconciliationOutcome,
    ReplicaWorker, FIRST_RETRY_SECS,
};

fn copy(at: i64, device: &str, id: &str) -> LiveCopy {
    LiveCopy { captured_at_ms: at, updated_by_device_id: device.into(), sync_id: id.into(), revision: 1 }
}

#[test]
fn later_live_copies_replace_earlier_ones() {
    let mut w = ReplicaWorker::new(0);
    assert!(w.recover_selection);
    w.on_selection_recovered(None);
    assert!(w.on_local_change(Some(copy(100, "a", "x")), 5));
    assert!(!w.on_local_change(Some(copy(99, "z", "z")), 6));
    assert_eq!(w.pending_copy.as_ref().unwrap().captured_at_ms, 100);
    assert!(w.on_local_change(Some(copy(100, "a", "x")), 7));
    assert!(w.on_local_change(Some(copy(100, "b", "a")), 8));
    assert!(!w.on_local_change(None, 9));
    assert_eq!(w.pending_copy.as_ref().unwrap().updated_by_device_id, "b");
    assert_eq!(w.reconcile_at_ms, 9);
    assert!(w.known_revisions.is_none());
}

#[test]
fn live_copy_order_is_by_time_device_then_id() {
    assert!(is_copy_before(&copy(1, "z", "z"), &copy(2, "a", "a")));
    assert!(is_copy_before(&copy(2, "a", "z"), &copy(2, "b", "a")));
    assert!(is_copy_before(&copy(2, "a", "a"), &copy(2, "a", "b")));
    assert!(!is_copy_before(&copy(2, "a", "b"), &copy(2, "a", "b")));
}

#[test]
fn failed_sends_back_off_up_to_half_a_minute() {
    let mut w = ReplicaWorker::new(0);
    w.on_selection_recovered(Some(copy(1, "a", "x")));
    let sent = w.start_send(0, true).unwrap();
    assert_eq!(sent.sync_id, "x");
    assert!(w.start_send(0, true).is_none());
    let steps = [(1_000u64, 3_000u64, 4u64), (3_000, 7_000, 8), (7_000, 15_000, 16), (15_000, 31_000, 30), (31_000, 61_000, 30)];
    let mut now = 0;
    for (finished_at, retry_at, delay) in steps {
        w.on_send_finished(false, finished_at);
        assert_eq!(w.retry_at_ms, retry_at);
        assert_eq!(w.retry_delay_secs, delay);
        assert!(w.start_send(retry_at - 1, true).is_none());
        assert!(w.start_send(retry_at, true).is_some());
        now = retry_at;
    }
    w.on_send_finished(true, now);
    assert!(w.pending_copy.is_none());
    assert_eq!(w.retry_delay_secs, FIRST_RETRY_SECS);
    assert!(w.start_send(now + 100_000, false).is_none());
}

#[test]
fn reconciliation_backs_off_and_logs_changed_errors_once() {
    let mut w = ReplicaWorker::new(0);
    assert_eq!(w.start_reconciliation(0, true), Some(None));
    assert_eq!(w.start_reconciliation(0, true), None);
    assert!(w.on_reconciliation_finished(ReconciliationOutcome::Pending { first_error: None }, 10));
    assert_eq!(w.last_error, "clipboard changed during reconciliation");
    assert_eq!(w.reconcile_at_ms, 2_010);
    assert_eq!(w.reconcile_delay_secs, 4);
    assert_eq!(w.start_reconciliation(2_009, true), None);
    assert_eq!(w.start_reconciliation(2_010, true), Some(None));
    assert!(!w.on_reconciliation_finished(ReconciliationOutcome::Pending { first_error: None }, 2_020));
    assert_eq!(w.reconcile_at_ms, 6_020);
    assert!(w.start_reconciliation(6_020, true).is_some());
    assert!(w.on_reconciliation_finished(ReconciliationOutcome::Failed { error: "closed".into() }, 6_030));
    assert_eq!(w.reconcile_delay_secs, 16);
    assert!(w.start_reconciliation(100_000, true).is_some());
    assert!(!w.on_reconciliation_finished(
        ReconciliationOutcome::Converged { local_revision: 3, remote_revision: 4 },
        100_010
    ));
    assert_eq!(w.known_revisions, Some((3, 4)));
    assert_eq!(w.reconcile_delay_secs, FIRST_RETRY_SECS);
    assert!(w.last_error.is_empty());
    assert_eq!(w.start_reconciliation(100_010, false), None);
    assert_eq!(w.start_reconciliation(100_010, true), Some(Some((3, 4))));
    for _ in 0..10 {
        w.on_reconciliation_finished(ReconciliationOutcome::Failed { error: "x".into() }, 0);
    }
    assert_eq!(w.reconcile_delay_secs, 60);
}

#[test]
fn lagging_drops_the_waiting_copy() {
    let mut w = ReplicaWorker::new(0);
    w.on_selection_recovered(Some(copy(1, "a", "x")));
    assert!(w.start_send(0, true).is_some());
    w.on_lagged(50);
    assert!(w.pending_copy.is_none());
    assert!(!w.sending);
    assert!(w.recover_selection);
    assert_eq!(w.retry_at_ms, 50);
}

#[test]
fn probes_and_stale_copies() {
    assert!(revisions_unchanged(Some((1, 2)), 1, 2));
    assert!(!revisions_unchanged(Some((1, 2)), 1, 3));
    assert!(!revisions_unchanged(None, 1, 2));
    let c = LiveCopy { captured_at_ms: 0, updated_by_device_id: "dev".into(), sync_id: "s".into(), revision: 4 };
    assert!(copy_is_current(&c, 4, "dev"));
    assert!(!copy_is_current(&c, 5, "dev"));
    assert!(!copy_is_current(&c, 4, "other"));
}
