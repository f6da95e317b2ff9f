use arcrelay_desktop::gesture_lab::{
    ensure_injection_supported, timing_within_limits, BatchMode, GestureDebugAction,
    GestureRecorder, SampleHeader, Suppression, BEGAN, CANCELLED, CHANGED, DOCK_CONTROL,
    DOCK_SWIPE, ENDED, GESTURE, MAX_BATCHES, MAX_SAMPLES_PER_BATCH, PREVIEW_SAMPLES,
};

type Recorder = GestureRecorder<i64, &'static str>;

fn header(event_type: u32, subtype: i64, suppressed: bool) -> SampleHeader {
    SampleHeader {
        id: 0,
        batch_id: 0,
        elapsed_ms: 0,
        event_type,
        subtype,
        suppressed,
    }
}

fn record(r: &mut Recorder, phase: i64) {
    r.record(header(30, 23, false), phase, 5, true);
}

#[test]
fn eight_actions_keep_all_gestures_despite_thousands_of_markers() {
    let mut r = Recorder::new();
    for action in 1..=8 {
        r.begin_batch(&format!("action {action}"), BatchMode::Intercept, 0)
            .unwrap();
        record(&mut r, 1);
        for _ in 0..800 {
            r.record(header(29, 0, true), 0, 1, true);
        }
        for _ in 0..100 {
            record(&mut r, 2);
        }
        record(&mut r, 4);
        r.finish_if_idle("test ended", 10);
    }
    assert!(r.ensure_idle().is_ok());
    assert_eq!(r.batches.len(), 8);
    for (index, recorded) in r.batches.iter().enumerate() {
        let (total, _, _, retained) = r.batch_counts(index, 20);
        assert_eq!(recorded.meta.id, index as u64 + 1);
        assert_eq!(total, 902);
        assert_eq!(recorded.meta.marker_samples, 800);
        assert_eq!(recorded.meta.suppressed_markers, 800);
        assert_eq!(retained, 102);
        assert_eq!(recorded.meta.capacity_dropped_samples, 0);
        assert_eq!(recorded.samples.first().unwrap().1, 1);
        assert_eq!(recorded.samples.last().unwrap().1, 4);
        assert!(recorded
            .samples
            .iter()
            .all(|sample| sample.0.batch_id == recorded.meta.id));
    }
    let (from, to) = r.preview_range();
    assert_eq!(to - from, PREVIEW_SAMPLES);
    let total: u64 = (0..8).map(|i| r.batch_counts(i, 20).0).sum();
    assert_eq!(total, 902 * 8);
}

#[test]
fn capacity_stops_capture_without_overwriting_begin_and_reports_loss() {
    let mut r = Recorder::new();
    r.begin_batch("capacity test", BatchMode::Intercept, 0).unwrap();
    r.capturing = true;
    r.suppressing = true;
    record(&mut r, 1);
    for _ in 1..MAX_SAMPLES_PER_BATCH {
        record(&mut r, 2);
    }
    record(&mut r, 4);
    assert!(r.cancel_capture);
    assert!(r.cancel_injection);
    assert!(!r.suppressing);
    {
        let batch = &r.batches[0];
        assert_eq!(batch.samples.len(), MAX_SAMPLES_PER_BATCH);
        assert_eq!(batch.samples[0].1, 1);
        assert_eq!(batch.meta.capacity_dropped_samples, 1);
        assert!(batch.meta.stop_reason.contains("incomplete"));
    }
    r.record(header(30, 23, false), 4, 9, false);
    assert_eq!(r.dropped, 1);
    let (total, dropped, _, retained) = r.batch_counts(0, 10);
    let meta = &r.batches[0].meta;
    assert_eq!(
        total,
        retained as u64 + meta.marker_samples + dropped + meta.capacity_dropped_samples
    );
}

#[test]
fn export_and_clear_require_idle_and_reset_counts_without_reusing_batch_ids() {
    let mut r = Recorder::new();
    r.begin_batch("first action", BatchMode::Observe, 0).unwrap();
    record(&mut r, 1);
    assert!(r.clear().is_err());
    assert!(r.ensure_idle().is_err());
    r.record(header(30, 23, false), 2, 1, false);
    r.finish_if_idle("stopped", 2);
    let (total, dropped, _, _) = r.batch_counts(0, 3);
    assert_eq!(dropped, 1);
    assert_eq!(total, 2);
    assert!(r.batches[0].meta.finished);
    r.clear().unwrap();
    assert!(r.batches.is_empty());
    r.begin_batch("second action", BatchMode::Observe, 100).unwrap();
    let (total, dropped, elapsed, _) = r.batch_counts(0, 150);
    assert_eq!(total, 0);
    assert_eq!(dropped, 0);
    assert_eq!(r.batches[0].meta.id, 2);
    assert!(elapsed < 1000);
}

#[test]
fn batch_limit_requires_explicit_clear_and_labels_are_validated() {
    let mut r = Recorder::new();
    assert!(r.begin_batch(" ", BatchMode::Observe, 0).is_err());
    assert!(r
        .begin_batch(&"字".repeat(161), BatchMode::Observe, 0)
        .is_err());
    assert!(r.begin_batch(&"字".repeat(160), BatchMode::Observe, 0).is_ok());
    r.finish_if_idle("ended", 1);
    for _ in 1..MAX_BATCHES {
        r.begin_batch("three-finger right", BatchMode::Observe, 0)
            .unwrap();
        r.finish_if_idle("ended", 1);
    }
    assert!(r.begin_batch("four-finger down", BatchMode::Observe, 0).is_err());
    assert_eq!(r.batches.len(), MAX_BATCHES);
}

#[test]
fn capture_stop_waits_for_injection_terminal_events_before_finishing_batch() {
    let mut r = Recorder::new();
    r.begin_batch("observe synthesis", BatchMode::Observe, 0).unwrap();
    r.injecting = true;
    r.finish_if_idle("capture timed out", 1);
    assert!(!r.batches[0].meta.finished);
    record(&mut r, 8);
    r.injecting = false;
    r.finish_if_idle("synthesis stopped", 2);
    assert!(r.batches[0].meta.finished);
    assert_eq!(r.batches[0].meta.stop_reason, "capture timed out");
    assert_eq!(r.batches[0].samples[0].1, 8);
}

#[test]
fn injection_request_and_completion_share_the_batch_lifecycle_lock() {
    let mut r = Recorder::new();
    assert!(!r.register_injection("swipe right", 0).unwrap());
    r.begin_batch("read-only synthesis observation", BatchMode::Observe, 0)
        .unwrap();
    r.capturing = true;
    assert!(r.register_injection("swipe right", 1).unwrap());
    r.finish_capture("capture timed out", 2);
    assert!(!r.batches[0].meta.finished);
    record(&mut r, 8);
    r.finish_injection(3);
    assert!(!r.register_injection("swipe right", 4).unwrap());
    assert!(r.batches[0].meta.finished);
    assert_eq!(r.batches[0].meta.triggers.len(), 1);
    assert_eq!(r.batches[0].meta.stop_reason, "capture timed out");
    assert_eq!(r.batches[0].samples[0].1, 8);
}

#[test]
fn intercepting_trials_refuse_synthesis() {
    let mut r = Recorder::new();
    r.begin_batch("intercept", BatchMode::Intercept, 0).unwrap();
    assert!(r.register_injection("x", 0).is_err());
    assert!(!r.injecting);
}

#[test]
fn suppression_only_claims_complete_dock_swipes_and_fails_open() {
    let mut gate = Suppression::new();
    assert!(!gate.should_block(DOCK_CONTROL, DOCK_SWIPE, CHANGED, true));
    assert!(gate.should_block(DOCK_CONTROL, DOCK_SWIPE, BEGAN, true));
    assert!(gate.should_block(GESTURE, 0, 0, true));
    assert!(!gate.should_block(GESTURE, 8, CHANGED, true)); // magnification
    assert!(gate.should_block(DOCK_CONTROL, DOCK_SWIPE, ENDED, true));
    assert!(gate.should_block(GESTURE, 0, 0, true));
    assert!(!gate.should_block(DOCK_CONTROL, DOCK_SWIPE, CHANGED, true));
    assert!(gate.should_block(DOCK_CONTROL, DOCK_SWIPE, BEGAN, true));
    assert!(!gate.should_block(DOCK_CONTROL, DOCK_SWIPE, CHANGED, false));
    assert!(!gate.should_block(DOCK_CONTROL, DOCK_SWIPE, ENDED, true));
    let _ = CANCELLED;
}

#[test]
fn actions_select_axes_and_direction_without_claiming_finger_count() {
    assert_eq!(GestureDebugAction::SwipeRight.motion_and_direction(false), (1, 1));
    assert_eq!(GestureDebugAction::SwipeRight.motion_and_direction(true), (1, -1));
    assert_eq!(GestureDebugAction::SwipeDown.motion_and_direction(false), (2, -1));
    assert_eq!(GestureDebugAction::PinchOut.motion_and_direction(false), (3, 1));
}

#[test]
fn validates_all_untrusted_trigger_parameters() {
    assert!(timing_within_limits(500, 0));
    assert!(!timing_within_limits(0, 0));
    assert!(!timing_within_limits(2001, 0));
    assert!(!timing_within_limits(500, 3001));
}

#[test]
fn synthesis_needs_permission_and_a_supported_macos() {
    assert!(ensure_injection_supported(true, "15.3.1").is_ok());
    assert!(ensure_injection_supported(true, "26").is_ok());
    assert!(ensure_injection_supported(true, "27.0").is_err());
    assert!(ensure_injection_supported(true, "unknown").is_err());
    assert_eq!(
        ensure_injection_supported(false, "15.0").unwrap_err(),
        "enable macOS accessibility permission for the current ArcRelay application"
    );
}
