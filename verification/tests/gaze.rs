use arcrelay_desktop::gaze::{
    merge_refined_regions, model_load_timeout_message, preview_data_url, profile_compatible,
    HeadRegion, MODEL_LOAD_TIMEOUT_SECS,
};

#[test]
fn model_load_timeout_is_reported_without_a_runtime() {
    let error = model_load_timeout_message(17);
    assert!(error.contains("17 秒"));
    assert!(error.contains("重启 ArcRelay"));
}

#[test]
fn model_load_timeout_message_is_exact() {
    assert_eq!(
        model_load_timeout_message(MODEL_LOAD_TIMEOUT_SECS),
        "眼动与人脸识别模型加载超过 30 秒；请重启 ArcRelay 后重试并导出诊断日志"
    );
    assert_eq!(
        model_load_timeout_message(0),
        "眼动与人脸识别模型加载超过 0 秒；请重启 ArcRelay 后重试并导出诊断日志"
    );
}

fn region(display_id: &str, yaw: f64, sample_count: usize) -> HeadRegion<f64> {
    HeadRegion { display_id: display_id.into(), sample_count, data: yaw }
}

#[test]
fn compatible_saved_profile_survives_a_changed_layout_signature() {
    let layout = vec!["display-a".to_string()];
    let regions = vec![region("display-a", 0.0, 9)];
    assert!(profile_compatible(3, "camera", &regions, "camera", &layout));
    assert!(!profile_compatible(3, "camera", &regions, "different-camera", &layout));
    let missing = vec![region("missing-display", 0.0, 9)];
    assert!(!profile_compatible(3, "camera", &missing, "camera", &layout));
    assert!(!profile_compatible(2, "camera", &regions, "camera", &layout));
    let none: Vec<HeadRegion<f64>> = Vec::new();
    assert!(!profile_compatible(3, "camera", &none, "camera", &layout));
}

#[test]
fn refining_one_display_preserves_every_other_region() {
    let base = vec![region("display-a", -0.4, 9), region("display-b", 0.4, 9)];
    let refined = vec![region("display-b", 0.65, 12)];
    let (merged, samples) = merge_refined_regions(base, refined, "display-b").unwrap();
    assert_eq!(samples, 21);
    assert_eq!(merged.len(), 2);
    assert_eq!(merged[0].display_id, "display-a");
    assert_eq!(merged[0].data, -0.4);
    assert_eq!(merged[1].display_id, "display-b");
    assert_eq!(merged[1].data, 0.65);
    let err = merge_refined_regions(vec![region("a", 0.0, 1)], vec![region("b", 0.0, 1)], "c");
    assert_eq!(err.err(), Some("没有生成所选屏幕的头部方向样本".to_string()));
}

#[test]
fn preview_encoder_keeps_frames_in_a_bounded_data_url() {
    let url = preview_data_url(2, 1, &[255, 0, 0, 0, 255, 0]).unwrap();
    assert!(url.starts_with("data:image/jpeg;base64,"));
    assert!(url.len() > "data:image/jpeg;base64,".len());
    assert_eq!(
        preview_data_url(2, 2, &[0; 6]),
        Err("camera preview dimensions do not match its RGB buffer".to_string())
    );
}

use arcrelay_desktop::gaze::{presence_state_token, PresenceState, PresenceTracker};

#[test]
fn presence_states_have_interface_tokens() {
    assert_eq!(presence_state_token(PresenceState::OwnerPresent), "ownerPresent");
    assert_eq!(presence_state_token(PresenceState::Absent), "absent");
    assert_eq!(presence_state_token(PresenceState::UnknownPresent), "unknownPresent");
    assert_eq!(presence_state_token(PresenceState::MultiplePeople), "multiplePeople");
    assert_eq!(presence_state_token(PresenceState::Uncertain), "uncertain");
}

#[test]
fn presence_events_are_reported_only_when_the_state_changes() {
    let mut tracker = PresenceTracker::new();
    let first = tracker.apply(true, PresenceState::OwnerPresent, false);
    assert!(!first.restrict_preview);
    assert!(!first.privacy_guard);
    assert_eq!(first.event, Some(PresenceState::OwnerPresent));
    let again = tracker.apply(true, PresenceState::OwnerPresent, false);
    assert_eq!(again.event, None);
    let stranger = tracker.apply(true, PresenceState::UnknownPresent, true);
    assert!(stranger.restrict_preview);
    assert!(stranger.privacy_guard);
    assert_eq!(stranger.event, Some(PresenceState::UnknownPresent));
}

#[test]
fn without_an_enrolled_owner_presence_is_ignored_and_forgotten() {
    let mut tracker = PresenceTracker::new();
    tracker.apply(true, PresenceState::Absent, true);
    let off = tracker.apply(false, PresenceState::MultiplePeople, true);
    assert!(!off.restrict_preview);
    assert!(!off.privacy_guard);
    assert_eq!(off.event, None);
    assert_eq!(tracker.last, None);
    let back = tracker.apply(true, PresenceState::Absent, true);
    assert_eq!(back.event, Some(PresenceState::Absent));
}

use arcrelay_desktop::gaze::{gaze_input_action, GazeInputAction, PreviewThrottle, PREVIEW_INTERVAL_MS};

#[test]
fn snapshots_move_the_input_target_by_calibration_state() {
    assert_eq!(gaze_input_action(true, true, true), GazeInputAction::ClearCandidate);
    assert_eq!(gaze_input_action(false, true, true), GazeInputAction::Activate);
    assert_eq!(gaze_input_action(false, true, false), GazeInputAction::Preselect);
    assert_eq!(gaze_input_action(false, false, true), GazeInputAction::ClearCandidate);
    assert_eq!(gaze_input_action(false, false, false), GazeInputAction::ClearPreselection);
}

#[test]
fn previews_are_throttled() {
    let mut t = PreviewThrottle::new();
    assert!(!t.let_through(1_000, false, true));
    assert!(!t.let_through(1_000, true, false));
    assert!(t.let_through(1_000, true, true));
    assert!(!t.let_through(1_000 + PREVIEW_INTERVAL_MS - 1, true, true));
    assert!(t.let_through(1_000 + PREVIEW_INTERVAL_MS, true, true));
    assert_eq!(t.last_emitted_ms, Some(1_200));
}
