use arcrelay_desktop::action_icon::{builtin_svg, IconCatalog, BUILTIN_ICON_COUNT};

fn icons() -> IconCatalog {
    IconCatalog::new((0..BUILTIN_ICON_COUNT).map(|i| format!("<svg id=\"icon{i}\"/>")).collect()).unwrap()
}
use arcrelay_desktop::quick_action::{
    launch_display_name, microphone_message, muted_message, playback_action, system_volume,
    ActionType, MediaOperation, PlaybackAction, QuickAction, SystemOperation,
};

#[test]
fn new_action_has_valid_uuid() {
    let action = QuickAction::new(
        "test".into(),
        "group".into(),
        ActionType::OpenUrl {
            url: "https://example.com".into(),
        }, &icons());
    // UUID v4 format: 8-4-4-4-12 hex chars
    assert_eq!(action.id.len(), 36);
    assert_eq!(&action.id[14..15], "4"); // version nibble
    assert_eq!(action.revision, 0);
    assert_eq!(action.icon_id, "zap");
    assert_eq!(Some(action.icon_svg.clone()), builtin_svg(&icons(), "zap"));
    assert!(action.global_shortcut.is_none());
    assert!(!action.confirm_before_run);
}

#[test]
fn unique_ids() {
    let a = QuickAction::new(
        "a".into(),
        "g".into(),
        ActionType::OpenUrl { url: "u".into() }, &icons());
    let b = QuickAction::new(
        "b".into(),
        "g".into(),
        ActionType::OpenUrl { url: "u".into() }, &icons());
    assert_ne!(a.id, b.id);
}

#[test]
fn action_type_label() {
    let action = QuickAction::new(
        "test".into(),
        "g".into(),
        ActionType::ShellCommand {
            command: "ls".into(),
            working_dir: None,
        }, &icons());
    assert_eq!(action.action_type_label(), "Shell 命令");
}

#[test]
fn shutdown_and_restart_always_need_confirmation() {
    let mut action = QuickAction::new(
        "off".into(),
        "g".into(),
        ActionType::System {
            operation: SystemOperation::Shutdown,
        }, &icons());
    assert!(action.requires_confirmation());
    assert_eq!(action.action_type_label(), "关机");
    action.action_type = ActionType::System {
        operation: SystemOperation::LockScreen,
    };
    assert!(!action.requires_confirmation());
    action.confirm_before_run = true;
    assert!(action.requires_confirmation());
    assert!(!action.is_toggle());
    action.action_type = ActionType::ToggleShellCommand {
        start_command: "run".into(),
        stop_command: None,
        working_dir: None,
    };
    assert!(action.is_toggle());
    assert_eq!(action.action_type_label(), "开关命令");
    action.action_type = ActionType::SetSystemMuted { muted: false };
    assert_eq!(action.action_type_label(), "取消静音");
    assert_eq!(action.icon_id, "zap");
    assert_eq!(action.color, "#6366F1");
}

#[test]
fn action_results_are_reported() {
    assert_eq!(playback_action(MediaOperation::TogglePlayPause, true), PlaybackAction::Pause);
    assert_eq!(playback_action(MediaOperation::TogglePlayPause, false), PlaybackAction::Play);
    assert_eq!(playback_action(MediaOperation::SeekBackward, true), PlaybackAction::SeekBackward);
    assert_eq!(system_volume(42), (42, "系统音量已设置为 42%".to_string()));
    assert_eq!(system_volume(255), (100, "系统音量已设置为 100%".to_string()));
    assert_eq!(muted_message(true), "系统已静音");
    assert_eq!(muted_message(false), "系统已取消静音");
    assert_eq!(microphone_message(true), "麦克风已开启");
    assert_eq!(microphone_message(false), "麦克风已静音");
    assert_eq!(launch_display_name("  Safari ", None), "Safari");
    assert_eq!(launch_display_name(" ", Some("Notes.app".into())), "Notes.app");
    assert_eq!(launch_display_name("", None), "application");
}
