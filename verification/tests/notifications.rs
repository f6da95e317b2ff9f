use arcrelay_desktop::notifications::{
    action_selected, localized, plan_delivery, plays_after, test_notification, view_request_label, take_pending_transfer_request, DesktopNotification,
    DesktopNotificationAction, DesktopNotificationCategory, DesktopNotificationDelivery,
    HostNotification, HostNotificationTracker, LanguagePreference, NotificationKind,
    NotificationPlan, NotificationPreferences, PendingTransferRequest,
};

fn host_notification(id: &str) -> HostNotification {
    HostNotification {
        id: id.into(),
        title: "title".into(),
        body: "body".into(),
        source: "test".into(),
        kind: NotificationKind::Info,
        reference: None,
        created_at_ms: 1,
        read_at_ms: None,
        read_by_device_id: None,
        read_by_device_name: None,
    }
}

fn preferences() -> NotificationPreferences {
    NotificationPreferences {
        enabled: true,
        only_when_inactive: true,
        show_previews: true,
        pairing_requests: true,
        transfer_requests: true,
        transfer_completed: true,
        transfer_failed: true,
        remote_file_completed: true,
        remote_file_failed: true,
        print_completed: true,
        print_failed: true,
        device_connections: false,
        workflow_action_required: true,
        workflow_completed: false,
        workflow_failed: true,
        input_permission_required: true,
        agent_notifications: true,
        update_available: true,
    }
}

#[test]
fn foreground_fallback_covers_attention_categories() {
    type Category = DesktopNotificationCategory;
    for category in [
        Category::PairingRequest,
        Category::TransferRequest,
        Category::TransferFailed,
        Category::RemoteFileFailed,
        Category::PrintFailed,
        Category::WorkflowActionRequired,
        Category::WorkflowFailed,
        Category::InputPermissionRequired,
        Category::AgentNotification,
    ] {
        assert!(category.requires_foreground_feedback(), "{category:?}");
    }
    assert!(!Category::TransferCompleted.requires_foreground_feedback());
    assert!(!Category::DeviceConnection.requires_foreground_feedback());
}

#[test]
fn host_tracker_only_returns_new_unread_notifications() {
    let first = host_notification("first");
    let mut tracker = HostNotificationTracker::from_notifications(std::slice::from_ref(&first));
    assert!(tracker.update(std::slice::from_ref(&first)).is_empty());

    let second = host_notification("second");
    assert_eq!(tracker.update(&[second.clone(), first]).len(), 1);
    assert!(tracker.update(std::slice::from_ref(&second)).is_empty());
}

#[test]
fn host_tracker_skips_read_notifications_and_forgets_removed_ones() {
    let mut tracker = HostNotificationTracker::from_notifications(&[]);
    let mut read = host_notification("read");
    read.read_at_ms = Some(5);
    let unread = host_notification("unread");
    let added = tracker.update(&[read.clone(), unread.clone()]);
    assert_eq!(added, vec![unread.clone()]);
    assert!(tracker.update(&[]).is_empty());
    assert_eq!(tracker.update(&[unread.clone()]), vec![unread]);
}

#[test]
fn categories_follow_the_master_switch_and_their_own() {
    let mut settings = preferences();
    assert!(DesktopNotificationCategory::PairingRequest.enabled(&settings));
    assert!(!DesktopNotificationCategory::WorkflowCompleted.enabled(&settings));
    assert!(!DesktopNotificationCategory::DeviceConnection.enabled(&settings));
    settings.enabled = false;
    assert!(!DesktopNotificationCategory::PairingRequest.enabled(&settings));
    assert!(DesktopNotificationCategory::PrintFailed.is_error());
    assert!(!DesktopNotificationCategory::PrintCompleted.is_error());
}

#[test]
fn delivery_depends_on_window_and_previews() {
    let settings = preferences();
    let n = || {
        DesktopNotification::new(
            DesktopNotificationCategory::TransferRequest,
            "Photo.png".to_string(),
            "From phone".to_string(),
        )
        .open_transfer_request("t1".to_string())
    };
    match plan_delivery(n(), &settings, LanguagePreference::EnUs, true) {
        NotificationPlan::MainWindowActive { feedback: Some(f) } => {
            assert_eq!(f.title, "Photo.png");
            assert!(!f.error);
        }
        other => panic!("unexpected plan {other:?}"),
    }
    let plan = plan_delivery(n(), &settings, LanguagePreference::EnUs, false);
    assert_eq!(plan.delivery(), DesktopNotificationDelivery::Shown);
    match plan {
        NotificationPlan::System { title, action, .. } => {
            assert_eq!(title, "Photo.png");
            let (action, label) = action.unwrap();
            assert_eq!(action, DesktopNotificationAction::OpenTransferRequest("t1".into()));
            assert_eq!(label, "View request");
        }
        other => panic!("unexpected plan {other:?}"),
    }
    let mut private = settings;
    private.show_previews = false;
    match plan_delivery(n(), &private, LanguagePreference::ZhCn, false) {
        NotificationPlan::System { title, body, .. } => {
            assert_eq!(title, "文件传输等待确认");
            assert_eq!(body, "打开 ArcRelay 查看详情。");
        }
        other => panic!("unexpected plan {other:?}"),
    }
    let quiet = DesktopNotification::new(
        DesktopNotificationCategory::WorkflowCompleted,
        "done".to_string(),
        "".to_string(),
    );
    assert_eq!(
        plan_delivery(quiet, &settings, LanguagePreference::EnUs, false).delivery(),
        DesktopNotificationDelivery::Disabled
    );
    let failed = DesktopNotification::new(
        DesktopNotificationCategory::TransferCompleted,
        "x".to_string(),
        "y".to_string(),
    )
    .error();
    match plan_delivery(failed, &settings, LanguagePreference::EnUs, true) {
        NotificationPlan::MainWindowActive { feedback: None } => {}
        other => panic!("unexpected plan {other:?}"),
    }
}

#[test]
fn localized_picks_the_language_and_pending_request_is_taken_once() {
    assert_eq!(localized(LanguagePreference::ZhCn, "测试", "Test"), "测试");
    assert_eq!(localized(LanguagePreference::EnUs, "测试", "Test"), "Test");
    let mut pending = PendingTransferRequest {
        slot: Some("t9".into()),
    };
    assert_eq!(take_pending_transfer_request(&mut pending), Some("t9".into()));
    assert_eq!(take_pending_transfer_request(&mut pending), None);
}

#[test]
fn test_notifications_and_actions() {
    assert_eq!(test_notification(false, LanguagePreference::EnUs), Err("turn on desktop notifications first".to_string()));
    assert_eq!(
        test_notification(true, LanguagePreference::EnUs),
        Ok((
            "ArcRelay test notification".to_string(),
            "Notifications are working. You can choose which alerts to receive in Settings.".to_string()
        ))
    );
    assert_eq!(test_notification(true, LanguagePreference::ZhCn).unwrap().0, "ArcRelay 测试通知");
    assert!(action_selected("open"));
    assert!(!action_selected("__closed"));
    assert_eq!(view_request_label(LanguagePreference::ZhCn), "查看请求");
    assert!(plays_after(DesktopNotificationDelivery::Shown));
    assert!(plays_after(DesktopNotificationDelivery::MainWindowActive));
    assert!(!plays_after(DesktopNotificationDelivery::Disabled));
}

#[test]
fn private_notifications_show_the_same_text_whatever_their_own() {
    let mut private = preferences();
    private.show_previews = false;
    let shown = |title: &str, body: &str| {
        let n = DesktopNotification::new(DesktopNotificationCategory::TransferCompleted, title.into(), body.into());
        match plan_delivery(n, &private, LanguagePreference::EnUs, false) {
            NotificationPlan::System { title, body, .. } => (title, body),
            _ => panic!("expected a system notification"),
        }
    };
    let first = shown("secret.pdf received", "from Alice");
    let second = shown("other.txt received", "from Bob");
    assert_eq!(first, second);
    assert_eq!(first.1, "Open ArcRelay to view details.");
    assert!(!first.0.contains("secret") && !first.1.contains("Alice"));
}
