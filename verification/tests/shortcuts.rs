use arcrelay_desktop::shortcuts::{
    apply_configured_shortcuts, check_shortcut_conflict, clipboard_shortcut_reaction,
    screenshot_shortcut_captures, ClipboardShortcutReaction, ShortcutFeature, ShortcutSettings,
};

#[test]
fn enabled_features_register_their_shortcuts() {
    let mut s = ShortcutSettings {
        clipboard_enabled: true,
        clipboard_shortcut: "CmdOrCtrl+Shift+V".into(),
        screenshot_enabled: true,
        screenshot_shortcut: "CmdOrCtrl+Shift+A".into(),
    };
    assert_eq!(
        apply_configured_shortcuts(&s),
        vec![
            (ShortcutFeature::Clipboard, "CmdOrCtrl+Shift+V".to_string()),
            (ShortcutFeature::Screenshot, "CmdOrCtrl+Shift+A".to_string()),
        ]
    );
    s.clipboard_enabled = false;
    assert_eq!(apply_configured_shortcuts(&s), vec![(ShortcutFeature::Screenshot, "CmdOrCtrl+Shift+A".to_string())]);
    s.screenshot_enabled = false;
    assert!(apply_configured_shortcuts(&s).is_empty());
}

#[test]
fn shortcuts_of_other_features_conflict() {
    assert!(check_shortcut_conflict(&[7, 9], 9, true).is_ok());
    assert!(check_shortcut_conflict(&[7], 3, false).is_ok());
    assert_eq!(
        check_shortcut_conflict(&[7], 3, true),
        Err("global shortcut is already used by another ArcRelay feature".to_string())
    );
}

#[test]
fn presses_paste_or_toggle() {
    assert_eq!(clipboard_shortcut_reaction(false, true, true), ClipboardShortcutReaction::Ignore);
    assert_eq!(clipboard_shortcut_reaction(true, false, true), ClipboardShortcutReaction::Ignore);
    assert_eq!(clipboard_shortcut_reaction(true, true, true), ClipboardShortcutReaction::PasteNext);
    assert_eq!(clipboard_shortcut_reaction(true, true, false), ClipboardShortcutReaction::ToggleWindow);
    assert!(screenshot_shortcut_captures(true, true));
    assert!(!screenshot_shortcut_captures(true, false));
}

use arcrelay_desktop::shortcuts::{after_registration, first_registration, RegistrationStep};

#[test]
fn registration_stops_at_the_first_failure_with_its_message() {
    let settings = ShortcutSettings {
        clipboard_enabled: true,
        clipboard_shortcut: "CmdOrCtrl+Shift+V".to_string(),
        screenshot_enabled: true,
        screenshot_shortcut: "CmdOrCtrl+Shift+A".to_string(),
    };
    let planned = apply_configured_shortcuts(&settings);
    assert_eq!(first_registration(&planned), RegistrationStep::Register(0));
    assert_eq!(
        after_registration(&planned, 0, Err("taken".to_string())),
        RegistrationStep::Done(Err(
            "failed to register clipboard shortcut; it may conflict with another application: taken".to_string()
        ))
    );
    assert_eq!(after_registration(&planned, 0, Ok(())), RegistrationStep::Register(1));
    assert_eq!(
        after_registration(&planned, 1, Err("busy".to_string())),
        RegistrationStep::Done(Err(
            "failed to register screenshot shortcut; it may conflict with another application: busy".to_string()
        ))
    );
    assert_eq!(after_registration(&planned, 1, Ok(())), RegistrationStep::Done(Ok(())));
}

#[test]
fn nothing_to_register_succeeds_at_once() {
    let settings = ShortcutSettings {
        clipboard_enabled: false,
        clipboard_shortcut: String::new(),
        screenshot_enabled: false,
        screenshot_shortcut: String::new(),
    };
    assert_eq!(first_registration(&apply_configured_shortcuts(&settings)), RegistrationStep::Done(Ok(())));
}
