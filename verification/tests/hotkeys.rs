use arcrelay_desktop::hotkeys::{
    hotkey_events, key_to_hid, modifier_to_hid, validate_external_url, KeyEvent,
};

#[test]
fn maps_named_and_character_keys() {
    assert_eq!(key_to_hid("A"), Some(0x04));
    assert_eq!(key_to_hid("arrow-left"), Some(0x50));
    assert_eq!(key_to_hid("F12"), Some(0x45));
    assert_eq!(key_to_hid("unsupported"), None);
}

#[test]
fn accepts_deep_links_without_shell_execution() {
    assert!(validate_external_url("https://example.com").is_ok());
    assert!(validate_external_url("obsidian://open?vault=Work").is_ok());
    assert!(validate_external_url("missing-scheme").is_err());
}

#[test]
fn digits_spaces_and_unknown_names() {
    assert_eq!(key_to_hid("1"), Some(0x1E));
    assert_eq!(key_to_hid("9"), Some(0x26));
    assert_eq!(key_to_hid("0"), Some(0x27));
    assert_eq!(key_to_hid(" Page Down "), Some(0x4E));
    assert_eq!(key_to_hid("caps-lock"), Some(0x39));
    assert_eq!(key_to_hid("é"), None);
    assert_eq!(key_to_hid(""), None);
}

#[test]
fn modifiers_and_shortcut_event_order() {
    assert_eq!(modifier_to_hid(" Ctrl "), Ok(0xE0));
    assert_eq!(modifier_to_hid("Windows"), Ok(0xE3));
    assert_eq!(
        modifier_to_hid("Hyper").unwrap_err(),
        "unsupported modifier key: hyper"
    );
    let events = hotkey_events(&["cmd".to_string(), "shift".to_string()], "v").unwrap();
    let press = |u| KeyEvent {
        hid_usage: u,
        down: true,
        repeat: false,
    };
    let release = |u| KeyEvent {
        hid_usage: u,
        down: false,
        repeat: false,
    };
    assert_eq!(
        events,
        vec![
            press(0xE3),
            press(0xE1),
            press(0x19),
            release(0x19),
            release(0xE1),
            release(0xE3)
        ]
    );
    assert_eq!(
        hotkey_events(&[], "nope").unwrap_err(),
        "unsupported shortcut key: nope"
    );
    assert!(hotkey_events(&["fn".to_string()], "a").is_err());
}

#[test]
fn url_schemes_are_checked() {
    assert_eq!(
        validate_external_url("1http://x").unwrap_err(),
        "invalid URL scheme: 1http"
    );
    assert_eq!(validate_external_url(":x").unwrap_err(), "invalid URL scheme: ");
    assert_eq!(
        validate_external_url("a\u{7}b:c").unwrap_err(),
        "URL contains invalid control characters"
    );
    assert_eq!(
        validate_external_url("nothing").unwrap_err(),
        "URL is missing a scheme: nothing"
    );
    assert!(validate_external_url("git+ssh://host").is_ok());
}
