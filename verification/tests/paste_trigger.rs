use arcrelay_desktop::paste_trigger::{
    display_shortcut, native_shortcut_label, stop, trigger_label, DispatchGate, HookVerdict,
    MacTapState, TapEvent, TapVerdict, WindowsHookState, COMMAND_FLAG, FLAGS_CHANGED, KEYCODE_V,
    KEY_DOWN, KEY_UP, VK_V,
};

#[test]
fn fallback_shortcut_uses_platform_notation() {
    assert_eq!(display_shortcut("CmdOrCtrl+Shift+V", true), "⌘⇧V");
    assert_eq!(display_shortcut("CmdOrCtrl+Shift+V", false), "Ctrl+Shift+V");
}

#[test]
fn labels_follow_the_platform() {
    assert_eq!(native_shortcut_label(true), "⌘V");
    assert_eq!(native_shortcut_label(false), "Ctrl+V");
    assert_eq!(trigger_label(true, "Alt+V", false), "Ctrl+V");
    assert_eq!(trigger_label(false, "Control+Alt+V", true), "⌃⌥V");
}

#[test]
fn only_one_paste_is_dispatched_at_a_time() {
    let mut gate = DispatchGate { dispatching: false };
    assert!(!gate.try_begin(false));
    assert!(gate.try_begin(true));
    assert!(!gate.try_begin(true));
    gate.finish();
    assert!(gate.try_begin(true));
    stop(&mut gate);
    assert!(!gate.dispatching);
}

#[test]
fn stopping_lets_the_next_dispatch_start() {
    let mut gate = DispatchGate { dispatching: false };
    assert!(gate.try_begin(true));
    stop(&mut gate);
    stop(&mut gate);
    assert!(!gate.dispatching);
    assert!(gate.try_begin(true));
}

#[test]
fn windows_hook_swallows_ctrl_v_and_dispatches_on_ctrl_release() {
    let mut hook = WindowsHookState::new();
    assert_eq!(hook.on_key(0xA2, true, false, true), (HookVerdict::PassThrough, false));
    assert_eq!(hook.on_key(VK_V, true, false, true), (HookVerdict::Swallow, false));
    assert_eq!(hook.on_key(VK_V, false, true, true), (HookVerdict::Swallow, false));
    assert_eq!(hook.on_key(VK_V, false, true, true), (HookVerdict::PassThrough, false));
    assert_eq!(hook.on_key(0xA2, false, true, true), (HookVerdict::PassThrough, true));
    assert_eq!(hook.modifiers, 0);
    assert_eq!(hook.on_key(0x11, true, false, false), (HookVerdict::PassThrough, false));
    assert_eq!(hook.on_key(VK_V, true, false, false), (HookVerdict::PassThrough, false));
    assert_eq!(hook.on_key(0x10, true, false, true), (HookVerdict::PassThrough, false));
    assert_eq!(hook.on_key(VK_V, true, false, true), (HookVerdict::PassThrough, false));
}

#[test]
fn mac_tap_swallows_command_v_and_dispatches_on_command_release() {
    let mut tap = MacTapState::new();
    let event = |event_type, keycode, flags, autorepeat| TapEvent {
        event_type,
        tagged: false,
        keycode,
        flags,
        autorepeat,
    };
    assert_eq!(
        tap.on_event(event(KEY_DOWN, KEYCODE_V, COMMAND_FLAG, false), true),
        (TapVerdict::Swallow, false)
    );
    assert_eq!(
        tap.on_event(event(KEY_UP, KEYCODE_V, COMMAND_FLAG, false), true),
        (TapVerdict::Swallow, false)
    );
    assert_eq!(
        tap.on_event(event(FLAGS_CHANGED, 0x37, 0, false), true),
        (TapVerdict::PassThrough, true)
    );
    assert_eq!(
        tap.on_event(event(FLAGS_CHANGED, 0x37, 0, false), true),
        (TapVerdict::PassThrough, false)
    );
    assert_eq!(
        tap.on_event(event(0xffff_fffe, 0, 0, false), true),
        (TapVerdict::Reenable, false)
    );
    let mut tagged = event(KEY_DOWN, KEYCODE_V, COMMAND_FLAG, false);
    tagged.tagged = true;
    assert_eq!(tap.on_event(tagged, true), (TapVerdict::PassThrough, false));
    assert_eq!(
        tap.on_event(event(KEY_DOWN, KEYCODE_V, COMMAND_FLAG, false), false),
        (TapVerdict::PassThrough, false)
    );
}
