//! The continuous-paste trigger: the paste shortcut, intercepted while a
//! continuous paste is active, pastes the next record once the modifier is
//! released. Here are its labels and the decisions of its keyboard hooks.

use vstd::prelude::*;
use vstd::string::StringExecFns;
use crate::drag_html::matches_at;
use crate::drop_encoding::matches_at_exec;
use crate::text::{chars_of, extend_chars, string_from_chars};

verus! {

/// `s` with every occurrence of `pat`, left to right, replaced by `rep`.
pub open spec fn replace_all(s: Seq<char>, pat: Seq<char>, rep: Seq<char>) -> Seq<char>
    decreases s.len(),
{
    if s.len() == 0 {
        Seq::empty()
    } else if pat.len() > 0 && matches_at(s, 0, pat) {
        rep + replace_all(s.skip(pat.len() as int), pat, rep)
    } else {
        seq![s[0]] + replace_all(s.skip(1), pat, rep)
    }
}

fn replace_all_exec(s: &[char], pat: &[char], rep: &[char]) -> (out: Vec<char>)
    ensures
        out@ == replace_all(s@, pat@, rep@),
{
    let mut out: Vec<char> = Vec::new();
    let mut i: usize = 0;
    assert(s@.skip(0) =~= s@);
    while i < s.len()
        invariant
            i <= s@.len(),
            out@ + replace_all(s@.skip(i as int), pat@, rep@) == replace_all(s@, pat@, rep@),
        decreases s@.len() - i,
    {
        let ghost rest = s@.skip(i as int);
        let ghost before = out@;
        if pat.len() > 0 && matches_at_exec(s, i, pat) {
            assert(matches_at(rest, 0, pat@)) by {
                assert(rest.subrange(0, pat@.len() as int) =~= s@.subrange(i as int, i + pat@.len()));
            }
            extend_chars(&mut out, rep);
            assert(rest.skip(pat@.len() as int) =~= s@.skip(i + pat@.len()));
            i = i + pat.len();
        } else {
            assert(!(pat@.len() > 0 && matches_at(rest, 0, pat@))) by {
                if pat@.len() > 0 && matches_at(rest, 0, pat@) {
                    assert(rest.subrange(0, pat@.len() as int) =~= s@.subrange(i as int, i + pat@.len()));
                }
            }
            out.push(s[i]);
            assert(rest.skip(1) =~= s@.skip(i + 1));
            i = i + 1;
        }
        assert(out@ + replace_all(s@.skip(i as int), pat@, rep@) =~= before + replace_all(rest, pat@, rep@));
    }
    assert(s@.skip(i as int) =~= Seq::<char>::empty());
    assert(out@ =~= out@ + replace_all(s@.skip(i as int), pat@, rep@));
    out
}

/// A shortcut in the notation of the platform: macOS symbols, or `Ctrl` for
/// `CmdOrCtrl` elsewhere.
pub open spec fn shortcut_notation(value: Seq<char>, macos: bool) -> Seq<char> {
    if macos {
        replace_all(
            replace_all(
                replace_all(
                    replace_all(
                        replace_all(replace_all(value, "CmdOrCtrl"@, "⌘"@), "Shift"@, "⇧"@),
                        "Alt"@,
                        "⌥"@,
                    ),
                    "Control"@,
                    "⌃"@,
                ),
                "Ctrl"@,
                "⌃"@,
            ),
            "+"@,
            Seq::empty(),
        )
    } else {
        replace_all(value, "CmdOrCtrl"@, "Ctrl"@)
    }
}

/// `value` written in the notation of the platform.
pub fn display_shortcut(value: &str, macos: bool) -> (s: String)
    ensures
        s@ == shortcut_notation(value@, macos),
{
    let v = chars_of(value);
    if macos {
        let a = replace_all_exec(&v, &chars_of("CmdOrCtrl"), &chars_of("⌘"));
        let b = replace_all_exec(&a, &chars_of("Shift"), &chars_of("⇧"));
        let c = replace_all_exec(&b, &chars_of("Alt"), &chars_of("⌥"));
        let d = replace_all_exec(&c, &chars_of("Control"), &chars_of("⌃"));
        let e = replace_all_exec(&d, &chars_of("Ctrl"), &chars_of("⌃"));
        let empty: Vec<char> = Vec::new();
        let f = replace_all_exec(&e, &chars_of("+"), &empty);
        assert(empty@ =~= Seq::<char>::empty());
        string_from_chars(&f)
    } else {
        string_from_chars(&replace_all_exec(&v, &chars_of("CmdOrCtrl"), &chars_of("Ctrl")))
    }
}

/// The label of the intercepted paste shortcut.
pub fn native_shortcut_label(macos: bool) -> (s: &'static str)
    ensures
        s@ == (if macos { "⌘V"@ } else { "Ctrl+V"@ }),
{
    if macos {
        "⌘V"
    } else {
        "Ctrl+V"
    }
}

/// The label shown to the user: the intercepted shortcut when interception
/// started, otherwise the configured clipboard shortcut.
pub fn trigger_label(native_started: bool, fallback_shortcut: &str, macos: bool) -> (s: String)
    ensures
        s@ == (if native_started {
            if macos { "⌘V"@ } else { "Ctrl+V"@ }
        } else {
            shortcut_notation(fallback_shortcut@, macos)
        }),
{
    if native_started {
        String::from_str(native_shortcut_label(macos))
    } else {
        display_shortcut(fallback_shortcut, macos)
    }
}

/// Whether a paste is being dispatched; at most one is.
pub struct DispatchGate {
    pub dispatching: bool,
}

/// Whether a dispatch starts at `gate`: a continuous paste is active and no
/// paste is being dispatched.
pub open spec fn begins(gate: DispatchGate, paste_active: bool) -> bool {
    paste_active && !gate.dispatching
}

/// The dispatch state that `stop` leaves: not dispatching.
pub open spec fn stopped(gate: DispatchGate) -> DispatchGate {
    DispatchGate { dispatching: false }
}

impl DispatchGate {
    /// Starts dispatching a paste when a continuous paste is active and none
    /// is being dispatched.
    pub fn try_begin(&mut self, paste_active: bool) -> (started: bool)
        ensures
            started == begins(*old(self), paste_active),
            final(self).dispatching == (old(self).dispatching || started),
    {
        if !paste_active || self.dispatching {
            return false;
        }
        self.dispatching = true;
        true
    }

    /// The dispatched paste has finished.
    pub fn finish(&mut self)
        ensures
            !final(self).dispatching,
    {
        self.dispatching = false;
    }
}

/// Stops the trigger: no paste is being dispatched any more.
pub fn stop(gate: &mut DispatchGate)
    ensures
        *final(gate) == stopped(*old(gate)),
{
    gate.dispatching = false;
}

/// Stopping frees the dispatcher: from every dispatch state, after `stop` no
/// paste is being dispatched, the next dispatch starts as soon as a
/// continuous paste is active, and stopping again changes nothing.
pub proof fn stopping_frees_the_dispatch_gate(gate: DispatchGate)
    ensures
        !stopped(gate).dispatching,
        begins(stopped(gate), true),
        stopped(stopped(gate)) == stopped(gate),
{
}

// ---------------------------------------------------------------------------
// Windows low-level keyboard hook

pub const VK_V: u32 = 0x56;
pub const MOD_CONTROL: usize = 1;
pub const MOD_SHIFT: usize = 2;
pub const MOD_ALT: usize = 4;
pub const MOD_WIN: usize = 8;

/// The modifier bit of a virtual key, or 0 for other keys.
pub open spec fn modifier_bit_spec(vk: u32) -> usize {
    if vk == 0x11 || vk == 0xA2 || vk == 0xA3 {
        MOD_CONTROL
    } else if vk == 0x10 || vk == 0xA0 || vk == 0xA1 {
        MOD_SHIFT
    } else if vk == 0x12 || vk == 0xA4 || vk == 0xA5 {
        MOD_ALT
    } else if vk == 0x5B || vk == 0x5C {
        MOD_WIN
    } else {
        0
    }
}

pub fn modifier_bit(vk: u32) -> (b: usize)
    ensures
        b == modifier_bit_spec(vk),
{
    if vk == 0x11 || vk == 0xA2 || vk == 0xA3 {
        MOD_CONTROL
    } else if vk == 0x10 || vk == 0xA0 || vk == 0xA1 {
        MOD_SHIFT
    } else if vk == 0x12 || vk == 0xA4 || vk == 0xA5 {
        MOD_ALT
    } else if vk == 0x5B || vk == 0x5C {
        MOD_WIN
    } else {
        0
    }
}

/// What the hook does with a key event.
#[derive(Debug, Clone, Copy, PartialEq, Eq)]
pub enum HookVerdict {
    /// Let the event through to the next hook.
    PassThrough,
    /// Swallow the event.
    Swallow,
}

/// Held modifiers, and whether a swallowed paste awaits the release of Ctrl
/// and the release of V.
#[derive(Debug, Clone, Copy, PartialEq, Eq)]
pub struct WindowsHookState {
    pub modifiers: usize,
    pub pending: bool,
    pub suppress_v_up: bool,
}

/// The hook's next state, verdict, and whether to dispatch a paste, for a
/// key event that was not injected.
pub open spec fn windows_step(s: WindowsHookState, vk: u32, down: bool, up: bool, paste_active: bool) -> (WindowsHookState, HookVerdict, bool) {
    let bit = modifier_bit_spec(vk);
    if !down && !up {
        (s, HookVerdict::PassThrough, false)
    } else if bit != 0 {
        if down {
            (WindowsHookState { modifiers: s.modifiers | bit, ..s }, HookVerdict::PassThrough, false)
        } else {
            let release_ctrl = bit == MOD_CONTROL && s.pending;
            (
                WindowsHookState {
                    modifiers: s.modifiers & !bit,
                    pending: if bit == MOD_CONTROL { false } else { s.pending },
                    ..s
                },
                HookVerdict::PassThrough,
                release_ctrl,
            )
        }
    } else if vk == VK_V && down && s.modifiers == MOD_CONTROL && paste_active {
        (WindowsHookState { pending: true, suppress_v_up: true, ..s }, HookVerdict::Swallow, false)
    } else if vk == VK_V && up && s.suppress_v_up {
        (WindowsHookState { suppress_v_up: false, ..s }, HookVerdict::Swallow, false)
    } else {
        (s, HookVerdict::PassThrough, false)
    }
}

impl WindowsHookState {
    pub fn new() -> (s: Self)
        ensures
            s == (WindowsHookState { modifiers: 0, pending: false, suppress_v_up: false }),
    {
        WindowsHookState { modifiers: 0, pending: false, suppress_v_up: false }
    }

    /// Handles a key event that was not injected; returns the verdict and
    /// whether to dispatch the pending paste.
    pub fn on_key(&mut self, vk: u32, down: bool, up: bool, paste_active: bool) -> (r: (HookVerdict, bool))
        ensures
            (*final(self), r.0, r.1) == windows_step(*old(self), vk, down, up, paste_active),
    {
        if !down && !up {
            return (HookVerdict::PassThrough, false);
        }
        let bit = modifier_bit(vk);
        if bit != 0 {
            if down {
                self.modifiers = self.modifiers | bit;
                return (HookVerdict::PassThrough, false);
            }
            self.modifiers = self.modifiers & !bit;
            let mut dispatch = false;
            if bit == MOD_CONTROL {
                dispatch = self.pending;
                self.pending = false;
            }
            return (HookVerdict::PassThrough, dispatch);
        }
        if vk == VK_V && down && self.modifiers == MOD_CONTROL && paste_active {
            self.pending = true;
            self.suppress_v_up = true;
            return (HookVerdict::Swallow, false);
        }
        if vk == VK_V && up && self.suppress_v_up {
            self.suppress_v_up = false;
            return (HookVerdict::Swallow, false);
        }
        (HookVerdict::PassThrough, false)
    }
}

/// The virtual keys of each modifier: either Control, either Shift, either
/// Alt, and either Windows key, besides the generic code of the first three.
pub open spec fn control_key(vk: u32) -> bool { vk == 0x11 || vk == 0xA2 || vk == 0xA3 }
pub open spec fn shift_key(vk: u32) -> bool { vk == 0x10 || vk == 0xA0 || vk == 0xA1 }
pub open spec fn alt_key(vk: u32) -> bool { vk == 0x12 || vk == 0xA4 || vk == 0xA5 }
pub open spec fn windows_key(vk: u32) -> bool { vk == 0x5B || vk == 0x5C }

/// Only Ctrl+V is the paste shortcut: from any state, once Shift, Alt or a
/// Windows key (left, right or generic) goes down, a V press is let through
/// and dispatches nothing, whether or not Control is held and a continuous
/// paste is active.
pub proof fn v_with_another_modifier_is_never_swallowed(
    s: WindowsHookState,
    vk: u32,
    paste_active: bool,
)
    requires
        shift_key(vk) || alt_key(vk) || windows_key(vk),
    ensures
        ({
            let (s1, v1, d1) = windows_step(s, vk, true, false, paste_active);
            let (s2, v2, d2) = windows_step(s1, VK_V, true, false, paste_active);
            &&& v1 == HookVerdict::PassThrough && !d1
            &&& v2 == HookVerdict::PassThrough && !d2 && s2 == s1
        }),
{
    let m = s.modifiers;
    assert(m | 2usize != 1usize) by (bit_vector);
    assert(m | 4usize != 1usize) by (bit_vector);
    assert(m | 8usize != 1usize) by (bit_vector);
}

/// Any Control key (left, right or generic) pressed alone, then V, is the
/// paste shortcut: while a continuous paste is active the V press is
/// swallowed, and releasing that Control key again dispatches the paste.
pub proof fn any_control_key_with_v_pastes(s: WindowsHookState, vk: u32)
    requires
        control_key(vk),
        s.modifiers == 0,
    ensures
        ({
            let (s1, v1, d1) = windows_step(s, vk, true, false, true);
            let (s2, v2, d2) = windows_step(s1, VK_V, true, false, true);
            let (s3, v3, d3) = windows_step(s2, vk, false, true, true);
            &&& v1 == HookVerdict::PassThrough && !d1
            &&& v2 == HookVerdict::Swallow && !d2
            &&& v3 == HookVerdict::PassThrough && d3
            &&& s3.modifiers == 0
        }),
{
    assert(0usize | 1usize == 1usize) by (bit_vector);
    assert(1usize & !1usize == 0usize) by (bit_vector);
}

/// Pressing and releasing one modifier key, of any kind, leaves the held
/// modifiers as they were before, when that modifier was not held.
pub proof fn modifier_press_and_release_cancel(s: WindowsHookState, vk: u32, paste_active: bool)
    requires
        control_key(vk) || shift_key(vk) || alt_key(vk) || windows_key(vk),
        s.modifiers & modifier_bit_spec(vk) == 0,
    ensures
        ({
            let (s1, v1, d1) = windows_step(s, vk, true, false, paste_active);
            let (s2, v2, d2) = windows_step(s1, vk, false, true, paste_active);
            &&& s1.modifiers != s.modifiers
            &&& s2.modifiers == s.modifiers
        }),
{
    let m = s.modifiers;
    assert(m & 1usize == 0usize ==> (m | 1usize) != m && (m | 1usize) & !1usize == m) by (bit_vector);
    assert(m & 2usize == 0usize ==> (m | 2usize) != m && (m | 2usize) & !2usize == m) by (bit_vector);
    assert(m & 4usize == 0usize ==> (m | 4usize) != m && (m | 4usize) & !4usize == m) by (bit_vector);
    assert(m & 8usize == 0usize ==> (m | 8usize) != m && (m | 8usize) & !8usize == m) by (bit_vector);
}

/// A swallowed Ctrl+V has its V release swallowed too, exactly once, and the
/// paste is dispatched when Ctrl is released.
pub proof fn swallowed_paste_is_completed_on_release(s: WindowsHookState, ctrl: u32)
    requires
        s.modifiers == MOD_CONTROL,
        ctrl == 0x11 || ctrl == 0xA2 || ctrl == 0xA3,
    ensures
        ({
            let (s1, v1, d1) = windows_step(s, VK_V, true, false, true);
            let (s2, v2, d2) = windows_step(s1, VK_V, false, true, true);
            let (s3, v3, d3) = windows_step(s2, VK_V, false, true, true);
            let (s4, v4, d4) = windows_step(s2, ctrl, false, true, true);
            &&& v1 == HookVerdict::Swallow && !d1
            &&& v2 == HookVerdict::Swallow && !d2
            &&& v3 == HookVerdict::PassThrough && !d3
            &&& v4 == HookVerdict::PassThrough && d4
            &&& !s4.pending
        }),
{
}

// ---------------------------------------------------------------------------
// macOS event tap

pub const KEY_DOWN: u32 = 10;
pub const KEY_UP: u32 = 11;
pub const FLAGS_CHANGED: u32 = 12;
pub const KEYCODE_V: i64 = 0x09;
pub const COMMAND_FLAG: u64 = 0x100000;
pub const PHYSICAL_MODIFIERS: u64 = 0x1E0000;

/// What the event tap does with an event.
#[derive(Debug, Clone, Copy, PartialEq, Eq)]
pub enum TapVerdict {
    /// Return the event unchanged.
    PassThrough,
    /// Drop the event.
    Swallow,
    /// The system disabled the tap: enable it again and return the event.
    Reenable,
}

/// Whether a swallowed paste awaits the release of Command and of V.
#[derive(Debug, Clone, Copy, PartialEq, Eq)]
pub struct MacTapState {
    pub pending: bool,
    pub suppress_v_up: bool,
}

/// An event the tap sees.
#[derive(Debug, Clone, Copy, PartialEq, Eq)]
pub struct TapEvent {
    pub event_type: u32,
    /// Posted by this application itself.
    pub tagged: bool,
    pub keycode: i64,
    pub flags: u64,
    pub autorepeat: bool,
}

pub open spec fn mac_step(s: MacTapState, e: TapEvent, paste_active: bool) -> (MacTapState, TapVerdict, bool) {
    let modifiers = e.flags & PHYSICAL_MODIFIERS;
    if e.event_type == 0xffff_fffe || e.event_type == 0xffff_ffff {
        (s, TapVerdict::Reenable, false)
    } else if e.tagged {
        (s, TapVerdict::PassThrough, false)
    } else if e.event_type == KEY_DOWN && e.keycode == KEYCODE_V && modifiers == COMMAND_FLAG {
        if !paste_active {
            (s, TapVerdict::PassThrough, false)
        } else {
            (
                MacTapState { pending: if e.autorepeat { s.pending } else { true }, suppress_v_up: true },
                TapVerdict::Swallow,
                false,
            )
        }
    } else if e.event_type == KEY_UP && e.keycode == KEYCODE_V && s.suppress_v_up {
        (MacTapState { suppress_v_up: false, ..s }, TapVerdict::Swallow, false)
    } else if e.event_type == FLAGS_CHANGED && modifiers & COMMAND_FLAG == 0 && s.pending {
        (MacTapState { pending: false, ..s }, TapVerdict::PassThrough, true)
    } else {
        (s, TapVerdict::PassThrough, false)
    }
}

impl MacTapState {
    pub fn new() -> (s: Self)
        ensures
            s == (MacTapState { pending: false, suppress_v_up: false }),
    {
        MacTapState { pending: false, suppress_v_up: false }
    }

    /// Handles an event; returns the verdict and whether to dispatch the
    /// pending paste.
    pub fn on_event(&mut self, e: TapEvent, paste_active: bool) -> (r: (TapVerdict, bool))
        ensures
            (*final(self), r.0, r.1) == mac_step(*old(self), e, paste_active),
    {
        if e.event_type == 0xffff_fffe || e.event_type == 0xffff_ffff {
            return (TapVerdict::Reenable, false);
        }
        if e.tagged {
            return (TapVerdict::PassThrough, false);
        }
        let modifiers = e.flags & PHYSICAL_MODIFIERS;
        if e.event_type == KEY_DOWN && e.keycode == KEYCODE_V && modifiers == COMMAND_FLAG {
            if !paste_active {
                return (TapVerdict::PassThrough, false);
            }
            if !e.autorepeat {
                self.pending = true;
            }
            self.suppress_v_up = true;
            return (TapVerdict::Swallow, false);
        }
        if e.event_type == KEY_UP && e.keycode == KEYCODE_V && self.suppress_v_up {
            self.suppress_v_up = false;
            return (TapVerdict::Swallow, false);
        }
        if e.event_type == FLAGS_CHANGED && modifiers & COMMAND_FLAG == 0 && self.pending {
            self.pending = false;
            return (TapVerdict::PassThrough, true);
        }
        (TapVerdict::PassThrough, false)
    }
}

} // verus!
