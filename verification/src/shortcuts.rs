//! The global shortcuts that the settings configure: which are registered,
//! when a new set conflicts with another feature, and what a press does.

use vstd::prelude::*;
use crate::text::{chars_of, extend_chars, string_from_chars};

verus! {

/// A feature that a global shortcut opens.
#[derive(Debug, Clone, Copy, PartialEq, Eq)]
pub enum ShortcutFeature {
    Clipboard,
    Screenshot,
}

/// The settings that decide the global shortcuts.
#[derive(Debug, Clone)]
pub struct ShortcutSettings {
    pub clipboard_enabled: bool,
    pub clipboard_shortcut: String,
    pub screenshot_enabled: bool,
    pub screenshot_shortcut: String,
}

/// The shortcuts of `s` that are registered, clipboard first.
pub open spec fn configured(s: ShortcutSettings) -> Seq<(ShortcutFeature, Seq<char>)> {
    let clipboard = if s.clipboard_enabled {
        seq![(ShortcutFeature::Clipboard, s.clipboard_shortcut@)]
    } else {
        Seq::empty()
    };
    let screenshot = if s.screenshot_enabled {
        seq![(ShortcutFeature::Screenshot, s.screenshot_shortcut@)]
    } else {
        Seq::empty()
    };
    clipboard + screenshot
}

/// The shortcuts to register for `settings`: that of each enabled feature,
/// the clipboard's first.
pub fn apply_configured_shortcuts(settings: &ShortcutSettings) -> (v: Vec<(ShortcutFeature, String)>)
    ensures
        v@.len() == configured(*settings).len(),
        forall|i: int|
            0 <= i < v@.len() ==> (#[trigger] v@[i]).0 == configured(*settings)[i].0 && v@[i].1@
                == configured(*settings)[i].1,
{
    let mut v: Vec<(ShortcutFeature, String)> = Vec::new();
    if settings.clipboard_enabled {
        v.push((ShortcutFeature::Clipboard, settings.clipboard_shortcut.clone()));
    }
    if settings.screenshot_enabled {
        v.push((ShortcutFeature::Screenshot, settings.screenshot_shortcut.clone()));
    }
    v
}

/// The message of a shortcut of `feature` that could not be registered for
/// `error`.
pub open spec fn registration_failure(feature: ShortcutFeature, error: Seq<char>) -> Seq<char> {
    let prefix = match feature {
        ShortcutFeature::Clipboard => "failed to register clipboard shortcut; it may conflict with another application: "@,
        ShortcutFeature::Screenshot => "failed to register screenshot shortcut; it may conflict with another application: "@,
    };
    prefix + error
}

/// What registering the configured shortcuts does next: register the
/// shortcut at an index of the list, or stop with the outcome.
#[derive(Debug, PartialEq, Eq)]
pub enum RegistrationStep {
    Register(usize),
    Done(Result<(), String>),
}

/// The first step of registering `planned` (see `apply_configured_shortcuts`):
/// its first shortcut, or success when there is none.
pub fn first_registration(planned: &Vec<(ShortcutFeature, String)>) -> (step: RegistrationStep)
    ensures
        planned@.len() > 0 ==> step == RegistrationStep::Register(0),
        planned@.len() == 0 ==> step == RegistrationStep::Done(Ok(())),
{
    if planned.len() > 0 {
        RegistrationStep::Register(0)
    } else {
        RegistrationStep::Done(Ok(()))
    }
}

/// The step after registering the shortcut at `index` of `planned` gave
/// `result`: a failure stops with its message and leaves the rest
/// unregistered; a success goes on with the next shortcut, or ends in
/// success after the last.
pub fn after_registration(
    planned: &Vec<(ShortcutFeature, String)>,
    index: usize,
    result: Result<(), String>,
) -> (step: RegistrationStep)
    requires
        index < planned@.len(),
    ensures
        match result {
            Err(e) => step matches RegistrationStep::Done(Err(m)) && m@ == registration_failure(
                planned@[index as int].0,
                e@,
            ),
            Ok(_) => if index + 1 < planned@.len() {
                step == RegistrationStep::Register((index + 1) as usize)
            } else {
                step == RegistrationStep::Done(Ok(()))
            },
        },
{
    match result {
        Err(e) => {
            let prefix = match planned[index].0 {
                ShortcutFeature::Clipboard => "failed to register clipboard shortcut; it may conflict with another application: ",
                ShortcutFeature::Screenshot => "failed to register screenshot shortcut; it may conflict with another application: ",
            };
            let mut v = chars_of(prefix);
            extend_chars(&mut v, &chars_of(e.as_str()));
            proof {
                assert(v@ =~= registration_failure(planned@[index as int].0, e@));
            }
            RegistrationStep::Done(Err(string_from_chars(&v)))
        },
        Ok(_) => if index < planned.len() - 1 {
            RegistrationStep::Register(index + 1)
        } else {
            RegistrationStep::Done(Ok(()))
        },
    }
}

/// Checks a shortcut of the new settings, of id `id`, against the shortcuts
/// `previous_ids` that the current settings registered: one that is
/// registered and not among them belongs to another feature.
pub fn check_shortcut_conflict(previous_ids: &[u32], id: u32, registered: bool) -> (r: Result<(), String>)
    ensures
        r is Ok <==> !(registered && !previous_ids@.contains(id)),
        r matches Err(e) ==> e@ == "global shortcut is already used by another ArcRelay feature"@,
{
    if !registered {
        return Ok(());
    }
    let mut i: usize = 0;
    while i < previous_ids.len()
        invariant
            i <= previous_ids@.len(),
            forall|j: int| 0 <= j < i ==> previous_ids@[j] != id,
        decreases previous_ids@.len() - i,
    {
        if previous_ids[i] == id {
            assert(previous_ids@[i as int] == id);
            return Ok(());
        }
        i = i + 1;
    }
    Err("global shortcut is already used by another ArcRelay feature".to_string())
}

/// What a press of the clipboard shortcut does.
#[derive(Debug, Clone, Copy, PartialEq, Eq)]
pub enum ClipboardShortcutReaction {
    Ignore,
    /// Paste the next entry of the continuous paste.
    PasteNext,
    ToggleWindow,
}

/// What the clipboard shortcut does: nothing but on a press while clipboard
/// history is on; then it pastes the next entry while a continuous paste
/// runs, and shows or hides the clipboard window otherwise.
pub fn clipboard_shortcut_reaction(pressed: bool, clipboard_enabled: bool, continuous_paste: bool) -> (r: ClipboardShortcutReaction)
    ensures
        r == if !pressed || !clipboard_enabled {
            ClipboardShortcutReaction::Ignore
        } else if continuous_paste {
            ClipboardShortcutReaction::PasteNext
        } else {
            ClipboardShortcutReaction::ToggleWindow
        },
{
    if !pressed || !clipboard_enabled {
        ClipboardShortcutReaction::Ignore
    } else if continuous_paste {
        ClipboardShortcutReaction::PasteNext
    } else {
        ClipboardShortcutReaction::ToggleWindow
    }
}

/// Whether the screenshot shortcut starts a capture: on a press while
/// enhanced screenshots are on.
pub fn screenshot_shortcut_captures(pressed: bool, screenshot_enabled: bool) -> (b: bool)
    ensures
        b == (pressed && screenshot_enabled),
{
    pressed && screenshot_enabled
}

} // verus!
