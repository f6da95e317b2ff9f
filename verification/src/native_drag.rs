//! What a native drag source is handed: either files or text, never both,
//! with a preview image.

use vstd::prelude::*;

verus! {

/// The content that a native drag offers to other applications.
#[derive(Debug, Clone)]
pub struct NativeDragPayload {
    /// Paths of exported files.
    pub files: Vec<String>,
    pub text: Option<String>,
    pub html: Option<String>,
    /// The PNG image shown under the pointer.
    pub preview_png: Vec<u8>,
}

/// Why a payload cannot be dragged, or `Ok` when it can, where
/// `paths_absolute` says whether every file path is absolute.
pub open spec fn payload_outcome(p: NativeDragPayload, paths_absolute: bool) -> Result<(), Seq<char>> {
    if p.files@.len() == 0 && p.text is None && p.html is None {
        Err("clipboard drag has no content"@)
    } else if p.files@.len() > 0 && (p.text is Some || p.html is Some) {
        Err("file and text drag representations must be separate"@)
    } else if !paths_absolute {
        Err("clipboard drag file paths must be absolute"@)
    } else if p.preview_png@.len() == 0 {
        Err("clipboard drag preview is missing"@)
    } else {
        Ok(())
    }
}

pub open spec fn outcome_view(r: Result<(), String>) -> Result<(), Seq<char>> {
    match r {
        Ok(()) => Ok(()),
        Err(e) => Err(e@),
    }
}

/// Checks a payload, given whether every file path in it is absolute.
pub fn check_payload(p: &NativeDragPayload, paths_absolute: bool) -> (r: Result<(), String>)
    ensures
        outcome_view(r) == payload_outcome(*p, paths_absolute),
{
    if p.files.len() == 0 && p.text.is_none() && p.html.is_none() {
        Err("clipboard drag has no content".to_string())
    } else if p.files.len() > 0 && (p.text.is_some() || p.html.is_some()) {
        Err("file and text drag representations must be separate".to_string())
    } else if !paths_absolute {
        Err("clipboard drag file paths must be absolute".to_string())
    } else if p.preview_png.len() == 0 {
        Err("clipboard drag preview is missing".to_string())
    } else {
        Ok(())
    }
}

/// Whether `path` starts the way an absolute path starts on some desktop
/// system: with a separator (`/` or `\`), or with a drive letter and `:`.
pub open spec fn rooted_or_prefixed(path: Seq<char>) -> bool {
    path.len() > 0 && (path[0] == '/' || path[0] == '\\' || (path.len() >= 2 && path[1] == ':'))
}

/// `Path::is_absolute` of std: whether `path` is absolute by the rules of
/// the platform that runs it. Its documentation calls a path absolute on
/// Unix when it starts with the root, and on Windows when it has a prefix
/// (`\\?\`, `\\.\`, `\\server\share` or a drive `C:`) and a root; so an
/// absolute path starts as `rooted_or_prefixed` says. Which such paths are
/// absolute differs between platforms and is not stated.
#[verifier::external_body]
fn is_absolute_path(path: &str) -> (b: bool)
    ensures
        b ==> rooted_or_prefixed(path@),
{
    std::path::Path::new(path).is_absolute()
}

/// Checks a payload before it is handed to the platform's drag source: it
/// offers something, files and text are not mixed, file paths are absolute
/// and there is a preview. A path that cannot be absolute on any desktop
/// system counts as relative.
pub fn validate_payload(p: &NativeDragPayload) -> (r: Result<(), String>)
    ensures
        outcome_view(r) == payload_outcome(*p, true) || outcome_view(r) == payload_outcome(*p, false),
        p.files@.len() == 0 ==> outcome_view(r) == payload_outcome(*p, true),
        (exists|i: int| 0 <= i < p.files@.len() && !rooted_or_prefixed(#[trigger] p.files@[i]@))
            ==> outcome_view(r) == payload_outcome(*p, false),
{
    let mut all_absolute = true;
    let mut i: usize = 0;
    while i < p.files.len()
        invariant
            i <= p.files@.len(),
            p.files@.len() == 0 ==> all_absolute,
            all_absolute ==> forall|j: int| 0 <= j < i ==> rooted_or_prefixed(#[trigger] p.files@[j]@),
        decreases p.files@.len() - i,
    {
        if !is_absolute_path(p.files[i].as_str()) {
            all_absolute = false;
        }
        i = i + 1;
    }
    check_payload(p, all_absolute)
}

/// How a native drag ended: the data was dropped somewhere, or not.
#[derive(Debug, Clone, Copy, PartialEq, Eq)]
pub enum NativeDragOutcome {
    Dropped,
    Cancelled,
}

/// The kinds of data that a drag offers to the Linux desktop: file URIs,
/// plain text, and `text/html`.
#[derive(Debug, Clone, Copy, PartialEq, Eq)]
pub struct DragTargets {
    pub uris: bool,
    pub text: bool,
    pub html: bool,
}

/// What a drag of `p` offers: file URIs alone when it holds files,
/// otherwise its text and its HTML, each when it has them.
pub fn offered_targets(p: &NativeDragPayload) -> (t: DragTargets)
    ensures
        t == (if p.files@.len() > 0 {
            DragTargets { uris: true, text: false, html: false }
        } else {
            DragTargets { uris: false, text: p.text is Some, html: p.html is Some }
        }),
{
    if p.files.len() > 0 {
        DragTargets { uris: true, text: false, html: false }
    } else {
        DragTargets { uris: false, text: p.text.is_some(), html: p.html.is_some() }
    }
}

/// What a drag on the Linux desktop has seen so far: whether the desktop
/// reported it failed, and whether any data was handed over.
#[derive(Debug, Clone, Copy, PartialEq, Eq)]
pub struct LinuxDragSession {
    pub failed: bool,
    pub data_sent: bool,
}

impl LinuxDragSession {
    /// A drag that has seen nothing yet.
    pub fn new() -> (s: Self)
        ensures
            s == (LinuxDragSession { failed: false, data_sent: false }),
    {
        LinuxDragSession { failed: false, data_sent: false }
    }

    /// A request for data was answered; `sent` says whether data went out.
    pub fn record_data(&mut self, sent: bool)
        ensures
            *final(self) == (LinuxDragSession { failed: old(self).failed, data_sent: old(self).data_sent || sent }),
    {
        self.data_sent = self.data_sent || sent;
    }

    /// The desktop reported that the drag failed.
    pub fn record_failure(&mut self)
        ensures
            *final(self) == (LinuxDragSession { failed: true, data_sent: old(self).data_sent }),
    {
        self.failed = true;
    }

    /// How the drag ended, given whether the receiver chose to copy: it was
    /// dropped when it did not fail, data was handed over and the receiver
    /// copied it; otherwise it counts as cancelled.
    pub fn end_outcome(&self, copy_selected: bool) -> (o: NativeDragOutcome)
        ensures
            o == (if !self.failed && self.data_sent && copy_selected {
                NativeDragOutcome::Dropped
            } else {
                NativeDragOutcome::Cancelled
            }),
    {
        if !self.failed && self.data_sent && copy_selected {
            NativeDragOutcome::Dropped
        } else {
            NativeDragOutcome::Cancelled
        }
    }
}

} // verus!
