//! Gaze tracking: the messages and views that do not depend on a tracker.

use vstd::prelude::*;
use crate::data_url::{base64_text, jpeg_data_url};
use crate::peer_views::{in_key_order, sort_by_listing_key, ListingKey};
use crate::text::{chars_equal, chars_of, decimal, extend_chars, push_decimal, string_from_chars, strings_view};
use vstd::multiset::Multiset;

verus! {

/// Seconds that loading the gaze and face models may take before the
/// attempt is reported as failed.
pub const MODEL_LOAD_TIMEOUT_SECS: u64 = 30;

/// A camera that a gaze tracker can read from.
#[derive(Clone, Debug)]
pub struct GazeCameraView {
    pub id: String,
    pub name: String,
    pub description: String,
}

/// The message shown when loading the models took longer than
/// `timeout_secs` seconds.
pub open spec fn model_load_timeout_text(timeout_secs: nat) -> Seq<char> {
    "眼动与人脸识别模型加载超过 "@ + decimal(timeout_secs)
        + " 秒；请重启 ArcRelay 后重试并导出诊断日志"@
}

/// The error reported when the models did not load within `timeout_secs`
/// seconds.
pub fn model_load_timeout_message(timeout_secs: u64) -> (s: String)
    ensures
        s@ == model_load_timeout_text(timeout_secs as nat),
{
    let mut v = chars_of("眼动与人脸识别模型加载超过 ");
    push_decimal(&mut v, timeout_secs);
    extend_chars(&mut v, &chars_of(" 秒；请重启 ArcRelay 后重试并导出诊断日志"));
    assert(v@ =~= model_load_timeout_text(timeout_secs as nat));
    string_from_chars(&v)
}

/// The head-pose samples that a calibration keeps for one display, with the
/// display's id and the number of samples; `data` holds the rest.
#[derive(Debug, Clone)]
pub struct HeadRegion<R> {
    pub display_id: String,
    pub sample_count: usize,
    pub data: R,
}

impl<R> ListingKey for HeadRegion<R> {
    open spec fn listing_key(&self) -> (Seq<char>, Seq<char>) {
        (self.display_id@, Seq::empty())
    }

    fn key_chars(&self) -> (r: (Vec<char>, Vec<char>)) {
        (chars_of(self.display_id.as_str()), Vec::new())
    }
}

/// Calibration profiles before this version are not used.
pub const MIN_PROFILE_VERSION: u32 = 3;

/// Whether a saved calibration still fits: it is recent, has head regions,
/// was made with camera `camera_id`, and each of its regions is a display
/// of the layout.
pub open spec fn profile_fits<R>(
    version: u32,
    profile_camera: Seq<char>,
    regions: Seq<HeadRegion<R>>,
    camera_id: Seq<char>,
    layout_displays: Seq<Seq<char>>,
) -> bool {
    &&& version >= MIN_PROFILE_VERSION
    &&& regions.len() > 0
    &&& profile_camera == camera_id
    &&& forall|i: int| 0 <= i < regions.len() ==> layout_displays.contains(#[trigger] regions[i].display_id@)
}

/// Whether a saved calibration of `version`, made with `profile_camera`,
/// with head regions `regions`, can be used with camera `camera_id` on the
/// displays `layout_displays`.
pub fn profile_compatible<R>(
    version: u32,
    profile_camera: &str,
    regions: &[HeadRegion<R>],
    camera_id: &str,
    layout_displays: &Vec<String>,
) -> (b: bool)
    ensures
        b == profile_fits(version, profile_camera@, regions@, camera_id@, strings_view(layout_displays@)),
{
    if version < MIN_PROFILE_VERSION || regions.len() == 0 {
        return false;
    }
    if !chars_equal(&chars_of(profile_camera), &chars_of(camera_id)) {
        return false;
    }
    let mut i: usize = 0;
    while i < regions.len()
        invariant
            i <= regions@.len(),
            forall|j: int| 0 <= j < i ==> strings_view(layout_displays@).contains(#[trigger] regions@[j].display_id@),
        decreases regions@.len() - i,
    {
        if !crate::text::contains_string(layout_displays, &regions[i].display_id) {
            return false;
        }
        i = i + 1;
    }
    true
}

/// The total of the samples of `regions`.
pub open spec fn total_samples<R>(regions: Seq<HeadRegion<R>>) -> nat
    decreases regions.len(),
{
    if regions.len() == 0 {
        0
    } else {
        total_samples(regions.drop_last()) + regions.last().sample_count as nat
    }
}

/// The index of the first region of `regions` for `display_id`, or -1.
pub open spec fn region_index<R>(regions: Seq<HeadRegion<R>>, display_id: Seq<char>) -> int
    decreases regions.len(),
{
    if regions.len() == 0 {
        -1
    } else {
        let k = region_index(regions.drop_last(), display_id);
        if k >= 0 {
            k
        } else if regions.last().display_id@ == display_id {
            regions.len() - 1
        } else {
            -1
        }
    }
}

proof fn lemma_region_index<R>(regions: Seq<HeadRegion<R>>, display_id: Seq<char>)
    ensures
        -1 <= region_index(regions, display_id) < regions.len(),
        region_index(regions, display_id) >= 0 ==> regions[region_index(regions, display_id)].display_id@ == display_id,
    decreases regions.len(),
{
    if regions.len() > 0 {
        lemma_region_index(regions.drop_last(), display_id);
    }
}

/// The regions of `regions` for other displays than `display_id`, in order.
pub open spec fn other_displays<R>(regions: Seq<HeadRegion<R>>, display_id: Seq<char>) -> Seq<HeadRegion<R>>
    decreases regions.len(),
{
    if regions.len() == 0 {
        regions
    } else if regions.last().display_id@ == display_id {
        other_displays(regions.drop_last(), display_id)
    } else {
        other_displays(regions.drop_last(), display_id).push(regions.last())
    }
}

/// Takes the region for `display_id` of a refined calibration into the saved
/// one: it replaces the saved regions of that display, the regions come in
/// order of display id, and the result carries their total of samples. An
/// error when the refinement has no region for that display.
pub fn merge_refined_regions<R>(base: Vec<HeadRegion<R>>, refined: Vec<HeadRegion<R>>, display_id: &str) -> (r: Result<(Vec<HeadRegion<R>>, usize), String>)
    requires
        total_samples(base@) + total_samples(refined@) <= usize::MAX,
    ensures
        match r {
            Ok((merged, samples)) => {
                let k = region_index(refined@, display_id@);
                &&& k >= 0
                &&& in_key_order(merged@)
                &&& merged@.to_multiset() == other_displays(base@, display_id@).push(refined@[k]).to_multiset()
                &&& samples == total_samples(merged@)
            },
            Err(e) => region_index(refined@, display_id@) == -1
                && e@ == "没有生成所选屏幕的头部方向样本"@,
        },
{
    let d = chars_of(display_id);
    let mut rest = refined;
    let ghost all_refined = rest@;
    let mut seen: usize = 0;
    let total = rest.len();
    let mut found: Option<HeadRegion<R>> = None;
    while rest.len() > 0 && found.is_none()
        invariant
            all_refined.len() == total,
            seen + rest@.len() == total,
            rest@ == all_refined.skip(seen as int),
            d@ == display_id@,
            match found {
                Some(f) => seen >= 1 && region_index(all_refined, display_id@) == seen - 1 && f == all_refined[seen - 1],
                None => region_index(all_refined.take(seen as int), display_id@) == -1,
            },
        decreases rest@.len(),
    {
        let x = rest.remove(0);
        assert(x == all_refined[seen as int]);
        assert(all_refined.take(seen + 1).drop_last() =~= all_refined.take(seen as int));
        if chars_equal(&chars_of(x.display_id.as_str()), &d) {
            proof {
                assert(region_index(all_refined.take(seen + 1), display_id@) == seen);
                lemma_region_prefix(all_refined, display_id@, seen + 1);
            }
            found = Some(x);
        }
        seen = seen + 1;
        assert(rest@ =~= all_refined.skip(seen as int));
    }
    if found.is_none() {
        assert(all_refined.take(seen as int) =~= all_refined);
        return Err("没有生成所选屏幕的头部方向样本".to_string());
    }
    assert(region_index(all_refined, display_id@) == seen - 1);
    let replacement = found.unwrap();
    let ghost k = region_index(all_refined, display_id@);
    assert(k >= 0 && replacement == all_refined[k]);
    let mut kept: Vec<HeadRegion<R>> = Vec::new();
    let mut others = base;
    let ghost all_base = others@;
    let base_len = others.len();
    let mut taken: usize = 0;
    proof {
        lemma_total_prefix(all_base, 0);
    }
    while others.len() > 0
        invariant
            all_base.len() == base_len,
            taken + others@.len() == base_len,
            others@ == all_base.skip(taken as int),
            kept@ == other_displays(all_base.take(taken as int), display_id@),
            d@ == display_id@,
        decreases others@.len(),
    {
        let x = others.remove(0);
        assert(x == all_base[taken as int]);
        assert(all_base.take(taken + 1).drop_last() =~= all_base.take(taken as int));
        if !chars_equal(&chars_of(x.display_id.as_str()), &d) {
            kept.push(x);
        }
        taken = taken + 1;
        assert(others@ =~= all_base.skip(taken as int));
    }
    assert(all_base.take(taken as int) =~= all_base);
    kept.push(replacement);
    let merged = sort_by_listing_key(kept);
    proof {
        lemma_region_index(all_refined, display_id@);
        lemma_other_displays_samples(all_base, display_id@);
        lemma_total_member(all_refined, k);
        lemma_total_of_multiset(merged@, other_displays(all_base, display_id@).push(replacement));
        let o = other_displays(all_base, display_id@);
        assert(o.push(replacement).drop_last() =~= o);
        assert(total_samples(o.push(replacement)) == total_samples(o) + replacement.sample_count);
    }
    let mut sum: usize = 0;
    let mut i: usize = 0;
    while i < merged.len()
        invariant
            i <= merged@.len(),
            sum == total_samples(merged@.take(i as int)),
            total_samples(merged@) <= usize::MAX,
        decreases merged@.len() - i,
    {
        assert(merged@.take(i + 1).drop_last() =~= merged@.take(i as int));
        proof {
            lemma_total_prefix(merged@, i + 1);
        }
        sum = sum + merged[i].sample_count;
        i = i + 1;
    }
    assert(merged@.take(merged@.len() as int) =~= merged@);
    Ok((merged, sum))
}

proof fn lemma_region_prefix<R>(s: Seq<HeadRegion<R>>, display_id: Seq<char>, n: int)
    requires
        0 <= n <= s.len(),
        region_index(s.take(n), display_id) >= 0,
    ensures
        region_index(s, display_id) == region_index(s.take(n), display_id),
    decreases s.len() - n,
{
    if n < s.len() {
        assert(s.take(n + 1).drop_last() =~= s.take(n));
        lemma_region_prefix(s, display_id, n + 1);
    } else {
        assert(s.take(n) =~= s);
    }
}

proof fn lemma_total_prefix<R>(s: Seq<HeadRegion<R>>, n: int)
    requires
        0 <= n <= s.len(),
    ensures
        total_samples(s.take(n)) <= total_samples(s),
    decreases s.len(),
{
    if n < s.len() {
        assert(s.drop_last().take(n) =~= s.take(n));
        lemma_total_prefix(s.drop_last(), n);
    } else {
        assert(s.take(n) =~= s);
    }
}

proof fn lemma_other_displays_samples<R>(s: Seq<HeadRegion<R>>, display_id: Seq<char>)
    ensures
        total_samples(other_displays(s, display_id)) <= total_samples(s),
    decreases s.len(),
{
    if s.len() > 0 {
        lemma_other_displays_samples(s.drop_last(), display_id);
        let o = other_displays(s.drop_last(), display_id);
        assert(o.push(s.last()).drop_last() =~= o);
    }
}

proof fn lemma_total_member<R>(s: Seq<HeadRegion<R>>, k: int)
    requires
        0 <= k < s.len(),
    ensures
        s[k].sample_count <= total_samples(s),
    decreases s.len(),
{
    if k < s.len() - 1 {
        lemma_total_member(s.drop_last(), k);
    }
}

proof fn lemma_total_of_multiset<R>(a: Seq<HeadRegion<R>>, b: Seq<HeadRegion<R>>)
    requires
        a.to_multiset() == b.to_multiset(),
    ensures
        total_samples(a) == total_samples(b),
    decreases a.len(),
{
    broadcast use vstd::seq_lib::group_to_multiset_ensures, vstd::multiset::group_multiset_axioms;
    if a.len() == 0 {
        if b.len() > 0 {
            assert(b.to_multiset().count(b[0]) > 0);
        }
    } else {
        let x = a.last();
        assert(a.to_multiset().count(x) > 0);
        assert(b.to_multiset().contains(x));
        let j = choose|j: int| 0 <= j < b.len() && b[j] == x;
        let a2 = a.drop_last();
        let b2 = b.remove(j);
        assert(a =~= a2.push(x));
        assert(a2.to_multiset() =~= a.to_multiset().remove(x));
        assert(b2.to_multiset() =~= b.to_multiset().remove(x));
        lemma_total_of_multiset(a2, b2);
        lemma_total_remove(b, j);
    }
}

proof fn lemma_total_remove<R>(s: Seq<HeadRegion<R>>, j: int)
    requires
        0 <= j < s.len(),
    ensures
        total_samples(s) == total_samples(s.remove(j)) + s[j].sample_count,
    decreases s.len(),
{
    if j == s.len() - 1 {
        assert(s.remove(j) =~= s.drop_last());
    } else {
        lemma_total_remove(s.drop_last(), j);
        assert(s.remove(j).drop_last() =~= s.drop_last().remove(j));
        assert(s.remove(j).last() == s.last());
    }
}

/// The rest of a camera preview: a frame of `width` by `height` RGB pixels
/// from `pixels`, as a JPEG of `quality`.
pub uninterp spec fn rgb_frame_jpeg(width: u32, height: u32, pixels: Seq<u8>, quality: u8) -> Result<Seq<u8>, Seq<char>>;

/// Calls of the image crate: `RgbImage::from_raw(width, height, pixels)`,
/// which holds the frame when `pixels` has at least three bytes for each
/// pixel, and `JpegEncoder::new_with_quality(.., quality).encode_image`.
/// Nothing comes back when the frame does not fit its buffer; else the
/// encoding's result, which is named.
#[verifier::external_body]
fn encode_rgb_frame(width: u32, height: u32, pixels: &[u8], quality: u8) -> (r: Option<Result<Vec<u8>, String>>)
    ensures
        match r {
            None => 3 * (width as int) * (height as int) > pixels@.len(),
            Some(Ok(v)) => 3 * (width as int) * (height as int) <= pixels@.len()
                && rgb_frame_jpeg(width, height, pixels@, quality) == Ok::<Seq<u8>, Seq<char>>(v@),
            Some(Err(e)) => 3 * (width as int) * (height as int) <= pixels@.len()
                && rgb_frame_jpeg(width, height, pixels@, quality) == Err::<Seq<u8>, Seq<char>>(e@),
        },
{
    let image = image::RgbImage::from_raw(width, height, pixels.to_vec())?;
    let mut jpeg = Vec::new();
    Some(match image::codecs::jpeg::JpegEncoder::new_with_quality(&mut jpeg, quality).encode_image(&image) {
        Ok(()) => Ok(jpeg),
        Err(error) => Err(error.to_string()),
    })
}

/// Quality of the JPEG encoding of camera previews.
pub const PREVIEW_QUALITY: u8 = 72;

/// The camera frame `pixels` (`width` by `height`, RGB) as a `data:` URL,
/// or why it cannot be shown.
pub fn preview_data_url(width: u32, height: u32, pixels: &[u8]) -> (r: Result<String, String>)
    ensures
        3 * (width as int) * (height as int) > pixels@.len() ==> (r matches Err(e)
            && e@ == "camera preview dimensions do not match its RGB buffer"@),
        3 * (width as int) * (height as int) <= pixels@.len() ==> match rgb_frame_jpeg(width, height, pixels@, PREVIEW_QUALITY) {
            Ok(jpeg) => r matches Ok(s) && s@ == "data:image/jpeg;base64,"@ + base64_text(jpeg),
            Err(e) => r matches Err(m) && m@ == "encode camera preview: "@ + e,
        },
{
    match encode_rgb_frame(width, height, pixels, PREVIEW_QUALITY) {
        None => Err("camera preview dimensions do not match its RGB buffer".to_string()),
        Some(Ok(jpeg)) => Ok(jpeg_data_url(&jpeg)),
        Some(Err(e)) => {
            let mut v = chars_of("encode camera preview: ");
            extend_chars(&mut v, &chars_of(e.as_str()));
            Err(string_from_chars(&v))
        },
    }
}


/// How the camera sees the people in front of the desktop.
#[derive(Clone, Copy, Debug, PartialEq, Eq, Structural)]
pub enum PresenceState {
    OwnerPresent,
    Absent,
    UnknownPresent,
    MultiplePeople,
    Uncertain,
}

/// The token under which a presence state is reported to the user interface.
pub open spec fn presence_token(state: PresenceState) -> Seq<char> {
    match state {
        PresenceState::OwnerPresent => "ownerPresent"@,
        PresenceState::Absent => "absent"@,
        PresenceState::UnknownPresent => "unknownPresent"@,
        PresenceState::MultiplePeople => "multiplePeople"@,
        PresenceState::Uncertain => "uncertain"@,
    }
}

/// The token of `state` (see `presence_token`).
pub fn presence_state_token(state: PresenceState) -> (s: &'static str)
    ensures
        s@ == presence_token(state),
{
    match state {
        PresenceState::OwnerPresent => "ownerPresent",
        PresenceState::Absent => "absent",
        PresenceState::UnknownPresent => "unknownPresent",
        PresenceState::MultiplePeople => "multiplePeople",
        PresenceState::Uncertain => "uncertain",
    }
}

/// What the desktop does with one presence observation: whether previews in
/// notifications are restricted, whether the privacy guard is on, and the
/// presence event handed to automations, if any.
#[derive(Clone, Copy, Debug, PartialEq, Eq, Structural)]
pub struct PresenceUpdate {
    pub restrict_preview: bool,
    pub privacy_guard: bool,
    pub event: Option<PresenceState>,
}

/// One presence observation: `enrolled` tells whether an owner profile is
/// enrolled, `state` is what the camera sees and `private` whether that state
/// calls for privacy. From the last state reported (`last`), gives the next
/// last state and the update.
pub open spec fn presence_step(last: Option<PresenceState>, enrolled: bool, state: PresenceState, private: bool)
    -> (Option<PresenceState>, PresenceUpdate)
{
    if !enrolled {
        (None, PresenceUpdate { restrict_preview: false, privacy_guard: false, event: None })
    } else {
        (Some(state), PresenceUpdate {
            restrict_preview: state != PresenceState::OwnerPresent,
            privacy_guard: private,
            event: if last == Some(state) { None } else { Some(state) },
        })
    }
}

/// The presence state last reported to automations since an owner profile
/// was enrolled.
pub struct PresenceTracker {
    pub last: Option<PresenceState>,
}

impl PresenceTracker {
    /// A tracker that has reported nothing.
    pub fn new() -> (t: Self)
        ensures
            t.last is None,
    {
        PresenceTracker { last: None }
    }

    /// Applies one observation (see `presence_step`).
    pub fn apply(&mut self, enrolled: bool, state: PresenceState, private: bool) -> (u: PresenceUpdate)
        ensures
            (final(self).last, u) == presence_step(old(self).last, enrolled, state, private),
    {
        if !enrolled {
            self.last = None;
            return PresenceUpdate { restrict_preview: false, privacy_guard: false, event: None };
        }
        let changed = match self.last {
            Some(previous) => previous != state,
            None => true,
        };
        self.last = Some(state);
        let restrict_preview = match state {
            PresenceState::OwnerPresent => false,
            _ => true,
        };
        PresenceUpdate { restrict_preview, privacy_guard: private, event: if changed { Some(state) } else { None } }
    }
}

/// Automations hear of a presence state once while it lasts: observing the
/// same state again reports no event, and a new state is always reported,
/// as is the first state after enrollment resumes.
pub proof fn presence_events_report_changes_once(
    last: Option<PresenceState>,
    state: PresenceState,
    next: PresenceState,
    private: bool,
    next_private: bool,
)
    ensures
        presence_step(presence_step(last, true, state, private).0, true, state, next_private).1.event is None,
        next != state ==> presence_step(presence_step(last, true, state, private).0, true, next, next_private).1.event
            == Some(next),
        presence_step(presence_step(last, false, state, private).0, true, next, next_private).1.event == Some(next),
{
}


/// What a tracker snapshot does to the input's gaze target.
#[derive(Debug, Clone, Copy, PartialEq, Eq, Structural)]
pub enum GazeInputAction {
    /// Forget the candidate display.
    ClearCandidate,
    /// Switch input to the display looked at.
    Activate,
    /// Mark the display looked at, without switching.
    Preselect,
    /// Forget the marked display.
    ClearPreselection,
}

/// The action for a snapshot: while calibrating, the candidate is cleared;
/// with a stable target, a calibrated profile (head regions) switches to it
/// and no profile only marks it; without a target, the candidate or the mark
/// is cleared.
pub open spec fn gaze_input_action_spec(calibrating: bool, has_target: bool, head_regions: bool) -> GazeInputAction {
    if calibrating {
        GazeInputAction::ClearCandidate
    } else if has_target {
        if head_regions { GazeInputAction::Activate } else { GazeInputAction::Preselect }
    } else if head_regions {
        GazeInputAction::ClearCandidate
    } else {
        GazeInputAction::ClearPreselection
    }
}

/// The action for a snapshot (see `gaze_input_action_spec`).
pub fn gaze_input_action(calibrating: bool, has_target: bool, head_regions: bool) -> (a: GazeInputAction)
    ensures
        a == gaze_input_action_spec(calibrating, has_target, head_regions),
{
    if calibrating {
        GazeInputAction::ClearCandidate
    } else if has_target {
        if head_regions {
            GazeInputAction::Activate
        } else {
            GazeInputAction::Preselect
        }
    } else if head_regions {
        GazeInputAction::ClearCandidate
    } else {
        GazeInputAction::ClearPreselection
    }
}

/// Least time between two camera previews sent to the window.
pub const PREVIEW_INTERVAL_MS: u64 = 200;

/// When the last camera preview was sent, if one was.
pub struct PreviewThrottle {
    pub last_emitted_ms: Option<u64>,
}

impl PreviewThrottle {
    pub fn new() -> (t: Self)
        ensures
            t.last_emitted_ms is None,
    {
        PreviewThrottle { last_emitted_ms: None }
    }

    /// Whether a frame that arrives at `now_ms` is sent as a preview:
    /// previews are enabled, the frame carries pixels, and the last preview
    /// is at least the interval ago (the first always goes). A sent preview
    /// is remembered.
    pub fn let_through(&mut self, now_ms: u64, enabled: bool, has_pixels: bool) -> (send: bool)
        ensures
            send == (enabled && has_pixels && match old(self).last_emitted_ms {
                Some(last) => now_ms >= last && now_ms - last >= PREVIEW_INTERVAL_MS,
                None => true,
            }),
            send ==> final(self).last_emitted_ms == Some(now_ms),
            !send ==> final(self).last_emitted_ms == old(self).last_emitted_ms,
    {
        if !enabled || !has_pixels {
            return false;
        }
        let due = match self.last_emitted_ms {
            Some(last) => now_ms >= last && now_ms - last >= PREVIEW_INTERVAL_MS,
            None => true,
        };
        if due {
            self.last_emitted_ms = Some(now_ms);
        }
        due
    }
}

/// Previews are at least the interval apart: after one was sent at `t`, no
/// frame before `t + PREVIEW_INTERVAL_MS` is sent.
pub proof fn previews_respect_the_interval(last: u64, now_ms: u64, enabled: bool, has_pixels: bool)
    requires
        last <= now_ms < last + PREVIEW_INTERVAL_MS,
    ensures
        !(enabled && has_pixels && now_ms >= last && now_ms - last >= PREVIEW_INTERVAL_MS),
{
}

} // verus!
