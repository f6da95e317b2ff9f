//! State kept by the clipboard window's commands: the image caches with
//! their generation, the continuous-paste queue, and the small rules that
//! shape its queries and views.

use vstd::prelude::*;
use vstd::string::StringExecFns;
use crate::image_cache::{CacheEntry, CachedClipboardImage, ClipboardImagePreviewCache, ClipboardThumbnailCache, find_id, preview_insert, thumbnail_insert};

verus! {

/// Width and height that a clipboard thumbnail is scaled to fit.
pub const THUMBNAIL_WIDTH: u32 = 720;
pub const THUMBNAIL_HEIGHT: u32 = 360;

/// Largest width or height of a large preview.
pub const IMAGE_PREVIEW_MAX_DIMENSION: u32 = 4_096;

/// The result of `image::load_from_memory(png)` scaled by
/// `DynamicImage::thumbnail(width, height)`, converted to RGBA and encoded as
/// PNG (or the text of the error).
pub uninterp spec fn png_thumbnail_fit(png: Seq<u8>, width: u32, height: u32) -> Result<Seq<u8>, Seq<char>>;

/// The size that `image::load_from_memory(png)` decodes (or the error text).
pub uninterp spec fn png_size(png: Seq<u8>) -> Result<(u32, u32), Seq<char>>;

/// `png` decoded, resized with Lanczos3 to fit `side`×`side`, converted to
/// RGBA and encoded as PNG (or the error text).
pub uninterp spec fn png_resized(png: Seq<u8>, side: u32) -> Result<Seq<u8>, Seq<char>>;

/// `png` decoded, converted to RGBA and encoded as PNG (or the error text).
pub uninterp spec fn png_reencoded(png: Seq<u8>) -> Result<Seq<u8>, Seq<char>>;

/// Decodes `png` with `image::load_from_memory`, makes a thumbnail that fits
/// `width`×`height` with `DynamicImage::thumbnail`, and encodes its RGBA
/// pixels with `PngEncoder`. Claimed: the result, or the error's text, is a
/// function of the arguments (`png_thumbnail_fit`).
#[verifier::external_body]
fn thumbnail_fit(png: &[u8], width: u32, height: u32) -> (r: Result<Vec<u8>, String>)
    ensures
        match r {
            Ok(b) => png_thumbnail_fit(png@, width, height) == Ok::<Seq<u8>, Seq<char>>(b@),
            Err(e) => png_thumbnail_fit(png@, width, height) == Err::<Seq<u8>, Seq<char>>(e@),
        },
{
    let image = image::load_from_memory(png).map_err(|error| error.to_string())?;
    let thumbnail = image.thumbnail(width, height).to_rgba8();
    let (w, h) = thumbnail.dimensions();
    let mut encoded = Vec::new();
    let encoder = image::codecs::png::PngEncoder::new(&mut encoded);
    image::ImageEncoder::write_image(encoder, thumbnail.as_raw(), w, h, image::ExtendedColorType::Rgba8).map_err(|error| error.to_string())?;
    Ok(encoded)
}

/// Width and height of `png` as decoded by `image::load_from_memory`.
/// Claimed: a function of `png` (`png_size`).
#[verifier::external_body]
fn decoded_size(png: &[u8]) -> (r: Result<(u32, u32), String>)
    ensures
        match r {
            Ok(s) => png_size(png@) == Ok::<(u32, u32), Seq<char>>(s),
            Err(e) => png_size(png@) == Err::<(u32, u32), Seq<char>>(e@),
        },
{
    let image = image::load_from_memory(png).map_err(|error| error.to_string())?;
    Ok((image.width(), image.height()))
}

/// Decodes `png`, resizes it with `DynamicImage::resize(side, side,
/// Lanczos3)` and encodes its RGBA pixels with `PngEncoder`. Claimed: a
/// function of the arguments (`png_resized`).
#[verifier::external_body]
fn resized(png: &[u8], side: u32) -> (r: Result<Vec<u8>, String>)
    ensures
        match r {
            Ok(b) => png_resized(png@, side) == Ok::<Seq<u8>, Seq<char>>(b@),
            Err(e) => png_resized(png@, side) == Err::<Seq<u8>, Seq<char>>(e@),
        },
{
    let image = image::load_from_memory(png).map_err(|error| error.to_string())?;
    let preview = image.resize(side, side, image::imageops::FilterType::Lanczos3).to_rgba8();
    let (w, h) = preview.dimensions();
    let mut encoded = Vec::new();
    let encoder = image::codecs::png::PngEncoder::new(&mut encoded);
    image::ImageEncoder::write_image(encoder, preview.as_raw(), w, h, image::ExtendedColorType::Rgba8).map_err(|error| error.to_string())?;
    Ok(encoded)
}

/// Decodes `png` and encodes its RGBA pixels with `PngEncoder`. Claimed: a
/// function of `png` (`png_reencoded`).
#[verifier::external_body]
fn reencoded(png: &[u8]) -> (r: Result<Vec<u8>, String>)
    ensures
        match r {
            Ok(b) => png_reencoded(png@) == Ok::<Seq<u8>, Seq<char>>(b@),
            Err(e) => png_reencoded(png@) == Err::<Seq<u8>, Seq<char>>(e@),
        },
{
    let image = image::load_from_memory(png).map_err(|error| error.to_string())?.to_rgba8();
    let (w, h) = image.dimensions();
    let mut encoded = Vec::new();
    let encoder = image::codecs::png::PngEncoder::new(&mut encoded);
    image::ImageEncoder::write_image(encoder, image.as_raw(), w, h, image::ExtendedColorType::Rgba8).map_err(|error| error.to_string())?;
    Ok(encoded)
}

/// The thumbnail of a clipboard image, fitted to 720×360.
pub fn build_clipboard_thumbnail(png: &[u8]) -> (r: Result<Vec<u8>, String>)
    ensures
        match r {
            Ok(b) => png_thumbnail_fit(png@, THUMBNAIL_WIDTH, THUMBNAIL_HEIGHT) == Ok::<Seq<u8>, Seq<char>>(b@),
            Err(e) => png_thumbnail_fit(png@, THUMBNAIL_WIDTH, THUMBNAIL_HEIGHT) == Err::<Seq<u8>, Seq<char>>(e@),
        },
{
    thumbnail_fit(png, THUMBNAIL_WIDTH, THUMBNAIL_HEIGHT)
}

/// What the large preview of an image of the given decoded size is: scaled
/// down to fit 4096×4096 when larger, otherwise the image at its own size.
pub open spec fn preview_of_size(png: Seq<u8>, size: Result<(u32, u32), Seq<char>>) -> Result<Seq<u8>, Seq<char>> {
    match size {
        Err(e) => Err(e),
        Ok((w, h)) => if w > IMAGE_PREVIEW_MAX_DIMENSION || h > IMAGE_PREVIEW_MAX_DIMENSION {
            png_resized(png, IMAGE_PREVIEW_MAX_DIMENSION)
        } else {
            png_reencoded(png)
        },
    }
}

/// The large preview of a clipboard image.
pub fn build_clipboard_image_preview(png: &[u8]) -> (r: Result<Vec<u8>, String>)
    ensures
        match r {
            Ok(b) => preview_of_size(png@, png_size(png@)) == Ok::<Seq<u8>, Seq<char>>(b@),
            Err(e) => preview_of_size(png@, png_size(png@)) == Err::<Seq<u8>, Seq<char>>(e@),
        },
{
    let (width, height) = match decoded_size(png) {
        Ok(size) => size,
        Err(e) => return Err(e),
    };
    if width > IMAGE_PREVIEW_MAX_DIMENSION || height > IMAGE_PREVIEW_MAX_DIMENSION {
        resized(png, IMAGE_PREVIEW_MAX_DIMENSION)
    } else {
        reencoded(png)
    }
}

/// The thumbnail and preview caches, and a generation that every clear
/// advances so that images made before a clear are not stored after it.
pub struct ClipboardImageCaches {
    pub thumbnails: ClipboardThumbnailCache,
    pub previews: ClipboardImagePreviewCache,
    pub generation: u64,
}

impl ClipboardImageCaches {
    pub open spec fn wf(&self) -> bool {
        self.thumbnails.wf() && self.previews.wf()
    }

    pub fn new() -> (c: Self)
        ensures
            c.wf(),
            c.thumbnails.view().len() == 0,
            c.previews.view().len() == 0,
            c.generation == 0,
    {
        ClipboardImageCaches {
            thumbnails: ClipboardThumbnailCache::new(),
            previews: ClipboardImagePreviewCache::new(),
            generation: 0,
        }
    }

    /// Stores a thumbnail made while the caches had generation `started`.
    /// Returns its path when it was stored, and the images whose files are to
    /// be deleted (the new one itself when a clear happened meanwhile).
    pub fn store_thumbnail(&mut self, started: u64, id: u64, cached: CachedClipboardImage) -> (r: (
        Option<String>,
        Vec<CacheEntry>,
    ))
        requires
            old(self).wf(),
        ensures
            final(self).wf(),
            final(self).generation == old(self).generation,
            final(self).previews == old(self).previews,
            started != old(self).generation ==> r.0 is None && r.1@ == seq![(id, cached)]
                && final(self).thumbnails == old(self).thumbnails,
            started == old(self).generation ==> r.0 == Some(cached.path) && (final(self).thumbnails.view(), r.1@)
                == thumbnail_insert(old(self).thumbnails.view(), id, cached),
    {
        if started != self.generation {
            let mut removed = Vec::new();
            removed.push((id, cached));
            return (None, removed);
        }
        let path = cached.path.clone();
        let removed = self.thumbnails.insert(id, cached);
        (Some(path), removed)
    }

    /// Stores a large preview made while the caches had generation `started`,
    /// as `store_thumbnail` does.
    pub fn store_preview(&mut self, started: u64, id: u64, cached: CachedClipboardImage) -> (r: (
        Option<String>,
        Vec<CacheEntry>,
    ))
        requires
            old(self).wf(),
        ensures
            final(self).wf(),
            final(self).generation == old(self).generation,
            final(self).thumbnails == old(self).thumbnails,
            started != old(self).generation ==> r.0 is None && r.1@ == seq![(id, cached)]
                && final(self).previews == old(self).previews,
            started == old(self).generation ==> r.0 == Some(cached.path) && (final(self).previews.view(), r.1@)
                == preview_insert(old(self).previews.view(), id, cached),
    {
        if started != self.generation {
            let mut removed = Vec::new();
            removed.push((id, cached));
            return (None, removed);
        }
        let path = cached.path.clone();
        let removed = self.previews.insert(id, cached);
        (Some(path), removed)
    }
}

/// Empties both image caches and advances their generation; returns the
/// images whose files are to be deleted.
pub fn clear_clipboard_thumbnail_cache(caches: &mut ClipboardImageCaches) -> (removed: Vec<CacheEntry>)
    requires
        old(caches).wf(),
    ensures
        final(caches).wf(),
        final(caches).generation == old(caches).generation.wrapping_add(1),
        final(caches).thumbnails.view().len() == 0,
        final(caches).previews.view().len() == 0,
        removed@ == old(caches).thumbnails.view() + old(caches).previews.view(),
{
    caches.generation = caches.generation.wrapping_add(1);
    let mut removed = caches.thumbnails.clear();
    let mut more = caches.previews.clear();
    removed.append(&mut more);
    removed
}

/// A cleared cache forgets everything: after a clear, the image of an id
/// stored before it is no longer found.
pub proof fn cleared_caches_find_nothing(caches: ClipboardImageCaches, id: u64)
    requires
        caches.thumbnails.view().len() == 0,
        caches.previews.view().len() == 0,
    ensures
        find_id(caches.thumbnails.view(), id) is None,
        find_id(caches.previews.view(), id) is None,
{
}

// ---------------------------------------------------------------------------
// Continuous paste

/// Progress of a continuous paste, as shown to the user.
#[derive(Debug, Clone, Copy, PartialEq, Eq)]
pub struct ContinuousPasteProgress {
    pub current: usize,
    pub total: usize,
    pub active: bool,
}

/// Records to paste one after the other, each on the paste shortcut.
pub struct ContinuousPasteQueue {
    pub ids: Vec<u64>,
    pub index: usize,
    pub in_flight: bool,
}

pub open spec fn progress_of(ids_len: nat, index: nat) -> ContinuousPasteProgress {
    ContinuousPasteProgress { current: index as usize, total: ids_len as usize, active: index < ids_len }
}

impl ContinuousPasteQueue {
    pub open spec fn wf(&self) -> bool {
        self.index <= self.ids@.len()
    }

    pub fn new() -> (q: Self)
        ensures
            q.wf(),
            q.ids@.len() == 0,
            q.index == 0,
            !q.in_flight,
    {
        ContinuousPasteQueue { ids: Vec::new(), index: 0, in_flight: false }
    }

    /// Current progress.
    pub fn progress(&self) -> (p: ContinuousPasteProgress)
        ensures
            p == progress_of(self.ids@.len(), self.index as nat),
    {
        ContinuousPasteProgress { current: self.index, total: self.ids.len(), active: self.index < self.ids.len() }
    }

    /// Starts pasting `ids` from the first; refused for an empty selection.
    pub fn start(&mut self, ids: Vec<u64>) -> (r: Result<ContinuousPasteProgress, String>)
        requires
            old(self).wf(),
        ensures
            final(self).wf(),
            ids@.len() == 0 ==> (r matches Err(e) && e@ == "select at least one clipboard entry"@)
                && final(self).ids == old(self).ids && final(self).index == old(self).index
                && final(self).in_flight == old(self).in_flight,
            ids@.len() > 0 ==> final(self).ids@ == ids@ && final(self).index == 0 && !final(self).in_flight
                && r == Ok::<ContinuousPasteProgress, String>(progress_of(ids@.len(), 0)),
    {
        if ids.len() == 0 {
            return Err(String::from_str("select at least one clipboard entry"));
        }
        self.ids = ids;
        self.index = 0;
        self.in_flight = false;
        Ok(self.progress())
    }

    /// Stops: forgets the queue.
    pub fn stop(&mut self) -> (p: ContinuousPasteProgress)
        ensures
            final(self).wf(),
            final(self).ids@.len() == 0,
            final(self).index == 0,
            !final(self).in_flight,
            p == (ContinuousPasteProgress { current: 0, total: 0, active: false }),
    {
        self.ids = Vec::new();
        self.index = 0;
        self.in_flight = false;
        ContinuousPasteProgress { current: 0, total: 0, active: false }
    }

    /// The record to paste next, which is then in flight; none while one is
    /// in flight or when all have been pasted.
    pub fn begin_next(&mut self) -> (r: Option<u64>)
        requires
            old(self).wf(),
        ensures
            final(self).wf(),
            final(self).ids == old(self).ids,
            final(self).index == old(self).index,
            old(self).in_flight ==> r is None && final(self).in_flight,
            !old(self).in_flight ==> (if old(self).index < old(self).ids@.len() {
                r == Some(old(self).ids@[old(self).index as int]) && final(self).in_flight
            } else {
                r is None && !final(self).in_flight
            }),
    {
        if self.in_flight {
            return None;
        }
        if self.index < self.ids.len() {
            self.in_flight = true;
            Some(self.ids[self.index])
        } else {
            None
        }
    }

    /// The record in flight could not be pasted: the same one is next.
    pub fn paste_failed(&mut self)
        ensures
            final(self).ids == old(self).ids,
            final(self).index == old(self).index,
            !final(self).in_flight,
    {
        self.in_flight = false;
    }

    /// The record in flight was pasted: advances, and forgets the queue once
    /// every record has been pasted.
    pub fn paste_succeeded(&mut self) -> (p: ContinuousPasteProgress)
        requires
            old(self).wf(),
        ensures
            final(self).wf(),
            !final(self).in_flight,
            ({
                let next = if old(self).index + 1 <= old(self).ids@.len() {
                    old(self).index + 1
                } else {
                    old(self).ids@.len() as int
                };
                &&& p == progress_of(old(self).ids@.len(), next as nat)
                &&& next < old(self).ids@.len() ==> final(self).ids == old(self).ids && final(self).index == next
                &&& next >= old(self).ids@.len() ==> final(self).ids@.len() == 0 && final(self).index == 0
            }),
    {
        let next = if self.index < self.ids.len() {
            self.index + 1
        } else {
            self.ids.len()
        };
        self.index = next;
        self.in_flight = false;
        let progress = self.progress();
        if !progress.active {
            self.ids = Vec::new();
            self.index = 0;
        }
        progress
    }
}

/// Whether records of a continuous paste remain to be pasted.
pub fn clipboard_continuous_paste_active(queue: &ContinuousPasteQueue) -> (b: bool)
    ensures
        b == (queue.index < queue.ids@.len()),
{
    queue.index < queue.ids.len()
}

// ---------------------------------------------------------------------------
// Queries and views

/// A position in the clipboard history, as sent by the window.
#[derive(Debug, Clone, Copy, PartialEq, Eq)]
pub struct ClipboardCursorInput {
    pub sort_at_ms: i64,
    pub id: u64,
}

/// A position in the clipboard history, as sent to the window.
#[derive(Debug, Clone, Copy, PartialEq, Eq)]
pub struct ClipboardCursorView {
    pub sort_at_ms: i64,
    pub id: u64,
}

/// Where a timeline page starts.
#[derive(Debug, Clone, Copy, PartialEq, Eq)]
pub enum ClipboardTimelinePositionInput {
    Around { id: u64 },
    Newer { cursor: ClipboardCursorInput },
    Older { cursor: ClipboardCursorInput },
}

pub open spec fn clamp_spec(v: nat, lo: nat, hi: nat) -> nat {
    if v < lo {
        lo
    } else if v > hi {
        hi
    } else {
        v
    }
}

/// Entries per timeline page: 30 unless asked, between 1 and 60.
pub fn timeline_limit(limit: Option<usize>) -> (n: usize)
    ensures
        n == clamp_spec(match limit { Some(l) => l as nat, None => 30 }, 1, 60),
{
    let v = match limit {
        Some(l) => l,
        None => 30,
    };
    if v < 1 {
        1
    } else if v > 60 {
        60
    } else {
        v
    }
}

/// Entries per history page: 60 unless asked, between 1 and 120.
pub fn history_limit(limit: Option<usize>) -> (n: usize)
    ensures
        n == clamp_spec(match limit { Some(l) => l as nat, None => 60 }, 1, 120),
{
    let v = match limit {
        Some(l) => l,
        None => 60,
    };
    if v < 1 {
        1
    } else if v > 120 {
        120
    } else {
        v
    }
}

/// When an entry was last updated: when it was last used, but never before
/// it was captured.
pub fn updated_at_ms(captured_at_ms: i64, last_used_at_ms: Option<i64>) -> (t: i64)
    ensures
        t == match last_used_at_ms {
            Some(u) => if u > captured_at_ms { u } else { captured_at_ms },
            None => captured_at_ms,
        },
{
    match last_used_at_ms {
        Some(u) => if u > captured_at_ms {
            u
        } else {
            captured_at_ms
        },
        None => captured_at_ms,
    }
}

} // verus!
