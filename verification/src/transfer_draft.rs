//! The list of files staged for sending: which may be added, what kind each
//! is, which are sendable, and the small previews of images.

use vstd::prelude::*;
use crate::data_url::{base64_text, jpeg_data_url};
use crate::text::{chars_equal, chars_of, lower_chars, lower_seq};

verus! {

/// Files that can be staged at once.
pub const MAX_STAGED_FILES: usize = 256;
/// Files of a staging that get an image preview, counted from the first.
pub const MAX_THUMBNAILS: usize = 32;
/// Largest image that gets a preview.
pub const MAX_PREVIEW_SOURCE_BYTES: u64 = 8_388_608;
/// Largest preview, encoded.
pub const MAX_PREVIEW_BYTES: usize = 49_152;
/// Largest side of an image that is decoded for a preview.
pub const MAX_DECODED_SIDE: u32 = 8192;
/// Largest allocation made to decode an image for a preview.
pub const MAX_DECODE_ALLOC: u64 = 67_108_864;
/// Width and height that a preview fits in.
pub const PREVIEW_WIDTH: u32 = 192;
pub const PREVIEW_HEIGHT: u32 = 144;
/// Quality of the JPEG encoding of a preview.
pub const PREVIEW_QUALITY: u8 = 75;

/// What kind of file a staged file is, by its extension.
#[derive(Debug, Clone, Copy, PartialEq, Eq)]
pub enum FileKind {
    Image,
    Pdf,
    Archive,
    File,
}

/// The kind of a file whose extension, in lower case, is `ext`.
pub open spec fn kind_of_extension(ext: Seq<char>) -> FileKind {
    if ext == "png"@ || ext == "jpg"@ || ext == "jpeg"@ || ext == "gif"@ || ext == "webp"@
        || ext == "bmp"@ || ext == "heic"@ || ext == "avif"@ {
        FileKind::Image
    } else if ext == "pdf"@ {
        FileKind::Pdf
    } else if ext == "zip"@ || ext == "rar"@ || ext == "7z"@ || ext == "tar"@ || ext == "gz"@ {
        FileKind::Archive
    } else {
        FileKind::File
    }
}

/// The kind of a file with extension `extension` (in any case; the empty
/// text when it has none).
pub fn file_kind(extension: &str) -> (k: FileKind)
    ensures
        k == kind_of_extension(lower_seq(extension@)),
{
    let e = lower_chars(&chars_of(extension));
    let is = |t: &str| -> (b: bool)
        ensures
            b == (e@ == t@),
        { chars_equal(&e, &chars_of(t)) };
    if is("png") || is("jpg") || is("jpeg") || is("gif") || is("webp") || is("bmp") || is("heic")
        || is("avif") {
        FileKind::Image
    } else if is("pdf") {
        FileKind::Pdf
    } else if is("zip") || is("rar") || is("7z") || is("tar") || is("gz") {
        FileKind::Archive
    } else {
        FileKind::File
    }
}

/// Checks how many files are staged at once: at most 256.
pub fn check_staging_count(count: usize) -> (r: Result<(), String>)
    ensures
        r is Ok <==> count <= MAX_STAGED_FILES,
        r matches Err(e) ==> e@ == "at most 256 files can be added at once"@,
{
    if count > MAX_STAGED_FILES {
        Err("at most 256 files can be added at once".to_string())
    } else {
        Ok(())
    }
}

/// Whether the file at `index` of a staging may get a preview: the first 32.
pub fn wants_preview(index: usize) -> (b: bool)
    ensures
        b == (index < MAX_THUMBNAILS),
{
    index < MAX_THUMBNAILS
}

/// Why a path cannot be sent, by what it is: links and anything but a
/// regular file are refused.
pub fn staging_problem(is_symlink: bool, is_file: bool) -> (r: Option<String>)
    ensures
        r matches Some(e) ==> e@ == if is_symlink {
            "symbolic links are unsupported; add the original file"@
        } else {
            "only regular files are supported; archive folders before adding them"@
        },
        r is None <==> (!is_symlink && is_file),
{
    if is_symlink {
        Some("symbolic links are unsupported; add the original file".to_string())
    } else if !is_file {
        Some("only regular files are supported; archive folders before adding them".to_string())
    } else {
        None
    }
}

/// Whether a readable file gets a preview: it was asked for, the file is an
/// image, and it has at most 8 MiB.
pub fn preview_eligible(preview: bool, kind: FileKind, size: u64) -> (b: bool)
    ensures
        b == (preview && kind == FileKind::Image && size <= MAX_PREVIEW_SOURCE_BYTES),
{
    preview && matches!(kind, FileKind::Image) && size <= MAX_PREVIEW_SOURCE_BYTES
}

/// The JPEG of the image `bytes` made to fit in `width` by `height`, when it
/// decodes within the limits.
pub uninterp spec fn image_thumbnail_jpeg(
    bytes: Seq<u8>,
    max_side: u32,
    max_alloc: u64,
    width: u32,
    height: u32,
    quality: u8,
) -> Option<Seq<u8>>;

/// Calls of the image crate: `ImageReader::with_guessed_format` on `bytes`,
/// with limits of `max_side` on each side and `max_alloc` bytes, `decode`,
/// `thumbnail(width, height)`, `to_rgb8`, and `JpegEncoder` at `quality`.
/// Nothing comes back when one of them fails. The result is named.
#[verifier::external_body]
fn thumbnail_jpeg(bytes: &[u8], max_side: u32, max_alloc: u64, width: u32, height: u32, quality: u8) -> (r: Option<Vec<u8>>)
    ensures
        match r {
            Some(v) => image_thumbnail_jpeg(bytes@, max_side, max_alloc, width, height, quality) == Some(v@),
            None => image_thumbnail_jpeg(bytes@, max_side, max_alloc, width, height, quality) is None,
        },
{
    let mut reader = image::ImageReader::new(std::io::Cursor::new(bytes)).with_guessed_format().ok()?;
    let mut limits = image::Limits::default();
    limits.max_image_width = Some(max_side);
    limits.max_image_height = Some(max_side);
    limits.max_alloc = Some(max_alloc);
    reader.limits(limits);
    let thumbnail = reader.decode().ok()?.thumbnail(width, height).to_rgb8();
    let mut out = Vec::new();
    image::codecs::jpeg::JpegEncoder::new_with_quality(&mut out, quality).encode_image(&thumbnail).ok()?;
    Some(out)
}

/// The preview of a staged image: its thumbnail as a `data:` URL, unless it
/// does not decode or its JPEG has more than 48 KiB.
pub open spec fn draft_preview(bytes: Seq<u8>) -> Option<Seq<char>> {
    match image_thumbnail_jpeg(bytes, MAX_DECODED_SIDE, MAX_DECODE_ALLOC, PREVIEW_WIDTH, PREVIEW_HEIGHT, PREVIEW_QUALITY) {
        Some(jpeg) => if jpeg.len() <= MAX_PREVIEW_BYTES {
            Some("data:image/jpeg;base64,"@ + base64_text(jpeg))
        } else {
            None
        },
        None => None,
    }
}

/// The preview of the staged image `bytes`.
pub fn draft_thumbnail(bytes: &[u8]) -> (r: Option<String>)
    ensures
        match r {
            Some(s) => draft_preview(bytes@) == Some(s@),
            None => draft_preview(bytes@) is None,
        },
{
    match thumbnail_jpeg(bytes, MAX_DECODED_SIDE, MAX_DECODE_ALLOC, PREVIEW_WIDTH, PREVIEW_HEIGHT, PREVIEW_QUALITY) {
        Some(jpeg) => if jpeg.len() <= MAX_PREVIEW_BYTES {
            Some(jpeg_data_url(&jpeg))
        } else {
            None
        },
        None => None,
    }
}

} // verus!
