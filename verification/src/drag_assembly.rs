//! Assembly of a clipboard drag-out payload from exported clipboard records:
//! text records become one text (and optionally one HTML document) or one
//! text file; any other mix becomes a list of files.

use vstd::prelude::*;
use crate::drag_html::{export_limit_error, export_limit_message, fragment_chars, fragment_output};
use crate::text::{contains_string, strings_view, byte_len, chars_of, extend_chars, lemma_byte_len_concat, push_chars, range_byte_len, string_from_chars};
use vstd::slice::slice_to_vec;
use vstd::string::StringExecFns;

verus! {

/// Largest text, HTML document or text file a drag may carry, in bytes.
pub const MAX_TEXT_BYTES: usize = 16 * 1024 * 1024;

/// Largest number of files a drag may carry.
pub const MAX_FILES: usize = 512;

/// Largest width and height of an image that is decoded for the drag image.
pub const MAX_PREVIEW_SIDE: u32 = 8192;

/// Largest allocation the decoder of the drag image may make.
pub const MAX_PREVIEW_ALLOC: u64 = 32 * 1024 * 1024;

/// Width and height that the drag image is scaled to fit.
pub const PREVIEW_SIZE: u32 = 128;

/// How text records are offered to the drop target.
#[derive(Debug, Clone, Copy, PartialEq, Eq)]
pub enum ClipboardDragMode {
    Auto,
    PlainText,
    RichText,
    TextFile,
}

/// A browser selection inside one text record.
#[derive(Debug, Clone)]
pub struct ClipboardDragSelection {
    pub id: u64,
    pub text: String,
}

/// What a prepared drag carries.
#[derive(Debug, Clone, Copy, PartialEq, Eq)]
pub enum ClipboardDragKind {
    Text,
    Files,
}

/// The outcome of a drag session.
#[derive(Debug, Clone, Copy, PartialEq, Eq)]
pub enum ClipboardDragOutcome {
    Dropped,
    Cancelled,
    Failed,
}

/// A prepared drag, as reported to the clipboard window.
#[derive(Debug, Clone)]
pub struct ClipboardDragPrepared {
    pub token: String,
    pub kind: ClipboardDragKind,
    pub count: usize,
}

/// Reported to the clipboard window when a drag session ends.
#[derive(Debug, Clone)]
pub struct ClipboardDragEnded {
    pub token: String,
    pub outcome: ClipboardDragOutcome,
    pub error: Option<String>,
}

/// Content of an exported clipboard record.
#[derive(Debug, Clone)]
pub enum ClipboardPayload {
    Text(String),
    RichText { html: String, plain_text: String, rtf: Option<String> },
    Image { png: Vec<u8>, width: u32, height: u32 },
    Files(Vec<String>),
}

/// A clipboard record as handed to the drag assembly.
#[derive(Debug, Clone)]
pub struct ClipboardExportRecord {
    pub id: u64,
    pub content_hash: String,
    pub sensitive: bool,
    pub payload: ClipboardPayload,
}

/// One file of the drag: an existing path, or the next generated export.
#[derive(Debug, Clone)]
pub enum DragFile {
    Existing(String),
    Export,
}

/// Bytes of a file that is generated for the drag.
#[derive(Debug, Clone)]
pub struct ExportFile {
    pub extension: &'static str,
    pub bytes: Vec<u8>,
}

/// The assembled drag payload.
#[derive(Debug, Clone)]
pub struct Assembly {
    pub files: Vec<DragFile>,
    pub exports: Vec<ExportFile>,
    pub text: Option<String>,
    pub html: Option<String>,
    /// PNG drag image; `None` stands for the bundled default image.
    pub preview: Option<Vec<u8>>,
}

/// Abstract payload of a record.
pub enum PayloadView {
    Text(Seq<char>),
    RichText { html: Seq<char>, plain: Seq<char> },
    Image(Seq<u8>),
    Files(Seq<Seq<char>>),
}

pub struct RecordView {
    pub id: u64,
    pub sensitive: bool,
    pub payload: PayloadView,
}

pub enum DragFileView {
    Existing(Seq<char>),
    Export,
}

pub struct AssemblyView {
    pub files: Seq<DragFileView>,
    pub exports: Seq<(Seq<char>, Seq<u8>)>,
    pub text: Option<Seq<char>>,
    pub html: Option<Seq<char>>,
    pub preview: Option<Seq<u8>>,
}

pub open spec fn payload_view(p: ClipboardPayload) -> PayloadView {
    match p {
        ClipboardPayload::Text(t) => PayloadView::Text(t@),
        ClipboardPayload::RichText { html, plain_text, .. } => PayloadView::RichText {
            html: html@,
            plain: plain_text@,
        },
        ClipboardPayload::Image { png, .. } => PayloadView::Image(png@),
        ClipboardPayload::Files(paths) => PayloadView::Files(strings_view(paths@)),
    }
}

pub open spec fn record_view(r: ClipboardExportRecord) -> RecordView {
    RecordView { id: r.id, sensitive: r.sensitive, payload: payload_view(r.payload) }
}

pub open spec fn records_view(v: Seq<ClipboardExportRecord>) -> Seq<RecordView> {
    v.map_values(|r: ClipboardExportRecord| record_view(r))
}

pub open spec fn drag_file_view(f: DragFile) -> DragFileView {
    match f {
        DragFile::Existing(p) => DragFileView::Existing(p@),
        DragFile::Export => DragFileView::Export,
    }
}

pub open spec fn export_view(f: ExportFile) -> (Seq<char>, Seq<u8>) {
    (f.extension@, f.bytes@)
}

pub open spec fn files_view(v: Seq<DragFile>) -> Seq<DragFileView> {
    v.map_values(|f: DragFile| drag_file_view(f))
}

pub open spec fn exports_view(v: Seq<ExportFile>) -> Seq<(Seq<char>, Seq<u8>)> {
    v.map_values(|f: ExportFile| export_view(f))
}

pub open spec fn selection_view(s: Option<ClipboardDragSelection>) -> Option<(u64, Seq<char>)> {
    match s {
        Some(sel) => Some((sel.id, sel.text@)),
        None => None,
    }
}

pub open spec fn assembly_view(a: Assembly) -> AssemblyView {
    AssemblyView {
        files: files_view(a.files@),
        exports: exports_view(a.exports@),
        text: match a.text {
            Some(t) => Some(t@),
            None => None,
        },
        html: match a.html {
            Some(t) => Some(t@),
            None => None,
        },
        preview: match a.preview {
            Some(png) => Some(png@),
            None => None,
        },
    }
}

/// Per-record results of checking file lists against the file system: the
/// accessible absolute paths, or why a list cannot be dragged.
pub open spec fn checks_view(v: Seq<Result<Vec<String>, String>>) -> Seq<
    Result<Seq<Seq<char>>, Seq<char>>,
> {
    v.map_values(
        |c: Result<Vec<String>, String>|
            match c {
                Ok(paths) => Ok(strings_view(paths@)),
                Err(e) => Err(e@),
            },
    )
}

pub open spec fn invalid_selection_message() -> Seq<char> {
    "invalid clipboard text selection"@
}

pub open spec fn selection_changed_message() -> Seq<char> {
    "clipboard text selection changed; select it again"@
}

pub open spec fn empty_file_list_message() -> Seq<char> {
    "clipboard file list is empty"@
}

pub open spec fn empty_image_message() -> Seq<char> {
    "clipboard image is empty"@
}

pub open spec fn too_many_files_message() -> Seq<char> {
    "too many clipboard files; select at most 512 files"@
}

pub open spec fn is_text_payload(p: PayloadView) -> bool {
    p is Text || p is RichText
}

pub open spec fn plain_of(p: PayloadView) -> Seq<char> {
    match p {
        PayloadView::Text(t) => t,
        PayloadView::RichText { plain, .. } => plain,
        _ => Seq::empty(),
    }
}

/// The records after a selection has replaced the text of the only record.
pub open spec fn apply_selection(records: Seq<RecordView>, selection: Option<(u64, Seq<char>)>) -> Result<
    Seq<RecordView>,
    Seq<char>,
> {
    match selection {
        None => Ok(records),
        Some((id, text)) => {
            if records.len() != 1 || records[0].id != id || text.len() == 0 || byte_len(text)
                > MAX_TEXT_BYTES {
                Err(invalid_selection_message())
            } else if !is_text_payload(records[0].payload) {
                Err(selection_changed_message())
            } else {
                Ok(seq![RecordView { payload: PayloadView::Text(text), ..records[0] }])
            }
        },
    }
}

pub open spec fn paragraph_break() -> Seq<char> {
    seq!['\n', '\n']
}

/// Plain texts of the first `n` records, separated by blank lines.
pub open spec fn plain_join(recs: Seq<RecordView>, n: int) -> Seq<char>
    decreases n,
{
    if n <= 0 {
        Seq::empty()
    } else if n == 1 {
        plain_of(recs[0].payload)
    } else {
        plain_join(recs, n - 1) + paragraph_break() + plain_of(recs[n - 1].payload)
    }
}

pub open spec fn escape_char(c: char) -> Seq<char> {
    if c == '&' {
        seq!['&', 'a', 'm', 'p', ';']
    } else if c == '<' {
        seq!['&', 'l', 't', ';']
    } else if c == '>' {
        seq!['&', 'g', 't', ';']
    } else {
        seq![c]
    }
}

/// `&`, `<` and `>` replaced by their HTML entities.
pub open spec fn escape(t: Seq<char>) -> Seq<char>
    decreases t.len(),
{
    if t.len() == 0 {
        Seq::empty()
    } else {
        escape(t.drop_last()) + escape_char(t.last())
    }
}

pub open spec fn pre_open() -> Seq<char> {
    seq!['<', 'p', 'r', 'e', '>']
}

pub open spec fn pre_close() -> Seq<char> {
    seq!['<', '/', 'p', 'r', 'e', '>']
}

pub open spec fn line_breaks() -> Seq<char> {
    seq!['<', 'b', 'r', '>', '<', 'b', 'r', '>']
}

pub open spec fn document_open() -> Seq<char> {
    "<html><body><!--StartFragment-->"@
}

pub open spec fn document_close() -> Seq<char> {
    "<!--EndFragment--></body></html>"@
}

/// HTML of one record inside a combined document.
pub open spec fn rich_piece(p: PayloadView) -> Seq<char> {
    match p {
        PayloadView::Text(t) => pre_open() + escape(t) + pre_close(),
        PayloadView::RichText { html, .. } => fragment_output(html),
        _ => Seq::empty(),
    }
}

pub open spec fn rich_join(recs: Seq<RecordView>, n: int) -> Seq<char>
    decreases n,
{
    if n <= 0 {
        Seq::empty()
    } else if n == 1 {
        rich_piece(recs[0].payload)
    } else {
        rich_join(recs, n - 1) + line_breaks() + rich_piece(recs[n - 1].payload)
    }
}

/// The HTML offered for text records: a single rich record keeps its own
/// document; otherwise one document holds one fragment of all records.
pub open spec fn rich_document(recs: Seq<RecordView>) -> Seq<char> {
    if recs.len() == 1 {
        match recs[0].payload {
            PayloadView::RichText { html, .. } => html,
            p => rich_piece(p),
        }
    } else {
        document_open() + rich_join(recs, recs.len() as int) + document_close()
    }
}

/// Some rich record's own HTML is longer than the limit.
pub open spec fn rich_source_too_large(recs: Seq<RecordView>) -> bool {
    exists|i: int|
        0 <= i < recs.len() && ((#[trigger] recs[i]).payload matches PayloadView::RichText {
            html,
            ..
        } && byte_len(html) > MAX_TEXT_BYTES)
}

pub open spec fn offers_html(recs: Seq<RecordView>, mode: ClipboardDragMode, selected: bool) -> bool {
    !selected && !(mode == ClipboardDragMode::PlainText || mode == ClipboardDragMode::TextFile) && (
    mode == ClipboardDragMode::RichText || exists|i: int|
        0 <= i < recs.len() && (#[trigger] recs[i]).payload is RichText)
}

pub open spec fn txt_extension() -> Seq<char> {
    "txt"@
}

pub open spec fn png_extension() -> Seq<char> {
    "png"@
}

/// Assembly of records that are all text.
pub open spec fn assemble_text(recs: Seq<RecordView>, mode: ClipboardDragMode, selected: bool) -> Result<
    AssemblyView,
    Seq<char>,
> {
    let offer = offers_html(recs, mode, selected);
    let plain = plain_join(recs, recs.len() as int);
    let rich = rich_document(recs);
    if byte_len(plain) > MAX_TEXT_BYTES || (offer && (rich_source_too_large(recs) || byte_len(rich)
        > MAX_TEXT_BYTES)) {
        Err(export_limit_message())
    } else if mode == ClipboardDragMode::TextFile {
        Ok(
            AssemblyView {
                files: seq![DragFileView::Export],
                exports: seq![(txt_extension(), vstd::utf8::encode_utf8(plain))],
                text: None,
                html: None,
                preview: None,
            },
        )
    } else {
        Ok(
            AssemblyView {
                files: Seq::empty(),
                exports: Seq::empty(),
                text: Some(plain),
                html: if offer {
                    Some(rich)
                } else {
                    None
                },
                preview: None,
            },
        )
    }
}

/// Files collected so far, and the existing paths already offered.
pub struct FilesAcc {
    pub files: Seq<DragFileView>,
    pub exports: Seq<(Seq<char>, Seq<u8>)>,
    pub seen: Seq<Seq<char>>,
}

/// Adds the existing paths that were not offered before.
pub open spec fn add_existing(acc: FilesAcc, paths: Seq<Seq<char>>) -> FilesAcc
    decreases paths.len(),
{
    if paths.len() == 0 {
        acc
    } else {
        let a = add_existing(acc, paths.drop_last());
        let p = paths.last();
        if a.seen.contains(p) {
            a
        } else {
            FilesAcc { files: a.files.push(DragFileView::Existing(p)), seen: a.seen.push(p), ..a }
        }
    }
}

pub open spec fn files_step(
    acc: FilesAcc,
    rec: RecordView,
    checked: Result<Seq<Seq<char>>, Seq<char>>,
) -> Result<FilesAcc, Seq<char>> {
    let r = match rec.payload {
        PayloadView::Files(paths) => {
            if paths.len() == 0 {
                Err(empty_file_list_message())
            } else if paths.len() > MAX_FILES {
                Err(too_many_files_message())
            } else {
                match checked {
                    Ok(list) => Ok(add_existing(acc, list)),
                    Err(e) => Err(e),
                }
            }
        },
        PayloadView::Image(png) => {
            if png.len() == 0 {
                Err(empty_image_message())
            } else {
                Ok(
                    FilesAcc {
                        files: acc.files.push(DragFileView::Export),
                        exports: acc.exports.push((png_extension(), png)),
                        ..acc
                    },
                )
            }
        },
        p => {
            let t = plain_of(p);
            if byte_len(t) > MAX_TEXT_BYTES {
                Err(export_limit_message())
            } else {
                Ok(
                    FilesAcc {
                        files: acc.files.push(DragFileView::Export),
                        exports: acc.exports.push((txt_extension(), vstd::utf8::encode_utf8(t))),
                        ..acc
                    },
                )
            }
        },
    };
    match r {
        Ok(a) => if a.files.len() > MAX_FILES {
            Err(too_many_files_message())
        } else {
            Ok(a)
        },
        Err(e) => Err(e),
    }
}

pub open spec fn files_fold(
    recs: Seq<RecordView>,
    checks: Seq<Result<Seq<Seq<char>>, Seq<char>>>,
    n: int,
) -> Result<FilesAcc, Seq<char>>
    decreases n,
{
    if n <= 0 {
        Ok(FilesAcc { files: Seq::empty(), exports: Seq::empty(), seen: Seq::empty() })
    } else {
        match files_fold(recs, checks, n - 1) {
            Ok(acc) => files_step(acc, recs[n - 1], checks[n - 1]),
            Err(e) => Err(e),
        }
    }
}

/// The image whose thumbnail is the drag image: that of the only record when
/// it is a non-sensitive image.
pub open spec fn preview_source(recs: Seq<RecordView>) -> Option<Seq<u8>> {
    if recs.len() == 1 && !recs[0].sensitive {
        match recs[0].payload {
            PayloadView::Image(png) => Some(png),
            _ => None,
        }
    } else {
        None
    }
}

/// The drag payload of `records`, or why it cannot be dragged.
pub open spec fn assemble_spec(
    records: Seq<RecordView>,
    mode: ClipboardDragMode,
    selection: Option<(u64, Seq<char>)>,
    checks: Seq<Result<Seq<Seq<char>>, Seq<char>>>,
) -> Result<AssemblyView, Seq<char>> {
    match apply_selection(records, selection) {
        Err(e) => Err(e),
        Ok(recs) => {
            let preview = match preview_source(recs) {
                Some(png) => png_thumbnail_result(png, MAX_PREVIEW_SIDE, MAX_PREVIEW_ALLOC, PREVIEW_SIZE),
                None => None,
            };
            if forall|i: int| 0 <= i < recs.len() ==> is_text_payload(#[trigger] recs[i].payload) {
                match assemble_text(recs, mode, selection is Some) {
                    Ok(a) => Ok(AssemblyView { preview, ..a }),
                    Err(e) => Err(e),
                }
            } else {
                match files_fold(recs, checks, recs.len() as int) {
                    Ok(acc) => Ok(
                        AssemblyView {
                            files: acc.files,
                            exports: acc.exports,
                            text: None,
                            html: None,
                            preview,
                        },
                    ),
                    Err(e) => Err(e),
                }
            }
        },
    }
}


/// The thumbnail that `image` makes of a PNG: `None` when it cannot be
/// decoded within the limits or the thumbnail cannot be encoded.
pub uninterp spec fn png_thumbnail_result(png: Seq<u8>, max_side: u32, max_alloc: u64, size: u32) -> Option<Seq<u8>>;

/// Decodes `png` with `image::ImageReader` under `image::Limits` of
/// `max_side` pixels per side and `max_alloc` bytes, scales it with
/// `DynamicImage::thumbnail` to fit `size`×`size`, and encodes the RGBA
/// result with `PngEncoder`. Claimed: the result is a function of the
/// arguments, named `png_thumbnail_result`.
#[verifier::external_body]
fn png_thumbnail(png: &[u8], max_side: u32, max_alloc: u64, size: u32) -> (r: Option<Vec<u8>>)
    ensures
        match r {
            Some(t) => png_thumbnail_result(png@, max_side, max_alloc, size) == Some(t@),
            None => png_thumbnail_result(png@, max_side, max_alloc, size) == None::<Seq<u8>>,
        },
{
    let mut reader = image::ImageReader::with_format(std::io::Cursor::new(png), image::ImageFormat::Png);
    let mut limits = image::Limits::default();
    limits.max_alloc = Some(max_alloc);
    limits.max_image_width = Some(max_side);
    limits.max_image_height = Some(max_side);
    reader.limits(limits);
    let thumb = reader.decode().ok()?.thumbnail(size, size).into_rgba8();
    let mut out = Vec::new();
    let encoder = image::codecs::png::PngEncoder::new(&mut out);
    image::ImageEncoder::write_image(encoder, thumb.as_raw(), thumb.width(), thumb.height(), image::ExtendedColorType::Rgba8).ok()?;
    Some(out)
}

pub proof fn lemma_plain_join_grows(recs: Seq<RecordView>, i: int, j: int)
    requires
        0 <= i <= j,
    ensures
        byte_len(plain_join(recs, i)) <= byte_len(plain_join(recs, j)),
    decreases j,
{
    if i < j {
        lemma_plain_join_grows(recs, i, j - 1);
        if j >= 2 {
            let a = plain_join(recs, j - 1) + paragraph_break();
            lemma_byte_len_concat(plain_join(recs, j - 1), paragraph_break());
            lemma_byte_len_concat(a, plain_of(recs[j - 1].payload));
        }
    }
}

pub proof fn lemma_rich_join_grows(recs: Seq<RecordView>, i: int, j: int)
    requires
        0 <= i <= j,
    ensures
        byte_len(rich_join(recs, i)) <= byte_len(rich_join(recs, j)),
    decreases j,
{
    if i < j {
        lemma_rich_join_grows(recs, i, j - 1);
        if j >= 2 {
            let a = rich_join(recs, j - 1) + line_breaks();
            lemma_byte_len_concat(rich_join(recs, j - 1), line_breaks());
            lemma_byte_len_concat(a, rich_piece(recs[j - 1].payload));
        }
    }
}

proof fn lemma_ascii_bytes(s: Seq<char>)
    requires
        forall|i: int| 0 <= i < s.len() ==> (#[trigger] s[i] as u32) <= 0x7F,
    ensures
        byte_len(s) == s.len(),
{
    crate::text::lemma_byte_len_ascii(s);
}

/// Appends `t` with `&`, `<` and `>` replaced by their entities.
fn push_escaped(out: &mut Vec<char>, t: &[char])
    ensures
        final(out)@ == old(out)@ + escape(t@),
{
    let mut i: usize = 0;
    while i < t.len()
        invariant
            i <= t@.len(),
            out@ == old(out)@ + escape(t@.take(i as int)),
        decreases t@.len() - i,
    {
        let c = t[i];
        let ghost before = out@;
        if c == '&' {
            extend_chars(out, &['&', 'a', 'm', 'p', ';']);
        } else if c == '<' {
            extend_chars(out, &['&', 'l', 't', ';']);
        } else if c == '>' {
            extend_chars(out, &['&', 'g', 't', ';']);
        } else {
            out.push(c);
        }
        assert(t@.take(i + 1).drop_last() =~= t@.take(i as int));
        assert(out@ =~= before + escape_char(c));
        i = i + 1;
    }
    assert(t@.take(t@.len() as int) =~= t@);
}

/// Appends `text`, with `&`, `<` and `>` replaced by their HTML entities, to
/// `output` unless the result would exceed `limit` bytes.
pub fn escape_html(text: &str, output: &mut String, limit: usize) -> (r: Result<(), String>)
    ensures
        byte_len(old(output)@ + escape(text@)) <= limit ==> r is Ok && final(output)@ == old(
            output,
        )@ + escape(text@),
        byte_len(old(output)@ + escape(text@)) > limit ==> (r matches Err(e) && e@
            == export_limit_message()) && final(output)@ == old(output)@,
{
    let src = chars_of(text);
    let mut escaped: Vec<char> = Vec::new();
    push_escaped(&mut escaped, &src);
    assert(escaped@ =~= escape(text@));
    let current = chars_of(output.as_str());
    let current_len = range_byte_len(&current, 0, current.len());
    let added_len = range_byte_len(&escaped, 0, escaped.len());
    proof {
        assert(current@.subrange(0, current@.len() as int) =~= current@);
        assert(escaped@.subrange(0, escaped@.len() as int) =~= escaped@);
        lemma_byte_len_concat(old(output)@, escape(text@));
    }
    if current_len + added_len > limit as u128 {
        return Err(export_limit_error());
    }
    push_chars(output, &escaped);
    Ok(())
}

fn is_text_record(r: &ClipboardExportRecord) -> (b: bool)
    ensures
        b == is_text_payload(record_view(*r).payload),
{
    match &r.payload {
        ClipboardPayload::Text(_) => true,
        ClipboardPayload::RichText { .. } => true,
        _ => false,
    }
}

fn all_text(recs: &Vec<ClipboardExportRecord>) -> (b: bool)
    ensures
        b == forall|i: int|
            0 <= i < recs@.len() ==> is_text_payload(#[trigger] records_view(recs@)[i].payload),
{
    let mut i: usize = 0;
    while i < recs.len()
        invariant
            i <= recs@.len(),
            forall|j: int|
                0 <= j < i ==> is_text_payload(#[trigger] records_view(recs@)[j].payload),
        decreases recs@.len() - i,
    {
        if !is_text_record(&recs[i]) {
            assert(!is_text_payload(records_view(recs@)[i as int].payload));
            return false;
        }
        i = i + 1;
    }
    true
}

fn offers_html_exec(recs: &Vec<ClipboardExportRecord>, mode: ClipboardDragMode, selected: bool) -> (b: bool)
    ensures
        b == offers_html(records_view(recs@), mode, selected),
{
    match mode {
        ClipboardDragMode::PlainText | ClipboardDragMode::TextFile => return false,
        ClipboardDragMode::RichText => return !selected,
        ClipboardDragMode::Auto => {},
    }
    if selected {
        return false;
    }
    let mut i: usize = 0;
    while i < recs.len()
        invariant
            i <= recs@.len(),
            mode == ClipboardDragMode::Auto,
            !selected,
            forall|j: int| 0 <= j < i ==> !((#[trigger] records_view(recs@)[j]).payload is RichText),
        decreases recs@.len() - i,
    {
        if let ClipboardPayload::RichText { .. } = &recs[i].payload {
            assert(records_view(recs@)[i as int].payload is RichText);
            return true;
        }
        i = i + 1;
    }
    false
}

fn plain_chars(p: &ClipboardPayload) -> (v: Vec<char>)
    ensures
        v@ == plain_of(payload_view(*p)),
{
    match p {
        ClipboardPayload::Text(t) => chars_of(t.as_str()),
        ClipboardPayload::RichText { plain_text, .. } => chars_of(plain_text.as_str()),
        _ => Vec::new(),
    }
}

fn byte_count(v: &Vec<char>) -> (n: u128)
    ensures
        n == byte_len(v@),
        n <= 4 * v@.len(),
{
    let n = range_byte_len(v, 0, v.len());
    assert(v@.subrange(0, v@.len() as int) =~= v@);
    n
}

/// `<pre>`, the escaped text and `</pre>`.
fn pre_block(text: &String) -> (v: Vec<char>)
    ensures
        v@ == pre_open() + escape(text@) + pre_close(),
{
    let src = chars_of(text.as_str());
    let mut v: Vec<char> = Vec::new();
    extend_chars(&mut v, &['<', 'p', 'r', 'e', '>']);
    push_escaped(&mut v, &src);
    extend_chars(&mut v, &['<', '/', 'p', 'r', 'e', '>']);
    v
}

/// Plain text, and the HTML document when `offer`, of a run of text records;
/// `Err` when one of them is longer than the limit.
fn text_outputs(recs: &Vec<ClipboardExportRecord>, offer: bool) -> (r: Result<
    (Vec<char>, Option<Vec<char>>),
    (),
>)
    requires
        forall|i: int|
            0 <= i < recs@.len() ==> is_text_payload(#[trigger] records_view(recs@)[i].payload),
    ensures
        ({
            let rv = records_view(recs@);
            let too_large = byte_len(plain_join(rv, rv.len() as int)) > MAX_TEXT_BYTES || (offer && (
            rich_source_too_large(rv) || byte_len(rich_document(rv)) > MAX_TEXT_BYTES));
            match r {
                Ok((plain, rich)) => !too_large && plain@ == plain_join(rv, rv.len() as int) && (
                offer ==> (rich matches Some(h) && h@ == rich_document(rv))),
                Err(_) => too_large,
            }
        }),
{
    let ghost rv = records_view(recs@);
    let n = recs.len();
    if n == 1 {
        let t = plain_chars(&recs[0].payload);
        let tb = byte_count(&t);
        if tb > MAX_TEXT_BYTES as u128 {
            return Err(());
        }
        if !offer {
            return Ok((t, None));
        }
        match &recs[0].payload {
            ClipboardPayload::RichText { html, .. } => {
                let h = chars_of(html.as_str());
                let hb = byte_count(&h);
                if hb > MAX_TEXT_BYTES as u128 {
                    return Err(());
                }
                proof {
                    assert forall|i: int| 0 <= i < rv.len() && ((#[trigger] rv[i]).payload matches PayloadView::RichText { html, .. } && byte_len(html) > MAX_TEXT_BYTES) implies false by {
                        assert(i == 0);
                    }
                }
                return Ok((t, Some(h)));
            },
            ClipboardPayload::Text(text) => {
                let piece = pre_block(text);
                let kb = byte_count(&piece);
                if kb > MAX_TEXT_BYTES as u128 {
                    return Err(());
                }
                return Ok((t, Some(piece)));
            },
            _ => {
                assert(is_text_payload(rv[0].payload));
                return Err(());
            },
        }
    }
    let mut plain: Vec<char> = Vec::new();
    let mut pb: u128 = 0;
    let mut rich: Vec<char> = Vec::new();
    let mut rb: u128 = 0;
    if offer {
        rich = chars_of("<html><body><!--StartFragment-->");
        rb = byte_count(&rich);
        if rb > MAX_TEXT_BYTES as u128 {
            proof {
                lemma_byte_len_concat(document_open(), rich_join(rv, rv.len() as int));
                lemma_byte_len_concat(document_open() + rich_join(rv, rv.len() as int), document_close());
            }
            return Err(());
        }
    }
    proof {
        assert(document_open() + rich_join(rv, 0) =~= document_open());
    }
    let mut i: usize = 0;
    while i < n
        invariant
            n == recs@.len(),
            n != 1,
            rv == records_view(recs@),
            forall|k: int| 0 <= k < n ==> is_text_payload(#[trigger] rv[k].payload),
            0 <= i <= n,
            plain@ == plain_join(rv, i as int),
            pb == byte_len(plain@),
            pb <= MAX_TEXT_BYTES,
            offer ==> rich@ == document_open() + rich_join(rv, i as int),
            offer ==> rb == byte_len(rich@) && rb <= MAX_TEXT_BYTES,
            offer ==> forall|k: int|
                0 <= k < i ==> !((#[trigger] rv[k]).payload matches PayloadView::RichText {
                    html,
                    ..
                } && byte_len(html) > MAX_TEXT_BYTES),
        decreases n - i,
    {
        let t = plain_chars(&recs[i].payload);
        let tb = byte_count(&t);
        let sep: u128 = if i > 0 {
            2
        } else {
            0
        };
        let ghost next_plain = plain_join(rv, i + 1);
        proof {
            if i > 0 {
                assert(next_plain == plain@ + paragraph_break() + t@);
                lemma_ascii_bytes(paragraph_break());
                lemma_byte_len_concat(plain@, paragraph_break());
                lemma_byte_len_concat(plain@ + paragraph_break(), t@);
            } else {
                assert(next_plain == t@);
            }
            assert(byte_len(next_plain) == pb + sep + tb);
        }
        if tb > MAX_TEXT_BYTES as u128 || pb + sep + tb > MAX_TEXT_BYTES as u128 {
            proof {
                lemma_plain_join_grows(rv, i + 1, n as int);
            }
            return Err(());
        }
        if i > 0 {
            plain.push('\n');
            plain.push('\n');
        }
        extend_chars(&mut plain, &t);
        assert(plain@ =~= next_plain);
        pb = pb + sep + tb;
        if offer {
            let ghost before = rich@;
            let piece = match &recs[i].payload {
                ClipboardPayload::Text(text) => pre_block(text),
                ClipboardPayload::RichText { html, .. } => {
                    let h = chars_of(html.as_str());
                    let hb = byte_count(&h);
                    if hb > MAX_TEXT_BYTES as u128 {
                        assert(rich_source_too_large(rv)) by {
                            assert(rv[i as int].payload matches PayloadView::RichText { html, .. } && byte_len(html) > MAX_TEXT_BYTES);
                        }
                        return Err(());
                    }
                    fragment_chars(&h)
                },
                _ => {
                    assert(is_text_payload(rv[i as int].payload));
                    Vec::new()
                },
            };
            assert(piece@ == rich_piece(rv[i as int].payload));
            let kb = byte_count(&piece);
            let sep2: u128 = if i > 0 {
                8
            } else {
                0
            };
            let ghost next_rich = document_open() + rich_join(rv, i + 1);
            proof {
                if i > 0 {
                    assert(rich_join(rv, i + 1) == rich_join(rv, i as int) + line_breaks() + piece@);
                    assert(next_rich =~= before + line_breaks() + piece@);
                    lemma_ascii_bytes(line_breaks());
                    lemma_byte_len_concat(before, line_breaks());
                    lemma_byte_len_concat(before + line_breaks(), piece@);
                } else {
                    assert(next_rich =~= before + piece@);
                    lemma_byte_len_concat(before, piece@);
                }
                assert(byte_len(next_rich) == rb + sep2 + kb);
            }
            if kb > MAX_TEXT_BYTES as u128 || rb + sep2 + kb > MAX_TEXT_BYTES as u128 {
                proof {
                    lemma_rich_join_grows(rv, i + 1, n as int);
                    lemma_byte_len_concat(document_open(), rich_join(rv, i + 1));
                    lemma_byte_len_concat(document_open(), rich_join(rv, n as int));
                    lemma_byte_len_concat(document_open() + rich_join(rv, n as int), document_close());
                }
                return Err(());
            }
            if i > 0 {
                extend_chars(&mut rich, &['<', 'b', 'r', '>', '<', 'b', 'r', '>']);
            }
            extend_chars(&mut rich, &piece);
            assert(rich@ =~= next_rich);
            rb = rb + sep2 + kb;
        }
        i = i + 1;
    }
    if !offer {
        return Ok((plain, None));
    }
    let close = chars_of("<!--EndFragment--></body></html>");
    let cb = byte_count(&close);
    proof {
        lemma_byte_len_concat(rich@, close@);
    }
    if cb > MAX_TEXT_BYTES as u128 || rb + cb > MAX_TEXT_BYTES as u128 {
        return Err(());
    }
    extend_chars(&mut rich, &close);
    Ok((plain, Some(rich)))
}


fn empty_file_list_error() -> (e: String)
    ensures
        e@ == empty_file_list_message(),
{
    String::from_str("clipboard file list is empty")
}

fn empty_image_error() -> (e: String)
    ensures
        e@ == empty_image_message(),
{
    String::from_str("clipboard image is empty")
}

fn too_many_files_error() -> (e: String)
    ensures
        e@ == too_many_files_message(),
{
    String::from_str("too many clipboard files; select at most 512 files")
}

fn invalid_selection_error() -> (e: String)
    ensures
        e@ == invalid_selection_message(),
{
    String::from_str("invalid clipboard text selection")
}

fn selection_changed_error() -> (e: String)
    ensures
        e@ == selection_changed_message(),
{
    String::from_str("clipboard text selection changed; select it again")
}

/// The drag payload of text records.
fn text_assembly(recs: &Vec<ClipboardExportRecord>, mode: ClipboardDragMode, selected: bool) -> (r:
    Result<Assembly, String>)
    requires
        forall|i: int|
            0 <= i < recs@.len() ==> is_text_payload(#[trigger] records_view(recs@)[i].payload),
    ensures
        match r {
            Ok(a) => assemble_text(records_view(recs@), mode, selected) == Ok::<
                AssemblyView,
                Seq<char>,
            >(assembly_view(a)),
            Err(e) => assemble_text(records_view(recs@), mode, selected) == Err::<
                AssemblyView,
                Seq<char>,
            >(e@),
        },
{
    let ghost rv = records_view(recs@);
    let offer = offers_html_exec(recs, mode, selected);
    let (plain, rich) = match text_outputs(recs, offer) {
        Err(_) => return Err(export_limit_error()),
        Ok(out) => out,
    };
    let text = string_from_chars(&plain);
    if let ClipboardDragMode::TextFile = mode {
        let bytes = slice_to_vec(text.as_str().as_bytes());
        let mut files: Vec<DragFile> = Vec::new();
        files.push(DragFile::Export);
        let mut exports: Vec<ExportFile> = Vec::new();
        exports.push(ExportFile { extension: "txt", bytes });
        let a = Assembly { files, exports, text: None, html: None, preview: None };
        assert(assembly_view(a).files =~= seq![DragFileView::Export]);
        assert(assembly_view(a).exports =~= seq![(txt_extension(), vstd::utf8::encode_utf8(plain@))]);
        return Ok(a);
    }
    let html = if offer {
        match rich {
            Some(h) => Some(string_from_chars(&h)),
            None => None,
        }
    } else {
        None
    };
    let a = Assembly { files: Vec::new(), exports: Vec::new(), text: Some(text), html, preview: None };
    assert(assembly_view(a).files =~= Seq::<DragFileView>::empty());
    assert(assembly_view(a).exports =~= Seq::<(Seq<char>, Seq<u8>)>::empty());
    Ok(a)
}

pub proof fn lemma_files_fold_error_stays(
    recs: Seq<RecordView>,
    checks: Seq<Result<Seq<Seq<char>>, Seq<char>>>,
    i: int,
    n: int,
    e: Seq<char>,
)
    requires
        0 <= i <= n,
        files_fold(recs, checks, i) == Err::<FilesAcc, Seq<char>>(e),
    ensures
        files_fold(recs, checks, n) == Err::<FilesAcc, Seq<char>>(e),
    decreases n,
{
    if i < n {
        lemma_files_fold_error_stays(recs, checks, i, n - 1, e);
    }
}

/// The drag payload of a mix of records: each becomes one or more files.
fn files_assembly(recs: &Vec<ClipboardExportRecord>, checked: &Vec<Result<Vec<String>, String>>) -> (r:
    Result<Assembly, String>)
    requires
        checked@.len() == recs@.len(),
    ensures
        ({
            let fold = files_fold(records_view(recs@), checks_view(checked@), recs@.len() as int);
            match r {
                Ok(a) => fold matches Ok(acc) && assembly_view(a) == (AssemblyView {
                    files: acc.files,
                    exports: acc.exports,
                    text: None,
                    html: None,
                    preview: None,
                }),
                Err(e) => fold == Err::<FilesAcc, Seq<char>>(e@),
            }
        }),
{
    let ghost rv = records_view(recs@);
    let ghost cv = checks_view(checked@);
    let n = recs.len();
    let mut files: Vec<DragFile> = Vec::new();
    let mut exports: Vec<ExportFile> = Vec::new();
    let mut seen: Vec<String> = Vec::new();
    proof {
        assert(files_view(files@) =~= Seq::<DragFileView>::empty());
        assert(exports_view(exports@) =~= Seq::<(Seq<char>, Seq<u8>)>::empty());
        assert(strings_view(seen@) =~= Seq::<Seq<char>>::empty());
    }
    let mut i: usize = 0;
    while i < n
        invariant
            n == recs@.len(),
            checked@.len() == n,
            rv == records_view(recs@),
            cv == checks_view(checked@),
            i <= n,
            files_fold(rv, cv, i as int) == Ok::<FilesAcc, Seq<char>>(
                FilesAcc {
                    files: files_view(files@),
                    exports: exports_view(exports@),
                    seen: strings_view(seen@),
                },
            ),
        decreases n - i,
    {
        let ghost acc = FilesAcc {
            files: files_view(files@),
            exports: exports_view(exports@),
            seen: strings_view(seen@),
        };
        match &recs[i].payload {
            ClipboardPayload::Files(paths) => {
                if paths.len() == 0 {
                    proof {
                        lemma_files_fold_error_stays(rv, cv, i + 1, n as int, empty_file_list_message());
                    }
                    return Err(empty_file_list_error());
                }
                if paths.len() > MAX_FILES {
                    proof {
                        lemma_files_fold_error_stays(rv, cv, i + 1, n as int, too_many_files_message());
                    }
                    return Err(too_many_files_error());
                }
                match &checked[i] {
                    Err(e) => {
                        proof {
                            lemma_files_fold_error_stays(rv, cv, i + 1, n as int, e@);
                        }
                        return Err(e.clone());
                    },
                    Ok(list) => {
                        let ghost lv = strings_view(list@);
                        assert(cv[i as int] == Ok::<Seq<Seq<char>>, Seq<char>>(lv));
                        let mut j: usize = 0;
                        assert(lv.take(0) =~= Seq::<Seq<char>>::empty());
                        while j < list.len()
                            invariant
                                j <= list@.len(),
                                lv == strings_view(list@),
                                add_existing(acc, lv.take(j as int)) == (FilesAcc {
                                    files: files_view(files@),
                                    exports: exports_view(exports@),
                                    seen: strings_view(seen@),
                                }),
                            decreases list@.len() - j,
                        {
                            let p = &list[j];
                            assert(lv.take(j + 1).drop_last() =~= lv.take(j as int));
                            assert(lv.take(j + 1).last() == p@);
                            if !contains_string(&seen, p) {
                                let ghost fv = files_view(files@);
                                let ghost sv = strings_view(seen@);
                                files.push(DragFile::Existing(p.clone()));
                                seen.push(p.clone());
                                assert(files_view(files@) =~= fv.push(DragFileView::Existing(p@)));
                                assert(strings_view(seen@) =~= sv.push(p@));
                            }
                            j = j + 1;
                        }
                        assert(lv.take(list@.len() as int) =~= lv);
                    },
                }
            },
            ClipboardPayload::Image { png, .. } => {
                if png.len() == 0 {
                    proof {
                        lemma_files_fold_error_stays(rv, cv, i + 1, n as int, empty_image_message());
                    }
                    return Err(empty_image_error());
                }
                let ghost fv = files_view(files@);
                let ghost ev = exports_view(exports@);
                files.push(DragFile::Export);
                exports.push(ExportFile { extension: "png", bytes: slice_to_vec(png.as_slice()) });
                assert(files_view(files@) =~= fv.push(DragFileView::Export));
                assert(exports_view(exports@) =~= ev.push((png_extension(), png@)));
            },
            ClipboardPayload::Text(text) | ClipboardPayload::RichText { plain_text: text, .. } => {
                let t = chars_of(text.as_str());
                let tb = byte_count(&t);
                if tb > MAX_TEXT_BYTES as u128 {
                    proof {
                        lemma_files_fold_error_stays(rv, cv, i + 1, n as int, export_limit_message());
                    }
                    return Err(export_limit_error());
                }
                let ghost fv = files_view(files@);
                let ghost ev = exports_view(exports@);
                files.push(DragFile::Export);
                exports.push(
                    ExportFile { extension: "txt", bytes: slice_to_vec(text.as_str().as_bytes()) },
                );
                assert(files_view(files@) =~= fv.push(DragFileView::Export));
                assert(exports_view(exports@) =~= ev.push(
                    (txt_extension(), vstd::utf8::encode_utf8(text@)),
                ));
            },
        }
        if files.len() > MAX_FILES {
            proof {
                lemma_files_fold_error_stays(rv, cv, i + 1, n as int, too_many_files_message());
            }
            return Err(too_many_files_error());
        }
        i = i + 1;
    }
    let a = Assembly { files, exports, text: None, html: None, preview: None };
    Ok(a)
}

/// The drag payload of `records`, or why they cannot be dragged.
/// `checked_files[i]` is what checking the paths of record `i` against the
/// file system gave (its accessible absolute paths, or why it failed); it is
/// read only for records that hold a file list.
pub fn assemble(
    records: Vec<ClipboardExportRecord>,
    mode: ClipboardDragMode,
    selection: Option<ClipboardDragSelection>,
    checked_files: Vec<Result<Vec<String>, String>>,
) -> (r: Result<Assembly, String>)
    requires
        checked_files@.len() == records@.len(),
    ensures
        ({
            let expected = assemble_spec(
                records_view(records@),
                mode,
                selection_view(selection),
                checks_view(checked_files@),
            );
            match r {
                Ok(a) => expected == Ok::<AssemblyView, Seq<char>>(assembly_view(a)),
                Err(e) => expected == Err::<AssemblyView, Seq<char>>(e@),
            }
        }),
{
    let ghost rv0 = records_view(records@);
    let ghost sv = selection_view(selection);
    let selected = selection.is_some();
    let mut records = records;
    match selection {
        None => {},
        Some(sel) => {
            let sc = chars_of(sel.text.as_str());
            let sb = byte_count(&sc);
            if records.len() != 1 || records[0].id != sel.id || sc.len() == 0 || sb
                > MAX_TEXT_BYTES as u128 {
                return Err(invalid_selection_error());
            }
            if !is_text_record(&records[0]) {
                return Err(selection_changed_error());
            }
            let ghost tv = sel.text@;
            let r0 = ClipboardExportRecord {
                id: records[0].id,
                content_hash: records[0].content_hash.clone(),
                sensitive: records[0].sensitive,
                payload: ClipboardPayload::Text(sel.text),
            };
            records = Vec::new();
            records.push(r0);
            assert(records_view(records@) =~= seq![
                RecordView { payload: PayloadView::Text(tv), ..rv0[0] },
            ]);
        },
    }
    let ghost rv = records_view(records@);
    assert(apply_selection(rv0, sv) == Ok::<Seq<RecordView>, Seq<char>>(rv));
    let preview = if records.len() == 1 && !records[0].sensitive {
        match &records[0].payload {
            ClipboardPayload::Image { png, .. } => png_thumbnail(
                png.as_slice(),
                MAX_PREVIEW_SIDE,
                MAX_PREVIEW_ALLOC,
                PREVIEW_SIZE,
            ),
            _ => None,
        }
    } else {
        None
    };
    if all_text(&records) {
        match text_assembly(&records, mode, selected) {
            Ok(a) => Ok(Assembly { preview, ..a }),
            Err(e) => Err(e),
        }
    } else {
        match files_assembly(&records, &checked_files) {
            Ok(a) => Ok(Assembly { preview, ..a }),
            Err(e) => Err(e),
        }
    }
}

} // verus!
