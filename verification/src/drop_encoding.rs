//! Byte formats of a drag offered to Windows: `CF_HDROP` file lists,
//! `CF_UNICODETEXT` text and the `HTML Format` clipboard format.

use vstd::prelude::*;
use vstd::slice::slice_to_vec;
use vstd::string::StringExecFns;
use crate::drag_html::{find_char, find_char_exec, lemma_find_char, matches_at};
use crate::text::{digit_char, byte_len, chars_of, extend_chars, extend_range, lemma_byte_len_concat, lemma_byte_len_encode, lemma_byte_len_push, lemma_encode_concat, lower_char, lower_seq, range_byte_len, string_from_chars};
use vstd::utf8::encode_utf8;

verus! {

/// Size of the `DROPFILES` header that precedes a `CF_HDROP` path list.
pub const DROPFILES_SIZE: usize = 20;

/// Marker before the selected part of an HTML document.
pub const START_FRAGMENT: &'static str = "<!--StartFragment-->";

/// Marker after the selected part of an HTML document.
pub const END_FRAGMENT: &'static str = "<!--EndFragment-->";

// ---------------------------------------------------------------------------
// Searching

/// First index `>= from` where `pat` occurs in `src`.
pub open spec fn find_seq(src: Seq<char>, from: int, pat: Seq<char>) -> Option<int>
    decreases src.len() - from,
{
    if from < 0 || from + pat.len() > src.len() {
        None
    } else if matches_at(src, from, pat) {
        Some(from)
    } else if from >= src.len() {
        None
    } else {
        find_seq(src, from + 1, pat)
    }
}

/// Last index `<= upto` where `pat` occurs in `src`.
pub open spec fn rfind_seq(src: Seq<char>, upto: int, pat: Seq<char>) -> Option<int>
    decreases upto,
{
    if upto < 0 {
        None
    } else if matches_at(src, upto, pat) {
        Some(upto)
    } else if upto == 0 {
        None
    } else {
        rfind_seq(src, upto - 1, pat)
    }
}

pub(crate) fn matches_at_exec(src: &[char], i: usize, pat: &[char]) -> (b: bool)
    ensures
        b == matches_at(src@, i as int, pat@),
{
    let n = src.len();
    if pat.len() > n || i > n - pat.len() {
        return false;
    }
    let mut k: usize = 0;
    while k < pat.len()
        invariant
            n == src@.len(),
            k <= pat@.len(),
            i + pat@.len() <= src@.len(),
            forall|j: int| 0 <= j < k ==> src@[i + j] == pat@[j],
        decreases pat@.len() - k,
    {
        if src[i + k] != pat[k] {
            assert(src@.subrange(i as int, i + pat@.len())[k as int] != pat@[k as int]);
            return false;
        }
        k = k + 1;
    }
    assert(src@.subrange(i as int, i + pat@.len()) =~= pat@);
    true
}

pub(crate) fn find_seq_exec(src: &[char], from: usize, pat: &[char]) -> (r: Option<usize>)
    ensures
        match r {
            Some(i) => find_seq(src@, from as int, pat@) == Some(i as int),
            None => find_seq(src@, from as int, pat@) is None,
        },
{
    if pat.len() > src.len() {
        return None;
    }
    let last = src.len() - pat.len();
    let mut i = from;
    while i <= last
        invariant
            from <= i,
            last == src@.len() - pat@.len(),
            find_seq(src@, from as int, pat@) == find_seq(src@, i as int, pat@),
        decreases last + 1 - i,
    {
        if matches_at_exec(src, i, pat) {
            return Some(i);
        }
        if i == last {
            assert(find_seq(src@, i + 1, pat@) is None);
            return None;
        }
        i = i + 1;
    }
    None
}

fn rfind_seq_exec(src: &[char], pat: &[char]) -> (r: Option<usize>)
    ensures
        match r {
            Some(i) => rfind_seq(src@, src@.len() - pat@.len(), pat@) == Some(i as int),
            None => rfind_seq(src@, src@.len() - pat@.len(), pat@) is None,
        },
{
    if pat.len() > src.len() {
        return None;
    }
    let mut i = src.len() - pat.len();
    loop
        invariant
            i <= src@.len() - pat@.len(),
            rfind_seq(src@, src@.len() - pat@.len(), pat@) == rfind_seq(src@, i as int, pat@),
        decreases i,
    {
        if matches_at_exec(src, i, pat) {
            return Some(i);
        }
        if i == 0 {
            assert(rfind_seq(src@, -1, pat@) is None);
            return None;
        }
        i = i - 1;
    }
}

// ---------------------------------------------------------------------------
// Little-endian layout

pub open spec fn le16(u: u16) -> Seq<u8> {
    seq![(u % 256) as u8, (u / 256) as u8]
}

/// The UTF-16 code units, each as two little-endian bytes.
pub open spec fn units_le(units: Seq<u16>) -> Seq<u8>
    decreases units.len(),
{
    if units.len() == 0 {
        Seq::empty()
    } else {
        units_le(units.drop_last()) + le16(units.last())
    }
}

fn push_units_le(out: &mut Vec<u8>, units: &[u16])
    ensures
        final(out)@ == old(out)@ + units_le(units@),
{
    let mut i: usize = 0;
    while i < units.len()
        invariant
            i <= units@.len(),
            out@ == old(out)@ + units_le(units@.take(i as int)),
        decreases units@.len() - i,
    {
        let u = units[i];
        out.push((u % 256) as u8);
        out.push((u / 256) as u8);
        assert(units@.take(i + 1).drop_last() =~= units@.take(i as int));
        i = i + 1;
        assert(out@ =~= old(out)@ + units_le(units@.take(i as int)));
    }
    assert(units@.take(units@.len() as int) =~= units@);
}

// ---------------------------------------------------------------------------
// CF_HDROP

pub open spec fn invalid_path_message() -> Seq<char> {
    "The file drag contains an invalid path"@
}

/// `DROPFILES { pFiles: 20, pt: (0, 0), fNC: false, fWide: true }`.
pub open spec fn dropfiles_header() -> Seq<u8> {
    seq![20u8, 0, 0, 0, 0, 0, 0, 0, 0, 0, 0, 0, 0, 0, 0, 0, 1, 0, 0, 0]
}

/// Each path followed by a NUL unit, all in little-endian bytes.
pub open spec fn path_list(paths: Seq<Seq<u16>>) -> Seq<u8>
    decreases paths.len(),
{
    if paths.len() == 0 {
        Seq::empty()
    } else {
        path_list(paths.drop_last()) + units_le(paths.last().push(0u16))
    }
}

pub open spec fn units_views(paths: Seq<Vec<u16>>) -> Seq<Seq<u16>> {
    paths.map_values(|p: Vec<u16>| p@)
}

pub open spec fn valid_paths(paths: Seq<Seq<u16>>) -> bool {
    paths.len() > 0 && forall|i: int|
        0 <= i < paths.len() ==> (#[trigger] paths[i]).len() > 0 && !paths[i].contains(0u16)
}

/// A `CF_HDROP` block: the header, the NUL-terminated wide paths and a final
/// NUL unit; refused for an empty list or an empty path or one with a NUL.
pub open spec fn file_drop_spec(paths: Seq<Seq<u16>>) -> Result<Seq<u8>, Seq<char>> {
    if valid_paths(paths) {
        Ok(dropfiles_header() + path_list(paths) + seq![0u8, 0u8])
    } else {
        Err(invalid_path_message())
    }
}

fn has_nul_unit(p: &Vec<u16>) -> (b: bool)
    ensures
        b == p@.contains(0u16),
{
    let mut i: usize = 0;
    while i < p.len()
        invariant
            i <= p@.len(),
            forall|j: int| 0 <= j < i ==> p@[j] != 0u16,
        decreases p@.len() - i,
    {
        if p[i] == 0 {
            assert(p@[i as int] == 0u16);
            return true;
        }
        i = i + 1;
    }
    false
}

/// The `CF_HDROP` bytes of wide `paths`.
pub fn file_drop(paths: &[Vec<u16>]) -> (r: Result<Vec<u8>, String>)
    ensures
        match r {
            Ok(b) => file_drop_spec(units_views(paths@)) == Ok::<Seq<u8>, Seq<char>>(b@),
            Err(e) => file_drop_spec(units_views(paths@)) == Err::<Seq<u8>, Seq<char>>(e@),
        },
{
    let ghost pv = units_views(paths@);
    if paths.len() == 0 {
        return Err(String::from_str("The file drag contains an invalid path"));
    }
    let mut i: usize = 0;
    while i < paths.len()
        invariant
            i <= paths@.len(),
            pv == units_views(paths@),
            forall|j: int| 0 <= j < i ==> (#[trigger] pv[j]).len() > 0 && !pv[j].contains(0u16),
        decreases paths@.len() - i,
    {
        if paths[i].len() == 0 || has_nul_unit(&paths[i]) {
            assert(!valid_paths(pv)) by {
                assert(pv[i as int] == paths@[i as int]@);
            }
            return Err(String::from_str("The file drag contains an invalid path"));
        }
        i = i + 1;
    }
    let mut bytes: Vec<u8> = Vec::new();
    bytes.push(20);
    let mut k: usize = 0;
    while k < 15
        invariant
            k <= 15,
            bytes@.len() == k + 1,
            bytes@ =~= dropfiles_header().take(k + 1),
        decreases 15 - k,
    {
        bytes.push(0);
        k = k + 1;
    }
    bytes.push(1);
    bytes.push(0);
    bytes.push(0);
    bytes.push(0);
    assert(bytes@ =~= dropfiles_header());
    let mut j: usize = 0;
    while j < paths.len()
        invariant
            j <= paths@.len(),
            pv == units_views(paths@),
            bytes@ == dropfiles_header() + path_list(pv.take(j as int)),
        decreases paths@.len() - j,
    {
        let mut units = slice_to_vec(paths[j].as_slice());
        units.push(0);
        let ghost before = bytes@;
        push_units_le(&mut bytes, &units);
        assert(pv.take(j + 1).drop_last() =~= pv.take(j as int));
        assert(units@ == pv[j as int].push(0u16));
        j = j + 1;
        assert(bytes@ =~= dropfiles_header() + path_list(pv.take(j as int)));
    }
    assert(pv.take(paths@.len() as int) =~= pv);
    let ghost body = bytes@;
    bytes.push(0);
    bytes.push(0);
    assert(bytes@ =~= body + seq![0u8, 0u8]);
    assert(valid_paths(pv)) by {
        assert(pv.len() == paths@.len());
    }
    Ok(bytes)
}


pub proof fn lemma_find_seq(src: Seq<char>, from: int, pat: Seq<char>, i: int)
    requires
        find_seq(src, from, pat) == Some(i),
    ensures
        from <= i,
        matches_at(src, i, pat),
    decreases src.len() - from,
{
    if !matches_at(src, from, pat) {
        lemma_find_seq(src, from + 1, pat, i);
    }
}

pub proof fn lemma_rfind_seq(src: Seq<char>, upto: int, pat: Seq<char>, i: int)
    requires
        rfind_seq(src, upto, pat) == Some(i),
    ensures
        i <= upto,
        matches_at(src, i, pat),
    decreases upto,
{
    if !matches_at(src, upto, pat) {
        lemma_rfind_seq(src, upto - 1, pat, i);
    }
}

// ---------------------------------------------------------------------------
// CF_UNICODETEXT

pub open spec fn text_nul_message() -> Seq<char> {
    "Text containing a NUL character must be exported as a file"@
}

/// Every line break (a CR LF pair, a lone CR or a lone LF) written as CR LF.
pub open spec fn crlf(s: Seq<char>) -> Seq<char>
    decreases s.len(),
{
    if s.len() == 0 {
        Seq::empty()
    } else if s[0] == '\r' && s.len() > 1 && s[1] == '\n' {
        seq!['\r', '\n'] + crlf(s.skip(2))
    } else if s[0] == '\r' || s[0] == '\n' {
        seq!['\r', '\n'] + crlf(s.skip(1))
    } else {
        seq![s[0]] + crlf(s.skip(1))
    }
}

/// UTF-16 code units of one character.
pub open spec fn utf16_char(c: char) -> Seq<u16> {
    let v = c as u32;
    if v < 0x10000 {
        seq![v as u16]
    } else {
        seq![(0xD800 + (v - 0x10000) / 0x400) as u16, (0xDC00 + (v - 0x10000) % 0x400) as u16]
    }
}

pub open spec fn utf16(s: Seq<char>) -> Seq<u16>
    decreases s.len(),
{
    if s.len() == 0 {
        Seq::empty()
    } else {
        utf16(s.drop_last()) + utf16_char(s.last())
    }
}

/// `CF_UNICODETEXT`: CR LF line breaks, UTF-16LE and one NUL terminator.
pub open spec fn text_spec(s: Seq<char>) -> Result<Seq<u8>, Seq<char>> {
    if s.contains('\0') {
        Err(text_nul_message())
    } else {
        Ok(units_le(utf16(crlf(s)).push(0u16)))
    }
}

fn contains_nul(s: &[char]) -> (b: bool)
    ensures
        b == s@.contains('\0'),
{
    let mut i: usize = 0;
    while i < s.len()
        invariant
            i <= s@.len(),
            forall|j: int| 0 <= j < i ==> s@[j] != '\0',
        decreases s@.len() - i,
    {
        if s[i] == '\0' {
            assert(s@[i as int] == '\0');
            return true;
        }
        i = i + 1;
    }
    false
}

fn crlf_exec(s: &[char]) -> (out: Vec<char>)
    ensures
        out@ == crlf(s@),
{
    let mut out: Vec<char> = Vec::new();
    let mut i: usize = 0;
    assert(s@.skip(0) =~= s@);
    while i < s.len()
        invariant
            i <= s@.len(),
            out@ + crlf(s@.skip(i as int)) == crlf(s@),
        decreases s@.len() - i,
    {
        let ghost rest = s@.skip(i as int);
        let ghost before = out@;
        if s[i] == '\r' && i + 1 < s.len() && s[i + 1] == '\n' {
            out.push('\r');
            out.push('\n');
            assert(rest.skip(2) =~= s@.skip(i + 2));
            assert(crlf(rest) == seq!['\r', '\n'] + crlf(rest.skip(2)));
            assert(out@ + crlf(s@.skip(i + 2)) =~= before + crlf(rest));
            i = i + 2;
        } else if s[i] == '\r' || s[i] == '\n' {
            out.push('\r');
            out.push('\n');
            assert(rest.skip(1) =~= s@.skip(i + 1));
            assert(crlf(rest) == seq!['\r', '\n'] + crlf(rest.skip(1)));
            assert(out@ + crlf(s@.skip(i + 1)) =~= before + crlf(rest));
            i = i + 1;
        } else {
            out.push(s[i]);
            assert(rest.skip(1) =~= s@.skip(i + 1));
            assert(crlf(rest) == seq![rest[0]] + crlf(rest.skip(1)));
            assert(out@ + crlf(s@.skip(i + 1)) =~= before + crlf(rest));
            i = i + 1;
        }
    }
    assert(s@.skip(i as int) =~= Seq::<char>::empty());
    assert(out@ =~= out@ + crlf(s@.skip(i as int)));
    out
}

fn utf16_exec(s: &[char]) -> (u: Vec<u16>)
    ensures
        u@ == utf16(s@),
{
    let mut u: Vec<u16> = Vec::new();
    let mut i: usize = 0;
    while i < s.len()
        invariant
            i <= s@.len(),
            u@ == utf16(s@.take(i as int)),
        decreases s@.len() - i,
    {
        let c = s[i];
        let v = c as u32;
        let ghost before = u@;
        proof {
            vstd::utf8::char_is_scalar(c);
        }
        if v < 0x10000 {
            u.push(v as u16);
        } else {
            let w = v - 0x10000;
            u.push((0xD800 + w / 0x400) as u16);
            u.push((0xDC00 + w % 0x400) as u16);
        }
        assert(s@.take(i + 1).drop_last() =~= s@.take(i as int));
        assert(u@ =~= before + utf16_char(c));
        i = i + 1;
    }
    assert(s@.take(s@.len() as int) =~= s@);
    u
}

/// The `CF_UNICODETEXT` bytes of `text`.
pub fn text(value: &str) -> (r: Result<Vec<u8>, String>)
    ensures
        match r {
            Ok(b) => text_spec(value@) == Ok::<Seq<u8>, Seq<char>>(b@),
            Err(e) => text_spec(value@) == Err::<Seq<u8>, Seq<char>>(e@),
        },
{
    let s = chars_of(value);
    if contains_nul(&s) {
        return Err(String::from_str("Text containing a NUL character must be exported as a file"));
    }
    let normalized = crlf_exec(&s);
    let mut units = utf16_exec(&normalized);
    units.push(0);
    let mut bytes: Vec<u8> = Vec::new();
    push_units_le(&mut bytes, &units);
    assert(bytes@ =~= units_le(units@));
    Ok(bytes)
}

// ---------------------------------------------------------------------------
// HTML Format

pub open spec fn html_nul_message() -> Seq<char> {
    "HTML containing a NUL character must be exported as a file"@
}

pub open spec fn html_too_large_message() -> Seq<char> {
    "HTML drag data is too large"@
}

pub open spec fn start_marker() -> Seq<char> {
    "<!--StartFragment-->"@
}

pub open spec fn end_marker() -> Seq<char> {
    "<!--EndFragment-->"@
}

pub open spec fn body_open_tag() -> Seq<char> {
    "<body"@
}

pub open spec fn body_close_tag() -> Seq<char> {
    "</body>"@
}

pub open spec fn wrap_prefix() -> Seq<char> {
    "<html><body><!--StartFragment-->"@
}

pub open spec fn wrap_suffix() -> Seq<char> {
    "<!--EndFragment--></body></html>"@
}

pub open spec fn is_ascii_ws(c: char) -> bool {
    c == ' ' || c == '\t' || c == '\n' || c == '\x0C' || c == '\r'
}

/// `h` as a complete fragment of a new document.
pub open spec fn wrapped_context(h: Seq<char>) -> (Seq<char>, int, int) {
    (wrap_prefix() + h + wrap_suffix(), wrap_prefix().len() as int, (wrap_prefix().len() + h.len()) as int)
}

/// A document whose `<body>` content becomes the fragment.
pub open spec fn body_context(h: Seq<char>) -> (Seq<char>, int, int) {
    let lw = lower_seq(h);
    let b = find_seq(lw, 0, body_open_tag());
    if b is Some && b->0 + body_open_tag().len() < lw.len() && (lw[b->0 + body_open_tag().len()]
        == '>' || is_ascii_ws(lw[b->0 + body_open_tag().len()])) {
        let g = find_char(lw, b->0, '>');
        if g is Some {
            let open = g->0 + 1;
            let c = rfind_seq(lw, lw.len() - body_close_tag().len(), body_close_tag());
            if c is Some && c->0 >= open {
                let close = c->0;
                (
                    h.take(open) + start_marker() + h.subrange(open, close) + end_marker() + h.skip(
                        close,
                    ),
                    open + start_marker().len(),
                    open + start_marker().len() + close - open,
                )
            } else {
                wrapped_context(h)
            }
        } else {
            wrapped_context(h)
        }
    } else {
        wrapped_context(h)
    }
}

/// The document, and the character positions where its fragment starts and
/// ends: existing markers are kept; otherwise the `<body>` content, or the
/// whole input, is marked.
pub open spec fn html_context_spec(h: Seq<char>) -> (Seq<char>, int, int) {
    let a = find_seq(h, 0, start_marker());
    if a is Some && find_seq(h, a->0 + start_marker().len(), end_marker()) is Some {
        (
            h,
            a->0 + start_marker().len(),
            find_seq(h, a->0 + start_marker().len(), end_marker())->0,
        )
    } else {
        body_context(h)
    }
}

/// The last `w` decimal digits of `n`, zero-padded.
pub open spec fn padded_digits(n: nat, w: nat) -> Seq<char>
    decreases w,
{
    if w == 0 {
        Seq::empty()
    } else {
        padded_digits(n / 10, (w - 1) as nat).push(digit_char(n % 10))
    }
}

/// The `HTML Format` description header with the four byte offsets.
pub open spec fn cf_html_header(a: nat, b: nat, c: nat, d: nat) -> Seq<char> {
    "Version:1.0\r\nStartHTML:"@ + padded_digits(a, 10) + "\r\nEndHTML:"@ + padded_digits(b, 10)
        + "\r\nStartFragment:"@ + padded_digits(c, 10) + "\r\nEndFragment:"@ + padded_digits(d, 10)
        + "\r\n"@
}

/// `HTML Format`: the header, the UTF-8 document and a NUL byte. The offsets
/// count bytes from the start of the header.
pub open spec fn html_spec(h: Seq<char>) -> Result<Seq<u8>, Seq<char>> {
    if h.contains('\0') {
        Err(html_nul_message())
    } else {
        let ctx = html_context_spec(h);
        let header_len = byte_len(cf_html_header(0, 0, 0, 0));
        let total = header_len + byte_len(ctx.0);
        if total >= 10_000_000_000 {
            Err(html_too_large_message())
        } else {
            Ok(
                vstd::utf8::encode_utf8(
                    cf_html_header(
                        header_len,
                        total,
                        header_len + byte_len(ctx.0.take(ctx.1)),
                        header_len + byte_len(ctx.0.take(ctx.2)),
                    ),
                ) + vstd::utf8::encode_utf8(ctx.0) + seq![0u8],
            )
        }
    }
}

fn push_padded(out: &mut Vec<char>, n: u64, w: usize)
    ensures
        final(out)@ == old(out)@ + padded_digits(n as nat, w as nat),
    decreases w,
{
    if w > 0 {
        push_padded(out, n / 10, w - 1);
        let d = (n % 10) as u8;
        out.push((d + 48) as char);
        assert(padded_digits(n as nat, w as nat) == padded_digits((n / 10) as nat, (w - 1) as nat).push(digit_char((n % 10) as nat)));
    } else {
        assert(old(out)@ + padded_digits(n as nat, 0) =~= old(out)@);
    }
}

fn header_chars(a: u64, b: u64, c: u64, d: u64) -> (v: Vec<char>)
    ensures
        v@ == cf_html_header(a as nat, b as nat, c as nat, d as nat),
{
    let mut v = chars_of("Version:1.0\r\nStartHTML:");
    push_padded(&mut v, a, 10);
    extend_chars(&mut v, &chars_of("\r\nEndHTML:"));
    push_padded(&mut v, b, 10);
    extend_chars(&mut v, &chars_of("\r\nStartFragment:"));
    push_padded(&mut v, c, 10);
    extend_chars(&mut v, &chars_of("\r\nEndFragment:"));
    push_padded(&mut v, d, 10);
    extend_chars(&mut v, &chars_of("\r\n"));
    v
}

fn lowered(h: &[char]) -> (v: Vec<char>)
    ensures
        v@ == lower_seq(h@),
{
    let mut v: Vec<char> = Vec::new();
    let mut i: usize = 0;
    while i < h.len()
        invariant
            i <= h@.len(),
            v@ == lower_seq(h@).take(i as int),
        decreases h@.len() - i,
    {
        v.push(lower_char(h[i]));
        i = i + 1;
        assert(v@ =~= lower_seq(h@).take(i as int));
    }
    assert(lower_seq(h@).take(h@.len() as int) =~= lower_seq(h@));
    v
}

fn wrapped_exec(h: &[char]) -> (r: (Vec<char>, usize, usize))
    ensures
        r.0@ == wrapped_context(h@).0,
        r.1 == wrapped_context(h@).1,
        r.2 == wrapped_context(h@).2,
{
    let mut ctx = chars_of("<html><body><!--StartFragment-->");
    let start = ctx.len();
    extend_chars(&mut ctx, h);
    let end = ctx.len();
    extend_chars(&mut ctx, &chars_of("<!--EndFragment--></body></html>"));
    (ctx, start, end)
}

fn body_context_exec(h: &[char]) -> (r: (Vec<char>, usize, usize))
    ensures
        r.0@ == body_context(h@).0,
        r.1 == body_context(h@).1,
        r.2 == body_context(h@).2,
{
    let lw = lowered(h);
    let bt = chars_of("<body");
    let b = match find_seq_exec(&lw, 0, &bt) {
        Some(b) => b,
        None => return wrapped_exec(h),
    };
    proof {
        lemma_find_seq(lw@, 0, bt@, b as int);
    }
    let n = lw.len();
    if b + bt.len() >= n {
        return wrapped_exec(h);
    }
    let next = lw[b + bt.len()];
    if !(next == '>' || next == ' ' || next == '\t' || next == '\n' || next == '\x0C' || next
        == '\r') {
        return wrapped_exec(h);
    }
    let g = match find_char_exec(&lw, b, '>') {
        Some(g) => g,
        None => return wrapped_exec(h),
    };
    proof {
        lemma_find_char(lw@, b as int, '>');
    }
    let open = g + 1;
    let ct = chars_of("</body>");
    let close = match rfind_seq_exec(&lw, &ct) {
        Some(c) => c,
        None => return wrapped_exec(h),
    };
    proof {
        lemma_rfind_seq(lw@, lw@.len() - ct@.len(), ct@, close as int);
    }
    if close < open {
        return wrapped_exec(h);
    }
    let sm = chars_of("<!--StartFragment-->");
    let mut ctx: Vec<char> = Vec::new();
    extend_range(&mut ctx, h, 0, open);
    extend_chars(&mut ctx, &sm);
    extend_range(&mut ctx, h, open, close);
    extend_chars(&mut ctx, &chars_of("<!--EndFragment-->"));
    extend_range(&mut ctx, h, close, h.len());
    assert(h@.subrange(0, open as int) =~= h@.take(open as int));
    assert(h@.subrange(close as int, h@.len() as int) =~= h@.skip(close as int));
    let total = ctx.len();
    assert(total == open + sm@.len() + (close - open) + end_marker().len() + (h@.len() - close));
    (ctx, open + sm.len(), open + sm.len() + (close - open))
}

fn html_context(h: &[char]) -> (r: (Vec<char>, usize, usize))
    ensures
        r.0@ == html_context_spec(h@).0,
        r.1 == html_context_spec(h@).1,
        r.2 == html_context_spec(h@).2,
{
    let sm = chars_of("<!--StartFragment-->");
    let em = chars_of("<!--EndFragment-->");
    let n = h.len();
    if let Some(a) = find_seq_exec(h, 0, &sm) {
        proof {
            lemma_find_seq(h@, 0, sm@, a as int);
        }
        if let Some(e) = find_seq_exec(h, a + sm.len(), &em) {
            return (slice_to_vec(h), a + sm.len(), e);
        }
    }
    body_context_exec(h)
}

proof fn lemma_context_bounds(h: Seq<char>)
    ensures
        0 <= html_context_spec(h).1 <= html_context_spec(h).2 <= html_context_spec(h).0.len(),
{
    let a = find_seq(h, 0, start_marker());
    if a is Some {
        lemma_find_seq(h, 0, start_marker(), a->0);
        let e = find_seq(h, a->0 + start_marker().len(), end_marker());
        if e is Some {
            lemma_find_seq(h, a->0 + start_marker().len(), end_marker(), e->0);
        }
    }
    let lw = lower_seq(h);
    let b = find_seq(lw, 0, body_open_tag());
    if b is Some {
        lemma_find_seq(lw, 0, body_open_tag(), b->0);
        lemma_find_char(lw, b->0, '>');
    }
    let c = rfind_seq(lw, lw.len() - body_close_tag().len(), body_close_tag());
    if c is Some {
        lemma_rfind_seq(lw, lw.len() - body_close_tag().len(), body_close_tag(), c->0);
    }
}

proof fn lemma_padded_digits(n: nat, w: nat)
    ensures
        byte_len(padded_digits(n, w)) == w,
    decreases w,
{
    if w > 0 {
        lemma_padded_digits(n / 10, (w - 1) as nat);
        lemma_byte_len_push(padded_digits(n / 10, (w - 1) as nat), digit_char(n % 10));
    }
}

proof fn lemma_header_len(a: nat, b: nat, c: nat, d: nat)
    ensures
        byte_len(cf_html_header(a, b, c, d)) == byte_len(cf_html_header(0, 0, 0, 0)),
{
    assert forall|a: nat, b: nat, c: nat, d: nat| #[trigger] byte_len(cf_html_header(a, b, c, d))
        == byte_len("Version:1.0\r\nStartHTML:"@) + byte_len("\r\nEndHTML:"@) + byte_len("\r\nStartFragment:"@)
        + byte_len("\r\nEndFragment:"@) + byte_len("\r\n"@) + 40 by {
        let p1 = "Version:1.0\r\nStartHTML:"@;
        let s1 = p1 + padded_digits(a, 10);
        let s2 = s1 + "\r\nEndHTML:"@;
        let s3 = s2 + padded_digits(b, 10);
        let s4 = s3 + "\r\nStartFragment:"@;
        let s5 = s4 + padded_digits(c, 10);
        let s6 = s5 + "\r\nEndFragment:"@;
        let s7 = s6 + padded_digits(d, 10);
        lemma_byte_len_concat(p1, padded_digits(a, 10));
        lemma_byte_len_concat(s1, "\r\nEndHTML:"@);
        lemma_byte_len_concat(s2, padded_digits(b, 10));
        lemma_byte_len_concat(s3, "\r\nStartFragment:"@);
        lemma_byte_len_concat(s4, padded_digits(c, 10));
        lemma_byte_len_concat(s5, "\r\nEndFragment:"@);
        lemma_byte_len_concat(s6, padded_digits(d, 10));
        lemma_byte_len_concat(s7, "\r\n"@);
        lemma_padded_digits(a, 10);
        lemma_padded_digits(b, 10);
        lemma_padded_digits(c, 10);
        lemma_padded_digits(d, 10);
    }
    assert(byte_len(cf_html_header(a, b, c, d)) == byte_len(cf_html_header(0, 0, 0, 0)));
}

/// The offsets in an `HTML Format` header say where things are: the header
/// itself is the UTF-8 text written with those offsets, the bytes from
/// StartHTML to EndHTML are the UTF-8 document, those from StartFragment to
/// EndFragment are the UTF-8 fragment of that document (what lies between
/// its fragment markers, or its body), and a NUL byte follows the document.
pub proof fn html_offsets_locate_the_fragment(h: Seq<char>)
    requires
        html_spec(h) is Ok,
    ensures
        exists|a: nat, b: nat, c: nat, d: nat| #![trigger cf_html_header(a, b, c, d)] {
            let out = html_spec(h)->Ok_0;
            let ctx = html_context_spec(h);
            &&& out.take(a as int) == encode_utf8(cf_html_header(a, b, c, d))
            &&& out.subrange(a as int, b as int) == encode_utf8(ctx.0)
            &&& out.subrange(c as int, d as int) == encode_utf8(ctx.0.subrange(ctx.1, ctx.2))
            &&& out.len() == b + 1
            &&& out[b as int] == 0u8
        },
{
    let ctx = html_context_spec(h);
    lemma_context_bounds(h);
    let doc = ctx.0;
    let header_len = byte_len(cf_html_header(0, 0, 0, 0));
    let a = header_len;
    let b = header_len + byte_len(doc);
    let c = header_len + byte_len(doc.take(ctx.1));
    let d = header_len + byte_len(doc.take(ctx.2));
    let header = cf_html_header(a, b, c, d);
    let out = html_spec(h)->Ok_0;
    assert(out == encode_utf8(header) + encode_utf8(doc) + seq![0u8]);
    lemma_header_len(a, b, c, d);
    lemma_byte_len_encode(header);
    lemma_byte_len_encode(doc);
    let first = doc.take(ctx.1);
    let middle = doc.subrange(ctx.1, ctx.2);
    let rest = doc.skip(ctx.2);
    assert(doc.take(ctx.2) =~= first + middle);
    assert(doc =~= first + middle + rest);
    lemma_encode_concat(first, middle);
    lemma_encode_concat(first + middle, rest);
    lemma_byte_len_encode(first);
    lemma_byte_len_encode(middle);
    lemma_byte_len_concat(first, middle);
    assert(out.take(a as int) =~= encode_utf8(header));
    assert(out.subrange(a as int, b as int) =~= encode_utf8(doc));
    assert(out.subrange(c as int, d as int) =~= encode_utf8(middle));
    assert(out[b as int] == 0u8);
}

/// The `HTML Format` bytes of `html`.
pub fn html(document: &str) -> (r: Result<Vec<u8>, String>)
    ensures
        match r {
            Ok(b) => html_spec(document@) == Ok::<Seq<u8>, Seq<char>>(b@),
            Err(e) => html_spec(document@) == Err::<Seq<u8>, Seq<char>>(e@),
        },
{
    let h = chars_of(document);
    if contains_nul(&h) {
        return Err(String::from_str("HTML containing a NUL character must be exported as a file"));
    }
    let (ctx, start, end) = html_context(&h);
    proof {
        lemma_context_bounds(h@);
    }
    let blank = header_chars(0, 0, 0, 0);
    let header_len = range_byte_len(&blank, 0, blank.len());
    let ctx_len = range_byte_len(&ctx, 0, ctx.len());
    let start_len = range_byte_len(&ctx, 0, start);
    let end_len = range_byte_len(&ctx, 0, end);
    proof {
        assert(blank@.subrange(0, blank@.len() as int) =~= blank@);
        assert(ctx@.subrange(0, ctx@.len() as int) =~= ctx@);
        assert(ctx@.subrange(0, start as int) =~= ctx@.take(start as int));
        assert(ctx@.subrange(0, end as int) =~= ctx@.take(end as int));
        assert(start_len <= ctx_len && end_len <= ctx_len) by {
            lemma_byte_len_concat(ctx@.take(start as int), ctx@.skip(start as int));
            lemma_byte_len_concat(ctx@.take(end as int), ctx@.skip(end as int));
            assert(ctx@.take(start as int) + ctx@.skip(start as int) =~= ctx@);
            assert(ctx@.take(end as int) + ctx@.skip(end as int) =~= ctx@);
        }
    }
    if ctx_len > 20_000_000_000 || header_len > 20_000_000_000 || header_len + ctx_len
        >= 10_000_000_000 {
        return Err(String::from_str("HTML drag data is too large"));
    }
    let total = header_len + ctx_len;
    let header = header_chars(
        header_len as u64,
        total as u64,
        (header_len + start_len) as u64,
        (header_len + end_len) as u64,
    );
    let header_text = string_from_chars(&header);
    let ctx_text = string_from_chars(&ctx);
    let mut bytes = slice_to_vec(header_text.as_str().as_bytes());
    let mut rest = slice_to_vec(ctx_text.as_str().as_bytes());
    bytes.append(&mut rest);
    bytes.push(0);
    proof {
        let c = html_context_spec(h@);
        let hl = byte_len(cf_html_header(0, 0, 0, 0));
        assert(header_len == hl);
        assert(ctx_len == byte_len(c.0));
        assert(start_len == byte_len(c.0.take(c.1)));
        assert(end_len == byte_len(c.0.take(c.2)));
        assert(header@ == cf_html_header(hl, hl + byte_len(c.0), hl + byte_len(c.0.take(c.1)), hl + byte_len(c.0.take(c.2))));
        assert(bytes@ =~= vstd::utf8::encode_utf8(header@) + vstd::utf8::encode_utf8(ctx@) + seq![0u8]);
    }
    Ok(bytes)
}

} // verus!
