//! Composition of captured HTML selections: the selected source and its
//! structural ancestors are kept, document shells (`html`, `head`, `body`)
//! and clipboard fragment markers are dropped.
//!
//! The scanner retains source characters; it neither sanitizes nor executes
//! HTML. Quoted attribute values and raw-text elements are not interpreted as
//! markup.

use vstd::prelude::*;
use crate::text::{ascii_lower, byte_len, chars_of, push_chars, range_byte_len, string_from_chars, eq_ignore_ascii_case, extend_range, is_ascii_alnum, is_unicode_whitespace, is_whitespace_char, lower_char};

verus! {

/// What a scanned token is.
#[derive(Clone, Copy)]
pub enum Kind {
    /// An element tag; the name is `source[name_start..name_end]`.
    Tag { name_start: usize, name_end: usize, closing: bool, empty: bool },
    /// A comment; its text is `source[text_start..text_end]`.
    Comment { text_start: usize, text_end: usize },
    /// `<!...>` or `<?...>`.
    Declaration,
}

/// A token covering `source[start..end]`.
#[derive(Clone, Copy)]
pub struct Token {
    pub start: usize,
    pub end: usize,
    pub kind: Kind,
}

/// Raw-text state of the scanner: the name range of the open raw-text element.
pub type RawState = Option<(usize, usize)>;

pub open spec fn matches_at(src: Seq<char>, i: int, pat: Seq<char>) -> bool {
    &&& 0 <= i
    &&& i + pat.len() <= src.len()
    &&& src.subrange(i, i + pat.len()) == pat
}

/// First index `>= from` holding `c`.
pub open spec fn find_char(src: Seq<char>, from: int, c: char) -> Option<int>
    decreases src.len() - from,
{
    if from < 0 || from >= src.len() {
        None
    } else if src[from] == c {
        Some(from)
    } else {
        find_char(src, from + 1, c)
    }
}

/// First index `>= from` where `-->` starts.
pub open spec fn find_comment_end(src: Seq<char>, from: int) -> Option<int>
    decreases src.len() - from,
{
    if from < 0 || from + 3 > src.len() {
        None
    } else if matches_at(src, from, seq!['-', '-', '>']) {
        Some(from)
    } else {
        find_comment_end(src, from + 1)
    }
}

pub open spec fn is_name_char(c: char) -> bool {
    is_ascii_alnum(c) || c == ':' || c == '-'
}

/// End of the run of name characters starting at `i`.
pub open spec fn name_end(src: Seq<char>, i: int) -> int
    decreases src.len() - i,
{
    if i < 0 || i >= src.len() || !is_name_char(src[i]) {
        i
    } else {
        name_end(src, i + 1)
    }
}

/// Index of the first `>` at or after `i` that is not inside a quoted value;
/// `quote` is the quote character that is currently open.
pub open spec fn close_angle(src: Seq<char>, i: int, quote: Option<char>) -> Option<int>
    decreases src.len() - i,
{
    if i < 0 || i >= src.len() {
        None
    } else {
        let c = src[i];
        if quote == Some(c) {
            close_angle(src, i + 1, None)
        } else if quote is None && (c == '\'' || c == '"') {
            close_angle(src, i + 1, Some(c))
        } else if quote is None && c == '>' {
            Some(i)
        } else {
            close_angle(src, i + 1, quote)
        }
    }
}

/// The last non-whitespace character of `src[lo..hi]` is `/`.
pub open spec fn ends_with_slash(src: Seq<char>, lo: int, hi: int) -> bool
    decreases hi - lo,
{
    if hi <= lo {
        false
    } else if is_unicode_whitespace(src[hi - 1]) {
        ends_with_slash(src, lo, hi - 1)
    } else {
        src[hi - 1] == '/'
    }
}

pub open spec fn is_void_name(n: Seq<char>) -> bool {
    ||| eq_ignore_ascii_case(n, seq!['a', 'r', 'e', 'a'])
    ||| eq_ignore_ascii_case(n, seq!['b', 'a', 's', 'e'])
    ||| eq_ignore_ascii_case(n, seq!['b', 'r'])
    ||| eq_ignore_ascii_case(n, seq!['c', 'o', 'l'])
    ||| eq_ignore_ascii_case(n, seq!['e', 'm', 'b', 'e', 'd'])
    ||| eq_ignore_ascii_case(n, seq!['h', 'r'])
    ||| eq_ignore_ascii_case(n, seq!['i', 'm', 'g'])
    ||| eq_ignore_ascii_case(n, seq!['i', 'n', 'p', 'u', 't'])
    ||| eq_ignore_ascii_case(n, seq!['l', 'i', 'n', 'k'])
    ||| eq_ignore_ascii_case(n, seq!['m', 'e', 't', 'a'])
    ||| eq_ignore_ascii_case(n, seq!['p', 'a', 'r', 'a', 'm'])
    ||| eq_ignore_ascii_case(n, seq!['s', 'o', 'u', 'r', 'c', 'e'])
    ||| eq_ignore_ascii_case(n, seq!['t', 'r', 'a', 'c', 'k'])
    ||| eq_ignore_ascii_case(n, seq!['w', 'b', 'r'])
}

pub open spec fn is_raw_text_name(n: Seq<char>) -> bool {
    ||| eq_ignore_ascii_case(n, seq!['s', 'c', 'r', 'i', 'p', 't'])
    ||| eq_ignore_ascii_case(n, seq!['s', 't', 'y', 'l', 'e'])
    ||| eq_ignore_ascii_case(n, seq!['t', 'e', 'x', 't', 'a', 'r', 'e', 'a'])
    ||| eq_ignore_ascii_case(n, seq!['t', 'i', 't', 'l', 'e'])
}

/// `html`, `head` or `body`, in any ASCII case.
pub open spec fn is_document_shell(n: Seq<char>) -> bool {
    ||| eq_ignore_ascii_case(n, seq!['h', 't', 'm', 'l'])
    ||| eq_ignore_ascii_case(n, seq!['h', 'e', 'a', 'd'])
    ||| eq_ignore_ascii_case(n, seq!['b', 'o', 'd', 'y'])
}

pub open spec fn range_of(src: Seq<char>, r: (usize, usize)) -> Seq<char> {
    src.subrange(r.0 as int, r.1 as int)
}

/// One step of the scanner from `pos`: the next token, the position after it
/// and the new raw-text state; `None` when no further token can be read.
pub open spec fn scan_next(src: Seq<char>, pos: int, raw: RawState) -> Option<
    (Token, int, RawState),
>
    decreases src.len() - pos,
{
    match find_char(src, pos, '<') {
        None => None,
        Some(start) => {
            if raw is None && matches_at(src, start, seq!['<', '!', '-', '-']) {
                match find_comment_end(src, start + 4) {
                    None => None,
                    Some(e) => Some(
                        (
                            Token {
                                start: start as usize,
                                end: (e + 3) as usize,
                                kind: Kind::Comment {
                                    text_start: (start + 4) as usize,
                                    text_end: e as usize,
                                },
                            },
                            e + 3,
                            raw,
                        ),
                    ),
                }
            } else {
                let closing = matches_at(src, start, seq!['<', '/']);
                let ns = if closing {
                    start + 2
                } else {
                    start + 1
                };
                let ne = name_end(src, ns);
                let declaration = matches_at(src, start, seq!['<', '!']) || matches_at(
                    src,
                    start,
                    seq!['<', '?'],
                );
                let skip = (ne == ns && !declaration) || (match raw {
                    Some(r) => !closing || !eq_ignore_ascii_case(
                        src.subrange(ns, ne),
                        range_of(src, r),
                    ),
                    None => false,
                });
                if skip {
                    if pos <= start && start < src.len() {
                        scan_next(src, start + 1, raw)
                    } else {
                        None
                    }
                } else {
                    match close_angle(src, ne, None) {
                        None => None,
                        Some(end) => {
                            if declaration {
                                Some(
                                    (
                                        Token {
                                            start: start as usize,
                                            end: (end + 1) as usize,
                                            kind: Kind::Declaration,
                                        },
                                        end + 1,
                                        raw,
                                    ),
                                )
                            } else {
                                let name = src.subrange(ns, ne);
                                let empty = ends_with_slash(src, start, end) || is_void_name(name);
                                let new_raw = if closing {
                                    None
                                } else if is_raw_text_name(name) {
                                    Some((ns as usize, ne as usize))
                                } else {
                                    None
                                };
                                Some(
                                    (
                                        Token {
                                            start: start as usize,
                                            end: (end + 1) as usize,
                                            kind: Kind::Tag {
                                                name_start: ns as usize,
                                                name_end: ne as usize,
                                                closing,
                                                empty,
                                            },
                                        },
                                        end + 1,
                                        new_raw,
                                    ),
                                )
                            }
                        },
                    }
                }
            }
        },
    }
}

/// All tokens read from `pos` on, until the scanner stops.
pub open spec fn tokens_from(src: Seq<char>, pos: int, raw: RawState) -> Seq<Token>
    decreases src.len() - pos,
{
    match scan_next(src, pos, raw) {
        None => Seq::empty(),
        Some((t, p, r)) => if pos < p && p <= src.len() {
            seq![t] + tokens_from(src, p, r)
        } else {
            Seq::empty()
        },
    }
}

/// The token stream of a whole source.
pub open spec fn tokens(src: Seq<char>) -> Seq<Token> {
    tokens_from(src, 0, None)
}

pub proof fn lemma_find_char(src: Seq<char>, from: int, c: char)
    requires
        0 <= from,
    ensures
        match find_char(src, from, c) {
            Some(i) => from <= i < src.len() && src[i] == c && forall|j: int|
                from <= j < i ==> src[j] != c,
            None => forall|j: int| from <= j < src.len() ==> src[j] != c,
        },
    decreases src.len() - from,
{
    if from < src.len() && src[from] != c {
        lemma_find_char(src, from + 1, c);
    }
}

pub proof fn lemma_find_comment_end(src: Seq<char>, from: int)
    requires
        0 <= from,
    ensures
        find_comment_end(src, from) matches Some(e) ==> from <= e && e + 3 <= src.len(),
    decreases src.len() - from,
{
    if from + 3 <= src.len() && !matches_at(src, from, seq!['-', '-', '>']) {
        lemma_find_comment_end(src, from + 1);
    }
}

pub proof fn lemma_name_end(src: Seq<char>, i: int)
    requires
        0 <= i <= src.len(),
    ensures
        i <= name_end(src, i) <= src.len(),
    decreases src.len() - i,
{
    if i < src.len() && is_name_char(src[i]) {
        lemma_name_end(src, i + 1);
    }
}

pub proof fn lemma_close_angle(src: Seq<char>, i: int, quote: Option<char>)
    requires
        0 <= i,
    ensures
        close_angle(src, i, quote) matches Some(e) ==> i <= e < src.len(),
    decreases src.len() - i,
{
    if i < src.len() {
        let c = src[i];
        if quote == Some(c) {
            lemma_close_angle(src, i + 1, None);
        } else if quote is None && (c == '\'' || c == '"') {
            lemma_close_angle(src, i + 1, Some(c));
        } else if quote is None && c == '>' {
        } else {
            lemma_close_angle(src, i + 1, quote);
        }
    }
}

/// Shape of a well-formed token of `src`.
pub open spec fn token_wf(src: Seq<char>, t: Token) -> bool {
    &&& t.start < t.end <= src.len()
    &&& match t.kind {
        Kind::Tag { name_start, name_end, .. } => t.start < name_start <= name_end < t.end,
        Kind::Comment { text_start, text_end } => t.start + 4 == text_start <= text_end
            && text_end + 3 == t.end,
        Kind::Declaration => true,
    }
}

pub open spec fn raw_wf(src: Seq<char>, raw: RawState) -> bool {
    raw matches Some(r) ==> r.0 <= r.1 <= src.len()
}

pub proof fn lemma_scan_next(src: Seq<char>, pos: int, raw: RawState)
    requires
        0 <= pos <= src.len(),
        src.len() <= usize::MAX,
    ensures
        scan_next(src, pos, raw) matches Some((t, p, r)) ==> {
            &&& pos <= t.start
            &&& t.end == p
            &&& token_wf(src, t)
            &&& raw_wf(src, raw) ==> raw_wf(src, r)
        },
    decreases src.len() - pos,
{
    lemma_find_char(src, pos, '<');
    match find_char(src, pos, '<') {
        None => {},
        Some(start) => {
            if raw is None && matches_at(src, start, seq!['<', '!', '-', '-']) {
                lemma_find_comment_end(src, start + 4);
            } else {
                let closing = matches_at(src, start, seq!['<', '/']);
                let ns = if closing {
                    start + 2
                } else {
                    start + 1
                };
                lemma_name_end(src, ns);
                let ne = name_end(src, ns);
                lemma_close_angle(src, ne, None);
                if pos <= start && start < src.len() {
                    lemma_scan_next(src, start + 1, raw);
                }
            }
        },
    }
}

/// Tokens of a stream do not overlap and appear in source order.
pub open spec fn tokens_ordered(src: Seq<char>, toks: Seq<Token>) -> bool {
    &&& forall|i: int| 0 <= i < toks.len() ==> token_wf(src, #[trigger] toks[i])
    &&& forall|i: int, j: int| 0 <= i < j < toks.len() ==> #[trigger] toks[i].end <= #[trigger] toks[j].start
}

pub proof fn lemma_tokens_from(src: Seq<char>, pos: int, raw: RawState)
    requires
        0 <= pos <= src.len(),
        src.len() <= usize::MAX,
    ensures
        tokens_ordered(src, tokens_from(src, pos, raw)),
        forall|i: int| 0 <= i < tokens_from(src, pos, raw).len() ==> pos <= #[trigger] tokens_from(src, pos, raw)[i].start,
    decreases src.len() - pos,
{
    lemma_scan_next(src, pos, raw);
    match scan_next(src, pos, raw) {
        None => {},
        Some((t, p, r)) => {
            if pos < p && p <= src.len() {
                lemma_tokens_from(src, p, r);
                let rest = tokens_from(src, p, r);
                let all = seq![t] + rest;
                assert(all == tokens_from(src, pos, raw));
                assert forall|i: int, j: int| 0 <= i < j < all.len() implies #[trigger] all[i].end <= #[trigger] all[j].start by {
                    if i == 0 {
                        assert(all[j] == rest[j - 1]);
                    } else {
                        assert(all[i] == rest[i - 1]);
                        assert(all[j] == rest[j - 1]);
                    }
                }
                assert forall|i: int| 0 <= i < all.len() implies token_wf(src, #[trigger] all[i]) && pos <= all[i].start by {
                    if i > 0 {
                        assert(all[i] == rest[i - 1]);
                    }
                }
            }
        },
    }
}

pub proof fn lemma_tokens(src: Seq<char>)
    requires
        src.len() <= usize::MAX,
    ensures
        tokens_ordered(src, tokens(src)),
{
    lemma_tokens_from(src, 0, None);
}

pub(crate) fn find_char_exec(src: &[char], from: usize, c: char) -> (r: Option<usize>)
    requires
        from <= src@.len(),
    ensures
        match r {
            Some(i) => find_char(src@, from as int, c) == Some(i as int),
            None => find_char(src@, from as int, c) is None,
        },
{
    let mut i = from;
    while i < src.len()
        invariant
            from <= i <= src@.len(),
            find_char(src@, from as int, c) == find_char(src@, i as int, c),
        decreases src@.len() - i,
    {
        if src[i] == c {
            return Some(i);
        }
        i = i + 1;
    }
    None
}

fn matches_exec(src: &[char], i: usize, pat: &[char]) -> (b: bool)
    ensures
        b == matches_at(src@, i as int, pat@),
{
    if i > src.len() || pat.len() > src.len() - i {
        return false;
    }
    let n = src.len();
    let mut k: usize = 0;
    while k < pat.len()
        invariant
            n == src@.len(),
            i + pat@.len() <= src@.len(),
            k <= pat@.len(),
            forall|m: int| 0 <= m < k ==> src@[i + m] == pat@[m],
        decreases pat@.len() - k,
    {
        assert(i + k < src@.len());
        if src[i + k] != pat[k] {
            assert(src@.subrange(i as int, i + pat@.len())[k as int] != pat@[k as int]);
            return false;
        }
        k = k + 1;
    }
    assert(src@.subrange(i as int, i + pat@.len()) =~= pat@);
    true
}

fn find_comment_end_exec(src: &[char], from: usize) -> (r: Option<usize>)
    requires
        from <= src@.len(),
    ensures
        match r {
            Some(i) => find_comment_end(src@, from as int) == Some(i as int),
            None => find_comment_end(src@, from as int) is None,
        },
{
    let arrow = ['-', '-', '>'];
    let mut i = from;
    while src.len() - i >= 3
        invariant
            from <= i <= src@.len(),
            arrow@ == seq!['-', '-', '>'],
            find_comment_end(src@, from as int) == find_comment_end(src@, i as int),
        decreases src@.len() - i,
    {
        if matches_exec(src, i, &arrow) {
            return Some(i);
        }
        i = i + 1;
    }
    None
}

fn is_name_char_exec(c: char) -> (b: bool)
    ensures
        b == is_name_char(c),
{
    ('a' <= c && c <= 'z') || ('A' <= c && c <= 'Z') || ('0' <= c && c <= '9') || c == ':' || c
        == '-'
}

fn name_end_exec(src: &[char], i: usize) -> (r: usize)
    requires
        i <= src@.len(),
    ensures
        r == name_end(src@, i as int),
{
    let mut j = i;
    while j < src.len() && is_name_char_exec(src[j])
        invariant
            i <= j <= src@.len(),
            name_end(src@, i as int) == name_end(src@, j as int),
        decreases src@.len() - j,
    {
        j = j + 1;
    }
    j
}

fn close_angle_exec(src: &[char], i: usize) -> (r: Option<usize>)
    requires
        i <= src@.len(),
    ensures
        match r {
            Some(e) => close_angle(src@, i as int, None) == Some(e as int),
            None => close_angle(src@, i as int, None) is None,
        },
{
    let mut quote: Option<char> = None;
    let mut j = i;
    while j < src.len()
        invariant
            i <= j <= src@.len(),
            close_angle(src@, i as int, None) == close_angle(src@, j as int, quote),
        decreases src@.len() - j,
    {
        let c = src[j];
        if quote == Some(c) {
            quote = None;
        } else if quote.is_none() && (c == '\'' || c == '"') {
            quote = Some(c);
        } else if quote.is_none() && c == '>' {
            return Some(j);
        }
        j = j + 1;
    }
    None
}

fn ends_with_slash_exec(src: &[char], lo: usize, hi: usize) -> (b: bool)
    requires
        lo <= hi <= src@.len(),
    ensures
        b == ends_with_slash(src@, lo as int, hi as int),
{
    let mut k = hi;
    while k > lo && is_whitespace_char(src[k - 1])
        invariant
            lo <= k <= hi <= src@.len(),
            ends_with_slash(src@, lo as int, hi as int) == ends_with_slash(src@, lo as int, k as int),
        decreases k,
    {
        k = k - 1;
    }
    k > lo && src[k - 1] == '/'
}

/// `src[lo..hi]` equals `pat` up to ASCII case.
fn range_eq_ignore_case(src: &[char], lo: usize, hi: usize, pat: &[char]) -> (b: bool)
    requires
        lo <= hi <= src@.len(),
    ensures
        b == eq_ignore_ascii_case(src@.subrange(lo as int, hi as int), pat@),
{
    if hi - lo != pat.len() {
        return false;
    }
    let ghost a = src@.subrange(lo as int, hi as int);
    let mut k: usize = 0;
    while k < pat.len()
        invariant
            hi - lo == pat@.len(),
            lo <= hi <= src@.len(),
            a == src@.subrange(lo as int, hi as int),
            k <= pat@.len(),
            forall|m: int| 0 <= m < k ==> ascii_lower(#[trigger] a[m]) == ascii_lower(pat@[m]),
        decreases pat@.len() - k,
    {
        if lower_char(src[lo + k]) != lower_char(pat[k]) {
            assert(ascii_lower(a[k as int]) != ascii_lower(pat@[k as int]));
            return false;
        }
        k = k + 1;
    }
    true
}

/// Two ranges of `src` are equal up to ASCII case.
fn ranges_eq_ignore_case(src: &[char], a: (usize, usize), b: (usize, usize)) -> (r: bool)
    requires
        a.0 <= a.1 <= src@.len(),
        b.0 <= b.1 <= src@.len(),
    ensures
        r == eq_ignore_ascii_case(range_of(src@, a), range_of(src@, b)),
{
    if a.1 - a.0 != b.1 - b.0 {
        return false;
    }
    let ghost x = range_of(src@, a);
    let ghost y = range_of(src@, b);
    let n = a.1 - a.0;
    let mut k: usize = 0;
    while k < n
        invariant
            n == a.1 - a.0 == b.1 - b.0,
            a.0 <= a.1 <= src@.len(),
            b.0 <= b.1 <= src@.len(),
            x == range_of(src@, a),
            y == range_of(src@, b),
            k <= n,
            forall|m: int| 0 <= m < k ==> ascii_lower(#[trigger] x[m]) == ascii_lower(y[m]),
        decreases n - k,
    {
        if lower_char(src[a.0 + k]) != lower_char(src[b.0 + k]) {
            assert(ascii_lower(x[k as int]) != ascii_lower(y[k as int]));
            return false;
        }
        k = k + 1;
    }
    true
}

fn is_void_name_exec(src: &[char], lo: usize, hi: usize) -> (b: bool)
    requires
        lo <= hi <= src@.len(),
    ensures
        b == is_void_name(src@.subrange(lo as int, hi as int)),
{
    let names: [&[char]; 14] = [
        &['a', 'r', 'e', 'a'],
        &['b', 'a', 's', 'e'],
        &['b', 'r'],
        &['c', 'o', 'l'],
        &['e', 'm', 'b', 'e', 'd'],
        &['h', 'r'],
        &['i', 'm', 'g'],
        &['i', 'n', 'p', 'u', 't'],
        &['l', 'i', 'n', 'k'],
        &['m', 'e', 't', 'a'],
        &['p', 'a', 'r', 'a', 'm'],
        &['s', 'o', 'u', 'r', 'c', 'e'],
        &['t', 'r', 'a', 'c', 'k'],
        &['w', 'b', 'r'],
    ];
    range_eq_ignore_case(src, lo, hi, names[0]) || range_eq_ignore_case(src, lo, hi, names[1])
        || range_eq_ignore_case(src, lo, hi, names[2]) || range_eq_ignore_case(src, lo, hi, names[3])
        || range_eq_ignore_case(src, lo, hi, names[4]) || range_eq_ignore_case(src, lo, hi, names[5])
        || range_eq_ignore_case(src, lo, hi, names[6]) || range_eq_ignore_case(src, lo, hi, names[7])
        || range_eq_ignore_case(src, lo, hi, names[8]) || range_eq_ignore_case(src, lo, hi, names[9])
        || range_eq_ignore_case(src, lo, hi, names[10]) || range_eq_ignore_case(src, lo, hi, names[11])
        || range_eq_ignore_case(src, lo, hi, names[12]) || range_eq_ignore_case(src, lo, hi, names[13])
}

fn is_raw_text_name_exec(src: &[char], lo: usize, hi: usize) -> (b: bool)
    requires
        lo <= hi <= src@.len(),
    ensures
        b == is_raw_text_name(src@.subrange(lo as int, hi as int)),
{
    range_eq_ignore_case(src, lo, hi, &['s', 'c', 'r', 'i', 'p', 't'])
        || range_eq_ignore_case(src, lo, hi, &['s', 't', 'y', 'l', 'e'])
        || range_eq_ignore_case(src, lo, hi, &['t', 'e', 'x', 't', 'a', 'r', 'e', 'a'])
        || range_eq_ignore_case(src, lo, hi, &['t', 'i', 't', 'l', 'e'])
}

fn document_shell_exec(src: &[char], lo: usize, hi: usize) -> (b: bool)
    requires
        lo <= hi <= src@.len(),
    ensures
        b == is_document_shell(src@.subrange(lo as int, hi as int)),
{
    range_eq_ignore_case(src, lo, hi, &['h', 't', 'm', 'l'])
        || range_eq_ignore_case(src, lo, hi, &['h', 'e', 'a', 'd'])
        || range_eq_ignore_case(src, lo, hi, &['b', 'o', 'd', 'y'])
}

/// Incremental tokenizer over the characters of an HTML source.
pub struct Scanner<'a> {
    source: &'a [char],
    position: usize,
    raw: RawState,
}

impl<'a> Scanner<'a> {
    pub closed spec fn source(&self) -> Seq<char> {
        self.source@
    }

    pub closed spec fn position(&self) -> int {
        self.position as int
    }

    pub closed spec fn raw(&self) -> RawState {
        self.raw
    }

    pub closed spec fn wf(&self) -> bool {
        &&& self.position <= self.source@.len()
        &&& raw_wf(self.source@, self.raw)
    }

    pub fn new(source: &'a [char]) -> (s: Self)
        ensures
            s.wf(),
            s.source() == source@,
            s.position() == 0,
            s.raw() is None,
    {
        Self { source, position: 0, raw: None }
    }

    /// The next token; `None` once the scanner cannot read another one.
    pub fn next(&mut self) -> (r: Option<Token>)
        requires
            old(self).wf(),
        ensures
            final(self).wf(),
            final(self).source() == old(self).source(),
            match scan_next(old(self).source(), old(self).position(), old(self).raw()) {
                None => r is None,
                Some((t, p, raw)) => r == Some(t) && final(self).position() == p
                    && final(self).raw() == raw,
            },
    {
        let src = self.source;
        let n = src.len();
        let ghost pos0 = self.position as int;
        let ghost raw0 = self.raw;
        loop
            invariant
                n == src@.len(),
                src@ == old(self).source(),
                self.source@ == src@,
                self.wf(),
                self.raw == raw0,
                raw0 == old(self).raw(),
                pos0 == old(self).position(),
                pos0 <= self.position,
                scan_next(src@, pos0, raw0) == scan_next(src@, self.position as int, raw0),
            decreases n - self.position,
        {
            proof {
                lemma_find_char(src@, self.position as int, '<');
                lemma_scan_next(src@, self.position as int, raw0);
            }
            let start = match find_char_exec(src, self.position, '<') {
                None => return None,
                Some(start) => start,
            };
            let pos = self.position;
            self.position = start + 1;
            if self.raw.is_none() && matches_exec(src, start, &['<', '!', '-', '-']) {
                proof {
                    lemma_find_comment_end(src@, start + 4);
                }
                let e = match find_comment_end_exec(src, start + 4) {
                    None => return None,
                    Some(e) => e,
                };
                self.position = e + 3;
                return Some(
                    Token {
                        start,
                        end: e + 3,
                        kind: Kind::Comment { text_start: start + 4, text_end: e },
                    },
                );
            }
            let closing = matches_exec(src, start, &['<', '/']);
            let ns = if closing {
                start + 2
            } else {
                start + 1
            };
            proof {
                lemma_name_end(src@, ns as int);
            }
            let ne = name_end_exec(src, ns);
            let declaration = matches_exec(src, start, &['<', '!']) || matches_exec(
                src,
                start,
                &['<', '?'],
            );
            let skip = (ne == ns && !declaration) || match self.raw {
                Some(r) => !closing || !ranges_eq_ignore_case(src, (ns, ne), r),
                None => false,
            };
            if skip {
                assert(pos <= start < n);
                continue ;
            }
            proof {
                lemma_close_angle(src@, ne as int, None);
            }
            let end = match close_angle_exec(src, ne) {
                None => return None,
                Some(end) => end,
            };
            self.position = end + 1;
            if declaration {
                return Some(Token { start, end: end + 1, kind: Kind::Declaration });
            }
            let empty = ends_with_slash_exec(src, start, end) || is_void_name_exec(src, ns, ne);
            self.raw = if closing {
                None
            } else if is_raw_text_name_exec(src, ns, ne) {
                Some((ns, ne))
            } else {
                None
            };
            return Some(
                Token { start, end: end + 1, kind: Kind::Tag { name_start: ns, name_end: ne, closing, empty } },
            );
        }
    }
}

/// The whole token stream of `src`.
pub fn scan_all(src: &[char]) -> (v: Vec<Token>)
    ensures
        v@ == tokens(src@),
{
    let n = src.len();
    let mut scanner = Scanner::new(src);
    let mut v: Vec<Token> = Vec::new();
    proof {
        assert(v@ + tokens_from(src@, 0, None) =~= tokens(src@));
    }
    loop
        invariant
            n == src@.len(),
            scanner.wf(),
            scanner.source() == src@,
            v@ + tokens_from(src@, scanner.position(), scanner.raw()) == tokens(src@),
        decreases n - scanner.position(),
    {
        let ghost p0 = scanner.position();
        let ghost r0 = scanner.raw();
        proof {
            lemma_scan_next(src@, p0, r0);
        }
        match scanner.next() {
            None => {
                assert(tokens_from(src@, p0, r0) =~= Seq::<Token>::empty());
                assert(v@ =~= tokens(src@));
                return v;
            },
            Some(t) => {
                let ghost rest = tokens_from(src@, scanner.position(), scanner.raw());
                assert(tokens_from(src@, p0, r0) == seq![t] + rest);
                v.push(t);
                assert(v@ + rest =~= tokens(src@));
            },
        }
    }
}

pub open spec fn start_marker_text() -> Seq<char> {
    seq!['S', 't', 'a', 'r', 't', 'F', 'r', 'a', 'g', 'm', 'e', 'n', 't']
}

pub open spec fn end_marker_text() -> Seq<char> {
    seq!['E', 'n', 'd', 'F', 'r', 'a', 'g', 'm', 'e', 'n', 't']
}

pub open spec fn body_name() -> Seq<char> {
    seq!['b', 'o', 'd', 'y']
}

/// The token is the comment `<!--text-->`.
pub open spec fn is_comment_with(src: Seq<char>, t: Token, text: Seq<char>) -> bool {
    t.kind matches Kind::Comment { text_start, text_end } && src.subrange(
        text_start as int,
        text_end as int,
    ) == text
}

/// The token is an opening (or, with `closing`, a closing) `body` tag.
pub open spec fn is_body_tag(src: Seq<char>, t: Token, closing: bool) -> bool {
    t.kind matches Kind::Tag { name_start, name_end, closing: c, .. } && c == closing
        && eq_ignore_ascii_case(src.subrange(name_start as int, name_end as int), body_name())
}

/// What the locating pass has seen so far.
pub struct Locate {
    pub start: Option<usize>,
    pub selection: Option<(usize, usize)>,
    pub body: Option<(usize, usize)>,
    pub body_start: Option<usize>,
}

pub open spec fn locate_step(src: Seq<char>, l: Locate, t: Token) -> Locate {
    if is_comment_with(src, t, start_marker_text()) && l.start is None {
        Locate { start: Some(t.end), ..l }
    } else if is_comment_with(src, t, end_marker_text()) && l.start is Some && l.selection is None {
        Locate { selection: Some((l.start->0, t.start)), ..l }
    } else if is_body_tag(src, t, false) {
        Locate { body_start: Some(t.end), ..l }
    } else if is_body_tag(src, t, true) {
        Locate {
            body: match l.body_start {
                Some(b) => Some((b, t.start)),
                None => None,
            },
            ..l
        }
    } else {
        l
    }
}

pub open spec fn locate(src: Seq<char>, toks: Seq<Token>, n: int) -> Locate
    decreases n,
{
    if n <= 0 {
        Locate { start: None, selection: None, body: None, body_start: None }
    } else {
        locate_step(src, locate(src, toks, n - 1), toks[n - 1])
    }
}

/// The part of the source that is kept: the marked selection, otherwise the
/// body content, otherwise everything.
pub open spec fn fragment_range(src: Seq<char>, toks: Seq<Token>) -> (usize, usize) {
    let l = locate(src, toks, toks.len() as int);
    match l.selection {
        Some(r) => r,
        None => match l.body {
            Some(r) => r,
            None => (0, src.len() as usize),
        },
    }
}

pub open spec fn tag_name(src: Seq<char>, t: Token) -> Seq<char> {
    match t.kind {
        Kind::Tag { name_start, name_end, .. } => src.subrange(name_start as int, name_end as int),
        _ => Seq::empty(),
    }
}

/// Largest index below `j` of an open tag named like `name`.
pub open spec fn last_named(src: Seq<char>, anc: Seq<Token>, name: Seq<char>, j: int) -> Option<int>
    decreases j,
{
    if j <= 0 {
        None
    } else if anc[j - 1].kind is Tag && eq_ignore_ascii_case(name, tag_name(src, anc[j - 1])) {
        Some(j - 1)
    } else {
        last_named(src, anc, name, j - 1)
    }
}

/// The stack of open structural elements after `t`.
pub open spec fn update_ancestors(src: Seq<char>, anc: Seq<Token>, t: Token) -> Seq<Token> {
    match t.kind {
        Kind::Tag { name_start, name_end, closing, empty } => {
            let name = src.subrange(name_start as int, name_end as int);
            if is_document_shell(name) || empty {
                anc
            } else if closing {
                match last_named(src, anc, name, anc.len() as int) {
                    Some(k) => anc.take(k),
                    None => anc,
                }
            } else {
                anc.push(t)
            }
        },
        _ => anc,
    }
}

/// Elements still open where the kept part begins (tokens ending before `s`).
pub open spec fn ancestors_before(src: Seq<char>, toks: Seq<Token>, s: int, n: int) -> Seq<Token>
    decreases n,
{
    if n <= 0 {
        Seq::empty()
    } else {
        let anc = ancestors_before(src, toks, s, n - 1);
        if toks[n - 1].end <= s {
            update_ancestors(src, anc, toks[n - 1])
        } else {
            anc
        }
    }
}

pub open spec fn token_source(src: Seq<char>, t: Token) -> Seq<char> {
    src.subrange(t.start as int, t.end as int)
}

/// Source text of each ancestor, concatenated.
pub open spec fn opening_tags(src: Seq<char>, anc: Seq<Token>) -> Seq<char>
    decreases anc.len(),
{
    if anc.len() == 0 {
        Seq::empty()
    } else {
        opening_tags(src, anc.drop_last()) + token_source(src, anc.last())
    }
}

/// Closing tags for the ancestors, innermost first.
pub open spec fn closing_tags(src: Seq<char>, anc: Seq<Token>) -> Seq<char>
    decreases anc.len(),
{
    if anc.len() == 0 {
        Seq::empty()
    } else {
        let rest = closing_tags(src, anc.drop_last());
        if anc.last().kind is Tag {
            seq!['<', '/'] + tag_name(src, anc.last()) + seq!['>'] + rest
        } else {
            rest
        }
    }
}

/// Tokens within the kept part that are not copied to the output.
pub open spec fn excluded(src: Seq<char>, t: Token) -> bool {
    match t.kind {
        Kind::Tag { name_start, name_end, .. } => is_document_shell(
            src.subrange(name_start as int, name_end as int),
        ),
        Kind::Comment { .. } => is_comment_with(src, t, start_marker_text()) || is_comment_with(
            src,
            t,
            end_marker_text(),
        ),
        Kind::Declaration => true,
    }
}

/// State of the emitting pass: the output so far, the open elements and the
/// first source index not yet emitted.
pub struct Emit {
    pub out: Seq<char>,
    pub anc: Seq<Token>,
    pub pos: int,
}

pub open spec fn emit_step(src: Seq<char>, s: int, e: int, st: Emit, t: Token) -> Emit {
    if t.start >= s && t.end <= e {
        let gap = src.subrange(st.pos, t.start as int);
        let kept = if excluded(src, t) {
            Seq::empty()
        } else {
            token_source(src, t)
        };
        Emit { out: st.out + gap + kept, anc: update_ancestors(src, st.anc, t), pos: t.end as int }
    } else {
        st
    }
}

pub open spec fn emit(src: Seq<char>, s: int, e: int, st: Emit, toks: Seq<Token>, n: int) -> Emit
    decreases n,
{
    if n <= 0 {
        st
    } else {
        emit_step(src, s, e, emit(src, s, e, st, toks, n - 1), toks[n - 1])
    }
}

/// The composed fragment of `src`: ancestor opening tags, the kept source
/// without shells, markers and declarations, then the closing tags of the
/// elements still open at its end.
pub open spec fn fragment_output(src: Seq<char>) -> Seq<char> {
    let toks = tokens(src);
    let (s, e) = fragment_range(src, toks);
    let anc = ancestors_before(src, toks, s as int, toks.len() as int);
    let st = emit(
        src,
        s as int,
        e as int,
        Emit { out: opening_tags(src, anc), anc, pos: s as int },
        toks,
        toks.len() as int,
    );
    st.out + src.subrange(st.pos, e as int) + closing_tags(src, st.anc)
}

/// Everything in `anc` is a well-formed tag of `src`.
pub open spec fn tags_wf(src: Seq<char>, anc: Seq<Token>) -> bool {
    forall|i: int| 0 <= i < anc.len() ==> token_wf(src, #[trigger] anc[i]) && anc[i].kind is Tag
}

pub proof fn lemma_last_named(src: Seq<char>, anc: Seq<Token>, name: Seq<char>, j: int)
    ensures
        last_named(src, anc, name, j) matches Some(k) ==> 0 <= k < j,
    decreases j,
{
    if j > 0 {
        lemma_last_named(src, anc, name, j - 1);
    }
}

pub proof fn lemma_update_ancestors_wf(src: Seq<char>, anc: Seq<Token>, t: Token)
    requires
        tags_wf(src, anc),
        token_wf(src, t),
    ensures
        tags_wf(src, update_ancestors(src, anc, t)),
{
    if let Kind::Tag { name_start, name_end, .. } = t.kind {
        lemma_last_named(src, anc, src.subrange(name_start as int, name_end as int), anc.len() as int);
    }
    let r = update_ancestors(src, anc, t);
    assert forall|i: int| 0 <= i < r.len() implies token_wf(src, #[trigger] r[i])
        && r[i].kind is Tag by {
        if i < anc.len() {
            assert(r[i] == anc[i]);
        }
    }
}

fn range_eq_exact(src: &[char], lo: usize, hi: usize, pat: &[char]) -> (b: bool)
    requires
        lo <= hi <= src@.len(),
    ensures
        b == (src@.subrange(lo as int, hi as int) == pat@),
{
    if hi - lo != pat.len() {
        return false;
    }
    let ghost a = src@.subrange(lo as int, hi as int);
    let mut k: usize = 0;
    while k < pat.len()
        invariant
            hi - lo == pat@.len(),
            lo <= hi <= src@.len(),
            a == src@.subrange(lo as int, hi as int),
            k <= pat@.len(),
            forall|m: int| 0 <= m < k ==> #[trigger] a[m] == pat@[m],
        decreases pat@.len() - k,
    {
        if src[lo + k] != pat[k] {
            assert(a[k as int] != pat@[k as int]);
            return false;
        }
        k = k + 1;
    }
    assert(a =~= pat@);
    true
}

fn is_comment_with_exec(src: &[char], t: Token, text: &[char]) -> (b: bool)
    requires
        token_wf(src@, t),
    ensures
        b == is_comment_with(src@, t, text@),
{
    match t.kind {
        Kind::Comment { text_start, text_end } => range_eq_exact(src, text_start, text_end, text),
        _ => false,
    }
}

fn is_body_tag_exec(src: &[char], t: Token, closing: bool) -> (b: bool)
    requires
        token_wf(src@, t),
    ensures
        b == is_body_tag(src@, t, closing),
{
    match t.kind {
        Kind::Tag { name_start, name_end, closing: c, .. } => c == closing && range_eq_ignore_case(
            src,
            name_start,
            name_end,
            &['b', 'o', 'd', 'y'],
        ),
        _ => false,
    }
}

const START_MARKER: [char; 13] = ['S', 't', 'a', 'r', 't', 'F', 'r', 'a', 'g', 'm', 'e', 'n', 't'];

const END_MARKER: [char; 11] = ['E', 'n', 'd', 'F', 'r', 'a', 'g', 'm', 'e', 'n', 't'];

/// The kept range of `src`, as computed by [`fragment_range`].
fn locate_exec(src: &[char], toks: &Vec<Token>) -> (r: (usize, usize))
    requires
        toks@ == tokens(src@),
    ensures
        r == fragment_range(src@, toks@),
        r.0 <= r.1 <= src@.len(),
{
    let len = src.len();
    proof {
        lemma_tokens(src@);
    }
    let start_marker = START_MARKER;
    let end_marker = END_MARKER;
    assert(start_marker@ == start_marker_text());
    assert(end_marker@ == end_marker_text());
    let mut l = Locate { start: None, selection: None, body: None, body_start: None };
    let mut n: usize = 0;
    while n < toks.len()
        invariant
            toks@ == tokens(src@),
            tokens_ordered(src@, toks@),
            start_marker@ == start_marker_text(),
            end_marker@ == end_marker_text(),
            n <= toks@.len(),
            l == locate(src@, toks@, n as int),
            l.start matches Some(a) ==> n > 0 && a <= toks@[n - 1].end,
            l.body_start matches Some(a) ==> n > 0 && a <= toks@[n - 1].end,
            l.selection matches Some(r) ==> r.0 <= r.1 <= src@.len(),
            l.body matches Some(r) ==> r.0 <= r.1 <= src@.len(),
        decreases toks@.len() - n,
    {
        let t = toks[n];
        assert(token_wf(src@, toks@[n as int]));
        if n > 0 {
            assert(toks@[n - 1].end <= toks@[n as int].start);
        }
        if is_comment_with_exec(src, t, &start_marker) && l.start.is_none() {
            l = Locate { start: Some(t.end), ..l };
        } else if is_comment_with_exec(src, t, &end_marker) && l.start.is_some()
            && l.selection.is_none() {
            let a = l.start.unwrap();
            l = Locate { selection: Some((a, t.start)), ..l };
        } else if is_body_tag_exec(src, t, false) {
            l = Locate { body_start: Some(t.end), ..l };
        } else if is_body_tag_exec(src, t, true) {
            let body = match l.body_start {
                Some(b) => Some((b, t.start)),
                None => None,
            };
            l = Locate { body, ..l };
        }
        n = n + 1;
    }
    match l.selection {
        Some(r) => r,
        None => match l.body {
            Some(r) => r,
            None => (0, src.len()),
        },
    }
}

fn update_ancestors_exec(src: &[char], anc: &mut Vec<Token>, t: Token)
    requires
        token_wf(src@, t),
        tags_wf(src@, old(anc)@),
    ensures
        final(anc)@ == update_ancestors(src@, old(anc)@, t),
        tags_wf(src@, final(anc)@),
{
    proof {
        lemma_update_ancestors_wf(src@, anc@, t);
    }
    match t.kind {
        Kind::Tag { name_start, name_end, closing, empty } => {
            if document_shell_exec(src, name_start, name_end) || empty {
                return ;
            }
            if closing {
                let ghost name = src@.subrange(name_start as int, name_end as int);
                let mut j = anc.len();
                while j > 0
                    invariant
                        j <= anc@.len(),
                        anc@ == old(anc)@,
                        tags_wf(src@, anc@),
                        token_wf(src@, t),
                        t.kind == (Kind::Tag { name_start, name_end, closing, empty }),
                        closing,
                        !empty,
                        !is_document_shell(name),
                        name_start <= name_end <= src@.len(),
                        name == src@.subrange(name_start as int, name_end as int),
                        last_named(src@, anc@, name, anc@.len() as int) == last_named(
                            src@,
                            anc@,
                            name,
                            j as int,
                        ),
                    decreases j,
                {
                    let a = anc[j - 1];
                    assert(token_wf(src@, anc@[j - 1]) && anc@[j - 1].kind is Tag);
                    let same = match a.kind {
                        Kind::Tag { name_start: ns, name_end: ne, .. } => ranges_eq_ignore_case(
                            src,
                            (name_start, name_end),
                            (ns, ne),
                        ),
                        _ => false,
                    };
                    if same {
                        assert(last_named(src@, anc@, name, j as int) == Some(j - 1));
                        anc.truncate(j - 1);
                        assert(anc@ =~= old(anc)@.take(j - 1));
                        return ;
                    }
                    j = j - 1;
                }
            } else {
                anc.push(t);
            }
        },
        _ => {},
    }
}

/// The composed fragment as characters.
pub(crate) fn fragment_chars(src: &[char]) -> (out: Vec<char>)
    ensures
        out@ == fragment_output(src@),
{
    let len = src.len();
    let toks = scan_all(src);
    proof {
        lemma_tokens(src@);
    }
    let (s, e) = locate_exec(src, &toks);
    // Elements open before the kept part.
    let mut anc: Vec<Token> = Vec::new();
    let mut n: usize = 0;
    while n < toks.len()
        invariant
            toks@ == tokens(src@),
            tokens_ordered(src@, toks@),
            n <= toks@.len(),
            anc@ == ancestors_before(src@, toks@, s as int, n as int),
            tags_wf(src@, anc@),
        decreases toks@.len() - n,
    {
        assert(token_wf(src@, toks@[n as int]));
        if toks[n].end <= s {
            update_ancestors_exec(src, &mut anc, toks[n]);
        }
        n = n + 1;
    }
    let mut out: Vec<char> = Vec::new();
    let mut i: usize = 0;
    while i < anc.len()
        invariant
            tags_wf(src@, anc@),
            i <= anc@.len(),
            out@ == opening_tags(src@, anc@.take(i as int)),
        decreases anc@.len() - i,
    {
        assert(token_wf(src@, anc@[i as int]));
        assert(anc@.take(i + 1).drop_last() =~= anc@.take(i as int));
        extend_range(&mut out, src, anc[i].start, anc[i].end);
        i = i + 1;
    }
    assert(anc@.take(anc@.len() as int) =~= anc@);
    let ghost init = Emit { out: out@, anc: anc@, pos: s as int };
    let mut pos = s;
    let mut n: usize = 0;
    let start_marker = START_MARKER;
    let end_marker = END_MARKER;
    assert(start_marker@ == start_marker_text());
    assert(end_marker@ == end_marker_text());
    while n < toks.len()
        invariant
            toks@ == tokens(src@),
            tokens_ordered(src@, toks@),
            start_marker@ == start_marker_text(),
            end_marker@ == end_marker_text(),
            s <= e <= src@.len(),
            n <= toks@.len(),
            (Emit { out: out@, anc: anc@, pos: pos as int }) == emit(
                src@,
                s as int,
                e as int,
                init,
                toks@,
                n as int,
            ),
            s <= pos <= e,
            pos == s || (n > 0 && pos <= toks@[n - 1].end),
            tags_wf(src@, anc@),
        decreases toks@.len() - n,
    {
        let t = toks[n];
        assert(token_wf(src@, toks@[n as int]));
        if n > 0 {
            assert(toks@[n - 1].end <= toks@[n as int].start);
        }
        if t.start >= s && t.end <= e {
            extend_range(&mut out, src, pos, t.start);
            let skip = match t.kind {
                Kind::Tag { name_start, name_end, .. } => document_shell_exec(
                    src,
                    name_start,
                    name_end,
                ),
                Kind::Comment { .. } => is_comment_with_exec(src, t, &start_marker)
                    || is_comment_with_exec(src, t, &end_marker),
                Kind::Declaration => true,
            };
            if !skip {
                extend_range(&mut out, src, t.start, t.end);
            }
            update_ancestors_exec(src, &mut anc, t);
            pos = t.end;
        }
        n = n + 1;
    }
    extend_range(&mut out, src, pos, e);
    let ghost pre = out@;
    let mut j = anc.len();
    assert(anc@.take(j as int) =~= anc@);
    let ghost mut x: Seq<char> = Seq::empty();
    assert(out@ =~= pre + x);
    assert(x + closing_tags(src@, anc@.take(j as int)) =~= closing_tags(src@, anc@));
    while j > 0
        invariant
            tags_wf(src@, anc@),
            j <= anc@.len(),
            out@ == pre + x,
            x + closing_tags(src@, anc@.take(j as int)) == closing_tags(src@, anc@),
        decreases j,
    {
        let a = anc[j - 1];
        assert(token_wf(src@, anc@[j - 1]) && anc@[j - 1].kind is Tag);
        assert(anc@.take(j as int).drop_last() =~= anc@.take(j - 1));
        assert(anc@.take(j as int).last() == a);
        match a.kind {
            Kind::Tag { name_start, name_end, .. } => {
                let ghost before = out@;
                out.push('<');
                out.push('/');
                extend_range(&mut out, src, name_start, name_end);
                out.push('>');
                let ghost piece = seq!['<', '/'] + tag_name(src@, a) + seq!['>'];
                assert(out@ =~= before + piece);
                assert(out@ =~= pre + (x + piece));
                assert((x + piece) + closing_tags(src@, anc@.take(j - 1)) =~= closing_tags(
                    src@,
                    anc@,
                ));
                proof {
                    x = x + piece;
                }
            },
            _ => {},
        }
        j = j - 1;
    }
    assert(anc@.take(0) =~= Seq::<Token>::empty());
    assert(out@ =~= fragment_output(src@));
    out
}

pub open spec fn export_limit_message() -> Seq<char> {
    "clipboard text export exceeds 16 MiB"@
}

pub fn export_limit_error() -> (e: String)
    ensures
        e@ == export_limit_message(),
{
    String::from_str("clipboard text export exceeds 16 MiB")
}

/// Appends `text` to `output` unless the result would exceed `limit` bytes.
pub fn append(output: &mut String, text: &str, limit: usize) -> (r: Result<(), String>)
    ensures
        byte_len(old(output)@) + byte_len(text@) <= limit ==> r is Ok && final(output)@ == old(
            output,
        )@ + text@,
        byte_len(old(output)@) + byte_len(text@) > limit ==> (r matches Err(e) && e@
            == export_limit_message()) && final(output)@ == old(output)@,
{
    let current = chars_of(output.as_str());
    let added = chars_of(text);
    let current_len = range_byte_len(&current, 0, current.len());
    let added_len = range_byte_len(&added, 0, added.len());
    assert(current@.subrange(0, current@.len() as int) =~= current@);
    assert(added@.subrange(0, added@.len() as int) =~= added@);
    if current_len + added_len > limit as u128 {
        return Err(export_limit_error());
    }
    push_chars(output, &added);
    Ok(())
}

/// Preserves the selected source and its structural ancestors (notably table,
/// list and inline styling elements), excluding `html`/`head`/`body` document
/// shells; fails when the composed fragment exceeds `limit` bytes.
pub fn fragment(source: &str, limit: usize) -> (r: Result<String, String>)
    ensures
        byte_len(fragment_output(source@)) <= limit ==> (r matches Ok(out) && out@
            == fragment_output(source@)),
        byte_len(fragment_output(source@)) > limit ==> (r matches Err(e) && e@
            == export_limit_message()),
{
    let src = chars_of(source);
    let out = fragment_chars(&src);
    let n = range_byte_len(&out, 0, out.len());
    assert(out@.subrange(0, out@.len() as int) =~= out@);
    if n > limit as u128 {
        return Err(export_limit_error());
    }
    Ok(string_from_chars(&out))
}

} // verus!
