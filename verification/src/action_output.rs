//! The output of a command that a quick action runs: the first 256 KiB are
//! kept for its result, and every line is streamed to the action's output
//! view as it arrives.

use vstd::prelude::*;
use crate::text::{chars_of, extend_chars, string_from_chars, trim_end, trim_end_chars};

verus! {

/// Bytes of a command's output kept for its result.
pub const MAX_CAPTURE_BYTES: usize = 262_144;
/// Length at which an unfinished line is streamed as it is.
pub const MAX_PENDING_LINE: usize = 16_384;

/// The index of the first newline of `s`, or -1.
pub open spec fn first_newline(s: Seq<u8>) -> int
    decreases s.len(),
{
    if s.len() == 0 {
        -1
    } else if s[0] == 10u8 {
        0
    } else {
        let k = first_newline(s.drop_first());
        if k < 0 {
            -1
        } else {
            k + 1
        }
    }
}

/// The complete lines of `s`, each with its newline, and what follows the
/// last of them.
pub open spec fn split_lines(s: Seq<u8>) -> (Seq<Seq<u8>>, Seq<u8>)
    decreases s.len(),
{
    let k = first_newline(s);
    if k < 0 || k >= s.len() {
        (Seq::empty(), s)
    } else {
        let rest = split_lines(s.skip(k + 1));
        (seq![s.take(k + 1)] + rest.0, rest.1)
    }
}

/// What a command printed so far, as kept and as still to be streamed.
pub struct OutputCapture {
    /// The first bytes of the output, at most `MAX_CAPTURE_BYTES`.
    pub captured: Vec<u8>,
    /// The start of a line that has not ended yet.
    pub pending: Vec<u8>,
    /// Everything received.
    pub received: Ghost<Seq<u8>>,
}

proof fn lemma_first_newline(s: Seq<u8>)
    ensures
        -1 <= first_newline(s) < s.len(),
        first_newline(s) >= 0 ==> s[first_newline(s)] == 10u8,
        forall|i: int| 0 <= i < s.len() && (first_newline(s) < 0 || i < first_newline(s)) ==> s[i] != 10u8,
    decreases s.len(),
{
    if s.len() > 0 && s[0] != 10u8 {
        lemma_first_newline(s.drop_first());
        assert forall|i: int|
            0 <= i < s.len() && (first_newline(s) < 0 || i < first_newline(s)) implies s[i] != 10u8 by {
            if i > 0 {
                assert(s[i] == s.drop_first()[i - 1]);
            }
        }
    }
}

proof fn lemma_first_newline_at(s: Seq<u8>, k: int)
    requires
        0 <= k < s.len(),
        s[k] == 10u8,
        forall|i: int| 0 <= i < k ==> s[i] != 10u8,
    ensures
        first_newline(s) == k,
    decreases k,
{
    if k > 0 {
        lemma_first_newline_at(s.drop_first(), k - 1);
    }
}

proof fn lemma_no_newline(s: Seq<u8>)
    requires
        forall|i: int| 0 <= i < s.len() ==> s[i] != 10u8,
    ensures
        first_newline(s) == -1,
    decreases s.len(),
{
    if s.len() > 0 {
        lemma_no_newline(s.drop_first());
    }
}

impl OutputCapture {
    /// Nothing received yet.
    pub fn new() -> (c: Self)
        ensures
            c.captured@.len() == 0,
            c.pending@.len() == 0,
            c.received@.len() == 0,
    {
        OutputCapture { captured: Vec::new(), pending: Vec::new(), received: Ghost(Seq::empty()) }
    }

    /// The captured bytes are the first ones received, as many as fit.
    pub open spec fn wf(self) -> bool {
        &&& self.captured@ == self.received@.take(
            if self.received@.len() < MAX_CAPTURE_BYTES { self.received@.len() as int } else { MAX_CAPTURE_BYTES as int },
        )
        &&& self.pending@.len() < MAX_PENDING_LINE
    }

    /// Takes a chunk of output. The lines that it completes are returned,
    /// each with its newline, to be streamed; an unfinished line that grew
    /// to 16 KiB is returned as it is, too.
    pub fn take_chunk(&mut self, chunk: &[u8]) -> (lines: Vec<Vec<u8>>)
        requires
            old(self).wf(),
        ensures
            final(self).wf(),
            final(self).received@ == old(self).received@ + chunk@,
            ({
                let split = split_lines(old(self).pending@ + chunk@);
                if split.1.len() >= MAX_PENDING_LINE {
                    &&& lines@.len() == split.0.len() + 1
                    &&& forall|i: int| 0 <= i < split.0.len() ==> (#[trigger] lines@[i])@ == split.0[i]
                    &&& lines@[split.0.len() as int]@ == split.1
                    &&& final(self).pending@.len() == 0
                } else {
                    &&& lines@.len() == split.0.len()
                    &&& forall|i: int| 0 <= i < split.0.len() ==> (#[trigger] lines@[i])@ == split.0[i]
                    &&& final(self).pending@ == split.1
                }
            }),
    {
        let ghost before = self.received@;
        // Keep the first bytes.
        let have = self.captured.len();
        if have < MAX_CAPTURE_BYTES {
            let room = MAX_CAPTURE_BYTES - have;
            let take = if chunk.len() < room { chunk.len() } else { room };
            let mut i: usize = 0;
            while i < take
                invariant
                    i <= take <= chunk@.len(),
                    self.captured@ == old(self).captured@ + chunk@.take(i as int),
                    self.pending == old(self).pending,
                    self.received == old(self).received,
                decreases take - i,
            {
                self.captured.push(chunk[i]);
                i = i + 1;
                assert(chunk@.take(i as int) =~= chunk@.take(i - 1).push(chunk@[i - 1]));
            }
        }
        self.received = Ghost(before + chunk@);
        assert(self.captured@ =~= self.received@.take(
            if self.received@.len() < MAX_CAPTURE_BYTES { self.received@.len() as int } else { MAX_CAPTURE_BYTES as int },
        ));
        // Split the lines.
        let mut all: Vec<u8> = Vec::new();
        std::mem::swap(&mut all, &mut self.pending);
        let mut j: usize = 0;
        while j < chunk.len()
            invariant
                j <= chunk@.len(),
                all@ == old(self).pending@ + chunk@.take(j as int),
            decreases chunk@.len() - j,
        {
            all.push(chunk[j]);
            j = j + 1;
            assert(chunk@.take(j as int) =~= chunk@.take(j - 1).push(chunk@[j - 1]));
        }
        assert(chunk@.take(chunk@.len() as int) =~= chunk@);
        let ghost whole = all@;
        let n = all.len();
        let mut lines: Vec<Vec<u8>> = Vec::new();
        let mut start: usize = 0;
        assert(whole.skip(0) =~= whole);
        assert(lines@.map_values(|l: Vec<u8>| l@) + split_lines(whole).0 =~= split_lines(whole).0);
        let mut k: usize = 0;
        while k < all.len()
            invariant
                start <= k <= all@.len(),
                all@ == whole,
                all@.len() == n,
                forall|i: int| start <= i < k ==> all@[i] != 10u8,
                split_lines(whole) == ({
                    let rest = split_lines(whole.skip(start as int));
                    (lines@.map_values(|l: Vec<u8>| l@) + rest.0, rest.1)
                }),
            decreases all@.len() - k,
        {
            if all[k] == 10u8 {
                let mut line: Vec<u8> = Vec::new();
                let mut m = start;
                while m <= k
                    invariant
                        start <= m <= k + 1,
                        k < all@.len(),
                        all@.len() == n,
                        line@ == all@.subrange(start as int, m as int),
                    decreases k + 1 - m,
                {
                    line.push(all[m]);
                    m = m + 1;
                    assert(all@.subrange(start as int, m as int) =~= all@.subrange(start as int, m - 1).push(all@[m - 1]));
                }
                proof {
                    let tail = whole.skip(start as int);
                    lemma_first_newline_at(tail, k - start);
                    assert(tail.take(k - start + 1) =~= line@);
                    assert(tail.skip(k - start + 1) =~= whole.skip(k + 1));
                }
                let ghost old_lines = lines@;
                lines.push(line);
                assert(lines@.map_values(|l: Vec<u8>| l@) =~= old_lines.map_values(|l: Vec<u8>| l@).push(
                    whole.skip(start as int).take(k - start + 1),
                ));
                start = k + 1;
            }
            k = k + 1;
        }
        proof {
            let tail = whole.skip(start as int);
            lemma_no_newline(tail);
        }
        let mut rest: Vec<u8> = Vec::new();
        let mut m = start;
        while m < all.len()
            invariant
                start <= m <= all@.len(),
                rest@ == all@.subrange(start as int, m as int),
            decreases all@.len() - m,
        {
            rest.push(all[m]);
            m = m + 1;
            assert(all@.subrange(start as int, m as int) =~= all@.subrange(start as int, m - 1).push(all@[m - 1]));
        }
        assert(rest@ =~= whole.skip(start as int));
        assert(lines@.map_values(|l: Vec<u8>| l@) + Seq::<Seq<u8>>::empty() =~= lines@.map_values(|l: Vec<u8>| l@));
        if rest.len() >= MAX_PENDING_LINE {
            lines.push(rest);
        } else {
            self.pending = rest;
        }
        lines
    }

    /// The output ended: an unfinished line, if any, is returned to be
    /// streamed, and the captured bytes are handed out.
    pub fn finish(self) -> (r: (Vec<u8>, Option<Vec<u8>>))
        requires
            self.wf(),
        ensures
            r.0@ == self.captured@,
            r.1 == if self.pending@.len() > 0 { Some(self.pending) } else { None::<Vec<u8>> },
    {
        let pending = if self.pending.len() > 0 { Some(self.pending) } else { None };
        (self.captured, pending)
    }
}

/// The text of `bytes` read as UTF-8, each invalid sequence replaced by
/// U+FFFD, as `String::from_utf8_lossy` gives it.
pub uninterp spec fn utf8_lossy(bytes: Seq<u8>) -> Seq<char>;

/// `String::from_utf8_lossy` of std: the text of `bytes`, with U+FFFD in
/// place of each invalid sequence. Its result is named, not spelled out.
#[verifier::external_body]
fn decode_lossy(bytes: &[u8]) -> (s: String)
    ensures
        s@ == utf8_lossy(bytes@),
{
    String::from_utf8_lossy(bytes).into_owned()
}

/// The text of captured output.
pub fn output_text(bytes: &[u8]) -> (s: String)
    ensures
        s@ == utf8_lossy(bytes@),
{
    decode_lossy(bytes)
}

/// The entry streamed to the output view for `line`: `prefix`, then the
/// line's text, without trailing whitespace when the line is complete.
pub fn line_entry(prefix: &str, line: &[u8], complete: bool) -> (s: String)
    ensures
        s@ == prefix@ + if complete { trim_end(utf8_lossy(line@)) } else { utf8_lossy(line@) },
{
    let text = decode_lossy(line);
    let mut v = chars_of(prefix);
    let body = chars_of(text.as_str());
    if complete {
        extend_chars(&mut v, &trim_end_chars(&body));
    } else {
        extend_chars(&mut v, &body);
    }
    string_from_chars(&v)
}

/// The result of a shell command: its output, `OK` when it printed
/// nothing, on success; `Exit <status>: <errors>` otherwise.
pub fn shell_outcome(success: bool, stdout: String, stderr: &str, status: &str) -> (r: Result<String, String>)
    ensures
        success ==> (r matches Ok(t) && t@ == if stdout@.len() == 0 { "OK"@ } else { stdout@ }),
        !success ==> (r matches Err(e) && e@ == "Exit "@ + status@ + ": "@ + stderr@),
{
    if success {
        if chars_of(stdout.as_str()).len() == 0 {
            Ok("OK".to_string())
        } else {
            Ok(stdout)
        }
    } else {
        let mut v = chars_of("Exit ");
        extend_chars(&mut v, &chars_of(status));
        extend_chars(&mut v, &chars_of(": "));
        extend_chars(&mut v, &chars_of(stderr));
        assert(v@ =~= "Exit "@ + status@ + ": "@ + stderr@);
        Err(string_from_chars(&v))
    }
}

/// What a command prints is kept from its start: the captured bytes are the
/// first ones received, as many as fit in the limit.
pub proof fn captured_output_is_a_bounded_prefix(c: OutputCapture)
    requires
        c.wf(),
    ensures
        c.captured@.len() <= MAX_CAPTURE_BYTES,
        c.captured@.len() == c.received@.len() || c.captured@.len() == MAX_CAPTURE_BYTES,
        c.captured@ =~= c.received@.take(c.captured@.len() as int),
{
}

} // verus!
