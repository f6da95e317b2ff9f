//! The drags that the clipboard window prepared and the one drag that runs.
//! A prepared drag is bound to the window that asked for it, lives two
//! minutes and belongs to one generation of the clipboard; a change of the
//! clipboard starts a new generation and drops what was prepared before.

use vstd::prelude::*;
use crate::drag_assembly::{ClipboardDragKind, ClipboardDragOutcome};
use crate::text::{chars_equal, chars_of};

verus! {

/// How long a prepared drag may wait to be started, in milliseconds.
pub const PREPARED_TTL_MS: u64 = 120_000;
/// Prepared drags kept at most; the oldest makes room for a new one.
pub const MAX_PREPARED: usize = 4;

/// A drag that was prepared and not yet started, with what the platform's
/// drag source will be handed.
#[derive(Debug)]
pub struct PreparedDrag<P> {
    pub token: String,
    pub owner: String,
    pub created_ms: u64,
    pub generation: u64,
    pub payload: P,
}

/// The drag that runs.
#[derive(Debug, Clone)]
pub struct ActiveDrag {
    pub token: String,
    pub owner: String,
    /// Whether its end is being handled.
    pub finishing: bool,
    /// Whether the window asked to cancel it.
    pub cancel_requested: bool,
}

/// Whether a prepared drag created at `created_ms` has expired at `now_ms`.
pub open spec fn expired(created_ms: u64, now_ms: u64) -> bool {
    now_ms >= created_ms && now_ms - created_ms >= PREPARED_TTL_MS
}

fn is_expired(created_ms: u64, now_ms: u64) -> (b: bool)
    ensures
        b == expired(created_ms, now_ms),
{
    now_ms >= created_ms && now_ms - created_ms >= PREPARED_TTL_MS
}

/// The index of the first of the prepared drags created earliest.
pub open spec fn oldest_index<P>(s: Seq<PreparedDrag<P>>) -> int
    decreases s.len(),
{
    if s.len() <= 1 {
        0
    } else {
        let k = oldest_index(s.drop_last());
        if s.last().created_ms < s[k].created_ms {
            s.len() - 1
        } else {
            k
        }
    }
}

proof fn lemma_oldest_in_range<P>(s: Seq<PreparedDrag<P>>)
    requires
        s.len() > 0,
    ensures
        0 <= oldest_index(s) < s.len(),
    decreases s.len(),
{
    if s.len() > 1 {
        lemma_oldest_in_range(s.drop_last());
    }
}

/// The prepared drags of `s` that have not expired at `now_ms`, in order.
pub open spec fn live<P>(s: Seq<PreparedDrag<P>>, now_ms: u64) -> Seq<PreparedDrag<P>> {
    s.filter(keep_pred(Some(now_ms), None))
}

/// `s` with room for one more: without its oldest drag when it is full.
pub open spec fn with_room<P>(s: Seq<PreparedDrag<P>>) -> Seq<PreparedDrag<P>> {
    if s.len() >= MAX_PREPARED {
        s.remove(oldest_index(s))
    } else {
        s
    }
}

/// The prepared drags of `s` under another token than `token`, in order.
pub open spec fn other_tokens<P>(s: Seq<PreparedDrag<P>>, token: Seq<char>) -> Seq<PreparedDrag<P>> {
    s.filter(keep_pred(None, Some(token)))
}

/// No two drags of `s` share a token.
pub open spec fn unique_tokens<P>(s: Seq<PreparedDrag<P>>) -> bool {
    forall|i: int, j: int| 0 <= i < j < s.len() ==> (#[trigger] s[i]).token@ != (#[trigger] s[j]).token@
}

/// All prepared drags and the one that runs, if any.
pub struct DragSessions<P> {
    pub prepared: Vec<PreparedDrag<P>>,
    pub active: Option<ActiveDrag>,
    pub generation: u64,
}

/// Whether a clipboard drag runs.
pub fn is_dragging<P>(sessions: &DragSessions<P>) -> (b: bool)
    ensures
        b == sessions.active is Some,
{
    sessions.active.is_some()
}

/// The kind and the number of items of a prepared drag with `files` files:
/// text, counted as one item, when it has none.
pub fn prepared_kind(files: usize) -> (r: (ClipboardDragKind, usize))
    ensures
        r.0 == (if files == 0 { ClipboardDragKind::Text } else { ClipboardDragKind::Files }),
        r.1 == (if files == 0 { 1 } else { files }),
{
    if files == 0 {
        (ClipboardDragKind::Text, 1)
    } else {
        (ClipboardDragKind::Files, files)
    }
}

proof fn lemma_filter_unique<P>(s: Seq<PreparedDrag<P>>, pred: spec_fn(PreparedDrag<P>) -> bool)
    requires
        unique_tokens(s),
    ensures
        unique_tokens(s.filter(pred)),
        s.filter(pred).len() <= s.len(),
{
    s.lemma_filter_len(pred);
    assert forall|i: int, j: int| 0 <= i < j < s.filter(pred).len() implies (#[trigger] s.filter(pred)[i]).token@
        != (#[trigger] s.filter(pred)[j]).token@ by {
        lemma_filter_keeps_order(s, pred, i, j);
    }
}

/// Splits `v` into the drags that satisfy `keep` and the payloads of the
/// others, where `keep` holds of a drag exactly when it has not expired at
/// `now_ms` and, if `token` is given, is under another token.
fn partition<P>(v: Vec<PreparedDrag<P>>, now_ms: Option<u64>, token: Option<&str>) -> (r: (Vec<PreparedDrag<P>>, Vec<P>))
    ensures
        r.0@ == v@.filter(keep_pred(now_ms, match token { Some(t) => Some(t@), None => None })),
        r.0@.len() + r.1@.len() == v@.len(),
{
    broadcast use Seq::lemma_filter_push;
    let ghost tv: Option<Seq<char>> = match token { Some(t) => Some(t@), None => None };
    let ghost pred = keep_pred::<P>(now_ms, tv);
    let mut rest = v;
    let ghost all = rest@;
    let total = rest.len();
    let mut kept: Vec<PreparedDrag<P>> = Vec::new();
    let mut released: Vec<P> = Vec::new();
    let mut taken: usize = 0;
    assert(all.take(0).filter(pred) =~= Seq::<PreparedDrag<P>>::empty()) by {
        reveal(Seq::filter);
    }
    while rest.len() > 0
        invariant
            all.len() == total,
            taken + rest@.len() == all.len(),
            rest@ == all.skip(taken as int),
            kept@ == all.take(taken as int).filter(pred),
            released@.len() + kept@.len() == taken,
            tv == match token { Some(t) => Some(t@), None => None::<Seq<char>> },
            pred == keep_pred::<P>(now_ms, tv),
        decreases rest@.len(),
    {
        let p = rest.remove(0);
        assert(p == all[taken as int]);
        assert(all.take(taken + 1) =~= all.take(taken as int).push(p));
        let stays = match now_ms {
            Some(now) => !is_expired(p.created_ms, now),
            None => true,
        } && match token {
            Some(t) => !chars_equal(&chars_of(p.token.as_str()), &chars_of(t)),
            None => true,
        };
        assert(stays == pred(p));
        proof {
            all.take(taken as int).lemma_filter_push(p, pred);
        }
        if stays {
            kept.push(p);
        } else {
            released.push(p.payload);
        }
        taken = taken + 1;
        assert(rest@ =~= all.skip(taken as int));
    }
    assert(all.take(taken as int) =~= all);
    (kept, released)
}

/// Whether a drag stays, as a predicate.
pub open spec fn keep_pred<P>(now_ms: Option<u64>, token: Option<Seq<char>>) -> spec_fn(PreparedDrag<P>) -> bool {
    |p: PreparedDrag<P>| keeps(p, now_ms, token)
}

/// Whether a drag stays: unexpired at `now_ms`, if given, and under another
/// token than `token`, if given.
pub open spec fn keeps<P>(p: PreparedDrag<P>, now_ms: Option<u64>, token: Option<Seq<char>>) -> bool {
    &&& match now_ms {
        Some(now) => !expired(p.created_ms, now),
        None => true,
    }
    &&& match token {
        Some(t) => p.token@ != t,
        None => true,
    }
}

impl<P> DragSessions<P> {
    /// No two prepared drags share a token, and there are at most
    /// `MAX_PREPARED`.
    pub open spec fn wf(self) -> bool {
        &&& self.prepared@.len() <= MAX_PREPARED
        &&& unique_tokens(self.prepared@)
    }

    /// Nothing prepared, nothing running, the first generation.
    pub fn new() -> (s: Self)
        ensures
            s.wf(),
            s.prepared@.len() == 0,
            s.active is None,
            s.generation == 0,
    {
        DragSessions { prepared: Vec::new(), active: None, generation: 0 }
    }

    /// Checks a request to prepare a drag of `count` records, when at most
    /// `max_records` can be exported at once: some records, not too many,
    /// and no drag running.
    pub fn check_request(&self, count: usize, max_records: usize) -> (r: Result<(), String>)
        ensures
            r is Ok <==> (count > 0 && count <= max_records && self.active is None),
            r matches Err(e) ==> e@ == "invalid clipboard drag selection or another drag is active"@,
    {
        if count == 0 || count > max_records || self.active.is_some() {
            Err("invalid clipboard drag selection or another drag is active".to_string())
        } else {
            Ok(())
        }
    }

    /// The prepared drags that have not expired at `now_ms` stay; the
    /// payloads of the others are returned to be released.
    pub fn expire(&mut self, now_ms: u64) -> (released: Vec<P>)
        requires
            old(self).wf(),
        ensures
            final(self).wf(),
            final(self).prepared@ == live(old(self).prepared@, now_ms),
            released@.len() + final(self).prepared@.len() == old(self).prepared@.len(),
            final(self).active == old(self).active,
            final(self).generation == old(self).generation,
    {
        let mut all: Vec<PreparedDrag<P>> = Vec::new();
        std::mem::swap(&mut all, &mut self.prepared);
        let (kept, released) = partition(all, Some(now_ms), None);
        proof {
            let pred = keep_pred::<P>(Some(now_ms), None);
            lemma_filter_unique(old(self).prepared@, pred);
        }
        self.prepared = kept;
        released
    }

    fn oldest(&self) -> (i: usize)
        requires
            self.prepared@.len() > 0,
        ensures
            i == oldest_index(self.prepared@),
    {
        let mut best: usize = 0;
        let mut i: usize = 1;
        while i < self.prepared.len()
            invariant
                1 <= i <= self.prepared@.len(),
                best == oldest_index(self.prepared@.take(i as int)),
                best < i,
            decreases self.prepared@.len() - i,
        {
            proof {
                lemma_oldest_in_range(self.prepared@.take(i as int));
            }
            assert(self.prepared@.take(i + 1).drop_last() =~= self.prepared@.take(i as int));
            if self.prepared[i].created_ms < self.prepared[best].created_ms {
                best = i;
            }
            i = i + 1;
        }
        assert(self.prepared@.take(i as int) =~= self.prepared@);
        best
    }

    /// Adds a drag prepared in generation `generation` under `token` for the
    /// window `owner` at `now_ms`. It is refused when the clipboard changed
    /// since. Otherwise expired drags go, the oldest goes when the room is
    /// full, a drag with the same token is replaced, and the new one joins
    /// last. The payloads that no longer wait are returned to be released.
    pub fn add_prepared(&mut self, token: String, owner: String, now_ms: u64, generation: u64, payload: P) -> (r: Result<Vec<P>, String>)
        requires
            old(self).wf(),
        ensures
            final(self).wf(),
            final(self).active == old(self).active,
            final(self).generation == old(self).generation,
            r is Err <==> generation != old(self).generation,
            r matches Err(e) ==> e@ == "clipboard drag preparation was cancelled"@,
            r is Err ==> final(self).prepared@ == old(self).prepared@,
            r is Ok ==> final(self).prepared@ == other_tokens(with_room(live(old(self).prepared@, now_ms)), token@).push(
                (PreparedDrag { token, owner, created_ms: now_ms, generation, payload }),
            ),
            r matches Ok(released) ==> released@.len() + final(self).prepared@.len() == old(self).prepared@.len() + 1,
    {
        if generation != self.generation {
            return Err("clipboard drag preparation was cancelled".to_string());
        }
        let mut released = self.expire(now_ms);
        let ghost lv = self.prepared@;
        if self.prepared.len() >= MAX_PREPARED {
            let i = self.oldest();
            proof {
                lemma_oldest_in_range(lv);
            }
            let p = self.prepared.remove(i);
            released.push(p.payload);
            assert forall|a: int, b: int| 0 <= a < b < self.prepared@.len() implies (#[trigger] self.prepared@[a]).token@
                != (#[trigger] self.prepared@[b]).token@ by {
                if a >= i {
                    assert(self.prepared@[a] == lv[a + 1] && self.prepared@[b] == lv[b + 1]);
                } else if b >= i {
                    assert(self.prepared@[a] == lv[a] && self.prepared@[b] == lv[b + 1]);
                } else {
                    assert(self.prepared@[a] == lv[a] && self.prepared@[b] == lv[b]);
                }
            }
        }
        assert(self.prepared@ == with_room(lv));
        let ghost roomy = self.prepared@;
        let mut all: Vec<PreparedDrag<P>> = Vec::new();
        std::mem::swap(&mut all, &mut self.prepared);
        let (mut kept, mut dropped) = partition(all, None, Some(token.as_str()));
        proof {
            let pred = keep_pred::<P>(None, Some(token@));
            lemma_filter_unique(roomy, pred);
            assert forall|k: int| 0 <= k < kept@.len() implies (#[trigger] kept@[k]).token@ != token@ by {
                roomy.lemma_filter_pred(pred, k);
            }
        }
        released.append(&mut dropped);
        let ghost before_push = kept@;
        kept.push(PreparedDrag { token, owner, created_ms: now_ms, generation, payload });
        assert forall|a: int, b: int| 0 <= a < b < kept@.len() implies (#[trigger] kept@[a]).token@
            != (#[trigger] kept@[b]).token@ by {
            if b == kept@.len() - 1 {
                assert(kept@[a] == before_push[a]);
            } else {
                assert(kept@[a] == before_push[a] && kept@[b] == before_push[b]);
            }
        }
        self.prepared = kept;
        Ok(released)
    }
}

/// The index of the prepared drag under `token` in `s`, or -1.
pub open spec fn token_index<P>(s: Seq<PreparedDrag<P>>, token: Seq<char>) -> int
    decreases s.len(),
{
    if s.len() == 0 {
        -1
    } else {
        let k = token_index(s.drop_last(), token);
        if k >= 0 {
            k
        } else if s.last().token@ == token {
            s.len() - 1
        } else {
            -1
        }
    }
}

proof fn lemma_token_index<P>(s: Seq<PreparedDrag<P>>, token: Seq<char>)
    ensures
        -1 <= token_index(s, token) < s.len(),
        token_index(s, token) >= 0 ==> s[token_index(s, token)].token@ == token,
        token_index(s, token) == -1 ==> forall|i: int| 0 <= i < s.len() ==> (#[trigger] s[i]).token@ != token,
    decreases s.len(),
{
    if s.len() > 0 {
        lemma_token_index(s.drop_last(), token);
        assert forall|i: int| 0 <= i < s.len() - 1 implies #[trigger] s[i] == s.drop_last()[i] by {}
    }
}

/// Whether ending the running drag under `token` is claimed now: it runs
/// and its end is not handled yet.
pub open spec fn end_claimed(active: Option<ActiveDrag>, token: Seq<char>) -> bool {
    match active {
        Some(a) => a.token@ == token && !a.finishing,
        None => false,
    }
}

/// The running drag once its end under `token` was claimed.
pub open spec fn after_claim(active: Option<ActiveDrag>, token: Seq<char>) -> Option<ActiveDrag> {
    match active {
        Some(a) => if a.token@ == token && !a.finishing {
            Some(ActiveDrag { finishing: true, ..a })
        } else {
            active
        },
        None => active,
    }
}

/// The end of a drag is handled once: after it was claimed, claiming it
/// again fails.
pub proof fn drag_end_is_handled_once(active: Option<ActiveDrag>, token: Seq<char>)
    ensures
        end_claimed(active, token) ==> !end_claimed(after_claim(active, token), token),
{
}

/// What becomes of the clipboard window once a drag ended.
#[derive(Debug, Clone, Copy, PartialEq, Eq)]
pub enum WindowAfterDrag {
    /// Clipboard history was turned off: the window follows the setting.
    Sync,
    Hide,
    Keep,
}

/// What becomes of the clipboard window once a drag ended: it follows the
/// setting when history is off; it hides when the clipboard is locked, or
/// when the content was dropped and the window is not pinned.
pub fn window_after_drag(history_disabled: bool, locked: bool, outcome: ClipboardDragOutcome, pinned: bool) -> (w: WindowAfterDrag)
    ensures
        w == if history_disabled {
            WindowAfterDrag::Sync
        } else if locked || (outcome == ClipboardDragOutcome::Dropped && !pinned) {
            WindowAfterDrag::Hide
        } else {
            WindowAfterDrag::Keep
        },
{
    if history_disabled {
        WindowAfterDrag::Sync
    } else if locked || (matches!(outcome, ClipboardDragOutcome::Dropped) && !pinned) {
        WindowAfterDrag::Hide
    } else {
        WindowAfterDrag::Keep
    }
}

impl<P> DragSessions<P> {
    fn find_token(&self, token: &str) -> (r: Option<usize>)
        ensures
            match r {
                Some(i) => i == token_index(self.prepared@, token@) && i < self.prepared@.len(),
                None => token_index(self.prepared@, token@) == -1,
            },
    {
        let t = chars_of(token);
        let mut i: usize = 0;
        while i < self.prepared.len()
            invariant
                i <= self.prepared@.len(),
                t@ == token@,
                token_index(self.prepared@.take(i as int), token@) == -1,
            decreases self.prepared@.len() - i,
        {
            assert(self.prepared@.take(i + 1).drop_last() =~= self.prepared@.take(i as int));
            if chars_equal(&chars_of(self.prepared[i].token.as_str()), &t) {
                assert(token_index(self.prepared@.take(i + 1), token@) == i);
                proof {
                    lemma_prefix_index(self.prepared@, token@, i + 1);
                }
                return Some(i);
            }
            i = i + 1;
        }
        assert(self.prepared@.take(i as int) =~= self.prepared@);
        None
    }

    /// Checks that the drag under `token` may be started by the window
    /// `owner` at `now_ms`: it is prepared, for that window, and has not
    /// expired.
    pub fn check_start(&self, token: &str, owner: &str, now_ms: u64) -> (r: Result<(), String>)
        ensures
            r is Ok <==> ({
                let k = token_index(self.prepared@, token@);
                k >= 0 && self.prepared@[k].owner@ == owner@ && !expired(self.prepared@[k].created_ms, now_ms)
            }),
            r matches Err(e) ==> e@ == "clipboard drag expired; drag again"@,
    {
        match self.find_token(token) {
            None => Err("clipboard drag expired; drag again".to_string()),
            Some(k) => {
                let p = &self.prepared[k];
                if !chars_equal(&chars_of(p.owner.as_str()), &chars_of(owner)) || is_expired(p.created_ms, now_ms) {
                    Err("clipboard drag expired; drag again".to_string())
                } else {
                    Ok(())
                }
            },
        }
    }

    /// Starts the drag under `token` at `now_ms` and hands out its payload.
    /// Only one drag runs at a time. The prepared drag is taken in any case
    /// once found; it starts only if it belongs to the current generation and
    /// has not expired.
    pub fn begin(&mut self, token: &str, now_ms: u64) -> (r: Result<P, String>)
        requires
            old(self).wf(),
        ensures
            final(self).wf(),
            final(self).generation == old(self).generation,
            old(self).active is Some ==> (r matches Err(e) && e@ == "another clipboard drag is active"@
                && final(self).prepared@ == old(self).prepared@ && final(self).active == old(self).active),
            old(self).active is None && token_index(old(self).prepared@, token@) == -1 ==> (r matches Err(e)
                && e@ == "clipboard drag was cancelled"@ && final(self).prepared@ == old(self).prepared@
                && final(self).active is None),
            old(self).active is None && token_index(old(self).prepared@, token@) >= 0 ==> {
                let k = token_index(old(self).prepared@, token@);
                let p = old(self).prepared@[k];
                &&& final(self).prepared@ == old(self).prepared@.remove(k)
                &&& if p.generation == old(self).generation && !expired(p.created_ms, now_ms) {
                    &&& r == Ok::<P, String>(p.payload)
                    &&& final(self).active == Some(ActiveDrag { token: p.token, owner: p.owner, finishing: false, cancel_requested: false })
                } else {
                    &&& r matches Err(e) && e@ == "clipboard drag expired; drag again"@
                    &&& final(self).active is None
                }
            },
    {
        if self.active.is_some() {
            return Err("another clipboard drag is active".to_string());
        }
        let k = match self.find_token(token) {
            None => return Err("clipboard drag was cancelled".to_string()),
            Some(k) => k,
        };
        let ghost before = self.prepared@;
        let p = self.prepared.remove(k);
        assert forall|a: int, b: int| 0 <= a < b < self.prepared@.len() implies (#[trigger] self.prepared@[a]).token@
            != (#[trigger] self.prepared@[b]).token@ by {
            if a >= k {
                assert(self.prepared@[a] == before[a + 1] && self.prepared@[b] == before[b + 1]);
            } else if b >= k {
                assert(self.prepared@[a] == before[a] && self.prepared@[b] == before[b + 1]);
            } else {
                assert(self.prepared@[a] == before[a] && self.prepared@[b] == before[b]);
            }
        }
        if p.generation != self.generation || is_expired(p.created_ms, now_ms) {
            return Err("clipboard drag expired; drag again".to_string());
        }
        self.active = Some(ActiveDrag { token: p.token, owner: p.owner, finishing: false, cancel_requested: false });
        Ok(p.payload)
    }

    /// The window `owner` cancels the drag under `token`: a prepared one is
    /// taken and its payload returned to be released; a running one is asked
    /// to stop, which the result says.
    pub fn cancel(&mut self, token: &str, owner: &str) -> (r: (Option<P>, bool))
        requires
            old(self).wf(),
        ensures
            final(self).wf(),
            final(self).generation == old(self).generation,
            ({
                let k = token_index(old(self).prepared@, token@);
                if k >= 0 && old(self).prepared@[k].owner@ == owner@ {
                    final(self).prepared@ == old(self).prepared@.remove(k) && r.0 == Some(old(self).prepared@[k].payload)
                } else {
                    final(self).prepared@ == old(self).prepared@ && r.0 is None
                }
            }),
            r.1 == match old(self).active {
                Some(a) => a.token@ == token@ && a.owner@ == owner@,
                None => false,
            },
            final(self).active == match old(self).active {
                Some(a) => if r.1 { Some(ActiveDrag { cancel_requested: true, ..a }) } else { old(self).active },
                None => old(self).active,
            },
    {
        let mut released: Option<P> = None;
        match self.find_token(token) {
            Some(k) => {
                if chars_equal(&chars_of(self.prepared[k].owner.as_str()), &chars_of(owner)) {
                    let ghost before = self.prepared@;
                    let p = self.prepared.remove(k);
                    assert forall|a: int, b: int| 0 <= a < b < self.prepared@.len() implies (#[trigger] self.prepared@[a]).token@
                        != (#[trigger] self.prepared@[b]).token@ by {
                        if a >= k {
                            assert(self.prepared@[a] == before[a + 1] && self.prepared@[b] == before[b + 1]);
                        } else if b >= k {
                            assert(self.prepared@[a] == before[a] && self.prepared@[b] == before[b + 1]);
                        } else {
                            assert(self.prepared@[a] == before[a] && self.prepared@[b] == before[b]);
                        }
                    }
                    released = Some(p.payload);
                }
            },
            None => {},
        }
        let signal = match &self.active {
            Some(a) => chars_equal(&chars_of(a.token.as_str()), &chars_of(token))
                && chars_equal(&chars_of(a.owner.as_str()), &chars_of(owner)),
            None => false,
        };
        if signal {
            match &mut self.active {
                Some(a) => {
                    a.cancel_requested = true;
                },
                None => {},
            }
        }
        (released, signal)
    }

    /// Claims the handling of the end of the drag under `token`: true once,
    /// when it runs and its end was not claimed before.
    pub fn claim_end(&mut self, token: &str) -> (claimed: bool)
        requires
            old(self).wf(),
        ensures
            final(self).wf(),
            claimed == end_claimed(old(self).active, token@),
            final(self).active == after_claim(old(self).active, token@),
            final(self).prepared@ == old(self).prepared@,
            final(self).generation == old(self).generation,
    {
        let claimed = match &self.active {
            Some(a) => chars_equal(&chars_of(a.token.as_str()), &chars_of(token)) && !a.finishing,
            None => false,
        };
        if claimed {
            match &mut self.active {
                Some(a) => {
                    a.finishing = true;
                },
                None => {},
            }
        }
        claimed
    }

    /// The drag under `token` is over: it no longer runs. Returns whether it
    /// was the one running.
    pub fn end(&mut self, token: &str) -> (ended: bool)
        requires
            old(self).wf(),
        ensures
            final(self).wf(),
            ended == match old(self).active {
                Some(a) => a.token@ == token@,
                None => false,
            },
            final(self).active == if ended { None } else { old(self).active },
            final(self).prepared@ == old(self).prepared@,
            final(self).generation == old(self).generation,
    {
        let ended = match &self.active {
            Some(a) => chars_equal(&chars_of(a.token.as_str()), &chars_of(token)),
            None => false,
        };
        if ended {
            self.active = None;
        }
        ended
    }

    /// The clipboard changed: a new generation begins, every prepared drag
    /// is dropped (their payloads are returned to be released) and a running
    /// drag is asked to stop, which the result says.
    pub fn invalidate(&mut self) -> (r: (Vec<P>, bool))
        requires
            old(self).wf(),
        ensures
            final(self).wf(),
            final(self).generation == old(self).generation.wrapping_add(1),
            final(self).prepared@.len() == 0,
            r.0@ == old(self).prepared@.map_values(|p: PreparedDrag<P>| p.payload),
            r.1 == old(self).active is Some,
            final(self).active == match old(self).active {
                Some(a) => Some(ActiveDrag { cancel_requested: true, ..a }),
                None => None,
            },
    {
        self.generation = self.generation.wrapping_add(1);
        let mut all: Vec<PreparedDrag<P>> = Vec::new();
        std::mem::swap(&mut all, &mut self.prepared);
        let released = payloads(all);
        let signal = self.active.is_some();
        match &mut self.active {
            Some(a) => {
                a.cancel_requested = true;
            },
            None => {},
        }
        (released, signal)
    }
}

fn payloads<P>(v: Vec<PreparedDrag<P>>) -> (r: Vec<P>)
    ensures
        r@ == v@.map_values(|p: PreparedDrag<P>| p.payload),
{
    let mut rest = v;
    let ghost all = rest@;
    let mut out: Vec<P> = Vec::new();
    while rest.len() > 0
        invariant
            out@.len() + rest@.len() == all.len(),
            rest@ == all.skip(out@.len() as int),
            out@ == all.take(out@.len() as int).map_values(|p: PreparedDrag<P>| p.payload),
        decreases rest@.len(),
    {
        let ghost k: int = out@.len() as int;
        let p = rest.remove(0);
        assert(p == all[k]);
        out.push(p.payload);
        assert(out@ =~= all.take(k + 1).map_values(|p: PreparedDrag<P>| p.payload));
        assert(rest@ =~= all.skip(k + 1));
    }
    assert(all.take(all.len() as int) =~= all);
    out
}

proof fn lemma_prefix_index<P>(s: Seq<PreparedDrag<P>>, token: Seq<char>, n: int)
    requires
        0 <= n <= s.len(),
        token_index(s.take(n), token) >= 0,
    ensures
        token_index(s, token) == token_index(s.take(n), token),
    decreases s.len() - n,
{
    if n < s.len() {
        assert(s.take(n + 1).drop_last() =~= s.take(n));
        lemma_prefix_index(s, token, n + 1);
    } else {
        assert(s.take(n) =~= s);
    }
}

proof fn lemma_filter_keeps_order<A>(s: Seq<A>, pred: spec_fn(A) -> bool, i: int, j: int)
    requires
        0 <= i < j < s.filter(pred).len(),
    ensures
        exists|a: int, b: int| 0 <= a < b < s.len() && s[a] == s.filter(pred)[i] && s[b] == s.filter(pred)[j],
    decreases s.len(),
{
    reveal(Seq::filter);
    let f = s.filter(pred);
    let g = s.drop_last().filter(pred);
    if pred(s.last()) && j == f.len() - 1 {
        assert(f[i] == g[i]);
        lemma_filter_index(s.drop_last(), pred, i);
        let a = choose|a: int| 0 <= a < s.drop_last().len() && s.drop_last()[a] == g[i];
        assert(s[a] == f[i]);
        assert(s[s.len() - 1] == f[j]);
    } else {
        assert(f[i] == g[i] && f[j] == g[j]);
        lemma_filter_keeps_order(s.drop_last(), pred, i, j);
        let (a, b) = choose|a: int, b: int| 0 <= a < b < s.drop_last().len() && s.drop_last()[a] == g[i] && s.drop_last()[b] == g[j];
        assert(s[a] == f[i] && s[b] == f[j]);
    }
}

proof fn lemma_filter_index<A>(s: Seq<A>, pred: spec_fn(A) -> bool, i: int)
    requires
        0 <= i < s.filter(pred).len(),
    ensures
        exists|a: int| 0 <= a < s.len() && s[a] == s.filter(pred)[i],
    decreases s.len(),
{
    reveal(Seq::filter);
    let f = s.filter(pred);
    let g = s.drop_last().filter(pred);
    if pred(s.last()) && i == f.len() - 1 {
        assert(s[s.len() - 1] == f[i]);
    } else {
        assert(f[i] == g[i]);
        lemma_filter_index(s.drop_last(), pred, i);
        let a = choose|a: int| 0 <= a < s.drop_last().len() && s.drop_last()[a] == g[i];
        assert(s[a] == f[i]);
    }
}

} // verus!
