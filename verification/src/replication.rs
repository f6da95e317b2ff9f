//! Bidirectional clipboard replication with other desktops: how the results
//! of reconciling with each peer add up to the summary of a manual merge.

use vstd::prelude::*;
use crate::sync_rules::{desktop_platform, hosts_desktop_control_service};
use crate::text::{
    chars_equal, chars_less, chars_of, extend_chars, lemma_seq_less_total,
    lemma_seq_less_transitive, lower_seq, seq_less, string_from_chars, strings_view, trim,
};

verus! {

/// Rounds of a manual merge: a second round carries records learned from one
/// peer to a peer visited before it, a third confirms that nothing changed.
pub const MERGE_ROUNDS: usize = 3;

/// What a manual merge with all reachable desktops achieved.
#[derive(Debug, Clone)]
pub struct ClipboardMergeSummary {
    pub devices: usize,
    pub received: usize,
    pub sent: usize,
    pub labels_received: usize,
    pub labels_sent: usize,
    pub failed: usize,
    pub total_records: usize,
    pub complete: bool,
    pub failures: Vec<String>,
}

/// What one reconciliation with a peer reported.
#[derive(Debug, Clone)]
pub struct PeerReconciliation {
    pub received: usize,
    pub sent: usize,
    pub labels_received: usize,
    pub labels_sent: usize,
    pub failed: usize,
    pub total_records: usize,
    pub converged: bool,
    pub local_revision: u64,
    pub remote_revision: u64,
    pub errors: Vec<String>,
}

/// The changes made in one round of a manual merge, and whether every peer
/// converged in it.
#[derive(Debug, Clone, Copy)]
pub struct MergeRound {
    pub changes: usize,
    pub complete: bool,
}

/// A failure as it is listed in a merge summary.
pub open spec fn failure_text(name: Seq<char>, error: Seq<char>) -> Seq<char> {
    name + ": "@ + error
}

/// The reason given for a peer that did not converge and named no error.
pub open spec fn still_syncing_text() -> Seq<char> {
    "new clipboard changes are still being synchronized"@
}

/// The reason given for a desktop that is connected but cannot merge.
pub open spec fn update_needed_text() -> Seq<char> {
    ": update this desktop to use reliable clipboard synchronization"@
}

impl PeerReconciliation {
    /// Records and labels that moved in either direction.
    pub open spec fn changes(self) -> int {
        self.received + self.sent + self.labels_received + self.labels_sent
    }

    /// The first error the peer reported, or the default reason.
    pub open spec fn first_error(self) -> Seq<char> {
        if self.errors@.len() > 0 {
            self.errors@[0]@
        } else {
            still_syncing_text()
        }
    }
}

/// The string `name: error`.
fn failure_string(name: &str, error: &str) -> (s: String)
    ensures
        s@ == failure_text(name@, error@),
{
    let mut v = chars_of(name);
    extend_chars(&mut v, &chars_of(": "));
    extend_chars(&mut v, &chars_of(error));
    assert(v@ =~= failure_text(name@, error@));
    string_from_chars(&v)
}

impl MergeRound {
    /// A round before any peer reported: no changes, nothing incomplete.
    pub fn new() -> (r: Self)
        ensures
            r.changes == 0,
            r.complete,
    {
        MergeRound { changes: 0, complete: true }
    }
}

impl ClipboardMergeSummary {
    /// The summary before any peer reported, for a merge with `devices`
    /// desktops that can merge.
    pub fn new(devices: usize) -> (s: Self)
        ensures
            s.devices == devices,
            s.received == 0,
            s.sent == 0,
            s.labels_received == 0,
            s.labels_sent == 0,
            s.failed == 0,
            s.total_records == 0,
            !s.complete,
            s.failures@.len() == 0,
            s.complete_without_failures(),
    {
        ClipboardMergeSummary {
            devices,
            received: 0,
            sent: 0,
            labels_received: 0,
            labels_sent: 0,
            failed: 0,
            total_records: 0,
            complete: false,
            failures: Vec::new(),
        }
    }

    /// A summary marked complete lists no failures.
    pub open spec fn complete_without_failures(self) -> bool {
        self.complete ==> self.failures@.len() == 0
    }

    /// Whether the counters can take `peer`'s report without overflow.
    pub open spec fn can_add(self, round: MergeRound, peer: PeerReconciliation) -> bool {
        &&& self.received + peer.received <= usize::MAX
        &&& self.sent + peer.sent <= usize::MAX
        &&& self.labels_received + peer.labels_received <= usize::MAX
        &&& self.labels_sent + peer.labels_sent <= usize::MAX
        &&& self.failed + peer.failed <= usize::MAX
        &&& round.changes + peer.changes() <= usize::MAX
    }

    /// Adds what peer `name` reported in this round. A peer that did not
    /// converge leaves the round incomplete and is listed with its first
    /// error.
    pub fn record_reconciled(&mut self, round: &mut MergeRound, name: &str, peer: &PeerReconciliation)
        requires
            old(self).can_add(*old(round), *peer),
            !old(self).complete,
        ensures
            final(self).complete_without_failures(),
            final(self).devices == old(self).devices,
            final(self).received == old(self).received + peer.received,
            final(self).sent == old(self).sent + peer.sent,
            final(self).labels_received == old(self).labels_received + peer.labels_received,
            final(self).labels_sent == old(self).labels_sent + peer.labels_sent,
            final(self).failed == old(self).failed + peer.failed,
            final(self).total_records == if peer.total_records > old(self).total_records {
                peer.total_records
            } else {
                old(self).total_records
            },
            final(self).complete == old(self).complete,
            strings_view(final(self).failures@) == if peer.converged {
                strings_view(old(self).failures@)
            } else {
                strings_view(old(self).failures@).push(failure_text(name@, peer.first_error()))
            },
            final(round).changes == old(round).changes + peer.changes(),
            final(round).complete == (old(round).complete && peer.converged),
    {
        round.changes = round.changes + peer.received + peer.sent + peer.labels_received
            + peer.labels_sent;
        self.received = self.received + peer.received;
        self.sent = self.sent + peer.sent;
        self.labels_received = self.labels_received + peer.labels_received;
        self.labels_sent = self.labels_sent + peer.labels_sent;
        self.failed = self.failed + peer.failed;
        if peer.total_records > self.total_records {
            self.total_records = peer.total_records;
        }
        round.complete = round.complete && peer.converged;
        if !peer.converged {
            let failure = if peer.errors.len() > 0 {
                failure_string(name, peer.errors[0].as_str())
            } else {
                failure_string(name, "new clipboard changes are still being synchronized")
            };
            self.failures.push(failure);
            assert(strings_view(self.failures@) =~= strings_view(old(self).failures@).push(
                failure_text(name@, peer.first_error()),
            ));
        } else {
            assert(strings_view(self.failures@) =~= strings_view(old(self).failures@));
        }
    }

    /// Counts peer `name`, whose reconciliation failed with `error`, as
    /// failed and leaves the round incomplete.
    pub fn record_failure(&mut self, round: &mut MergeRound, name: &str, error: &str)
        requires
            old(self).failed < usize::MAX,
            !old(self).complete,
        ensures
            final(self).complete_without_failures(),
            final(self).devices == old(self).devices,
            final(self).received == old(self).received,
            final(self).sent == old(self).sent,
            final(self).labels_received == old(self).labels_received,
            final(self).labels_sent == old(self).labels_sent,
            final(self).failed == old(self).failed + 1,
            final(self).total_records == old(self).total_records,
            final(self).complete == old(self).complete,
            strings_view(final(self).failures@) == strings_view(old(self).failures@).push(
                failure_text(name@, error@),
            ),
            final(round).changes == old(round).changes,
            !final(round).complete,
    {
        round.complete = false;
        self.failed = self.failed + 1;
        let failure = failure_string(name, error);
        self.failures.push(failure);
        assert(strings_view(self.failures@) =~= strings_view(old(self).failures@).push(
            failure_text(name@, error@),
        ));
    }

    /// Closes a round and says whether the merge stops. It stops once any
    /// peer failed, and when every peer converged without a change, which
    /// completes it; a round in which every peer converged clears the
    /// failures listed so far.
    pub fn finish_round(&mut self, round: &MergeRound) -> (stop: bool)
        ensures
            old(self).complete_without_failures() ==> final(self).complete_without_failures(),
            stop == (old(self).failed > 0 || (round.complete && round.changes == 0)),
            final(self).devices == old(self).devices,
            final(self).received == old(self).received,
            final(self).sent == old(self).sent,
            final(self).labels_received == old(self).labels_received,
            final(self).labels_sent == old(self).labels_sent,
            final(self).failed == old(self).failed,
            final(self).total_records == old(self).total_records,
            final(self).complete == if old(self).failed == 0 && round.complete && round.changes
                == 0 {
                true
            } else {
                old(self).complete
            },
            final(self).failures@ == if old(self).failed == 0 && round.complete {
                Seq::<String>::empty()
            } else {
                old(self).failures@
            },
    {
        if self.failed > 0 {
            return true;
        }
        if round.complete && round.changes == 0 {
            self.complete = true;
            self.failures.clear();
            return true;
        }
        if round.complete {
            self.failures.clear();
        }
        false
    }
}


/// Why a manual merge does not start, if it does not: one is already
/// running, synchronization is off, or no online desktop offers reliable
/// clipboard synchronization (`transports` is how many do).
pub open spec fn merge_refusal(already_running: bool, sync_enabled: bool, transports: nat) -> Option<Seq<char>> {
    if already_running {
        Some("clipboard synchronization is already running"@)
    } else if !sync_enabled {
        Some("clipboard synchronization is disabled"@)
    } else if transports == 0 {
        Some("no online desktop supports reliable clipboard synchronization; update both desktops and reconnect"@)
    } else {
        None
    }
}

/// The checks before a manual merge: refused as `merge_refusal` says, else
/// the empty summary of a merge with the `transports` desktops that can merge.
pub fn start_merge(already_running: bool, sync_enabled: bool, transports: usize) -> (r: Result<ClipboardMergeSummary, String>)
    ensures
        match merge_refusal(already_running, sync_enabled, transports as nat) {
            Some(e) => r is Err && r->Err_0@ == e,
            None => r matches Ok(s) && s.devices == transports && s.received == 0 && s.sent == 0
                && s.labels_received == 0 && s.labels_sent == 0 && s.failed == 0 && s.total_records == 0
                && !s.complete && s.failures@.len() == 0,
        },
{
    if already_running {
        return Err("clipboard synchronization is already running".to_string());
    }
    if !sync_enabled {
        return Err("clipboard synchronization is disabled".to_string());
    }
    if transports == 0 {
        return Err(
            "no online desktop supports reliable clipboard synchronization; update both desktops and reconnect".to_string(),
        );
    }
    Ok(ClipboardMergeSummary::new(transports))
}

/// Whether another round of a manual merge runs after `rounds_done` rounds,
/// the last of which said `stop` (see `finish_round`): none after a stop,
/// and at most `MERGE_ROUNDS` in all.
pub fn another_round(rounds_done: usize, stop: bool) -> (b: bool)
    ensures
        b == (!stop && rounds_done < MERGE_ROUNDS),
{
    !stop && rounds_done < MERGE_ROUNDS
}

/// Strings in strictly ascending order, so that none occurs twice.
pub open spec fn ascending(s: Seq<Seq<char>>) -> bool {
    forall|i: int, j: int| 0 <= i < j < s.len() ==> seq_less(#[trigger] s[i], #[trigger] s[j])
}

proof fn lemma_insert_to_set<A>(s: Seq<A>, p: int, x: A)
    requires
        0 <= p <= s.len(),
    ensures
        s.insert(p, x).to_set() == s.to_set().insert(x),
{
    assert forall|y: A| #[trigger] s.insert(p, x).contains(y) implies s.contains(y) || y == x by {
        let i = choose|i: int| 0 <= i < s.insert(p, x).len() && s.insert(p, x)[i] == y;
        if i < p {
            assert(s[i] == y);
        } else if i > p {
            assert(s[i - 1] == y);
        }
    }
    assert forall|y: A| s.contains(y) || y == x implies #[trigger] s.insert(p, x).contains(y) by {
        if y == x {
            assert(s.insert(p, x)[p] == y);
        } else {
            let i = choose|i: int| 0 <= i < s.len() && s[i] == y;
            if i < p {
                assert(s.insert(p, x)[i] == y);
            } else {
                assert(s.insert(p, x)[i + 1] == y);
            }
        }
    }
    assert(s.insert(p, x).to_set() =~= s.to_set().insert(x));
}

/// The strings of `v` in ascending order, each once.
pub fn sorted_unique(v: &Vec<String>) -> (out: Vec<String>)
    ensures
        ascending(strings_view(out@)),
        strings_view(out@).to_set() == strings_view(v@).to_set(),
{
    let mut out: Vec<String> = Vec::new();
    let mut keys: Vec<Vec<char>> = Vec::new();
    let mut k: usize = 0;
    assert(strings_view(v@.take(0)).to_set() =~= strings_view(out@).to_set());
    while k < v.len()
        invariant
            k <= v@.len(),
            keys@.len() == out@.len(),
            forall|i: int| 0 <= i < keys@.len() ==> (#[trigger] keys@[i])@ == out@[i]@,
            ascending(strings_view(out@)),
            strings_view(out@).to_set() == strings_view(v@.take(k as int)).to_set(),
        decreases v@.len() - k,
    {
        let x = chars_of(v[k].as_str());
        let mut p: usize = 0;
        while p < keys.len() && chars_less(&keys[p], &x)
            invariant
                p <= keys@.len(),
                keys@.len() == out@.len(),
                forall|i: int| 0 <= i < keys@.len() ==> (#[trigger] keys@[i])@ == out@[i]@,
                forall|i: int| 0 <= i < p ==> seq_less((#[trigger] out@[i])@, x@),
            decreases keys@.len() - p,
        {
            p = p + 1;
        }
        let ghost old_view = strings_view(out@);
        assert(strings_view(v@.take(k + 1)) =~= strings_view(v@.take(k as int)).push(x@));
        proof {
            strings_view(v@.take(k as int)).lemma_push_to_set_commute(x@);
        }
        if p < keys.len() && chars_equal(&keys[p], &x) {
            assert(old_view[p as int] == x@);
            assert(strings_view(out@).to_set() =~= strings_view(out@).to_set().insert(x@));
        } else {
            proof {
                if p < keys@.len() {
                    lemma_seq_less_total(out@[p as int]@, x@);
                }
            }
            out.insert(p, v[k].clone());
            keys.insert(p, x);
            assert(strings_view(out@) =~= old_view.insert(p as int, x@));
            proof {
                lemma_insert_to_set(old_view, p as int, x@);
                let nv = strings_view(out@);
                assert forall|i: int, j: int| 0 <= i < j < nv.len() implies seq_less(
                    #[trigger] nv[i],
                    #[trigger] nv[j],
                ) by {
                    if j == p {
                        assert(nv[i] == old_view[i]);
                    } else if i == p {
                        assert(nv[j] == old_view[j - 1]);
                        if j - 1 > p {
                            assert(seq_less(old_view[p as int], old_view[j - 1]));
                            lemma_seq_less_transitive(x@, old_view[p as int], old_view[j - 1]);
                        }
                    } else if i < p && j < p {
                        assert(nv[i] == old_view[i] && nv[j] == old_view[j]);
                    } else if i < p {
                        assert(nv[i] == old_view[i] && nv[j] == old_view[j - 1]);
                    } else {
                        assert(nv[i] == old_view[i - 1] && nv[j] == old_view[j - 1]);
                    }
                }
            }
        }
        k = k + 1;
    }
    assert(v@.take(v@.len() as int) =~= v@);
    out
}


/// A desktop that is connected now, with what discovery knows of it.
#[derive(Debug, Clone)]
pub struct ConnectedDesktop {
    pub has_reliable_transport: bool,
    pub discovered: Option<DiscoveredDesktop>,
}

/// The name and platform that a desktop advertises.
#[derive(Debug, Clone)]
pub struct DiscoveredDesktop {
    pub name: String,
    pub platform: String,
}

/// A connected, discovered desktop of a desktop platform that offers no
/// reliable clipboard transport: it runs a version that cannot merge.
pub open spec fn needs_update(d: ConnectedDesktop) -> bool {
    match d.discovered {
        Some(peer) => !d.has_reliable_transport && desktop_platform(lower_seq(trim(peer.platform@))),
        None => false,
    }
}

/// The failures listed for the desktops of `s` that need an update, in order.
pub open spec fn update_failures(s: Seq<ConnectedDesktop>) -> Seq<Seq<char>>
    decreases s.len(),
{
    if s.len() == 0 {
        Seq::empty()
    } else {
        let rest = update_failures(s.drop_last());
        match s.last().discovered {
            Some(peer) => if needs_update(s.last()) {
                rest.push(peer.name@ + update_needed_text())
            } else {
                rest
            },
            None => rest,
        }
    }
}

/// The failures to list for connected desktops that cannot merge.
pub fn unsupported_desktop_failures(connected: &[ConnectedDesktop]) -> (out: Vec<String>)
    ensures
        strings_view(out@) == update_failures(connected@),
{
    let mut out: Vec<String> = Vec::new();
    let mut i: usize = 0;
    while i < connected.len()
        invariant
            i <= connected@.len(),
            strings_view(out@) == update_failures(connected@.take(i as int)),
        decreases connected@.len() - i,
    {
        let d = &connected[i];
        assert(connected@.take(i + 1).drop_last() =~= connected@.take(i as int));
        let ghost before = strings_view(out@);
        match &d.discovered {
            Some(peer) => {
                if !d.has_reliable_transport && hosts_desktop_control_service(peer.platform.as_str()) {
                    let mut v = chars_of(peer.name.as_str());
                    extend_chars(&mut v, &chars_of(": update this desktop to use reliable clipboard synchronization"));
                    out.push(string_from_chars(&v));
                    assert(strings_view(out@) =~= before.push(peer.name@ + update_needed_text()));
                }
            },
            None => {},
        }
        i = i + 1;
    }
    assert(connected@.take(connected@.len() as int) =~= connected@);
    out
}

impl ClipboardMergeSummary {
    /// Counts the desktops that need an update as devices that failed, so
    /// that the merge is not complete, and lists their failures.
    pub fn add_unsupported(&mut self, unsupported: Vec<String>)
        requires
            old(self).devices + unsupported@.len() <= usize::MAX,
            old(self).failed + unsupported@.len() <= usize::MAX,
        ensures
            final(self).devices == old(self).devices + unsupported@.len(),
            final(self).failed == old(self).failed + unsupported@.len(),
            final(self).complete == (old(self).complete && unsupported@.len() == 0),
            final(self).failures@ == old(self).failures@ + unsupported@,
            final(self).received == old(self).received,
            final(self).sent == old(self).sent,
            final(self).labels_received == old(self).labels_received,
            final(self).labels_sent == old(self).labels_sent,
            final(self).total_records == old(self).total_records,
            old(self).complete_without_failures() ==> final(self).complete_without_failures(),
    {
        let mut unsupported = unsupported;
        let n = unsupported.len();
        if n > 0 {
            self.devices = self.devices + n;
            self.failed = self.failed + n;
            self.complete = false;
            self.failures.append(&mut unsupported);
        } else {
            assert(self.failures@ =~= old(self).failures@ + unsupported@);
        }
    }

    /// Closes the merge: the record count is the one that the local history
    /// reports (none when it reports nothing), and each failure is listed
    /// once, in ascending order.
    pub fn finish(&mut self, total_count: Option<u64>)
        ensures
            final(self).total_records == match total_count {
                Some(n) => n as usize,
                None => 0usize,
            },
            ascending(strings_view(final(self).failures@)),
            strings_view(final(self).failures@).to_set() == strings_view(old(self).failures@).to_set(),
            final(self).devices == old(self).devices,
            final(self).received == old(self).received,
            final(self).sent == old(self).sent,
            final(self).labels_received == old(self).labels_received,
            final(self).labels_sent == old(self).labels_sent,
            final(self).failed == old(self).failed,
            final(self).complete == old(self).complete,
            old(self).complete_without_failures() ==> final(self).complete_without_failures(),
    {
        self.total_records = match total_count {
            Some(n) => n as usize,
            None => 0,
        };
        let ghost before = self.failures@;
        self.failures = sorted_unique(&self.failures);
        proof {
            if before.len() == 0 && self.failures@.len() > 0 {
                assert(strings_view(self.failures@).to_set().contains(strings_view(self.failures@)[0]));
                assert(strings_view(before) =~= Seq::<Seq<char>>::empty());
                assert(strings_view(before).to_set() =~= Set::<Seq<char>>::empty());
            }
        }
    }
}

} // verus!
