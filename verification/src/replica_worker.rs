//! The decisions of the background worker that keeps one peer desktop in
//! step: which live copy waits to be sent, when to reconcile again, and how
//! retries back off. The worker's loop hands each event to these functions
//! and performs the actions they return.

use vstd::prelude::*;
use crate::text::{chars_equal, chars_less, chars_of, lemma_seq_less_total, seq_less};

verus! {

/// Seconds before the first retry of a reconciliation or a live send.
pub const FIRST_RETRY_SECS: u64 = 2;
/// Longest wait between reconciliations that did not converge.
pub const MAX_RECONCILE_DELAY_SECS: u64 = 60;
/// Longest wait between attempts to send a live copy.
pub const MAX_SEND_DELAY_SECS: u64 = 30;
/// Latest point in time, in milliseconds since the worker started, that the
/// worker accepts: the longest wait still fits after it.
pub const LAST_INSTANT_MS: u64 = 18_446_744_073_709_490_000;

/// What identifies a live copy and orders it among others: when it was
/// captured, then the device that last changed it, then its id.
#[derive(Debug, Clone)]
pub struct LiveCopy {
    pub captured_at_ms: i64,
    pub updated_by_device_id: String,
    pub sync_id: String,
    pub revision: u64,
}

/// Whether live copy `a` orders before `b`.
pub open spec fn copy_before(a: LiveCopy, b: LiveCopy) -> bool {
    ||| a.captured_at_ms < b.captured_at_ms
    ||| a.captured_at_ms == b.captured_at_ms && seq_less(a.updated_by_device_id@, b.updated_by_device_id@)
    ||| a.captured_at_ms == b.captured_at_ms && a.updated_by_device_id@ == b.updated_by_device_id@
        && seq_less(a.sync_id@, b.sync_id@)
}

/// No live copy orders before itself, and of two, at most one orders
/// before the other.
pub proof fn lemma_copy_order(a: LiveCopy, b: LiveCopy)
    ensures
        !copy_before(a, a),
        !(copy_before(a, b) && copy_before(b, a)),
{
    lemma_seq_less_total(a.updated_by_device_id@, b.updated_by_device_id@);
    lemma_seq_less_total(a.updated_by_device_id@, a.updated_by_device_id@);
    lemma_seq_less_total(b.updated_by_device_id@, b.updated_by_device_id@);
    lemma_seq_less_total(a.sync_id@, b.sync_id@);
    lemma_seq_less_total(a.sync_id@, a.sync_id@);
}

/// Whether live copy `a` orders before `b`.
pub fn is_copy_before(a: &LiveCopy, b: &LiveCopy) -> (r: bool)
    ensures
        r == copy_before(*a, *b),
{
    if a.captured_at_ms != b.captured_at_ms {
        return a.captured_at_ms < b.captured_at_ms;
    }
    let ad = chars_of(a.updated_by_device_id.as_str());
    let bd = chars_of(b.updated_by_device_id.as_str());
    if !chars_equal(&ad, &bd) {
        return chars_less(&ad, &bd);
    }
    proof {
        lemma_seq_less_total(a.updated_by_device_id@, a.updated_by_device_id@);
    }
    chars_less(&chars_of(a.sync_id.as_str()), &chars_of(b.sync_id.as_str()))
}

/// How a reconciliation with the peer ended.
#[derive(Debug, Clone)]
pub enum ReconciliationOutcome {
    /// Both sides hold the same records at these revisions.
    Converged { local_revision: u64, remote_revision: u64 },
    /// It ran but records still differ; the first error the peer reported.
    Pending { first_error: Option<String> },
    /// It did not run to the end.
    Failed { error: String },
}

/// The error under which a reconciliation that did not converge is logged.
pub open spec fn outcome_error(outcome: ReconciliationOutcome) -> Seq<char> {
    match outcome {
        ReconciliationOutcome::Converged { .. } => Seq::empty(),
        ReconciliationOutcome::Pending { first_error } => match first_error {
            Some(e) => e@,
            None => "clipboard changed during reconciliation"@,
        },
        ReconciliationOutcome::Failed { error } => error@,
    }
}

/// The next wait after one of `delay` seconds: twice as long, at most `max`.
pub open spec fn backoff(delay: u64, max: u64) -> u64 {
    if delay * 2 < max {
        (delay * 2) as u64
    } else {
        max
    }
}

/// The state that the worker of one peer keeps between events.
#[derive(Debug)]
pub struct ReplicaWorker {
    /// Local and remote revisions at the last converged reconciliation.
    pub known_revisions: Option<(u64, u64)>,
    /// The live copy that still has to reach the peer.
    pub pending_copy: Option<LiveCopy>,
    /// Whether the durable selection must be read again.
    pub recover_selection: bool,
    pub retry_at_ms: u64,
    pub retry_delay_secs: u64,
    pub last_error: String,
    pub reconcile_at_ms: u64,
    pub reconcile_delay_secs: u64,
    /// Whether a reconciliation runs now.
    pub reconciling: bool,
    /// Whether a live copy is being sent now.
    pub sending: bool,
}

impl ReplicaWorker {
    /// The waits stay between the first retry and their longest.
    pub open spec fn wf(self) -> bool {
        &&& FIRST_RETRY_SECS <= self.retry_delay_secs <= MAX_SEND_DELAY_SECS
        &&& FIRST_RETRY_SECS <= self.reconcile_delay_secs <= MAX_RECONCILE_DELAY_SECS
    }

    /// A worker that starts by reading the durable selection, and may send
    /// and reconcile at once.
    pub fn new(now_ms: u64) -> (w: Self)
        ensures
            w.wf(),
            w.known_revisions is None,
            w.pending_copy is None,
            w.recover_selection,
            w.retry_at_ms == now_ms,
            w.retry_delay_secs == FIRST_RETRY_SECS,
            w.last_error@ == Seq::<char>::empty(),
            w.reconcile_at_ms == now_ms,
            w.reconcile_delay_secs == FIRST_RETRY_SECS,
            !w.reconciling,
            !w.sending,
    {
        ReplicaWorker {
            known_revisions: None,
            pending_copy: None,
            recover_selection: true,
            retry_at_ms: now_ms,
            retry_delay_secs: FIRST_RETRY_SECS,
            last_error: String::new(),
            reconcile_at_ms: now_ms,
            reconcile_delay_secs: FIRST_RETRY_SECS,
            reconciling: false,
            sending: false,
        }
    }

    /// A local change that is to be sent to peers. A live copy that orders
    /// no earlier than the one waiting takes its place (earlier ones stay
    /// durable and reach the peer by reconciliation), aborts a send in
    /// progress and may be sent at once. Any such change makes the peer's
    /// revisions unknown and a reconciliation due. Returns whether the copy
    /// took the place, so that the caller aborts the send and keeps it.
    pub fn on_local_change(&mut self, live_copy: Option<LiveCopy>, now_ms: u64) -> (replaced: bool)
        requires
            old(self).wf(),
        ensures
            final(self).wf(),
            replaced == match live_copy {
                Some(c) => match old(self).pending_copy {
                    Some(p) => !copy_before(c, p),
                    None => true,
                },
                None => false,
            },
            final(self).pending_copy == if replaced {
                live_copy
            } else {
                old(self).pending_copy
            },
            final(self).sending == (old(self).sending && !replaced),
            final(self).retry_at_ms == if replaced { now_ms } else { old(self).retry_at_ms },
            final(self).retry_delay_secs == if replaced {
                FIRST_RETRY_SECS
            } else {
                old(self).retry_delay_secs
            },
            live_copy matches Some(c) ==> (final(self).pending_copy matches Some(p) && !copy_before(p, c)),
            final(self).known_revisions is None,
            final(self).reconcile_at_ms == now_ms,
            final(self).recover_selection == old(self).recover_selection,
            final(self).last_error == old(self).last_error,
            final(self).reconcile_delay_secs == old(self).reconcile_delay_secs,
            final(self).reconciling == old(self).reconciling,
    {
        let ghost offered = live_copy;
        let replaced = match &live_copy {
            Some(c) => match &self.pending_copy {
                Some(p) => !is_copy_before(c, p),
                None => true,
            },
            None => false,
        };
        if replaced {
            self.sending = false;
            self.pending_copy = live_copy;
            self.retry_at_ms = now_ms;
            self.retry_delay_secs = FIRST_RETRY_SECS;
        }
        proof {
            if let Some(c) = offered {
                if let Some(p) = old(self).pending_copy {
                    lemma_copy_order(c, p);
                }
                lemma_copy_order(c, c);
            }
        }
        self.known_revisions = None;
        self.reconcile_at_ms = now_ms;
        replaced
    }

    /// The worker missed changes: the selection is read again, the waiting
    /// copy and any send in progress are dropped, and the revisions are
    /// unknown.
    pub fn on_lagged(&mut self, now_ms: u64)
        requires
            old(self).wf(),
        ensures
            final(self).wf(),
            final(self).known_revisions is None,
            final(self).recover_selection,
            final(self).pending_copy is None,
            !final(self).sending,
            final(self).retry_at_ms == now_ms,
            final(self).retry_delay_secs == old(self).retry_delay_secs,
            final(self).last_error == old(self).last_error,
            final(self).reconcile_at_ms == old(self).reconcile_at_ms,
            final(self).reconcile_delay_secs == old(self).reconcile_delay_secs,
            final(self).reconciling == old(self).reconciling,
    {
        self.known_revisions = None;
        self.recover_selection = true;
        self.pending_copy = None;
        self.sending = false;
        self.retry_at_ms = now_ms;
    }

    /// The durable selection was read: it becomes the copy that waits.
    pub fn on_selection_recovered(&mut self, selection: Option<LiveCopy>)
        requires
            old(self).wf(),
        ensures
            final(self).wf(),
            final(self).pending_copy == selection,
            !final(self).recover_selection,
            final(self).known_revisions == old(self).known_revisions,
            final(self).sending == old(self).sending,
            final(self).retry_at_ms == old(self).retry_at_ms,
            final(self).retry_delay_secs == old(self).retry_delay_secs,
            final(self).last_error == old(self).last_error,
            final(self).reconcile_at_ms == old(self).reconcile_at_ms,
            final(self).reconcile_delay_secs == old(self).reconcile_delay_secs,
            final(self).reconciling == old(self).reconciling,
    {
        self.pending_copy = selection;
        self.recover_selection = false;
    }

    /// Whether a reconciliation starts now: none runs, its time has come and
    /// synchronization is enabled. When it starts, the revisions known from
    /// the last converged one go with it.
    pub fn start_reconciliation(&mut self, now_ms: u64, enabled: bool) -> (start: Option<Option<(u64, u64)>>)
        requires
            old(self).wf(),
        ensures
            final(self).wf(),
            start == if !old(self).reconciling && now_ms >= old(self).reconcile_at_ms && enabled {
                Some(old(self).known_revisions)
            } else {
                None::<Option<(u64, u64)>>
            },
            final(self).reconciling == (old(self).reconciling || start is Some),
            final(self).known_revisions == old(self).known_revisions,
            final(self).pending_copy == old(self).pending_copy,
            final(self).recover_selection == old(self).recover_selection,
            final(self).sending == old(self).sending,
            final(self).retry_at_ms == old(self).retry_at_ms,
            final(self).retry_delay_secs == old(self).retry_delay_secs,
            final(self).last_error == old(self).last_error,
            final(self).reconcile_at_ms == old(self).reconcile_at_ms,
            final(self).reconcile_delay_secs == old(self).reconcile_delay_secs,
    {
        if !self.reconciling && now_ms >= self.reconcile_at_ms && enabled {
            self.reconciling = true;
            Some(self.known_revisions)
        } else {
            None
        }
    }

    /// A reconciliation ended. One that converged records the revisions and
    /// resets the wait; otherwise the revisions are unknown, the next one is
    /// due after the current wait, which then doubles up to a minute. Returns
    /// whether the error differs from the last one logged, so that the
    /// caller logs it.
    pub fn on_reconciliation_finished(&mut self, outcome: ReconciliationOutcome, now_ms: u64) -> (log: bool)
        requires
            old(self).wf(),
            now_ms <= LAST_INSTANT_MS,
        ensures
            final(self).wf(),
            !final(self).reconciling,
            match outcome {
                ReconciliationOutcome::Converged { local_revision, remote_revision } => {
                    &&& final(self).known_revisions == Some((local_revision, remote_revision))
                    &&& final(self).last_error@ == Seq::<char>::empty()
                    &&& final(self).reconcile_delay_secs == FIRST_RETRY_SECS
                    &&& final(self).reconcile_at_ms == old(self).reconcile_at_ms
                    &&& !log
                },
                _ => {
                    &&& final(self).known_revisions is None
                    &&& final(self).reconcile_at_ms == now_ms + old(self).reconcile_delay_secs * 1000
                    &&& final(self).reconcile_delay_secs == backoff(
                        old(self).reconcile_delay_secs,
                        MAX_RECONCILE_DELAY_SECS,
                    )
                    &&& log == (old(self).last_error@ != outcome_error(outcome))
                    &&& final(self).last_error@ == outcome_error(outcome)
                },
            },
            final(self).pending_copy == old(self).pending_copy,
            final(self).recover_selection == old(self).recover_selection,
            final(self).sending == old(self).sending,
            final(self).retry_at_ms == old(self).retry_at_ms,
            final(self).retry_delay_secs == old(self).retry_delay_secs,
    {
        self.reconciling = false;
        let error: String = match outcome {
            ReconciliationOutcome::Converged { local_revision, remote_revision } => {
                self.known_revisions = Some((local_revision, remote_revision));
                self.last_error = String::new();
                self.reconcile_delay_secs = FIRST_RETRY_SECS;
                return false;
            },
            ReconciliationOutcome::Pending { first_error } => match first_error {
                Some(e) => e,
                None => "clipboard changed during reconciliation".to_string(),
            },
            ReconciliationOutcome::Failed { error } => error,
        };
        self.known_revisions = None;
        self.reconcile_at_ms = now_ms + self.reconcile_delay_secs * 1000;
        self.reconcile_delay_secs = if self.reconcile_delay_secs * 2 < MAX_RECONCILE_DELAY_SECS {
            self.reconcile_delay_secs * 2
        } else {
            MAX_RECONCILE_DELAY_SECS
        };
        let changed = !chars_equal(&chars_of(self.last_error.as_str()), &chars_of(error.as_str()));
        self.last_error = error;
        changed
    }

    /// Whether the waiting copy is sent now: no send runs, its time has come,
    /// synchronization is enabled and a copy waits.
    pub fn start_send(&mut self, now_ms: u64, enabled: bool) -> (send: Option<LiveCopy>)
        requires
            old(self).wf(),
        ensures
            final(self).wf(),
            send == if !old(self).sending && now_ms >= old(self).retry_at_ms && enabled {
                old(self).pending_copy
            } else {
                None::<LiveCopy>
            },
            final(self).sending == (old(self).sending || send is Some),
            final(self).known_revisions == old(self).known_revisions,
            final(self).pending_copy == old(self).pending_copy,
            final(self).recover_selection == old(self).recover_selection,
            final(self).retry_at_ms == old(self).retry_at_ms,
            final(self).retry_delay_secs == old(self).retry_delay_secs,
            final(self).last_error == old(self).last_error,
            final(self).reconcile_at_ms == old(self).reconcile_at_ms,
            final(self).reconcile_delay_secs == old(self).reconcile_delay_secs,
            final(self).reconciling == old(self).reconciling,
    {
        if !self.sending && now_ms >= self.retry_at_ms && enabled {
            match &self.pending_copy {
                Some(c) => {
                    self.sending = true;
                    Some(c.clone_copy())
                },
                None => None,
            }
        } else {
            None
        }
    }

    /// A send ended. One that succeeded clears the waiting copy and resets
    /// the wait; one that failed is tried again after the current wait,
    /// which then doubles up to half a minute, and makes the revisions
    /// unknown.
    pub fn on_send_finished(&mut self, succeeded: bool, now_ms: u64)
        requires
            old(self).wf(),
            now_ms <= LAST_INSTANT_MS,
        ensures
            final(self).wf(),
            !final(self).sending,
            succeeded ==> final(self).pending_copy is None
                && final(self).retry_delay_secs == FIRST_RETRY_SECS
                && final(self).retry_at_ms == old(self).retry_at_ms
                && final(self).known_revisions == old(self).known_revisions,
            !succeeded ==> final(self).pending_copy == old(self).pending_copy
                && final(self).retry_at_ms == now_ms + old(self).retry_delay_secs * 1000
                && final(self).retry_delay_secs == backoff(old(self).retry_delay_secs, MAX_SEND_DELAY_SECS)
                && final(self).known_revisions is None,
            final(self).recover_selection == old(self).recover_selection,
            final(self).last_error == old(self).last_error,
            final(self).reconcile_at_ms == old(self).reconcile_at_ms,
            final(self).reconcile_delay_secs == old(self).reconcile_delay_secs,
            final(self).reconciling == old(self).reconciling,
    {
        self.sending = false;
        if succeeded {
            self.pending_copy = None;
            self.retry_delay_secs = FIRST_RETRY_SECS;
        } else {
            self.retry_at_ms = now_ms + self.retry_delay_secs * 1000;
            self.retry_delay_secs = if self.retry_delay_secs * 2 < MAX_SEND_DELAY_SECS {
                self.retry_delay_secs * 2
            } else {
                MAX_SEND_DELAY_SECS
            };
            self.known_revisions = None;
        }
    }
}

impl LiveCopy {
    /// A copy of this key.
    pub fn clone_copy(&self) -> (c: LiveCopy)
        ensures
            c == *self,
    {
        LiveCopy {
            captured_at_ms: self.captured_at_ms,
            updated_by_device_id: self.updated_by_device_id.clone(),
            sync_id: self.sync_id.clone(),
            revision: self.revision,
        }
    }
}

/// Whether a probe may skip reconciling: both revisions are those of the
/// last converged reconciliation.
pub fn revisions_unchanged(known: Option<(u64, u64)>, local_revision: u64, remote_revision: u64) -> (b: bool)
    ensures
        b == (known == Some((local_revision, remote_revision))),
{
    match known {
        Some((l, r)) => l == local_revision && r == remote_revision,
        None => false,
    }
}

/// Whether the stored record is still the live copy that waits to be sent:
/// same revision, last changed by the same device.
pub fn copy_is_current(copy: &LiveCopy, revision: u64, updated_by_device_id: &str) -> (b: bool)
    ensures
        b == (copy.revision == revision && copy.updated_by_device_id@ == updated_by_device_id@),
{
    copy.revision == revision && chars_equal(&chars_of(copy.updated_by_device_id.as_str()), &chars_of(updated_by_device_id))
}

} // verus!
