//! The local gesture laboratory's recorder: numbered trials of captured
//! gesture events, bounded in count and size, never overwritten, with every
//! attempted sample accounted for.

use vstd::prelude::*;
use vstd::string::StringExecFns;
use crate::text::{chars_of, string_from_chars, trim, trim_chars};
use crate::export_cache::{parse_u64, parse_u64_spec};

verus! {

/// Most trials kept before the records must be cleared.
pub const MAX_BATCHES: usize = 32;

/// Most samples kept per trial.
pub const MAX_SAMPLES_PER_BATCH: usize = 8_192;

/// Samples of the latest trial shown while polling.
pub const PREVIEW_SAMPLES: usize = 60;

/// Most gesture syntheses per trial.
pub const MAX_TRIGGERS_PER_BATCH: usize = 32;

/// Longest trial label, in characters.
pub const MAX_LABEL_CHARS: usize = 160;

/// Event type and subtype of the markers the system interleaves with gestures.
pub const MARKER_EVENT_TYPE: u32 = 29;

/// What a trial does.
#[derive(Debug, Clone, Copy, PartialEq, Eq)]
pub enum BatchMode {
    Observe,
    Intercept,
    Inject,
}

impl BatchMode {
    pub fn as_str(self) -> (s: &'static str)
        ensures
            s@ == match self {
                BatchMode::Observe => "observe"@,
                BatchMode::Intercept => "intercept"@,
                BatchMode::Inject => "inject"@,
            },
    {
        match self {
            BatchMode::Observe => "observe",
            BatchMode::Intercept => "intercept",
            BatchMode::Inject => "inject",
        }
    }
}

/// What the recorder reads and assigns of a captured event; the rest of the
/// event is carried as `S`.
#[derive(Debug, Clone, Copy, PartialEq, Eq)]
pub struct SampleHeader {
    pub id: u64,
    pub batch_id: u64,
    pub elapsed_ms: u64,
    pub event_type: u32,
    pub subtype: i64,
    pub suppressed: bool,
}

/// The counters and description of one trial.
pub struct BatchMeta<T> {
    pub id: u64,
    pub label: String,
    pub mode: BatchMode,
    pub started_ms: u64,
    pub elapsed_ms: u64,
    pub finished: bool,
    pub stop_reason: String,
    pub total_samples: u64,
    pub marker_samples: u64,
    pub suppressed_markers: u64,
    pub dropped_samples: u64,
    pub capacity_dropped_samples: u64,
    /// Each synthesis requested during the trial, with when it was requested.
    pub triggers: Vec<(u64, T)>,
}

pub struct RecordedBatch<S, T> {
    pub meta: BatchMeta<T>,
    pub samples: Vec<(SampleHeader, S)>,
}

/// Trials and the flags of the capture and synthesis workers.
pub struct GestureRecorder<S, T> {
    pub next_batch_id: u64,
    pub batches: Vec<RecordedBatch<S, T>>,
    pub message: String,
    pub has_deadline: bool,
    pub capturing: bool,
    pub suppressing: bool,
    pub injecting: bool,
    pub cancel_capture: bool,
    pub cancel_injection: bool,
    /// Samples lost because the recorder was busy.
    pub dropped: u64,
}

pub open spec fn batch_ok<S, T>(b: RecordedBatch<S, T>) -> bool {
    &&& b.samples@.len() <= MAX_SAMPLES_PER_BATCH
    &&& b.meta.total_samples == b.samples@.len() + b.meta.marker_samples + b.meta.capacity_dropped_samples
    &&& b.meta.suppressed_markers <= b.meta.marker_samples
    &&& b.meta.triggers@.len() <= MAX_TRIGGERS_PER_BATCH
    &&& forall|i: int| 0 <= i < b.samples@.len() ==> (#[trigger] b.samples@[i]).0.batch_id == b.meta.id
}

/// Unfinished trials are only ever the latest one.
pub open spec fn last_or_finished<S, T>(bs: Seq<RecordedBatch<S, T>>) -> bool {
    forall|i: int| 0 <= i < bs.len() - 1 ==> (#[trigger] bs[i]).meta.finished
}

impl<S, T> GestureRecorder<S, T> {
    pub open spec fn wf(&self) -> bool {
        &&& self.batches@.len() <= MAX_BATCHES
        &&& self.next_batch_id >= 1
        &&& forall|i: int| 0 <= i < self.batches@.len() ==> batch_ok(#[trigger] self.batches@[i])
        &&& forall|i: int, j: int| 0 <= i < j < self.batches@.len() ==> (#[trigger] self.batches@[i]).meta.id < (#[trigger] self.batches@[j]).meta.id
        &&& forall|i: int| 0 <= i < self.batches@.len() ==> (#[trigger] self.batches@[i]).meta.id < self.next_batch_id
        &&& last_or_finished(self.batches@)
    }

    /// Whether the latest trial is still open.
    pub open spec fn open_batch(&self) -> bool {
        self.batches@.len() > 0 && !self.batches@.last().meta.finished
    }

    /// The counters can take one more sample.
    pub open spec fn room_to_count(&self) -> bool {
        &&& self.dropped < u64::MAX
        &&& self.batches@.len() > 0 ==> {
            let m = self.batches@.last().meta;
            m.total_samples < u64::MAX && m.marker_samples < u64::MAX && m.suppressed_markers < u64::MAX && m.capacity_dropped_samples < u64::MAX
        }
    }

    pub fn new() -> (r: Self)
        ensures
            r.wf(),
            r.batches@.len() == 0,
            r.next_batch_id == 1,
            r.message@ == "Not started. Only gesture metadata is captured; keyboard input, text, and raw touch points are never recorded."@,
            !r.capturing && !r.injecting && !r.suppressing,
    {
        GestureRecorder {
            next_batch_id: 1,
            batches: Vec::new(),
            message: String::from_str(
                "Not started. Only gesture metadata is captured; keyboard input, text, and raw touch points are never recorded.",
            ),
            has_deadline: false,
            capturing: false,
            suppressing: false,
            injecting: false,
            cancel_capture: false,
            cancel_injection: false,
            dropped: 0,
        }
    }

    /// Opens a new trial labelled `label` at `now_ms`.
    pub fn begin_batch(&mut self, label: &str, mode: BatchMode, now_ms: u64) -> (r: Result<(), String>)
        requires
            old(self).wf(),
            old(self).next_batch_id < u64::MAX,
        ensures
            final(self).wf(),
            ({
                let t = trim(label@);
                if t.len() == 0 || t.len() > MAX_LABEL_CHARS {
                    r matches Err(e) && e@ == "enter a 1–160 character action label that identifies finger count and direction"@
                } else if old(self).open_batch() {
                    r matches Err(e) && e@ == "stop the current trial first"@
                } else if old(self).batches@.len() >= MAX_BATCHES {
                    r matches Err(e) && e@ == "The 32-trial limit has been reached. Export the report, then clear the records. Existing trials will not be overwritten."@
                } else {
                    &&& r is Ok
                    &&& final(self).batches@.len() == old(self).batches@.len() + 1
                    &&& final(self).batches@.drop_last() == old(self).batches@
                    &&& final(self).batches@.last().meta.id == old(self).next_batch_id
                    &&& final(self).batches@.last().meta.label@ == t
                    &&& final(self).batches@.last().meta.mode == mode
                    &&& final(self).batches@.last().meta.started_ms == now_ms
                    &&& !final(self).batches@.last().meta.finished
                    &&& final(self).batches@.last().meta.total_samples == 0
                    &&& final(self).batches@.last().samples@.len() == 0
                    &&& final(self).dropped == 0
                }
            }),
            r is Err ==> final(self).batches@ == old(self).batches@,
            final(self).next_batch_id >= old(self).next_batch_id,
            final(self).capturing == old(self).capturing,
            final(self).injecting == old(self).injecting,
    {
        let trimmed = trim_chars(&chars_of(label));
        if trimmed.len() == 0 || trimmed.len() > MAX_LABEL_CHARS {
            return Err(String::from_str(
                "enter a 1–160 character action label that identifies finger count and direction",
            ));
        }
        let n = self.batches.len();
        if n > 0 && !self.batches[n - 1].meta.finished {
            return Err(String::from_str("stop the current trial first"));
        }
        if n >= MAX_BATCHES {
            return Err(String::from_str(
                "The 32-trial limit has been reached. Export the report, then clear the records. Existing trials will not be overwritten.",
            ));
        }
        let id = self.next_batch_id;
        self.next_batch_id = self.next_batch_id.saturating_add(1);
        self.dropped = 0;
        let batch = RecordedBatch {
            meta: BatchMeta {
                id,
                label: string_from_chars(&trimmed),
                mode,
                started_ms: now_ms,
                elapsed_ms: 0,
                finished: false,
                stop_reason: String::new(),
                total_samples: 0,
                marker_samples: 0,
                suppressed_markers: 0,
                dropped_samples: 0,
                capacity_dropped_samples: 0,
                triggers: Vec::new(),
            },
            samples: Vec::new(),
        };
        let ghost before = self.batches@;
        self.batches.push(batch);
        proof {
            assert(self.batches@.drop_last() =~= before);
            assert forall|i: int, j: int| 0 <= i < j < self.batches@.len() implies (#[trigger] self.batches@[i]).meta.id < (#[trigger] self.batches@[j]).meta.id by {
                if j < before.len() {
                    assert(self.batches@[i] == before[i] && self.batches@[j] == before[j]);
                } else {
                    assert(self.batches@[i] == before[i]);
                }
            }
            assert forall|i: int| 0 <= i < self.batches@.len() implies batch_ok(#[trigger] self.batches@[i]) by {
                if i < before.len() {
                    assert(self.batches@[i] == before[i]);
                }
            }
            assert forall|i: int| 0 <= i < self.batches@.len() - 1 implies (#[trigger] self.batches@[i]).meta.finished by {
                assert(self.batches@[i] == before[i]);
            }
            assert forall|i: int| 0 <= i < self.batches@.len() implies (#[trigger] self.batches@[i]).meta.id < self.next_batch_id by {
                if i < before.len() {
                    assert(self.batches@[i] == before[i]);
                }
            }
        }
        Ok(())
    }

    /// Ends the open trial with `reason` (unless it already has one), once
    /// neither the capture nor a synthesis is running.
    pub fn finish_if_idle(&mut self, reason: &str, now_ms: u64)
        requires
            old(self).wf(),
        ensures
            final(self).wf(),
            final(self).batches@.len() == old(self).batches@.len(),
            forall|i: int| 0 <= i < old(self).batches@.len() - 1 ==> final(self).batches@[i] == old(self).batches@[i],
            old(self).open_batch() && !old(self).capturing && !old(self).injecting ==> !final(self).open_batch(),
            old(self).open_batch() && (old(self).capturing || old(self).injecting) ==> final(self).open_batch(),
            old(self).open_batch() ==> final(self).batches@.last().samples@ == old(self).batches@.last().samples@,
            old(self).open_batch() && old(self).batches@.last().meta.stop_reason@.len() == 0 ==> final(self).batches@.last().meta.stop_reason@ == reason@,
            old(self).open_batch() && old(self).batches@.last().meta.stop_reason@.len() > 0 ==> final(self).batches@.last().meta.stop_reason@ == old(self).batches@.last().meta.stop_reason@,
            !old(self).open_batch() ==> final(self).batches@ == old(self).batches@,
            final(self).capturing == old(self).capturing,
            final(self).injecting == old(self).injecting,
            final(self).dropped == old(self).dropped,
            final(self).next_batch_id == old(self).next_batch_id,
    {
        let n = self.batches.len();
        if n == 0 || self.batches[n - 1].meta.finished {
            return;
        }
        let ghost before = self.batches@;
        let mut batch = self.batches.pop().unwrap();
        assert(before.drop_last() =~= self.batches@);
        if batch.meta.stop_reason.as_str().is_empty() {
            batch.meta.stop_reason = String::from_str(reason);
        }
        if !(self.capturing || self.injecting) {
            batch.meta.finished = true;
            batch.meta.elapsed_ms = now_ms.saturating_sub(batch.meta.started_ms);
            batch.meta.dropped_samples = self.dropped;
            self.has_deadline = false;
        }
        self.batches.push(batch);
        proof {
            assert forall|i: int, j: int| 0 <= i < j < self.batches@.len() implies (#[trigger] self.batches@[i]).meta.id < (#[trigger] self.batches@[j]).meta.id by {
                assert(before[i].meta.id < before[j].meta.id);
            }
            assert forall|i: int| 0 <= i < self.batches@.len() implies batch_ok(#[trigger] self.batches@[i]) by {
                assert(batch_ok(before[i]));
            }
            assert forall|i: int| 0 <= i < self.batches@.len() implies (#[trigger] self.batches@[i]).meta.id < self.next_batch_id by {
                assert(before[i].meta.id < self.next_batch_id);
            }
        }
    }

    /// Records one captured event at `now_ms`; `got_lock` is false when the
    /// recorder was busy, in which case the event is only counted as dropped.
    pub fn record(&mut self, header: SampleHeader, payload: S, now_ms: u64, got_lock: bool)
        requires
            old(self).wf(),
            old(self).room_to_count(),
        ensures
            final(self).wf(),
            final(self).batches@.len() == old(self).batches@.len(),
            forall|i: int| 0 <= i < old(self).batches@.len() - 1 ==> final(self).batches@[i] == old(self).batches@[i],
            !got_lock ==> final(self).dropped == old(self).dropped + 1 && final(self).batches@ == old(self).batches@,
            got_lock ==> final(self).dropped == old(self).dropped,
            got_lock && old(self).open_batch() ==> {
                let o = old(self).batches@.last();
                let f = final(self).batches@.last();
                &&& f.meta.total_samples == o.meta.total_samples + 1
                &&& f.samples@.len() >= o.samples@.len()
                &&& f.samples@.take(o.samples@.len() as int) == o.samples@
                &&& f.meta.finished == o.meta.finished
                &&& f.meta.id == o.meta.id
            },
            got_lock && old(self).open_batch() && old(self).batches@.last().samples@.len() == MAX_SAMPLES_PER_BATCH
                && !(header.event_type == MARKER_EVENT_TYPE && header.subtype == 0) ==> {
                &&& final(self).cancel_capture && final(self).cancel_injection && !final(self).suppressing
                &&& final(self).batches@.last().meta.capacity_dropped_samples == old(self).batches@.last().meta.capacity_dropped_samples + 1
            },
            got_lock && !old(self).open_batch() ==> final(self).batches@ == old(self).batches@,
            final(self).capturing == old(self).capturing,
            final(self).injecting == old(self).injecting,
            final(self).next_batch_id == old(self).next_batch_id,
    {
        if !got_lock {
            self.dropped = self.dropped + 1;
            return;
        }
        let n = self.batches.len();
        if n == 0 || self.batches[n - 1].meta.finished {
            return;
        }
        let ghost before = self.batches@;
        let mut batch = self.batches.pop().unwrap();
        assert(before.drop_last() =~= self.batches@);
        let ghost old_samples = batch.samples@;
        batch.meta.total_samples = batch.meta.total_samples + 1;
        if header.event_type == MARKER_EVENT_TYPE && header.subtype == 0 {
            batch.meta.marker_samples = batch.meta.marker_samples + 1;
            if header.suppressed {
                batch.meta.suppressed_markers = batch.meta.suppressed_markers + 1;
            }
        } else if batch.samples.len() == MAX_SAMPLES_PER_BATCH {
            batch.meta.capacity_dropped_samples = batch.meta.capacity_dropped_samples + 1;
            batch.meta.stop_reason = String::from_str(
                "recording reached capacity and stop was requested; the final sequence may be incomplete",
            );
            self.message = String::from_str(
                "Recording is full. Stopping and releasing interception. Saved events will not be overwritten; export and then clear them.",
            );
            self.suppressing = false;
            self.cancel_capture = true;
            self.cancel_injection = true;
        } else {
            let stamped = SampleHeader {
                id: batch.meta.total_samples,
                batch_id: batch.meta.id,
                elapsed_ms: now_ms.saturating_sub(batch.meta.started_ms),
                ..header
            };
            batch.samples.push((stamped, payload));
        }
        assert(batch.samples@.take(old_samples.len() as int) =~= old_samples);
        self.batches.push(batch);
        proof {
            assert forall|i: int, j: int| 0 <= i < j < self.batches@.len() implies (#[trigger] self.batches@[i]).meta.id < (#[trigger] self.batches@[j]).meta.id by {
                assert(before[i].meta.id < before[j].meta.id);
            }
            assert forall|i: int| 0 <= i < self.batches@.len() implies batch_ok(#[trigger] self.batches@[i]) by {
                if i < self.batches@.len() - 1 {
                    assert(batch_ok(before[i]));
                } else {
                    let b = self.batches@[i];
                    assert forall|k: int| 0 <= k < b.samples@.len() implies (#[trigger] b.samples@[k]).0.batch_id == b.meta.id by {
                        if k < old_samples.len() {
                            assert(b.samples@[k] == old_samples[k]);
                            assert(before.last().samples@[k] == old_samples[k]);
                        }
                    }
                }
            }
            assert forall|i: int| 0 <= i < self.batches@.len() implies (#[trigger] self.batches@[i]).meta.id < self.next_batch_id by {
                assert(before[i].meta.id < self.next_batch_id);
            }
        }
    }

    /// Attaches a synthesis request to the open trial at `now_ms`: `Ok(false)`
    /// when no trial is open; refused for an intercepting trial, one stopped
    /// at capacity, or one with 32 syntheses already.
    pub fn register_injection(&mut self, request: T, now_ms: u64) -> (r: Result<bool, String>)
        requires
            old(self).wf(),
        ensures
            final(self).wf(),
            !old(self).open_batch() ==> r == Ok::<bool, String>(false) && final(self).batches@ == old(self).batches@
                && final(self).injecting == old(self).injecting,
            old(self).open_batch() ==> {
                let m = old(self).batches@.last().meta;
                if m.mode == BatchMode::Intercept || m.capacity_dropped_samples > 0 {
                    r matches Err(e) && e@ == "current trial is intercepting or stopped at capacity; stop it and create a new trial before synthesis"@
                        && final(self).injecting == old(self).injecting
                } else if m.triggers@.len() >= MAX_TRIGGERS_PER_BATCH {
                    r matches Err(e) && e@ == "a trial can record at most 32 syntheses; stop it and create a new trial"@
                        && final(self).injecting == old(self).injecting
                } else {
                    &&& r == Ok::<bool, String>(true)
                    &&& final(self).injecting && !final(self).cancel_injection
                    &&& final(self).batches@.last().meta.triggers@.len() == m.triggers@.len() + 1
                    &&& final(self).batches@.last().samples@ == old(self).batches@.last().samples@
                    &&& !final(self).batches@.last().meta.finished
                }
            },
            final(self).batches@.len() == old(self).batches@.len(),
            forall|i: int| 0 <= i < old(self).batches@.len() - 1 ==> final(self).batches@[i] == old(self).batches@[i],
            final(self).capturing == old(self).capturing,
            final(self).dropped == old(self).dropped,
            final(self).next_batch_id == old(self).next_batch_id,
    {
        let n = self.batches.len();
        if n == 0 || self.batches[n - 1].meta.finished {
            return Ok(false);
        }
        let blocked = match self.batches[n - 1].meta.mode {
            BatchMode::Intercept => true,
            _ => false,
        } || self.batches[n - 1].meta.capacity_dropped_samples > 0;
        if blocked {
            return Err(String::from_str(
                "current trial is intercepting or stopped at capacity; stop it and create a new trial before synthesis",
            ));
        }
        if self.batches[n - 1].meta.triggers.len() >= MAX_TRIGGERS_PER_BATCH {
            return Err(String::from_str(
                "a trial can record at most 32 syntheses; stop it and create a new trial",
            ));
        }
        self.cancel_injection = false;
        self.injecting = true;
        let ghost before = self.batches@;
        let mut batch = self.batches.pop().unwrap();
        assert(before.drop_last() =~= self.batches@);
        let elapsed = now_ms.saturating_sub(batch.meta.started_ms);
        batch.meta.triggers.push((elapsed, request));
        self.batches.push(batch);
        proof {
            assert forall|i: int, j: int| 0 <= i < j < self.batches@.len() implies (#[trigger] self.batches@[i]).meta.id < (#[trigger] self.batches@[j]).meta.id by {
                assert(before[i].meta.id < before[j].meta.id);
            }
            assert forall|i: int| 0 <= i < self.batches@.len() implies batch_ok(#[trigger] self.batches@[i]) by {
                assert(batch_ok(before[i]));
            }
            assert forall|i: int| 0 <= i < self.batches@.len() implies (#[trigger] self.batches@[i]).meta.id < self.next_batch_id by {
                assert(before[i].meta.id < self.next_batch_id);
            }
        }
        Ok(true)
    }

    /// The synthesis worker has ended; the open trial ends too unless the
    /// capture is still running.
    pub fn finish_injection(&mut self, now_ms: u64)
        requires
            old(self).wf(),
        ensures
            final(self).wf(),
            !final(self).injecting,
            final(self).capturing == old(self).capturing,
            !old(self).capturing && old(self).open_batch() ==> !final(self).open_batch(),
            final(self).batches@.len() == old(self).batches@.len(),
            final(self).next_batch_id == old(self).next_batch_id,
    {
        self.injecting = false;
        if !self.capturing {
            self.finish_if_idle("synthesis worker ended; confirm the result manually", now_ms);
        }
    }

    /// The capture has ended with `reason`; the open trial ends too unless a
    /// synthesis is still running.
    pub fn finish_capture(&mut self, reason: &str, now_ms: u64)
        requires
            old(self).wf(),
        ensures
            final(self).wf(),
            !final(self).capturing,
            final(self).message@ == reason@,
            !old(self).injecting && old(self).open_batch() ==> !final(self).open_batch(),
            old(self).injecting && old(self).open_batch() ==> final(self).open_batch(),
            final(self).batches@.len() == old(self).batches@.len(),
            final(self).next_batch_id == old(self).next_batch_id,
    {
        self.capturing = false;
        self.finish_if_idle(reason, now_ms);
        self.message = String::from_str(reason);
    }

    /// Refuses while a capture or synthesis runs or a trial is open.
    pub fn ensure_idle(&self) -> (r: Result<(), String>)
        requires
            self.wf(),
        ensures
            r is Ok <==> (!self.capturing && !self.injecting && !self.open_batch()),
            r matches Err(e) ==> e@ == "stop all experiments before exporting or clearing records to avoid truncating an active gesture"@,
    {
        let n = self.batches.len();
        if self.capturing || self.injecting || (n > 0 && !self.batches[n - 1].meta.finished) {
            return Err(String::from_str(
                "stop all experiments before exporting or clearing records to avoid truncating an active gesture",
            ));
        }
        Ok(())
    }

    /// Forgets every trial when idle; trial numbers are not reused.
    pub fn clear(&mut self) -> (r: Result<(), String>)
        requires
            old(self).wf(),
        ensures
            final(self).wf(),
            r is Ok <==> (!old(self).capturing && !old(self).injecting && !old(self).open_batch()),
            r is Ok ==> final(self).batches@.len() == 0 && final(self).dropped == 0 && final(self).message@
                == "All trials were cleared. The next run will create a newly numbered trial."@,
            r is Err ==> final(self).batches@ == old(self).batches@,
            final(self).next_batch_id == old(self).next_batch_id,
    {
        match self.ensure_idle() {
            Err(e) => return Err(e),
            Ok(()) => {},
        }
        self.batches = Vec::new();
        self.has_deadline = false;
        self.message = String::from_str(
            "All trials were cleared. The next run will create a newly numbered trial.",
        );
        self.dropped = 0;
        Ok(())
    }

    /// The counters of trial `i` as reported at `now_ms`: an open trial's
    /// time and losses are current, and its total includes the losses.
    pub fn batch_counts(&self, i: usize, now_ms: u64) -> (r: (u64, u64, u64, usize))
        requires
            self.wf(),
            i < self.batches@.len(),
            self.batches@[i as int].meta.total_samples as int + self.dropped as int <= u64::MAX,
            self.batches@[i as int].meta.total_samples as int + self.batches@[i as int].meta.dropped_samples as int <= u64::MAX,
        ensures
            ({
                let m = self.batches@[i as int].meta;
                let dropped = if m.finished { m.dropped_samples } else { self.dropped };
                &&& r.0 == m.total_samples + dropped
                &&& r.1 == dropped
                &&& r.2 == if m.finished { m.elapsed_ms as int } else { if now_ms >= m.started_ms { now_ms - m.started_ms } else { 0 } }
                &&& r.3 == self.batches@[i as int].samples@.len()
                &&& r.0 == r.3 + m.marker_samples + r.1 + m.capacity_dropped_samples
            }),
    {
        let b = &self.batches[i];
        let dropped = if b.meta.finished {
            b.meta.dropped_samples
        } else {
            self.dropped
        };
        let elapsed = if b.meta.finished {
            b.meta.elapsed_ms
        } else {
            now_ms.saturating_sub(b.meta.started_ms)
        };
        proof {
            assert(batch_ok(self.batches@[i as int]));
        }
        (b.meta.total_samples + dropped, dropped, elapsed, b.samples.len())
    }

    /// How many of the latest trial's samples a snapshot shows, from where.
    pub fn preview_range(&self) -> (r: (usize, usize))
        ensures
            self.batches@.len() == 0 ==> r == (0usize, 0usize),
            self.batches@.len() > 0 ==> {
                let n = self.batches@.last().samples@.len();
                &&& r.1 == n
                &&& r.0 == if n > PREVIEW_SAMPLES { n - PREVIEW_SAMPLES } else { 0 }
            },
    {
        let n = self.batches.len();
        if n == 0 {
            return (0, 0);
        }
        let len = self.batches[n - 1].samples.len();
        (len.saturating_sub(PREVIEW_SAMPLES), len)
    }
}

/// Trials are never overwritten: opening one keeps all earlier ones as they
/// were, and its number is above all of theirs.
pub proof fn trials_are_never_overwritten<S, T>(
    before: GestureRecorder<S, T>,
    after: GestureRecorder<S, T>,
)
    requires
        before.wf(),
        after.wf(),
        after.batches@.len() == before.batches@.len() + 1,
        after.batches@.drop_last() == before.batches@,
    ensures
        forall|i: int| 0 <= i < before.batches@.len() ==> after.batches@[i] == before.batches@[i]
            && (#[trigger] after.batches@[i]).meta.id < after.batches@.last().meta.id,
{
    assert forall|i: int| 0 <= i < before.batches@.len() implies after.batches@[i] == before.batches@[i]
        && (#[trigger] after.batches@[i]).meta.id < after.batches@.last().meta.id by {
        assert(after.batches@.drop_last()[i] == after.batches@[i]);
    }
}


// ---------------------------------------------------------------------------
// Gesture actions

/// A gesture the laboratory can synthesize.
#[derive(Debug, Clone, Copy, PartialEq, Eq)]
pub enum GestureDebugAction {
    SwipeLeft,
    SwipeRight,
    SwipeUp,
    SwipeDown,
    PinchIn,
    PinchOut,
}

pub open spec fn axis_and_sign(action: GestureDebugAction) -> (int, int) {
    match action {
        GestureDebugAction::SwipeLeft => (1, -1),
        GestureDebugAction::SwipeRight => (1, 1),
        GestureDebugAction::SwipeUp => (2, 1),
        GestureDebugAction::SwipeDown => (2, -1),
        GestureDebugAction::PinchIn => (3, -1),
        GestureDebugAction::PinchOut => (3, 1),
    }
}

impl GestureDebugAction {
    /// The motion axis of the gesture (1 horizontal, 2 vertical, 3 pinch)
    /// and the sign of its progress, flipped when `reverse`.
    pub fn motion_and_direction(self, reverse: bool) -> (r: (i64, i64))
        ensures
            r.0 == axis_and_sign(self).0,
            r.1 == if reverse { -axis_and_sign(self).1 } else { axis_and_sign(self).1 },
    {
        let (motion, sign): (i64, i64) = match self {
            GestureDebugAction::SwipeLeft => (1, -1),
            GestureDebugAction::SwipeRight => (1, 1),
            GestureDebugAction::SwipeUp => (2, 1),
            GestureDebugAction::SwipeDown => (2, -1),
            GestureDebugAction::PinchIn => (3, -1),
            GestureDebugAction::PinchOut => (3, 1),
        };
        (motion, if reverse { -sign } else { sign })
    }
}

/// Whether a synthesis's duration and delay are within the experiment's
/// limits: 150–2000 ms and at most 3000 ms.
pub fn timing_within_limits(duration_ms: u32, delay_ms: u32) -> (b: bool)
    ensures
        b == (150 <= duration_ms <= 2_000 && delay_ms <= 3_000),
{
    150 <= duration_ms && duration_ms <= 2_000 && delay_ms <= 3_000
}

// ---------------------------------------------------------------------------
// Interception of Dock swipes

pub const GESTURE: u32 = 29;
pub const DOCK_CONTROL: u32 = 30;
pub const DOCK_SWIPE: i64 = 23;
pub const BEGAN: i64 = 1;
pub const CHANGED: i64 = 2;
pub const ENDED: i64 = 4;
pub const CANCELLED: i64 = 8;

/// Whether a Dock swipe is being intercepted, and whether its companion
/// gesture event is still to be swallowed.
#[derive(Debug, Clone, Copy, PartialEq, Eq)]
pub struct Suppression {
    pub blocked: bool,
    pub companion_pending: bool,
}

pub open spec fn suppression_step(s: Suppression, event_type: u32, subtype: i64, phase: i64, enabled: bool) -> (Suppression, bool) {
    if !enabled {
        (Suppression { blocked: false, companion_pending: false }, false)
    } else if event_type == DOCK_CONTROL && subtype == DOCK_SWIPE {
        let blocked = s.blocked || phase == BEGAN;
        (
            Suppression {
                blocked: if phase & (ENDED | CANCELLED) != 0 { false } else { blocked },
                companion_pending: if blocked { true } else { s.companion_pending },
            },
            blocked,
        )
    } else if event_type == GESTURE && subtype == 0 && s.companion_pending {
        (Suppression { companion_pending: false, ..s }, true)
    } else {
        (s, false)
    }
}

impl Suppression {
    pub fn new() -> (s: Self)
        ensures
            s == (Suppression { blocked: false, companion_pending: false }),
    {
        Suppression { blocked: false, companion_pending: false }
    }

    /// Whether to swallow an event: only Dock swipes whose beginning was
    /// seen, with their companion gesture events, while interception is on.
    pub fn should_block(&mut self, event_type: u32, subtype: i64, phase: i64, enabled: bool) -> (b: bool)
        ensures
            (*final(self), b) == suppression_step(*old(self), event_type, subtype, phase, enabled),
    {
        if !enabled {
            self.blocked = false;
            self.companion_pending = false;
            return false;
        }
        if event_type == DOCK_CONTROL && subtype == DOCK_SWIPE {
            if phase == BEGAN {
                self.blocked = true;
            }
            let block = self.blocked;
            if block {
                self.companion_pending = true;
            }
            if phase & (ENDED | CANCELLED) != 0 {
                self.blocked = false;
            }
            return block;
        }
        if event_type == GESTURE && subtype == 0 && self.companion_pending {
            self.companion_pending = false;
            return true;
        }
        false
    }
}

/// Interception fails open: a swipe already under way when interception
/// starts is let through, and turning interception off lets everything
/// through and forgets the swipe.
pub proof fn suppression_fails_open(s: Suppression, event_type: u32, subtype: i64, phase: i64)
    ensures
        !suppression_step(Suppression { blocked: false, companion_pending: false }, DOCK_CONTROL, DOCK_SWIPE, CHANGED, true).1,
        !suppression_step(s, event_type, subtype, phase, false).1,
        suppression_step(s, event_type, subtype, phase, false).0 == (Suppression { blocked: false, companion_pending: false }),
{
}

pub open spec fn major_version(v: Seq<char>) -> Seq<char> {
    if exists|i: int| 0 <= i < v.len() && v[i] == '.' {
        v.take(choose|i: int| 0 <= i < v.len() && v[i] == '.' && forall|j: int| 0 <= j < i ==> v[j] != '.')
    } else {
        v
    }
}

/// Why gesture synthesis cannot run: no accessibility permission, or a
/// macOS version whose major number is unknown or 27 and later.
pub open spec fn injection_check(trusted: bool, os_version: Seq<char>) -> Result<(), Seq<char>> {
    if !trusted {
        Err("enable macOS accessibility permission for the current ArcRelay application"@)
    } else {
        match parse_u64_spec(major_version(os_version)) {
            Some(major) => if major > u32::MAX || major >= 27 {
                Err("this experiment implements legacy DockSwipe synthesis only through macOS 26; observation may work on this version, but synthesis is not adapted"@)
            } else {
                Ok(())
            },
            None => Err("this experiment implements legacy DockSwipe synthesis only through macOS 26; observation may work on this version, but synthesis is not adapted"@),
        }
    }
}

/// Checks that gesture synthesis can run on this system.
pub fn ensure_injection_supported(trusted: bool, os_version: &str) -> (r: Result<(), String>)
    ensures
        match r {
            Ok(_) => injection_check(trusted, os_version@) == Ok::<(), Seq<char>>(()),
            Err(e) => injection_check(trusted, os_version@) == Err::<(), Seq<char>>(e@),
        },
{
    if !trusted {
        return Err(String::from_str("enable macOS accessibility permission for the current ArcRelay application"));
    }
    let v = chars_of(os_version);
    let mut k: usize = 0;
    while k < v.len() && v[k] != '.'
        invariant
            k <= v@.len(),
            v@ == os_version@,
            forall|j: int| 0 <= j < k ==> v@[j] != '.',
        decreases v@.len() - k,
    {
        k = k + 1;
    }
    let mut major: Vec<char> = Vec::new();
    crate::text::extend_range(&mut major, &v, 0, k);
    proof {
        if k < v@.len() {
            let w = choose|i: int| 0 <= i < v@.len() && v@[i] == '.' && forall|j: int| 0 <= j < i ==> v@[j] != '.';
            assert(w == k) by {
                if w < k {
                    assert(v@[w] != '.');
                }
                if w > k {
                    assert(v@[k as int] == '.');
                }
            }
            assert(major@ =~= major_version(os_version@));
        } else {
            assert(major@ =~= major_version(os_version@));
        }
    }
    let text = string_from_chars(&major);
    let parsed = parse_u64(text.as_str());
    match parsed {
        Some(m) => if m > 0xFFFF_FFFF || m >= 27 {
            Err(String::from_str("this experiment implements legacy DockSwipe synthesis only through macOS 26; observation may work on this version, but synthesis is not adapted"))
        } else {
            Ok(())
        },
        None => Err(String::from_str("this experiment implements legacy DockSwipe synthesis only through macOS 26; observation may work on this version, but synthesis is not adapted")),
    }
}

} // verus!
