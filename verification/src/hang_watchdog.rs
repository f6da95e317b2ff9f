//! The main-thread watchdog: when the main thread has stopped answering
//! heartbeats for long enough, a sample of the process is captured, at most
//! once per cooldown.

use vstd::prelude::*;
use crate::text::{chars_of, decimal, extend_chars, push_decimal, string_from_chars};

verus! {

/// Milliseconds without a heartbeat after which the main thread counts as hung.
pub const HANG_THRESHOLD_MS: u64 = 5_000;

/// Milliseconds that must pass between two captured samples.
pub const CAPTURE_COOLDOWN_MS: u64 = 60_000;

/// `a - b`, or 0 when `b` is the larger.
pub open spec fn saturating_sub(a: u64, b: u64) -> u64 {
    if a >= b { (a - b) as u64 } else { 0 }
}

/// What the watchdog remembers between its checks: when it last captured a
/// sample (0 before the first).
pub struct HangWatchdog {
    pub last_capture_ms: u64,
}

impl HangWatchdog {
    /// A watchdog that has captured nothing.
    pub fn new() -> (w: Self)
        ensures
            w.last_capture_ms == 0,
    {
        HangWatchdog { last_capture_ms: 0 }
    }

    /// One check at `now_ms`, when the main thread last answered at
    /// `heartbeat_ms`: a sample is due when the main thread has been silent
    /// for at least the threshold and the last capture is at least the
    /// cooldown ago. Gives the silent time of a due capture and records it.
    pub fn check(&mut self, now_ms: u64, heartbeat_ms: u64) -> (due: Option<u64>)
        ensures
            ({
                let stalled = saturating_sub(now_ms, heartbeat_ms);
                let capture = stalled >= HANG_THRESHOLD_MS
                    && saturating_sub(now_ms, old(self).last_capture_ms) >= CAPTURE_COOLDOWN_MS;
                &&& capture ==> due == Some(stalled) && final(self).last_capture_ms == now_ms
                &&& !capture ==> due is None && final(self).last_capture_ms == old(self).last_capture_ms
            }),
    {
        let stalled = if now_ms >= heartbeat_ms { now_ms - heartbeat_ms } else { 0 };
        let since_capture = if now_ms >= self.last_capture_ms { now_ms - self.last_capture_ms } else { 0 };
        if stalled < HANG_THRESHOLD_MS || since_capture < CAPTURE_COOLDOWN_MS {
            return None;
        }
        self.last_capture_ms = now_ms;
        Some(stalled)
    }
}

/// Two captures are at least the cooldown apart: after a capture at `t`, no
/// check before `t + CAPTURE_COOLDOWN_MS` captures again, whatever the
/// heartbeat.
pub proof fn captures_respect_the_cooldown(last_capture_ms: u64, now_ms: u64, heartbeat_ms: u64)
    requires
        last_capture_ms <= now_ms < last_capture_ms + CAPTURE_COOLDOWN_MS,
    ensures
        !(saturating_sub(now_ms, heartbeat_ms) >= HANG_THRESHOLD_MS
            && saturating_sub(now_ms, last_capture_ms) >= CAPTURE_COOLDOWN_MS),
{
}

/// The name of the file that receives the sample of process `pid` taken at
/// `now_ms`.
pub open spec fn sample_file_text(pid: nat, now_ms: nat) -> Seq<char> {
    "main-thread-hang-"@ + decimal(pid) + "-"@ + decimal(now_ms) + ".sample.txt"@
}

/// The file name for the sample of process `pid` taken at `now_ms`.
pub fn hang_sample_file_name(pid: u32, now_ms: u64) -> (s: String)
    ensures
        s@ == sample_file_text(pid as nat, now_ms as nat),
{
    let mut v = chars_of("main-thread-hang-");
    push_decimal(&mut v, pid as u64);
    extend_chars(&mut v, &chars_of("-"));
    push_decimal(&mut v, now_ms);
    extend_chars(&mut v, &chars_of(".sample.txt"));
    assert(v@ =~= sample_file_text(pid as nat, now_ms as nat));
    string_from_chars(&v)
}

} // verus!
