//! The pacing of a streamer: samples go out at their natural cadence on a
//! drift-free schedule of deadlines, each sample's duration after the last.
//! A pause restarts the schedule when media flows again; a schedule that
//! has fallen more than 100 ms behind is moved up to now rather than
//! bursting to catch up. Muted samples are not sent, but their time passes.

use vstd::prelude::*;
use crate::models::errors::RustTgCallsError;

verus! {

/// How far behind the schedule may fall before it is moved up to now:
/// 100 ms, in nanoseconds.
pub const MAX_LAG_NS: u128 = 100_000_000;

/// How long one read from the source may block before the streamer gives
/// up on it: 60 seconds, in nanoseconds.
pub const STALL_TIMEOUT_NS: u128 = 60_000_000_000;

/// The pacing state: whether the next sample starts the schedule, the
/// deadline of the next sample (nanoseconds on the caller's monotonic
/// clock), and how many nanoseconds of media went out, wrapping.
#[derive(Debug, Clone, Copy, PartialEq, Eq, Structural)]
pub struct Pacer {
    pub first_sample: bool,
    pub next_deadline_ns: u128,
    pub ns_sent: u64,
}

/// After a sample of `dur_ns` nanoseconds went out at time `now_ns`: the
/// media count grows by the duration (as 64 bits, wrapping), the deadline
/// moves one duration on, and if that is more than 100 ms behind now it is
/// moved up to now. The caller sleeps until the deadline if it is ahead.
pub open spec fn after_sample_step(p: Pacer, dur_ns: nat, now_ns: nat) -> (Pacer, Option<nat>) {
    let deadline = p.next_deadline_ns + dur_ns;
    let sent = ((p.ns_sent + dur_ns % 0x1_0000_0000_0000_0000) % 0x1_0000_0000_0000_0000) as u64;
    if deadline > now_ns {
        (Pacer { ns_sent: sent, next_deadline_ns: deadline as u128, ..p }, Some((deadline - now_ns) as nat))
    } else if now_ns - deadline > MAX_LAG_NS {
        (Pacer { ns_sent: sent, next_deadline_ns: now_ns as u128, ..p }, None)
    } else {
        (Pacer { ns_sent: sent, next_deadline_ns: deadline as u128, ..p }, None)
    }
}

impl Pacer {
    /// A pacer whose first sample starts the schedule.
    pub fn new() -> (out: Pacer)
        ensures
            out.first_sample && out.next_deadline_ns == 0 && out.ns_sent == 0,
    {
        Pacer { first_sample: true, next_deadline_ns: 0, ns_sent: 0 }
    }

    /// The streamer was paused: the next sample starts the schedule anew.
    pub fn on_paused(&mut self)
        ensures
            *final(self) == (Pacer { first_sample: true, ..*old(self) }),
    {
        self.first_sample = true;
    }

    /// Whether the next sample starts the schedule (after waiting for the
    /// other track of the source, when there is one).
    pub fn needs_start(&self) -> (out: bool)
        ensures
            out == self.first_sample,
    {
        self.first_sample
    }

    /// Starts the schedule at `now_ns`.
    pub fn start_at(&mut self, now_ns: u128)
        ensures
            *final(self) == (Pacer { first_sample: false, next_deadline_ns: now_ns, ..*old(self) }),
    {
        self.first_sample = false;
        self.next_deadline_ns = now_ns;
    }

    /// Whether a sample is sent: not while muted.
    pub fn should_send(muted: bool) -> (out: bool)
        ensures
            out == !muted,
    {
        !muted
    }

    /// Accounts a sample of `dur_ns` nanoseconds sent (or skipped) at
    /// `now_ns`; gives how long to sleep before the next one, if at all.
    pub fn after_sample(&mut self, dur_ns: u128, now_ns: u128) -> (sleep_ns: Option<u128>)
        requires
            old(self).next_deadline_ns + dur_ns <= u128::MAX,
        ensures
            *final(self) == after_sample_step(*old(self), dur_ns as nat, now_ns as nat).0,
            match (sleep_ns, after_sample_step(*old(self), dur_ns as nat, now_ns as nat).1) {
                (Some(a), Some(b)) => a == b,
                (None, None) => true,
                _ => false,
            },
    {
        let sent = ((self.ns_sent as u128 + dur_ns % 0x1_0000_0000_0000_0000) % 0x1_0000_0000_0000_0000) as u64;
        self.ns_sent = sent;
        let deadline = self.next_deadline_ns + dur_ns;
        if deadline > now_ns {
            self.next_deadline_ns = deadline;
            Some(deadline - now_ns)
        } else if now_ns - deadline > MAX_LAG_NS {
            self.next_deadline_ns = now_ns;
            None
        } else {
            self.next_deadline_ns = deadline;
            None
        }
    }
}

/// The schedule never lags: after a sample the next deadline is at most
/// 100 ms behind now, and while on time it advances by exactly the
/// sample's duration (no drift); a sleep ends exactly at the deadline.
pub proof fn lemma_pacing_bounded(p: Pacer, dur_ns: nat, now_ns: nat)
    requires
        p.next_deadline_ns + dur_ns <= u128::MAX,
        now_ns <= u128::MAX,
    ensures
        ({
            let (q, sleep) = after_sample_step(p, dur_ns, now_ns);
            &&& q.next_deadline_ns + MAX_LAG_NS >= now_ns
            &&& p.next_deadline_ns + dur_ns + MAX_LAG_NS >= now_ns ==> q.next_deadline_ns == p.next_deadline_ns + dur_ns
            &&& sleep matches Some(d) ==> now_ns + d == q.next_deadline_ns
            &&& q.first_sample == p.first_sample
        }),
{
}

// ---------------------------------------------------------------------------
// The end of a streamer
// ---------------------------------------------------------------------------

/// Why a streamer's pacing loop ended.
pub enum LoopEnd {
    /// The streamer was stopped.
    Stopped,
    /// The source ran out of samples.
    SourceEnded,
    /// Reading the next sample failed.
    ReadFailed(RustTgCallsError),
    /// Sending a sample failed.
    SendFailed(RustTgCallsError),
}

/// The error an ended loop reports: that of a failed read or send, none
/// when it was stopped or its source ended.
pub open spec fn end_error(end: LoopEnd) -> Option<RustTgCallsError> {
    match end {
        LoopEnd::ReadFailed(e) => Some(e),
        LoopEnd::SendFailed(e) => Some(e),
        _ => None,
    }
}

/// Whether the end callback is still to be called: set when one is
/// registered, cleared when the streamer is stopped or the end reported.
pub struct EndReport {
    pub armed: bool,
}

/// Reporting the end: the error to hand the callback when it is still
/// armed (and none to hand otherwise), after which it is disarmed.
pub open spec fn finish_step(r: EndReport, end: LoopEnd) -> (EndReport, Option<Option<RustTgCallsError>>) {
    (EndReport { armed: false }, if r.armed { Some(end_error(end)) } else { None })
}

impl EndReport {
    /// No callback registered yet.
    pub fn new() -> (out: EndReport)
        ensures
            !out.armed,
    {
        EndReport { armed: false }
    }

    /// A callback was registered.
    pub fn arm(&mut self)
        ensures
            final(self).armed,
    {
        self.armed = true;
    }

    /// The streamer was stopped: its callback is dropped uncalled.
    pub fn disarm(&mut self)
        ensures
            !final(self).armed,
    {
        self.armed = false;
    }

    /// The loop ended: the error to report, when the callback is still armed.
    pub fn finish(&mut self, end: LoopEnd) -> (out: Option<Option<RustTgCallsError>>)
        ensures
            (*final(self), out) == finish_step(*old(self), end),
    {
        let armed = self.armed;
        self.armed = false;
        if armed {
            match end {
                LoopEnd::ReadFailed(e) => Some(Some(e)),
                LoopEnd::SendFailed(e) => Some(Some(e)),
                _ => Some(None),
            }
        } else {
            None
        }
    }
}

/// The end is reported at most once: after it is reported (or the
/// callback dropped), a later end reports nothing.
pub proof fn lemma_end_reported_once(r: EndReport, e1: LoopEnd, e2: LoopEnd)
    ensures
        finish_step(finish_step(r, e1).0, e2).1 is None,
{
}

} // verus!
