//! The monitor's decisions for each registered connection: force-close a
//! connection that never connected within the ICE checking timeout, and
//! keep the SFU's video SSRC binding warm with a VP8 padding packet every
//! keepalive tick.

use vstd::prelude::*;

verus! {

/// How long a connection that never connected may stay in setup before it
/// is closed: 35 seconds, in nanoseconds.
pub const ICE_CHECKING_TIMEOUT_NS: i128 = 35_000_000_000;

/// The monitor's poll ticks between keepalives (2 s every 1 s).
pub const KEEPALIVE_EVERY_TICKS: u64 = 2;

/// The keepalive sent on the video track: a 5-byte VP8 padding payload.
pub open spec fn keepalive_payload_bytes() -> Seq<u8> {
    seq![0x90u8, 0x80u8, 0xe0u8, 0x00u8, 0x00u8]
}

/// The keepalive payload.
pub fn keepalive_payload() -> (out: Vec<u8>)
    ensures
        out@ == keepalive_payload_bytes(),
{
    let mut v: Vec<u8> = Vec::new();
    v.push(0x90);
    v.push(0x80);
    v.push(0xe0);
    v.push(0x00);
    v.push(0x00);
    assert(v@ =~= keepalive_payload_bytes());
    v
}

/// The duration the keepalive packet is sent with: 66 ms, in nanoseconds.
pub const KEEPALIVE_DURATION_NS: u128 = 66_000_000;

/// What one monitor tick asks of the caller for a connection.
#[derive(Debug, Clone, Copy, PartialEq, Eq, Structural)]
pub enum MonitorAction {
    Nothing,
    /// The connection is stuck in setup: close it.
    Close,
    /// Send the keepalive payload on the video track.
    Keepalive,
}

/// The monitor's memory of one connection: when it was first seen not
/// connected (0 when not timing), and whether it ever connected.
#[derive(Debug, Clone, Copy, PartialEq, Eq, Structural)]
pub struct MonitorEntry {
    pub checking_ns: i64,
    pub ever_connected: bool,
}

/// One tick for a connection at `now_ns` (wall-clock nanoseconds): a
/// connection that is not connected and never was starts the timer, or is
/// closed once more than the ICE checking timeout passed; a connected one
/// stops the timer, remembers it connected, and on keepalive ticks gets a
/// keepalive if it has video.
pub open spec fn tick_step(e: MonitorEntry, connected: bool, now_ns: i64, do_keepalive: bool, has_video: bool) -> (MonitorEntry, MonitorAction) {
    if !connected {
        if e.ever_connected {
            (e, MonitorAction::Nothing)
        } else if e.checking_ns == 0 {
            (MonitorEntry { checking_ns: now_ns, ..e }, MonitorAction::Nothing)
        } else if (now_ns - e.checking_ns > ICE_CHECKING_TIMEOUT_NS) || (e.checking_ns - now_ns > ICE_CHECKING_TIMEOUT_NS) {
            (e, MonitorAction::Close)
        } else {
            (e, MonitorAction::Nothing)
        }
    } else {
        (
            MonitorEntry { checking_ns: 0, ever_connected: true },
            if do_keepalive && has_video { MonitorAction::Keepalive } else { MonitorAction::Nothing },
        )
    }
}

impl MonitorEntry {
    /// A connection just registered.
    pub fn new() -> (out: MonitorEntry)
        ensures
            out.checking_ns == 0 && !out.ever_connected,
    {
        MonitorEntry { checking_ns: 0, ever_connected: false }
    }

    /// One monitor tick for this connection.
    pub fn tick(&mut self, connected: bool, now_ns: i64, do_keepalive: bool, has_video: bool) -> (out: MonitorAction)
        ensures
            (*final(self), out) == tick_step(*old(self), connected, now_ns, do_keepalive, has_video),
    {
        if !connected {
            if self.ever_connected {
                return MonitorAction::Nothing;
            }
            if self.checking_ns == 0 {
                self.checking_ns = now_ns;
                return MonitorAction::Nothing;
            }
            let diff: i128 = now_ns as i128 - self.checking_ns as i128;
            if diff > ICE_CHECKING_TIMEOUT_NS || -diff > ICE_CHECKING_TIMEOUT_NS {
                return MonitorAction::Close;
            }
            return MonitorAction::Nothing;
        }
        self.ever_connected = true;
        self.checking_ns = 0;
        if do_keepalive && has_video { MonitorAction::Keepalive } else { MonitorAction::Nothing }
    }
}

/// The monitor's tick counter.
#[derive(Debug, Clone, Copy, PartialEq, Eq, Structural)]
pub struct MonitorClock {
    pub ticks: u64,
}

impl MonitorClock {
    /// A clock that has not ticked.
    pub fn new() -> (out: MonitorClock)
        ensures
            out.ticks == 0,
    {
        MonitorClock { ticks: 0 }
    }

    /// Counts a tick; tells whether it is a keepalive tick (every second one).
    pub fn tick(&mut self) -> (do_keepalive: bool)
        requires
            old(self).ticks < u64::MAX,
        ensures
            final(self).ticks == old(self).ticks + 1,
            do_keepalive == (final(self).ticks % KEEPALIVE_EVERY_TICKS == 0),
    {
        self.ticks = self.ticks + 1;
        self.ticks % KEEPALIVE_EVERY_TICKS == 0
    }
}

/// A connection that once connected is never closed by the monitor, and a
/// connected one is kept warm exactly on keepalive ticks when it has video.
pub proof fn lemma_monitor_spares_connected(e: MonitorEntry, connected: bool, now_ns: i64, k: bool, v: bool)
    ensures
        e.ever_connected ==> tick_step(e, connected, now_ns, k, v).1 != MonitorAction::Close,
        connected ==> tick_step(e, connected, now_ns, k, v).0.ever_connected,
        connected ==> (tick_step(e, connected, now_ns, k, v).1 == MonitorAction::Keepalive <==> (k && v)),
{
}

/// A connection that never connects is closed once the timeout has passed
/// since it was first seen: the first tick starts the timer, and a later
/// tick more than 35 s after it closes it.
pub proof fn lemma_monitor_closes_stuck(e: MonitorEntry, t0: i64, t1: i64)
    requires
        !e.ever_connected,
        e.checking_ns == 0,
        t0 != 0,
        t1 - t0 > ICE_CHECKING_TIMEOUT_NS,
    ensures
        ({
            let (e1, a0) = tick_step(e, false, t0, false, false);
            &&& a0 == MonitorAction::Nothing
            &&& tick_step(e1, false, t1, false, false).1 == MonitorAction::Close
        }),
{
}

} // verus!
