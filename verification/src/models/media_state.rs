//! Participant media flags and connection states.

use vstd::prelude::*;

verus! {

/// MediaState mirrors the Telegram participant flags
/// (muted / video_paused / video_stopped / presentation_paused).
///
/// - `muted`: outgoing audio was muted.
/// - `paused`: outgoing media is not flowing; true whenever muted or paused.
/// - `video_stopped`: the current source has no video track.
/// - `presentation_paused`: same lifecycle as `paused`.
#[derive(Debug, Clone, Copy, PartialEq, Eq, Structural)]
pub struct MediaState {
    pub muted: bool,
    pub paused: bool,
    pub video_stopped: bool,
    pub presentation_paused: bool,
}

impl MediaState {
    /// All flags cleared.
    pub fn new() -> (out: MediaState)
        ensures
            !out.muted && !out.paused && !out.video_stopped && !out.presentation_paused,
    {
        MediaState { muted: false, paused: false, video_stopped: false, presentation_paused: false }
    }
}

/// Whether a flag is cleared; a cleared flag is left out of the serialized form.
pub fn is_false(v: &bool) -> (out: bool)
    ensures
        out == !*v,
{
    !*v
}

/// The transport connection state.
#[derive(Debug, Clone, Copy, PartialEq, Eq, Hash, Structural)]
pub enum ConnState {
    Connecting,
    Connected,
    Disconnected,
    Failed,
    Closed,
}

/// The numeric code of a state, as stored in atomics.
pub open spec fn conn_state_code(s: ConnState) -> i32 {
    match s {
        ConnState::Connecting => 0,
        ConnState::Connected => 1,
        ConnState::Disconnected => 2,
        ConnState::Failed => 3,
        ConnState::Closed => 4,
    }
}

impl ConnState {
    /// The state a fresh connection starts in.
    pub fn initial() -> (out: ConnState)
        ensures
            out == ConnState::Connecting,
    {
        ConnState::Connecting
    }

    /// The lower-case name of the state (what `Display` prints).
    pub fn name(&self) -> (out: &'static str)
        ensures
            out@ == (match *self {
                ConnState::Connecting => "connecting"@,
                ConnState::Connected => "connected"@,
                ConnState::Disconnected => "disconnected"@,
                ConnState::Failed => "failed"@,
                ConnState::Closed => "closed"@,
            }),
    {
        match self {
            ConnState::Connecting => "connecting",
            ConnState::Connected => "connected",
            ConnState::Disconnected => "disconnected",
            ConnState::Failed => "failed",
            ConnState::Closed => "closed",
        }
    }

    /// The numeric code of the state.
    pub fn code(&self) -> (out: i32)
        ensures
            out == conn_state_code(*self),
    {
        match self {
            ConnState::Connecting => 0,
            ConnState::Connected => 1,
            ConnState::Disconnected => 2,
            ConnState::Failed => 3,
            ConnState::Closed => 4,
        }
    }

    /// Decodes a numeric code; codes outside `0..=4` decode to `unknown`.
    pub fn from_code(code: i32, unknown: ConnState) -> (out: ConnState)
        ensures
            0 <= code <= 4 ==> conn_state_code(out) == code,
            !(0 <= code <= 4) ==> out == unknown,
    {
        if code == 0 {
            ConnState::Connecting
        } else if code == 1 {
            ConnState::Connected
        } else if code == 2 {
            ConnState::Disconnected
        } else if code == 3 {
            ConnState::Failed
        } else if code == 4 {
            ConnState::Closed
        } else {
            unknown
        }
    }
}

/// Connection change notification payload.
#[derive(Debug, Clone, Copy, PartialEq, Eq, Structural)]
pub struct NetworkInfo {
    pub state: ConnState,
}

/// Timing information of a call.
#[derive(Debug, Clone, Copy, PartialEq, Eq, Structural)]
pub struct CallInfo {
    pub capture_time_ms: u64,
}

/// A round trip through the numeric code gives the state back.
pub proof fn lemma_conn_state_code_roundtrip(s: ConnState)
    ensures
        0 <= conn_state_code(s) <= 4,
        forall|u: ConnState| conn_state_code(u) == conn_state_code(s) ==> u == s,
{
}

} // verus!
