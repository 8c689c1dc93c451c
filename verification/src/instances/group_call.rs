//! The WebRTC group call of one chat, as a state machine. Each step tells
//! the caller what to do with the streamers and the transport; the caller
//! owns those and performs the actions.

use vstd::prelude::*;
use crate::models::errors::RustTgCallsError;
use crate::models::media_state::{ConnState, MediaState};

verus! {

/// How long setting a source waits for the connection when no timeout is
/// given: 10 seconds, in nanoseconds.
pub const DEFAULT_CONNECT_TIMEOUT_NS: u128 = 10_000_000_000;

/// The state of a group call: its chat, how long a source waits for the
/// connection, the last connection state reported, and its flags. The
/// streamer flags say whether an audio or video streamer is installed.
#[derive(Debug, Clone, Copy, PartialEq, Eq, Structural)]
pub struct GroupCallState {
    pub chat_id: i64,
    pub connect_timeout_ns: u128,
    pub net_state: ConnState,
    pub closed: bool,
    pub switching: bool,
    pub connect_called: bool,
    pub paused: bool,
    pub muted: bool,
    pub ended_once: bool,
    pub had_audio: bool,
    pub had_video: bool,
    pub resume_ms: u64,
    pub audio_streamer: bool,
    pub video_streamer: bool,
}

/// A fresh call: connecting, nothing installed, all flags cleared; a zero
/// timeout means the default one.
pub open spec fn gc_initial(chat_id: i64, connect_timeout_ns: u128) -> GroupCallState {
    GroupCallState {
        chat_id,
        connect_timeout_ns: if connect_timeout_ns == 0 { DEFAULT_CONNECT_TIMEOUT_NS } else { connect_timeout_ns },
        net_state: ConnState::Connecting,
        closed: false,
        switching: false,
        connect_called: false,
        paused: false,
        muted: false,
        ended_once: false,
        had_audio: false,
        had_video: false,
        resume_ms: 0,
        audio_streamer: false,
        video_streamer: false,
    }
}

/// The media state a call reports: muted as set; paused (and presentation
/// paused) whenever muted or paused; video stopped when no video streamer
/// is installed.
pub open spec fn gc_media_state(s: GroupCallState) -> MediaState {
    MediaState {
        muted: s.muted,
        paused: s.muted || s.paused,
        video_stopped: !s.video_streamer,
        presentation_paused: s.muted || s.paused,
    }
}

/// Pausing: a closed call refuses; an already paused one reports no change.
pub open spec fn gc_pause(s: GroupCallState) -> (GroupCallState, Result<bool, RustTgCallsError>) {
    if s.closed {
        (s, Err(RustTgCallsError::Closed))
    } else if s.paused {
        (s, Ok(false))
    } else {
        (GroupCallState { paused: true, ..s }, Ok(true))
    }
}

/// Resuming: a closed call refuses; one that is not paused reports no change.
pub open spec fn gc_resume(s: GroupCallState) -> (GroupCallState, Result<bool, RustTgCallsError>) {
    if s.closed {
        (s, Err(RustTgCallsError::Closed))
    } else if !s.paused {
        (s, Ok(false))
    } else {
        (GroupCallState { paused: false, ..s }, Ok(true))
    }
}

/// Muting: a closed call refuses; an already muted one reports no change.
pub open spec fn gc_mute(s: GroupCallState) -> (GroupCallState, Result<bool, RustTgCallsError>) {
    if s.closed {
        (s, Err(RustTgCallsError::Closed))
    } else if s.muted {
        (s, Ok(false))
    } else {
        (GroupCallState { muted: true, ..s }, Ok(true))
    }
}

/// Unmuting: a closed call refuses; one that is not muted reports no change.
pub open spec fn gc_unmute(s: GroupCallState) -> (GroupCallState, Result<bool, RustTgCallsError>) {
    if s.closed {
        (s, Err(RustTgCallsError::Closed))
    } else if !s.muted {
        (s, Ok(false))
    } else {
        (GroupCallState { muted: false, ..s }, Ok(true))
    }
}

/// Stopping, once: the call is closed, its streamers are stopped and
/// removed, and position, pause and mute are cleared. Tells whether this
/// step stopped it (and the transport is to be closed).
pub open spec fn gc_stop(s: GroupCallState) -> (GroupCallState, bool) {
    if s.closed {
        (s, false)
    } else {
        (
            GroupCallState {
                closed: true,
                audio_streamer: false,
                video_streamer: false,
                resume_ms: 0,
                paused: false,
                muted: false,
                ..s
            },
            true,
        )
    }
}

/// What installing a source asks of the caller: the media state before
/// the switch, which old streamers to stop, whether audio and video start
/// together on a barrier, which new streamers start paused, and whether
/// the video streamer reports the end of the stream (only without audio).
#[derive(Debug, Clone, Copy, PartialEq, Eq, Structural)]
pub struct SourcePlan {
    pub prev: MediaState,
    pub stop_audio: bool,
    pub stop_video: bool,
    pub barrier: bool,
    pub audio_starts_paused: bool,
    pub video_starts_paused: bool,
    pub video_reports_end: bool,
}

/// Beginning a source switch with the given tracks.
pub open spec fn gc_begin_switch(s: GroupCallState, has_audio: bool, has_video: bool) -> (GroupCallState, SourcePlan) {
    (
        GroupCallState {
            switching: true,
            had_audio: has_audio,
            had_video: has_video,
            ended_once: false,
            audio_streamer: has_audio,
            video_streamer: has_video,
            ..s
        },
        SourcePlan {
            prev: gc_media_state(GroupCallState { switching: true, ..s }),
            stop_audio: s.audio_streamer,
            stop_video: s.video_streamer,
            barrier: has_audio && has_video,
            audio_starts_paused: has_audio && (s.muted || s.paused),
            video_starts_paused: has_video && s.paused,
            video_reports_end: has_video && !has_audio,
        },
    )
}

/// The media state to announce after a change from `prev`: the current one
/// if it differs, else none.
pub open spec fn upgrade_of(prev: MediaState, cur: MediaState) -> Option<MediaState> {
    if prev == cur { None } else { Some(cur) }
}

/// Finishing a source switch: the switch is over and the new media state
/// is announced if it changed.
pub open spec fn gc_finish_switch(s: GroupCallState, prev: MediaState) -> (GroupCallState, Option<MediaState>) {
    let t = GroupCallState { switching: false, ..s };
    (t, upgrade_of(prev, gc_media_state(t)))
}

/// What the end of a stream asks of the caller: stop the streamers and
/// report the end of the video and audio tracks the source had.
#[derive(Debug, Clone, Copy, PartialEq, Eq, Structural)]
pub struct EndNotice {
    pub stop_audio: bool,
    pub stop_video: bool,
    pub report_video: bool,
    pub report_audio: bool,
}

/// A streamer ended: ignored on a closed call or during a switch, and
/// reported once per source.
pub open spec fn gc_stream_end(s: GroupCallState) -> (GroupCallState, Option<EndNotice>) {
    if s.closed || s.switching || s.ended_once {
        (s, None)
    } else {
        (
            GroupCallState { ended_once: true, ..s },
            Some(EndNotice {
                stop_audio: s.audio_streamer,
                stop_video: s.video_streamer,
                report_video: s.had_video,
                report_audio: s.had_audio,
            }),
        )
    }
}

/// What setting a source does before switching, given the transport's state.
#[derive(Debug, Clone, Copy, PartialEq, Eq, Structural)]
pub enum SourceReadiness {
    /// Connected: switch now.
    Proceed,
    /// A connection is under way: wait for it (up to the timeout), then check.
    WaitThenCheck,
    /// No connection was started: check at once.
    Check,
}

/// Whether a source can be installed now, given the transport's state.
pub open spec fn gc_source_readiness(s: GroupCallState, stack_state: ConnState) -> SourceReadiness {
    if stack_state == ConnState::Connected || s.net_state == ConnState::Connected {
        SourceReadiness::Proceed
    } else if s.connect_called {
        SourceReadiness::WaitThenCheck
    } else {
        SourceReadiness::Check
    }
}

/// The upgrade to announce after a change from `prev` to `cur`.
pub fn upgrade_if_changed(prev: MediaState, cur: MediaState) -> (out: Option<MediaState>)
    ensures
        out == upgrade_of(prev, cur),
{
    if prev == cur { None } else { Some(cur) }
}

impl GroupCallState {
    /// A fresh call of `chat_id`; a zero timeout means 10 seconds.
    pub fn new(chat_id: i64, connect_timeout_ns: u128) -> (out: GroupCallState)
        ensures
            out == gc_initial(chat_id, connect_timeout_ns),
    {
        GroupCallState {
            chat_id,
            connect_timeout_ns: if connect_timeout_ns == 0 { DEFAULT_CONNECT_TIMEOUT_NS } else { connect_timeout_ns },
            net_state: ConnState::Connecting,
            closed: false,
            switching: false,
            connect_called: false,
            paused: false,
            muted: false,
            ended_once: false,
            had_audio: false,
            had_video: false,
            resume_ms: 0,
            audio_streamer: false,
            video_streamer: false,
        }
    }

    /// The chat this call belongs to.
    pub fn chat_id(&self) -> (out: i64)
        ensures
            out == self.chat_id,
    {
        self.chat_id
    }

    /// The media state the call reports.
    pub fn current_state(&self) -> (out: MediaState)
        ensures
            out == gc_media_state(*self),
    {
        let silent = self.muted || self.paused;
        MediaState { muted: self.muted, paused: silent, video_stopped: !self.video_streamer, presentation_paused: silent }
    }

    /// A closed call refuses to make local parameters.
    pub fn check_open(&self) -> (out: Result<(), RustTgCallsError>)
        ensures
            self.closed ==> out == Err::<(), RustTgCallsError>(RustTgCallsError::Closed),
            !self.closed ==> out is Ok,
    {
        if self.closed { Err(RustTgCallsError::Closed) } else { Ok(()) }
    }

    /// Starting to connect: a closed call refuses; otherwise the attempt
    /// is noted, so that setting a source waits for it.
    pub fn begin_connect(&mut self) -> (out: Result<(), RustTgCallsError>)
        ensures
            old(self).closed ==> out == Err::<(), RustTgCallsError>(RustTgCallsError::Closed) && *final(self) == *old(self),
            !old(self).closed ==> out is Ok && *final(self) == (GroupCallState { connect_called: true, ..*old(self) }),
    {
        if self.closed {
            return Err(RustTgCallsError::Closed);
        }
        self.connect_called = true;
        Ok(())
    }

    /// The transport reported a new state; tells whether it is connected
    /// (and waiters are to be woken).
    pub fn on_state_change(&mut self, state: ConnState) -> (connected: bool)
        ensures
            *final(self) == (GroupCallState { net_state: state, ..*old(self) }),
            connected == (state == ConnState::Connected),
    {
        self.net_state = state;
        state == ConnState::Connected
    }

    /// What setting a source does first, given the transport's state.
    pub fn source_readiness(&self, stack_state: ConnState) -> (out: SourceReadiness)
        ensures
            out == gc_source_readiness(*self, stack_state),
    {
        if stack_state == ConnState::Connected || self.net_state == ConnState::Connected {
            SourceReadiness::Proceed
        } else if self.connect_called {
            SourceReadiness::WaitThenCheck
        } else {
            SourceReadiness::Check
        }
    }

    /// Before a source is installed the transport must be connected.
    pub fn connection_check(stack_state: ConnState) -> (out: Result<(), RustTgCallsError>)
        ensures
            stack_state == ConnState::Connected ==> out is Ok,
            stack_state != ConnState::Connected ==> (out matches Err(RustTgCallsError::Internal(m))
                && m@ == "WebRTC connection timed out before set_source"@),
    {
        if stack_state == ConnState::Connected {
            Ok(())
        } else {
            Err(RustTgCallsError::Internal(String::from_str("WebRTC connection timed out before set_source")))
        }
    }

    /// Begins installing a source with the given tracks.
    pub fn begin_switch(&mut self, has_audio: bool, has_video: bool) -> (out: SourcePlan)
        ensures
            (*final(self), out) == gc_begin_switch(*old(self), has_audio, has_video),
    {
        self.switching = true;
        let prev = self.current_state();
        let plan = SourcePlan {
            prev,
            stop_audio: self.audio_streamer,
            stop_video: self.video_streamer,
            barrier: has_audio && has_video,
            audio_starts_paused: has_audio && (self.muted || self.paused),
            video_starts_paused: has_video && self.paused,
            video_reports_end: has_video && !has_audio,
        };
        self.audio_streamer = has_audio;
        self.video_streamer = has_video;
        self.had_audio = has_audio;
        self.had_video = has_video;
        self.ended_once = false;
        plan
    }

    /// Finishes installing a source begun with media state `prev`.
    pub fn finish_switch(&mut self, prev: MediaState) -> (out: Option<MediaState>)
        ensures
            (*final(self), out) == gc_finish_switch(*old(self), prev),
    {
        self.switching = false;
        upgrade_if_changed(prev, self.current_state())
    }

    /// Pauses outgoing media; tells whether anything changed.
    pub fn pause(&mut self) -> (out: Result<bool, RustTgCallsError>)
        ensures
            (*final(self), out) == gc_pause(*old(self)),
    {
        if self.closed {
            return Err(RustTgCallsError::Closed);
        }
        if self.paused {
            return Ok(false);
        }
        self.paused = true;
        Ok(true)
    }

    /// Resumes outgoing media; tells whether anything changed.
    pub fn resume(&mut self) -> (out: Result<bool, RustTgCallsError>)
        ensures
            (*final(self), out) == gc_resume(*old(self)),
    {
        if self.closed {
            return Err(RustTgCallsError::Closed);
        }
        if !self.paused {
            return Ok(false);
        }
        self.paused = false;
        Ok(true)
    }

    /// Mutes outgoing audio; tells whether anything changed.
    pub fn mute(&mut self) -> (out: Result<bool, RustTgCallsError>)
        ensures
            (*final(self), out) == gc_mute(*old(self)),
    {
        if self.closed {
            return Err(RustTgCallsError::Closed);
        }
        if self.muted {
            return Ok(false);
        }
        self.muted = true;
        Ok(true)
    }

    /// Unmutes outgoing audio; tells whether anything changed.
    pub fn unmute(&mut self) -> (out: Result<bool, RustTgCallsError>)
        ensures
            (*final(self), out) == gc_unmute(*old(self)),
    {
        if self.closed {
            return Err(RustTgCallsError::Closed);
        }
        if !self.muted {
            return Ok(false);
        }
        self.muted = false;
        Ok(true)
    }

    /// Stops the call; tells whether this call stopped it.
    pub fn stop(&mut self) -> (first: bool)
        ensures
            (*final(self), first) == gc_stop(*old(self)),
    {
        if self.closed {
            return false;
        }
        self.closed = true;
        self.audio_streamer = false;
        self.video_streamer = false;
        self.resume_ms = 0;
        self.paused = false;
        self.muted = false;
        true
    }

    /// A streamer ended; tells what to stop and report, if anything.
    pub fn on_stream_end(&mut self) -> (out: Option<EndNotice>)
        ensures
            (*final(self), out) == gc_stream_end(*old(self)),
    {
        if self.closed || self.switching || self.ended_once {
            return None;
        }
        self.ended_once = true;
        Some(EndNotice {
            stop_audio: self.audio_streamer,
            stop_video: self.video_streamer,
            report_video: self.had_video,
            report_audio: self.had_audio,
        })
    }

    /// Group calls cannot seek.
    pub fn seek_by(&self, delta_ms: i64) -> (out: Result<(), RustTgCallsError>)
        ensures
            out == Err::<(), RustTgCallsError>(RustTgCallsError::SeekUnsupported),
    {
        Err(RustTgCallsError::SeekUnsupported)
    }

    /// The playback position the call reports, in milliseconds.
    pub fn elapsed_ms(&self) -> (out: u64)
        ensures
            out == self.resume_ms,
    {
        self.resume_ms
    }

    /// The last connection state reported by the transport.
    pub fn net_state(&self) -> (out: ConnState)
        ensures
            out == self.net_state,
    {
        self.net_state
    }
}

/// Pausing then resuming an open, unpaused call gives back the same call
/// and media state, both steps reporting a change.
pub proof fn lemma_gc_pause_resume(s: GroupCallState)
    requires
        !s.closed,
        !s.paused,
    ensures
        gc_pause(s).1 == Ok::<bool, RustTgCallsError>(true),
        gc_resume(gc_pause(s).0).1 == Ok::<bool, RustTgCallsError>(true),
        gc_resume(gc_pause(s).0).0 == s,
        gc_media_state(gc_resume(gc_pause(s).0).0) == gc_media_state(s),
{
}

/// Muting then unmuting an open, unmuted call gives back the same call.
pub proof fn lemma_gc_mute_unmute(s: GroupCallState)
    requires
        !s.closed,
        !s.muted,
    ensures
        gc_mute(s).1 == Ok::<bool, RustTgCallsError>(true),
        gc_unmute(gc_mute(s).0).1 == Ok::<bool, RustTgCallsError>(true),
        gc_unmute(gc_mute(s).0).0 == s,
{
}

/// Pause, resume, mute and unmute are idempotent: repeating one changes
/// nothing and reports no change (or the call's refusal).
pub proof fn lemma_gc_idempotent(s: GroupCallState)
    ensures
        gc_pause(gc_pause(s).0).0 == gc_pause(s).0,
        gc_resume(gc_resume(s).0).0 == gc_resume(s).0,
        gc_mute(gc_mute(s).0).0 == gc_mute(s).0,
        gc_unmute(gc_unmute(s).0).0 == gc_unmute(s).0,
        !s.closed ==> gc_pause(gc_pause(s).0).1 == Ok::<bool, RustTgCallsError>(false),
        !s.closed ==> gc_resume(gc_resume(s).0).1 == Ok::<bool, RustTgCallsError>(false),
        !s.closed ==> gc_mute(gc_mute(s).0).1 == Ok::<bool, RustTgCallsError>(false),
        !s.closed ==> gc_unmute(gc_unmute(s).0).1 == Ok::<bool, RustTgCallsError>(false),
{
}

/// A paused or muted call reports silence; the paused and presentation
/// flags always agree.
pub proof fn lemma_gc_silence(s: GroupCallState)
    ensures
        gc_media_state(s).paused == (s.muted || s.paused),
        gc_media_state(s).presentation_paused == gc_media_state(s).paused,
        !s.closed ==> gc_media_state(gc_pause(s).0).paused,
        !s.closed ==> gc_media_state(gc_mute(s).0).paused && gc_media_state(gc_mute(s).0).muted,
{
}

/// Stopping is final: a stopped call refuses every media step, stopping
/// it again changes nothing, and it reports neither pause nor mute.
pub proof fn lemma_gc_stop_final(s: GroupCallState)
    ensures
        ({
            let t = gc_stop(s).0;
            &&& t.closed
            &&& gc_stop(t) == (t, false)
            &&& gc_pause(t) == (t, Err::<bool, RustTgCallsError>(RustTgCallsError::Closed))
            &&& gc_resume(t) == (t, Err::<bool, RustTgCallsError>(RustTgCallsError::Closed))
            &&& gc_mute(t) == (t, Err::<bool, RustTgCallsError>(RustTgCallsError::Closed))
            &&& gc_unmute(t) == (t, Err::<bool, RustTgCallsError>(RustTgCallsError::Closed))
            &&& gc_stream_end(t).1 is None
            &&& !s.closed ==> !gc_media_state(t).paused && !gc_media_state(t).muted
        }),
{
}

/// The end of a newly installed source is reported exactly once, naming
/// the tracks it had; a streamer ending during the switch is ignored.
pub proof fn lemma_gc_end_reported_once(s: GroupCallState, has_audio: bool, has_video: bool)
    requires
        !s.closed,
    ensures
        ({
            let (s1, plan) = gc_begin_switch(s, has_audio, has_video);
            let s2 = gc_finish_switch(s1, plan.prev).0;
            let (s3, first) = gc_stream_end(s2);
            &&& gc_stream_end(s1).1 is None
            &&& first == Some(EndNotice {
                stop_audio: has_audio,
                stop_video: has_video,
                report_video: has_video,
                report_audio: has_audio,
            })
            &&& gc_stream_end(s3).1 is None
        }),
{
}

/// A source installed on a silent call starts silent: its audio starts
/// paused exactly when the source has audio and the call reports itself
/// paused (muted or paused), and its video starts paused exactly when the
/// source has video and the call is paused. Pausing a call and then
/// installing a source with audio leaves that audio paused; on a call
/// that is neither paused nor muted the new source plays.
pub proof fn lemma_gc_switch_starts_silent(s: GroupCallState, has_audio: bool, has_video: bool)
    ensures
        gc_begin_switch(s, has_audio, has_video).1.audio_starts_paused == (has_audio && gc_media_state(s).paused),
        gc_begin_switch(s, has_audio, has_video).1.video_starts_paused == (has_video && s.paused),
        gc_pause(s).1 is Ok ==> gc_begin_switch(gc_pause(s).0, has_audio, has_video).1.audio_starts_paused == has_audio,
        gc_pause(s).1 is Ok ==> gc_begin_switch(gc_pause(s).0, has_audio, has_video).1.video_starts_paused == has_video,
        gc_mute(s).1 is Ok ==> gc_begin_switch(gc_mute(s).0, has_audio, has_video).1.audio_starts_paused == has_audio,
        !s.paused && !s.muted ==> !gc_begin_switch(s, has_audio, has_video).1.audio_starts_paused
            && !gc_begin_switch(s, has_audio, has_video).1.video_starts_paused,
{
}

/// After a source is installed the call reports video stopped exactly
/// when the source has no video, and its pause and mute are as before.
pub proof fn lemma_gc_switch_reports_tracks(s: GroupCallState, has_audio: bool, has_video: bool)
    ensures
        ({
            let (s1, plan) = gc_begin_switch(s, has_audio, has_video);
            let (s2, up) = gc_finish_switch(s1, plan.prev);
            &&& !s2.switching
            &&& gc_media_state(s2).video_stopped == !has_video
            &&& gc_media_state(s2).muted == s.muted
            &&& gc_media_state(s2).paused == (s.muted || s.paused)
            &&& (up is Some <==> s.video_streamer != has_video)
        }),
{
}

} // verus!
