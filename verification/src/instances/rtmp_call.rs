//! The RTMP push call of one chat, as a state machine, and the single
//! ffmpeg argument list that reads the input, transcodes it to H.264 and
//! AAC, and pushes FLV to Telegram's RTMP URL.

use vstd::prelude::*;
use crate::media::source::EncodeOptions;
use crate::media::source::default_encode_options;
use crate::media::shell_source::{seconds_text, seconds_string};
use crate::media::transcode::{kbps_text, kbps_string, scale_text, scale_string};
use crate::models::errors::RustTgCallsError;
use crate::models::media_state::{ConnState, MediaState};
use crate::utils::text::{views, dec, u64_to_dec, push_lit, push_string};

verus! {

// ---------------------------------------------------------------------------
// The ffmpeg arguments
// ---------------------------------------------------------------------------

/// The flags every push starts with.
pub open spec fn rtmp_head() -> Seq<Seq<char>> {
    seq!["-hide_banner"@, "-loglevel"@, "error"@, "-nostdin"@, "-re"@]
}

/// The seek flags: `-ss` and the position in seconds, when there is one.
pub open spec fn rtmp_seek(seek_ms: nat) -> Seq<Seq<char>> {
    if seek_ms > 0 { seq!["-ss"@, seconds_text(seek_ms)] } else { Seq::empty() }
}

/// The input and H.264 video flags.
pub open spec fn rtmp_video(input: Seq<char>, o: EncodeOptions) -> Seq<Seq<char>> {
    seq![
        "-i"@, input, "-c:v"@, "libx264"@, "-preset"@, "veryfast"@, "-tune"@, "zerolatency"@,
        "-b:v"@, kbps_text(o.video_bitrate_kbps as nat), "-r"@, dec(o.video_fps as nat),
        "-vf"@, scale_text(o.video_width as nat, o.video_height as nat), "-pix_fmt"@, "yuv420p"@,
        "-g"@, dec(o.video_fps as nat * 2),
    ]
}

/// The AAC audio and FLV output flags.
pub open spec fn rtmp_audio(o: EncodeOptions, url: Seq<char>) -> Seq<Seq<char>> {
    seq![
        "-c:a"@, "aac"@, "-b:a"@, kbps_text(o.audio_bitrate_kbps as nat), "-ar"@, "44100"@,
        "-ac"@, dec(o.audio_channels as nat), "-f"@, "flv"@, url,
    ]
}

/// What `build_rtmp_args` returns.
pub open spec fn spec_rtmp_args(input: Seq<char>, seek_ms: nat, o: EncodeOptions, url: Seq<char>) -> Seq<Seq<char>> {
    rtmp_head() + rtmp_seek(seek_ms) + rtmp_video(input, o) + rtmp_audio(o, url)
}

fn push_rtmp_video(args: &mut Vec<String>, input_path: &str, o: &EncodeOptions)
    requires
        o.video_fps * 2 <= u32::MAX,
    ensures
        views(final(args)@) == views(old(args)@) + rtmp_video(input_path@, *o),
{
    let ghost a0 = views(args@);
    push_lit(args, "-i");
    push_lit(args, input_path);
    push_lit(args, "-c:v");
    push_lit(args, "libx264");
    push_lit(args, "-preset");
    push_lit(args, "veryfast");
    push_lit(args, "-tune");
    push_lit(args, "zerolatency");
    push_lit(args, "-b:v");
    push_string(args, kbps_string(o.video_bitrate_kbps as u64));
    push_lit(args, "-r");
    push_string(args, u64_to_dec(o.video_fps as u64));
    push_lit(args, "-vf");
    push_string(args, scale_string(o.video_width, o.video_height));
    push_lit(args, "-pix_fmt");
    push_lit(args, "yuv420p");
    push_lit(args, "-g");
    push_string(args, u64_to_dec((o.video_fps * 2) as u64));
    assert(views(args@) =~= a0 + rtmp_video(input_path@, *o));
}

fn push_rtmp_audio(args: &mut Vec<String>, o: &EncodeOptions, rtmp_url: &str)
    ensures
        views(final(args)@) == views(old(args)@) + rtmp_audio(*o, rtmp_url@),
{
    let ghost a0 = views(args@);
    push_lit(args, "-c:a");
    push_lit(args, "aac");
    push_lit(args, "-b:a");
    push_string(args, kbps_string(o.audio_bitrate_kbps as u64));
    push_lit(args, "-ar");
    push_lit(args, "44100");
    push_lit(args, "-ac");
    push_string(args, u64_to_dec(o.audio_channels as u64));
    push_lit(args, "-f");
    push_lit(args, "flv");
    push_lit(args, rtmp_url);
    assert(views(args@) =~= a0 + rtmp_audio(*o, rtmp_url@));
}

/// The ffmpeg arguments of a push: read `input_path` in real time from
/// `seek_ms`, encode H.264 (veryfast, zero latency, a keyframe every two
/// seconds) and 44.1 kHz AAC, and send FLV to `rtmp_url`. The keyframe
/// interval, twice the frame rate, must fit in a `u32`.
pub fn build_rtmp_args(input_path: &str, seek_ms: u64, opt: &EncodeOptions, rtmp_url: &str) -> (out: Vec<String>)
    requires
        opt.video_fps * 2 <= u32::MAX,
    ensures
        views(out@) == spec_rtmp_args(input_path@, seek_ms as nat, *opt, rtmp_url@),
{
    let mut args: Vec<String> = Vec::new();
    push_lit(&mut args, "-hide_banner");
    push_lit(&mut args, "-loglevel");
    push_lit(&mut args, "error");
    push_lit(&mut args, "-nostdin");
    push_lit(&mut args, "-re");
    assert(views(args@) =~= rtmp_head());
    if seek_ms > 0 {
        push_lit(&mut args, "-ss");
        push_string(&mut args, seconds_string(seek_ms));
    }
    assert(views(args@) =~= rtmp_head() + rtmp_seek(seek_ms as nat));
    push_rtmp_video(&mut args, input_path, opt);
    push_rtmp_audio(&mut args, opt, rtmp_url);
    args
}

// ---------------------------------------------------------------------------
// The call
// ---------------------------------------------------------------------------

/// The input every push reads.
pub const RTMP_INPUT: &'static str = "input.mp4";

/// The state of an RTMP call: its chat and push URL, its flags, the saved
/// playback position, whether a push was ever started (its clock runs from
/// that start), and whether an ffmpeg push is running now.
#[derive(Debug, Clone)]
pub struct RtmpCallState {
    pub chat_id: i64,
    pub rtmp_url: String,
    pub closed: bool,
    pub paused: bool,
    pub muted: bool,
    pub resume_ms: u64,
    pub started: bool,
    pub pushing: bool,
}

/// The media state an RTMP call reports: the push always carries video.
pub open spec fn rtmp_media_state(s: RtmpCallState) -> MediaState {
    MediaState {
        muted: s.muted,
        paused: s.muted || s.paused,
        video_stopped: false,
        presentation_paused: s.muted || s.paused,
    }
}

/// The playback position in milliseconds, `since_start_ms` after the
/// latest start: the saved position while paused, the saved position plus
/// the time since the start while pushing, zero before any start.
pub open spec fn rtmp_elapsed(s: RtmpCallState, since_start_ms: nat) -> nat {
    if s.paused {
        s.resume_ms as nat
    } else if s.started {
        (s.resume_ms + since_start_ms) as nat
    } else {
        0
    }
}

/// Whether the position can be computed without overflow.
pub open spec fn rtmp_elapsed_fits(s: RtmpCallState, since_start_ms: nat) -> bool {
    rtmp_elapsed(s, since_start_ms) <= u64::MAX
}

/// Pausing: a closed call refuses, a paused one reports no change;
/// otherwise the push stops and the position is kept as it was.
pub open spec fn rtmp_pause(s: RtmpCallState) -> (RtmpCallState, Result<bool, RustTgCallsError>) {
    if s.closed {
        (s, Err(RustTgCallsError::Closed))
    } else if s.paused {
        (s, Ok(false))
    } else {
        (RtmpCallState { paused: true, pushing: false, ..s }, Ok(true))
    }
}

/// Resuming: a closed call refuses, an unpaused one reports no change
/// (`None`); otherwise the call is unpaused and a push from the saved
/// position is to be started with the given arguments.
pub open spec fn rtmp_resume(s: RtmpCallState) -> (RtmpCallState, Result<Option<Seq<Seq<char>>>, RustTgCallsError>) {
    if s.closed {
        (s, Err(RustTgCallsError::Closed))
    } else if !s.paused {
        (s, Ok(None))
    } else {
        (
            RtmpCallState { paused: false, ..s },
            Ok(Some(spec_rtmp_args(RTMP_INPUT@, s.resume_ms as nat, default_encode_options(), s.rtmp_url@))),
        )
    }
}

/// Muting: a closed call refuses; an already muted one reports no change.
pub open spec fn rtmp_mute(s: RtmpCallState) -> (RtmpCallState, Result<bool, RustTgCallsError>) {
    if s.closed {
        (s, Err(RustTgCallsError::Closed))
    } else if s.muted {
        (s, Ok(false))
    } else {
        (RtmpCallState { muted: true, ..s }, Ok(true))
    }
}

/// Unmuting: a closed call refuses; one that is not muted reports no change.
pub open spec fn rtmp_unmute(s: RtmpCallState) -> (RtmpCallState, Result<bool, RustTgCallsError>) {
    if s.closed {
        (s, Err(RustTgCallsError::Closed))
    } else if !s.muted {
        (s, Ok(false))
    } else {
        (RtmpCallState { muted: false, ..s }, Ok(true))
    }
}

/// Stopping, once: the call is closed, the push stops, and position,
/// pause and mute are cleared. Tells whether this step stopped it.
pub open spec fn rtmp_stop(s: RtmpCallState) -> (RtmpCallState, bool) {
    if s.closed {
        (s, false)
    } else {
        (RtmpCallState { closed: true, pushing: false, resume_ms: 0, paused: false, muted: false, ..s }, true)
    }
}

/// Seeking by `delta_ms` from the position `since_start_ms` after the
/// latest start: a closed call refuses; a target before the start stops
/// the call; otherwise the target becomes the saved position.
pub open spec fn rtmp_seek_by(s: RtmpCallState, delta_ms: i64, since_start_ms: nat) -> (RtmpCallState, Result<(), RustTgCallsError>) {
    let target = (rtmp_elapsed(s, since_start_ms) as u64) as i64 + delta_ms;
    if s.closed {
        (s, Err(RustTgCallsError::Closed))
    } else if target < 0 {
        (rtmp_stop(s).0, Ok(()))
    } else {
        (RtmpCallState { resume_ms: target as u64, ..s }, Ok(()))
    }
}

impl RtmpCallState {
    /// A fresh call of `chat_id` pushing to `rtmp_url`.
    pub fn new(chat_id: i64, rtmp_url: &str) -> (out: RtmpCallState)
        ensures
            out.chat_id == chat_id,
            out.rtmp_url@ == rtmp_url@,
            !out.closed && !out.paused && !out.muted && !out.started && !out.pushing,
            out.resume_ms == 0,
    {
        RtmpCallState {
            chat_id,
            rtmp_url: String::from_str(rtmp_url),
            closed: false,
            paused: false,
            muted: false,
            resume_ms: 0,
            started: false,
            pushing: false,
        }
    }

    /// The media state the call reports.
    pub fn current_state(&self) -> (out: MediaState)
        ensures
            out == rtmp_media_state(*self),
    {
        let silent = self.muted || self.paused;
        MediaState { muted: self.muted, paused: silent, video_stopped: false, presentation_paused: silent }
    }

    /// RTMP calls have no WebRTC side: local parameters, connecting and
    /// the audio SSRC are refused.
    pub fn wrong_mode() -> (out: RustTgCallsError)
        ensures
            out == RustTgCallsError::WrongMode,
    {
        RustTgCallsError::WrongMode
    }

    /// The arguments of the push that setting a source starts, from the
    /// beginning; a closed call refuses.
    pub fn source_args(&self) -> (out: Result<Vec<String>, RustTgCallsError>)
        ensures
            self.closed ==> out == Err::<Vec<String>, RustTgCallsError>(RustTgCallsError::Closed),
            !self.closed ==> (out matches Ok(args)
                && views(args@) == spec_rtmp_args(RTMP_INPUT@, 0, default_encode_options(), self.rtmp_url@)),
    {
        if self.closed {
            return Err(RustTgCallsError::Closed);
        }
        let opt = EncodeOptions::defaults();
        Ok(build_rtmp_args(RTMP_INPUT, 0, &opt, self.rtmp_url.as_str()))
    }

    /// A push started by setting a source is running: its clock starts
    /// now, from position zero.
    pub fn on_source_started(&mut self)
        ensures
            *final(self) == (RtmpCallState { started: true, pushing: true, resume_ms: 0, ..*old(self) }),
    {
        self.started = true;
        self.pushing = true;
        self.resume_ms = 0;
    }

    /// A push started by resuming is running: its clock starts now.
    pub fn on_resume_started(&mut self)
        ensures
            *final(self) == (RtmpCallState { started: true, pushing: true, ..*old(self) }),
    {
        self.started = true;
        self.pushing = true;
    }

    /// Pauses the push; tells whether anything changed (the running push,
    /// if any, is to be stopped).
    pub fn pause(&mut self) -> (out: Result<bool, RustTgCallsError>)
        ensures
            (*final(self), out) == rtmp_pause(*old(self)),
    {
        if self.closed {
            return Err(RustTgCallsError::Closed);
        }
        if self.paused {
            return Ok(false);
        }
        self.paused = true;
        self.pushing = false;
        Ok(true)
    }

    /// Resumes the push; gives the arguments of the push to start, if any.
    pub fn resume(&mut self) -> (out: Result<Option<Vec<String>>, RustTgCallsError>)
        ensures
            final(self).closed == rtmp_resume(*old(self)).0.closed,
            *final(self) == rtmp_resume(*old(self)).0,
            match (out, rtmp_resume(*old(self)).1) {
                (Err(e), Err(f)) => e == f,
                (Ok(None), Ok(None)) => true,
                (Ok(Some(args)), Ok(Some(a))) => views(args@) == a,
                _ => false,
            },
    {
        if self.closed {
            return Err(RustTgCallsError::Closed);
        }
        if !self.paused {
            return Ok(None);
        }
        self.paused = false;
        let opt = EncodeOptions::defaults();
        Ok(Some(build_rtmp_args(RTMP_INPUT, self.resume_ms, &opt, self.rtmp_url.as_str())))
    }

    /// Mutes; tells whether anything changed.
    pub fn mute(&mut self) -> (out: Result<bool, RustTgCallsError>)
        ensures
            (*final(self), out) == rtmp_mute(*old(self)),
    {
        if self.closed {
            return Err(RustTgCallsError::Closed);
        }
        if self.muted {
            return Ok(false);
        }
        self.muted = true;
        Ok(true)
    }

    /// Unmutes; tells whether anything changed.
    pub fn unmute(&mut self) -> (out: Result<bool, RustTgCallsError>)
        ensures
            (*final(self), out) == rtmp_unmute(*old(self)),
    {
        if self.closed {
            return Err(RustTgCallsError::Closed);
        }
        if !self.muted {
            return Ok(false);
        }
        self.muted = false;
        Ok(true)
    }

    /// Stops the call; tells whether this call stopped it.
    pub fn stop(&mut self) -> (first: bool)
        ensures
            (*final(self), first) == rtmp_stop(*old(self)),
    {
        if self.closed {
            return false;
        }
        self.closed = true;
        self.pushing = false;
        self.resume_ms = 0;
        self.paused = false;
        self.muted = false;
        true
    }

    /// The playback position, `since_start_ms` after the latest start.
    pub fn elapsed_ms(&self, since_start_ms: u64) -> (out: u64)
        requires
            rtmp_elapsed_fits(*self, since_start_ms as nat),
        ensures
            out as nat == rtmp_elapsed(*self, since_start_ms as nat),
    {
        if self.paused {
            self.resume_ms
        } else if self.started {
            self.resume_ms + since_start_ms
        } else {
            0
        }
    }

    /// Seeks by `delta_ms` (forward when positive) from the position
    /// `since_start_ms` after the latest start. On an open call the
    /// position must fit in a `u64` and the target in an `i64`.
    pub fn seek_by(&mut self, delta_ms: i64, since_start_ms: u64) -> (out: Result<(), RustTgCallsError>)
        requires
            !old(self).closed ==> rtmp_elapsed_fits(*old(self), since_start_ms as nat),
            !old(self).closed ==> i64::MIN <= (rtmp_elapsed(*old(self), since_start_ms as nat) as u64) as i64 + delta_ms
                <= i64::MAX,
        ensures
            (*final(self), out) == rtmp_seek_by(*old(self), delta_ms, since_start_ms as nat),
    {
        if self.closed {
            return Err(RustTgCallsError::Closed);
        }
        let cur = self.elapsed_ms(since_start_ms) as i64;
        let target = cur + delta_ms;
        if target < 0 {
            self.stop();
            return Ok(());
        }
        self.resume_ms = target as u64;
        Ok(())
    }

    /// The push's connection state: closed, connecting until a push runs,
    /// then connected.
    pub fn net_state(&self) -> (out: ConnState)
        ensures
            out == (if self.closed {
                ConnState::Closed
            } else if !self.pushing {
                ConnState::Connecting
            } else {
                ConnState::Connected
            }),
    {
        if self.closed {
            ConnState::Closed
        } else if !self.pushing {
            ConnState::Connecting
        } else {
            ConnState::Connected
        }
    }
}

/// Resuming a paused call restarts the push from the position it was
/// paused at: pausing keeps the position, and the resumed push seeks to it.
pub proof fn lemma_rtmp_pause_resume(s: RtmpCallState)
    requires
        !s.closed,
        !s.paused,
    ensures
        ({
            let p = rtmp_pause(s).0;
            let (r, out) = rtmp_resume(p);
            &&& p.resume_ms == s.resume_ms
            &&& !p.pushing
            &&& out == Ok::<Option<Seq<Seq<char>>>, RustTgCallsError>(Some(
                spec_rtmp_args(RTMP_INPUT@, s.resume_ms as nat, default_encode_options(), s.rtmp_url@)))
            &&& !r.paused
            &&& rtmp_media_state(r) == rtmp_media_state(s)
        }),
{
}

/// Seeking on a paused call moves its position by exactly `delta_ms`; a
/// seek before the start stops the call. (Positions beyond `i64::MAX`
/// milliseconds wrap when read as signed, and are left out.)
pub proof fn lemma_rtmp_seek_moves(s: RtmpCallState, delta_ms: i64, since: nat)
    requires
        !s.closed,
        s.paused,
        s.resume_ms <= i64::MAX,
    ensures
        ({
            let (t, out) = rtmp_seek_by(s, delta_ms, since);
            &&& out is Ok
            &&& s.resume_ms + delta_ms >= 0 ==> t.paused && rtmp_elapsed(t, since) == s.resume_ms + delta_ms
            &&& s.resume_ms + delta_ms < 0 ==> t.closed
        }),
{
    assert(rtmp_elapsed(s, since) == s.resume_ms);
    assert((s.resume_ms as u64) as i64 == s.resume_ms);
}

/// Stopping is final: a stopped call refuses pause, resume, mute, unmute
/// and seeking, and stopping it again changes nothing.
pub proof fn lemma_rtmp_stop_final(s: RtmpCallState, delta_ms: i64, since: nat)
    ensures
        ({
            let t = rtmp_stop(s).0;
            &&& t.closed
            &&& !s.closed ==> !t.pushing
            &&& rtmp_stop(t) == (t, false)
            &&& rtmp_pause(t).1 == Err::<bool, RustTgCallsError>(RustTgCallsError::Closed)
            &&& rtmp_resume(t).1 == Err::<Option<Seq<Seq<char>>>, RustTgCallsError>(RustTgCallsError::Closed)
            &&& rtmp_mute(t).1 == Err::<bool, RustTgCallsError>(RustTgCallsError::Closed)
            &&& rtmp_unmute(t).1 == Err::<bool, RustTgCallsError>(RustTgCallsError::Closed)
            &&& rtmp_seek_by(t, delta_ms, since).1 == Err::<(), RustTgCallsError>(RustTgCallsError::Closed)
        }),
{
}

/// An RTMP call always reports video, and reports silence whenever it is
/// muted or paused; muting or pausing an open call makes it silent.
pub proof fn lemma_rtmp_silence(s: RtmpCallState)
    ensures
        !rtmp_media_state(s).video_stopped,
        rtmp_media_state(s).paused == (s.muted || s.paused),
        rtmp_media_state(s).presentation_paused == rtmp_media_state(s).paused,
        !s.closed ==> rtmp_media_state(rtmp_pause(s).0).paused,
        !s.closed ==> rtmp_media_state(rtmp_mute(s).0).paused && rtmp_media_state(rtmp_mute(s).0).muted,
{
}

} // verus!
