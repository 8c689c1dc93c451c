//! Track masks, encode options, the ffmpeg settings and the in-memory
//! pre-encoded source.

use vstd::prelude::*;
use crate::models::DEFAULT_CHANNEL_COUNT;

verus! {

// ---------------------------------------------------------------------------
// ffmpeg settings
// ---------------------------------------------------------------------------

/// Process-wide transcoding settings: the ffmpeg binary and whether its
/// stderr is teed to the log.
#[derive(Debug, Clone)]
pub struct MediaSettings {
    pub ffmpeg_path: String,
    pub stderr_log: bool,
}

impl MediaSettings {
    /// The settings a process starts with: binary `ffmpeg`, no stderr tee.
    pub fn new() -> (out: MediaSettings)
        ensures
            out.ffmpeg_path@ == "ffmpeg"@,
            !out.stderr_log,
    {
        MediaSettings { ffmpeg_path: String::from_str("ffmpeg"), stderr_log: false }
    }
}

/// Overrides the binary used for transcoding. Empty resets to `ffmpeg`.
pub fn set_ffmpeg_path(settings: &mut MediaSettings, path: &str)
    ensures
        final(settings).ffmpeg_path@ == (if path@.len() == 0 { "ffmpeg"@ } else { path@ }),
        final(settings).stderr_log == old(settings).stderr_log,
{
    if path.is_empty() {
        settings.ffmpeg_path = String::from_str("ffmpeg");
    } else {
        settings.ffmpeg_path = String::from_str(path);
    }
}

/// The configured ffmpeg binary.
pub fn get_ffmpeg_path(settings: &MediaSettings) -> (out: String)
    ensures
        out@ == settings.ffmpeg_path@,
{
    settings.ffmpeg_path.clone()
}

/// Toggles the live tee of ffmpeg stderr to the log.
pub fn set_stderr_log(settings: &mut MediaSettings, on: bool)
    ensures
        final(settings).stderr_log == on,
        final(settings).ffmpeg_path == old(settings).ffmpeg_path,
{
    settings.stderr_log = on;
}

/// Whether ffmpeg stderr is teed to the log.
pub fn is_stderr_log_enabled(settings: &MediaSettings) -> (out: bool)
    ensures
        out == settings.stderr_log,
{
    settings.stderr_log
}

// ---------------------------------------------------------------------------
// Track
// ---------------------------------------------------------------------------

/// Track is a bitmask selecting which tracks a Source provides.
#[derive(Debug, Clone, Copy, PartialEq, Eq, Structural)]
pub struct Track(pub u8);

/// The bit of the audio track.
pub const TRACK_AUDIO_BIT: u8 = 1;

/// The bit of the video track.
pub const TRACK_VIDEO_BIT: u8 = 2;

/// The audio track mask.
pub open spec fn spec_track_audio() -> Track {
    Track(1)
}

/// The video track mask.
pub open spec fn spec_track_video() -> Track {
    Track(2)
}

/// Whether two masks share a bit.
pub open spec fn track_has(t: Track, other: Track) -> bool {
    (t.0 & other.0) != 0
}

impl Track {
    /// The audio track mask.
    pub fn audio() -> (out: Track)
        ensures
            out == spec_track_audio(),
    {
        Track(TRACK_AUDIO_BIT)
    }

    /// The video track mask.
    pub fn video() -> (out: Track)
        ensures
            out == spec_track_video(),
    {
        Track(TRACK_VIDEO_BIT)
    }

    /// Whether this mask shares a bit with `other`.
    pub fn has(&self, other: Track) -> (out: bool)
        ensures
            out == track_has(*self, other),
    {
        (self.0 & other.0) != 0
    }

    /// The union of two masks.
    pub fn union(self, rhs: Track) -> (out: Track)
        ensures
            out.0 == self.0 | rhs.0,
    {
        Track(self.0 | rhs.0)
    }
}

impl std::ops::BitOr for Track {
    type Output = Track;

    fn bitor(self, rhs: Track) -> (out: Track) {
        Track(self.0 | rhs.0)
    }
}

impl vstd::std_specs::ops::BitOrSpecImpl for Track {
    open spec fn obeys_bitor_spec() -> bool {
        true
    }

    open spec fn bitor_req(self, rhs: Track) -> bool {
        true
    }

    open spec fn bitor_spec(self, rhs: Track) -> Track {
        Track(self.0 | rhs.0)
    }
}

/// Both tracks.
pub open spec fn spec_track_both() -> Track {
    Track(3)
}

fn track_both() -> (out: Track)
    ensures
        out == spec_track_both(),
{
    assert((TRACK_AUDIO_BIT | TRACK_VIDEO_BIT) == 3u8) by (bit_vector);
    Track(TRACK_AUDIO_BIT | TRACK_VIDEO_BIT)
}

/// A union of masks has a bit exactly when one of its parts has it.
pub proof fn lemma_track_union_has(a: Track, b: Track, x: Track)
    ensures
        track_has(Track(a.0 | b.0), x) == (track_has(a, x) || track_has(b, x)),
{
    let (p, q, r) = (a.0, b.0, x.0);
    assert(((p | q) & r != 0) == ((p & r != 0) || (q & r != 0))) by (bit_vector);
}

// ---------------------------------------------------------------------------
// EncodeOptions
// ---------------------------------------------------------------------------

/// EncodeOptions tunes the ffmpeg encode of transcoding sources. Zero
/// values become the defaults (see `with_defaults`).
#[derive(Debug, Clone, Copy, PartialEq, Eq, Structural)]
pub struct EncodeOptions {
    pub video_bitrate_kbps: u32,
    pub video_width: u32,
    pub video_height: u32,
    pub video_fps: u32,
    pub audio_bitrate_kbps: u32,
    pub audio_channels: u16,
    pub tracks: Track,
}

/// The default options: 720p at 30 FPS, 800 kbps video, 128 kbps stereo
/// audio, audio track only.
pub open spec fn default_encode_options() -> EncodeOptions {
    EncodeOptions {
        video_bitrate_kbps: 800,
        video_width: 1280,
        video_height: 720,
        video_fps: 30,
        audio_bitrate_kbps: 128,
        audio_channels: 2,
        tracks: Track(1),
    }
}

/// A video preset: the defaults with the given picture settings and both tracks.
pub open spec fn video_preset(width: u32, height: u32, fps: u32, kbps: u32) -> EncodeOptions {
    EncodeOptions {
        video_bitrate_kbps: kbps,
        video_width: width,
        video_height: height,
        video_fps: fps,
        audio_bitrate_kbps: 128,
        audio_channels: 2,
        tracks: Track(3),
    }
}

/// What `with_defaults` makes of a set of options.
pub open spec fn spec_with_defaults(o: EncodeOptions) -> EncodeOptions {
    let tracks0: u8 = if o.tracks.0 == 0 { 1 } else { o.tracks.0 };
    let tracks: u8 = if tracks0 & 2 != 0 { tracks0 | 1 } else { tracks0 };
    EncodeOptions {
        video_bitrate_kbps: if o.video_bitrate_kbps == 0 { 800 } else { o.video_bitrate_kbps },
        video_width: if o.video_width == 0 { 1280 } else { o.video_width },
        video_height: if o.video_height == 0 { 720 } else { o.video_height },
        video_fps: if o.video_fps == 0 { 30 } else { o.video_fps },
        audio_bitrate_kbps: if o.audio_bitrate_kbps == 0 { 128 } else { o.audio_bitrate_kbps },
        audio_channels: if o.audio_channels == 0 { 2 } else { o.audio_channels },
        tracks: Track(tracks),
    }
}

impl Default for EncodeOptions {
    fn default() -> (out: EncodeOptions)
        ensures
            out == default_encode_options(),
    {
        EncodeOptions {
            video_bitrate_kbps: 800,
            video_width: 1280,
            video_height: 720,
            video_fps: 30,
            audio_bitrate_kbps: 128,
            audio_channels: DEFAULT_CHANNEL_COUNT,
            tracks: Track(TRACK_AUDIO_BIT),
        }
    }
}

impl EncodeOptions {
    /// The default options (also what `Default` gives).
    pub fn defaults() -> (out: EncodeOptions)
        ensures
            out == default_encode_options(),
    {
        EncodeOptions {
            video_bitrate_kbps: 800,
            video_width: 1280,
            video_height: 720,
            video_fps: 30,
            audio_bitrate_kbps: 128,
            audio_channels: DEFAULT_CHANNEL_COUNT,
            tracks: Track(TRACK_AUDIO_BIT),
        }
    }

    /// Preset for high-fidelity audio only.
    pub fn audio_only() -> (out: EncodeOptions)
        ensures
            out == default_encode_options(),
    {
        EncodeOptions { tracks: Track(TRACK_AUDIO_BIT), ..Self::defaults() }
    }

    /// Default video preset: 480p at 60 FPS, 1200 kbps.
    pub fn video_default() -> (out: EncodeOptions)
        ensures
            out == video_preset(854, 480, 60, 1200),
    {
        EncodeOptions {
            video_width: 854,
            video_height: 480,
            video_fps: 60,
            video_bitrate_kbps: 1200,
            tracks: track_both(),
            ..Self::defaults()
        }
    }

    /// Alias of `video_default` (smooth 60 FPS video).
    pub fn video_60fps() -> (out: EncodeOptions)
        ensures
            out == video_preset(854, 480, 60, 1200),
    {
        Self::video_default()
    }

    /// Fast low-latency preset: 360p at 30 FPS, 800 kbps.
    pub fn video_fast() -> (out: EncodeOptions)
        ensures
            out == video_preset(640, 360, 30, 800),
    {
        EncodeOptions {
            video_width: 640,
            video_height: 360,
            video_fps: 30,
            video_bitrate_kbps: 800,
            tracks: track_both(),
            ..Self::defaults()
        }
    }

    /// Preset for 720p at 30 FPS, 1500 kbps.
    pub fn video_720p_30fps() -> (out: EncodeOptions)
        ensures
            out == video_preset(1280, 720, 30, 1500),
    {
        EncodeOptions {
            video_width: 1280,
            video_height: 720,
            video_fps: 30,
            video_bitrate_kbps: 1500,
            tracks: track_both(),
            ..Self::defaults()
        }
    }

    /// Preset for 720p at 60 FPS, 2500 kbps.
    pub fn video_720p_60fps() -> (out: EncodeOptions)
        ensures
            out == video_preset(1280, 720, 60, 2500),
    {
        EncodeOptions {
            video_width: 1280,
            video_height: 720,
            video_fps: 60,
            video_bitrate_kbps: 2500,
            tracks: track_both(),
            ..Self::defaults()
        }
    }

    /// Preset for 1080p at 60 FPS, 4000 kbps.
    pub fn video_1080p_60fps() -> (out: EncodeOptions)
        ensures
            out == video_preset(1920, 1080, 60, 4000),
    {
        EncodeOptions {
            video_width: 1920,
            video_height: 1080,
            video_fps: 60,
            video_bitrate_kbps: 4000,
            tracks: track_both(),
            ..Self::defaults()
        }
    }

    /// Replaces every zero field by its default; a video track always
    /// brings the audio track with it.
    pub fn with_defaults(self) -> (out: EncodeOptions)
        ensures
            out == spec_with_defaults(self),
    {
        let mut o = self;
        if o.video_bitrate_kbps == 0 {
            o.video_bitrate_kbps = 800;
        }
        if o.video_width == 0 {
            o.video_width = 1280;
        }
        if o.video_height == 0 {
            o.video_height = 720;
        }
        if o.video_fps == 0 {
            o.video_fps = 30;
        }
        if o.audio_bitrate_kbps == 0 {
            o.audio_bitrate_kbps = 128;
        }
        if o.audio_channels == 0 {
            o.audio_channels = DEFAULT_CHANNEL_COUNT;
        }
        if o.tracks.0 == 0 {
            o.tracks = Track(TRACK_AUDIO_BIT);
        }
        if o.tracks.has(Track(TRACK_VIDEO_BIT)) {
            o.tracks = Track(o.tracks.0 | TRACK_AUDIO_BIT);
        }
        o
    }
}

/// Defaults are applied once and for all: every field of the result is
/// non-zero, a video track comes with the audio track, and applying the
/// defaults again changes nothing.
pub proof fn lemma_with_defaults_settles(o: EncodeOptions)
    ensures
        spec_with_defaults(o).video_bitrate_kbps != 0,
        spec_with_defaults(o).video_width != 0,
        spec_with_defaults(o).video_height != 0,
        spec_with_defaults(o).video_fps != 0,
        spec_with_defaults(o).audio_bitrate_kbps != 0,
        spec_with_defaults(o).audio_channels != 0,
        spec_with_defaults(o).tracks.0 != 0,
        track_has(spec_with_defaults(o).tracks, spec_track_video()) ==> track_has(
            spec_with_defaults(o).tracks,
            spec_track_audio(),
        ),
        spec_with_defaults(spec_with_defaults(o)) == spec_with_defaults(o),
{
    let t = o.tracks.0;
    assert(forall|x: u8| x != 0 ==> (x & 2 != 0 ==> (x | 1) != 0)) by (bit_vector);
    assert(forall|x: u8| x & 2 != 0 ==> ((x | 1) & 2 != 0 && (x | 1) & 1 != 0 && ((x | 1) | 1) == (x | 1))) by (bit_vector);
}

/// Every preset is already complete: applying the defaults to it changes nothing.
pub proof fn lemma_presets_complete()
    ensures
        spec_with_defaults(default_encode_options()) == default_encode_options(),
        spec_with_defaults(video_preset(854, 480, 60, 1200)) == video_preset(854, 480, 60, 1200),
        spec_with_defaults(video_preset(640, 360, 30, 800)) == video_preset(640, 360, 30, 800),
        spec_with_defaults(video_preset(1280, 720, 30, 1500)) == video_preset(1280, 720, 30, 1500),
        spec_with_defaults(video_preset(1280, 720, 60, 2500)) == video_preset(1280, 720, 60, 2500),
        spec_with_defaults(video_preset(1920, 1080, 60, 4000)) == video_preset(1920, 1080, 60, 4000),
{
    assert((1u8 & 2u8) == 0u8) by (bit_vector);
    assert((3u8 & 2u8) != 0u8 && (3u8 | 1u8) == 3u8) by (bit_vector);
}

// ---------------------------------------------------------------------------
// RawBytesSource
// ---------------------------------------------------------------------------

#[verifier::external_type_specification]
#[verifier::external_body]
pub struct ExBytes(bytes::Bytes);

/// The mask of the tracks that are present.
pub open spec fn present_tracks(audio: bool, video: bool) -> u8 {
    if audio && video { 3 } else if audio { 1 } else if video { 2 } else { 0 }
}

/// RawBytesSource streams pre-encoded Opus (ogg) or VP8 (ivf) bytes held in memory.
#[derive(Clone)]
pub struct RawBytesSource {
    audio_data: Option<bytes::Bytes>,
    video_data: Option<bytes::Bytes>,
    tracks: Track,
}

impl RawBytesSource {
    /// Audio-only in-memory source.
    pub fn new_audio(data: bytes::Bytes) -> (out: RawBytesSource)
        ensures
            out.audio_data() == Some(data),
            out.video_data() is None,
            out.spec_tracks() == spec_track_audio(),
    {
        RawBytesSource { audio_data: Some(data), video_data: None, tracks: Track(TRACK_AUDIO_BIT) }
    }

    /// In-memory source with the given tracks; the mask holds the tracks present.
    pub fn new_media(audio: Option<bytes::Bytes>, video: Option<bytes::Bytes>) -> (out: RawBytesSource)
        ensures
            out.audio_data() == audio,
            out.video_data() == video,
            out.spec_tracks().0 == present_tracks(audio is Some, video is Some),
    {
        let mut t: u8 = 0;
        if audio.is_some() {
            t = t | TRACK_AUDIO_BIT;
        }
        if video.is_some() {
            t = t | TRACK_VIDEO_BIT;
        }
        assert((0u8 | 1u8) == 1u8 && (1u8 | 2u8) == 3u8 && (0u8 | 2u8) == 2u8) by (bit_vector);
        RawBytesSource { audio_data: audio, video_data: video, tracks: Track(t) }
    }

    pub closed spec fn audio_data(&self) -> Option<bytes::Bytes> {
        self.audio_data
    }

    pub closed spec fn video_data(&self) -> Option<bytes::Bytes> {
        self.video_data
    }

    pub closed spec fn spec_tracks(&self) -> Track {
        self.tracks
    }

    /// The tracks this source provides.
    pub fn tracks(&self) -> (out: Track)
        ensures
            out == self.spec_tracks(),
    {
        self.tracks
    }

    /// The encoded audio bytes, if any.
    pub fn audio(&self) -> (out: &Option<bytes::Bytes>)
        ensures
            *out == self.audio_data(),
    {
        &self.audio_data
    }

    /// The encoded video bytes, if any.
    pub fn video(&self) -> (out: &Option<bytes::Bytes>)
        ensures
            *out == self.video_data(),
    {
        &self.video_data
    }
}

/// A source that streams in-memory Opus bytes.
pub fn from_raw_audio(data: bytes::Bytes) -> (out: RawBytesSource)
    ensures
        out.audio_data() == Some(data),
        out.video_data() is None,
        out.spec_tracks() == spec_track_audio(),
{
    RawBytesSource::new_audio(data)
}

} // verus!
