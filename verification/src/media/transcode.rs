//! Transcoding sources: the ffmpeg argument lists that turn a file or URL
//! into ogg/Opus audio and ivf/VP8 video.

use vstd::prelude::*;
use crate::media::source::{EncodeOptions, Track, spec_with_defaults, track_has, spec_track_audio, spec_track_video, TRACK_AUDIO_BIT, TRACK_VIDEO_BIT};
use crate::media::shell_source::{seconds_text, seconds_string};
use crate::models::errors::RustTgCallsError;
use crate::models::{OPUS_FRAME_DURATION_MS, OPUS_SAMPLE_RATE};
use crate::utils::text::{views, dec, u64_to_dec, push_char, push_str, push_lit, push_string, extend_range, clone_strings, contains_run, seq_contains_run, starts_with, seq_starts_with};

verus! {

/// Message of the seek error of sources without a seekable input.
pub const ERR_NOT_SEEKABLE: &'static str = "media: source is not seekable";

/// A bitrate in kbps as ffmpeg takes it (`128k`).
pub open spec fn kbps_text(n: nat) -> Seq<char> {
    dec(n) + seq!['k']
}

pub(crate) fn kbps_string(n: u64) -> (out: String)
    ensures
        out@ == kbps_text(n as nat),
{
    let mut s = u64_to_dec(n);
    push_char(&mut s, 'k');
    s
}

/// The flags every transcode starts with.
pub open spec fn common_head() -> Seq<Seq<char>> {
    seq![
        "-hide_banner"@, "-loglevel"@, "error"@, "-nostdin"@, "-fflags"@,
        "+discardcorrupt+genpts"@, "-err_detect"@, "ignore_err"@,
    ]
}

fn push_common_head(out: &mut Vec<String>)
    ensures
        views(final(out)@) == views(old(out)@) + common_head(),
{
    let ghost o = views(out@);
    push_lit(out, "-hide_banner");
    push_lit(out, "-loglevel");
    push_lit(out, "error");
    push_lit(out, "-nostdin");
    push_lit(out, "-fflags");
    push_lit(out, "+discardcorrupt+genpts");
    push_lit(out, "-err_detect");
    push_lit(out, "ignore_err");
    assert(views(out@) =~= o + common_head());
}

/// The audio output flags of a transcode.
pub open spec fn audio_tail(o: EncodeOptions) -> Seq<Seq<char>> {
    seq![
        "-map"@, "0:a?"@, "-vn"@, "-sn"@, "-dn"@, "-c:a"@, "libopus"@,
        "-b:a"@, kbps_text(o.audio_bitrate_kbps as nat), "-vbr"@, "on"@,
        "-compression_level"@, "10"@, "-frame_duration"@, dec(20),
        "-page_duration"@, dec(20000), "-application"@, "audio"@,
        "-mapping_family"@, "0"@, "-ar"@, dec(48000), "-ac"@, dec(o.audio_channels as nat),
        "-f"@, "ogg"@, "pipe:1"@,
    ]
}

/// What `audio_ff_args` returns.
pub open spec fn spec_audio_ff_args(input: Seq<Seq<char>>, o: EncodeOptions) -> Seq<Seq<char>> {
    common_head() + input + audio_tail(o)
}

fn push_audio_codec(args: &mut Vec<String>, o: &EncodeOptions)
    ensures
        views(final(args)@) == views(old(args)@) + audio_tail(*o).take(15),
{
    let ghost a0 = views(args@);
    push_lit(args, "-map");
    push_lit(args, "0:a?");
    push_lit(args, "-vn");
    push_lit(args, "-sn");
    push_lit(args, "-dn");
    push_lit(args, "-c:a");
    push_lit(args, "libopus");
    push_lit(args, "-b:a");
    push_string(args, kbps_string(o.audio_bitrate_kbps as u64));
    push_lit(args, "-vbr");
    push_lit(args, "on");
    push_lit(args, "-compression_level");
    push_lit(args, "10");
    push_lit(args, "-frame_duration");
    push_string(args, u64_to_dec(OPUS_FRAME_DURATION_MS as u64));
    assert(views(args@) =~= a0 + audio_tail(*o).take(15));
}

fn push_audio_format(args: &mut Vec<String>, o: &EncodeOptions)
    ensures
        views(final(args)@) == views(old(args)@) + audio_tail(*o).skip(15),
{
    let ghost a0 = views(args@);
    push_lit(args, "-page_duration");
    push_string(args, u64_to_dec((OPUS_FRAME_DURATION_MS * 1000) as u64));
    push_lit(args, "-application");
    push_lit(args, "audio");
    push_lit(args, "-mapping_family");
    push_lit(args, "0");
    push_lit(args, "-ar");
    push_string(args, u64_to_dec(OPUS_SAMPLE_RATE as u64));
    push_lit(args, "-ac");
    push_string(args, u64_to_dec(o.audio_channels as u64));
    push_lit(args, "-f");
    push_lit(args, "ogg");
    push_lit(args, "pipe:1");
    assert(views(args@) =~= a0 + audio_tail(*o).skip(15));
}

/// The ffmpeg arguments that encode the audio of `input` as ogg/Opus on stdout.
pub fn audio_ff_args(input: &[String], o: &EncodeOptions) -> (out: Vec<String>)
    ensures
        views(out@) == spec_audio_ff_args(views(input@), *o),
{
    let mut args: Vec<String> = Vec::new();
    push_common_head(&mut args);
    extend_range(&mut args, input, 0, input.len());
    let ghost head = views(args@);
    push_audio_codec(&mut args, o);
    push_audio_format(&mut args, o);
    proof {
        assert(views(input@).subrange(0, input@.len() as int) =~= views(input@));
        assert(audio_tail(*o).take(15) + audio_tail(*o).skip(15) =~= audio_tail(*o));
        assert(views(args@) =~= head + audio_tail(*o));
    }
    args
}

/// The peak video rate: one and a half times the rate, capped at `u32::MAX`.
pub open spec fn max_rate(kbps: nat) -> nat {
    if kbps * 3 / 2 > 0xffff_ffff { 0xffff_ffff } else { kbps * 3 / 2 }
}

/// `scale=W:H`.
pub open spec fn scale_text(w: nat, h: nat) -> Seq<char> {
    "scale="@ + dec(w) + seq![':'] + dec(h)
}

/// The video output flags of a transcode.
pub open spec fn video_tail(o: EncodeOptions) -> Seq<Seq<char>> {
    seq![
        "-map"@, "0:v?"@, "-an"@, "-sn"@, "-dn"@, "-c:v"@, "libvpx"@,
        "-b:v"@, kbps_text(o.video_bitrate_kbps as nat),
        "-maxrate"@, kbps_text(max_rate(o.video_bitrate_kbps as nat)),
        "-bufsize"@, kbps_text(o.video_bitrate_kbps as nat * 2),
        "-quality"@, "realtime"@, "-deadline"@, "realtime"@, "-cpu-used"@, "16"@,
        "-threads"@, "4"@, "-slices"@, "4"@, "-arnr-maxframes"@, "0"@,
        "-rc_lookahead"@, "0"@, "-lag-in-frames"@, "0"@,
        "-vf"@, scale_text(o.video_width as nat, o.video_height as nat),
        "-r"@, dec(o.video_fps as nat), "-g"@, dec(o.video_fps as nat),
        "-keyint_min"@, dec(o.video_fps as nat), "-auto-alt-ref"@, "0"@,
        "-error-resilient"@, "1"@, "-f"@, "ivf"@, "pipe:1"@,
    ]
}

/// What `video_ff_args` returns.
pub open spec fn spec_video_ff_args(input: Seq<Seq<char>>, o: EncodeOptions) -> Seq<Seq<char>> {
    common_head() + input + video_tail(o)
}

pub(crate) fn scale_string(w: u32, h: u32) -> (out: String)
    ensures
        out@ == scale_text(w as nat, h as nat),
{
    let mut s = String::from_str("scale=");
    let ws = u64_to_dec(w as u64);
    push_str(&mut s, ws.as_str());
    push_char(&mut s, ':');
    let hs = u64_to_dec(h as u64);
    push_str(&mut s, hs.as_str());
    s
}

fn push_video_picture(args: &mut Vec<String>, o: &EncodeOptions)
    ensures
        views(final(args)@) == views(old(args)@) + seq![
            "-vf"@, scale_text(o.video_width as nat, o.video_height as nat),
            "-r"@, dec(o.video_fps as nat), "-g"@, dec(o.video_fps as nat),
            "-keyint_min"@, dec(o.video_fps as nat), "-auto-alt-ref"@, "0"@,
            "-error-resilient"@, "1"@, "-f"@, "ivf"@, "pipe:1"@,
        ],
{
    let ghost a0 = views(args@);
    push_lit(args, "-vf");
    push_string(args, scale_string(o.video_width, o.video_height));
    push_lit(args, "-r");
    push_string(args, u64_to_dec(o.video_fps as u64));
    push_lit(args, "-g");
    push_string(args, u64_to_dec(o.video_fps as u64));
    push_lit(args, "-keyint_min");
    push_string(args, u64_to_dec(o.video_fps as u64));
    push_lit(args, "-auto-alt-ref");
    push_lit(args, "0");
    push_lit(args, "-error-resilient");
    push_lit(args, "1");
    push_lit(args, "-f");
    push_lit(args, "ivf");
    push_lit(args, "pipe:1");
    assert(views(args@) =~= a0 + seq![
        "-vf"@, scale_text(o.video_width as nat, o.video_height as nat),
        "-r"@, dec(o.video_fps as nat), "-g"@, dec(o.video_fps as nat),
        "-keyint_min"@, dec(o.video_fps as nat), "-auto-alt-ref"@, "0"@,
        "-error-resilient"@, "1"@, "-f"@, "ivf"@, "pipe:1"@,
    ]);
}

/// The ffmpeg arguments that encode the video of `input` as ivf/VP8 on stdout.
/// The buffer size is twice the bitrate, which must fit in a `u32`.
pub fn video_ff_args(input: &[String], o: &EncodeOptions) -> (out: Vec<String>)
    requires
        o.video_bitrate_kbps * 2 <= u32::MAX,
    ensures
        views(out@) == spec_video_ff_args(views(input@), *o),
{
    let kbps = o.video_bitrate_kbps as u64;
    let peak: u64 = if kbps * 3 / 2 > 0xffff_ffff { 0xffff_ffff } else { kbps * 3 / 2 };
    let mut args: Vec<String> = Vec::new();
    push_common_head(&mut args);
    extend_range(&mut args, input, 0, input.len());
    let ghost head = views(args@);
    push_lit(&mut args, "-map");
    push_lit(&mut args, "0:v?");
    push_lit(&mut args, "-an");
    push_lit(&mut args, "-sn");
    push_lit(&mut args, "-dn");
    push_lit(&mut args, "-c:v");
    push_lit(&mut args, "libvpx");
    push_lit(&mut args, "-b:v");
    push_string(&mut args, kbps_string(kbps));
    push_lit(&mut args, "-maxrate");
    push_string(&mut args, kbps_string(peak));
    push_lit(&mut args, "-bufsize");
    push_string(&mut args, kbps_string(kbps * 2));
    push_lit(&mut args, "-quality");
    push_lit(&mut args, "realtime");
    push_lit(&mut args, "-deadline");
    push_lit(&mut args, "realtime");
    push_lit(&mut args, "-cpu-used");
    push_lit(&mut args, "16");
    push_lit(&mut args, "-threads");
    push_lit(&mut args, "4");
    push_lit(&mut args, "-slices");
    push_lit(&mut args, "4");
    push_lit(&mut args, "-arnr-maxframes");
    push_lit(&mut args, "0");
    push_lit(&mut args, "-rc_lookahead");
    push_lit(&mut args, "0");
    push_lit(&mut args, "-lag-in-frames");
    push_lit(&mut args, "0");
    let ghost mid = views(args@);
    push_video_picture(&mut args, o);
    proof {
        assert(views(input@).subrange(0, input@.len() as int) =~= views(input@));
        assert(views(args@) =~= head + video_tail(*o));
    }
    args
}

/// The user agent sent to HTTP inputs.
pub open spec fn user_agent() -> Seq<char> {
    "Mozilla/5.0 (X11; Linux x86_64) AppleWebKit/537.36 (KHTML, like Gecko) Chrome/145.0.0.0 Safari/537.36"@
}

/// Input flags for an HLS playlist.
pub open spec fn hls_prefix() -> Seq<Seq<char>> {
    seq![
        "-user_agent"@, user_agent(), "-protocol_whitelist"@, "file,http,https,tcp,tls"@,
        "-rw_timeout"@, "10000000"@, "-http_persistent"@, "1"@,
        "-analyzeduration"@, "0"@, "-probesize"@, "32k"@,
    ]
}

/// Input flags for a plain HTTP(S) input.
pub open spec fn http_prefix() -> Seq<Seq<char>> {
    seq![
        "-user_agent"@, user_agent(), "-reconnect"@, "1"@, "-reconnect_at_eof"@, "1"@,
        "-reconnect_streamed"@, "1"@, "-reconnect_on_network_error"@, "1"@,
        "-reconnect_on_http_error"@, "4xx,5xx"@, "-reconnect_delay_max"@, "5"@,
        "-rw_timeout"@, "15000000"@, "-timeout"@, "15000000"@,
        "-analyzeduration"@, "0"@, "-probesize"@, "128k"@,
    ]
}

/// Input flags for a local file.
pub open spec fn local_prefix() -> Seq<Seq<char>> {
    seq!["-analyzeduration"@, "0"@, "-probesize"@, "64k"@]
}

/// What `ffmpeg_input_prefix` returns: HLS flags when the input mentions
/// `.m3u8`, HTTP flags for `http://` and `https://` inputs, local-file
/// flags otherwise.
pub open spec fn spec_ffmpeg_input_prefix(input: Seq<char>) -> Seq<Seq<char>> {
    if seq_contains_run(input, ".m3u8"@) {
        hls_prefix()
    } else if seq_starts_with(input, "http://"@) || seq_starts_with(input, "https://"@) {
        http_prefix()
    } else {
        local_prefix()
    }
}

/// A URL scheme prefix holds no `.`, so an `.m3u8` in a prefixed input
/// lies in what follows the prefix.
proof fn lemma_no_m3u8_after_scheme(pre: Seq<char>, r: Seq<char>)
    requires
        forall|k: int| 0 <= k < pre.len() ==> #[trigger] pre[k] != '.',
        !seq_contains_run(r, ".m3u8"@),
    ensures
        !seq_contains_run(pre + r, ".m3u8"@),
{
    reveal_strlit(".m3u8");
    let m = ".m3u8"@;
    let s = pre + r;
    if seq_contains_run(s, m) {
        let k = choose|k: int| 0 <= k && k + m.len() <= s.len() && #[trigger] s.subrange(k, k + m.len()) == m;
        assert(s.subrange(k, k + m.len())[0] == m[0]);
        assert(s[k] == '.');
        if k < pre.len() {
            assert(s[k] == pre[k]);
        } else {
            let j = k - pre.len();
            assert(r.subrange(j, j + m.len()) =~= s.subrange(k, k + m.len()));
            assert(seq_contains_run(r, m));
        }
    }
}

/// An `https://` input gets the same input flags as the `http://` form
/// of the same URL, unless it names an `.m3u8` playlist: the HTTP set of
/// 22 arguments (a browser user agent, reconnects and timeouts), not the
/// local-file flags.
pub proof fn lemma_https_like_http(r: Seq<char>)
    requires
        !seq_contains_run(r, ".m3u8"@),
    ensures
        spec_ffmpeg_input_prefix("https://"@ + r) == spec_ffmpeg_input_prefix("http://"@ + r),
        spec_ffmpeg_input_prefix("http://"@ + r).len() == 22,
        spec_ffmpeg_input_prefix("http://"@ + r)[0] == "-user_agent"@,
        spec_ffmpeg_input_prefix("http://"@ + r)[2] == "-reconnect"@,
{
    reveal_strlit("http://");
    reveal_strlit("https://");
    let a = "http://"@;
    let b = "https://"@;
    lemma_no_m3u8_after_scheme(a, r);
    lemma_no_m3u8_after_scheme(b, r);
    assert((a + r).take(a.len() as int) =~= a);
    assert((b + r).take(b.len() as int) =~= b);
    assert(seq_starts_with(a + r, a));
    assert(seq_starts_with(b + r, b));
}

/// The input-side ffmpeg flags for an input path or URL.
pub fn ffmpeg_input_prefix(input: &str) -> (out: Vec<String>)
    ensures
        views(out@) == spec_ffmpeg_input_prefix(input@),
{
    let is_m3u8 = contains_run(input, ".m3u8");
    let is_http = starts_with(input, "http://") || starts_with(input, "https://");
    let mut v: Vec<String> = Vec::new();
    if is_m3u8 {
        push_lit(&mut v, "-user_agent");
        push_lit(&mut v, "Mozilla/5.0 (X11; Linux x86_64) AppleWebKit/537.36 (KHTML, like Gecko) Chrome/145.0.0.0 Safari/537.36");
        push_lit(&mut v, "-protocol_whitelist");
        push_lit(&mut v, "file,http,https,tcp,tls");
        push_lit(&mut v, "-rw_timeout");
        push_lit(&mut v, "10000000");
        push_lit(&mut v, "-http_persistent");
        push_lit(&mut v, "1");
        push_lit(&mut v, "-analyzeduration");
        push_lit(&mut v, "0");
        push_lit(&mut v, "-probesize");
        push_lit(&mut v, "32k");
        assert(views(v@) =~= hls_prefix());
    } else if is_http {
        push_lit(&mut v, "-user_agent");
        push_lit(&mut v, "Mozilla/5.0 (X11; Linux x86_64) AppleWebKit/537.36 (KHTML, like Gecko) Chrome/145.0.0.0 Safari/537.36");
        push_lit(&mut v, "-reconnect");
        push_lit(&mut v, "1");
        push_lit(&mut v, "-reconnect_at_eof");
        push_lit(&mut v, "1");
        push_lit(&mut v, "-reconnect_streamed");
        push_lit(&mut v, "1");
        push_lit(&mut v, "-reconnect_on_network_error");
        push_lit(&mut v, "1");
        push_lit(&mut v, "-reconnect_on_http_error");
        push_lit(&mut v, "4xx,5xx");
        push_lit(&mut v, "-reconnect_delay_max");
        push_lit(&mut v, "5");
        push_lit(&mut v, "-rw_timeout");
        push_lit(&mut v, "15000000");
        push_lit(&mut v, "-timeout");
        push_lit(&mut v, "15000000");
        push_lit(&mut v, "-analyzeduration");
        push_lit(&mut v, "0");
        push_lit(&mut v, "-probesize");
        push_lit(&mut v, "128k");
        assert(views(v@) =~= http_prefix());
    } else {
        push_lit(&mut v, "-analyzeduration");
        push_lit(&mut v, "0");
        push_lit(&mut v, "-probesize");
        push_lit(&mut v, "64k");
        assert(views(v@) =~= local_prefix());
    }
    v
}

/// The input arguments of a transcode: the input flags, `-i <path>`, and
/// `-ss <seconds>` when the offset is at least a millisecond.
pub open spec fn spec_transcode_input_args(path: Seq<char>, offset_ms: nat) -> Seq<Seq<char>> {
    spec_ffmpeg_input_prefix(path) + seq!["-i"@, path]
        + (if offset_ms > 0 { seq!["-ss"@, seconds_text(offset_ms)] } else { seq![] })
}

/// The input arguments for `path` starting `offset_ms` milliseconds in.
pub fn transcode_input_args(path: &str, offset_ms: u64) -> (out: Vec<String>)
    ensures
        views(out@) == spec_transcode_input_args(path@, offset_ms as nat),
{
    let mut args = ffmpeg_input_prefix(path);
    let ghost p = views(args@);
    push_lit(&mut args, "-i");
    push_lit(&mut args, path);
    let ghost q = views(args@);
    if offset_ms > 0 {
        push_lit(&mut args, "-ss");
        push_string(&mut args, seconds_string(offset_ms));
    }
    assert(views(args@) =~= spec_transcode_input_args(path@, offset_ms as nat));
    args
}

/// SourcePath is implemented by sources backed by a plain file path or URL.
pub trait SourcePath {
    fn input_path(&self) -> &str;

    fn input_args(&self) -> &[String];

    fn encode_opts(&self) -> EncodeOptions;
}

/// TranscodeSource runs one or two ffmpeg processes that turn a file or URL
/// into ogg/Opus and ivf/VP8 streams.
pub struct TranscodeSource {
    pub path: String,
    pub input_args: Vec<String>,
    pub opt: EncodeOptions,
}

impl SourcePath for TranscodeSource {
    fn input_path(&self) -> (out: &str)
        ensures
            out@ == self.path@,
    {
        self.path.as_str()
    }

    fn input_args(&self) -> (out: &[String])
        ensures
            out@ == self.input_args@,
    {
        self.input_args.as_slice()
    }

    fn encode_opts(&self) -> (out: EncodeOptions)
        ensures
            out == spec_with_defaults(self.opt),
    {
        self.opt.with_defaults()
    }
}

impl TranscodeSource {
    /// A source reading `path` from `offset_ms` milliseconds on.
    pub fn for_input(path: &str, offset_ms: u64, opt: EncodeOptions) -> (out: TranscodeSource)
        ensures
            out.path@ == path@,
            views(out.input_args@) == spec_transcode_input_args(path@, offset_ms as nat),
            out.opt == opt,
    {
        TranscodeSource { path: String::from_str(path), input_args: transcode_input_args(path, offset_ms), opt }
    }

    /// The tracks this source produces (after defaults).
    pub fn tracks(&self) -> (out: Track)
        ensures
            out == spec_with_defaults(self.opt).tracks,
    {
        self.opt.with_defaults().tracks
    }

    /// The input arguments to restart at `offset_ms`; a source without a
    /// path cannot seek.
    pub fn seek_input_args(&self, offset_ms: u64) -> (out: Result<Vec<String>, RustTgCallsError>)
        ensures
            self.path@.len() == 0 ==> out == Err::<Vec<String>, RustTgCallsError>(RustTgCallsError::SeekUnsupported),
            self.path@.len() > 0 ==> (out matches Ok(v) && views(v@) == spec_transcode_input_args(self.path@, offset_ms as nat)),
    {
        if self.path.as_str().is_empty() {
            return Err(RustTgCallsError::SeekUnsupported);
        }
        Ok(transcode_input_args(self.path.as_str(), offset_ms))
    }

    /// The ffmpeg argument lists to run for `input`: one for audio when the
    /// (defaulted) tracks have audio, one for video when they have video.
    pub fn ffmpeg_jobs(&self, input: &[String]) -> (out: (Option<Vec<String>>, Option<Vec<String>>))
        requires
            track_has(spec_with_defaults(self.opt).tracks, spec_track_video())
                ==> spec_with_defaults(self.opt).video_bitrate_kbps * 2 <= u32::MAX,
        ensures
            track_has(spec_with_defaults(self.opt).tracks, spec_track_audio()) ==> (out.0 matches Some(v)
                && views(v@) == spec_audio_ff_args(views(input@), spec_with_defaults(self.opt))),
            !track_has(spec_with_defaults(self.opt).tracks, spec_track_audio()) ==> out.0 is None,
            track_has(spec_with_defaults(self.opt).tracks, spec_track_video()) ==> (out.1 matches Some(v)
                && views(v@) == spec_video_ff_args(views(input@), spec_with_defaults(self.opt))),
            !track_has(spec_with_defaults(self.opt).tracks, spec_track_video()) ==> out.1 is None,
    {
        let o = self.opt.with_defaults();
        let audio = if (o.tracks.0 & TRACK_AUDIO_BIT) != 0 { Some(audio_ff_args(input, &o)) } else { None };
        let video = if (o.tracks.0 & TRACK_VIDEO_BIT) != 0 { Some(video_ff_args(input, &o)) } else { None };
        (audio, video)
    }
}

} // verus!
