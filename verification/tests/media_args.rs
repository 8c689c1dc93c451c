use rusttgcalls::instances::rtmp_call::build_rtmp_args;
use rusttgcalls::media::shell_source::{
    ensure_ffmpeg_flags, inject_seek, seconds_string, tokenize_shell, validate_output_codec, MultiShellSource,
    ShellSource,
};
use rusttgcalls::media::source::{
    get_ffmpeg_path, is_stderr_log_enabled, set_ffmpeg_path, set_stderr_log, EncodeOptions, MediaSettings, Track,
};
use rusttgcalls::media::streamer::{EndReport, LoopEnd};
use rusttgcalls::media::transcode::{audio_ff_args, ffmpeg_input_prefix, video_ff_args, TranscodeSource};
use rusttgcalls::models::errors::RustTgCallsError;
use rusttgcalls::models::media_description::StreamType;

fn strs(v: &[&str]) -> Vec<String> {
    v.iter().map(|s| s.to_string()).collect()
}

#[test]
fn ensure_flags_audio_injects_probe_and_opus_output() {
    let out = ensure_ffmpeg_flags(&strs(&["-i", "in.mp3"]), Track::audio());
    assert_eq!(
        out,
        strs(&[
            "-analyzeduration", "0", "-probesize", "64k", "-err_detect", "ignore_err", "-i", "in.mp3", "-c:a",
            "libopus", "-application", "audio", "-frame_duration", "20", "-page_duration", "20000",
            "-mapping_family", "0", "-ar", "48000", "-ac", "2", "-f", "ogg", "pipe:1",
        ])
    );
}

#[test]
fn ensure_flags_video_keeps_user_codec_and_moves_pipe_last() {
    let out = ensure_ffmpeg_flags(&strs(&["-re", "-i", "x", "-c:v", "libvpx", "pipe:1"]), Track::video());
    assert_eq!(
        out,
        strs(&[
            "-re", "-analyzeduration", "0", "-probesize", "64k", "-err_detect", "ignore_err", "-i", "x", "-c:v",
            "libvpx", "-f", "ivf", "pipe:1",
        ])
    );
}

#[test]
fn ensure_flags_without_input_keeps_args_and_ends_in_single_pipe() {
    let out = ensure_ffmpeg_flags(&strs(&["-f", "lavfi", "pipe:1", "pipe:1"]), Track::audio());
    assert_eq!(out.iter().filter(|a| a.as_str() == "pipe:1").count(), 1);
    assert_eq!(out.last().unwrap(), "pipe:1");
    assert_eq!(&out[0..2], &strs(&["-f", "lavfi"])[..]);
    assert!(!out.contains(&"-analyzeduration".to_string()));
    assert!(!out.contains(&"ogg".to_string()));
}

#[test]
fn validate_rejects_pcm_codec() {
    let r = validate_output_codec(&strs(&["-i", "x", "-c:a", "pcm_s16le"]), Track::audio());
    assert_eq!(
        r,
        Err(RustTgCallsError::InvalidParams(
            "raw PCM codec pcm_s16le not supported; expected libopus in OGG".to_string()
        ))
    );
}

#[test]
fn validate_rejects_pcm_container() {
    let r = validate_output_codec(&strs(&["-i", "x", "-f", "s16le"]), Track::audio());
    assert_eq!(
        r,
        Err(RustTgCallsError::InvalidParams("raw PCM container s16le not supported; expected -f ogg".to_string()))
    );
}

#[test]
fn validate_ignores_video_only_and_opus() {
    assert_eq!(validate_output_codec(&strs(&["-f", "s16le"]), Track::video()), Ok(()));
    assert_eq!(validate_output_codec(&strs(&["-c:a", "libopus", "-f", "ogg"]), Track::audio()), Ok(()));
    assert_eq!(validate_output_codec(&strs(&["-c:a"]), Track::audio()), Ok(()));
}

#[test]
fn inject_seek_replaces_existing_seek_before_input() {
    let out = inject_seek(&strs(&["-ss", "5", "-i", "a.mp4", "-c:a", "aac"]), 1500);
    assert_eq!(out, strs(&["-ss", "1.500", "-i", "a.mp4", "-c:a", "aac"]));
}

#[test]
fn inject_seek_prepends_without_input() {
    assert_eq!(inject_seek(&strs(&["x"]), 250), strs(&["-ss", "0.250", "x"]));
}

#[test]
fn inject_seek_twice_keeps_the_latest_offset() {
    let once = inject_seek(&strs(&["-re", "-i", "in.mp4"]), 1000);
    let twice = inject_seek(&once, 2000);
    assert_eq!(twice, strs(&["-re", "-ss", "2.000", "-i", "in.mp4"]));
}

#[test]
fn seconds_string_renders_three_decimals() {
    assert_eq!(seconds_string(1500), "1.500");
    assert_eq!(seconds_string(0), "0.000");
    assert_eq!(seconds_string(12345), "12.345");
    assert_eq!(seconds_string(7), "0.007");
}

#[test]
fn tokenize_splits_on_whitespace_and_keeps_quoted_runs() {
    assert_eq!(
        tokenize_shell("ffmpeg -i \"my file.mp3\"\t-f  ogg\n"),
        strs(&["ffmpeg", "-i", "my file.mp3", "-f", "ogg"])
    );
}

#[test]
fn tokenize_handles_escapes() {
    assert_eq!(tokenize_shell("a \\\"b\\\" c\\\\d"), strs(&["a", "\"b\"", "c\\d"]));
    assert!(tokenize_shell("   ").is_empty());
    assert!(tokenize_shell("").is_empty());
    assert_eq!(tokenize_shell("é"), strs(&["é"]));
    let words = strs(&["ffmpeg", "-re", "-i", "été.mp3", "-f", "s16le", "pipe:1"]);
    assert_eq!(tokenize_shell(&words.join(" ")), words);
    assert_eq!(tokenize_shell("ffmpeg -i \"chanson d'été.mp3\" -metadata title=café"),
        strs(&["ffmpeg", "-i", "chanson d'été.mp3", "-metadata", "title=café"]));
}

#[test]
fn shell_source_from_cmdline_completes_flags() {
    let src = ShellSource::from_cmdline("ffmpeg -i in.mp3", Track::audio()).unwrap();
    assert_eq!(src.binary, "ffmpeg");
    assert_eq!(src.args, ensure_ffmpeg_flags(&strs(&["-i", "in.mp3"]), Track::audio()));
    assert_eq!(src.tracks(), Track::audio());
    assert_eq!(src.output_kind(), Some(StreamType::Audio));
    assert_eq!(src.args_at(0), src.args);
    assert_eq!(src.args_at(3000), inject_seek(&src.args, 3000));
}

#[test]
fn shell_source_errors() {
    assert_eq!(
        ShellSource::from_cmdline("  ", Track::audio()).err(),
        Some(RustTgCallsError::FFmpegSpawn("empty command".to_string()))
    );
    assert_eq!(
        ShellSource::from_cmdline("ffmpeg -i x -acodec pcm_u8", Track::audio()).err(),
        Some(RustTgCallsError::InvalidParams("raw PCM codec pcm_u8 not supported; expected libopus in OGG".to_string()))
    );
}

#[test]
fn shell_source_empty_mask_means_audio_and_empty_binary_means_ffmpeg() {
    let src = ShellSource { binary: String::new(), args: vec![], track: Track(0) };
    assert_eq!(src.tracks(), Track::audio());
    assert_eq!(src.program(), "ffmpeg");
}

#[test]
fn multi_shell_source_has_both_tracks() {
    let m = MultiShellSource::from_cmdlines("ffmpeg -i a.mp3", "ffmpeg -i v.mp4").unwrap();
    assert_eq!(m.tracks(), Track(3));
    assert_eq!(m.audio_program(), "ffmpeg");
    assert!(!m.parallel);
    let m = m.with_parallel_spawn();
    assert!(m.parallel);
    let (a, v) = m.args_at(0);
    assert_eq!(a, ensure_ffmpeg_flags(&strs(&["-i", "a.mp3"]), Track::audio()));
    assert_eq!(v, ensure_ffmpeg_flags(&strs(&["-i", "v.mp4"]), Track::video()));
}

#[test]
fn input_prefix_by_kind_of_input() {
    assert_eq!(ffmpeg_input_prefix("song.mp3"), strs(&["-analyzeduration", "0", "-probesize", "64k"]));
    let hls = ffmpeg_input_prefix("https://x/live.m3u8");
    assert_eq!(hls[2], "-protocol_whitelist");
    assert_eq!(hls.last().unwrap(), "32k");
    let http = ffmpeg_input_prefix("http://x/a.mp3");
    assert_eq!(http[2], "-reconnect");
    assert_eq!(http.len(), 22);
    assert_eq!(http.last().unwrap(), "128k");
}

#[test]
fn audio_args_exact() {
    let o = EncodeOptions::default();
    let out = audio_ff_args(&strs(&["-i", "a.mp3"]), &o);
    assert_eq!(
        out,
        strs(&[
            "-hide_banner", "-loglevel", "error", "-nostdin", "-fflags", "+discardcorrupt+genpts", "-err_detect",
            "ignore_err", "-i", "a.mp3", "-map", "0:a?", "-vn", "-sn", "-dn", "-c:a", "libopus", "-b:a", "128k",
            "-vbr", "on", "-compression_level", "10", "-frame_duration", "20", "-page_duration", "20000",
            "-application", "audio", "-mapping_family", "0", "-ar", "48000", "-ac", "2", "-f", "ogg", "pipe:1",
        ])
    );
}

#[test]
fn video_args_rates_and_picture() {
    let o = EncodeOptions::video_fast();
    let out = video_ff_args(&strs(&["-i", "v.mp4"]), &o);
    let pos = |flag: &str| out.iter().position(|a| a == flag).unwrap();
    assert_eq!(out[pos("-b:v") + 1], "800k");
    assert_eq!(out[pos("-maxrate") + 1], "1200k");
    assert_eq!(out[pos("-bufsize") + 1], "1600k");
    assert_eq!(out[pos("-vf") + 1], "scale=640:360");
    assert_eq!(out[pos("-r") + 1], "30");
    assert_eq!(out.last().unwrap(), "pipe:1");
}

#[test]
fn rtmp_args_exact_with_seek() {
    let o = EncodeOptions::default();
    let out = build_rtmp_args("input.mp4", 2500, &o, "rtmp://t/x");
    assert_eq!(
        out,
        strs(&[
            "-hide_banner", "-loglevel", "error", "-nostdin", "-re", "-ss", "2.500", "-i", "input.mp4", "-c:v",
            "libx264", "-preset", "veryfast", "-tune", "zerolatency", "-b:v", "800k", "-r", "30", "-vf",
            "scale=1280:720", "-pix_fmt", "yuv420p", "-g", "60", "-c:a", "aac", "-b:a", "128k", "-ar", "44100",
            "-ac", "2", "-f", "flv", "rtmp://t/x",
        ])
    );
    let no_seek = build_rtmp_args("in.mkv", 0, &o, "rtmp://t/y");
    assert_eq!(&no_seek[4..7], &strs(&["-re", "-i", "in.mkv"])[..]);
}

#[test]
fn encode_presets_and_defaults() {
    let d = EncodeOptions::default();
    assert_eq!((d.video_bitrate_kbps, d.video_width, d.video_height, d.video_fps), (800, 1280, 720, 30));
    assert_eq!((d.audio_bitrate_kbps, d.audio_channels, d.tracks), (128, 2, Track(1)));
    let v = EncodeOptions::video_1080p_60fps();
    assert_eq!((v.video_width, v.video_height, v.video_fps, v.video_bitrate_kbps, v.tracks), (1920, 1080, 60, 4000, Track(3)));
    assert_eq!(EncodeOptions::video_60fps(), EncodeOptions::video_default());
    let zero = EncodeOptions {
        video_bitrate_kbps: 0,
        video_width: 0,
        video_height: 0,
        video_fps: 0,
        audio_bitrate_kbps: 0,
        audio_channels: 0,
        tracks: Track(0),
    };
    assert_eq!(zero.with_defaults(), EncodeOptions::default());
    let video_only = EncodeOptions { tracks: Track(2), ..EncodeOptions::default() };
    assert_eq!(video_only.with_defaults().tracks, Track(3));
    assert_eq!(v.with_defaults(), v);
}

#[test]
fn track_bits() {
    assert!(Track(3).has(Track::audio()));
    assert!(Track(3).has(Track::video()));
    assert!(!Track::audio().has(Track::video()));
    assert_eq!(Track::audio() | Track::video(), Track(3));
    assert_eq!(Track::audio().union(Track::video()), Track(3));
}

#[test]
fn media_settings() {
    let mut s = MediaSettings::new();
    assert_eq!(get_ffmpeg_path(&s), "ffmpeg");
    set_ffmpeg_path(&mut s, "/usr/bin/ffmpeg");
    assert_eq!(get_ffmpeg_path(&s), "/usr/bin/ffmpeg");
    set_ffmpeg_path(&mut s, "");
    assert_eq!(get_ffmpeg_path(&s), "ffmpeg");
    assert!(!is_stderr_log_enabled(&s));
    set_stderr_log(&mut s, true);
    assert!(is_stderr_log_enabled(&s));
}

#[test]
fn transcode_source_seek_and_jobs() {
    let src = TranscodeSource::for_input("a.mp3", 0, EncodeOptions::default());
    assert_eq!(src.input_args, strs(&["-analyzeduration", "0", "-probesize", "64k", "-i", "a.mp3"]));
    assert_eq!(src.tracks(), Track(1));
    let seek = src.seek_input_args(61_000).unwrap();
    assert_eq!(&seek[4..], &strs(&["-i", "a.mp3", "-ss", "61.000"])[..]);
    let (a, v) = src.ffmpeg_jobs(&src.input_args);
    assert!(a.is_some());
    assert!(v.is_none());
    let empty = TranscodeSource { path: String::new(), input_args: vec![], opt: EncodeOptions::default() };
    assert_eq!(empty.seek_input_args(5).err(), Some(RustTgCallsError::SeekUnsupported));
}

#[test]
fn streamer_end_is_reported_once() {
    let mut r = EndReport::new();
    assert_eq!(r.finish(LoopEnd::SourceEnded), None);
    r.arm();
    let err = RustTgCallsError::Internal("boom".to_string());
    assert_eq!(r.finish(LoopEnd::SendFailed(err.clone())), Some(Some(err)));
    assert_eq!(r.finish(LoopEnd::SourceEnded), None);
    r.arm();
    assert_eq!(r.finish(LoopEnd::SourceEnded), Some(None));
    r.arm();
    r.disarm();
    assert_eq!(r.finish(LoopEnd::Stopped), None);
}
