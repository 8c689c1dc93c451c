//! Sources built from custom ffmpeg command lines: tokenizing the command
//! line, rejecting raw PCM outputs, completing the ffmpeg flags and
//! injecting a seek offset.

use vstd::prelude::*;
use crate::media::source::{Track, TRACK_AUDIO_BIT, TRACK_VIDEO_BIT, track_has, spec_track_audio, spec_track_video};
use crate::models::errors::RustTgCallsError;
use crate::models::StreamType;
use crate::utils::text::{views, digit_char, dec, push_char, push_str, str_eq, starts_with, seq_starts_with, u64_to_dec, string_from_chars, str_chars, clone_strings, extend_range, push_lit, push_string};

verus! {

// ---------------------------------------------------------------------------
// Sequences of arguments
// ---------------------------------------------------------------------------

/// The position of the first `x` in `s`, or -1.
pub open spec fn first_pos(s: Seq<Seq<char>>, x: Seq<char>) -> int
    decreases s.len(),
{
    if s.len() == 0 {
        -1
    } else {
        let p = first_pos(s.drop_last(), x);
        if p >= 0 {
            p
        } else if s.last() == x {
            s.len() - 1
        } else {
            -1
        }
    }
}

/// `s` with every `x` removed.
pub open spec fn remove_all(s: Seq<Seq<char>>, x: Seq<char>) -> Seq<Seq<char>>
    decreases s.len(),
{
    if s.len() == 0 {
        s
    } else {
        let r = remove_all(s.drop_last(), x);
        if s.last() == x {
            r
        } else {
            r.push(s.last())
        }
    }
}

pub proof fn lemma_first_pos_bounds(s: Seq<Seq<char>>, x: Seq<char>)
    ensures
        -1 <= first_pos(s, x) < s.len(),
        first_pos(s, x) >= 0 ==> s[first_pos(s, x)] == x,
        first_pos(s, x) >= 0 ==> forall|k: int| 0 <= k < first_pos(s, x) ==> s[k] != x,
        first_pos(s, x) < 0 ==> !s.contains(x),
    decreases s.len(),
{
    if s.len() > 0 {
        let d = s.drop_last();
        lemma_first_pos_bounds(d, x);
        let p = first_pos(d, x);
        if p >= 0 {
            assert(s[p] == d[p]);
            assert forall|k: int| 0 <= k < p implies s[k] != x by {
                assert(s[k] == d[k]);
            }
        } else {
            assert forall|k: int| 0 <= k < s.len() - 1 implies s[k] != x by {
                assert(s[k] == d[k]);
                if s[k] == x {
                    assert(d.contains(x));
                }
            }
        }
    }
}

/// The run `s` holds no `x` after removal.
pub proof fn lemma_remove_all_removes(s: Seq<Seq<char>>, x: Seq<char>)
    ensures
        !remove_all(s, x).contains(x),
        !s.contains(x) ==> remove_all(s, x) == s,
    decreases s.len(),
{
    if s.len() > 0 {
        lemma_remove_all_removes(s.drop_last(), x);
        if !s.contains(x) {
            assert(!s.drop_last().contains(x)) by {
                if s.drop_last().contains(x) {
                    let k = choose|k: int| 0 <= k < s.drop_last().len() && s.drop_last()[k] == x;
                    assert(s[k] == x);
                }
            }
            assert(s.drop_last().push(s.last()) =~= s);
        }
        let r = remove_all(s.drop_last(), x);
        if s.last() != x {
            assert forall|k: int| 0 <= k < r.push(s.last()).len() implies r.push(s.last())[k] != x by {
                if k < r.len() {
                    assert(r.contains(r[k]));
                }
            }
        }
    }
}

proof fn lemma_take_push<A>(s: Seq<A>, i: int)
    requires
        0 <= i < s.len(),
    ensures
        s.take(i + 1) == s.take(i).push(s[i]),
        s.take(i + 1).drop_last() == s.take(i),
        s.take(i + 1).last() == s[i],
{
    assert(s.take(i + 1) =~= s.take(i).push(s[i]));
    assert(s.take(i + 1).drop_last() =~= s.take(i));
}

fn arg_is(a: &String, lit: &str) -> (out: bool)
    ensures
        out == (a@ == lit@),
{
    str_eq(a.as_str(), lit)
}

// ---------------------------------------------------------------------------
// ensure_ffmpeg_flags
// ---------------------------------------------------------------------------

/// Input-side probing flags, given which ones are already present.
pub open spec fn input_flags(ad: bool, ps: bool, ed: bool) -> Seq<Seq<char>> {
    (if ad { seq![] } else { seq!["-analyzeduration"@, "0"@] })
        + (if ps { seq![] } else { seq!["-probesize"@, "64k"@] })
        + (if ed { seq![] } else { seq!["-err_detect"@, "ignore_err"@] })
}

/// Input-side probing flags that are missing and are added before `-i`.
pub open spec fn input_inject(a: Seq<Seq<char>>) -> Seq<Seq<char>> {
    input_flags(a.contains("-analyzeduration"@), a.contains("-probesize"@), a.contains("-err_detect"@))
}

/// The Opus output flags telegram needs.
pub open spec fn opus_output_flags() -> Seq<Seq<char>> {
    seq![
        "-application"@, "audio"@, "-frame_duration"@, "20"@, "-page_duration"@, "20000"@,
        "-mapping_family"@, "0"@, "-ar"@, "48000"@, "-ac"@, "2"@,
    ]
}

/// Output-side flags for a track mask (audio wins when both are set),
/// given whether an audio codec, a video codec and a format are present.
pub open spec fn output_flags(track: Track, ca: bool, cv: bool, f: bool) -> Seq<Seq<char>> {
    if track_has(track, spec_track_audio()) {
        (if ca { seq![] } else { seq!["-c:a"@, "libopus"@] }) + opus_output_flags()
            + (if f { seq![] } else { seq!["-f"@, "ogg"@] })
    } else if track_has(track, spec_track_video()) {
        (if cv { seq![] } else { seq!["-c:v"@, "libvpx"@, "-deadline"@, "realtime"@] })
            + (if f { seq![] } else { seq!["-f"@, "ivf"@] })
    } else {
        seq![]
    }
}

/// Output-side flags added for the arguments `a`.
pub open spec fn output_inject(a: Seq<Seq<char>>, track: Track) -> Seq<Seq<char>> {
    output_flags(
        track,
        a.contains("-c:a"@) || a.contains("-acodec"@),
        a.contains("-c:v"@) || a.contains("-vcodec"@),
        a.contains("-f"@),
    )
}

/// The arguments with the probing flags spliced in before the first `-i`.
pub open spec fn spliced_args(a: Seq<Seq<char>>) -> Seq<Seq<char>> {
    let i = first_pos(a, "-i"@);
    if i >= 0 {
        a.take(i) + input_inject(a) + a.skip(i)
    } else {
        a
    }
}

/// The completed ffmpeg arguments: probing flags before `-i`, the output
/// codec flags, and the output going to `pipe:1`, which ends the list.
pub open spec fn spec_ensure_ffmpeg_flags(a: Seq<Seq<char>>, track: Track) -> Seq<Seq<char>> {
    let has_pipe = a.contains("pipe:1"@) || a.contains("-"@);
    (if has_pipe { remove_all(spliced_args(a), "pipe:1"@) } else { spliced_args(a) })
        + output_inject(a, track) + seq!["pipe:1"@]
}

struct FlagScan {
    has_analyzeduration: bool,
    has_probesize: bool,
    has_err_detect: bool,
    has_ca: bool,
    has_cv: bool,
    has_f: bool,
    has_pipe: bool,
    input_idx: Option<usize>,
}

fn scan_flags(args: &[String]) -> (r: FlagScan)
    ensures
        r.has_analyzeduration == views(args@).contains("-analyzeduration"@),
        r.has_probesize == views(args@).contains("-probesize"@),
        r.has_err_detect == views(args@).contains("-err_detect"@),
        r.has_ca == (views(args@).contains("-c:a"@) || views(args@).contains("-acodec"@)),
        r.has_cv == (views(args@).contains("-c:v"@) || views(args@).contains("-vcodec"@)),
        r.has_f == views(args@).contains("-f"@),
        r.has_pipe == (views(args@).contains("pipe:1"@) || views(args@).contains("-"@)),
        match r.input_idx {
            Some(k) => first_pos(views(args@), "-i"@) == k,
            None => first_pos(views(args@), "-i"@) == -1,
        },
{
    let ghost a = views(args@);
    let mut r = FlagScan {
        has_analyzeduration: false,
        has_probesize: false,
        has_err_detect: false,
        has_ca: false,
        has_cv: false,
        has_f: false,
        has_pipe: false,
        input_idx: None,
    };
    let mut i: usize = 0;
    while i < args.len()
        invariant
            i <= args@.len(),
            a == views(args@),
            r.has_analyzeduration == a.take(i as int).contains("-analyzeduration"@),
            r.has_probesize == a.take(i as int).contains("-probesize"@),
            r.has_err_detect == a.take(i as int).contains("-err_detect"@),
            r.has_ca == (a.take(i as int).contains("-c:a"@) || a.take(i as int).contains("-acodec"@)),
            r.has_cv == (a.take(i as int).contains("-c:v"@) || a.take(i as int).contains("-vcodec"@)),
            r.has_f == a.take(i as int).contains("-f"@),
            r.has_pipe == (a.take(i as int).contains("pipe:1"@) || a.take(i as int).contains("-"@)),
            match r.input_idx {
                Some(k) => first_pos(a.take(i as int), "-i"@) == k,
                None => first_pos(a.take(i as int), "-i"@) == -1,
            },
        decreases args.len() - i,
    {
        let x = &args[i];
        proof {
            lemma_take_push(a, i as int);
            assert(a[i as int] == x@);
        }
        if arg_is(x, "-analyzeduration") {
            r.has_analyzeduration = true;
        }
        if arg_is(x, "-probesize") {
            r.has_probesize = true;
        }
        if arg_is(x, "-err_detect") {
            r.has_err_detect = true;
        }
        if arg_is(x, "-c:a") || arg_is(x, "-acodec") {
            r.has_ca = true;
        }
        if arg_is(x, "-c:v") || arg_is(x, "-vcodec") {
            r.has_cv = true;
        }
        if arg_is(x, "-f") {
            r.has_f = true;
        }
        if arg_is(x, "pipe:1") || arg_is(x, "-") {
            r.has_pipe = true;
        }
        if arg_is(x, "-i") && r.input_idx.is_none() {
            r.input_idx = Some(i);
        }
        i = i + 1;
    }
    proof {
        assert(a.take(args@.len() as int) =~= a);
    }
    r
}

fn push_input_flags(out: &mut Vec<String>, ad: bool, ps: bool, ed: bool)
    ensures
        views(final(out)@) == views(old(out)@) + input_flags(ad, ps, ed),
{
    let ghost o = views(out@);
    if !ad {
        push_lit(out, "-analyzeduration");
        push_lit(out, "0");
    }
    let ghost o1 = views(out@);
    assert(o1 =~= o + (if ad { seq![] } else { seq!["-analyzeduration"@, "0"@] }));
    if !ps {
        push_lit(out, "-probesize");
        push_lit(out, "64k");
    }
    let ghost o2 = views(out@);
    assert(o2 =~= o1 + (if ps { seq![] } else { seq!["-probesize"@, "64k"@] }));
    if !ed {
        push_lit(out, "-err_detect");
        push_lit(out, "ignore_err");
    }
    assert(views(out@) =~= o2 + (if ed { seq![] } else { seq!["-err_detect"@, "ignore_err"@] }));
    assert(views(out@) =~= o + input_flags(ad, ps, ed));
}

fn push_opus_flags(out: &mut Vec<String>)
    ensures
        views(final(out)@) == views(old(out)@) + opus_output_flags(),
{
    let ghost o = views(out@);
    push_lit(out, "-application");
    push_lit(out, "audio");
    push_lit(out, "-frame_duration");
    push_lit(out, "20");
    push_lit(out, "-page_duration");
    push_lit(out, "20000");
    push_lit(out, "-mapping_family");
    push_lit(out, "0");
    push_lit(out, "-ar");
    push_lit(out, "48000");
    push_lit(out, "-ac");
    push_lit(out, "2");
    assert(views(out@) =~= o + opus_output_flags());
}

fn push_output_flags(out: &mut Vec<String>, track: Track, ca: bool, cv: bool, f: bool)
    ensures
        views(final(out)@) == views(old(out)@) + output_flags(track, ca, cv, f),
{
    let ghost o = views(out@);
    if (track.0 & TRACK_AUDIO_BIT) != 0 {
        if !ca {
            push_lit(out, "-c:a");
            push_lit(out, "libopus");
        }
        let ghost o1 = views(out@);
        assert(o1 =~= o + (if ca { seq![] } else { seq!["-c:a"@, "libopus"@] }));
        push_opus_flags(out);
        let ghost o2 = views(out@);
        if !f {
            push_lit(out, "-f");
            push_lit(out, "ogg");
        }
        assert(views(out@) =~= o2 + (if f { seq![] } else { seq!["-f"@, "ogg"@] }));
        assert(views(out@) =~= o + output_flags(track, ca, cv, f));
    } else if (track.0 & TRACK_VIDEO_BIT) != 0 {
        if !cv {
            push_lit(out, "-c:v");
            push_lit(out, "libvpx");
            push_lit(out, "-deadline");
            push_lit(out, "realtime");
        }
        let ghost o1 = views(out@);
        assert(o1 =~= o + (if cv { seq![] } else { seq!["-c:v"@, "libvpx"@, "-deadline"@, "realtime"@] }));
        if !f {
            push_lit(out, "-f");
            push_lit(out, "ivf");
        }
        assert(views(out@) =~= o1 + (if f { seq![] } else { seq!["-f"@, "ivf"@] }));
        assert(views(out@) =~= o + output_flags(track, ca, cv, f));
    } else {
        assert(views(out@) =~= o + output_flags(track, ca, cv, f));
    }
}

/// Injects input-side fast-probe flags and output-side Opus/VP8 flags into
/// a user's ffmpeg arguments, and routes the output to `pipe:1`.
pub fn ensure_ffmpeg_flags(args: &[String], track: Track) -> (out: Vec<String>)
    ensures
        views(out@) == spec_ensure_ffmpeg_flags(views(args@), track),
{
    let ghost a = views(args@);
    let scan = scan_flags(args);

    // the arguments with the probing flags spliced in
    let mut pre: Vec<String> = Vec::new();
    match scan.input_idx {
        Some(idx) => {
            proof { lemma_first_pos_bounds(a, "-i"@); }
            extend_range(&mut pre, args, 0, idx);
            push_input_flags(&mut pre, scan.has_analyzeduration, scan.has_probesize, scan.has_err_detect);
            extend_range(&mut pre, args, idx, args.len());
            proof {
                assert(a.subrange(0, idx as int) =~= a.take(idx as int));
                assert(a.subrange(idx as int, a.len() as int) =~= a.skip(idx as int));
                assert(views(pre@) =~= spliced_args(a));
            }
        },
        None => {
            extend_range(&mut pre, args, 0, args.len());
            proof {
                assert(a.subrange(0, a.len() as int) =~= a);
                assert(views(pre@) =~= spliced_args(a));
            }
        },
    }

    let mut out: Vec<String> = Vec::new();
    if scan.has_pipe {
        let mut j: usize = 0;
        assert(views(out@) =~= remove_all(views(pre@).take(0), "pipe:1"@));
        while j < pre.len()
            invariant
                j <= pre@.len(),
                views(out@) == remove_all(views(pre@).take(j as int), "pipe:1"@),
            decreases pre.len() - j,
        {
            proof { lemma_take_push(views(pre@), j as int); }
            if !arg_is(&pre[j], "pipe:1") {
                let ghost before = views(out@);
                out.push(pre[j].clone());
                assert(views(out@) =~= before.push(pre@[j as int]@));
            }
            j = j + 1;
        }
        assert(views(pre@).take(pre@.len() as int) =~= views(pre@));
    } else {
        out = pre;
    }
    let ghost body = views(out@);
    push_output_flags(&mut out, track, scan.has_ca, scan.has_cv, scan.has_f);
    push_lit(&mut out, "pipe:1");
    assert(views(out@) =~= body + output_inject(a, track) + seq!["pipe:1"@]);
    out
}

/// Neither the probing nor the output flags mention `pipe:1`.
proof fn lemma_injected_flags_no_pipe(ad: bool, ps: bool, ed: bool, track: Track, ca: bool, cv: bool, f: bool)
    ensures
        !input_flags(ad, ps, ed).contains("pipe:1"@),
        !output_flags(track, ca, cv, f).contains("pipe:1"@),
{
    reveal_strlit("pipe:1");
    reveal_strlit("-analyzeduration");
    reveal_strlit("0");
    reveal_strlit("-probesize");
    reveal_strlit("64k");
    reveal_strlit("-err_detect");
    reveal_strlit("ignore_err");
    reveal_strlit("-c:a");
    reveal_strlit("libopus");
    reveal_strlit("-application");
    reveal_strlit("audio");
    reveal_strlit("-frame_duration");
    reveal_strlit("20");
    reveal_strlit("-page_duration");
    reveal_strlit("20000");
    reveal_strlit("-mapping_family");
    reveal_strlit("-ar");
    reveal_strlit("48000");
    reveal_strlit("-ac");
    reveal_strlit("2");
    reveal_strlit("-f");
    reveal_strlit("ogg");
    reveal_strlit("-c:v");
    reveal_strlit("libvpx");
    reveal_strlit("-deadline");
    reveal_strlit("realtime");
    reveal_strlit("ivf");
    let i = input_flags(ad, ps, ed);
    assert forall|k: int| 0 <= k < i.len() implies i[k] != "pipe:1"@ by {
        assert(i[k].len() != 6 || i[k][0] != 'p');
    }
    let o = output_flags(track, ca, cv, f);
    assert forall|k: int| 0 <= k < o.len() implies o[k] != "pipe:1"@ by {
        assert(o[k].len() != 6 || o[k][0] != 'p');
    }
}

/// The completed arguments send the output to `pipe:1` exactly once, as
/// their last element.
pub proof fn lemma_ensure_ffmpeg_flags_single_pipe(a: Seq<Seq<char>>, track: Track)
    ensures
        spec_ensure_ffmpeg_flags(a, track).last() == "pipe:1"@,
        !spec_ensure_ffmpeg_flags(a, track).drop_last().contains("pipe:1"@),
{
    let has_pipe = a.contains("pipe:1"@) || a.contains("-"@);
    let body = if has_pipe { remove_all(spliced_args(a), "pipe:1"@) } else { spliced_args(a) };
    let inj = output_inject(a, track);
    let out = spec_ensure_ffmpeg_flags(a, track);
    assert(out.drop_last() =~= body + inj);
    lemma_injected_flags_no_pipe(
        a.contains("-analyzeduration"@), a.contains("-probesize"@), a.contains("-err_detect"@),
        track, a.contains("-c:a"@) || a.contains("-acodec"@), a.contains("-c:v"@) || a.contains("-vcodec"@),
        a.contains("-f"@),
    );
    lemma_remove_all_removes(spliced_args(a), "pipe:1"@);
    if !has_pipe {
        lemma_first_pos_bounds(a, "-i"@);
        let i = first_pos(a, "-i"@);
        if i >= 0 {
            let s = spliced_args(a);
            let inp = input_inject(a);
            assert forall|k: int| 0 <= k < s.len() implies s[k] != "pipe:1"@ by {
                if k < i {
                    assert(s[k] == a[k]);
                    assert(a.contains(a[k]));
                } else if k >= i + inp.len() {
                    assert(s[k] == a[k - inp.len()]);
                    assert(a.contains(a[k - inp.len()]));
                } else {
                    assert(s[k] == inp[k - i]);
                    assert(inp.contains(inp[k - i]));
                }
            }
        }
    }
    assert(!body.contains("pipe:1"@));
    assert forall|k: int| 0 <= k < (body + inj).len() implies (body + inj)[k] != "pipe:1"@ by {
        if k < body.len() {
            assert((body + inj)[k] == body[k]);
            assert(body.contains(body[k]));
        } else {
            assert((body + inj)[k] == inj[k - body.len()]);
            assert(inj.contains(inj[k - body.len()]));
        }
    }
}

// ---------------------------------------------------------------------------
// validate_output_codec
// ---------------------------------------------------------------------------

/// Raw PCM containers, which Telegram cannot take.
pub open spec fn is_raw_pcm(s: Seq<char>) -> bool {
    s == "s16le"@ || s == "s16be"@ || s == "s24le"@ || s == "s32le"@ || s == "f32le"@
        || s == "f64le"@ || s == "u8"@ || s == "alaw"@ || s == "mulaw"@
}

/// The argument after position `i`, or the empty string.
pub open spec fn next_arg(a: Seq<Seq<char>>, i: int) -> Seq<char> {
    if i + 1 < a.len() { a[i + 1] } else { seq![] }
}

/// Whether position `i` selects a raw PCM codec.
pub open spec fn pcm_codec_at(a: Seq<Seq<char>>, i: int) -> bool {
    (a[i] == "-acodec"@ || a[i] == "-c:a"@) && seq_starts_with(next_arg(a, i), "pcm_"@)
}

/// Whether position `i` selects a raw PCM container.
pub open spec fn pcm_container_at(a: Seq<Seq<char>>, i: int) -> bool {
    a[i] == "-f"@ && is_raw_pcm(next_arg(a, i))
}

/// Whether position `i` selects raw PCM audio, as a codec or a container.
pub open spec fn pcm_at(a: Seq<Seq<char>>, i: int) -> bool {
    pcm_codec_at(a, i) || pcm_container_at(a, i)
}

/// The first position at or after `k` that selects raw PCM, or -1.
pub open spec fn first_pcm_from(a: Seq<Seq<char>>, k: int) -> int
    decreases a.len() - k,
{
    if k >= a.len() || k < 0 {
        -1
    } else if pcm_at(a, k) {
        k
    } else {
        first_pcm_from(a, k + 1)
    }
}

/// The message for a raw PCM selection at position `k`.
pub open spec fn pcm_message(a: Seq<Seq<char>>, k: int) -> Seq<char> {
    if pcm_codec_at(a, k) {
        "raw PCM codec "@ + next_arg(a, k) + " not supported; expected libopus in OGG"@
    } else {
        "raw PCM container "@ + next_arg(a, k) + " not supported; expected -f ogg"@
    }
}

/// What `validate_output_codec` decides.
pub open spec fn spec_validate_output_codec(a: Seq<Seq<char>>, track: Track) -> Result<(), Seq<char>> {
    if track_has(track, spec_track_audio()) && first_pcm_from(a, 0) >= 0 {
        Err(pcm_message(a, first_pcm_from(a, 0)))
    } else {
        Ok(())
    }
}

fn is_raw_pcm_exec(s: &str) -> (out: bool)
    ensures
        out == is_raw_pcm(s@),
{
    str_eq(s, "s16le") || str_eq(s, "s16be") || str_eq(s, "s24le") || str_eq(s, "s32le")
        || str_eq(s, "f32le") || str_eq(s, "f64le") || str_eq(s, "u8") || str_eq(s, "alaw")
        || str_eq(s, "mulaw")
}

proof fn lemma_first_pcm_skip(a: Seq<Seq<char>>, k: int, j: int)
    requires
        0 <= k <= j,
        forall|m: int| k <= m < j && m < a.len() ==> !#[trigger] pcm_at(a, m),
    ensures
        first_pcm_from(a, k) == first_pcm_from(a, j),
    decreases j - k,
{
    if k < j && k < a.len() {
        lemma_first_pcm_skip(a, k + 1, j);
    } else if k < j {
        // both beyond the end
    }
}

/// Rejects ffmpeg arguments that would produce raw PCM audio: a `pcm_*`
/// audio codec, or one of the raw PCM containers after `-f`. Only audio
/// tracks are checked.
pub fn validate_output_codec(args: &[String], track: Track) -> (out: Result<(), RustTgCallsError>)
    ensures
        match spec_validate_output_codec(views(args@), track) {
            Ok(()) => out is Ok,
            Err(m) => out matches Err(RustTgCallsError::InvalidParams(s)) && s@ == m,
        },
{
    let ghost a = views(args@);
    let audio = (track.0 & TRACK_AUDIO_BIT) != 0;
    if !audio {
        return Ok(());
    }
    let mut i: usize = 0;
    while i < args.len()
        invariant
            i <= args@.len(),
            a == views(args@),
            track_has(track, spec_track_audio()),
            forall|m: int| 0 <= m < i ==> !#[trigger] pcm_at(a, m),
        decreases args.len() - i,
    {
        let next: &str = if i + 1 < args.len() { args[i + 1].as_str() } else { "" };
        proof {
            reveal_strlit("");
            assert(next@ == next_arg(a, i as int));
            assert(a[i as int] == args@[i as int]@);
        }
        let is_codec = arg_is(&args[i], "-acodec") || arg_is(&args[i], "-c:a");
        let pcm_codec = is_codec && starts_with(next, "pcm_");
        if pcm_codec {
            proof {
                lemma_first_pcm_skip(a, 0, i as int);
            }
            let mut msg = String::from_str("raw PCM codec ");
            push_str(&mut msg, next);
            push_str(&mut msg, " not supported; expected libopus in OGG");
            return Err(RustTgCallsError::InvalidParams(msg));
        }
        let pcm_container = arg_is(&args[i], "-f") && is_raw_pcm_exec(next);
        if pcm_container {
            proof {
                lemma_first_pcm_skip(a, 0, i as int);
            }
            let mut msg = String::from_str("raw PCM container ");
            push_str(&mut msg, next);
            push_str(&mut msg, " not supported; expected -f ogg");
            return Err(RustTgCallsError::InvalidParams(msg));
        }
        assert(!pcm_at(a, i as int));
        i = i + 1;
    }
    proof {
        lemma_first_pcm_skip(a, 0, a.len() as int);
    }
    Ok(())
}

// ---------------------------------------------------------------------------
// inject_seek
// ---------------------------------------------------------------------------

/// Three decimal digits of `n % 1000`, with leading zeros.
pub open spec fn pad3(n: nat) -> Seq<char> {
    seq![digit_char((n / 100) % 10), digit_char((n / 10) % 10), digit_char(n % 10)]
}

/// A duration in milliseconds rendered as seconds with three decimals.
pub open spec fn seconds_text(ms: nat) -> Seq<char> {
    dec(ms / 1000) + seq!['.'] + pad3(ms % 1000)
}

/// A duration in milliseconds rendered as seconds with three decimals
/// (`1500` gives `1.500`).
pub fn seconds_string(ms: u64) -> (out: String)
    ensures
        out@ == seconds_text(ms as nat),
{
    let mut s = u64_to_dec(ms / 1000);
    let frac = ms % 1000;
    push_char(&mut s, '.');
    let d1 = u64_to_dec((frac / 100) % 10);
    let d2 = u64_to_dec((frac / 10) % 10);
    let d3 = u64_to_dec(frac % 10);
    push_str(&mut s, d1.as_str());
    push_str(&mut s, d2.as_str());
    push_str(&mut s, d3.as_str());
    proof {
        assert(dec(((frac / 100) % 10) as nat) == seq![digit_char(((frac / 100) % 10) as nat)]);
        assert(dec(((frac / 10) % 10) as nat) == seq![digit_char(((frac / 10) % 10) as nat)]);
        assert(dec((frac % 10) as nat) == seq![digit_char((frac % 10) as nat)]);
        assert(s@ =~= seconds_text(ms as nat));
    }
    s
}

/// The state of the seek-stripping scan after the first `k` arguments:
/// the kept arguments, whether the next one is skipped, and where `-i`
/// landed among the kept ones (-1 while not seen).
pub open spec fn strip_seek(a: Seq<Seq<char>>, k: int) -> (Seq<Seq<char>>, bool, int)
    decreases k,
{
    if k <= 0 {
        (seq![], false, -1)
    } else {
        let (kept, skip, idx) = strip_seek(a, k - 1);
        let x = a[k - 1];
        if skip {
            (kept, false, idx)
        } else if x == "-ss"@ && idx < 0 && k < a.len() {
            (kept, true, idx)
        } else if x == "-i"@ && idx < 0 {
            (kept.push(x), false, kept.len() as int)
        } else {
            (kept.push(x), false, idx)
        }
    }
}

/// What `inject_seek` returns: every `-ss <v>` pair before the first `-i`
/// removed, and `-ss <offset>` inserted before that `-i` (or in front when
/// there is none).
pub open spec fn spec_inject_seek(a: Seq<Seq<char>>, offset: Seq<char>) -> Seq<Seq<char>> {
    let (kept, _skip, idx) = strip_seek(a, a.len() as int);
    if idx >= 0 {
        kept.take(idx) + seq!["-ss"@, offset] + kept.skip(idx)
    } else {
        seq!["-ss"@, offset] + kept
    }
}

proof fn lemma_strip_seek_idx(a: Seq<Seq<char>>, k: int)
    requires
        0 <= k <= a.len(),
    ensures
        strip_seek(a, k).2 < strip_seek(a, k).0.len(),
        strip_seek(a, k).2 >= -1,
    decreases k,
{
    if k > 0 {
        lemma_strip_seek_idx(a, k - 1);
    }
}

/// The shape of a stripped argument list with `idx` where `-i` landed:
/// `-i` stands at `idx`, nothing before it is `-i`, and nothing before it is
/// `-ss` except, when there is no `-i`, a final `-ss` the scan ended on.
spec fn stripped_shape(kept: Seq<Seq<char>>, idx: int, at_end: bool) -> bool {
    let bound = if idx >= 0 { idx } else { kept.len() as int };
    &&& idx >= 0 ==> (idx < kept.len() && kept[idx] == "-i"@)
    &&& forall|j: int| 0 <= j < bound ==> #[trigger] kept[j] != "-i"@
    &&& forall|j: int| 0 <= j < bound && #[trigger] kept[j] == "-ss"@ ==> (idx < 0 && at_end && j == kept.len() - 1)
}

proof fn lemma_strip_shape(a: Seq<Seq<char>>, k: int)
    requires
        0 <= k <= a.len(),
    ensures
        stripped_shape(strip_seek(a, k).0, strip_seek(a, k).2, k == a.len()),
        strip_seek(a, k).2 >= -1,
    decreases k,
{
    if k > 0 {
        lemma_strip_shape(a, k - 1);
        let (kept, skip, idx) = strip_seek(a, k - 1);
        let x = a[k - 1];
        if !skip && !(x == "-ss"@ && idx < 0 && k < a.len()) {
            let nk = kept.push(x);
            assert forall|j: int| 0 <= j < kept.len() implies nk[j] == kept[j] by {}
        }
    }
}

proof fn lemma_strip_clean_prefix(k_all: Seq<Seq<char>>, b: Seq<Seq<char>>, p: int, k: int)
    requires
        0 <= k <= p,
        p <= k_all.len(),
        b.len() > p,
        forall|j: int| 0 <= j < p ==> b[j] == k_all[j],
        forall|j: int| 0 <= j < p ==> #[trigger] k_all[j] != "-i"@ && k_all[j] != "-ss"@,
    ensures
        strip_seek(b, k) == (k_all.take(k), false, -1int),
    decreases k,
{
    if k > 0 {
        lemma_strip_clean_prefix(k_all, b, p, k - 1);
        assert(k_all.take(k - 1).push(b[k - 1]) =~= k_all.take(k));
    }
}

proof fn lemma_strip_after_input(k_all: Seq<Seq<char>>, b: Seq<Seq<char>>, p: int, shift: int, m: int)
    requires
        0 <= p < k_all.len(),
        k_all[p] == "-i"@,
        1 <= m <= k_all.len() - p,
        shift >= 0,
        b.len() == k_all.len() + shift,
        forall|j: int| p <= j < k_all.len() ==> b[j + shift] == k_all[j],
        strip_seek(b, p + shift) == (k_all.take(p), false, -1int),
    ensures
        strip_seek(b, p + shift + m) == (k_all.take(p + m), false, p),
    decreases m,
{
    let k = p + shift + m;
    assert(b[k - 1] == k_all[p + m - 1]);
    if m == 1 {
        reveal_strlit("-i");
        reveal_strlit("-ss");
        assert("-i"@ != "-ss"@);
        assert(k_all.take(p).len() == p);
        assert(k_all.take(p).push(k_all[p]) =~= k_all.take(p + 1));
        assert(strip_seek(b, k) == (k_all.take(p).push(k_all[p]), false, p));
    } else {
        lemma_strip_after_input(k_all, b, p, shift, m - 1);
        assert(k_all.take(p + m - 1).push(k_all[p + m - 1]) =~= k_all.take(p + m));
        assert(strip_seek(b, k) == (k_all.take(p + m - 1).push(k_all[p + m - 1]), false, p));
    }
}

proof fn lemma_strip_no_input(k_all: Seq<Seq<char>>, b: Seq<Seq<char>>, m: int)
    requires
        0 <= m <= k_all.len(),
        b.len() == k_all.len() + 2,
        forall|j: int| 0 <= j < k_all.len() ==> b[j + 2] == k_all[j],
        stripped_shape(k_all, -1, true),
        strip_seek(b, 2) == (Seq::<Seq<char>>::empty(), false, -1int),
    ensures
        strip_seek(b, 2 + m) == (k_all.take(m), false, -1int),
    decreases m,
{
    if m > 0 {
        lemma_strip_no_input(k_all, b, m - 1);
        let x = k_all[m - 1];
        assert(b[2 + m - 1] == x);
        assert(x != "-i"@);
        assert(x == "-ss"@ ==> m - 1 == k_all.len() - 1);
        assert(k_all.take(m - 1).push(x) =~= k_all.take(m));
    } else {
        assert(k_all.take(0) =~= Seq::<Seq<char>>::empty());
    }
}

/// Seeking twice is seeking once to the later offset: injecting `-ss o2`
/// into arguments that already had `-ss o1` injected gives what injecting
/// `-ss o2` into the first arguments gives.
pub proof fn lemma_inject_seek_twice(a: Seq<Seq<char>>, o1: Seq<char>, o2: Seq<char>)
    ensures
        spec_inject_seek(spec_inject_seek(a, o1), o2) == spec_inject_seek(a, o2),
{
    lemma_strip_shape(a, a.len() as int);
    let (kept, _s, idx) = strip_seek(a, a.len() as int);
    let b = spec_inject_seek(a, o1);
    if idx >= 0 {
        assert(b =~= kept.take(idx) + seq!["-ss"@, o1] + kept.skip(idx));
        assert forall|j: int| 0 <= j < idx implies #[trigger] kept[j] != "-i"@ && kept[j] != "-ss"@ by {
            if kept[j] == "-ss"@ {
                assert(idx < 0);
            }
        }
        lemma_strip_clean_prefix(kept, b, idx, idx);
        assert(b[idx] == "-ss"@);
        assert(strip_seek(b, idx + 1) == (kept.take(idx), true, -1int));
        assert(strip_seek(b, idx + 2) == (kept.take(idx), false, -1int));
        assert forall|j: int| idx <= j < kept.len() implies b[j + 2] == kept[j] by {}
        lemma_strip_after_input(kept, b, idx, 2, kept.len() - idx);
        assert(kept.take(kept.len() as int) =~= kept);
        assert(b.len() == idx + 2 + (kept.len() - idx));
    } else {
        assert(b =~= seq!["-ss"@, o1] + kept);
        assert(strip_seek(b, 0) == (Seq::<Seq<char>>::empty(), false, -1int));
        assert(strip_seek(b, 1) == (Seq::<Seq<char>>::empty(), true, -1int));
        assert(strip_seek(b, 2) == (Seq::<Seq<char>>::empty(), false, -1int));
        assert forall|j: int| 0 <= j < kept.len() implies b[j + 2] == kept[j] by {}
        lemma_strip_no_input(kept, b, kept.len() as int);
        assert(kept.take(kept.len() as int) =~= kept);
    }
}

/// Places `-ss <offset>` (seconds with three decimals) before the first
/// `-i`, replacing any earlier `-ss` there.
pub fn inject_seek(args: &[String], offset_ms: u64) -> (out: Vec<String>)
    ensures
        views(out@) == spec_inject_seek(views(args@), seconds_text(offset_ms as nat)),
{
    let ghost a = views(args@);
    let offset_str = seconds_string(offset_ms);
    let mut cleaned: Vec<String> = Vec::new();
    let mut input_idx: Option<usize> = None;
    let mut skip_next = false;
    let mut i: usize = 0;
    while i < args.len()
        invariant
            i <= args@.len(),
            a == views(args@),
            views(cleaned@) == strip_seek(a, i as int).0,
            skip_next == strip_seek(a, i as int).1,
            match input_idx {
                Some(k) => strip_seek(a, i as int).2 == k,
                None => strip_seek(a, i as int).2 == -1,
            },
            cleaned@.len() == views(cleaned@).len(),
        decreases args.len() - i,
    {
        proof {
            lemma_strip_seek_idx(a, i as int);
            assert(a[i as int] == args@[i as int]@);
        }
        if skip_next {
            skip_next = false;
        } else if arg_is(&args[i], "-ss") && input_idx.is_none() && i + 1 < args.len() {
            skip_next = true;
        } else {
            if arg_is(&args[i], "-i") && input_idx.is_none() {
                input_idx = Some(cleaned.len());
            }
            let ghost before = views(cleaned@);
            cleaned.push(args[i].clone());
            assert(views(cleaned@) =~= before.push(a[i as int]));
        }
        i = i + 1;
    }
    proof {
        lemma_strip_seek_idx(a, a.len() as int);
    }
    let mut out: Vec<String> = Vec::new();
    match input_idx {
        Some(idx) => {
            extend_range(&mut out, cleaned.as_slice(), 0, idx);
            push_lit(&mut out, "-ss");
            push_string(&mut out, offset_str);
            extend_range(&mut out, cleaned.as_slice(), idx, cleaned.len());
            proof {
                let c = views(cleaned@);
                assert(c.subrange(0, idx as int) =~= c.take(idx as int));
                assert(c.subrange(idx as int, c.len() as int) =~= c.skip(idx as int));
            }
        },
        None => {
            push_lit(&mut out, "-ss");
            push_string(&mut out, offset_str);
            extend_range(&mut out, cleaned.as_slice(), 0, cleaned.len());
            proof {
                let c = views(cleaned@);
                assert(c.subrange(0, c.len() as int) =~= c);
            }
        },
    }
    assert(views(out@) =~= spec_inject_seek(a, seconds_text(offset_ms as nat)));
    out
}

// ---------------------------------------------------------------------------
// tokenize_shell
// ---------------------------------------------------------------------------

/// Whether a character separates tokens outside quotes: space, tab or newline.
pub open spec fn is_sep(c: char) -> bool {
    c == ' ' || c == '\t' || c == '\n'
}

/// Tokenizer state machine, run from character `i` with the tokens so far,
/// the current token and the quote flag. A backslash escapes a following
/// quote or backslash; quotes toggle quoting and are dropped; unquoted
/// spaces, tabs and newlines end a token; every other character is kept.
pub open spec fn tokenize_from(
    b: Seq<char>,
    i: int,
    out: Seq<Seq<char>>,
    cur: Seq<char>,
    quoted: bool,
) -> Seq<Seq<char>>
    decreases b.len() - i,
{
    if i >= b.len() || i < 0 {
        if cur.len() > 0 { out.push(cur) } else { out }
    } else if b[i] == '\\' && i + 1 < b.len() && (b[i + 1] == '"' || b[i + 1] == '\\') {
        tokenize_from(b, i + 2, out, cur.push(b[i + 1]), quoted)
    } else if b[i] == '"' {
        tokenize_from(b, i + 1, out, cur, !quoted)
    } else if is_sep(b[i]) && !quoted {
        if cur.len() > 0 {
            tokenize_from(b, i + 1, out.push(cur), seq![], quoted)
        } else {
            tokenize_from(b, i + 1, out, cur, quoted)
        }
    } else {
        tokenize_from(b, i + 1, out, cur.push(b[i]), quoted)
    }
}

/// The tokens of a command line.
pub open spec fn spec_tokenize(b: Seq<char>) -> Seq<Seq<char>> {
    tokenize_from(b, 0, seq![], seq![], false)
}

/// Splits a command line into argv tokens, honouring double-quoted
/// segments and the escapes `\"` and `\\`.
pub fn tokenize_shell(s: &str) -> (out: Vec<String>)
    ensures
        views(out@) == spec_tokenize(s@),
{
    let chars = str_chars(s);
    let ghost b = chars@;
    let mut out: Vec<String> = Vec::new();
    let mut cur: Vec<char> = Vec::new();
    let mut in_quote = false;
    let mut i: usize = 0;
    assert(views(out@) =~= Seq::<Seq<char>>::empty());
    assert(cur@ =~= Seq::<char>::empty());
    while i < chars.len()
        invariant
            b == chars@,
            i <= chars@.len() + 1,
            tokenize_from(b, i as int, views(out@), cur@, in_quote) == spec_tokenize(b),
        decreases chars.len() + 1 - i,
    {
        let c = chars[i];
        if c == '\\' && i + 1 < chars.len() {
            let next = chars[i + 1];
            if next == '"' || next == '\\' {
                cur.push(next);
                i = i + 2;
                continue;
            }
        }
        if c == '"' {
            in_quote = !in_quote;
        } else if (c == ' ' || c == '\t' || c == '\n') && !in_quote {
            if cur.len() > 0 {
                let ghost before = views(out@);
                let tok = string_from_chars(&cur);
                out.push(tok);
                assert(views(out@) =~= before.push(cur@));
                cur = Vec::new();
                assert(cur@ =~= Seq::<char>::empty());
            }
        } else {
            cur.push(c);
        }
        i = i + 1;
    }
    if cur.len() > 0 {
        let ghost before = views(out@);
        let tok = string_from_chars(&cur);
        out.push(tok);
        assert(views(out@) =~= before.push(cur@));
    }
    out
}

/// The tokenizer keeps every token it has emitted non-empty.
proof fn lemma_tokenize_from_nonempty(b: Seq<char>, i: int, out: Seq<Seq<char>>, cur: Seq<char>, quoted: bool)
    requires
        forall|k: int| 0 <= k < out.len() ==> (#[trigger] out[k]).len() > 0,
    ensures
        forall|k: int| 0 <= k < tokenize_from(b, i, out, cur, quoted).len() ==> (#[trigger] tokenize_from(b, i, out, cur, quoted)[k]).len() > 0,
    decreases b.len() - i,
{
    let r = tokenize_from(b, i, out, cur, quoted);
    if i >= b.len() || i < 0 {
        if cur.len() > 0 {
            assert(r == out.push(cur));
            assert forall|k: int| 0 <= k < r.len() implies (#[trigger] r[k]).len() > 0 by {
                if k < out.len() {
                    assert(r[k] == out[k]);
                }
            }
        } else {
            assert(r == out);
        }
    } else if b[i] == 92 && i + 1 < b.len() && (b[i + 1] == 34 || b[i + 1] == 92) {
        lemma_tokenize_from_nonempty(b, i + 2, out, cur.push(b[i + 1]), quoted);
        assert(r == tokenize_from(b, i + 2, out, cur.push(b[i + 1]), quoted));
    } else if b[i] == 34 {
        lemma_tokenize_from_nonempty(b, i + 1, out, cur, !quoted);
        assert(r == tokenize_from(b, i + 1, out, cur, !quoted));
    } else if is_sep(b[i]) && !quoted {
        if cur.len() > 0 {
            assert forall|k: int| 0 <= k < out.push(cur).len() implies (#[trigger] out.push(cur)[k]).len() > 0 by {
                if k < out.len() {
                    assert(out.push(cur)[k] == out[k]);
                }
            }
            lemma_tokenize_from_nonempty(b, i + 1, out.push(cur), seq![], quoted);
            assert(r == tokenize_from(b, i + 1, out.push(cur), seq![], quoted));
        } else {
            lemma_tokenize_from_nonempty(b, i + 1, out, cur, quoted);
            assert(r == tokenize_from(b, i + 1, out, cur, quoted));
        }
    } else {
        lemma_tokenize_from_nonempty(b, i + 1, out, cur.push(b[i]), quoted);
        assert(r == tokenize_from(b, i + 1, out, cur.push(b[i]), quoted));
    }
}

/// Tokenizing never yields an empty token.
pub proof fn lemma_tokens_nonempty(b: Seq<char>)
    ensures
        forall|k: int| 0 <= k < spec_tokenize(b).len() ==> (#[trigger] spec_tokenize(b)[k]).len() > 0,
{
    lemma_tokenize_from_nonempty(b, 0, seq![], seq![], false);
}

/// Whether a word needs no quoting: no separator, quote or backslash.
pub open spec fn plain_word(w: Seq<char>) -> bool {
    forall|k: int| 0 <= k < w.len() ==> !is_sep(#[trigger] w[k]) && w[k] != '"' && w[k] != '\\'
}

/// Words joined with single spaces.
pub open spec fn join_words(t: Seq<Seq<char>>) -> Seq<char>
    decreases t.len(),
{
    if t.len() == 0 {
        seq![]
    } else if t.len() == 1 {
        t[0]
    } else {
        t[0] + seq![' '] + join_words(t.skip(1))
    }
}

/// Reading a plain word appends it to the current token.
proof fn lemma_tokenize_plain(b: Seq<char>, i: int, w: Seq<char>, out: Seq<Seq<char>>, cur: Seq<char>)
    requires
        0 <= i,
        i + w.len() <= b.len(),
        b.subrange(i, i + w.len()) == w,
        plain_word(w),
    ensures
        tokenize_from(b, i, out, cur, false) == tokenize_from(b, i + w.len(), out, cur + w, false),
    decreases w.len(),
{
    if w.len() == 0 {
        assert(cur + w =~= cur);
    } else {
        assert(b[i] == w[0]);
        let w1 = w.skip(1);
        assert(b.subrange(i + 1, i + 1 + w1.len()) =~= w1);
        assert forall|k: int| 0 <= k < w1.len() implies !is_sep(#[trigger] w1[k]) && w1[k] != '"' && w1[k] != '\\' by {
            assert(w1[k] == w[k + 1]);
        }
        lemma_tokenize_plain(b, i + 1, w1, out, cur.push(w[0]));
        assert(cur.push(w[0]) + w1 =~= cur + w);
    }
}

/// Tokenizing plain words joined with spaces, from where they start, adds
/// exactly those words.
proof fn lemma_tokenize_joined(b: Seq<char>, i: int, t: Seq<Seq<char>>, out: Seq<Seq<char>>)
    requires
        0 <= i <= b.len(),
        b.subrange(i, b.len() as int) == join_words(t),
        forall|k: int| 0 <= k < t.len() ==> plain_word(#[trigger] t[k]) && t[k].len() > 0,
    ensures
        tokenize_from(b, i, out, seq![], false) == out + t,
    decreases t.len(),
{
    if t.len() == 0 {
        assert(out + t =~= out);
    } else if t.len() == 1 {
        let w = t[0];
        assert(b.subrange(i, i + w.len()) =~= w);
        lemma_tokenize_plain(b, i, w, out, seq![]);
        assert(seq![] + w =~= w);
        assert(out + t =~= out.push(w));
    } else {
        let w = t[0];
        let rest = t.skip(1);
        let j = i + w.len();
        let tail = b.subrange(i, b.len() as int);
        assert(join_words(t) == w + seq![' '] + join_words(rest));
        assert(tail.len() == w.len() + 1 + join_words(rest).len());
        assert(tail[w.len() as int] == ' ');
        assert(b[j] == tail[w.len() as int]);
        assert(b.subrange(i, j) =~= w);
        lemma_tokenize_plain(b, i, w, out, seq![]);
        assert(seq![] + w =~= w);
        assert(b[j] == ' ');
        assert(b.subrange(j + 1, b.len() as int) =~= tail.subrange(w.len() as int + 1, tail.len() as int));
        assert(tail.subrange(w.len() as int + 1, tail.len() as int) =~= join_words(rest));
        assert forall|k: int| 0 <= k < rest.len() implies plain_word(#[trigger] rest[k]) && rest[k].len() > 0 by {
            assert(rest[k] == t[k + 1]);
        }
        lemma_tokenize_joined(b, j + 1, rest, out.push(w));
        assert(out.push(w) + rest =~= out + t);
    }
}

/// Inside quotes every character but a quote or a backslash joins the
/// current token, separators included.
proof fn lemma_tokenize_quoted(b: Seq<char>, i: int, w: Seq<char>, out: Seq<Seq<char>>, cur: Seq<char>)
    requires
        0 <= i,
        i + w.len() <= b.len(),
        b.subrange(i, i + w.len()) == w,
        forall|k: int| 0 <= k < w.len() ==> #[trigger] w[k] != '"' && w[k] != '\\',
    ensures
        tokenize_from(b, i, out, cur, true) == tokenize_from(b, i + w.len(), out, cur + w, true),
    decreases w.len(),
{
    if w.len() == 0 {
        assert(cur + w =~= cur);
    } else {
        assert(b[i] == w[0]);
        let w1 = w.skip(1);
        assert(b.subrange(i + 1, i + 1 + w1.len()) =~= w1);
        assert forall|k: int| 0 <= k < w1.len() implies #[trigger] w1[k] != '"' && w1[k] != '\\' by {
            assert(w1[k] == w[k + 1]);
        }
        lemma_tokenize_quoted(b, i + 1, w1, out, cur.push(w[0]));
        assert(cur.push(w[0]) + w1 =~= cur + w);
    }
}

/// A double quote only toggles quoting and never ends a token: a plain
/// word followed by a quoted part (which may hold spaces, tabs and
/// newlines, but no quote or backslash) is one token, the word joined to
/// the quoted text without the quotes.
pub proof fn lemma_quotes_join_token(p: Seq<char>, q: Seq<char>)
    requires
        plain_word(p),
        forall|k: int| 0 <= k < q.len() ==> #[trigger] q[k] != '"' && q[k] != '\\',
        p.len() + q.len() > 0,
    ensures
        spec_tokenize(p + seq!['"'] + q + seq!['"']) == seq![p + q],
{
    let b = p + seq!['"'] + q + seq!['"'];
    let i1 = p.len() as int;
    let i2 = i1 + 1 + q.len();
    assert(b.subrange(0, i1) =~= p);
    lemma_tokenize_plain(b, 0, p, seq![], seq![]);
    assert(Seq::<char>::empty() + p =~= p);
    assert(b[i1] == '"');
    assert(tokenize_from(b, i1, seq![], p, false) == tokenize_from(b, i1 + 1, seq![], p, true));
    assert(b.subrange(i1 + 1, i2) =~= q);
    lemma_tokenize_quoted(b, i1 + 1, q, seq![], p);
    assert(b[i2] == '"');
    assert(tokenize_from(b, i2, seq![], p + q, true) == tokenize_from(b, i2 + 1, seq![], p + q, false));
    assert(i2 + 1 == b.len());
    assert(Seq::<Seq<char>>::empty().push(p + q) =~= seq![p + q]);
}

/// Splitting a command line gives back its argv: plain, non-empty words
/// joined with single spaces tokenize to exactly those words.
pub proof fn lemma_tokenize_join(t: Seq<Seq<char>>)
    requires
        forall|k: int| 0 <= k < t.len() ==> plain_word(#[trigger] t[k]) && t[k].len() > 0,
    ensures
        spec_tokenize(join_words(t)) == t,
{
    let b = join_words(t);
    assert(b.subrange(0, b.len() as int) =~= b);
    lemma_tokenize_joined(b, 0, t, seq![]);
    assert(Seq::<Seq<char>>::empty() + t =~= t);
}

// ---------------------------------------------------------------------------
// ShellSource
// ---------------------------------------------------------------------------

/// ShellSource streams from a custom ffmpeg command line.
pub struct ShellSource {
    pub binary: String,
    pub args: Vec<String>,
    pub track: Track,
}

/// The tracks of a shell source: its mask, or audio when the mask is empty.
pub open spec fn shell_tracks(t: Track) -> Track {
    if t.0 == 0 { spec_track_audio() } else { t }
}

/// The binary to run: the given one, or `ffmpeg` when empty.
pub open spec fn program_or_ffmpeg(bin: Seq<char>) -> Seq<char> {
    if bin.len() == 0 { "ffmpeg"@ } else { bin }
}

fn program_of(bin: &String) -> (out: String)
    ensures
        out@ == program_or_ffmpeg(bin@),
{
    if bin.as_str().is_empty() {
        String::from_str("ffmpeg")
    } else {
        bin.clone()
    }
}

/// What the completed arguments of a command line are, or the error that rejects it.
pub open spec fn spec_shell_source(cmd: Seq<char>, track: Track) -> Result<(Seq<char>, Seq<Seq<char>>), Seq<char>> {
    let t = spec_tokenize(cmd);
    if t.len() == 0 {
        Err("empty command"@)
    } else {
        match spec_validate_output_codec(t.skip(1), track) {
            Err(m) => Err(m),
            Ok(_) => Ok((t[0], spec_ensure_ffmpeg_flags(t.skip(1), track))),
        }
    }
}

impl ShellSource {
    /// The tracks this source provides (audio when the mask is empty).
    pub fn tracks(&self) -> (out: Track)
        ensures
            out == shell_tracks(self.track),
    {
        if self.track.0 == 0 {
            Track::audio()
        } else {
            self.track
        }
    }

    /// The binary to spawn: the configured one, or `ffmpeg` when empty.
    pub fn program(&self) -> (out: String)
        ensures
            out@ == program_or_ffmpeg(self.binary@),
    {
        program_of(&self.binary)
    }

    /// The arguments to start at `offset_ms`: the stored ones at offset
    /// zero, otherwise with the seek injected.
    pub fn args_at(&self, offset_ms: u64) -> (out: Vec<String>)
        ensures
            offset_ms == 0 ==> views(out@) == views(self.args@),
            offset_ms != 0 ==> views(out@) == spec_inject_seek(views(self.args@), seconds_text(offset_ms as nat)),
    {
        if offset_ms == 0 {
            clone_strings(self.args.as_slice())
        } else {
            inject_seek(self.args.as_slice(), offset_ms)
        }
    }

    /// Which stream the process output feeds: audio when the tracks have
    /// audio, else video when they have video.
    pub fn output_kind(&self) -> (out: Option<StreamType>)
        ensures
            track_has(shell_tracks(self.track), spec_track_audio()) ==> out == Some(StreamType::Audio),
            !track_has(shell_tracks(self.track), spec_track_audio()) && track_has(shell_tracks(self.track), spec_track_video())
                ==> out == Some(StreamType::Video),
            !track_has(shell_tracks(self.track), spec_track_audio()) && !track_has(shell_tracks(self.track), spec_track_video())
                ==> out is None,
    {
        let t = self.tracks();
        if t.has(Track::audio()) {
            Some(StreamType::Audio)
        } else if t.has(Track::video()) {
            Some(StreamType::Video)
        } else {
            None
        }
    }

    /// Parses a command line into a shell source: the first token is the
    /// binary, the rest are checked for raw PCM output and completed with
    /// the ffmpeg flags the track needs.
    pub fn from_cmdline(cmdline: &str, track: Track) -> (out: Result<ShellSource, RustTgCallsError>)
        ensures
            match spec_shell_source(cmdline@, track) {
                Ok((bin, args)) => out matches Ok(src) && src.binary@ == bin
                    && views(src.args@) == args && src.track == track,
                Err(m) => (spec_tokenize(cmdline@).len() == 0 ==> (out matches Err(RustTgCallsError::FFmpegSpawn(s)) && s@ == m))
                    && (spec_tokenize(cmdline@).len() > 0 ==> (out matches Err(RustTgCallsError::InvalidParams(s)) && s@ == m)),
            },
    {
        let tokens = tokenize_shell(cmdline);
        if tokens.len() == 0 {
            return Err(RustTgCallsError::FFmpegSpawn(String::from_str("empty command")));
        }
        let mut rest: Vec<String> = Vec::new();
        extend_range(&mut rest, tokens.as_slice(), 1, tokens.len());
        proof {
            let t = views(tokens@);
            assert(t.subrange(1, t.len() as int) =~= t.skip(1));
            assert(views(rest@) =~= t.skip(1));
        }
        match validate_output_codec(rest.as_slice(), track) {
            Err(e) => return Err(e),
            Ok(()) => {},
        }
        let binary = tokens[0].clone();
        let args = ensure_ffmpeg_flags(rest.as_slice(), track);
        Ok(ShellSource { binary, args, track })
    }
}

// ---------------------------------------------------------------------------
// MultiShellSource
// ---------------------------------------------------------------------------

/// MultiShellSource runs two separate ffmpeg commands, one per track.
pub struct MultiShellSource {
    pub audio_bin: String,
    pub video_bin: String,
    pub audio_args: Vec<String>,
    pub video_args: Vec<String>,
    pub parallel: bool,
}

/// The one-command half of a pair of command lines: no arguments when the
/// command is empty or has no tokens, otherwise the validated and completed ones.
pub open spec fn spec_leg(cmd: Seq<char>, track: Track) -> Result<(Seq<char>, Seq<Seq<char>>), Seq<char>> {
    let t = spec_tokenize(cmd);
    if t.len() == 0 {
        Ok((seq![], seq![]))
    } else {
        match spec_validate_output_codec(t.skip(1), track) {
            Err(m) => Err(m),
            Ok(_) => Ok((t[0], spec_ensure_ffmpeg_flags(t.skip(1), track))),
        }
    }
}

fn leg_from(cmd: &str, track: Track) -> (out: Result<(String, Vec<String>), RustTgCallsError>)
    ensures
        match spec_leg(cmd@, track) {
            Ok((bin, args)) => out matches Ok((b, v)) && b@ == bin && views(v@) == args,
            Err(m) => out matches Err(RustTgCallsError::InvalidParams(s)) && s@ == m,
        },
{
    if cmd.is_empty() {
        proof {
            assert(cmd@ =~= Seq::<char>::empty());
        }
        return Ok((String::new(), Vec::new()));
    }
    let tokens = tokenize_shell(cmd);
    if tokens.len() == 0 {
        return Ok((String::new(), Vec::new()));
    }
    let mut rest: Vec<String> = Vec::new();
    extend_range(&mut rest, tokens.as_slice(), 1, tokens.len());
    proof {
        let t = views(tokens@);
        assert(t.subrange(1, t.len() as int) =~= t.skip(1));
    }
    match validate_output_codec(rest.as_slice(), track) {
        Err(e) => return Err(e),
        Ok(()) => {},
    }
    let binary = tokens[0].clone();
    let args = ensure_ffmpeg_flags(rest.as_slice(), track);
    Ok((binary, args))
}

impl MultiShellSource {
    /// Opts into starting both ffmpeg legs concurrently.
    pub fn with_parallel_spawn(self) -> (out: MultiShellSource)
        ensures
            out.parallel,
            out.audio_bin == self.audio_bin,
            out.video_bin == self.video_bin,
            out.audio_args == self.audio_args,
            out.video_args == self.video_args,
    {
        let mut s = self;
        s.parallel = true;
        s
    }

    /// The tracks present: audio when there are audio arguments, video when
    /// there are video arguments.
    pub fn tracks(&self) -> (out: Track)
        ensures
            out.0 == crate::media::source::present_tracks(self.audio_args@.len() > 0, self.video_args@.len() > 0),
    {
        let mut t: u8 = 0;
        if self.audio_args.len() > 0 {
            t = t | TRACK_AUDIO_BIT;
        }
        if self.video_args.len() > 0 {
            t = t | TRACK_VIDEO_BIT;
        }
        assert((0u8 | 1u8) == 1u8 && (1u8 | 2u8) == 3u8 && (0u8 | 2u8) == 2u8) by (bit_vector);
        Track(t)
    }

    /// The audio binary to spawn (`ffmpeg` when empty).
    pub fn audio_program(&self) -> (out: String)
        ensures
            out@ == program_or_ffmpeg(self.audio_bin@),
    {
        program_of(&self.audio_bin)
    }

    /// The video binary to spawn (`ffmpeg` when empty).
    pub fn video_program(&self) -> (out: String)
        ensures
            out@ == program_or_ffmpeg(self.video_bin@),
    {
        program_of(&self.video_bin)
    }

    /// The audio and video arguments to start at `offset_ms`; a leg without
    /// arguments stays without, the others get the seek injected.
    pub fn args_at(&self, offset_ms: u64) -> (out: (Vec<String>, Vec<String>))
        ensures
            offset_ms == 0 ==> views(out.0@) == views(self.audio_args@) && views(out.1@) == views(self.video_args@),
            offset_ms != 0 ==> (self.audio_args@.len() == 0 ==> out.0@.len() == 0)
                && (self.audio_args@.len() > 0 ==> views(out.0@) == spec_inject_seek(views(self.audio_args@), seconds_text(offset_ms as nat)))
                && (self.video_args@.len() == 0 ==> out.1@.len() == 0)
                && (self.video_args@.len() > 0 ==> views(out.1@) == spec_inject_seek(views(self.video_args@), seconds_text(offset_ms as nat))),
    {
        if offset_ms == 0 {
            (clone_strings(self.audio_args.as_slice()), clone_strings(self.video_args.as_slice()))
        } else {
            let audio = if self.audio_args.len() > 0 {
                inject_seek(self.audio_args.as_slice(), offset_ms)
            } else {
                Vec::new()
            };
            let video = if self.video_args.len() > 0 {
                inject_seek(self.video_args.as_slice(), offset_ms)
            } else {
                Vec::new()
            };
            (audio, video)
        }
    }

    /// Parses an audio and a video command line; an empty command leaves
    /// its leg out.
    pub fn from_cmdlines(audio_cmd: &str, video_cmd: &str) -> (out: Result<MultiShellSource, RustTgCallsError>)
        ensures
            match (spec_leg(audio_cmd@, spec_track_audio()), spec_leg(video_cmd@, spec_track_video())) {
                (Err(m), _) => out matches Err(RustTgCallsError::InvalidParams(s)) && s@ == m,
                (Ok(_), Err(m)) => out matches Err(RustTgCallsError::InvalidParams(s)) && s@ == m,
                (Ok((ab, aa)), Ok((vb, va))) => out matches Ok(src) && src.audio_bin@ == ab
                    && views(src.audio_args@) == aa && src.video_bin@ == vb
                    && views(src.video_args@) == va && !src.parallel,
            },
    {
        let (audio_bin, audio_args) = match leg_from(audio_cmd, Track::audio()) {
            Ok(leg) => leg,
            Err(e) => return Err(e),
        };
        let (video_bin, video_args) = match leg_from(video_cmd, Track::video()) {
            Ok(leg) => leg,
            Err(e) => return Err(e),
        };
        Ok(MultiShellSource { audio_bin, video_bin, audio_args, video_args, parallel: false })
    }
}

} // verus!
