//! The local half of the signalling exchange: the parameters we send when
//! joining a group call, with the codecs and header extensions Telegram's
//! SFU expects.

use vstd::prelude::*;
use crate::models::errors::RustTgCallsError;
use crate::models::media_description::{DEFAULT_CHANNEL_COUNT, OPUS_PAYLOAD_TYPE, OPUS_SAMPLE_RATE, VP8_PAYLOAD_TYPE};
use crate::wrtc::jsonparams::types::{Fingerprint, LocalParams, PayloadType, RTCPFb, RTPHdrExt, SSRCGroup};

verus! {

pub const EXT_AUDIO_LEVEL_ID: u8 = 1;
pub const EXT_ABS_SEND_TIME_ID: u8 = 2;
pub const EXT_TRANSPORT_CC_ID: u8 = 3;
pub const EXT_SDES_MID_ID: u8 = 4;
pub const EXT_VIDEO_ORIENTATION_ID: u8 = 5;

pub const URI_AUDIO_LEVEL: &'static str = "urn:ietf:params:rtp-hdrext:ssrc-audio-level";
pub const URI_ABS_SEND_TIME: &'static str = "http://www.webrtc.org/experiments/rtp-hdrext/abs-send-time";
pub const URI_TRANSPORT_CC: &'static str = "http://www.ietf.org/id/draft-holmer-rmcat-transport-wide-cc-extensions-01";
pub const URI_SDES_MID: &'static str = "urn:ietf:params:rtp-hdrext:sdes:mid";
pub const URI_VIDEO_ORIENTATION: &'static str = "urn:3gpp:video-orientation";

/// The `key=value` settings as pairs of character sequences.
pub open spec fn pair_views(v: Seq<(String, String)>) -> Seq<(Seq<char>, Seq<char>)> {
    v.map_values(|p: (String, String)| (p.0@, p.1@))
}

/// The feedback mechanisms as (type, subtype) pairs.
pub open spec fn fb_views(v: Seq<RTCPFb>) -> Seq<(Seq<char>, Seq<char>)> {
    v.map_values(|f: RTCPFb| (f.feedback_type@, f.subtype@))
}

/// The header extensions as (id, uri) pairs.
pub open spec fn ext_views(v: Seq<RTPHdrExt>) -> Seq<(u8, Seq<char>)> {
    v.map_values(|e: RTPHdrExt| (e.id, e.uri@))
}

/// The Opus settings we announce, in order.
pub open spec fn opus_settings() -> Seq<(Seq<char>, Seq<char>)> {
    seq![
        ("minptime"@, "10"@),
        ("useinbandfec"@, "1"@),
        ("stereo"@, "1"@),
        ("sprop-stereo"@, "1"@),
        ("maxaveragebitrate"@, "510000"@),
    ]
}

/// The Opus announcement: payload type 111, 48 kHz, two channels, with
/// transport-wide congestion control feedback.
pub open spec fn is_opus_announcement(p: PayloadType) -> bool {
    &&& p.id == OPUS_PAYLOAD_TYPE
    &&& p.name@ == "opus"@
    &&& p.clockrate == OPUS_SAMPLE_RATE
    &&& p.channels == DEFAULT_CHANNEL_COUNT
    &&& p.parameters matches Some(ps) && pair_views(ps@) == opus_settings()
    &&& fb_views(p.rtcp_fbs@) == seq![("transport-cc"@, ""@)]
}

/// The VP8 feedback mechanisms: REMB, transport-cc, FIR, NACK and PLI.
pub open spec fn vp8_feedback() -> Seq<(Seq<char>, Seq<char>)> {
    seq![
        ("goog-remb"@, ""@),
        ("transport-cc"@, ""@),
        ("ccm"@, "fir"@),
        ("nack"@, ""@),
        ("nack"@, "pli"@),
    ]
}

/// The VP8 announcement: payload type 100, 90 kHz, no channel count and
/// no settings.
pub open spec fn is_vp8_announcement(p: PayloadType) -> bool {
    &&& p.id == VP8_PAYLOAD_TYPE
    &&& p.name@ == "VP8"@
    &&& p.clockrate == 90000
    &&& p.channels == 0
    &&& p.parameters is None
    &&& fb_views(p.rtcp_fbs@) == vp8_feedback()
}

/// The header extensions we announce, with their ids.
pub open spec fn header_extensions() -> Seq<(u8, Seq<char>)> {
    seq![
        (EXT_AUDIO_LEVEL_ID, URI_AUDIO_LEVEL@),
        (EXT_ABS_SEND_TIME_ID, URI_ABS_SEND_TIME@),
        (EXT_TRANSPORT_CC_ID, URI_TRANSPORT_CC@),
        (EXT_SDES_MID_ID, URI_SDES_MID@),
        (EXT_VIDEO_ORIENTATION_ID, URI_VIDEO_ORIENTATION@),
    ]
}

/// The SSRC groups we announce: a FID group of the video SSRC and its
/// retransmission SSRC (the next one, wrapping) when there is video.
pub open spec fn ssrc_groups_for(groups: Seq<SSRCGroup>, video_ssrc: u32) -> bool {
    if video_ssrc != 0 {
        &&& groups.len() == 1
        &&& groups[0].semantics@ == "FID"@
        &&& groups[0].sources@ == seq![video_ssrc, ((video_ssrc + 1) % 0x1_0000_0000) as u32]
    } else {
        groups.len() == 0
    }
}

/// The local parameters of a join: our ICE credentials, the audio SSRC,
/// our SHA-256 certificate fingerprint as the passive DTLS side, the Opus
/// and VP8 announcements, the header extensions and the SSRC groups.
pub open spec fn is_local_params(lp: LocalParams, ufrag: Seq<char>, pwd: Seq<char>, fingerprint: Seq<char>, audio_ssrc: u32, video_ssrc: u32) -> bool {
    &&& lp.ufrag@ == ufrag
    &&& lp.pwd@ == pwd
    &&& lp.ssrc == audio_ssrc
    &&& lp.fingerprints@.len() == 1
    &&& lp.fingerprints@[0].hash@ == "sha-256"@
    &&& lp.fingerprints@[0].setup@ == "passive"@
    &&& lp.fingerprints@[0].fingerprint@ == fingerprint
    &&& lp.payload_types@.len() == 2
    &&& is_opus_announcement(lp.payload_types@[0])
    &&& is_vp8_announcement(lp.payload_types@[1])
    &&& ext_views(lp.rtp_hdrexts@) == header_extensions()
    &&& ssrc_groups_for(lp.ssrc_groups@, video_ssrc)
}

fn setting(k: &str, v: &str) -> (out: (String, String))
    ensures
        out.0@ == k@,
        out.1@ == v@,
{
    (String::from_str(k), String::from_str(v))
}

fn feedback(t: &str, sub: &str) -> (out: RTCPFb)
    ensures
        out.feedback_type@ == t@,
        out.subtype@ == sub@,
{
    RTCPFb { feedback_type: String::from_str(t), subtype: String::from_str(sub) }
}

fn opus_announcement() -> (out: PayloadType)
    ensures
        is_opus_announcement(out),
{
    let mut ps: Vec<(String, String)> = Vec::new();
    ps.push(setting("minptime", "10"));
    ps.push(setting("useinbandfec", "1"));
    ps.push(setting("stereo", "1"));
    ps.push(setting("sprop-stereo", "1"));
    ps.push(setting("maxaveragebitrate", "510000"));
    assert(pair_views(ps@) =~= opus_settings());
    let mut fbs: Vec<RTCPFb> = Vec::new();
    fbs.push(feedback("transport-cc", ""));
    assert(fb_views(fbs@) =~= seq![("transport-cc"@, ""@)]);
    PayloadType {
        id: OPUS_PAYLOAD_TYPE,
        name: String::from_str("opus"),
        clockrate: OPUS_SAMPLE_RATE,
        channels: DEFAULT_CHANNEL_COUNT,
        parameters: Some(ps),
        rtcp_fbs: fbs,
    }
}

fn vp8_announcement() -> (out: PayloadType)
    ensures
        is_vp8_announcement(out),
{
    let mut fbs: Vec<RTCPFb> = Vec::new();
    fbs.push(feedback("goog-remb", ""));
    fbs.push(feedback("transport-cc", ""));
    fbs.push(feedback("ccm", "fir"));
    fbs.push(feedback("nack", ""));
    fbs.push(feedback("nack", "pli"));
    assert(fb_views(fbs@) =~= vp8_feedback());
    PayloadType {
        id: VP8_PAYLOAD_TYPE,
        name: String::from_str("VP8"),
        clockrate: 90000,
        channels: 0,
        parameters: None,
        rtcp_fbs: fbs,
    }
}

fn extension(id: u8, uri: &str) -> (out: RTPHdrExt)
    ensures
        out.id == id,
        out.uri@ == uri@,
{
    RTPHdrExt { id, uri: String::from_str(uri) }
}

fn header_extension_list() -> (out: Vec<RTPHdrExt>)
    ensures
        ext_views(out@) == header_extensions(),
{
    let mut v: Vec<RTPHdrExt> = Vec::new();
    v.push(extension(EXT_AUDIO_LEVEL_ID, URI_AUDIO_LEVEL));
    v.push(extension(EXT_ABS_SEND_TIME_ID, URI_ABS_SEND_TIME));
    v.push(extension(EXT_TRANSPORT_CC_ID, URI_TRANSPORT_CC));
    v.push(extension(EXT_SDES_MID_ID, URI_SDES_MID));
    v.push(extension(EXT_VIDEO_ORIENTATION_ID, URI_VIDEO_ORIENTATION));
    assert(ext_views(v@) =~= header_extensions());
    v
}

fn ssrc_group_list(video_ssrc: u32) -> (out: Vec<SSRCGroup>)
    ensures
        ssrc_groups_for(out@, video_ssrc),
{
    let mut groups: Vec<SSRCGroup> = Vec::new();
    if video_ssrc != 0 {
        let mut sources: Vec<u32> = Vec::new();
        sources.push(video_ssrc);
        sources.push(video_ssrc.wrapping_add(1));
        groups.push(SSRCGroup { semantics: String::from_str("FID"), sources });
        assert(groups@[0].sources@ =~= seq![video_ssrc, ((video_ssrc + 1) % 0x1_0000_0000) as u32]);
    }
    groups
}

/// What building the local parameters gives: empty ICE credentials or
/// fingerprint, then a zero audio SSRC, are refused; otherwise the
/// parameters of `is_local_params`.
pub open spec fn local_params_result(
    ufrag: Seq<char>,
    pwd: Seq<char>,
    fingerprint: Seq<char>,
    audio_ssrc: u32,
    video_ssrc: u32,
    out: Result<LocalParams, RustTgCallsError>,
) -> bool {
    if ufrag.len() == 0 || pwd.len() == 0 || fingerprint.len() == 0 {
        out matches Err(RustTgCallsError::InvalidParams(m)) && m@ == "empty ufrag, pwd, or fingerprint"@
    } else if audio_ssrc == 0 {
        out matches Err(RustTgCallsError::InvalidParams(m)) && m@ == "audio_ssrc cannot be zero"@
    } else {
        out matches Ok(lp) && is_local_params(lp, ufrag, pwd, fingerprint, audio_ssrc, video_ssrc)
    }
}

/// The parameters we send when joining a group call. Empty ICE credentials
/// or fingerprint, and a zero audio SSRC, are refused; a zero video SSRC
/// means there is no video.
pub fn build_local_params(
    ufrag: &str,
    pwd: &str,
    fingerprint_sha256: &str,
    audio_ssrc: u32,
    video_ssrc: u32,
) -> (out: Result<LocalParams, RustTgCallsError>)
    ensures
        local_params_result(ufrag@, pwd@, fingerprint_sha256@, audio_ssrc, video_ssrc, out),
{
    if ufrag.is_empty() || pwd.is_empty() || fingerprint_sha256.is_empty() {
        return Err(RustTgCallsError::InvalidParams(String::from_str("empty ufrag, pwd, or fingerprint")));
    }
    if audio_ssrc == 0 {
        return Err(RustTgCallsError::InvalidParams(String::from_str("audio_ssrc cannot be zero")));
    }
    let mut fingerprints: Vec<Fingerprint> = Vec::new();
    fingerprints.push(Fingerprint {
        hash: String::from_str("sha-256"),
        setup: String::from_str("passive"),
        fingerprint: String::from_str(fingerprint_sha256),
    });
    let mut payload_types: Vec<PayloadType> = Vec::new();
    payload_types.push(opus_announcement());
    payload_types.push(vp8_announcement());
    Ok(LocalParams {
        ufrag: String::from_str(ufrag),
        pwd: String::from_str(pwd),
        fingerprints,
        ssrc_groups: ssrc_group_list(video_ssrc),
        payload_types,
        rtp_hdrexts: header_extension_list(),
        ssrc: audio_ssrc,
    })
}

} // verus!
