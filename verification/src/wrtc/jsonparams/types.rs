//! The fields of the signalling envelope.

use vstd::prelude::*;

verus! {

/// What we send to Telegram when joining a group call. `ssrc` is the audio
/// SSRC only; `ssrc_groups` is empty unless there is a video SSRC.
#[derive(Debug, Clone)]
pub struct LocalParams {
    pub ufrag: String,
    pub pwd: String,
    pub fingerprints: Vec<Fingerprint>,
    pub ssrc_groups: Vec<SSRCGroup>,
    pub payload_types: Vec<PayloadType>,
    pub rtp_hdrexts: Vec<RTPHdrExt>,
    pub ssrc: u32,
}

/// What Telegram answers.
#[derive(Debug, Clone)]
pub struct RemoteParams {
    pub transport: Transport,
}

/// The remote ICE/DTLS transport description.
#[derive(Debug, Clone)]
pub struct Transport {
    pub ufrag: String,
    pub pwd: String,
    pub fingerprints: Vec<Fingerprint>,
    pub candidates: Vec<Candidate>,
}

/// A DTLS certificate fingerprint.
#[derive(Debug, Clone)]
pub struct Fingerprint {
    pub hash: String,
    pub setup: String,
    pub fingerprint: String,
}

/// A group of SSRCs with its semantics (`FID`, `SIM`).
#[derive(Debug, Clone)]
pub struct SSRCGroup {
    pub semantics: String,
    pub sources: Vec<u32>,
}

/// A codec announcement. `parameters` lists the codec's `key=value`
/// settings in announcement order, each key once.
#[derive(Debug, Clone)]
pub struct PayloadType {
    pub id: u8,
    pub name: String,
    pub clockrate: u32,
    pub channels: u16,
    pub parameters: Option<Vec<(String, String)>>,
    pub rtcp_fbs: Vec<RTCPFb>,
}

/// Whether a channel count is zero; a zero count is left out of the JSON.
pub fn is_zero_u16(v: &u16) -> (out: bool)
    ensures
        out == (*v == 0),
{
    *v == 0
}

/// An RTCP feedback mechanism of a codec.
#[derive(Debug, Clone)]
pub struct RTCPFb {
    pub feedback_type: String,
    pub subtype: String,
}

/// An RTP header extension and its id.
#[derive(Debug, Clone)]
pub struct RTPHdrExt {
    pub id: u8,
    pub uri: String,
}

/// An ICE candidate as Telegram sends it; every field is a string, as in
/// Telegram's quoted-numeric serialization.
#[derive(Debug, Clone)]
pub struct Candidate {
    pub generation: String,
    pub component: String,
    pub protocol: String,
    pub port: String,
    pub ip: String,
    pub foundation: String,
    pub id: String,
    pub priority: String,
    pub candidate_type: String,
    pub network: String,
    pub rel_addr: String,
    pub rel_port: String,
    pub tcp_type: String,
}

} // verus!
