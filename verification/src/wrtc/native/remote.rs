//! Telegram's answer as the native transport consumes it, and the
//! rendering of its ICE candidates as SDP candidate lines.

use vstd::prelude::*;
use crate::models::errors::RustTgCallsError;
use crate::utils::text::push_str;
use crate::wrtc::jsonparams::decode::{parse_remote, remote_accepted, remote_rejection};
use crate::wrtc::jsonparams::types::{Candidate, Fingerprint};

verus! {

/// The parts of Telegram's JoinGroupCall answer the native transport uses:
/// the remote ICE credentials, DTLS fingerprints and candidates. The codec
/// and header-extension lists of the answer are not used, since the
/// payload types and extensions Telegram's SFU expects are fixed.
#[derive(Debug, Clone)]
pub struct RemoteParams {
    pub ufrag: String,
    pub pwd: String,
    pub fingerprints: Vec<Fingerprint>,
    pub candidates: Vec<Candidate>,
}

/// Checks Telegram's decoded answer, as `parse_remote` does, and keeps the
/// transport part of it.
pub fn parse_remote_json(
    stream_mode: bool,
    decoded: Result<crate::wrtc::jsonparams::types::RemoteParams, String>,
) -> (out: Result<RemoteParams, RustTgCallsError>)
    ensures
        out is Ok <==> remote_accepted(stream_mode, decoded),
        out matches Ok(p) ==> (decoded matches Ok(rp) && p.ufrag == rp.transport.ufrag
            && p.pwd == rp.transport.pwd && p.fingerprints == rp.transport.fingerprints
            && p.candidates == rp.transport.candidates),
        out matches Err(e) ==> remote_rejection(stream_mode, decoded, e),
{
    let rp = match parse_remote(stream_mode, decoded) {
        Ok(rp) => rp,
        Err(e) => return Err(e),
    };
    let t = rp.transport;
    Ok(RemoteParams { ufrag: t.ufrag, pwd: t.pwd, fingerprints: t.fingerprints, candidates: t.candidates })
}

/// `s`, or `d` where `s` is empty.
pub open spec fn or_default(s: Seq<char>, d: Seq<char>) -> Seq<char> {
    if s.len() == 0 { d } else { s }
}

/// `text` where `cond` holds, else nothing.
pub open spec fn when(cond: bool, text: Seq<char>) -> Seq<char> {
    if cond { text } else { Seq::empty() }
}

/// The SDP candidate line of a Telegram candidate:
/// `foundation component protocol priority ip port typ type`, with
/// foundation, component, protocol, priority and type defaulting to
/// `1`, `1`, `UDP`, `2130706431` and `host`; then ` raddr .. rport ..`
/// when both related address and port are given, ` generation ..` and
/// ` tcptype ..` when given.
pub open spec fn candidate_line(c: Candidate) -> Seq<char> {
    or_default(c.foundation@, "1"@) + " "@ + or_default(c.component@, "1"@) + " "@
        + or_default(c.protocol@, "UDP"@) + " "@ + or_default(c.priority@, "2130706431"@) + " "@
        + c.ip@ + " "@ + c.port@ + " typ "@ + or_default(c.candidate_type@, "host"@)
        + when(c.rel_addr@.len() > 0 && c.rel_port@.len() > 0,
            " raddr "@ + c.rel_addr@ + " rport "@ + c.rel_port@)
        + when(c.generation@.len() > 0, " generation "@ + c.generation@)
        + when(c.tcp_type@.len() > 0, " tcptype "@ + c.tcp_type@)
}

fn pick<'a>(s: &'a str, d: &'a str) -> (out: &'a str)
    ensures
        out@ == or_default(s@, d@),
{
    if s.is_empty() { d } else { s }
}

/// Renders one of Telegram's candidates as an SDP candidate line.
/// A candidate without an IP or a port is refused.
pub fn build_ice_candidate(c: &Candidate) -> (out: Result<String, RustTgCallsError>)
    ensures
        (c.ip@.len() == 0 || c.port@.len() == 0) ==> (out matches Err(RustTgCallsError::InvalidParams(m))
            && m@ == "candidate missing ip/port"@),
        (c.ip@.len() > 0 && c.port@.len() > 0) ==> (out matches Ok(s) && s@ == candidate_line(*c)),
{
    if c.ip.as_str().is_empty() || c.port.as_str().is_empty() {
        return Err(RustTgCallsError::InvalidParams(String::from_str("candidate missing ip/port")));
    }
    let mut s = String::from_str(pick(c.foundation.as_str(), "1"));
    push_str(&mut s, " ");
    push_str(&mut s, pick(c.component.as_str(), "1"));
    push_str(&mut s, " ");
    push_str(&mut s, pick(c.protocol.as_str(), "UDP"));
    push_str(&mut s, " ");
    push_str(&mut s, pick(c.priority.as_str(), "2130706431"));
    push_str(&mut s, " ");
    push_str(&mut s, c.ip.as_str());
    push_str(&mut s, " ");
    push_str(&mut s, c.port.as_str());
    push_str(&mut s, " typ ");
    push_str(&mut s, pick(c.candidate_type.as_str(), "host"));
    let ghost head = s@;
    if !c.rel_addr.as_str().is_empty() && !c.rel_port.as_str().is_empty() {
        push_str(&mut s, " raddr ");
        push_str(&mut s, c.rel_addr.as_str());
        push_str(&mut s, " rport ");
        push_str(&mut s, c.rel_port.as_str());
    }
    let ghost with_rel = s@;
    if !c.generation.as_str().is_empty() {
        push_str(&mut s, " generation ");
        push_str(&mut s, c.generation.as_str());
    }
    let ghost with_gen = s@;
    if !c.tcp_type.as_str().is_empty() {
        push_str(&mut s, " tcptype ");
        push_str(&mut s, c.tcp_type.as_str());
    }
    proof {
        let rel = when(c.rel_addr@.len() > 0 && c.rel_port@.len() > 0,
            " raddr "@ + c.rel_addr@ + " rport "@ + c.rel_port@);
        let gen = when(c.generation@.len() > 0, " generation "@ + c.generation@);
        let tcp = when(c.tcp_type@.len() > 0, " tcptype "@ + c.tcp_type@);
        assert(with_rel =~= head + rel);
        assert(with_gen =~= head + rel + gen);
        assert(s@ =~= head + rel + gen + tcp);
    }
    Ok(s)
}

} // verus!
