//! The decisions of the direct ICE -> DTLS -> SRTP transport: how a
//! connection attempt is planned from Telegram's answer, which remote
//! candidate is dialled, how inbound datagrams are told apart, and the
//! per-track RTP state (sequence numbers, timestamps, markers, counters)
//! that every outgoing packet draws from.

use vstd::prelude::*;
use bytes::Bytes;
use rtc::rtcp::compound_packet::CompoundPacket;
use rtc::rtcp::sender_report::SenderReport;
use rtc::rtcp::source_description::{SdesType, SourceDescription, SourceDescriptionChunk, SourceDescriptionItem};
use rtc::rtp::codec::vp8::Vp8Payloader;
use rtc::rtp::header::Header as RtpHeader;
use rtc::rtp::packetizer::Payloader;
use rtc::rtp::packet::Packet as RtpPacket;
use rtc::shared::marshal::Marshal;
use crate::models::errors::RustTgCallsError;
use crate::models::media_description::{OPUS_PAYLOAD_TYPE, VP8_PAYLOAD_TYPE};
use crate::models::media_state::ConnState;
use crate::utils::random::random_u32_in;
use crate::utils::text::{push_str, str_chars, string_from_chars};
use crate::wrtc::jsonparams::types::LocalParams;
use crate::wrtc::native::signaling::{build_local_params, local_params_result};
use crate::wrtc::jsonparams::decode::{remote_accepted, remote_rejection};
use crate::wrtc::jsonparams::types::{Candidate, RemoteParams as Answer};
use crate::wrtc::native::remote::{parse_remote_json, RemoteParams};

verus! {

// ---------------------------------------------------------------------------
// Ports and protocols
// ---------------------------------------------------------------------------

/// Whether `c` is an ASCII decimal digit.
pub open spec fn is_digit(c: char) -> bool {
    48 <= (c as u32) <= 57
}

/// The value of an ASCII decimal digit.
pub open spec fn digit_val(c: char) -> nat {
    ((c as u32) - 48) as nat
}

/// Whether every character of `s` is a decimal digit.
pub open spec fn all_digits(s: Seq<char>) -> bool {
    forall|i: int| 0 <= i < s.len() ==> is_digit(#[trigger] s[i])
}

/// The value of a string of decimal digits, most significant first.
pub open spec fn digits_value(s: Seq<char>) -> nat
    decreases s.len(),
{
    if s.len() == 0 {
        0
    } else {
        digits_value(s.drop_last()) * 10 + digit_val(s.last())
    }
}

/// `s` without a leading `+`.
pub open spec fn unsigned_digits(s: Seq<char>) -> Seq<char> {
    if s.len() > 0 && s[0] == '+' { s.drop_first() } else { s }
}

/// What `u16::from_str` makes of `s`: an optional `+`, then one or more
/// decimal digits whose value is at most 65535.
pub open spec fn spec_parse_u16(s: Seq<char>) -> Option<u16> {
    let d = unsigned_digits(s);
    if d.len() > 0 && all_digits(d) && digits_value(d) <= 65535 {
        Some(digits_value(d) as u16)
    } else {
        None
    }
}

proof fn lemma_digits_prefix_le(d: Seq<char>, k: int)
    requires
        all_digits(d),
        0 <= k <= d.len(),
    ensures
        digits_value(d.take(k)) <= digits_value(d),
    decreases d.len(),
{
    if k < d.len() {
        let p = d.drop_last();
        assert forall|i: int| 0 <= i < p.len() implies is_digit(#[trigger] p[i]) by {
            assert(p[i] == d[i]);
        }
        assert(p.take(k) =~= d.take(k));
        lemma_digits_prefix_le(p, k);
    } else {
        assert(d.take(k) =~= d);
    }
}

/// Parses a port number as `u16::from_str` does.
pub fn parse_port(s: &str) -> (out: Option<u16>)
    ensures
        out == spec_parse_u16(s@),
{
    let cs = str_chars(s);
    let n = cs.len();
    let start: usize = if n > 0 && cs[0] == '+' { 1 } else { 0 };
    let ghost d = unsigned_digits(s@);
    assert(d =~= cs@.subrange(start as int, n as int));
    if start >= n {
        return None;
    }
    let mut val: u32 = 0;
    let mut j: usize = start;
    while j < n
        invariant
            start <= j <= n,
            n == cs@.len(),
            cs@ == s@,
            d == cs@.subrange(start as int, n as int),
            d == unsigned_digits(s@),
            val as nat == digits_value(d.take(j - start)),
            val <= 65535,
            all_digits(d.take(j - start)),
        decreases n - j,
    {
        let c = cs[j];
        let code = c as u32;
        if code < 48 || code > 57 {
            assert(d[j - start] == c);
            assert(!all_digits(d));
            return None;
        }
        let ghost k = j - start;
        proof {
            assert(d.take(k + 1).drop_last() =~= d.take(k));
            assert(d.take(k + 1).last() == c);
            assert forall|i: int| 0 <= i < d.take(k + 1).len() implies is_digit(#[trigger] d.take(k + 1)[i]) by {
                if i < k {
                    assert(d.take(k + 1)[i] == d.take(k)[i]);
                }
            }
        }
        val = val * 10 + (code - 48);
        if val > 65535 {
            proof {
                if all_digits(d) {
                    lemma_digits_prefix_le(d, k + 1);
                }
            }
            return None;
        }
        j = j + 1;
    }
    assert(d.take(n - start) =~= d);
    Some(val as u16)
}

/// Whether `s` equals `udp` ignoring ASCII case.
pub open spec fn is_udp(s: Seq<char>) -> bool {
    &&& s.len() == 3
    &&& (s[0] == 'u' || s[0] == 'U')
    &&& (s[1] == 'd' || s[1] == 'D')
    &&& (s[2] == 'p' || s[2] == 'P')
}

fn is_udp_exec(s: &str) -> (out: bool)
    ensures
        out == is_udp(s@),
{
    let cs = str_chars(s);
    cs.len() == 3 && (cs[0] == 'u' || cs[0] == 'U') && (cs[1] == 'd' || cs[1] == 'D')
        && (cs[2] == 'p' || cs[2] == 'P')
}

// ---------------------------------------------------------------------------
// Choosing the remote candidate
// ---------------------------------------------------------------------------

/// The address family of a candidate's IP as the caller parsed it:
/// IPv4, IPv6, or not an IP address.
#[derive(Debug, Clone, Copy, PartialEq, Eq, Structural)]
pub enum IpFamily {
    V4,
    V6,
    Invalid,
}

/// The family of candidate `i`; candidates without one count as invalid.
pub open spec fn family_at(fams: Seq<IpFamily>, i: int) -> IpFamily {
    if 0 <= i < fams.len() { fams[i] } else { IpFamily::Invalid }
}

/// Whether a candidate can be dialled: UDP, a valid IP, a non-zero port.
pub open spec fn candidate_usable(c: Candidate, f: IpFamily) -> bool {
    &&& is_udp(c.protocol@)
    &&& f != IpFamily::Invalid
    &&& spec_parse_u16(c.port@) matches Some(p) && p > 0
}

/// Whether candidate `i` can be dialled.
pub open spec fn usable_at(cands: Seq<Candidate>, fams: Seq<IpFamily>, i: int) -> bool {
    0 <= i < cands.len() && candidate_usable(cands[i], family_at(fams, i))
}

/// Whether candidate `i` can be dialled over IPv4.
pub open spec fn usable_v4_at(cands: Seq<Candidate>, fams: Seq<IpFamily>, i: int) -> bool {
    usable_at(cands, fams, i) && family_at(fams, i) == IpFamily::V4
}

/// Whether some candidate can be dialled over IPv4.
pub open spec fn some_usable_v4(cands: Seq<Candidate>, fams: Seq<IpFamily>) -> bool {
    exists|j: int| #[trigger] usable_v4_at(cands, fams, j)
}

/// Whether candidate `i` is the one to dial: the first usable IPv4
/// candidate if there is one, else the first usable candidate.
pub open spec fn is_selected(cands: Seq<Candidate>, fams: Seq<IpFamily>, i: int) -> bool {
    &&& usable_at(cands, fams, i)
    &&& some_usable_v4(cands, fams) ==> (family_at(fams, i) == IpFamily::V4
        && forall|j: int| 0 <= j < i ==> !#[trigger] usable_v4_at(cands, fams, j))
    &&& !some_usable_v4(cands, fams) ==> forall|j: int| 0 <= j < i ==> !#[trigger] usable_at(cands, fams, j)
}

/// Whether no candidate can be dialled.
pub open spec fn none_usable(cands: Seq<Candidate>, fams: Seq<IpFamily>) -> bool {
    forall|j: int| !#[trigger] usable_at(cands, fams, j)
}

/// The candidate to dial is determined: at most one candidate is selected.
pub proof fn lemma_selection_unique(cands: Seq<Candidate>, fams: Seq<IpFamily>, i: int, j: int)
    requires
        is_selected(cands, fams, i),
        is_selected(cands, fams, j),
    ensures
        i == j,
{
    if some_usable_v4(cands, fams) {
        if i < j {
            assert(usable_v4_at(cands, fams, i));
        } else if j < i {
            assert(usable_v4_at(cands, fams, j));
        }
    } else {
        if i < j {
            assert(usable_at(cands, fams, i));
        } else if j < i {
            assert(usable_at(cands, fams, j));
        }
    }
}

fn usable_port(c: &Candidate, f: IpFamily) -> (out: Option<u16>)
    ensures
        out is Some <==> candidate_usable(*c, f),
        out matches Some(p) ==> spec_parse_u16(c.port@) == Some(p),
{
    if !is_udp_exec(c.protocol.as_str()) || f == IpFamily::Invalid {
        return None;
    }
    match parse_port(c.port.as_str()) {
        Some(p) => if p > 0 { Some(p) } else { None },
        None => None,
    }
}

/// The candidate to dial and its port. `families[i]` is the family of the
/// IP of `candidates[i]`. IPv4 candidates are preferred; among equals the
/// first wins.
pub fn select_candidate(candidates: &Vec<Candidate>, families: &Vec<IpFamily>) -> (out: Option<(usize, u16)>)
    ensures
        out is None <==> none_usable(candidates@, families@),
        out matches Some((i, p)) ==> is_selected(candidates@, families@, i as int)
            && spec_parse_u16(candidates@[i as int].port@) == Some(p),
{
    let ghost cs = candidates@;
    let ghost fs = families@;
    let mut target: Option<(usize, u16)> = None;
    let mut k: usize = 0;
    while k < candidates.len()
        invariant
            k <= candidates.len(),
            cs == candidates@,
            fs == families@,
            forall|j: int| 0 <= j < k ==> !#[trigger] usable_v4_at(cs, fs, j),
            target is None <==> forall|j: int| 0 <= j < k ==> !#[trigger] usable_at(cs, fs, j),
            target matches Some((t, p)) ==> (t < k && usable_at(cs, fs, t as int)
                && spec_parse_u16(cs[t as int].port@) == Some(p)
                && forall|j: int| 0 <= j < t ==> !#[trigger] usable_at(cs, fs, j)),
        decreases candidates.len() - k,
    {
        let f = if k < families.len() { families[k] } else { IpFamily::Invalid };
        assert(f == family_at(fs, k as int));
        let port = usable_port(&candidates[k], f);
        assert(candidates@[k as int] == cs[k as int]);
        assert(port is Some <==> usable_at(cs, fs, k as int));
        match port {
            Some(p) => {
                if f == IpFamily::V4 {
                    assert(usable_v4_at(cs, fs, k as int));
                    return Some((k, p));
                }
                if target.is_none() {
                    target = Some((k, p));
                }
            },
            None => {},
        }
        k = k + 1;
    }
    proof {
        if some_usable_v4(cs, fs) {
            let j = choose|j: int| #[trigger] usable_v4_at(cs, fs, j);
            assert(usable_v4_at(cs, fs, j));
        }
        if target is None {
            assert forall|j: int| !#[trigger] usable_at(cs, fs, j) by {
                if 0 <= j < cs.len() {
                    assert(!usable_at(cs, fs, j));
                }
            }
        } else {
            let t = target->Some_0.0;
            assert(usable_at(cs, fs, t as int));
        }
    }
    target
}

// ---------------------------------------------------------------------------
// Planning a connection attempt
// ---------------------------------------------------------------------------

/// What a connection attempt needs once Telegram's answer has been checked:
/// the remote parameters, the candidate to dial (index and port) and the
/// STUN username `remote_ufrag:local_ufrag`.
pub struct ConnectPlan {
    pub remote: RemoteParams,
    pub candidate: usize,
    pub port: u16,
    pub stun_username: String,
}

/// What planning a connection attempt gives. A closed transport refuses;
/// then Telegram's answer is checked as `parse_remote_json` does; its first
/// fingerprint must not be empty; and some candidate must be usable. The
/// plan keeps the answer's transport, the selected candidate and its port,
/// and the STUN username `remote_ufrag:local_ufrag`.
pub open spec fn connect_planned(
    closed: bool,
    local_ufrag: Seq<char>,
    stream_mode: bool,
    decoded: Result<Answer, String>,
    families: Seq<IpFamily>,
    out: Result<ConnectPlan, RustTgCallsError>,
) -> bool {
    if closed {
        out matches Err(RustTgCallsError::Internal(m)) && m@ == "transport is closed"@
    } else if !remote_accepted(stream_mode, decoded) {
        out matches Err(e) && remote_rejection(stream_mode, decoded, e)
    } else {
        let t = decoded->Ok_0.transport;
        if t.fingerprints@[0].fingerprint@.len() == 0 {
            out matches Err(RustTgCallsError::InvalidParams(m)) && m@ == "empty remote DTLS fingerprint"@
        } else if none_usable(t.candidates@, families) {
            out matches Err(RustTgCallsError::InvalidParams(m)) && m@ == "no valid remote UDP candidate found"@
        } else {
            out matches Ok(plan) && plan.remote.ufrag == t.ufrag && plan.remote.pwd == t.pwd
                && plan.remote.fingerprints == t.fingerprints && plan.remote.candidates == t.candidates
                && is_selected(t.candidates@, families, plan.candidate as int)
                && spec_parse_u16(t.candidates@[plan.candidate as int].port@) == Some(plan.port)
                && plan.stun_username@ == t.ufrag@ + ":"@ + local_ufrag
        }
    }
}

/// Plans a connection attempt. `families[i]` is the family of the IP of
/// the `i`-th candidate of the answer.
pub fn plan_connect(
    closed: bool,
    local_ufrag: &str,
    stream_mode: bool,
    decoded: Result<Answer, String>,
    families: &Vec<IpFamily>,
) -> (out: Result<ConnectPlan, RustTgCallsError>)
    ensures
        connect_planned(closed, local_ufrag@, stream_mode, decoded, families@, out),
{
    if closed {
        return Err(RustTgCallsError::Internal(String::from_str("transport is closed")));
    }
    let remote = match parse_remote_json(stream_mode, decoded) {
        Ok(r) => r,
        Err(e) => return Err(e),
    };
    if remote.fingerprints.len() == 0 {
        return Err(RustTgCallsError::InvalidParams(String::from_str("remote transport missing DTLS fingerprint")));
    }
    if remote.fingerprints[0].fingerprint.as_str().is_empty() {
        return Err(RustTgCallsError::InvalidParams(String::from_str("empty remote DTLS fingerprint")));
    }
    let (candidate, port) = match select_candidate(&remote.candidates, families) {
        Some(x) => x,
        None => return Err(RustTgCallsError::InvalidParams(String::from_str("no valid remote UDP candidate found"))),
    };
    let mut stun_username = String::from_str(remote.ufrag.as_str());
    push_str(&mut stun_username, ":");
    push_str(&mut stun_username, local_ufrag);
    Ok(ConnectPlan { remote, candidate, port, stun_username })
}

// ---------------------------------------------------------------------------
// Telling inbound datagrams apart
// ---------------------------------------------------------------------------

/// What an inbound datagram on the transport's socket carries.
#[derive(Debug, Clone, Copy, PartialEq, Eq, Structural)]
pub enum DatagramKind {
    /// A STUN message: at least 20 bytes with the magic cookie at 4..8.
    Stun,
    /// A DTLS record: first byte 20 to 23.
    Dtls,
    /// SRTP or SRTCP: first byte 128 or more.
    Srtp,
    /// Anything else, and empty datagrams; ignored.
    Other,
}

/// The kind of a datagram, checked in that order: STUN, DTLS, SRTP.
pub open spec fn datagram_kind(d: Seq<u8>) -> DatagramKind {
    if d.len() == 0 {
        DatagramKind::Other
    } else if d.len() >= 20 && d[4] == 0x21 && d[5] == 0x12 && d[6] == 0xa4 && d[7] == 0x42 {
        DatagramKind::Stun
    } else if 20 <= d[0] <= 23 {
        DatagramKind::Dtls
    } else if d[0] >= 128 {
        DatagramKind::Srtp
    } else {
        DatagramKind::Other
    }
}

/// Tells what an inbound datagram carries.
pub fn classify_datagram(data: &[u8]) -> (out: DatagramKind)
    ensures
        out == datagram_kind(data@),
{
    let n = data.len();
    if n == 0 {
        return DatagramKind::Other;
    }
    if n >= 20 && data[4] == 0x21 && data[5] == 0x12 && data[6] == 0xa4 && data[7] == 0x42 {
        return DatagramKind::Stun;
    }
    if data[0] >= 20 && data[0] <= 23 {
        return DatagramKind::Dtls;
    }
    if data[0] >= 128 {
        return DatagramKind::Srtp;
    }
    DatagramKind::Other
}

// ---------------------------------------------------------------------------
// Inbound STUN and RTCP
// ---------------------------------------------------------------------------

/// What rtc's STUN decoder reads from a datagram: the message type (as
/// `MessageType::value` encodes it) and the transaction id; none when the
/// datagram is not a well-formed STUN message.
pub uninterp spec fn stun_header(data: Seq<u8>) -> Option<(u16, Seq<u8>)>;

/// Decodes a STUN message.
///
/// Wraps rtc's `Message::decode` on the datagram. The claim is that the
/// outcome depends on the bytes alone (decoding is a pure function of
/// them); what it reads is left to the name.
#[verifier::external_body]
fn decode_stun(data: &[u8]) -> (out: Option<(u16, [u8; 12])>)
    ensures
        match out {
            Some((t, id)) => stun_header(data@) == Some((t, id@)),
            None => stun_header(data@) is None,
        },
{
    let mut msg = rtc::stun::message::Message::new();
    msg.raw = data.to_vec();
    msg.decode().ok().map(|_| (msg.typ.value(), msg.transaction_id.0))
}

/// The message type of a STUN Binding request (method Binding, class request).
pub const STUN_BINDING_REQUEST_TYPE: u16 = 0x0001;

/// The transaction id of a STUN Binding request, which we answer; none
/// for any other datagram.
pub fn stun_binding_request(data: &[u8]) -> (out: Option<[u8; 12]>)
    ensures
        match stun_header(data@) {
            Some((t, id)) => if t == STUN_BINDING_REQUEST_TYPE { out matches Some(o) && o@ == id } else { out is None },
            None => out is None,
        },
{
    match decode_stun(data) {
        Some((t, id)) => if t == STUN_BINDING_REQUEST_TYPE { Some(id) } else { None },
        None => None,
    }
}

/// The packet types of a compound RTCP packet as rtc's `unmarshal` reads
/// them, in order; none when the bytes do not parse.
pub uninterp spec fn rtcp_packet_types(data: Seq<u8>) -> Option<Seq<u8>>;

/// Parses a compound RTCP packet into its packet types.
///
/// Wraps `rtc::rtcp::packet::unmarshal`, each packet taken by its header's
/// packet type. The claim is that the outcome depends on the bytes alone;
/// what it reads is left to the name.
#[verifier::external_body]
fn unmarshal_rtcp_types(data: &[u8]) -> (out: Option<Vec<u8>>)
    ensures
        match out {
            Some(v) => rtcp_packet_types(data@) == Some(v@),
            None => rtcp_packet_types(data@) is None,
        },
{
    let mut slice = data;
    let packets = rtc::rtcp::packet::unmarshal(&mut slice).ok()?;
    Some(packets.iter().map(|p| rtc::rtcp::packet::Packet::header(p.as_ref()).packet_type as u8).collect())
}

/// The RTCP packet type of payload-specific feedback (PLI, FIR, ...).
pub const PAYLOAD_SPECIFIC_FEEDBACK: u8 = 206;

/// Whether a compound packet holds payload-specific feedback.
pub open spec fn asks_keyframe(types: Seq<u8>) -> bool {
    exists|k: int| 0 <= k < types.len() && types[k] == PAYLOAD_SPECIFIC_FEEDBACK
}

/// Whether any of the packet types is payload-specific feedback.
pub fn has_payload_feedback(types: &Vec<u8>) -> (out: bool)
    ensures
        out == asks_keyframe(types@),
{
    let mut i: usize = 0;
    while i < types.len()
        invariant
            i <= types@.len(),
            forall|k: int| 0 <= k < i ==> types@[k] != PAYLOAD_SPECIFIC_FEEDBACK,
        decreases types.len() - i,
    {
        if types[i] == PAYLOAD_SPECIFIC_FEEDBACK {
            return true;
        }
        i = i + 1;
    }
    false
}

/// Whether a decrypted compound RTCP packet asks for a keyframe: it
/// parses, and holds payload-specific feedback.
pub fn rtcp_asks_keyframe(plaintext: &[u8]) -> (out: bool)
    ensures
        out == (rtcp_packet_types(plaintext@) matches Some(t) && asks_keyframe(t)),
{
    match unmarshal_rtcp_types(plaintext) {
        Some(types) => has_payload_feedback(&types),
        None => false,
    }
}

// ---------------------------------------------------------------------------
// Clocks
// ---------------------------------------------------------------------------

/// The 64-bit NTP time (RFC 5905, era 0) of a moment given as seconds and
/// nanoseconds since the Unix epoch: the seconds since 1900 modulo 2^32 in
/// the high word, the fraction of a second in units of 2^-32 in the low word.
pub open spec fn ntp_time(secs: nat, nanos: nat) -> nat {
    ((secs + 2_208_988_800) % 0x1_0000_0000) * 0x1_0000_0000
        + (nanos * 0x1_0000_0000 / 1_000_000_000) % 0x1_0000_0000
}

/// The NTP time of `secs` seconds and `nanos` nanoseconds after the Unix epoch.
pub fn ntp_from_unix(secs: u64, nanos: u32) -> (out: u64)
    ensures
        out as nat == ntp_time(secs as nat, nanos as nat),
{
    let high: u64 = ((secs % 0x1_0000_0000) + 2_208_988_800) % 0x1_0000_0000;
    assert((nanos as u64) * 0x1_0000_0000 <= u64::MAX) by (nonlinear_arith)
        requires
            nanos < 0x1_0000_0000,
    ;
    let low: u64 = ((nanos as u64) * 0x1_0000_0000 / 1_000_000_000) % 0x1_0000_0000;
    proof {
        vstd::arithmetic::div_mod::lemma_add_mod_noop(secs as int, 2_208_988_800, 0x1_0000_0000);
        assert(high as nat == (secs + 2_208_988_800) % 0x1_0000_0000);
        assert((high << 32) | low == high * 0x1_0000_0000 + low) by (bit_vector)
            requires
                high < 0x1_0000_0000,
                low < 0x1_0000_0000,
        ;
    }
    (high << 32) | low
}

/// The time since the Unix epoch as whole seconds and the nanoseconds past
/// them. Wraps `SystemTime::now`, measured from `UNIX_EPOCH`; a clock set
/// before the epoch reads as zero, as `unwrap_or_default` gives. The claim
/// is the one `Duration::subsec_nanos` documents: fewer than 10^9 nanoseconds.
#[verifier::external_body]
fn unix_time_now() -> (out: (u64, u32))
    ensures
        out.1 < 1_000_000_000,
{
    let d = std::time::SystemTime::now().duration_since(std::time::UNIX_EPOCH).unwrap_or_default();
    (d.as_secs(), d.subsec_nanos())
}

/// The current NTP time, from the system clock.
pub fn get_current_ntp_time() -> (out: u64)
    ensures
        exists|secs: u64, nanos: u32| nanos < 1_000_000_000 && out as nat == ntp_time(secs as nat, nanos as nat),
{
    let (secs, nanos) = unix_time_now();
    ntp_from_unix(secs, nanos)
}

/// The abs-send-time of an NTP time: its seconds in 6.18 fixed point,
/// bits 14 to 37 of the NTP time.
pub open spec fn abs_send_time(ntp: u64) -> nat {
    (ntp as nat / 0x4000) % 0x100_0000
}

/// The three bytes of the abs-send-time header extension, big-endian.
pub fn abs_send_time_bytes(ntp: u64) -> (out: [u8; 3])
    ensures
        out@ == seq![(abs_send_time(ntp) / 0x1_0000) as u8, ((abs_send_time(ntp) / 0x100) % 0x100) as u8,
            (abs_send_time(ntp) % 0x100) as u8],
{
    let v: u64 = (ntp >> 14) & 0xFF_FFFF;
    let b0: u8 = (v >> 16) as u8;
    let b1: u8 = ((v >> 8) & 0xFF) as u8;
    let b2: u8 = (v & 0xFF) as u8;
    proof {
        assert(v == (ntp / 0x4000) % 0x100_0000) by (bit_vector)
            requires
                v == (ntp >> 14) & 0xFF_FFFF,
        ;
        assert(v < 0x100_0000) by (bit_vector)
            requires
                v == (ntp >> 14) & 0xFF_FFFF,
        ;
        assert(v >> 16 == v / 0x1_0000 && (v >> 8) & 0xFF == (v / 0x100) % 0x100 && v & 0xFF == v % 0x100)
            by (bit_vector);
    }
    let out: [u8; 3] = [b0, b1, b2];
    assert(out@ =~= seq![b0, b1, b2]);
    out
}

/// The most nanoseconds a `Duration` holds.
pub open spec fn max_duration_nanos() -> nat {
    18_446_744_073_709_551_615 * 1_000_000_000 + 999_999_999
}

/// The Opus RTP timestamp step of a frame of `nanos` nanoseconds: whole
/// ticks of the 48 kHz clock, modulo 2^32.
pub open spec fn audio_ts_increment(nanos: nat) -> nat {
    (nanos * 48000 / 1_000_000_000) % 0x1_0000_0000
}

/// The VP8 RTP timestamp step of a frame of `nanos` nanoseconds: ticks of
/// the 90 kHz clock rounded to nearest, modulo 2^32.
pub open spec fn video_ts_increment(nanos: nat) -> nat {
    ((nanos * 90000 + 500_000_000) / 1_000_000_000) % 0x1_0000_0000
}

/// The Opus RTP timestamp step of a frame of `nanos` nanoseconds.
pub fn audio_ts_step(nanos: u128) -> (out: u32)
    requires
        nanos <= max_duration_nanos(),
    ensures
        out as nat == audio_ts_increment(nanos as nat),
{
    assert(nanos * 48000 < 0x1_0000_0000_0000_0000_0000_0000_0000) by (nonlinear_arith)
        requires
            nanos <= max_duration_nanos(),
    ;
    ((nanos * 48000 / 1_000_000_000) % 0x1_0000_0000) as u32
}

/// The VP8 RTP timestamp step of a frame of `nanos` nanoseconds.
pub fn video_ts_step(nanos: u128) -> (out: u32)
    requires
        nanos <= max_duration_nanos(),
    ensures
        out as nat == video_ts_increment(nanos as nat),
{
    assert(nanos * 90000 + 500_000_000 < 0x1_0000_0000_0000_0000_0000_0000_0000) by (nonlinear_arith)
        requires
            nanos <= max_duration_nanos(),
    ;
    ((nanos * 90000 + 500_000_000) / 1_000_000_000 % 0x1_0000_0000) as u32
}

// ---------------------------------------------------------------------------
// Per-track RTP state
// ---------------------------------------------------------------------------

/// `a + b` modulo 2^32.
fn add_mod_u32(a: u32, b: u32) -> (out: u32)
    ensures
        out as nat == (a as nat + b as nat) % 0x1_0000_0000,
{
    ((a as u64 + b as u64) % 0x1_0000_0000) as u32
}

/// `a + 1` modulo 2^16.
fn inc_mod_u16(a: u16) -> (out: u16)
    ensures
        out as nat == (a as nat + 1) % 0x1_0000,
{
    if a == u16::MAX { 0 } else { a + 1 }
}

/// A length as the 32-bit octet counters of RTCP count it: modulo 2^32.
fn len_mod_u32(len: usize) -> (out: u32)
    ensures
        out as nat == len as nat % 0x1_0000_0000,
{
    (len as u64 % 0x1_0000_0000) as u32
}

/// When media started flowing: the NTP time and both RTP timestamps then.
#[derive(Debug, Clone, Copy, PartialEq, Eq, Structural)]
pub struct MediaEpoch {
    pub ntp: u64,
    pub audio_ts: u32,
    pub video_ts: u32,
}

/// The sending side of both tracks: next sequence numbers and timestamps,
/// whether the next packet starts a track (and so carries the marker),
/// packet and octet counters for sender reports, the media epoch, and
/// whether Telegram asked for a keyframe.
#[derive(Debug, Clone, Copy, PartialEq, Eq, Structural)]
pub struct RtpState {
    pub audio_seq: u16,
    pub video_seq: u16,
    pub audio_ts: u32,
    pub video_ts: u32,
    pub first_audio: bool,
    pub first_video: bool,
    pub audio_packets: u32,
    pub audio_octets: u32,
    pub video_packets: u32,
    pub video_octets: u32,
    pub epoch: Option<MediaEpoch>,
    pub pli_requested: bool,
}

/// The header fields of one outgoing Opus packet.
#[derive(Debug, Clone, Copy, PartialEq, Eq, Structural)]
pub struct AudioPacketHeader {
    pub seq: u16,
    pub ts: u32,
    pub marker: bool,
}

/// A fresh sending state: the given first sequence numbers, timestamps at
/// zero, both tracks about to start, no counts, no epoch.
pub open spec fn rtp_initial(audio_seq: u16, video_seq: u16) -> RtpState {
    RtpState {
        audio_seq,
        video_seq,
        audio_ts: 0,
        video_ts: 0,
        first_audio: true,
        first_video: true,
        audio_packets: 0,
        audio_octets: 0,
        video_packets: 0,
        video_octets: 0,
        epoch: None,
        pli_requested: false,
    }
}

/// Sending an Opus frame of `nanos` nanoseconds: the packet takes the
/// current sequence number and timestamp and the start-of-track marker;
/// the sequence number then advances by one and the timestamp by the
/// frame's step, both wrapping.
pub open spec fn audio_step(s: RtpState, nanos: nat) -> (RtpState, AudioPacketHeader) {
    (
        RtpState {
            audio_seq: ((s.audio_seq + 1) % 0x1_0000) as u16,
            audio_ts: ((s.audio_ts + audio_ts_increment(nanos)) % 0x1_0000_0000) as u32,
            first_audio: false,
            ..s
        },
        AudioPacketHeader { seq: s.audio_seq, ts: s.audio_ts, marker: s.first_audio },
    )
}

/// Counting one sent Opus packet of `len` payload bytes, wrapping.
pub open spec fn audio_sent_step(s: RtpState, len: nat) -> RtpState {
    RtpState {
        audio_packets: ((s.audio_packets + 1) % 0x1_0000_0000) as u32,
        audio_octets: ((s.audio_octets + len % 0x1_0000_0000) % 0x1_0000_0000) as u32,
        ..s
    }
}

/// Starting a VP8 frame of `nanos` nanoseconds: the frame takes the
/// current video timestamp, which then advances by the frame's step.
pub open spec fn video_frame_step(s: RtpState, nanos: nat) -> (RtpState, u32) {
    (
        RtpState {
            video_ts: ((s.video_ts + video_ts_increment(nanos)) % 0x1_0000_0000) as u32,
            first_video: false,
            ..s
        },
        s.video_ts,
    )
}

/// Taking the next video sequence number, which then advances by one.
pub open spec fn video_seq_step(s: RtpState) -> (RtpState, u16) {
    (RtpState { video_seq: ((s.video_seq + 1) % 0x1_0000) as u16, ..s }, s.video_seq)
}

/// Counting one sent VP8 packet of `len` payload bytes, wrapping.
pub open spec fn video_sent_step(s: RtpState, len: nat) -> RtpState {
    RtpState {
        video_packets: ((s.video_packets + 1) % 0x1_0000_0000) as u32,
        video_octets: ((s.video_octets + len % 0x1_0000_0000) % 0x1_0000_0000) as u32,
        ..s
    }
}

/// Switching source: both tracks start again, the epoch and any keyframe
/// request are dropped; sequence numbers, timestamps and counters go on.
pub open spec fn track_reset(s: RtpState) -> RtpState {
    RtpState { first_audio: true, first_video: true, epoch: None, pli_requested: false, ..s }
}

impl RtpState {
    /// A fresh sending state with the given first sequence numbers.
    pub fn new(audio_seq: u16, video_seq: u16) -> (out: RtpState)
        ensures
            out == rtp_initial(audio_seq, video_seq),
    {
        RtpState {
            audio_seq,
            video_seq,
            audio_ts: 0,
            video_ts: 0,
            first_audio: true,
            first_video: true,
            audio_packets: 0,
            audio_octets: 0,
            video_packets: 0,
            video_octets: 0,
            epoch: None,
            pli_requested: false,
        }
    }

    /// Records when media starts flowing, unless it already has; tells
    /// whether it started now (and a sender report is due).
    pub fn start_epoch(&mut self, ntp: u64) -> (started: bool)
        ensures
            started == (old(self).epoch is None),
            started ==> *final(self) == (RtpState {
                epoch: Some(MediaEpoch { ntp, audio_ts: old(self).audio_ts, video_ts: old(self).video_ts }),
                ..*old(self)
            }),
            !started ==> *final(self) == *old(self),
    {
        if self.epoch.is_none() {
            self.epoch = Some(MediaEpoch { ntp, audio_ts: self.audio_ts, video_ts: self.video_ts });
            true
        } else {
            false
        }
    }

    /// The header of the next Opus packet, for a frame of `nanos` nanoseconds.
    pub fn next_audio(&mut self, nanos: u128) -> (out: AudioPacketHeader)
        requires
            nanos <= max_duration_nanos(),
        ensures
            (*final(self), out) == audio_step(*old(self), nanos as nat),
    {
        let step = audio_ts_step(nanos);
        let out = AudioPacketHeader { seq: self.audio_seq, ts: self.audio_ts, marker: self.first_audio };
        self.audio_seq = inc_mod_u16(self.audio_seq);
        self.audio_ts = add_mod_u32(self.audio_ts, step);
        self.first_audio = false;
        out
    }

    /// Counts a sent Opus packet of `payload_len` bytes.
    pub fn record_audio_sent(&mut self, payload_len: usize)
        ensures
            *final(self) == audio_sent_step(*old(self), payload_len as nat),
    {
        self.audio_packets = add_mod_u32(self.audio_packets, 1);
        self.audio_octets = add_mod_u32(self.audio_octets, len_mod_u32(payload_len));
    }

    /// The timestamp of the next VP8 frame, of `nanos` nanoseconds.
    pub fn next_video_frame(&mut self, nanos: u128) -> (ts: u32)
        requires
            nanos <= max_duration_nanos(),
        ensures
            (*final(self), ts) == video_frame_step(*old(self), nanos as nat),
    {
        let step = video_ts_step(nanos);
        let ts = self.video_ts;
        self.video_ts = add_mod_u32(self.video_ts, step);
        self.first_video = false;
        ts
    }

    /// The sequence number of the next VP8 packet.
    pub fn next_video_seq(&mut self) -> (seq: u16)
        ensures
            (*final(self), seq) == video_seq_step(*old(self)),
    {
        let seq = self.video_seq;
        self.video_seq = inc_mod_u16(self.video_seq);
        seq
    }

    /// Counts a sent VP8 packet of `chunk_len` payload bytes.
    pub fn record_video_sent(&mut self, chunk_len: usize)
        ensures
            *final(self) == video_sent_step(*old(self), chunk_len as nat),
    {
        self.video_packets = add_mod_u32(self.video_packets, 1);
        self.video_octets = add_mod_u32(self.video_octets, len_mod_u32(chunk_len));
    }

    /// Starts both tracks again, as switching source does.
    pub fn reset_track_state(&mut self)
        ensures
            *final(self) == track_reset(*old(self)),
    {
        self.first_audio = true;
        self.first_video = true;
        self.epoch = None;
        self.pli_requested = false;
    }

    /// Notes that Telegram asked for a keyframe (a PLI or FIR arrived).
    pub fn request_keyframe(&mut self)
        ensures
            *final(self) == (RtpState { pli_requested: true, ..*old(self) }),
    {
        self.pli_requested = true;
    }
}

/// Consecutive Opus packets carry consecutive sequence numbers and
/// timestamps one frame step apart, both wrapping; only the first packet
/// of a track carries the marker.
pub proof fn lemma_audio_packets_consecutive(s: RtpState, d1: nat, d2: nat)
    ensures
        ({
            let (s1, p1) = audio_step(s, d1);
            let (s2, p2) = audio_step(s1, d2);
            &&& p2.seq as nat == (p1.seq as nat + 1) % 0x1_0000
            &&& p2.ts as nat == (p1.ts as nat + audio_ts_increment(d1)) % 0x1_0000_0000
            &&& p1.marker == s.first_audio
            &&& !p2.marker
        }),
{
}

/// After a source switch the next packet of each track carries the marker,
/// and sequence numbers and timestamps continue where they were.
pub proof fn lemma_reset_restarts_tracks(s: RtpState, d: nat)
    ensures
        ({
            let r = track_reset(s);
            let (_, p) = audio_step(r, d);
            let (_, ts) = video_frame_step(r, d);
            &&& p.marker
            &&& p.seq == s.audio_seq
            &&& p.ts == s.audio_ts
            &&& ts == s.video_ts
            &&& r.epoch is None
        }),
{
}

// ---------------------------------------------------------------------------
// The transport's own state
// ---------------------------------------------------------------------------

/// The characters of ICE credentials: the URL-safe base64 alphabet.
pub open spec fn base64url_alphabet() -> Seq<char> {
    "ABCDEFGHIJKLMNOPQRSTUVWXYZabcdefghijklmnopqrstuvwxyz0123456789-_"@
}

/// Whether `s` is a credential of `len` characters of the alphabet.
pub open spec fn is_credential(s: Seq<char>, len: nat) -> bool {
    &&& s.len() == len
    &&& forall|i: int| 0 <= i < len ==> base64url_alphabet().contains(#[trigger] s[i])
}

/// Whether every draw indexes the 64-character alphabet.
pub open spec fn valid_draws(draws: Seq<u32>) -> bool {
    forall|k: int| 0 <= k < draws.len() ==> #[trigger] draws[k] < 64
}

/// The credential that draws spell: each draw picks its alphabet character.
pub open spec fn credential_chars(draws: Seq<u32>) -> Seq<char> {
    draws.map_values(|i: u32| base64url_alphabet()[i as int])
}

/// The credential spelled by indices into the base64url alphabet.
pub fn credential_from(draws: &Vec<u32>) -> (out: String)
    requires
        valid_draws(draws@),
    ensures
        out@ == credential_chars(draws@),
        is_credential(out@, draws@.len()),
{
    let alphabet = str_chars("ABCDEFGHIJKLMNOPQRSTUVWXYZabcdefghijklmnopqrstuvwxyz0123456789-_");
    proof {
        reveal_strlit("ABCDEFGHIJKLMNOPQRSTUVWXYZabcdefghijklmnopqrstuvwxyz0123456789-_");
    }
    assert(alphabet@.len() == 64);
    let mut cs: Vec<char> = Vec::new();
    let mut k: usize = 0;
    while k < draws.len()
        invariant
            k <= draws@.len(),
            valid_draws(draws@),
            cs@ == credential_chars(draws@).take(k as int),
            alphabet@ == base64url_alphabet(),
            alphabet@.len() == 64,
        decreases draws.len() - k,
    {
        let c = alphabet[draws[k] as usize];
        cs.push(c);
        assert(cs@ =~= credential_chars(draws@).take(k as int + 1));
        k = k + 1;
    }
    assert(cs@ =~= credential_chars(draws@));
    proof {
        assert forall|i: int| 0 <= i < draws@.len() implies base64url_alphabet().contains(#[trigger] cs@[i]) by {
            assert(cs@[i] == base64url_alphabet()[draws@[i] as int]);
        }
    }
    string_from_chars(&cs)
}

/// A random credential of `len` characters; 16 characters carry 96 bits.
fn random_credential(len: usize) -> (out: String)
    ensures
        is_credential(out@, len as nat),
        exists|d: Seq<u32>| d.len() == len && valid_draws(d) && out@ == credential_chars(d),
{
    let mut draws: Vec<u32> = Vec::new();
    let mut k: usize = 0;
    while k < len
        invariant
            k <= len,
            draws@.len() == k,
            valid_draws(draws@),
        decreases len - k,
    {
        let idx = random_u32_in(0, 63);
        draws.push(idx);
        k = k + 1;
    }
    credential_from(&draws)
}

/// Whether an RTP payload type is the Opus one (else it is sent as VP8).
pub fn is_audio_payload(payload_type: u8) -> (out: bool)
    ensures
        out == (payload_type == OPUS_PAYLOAD_TYPE),
{
    payload_type == OPUS_PAYLOAD_TYPE
}

// ---------------------------------------------------------------------------
// RTP header extensions and sender reports
// ---------------------------------------------------------------------------

/// The header extensions of an Opus packet: audio level (voice, level 0),
/// abs-send-time, and the media id `0`.
pub open spec fn audio_extensions(abs: Seq<u8>) -> Seq<(u8, Seq<u8>)> {
    seq![(1u8, seq![0x80u8]), (2u8, abs), (4u8, seq![0x30u8])]
}

/// The header extensions of a VP8 packet: abs-send-time, the media id `1`,
/// and video orientation 0.
pub open spec fn video_extensions(abs: Seq<u8>) -> Seq<(u8, Seq<u8>)> {
    seq![(2u8, abs), (4u8, seq![0x31u8]), (5u8, seq![0x00u8])]
}

/// The extensions as (id, bytes) pairs.
pub open spec fn extension_views(v: Seq<(u8, Vec<u8>)>) -> Seq<(u8, Seq<u8>)> {
    v.map_values(|e: (u8, Vec<u8>)| (e.0, e.1@))
}

fn one_byte(b: u8) -> (out: Vec<u8>)
    ensures
        out@ == seq![b],
{
    let mut v: Vec<u8> = Vec::new();
    v.push(b);
    assert(v@ =~= seq![b]);
    v
}

fn three_bytes(a: &[u8; 3]) -> (out: Vec<u8>)
    ensures
        out@ == a@,
{
    let mut v: Vec<u8> = Vec::new();
    v.push(a[0]);
    v.push(a[1]);
    v.push(a[2]);
    assert(v@ =~= a@);
    v
}

/// The header extensions of an Opus packet sent with abs-send-time `abs`.
pub fn audio_header_extensions(abs: &[u8; 3]) -> (out: Vec<(u8, Vec<u8>)>)
    ensures
        extension_views(out@) == audio_extensions(abs@),
{
    let mut v: Vec<(u8, Vec<u8>)> = Vec::new();
    v.push((1, one_byte(0x80)));
    v.push((2, three_bytes(abs)));
    v.push((4, one_byte(0x30)));
    assert(extension_views(v@) =~= audio_extensions(abs@));
    v
}

/// The header extensions of a VP8 packet sent with abs-send-time `abs`.
pub fn video_header_extensions(abs: &[u8; 3]) -> (out: Vec<(u8, Vec<u8>)>)
    ensures
        extension_views(out@) == video_extensions(abs@),
{
    let mut v: Vec<(u8, Vec<u8>)> = Vec::new();
    v.push((2, three_bytes(abs)));
    v.push((4, one_byte(0x31)));
    v.push((5, one_byte(0x00)));
    assert(extension_views(v@) =~= video_extensions(abs@));
    v
}

/// The RTP version every packet carries.
pub const RTP_VERSION: u8 = 2;

/// Big-endian bytes of a 16-bit value.
pub open spec fn be16(x: u16) -> Seq<u8> {
    seq![(x / 0x100) as u8, (x % 0x100) as u8]
}

/// Big-endian bytes of a 32-bit value.
pub open spec fn be32(x: u32) -> Seq<u8> {
    seq![(x / 0x100_0000) as u8, ((x / 0x1_0000) % 0x100) as u8, ((x / 0x100) % 0x100) as u8, (x % 0x100) as u8]
}

/// Whether header extensions fit the one-byte form (RFC 8285): ids 1 to
/// 14, each used once, and 1 to 16 bytes of data each.
pub open spec fn one_byte_extensions(e: Seq<(u8, Seq<u8>)>) -> bool {
    &&& forall|k: int| 0 <= k < e.len() ==> 1 <= (#[trigger] e[k]).0 <= 14 && 1 <= e[k].1.len() <= 16
    &&& forall|j: int, k: int| 0 <= j < k < e.len() ==> (#[trigger] e[j]).0 != (#[trigger] e[k]).0
}

/// The one-byte extension elements in order: a byte holding the id and
/// the data length less one, then the data.
pub open spec fn extension_elements(e: Seq<(u8, Seq<u8>)>) -> Seq<u8>
    decreases e.len(),
{
    if e.len() == 0 {
        seq![]
    } else {
        extension_elements(e.drop_last()) + seq![(e.last().0 * 16 + e.last().1.len() - 1) as u8] + e.last().1
    }
}

/// The extension block: the one-byte profile 0xBEDE, the length in 32-bit
/// words, the elements, and zero padding to a word boundary.
pub open spec fn extension_block(e: Seq<(u8, Seq<u8>)>) -> Seq<u8> {
    let body = extension_elements(e);
    let words = (body.len() + 3) / 4;
    seq![0xBEu8, 0xDEu8] + be16(words as u16) + body + Seq::new((words * 4 - body.len()) as nat, |i: int| 0u8)
}

/// The bytes of an RTP packet (RFC 3550) with no CSRC and no padding: the
/// version and extension bit, the marker bit and payload type, sequence
/// number, timestamp and SSRC big-endian, the extension block when there
/// are extensions, then the payload.
pub open spec fn rtp_packet_bytes(
    version: u8,
    payload_type: u8,
    seq: u16,
    ts: u32,
    ssrc: u32,
    marker: bool,
    extensions: Seq<(u8, Seq<u8>)>,
    payload: Seq<u8>,
) -> Seq<u8> {
    let b0 = (version * 64 + if extensions.len() > 0 { 16int } else { 0int }) as u8;
    let b1 = if marker { payload_type | 0x80u8 } else { payload_type };
    seq![b0, b1] + be16(seq) + be32(ts) + be32(ssrc)
        + (if extensions.len() > 0 { extension_block(extensions) } else { seq![] })
        + payload
}

/// Marshals an RTP packet.
///
/// Wraps rtc's `Header::set_extension` (one call per extension, in order)
/// and `Marshal::marshal` of rtc's `Packet`. For extensions in the one-byte
/// form (ids 1 to 14 used once, 1 to 16 bytes each) the first call picks
/// the one-byte profile, no call is refused, and the padding rtc tracks
/// matches the padding it writes, so marshalling succeeds with the bytes
/// `rtp_packet_bytes` states. Other extensions are not admitted: rtc's
/// `marshal_to` underflows on an empty one and checks none on the first.
#[verifier::external_body]
fn marshal_rtp(
    version: u8,
    payload_type: u8,
    seq: u16,
    ts: u32,
    ssrc: u32,
    marker: bool,
    extensions: &Vec<(u8, Vec<u8>)>,
    payload: &[u8],
) -> (out: Result<Vec<u8>, String>)
    requires
        version < 4,
        one_byte_extensions(extension_views(extensions@)),
    ensures
        out is Ok,
        match out {
            Ok(v) => v@ == rtp_packet_bytes(version, payload_type, seq, ts, ssrc, marker, extension_views(extensions@), payload@),
            Err(_) => false,
        },
{
    let (sequence_number, timestamp) = (seq, ts);
    let mut header = RtpHeader { version, payload_type, sequence_number, timestamp, ssrc, marker, ..Default::default() };
    for (id, data) in extensions {
        header.set_extension(*id, Bytes::copy_from_slice(data)).map_err(|e| e.to_string())?;
    }
    let packet = RtpPacket { header, payload: Bytes::copy_from_slice(payload) };
    packet.marshal().map(|b| b.to_vec()).map_err(|e| e.to_string())
}

/// Big-endian bytes of a 64-bit value.
pub open spec fn be64(x: u64) -> Seq<u8> {
    be32((x / 0x1_0000_0000) as u32) + be32((x % 0x1_0000_0000) as u32)
}

/// RTCP padding of `p` bytes: zeros, the last one holding the count.
pub open spec fn rtcp_padding(p: nat) -> Seq<u8> {
    if p == 0 { seq![] } else { Seq::new((p - 1) as nat, |i: int| 0u8).push(p as u8) }
}

/// The bytes of a compound RTCP packet (RFC 3550): a sender report of
/// `ssrc` with NTP time, RTP timestamp, packet and octet counts and no
/// reception reports, then a source description with one chunk for `ssrc`
/// holding the CNAME `cname`, its terminating null octet and padding to a
/// 32-bit boundary.
pub open spec fn sender_report_bytes(ssrc: u32, ntp_time: u64, rtp_ts: u32, packet_count: u32, octet_count: u32, cname: Seq<u8>) -> Seq<u8> {
    let raw = cname.len() + 7;
    let pad = ((4 - raw % 4) % 4) as nat;
    let chunk_len = raw + pad;
    seq![0x80u8, 200u8, 0u8, 6u8] + be32(ssrc) + be64(ntp_time) + be32(rtp_ts) + be32(packet_count) + be32(octet_count)
        + seq![0x81u8, 202u8] + be16((chunk_len / 4) as u16)
        + be32(ssrc) + seq![1u8, cname.len() as u8] + cname + seq![0u8] + rtcp_padding(pad)
}

/// The CNAME our reports announce.
pub open spec fn report_cname() -> Seq<u8> {
    seq![114u8, 117u8, 115u8, 116u8, 116u8, 103u8, 99u8, 97u8, 108u8, 108u8, 115u8]
}

/// The bytes of the CNAME our reports announce, `rusttgcalls`.
pub fn report_cname_bytes() -> (out: Vec<u8>)
    ensures
        out@ == report_cname(),
{
    let out: Vec<u8> = vec![114u8, 117u8, 115u8, 116u8, 116u8, 103u8, 99u8, 97u8, 108u8, 108u8, 115u8];
    assert(out@ =~= report_cname());
    out
}

/// Marshals a compound sender report.
///
/// Wraps `Marshal::marshal` of rtc's `CompoundPacket` holding a
/// `SenderReport` (no reception reports, no profile extensions) and a
/// `SourceDescription` with one chunk carrying one CNAME item. With a CNAME
/// of at most 255 bytes rtc's checks (at most 31 reports and chunks, a
/// sender report first, a CNAME present, item text within 255 bytes) all
/// pass and the sizes it computes match what it writes, so the outcome is
/// the bytes `sender_report_bytes` states.
#[verifier::external_body]
fn build_compound_sender_report(ssrc: u32, ntp_time: u64, rtp_ts: u32, packet_count: u32, octet_count: u32, cname: &[u8]) -> (out: Option<Vec<u8>>)
    requires
        cname@.len() <= 255,
    ensures
        out is Some,
        match out {
            Some(v) => v@ == sender_report_bytes(ssrc, ntp_time, rtp_ts, packet_count, octet_count, cname@),
            None => false,
        },
{
    let text = Bytes::copy_from_slice(cname);
    let item = SourceDescriptionItem { sdes_type: SdesType::SdesCname, text };
    let sdes = SourceDescription { chunks: vec![SourceDescriptionChunk { source: ssrc, items: vec![item] }] };
    let (rtp_time, reports, profile_extensions) = (rtp_ts, vec![], Bytes::new());
    let sr = SenderReport { ssrc, ntp_time, rtp_time, packet_count, octet_count, reports, profile_extensions };
    CompoundPacket(vec![Box::new(sr), Box::new(sdes)]).marshal().ok().map(|b| b.to_vec())
}

// ---------------------------------------------------------------------------
// VP8 packetization
// ---------------------------------------------------------------------------

#[verifier::external_type_specification]
#[verifier::external_body]
pub struct ExVp8Payloader(Vp8Payloader);

/// The largest packet payload a VP8 frame is cut into, descriptor included.
pub const MAX_VP8_PAYLOAD: usize = 1180;

/// Whether `d` can be the VP8 payload descriptor rtc puts before every
/// chunk of a frame (RFC 7741), its start bit left clear: the required
/// byte alone, or with a 7- or 15-bit picture id; the X bit set exactly
/// when the picture id is there.
pub open spec fn vp8_descriptor(d: Seq<u8>) -> bool {
    &&& d.len() == 1 || d.len() == 3 || d.len() == 4
    &&& d.len() == 1 ==> d[0] == 0u8
    &&& d.len() > 1 ==> d[0] == 0x80u8
}

/// Chunk `k` of a frame cut into slices of at most `f` bytes: the
/// descriptor (with the start bit on the first chunk only) and the slice.
pub open spec fn vp8_chunk(frame: Seq<u8>, f: nat, d: Seq<u8>, k: int) -> Seq<u8> {
    let start = k * f;
    let end = if start + f < frame.len() { start + f } else { frame.len() as int };
    let head = if k == 0 { seq![(d[0] + 0x10) as u8] + d.skip(1) } else { d };
    head + frame.subrange(start, end)
}

/// The chunks of a frame for packets of at most `mtu` bytes, each led by
/// the descriptor `d`: none for an empty frame or an `mtu` with no room
/// past the descriptor; otherwise the frame's slices in order, each as
/// long as fits.
pub open spec fn vp8_chunks(frame: Seq<u8>, mtu: nat, d: Seq<u8>) -> Seq<Seq<u8>> {
    if frame.len() == 0 || mtu <= d.len() {
        seq![]
    } else {
        let f = (mtu - d.len()) as nat;
        Seq::new(((frame.len() + f - 1) / (f as int)) as nat, |k: int| vp8_chunk(frame, f, d, k))
    }
}

/// Whether `cs` are the chunks of `frame` for `mtu` under some descriptor.
pub open spec fn is_vp8_chunking(cs: Seq<Seq<u8>>, frame: Seq<u8>, mtu: nat) -> bool {
    exists|d: Seq<u8>| vp8_descriptor(d) && cs == vp8_chunks(frame, mtu, d)
}

/// The contents of byte buffers.
pub open spec fn chunk_views(v: Seq<Vec<u8>>) -> Seq<Seq<u8>> {
    v.map_values(|c: Vec<u8>| c@)
}

/// A fresh VP8 payloader.
///
/// Builds rtc's `Vp8Payloader` from its `Default` with `enable_picture_id`
/// set as given. Nothing is claimed: the payloader is opaque here and what
/// it does shows in `vp8_payload`.
#[verifier::external_body]
fn new_vp8_payloader(enable_picture_id: bool) -> (out: Vp8Payloader) {
    let mut p = Vp8Payloader::default();
    p.enable_picture_id = enable_picture_id;
    p
}

/// Cuts a VP8 frame into packet payloads.
///
/// Wraps rtc's `Payloader::payload` of `Vp8Payloader`, which never fails.
/// The claim is what its source shows: one descriptor of 1, 3 or 4 bytes
/// (by whether the picture id is on and below 128) leads every chunk, the
/// first with the start bit 0x10; the chunks carry the frame's bytes in
/// order, each as many as fit in `mtu`; an empty frame or an `mtu` not
/// past the descriptor gives none. Which picture id it carries (the
/// payloader counts frames) is left unsaid.
#[verifier::external_body]
fn vp8_payload(p: &mut Vp8Payloader, mtu: usize, frame: &[u8]) -> (out: Vec<Vec<u8>>)
    requires
        mtu <= 0x7FFF_FFFF,
    ensures
        is_vp8_chunking(chunk_views(out@), frame@, mtu as nat),
{
    let chunks = p.payload(mtu, &Bytes::copy_from_slice(frame)).unwrap_or_default();
    chunks.iter().map(|c| c.to_vec()).collect()
}

/// The state of one direct transport that its decisions rest on: our ICE
/// credentials, SSRCs and certificate fingerprint, the connection state,
/// whether it was closed, and the sending state of both tracks.
pub struct TransportCore {
    ufrag: String,
    pwd: String,
    audio_ssrc: u32,
    video_ssrc: u32,
    fingerprint_sha256: String,
    state: ConnState,
    closed: bool,
    rtp: RtpState,
    payloader: Vp8Payloader,
}

/// Whether two transports have the same identity: credentials, SSRCs and
/// fingerprint.
pub open spec fn same_identity(a: TransportCore, b: TransportCore) -> bool {
    &&& a.spec_ufrag() == b.spec_ufrag()
    &&& a.spec_pwd() == b.spec_pwd()
    &&& a.spec_audio_ssrc() == b.spec_audio_ssrc()
    &&& a.spec_video_ssrc() == b.spec_video_ssrc()
    &&& a.spec_fingerprint() == b.spec_fingerprint()
}

/// `b` is `a` with the given state, closed flag and sending state.
pub open spec fn transport_now(a: TransportCore, b: TransportCore, state: ConnState, closed: bool, rtp: RtpState) -> bool {
    &&& same_identity(a, b)
    &&& b.spec_state() == state
    &&& b.spec_closed() == closed
    &&& b.spec_rtp() == rtp
}

impl TransportCore {
    pub closed spec fn spec_ufrag(&self) -> Seq<char> {
        self.ufrag@
    }

    pub closed spec fn spec_pwd(&self) -> Seq<char> {
        self.pwd@
    }

    pub closed spec fn spec_audio_ssrc(&self) -> u32 {
        self.audio_ssrc
    }

    pub closed spec fn spec_video_ssrc(&self) -> u32 {
        self.video_ssrc
    }

    pub closed spec fn spec_fingerprint(&self) -> Seq<char> {
        self.fingerprint_sha256@
    }

    pub closed spec fn spec_state(&self) -> ConnState {
        self.state
    }

    pub closed spec fn spec_closed(&self) -> bool {
        self.closed
    }

    pub closed spec fn spec_rtp(&self) -> RtpState {
        self.rtp
    }

    /// A transport on the given SSRCs with fresh random ICE credentials
    /// (16 and 32 characters of the URL-safe base64 alphabet) and random
    /// first sequence numbers in 1000..5000; it starts connecting.
    pub fn new_with_ssrc(fingerprint_sha256: &str, audio_ssrc: u32, video_ssrc: u32) -> (out: TransportCore)
        ensures
            is_credential(out.spec_ufrag(), 16),
            is_credential(out.spec_pwd(), 32),
            exists|d: Seq<u32>| d.len() == 16 && valid_draws(d) && out.spec_ufrag() == credential_chars(d),
            exists|d: Seq<u32>| d.len() == 32 && valid_draws(d) && out.spec_pwd() == credential_chars(d),
            out.spec_audio_ssrc() == audio_ssrc,
            out.spec_video_ssrc() == video_ssrc,
            out.spec_fingerprint() == fingerprint_sha256@,
            out.spec_state() == ConnState::Connecting,
            !out.spec_closed(),
            out.spec_rtp() == rtp_initial(out.spec_rtp().audio_seq, out.spec_rtp().video_seq),
            1000 <= out.spec_rtp().audio_seq < 5000,
            1000 <= out.spec_rtp().video_seq < 5000,
    {
        let ufrag = random_credential(16);
        let pwd = random_credential(32);
        let audio_seq = random_u32_in(1000, 4999) as u16;
        let video_seq = random_u32_in(1000, 4999) as u16;
        TransportCore {
            ufrag,
            pwd,
            audio_ssrc,
            video_ssrc,
            fingerprint_sha256: String::from_str(fingerprint_sha256),
            state: ConnState::Connecting,
            closed: false,
            rtp: RtpState::new(audio_seq, video_seq),
            payloader: new_vp8_payloader(true),
        }
    }

    /// A transport on random SSRCs in `0x1000_0000..=0x7FFF_FFFF`.
    pub fn new(fingerprint_sha256: &str) -> (out: TransportCore)
        ensures
            is_credential(out.spec_ufrag(), 16),
            is_credential(out.spec_pwd(), 32),
            exists|d: Seq<u32>| d.len() == 16 && valid_draws(d) && out.spec_ufrag() == credential_chars(d),
            exists|d: Seq<u32>| d.len() == 32 && valid_draws(d) && out.spec_pwd() == credential_chars(d),
            0x1000_0000 <= out.spec_audio_ssrc() <= 0x7FFF_FFFF,
            0x1000_0000 <= out.spec_video_ssrc() <= 0x7FFF_FFFF,
            out.spec_fingerprint() == fingerprint_sha256@,
            out.spec_state() == ConnState::Connecting,
            !out.spec_closed(),
            out.spec_rtp() == rtp_initial(out.spec_rtp().audio_seq, out.spec_rtp().video_seq),
            1000 <= out.spec_rtp().audio_seq < 5000,
            1000 <= out.spec_rtp().video_seq < 5000,
    {
        let audio_ssrc = random_u32_in(0x1000_0000, 0x7FFF_FFFF);
        let video_ssrc = random_u32_in(0x1000_0000, 0x7FFF_FFFF);
        Self::new_with_ssrc(fingerprint_sha256, audio_ssrc, video_ssrc)
    }

    /// Our ICE username fragment.
    pub fn ufrag(&self) -> (out: &str)
        ensures
            out@ == self.spec_ufrag(),
    {
        self.ufrag.as_str()
    }

    /// Our ICE password.
    pub fn pwd(&self) -> (out: &str)
        ensures
            out@ == self.spec_pwd(),
    {
        self.pwd.as_str()
    }

    /// Our audio SSRC.
    pub fn audio_ssrc(&self) -> (out: u32)
        ensures
            out == self.spec_audio_ssrc(),
    {
        self.audio_ssrc
    }

    /// Our video SSRC; zero when there is no video.
    pub fn video_ssrc(&self) -> (out: u32)
        ensures
            out == self.spec_video_ssrc(),
    {
        self.video_ssrc
    }

    /// The connection state.
    pub fn state(&self) -> (out: ConnState)
        ensures
            out == self.spec_state(),
    {
        self.state
    }

    /// Whether the transport was closed.
    pub fn is_closed(&self) -> (out: bool)
        ensures
            out == self.spec_closed(),
    {
        self.closed
    }

    /// The sending state of both tracks.
    pub fn rtp(&self) -> (out: RtpState)
        ensures
            out == self.spec_rtp(),
    {
        self.rtp
    }

    /// The parameters to send Telegram when joining.
    pub fn build_local_params(&self) -> (out: Result<LocalParams, RustTgCallsError>)
        ensures
            local_params_result(self.spec_ufrag(), self.spec_pwd(), self.spec_fingerprint(),
                self.spec_audio_ssrc(), self.spec_video_ssrc(), out),
    {
        build_local_params(
            self.ufrag.as_str(),
            self.pwd.as_str(),
            self.fingerprint_sha256.as_str(),
            self.audio_ssrc,
            self.video_ssrc,
        )
    }

    /// Starts a connection attempt with Telegram's answer: unless closed,
    /// the transport is connecting again, and the attempt is planned.
    pub fn begin_connect(
        &mut self,
        stream_mode: bool,
        decoded: Result<Answer, String>,
        families: &Vec<IpFamily>,
    ) -> (out: Result<ConnectPlan, RustTgCallsError>)
        ensures
            connect_planned(old(self).spec_closed(), old(self).spec_ufrag(), stream_mode, decoded, families@, out),
            transport_now(*old(self), *final(self),
                if old(self).spec_closed() { old(self).spec_state() } else { ConnState::Connecting },
                old(self).spec_closed(), old(self).spec_rtp()),
    {
        if !self.closed {
            self.state = ConnState::Connecting;
        }
        plan_connect(self.closed, self.ufrag.as_str(), stream_mode, decoded, families)
    }

    /// The DTLS handshake completed. Unless keys were already installed
    /// (`keyed`), the caller installs the SRTP contexts and the transport is
    /// connected; tells whether that happened.
    pub fn on_handshake_complete(&mut self, keyed: bool) -> (install: bool)
        ensures
            install == !keyed,
            transport_now(*old(self), *final(self),
                if install { ConnState::Connected } else { old(self).spec_state() },
                old(self).spec_closed(), old(self).spec_rtp()),
    {
        if keyed {
            return false;
        }
        self.state = ConnState::Connected;
        true
    }

    /// The outcome of waiting for the handshake: connected, or timed out.
    pub fn connect_outcome(&self) -> (out: Result<(), RustTgCallsError>)
        ensures
            self.spec_state() == ConnState::Connected ==> out is Ok,
            self.spec_state() != ConnState::Connected ==> (out matches Err(RustTgCallsError::Internal(m))
                && m@ == "timeout waiting for DTLS handshake to complete with Telegram SFU"@),
    {
        if self.state == ConnState::Connected {
            Ok(())
        } else {
            Err(RustTgCallsError::Internal(String::from_str("timeout waiting for DTLS handshake to complete with Telegram SFU")))
        }
    }

    /// Whether media may be sent: a closed transport refuses.
    pub fn check_open(&self) -> (out: Result<(), RustTgCallsError>)
        ensures
            !self.spec_closed() ==> out is Ok,
            self.spec_closed() ==> (out matches Err(RustTgCallsError::Internal(m)) && m@ == "transport is closed"@),
    {
        if self.closed {
            Err(RustTgCallsError::Internal(String::from_str("transport is closed")))
        } else {
            Ok(())
        }
    }

    /// Records when media starts flowing; tells whether it started now.
    pub fn start_epoch(&mut self, ntp: u64) -> (started: bool)
        ensures
            started == (old(self).spec_rtp().epoch is None),
            transport_now(*old(self), *final(self), old(self).spec_state(), old(self).spec_closed(),
                if started {
                    RtpState {
                        epoch: Some(MediaEpoch {
                            ntp,
                            audio_ts: old(self).spec_rtp().audio_ts,
                            video_ts: old(self).spec_rtp().video_ts,
                        }),
                        ..old(self).spec_rtp()
                    }
                } else {
                    old(self).spec_rtp()
                }),
    {
        self.rtp.start_epoch(ntp)
    }

    /// The header of the next Opus packet, for a frame of `nanos` nanoseconds.
    pub fn next_audio(&mut self, nanos: u128) -> (out: AudioPacketHeader)
        requires
            nanos <= max_duration_nanos(),
        ensures
            out == audio_step(old(self).spec_rtp(), nanos as nat).1,
            transport_now(*old(self), *final(self), old(self).spec_state(), old(self).spec_closed(),
                audio_step(old(self).spec_rtp(), nanos as nat).0),
    {
        self.rtp.next_audio(nanos)
    }

    /// Counts a sent Opus packet of `payload_len` bytes.
    pub fn record_audio_sent(&mut self, payload_len: usize)
        ensures
            transport_now(*old(self), *final(self), old(self).spec_state(), old(self).spec_closed(),
                audio_sent_step(old(self).spec_rtp(), payload_len as nat)),
    {
        self.rtp.record_audio_sent(payload_len)
    }

    /// The timestamp of the next VP8 frame, of `nanos` nanoseconds.
    pub fn next_video_frame(&mut self, nanos: u128) -> (ts: u32)
        requires
            nanos <= max_duration_nanos(),
        ensures
            ts == video_frame_step(old(self).spec_rtp(), nanos as nat).1,
            transport_now(*old(self), *final(self), old(self).spec_state(), old(self).spec_closed(),
                video_frame_step(old(self).spec_rtp(), nanos as nat).0),
    {
        self.rtp.next_video_frame(nanos)
    }

    /// The sequence number of the next VP8 packet.
    pub fn next_video_seq(&mut self) -> (seq: u16)
        ensures
            seq == video_seq_step(old(self).spec_rtp()).1,
            transport_now(*old(self), *final(self), old(self).spec_state(), old(self).spec_closed(),
                video_seq_step(old(self).spec_rtp()).0),
    {
        self.rtp.next_video_seq()
    }

    /// Counts a sent VP8 packet of `chunk_len` payload bytes.
    pub fn record_video_sent(&mut self, chunk_len: usize)
        ensures
            transport_now(*old(self), *final(self), old(self).spec_state(), old(self).spec_closed(),
                video_sent_step(old(self).spec_rtp(), chunk_len as nat)),
    {
        self.rtp.record_video_sent(chunk_len)
    }

    /// Notes that Telegram asked for a keyframe.
    pub fn request_keyframe(&mut self)
        ensures
            transport_now(*old(self), *final(self), old(self).spec_state(), old(self).spec_closed(),
                RtpState { pli_requested: true, ..old(self).spec_rtp() }),
    {
        self.rtp.request_keyframe()
    }

    /// Takes in a decrypted compound RTCP packet: a request for a keyframe
    /// is noted; anything else changes nothing. Tells whether it asked.
    pub fn on_rtcp(&mut self, plaintext: &[u8]) -> (asked: bool)
        ensures
            asked == (rtcp_packet_types(plaintext@) matches Some(t) && asks_keyframe(t)),
            transport_now(*old(self), *final(self), old(self).spec_state(), old(self).spec_closed(),
                if asked { RtpState { pli_requested: true, ..old(self).spec_rtp() } } else { old(self).spec_rtp() }),
    {
        let asked = rtcp_asks_keyframe(plaintext);
        if asked {
            self.rtp.request_keyframe();
        }
        asked
    }

    /// Starts both tracks again, as switching source does.
    pub fn reset_media_track_state(&mut self)
        ensures
            transport_now(*old(self), *final(self), old(self).spec_state(), old(self).spec_closed(),
                track_reset(old(self).spec_rtp())),
    {
        self.rtp.reset_track_state();
        self.payloader = new_vp8_payloader(true);
    }

    /// The next Opus packet, marshalled: a frame of `nanos` nanoseconds
    /// with payload `payload`, sent with abs-send-time `abs`, takes the
    /// header fields `audio_step` gives and the audio extensions.
    pub fn audio_packet(&mut self, payload_type: u8, nanos: u128, abs: &[u8; 3], payload: &[u8]) -> (out: Result<Vec<u8>, String>)
        requires
            nanos <= max_duration_nanos(),
        ensures
            ({
                let (r, h) = audio_step(old(self).spec_rtp(), nanos as nat);
                &&& transport_now(*old(self), *final(self), old(self).spec_state(), old(self).spec_closed(), r)
                &&& out matches Ok(v) && v@ == rtp_packet_bytes(RTP_VERSION, payload_type, h.seq, h.ts,
                    old(self).spec_audio_ssrc(), h.marker, audio_extensions(abs@), payload@)
            }),
    {
        let h = self.rtp.next_audio(nanos);
        let ext = audio_header_extensions(abs);
        marshal_rtp(RTP_VERSION, payload_type, h.seq, h.ts, self.audio_ssrc, h.marker, &ext, payload)
    }

    /// The next VP8 packet of a frame with timestamp `ts`, marshalled: the
    /// chunk at `index` of `count` takes the next video sequence number,
    /// carries the marker when it is the last, and the video extensions.
    pub fn video_packet(&mut self, ts: u32, abs: &[u8; 3], chunk: &[u8], index: usize, count: usize) -> (out: Result<Vec<u8>, String>)
        ensures
            ({
                let (r, seq) = video_seq_step(old(self).spec_rtp());
                &&& transport_now(*old(self), *final(self), old(self).spec_state(), old(self).spec_closed(), r)
                &&& out matches Ok(v) && v@ == rtp_packet_bytes(RTP_VERSION, VP8_PAYLOAD_TYPE, seq, ts,
                    old(self).spec_video_ssrc(), index + 1 == count, video_extensions(abs@), chunk@)
            }),
    {
        let seq = self.rtp.next_video_seq();
        let ext = video_header_extensions(abs);
        let last = index < count && index + 1 == count;
        marshal_rtp(RTP_VERSION, VP8_PAYLOAD_TYPE, seq, ts, self.video_ssrc, last, &ext, chunk)
    }

    /// Every packet of a VP8 frame with timestamp `ts`, one per chunk in
    /// order: chunk `k` takes the `k`-th next video sequence number
    /// (wrapping), the last one carries the marker, and all carry the
    /// video extensions.
    fn packets_of_chunks(&mut self, ts: u32, abs: &[u8; 3], chunks: &Vec<Vec<u8>>) -> (out: Vec<(Vec<u8>, usize)>)
        ensures
            out@.len() == chunks@.len(),
            forall|k: int| 0 <= k < chunks@.len() ==> (#[trigger] out@[k]).0@ == rtp_packet_bytes(RTP_VERSION, VP8_PAYLOAD_TYPE,
                ((old(self).spec_rtp().video_seq + k) % 0x1_0000) as u16, ts, old(self).spec_video_ssrc(),
                k + 1 == chunks@.len(), video_extensions(abs@), chunks@[k]@)
                && out@[k].1 == chunks@[k]@.len(),
            transport_now(*old(self), *final(self), old(self).spec_state(), old(self).spec_closed(),
                RtpState { video_seq: ((old(self).spec_rtp().video_seq + chunks@.len()) % 0x1_0000) as u16, ..old(self).spec_rtp() }),
    {
        let mut out: Vec<(Vec<u8>, usize)> = Vec::new();
        let count = chunks.len();
        let mut k: usize = 0;
        while k < count
            invariant
                count == chunks@.len(),
                k <= count,
                out@.len() == k,
                forall|j: int| 0 <= j < k ==> (#[trigger] out@[j]).0@ == rtp_packet_bytes(RTP_VERSION, VP8_PAYLOAD_TYPE,
                    ((old(self).spec_rtp().video_seq + j) % 0x1_0000) as u16, ts, old(self).spec_video_ssrc(),
                    j + 1 == count, video_extensions(abs@), chunks@[j]@)
                    && out@[j].1 == chunks@[j]@.len(),
                transport_now(*old(self), *self, old(self).spec_state(), old(self).spec_closed(),
                    RtpState { video_seq: ((old(self).spec_rtp().video_seq + k) % 0x1_0000) as u16, ..old(self).spec_rtp() }),
            decreases count - k,
        {
            let packet = self.video_packet(ts, abs, chunks[k].as_slice(), k, count);
            match packet {
                Ok(v) => {
                    out.push((v, chunks[k].len()));
                },
                Err(_) => {
                    proof { assert(false); }
                },
            }
            proof {
                let base = old(self).spec_rtp().video_seq as int;
                assert((((base + k) % 0x1_0000) + 1) % 0x1_0000 == (base + k + 1) % 0x1_0000) by (nonlinear_arith);
            }
            k = k + 1;
        }
        out
    }

    /// Packetizes a VP8 frame with timestamp `ts`: the frame is cut into
    /// chunks of at most `MAX_VP8_PAYLOAD` bytes; when the packets can be
    /// delivered, chunk `k` becomes a packet with the `k`-th next video
    /// sequence number (wrapping), the marker on the last, and the video
    /// extensions; otherwise no packet is made and no sequence number is
    /// taken. Each packet comes with the length of its chunk.
    pub fn video_frame_packets(&mut self, ts: u32, abs: &[u8; 3], frame: &[u8], deliverable: bool) -> (out: Vec<(Vec<u8>, usize)>)
        ensures
            exists|d: Seq<u8>| vp8_descriptor(d) && ({
                let cs = vp8_chunks(frame@, MAX_VP8_PAYLOAD as nat, d);
                let n = if deliverable { cs.len() } else { 0 };
                &&& out@.len() == n
                &&& forall|k: int| 0 <= k < n ==> (#[trigger] out@[k]).0@ == rtp_packet_bytes(RTP_VERSION, VP8_PAYLOAD_TYPE,
                    ((old(self).spec_rtp().video_seq + k) % 0x1_0000) as u16, ts, old(self).spec_video_ssrc(),
                    k + 1 == n, video_extensions(abs@), cs[k]) && out@[k].1 == cs[k].len()
                &&& transport_now(*old(self), *final(self), old(self).spec_state(), old(self).spec_closed(),
                    RtpState { video_seq: ((old(self).spec_rtp().video_seq + n) % 0x1_0000) as u16, ..old(self).spec_rtp() })
            }),
    {
        let chunks = vp8_payload(&mut self.payloader, MAX_VP8_PAYLOAD, frame);
        let ghost d = choose|d: Seq<u8>| vp8_descriptor(d) && chunk_views(chunks@) == vp8_chunks(frame@, MAX_VP8_PAYLOAD as nat, d);
        if !deliverable {
            proof {
                assert(old(self).spec_rtp().video_seq + 0 < 0x1_0000);
                assert(RtpState { video_seq: ((old(self).spec_rtp().video_seq + 0) % 0x1_0000) as u16, ..old(self).spec_rtp() }
                    == self.spec_rtp());
            }
            return Vec::new();
        }
        let out = self.packets_of_chunks(ts, abs, &chunks);
        proof {
            let cs = vp8_chunks(frame@, MAX_VP8_PAYLOAD as nat, d);
            assert(chunks@.len() == cs.len());
            assert forall|k: int| 0 <= k < chunks@.len() implies chunks@[k]@ == cs[k] by {
                assert(chunk_views(chunks@)[k] == chunks@[k]@);
            }
        }
        out
    }

    /// The sender reports due at NTP time `ntp_time`: none before media
    /// flows; then one per track with its SSRC, current RTP timestamp and
    /// packet and octet counts, and our CNAME.
    pub fn sender_reports(&self, ntp_time: u64) -> (out: Option<(Option<Vec<u8>>, Option<Vec<u8>>)>)
        ensures
            out is None <==> self.spec_rtp().epoch is None,
            out matches Some((a, v)) ==> (a matches Some(ab) && ab@ == sender_report_bytes(self.spec_audio_ssrc(), ntp_time,
                self.spec_rtp().audio_ts, self.spec_rtp().audio_packets, self.spec_rtp().audio_octets, report_cname()))
                && (v matches Some(vb) && vb@ == sender_report_bytes(self.spec_video_ssrc(), ntp_time,
                self.spec_rtp().video_ts, self.spec_rtp().video_packets, self.spec_rtp().video_octets, report_cname())),
    {
        if self.rtp.epoch.is_none() {
            return None;
        }
        let cname = report_cname_bytes();
        let a = build_compound_sender_report(self.audio_ssrc, ntp_time, self.rtp.audio_ts, self.rtp.audio_packets, self.rtp.audio_octets, cname.as_slice());
        let v = build_compound_sender_report(self.video_ssrc, ntp_time, self.rtp.video_ts, self.rtp.video_packets, self.rtp.video_octets, cname.as_slice());
        Some((a, v))
    }

    /// Closes the transport, once: it is then closed, its state is closed,
    /// and the media epoch and any keyframe request are dropped. Tells
    /// whether this call closed it; closing again changes nothing.
    pub fn close(&mut self) -> (first: bool)
        ensures
            first == !old(self).spec_closed(),
            first ==> transport_now(*old(self), *final(self), ConnState::Closed, true,
                RtpState { epoch: None, pli_requested: false, ..old(self).spec_rtp() }),
            !first ==> *final(self) == *old(self),
    {
        if self.closed {
            return false;
        }
        self.closed = true;
        self.state = ConnState::Closed;
        self.rtp.epoch = None;
        self.rtp.pli_requested = false;
        true
    }
}

} // verus!
