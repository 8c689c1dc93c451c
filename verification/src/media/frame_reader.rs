//! Container parsing for the streamer: Opus packets out of Ogg pages
//! (RFC 3533, RFC 7845) and VP8 frames out of IVF. The byte reading is
//! done by the caller; these types decide what the bytes mean.

use vstd::prelude::*;
use crate::models::errors::RustTgCallsError;
use std::collections::VecDeque;

verus! {

// ---------------------------------------------------------------------------
// Opus packet duration
// ---------------------------------------------------------------------------

/// Samples (at 48 kHz) of one frame of an Opus configuration (RFC 6716, table 2).
pub open spec fn opus_config_samples(config: nat) -> nat {
    if config == 0 || config == 4 || config == 8 { 480 }
    else if config == 1 || config == 5 || config == 9 { 960 }
    else if config == 2 || config == 6 || config == 10 { 1920 }
    else if config == 3 || config == 7 || config == 11 { 2880 }
    else if config == 12 || config == 14 { 480 }
    else if config == 13 || config == 15 { 960 }
    else if config == 16 || config == 20 || config == 24 || config == 28 { 120 }
    else if config == 17 || config == 21 || config == 25 || config == 29 { 240 }
    else if config == 18 || config == 22 || config == 26 || config == 30 { 480 }
    else { 960 }
}

/// Frames in a packet: from the TOC code, and for code 3 from the frame count byte.
pub open spec fn opus_frame_count(pkt: Seq<u8>) -> nat {
    let code = pkt[0] % 4;
    if code == 0 {
        1
    } else if code == 1 || code == 2 {
        2
    } else if pkt.len() >= 2 && pkt[1] % 64 > 0 {
        (pkt[1] % 64) as nat
    } else {
        1
    }
}

/// The duration in nanoseconds of an Opus packet; an empty packet counts
/// as one 20 ms frame.
pub open spec fn opus_packet_nanos(pkt: Seq<u8>) -> nat {
    if pkt.len() == 0 {
        20_000_000
    } else {
        (opus_config_samples((pkt[0] / 8) as nat) * opus_frame_count(pkt)) * 1_000_000_000 / 48000
    }
}

fn config_samples(config: u8) -> (out: u32)
    requires
        config < 32,
    ensures
        out == opus_config_samples(config as nat),
{
    if config == 0 || config == 4 || config == 8 { 480 }
    else if config == 1 || config == 5 || config == 9 { 960 }
    else if config == 2 || config == 6 || config == 10 { 1920 }
    else if config == 3 || config == 7 || config == 11 { 2880 }
    else if config == 12 || config == 14 { 480 }
    else if config == 13 || config == 15 { 960 }
    else if config == 16 || config == 20 || config == 24 || config == 28 { 120 }
    else if config == 17 || config == 21 || config == 25 || config == 29 { 240 }
    else if config == 18 || config == 22 || config == 26 || config == 30 { 480 }
    else { 960 }
}

/// The duration in nanoseconds of an Opus packet, read from its TOC byte
/// (RFC 6716 §3.1).
pub fn parse_opus_packet_duration(pkt: &[u8]) -> (out: u64)
    ensures
        out == opus_packet_nanos(pkt@),
{
    if pkt.len() == 0 {
        return 20_000_000;
    }
    let toc = pkt[0];
    let config = (toc >> 3) & 0x1F;
    assert((toc >> 3) & 0x1F == toc / 8 && toc / 8 < 32) by (bit_vector);
    let base_samples = config_samples(config);
    let code = toc & 0x03;
    assert(toc & 0x03 == toc % 4) by (bit_vector);
    let count: u32 = if code == 0 {
        1
    } else if code == 1 || code == 2 {
        2
    } else if pkt.len() >= 2 {
        let b = pkt[1];
        let c = (b & 0x3F) as u32;
        assert(b & 0x3F == b % 64) by (bit_vector);
        if c > 0 { c } else { 1 }
    } else {
        1
    };
    let total = base_samples * count;
    (total as u64 * 1_000_000_000) / 48000
}

/// A one-frame packet (TOC code 0) lasts the frame size of its TOC
/// configuration (RFC 6716 §3.1, table 2), by mode and size index:
/// SILK-only configurations 0 to 11 have frames of 10, 20, 40 or 60 ms by
/// `config % 4`; hybrid configurations 12 to 15 have 10 or 20 ms by
/// `config % 2`; CELT-only configurations 16 to 31 have 2.5, 5, 10 or 20 ms
/// by `config % 4`, so configurations 19, 23, 27 and 31 last 20 ms.
pub proof fn lemma_opus_frame_sizes(pkt: Seq<u8>)
    requires
        pkt.len() >= 1,
        pkt[0] % 4 == 0,
    ensures
        ({
            let c = pkt[0] / 8;
            let d = opus_packet_nanos(pkt);
            &&& c < 12 && c % 4 == 0 ==> d == 10_000_000
            &&& c < 12 && c % 4 == 1 ==> d == 20_000_000
            &&& c < 12 && c % 4 == 2 ==> d == 40_000_000
            &&& c < 12 && c % 4 == 3 ==> d == 60_000_000
            &&& 12 <= c < 16 && c % 2 == 0 ==> d == 10_000_000
            &&& 12 <= c < 16 && c % 2 == 1 ==> d == 20_000_000
            &&& 16 <= c && c % 4 == 0 ==> d == 2_500_000
            &&& 16 <= c && c % 4 == 1 ==> d == 5_000_000
            &&& 16 <= c && c % 4 == 2 ==> d == 10_000_000
            &&& 16 <= c && c % 4 == 3 ==> d == 20_000_000
        }),
{
    let c = pkt[0] / 8;
    assert(c < 32);
    assert(opus_frame_count(pkt) == 1);
}

/// A packet of several frames of one configuration lasts that many times
/// a one-frame packet of the same configuration: codes 1 and 2 hold two
/// frames, code 3 the count in the low six bits of its second byte.
pub proof fn lemma_opus_frames_add_up(one: Seq<u8>, many: Seq<u8>)
    requires
        one.len() >= 1,
        many.len() >= 1,
        one[0] % 4 == 0,
        one[0] / 8 == many[0] / 8,
    ensures
        many[0] % 4 == 1 || many[0] % 4 == 2 ==> opus_packet_nanos(many) == 2 * opus_packet_nanos(one),
        many[0] % 4 == 3 && many.len() >= 2 && many[1] % 64 > 0
            ==> opus_packet_nanos(many) == (many[1] % 64) * opus_packet_nanos(one),
{
    let s = opus_config_samples((one[0] / 8) as nat);
    let m = opus_frame_count(many);
    assert(opus_frame_count(one) == 1);
    assert(s % 120 == 0);
    let k = s / 120;
    assert(s == 120 * k);
    assert(opus_packet_nanos(one) == (s * 1) * 1_000_000_000 / 48000);
    assert((s * 1) * 1_000_000_000 / 48000 == 2_500_000 * k) by (nonlinear_arith)
        requires s == 120 * k;
    assert(opus_packet_nanos(many) == (s * m) * 1_000_000_000 / 48000);
    assert((s * m) * 1_000_000_000 / 48000 == m * (2_500_000 * k)) by (nonlinear_arith)
        requires s == 120 * k;
}

/// Every packet lasts a whole number of 2.5 ms CELT frames, at least one.
pub proof fn lemma_opus_duration_granular(pkt: Seq<u8>)
    ensures
        opus_packet_nanos(pkt) % 2_500_000 == 0,
        opus_packet_nanos(pkt) >= 2_500_000,
{
    if pkt.len() > 0 {
        let s = opus_config_samples((pkt[0] / 8) as nat);
        let c = opus_frame_count(pkt);
        assert(s % 120 == 0 && s >= 120);
        assert(c >= 1);
        let k = (s / 120) * c;
        assert(s * c == 120 * k) by (nonlinear_arith)
            requires s % 120 == 0, k == (s / 120) * c;
        assert(k >= 1) by (nonlinear_arith)
            requires s >= 120, c >= 1, k == (s / 120) * c;
        assert((120 * k) * 1_000_000_000 / 48000 == 2_500_000 * k) by (nonlinear_arith);
        assert((2_500_000 * k) % 2_500_000 == 0) by (nonlinear_arith);
        assert(2_500_000 * k >= 2_500_000) by (nonlinear_arith) requires k >= 1;
    }
}

// ---------------------------------------------------------------------------
// Ogg pages
// ---------------------------------------------------------------------------

/// `OggS`, the capture pattern of every Ogg page.
pub open spec fn ogg_magic() -> Seq<u8> {
    seq![79u8, 103u8, 103u8, 83u8]
}

/// `OpusHead`, the first packet of an Opus stream.
pub open spec fn opus_head_magic() -> Seq<u8> {
    seq![79u8, 112u8, 117u8, 115u8, 72u8, 101u8, 97u8, 100u8]
}

/// `OpusTags`, the second packet of an Opus stream.
pub open spec fn opus_tags_magic() -> Seq<u8> {
    seq![79u8, 112u8, 117u8, 115u8, 84u8, 97u8, 103u8, 115u8]
}

/// Whether `s` begins with `p`.
pub open spec fn bytes_start_with(s: Seq<u8>, p: Seq<u8>) -> bool {
    p.len() <= s.len() && s.take(p.len() as int) == p
}

/// The number of segments of a 27-byte page header, or the error for a
/// header without the `OggS` pattern.
pub fn check_page_header(header: &[u8]) -> (out: Result<usize, RustTgCallsError>)
    requires
        header@.len() >= 27,
    ensures
        header@.take(4) == ogg_magic() ==> out == Ok::<usize, RustTgCallsError>(header@[26] as usize),
        header@.take(4) != ogg_magic() ==> (out matches Err(RustTgCallsError::Internal(m))
            && m@ == "invalid Ogg magic header"@),
{
    if header[0] == 79 && header[1] == 103 && header[2] == 103 && header[3] == 83 {
        assert(header@.take(4) =~= ogg_magic());
        Ok(header[26] as usize)
    } else {
        assert(header@.take(4) != ogg_magic()) by {
            if header@.take(4) == ogg_magic() {
                assert(header@.take(4)[0] == header@[0]);
                assert(header@.take(4)[1] == header@[1]);
                assert(header@.take(4)[2] == header@[2]);
                assert(header@.take(4)[3] == header@[3]);
            }
        }
        Err(RustTgCallsError::Internal(String::from_str("invalid Ogg magic header")))
    }
}

/// The sum of the lacing values of a segment table.
pub open spec fn lacing_sum(seg: Seq<u8>) -> nat
    decreases seg.len(),
{
    if seg.len() == 0 { 0 } else { lacing_sum(seg.drop_last()) + seg.last() as nat }
}

proof fn lemma_lacing_sum_bound(seg: Seq<u8>)
    ensures
        lacing_sum(seg) <= 255 * seg.len(),
    decreases seg.len(),
{
    if seg.len() > 0 {
        lemma_lacing_sum_bound(seg.drop_last());
    }
}

/// The payload size of a page: the sum of its lacing values.
pub fn payload_size(seg: &[u8]) -> (out: usize)
    requires
        seg@.len() <= 255,
    ensures
        out == lacing_sum(seg@),
{
    let mut total: usize = 0;
    let mut i: usize = 0;
    while i < seg.len()
        invariant
            i <= seg@.len(),
            seg@.len() <= 255,
            total == lacing_sum(seg@.take(i as int)),
            total <= 255 * i,
        decreases seg.len() - i,
    {
        proof {
            assert(seg@.take(i as int + 1).drop_last() =~= seg@.take(i as int));
        }
        total = total + seg[i] as usize;
        i = i + 1;
    }
    assert(seg@.take(seg@.len() as int) =~= seg@);
    total
}

/// The parser state: whether the `OpusHead` and `OpusTags` packets have
/// been passed, the audio packets waiting to be taken, and the packet
/// being assembled.
pub struct OggOpusParser {
    skipped_header: bool,
    skipped_tags: bool,
    queue: VecDeque<Vec<u8>>,
    current: Vec<u8>,
}

/// The contents of a sequence of packets.
pub open spec fn packet_views(q: Seq<Vec<u8>>) -> Seq<Seq<u8>> {
    q.map_values(|p: Vec<u8>| p@)
}

/// A parser state as plain values.
pub type OggState = (bool, bool, Seq<Seq<u8>>, Seq<u8>);

/// Ends the packet being assembled: the first `OpusHead` and the first
/// `OpusTags` are passed over, any other non-empty packet is queued (and
/// means the headers are behind us).
pub open spec fn finish_packet(st: OggState, pkt: Seq<u8>) -> OggState {
    let (sh, stg, q, _cur) = st;
    if !sh && bytes_start_with(pkt, opus_head_magic()) {
        (true, stg, q, seq![])
    } else if !stg && bytes_start_with(pkt, opus_tags_magic()) {
        (sh, true, q, seq![])
    } else if pkt.len() > 0 {
        (true, true, q.push(pkt), seq![])
    } else {
        (sh, stg, q, seq![])
    }
}

/// The state after segments `k..` of a page whose payload is read from
/// `offset`: each segment's bytes extend the packet being assembled (when
/// the payload holds them), and a lacing value below 255 ends the packet.
pub open spec fn page_from(st: OggState, seg: Seq<u8>, payload: Seq<u8>, k: int, offset: int) -> OggState
    decreases seg.len() - k,
{
    if k >= seg.len() || k < 0 {
        st
    } else {
        let len = seg[k] as int;
        let end = offset + len;
        let fits = 0 <= offset && end <= payload.len();
        let cur = if fits { st.3 + payload.subrange(offset, end) } else { st.3 };
        let off = if fits { end } else { offset };
        let st1: OggState = (st.0, st.1, st.2, cur);
        if len < 255 {
            page_from(finish_packet(st1, cur), seg, payload, k + 1, off)
        } else {
            page_from(st1, seg, payload, k + 1, off)
        }
    }
}

fn bytes_start_with_exec(s: &Vec<u8>, p: &[u8; 8]) -> (out: bool)
    ensures
        out == bytes_start_with(s@, p@),
{
    if s.len() < 8 {
        return false;
    }
    let mut i: usize = 0;
    while i < 8
        invariant
            i <= 8,
            s@.len() >= 8,
            forall|m: int| 0 <= m < i ==> s@[m] == p@[m],
        decreases 8 - i,
    {
        if s[i] != p[i] {
            assert(s@.take(8)[i as int] != p@[i as int]);
            return false;
        }
        i = i + 1;
    }
    assert(s@.take(8) =~= p@);
    true
}

fn opus_head_bytes() -> (out: [u8; 8])
    ensures
        out@ == opus_head_magic(),
{
    let a: [u8; 8] = [79u8, 112u8, 117u8, 115u8, 72u8, 101u8, 97u8, 100u8];
    assert(a@ =~= opus_head_magic());
    a
}

fn opus_tags_bytes() -> (out: [u8; 8])
    ensures
        out@ == opus_tags_magic(),
{
    let a: [u8; 8] = [79u8, 112u8, 117u8, 115u8, 84u8, 97u8, 103u8, 115u8];
    assert(a@ =~= opus_tags_magic());
    a
}

impl OggOpusParser {
    /// The state as plain values.
    pub closed spec fn state(&self) -> OggState {
        (self.skipped_header, self.skipped_tags, packet_views(self.queue@), self.current@)
    }

    /// A parser at the start of a stream.
    pub fn new() -> (out: OggOpusParser)
        ensures
            out.state() == (false, false, Seq::<Seq<u8>>::empty(), Seq::<u8>::empty()),
    {
        OggOpusParser { skipped_header: false, skipped_tags: false, queue: VecDeque::new(), current: Vec::new() }
    }

    /// Whether audio packets are waiting to be taken.
    pub fn has_packet(&self) -> (out: bool)
        ensures
            out == (self.state().2.len() > 0),
    {
        self.queue.len() > 0
    }

    /// Takes the oldest waiting audio packet, with its duration in nanoseconds.
    pub fn pop_packet(&mut self) -> (out: Option<(Vec<u8>, u64)>)
        ensures
            old(self).state().2.len() == 0 ==> out is None && final(self).state() == old(self).state(),
            old(self).state().2.len() > 0 ==> (out matches Some((p, d)) && p@ == old(self).state().2[0]
                && d == opus_packet_nanos(p@)
                && final(self).state() == (old(self).state().0, old(self).state().1,
                    old(self).state().2.drop_first(), old(self).state().3)),
    {
        match self.queue.pop_front() {
            None => None,
            Some(p) => {
                let d = parse_opus_packet_duration(p.as_slice());
                proof {
                    assert(old(self).state().2.drop_first() =~= packet_views(self.queue@));
                }
                Some((p, d))
            },
        }
    }

    fn finish(&mut self)
        ensures
            final(self).state() == finish_packet(old(self).state(), old(self).state().3),
    {
        let mut pkt: Vec<u8> = Vec::new();
        std::mem::swap(&mut pkt, &mut self.current);
        let head = opus_head_bytes();
        let tags = opus_tags_bytes();
        if !self.skipped_header && bytes_start_with_exec(&pkt, &head) {
            self.skipped_header = true;
        } else if !self.skipped_tags && bytes_start_with_exec(&pkt, &tags) {
            self.skipped_tags = true;
        } else if pkt.len() > 0 {
            self.skipped_header = true;
            self.skipped_tags = true;
            let ghost q0 = packet_views(self.queue@);
            let ghost pv = pkt@;
            self.queue.push_back(pkt);
            assert(packet_views(self.queue@) =~= q0.push(pv));
        }
    }

    /// Consumes one page: its segment table and its payload. Complete
    /// packets are queued; a packet that continues past the page (last
    /// lacing value 255) stays in assembly.
    pub fn ingest_page(&mut self, seg: &[u8], payload: &[u8])
        ensures
            final(self).state() == page_from(old(self).state(), seg@, payload@, 0, 0),
    {
        let mut offset: usize = 0;
        let mut k: usize = 0;
        while k < seg.len()
            invariant
                k <= seg@.len(),
                offset <= payload@.len(),
                page_from(self.state(), seg@, payload@, k as int, offset as int)
                    == page_from(old(self).state(), seg@, payload@, 0, 0),
            decreases seg.len() - k,
        {
            let len = seg[k] as usize;
            let ghost st0 = self.state();
            let ghost off0 = offset as int;
            let ghost fits = off0 + len <= payload@.len();
            if len <= payload.len() - offset {
                let end = offset + len;
                let ghost before = self.current@;
                let mut j: usize = offset;
                while j < end
                    invariant
                        offset <= j <= end,
                        end <= payload@.len(),
                        self.current@ == before + payload@.subrange(offset as int, j as int),
                        before == st0.3,
                        self.state().0 == st0.0,
                        self.state().1 == st0.1,
                        self.state().2 == st0.2,
                    decreases end - j,
                {
                    self.current.push(payload[j]);
                    assert(payload@.subrange(offset as int, j as int + 1) =~= payload@.subrange(offset as int, j as int).push(payload@[j as int]));
                    j = j + 1;
                }
                offset = end;
            }
            let ghost cur = if fits { st0.3 + payload@.subrange(off0, off0 + len) } else { st0.3 };
            assert(self.state().3 =~= cur);
            assert(self.state() == (st0.0, st0.1, st0.2, cur));
            if len < 255 {
                self.finish();
            }
            assert(page_from(st0, seg@, payload@, k as int, off0)
                == page_from(self.state(), seg@, payload@, k as int + 1, offset as int));
            k = k + 1;
        }
    }
}

/// The lacing values of one packet (RFC 3533): a 255 for every full
/// 255 bytes, then the remainder, below 255.
pub open spec fn packet_lacing(p: Seq<u8>) -> Seq<u8> {
    Seq::new(p.len() / 255, |i: int| 255u8).push((p.len() % 255) as u8)
}

/// The segment table of a page holding whole packets.
pub open spec fn page_lacing(ps: Seq<Seq<u8>>) -> Seq<u8>
    decreases ps.len(),
{
    if ps.len() == 0 { seq![] } else { packet_lacing(ps[0]) + page_lacing(ps.skip(1)) }
}

/// The payload of a page holding whole packets.
pub open spec fn page_body(ps: Seq<Seq<u8>>) -> Seq<u8>
    decreases ps.len(),
{
    if ps.len() == 0 { seq![] } else { ps[0] + page_body(ps.skip(1)) }
}

/// Reading the lacing of one packet from its `m`-th segment on assembles
/// the packet and then ends it.
proof fn lemma_packet_from_lacing(st: OggState, seg: Seq<u8>, payload: Seq<u8>, k0: int, o0: int, p: Seq<u8>, m: int)
    requires
        0 <= k0,
        0 <= o0,
        k0 + packet_lacing(p).len() <= seg.len(),
        seg.subrange(k0, k0 + packet_lacing(p).len()) == packet_lacing(p),
        o0 + p.len() <= payload.len(),
        payload.subrange(o0, o0 + p.len()) == p,
        0 <= m <= p.len() / 255,
        st.3 == p.take(255 * m),
    ensures
        page_from(st, seg, payload, k0 + m, o0 + 255 * m)
            == page_from(finish_packet((st.0, st.1, st.2, p), p), seg, payload, k0 + p.len() / 255 + 1, o0 + p.len()),
    decreases p.len() / 255 - m,
{
    let n = p.len() / 255;
    let lace = packet_lacing(p);
    assert(p.len() == 255 * n + p.len() % 255) by (nonlinear_arith)
        requires n == p.len() / 255;
    assert(255 * m <= 255 * n) by (nonlinear_arith)
        requires m <= n;
    let k = k0 + m;
    let off = o0 + 255 * m;
    assert(seg[k] == lace[m]);
    if m == n {
        assert(lace[m] == (p.len() % 255) as u8);
        let len = (p.len() % 255) as int;
        assert(off + len == o0 + p.len());
        assert(st.3 + payload.subrange(off, off + len) =~= p);
    } else {
        assert(lace[m] == 255u8);
        assert(255 * (m + 1) <= 255 * n) by (nonlinear_arith)
            requires m + 1 <= n;
        assert(st.3 + payload.subrange(off, off + 255) =~= p.take(255 * (m + 1)));
        let st1: OggState = (st.0, st.1, st.2, p.take(255 * (m + 1)));
        assert(page_from(st, seg, payload, k, off) == page_from(st1, seg, payload, k + 1, off + 255));
        lemma_packet_from_lacing(st1, seg, payload, k0, o0, p, m + 1);
        assert(o0 + 255 * (m + 1) == off + 255);
    }
}

/// Once the headers are behind, reading the lacing and bytes of whole,
/// non-empty packets queues exactly those packets, in order.
proof fn lemma_packets_from_page(st: OggState, seg: Seq<u8>, payload: Seq<u8>, k: int, o: int, ps: Seq<Seq<u8>>)
    requires
        st.0 && st.1 && st.3.len() == 0,
        0 <= k,
        0 <= o,
        k + page_lacing(ps).len() <= seg.len(),
        seg.subrange(k, k + page_lacing(ps).len()) == page_lacing(ps),
        o + page_body(ps).len() <= payload.len(),
        payload.subrange(o, o + page_body(ps).len()) == page_body(ps),
        forall|i: int| 0 <= i < ps.len() ==> (#[trigger] ps[i]).len() > 0,
    ensures
        page_from(st, seg, payload, k, o)
            == page_from((true, true, st.2 + ps, Seq::<u8>::empty()), seg, payload, k + page_lacing(ps).len(), o + page_body(ps).len()),
    decreases ps.len(),
{
    if ps.len() == 0 {
        assert(st.2 + ps =~= st.2);
        assert(st.3 =~= Seq::<u8>::empty());
    } else {
        let p = ps[0];
        let rest = ps.skip(1);
        let lp = packet_lacing(p);
        assert(page_lacing(ps) == lp + page_lacing(rest));
        assert(page_body(ps) == p + page_body(rest));
        assert(seg.subrange(k, k + lp.len()) =~= lp);
        assert(payload.subrange(o, o + p.len()) =~= p);
        assert(st.3 =~= p.take(0));
        lemma_packet_from_lacing(st, seg, payload, k, o, p, 0);
        assert(lp.len() == p.len() / 255 + 1);
        let st2 = finish_packet((st.0, st.1, st.2, p), p);
        assert(st2 == (true, true, st.2.push(p), Seq::<u8>::empty()));
        let lr = page_lacing(rest);
        let br = page_body(rest);
        assert forall|i: int| 0 <= i < lr.len() implies seg[k + lp.len() + i] == lr[i] by {
            assert(seg.subrange(k, k + page_lacing(ps).len())[lp.len() + i] == (lp + lr)[lp.len() + i]);
        }
        assert(seg.subrange(k + lp.len(), k + lp.len() + lr.len()) =~= lr);
        assert forall|i: int| 0 <= i < br.len() implies payload[o + p.len() + i] == br[i] by {
            assert(payload.subrange(o, o + page_body(ps).len())[p.len() + i] == (p + br)[p.len() + i]);
        }
        assert(payload.subrange(o + p.len(), o + p.len() + br.len()) =~= br);
        assert forall|i: int| 0 <= i < rest.len() implies (#[trigger] rest[i]).len() > 0 by {
            assert(rest[i] == ps[i + 1]);
        }
        lemma_packets_from_page(st2, seg, payload, k + lp.len(), o + p.len(), rest);
        assert(st.2.push(p) + rest =~= st.2 + ps);
    }
}

/// A page that laces whole, non-empty audio packets, taken in once the
/// `OpusHead` and `OpusTags` packets are behind and no packet is in
/// assembly, queues exactly those packets after the waiting ones, in order.
pub proof fn lemma_page_queues_its_packets(st: OggState, ps: Seq<Seq<u8>>)
    requires
        st.0 && st.1 && st.3.len() == 0,
        forall|i: int| 0 <= i < ps.len() ==> (#[trigger] ps[i]).len() > 0,
    ensures
        page_from(st, page_lacing(ps), page_body(ps), 0, 0) == (true, true, st.2 + ps, Seq::<u8>::empty()),
{
    let seg = page_lacing(ps);
    let body = page_body(ps);
    assert(seg.subrange(0, seg.len() as int) =~= seg);
    assert(body.subrange(0, body.len() as int) =~= body);
    lemma_packets_from_page(st, seg, body, 0, 0, ps);
}

/// The state after taking in, in order, pages that each lace whole packets
/// (each page given by its packets).
pub open spec fn ingest_pages(st: OggState, pages: Seq<Seq<Seq<u8>>>) -> OggState
    decreases pages.len(),
{
    if pages.len() == 0 {
        st
    } else {
        ingest_pages(page_from(st, page_lacing(pages[0]), page_body(pages[0]), 0, 0), pages.skip(1))
    }
}

/// The packets of pages, in order.
pub open spec fn pages_packets(pages: Seq<Seq<Seq<u8>>>) -> Seq<Seq<u8>>
    decreases pages.len(),
{
    if pages.len() == 0 { seq![] } else { pages[0] + pages_packets(pages.skip(1)) }
}

proof fn lemma_audio_pages(st: OggState, pages: Seq<Seq<Seq<u8>>>)
    requires
        st.0 && st.1 && st.3.len() == 0,
        forall|j: int, i: int| 0 <= j < pages.len() && 0 <= i < pages[j].len() ==> (#[trigger] pages[j][i]).len() > 0,
    ensures
        ingest_pages(st, pages) == (true, true, st.2 + pages_packets(pages), Seq::<u8>::empty()),
    decreases pages.len(),
{
    if pages.len() == 0 {
        assert(st.2 + pages_packets(pages) =~= st.2);
        assert(st.3 =~= Seq::<u8>::empty());
    } else {
        let ps = pages[0];
        assert forall|i: int| 0 <= i < ps.len() implies (#[trigger] ps[i]).len() > 0 by {
            assert(pages[0][i] == ps[i]);
        }
        lemma_page_queues_its_packets(st, ps);
        let st1: OggState = (true, true, st.2 + ps, Seq::<u8>::empty());
        let rest = pages.skip(1);
        assert forall|j: int, i: int| 0 <= j < rest.len() && 0 <= i < rest[j].len() implies (#[trigger] rest[j][i]).len() > 0 by {
            assert(rest[j] == pages[j + 1]);
        }
        lemma_audio_pages(st1, rest);
        assert(st.2 + ps + pages_packets(rest) =~= st.2 + pages_packets(pages));
    }
}

/// A page holding one header packet passes over it.
proof fn lemma_header_page(st: OggState, h: Seq<u8>)
    requires
        st.3.len() == 0,
    ensures
        page_from(st, page_lacing(seq![h]), page_body(seq![h]), 0, 0) == finish_packet((st.0, st.1, st.2, h), h),
{
    let ps = seq![h];
    assert(ps.skip(1) =~= Seq::<Seq<u8>>::empty());
    assert(page_lacing(ps) == packet_lacing(h) + page_lacing(ps.skip(1)));
    assert(page_lacing(ps) =~= packet_lacing(h));
    assert(page_body(ps) == h + page_body(ps.skip(1)));
    assert(page_body(ps) =~= h);
    let seg = page_lacing(ps);
    assert(seg.subrange(0, seg.len() as int) =~= seg);
    assert(h.subrange(0, h.len() as int) =~= h);
    assert(st.3 =~= h.take(0));
    lemma_packet_from_lacing(st, seg, h, 0, 0, h, 0);
}

/// An Ogg Opus stream whose first page holds the `OpusHead` packet, whose
/// second holds `OpusTags`, and whose further pages lace whole non-empty
/// audio packets leaves, from a fresh parser, exactly the audio packets
/// queued, in stream order, with nothing in assembly.
pub proof fn lemma_stream_queues_audio(head: Seq<u8>, tags: Seq<u8>, pages: Seq<Seq<Seq<u8>>>)
    requires
        bytes_start_with(head, opus_head_magic()),
        bytes_start_with(tags, opus_tags_magic()),
        forall|j: int, i: int| 0 <= j < pages.len() && 0 <= i < pages[j].len() ==> (#[trigger] pages[j][i]).len() > 0,
    ensures
        ingest_pages((false, false, Seq::<Seq<u8>>::empty(), Seq::<u8>::empty()), seq![seq![head], seq![tags]] + pages)
            == (true, true, pages_packets(pages), Seq::<u8>::empty()),
{
    let st0: OggState = (false, false, Seq::<Seq<u8>>::empty(), Seq::<u8>::empty());
    let all = seq![seq![head], seq![tags]] + pages;
    lemma_header_page(st0, head);
    let st1: OggState = (true, false, Seq::<Seq<u8>>::empty(), Seq::<u8>::empty());
    assert(finish_packet((st0.0, st0.1, st0.2, head), head) == st1);
    assert(all[0] == seq![head]);
    assert(all.skip(1) =~= seq![seq![tags]] + pages);
    lemma_header_page(st1, tags);
    assert(opus_head_magic() != opus_tags_magic()) by {
        assert(opus_head_magic()[4] != opus_tags_magic()[4]);
    }
    let st2: OggState = (true, true, Seq::<Seq<u8>>::empty(), Seq::<u8>::empty());
    assert(finish_packet((st1.0, st1.1, st1.2, tags), tags) == st2);
    assert(all.skip(1)[0] == seq![tags]);
    assert(all.skip(1).skip(1) =~= pages);
    lemma_audio_pages(st2, pages);
    assert(st2.2 + pages_packets(pages) =~= pages_packets(pages));
    let rest1 = all.skip(1);
    assert(ingest_pages(st0, all) == ingest_pages(page_from(st0, page_lacing(all[0]), page_body(all[0]), 0, 0), rest1));
    assert(ingest_pages(st0, all) == ingest_pages(st1, rest1));
    assert(ingest_pages(st1, rest1) == ingest_pages(page_from(st1, page_lacing(rest1[0]), page_body(rest1[0]), 0, 0), rest1.skip(1)));
    assert(ingest_pages(st1, rest1) == ingest_pages(st2, pages));
}

/// Audio packets are never empty.
pub proof fn lemma_queued_packets_nonempty(st: OggState, seg: Seq<u8>, payload: Seq<u8>, k: int, offset: int)
    requires
        forall|i: int| 0 <= i < st.2.len() ==> (#[trigger] st.2[i]).len() > 0,
    ensures
        forall|i: int| 0 <= i < page_from(st, seg, payload, k, offset).2.len()
            ==> (#[trigger] page_from(st, seg, payload, k, offset).2[i]).len() > 0,
    decreases seg.len() - k,
{
    let r = page_from(st, seg, payload, k, offset);
    if k >= seg.len() || k < 0 {
    } else {
        let len = seg[k] as int;
        let end = offset + len;
        let fits = 0 <= offset && end <= payload.len();
        let cur = if fits { st.3 + payload.subrange(offset, end) } else { st.3 };
        let off = if fits { end } else { offset };
        let st1: OggState = (st.0, st.1, st.2, cur);
        if len < 255 {
            let st2 = finish_packet(st1, cur);
            assert forall|i: int| 0 <= i < st2.2.len() implies (#[trigger] st2.2[i]).len() > 0 by {
                if i < st.2.len() {
                    assert(st2.2[i] == st.2[i]);
                }
            }
            lemma_queued_packets_nonempty(st2, seg, payload, k + 1, off);
            assert(r == page_from(st2, seg, payload, k + 1, off));
        } else {
            lemma_queued_packets_nonempty(st1, seg, payload, k + 1, off);
            assert(r == page_from(st1, seg, payload, k + 1, off));
        }
    }
}

// ---------------------------------------------------------------------------
// IVF
// ---------------------------------------------------------------------------

/// A little-endian 32-bit value.
pub open spec fn le32(b: Seq<u8>, at: int) -> nat {
    (b[at] as nat) + 256 * (b[at + 1] as nat) + 65536 * (b[at + 2] as nat) + 16777216 * (b[at + 3] as nat)
}

fn read_le32(b: &[u8], at: usize) -> (out: u32)
    requires
        at + 4 <= b@.len(),
    ensures
        out == le32(b@, at as int),
{
    b[at] as u32 + 256 * (b[at + 1] as u32) + 65536 * (b[at + 2] as u32) + 16777216 * (b[at + 3] as u32)
}

/// `DKIF`, the signature of an IVF file.
pub open spec fn ivf_magic() -> Seq<u8> {
    seq![68u8, 75u8, 73u8, 70u8]
}

/// The frame duration of an IVF file header with the given time base, or
/// the one already in use when the time base has a zero part.
pub open spec fn ivf_frame_nanos(h: Seq<u8>, current: nat) -> nat {
    let den = le32(h, 16);
    let num = le32(h, 20);
    if den > 0 && num > 0 { num * 1_000_000_000 / den } else { current }
}

/// The frame duration an IVF header sets is its time base in
/// nanoseconds, rounded down: with a non-zero denominator `den` (bytes 16
/// to 20, little-endian) and numerator `num` (bytes 20 to 24), the
/// duration `d` satisfies `d * den <= num * 10^9 < (d + 1) * den`, so it
/// scales with the numerator; a zero in either keeps the current duration.
pub proof fn lemma_ivf_frame_duration_is_time_base(h: Seq<u8>, current: nat)
    requires
        h.len() >= 24,
    ensures
        ({
            let den = h[16] + 256 * h[17] + 65536 * h[18] + 16777216 * h[19];
            let num = h[20] + 256 * h[21] + 65536 * h[22] + 16777216 * h[23];
            let d = ivf_frame_nanos(h, current);
            &&& den > 0 && num > 0 ==> d * den <= num * 1_000_000_000 < (d + 1) * den
            &&& (den == 0 || num == 0) ==> d == current
        }),
{
    let den = le32(h, 16);
    let num = le32(h, 20);
    if den > 0 && num > 0 {
        let n = num * 1_000_000_000;
        let d = n / den;
        assert(d * den <= n && n < (d + 1) * den) by (nonlinear_arith)
            requires den > 0, d == n / den;
    }
}

/// The state of an IVF stream: whether the file header was read, and the
/// duration of a frame.
pub struct IvfStream {
    pub header_read: bool,
    pub frame_nanos: u64,
}

impl IvfStream {
    /// A stream before its header, at 30 frames per second.
    pub fn new() -> (out: IvfStream)
        ensures
            !out.header_read,
            out.frame_nanos == 33_333_333,
    {
        IvfStream { header_read: false, frame_nanos: 33_333_333 }
    }

    /// Reads the 32-byte file header: checks the signature and takes the
    /// frame duration from the time base.
    pub fn read_header(&mut self, h: &[u8]) -> (out: Result<(), RustTgCallsError>)
        requires
            h@.len() >= 32,
        ensures
            h@.take(4) == ivf_magic() ==> out is Ok && final(self).header_read
                && final(self).frame_nanos == ivf_frame_nanos(h@, old(self).frame_nanos as nat),
            h@.take(4) != ivf_magic() ==> (out matches Err(RustTgCallsError::Internal(m))
                && m@ == "invalid IVF magic header"@) && *final(self) == *old(self),
    {
        if !(h[0] == 68 && h[1] == 75 && h[2] == 73 && h[3] == 70) {
            assert(h@.take(4) != ivf_magic()) by {
                if h@.take(4) == ivf_magic() {
                    assert(h@.take(4)[0] == h@[0]);
                    assert(h@.take(4)[1] == h@[1]);
                    assert(h@.take(4)[2] == h@[2]);
                    assert(h@.take(4)[3] == h@[3]);
                }
            }
            return Err(RustTgCallsError::Internal(String::from_str("invalid IVF magic header")));
        }
        assert(h@.take(4) =~= ivf_magic());
        let den = read_le32(h, 16);
        let num = read_le32(h, 20);
        if den > 0 && num > 0 {
            let n = num as u64 * 1_000_000_000;
            assert(n / (den as u64) <= n) by (nonlinear_arith) requires den > 0;
            self.frame_nanos = n / (den as u64);
        }
        self.header_read = true;
        Ok(())
    }
}

/// The payload size of a 12-byte IVF frame header.
pub fn ivf_frame_size(fh: &[u8]) -> (out: usize)
    requires
        fh@.len() >= 12,
    ensures
        out == le32(fh@, 0),
{
    read_le32(fh, 0) as usize
}

/// Little-endian bytes of a 32-bit value.
pub open spec fn le32_bytes(n: u32) -> Seq<u8> {
    seq![(n % 256) as u8, ((n / 256) % 256) as u8, ((n / 65536) % 256) as u8, (n / 16777216) as u8]
}

/// The frames of an IVF file after its 32-byte header: each a 12-byte
/// frame header (size little-endian, then an 8-byte timestamp) and the
/// frame's bytes.
pub open spec fn ivf_body(frames: Seq<(Seq<u8>, Seq<u8>)>) -> Seq<u8>
    decreases frames.len(),
{
    if frames.len() == 0 {
        seq![]
    } else {
        le32_bytes(frames[0].1.len() as u32) + frames[0].0 + frames[0].1 + ivf_body(frames.skip(1))
    }
}

/// What reading frames off an IVF body gives: a frame header, the size
/// `ivf_frame_size` reads from it, that many bytes, and on to the next;
/// reading stops where a header or a frame is cut short.
pub open spec fn ivf_read_frames(b: Seq<u8>) -> Seq<Seq<u8>>
    decreases b.len(),
{
    if b.len() < 12 {
        seq![]
    } else {
        let n = le32(b, 0);
        if 12 + n > b.len() {
            seq![]
        } else {
            seq![b.subrange(12, 12 + n as int)] + ivf_read_frames(b.skip(12 + n as int))
        }
    }
}

proof fn lemma_le32_roundtrip(n: u32)
    ensures
        le32(le32_bytes(n), 0) == n,
{
    let b = le32_bytes(n);
    assert(b[0] as nat == n % 256);
    assert(b[1] as nat == (n / 256) % 256);
    assert(b[2] as nat == (n / 65536) % 256);
    assert(b[3] as nat == n / 16777216);
    assert((n % 256) + 256 * ((n / 256) % 256) + 65536 * ((n / 65536) % 256) + 16777216 * (n / 16777216) == n as int)
        by (nonlinear_arith);
}

/// Reading an IVF body frame by frame gives back exactly its frames, in
/// order, when every timestamp field is 8 bytes and every frame fits the
/// 32-bit size field.
pub proof fn lemma_ivf_frames_read_back(frames: Seq<(Seq<u8>, Seq<u8>)>)
    requires
        forall|i: int| 0 <= i < frames.len() ==> (#[trigger] frames[i]).0.len() == 8 && frames[i].1.len() <= u32::MAX,
    ensures
        ivf_read_frames(ivf_body(frames)) == frames.map_values(|f: (Seq<u8>, Seq<u8>)| f.1),
    decreases frames.len(),
{
    let want = frames.map_values(|f: (Seq<u8>, Seq<u8>)| f.1);
    if frames.len() == 0 {
        assert(ivf_read_frames(ivf_body(frames)) =~= want);
    } else {
        let (pts, data) = frames[0];
        let rest = frames.skip(1);
        let b = ivf_body(frames);
        let hdr = le32_bytes(data.len() as u32);
        assert(b == hdr + pts + data + ivf_body(rest));
        lemma_le32_roundtrip(data.len() as u32);
        assert(b.subrange(0, 4) =~= hdr);
        assert(le32(b, 0) == le32(hdr, 0));
        assert(b.subrange(12, 12 + data.len() as int) =~= data);
        assert(b.skip(12 + data.len() as int) =~= ivf_body(rest));
        assert forall|i: int| 0 <= i < rest.len() implies (#[trigger] rest[i]).0.len() == 8 && rest[i].1.len() <= u32::MAX by {
            assert(rest[i] == frames[i + 1]);
        }
        lemma_ivf_frames_read_back(rest);
        assert(seq![data] + rest.map_values(|f: (Seq<u8>, Seq<u8>)| f.1) =~= want);
    }
}

} // verus!
