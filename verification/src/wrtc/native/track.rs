//! The send-only RTP track of one media kind.

use vstd::prelude::*;

verus! {

/// Audio or video.
#[derive(Debug, Clone, Copy, PartialEq, Eq, Structural)]
pub enum Kind {
    Audio,
    Video,
}

/// The RTP payload type of a kind: 111 (Opus) or 100 (VP8).
pub open spec fn kind_pt(k: Kind) -> u8 {
    match k {
        Kind::Audio => 111,
        Kind::Video => 100,
    }
}

/// The RTP clock rate of a kind: 48 kHz for Opus, 90 kHz for VP8.
pub open spec fn kind_clock_rate(k: Kind) -> u32 {
    match k {
        Kind::Audio => 48000,
        Kind::Video => 90000,
    }
}

/// The packetiser side of a track: its kind, SSRC, payload type and clock rate.
#[derive(Debug, Clone, Copy, PartialEq, Eq, Structural)]
pub struct Track {
    kind: Kind,
    ssrc: u32,
    clock_rate: u32,
    pt: u8,
}

impl Track {
    pub closed spec fn spec_kind(&self) -> Kind {
        self.kind
    }

    pub closed spec fn spec_ssrc(&self) -> u32 {
        self.ssrc
    }

    pub closed spec fn spec_pt(&self) -> u8 {
        self.pt
    }

    pub closed spec fn spec_clock_rate(&self) -> u32 {
        self.clock_rate
    }

    /// A track of the given kind on the given SSRC.
    pub fn new(kind: Kind, ssrc: u32) -> (out: Track)
        ensures
            out.spec_kind() == kind,
            out.spec_ssrc() == ssrc,
            out.spec_pt() == kind_pt(kind),
            out.spec_clock_rate() == kind_clock_rate(kind),
    {
        let (pt, clock_rate): (u8, u32) = match kind {
            Kind::Audio => (111, 48000),
            Kind::Video => (100, 90000),
        };
        Track { kind, ssrc, clock_rate, pt }
    }

    /// The SSRC this track packetises into.
    pub fn ssrc(&self) -> (out: u32)
        ensures
            out == self.spec_ssrc(),
    {
        self.ssrc
    }

    /// Whether this is an audio or a video track.
    pub fn kind(&self) -> (out: Kind)
        ensures
            out == self.spec_kind(),
    {
        self.kind
    }

    /// The RTP payload type (111 for Opus, 100 for VP8).
    pub fn pt(&self) -> (out: u8)
        ensures
            out == self.spec_pt(),
    {
        self.pt
    }

    /// The RTP clock rate in Hz (48000 for Opus, 90000 for VP8).
    pub fn clock_rate(&self) -> (out: u32)
        ensures
            out == self.spec_clock_rate(),
    {
        self.clock_rate
    }
}

} // verus!
