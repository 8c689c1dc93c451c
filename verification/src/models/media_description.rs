//! Media kinds and the payload constants Telegram's SFU expects.

use vstd::prelude::*;

verus! {

/// The capture device a stream is reported under.
#[derive(Debug, Clone, Copy, PartialEq, Eq, Hash, Structural)]
pub enum Device {
    Microphone,
    Camera,
}

impl Device {
    /// The lower-case name of the device (what `Display` prints).
    pub fn name(&self) -> (out: &'static str)
        ensures
            out@ == (match *self {
                Device::Microphone => "microphone"@,
                Device::Camera => "camera"@,
            }),
    {
        match self {
            Device::Microphone => "microphone",
            Device::Camera => "camera",
        }
    }
}

/// The kind of an outgoing stream.
#[derive(Debug, Clone, Copy, PartialEq, Eq, Hash, Structural)]
pub enum StreamType {
    Audio,
    Video,
}

impl StreamType {
    /// The lower-case name of the stream type (what `Display` prints).
    pub fn name(&self) -> (out: &'static str)
        ensures
            out@ == (match *self {
                StreamType::Audio => "audio"@,
                StreamType::Video => "video"@,
            }),
    {
        match self {
            StreamType::Audio => "audio",
            StreamType::Video => "video",
        }
    }
}

pub const DEFAULT_CHANNEL_COUNT: u16 = 2;
pub const OPUS_SAMPLE_RATE: u32 = 48000;
pub const OPUS_FRAME_DURATION_MS: u32 = 20;
pub const OPUS_PAYLOAD_TYPE: u8 = 111;
pub const VP8_PAYLOAD_TYPE: u8 = 100;

} // verus!
