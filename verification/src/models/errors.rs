//! The error type of every fallible operation of the library.

use vstd::prelude::*;
use crate::utils::text::push_str;

verus! {

/// Errors reported by the library.
#[derive(Debug, Clone, PartialEq, Eq)]
pub enum RustTgCallsError {
    ConnectionExists,
    ConnectionNotFound,
    ConnectionFailed,
    InvalidParams(String),
    UnsupportedCallMode,
    FFmpegSpawn(String),
    FFmpegCrashed(String),
    WebRTC(String),
    File,
    Closed,
    Internal(String),
    NotConnected,
    WrongMode,
    NoSource,
    SeekUnsupported,
}

/// The human-readable message of an error.
pub open spec fn error_message(e: RustTgCallsError) -> Seq<char> {
    match e {
        RustTgCallsError::ConnectionExists => "rusttgcalls: call already exists for chat"@,
        RustTgCallsError::ConnectionNotFound => "rusttgcalls: no call for chat"@,
        RustTgCallsError::ConnectionFailed => "rusttgcalls: ICE failed permanently"@,
        RustTgCallsError::InvalidParams(s) => "rusttgcalls: malformed telegram params: "@ + s@,
        RustTgCallsError::UnsupportedCallMode => "rusttgcalls: call mode not supported"@,
        RustTgCallsError::FFmpegSpawn(s) => "rusttgcalls: ffmpeg failed to start: "@ + s@,
        RustTgCallsError::FFmpegCrashed(s) => "rusttgcalls: ffmpeg exited non-zero: "@ + s@,
        RustTgCallsError::WebRTC(s) => "rusttgcalls: webrtc error: "@ + s@,
        RustTgCallsError::File => "rusttgcalls: input file unreadable"@,
        RustTgCallsError::Closed => "rusttgcalls: client closed"@,
        RustTgCallsError::Internal(s) => "rusttgcalls: internal error: "@ + s@,
        RustTgCallsError::NotConnected => "rusttgcalls: call not connected"@,
        RustTgCallsError::WrongMode => "rusttgcalls: operation not valid for call mode"@,
        RustTgCallsError::NoSource => "rusttgcalls: no source currently playing"@,
        RustTgCallsError::SeekUnsupported => "rusttgcalls: source is not seekable"@,
    }
}

impl RustTgCallsError {
    /// The message that describes this error (what `Display` prints).
    pub fn message(&self) -> (out: String)
        ensures
            out@ == error_message(*self),
    {
        match self {
            RustTgCallsError::ConnectionExists => String::from_str("rusttgcalls: call already exists for chat"),
            RustTgCallsError::ConnectionNotFound => String::from_str("rusttgcalls: no call for chat"),
            RustTgCallsError::ConnectionFailed => String::from_str("rusttgcalls: ICE failed permanently"),
            RustTgCallsError::InvalidParams(s) => {
                let mut out = String::from_str("rusttgcalls: malformed telegram params: ");
                push_str(&mut out, s.as_str());
                out
            },
            RustTgCallsError::UnsupportedCallMode => String::from_str("rusttgcalls: call mode not supported"),
            RustTgCallsError::FFmpegSpawn(s) => {
                let mut out = String::from_str("rusttgcalls: ffmpeg failed to start: ");
                push_str(&mut out, s.as_str());
                out
            },
            RustTgCallsError::FFmpegCrashed(s) => {
                let mut out = String::from_str("rusttgcalls: ffmpeg exited non-zero: ");
                push_str(&mut out, s.as_str());
                out
            },
            RustTgCallsError::WebRTC(s) => {
                let mut out = String::from_str("rusttgcalls: webrtc error: ");
                push_str(&mut out, s.as_str());
                out
            },
            RustTgCallsError::File => String::from_str("rusttgcalls: input file unreadable"),
            RustTgCallsError::Closed => String::from_str("rusttgcalls: client closed"),
            RustTgCallsError::Internal(s) => {
                let mut out = String::from_str("rusttgcalls: internal error: ");
                push_str(&mut out, s.as_str());
                out
            },
            RustTgCallsError::NotConnected => String::from_str("rusttgcalls: call not connected"),
            RustTgCallsError::WrongMode => String::from_str("rusttgcalls: operation not valid for call mode"),
            RustTgCallsError::NoSource => String::from_str("rusttgcalls: no source currently playing"),
            RustTgCallsError::SeekUnsupported => String::from_str("rusttgcalls: source is not seekable"),
        }
    }
}

} // verus!
