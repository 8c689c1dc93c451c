//! Source preparation: track masks, encode options, ffmpeg argument
//! building, ogg/ivf frame parsing.

pub mod source;
pub mod shell_source;
pub mod transcode;
pub mod frame_reader;
pub mod streamer;
