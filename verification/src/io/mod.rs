//! The ffmpeg subprocess reader's own decisions.

pub mod shell_reader;
