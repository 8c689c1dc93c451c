//! The SDP-like JSON envelope that Telegram's group-call signalling uses in
//! place of standard SDP offer/answer.

pub mod decode;
pub mod types;
