//! Telegram group-call signalling: the JSON parameter envelope, ICE
//! candidates, DTLS-SRTP keying, RTP tracks and the factory settings.

pub mod jsonparams;
pub mod keepalive;
pub mod native;
pub mod peer_factory;
