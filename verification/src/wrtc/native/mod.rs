//! Native transport pieces: DTLS-SRTP keying, remote parameters, local
//! parameters and RTP tracks.

pub mod certpool;
pub mod direct_transport;
pub mod factory;
pub mod keys;
pub mod remote;
pub mod signaling;
pub mod track;
