//! Library for streaming audio and video into Telegram group calls: the
//! verified core (argument builders, container parsers, signalling checks,
//! call state machines and byte rings).

pub mod utils;
pub mod models;
pub mod media;
pub mod wrtc;
pub mod instances;
pub mod client_options;
pub mod io;
