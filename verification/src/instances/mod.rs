//! Per-chat call state: the WebRTC group call and the RTMP push call, as
//! state machines whose steps say what the caller must do next.

pub mod group_call;
pub mod rtmp_call;
