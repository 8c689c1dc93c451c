//! Checking Telegram's answer once it has been decoded.

use vstd::prelude::*;
use crate::models::errors::RustTgCallsError;
use crate::wrtc::jsonparams::types::RemoteParams;

verus! {

/// Signals that Telegram's answer describes an RTMP livestream or a
/// broadcast stream rather than a WebRTC call.
pub const ERR_UNSUPPORTED_MODE: &'static str = "call mode unsupported";

/// Whether Telegram's decoded answer is accepted: not a stream-mode answer,
/// decoded, with ICE credentials and at least one fingerprint.
pub open spec fn remote_accepted(stream_mode: bool, decoded: Result<RemoteParams, String>) -> bool {
    &&& !stream_mode
    &&& decoded matches Ok(rp)
    &&& rp.transport.ufrag@.len() > 0
    &&& rp.transport.pwd@.len() > 0
    &&& rp.transport.fingerprints@.len() > 0
}

/// The error an answer that is not accepted is refused with.
pub open spec fn remote_rejection(stream_mode: bool, decoded: Result<RemoteParams, String>, e: RustTgCallsError) -> bool {
    if stream_mode {
        e == RustTgCallsError::UnsupportedCallMode
    } else {
        match decoded {
            Err(d) => e matches RustTgCallsError::InvalidParams(m) && m@ == "decode remote params: "@ + d@,
            Ok(rp) => if rp.transport.ufrag@.len() == 0 || rp.transport.pwd@.len() == 0 {
                e matches RustTgCallsError::InvalidParams(m) && m@ == "remote params missing ice creds"@
            } else {
                e matches RustTgCallsError::InvalidParams(m) && m@ == "remote params missing fingerprint"@
            },
        }
    }
}

/// Checks Telegram's decoded answer. `stream_mode` tells whether the answer
/// has a non-null `rtmp` or `stream` key; `decoded` is the decoded answer or
/// the decoder's message. Missing ICE credentials or fingerprints are refused.
pub fn parse_remote(stream_mode: bool, decoded: Result<RemoteParams, String>) -> (out: Result<RemoteParams, RustTgCallsError>)
    ensures
        out is Ok <==> remote_accepted(stream_mode, decoded),
        out matches Ok(rp) ==> decoded == Ok::<RemoteParams, String>(rp),
        out matches Err(e) ==> remote_rejection(stream_mode, decoded, e),
{
    if stream_mode {
        return Err(RustTgCallsError::UnsupportedCallMode);
    }
    let rp = match decoded {
        Err(e) => {
            let mut m = String::from_str("decode remote params: ");
            crate::utils::text::push_str(&mut m, e.as_str());
            return Err(RustTgCallsError::InvalidParams(m));
        },
        Ok(rp) => rp,
    };
    if rp.transport.ufrag.as_str().is_empty() || rp.transport.pwd.as_str().is_empty() {
        return Err(RustTgCallsError::InvalidParams(String::from_str("remote params missing ice creds")));
    }
    if rp.transport.fingerprints.len() == 0 {
        return Err(RustTgCallsError::InvalidParams(String::from_str("remote params missing fingerprint")));
    }
    Ok(rp)
}

} // verus!
