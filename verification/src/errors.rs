//! The gateway's error taxonomy and how each failure is reported to the
//! client: a 4xx/5xx status and a short diagnostic byte string.
use vstd::prelude::*;

use crate::ascii::append_bytes;
use crate::names::{
    b_backend_failed, b_invalid_target, b_invalid_ws_url, b_timeout_text, b_ws_failed,
    n_backend_failed, n_invalid_target, n_invalid_ws_url, n_timeout_text, n_ws_failed,
};

verus! {

/// Everything that can go wrong inside the proxy core.  Transport-level
/// detail text travels beside the variant, not inside it.
#[derive(PartialEq, Eq, Structural, Clone, Copy, Debug)]
pub enum GatewayError {
    /// The composed backend target is not a well-formed URL.
    InvalidTarget,
    /// The composed upstream WebSocket URL is not well-formed.
    InvalidUpstreamUrl,
    /// Transport-level connect or send failure on the HTTP path.
    BackendUnreachable,
    /// The WebSocket handshake with the backend failed or was refused.
    UpstreamHandshakeFailed,
    /// The backend call exceeded the configured deadline.
    Timeout,
}

/// The client-facing status code for each failure.
pub open spec fn spec_error_status(e: GatewayError) -> u16 {
    match e {
        GatewayError::InvalidTarget => 500,
        GatewayError::InvalidUpstreamUrl => 400,
        GatewayError::BackendUnreachable => 502,
        GatewayError::UpstreamHandshakeFailed => 502,
        GatewayError::Timeout => 504,
    }
}

/// The client-facing diagnostic text for each failure; transport
/// failures carry the underlying error text after a fixed prefix.
pub open spec fn spec_error_body(e: GatewayError, detail: Seq<u8>) -> Seq<u8> {
    match e {
        GatewayError::InvalidTarget => n_invalid_target(),
        GatewayError::InvalidUpstreamUrl => n_invalid_ws_url(),
        GatewayError::BackendUnreachable => n_backend_failed() + detail,
        GatewayError::UpstreamHandshakeFailed => n_ws_failed() + detail,
        GatewayError::Timeout => n_timeout_text(),
    }
}

/// Renders a failure as the status and body sent to the client.
pub fn error_response(e: GatewayError, detail: &[u8]) -> (r: (u16, Vec<u8>))
    ensures
        r.0 == spec_error_status(e),
        r.1@ == spec_error_body(e, detail@),
{
    match e {
        GatewayError::InvalidTarget => (500, b_invalid_target()),
        GatewayError::InvalidUpstreamUrl => (400, b_invalid_ws_url()),
        GatewayError::BackendUnreachable => {
            let mut body = b_backend_failed();
            append_bytes(&mut body, detail);
            (502, body)
        },
        GatewayError::UpstreamHandshakeFailed => {
            let mut body = b_ws_failed();
            append_bytes(&mut body, detail);
            (502, body)
        },
        GatewayError::Timeout => (504, b_timeout_text()),
    }
}

} // verus!
