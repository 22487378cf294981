//! The literal header names, header values and message fragments the
//! gateway's rules are stated over, each as a byte sequence in spec form
//! (`n_*`) with an executable constructor (`b_*`).
use vstd::prelude::*;

use crate::ascii::{bytes_of, str_to_bytes};

verus! {

pub open spec fn n_host() -> Seq<u8> {
    bytes_of("host"@)
}

pub fn b_host() -> (r: Vec<u8>)
    ensures
        r@ == n_host(),
{
    proof {
        reveal_strlit("host");
        assert(forall|i: int| 0 <= i < ("host")@.len() ==> (("host")@[i] as u32) < 128);
    }
    str_to_bytes("host")
}

pub open spec fn n_connection() -> Seq<u8> {
    bytes_of("connection"@)
}

pub fn b_connection() -> (r: Vec<u8>)
    ensures
        r@ == n_connection(),
{
    proof {
        reveal_strlit("connection");
        assert(forall|i: int| 0 <= i < ("connection")@.len() ==> (("connection")@[i] as u32) < 128);
    }
    str_to_bytes("connection")
}

pub open spec fn n_keep_alive() -> Seq<u8> {
    bytes_of("keep-alive"@)
}

pub fn b_keep_alive() -> (r: Vec<u8>)
    ensures
        r@ == n_keep_alive(),
{
    proof {
        reveal_strlit("keep-alive");
        assert(forall|i: int| 0 <= i < ("keep-alive")@.len() ==> (("keep-alive")@[i] as u32) < 128);
    }
    str_to_bytes("keep-alive")
}

pub open spec fn n_proxy_authenticate() -> Seq<u8> {
    bytes_of("proxy-authenticate"@)
}

pub fn b_proxy_authenticate() -> (r: Vec<u8>)
    ensures
        r@ == n_proxy_authenticate(),
{
    proof {
        reveal_strlit("proxy-authenticate");
        assert(forall|i: int| 0 <= i < ("proxy-authenticate")@.len() ==> (("proxy-authenticate")@[i] as u32) < 128);
    }
    str_to_bytes("proxy-authenticate")
}

pub open spec fn n_proxy_authorization() -> Seq<u8> {
    bytes_of("proxy-authorization"@)
}

pub fn b_proxy_authorization() -> (r: Vec<u8>)
    ensures
        r@ == n_proxy_authorization(),
{
    proof {
        reveal_strlit("proxy-authorization");
        assert(forall|i: int| 0 <= i < ("proxy-authorization")@.len() ==> (("proxy-authorization")@[i] as u32) < 128);
    }
    str_to_bytes("proxy-authorization")
}

pub open spec fn n_te() -> Seq<u8> {
    bytes_of("te"@)
}

pub fn b_te() -> (r: Vec<u8>)
    ensures
        r@ == n_te(),
{
    proof {
        reveal_strlit("te");
        assert(forall|i: int| 0 <= i < ("te")@.len() ==> (("te")@[i] as u32) < 128);
    }
    str_to_bytes("te")
}

pub open spec fn n_trailer() -> Seq<u8> {
    bytes_of("trailer"@)
}

pub fn b_trailer() -> (r: Vec<u8>)
    ensures
        r@ == n_trailer(),
{
    proof {
        reveal_strlit("trailer");
        assert(forall|i: int| 0 <= i < ("trailer")@.len() ==> (("trailer")@[i] as u32) < 128);
    }
    str_to_bytes("trailer")
}

pub open spec fn n_transfer_encoding() -> Seq<u8> {
    bytes_of("transfer-encoding"@)
}

pub fn b_transfer_encoding() -> (r: Vec<u8>)
    ensures
        r@ == n_transfer_encoding(),
{
    proof {
        reveal_strlit("transfer-encoding");
        assert(forall|i: int| 0 <= i < ("transfer-encoding")@.len() ==> (("transfer-encoding")@[i] as u32) < 128);
    }
    str_to_bytes("transfer-encoding")
}

pub open spec fn n_upgrade() -> Seq<u8> {
    bytes_of("upgrade"@)
}

pub fn b_upgrade() -> (r: Vec<u8>)
    ensures
        r@ == n_upgrade(),
{
    proof {
        reveal_strlit("upgrade");
        assert(forall|i: int| 0 <= i < ("upgrade")@.len() ==> (("upgrade")@[i] as u32) < 128);
    }
    str_to_bytes("upgrade")
}

pub open spec fn n_authorization() -> Seq<u8> {
    bytes_of("authorization"@)
}

pub fn b_authorization() -> (r: Vec<u8>)
    ensures
        r@ == n_authorization(),
{
    proof {
        reveal_strlit("authorization");
        assert(forall|i: int| 0 <= i < ("authorization")@.len() ==> (("authorization")@[i] as u32) < 128);
    }
    str_to_bytes("authorization")
}

pub open spec fn n_x_auth_token() -> Seq<u8> {
    bytes_of("x-auth-token"@)
}

pub fn b_x_auth_token() -> (r: Vec<u8>)
    ensures
        r@ == n_x_auth_token(),
{
    proof {
        reveal_strlit("x-auth-token");
        assert(forall|i: int| 0 <= i < ("x-auth-token")@.len() ==> (("x-auth-token")@[i] as u32) < 128);
    }
    str_to_bytes("x-auth-token")
}

pub open spec fn n_x_forwarded_auth() -> Seq<u8> {
    bytes_of("x-forwarded-auth"@)
}

pub fn b_x_forwarded_auth() -> (r: Vec<u8>)
    ensures
        r@ == n_x_forwarded_auth(),
{
    proof {
        reveal_strlit("x-forwarded-auth");
        assert(forall|i: int| 0 <= i < ("x-forwarded-auth")@.len() ==> (("x-forwarded-auth")@[i] as u32) < 128);
    }
    str_to_bytes("x-forwarded-auth")
}

pub open spec fn n_sec_websocket_protocol() -> Seq<u8> {
    bytes_of("sec-websocket-protocol"@)
}

pub fn b_sec_websocket_protocol() -> (r: Vec<u8>)
    ensures
        r@ == n_sec_websocket_protocol(),
{
    proof {
        reveal_strlit("sec-websocket-protocol");
        assert(forall|i: int| 0 <= i < ("sec-websocket-protocol")@.len() ==> (("sec-websocket-protocol")@[i] as u32) < 128);
    }
    str_to_bytes("sec-websocket-protocol")
}

pub open spec fn n_sec_websocket_version() -> Seq<u8> {
    bytes_of("sec-websocket-version"@)
}

pub fn b_sec_websocket_version() -> (r: Vec<u8>)
    ensures
        r@ == n_sec_websocket_version(),
{
    proof {
        reveal_strlit("sec-websocket-version");
        assert(forall|i: int| 0 <= i < ("sec-websocket-version")@.len() ==> (("sec-websocket-version")@[i] as u32) < 128);
    }
    str_to_bytes("sec-websocket-version")
}

pub open spec fn n_sec_websocket_key() -> Seq<u8> {
    bytes_of("sec-websocket-key"@)
}

pub fn b_sec_websocket_key() -> (r: Vec<u8>)
    ensures
        r@ == n_sec_websocket_key(),
{
    proof {
        reveal_strlit("sec-websocket-key");
        assert(forall|i: int| 0 <= i < ("sec-websocket-key")@.len() ==> (("sec-websocket-key")@[i] as u32) < 128);
    }
    str_to_bytes("sec-websocket-key")
}

pub open spec fn n_sec_websocket_accept() -> Seq<u8> {
    bytes_of("sec-websocket-accept"@)
}

pub fn b_sec_websocket_accept() -> (r: Vec<u8>)
    ensures
        r@ == n_sec_websocket_accept(),
{
    proof {
        reveal_strlit("sec-websocket-accept");
        assert(forall|i: int| 0 <= i < ("sec-websocket-accept")@.len() ==> (("sec-websocket-accept")@[i] as u32) < 128);
    }
    str_to_bytes("sec-websocket-accept")
}

pub open spec fn n_origin() -> Seq<u8> {
    bytes_of("origin"@)
}

pub fn b_origin() -> (r: Vec<u8>)
    ensures
        r@ == n_origin(),
{
    proof {
        reveal_strlit("origin");
        assert(forall|i: int| 0 <= i < ("origin")@.len() ==> (("origin")@[i] as u32) < 128);
    }
    str_to_bytes("origin")
}

pub open spec fn n_content_type() -> Seq<u8> {
    bytes_of("content-type"@)
}

pub fn b_content_type() -> (r: Vec<u8>)
    ensures
        r@ == n_content_type(),
{
    proof {
        reveal_strlit("content-type");
        assert(forall|i: int| 0 <= i < ("content-type")@.len() ==> (("content-type")@[i] as u32) < 128);
    }
    str_to_bytes("content-type")
}

pub open spec fn n_websocket() -> Seq<u8> {
    bytes_of("websocket"@)
}

pub fn b_websocket() -> (r: Vec<u8>)
    ensures
        r@ == n_websocket(),
{
    proof {
        reveal_strlit("websocket");
        assert(forall|i: int| 0 <= i < ("websocket")@.len() ==> (("websocket")@[i] as u32) < 128);
    }
    str_to_bytes("websocket")
}

pub open spec fn n_upgrade_token() -> Seq<u8> {
    bytes_of("Upgrade"@)
}

pub fn b_upgrade_token() -> (r: Vec<u8>)
    ensures
        r@ == n_upgrade_token(),
{
    proof {
        reveal_strlit("Upgrade");
        assert(forall|i: int| 0 <= i < ("Upgrade")@.len() ==> (("Upgrade")@[i] as u32) < 128);
    }
    str_to_bytes("Upgrade")
}

pub open spec fn n_ws_version() -> Seq<u8> {
    bytes_of("13"@)
}

pub fn b_ws_version() -> (r: Vec<u8>)
    ensures
        r@ == n_ws_version(),
{
    proof {
        reveal_strlit("13");
        assert(forall|i: int| 0 <= i < ("13")@.len() ==> (("13")@[i] as u32) < 128);
    }
    str_to_bytes("13")
}

pub open spec fn n_access_token() -> Seq<u8> {
    bytes_of("access_token"@)
}

pub fn b_access_token() -> (r: Vec<u8>)
    ensures
        r@ == n_access_token(),
{
    proof {
        reveal_strlit("access_token");
        assert(forall|i: int| 0 <= i < ("access_token")@.len() ==> (("access_token")@[i] as u32) < 128);
    }
    str_to_bytes("access_token")
}

pub open spec fn n_access_token_prefix() -> Seq<u8> {
    bytes_of("access_token, "@)
}

pub fn b_access_token_prefix() -> (r: Vec<u8>)
    ensures
        r@ == n_access_token_prefix(),
{
    proof {
        reveal_strlit("access_token, ");
        assert(forall|i: int| 0 <= i < ("access_token, ")@.len() ==> (("access_token, ")@[i] as u32) < 128);
    }
    str_to_bytes("access_token, ")
}

pub open spec fn n_bearer_prefix() -> Seq<u8> {
    bytes_of("Bearer "@)
}

pub fn b_bearer_prefix() -> (r: Vec<u8>)
    ensures
        r@ == n_bearer_prefix(),
{
    proof {
        reveal_strlit("Bearer ");
        assert(forall|i: int| 0 <= i < ("Bearer ")@.len() ==> (("Bearer ")@[i] as u32) < 128);
    }
    str_to_bytes("Bearer ")
}

pub open spec fn n_app_json() -> Seq<u8> {
    bytes_of("application/json"@)
}

pub fn b_app_json() -> (r: Vec<u8>)
    ensures
        r@ == n_app_json(),
{
    proof {
        reveal_strlit("application/json");
        assert(forall|i: int| 0 <= i < ("application/json")@.len() ==> (("application/json")@[i] as u32) < 128);
    }
    str_to_bytes("application/json")
}

pub open spec fn n_health_body() -> Seq<u8> {
    bytes_of("{\"status\":\"ok\",\"service\":\"wighaven-gateway-rust\",\"version\":\"2.1\",\"websocket\":true}"@)
}

pub fn b_health_body() -> (r: Vec<u8>)
    ensures
        r@ == n_health_body(),
{
    proof {
        reveal_strlit("{\"status\":\"ok\",\"service\":\"wighaven-gateway-rust\",\"version\":\"2.1\",\"websocket\":true}");
        assert(forall|i: int| 0 <= i < ("{\"status\":\"ok\",\"service\":\"wighaven-gateway-rust\",\"version\":\"2.1\",\"websocket\":true}")@.len() ==> (("{\"status\":\"ok\",\"service\":\"wighaven-gateway-rust\",\"version\":\"2.1\",\"websocket\":true}")@[i] as u32) < 128);
    }
    str_to_bytes("{\"status\":\"ok\",\"service\":\"wighaven-gateway-rust\",\"version\":\"2.1\",\"websocket\":true}")
}

pub open spec fn n_https_scheme() -> Seq<u8> {
    bytes_of("https://"@)
}

pub fn b_https_scheme() -> (r: Vec<u8>)
    ensures
        r@ == n_https_scheme(),
{
    proof {
        reveal_strlit("https://");
        assert(forall|i: int| 0 <= i < ("https://")@.len() ==> (("https://")@[i] as u32) < 128);
    }
    str_to_bytes("https://")
}

pub open spec fn n_http_scheme() -> Seq<u8> {
    bytes_of("http://"@)
}

pub fn b_http_scheme() -> (r: Vec<u8>)
    ensures
        r@ == n_http_scheme(),
{
    proof {
        reveal_strlit("http://");
        assert(forall|i: int| 0 <= i < ("http://")@.len() ==> (("http://")@[i] as u32) < 128);
    }
    str_to_bytes("http://")
}

pub open spec fn n_wss_scheme() -> Seq<u8> {
    bytes_of("wss://"@)
}

pub fn b_wss_scheme() -> (r: Vec<u8>)
    ensures
        r@ == n_wss_scheme(),
{
    proof {
        reveal_strlit("wss://");
        assert(forall|i: int| 0 <= i < ("wss://")@.len() ==> (("wss://")@[i] as u32) < 128);
    }
    str_to_bytes("wss://")
}

pub open spec fn n_ws_scheme() -> Seq<u8> {
    bytes_of("ws://"@)
}

pub fn b_ws_scheme() -> (r: Vec<u8>)
    ensures
        r@ == n_ws_scheme(),
{
    proof {
        reveal_strlit("ws://");
        assert(forall|i: int| 0 <= i < ("ws://")@.len() ==> (("ws://")@[i] as u32) < 128);
    }
    str_to_bytes("ws://")
}

pub open spec fn n_qmark() -> Seq<u8> {
    bytes_of("?"@)
}

pub fn b_qmark() -> (r: Vec<u8>)
    ensures
        r@ == n_qmark(),
{
    proof {
        reveal_strlit("?");
        assert(forall|i: int| 0 <= i < ("?")@.len() ==> (("?")@[i] as u32) < 128);
    }
    str_to_bytes("?")
}

pub open spec fn n_invalid_target() -> Seq<u8> {
    bytes_of("Invalid target URL"@)
}

pub fn b_invalid_target() -> (r: Vec<u8>)
    ensures
        r@ == n_invalid_target(),
{
    proof {
        reveal_strlit("Invalid target URL");
        assert(forall|i: int| 0 <= i < ("Invalid target URL")@.len() ==> (("Invalid target URL")@[i] as u32) < 128);
    }
    str_to_bytes("Invalid target URL")
}

pub open spec fn n_invalid_ws_url() -> Seq<u8> {
    bytes_of("Invalid WebSocket URL"@)
}

pub fn b_invalid_ws_url() -> (r: Vec<u8>)
    ensures
        r@ == n_invalid_ws_url(),
{
    proof {
        reveal_strlit("Invalid WebSocket URL");
        assert(forall|i: int| 0 <= i < ("Invalid WebSocket URL")@.len() ==> (("Invalid WebSocket URL")@[i] as u32) < 128);
    }
    str_to_bytes("Invalid WebSocket URL")
}

pub open spec fn n_backend_failed() -> Seq<u8> {
    bytes_of("Backend connection failed: "@)
}

pub fn b_backend_failed() -> (r: Vec<u8>)
    ensures
        r@ == n_backend_failed(),
{
    proof {
        reveal_strlit("Backend connection failed: ");
        assert(forall|i: int| 0 <= i < ("Backend connection failed: ")@.len() ==> (("Backend connection failed: ")@[i] as u32) < 128);
    }
    str_to_bytes("Backend connection failed: ")
}

pub open spec fn n_ws_failed() -> Seq<u8> {
    bytes_of("WebSocket connection failed: "@)
}

pub fn b_ws_failed() -> (r: Vec<u8>)
    ensures
        r@ == n_ws_failed(),
{
    proof {
        reveal_strlit("WebSocket connection failed: ");
        assert(forall|i: int| 0 <= i < ("WebSocket connection failed: ")@.len() ==> (("WebSocket connection failed: ")@[i] as u32) < 128);
    }
    str_to_bytes("WebSocket connection failed: ")
}

pub open spec fn n_timeout_text() -> Seq<u8> {
    bytes_of("Gateway timeout"@)
}

pub fn b_timeout_text() -> (r: Vec<u8>)
    ensures
        r@ == n_timeout_text(),
{
    proof {
        reveal_strlit("Gateway timeout");
        assert(forall|i: int| 0 <= i < ("Gateway timeout")@.len() ==> (("Gateway timeout")@[i] as u32) < 128);
    }
    str_to_bytes("Gateway timeout")
}

/// The lengths of the literal byte sequences, for distinctness
/// arguments: two names of different lengths are never equal, even
/// case-insensitively.
pub proof fn lemma_lit_lengths()
    ensures
        n_host().len() == 4,
        n_connection().len() == 10,
        n_keep_alive().len() == 10,
        n_proxy_authenticate().len() == 18,
        n_proxy_authorization().len() == 19,
        n_te().len() == 2,
        n_trailer().len() == 7,
        n_transfer_encoding().len() == 17,
        n_upgrade().len() == 7,
        n_authorization().len() == 13,
        n_x_auth_token().len() == 12,
        n_x_forwarded_auth().len() == 16,
        n_sec_websocket_protocol().len() == 22,
        n_sec_websocket_version().len() == 21,
        n_sec_websocket_key().len() == 17,
        n_sec_websocket_accept().len() == 20,
        n_origin().len() == 6,
        n_content_type().len() == 12,
        n_websocket().len() == 9,
        n_upgrade_token().len() == 7,
        n_ws_version().len() == 2,
        n_access_token().len() == 12,
        n_access_token_prefix().len() == 14,
        n_bearer_prefix().len() == 7,
        n_app_json().len() == 16,
        n_health_body().len() == 82,
        n_https_scheme().len() == 8,
        n_http_scheme().len() == 7,
        n_wss_scheme().len() == 6,
        n_ws_scheme().len() == 5,
        n_qmark().len() == 1,
        n_invalid_target().len() == 18,
        n_invalid_ws_url().len() == 21,
        n_backend_failed().len() == 27,
        n_ws_failed().len() == 29,
        n_timeout_text().len() == 15,
{
    reveal_strlit("host");
    reveal_strlit("connection");
    reveal_strlit("keep-alive");
    reveal_strlit("proxy-authenticate");
    reveal_strlit("proxy-authorization");
    reveal_strlit("te");
    reveal_strlit("trailer");
    reveal_strlit("transfer-encoding");
    reveal_strlit("upgrade");
    reveal_strlit("authorization");
    reveal_strlit("x-auth-token");
    reveal_strlit("x-forwarded-auth");
    reveal_strlit("sec-websocket-protocol");
    reveal_strlit("sec-websocket-version");
    reveal_strlit("sec-websocket-key");
    reveal_strlit("sec-websocket-accept");
    reveal_strlit("origin");
    reveal_strlit("content-type");
    reveal_strlit("websocket");
    reveal_strlit("Upgrade");
    reveal_strlit("13");
    reveal_strlit("access_token");
    reveal_strlit("access_token, ");
    reveal_strlit("Bearer ");
    reveal_strlit("application/json");
    reveal_strlit("{\"status\":\"ok\",\"service\":\"wighaven-gateway-rust\",\"version\":\"2.1\",\"websocket\":true}");
    reveal_strlit("https://");
    reveal_strlit("http://");
    reveal_strlit("wss://");
    reveal_strlit("ws://");
    reveal_strlit("?");
    reveal_strlit("Invalid target URL");
    reveal_strlit("Invalid WebSocket URL");
    reveal_strlit("Backend connection failed: ");
    reveal_strlit("WebSocket connection failed: ");
    reveal_strlit("Gateway timeout");
}

} // verus!
