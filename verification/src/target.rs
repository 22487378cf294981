//! Backend target composition: the HTTP target URL and the upstream
//! WebSocket URL, with their validity checks.
//!
//! The gateway composes target strings itself; the `url` and `hyper`
//! crates are only consulted, behind trusted wrappers, to decide whether
//! a composed string is a well-formed URL and what its host is.
use vstd::prelude::*;

use crate::ascii::{append_bytes, concat_bytes, copy_bytes, starts_with, subvec};
use crate::errors::GatewayError;
use crate::names::{
    b_http_scheme, b_https_scheme, b_qmark, b_ws_scheme, b_wss_scheme, n_http_scheme,
    n_https_scheme, n_qmark, n_ws_scheme, n_wss_scheme,
};

verus! {

/// The view of an optional query string.
pub open spec fn q_at(q: Option<&[u8]>) -> Option<Seq<u8>> {
    match q {
        Some(s) => Some(s@),
        None => None,
    }
}

/// `"?" + query` when a query is present, nothing otherwise.
pub open spec fn spec_query_suffix(q: Option<Seq<u8>>) -> Seq<u8> {
    match q {
        Some(s) => n_qmark() + s,
        None => Seq::empty(),
    }
}

/// The composed backend target for the HTTP path:
/// `base + path [+ "?" + query]`.
pub open spec fn spec_target_url(base: Seq<u8>, path: Seq<u8>, q: Option<Seq<u8>>) -> Seq<u8> {
    base + path + spec_query_suffix(q)
}

/// The backend base with its scheme translated for a WebSocket
/// connection: `https` becomes `wss`, `http` becomes `ws`, and a base
/// without either scheme prefix defaults to `wss`.
pub open spec fn spec_ws_base(base: Seq<u8>) -> Seq<u8> {
    let https = n_https_scheme();
    let http = n_http_scheme();
    if base.len() >= https.len() && base.take(https.len() as int) == https {
        n_wss_scheme() + base.skip(https.len() as int)
    } else if base.len() >= http.len() && base.take(http.len() as int) == http {
        n_ws_scheme() + base.skip(http.len() as int)
    } else {
        n_wss_scheme() + base
    }
}

/// The composed upstream WebSocket URL.
pub open spec fn spec_ws_url(base: Seq<u8>, path: Seq<u8>, q: Option<Seq<u8>>) -> Seq<u8> {
    spec_ws_base(base) + path + spec_query_suffix(q)
}

/// Composes the backend target URL for the HTTP path.
pub fn compose_target_url(base: &[u8], path: &[u8], query: Option<&[u8]>) -> (r: Vec<u8>)
    ensures
        r@ == spec_target_url(base@, path@, q_at(query)),
{
    let mut r = concat_bytes(base, path);
    match query {
        Some(q) => {
            let mut suffix = b_qmark();
            append_bytes(&mut suffix, q);
            append_bytes(&mut r, suffix.as_slice());
            proof {
                assert(base@ + path@ + (n_qmark() + q@) =~= (base@ + path@) + (n_qmark() + q@));
            }
        },
        None => {
            proof {
                assert(base@ + path@ + Seq::<u8>::empty() =~= base@ + path@);
            }
        },
    }
    r
}

/// Translates the backend base scheme for a WebSocket connection.
pub fn ws_base(base: &[u8]) -> (r: Vec<u8>)
    ensures
        r@ == spec_ws_base(base@),
{
    let https = b_https_scheme();
    let http = b_http_scheme();
    if starts_with(base, https.as_slice()) {
        let tail = subvec(base, https.len(), base.len());
        proof {
            assert(base@.subrange(https@.len() as int, base@.len() as int) =~= base@.skip(
                https@.len() as int,
            ));
        }
        concat_bytes(b_wss_scheme().as_slice(), tail.as_slice())
    } else if starts_with(base, http.as_slice()) {
        let tail = subvec(base, http.len(), base.len());
        proof {
            assert(base@.subrange(http@.len() as int, base@.len() as int) =~= base@.skip(
                http@.len() as int,
            ));
        }
        concat_bytes(b_ws_scheme().as_slice(), tail.as_slice())
    } else {
        concat_bytes(b_wss_scheme().as_slice(), base)
    }
}

/// Whether the `url` crate accepts the byte string as a URL.
pub uninterp spec fn url_ok(s: Seq<u8>) -> bool;

/// The host of the URL written in the byte string, as the `url` crate
/// reports it; empty for a URL without a host.
pub uninterp spec fn url_host_of(s: Seq<u8>) -> Seq<u8>;

/// Whether the byte string parses as an HTTP URI.
pub uninterp spec fn uri_ok(s: Seq<u8>) -> bool;

/// Relies on `url::Url::parse` to decide whether the composed string is
/// a well-formed URL, and on `url::Url::host_str` for its host (empty
/// when the URL has none).  Bytes that are not UTF-8 are never a
/// well-formed URL.
#[verifier::external_body]
fn parse_url_host(s: &Vec<u8>) -> (r: Option<Vec<u8>>)
    ensures
        r is Some <==> url_ok(s@),
        r is Some ==> r->0@ == url_host_of(s@),
{
    let text = match core::str::from_utf8(s.as_slice()) {
        Ok(t) => t,
        Err(_) => {
            return None;
        },
    };
    match url::Url::parse(text) {
        Ok(u) => Some(u.host_str().unwrap_or("").as_bytes().to_vec()),
        Err(_) => None,
    }
}

/// Relies on `http::Uri`'s `FromStr` (re-exported as `hyper::Uri`) to
/// decide whether the composed string is a well-formed request target.
#[verifier::external_body]
fn uri_accepts(s: &Vec<u8>) -> (r: bool)
    ensures
        r == uri_ok(s@),
{
    match core::str::from_utf8(s.as_slice()) {
        Ok(t) => t.parse::<hyper::Uri>().is_ok(),
        Err(_) => false,
    }
}

/// Composes the backend target URL and checks it, failing with
/// [`GatewayError::InvalidTarget`] exactly when the URI parser refuses
/// the composed string.
pub fn checked_target_url(base: &[u8], path: &[u8], query: Option<&[u8]>) -> (r: Result<
    Vec<u8>,
    GatewayError,
>)
    ensures
        r is Ok <==> uri_ok(spec_target_url(base@, path@, q_at(query))),
        r is Ok ==> r->Ok_0@ == spec_target_url(base@, path@, q_at(query)),
        r is Err ==> r->Err_0 == GatewayError::InvalidTarget,
{
    let url = compose_target_url(base, path, query);
    if uri_accepts(&url) {
        Ok(url)
    } else {
        Err(GatewayError::InvalidTarget)
    }
}

/// The upstream WebSocket endpoint: the composed URL and its host.
pub struct WsTarget {
    pub url: Vec<u8>,
    pub host: Vec<u8>,
}

/// Composes the upstream WebSocket URL from the backend base, the relay
/// path and the optional query, failing with
/// [`GatewayError::InvalidUpstreamUrl`] exactly when the URL parser
/// refuses the composed string.
pub fn build_ws_url(target_url: &[u8], path: &[u8], query: Option<&[u8]>) -> (r: Result<
    WsTarget,
    GatewayError,
>)
    ensures
        r is Ok <==> url_ok(spec_ws_url(target_url@, path@, q_at(query))),
        r is Ok ==> r->Ok_0.url@ == spec_ws_url(target_url@, path@, q_at(query))
            && r->Ok_0.host@ == url_host_of(spec_ws_url(target_url@, path@, q_at(query))),
        r is Err ==> r->Err_0 == GatewayError::InvalidUpstreamUrl,
{
    let scheme_base = ws_base(target_url);
    let url = compose_target_url(scheme_base.as_slice(), path, query);
    match parse_url_host(&url) {
        Some(host) => Ok(WsTarget { url, host }),
        None => Err(GatewayError::InvalidUpstreamUrl),
    }
}

} // verus!
