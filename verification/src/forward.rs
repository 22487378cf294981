//! The HTTP stream forwarder's pure part: composing the outbound
//! request — target URI, method, rewritten headers — and the
//! client-facing response head.  The body is never buffered here; it is
//! streamed by the surrounding transport and passes this module by.
use vstd::prelude::*;

use crate::errors::GatewayError;
use crate::headers::{hview, rewrite_request, rewrite_response, HeaderPair};
use crate::target::{checked_target_url, q_at, spec_target_url, uri_ok};
use crate::GatewayConfig;

verus! {

/// Everything the transport needs to submit the backend request, short
/// of the streamed body: the method verbatim, the composed target URI,
/// and the rewritten headers.
pub struct OutboundPlan {
    pub method: Vec<u8>,
    pub uri: Vec<u8>,
    pub headers: Vec<HeaderPair>,
}

/// The head of the client-facing response: the backend's status verbatim
/// and the filtered headers.
pub struct ResponsePlan {
    pub status: u16,
    pub headers: Vec<HeaderPair>,
}

/// Composes the outbound request for one inbound HTTP exchange: same
/// method, the target `base + path [+ "?" + query]`, and headers
/// rewritten by the request-direction policy.  Fails with
/// [`GatewayError::InvalidTarget`] exactly when the composed target is
/// not a well-formed URI.
pub fn plan_forward(
    method: &[u8],
    path: &[u8],
    query: Option<&[u8]>,
    headers: &Vec<HeaderPair>,
    config: &GatewayConfig,
) -> (r: Result<OutboundPlan, GatewayError>)
    ensures
        r is Ok <==> uri_ok(spec_target_url(config.backend_base@, path@, q_at(query))),
        r is Ok ==> r->Ok_0.method@ == method@ && r->Ok_0.uri@ == spec_target_url(
            config.backend_base@,
            path@,
            q_at(query),
        ) && hview(r->Ok_0.headers@) == rewrite_request(
            hview(headers@),
            config.service_credential@,
        ),
        r is Err ==> r->Err_0 == GatewayError::InvalidTarget,
{
    let uri = match checked_target_url(config.backend_base.as_slice(), path, query) {
        Ok(u) => u,
        Err(e) => {
            return Err(e);
        },
    };
    let out_headers = crate::headers::filter_and_rewrite(
        headers,
        crate::headers::Direction::Request,
        &config.service_credential,
    );
    Ok(OutboundPlan { method: crate::ascii::copy_bytes(method), uri, headers: out_headers })
}

/// Composes the client-facing response head from the backend's: same
/// status, headers filtered by the response-direction policy.
pub fn plan_response(status: u16, headers: &Vec<HeaderPair>) -> (r: ResponsePlan)
    ensures
        r.status == status,
        hview(r.headers@) == rewrite_response(hview(headers@)),
{
    let filtered = crate::headers::filter_and_rewrite(
        headers,
        crate::headers::Direction::Response,
        &Vec::new(),
    );
    ResponsePlan { status, headers: filtered }
}

} // verus!
