//! The health-check endpoint: a fixed JSON payload, independent of the
//! request.
use vstd::prelude::*;

use crate::headers::{hview, HeaderPair};
use crate::names::{b_app_json, b_content_type, b_health_body, n_app_json, n_content_type,
    n_health_body};

verus! {

/// The health response: status 200, `Content-Type: application/json`,
/// and exactly the fixed status payload, whatever the request carried.
pub fn gateway_health() -> (r: (u16, Vec<HeaderPair>, Vec<u8>))
    ensures
        r.0 == 200,
        hview(r.1@) == seq![(n_content_type(), n_app_json())],
        r.2@ == n_health_body(),
{
    let mut headers: Vec<HeaderPair> = Vec::new();
    let p = HeaderPair { name: b_content_type(), value: b_app_json() };
    headers.push(p);
    proof {
        assert(hview(headers@) =~= seq![(n_content_type(), n_app_json())]);
    }
    (200, headers, b_health_body())
}

} // verus!
