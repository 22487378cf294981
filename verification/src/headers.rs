//! The header policy: which headers are dropped, renamed or added when a
//! request or a response crosses the gateway.
//!
//! Hop-by-hop headers are dropped in both directions.  In the request
//! direction a client `Authorization` header is re-emitted under the
//! forwarding header name, a secondary credential header is forwarded as a
//! bearer value when no `Authorization` header was present, and the
//! service credential, when non-empty, is appended as the backend-facing
//! `Authorization` bearer header.
use vstd::prelude::*;

use crate::ascii::{append_bytes, bytes_eq_ci, copy_bytes, eq_ci, spec_lower};
use crate::names::{
    b_authorization, b_bearer_prefix, b_connection, b_host, b_keep_alive, b_proxy_authenticate,
    b_proxy_authorization, b_te, b_trailer, b_transfer_encoding, b_upgrade, b_x_auth_token,
    b_x_forwarded_auth, n_authorization, n_bearer_prefix, n_connection, n_host, n_keep_alive,
    n_proxy_authenticate, n_proxy_authorization, n_te, n_trailer, n_transfer_encoding, n_upgrade,
    n_x_auth_token, n_x_forwarded_auth,
};

verus! {

/// One header: a name and a value, both byte strings.  Names are compared
/// case-insensitively everywhere in the policy.
pub struct HeaderPair {
    pub name: Vec<u8>,
    pub value: Vec<u8>,
}

/// The mathematical value of one header.
pub open spec fn pv(p: HeaderPair) -> (Seq<u8>, Seq<u8>) {
    (p.name@, p.value@)
}

/// The mathematical value of a header list.
pub open spec fn hview(h: Seq<HeaderPair>) -> Seq<(Seq<u8>, Seq<u8>)> {
    h.map_values(|p: HeaderPair| pv(p))
}

/// Which leg of the exchange the policy is applied to.
#[derive(PartialEq, Eq, Structural, Clone, Copy)]
pub enum Direction {
    /// Client-facing request being forwarded to the backend.
    Request,
    /// Backend response being forwarded to the client.
    Response,
}

/// The nine hop-by-hop header names, compared case-insensitively.
pub open spec fn is_hop_by_hop(n: Seq<u8>) -> bool {
    ||| eq_ci(n, n_host())
    ||| eq_ci(n, n_connection())
    ||| eq_ci(n, n_keep_alive())
    ||| eq_ci(n, n_proxy_authenticate())
    ||| eq_ci(n, n_proxy_authorization())
    ||| eq_ci(n, n_te())
    ||| eq_ci(n, n_trailer())
    ||| eq_ci(n, n_transfer_encoding())
    ||| eq_ci(n, n_upgrade())
}

/// A value wrapped as a bearer credential.
pub open spec fn bearer(v: Seq<u8>) -> Seq<u8> {
    n_bearer_prefix() + v
}

/// The order-preserving pass over request headers: hop-by-hop headers are
/// dropped and each `Authorization` header is re-emitted under the
/// forwarding name.
pub open spec fn req_filtered(h: Seq<(Seq<u8>, Seq<u8>)>) -> Seq<(Seq<u8>, Seq<u8>)>
    decreases h.len(),
{
    if h.len() == 0 {
        Seq::empty()
    } else {
        let prev = req_filtered(h.drop_last());
        let last = h.last();
        if is_hop_by_hop(last.0) {
            prev
        } else if eq_ci(last.0, n_authorization()) {
            prev.push((n_x_forwarded_auth(), last.1))
        } else {
            prev.push(last)
        }
    }
}

/// The order-preserving pass over response headers: hop-by-hop headers
/// are dropped, nothing is rewritten.
pub open spec fn resp_filtered(h: Seq<(Seq<u8>, Seq<u8>)>) -> Seq<(Seq<u8>, Seq<u8>)>
    decreases h.len(),
{
    if h.len() == 0 {
        Seq::empty()
    } else {
        let prev = resp_filtered(h.drop_last());
        let last = h.last();
        if is_hop_by_hop(last.0) {
            prev
        } else {
            prev.push(last)
        }
    }
}

/// Does the list hold an `Authorization` header?
pub open spec fn has_auth(h: Seq<(Seq<u8>, Seq<u8>)>) -> bool {
    exists|i: int| 0 <= i < h.len() && eq_ci(h[i].0, n_authorization())
}

/// The value of the first header whose name equals `name`
/// case-insensitively.
pub open spec fn first_value_ci(h: Seq<(Seq<u8>, Seq<u8>)>, name: Seq<u8>) -> Option<Seq<u8>>
    decreases h.len(),
{
    if h.len() == 0 {
        None
    } else if eq_ci(h[0].0, name) {
        Some(h[0].1)
    } else {
        first_value_ci(h.skip(1), name)
    }
}

/// The whole request-direction policy: filter and rename, then forward a
/// secondary credential when no `Authorization` header did, then append
/// the service credential as the backend-facing `Authorization` header.
pub open spec fn rewrite_request(h: Seq<(Seq<u8>, Seq<u8>)>, cred: Seq<u8>) -> Seq<
    (Seq<u8>, Seq<u8>),
> {
    let base = req_filtered(h);
    let xa = first_value_ci(h, n_x_auth_token());
    let with_fwd = if !has_auth(h) && xa is Some {
        base.push((n_x_forwarded_auth(), bearer(xa->0)))
    } else {
        base
    };
    if cred.len() > 0 {
        with_fwd.push((n_authorization(), bearer(cred)))
    } else {
        with_fwd
    }
}

/// The whole response-direction policy: only the hop-by-hop drop rule.
pub open spec fn rewrite_response(h: Seq<(Seq<u8>, Seq<u8>)>) -> Seq<(Seq<u8>, Seq<u8>)> {
    resp_filtered(h)
}

/// Executable test for the nine hop-by-hop names.
pub fn is_hop_by_hop_name(n: &[u8]) -> (r: bool)
    ensures
        r == is_hop_by_hop(n@),
{
    if bytes_eq_ci(n, b_host().as_slice()) {
        return true;
    }
    if bytes_eq_ci(n, b_connection().as_slice()) {
        return true;
    }
    if bytes_eq_ci(n, b_keep_alive().as_slice()) {
        return true;
    }
    if bytes_eq_ci(n, b_proxy_authenticate().as_slice()) {
        return true;
    }
    if bytes_eq_ci(n, b_proxy_authorization().as_slice()) {
        return true;
    }
    if bytes_eq_ci(n, b_te().as_slice()) {
        return true;
    }
    if bytes_eq_ci(n, b_trailer().as_slice()) {
        return true;
    }
    if bytes_eq_ci(n, b_transfer_encoding().as_slice()) {
        return true;
    }
    if bytes_eq_ci(n, b_upgrade().as_slice()) {
        return true;
    }
    false
}

/// `"Bearer "` followed by the given value.
pub fn make_bearer(v: &[u8]) -> (r: Vec<u8>)
    ensures
        r@ == bearer(v@),
{
    let mut r = b_bearer_prefix();
    append_bytes(&mut r, v);
    r
}

/// The value of the first header named `name`, case-insensitively, as a
/// fresh copy.
pub fn find_first_ci(headers: &Vec<HeaderPair>, name: &[u8]) -> (r: Option<Vec<u8>>)
    ensures
        match r {
            Some(v) => first_value_ci(hview(headers@), name@) == Some(v@),
            None => first_value_ci(hview(headers@), name@) is None,
        },
{
    let ghost hv = hview(headers@);
    proof {
        assert(hv.skip(0) =~= hv);
    }
    let n = headers.len();
    let mut i: usize = 0;
    while i < n
        invariant
            n == headers@.len(),
            0 <= i <= n,
            hv == hview(headers@),
            hv.len() == n,
            forall|j: int| 0 <= j < hv.len() ==> hv[j] == pv(headers@[j]),
            first_value_ci(hv, name@) == first_value_ci(hv.skip(i as int), name@),
        decreases n - i,
    {
        if bytes_eq_ci(headers[i].name.as_slice(), name) {
            proof {
                assert(hv.skip(i as int)[0] == hv[i as int]);
            }
            return Some(copy_bytes(headers[i].value.as_slice()));
        }
        proof {
            assert(hv.skip(i as int)[0] == hv[i as int]);
            assert(hv.skip(i as int).skip(1) =~= hv.skip(i + 1));
        }
        i += 1;
    }
    proof {
        assert(hv.skip(n as int).len() == 0);
    }
    None
}

/// Does the list hold an `Authorization` header, case-insensitively?
pub fn has_auth_header(headers: &Vec<HeaderPair>) -> (r: bool)
    ensures
        r == has_auth(hview(headers@)),
{
    let ghost hv = hview(headers@);
    let auth = b_authorization();
    let n = headers.len();
    let mut i: usize = 0;
    while i < n
        invariant
            n == headers@.len(),
            0 <= i <= n,
            hv == hview(headers@),
            hv.len() == n,
            forall|j: int| 0 <= j < hv.len() ==> hv[j] == pv(headers@[j]),
            auth@ == n_authorization(),
            forall|j: int| 0 <= j < i ==> !eq_ci(hv[j].0, n_authorization()),
        decreases n - i,
    {
        if bytes_eq_ci(headers[i].name.as_slice(), auth.as_slice()) {
            proof {
                assert(eq_ci(hv[i as int].0, n_authorization()));
            }
            return true;
        }
        i += 1;
    }
    false
}

/// Applies the request-direction policy.
fn rewrite_request_exec(headers: &Vec<HeaderPair>, credential: &Vec<u8>) -> (r: Vec<HeaderPair>)
    ensures
        hview(r@) == rewrite_request(hview(headers@), credential@),
{
    let ghost hv = hview(headers@);
    let auth = b_authorization();
    let mut out: Vec<HeaderPair> = Vec::new();
    let n = headers.len();
    let mut i: usize = 0;
    while i < n
        invariant
            n == headers@.len(),
            0 <= i <= n,
            hv == hview(headers@),
            hv.len() == n,
            forall|j: int| 0 <= j < hv.len() ==> hv[j] == pv(headers@[j]),
            auth@ == n_authorization(),
            hview(out@) == req_filtered(hv.take(i as int)),
        decreases n - i,
    {
        let ghost pre = hv.take(i as int);
        let ghost cur = hv.take(i + 1);
        proof {
            assert(cur.drop_last() =~= pre);
            assert(cur.last() == hv[i as int]);
        }
        let name = &headers[i].name;
        if !is_hop_by_hop_name(name.as_slice()) {
            if bytes_eq_ci(name.as_slice(), auth.as_slice()) {
                let p = HeaderPair {
                    name: b_x_forwarded_auth(),
                    value: copy_bytes(headers[i].value.as_slice()),
                };
                proof {
                    assert(hview(out@.push(p)) =~= hview(out@).push(pv(p)));
                }
                out.push(p);
            } else {
                let p = HeaderPair {
                    name: copy_bytes(headers[i].name.as_slice()),
                    value: copy_bytes(headers[i].value.as_slice()),
                };
                proof {
                    assert(pv(p) == hv[i as int]);
                    assert(hview(out@.push(p)) =~= hview(out@).push(pv(p)));
                }
                out.push(p);
            }
        }
        i += 1;
    }
    proof {
        assert(hv.take(n as int) =~= hv);
    }
    let saw_auth = has_auth_header(headers);
    if !saw_auth {
        let xa = find_first_ci(headers, b_x_auth_token().as_slice());
        match xa {
            Some(v) => {
                let p = HeaderPair { name: b_x_forwarded_auth(), value: make_bearer(v.as_slice()) };
                proof {
                    assert(hview(out@.push(p)) =~= hview(out@).push(pv(p)));
                }
                out.push(p);
            },
            None => {},
        }
    }
    if credential.len() > 0 {
        let p = HeaderPair { name: b_authorization(), value: make_bearer(credential.as_slice()) };
        proof {
            assert(hview(out@.push(p)) =~= hview(out@).push(pv(p)));
        }
        out.push(p);
    }
    out
}

/// Applies the response-direction policy.
fn rewrite_response_exec(headers: &Vec<HeaderPair>) -> (r: Vec<HeaderPair>)
    ensures
        hview(r@) == rewrite_response(hview(headers@)),
{
    let ghost hv = hview(headers@);
    let mut out: Vec<HeaderPair> = Vec::new();
    let n = headers.len();
    let mut i: usize = 0;
    while i < n
        invariant
            n == headers@.len(),
            0 <= i <= n,
            hv == hview(headers@),
            hv.len() == n,
            forall|j: int| 0 <= j < hv.len() ==> hv[j] == pv(headers@[j]),
            hview(out@) == resp_filtered(hv.take(i as int)),
        decreases n - i,
    {
        let ghost pre = hv.take(i as int);
        let ghost cur = hv.take(i + 1);
        proof {
            assert(cur.drop_last() =~= pre);
            assert(cur.last() == hv[i as int]);
        }
        if !is_hop_by_hop_name(headers[i].name.as_slice()) {
            let p = HeaderPair {
                name: copy_bytes(headers[i].name.as_slice()),
                value: copy_bytes(headers[i].value.as_slice()),
            };
            proof {
                assert(pv(p) == hv[i as int]);
                assert(hview(out@.push(p)) =~= hview(out@).push(pv(p)));
            }
            out.push(p);
        }
        i += 1;
    }
    proof {
        assert(hv.take(n as int) =~= hv);
    }
    out
}

/// Applies the header policy for the given direction.  In the request
/// direction the service credential is injected; in the response
/// direction only the hop-by-hop drop rule applies.
pub fn filter_and_rewrite(headers: &Vec<HeaderPair>, direction: Direction, credential: &Vec<u8>) -> (r:
    Vec<HeaderPair>)
    ensures
        hview(r@) == match direction {
            Direction::Request => rewrite_request(hview(headers@), credential@),
            Direction::Response => rewrite_response(hview(headers@)),
        },
{
    match direction {
        Direction::Request => rewrite_request_exec(headers, credential),
        Direction::Response => rewrite_response_exec(headers),
    }
}

pub proof fn lemma_eq_ci_len(a: Seq<u8>, b: Seq<u8>)
    requires
        eq_ci(a, b),
    ensures
        a.len() == b.len(),
{
    assert(spec_lower(a).len() == a.len());
    assert(spec_lower(b).len() == b.len());
}

pub proof fn lemma_ne_by_len(a: Seq<u8>, b: Seq<u8>)
    requires
        a.len() != b.len(),
    ensures
        !eq_ci(a, b),
{
    if eq_ci(a, b) {
        lemma_eq_ci_len(a, b);
    }
}

/// Neither the forwarding header name nor `authorization` is hop-by-hop,
/// and the two differ; every name equality here is settled by length.
pub proof fn lemma_policy_names()
    ensures
        !is_hop_by_hop(n_x_forwarded_auth()),
        !is_hop_by_hop(n_authorization()),
        !eq_ci(n_x_forwarded_auth(), n_authorization()),
{
    crate::names::lemma_lit_lengths();
    lemma_ne_by_len(n_x_forwarded_auth(), n_host());
    lemma_ne_by_len(n_x_forwarded_auth(), n_connection());
    lemma_ne_by_len(n_x_forwarded_auth(), n_keep_alive());
    lemma_ne_by_len(n_x_forwarded_auth(), n_proxy_authenticate());
    lemma_ne_by_len(n_x_forwarded_auth(), n_proxy_authorization());
    lemma_ne_by_len(n_x_forwarded_auth(), n_te());
    lemma_ne_by_len(n_x_forwarded_auth(), n_trailer());
    lemma_ne_by_len(n_x_forwarded_auth(), n_transfer_encoding());
    lemma_ne_by_len(n_x_forwarded_auth(), n_upgrade());
    lemma_ne_by_len(n_authorization(), n_host());
    lemma_ne_by_len(n_authorization(), n_connection());
    lemma_ne_by_len(n_authorization(), n_keep_alive());
    lemma_ne_by_len(n_authorization(), n_proxy_authenticate());
    lemma_ne_by_len(n_authorization(), n_proxy_authorization());
    lemma_ne_by_len(n_authorization(), n_te());
    lemma_ne_by_len(n_authorization(), n_trailer());
    lemma_ne_by_len(n_authorization(), n_transfer_encoding());
    lemma_ne_by_len(n_authorization(), n_upgrade());
    lemma_ne_by_len(n_x_forwarded_auth(), n_authorization());
}

/// The filter-and-rename pass emits no hop-by-hop name and no
/// `authorization` name, and re-emits every client `Authorization` value
/// under the forwarding name.
pub proof fn lemma_req_filtered_props(h: Seq<(Seq<u8>, Seq<u8>)>)
    ensures
        forall|j: int|
            0 <= j < req_filtered(h).len() ==> !is_hop_by_hop(#[trigger] req_filtered(h)[j].0)
                && !eq_ci(req_filtered(h)[j].0, n_authorization()),
        forall|i: int|
            0 <= i < h.len() && eq_ci(#[trigger] h[i].0, n_authorization()) ==> req_filtered(
                h,
            ).contains((n_x_forwarded_auth(), h[i].1)),
    decreases h.len(),
{
    lemma_policy_names();
    if h.len() > 0 {
        let prefix = h.drop_last();
        let last = h.last();
        let prev = req_filtered(prefix);
        lemma_req_filtered_props(prefix);
        assert forall|i: int|
            0 <= i < h.len() && eq_ci(#[trigger] h[i].0, n_authorization()) implies req_filtered(
            h,
        ).contains((n_x_forwarded_auth(), h[i].1)) by {
            if i < h.len() - 1 {
                assert(prefix[i] == h[i]);
                let k = choose|k: int|
                    0 <= k < prev.len() && prev[k] == (n_x_forwarded_auth(), h[i].1);
                assert(req_filtered(h)[k] == (n_x_forwarded_auth(), h[i].1));
            } else {
                assert(!is_hop_by_hop(last.0));
                let out = prev.push((n_x_forwarded_auth(), last.1));
                assert(out[out.len() - 1] == (n_x_forwarded_auth(), h[i].1));
            }
        }
    }
}

/// The response filter emits no hop-by-hop name.
pub proof fn lemma_resp_filtered_props(h: Seq<(Seq<u8>, Seq<u8>)>)
    ensures
        forall|j: int|
            0 <= j < resp_filtered(h).len() ==> !is_hop_by_hop(#[trigger] resp_filtered(h)[j].0),
    decreases h.len(),
{
    if h.len() > 0 {
        let prev = resp_filtered(h.drop_last());
        lemma_resp_filtered_props(h.drop_last());
        assert forall|j: int| 0 <= j < resp_filtered(h).len() implies !is_hop_by_hop(
            #[trigger] resp_filtered(h)[j].0,
        ) by {
            if !is_hop_by_hop(h.last().0) {
                if j < prev.len() {
                    assert(resp_filtered(h)[j] == prev[j]);
                } else {
                    assert(resp_filtered(h)[j] == h.last());
                }
            }
        }
    }
}

/// A client's credentials never reach the backend as `Authorization`:
/// every `Authorization` header in the forwarded request carries the
/// service credential as a bearer value, it stands at the end of the
/// list, and each client `Authorization` value instead travels under the
/// forwarding header name.
pub proof fn lemma_rewrite_request_auth(h: Seq<(Seq<u8>, Seq<u8>)>, cred: Seq<u8>)
    ensures
        forall|j: int|
            0 <= j < rewrite_request(h, cred).len() && eq_ci(
                #[trigger] rewrite_request(h, cred)[j].0,
                n_authorization(),
            ) ==> cred.len() > 0 && rewrite_request(h, cred)[j].1 == bearer(cred),
        cred.len() > 0 ==> rewrite_request(h, cred).len() > 0 && rewrite_request(h, cred).last()
            == (n_authorization(), bearer(cred)),
        cred.len() == 0 ==> forall|j: int|
            0 <= j < rewrite_request(h, cred).len() ==> !eq_ci(
                #[trigger] rewrite_request(h, cred)[j].0,
                n_authorization(),
            ),
        forall|i: int|
            0 <= i < h.len() && eq_ci(#[trigger] h[i].0, n_authorization()) ==> rewrite_request(
                h,
                cred,
            ).contains((n_x_forwarded_auth(), h[i].1)),
{
    lemma_policy_names();
    lemma_req_filtered_props(h);
    let base = req_filtered(h);
    let xa = first_value_ci(h, n_x_auth_token());
    let with_fwd = if !has_auth(h) && xa is Some {
        base.push((n_x_forwarded_auth(), bearer(xa->0)))
    } else {
        base
    };
    assert forall|j: int| 0 <= j < with_fwd.len() implies !eq_ci(
        #[trigger] with_fwd[j].0,
        n_authorization(),
    ) by {
        if j < base.len() {
            assert(with_fwd[j] == base[j]);
        }
    }
    assert forall|i: int|
        0 <= i < h.len() && eq_ci(#[trigger] h[i].0, n_authorization()) implies rewrite_request(
        h,
        cred,
    ).contains((n_x_forwarded_auth(), h[i].1)) by {
        let k = choose|k: int| 0 <= k < base.len() && base[k] == (n_x_forwarded_auth(), h[i].1);
        assert(with_fwd[k] == (n_x_forwarded_auth(), h[i].1));
        assert(rewrite_request(h, cred)[k] == (n_x_forwarded_auth(), h[i].1));
    }
}

/// No hop-by-hop header name survives the policy, in either direction.
pub proof fn lemma_no_hop_by_hop(h: Seq<(Seq<u8>, Seq<u8>)>, cred: Seq<u8>)
    ensures
        forall|j: int|
            0 <= j < rewrite_request(h, cred).len() ==> !is_hop_by_hop(
                #[trigger] rewrite_request(h, cred)[j].0,
            ),
        forall|j: int|
            0 <= j < rewrite_response(h).len() ==> !is_hop_by_hop(
                #[trigger] rewrite_response(h)[j].0,
            ),
{
    lemma_policy_names();
    lemma_req_filtered_props(h);
    lemma_resp_filtered_props(h);
    let base = req_filtered(h);
    let out = rewrite_request(h, cred);
    assert forall|j: int| 0 <= j < out.len() implies !is_hop_by_hop(#[trigger] out[j].0) by {
        if j < base.len() {
            assert(out[j] == base[j]);
        }
    }
}

/// A client `Authorization` value that differs from the injected service
/// bearer never reappears as an `Authorization` value; it reappears under
/// the forwarding header name instead.
pub proof fn lemma_client_auth_replaced(h: Seq<(Seq<u8>, Seq<u8>)>, cred: Seq<u8>, i: int)
    requires
        0 <= i < h.len(),
        eq_ci(h[i].0, n_authorization()),
        cred.len() > 0 ==> h[i].1 != bearer(cred),
    ensures
        forall|j: int|
            0 <= j < rewrite_request(h, cred).len() && eq_ci(
                #[trigger] rewrite_request(h, cred)[j].0,
                n_authorization(),
            ) ==> rewrite_request(h, cred)[j].1 != h[i].1,
        rewrite_request(h, cred).contains((n_x_forwarded_auth(), h[i].1)),
{
    lemma_rewrite_request_auth(h, cred);
}

} // verus!
