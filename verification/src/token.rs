//! The token extractor: pulls a bearer-style credential out of an
//! inbound request from one of three carriers, first match wins:
//! an `Authorization` header with a `Bearer ` prefix, the secondary
//! credential header, or the WebSocket sub-protocol list written as
//! `access_token, <value>`.
use vstd::prelude::*;

use crate::ascii::{bytes_eq, idx_of, spec_trim, starts_with, subvec, trim_bytes};
use crate::headers::{bearer, first_value_ci, hview, HeaderPair};
use crate::names::{
    b_access_token, b_authorization, b_bearer_prefix, b_sec_websocket_protocol, b_x_auth_token,
    n_access_token, n_authorization, n_bearer_prefix, n_sec_websocket_protocol, n_x_auth_token,
};

verus! {

/// The comma byte, the separator of the sub-protocol list.
pub const COMMA: u8 = 44;

/// The value after `"Bearer "`, when the value starts with that prefix.
pub open spec fn strip_bearer(v: Seq<u8>) -> Option<Seq<u8>> {
    if v.len() >= n_bearer_prefix().len() && v.take(n_bearer_prefix().len() as int)
        == n_bearer_prefix() {
        Some(v.skip(n_bearer_prefix().len() as int))
    } else {
        None
    }
}

/// The credential carried by a sub-protocol list: the second
/// comma-separated, whitespace-trimmed entry, provided there are at
/// least two entries and the first is the literal marker `access_token`.
pub open spec fn parse_subprotocol(v: Seq<u8>) -> Option<Seq<u8>> {
    let c1 = idx_of(v, COMMA);
    if c1 == v.len() {
        None
    } else {
        let first = spec_trim(v.take(c1));
        let rest = v.skip(c1 + 1);
        let second = spec_trim(rest.take(idx_of(rest, COMMA)));
        if first == n_access_token() {
            Some(second)
        } else {
            None
        }
    }
}

/// The whole extraction rule over a header list, in priority order.
pub open spec fn spec_extract_token(h: Seq<(Seq<u8>, Seq<u8>)>) -> Option<Seq<u8>> {
    let auth = first_value_ci(h, n_authorization());
    if auth is Some && strip_bearer(auth->0) is Some {
        strip_bearer(auth->0)
    } else {
        let xa = first_value_ci(h, n_x_auth_token());
        if xa is Some {
            xa
        } else {
            let sp = first_value_ci(h, n_sec_websocket_protocol());
            if sp is Some {
                parse_subprotocol(sp->0)
            } else {
                None
            }
        }
    }
}

/// Executable counterpart of [`strip_bearer`].
pub fn strip_bearer_exec(v: &[u8]) -> (r: Option<Vec<u8>>)
    ensures
        match r {
            Some(t) => strip_bearer(v@) == Some(t@),
            None => strip_bearer(v@) is None,
        },
{
    let p = b_bearer_prefix();
    if starts_with(v, p.as_slice()) {
        let r = subvec(v, p.len(), v.len());
        proof {
            assert(v@.subrange(p@.len() as int, v@.len() as int) =~= v@.skip(p@.len() as int));
        }
        Some(r)
    } else {
        None
    }
}

/// Executable counterpart of [`parse_subprotocol`].
pub fn parse_subprotocol_exec(v: &[u8]) -> (r: Option<Vec<u8>>)
    ensures
        match r {
            Some(t) => parse_subprotocol(v@) == Some(t@),
            None => parse_subprotocol(v@) is None,
        },
{
    proof {
        crate::ascii::lemma_idx_of(v@, COMMA);
    }
    let c1 = crate::ascii::find_byte(v, COMMA);
    if c1 == v.len() {
        return None;
    }
    let head = vstd::slice::slice_subrange(v, 0, c1);
    proof {
        assert(head@ =~= v@.take(c1 as int));
    }
    let first = trim_bytes(head);
    if !bytes_eq(first.as_slice(), b_access_token().as_slice()) {
        return None;
    }
    let rest = vstd::slice::slice_subrange(v, c1 + 1, v.len());
    proof {
        assert(rest@ =~= v@.skip(c1 + 1));
    }
    proof {
        crate::ascii::lemma_idx_of(rest@, COMMA);
    }
    let c2 = crate::ascii::find_byte(rest, COMMA);
    let second_raw = vstd::slice::slice_subrange(rest, 0, c2);
    proof {
        assert(second_raw@ =~= rest@.take(c2 as int));
    }
    Some(trim_bytes(second_raw))
}

/// Extracts the caller's credential from the request headers, trying the
/// three carriers in priority order.
pub fn extract_token(headers: &Vec<HeaderPair>) -> (r: Option<Vec<u8>>)
    ensures
        match r {
            Some(t) => spec_extract_token(hview(headers@)) == Some(t@),
            None => spec_extract_token(hview(headers@)) is None,
        },
{
    let auth = crate::headers::find_first_ci(headers, b_authorization().as_slice());
    match auth {
        Some(v) => {
            let stripped = strip_bearer_exec(v.as_slice());
            match stripped {
                Some(t) => {
                    return Some(t);
                },
                None => {},
            }
        },
        None => {},
    }
    let xa = crate::headers::find_first_ci(headers, b_x_auth_token().as_slice());
    match xa {
        Some(v) => {
            return Some(v);
        },
        None => {},
    }
    let sp = crate::headers::find_first_ci(headers, b_sec_websocket_protocol().as_slice());
    match sp {
        Some(v) => parse_subprotocol_exec(v.as_slice()),
        None => None,
    }
}

/// Extraction priority: whatever else the header list carries — a
/// secondary credential header, a sub-protocol list — a first
/// `Authorization` header holding `Bearer <a>` wins, and yields `a`.
pub proof fn lemma_token_priority(h: Seq<(Seq<u8>, Seq<u8>)>, a: Seq<u8>)
    requires
        first_value_ci(h, n_authorization()) == Some(bearer(a)),
    ensures
        spec_extract_token(h) == Some(a),
{
    let v = bearer(a);
    assert(v.take(n_bearer_prefix().len() as int) =~= n_bearer_prefix());
    assert(v.skip(n_bearer_prefix().len() as int) =~= a);
}

} // verus!
