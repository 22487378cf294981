use speedgateway::headers::{filter_and_rewrite, Direction, HeaderPair};

fn pair(name: &[u8], value: &[u8]) -> HeaderPair {
    HeaderPair { name: name.to_vec(), value: value.to_vec() }
}

fn names_of(headers: &Vec<HeaderPair>) -> Vec<Vec<u8>> {
    let mut out = Vec::new();
    for h in headers {
        out.push(h.name.clone());
    }
    out
}

#[test]
fn client_authorization_is_renamed_not_forwarded() {
    let headers = vec![
        pair(b"accept", b"*/*"),
        pair(b"Authorization", b"Bearer caller-jwt"),
    ];
    let cred = b"servicesecret".to_vec();
    let out = filter_and_rewrite(&headers, Direction::Request, &cred);
    // No Authorization header carries the caller's value.
    for h in &out {
        if h.name.eq_ignore_ascii_case(b"authorization") {
            assert_ne!(h.value, b"Bearer caller-jwt".to_vec());
        }
    }
    // The caller's value travels under the forwarding header.
    assert!(out.iter().any(|h| h.name == b"x-forwarded-auth".to_vec()
        && h.value == b"Bearer caller-jwt".to_vec()));
}

#[test]
fn service_credential_wins_regardless_of_client() {
    let headers = vec![
        pair(b"AUTHORIZATION", b"Bearer clientvalue"),
        pair(b"x-custom", b"1"),
    ];
    let cred = b"svc".to_vec();
    let out = filter_and_rewrite(&headers, Direction::Request, &cred);
    let auths: Vec<&HeaderPair> = out
        .iter()
        .filter(|h| h.name.eq_ignore_ascii_case(b"authorization"))
        .collect();
    assert_eq!(auths.len(), 1);
    assert_eq!(auths[0].value, b"Bearer svc".to_vec());
}

#[test]
fn empty_credential_adds_no_authorization() {
    let headers = vec![pair(b"Authorization", b"Bearer clientvalue")];
    let out = filter_and_rewrite(&headers, Direction::Request, &Vec::new());
    assert!(!out.iter().any(|h| h.name.eq_ignore_ascii_case(b"authorization")));
    assert!(out.iter().any(|h| h.name == b"x-forwarded-auth".to_vec()
        && h.value == b"Bearer clientvalue".to_vec()));
}

#[test]
fn hop_by_hop_headers_dropped_both_directions() {
    let headers = vec![
        pair(b"Host", b"gw.example"),
        pair(b"Connection", b"keep-alive"),
        pair(b"Keep-Alive", b"timeout=5"),
        pair(b"Proxy-Authenticate", b"Basic"),
        pair(b"PROXY-AUTHORIZATION", b"Basic Zm9v"),
        pair(b"TE", b"trailers"),
        pair(b"Trailer", b"Expires"),
        pair(b"Transfer-Encoding", b"chunked"),
        pair(b"Upgrade", b"websocket"),
        pair(b"content-type", b"text/plain"),
    ];
    let hop: [&[u8]; 9] = [
        b"host",
        b"connection",
        b"keep-alive",
        b"proxy-authenticate",
        b"proxy-authorization",
        b"te",
        b"trailer",
        b"transfer-encoding",
        b"upgrade",
    ];
    let req = filter_and_rewrite(&headers, Direction::Request, &b"svc".to_vec());
    let resp = filter_and_rewrite(&headers, Direction::Response, &Vec::new());
    for out in [&req, &resp] {
        for name in names_of(out) {
            for h in hop.iter() {
                assert!(!name.eq_ignore_ascii_case(h));
            }
        }
    }
    // The ordinary header survives in both directions.
    assert!(req.iter().any(|h| h.name == b"content-type".to_vec()));
    assert!(resp.iter().any(|h| h.name == b"content-type".to_vec()));
}

#[test]
fn x_auth_token_forwarded_as_bearer_when_no_authorization() {
    let headers = vec![pair(b"X-Auth-Token", b"tok123"), pair(b"accept", b"*/*")];
    let out = filter_and_rewrite(&headers, Direction::Request, &Vec::new());
    // The token header itself passes through untouched...
    assert!(out.iter().any(|h| h.name == b"X-Auth-Token".to_vec()
        && h.value == b"tok123".to_vec()));
    // ...and is additionally wrapped under the forwarding header.
    assert!(out.iter().any(|h| h.name == b"x-forwarded-auth".to_vec()
        && h.value == b"Bearer tok123".to_vec()));
}

#[test]
fn x_auth_token_not_rewrapped_when_authorization_present() {
    let headers = vec![
        pair(b"Authorization", b"Bearer first"),
        pair(b"X-Auth-Token", b"second"),
    ];
    let out = filter_and_rewrite(&headers, Direction::Request, &Vec::new());
    let fwd: Vec<&HeaderPair> =
        out.iter().filter(|h| h.name == b"x-forwarded-auth".to_vec()).collect();
    assert_eq!(fwd.len(), 1);
    assert_eq!(fwd[0].value, b"Bearer first".to_vec());
}

#[test]
fn response_direction_never_rewrites_authorization() {
    let headers = vec![pair(b"Authorization", b"Bearer keepme"), pair(b"server", b"x")];
    let out = filter_and_rewrite(&headers, Direction::Response, &b"svc".to_vec());
    assert!(out.iter().any(|h| h.name == b"Authorization".to_vec()
        && h.value == b"Bearer keepme".to_vec()));
    assert!(!out.iter().any(|h| h.name == b"x-forwarded-auth".to_vec()));
}

#[test]
fn repeated_authorization_values_are_all_forwarded() {
    let headers = vec![
        pair(b"Authorization", b"Bearer one"),
        pair(b"authorization", b"Bearer two"),
    ];
    let out = filter_and_rewrite(&headers, Direction::Request, &b"svc".to_vec());
    let fwd: Vec<Vec<u8>> = out
        .iter()
        .filter(|h| h.name == b"x-forwarded-auth".to_vec())
        .map(|h| h.value.clone())
        .collect();
    assert_eq!(fwd, vec![b"Bearer one".to_vec(), b"Bearer two".to_vec()]);
    let auths: Vec<&HeaderPair> = out
        .iter()
        .filter(|h| h.name.eq_ignore_ascii_case(b"authorization"))
        .collect();
    assert_eq!(auths.len(), 1);
    assert_eq!(auths[0].value, b"Bearer svc".to_vec());
}

#[test]
fn request_order_is_preserved() {
    let headers = vec![
        pair(b"a", b"1"),
        pair(b"Host", b"drop"),
        pair(b"b", b"2"),
        pair(b"c", b"3"),
    ];
    let out = filter_and_rewrite(&headers, Direction::Request, &Vec::new());
    let names = names_of(&out);
    assert_eq!(names, vec![b"a".to_vec(), b"b".to_vec(), b"c".to_vec()]);
}
