use speedgateway::headers::HeaderPair;
use speedgateway::token::{extract_token, parse_subprotocol_exec};

fn pair(name: &[u8], value: &[u8]) -> HeaderPair {
    HeaderPair { name: name.to_vec(), value: value.to_vec() }
}

#[test]
fn authorization_bearer_wins_over_subprotocol() {
    let headers = vec![
        pair(b"Authorization", b"Bearer A"),
        pair(b"Sec-WebSocket-Protocol", b"access_token, B"),
    ];
    assert_eq!(extract_token(&headers), Some(b"A".to_vec()));
}

#[test]
fn subprotocol_with_marker_yields_credential() {
    let headers = vec![pair(b"Sec-WebSocket-Protocol", b"access_token, mytoken123")];
    assert_eq!(extract_token(&headers), Some(b"mytoken123".to_vec()));
}

#[test]
fn subprotocol_with_wrong_marker_yields_nothing() {
    let headers = vec![pair(b"Sec-WebSocket-Protocol", b"chat, mytoken123")];
    assert_eq!(extract_token(&headers), None);
}

#[test]
fn single_element_subprotocol_yields_nothing() {
    let headers = vec![pair(b"Sec-WebSocket-Protocol", b"access_token")];
    assert_eq!(extract_token(&headers), None);
}

#[test]
fn subprotocol_parser_trims_whitespace() {
    assert_eq!(
        parse_subprotocol_exec(b"  access_token ,  mytoken123  "),
        Some(b"mytoken123".to_vec())
    );
    assert_eq!(parse_subprotocol_exec(b"access_token,tok,extra"), Some(b"tok".to_vec()));
    assert_eq!(parse_subprotocol_exec(b"chat"), None);
}

#[test]
fn x_auth_token_is_second_priority() {
    let headers = vec![
        pair(b"X-Auth-Token", b"rawtoken"),
        pair(b"Sec-WebSocket-Protocol", b"access_token, other"),
    ];
    assert_eq!(extract_token(&headers), Some(b"rawtoken".to_vec()));
}

#[test]
fn authorization_without_bearer_prefix_falls_through() {
    let headers = vec![
        pair(b"Authorization", b"Basic Zm9v"),
        pair(b"X-Auth-Token", b"fallback"),
    ];
    assert_eq!(extract_token(&headers), Some(b"fallback".to_vec()));
}

#[test]
fn no_carrier_yields_nothing() {
    let headers = vec![pair(b"accept", b"*/*")];
    assert_eq!(extract_token(&headers), None);
}
