use speedgateway::errors::GatewayError;
use speedgateway::forward::{plan_forward, plan_response};
use speedgateway::headers::HeaderPair;
use speedgateway::target::{build_ws_url, compose_target_url};
use speedgateway::GatewayConfig;

fn pair(name: &[u8], value: &[u8]) -> HeaderPair {
    HeaderPair { name: name.to_vec(), value: value.to_vec() }
}

#[test]
fn composes_target_with_query() {
    let url = compose_target_url(b"https://backend.example", b"/v1/models", Some(b"page=2"));
    assert_eq!(url, b"https://backend.example/v1/models?page=2".to_vec());
}

#[test]
fn composes_target_without_query() {
    let url = compose_target_url(b"https://backend.example", b"/v1/models", None);
    assert_eq!(url, b"https://backend.example/v1/models".to_vec());
}

#[test]
fn ws_url_translates_https_to_wss() {
    let t = build_ws_url(b"https://backend.example", b"/notifications", None).unwrap();
    assert_eq!(t.url, b"wss://backend.example/notifications".to_vec());
    assert_eq!(t.host, b"backend.example".to_vec());
}

#[test]
fn ws_url_translates_http_to_ws() {
    let t = build_ws_url(b"http://backend.example:8080", b"/chat", Some(b"room=1")).unwrap();
    assert_eq!(t.url, b"ws://backend.example:8080/chat?room=1".to_vec());
    assert_eq!(t.host, b"backend.example".to_vec());
}

#[test]
fn ws_url_defaults_to_wss_without_scheme() {
    let t = build_ws_url(b"backend.example", b"/ws", None).unwrap();
    assert_eq!(t.url, b"wss://backend.example/ws".to_vec());
    assert_eq!(t.host, b"backend.example".to_vec());
}

#[test]
fn malformed_ws_url_is_refused() {
    let r = build_ws_url(b"", b"", None);
    match r {
        Err(e) => assert_eq!(e, GatewayError::InvalidUpstreamUrl),
        Ok(_) => panic!("an empty target must not parse"),
    }
}

#[test]
fn forward_plan_keeps_method_and_target() {
    let config = GatewayConfig::new(b"https://backend.example".to_vec(), b"svc".to_vec());
    let headers = vec![pair(b"accept", b"*/*"), pair(b"Host", b"gw.example")];
    let plan = plan_forward(b"GET", b"/v1/models", Some(b"page=2"), &headers, &config).unwrap();
    assert_eq!(plan.method, b"GET".to_vec());
    assert_eq!(plan.uri, b"https://backend.example/v1/models?page=2".to_vec());
    assert!(plan.headers.iter().any(|h| h.name == b"accept".to_vec()));
    assert!(!plan.headers.iter().any(|h| h.name.eq_ignore_ascii_case(b"host")));
    assert!(plan.headers.iter().any(|h| h.name == b"authorization".to_vec()
        && h.value == b"Bearer svc".to_vec()));
}

#[test]
fn forward_plan_refuses_malformed_target() {
    let config = GatewayConfig::new(b"ht tp://bad base".to_vec(), Vec::new());
    let headers = vec![pair(b"accept", b"*/*")];
    match plan_forward(b"GET", b"/x", None, &headers, &config) {
        Err(e) => assert_eq!(e, GatewayError::InvalidTarget),
        Ok(_) => panic!("a target with spaces must not parse"),
    }
}

#[test]
fn response_plan_keeps_status_and_filters() {
    let headers = vec![
        pair(b"Transfer-Encoding", b"chunked"),
        pair(b"content-length", b"12"),
    ];
    let plan = plan_response(206, &headers);
    assert_eq!(plan.status, 206);
    assert!(!plan.headers.iter().any(|h| h.name.eq_ignore_ascii_case(b"transfer-encoding")));
    assert!(plan.headers.iter().any(|h| h.name == b"content-length".to_vec()));
}
