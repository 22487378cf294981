use speedgateway::headers::HeaderPair;
use speedgateway::relay::{
    build_handshake_headers, build_upgrade_response, is_websocket_upgrade, prepare_handshake,
    session_step, Frame, RelayAction, SessionEvent, SessionState,
};
use speedgateway::GatewayConfig;

fn pair(name: &[u8], value: &[u8]) -> HeaderPair {
    HeaderPair { name: name.to_vec(), value: value.to_vec() }
}

#[test]
fn upgrade_detection_is_case_insensitive() {
    let yes = vec![pair(b"UPGRADE", b"WebSocket")];
    let no = vec![pair(b"Upgrade", b"h2c")];
    let none = vec![pair(b"accept", b"*/*")];
    assert!(is_websocket_upgrade(&yes));
    assert!(!is_websocket_upgrade(&no));
    assert!(!is_websocket_upgrade(&none));
}

#[test]
fn text_frames_cross_unchanged_both_ways() {
    let (s, a) = session_step(
        SessionState::Relaying,
        SessionEvent::ClientFrame(Frame::Text(b"hello".to_vec())),
    );
    assert_eq!(s, SessionState::Relaying);
    match a {
        RelayAction::SendToBackend(Frame::Text(p)) => assert_eq!(p, b"hello".to_vec()),
        _ => panic!("a client text frame must go to the backend as text"),
    }
    let (s, a) = session_step(
        SessionState::Relaying,
        SessionEvent::BackendFrame(Frame::Text(b"world".to_vec())),
    );
    assert_eq!(s, SessionState::Relaying);
    match a {
        RelayAction::SendToClient(Frame::Text(p)) => assert_eq!(p, b"world".to_vec()),
        _ => panic!("a backend text frame must go to the client as text"),
    }
}

#[test]
fn binary_frames_preserve_bytes_exactly() {
    let payload = vec![0u8, 255, 7, 42];
    let (_, a) = session_step(
        SessionState::Relaying,
        SessionEvent::ClientFrame(Frame::Binary(payload.clone())),
    );
    match a {
        RelayAction::SendToBackend(Frame::Binary(p)) => assert_eq!(p, payload),
        _ => panic!("a binary frame must stay binary"),
    }
}

#[test]
fn ping_and_pong_are_relayed() {
    let (_, a) = session_step(
        SessionState::Relaying,
        SessionEvent::ClientFrame(Frame::Ping(b"p".to_vec())),
    );
    assert!(matches!(a, RelayAction::SendToBackend(Frame::Ping(_))));
    let (_, a) = session_step(
        SessionState::Relaying,
        SessionEvent::BackendFrame(Frame::Pong(b"p".to_vec())),
    );
    assert!(matches!(a, RelayAction::SendToClient(Frame::Pong(_))));
}

#[test]
fn raw_frames_are_consumed_not_forwarded() {
    let (s, a) = session_step(SessionState::Relaying, SessionEvent::BackendFrame(Frame::Raw));
    assert_eq!(s, SessionState::Relaying);
    assert!(matches!(a, RelayAction::Stay));
}

#[test]
fn backend_close_ends_session_and_silences_it() {
    let (s, a) = session_step(SessionState::Relaying, SessionEvent::BackendFrame(Frame::Close));
    assert_eq!(s, SessionState::Closed);
    assert!(matches!(a, RelayAction::CloseBoth));
    // After Closed, no event produces any forwarding.
    let (s, a) = session_step(s, SessionEvent::ClientFrame(Frame::Text(b"late".to_vec())));
    assert_eq!(s, SessionState::Closed);
    assert!(matches!(a, RelayAction::Stay));
}

#[test]
fn client_close_ends_session_symmetrically() {
    let (s, a) = session_step(SessionState::Relaying, SessionEvent::ClientFrame(Frame::Close));
    assert_eq!(s, SessionState::Closed);
    assert!(matches!(a, RelayAction::CloseBoth));
    let (s, a) = session_step(s, SessionEvent::BackendFrame(Frame::Binary(b"x".to_vec())));
    assert_eq!(s, SessionState::Closed);
    assert!(matches!(a, RelayAction::Stay));
}

#[test]
fn errors_end_the_session() {
    let (s, a) = session_step(SessionState::Relaying, SessionEvent::ClientError);
    assert_eq!(s, SessionState::Closed);
    assert!(matches!(a, RelayAction::CloseBoth));
    let (s, a) = session_step(SessionState::Relaying, SessionEvent::BackendError);
    assert_eq!(s, SessionState::Closed);
    assert!(matches!(a, RelayAction::CloseBoth));
}

#[test]
fn handshake_outcomes_drive_the_upgrade() {
    let (s, a) = session_step(SessionState::Pending, SessionEvent::HandshakePrepared);
    assert_eq!(s, SessionState::HandshakeSent);
    assert!(matches!(a, RelayAction::Stay));
    let (ok, a_ok) = session_step(SessionState::HandshakeSent, SessionEvent::HandshakeSucceeded);
    assert_eq!(ok, SessionState::Relaying);
    assert!(matches!(a_ok, RelayAction::CompleteUpgrade));
    let (bad, a_bad) = session_step(SessionState::HandshakeSent, SessionEvent::HandshakeFailed);
    assert_eq!(bad, SessionState::Closed);
    assert!(matches!(a_bad, RelayAction::RefuseUpstream));
}

#[test]
fn handshake_headers_follow_the_layout() {
    let headers = build_handshake_headers(
        b"backend.example",
        b"AAAAAAA=",
        Some(b"tok"),
        b"svc",
        Some(b"https://app.example"),
    );
    let expect: Vec<(&[u8], &[u8])> = vec![
        (b"host", b"backend.example"),
        (b"upgrade", b"websocket"),
        (b"connection", b"Upgrade"),
        (b"sec-websocket-version", b"13"),
        (b"sec-websocket-key", b"AAAAAAA="),
        (b"sec-websocket-protocol", b"access_token, tok"),
        (b"authorization", b"Bearer svc"),
        (b"origin", b"https://app.example"),
    ];
    assert_eq!(headers.len(), expect.len());
    for (h, (n, v)) in headers.iter().zip(expect.iter()) {
        assert_eq!(h.name, n.to_vec());
        assert_eq!(h.value, v.to_vec());
    }
}

#[test]
fn handshake_headers_omit_absent_parts() {
    let headers = build_handshake_headers(b"h", b"k", None, b"", None);
    assert_eq!(headers.len(), 5);
    assert!(!headers.iter().any(|h| h.name == b"authorization".to_vec()));
    assert!(!headers.iter().any(|h| h.name == b"sec-websocket-protocol".to_vec()));
}

#[test]
fn upgrade_response_echoes_protocol_and_accept() {
    let (status, headers) = build_upgrade_response(true, Some(b"acceptkey"));
    assert_eq!(status, 101);
    assert!(headers.iter().any(|h| h.name == b"upgrade".to_vec()
        && h.value == b"websocket".to_vec()));
    assert!(headers.iter().any(|h| h.name == b"sec-websocket-protocol".to_vec()
        && h.value == b"access_token".to_vec()));
    assert!(headers.iter().any(|h| h.name == b"sec-websocket-accept".to_vec()
        && h.value == b"acceptkey".to_vec()));
    let (_, bare) = build_upgrade_response(false, None);
    assert_eq!(bare.len(), 2);
}

#[test]
fn prepare_handshake_composes_everything() {
    let config = GatewayConfig::new(b"https://backend.example".to_vec(), b"svc".to_vec());
    let client = vec![
        pair(b"Upgrade", b"websocket"),
        pair(b"Sec-WebSocket-Protocol", b"access_token, usertok"),
        pair(b"Origin", b"https://app.example"),
    ];
    let plan = prepare_handshake(&config, b"/notifications", None, &client, b"KEY=").unwrap();
    assert_eq!(plan.target.url, b"wss://backend.example/notifications".to_vec());
    assert_eq!(plan.target.host, b"backend.example".to_vec());
    assert!(plan.token_present);
    assert!(plan.headers.iter().any(|h| h.name == b"sec-websocket-protocol".to_vec()
        && h.value == b"access_token, usertok".to_vec()));
    assert!(plan.headers.iter().any(|h| h.name == b"authorization".to_vec()
        && h.value == b"Bearer svc".to_vec()));
    assert!(plan.headers.iter().any(|h| h.name == b"origin".to_vec()
        && h.value == b"https://app.example".to_vec()));
}
