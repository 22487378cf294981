use speedgateway::errors::{error_response, GatewayError};
use speedgateway::health::gateway_health;
use speedgateway::wskey::{base64_encode, generate_ws_key};

#[test]
fn health_is_fixed_json() {
    let (status, headers, body) = gateway_health();
    assert_eq!(status, 200);
    assert_eq!(headers.len(), 1);
    assert_eq!(headers[0].name, b"content-type".to_vec());
    assert_eq!(headers[0].value, b"application/json".to_vec());
    assert_eq!(
        body,
        b"{\"status\":\"ok\",\"service\":\"wighaven-gateway-rust\",\"version\":\"2.1\",\"websocket\":true}"
            .to_vec()
    );
}

#[test]
fn base64_known_vectors() {
    assert_eq!(base64_encode(b""), "");
    assert_eq!(base64_encode(b"f"), "Zg==");
    assert_eq!(base64_encode(b"fo"), "Zm8=");
    assert_eq!(base64_encode(b"foo"), "Zm9v");
    assert_eq!(base64_encode(b"foob"), "Zm9vYg==");
    assert_eq!(base64_encode(b"fooba"), "Zm9vYmE=");
    assert_eq!(base64_encode(b"foobar"), "Zm9vYmFy");
    assert_eq!(base64_encode(&[0u8, 0, 0]), "AAAA");
    assert_eq!(base64_encode(&[255u8, 255, 255]), "////");
    assert_eq!(base64_encode(&[251u8, 239]), "++8=");
}

#[test]
fn ws_key_is_eight_chars_of_base64() {
    let key = generate_ws_key();
    assert_eq!(key.len(), 8);
    assert!(key.ends_with("=="));
    for c in key[..6].chars() {
        assert!(c.is_ascii_alphanumeric() || c == '+' || c == '/');
    }
}

#[test]
fn error_responses_carry_status_and_text() {
    assert_eq!(
        error_response(GatewayError::InvalidTarget, b""),
        (500, b"Invalid target URL".to_vec())
    );
    assert_eq!(
        error_response(GatewayError::InvalidUpstreamUrl, b""),
        (400, b"Invalid WebSocket URL".to_vec())
    );
    assert_eq!(
        error_response(GatewayError::BackendUnreachable, b"connection refused"),
        (502, b"Backend connection failed: connection refused".to_vec())
    );
    assert_eq!(
        error_response(GatewayError::UpstreamHandshakeFailed, b"404 Not Found"),
        (502, b"WebSocket connection failed: 404 Not Found".to_vec())
    );
    assert_eq!(
        error_response(GatewayError::Timeout, b""),
        (504, b"Gateway timeout".to_vec())
    );
}
