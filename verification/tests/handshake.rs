use screw::handshake::{
    accept_name, examine, bad_request, connection_name, get_web_socket_key_header, is_connection_header_upgrade,
    is_get_method, is_http_version_11_or_larger, is_upgrade_header_web_socket,
    is_web_socket_version_header_13, key_name, switching_protocols, try_upgradable, upgrade_name,
    version_13, version_name, websocket_token, HandshakeError,
};
use screw::http::{HeaderMap, HttpRequest, Method, RemoteAddr, Request, Version};
use std::sync::Arc;

fn request(method: Method, version: Version, fields: &[(&str, &[u8])]) -> Request<(), ()> {
    let mut headers = HeaderMap::new();
    for (name, value) in fields {
        headers.append(name.as_bytes(), value);
    }
    Request {
        remote_addr: RemoteAddr::V4 { ip: 0x7f00_0001, port: 4000 },
        extensions: Arc::new(()),
        http: HttpRequest {
            method,
            version,
            path: "/socket".to_string(),
            query: None,
            headers,
            body: (),
        },
    }
}

fn sample() -> Vec<(&'static str, &'static [u8])> {
    vec![
        ("Connection", &b"Upgrade"[..]),
        ("Upgrade", &b"websocket"[..]),
        ("Sec-WebSocket-Version", &b"13"[..]),
        ("Sec-WebSocket-Key", &b"dGhlIHNhbXBsZSBub25jZQ=="[..]),
    ]
}

fn without(name: &str) -> Vec<(&'static str, &'static [u8])> {
    sample().into_iter().filter(|(field, _)| *field != name).collect()
}

fn with(name: &'static str, value: &'static [u8]) -> Vec<(&'static str, &'static [u8])> {
    sample().into_iter().map(|(field, old)| if field == name { (field, value) } else { (field, old) }).collect()
}

fn error_of(method: Method, version: Version, fields: &[(&str, &[u8])]) -> HandshakeError {
    try_upgradable(&request(method, version, fields)).unwrap_err()
}

#[test]
fn sample_key_gets_the_sample_answer() {
    let upgradable = try_upgradable(&request(Method::Get, Version::Http11, &sample())).unwrap();
    assert_eq!(upgradable.key, b"s3pPLMBiTxaQ9kYGzzhZRbK+xOo=".to_vec());
}

#[test]
fn another_key_gets_another_answer() {
    let fields = with("Sec-WebSocket-Key", b"x3JJHMbDL1EzLkh9GBhXDw==");
    let upgradable = try_upgradable(&request(Method::Get, Version::Http2, &fields)).unwrap();
    assert_eq!(upgradable.key, b"HSmrc0sMlYUkAGmm5OPpG2HaGWk=".to_vec());
    assert_ne!(upgradable.key, b"x3JJHMbDL1EzLkh9GBhXDw==".to_vec());
}

#[test]
fn field_names_may_be_in_any_case() {
    let fields: Vec<(&str, &[u8])> = vec![
        ("connection", b"keep-alive, upgrade"),
        ("UPGRADE", b"WebSocket"),
        ("sec-websocket-version", b"13"),
        ("SEC-WEBSOCKET-KEY", b"dGhlIHNhbXBsZSBub25jZQ=="),
    ];
    let upgradable = try_upgradable(&request(Method::Get, Version::Http11, &fields)).unwrap();
    assert_eq!(upgradable.key, b"s3pPLMBiTxaQ9kYGzzhZRbK+xOo=".to_vec());
}

#[test]
fn wrong_method_is_reported_first() {
    assert_eq!(error_of(Method::Post, Version::Http10, &[]), HandshakeError::WrongHttpMethod);
    assert_eq!(error_of(Method::Head, Version::Http11, &sample()), HandshakeError::WrongHttpMethod);
}

#[test]
fn old_version_is_reported_second() {
    assert_eq!(error_of(Method::Get, Version::Http10, &[]), HandshakeError::WrongHttpVersion);
    assert_eq!(error_of(Method::Get, Version::Http09, &sample()), HandshakeError::WrongHttpVersion);
}

#[test]
fn connection_field_is_examined_third() {
    assert_eq!(
        error_of(Method::Get, Version::Http11, &[]),
        HandshakeError::MissingConnectionUpgradeHeader
    );
    assert_eq!(
        error_of(Method::Get, Version::Http11, &without("Connection")),
        HandshakeError::MissingConnectionUpgradeHeader
    );
    assert_eq!(
        error_of(Method::Get, Version::Http11, &with("Connection", b"keep-alive")),
        HandshakeError::MissingConnectionUpgradeHeader
    );
    assert_eq!(
        error_of(Method::Get, Version::Http11, &with("Connection", b"Upgrade, \xff")),
        HandshakeError::MissingConnectionUpgradeHeader
    );
}

#[test]
fn upgrade_field_is_examined_fourth() {
    assert_eq!(
        error_of(Method::Get, Version::Http11, &without("Upgrade")),
        HandshakeError::MissingUpgradeWebSocketHeader
    );
    assert_eq!(
        error_of(Method::Get, Version::Http11, &with("Upgrade", b"websocket, h2c")),
        HandshakeError::MissingUpgradeWebSocketHeader
    );
    assert_eq!(
        error_of(Method::Get, Version::Http11, &with("Upgrade", b"h2c")),
        HandshakeError::MissingUpgradeWebSocketHeader
    );
}

#[test]
fn version_field_is_examined_fifth() {
    assert_eq!(
        error_of(Method::Get, Version::Http11, &without("Sec-WebSocket-Version")),
        HandshakeError::MissingSecWebSocketVersionHeader
    );
    assert_eq!(
        error_of(Method::Get, Version::Http11, &with("Sec-WebSocket-Version", b"12")),
        HandshakeError::MissingSecWebSocketVersionHeader
    );
    assert_eq!(
        error_of(Method::Get, Version::Http11, &with("Sec-WebSocket-Version", b"13 ")),
        HandshakeError::MissingSecWebSocketVersionHeader
    );
}

#[test]
fn key_field_is_examined_last() {
    assert_eq!(
        error_of(Method::Get, Version::Http11, &without("Sec-WebSocket-Key")),
        HandshakeError::MissingSecWebSocketKey
    );
}

#[test]
fn single_conditions() {
    let good = request(Method::Get, Version::Http11, &sample());
    assert!(is_get_method(&good));
    assert!(is_http_version_11_or_larger(&good));
    assert!(is_connection_header_upgrade(&good));
    assert!(is_upgrade_header_web_socket(&good));
    assert!(is_web_socket_version_header_13(&good));
    assert_eq!(get_web_socket_key_header(&good), Some(&b"dGhlIHNhbXBsZSBub25jZQ==".to_vec()));

    let bare = request(Method::Delete, Version::Http10, &[]);
    assert!(!is_get_method(&bare));
    assert!(!is_http_version_11_or_larger(&bare));
    assert!(!is_connection_header_upgrade(&bare));
    assert!(!is_upgrade_header_web_socket(&bare));
    assert!(!is_web_socket_version_header_13(&bare));
    assert_eq!(get_web_socket_key_header(&bare), None);
}

#[test]
fn the_first_field_of_a_name_counts() {
    let fields: Vec<(&str, &[u8])> = vec![
        ("Connection", b"close"),
        ("Connection", b"Upgrade"),
        ("Upgrade", b"websocket"),
        ("Sec-WebSocket-Version", b"13"),
        ("Sec-WebSocket-Key", b"dGhlIHNhbXBsZSBub25jZQ=="),
    ];
    assert_eq!(
        error_of(Method::Get, Version::Http11, &fields),
        HandshakeError::MissingConnectionUpgradeHeader
    );
}

#[test]
fn names_and_tokens() {
    assert_eq!(connection_name(), b"Connection");
    assert_eq!(upgrade_name(), b"Upgrade");
    assert_eq!(websocket_token(), b"websocket");
    assert_eq!(version_name(), b"Sec-WebSocket-Version");
    assert_eq!(version_13(), b"13");
    assert_eq!(key_name(), b"Sec-WebSocket-Key");
    assert_eq!(accept_name(), b"Sec-WebSocket-Accept");
}

#[test]
fn the_accepting_reply() {
    let response = switching_protocols(b"s3pPLMBiTxaQ9kYGzzhZRbK+xOo=");
    assert_eq!(response.status, 101);
    assert_eq!(response.headers.len(), 3);
    assert_eq!(response.headers.entries[0].name, b"Connection".to_vec());
    assert_eq!(response.headers.entries[0].value, b"Upgrade".to_vec());
    assert_eq!(response.headers.entries[1].name, b"Upgrade".to_vec());
    assert_eq!(response.headers.entries[1].value, b"websocket".to_vec());
    assert_eq!(response.headers.entries[2].name, b"Sec-WebSocket-Accept".to_vec());
    assert_eq!(response.headers.entries[2].value, b"s3pPLMBiTxaQ9kYGzzhZRbK+xOo=".to_vec());
    assert!(response.body.is_empty());
}

#[test]
fn the_refusing_reply() {
    let response = bad_request();
    assert_eq!(response.status, 400);
    assert_eq!(response.headers.len(), 0);
    assert!(response.body.is_empty());
}

#[test]
fn an_examination_gives_the_key_that_the_client_sent() {
    let good = request(Method::Get, Version::Http11, &sample());
    assert_eq!(examine(&good), Ok(&b"dGhlIHNhbXBsZSBub25jZQ==".to_vec()));
    assert_eq!(
        examine(&request(Method::Put, Version::Http11, &sample())),
        Err(HandshakeError::WrongHttpMethod)
    );
    assert_eq!(
        examine(&request(Method::Get, Version::Http11, &without("Sec-WebSocket-Key"))),
        Err(HandshakeError::MissingSecWebSocketKey)
    );
    assert_eq!(
        examine(&request(Method::Get, Version::Http11, &with("Upgrade", b"web socket"))),
        Err(HandshakeError::MissingUpgradeWebSocketHeader)
    );
}
