use screw::http::{
    HeaderMap, HttpRequest, Method, RemoteAddr, Request, Response, Version,
    BAD_REQUEST, INTERNAL_SERVER_ERROR, OK, SWITCHING_PROTOCOLS,
};
use std::sync::Arc;

#[test]
fn methods_have_their_names() {
    assert_eq!(Method::Options.as_str(), "OPTIONS");
    assert_eq!(Method::Get.as_str(), "GET");
    assert_eq!(Method::Post.as_str(), "POST");
    assert_eq!(Method::Put.as_str(), "PUT");
    assert_eq!(Method::Delete.as_str(), "DELETE");
    assert_eq!(Method::Head.as_str(), "HEAD");
    assert_eq!(Method::Trace.as_str(), "TRACE");
    assert_eq!(Method::Connect.as_str(), "CONNECT");
    assert_eq!(Method::Patch.as_str(), "PATCH");
    assert_eq!(Method::Extension("PURGE".to_string()).as_str(), "PURGE");
}

#[test]
fn methods_are_made_from_names() {
    assert!(matches!(Method::from_name("GET"), Method::Get));
    assert!(matches!(Method::from_name("PATCH"), Method::Patch));
    assert!(matches!(Method::from_name("get"), Method::Extension(_)));
    assert_eq!(Method::from_name("PURGE").as_str(), "PURGE");
}

#[test]
fn methods_are_equal_by_name() {
    assert!(Method::Get == Method::Get);
    assert!(Method::Get != Method::Post);
    assert!(Method::Extension("GET".to_string()) == Method::Get);
    assert!(Method::Extension("get".to_string()) != Method::Get);
    assert!(Method::Get.is_get());
    assert!(!Method::Head.is_get());
    assert!(Method::Delete.clone() == Method::Delete);
    assert!(Method::Extension("PURGE".to_string()).clone() == Method::from_name("PURGE"));
}

#[test]
fn versions_from_1_1_on() {
    assert!(!Version::Http09.is_at_least_11());
    assert!(!Version::Http10.is_at_least_11());
    assert!(Version::Http11.is_at_least_11());
    assert!(Version::Http2.is_at_least_11());
    assert!(Version::Http3.is_at_least_11());
}

#[test]
fn lookup_ignores_the_case_of_names() {
    let mut headers = HeaderMap::new();
    headers.append(b"Content-Type", b"text/plain");
    assert_eq!(headers.get(b"content-type"), Some(&b"text/plain".to_vec()));
    assert_eq!(headers.get(b"CONTENT-TYPE"), Some(&b"text/plain".to_vec()));
    assert_eq!(headers.get(b"content_type"), None);
    assert_eq!(headers.get(b"content-typ"), None);
    assert!(headers.contains(b"Content-type"));
    assert!(!headers.contains(b"Accept"));
}

#[test]
fn lookup_finds_the_first_field() {
    let mut headers = HeaderMap::new();
    assert_eq!(headers.len(), 0);
    assert_eq!(headers.get(b"accept"), None);
    headers.append(b"Accept", b"text/html");
    headers.append(b"Host", b"example.org");
    headers.append(b"accept", b"application/json");
    assert_eq!(headers.len(), 3);
    assert_eq!(headers.get(b"ACCEPT"), Some(&b"text/html".to_vec()));
    assert_eq!(headers.get(b"host"), Some(&b"example.org".to_vec()));
}

#[test]
fn fields_keep_their_order() {
    let mut headers = HeaderMap::new();
    headers.append(b"a", b"1");
    headers.append(b"b", b"2");
    assert_eq!(headers.entries[0].name, b"a".to_vec());
    assert_eq!(headers.entries[0].value, b"1".to_vec());
    assert_eq!(headers.entries[1].name, b"b".to_vec());
    assert_eq!(headers.entries[1].value, b"2".to_vec());
}

#[test]
fn empty_response() {
    let response = Response::empty(204);
    assert_eq!(response.status, 204);
    assert_eq!(response.headers.len(), 0);
    assert!(response.body.is_empty());
}

#[test]
fn status_codes() {
    assert_eq!(OK, 200);
    assert_eq!(SWITCHING_PROTOCOLS, 101);
    assert_eq!(BAD_REQUEST, 400);
    assert_eq!(INTERNAL_SERVER_ERROR, 500);
}

#[test]
fn a_request_holds_what_it_is_given() {
    let request = Request {
        remote_addr: RemoteAddr::V6 { ip: 1, port: 8080, flowinfo: 7, scope_id: 3 },
        extensions: Arc::new(7u8),
        http: HttpRequest {
            method: Method::Put,
            version: Version::Http2,
            path: "/a".to_string(),
            query: Some("x=1".to_string()),
            headers: HeaderMap::new(),
            body: vec![1u8, 2],
        },
    };
    assert_eq!(request.remote_addr, RemoteAddr::V6 { ip: 1, port: 8080, flowinfo: 7, scope_id: 3 });
    assert_eq!(*request.extensions, 7);
    assert_eq!(request.http.version, Version::Http2);
    assert_eq!(request.http.query.as_deref(), Some("x=1"));
    assert_eq!(request.http.body, vec![1, 2]);
}

#[test]
fn a_peer_has_its_port() {
    assert_eq!(RemoteAddr::V4 { ip: 0x7f00_0001, port: 80 }.port(), 80);
    let peer = RemoteAddr::V6 { ip: 1, port: 443, flowinfo: 9, scope_id: 2 };
    assert_eq!(peer.port(), 443);
    assert_ne!(peer, RemoteAddr::V6 { ip: 1, port: 443, flowinfo: 9, scope_id: 3 });
    assert_ne!(peer, RemoteAddr::V6 { ip: 1, port: 443, flowinfo: 8, scope_id: 2 });
}
