//! The opening handshake that turns an HTTP exchange into a WebSocket
//! connection: what a request must hold, and the key that answers it.

use crate::http::{
    field_value, HeaderMap, Request, Response, ResponseView, Version, BAD_REQUEST,
    SWITCHING_PROTOCOLS,
};
use crate::text::{
    all_visible, ascii_bytes, bytes_eq, bytes_eq_ignore_case, contains_token, eq_ignore_case,
    has_token, is_visible_ascii, literal_bytes,
};
use vstd::prelude::*;

verus! {

/// Why an opening handshake is refused. The variants stand in the order in
/// which a request is examined.
#[derive(Clone, Copy, Debug, PartialEq, Eq, Structural)]
pub enum HandshakeError {
    /// The method is not GET.
    WrongHttpMethod,
    /// The version is older than HTTP/1.1.
    WrongHttpVersion,
    /// No `Connection` field lists `Upgrade`.
    MissingConnectionUpgradeHeader,
    /// No `Upgrade` field asks for `websocket`.
    MissingUpgradeWebSocketHeader,
    /// No `Sec-WebSocket-Version` field says `13`.
    MissingSecWebSocketVersionHeader,
    /// There is no `Sec-WebSocket-Key` field.
    MissingSecWebSocketKey,
}

/// The `Connection` field can be read as text and one of its tokens is
/// `Upgrade`.
pub open spec fn connection_names_upgrade(headers: Seq<(Seq<u8>, Seq<u8>)>) -> bool {
    match field_value(headers, ascii_bytes("Connection"@)) {
        Some(value) => all_visible(value) && has_token(value, ascii_bytes("Upgrade"@)),
        None => false,
    }
}

/// The `Upgrade` field can be read as text and is `websocket`.
pub open spec fn upgrade_names_websocket(headers: Seq<(Seq<u8>, Seq<u8>)>) -> bool {
    match field_value(headers, ascii_bytes("Upgrade"@)) {
        Some(value) => all_visible(value) && eq_ignore_case(value, ascii_bytes("websocket"@)),
        None => false,
    }
}

/// The `Sec-WebSocket-Version` field is exactly `13`.
pub open spec fn version_is_13(headers: Seq<(Seq<u8>, Seq<u8>)>) -> bool {
    field_value(headers, ascii_bytes("Sec-WebSocket-Version"@)) == Some(ascii_bytes("13"@))
}

/// The key that the client sent, if it sent one.
pub open spec fn client_key(headers: Seq<(Seq<u8>, Seq<u8>)>) -> Option<Seq<u8>> {
    field_value(headers, ascii_bytes("Sec-WebSocket-Key"@))
}

/// The outcome of examining a request: the client's key, or the first of the
/// six conditions that the request does not meet.
pub open spec fn handshake_verdict(
    method: Seq<char>,
    version: Version,
    headers: Seq<(Seq<u8>, Seq<u8>)>,
) -> Result<Seq<u8>, HandshakeError> {
    if method != "GET"@ {
        Err(HandshakeError::WrongHttpMethod)
    } else if version.rank() < Version::Http11.rank() {
        Err(HandshakeError::WrongHttpVersion)
    } else if !connection_names_upgrade(headers) {
        Err(HandshakeError::MissingConnectionUpgradeHeader)
    } else if !upgrade_names_websocket(headers) {
        Err(HandshakeError::MissingUpgradeWebSocketHeader)
    } else if !version_is_13(headers) {
        Err(HandshakeError::MissingSecWebSocketVersionHeader)
    } else {
        match client_key(headers) {
            Some(key) => Ok(key),
            None => Err(HandshakeError::MissingSecWebSocketKey),
        }
    }
}

/// The verdict on a request.
pub open spec fn request_verdict<B, E>(request: &Request<B, E>) -> Result<Seq<u8>, HandshakeError> {
    handshake_verdict(request.http.method@, request.http.version, request.http.headers@)
}

/// The name of the field that lists what the connection is asked to do.
pub fn connection_name() -> (name: &'static [u8])
    ensures
        name@ == ascii_bytes("Connection"@),
{
    proof {
        reveal_strlit("Connection");
    }
    literal_bytes("Connection")
}

/// The name of the field that names the protocol asked for, which is also
/// the token that asks for a change of protocol.
pub fn upgrade_name() -> (name: &'static [u8])
    ensures
        name@ == ascii_bytes("Upgrade"@),
{
    proof {
        reveal_strlit("Upgrade");
    }
    literal_bytes("Upgrade")
}

/// The name of the protocol.
pub fn websocket_token() -> (token: &'static [u8])
    ensures
        token@ == ascii_bytes("websocket"@),
{
    proof {
        reveal_strlit("websocket");
    }
    literal_bytes("websocket")
}

/// The name of the field that holds the version of the protocol.
pub fn version_name() -> (name: &'static [u8])
    ensures
        name@ == ascii_bytes("Sec-WebSocket-Version"@),
{
    proof {
        reveal_strlit("Sec-WebSocket-Version");
    }
    literal_bytes("Sec-WebSocket-Version")
}

/// The one version that is accepted.
pub fn version_13() -> (value: &'static [u8])
    ensures
        value@ == ascii_bytes("13"@),
{
    proof {
        reveal_strlit("13");
    }
    literal_bytes("13")
}

/// The name of the field that holds the client's key.
pub fn key_name() -> (name: &'static [u8])
    ensures
        name@ == ascii_bytes("Sec-WebSocket-Key"@),
{
    proof {
        reveal_strlit("Sec-WebSocket-Key");
    }
    literal_bytes("Sec-WebSocket-Key")
}

/// The name of the field that holds the answering key.
pub fn accept_name() -> (name: &'static [u8])
    ensures
        name@ == ascii_bytes("Sec-WebSocket-Accept"@),
{
    proof {
        reveal_strlit("Sec-WebSocket-Accept");
    }
    literal_bytes("Sec-WebSocket-Accept")
}

/// The first condition: the method is GET.
pub fn is_get_method<B, E>(request: &Request<B, E>) -> (r: bool)
    ensures
        r == (request.http.method@ == "GET"@),
{
    request.http.method.is_get()
}

/// The second condition: the version is HTTP/1.1 or a later one.
pub fn is_http_version_11_or_larger<B, E>(request: &Request<B, E>) -> (r: bool)
    ensures
        r == (request.http.version.rank() >= Version::Http11.rank()),
{
    request.http.version.is_at_least_11()
}

/// The third condition: the `Connection` field, cut at spaces and commas,
/// holds the token `Upgrade`, letters in either case.
pub fn is_connection_header_upgrade<B, E>(request: &Request<B, E>) -> (r: bool)
    ensures
        r == connection_names_upgrade(request.http.headers@),
{
    match request.http.headers.get(connection_name()) {
        Some(value) => is_visible_ascii(value.as_slice()) && contains_token(
            value.as_slice(),
            upgrade_name(),
        ),
        None => false,
    }
}

/// The fourth condition: the `Upgrade` field is `websocket`, letters in
/// either case.
pub fn is_upgrade_header_web_socket<B, E>(request: &Request<B, E>) -> (r: bool)
    ensures
        r == upgrade_names_websocket(request.http.headers@),
{
    match request.http.headers.get(upgrade_name()) {
        Some(value) => is_visible_ascii(value.as_slice()) && bytes_eq_ignore_case(
            value.as_slice(),
            websocket_token(),
        ),
        None => false,
    }
}

/// The fifth condition: the `Sec-WebSocket-Version` field is `13` to the
/// letter.
pub fn is_web_socket_version_header_13<B, E>(request: &Request<B, E>) -> (r: bool)
    ensures
        r == version_is_13(request.http.headers@),
{
    match request.http.headers.get(version_name()) {
        Some(value) => bytes_eq(value.as_slice(), version_13()),
        None => false,
    }
}

/// The sixth condition is that there is a `Sec-WebSocket-Key` field; this
/// gives its value.
pub fn get_web_socket_key_header<B, E>(request: &Request<B, E>) -> (key: Option<&Vec<u8>>)
    ensures
        match key {
            Some(value) => client_key(request.http.headers@) == Some(value@),
            None => client_key(request.http.headers@) is None,
        },
{
    request.http.headers.get(key_name())
}

/// The value of `Sec-WebSocket-Accept` that answers the key `client_key`: the
/// base64 form of the SHA-1 digest of the key followed by the protocol's
/// fixed identifier.
pub uninterp spec fn accept_key_for(client_key: Seq<u8>) -> Seq<u8>;

/// Calls `tungstenite::handshake::derive_accept_key`, which digests the key
/// and the protocol's identifier and encodes the digest. The result depends on
/// the key alone; its bytes are handed back.
#[verifier::external_body]
fn derive_accept_key(client_key: &[u8]) -> (accept: Vec<u8>)
    ensures
        accept@ == accept_key_for(client_key@),
{
    tokio_tungstenite::tungstenite::handshake::derive_accept_key(client_key).into_bytes()
}

/// A request that passed the examination, with the key that answers it.
#[derive(Debug)]
pub struct WebSocketUpgradable {
    pub key: Vec<u8>,
}

/// Examines a request for an opening handshake, without answering it. The
/// conditions are tried in order and the first that fails is reported; a
/// request that meets them all gives the key that the client sent.
pub fn examine<B, E>(request: &Request<B, E>) -> (verdict: Result<&Vec<u8>, HandshakeError>)
    ensures
        match request_verdict(request) {
            Ok(client_key) => verdict matches Ok(key) && key@ == client_key,
            Err(error) => verdict == Err::<&Vec<u8>, HandshakeError>(error),
        },
{
    if !is_get_method(request) {
        return Err(HandshakeError::WrongHttpMethod);
    }
    if !is_http_version_11_or_larger(request) {
        return Err(HandshakeError::WrongHttpVersion);
    }
    if !is_connection_header_upgrade(request) {
        return Err(HandshakeError::MissingConnectionUpgradeHeader);
    }
    if !is_upgrade_header_web_socket(request) {
        return Err(HandshakeError::MissingUpgradeWebSocketHeader);
    }
    if !is_web_socket_version_header_13(request) {
        return Err(HandshakeError::MissingSecWebSocketVersionHeader);
    }
    match get_web_socket_key_header(request) {
        Some(client_key) => Ok(client_key),
        None => Err(HandshakeError::MissingSecWebSocketKey),
    }
}

/// Examines a request for an opening handshake. The conditions are tried in
/// order and the first that fails is reported; a request that meets them all
/// gets the key that answers the client's.
pub fn try_upgradable<B, E>(request: &Request<B, E>) -> (result: Result<
    WebSocketUpgradable,
    HandshakeError,
>)
    ensures
        match request_verdict(request) {
            Ok(client_key) => result matches Ok(upgradable) && upgradable.key@ == accept_key_for(
                client_key,
            ),
            Err(error) => result == Err::<WebSocketUpgradable, HandshakeError>(error),
        },
{
    match examine(request) {
        Ok(client_key) => Ok(WebSocketUpgradable { key: derive_accept_key(client_key.as_slice()) }),
        Err(error) => Err(error),
    }
}

/// A request with the method GET that lacks one of the four fields of a
/// handshake is refused, and the failure that is named is not the method.
pub proof fn law_missing_field_is_refused(
    method: Seq<char>,
    version: Version,
    headers: Seq<(Seq<u8>, Seq<u8>)>,
    name: Seq<u8>,
)
    requires
        method == "GET"@,
        name == ascii_bytes("Connection"@) || name == ascii_bytes("Upgrade"@) || name
            == ascii_bytes("Sec-WebSocket-Version"@) || name == ascii_bytes("Sec-WebSocket-Key"@),
        field_value(headers, name) is None,
    ensures
        handshake_verdict(method, version, headers) matches Err(error) && error
            != HandshakeError::WrongHttpMethod,
{
}

/// A request that is accepted has the method GET, a version from HTTP/1.1
/// on, and all four fields, and the key that it is answered for is the one
/// that it sent.
pub proof fn law_accepted_request_is_complete(
    method: Seq<char>,
    version: Version,
    headers: Seq<(Seq<u8>, Seq<u8>)>,
    key: Seq<u8>,
)
    requires
        handshake_verdict(method, version, headers) == Ok::<Seq<u8>, HandshakeError>(key),
    ensures
        method == "GET"@,
        version.rank() >= Version::Http11.rank(),
        field_value(headers, ascii_bytes("Connection"@)) is Some,
        field_value(headers, ascii_bytes("Upgrade"@)) is Some,
        field_value(headers, ascii_bytes("Sec-WebSocket-Version"@)) == Some(ascii_bytes("13"@)),
        field_value(headers, ascii_bytes("Sec-WebSocket-Key"@)) == Some(key),
{
}

/// The reply that accepts a handshake: status 101, the two fields that name
/// the new protocol, the answering key, and no body.
pub open spec fn switching_protocols_view(accept: Seq<u8>) -> ResponseView {
    ResponseView {
        status: SWITCHING_PROTOCOLS,
        headers: seq![
            (ascii_bytes("Connection"@), ascii_bytes("Upgrade"@)),
            (ascii_bytes("Upgrade"@), ascii_bytes("websocket"@)),
            (ascii_bytes("Sec-WebSocket-Accept"@), accept),
        ],
        body: Seq::<u8>::empty(),
    }
}

/// The reply that refuses a handshake: status 400, no field, no body.
pub open spec fn bad_request_view() -> ResponseView {
    ResponseView {
        status: BAD_REQUEST,
        headers: Seq::<(Seq<u8>, Seq<u8>)>::empty(),
        body: Seq::<u8>::empty(),
    }
}

/// Builds the reply that accepts a handshake with the answering key `accept`.
pub fn switching_protocols(accept: &[u8]) -> (response: Response)
    ensures
        response@ == switching_protocols_view(accept@),
{
    let mut headers = HeaderMap::new();
    headers.append(connection_name(), upgrade_name());
    headers.append(upgrade_name(), websocket_token());
    headers.append(accept_name(), accept);
    let response = Response { status: SWITCHING_PROTOCOLS, headers, body: Vec::new() };
    assert(response@.headers =~= switching_protocols_view(accept@).headers);
    response
}

/// Builds the reply that refuses a handshake.
pub fn bad_request() -> (response: Response)
    ensures
        response@ == bad_request_view(),
{
    Response::empty(BAD_REQUEST)
}

} // verus!
