//! The middleware that answers requests for a WebSocket connection: it
//! examines the request, lets a handler of WebSocket requests see what
//! passed, and says what goes back to the client and what is to happen to
//! the connection.

use crate::handshake::{
    accept_key_for, bad_request, bad_request_view, handshake_verdict, request_verdict,
    switching_protocols, switching_protocols_view, try_upgradable, HandshakeError,
};
use crate::http::{
    field_value, HeaderMap, Method, RemoteAddr, Request, Response, ResponseView, Version,
};
use crate::text::ascii_bytes;
use std::marker::PhantomData;
use std::sync::Arc;
use tokio_tungstenite::tungstenite::protocol::WebSocketConfig;
use vstd::prelude::*;

verus! {

/// The limits of a framed connection, as `tungstenite` holds them. The
/// library hands a value of it on and never looks inside.
#[verifier::external_type_specification]
#[verifier::external_body]
pub struct ExWebSocketConfig(WebSocketConfig);

/// What a handler of WebSocket requests is told about the request that asked
/// for the connection.
pub struct WebSocketOriginContent<E> {
    pub path: String,
    pub query: Option<String>,
    pub method: Method,
    pub version: Version,
    pub headers: HeaderMap,
    pub remote_addr: RemoteAddr,
    pub extensions: Arc<E>,
}

/// The origin content that `request` gives rise to: everything but the body.
pub open spec fn origin_of<B, E>(request: Request<B, E>) -> WebSocketOriginContent<E> {
    WebSocketOriginContent {
        path: request.http.path,
        query: request.http.query,
        method: request.http.method,
        version: request.http.version,
        headers: request.http.headers,
        remote_addr: request.remote_addr,
        extensions: request.extensions,
    }
}

/// The content of a WebSocket request in the form that a handler wants,
/// made from the origin content.
pub trait WebSocketContent<E>: Sized {
    /// `content` is what `create` may make of `origin`. A content type that
    /// does not say more may make anything of it.
    open spec fn created_from(origin: WebSocketOriginContent<E>, content: Self) -> bool {
        true
    }

    fn create(origin: WebSocketOriginContent<E>) -> (content: Self)
        ensures
            Self::created_from(origin, content),
    ;
}

/// A handler that wants nothing of the request.
impl<E> WebSocketContent<E> for () {
    fn create(origin: WebSocketOriginContent<E>) -> (content: ()) {
        ()
    }
}

/// A handler that wants the origin content as it is.
impl<E> WebSocketContent<E> for WebSocketOriginContent<E> {
    open spec fn created_from(
        origin: WebSocketOriginContent<E>,
        content: WebSocketOriginContent<E>,
    ) -> bool {
        content == origin
    }

    fn create(origin: WebSocketOriginContent<E>) -> (content: WebSocketOriginContent<E>) {
        origin
    }
}

/// The promise of a connection, given to a handler before the connection
/// exists: the converter that will turn the framed stream into the stream
/// that the handler works with.
pub struct WebSocketUpgrade<SC> {
    pub stream_converter: Arc<SC>,
}

/// A request for a WebSocket connection as a handler sees it.
pub struct WebSocketRequest<Content, SC, E> where Content: WebSocketContent<E> {
    pub content: Content,
    pub upgrade: WebSocketUpgrade<SC>,
    pub _p_e: PhantomData<E>,
}

/// What to do with a request whose method is not GET.
#[derive(Clone, Copy, Debug, PartialEq, Eq, Structural)]
pub enum WrongMethodPolicy {
    /// Refuse it with status 400, like any other request that fails the
    /// examination.
    BadRequest,
    /// Give no reply: the task that serves the request is to stop.
    Abort,
}

/// What the middleware decided about a request.
pub enum UpgradeOutcome<Rs> {
    /// The handshake is accepted. `response` goes back to the client at
    /// once; `reply` is what the handler returned, to be run on the framed
    /// stream once the transport has released the connection; `config` holds
    /// the limits to frame it with.
    SwitchingProtocols { response: Response, reply: Rs, config: Option<WebSocketConfig> },
    /// The handshake is refused with `response`, because of `error`.
    Rejected { response: Response, error: HandshakeError },
    /// The method was wrong and the policy asks to stop without a reply.
    Aborted,
}

/// What the client is sent after the examination: 101 with the answering
/// key where the request passed, 400 where it failed, and nothing where the
/// method was wrong and the policy asks to stop.
pub open spec fn reply_for(
    verdict: Result<Seq<u8>, HandshakeError>,
    policy: WrongMethodPolicy,
) -> Option<ResponseView> {
    match verdict {
        Ok(client_key) => Some(switching_protocols_view(accept_key_for(client_key))),
        Err(error) => if error == HandshakeError::WrongHttpMethod && policy
            == WrongMethodPolicy::Abort {
            None
        } else {
            Some(bad_request_view())
        },
    }
}

impl<Rs> UpgradeOutcome<Rs> {
    /// The reply that the outcome holds for the client.
    pub open spec fn reply(&self) -> Option<ResponseView> {
        match *self {
            UpgradeOutcome::SwitchingProtocols { response, .. } => Some(response@),
            UpgradeOutcome::Rejected { response, .. } => Some(response@),
            UpgradeOutcome::Aborted => None,
        }
    }
}

/// A request with the method GET that lacks one of the four fields of a
/// handshake is answered with status 400 and an empty body, under either
/// policy.
pub proof fn law_incomplete_handshake_gets_400(
    method: Seq<char>,
    version: Version,
    headers: Seq<(Seq<u8>, Seq<u8>)>,
    name: Seq<u8>,
    policy: WrongMethodPolicy,
)
    requires
        method == "GET"@,
        name == ascii_bytes("Connection"@) || name == ascii_bytes("Upgrade"@) || name
            == ascii_bytes("Sec-WebSocket-Version"@) || name == ascii_bytes("Sec-WebSocket-Key"@),
        field_value(headers, name) is None,
    ensures
        reply_for(handshake_verdict(method, version, headers), policy) == Some(bad_request_view()),
        bad_request_view().status == 400,
        bad_request_view().body.len() == 0,
{
}

/// Under the policy `BadRequest` every request that fails the examination
/// gets the same reply, whatever failed.
pub proof fn law_uniform_refusal(verdict: Result<Seq<u8>, HandshakeError>)
    requires
        verdict is Err,
    ensures
        reply_for(verdict, WrongMethodPolicy::BadRequest) == Some(bad_request_view()),
{
}

/// The middleware that answers opening handshakes and hands accepted
/// requests to a handler of WebSocket requests.
pub struct WebSocketMiddlewareConverter<StreamConverter> where
    StreamConverter: Sync + Send + 'static,
 {
    stream_converter: Arc<StreamConverter>,
    config: Option<WebSocketConfig>,
    wrong_method: WrongMethodPolicy,
}

impl<StreamConverter> WebSocketMiddlewareConverter<StreamConverter> where
    StreamConverter: Sync + Send + 'static,
 {
    /// The converter that accepted requests are promised.
    pub closed spec fn spec_stream_converter(&self) -> Arc<StreamConverter> {
        self.stream_converter
    }

    /// The limits that accepted connections are framed with.
    pub closed spec fn spec_config(&self) -> Option<WebSocketConfig> {
        self.config
    }

    /// What happens to a request whose method is not GET.
    pub closed spec fn spec_wrong_method(&self) -> WrongMethodPolicy {
        self.wrong_method
    }

    /// A middleware that leaves the limits to the framing and refuses a
    /// wrong method with status 400.
    pub fn with_stream_converter(stream_converter: StreamConverter) -> (middleware: Self)
        ensures
            *middleware.spec_stream_converter() == stream_converter,
            middleware.spec_config() is None,
            middleware.spec_wrong_method() == WrongMethodPolicy::BadRequest,
    {
        Self {
            stream_converter: Arc::new(stream_converter),
            config: None,
            wrong_method: WrongMethodPolicy::BadRequest,
        }
    }

    /// Sets the limits that accepted connections are framed with; `None`
    /// leaves them to the framing.
    pub fn and_config(self, config: Option<WebSocketConfig>) -> (middleware: Self)
        ensures
            middleware.spec_stream_converter() == self.spec_stream_converter(),
            middleware.spec_config() == config,
            middleware.spec_wrong_method() == self.spec_wrong_method(),
    {
        Self { stream_converter: self.stream_converter, config, wrong_method: self.wrong_method }
    }

    /// Sets what happens to a request whose method is not GET.
    pub fn and_wrong_method_policy(self, policy: WrongMethodPolicy) -> (middleware: Self)
        ensures
            middleware.spec_stream_converter() == self.spec_stream_converter(),
            middleware.spec_config() == self.spec_config(),
            middleware.spec_wrong_method() == policy,
    {
        Self { stream_converter: self.stream_converter, config: self.config, wrong_method: policy }
    }

    /// The converter that accepted requests are promised.
    #[verifier::when_used_as_spec(spec_stream_converter)]
    pub fn stream_converter(&self) -> (stream_converter: Arc<StreamConverter>)
        ensures
            stream_converter == self.spec_stream_converter(),
    {
        self.stream_converter.clone()
    }

    /// The limits that accepted connections are framed with.
    #[verifier::when_used_as_spec(spec_config)]
    pub fn config(&self) -> (config: Option<WebSocketConfig>)
        ensures
            config == self.spec_config(),
    {
        self.config
    }

    /// What happens to a request whose method is not GET.
    #[verifier::when_used_as_spec(spec_wrong_method)]
    pub fn wrong_method(&self) -> (policy: WrongMethodPolicy)
        ensures
            policy == self.spec_wrong_method(),
    {
        self.wrong_method
    }

    /// Answers a request for a connection.
    ///
    /// A request that fails the examination is refused with status 400 and
    /// the first failure is named; where the failure is the method and the
    /// policy is `Abort`, the outcome is `Aborted` instead. A request that
    /// passes is made into a WebSocket request and handed to `next` once;
    /// the outcome holds the 101 reply with the answering key, what `next`
    /// returned, and the limits of this middleware.
    pub fn respond<B, E, Content, Next, Rs>(&self, request: Request<B, E>, next: Next) -> (outcome:
        UpgradeOutcome<Rs>) where
        Content: WebSocketContent<E>,
        Next: FnOnce(WebSocketRequest<Content, StreamConverter, E>) -> Rs,

        requires
            forall|ws_request: WebSocketRequest<Content, StreamConverter, E>|
                call_requires(next, (ws_request,)),
        ensures
            outcome.reply() == reply_for(request_verdict(&request), self.spec_wrong_method()),
            match request_verdict(&request) {
                Ok(client_key) => {
                    &&& outcome matches UpgradeOutcome::SwitchingProtocols { response, reply, config }
                    &&& response@ == switching_protocols_view(accept_key_for(client_key))
                    &&& config == self.spec_config()
                    &&& exists|content: Content|
                        {
                            &&& Content::created_from(origin_of(request), content)
                            &&& call_ensures(
                                next,
                                (
                                    WebSocketRequest {
                                        content,
                                        upgrade: WebSocketUpgrade {
                                            stream_converter: self.spec_stream_converter(),
                                        },
                                        _p_e: PhantomData,
                                    },
                                ),
                                reply,
                            )
                        }
                },
                Err(error) => if error == HandshakeError::WrongHttpMethod
                    && self.spec_wrong_method() == WrongMethodPolicy::Abort {
                    outcome is Aborted
                } else {
                    &&& outcome matches UpgradeOutcome::Rejected { response, error: reported }
                    &&& reported == error
                    &&& response@ == bad_request_view()
                },
            },
    {
        match try_upgradable(&request) {
            Ok(upgradable) => {
                let content = Content::create(
                    WebSocketOriginContent {
                        path: request.http.path,
                        query: request.http.query,
                        method: request.http.method,
                        version: request.http.version,
                        headers: request.http.headers,
                        remote_addr: request.remote_addr,
                        extensions: request.extensions,
                    },
                );
                let upgrade = WebSocketUpgrade { stream_converter: self.stream_converter.clone() };
                let reply = next(WebSocketRequest { content, upgrade, _p_e: PhantomData });
                UpgradeOutcome::SwitchingProtocols {
                    response: switching_protocols(upgradable.key.as_slice()),
                    reply,
                    config: self.config,
                }
            },
            Err(error) => match (error, self.wrong_method) {
                (HandshakeError::WrongHttpMethod, WrongMethodPolicy::Abort) => UpgradeOutcome::Aborted,
                _ => UpgradeOutcome::Rejected { response: bad_request(), error },
            },
        }
    }
}

} // verus!
