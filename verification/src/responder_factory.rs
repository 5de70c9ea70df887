//! The responders that answer through a router.

use crate::http::{HttpRequest, RemoteAddr, Request};
use crate::router::Router;
use crate::server;
use std::sync::Arc;
use vstd::prelude::*;

verus! {

/// What a responder factory is made from.
pub struct ResponderFactoryParams<H, Extensions> {
    pub router: Router<H>,
    pub extensions: Extensions,
}

/// Makes, for each connection, a responder that answers through one shared
/// router and hands one shared bag of data to the handlers.
pub struct ResponderFactory<H, Extensions> {
    router: Arc<Router<H>>,
    extensions: Arc<Extensions>,
}

impl<H, Extensions> ResponderFactory<H, Extensions> {
    /// The router that the responders answer through.
    pub closed spec fn spec_router(&self) -> Arc<Router<H>> {
        self.router
    }

    /// The bag of data that the handlers are handed.
    pub closed spec fn spec_extensions(&self) -> Arc<Extensions> {
        self.extensions
    }

    /// Makes the factory. The router and the bag are shared by all the
    /// responders that it makes.
    pub fn new(params: ResponderFactoryParams<H, Extensions>) -> (factory: Self)
        ensures
            *factory.spec_router() == params.router,
            *factory.spec_extensions() == params.extensions,
    {
        Self { router: Arc::new(params.router), extensions: Arc::new(params.extensions) }
    }
}

impl<H, Extensions> server::ResponderFactory for ResponderFactory<H, Extensions> {
    type Responder = Responder<H, Extensions>;

    /// The responder knows the peer and shares the factory's router and
    /// bag.
    open spec fn makes(&self, remote_addr: RemoteAddr, responder: Responder<H, Extensions>) -> bool {
        &&& responder.spec_remote_addr() == remote_addr
        &&& responder.spec_router() == self.spec_router()
        &&& responder.spec_extensions() == self.spec_extensions()
    }

    fn make_responder(&self, remote_addr: RemoteAddr) -> (responder: Responder<H, Extensions>) {
        Responder { remote_addr, router: self.router.clone(), extensions: self.extensions.clone() }
    }
}

/// The request that a responder makes of what came over the wire.
pub open spec fn request_from<B, Extensions>(
    remote_addr: RemoteAddr,
    extensions: Arc<Extensions>,
    http_request: HttpRequest<B>,
) -> Request<B, Extensions> {
    Request { remote_addr, extensions, http: http_request }
}

/// The responder of one connection.
pub struct Responder<H, Extensions> {
    remote_addr: RemoteAddr,
    router: Arc<Router<H>>,
    extensions: Arc<Extensions>,
}

impl<H, Extensions> Responder<H, Extensions> {
    /// The address of the peer.
    pub closed spec fn spec_remote_addr(&self) -> RemoteAddr {
        self.remote_addr
    }

    /// The router that the responder answers through.
    pub closed spec fn spec_router(&self) -> Arc<Router<H>> {
        self.router
    }

    /// The bag of data that the handlers are handed.
    pub closed spec fn spec_extensions(&self) -> Arc<Extensions> {
        self.extensions
    }

    /// The handler that answers `http_request`.
    pub open spec fn target<B>(&self, http_request: HttpRequest<B>) -> H {
        self.spec_router().target(http_request.method@, http_request.path@)
    }
}

impl<H, Extensions, B, Rs> server::Responder<B> for Responder<H, Extensions> where
    H: Fn(Request<B, Extensions>) -> Rs,
 {
    type Response = Rs;

    open spec fn accepts(&self, http_request: HttpRequest<B>) -> bool {
        call_requires(
            self.target(http_request),
            (request_from(self.spec_remote_addr(), self.spec_extensions(), http_request),),
        )
    }

    /// The response is what the router's handler for the method and path
    /// returns for the request with this connection's peer and the shared
    /// bag.
    open spec fn responds(&self, http_request: HttpRequest<B>, response: Rs) -> bool {
        call_ensures(
            self.target(http_request),
            (request_from(self.spec_remote_addr(), self.spec_extensions(), http_request),),
            response,
        )
    }

    fn response(&mut self, http_request: HttpRequest<B>) -> (response: Rs)
        ensures
            *final(self) == *old(self),
    {
        let request = Request {
            remote_addr: self.remote_addr,
            extensions: self.extensions.clone(),
            http: http_request,
        };
        self.router.process(request)
    }
}

/// A responder that is made directly from a router, a peer and a bag.
pub struct RoutableResponder<H, Extensions> {
    pub remote_addr: RemoteAddr,
    pub extensions: Arc<Extensions>,
    pub router: Arc<Router<H>>,
}

impl<H, Extensions, B, Rs> server::Responder<B> for RoutableResponder<H, Extensions> where
    H: Fn(Request<B, Extensions>) -> Rs,
 {
    type Response = Rs;

    open spec fn accepts(&self, http_request: HttpRequest<B>) -> bool {
        call_requires(
            self.router.target(http_request.method@, http_request.path@),
            (request_from(self.remote_addr, self.extensions, http_request),),
        )
    }

    /// The response is what the router's handler for the method and path
    /// returns for the request with this responder's peer and bag.
    open spec fn responds(&self, http_request: HttpRequest<B>, response: Rs) -> bool {
        call_ensures(
            self.router.target(http_request.method@, http_request.path@),
            (request_from(self.remote_addr, self.extensions, http_request),),
            response,
        )
    }

    fn response(&mut self, http_request: HttpRequest<B>) -> (response: Rs)
        ensures
            *final(self) == *old(self),
    {
        let request = Request {
            remote_addr: self.remote_addr,
            extensions: self.extensions.clone(),
            http: http_request,
        };
        self.router.process(request)
    }
}

} // verus!
