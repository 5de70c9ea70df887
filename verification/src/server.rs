//! What the transport asks of the dispatch layer: a responder for each
//! connection, and from it a response for each request.

use crate::http::{HttpRequest, RemoteAddr};
use std::convert::Infallible;
use vstd::prelude::*;

verus! {

/// Answers the requests of one connection.
pub trait Responder<B> {
    type Response;

    /// The responder can take `http_request`. A responder that does not say
    /// more can take every request.
    open spec fn accepts(&self, http_request: HttpRequest<B>) -> bool {
        true
    }

    /// `response` is what the responder may answer to `http_request`. A
    /// responder that does not say more may answer anything.
    open spec fn responds(&self, http_request: HttpRequest<B>, response: Self::Response) -> bool {
        true
    }

    fn response(&mut self, http_request: HttpRequest<B>) -> (response: Self::Response)
        requires
            old(self).accepts(http_request),
        ensures
            old(self).responds(http_request, response),
    ;
}

/// Makes the responder of a connection when the connection is accepted.
pub trait ResponderFactory {
    type Responder;

    /// `responder` is what the factory may make for a peer at
    /// `remote_addr`. A factory that does not say more may make anything.
    open spec fn makes(&self, remote_addr: RemoteAddr, responder: Self::Responder) -> bool {
        true
    }

    fn make_responder(&self, remote_addr: RemoteAddr) -> (responder: Self::Responder)
        ensures
            self.makes(remote_addr, responder),
    ;
}

/// The service of one connection: it is always ready, and it answers each
/// request with what its responder answers. It never fails.
pub struct SessionService<R> {
    responder: R,
}

impl<R> SessionService<R> {
    /// The responder that answers.
    pub closed spec fn spec_responder(&self) -> R {
        self.responder
    }

    /// The service of a connection whose requests `responder` answers.
    pub fn new(responder: R) -> (service: Self)
        ensures
            service.spec_responder() == responder,
    {
        Self { responder }
    }

    /// Answers a request.
    pub fn call<B>(&mut self, request: HttpRequest<B>) -> (result: Result<R::Response, Infallible>) where
        R: Responder<B>,

        requires
            old(self).spec_responder().accepts(request),
        ensures
            result matches Ok(response) && old(self).spec_responder().responds(request, response),
    {
        Ok(self.responder.response(request))
    }
}

} // verus!
