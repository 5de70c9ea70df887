//! Converter stages: a stage turns an outer request into an inner one, lets a
//! handler answer the inner request, and turns the inner response into an
//! outer one. Stages nest: the inner request of one is the outer request of
//! the next.

use vstd::prelude::*;

verus! {

/// The half of a stage that makes inner requests of type `Rq`.
pub trait RequestConverter<Rq> {
    /// The outer request.
    type Request;

    /// `converted` is what the stage may make of `request`. A stage that
    /// does not say more may make anything of it.
    open spec fn converts_request(&self, request: Self::Request, converted: Rq) -> bool {
        true
    }

    fn convert_request(&self, request: Self::Request) -> (converted: Rq)
        ensures
            self.converts_request(request, converted),
    ;
}

/// The half of a stage that takes inner responses of type `Rs`.
pub trait ResponseConverter<Rs> {
    /// The outer response.
    type Response;

    /// `converted` is what the stage may make of `response`. A stage that
    /// does not say more may make anything of it.
    open spec fn converts_response(&self, response: Rs, converted: Self::Response) -> bool {
        true
    }

    fn convert_response(&self, response: Rs) -> (converted: Self::Response)
        ensures
            self.converts_response(response, converted),
    ;
}

/// A whole stage: both halves.
pub trait RequestResponseConverter<Rq, Rs>: RequestConverter<Rq> + ResponseConverter<Rs> {

}

impl<C, Rq, Rs> RequestResponseConverter<Rq, Rs> for C where
    C: RequestConverter<Rq> + ResponseConverter<Rs>,
 {

}

/// The stage that changes nothing.
pub struct DefaultConverter;

impl<Rq> RequestConverter<Rq> for DefaultConverter {
    type Request = Rq;

    open spec fn converts_request(&self, request: Rq, converted: Rq) -> bool {
        converted == request
    }

    fn convert_request(&self, request: Rq) -> (converted: Rq) {
        request
    }
}

impl<Rs> ResponseConverter<Rs> for DefaultConverter {
    type Response = Rs;

    open spec fn converts_response(&self, response: Rs, converted: Rs) -> bool {
        converted == response
    }

    fn convert_response(&self, response: Rs) -> (converted: Rs) {
        response
    }
}

/// `response` is what `request` may come to when it passes through the
/// stage around `handler`: the stage makes an inner request, the handler
/// answers it, and the stage makes the response of the answer.
pub open spec fn passes_through<C, Rq, Rs, H>(
    converter: &C,
    handler: H,
    request: <C as RequestConverter<Rq>>::Request,
    response: <C as ResponseConverter<Rs>>::Response,
) -> bool where C: RequestConverter<Rq> + ResponseConverter<Rs>, H: FnOnce(Rq) -> Rs {
    exists|inner_request: Rq, inner_response: Rs|
        {
            &&& #[trigger] converter.converts_request(request, inner_request)
            &&& call_ensures(handler, (inner_request,), inner_response)
            &&& #[trigger] converter.converts_response(inner_response, response)
        }
}

/// Answers `request` through the stage around `handler`. Each half of the
/// stage works once and the handler is called once.
pub fn respond_through<C, Rq, Rs, H>(
    converter: &C,
    request: <C as RequestConverter<Rq>>::Request,
    handler: H,
) -> (response: <C as ResponseConverter<Rs>>::Response) where
    C: RequestConverter<Rq> + ResponseConverter<Rs>,
    H: FnOnce(Rq) -> Rs,

    requires
        forall|inner_request: Rq| call_requires(handler, (inner_request,)),
    ensures
        passes_through(converter, handler, request, response),
{
    let inner_request = converter.convert_request(request);
    let ghost seen = inner_request;
    let inner_response = handler(inner_request);
    let ghost answered = inner_response;
    let response = converter.convert_response(inner_response);
    assert(converter.converts_request(request, seen));
    assert(call_ensures(handler, (seen,), answered));
    assert(converter.converts_response(answered, response));
    response
}

/// Two stages as one: `outer` is the stage next to the transport, `inner`
/// the stage next to the handler.
pub struct Nested<Outer, Inner> {
    pub outer: Outer,
    pub inner: Inner,
}

impl<Outer, Inner, Mid, Rq> RequestConverter<Rq> for Nested<Outer, Inner> where
    Outer: RequestConverter<Mid>,
    Inner: RequestConverter<Rq, Request = Mid>,
 {
    type Request = Outer::Request;

    /// A request goes through the outer stage, then through the inner one.
    open spec fn converts_request(&self, request: Outer::Request, converted: Rq) -> bool {
        exists|mid: Mid|
            {
                &&& #[trigger] self.outer.converts_request(request, mid)
                &&& self.inner.converts_request(mid, converted)
            }
    }

    fn convert_request(&self, request: Outer::Request) -> (converted: Rq) {
        let mid = self.outer.convert_request(request);
        let ghost seen = mid;
        let converted = self.inner.convert_request(mid);
        assert(self.outer.converts_request(request, seen));
        converted
    }
}

impl<Outer, Inner, Mid, Rs> ResponseConverter<Rs> for Nested<Outer, Inner> where
    Outer: ResponseConverter<Mid>,
    Inner: ResponseConverter<Rs, Response = Mid>,
 {
    type Response = Outer::Response;

    /// A response goes through the inner stage, then through the outer one.
    open spec fn converts_response(&self, response: Rs, converted: Outer::Response) -> bool {
        exists|mid: Mid|
            {
                &&& #[trigger] self.inner.converts_response(response, mid)
                &&& self.outer.converts_response(mid, converted)
            }
    }

    fn convert_response(&self, response: Rs) -> (converted: Outer::Response) {
        let mid = self.inner.convert_response(response);
        let ghost seen = mid;
        let converted = self.outer.convert_response(mid);
        assert(self.inner.converts_response(response, seen));
        converted
    }
}

/// The stage that changes nothing is transparent: a request comes through
/// it to exactly the responses that the handler gives to the request itself.
pub proof fn law_default_stage_is_transparent<Rq, Rs, H>(handler: H, request: Rq, response: Rs) where
    H: FnOnce(Rq) -> Rs,

    ensures
        passes_through::<DefaultConverter, Rq, Rs, H>(&DefaultConverter, handler, request, response)
            <==> call_ensures(handler, (request,), response),
{
    let converter = DefaultConverter;
    if call_ensures(handler, (request,), response) {
        assert(RequestConverter::<Rq>::converts_request(&converter, request, request));
        assert(ResponseConverter::<Rs>::converts_response(&converter, response, response));
    }
}

/// Nesting is composition: a request comes through two nested stages to
/// exactly the responses that it comes to when the outer stage converts it,
/// the result passes through the inner stage around the handler, and the
/// outer stage converts what comes back.
pub proof fn law_nested_stages_compose<Outer, Inner, MidRq, MidRs, Rq, Rs, H>(
    stages: Nested<Outer, Inner>,
    handler: H,
    request: <Outer as RequestConverter<MidRq>>::Request,
    response: <Outer as ResponseConverter<MidRs>>::Response,
) where
    Outer: RequestConverter<MidRq> + ResponseConverter<MidRs>,
    Inner: RequestConverter<Rq, Request = MidRq> + ResponseConverter<Rs, Response = MidRs>,
    H: FnOnce(Rq) -> Rs,

    ensures
        passes_through::<Nested<Outer, Inner>, Rq, Rs, H>(&stages, handler, request, response)
            <==> exists|mid_request: MidRq, mid_response: MidRs|
            {
                &&& #[trigger] stages.outer.converts_request(request, mid_request)
                &&& passes_through::<Inner, Rq, Rs, H>(
                    &stages.inner,
                    handler,
                    mid_request,
                    mid_response,
                )
                &&& #[trigger] stages.outer.converts_response(mid_response, response)
            },
{
    if passes_through::<Nested<Outer, Inner>, Rq, Rs, H>(&stages, handler, request, response) {
        let (inner_request, inner_response): (Rq, Rs) = choose|inner_request: Rq, inner_response: Rs|
            {
                &&& #[trigger] stages.converts_request(request, inner_request)
                &&& call_ensures(handler, (inner_request,), inner_response)
                &&& #[trigger] stages.converts_response(inner_response, response)
            };
        let mid_request = choose|mid: MidRq|
            {
                &&& #[trigger] stages.outer.converts_request(request, mid)
                &&& stages.inner.converts_request(mid, inner_request)
            };
        let mid_response = choose|mid: MidRs|
            {
                &&& #[trigger] stages.inner.converts_response(inner_response, mid)
                &&& stages.outer.converts_response(mid, response)
            };
        assert(stages.inner.converts_request(mid_request, inner_request));
        assert(stages.inner.converts_response(inner_response, mid_response));
        assert(passes_through::<Inner, Rq, Rs, H>(
            &stages.inner,
            handler,
            mid_request,
            mid_response,
        ));
        assert(stages.outer.converts_request(request, mid_request));
        assert(stages.outer.converts_response(mid_response, response));
    }
    if exists|mid_request: MidRq, mid_response: MidRs|
        {
            &&& #[trigger] stages.outer.converts_request(request, mid_request)
            &&& passes_through::<Inner, Rq, Rs, H>(&stages.inner, handler, mid_request, mid_response)
            &&& #[trigger] stages.outer.converts_response(mid_response, response)
        } {
        let (mid_request, mid_response): (MidRq, MidRs) = choose|
            mid_request: MidRq,
            mid_response: MidRs,
        |
            {
                &&& #[trigger] stages.outer.converts_request(request, mid_request)
                &&& passes_through::<Inner, Rq, Rs, H>(
                    &stages.inner,
                    handler,
                    mid_request,
                    mid_response,
                )
                &&& #[trigger] stages.outer.converts_response(mid_response, response)
            };
        let (inner_request, inner_response): (Rq, Rs) = choose|inner_request: Rq, inner_response: Rs|
            {
                &&& #[trigger] stages.inner.converts_request(mid_request, inner_request)
                &&& call_ensures(handler, (inner_request,), inner_response)
                &&& #[trigger] stages.inner.converts_response(inner_response, mid_response)
            };
        assert(stages.outer.converts_request(request, mid_request));
        assert(stages.converts_request(request, inner_request));
        assert(stages.inner.converts_response(inner_response, mid_response));
        assert(stages.converts_response(inner_response, response));
    }
}

} // verus!
