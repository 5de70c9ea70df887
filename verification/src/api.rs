//! Requests and responses as handlers of an API see them: typed content made
//! from what came over the wire, and typed content that says how it goes
//! back.

use crate::http::{HeaderMap, Method, RemoteAddr, Request, Version};
use crate::json::{JsonApiRequestConvertError, ToJson};
use serde_json::Value;
use std::marker::PhantomData;
use std::sync::Arc;
use vstd::prelude::*;

verus! {

/// What the content of a request is made from: the request without its body,
/// and the outcome of decoding the body.
pub struct ApiRequestOriginContent<Data, Extensions> {
    pub method: Method,
    pub version: Version,
    pub path: String,
    pub query: Option<String>,
    pub headers: HeaderMap,
    pub remote_addr: RemoteAddr,
    pub extensions: Arc<Extensions>,
    pub data_result: Result<Data, JsonApiRequestConvertError>,
}

/// The origin content that a request and the outcome of decoding its body
/// give rise to.
pub open spec fn origin_content<B, Data, Extensions>(
    request: Request<B, Extensions>,
    data_result: Result<Data, JsonApiRequestConvertError>,
) -> ApiRequestOriginContent<Data, Extensions> {
    ApiRequestOriginContent {
        method: request.http.method,
        version: request.http.version,
        path: request.http.path,
        query: request.http.query,
        headers: request.http.headers,
        remote_addr: request.remote_addr,
        extensions: request.extensions,
        data_result,
    }
}

/// The content of a request in the form that a handler wants. Each content
/// type names the data that it expects in the body and chooses what to make
/// of a body that could not be decoded.
pub trait ApiRequestContent<Extensions>: Sized {
    type Data;

    /// `content` is what `create` may make of `origin_content`. A content
    /// type that does not say more may make anything of it.
    open spec fn created_from(
        origin_content: ApiRequestOriginContent<Self::Data, Extensions>,
        content: Self,
    ) -> bool {
        true
    }

    fn create(origin_content: ApiRequestOriginContent<Self::Data, Extensions>) -> (content: Self)
        ensures
            Self::created_from(origin_content, content),
    ;
}

/// A handler that wants nothing of the request.
impl<Extensions> ApiRequestContent<Extensions> for () {
    type Data = ();

    fn create(origin_content: ApiRequestOriginContent<(), Extensions>) -> (content: ()) {
        ()
    }
}

/// A handler that wants the origin content as it is, with the body as a JSON
/// document.
impl<Extensions> ApiRequestContent<Extensions> for ApiRequestOriginContent<Value, Extensions> {
    type Data = Value;

    open spec fn created_from(
        origin_content: ApiRequestOriginContent<Value, Extensions>,
        content: ApiRequestOriginContent<Value, Extensions>,
    ) -> bool {
        content == origin_content
    }

    fn create(origin_content: ApiRequestOriginContent<Value, Extensions>) -> (content:
        ApiRequestOriginContent<Value, Extensions>) {
        origin_content
    }
}

/// A request as a handler of an API sees it.
pub struct ApiRequest<Content, Extensions> where Content: ApiRequestContent<Extensions> {
    pub content: Content,
    pub _p_e: PhantomData<Extensions>,
}

/// The content of a response: it has a status code and can be written as
/// JSON.
pub trait ApiResponseContentBase: ToJson {
    /// `code` is a status code that the content may report. Content that
    /// does not say more may report any.
    open spec fn reports_status(&self, code: u16) -> bool {
        true
    }

    fn status_code(&self) -> (code: u16)
        ensures
            self.reports_status(code),
    ;
}

/// Content that reports success.
pub trait ApiResponseContentSuccess: ApiResponseContentBase {

}

/// Content that reports failure.
pub trait ApiResponseContentFailure: ApiResponseContentBase {

}

/// The content of a response: that of a success or that of a failure.
pub enum ApiResponseContent<Success, Failure> {
    Success(Success),
    Failure(Failure),
}

impl<Success: ToJson, Failure: ToJson> ToJson for ApiResponseContent<Success, Failure> {
    /// The content is written as the variant that it is.
    open spec fn writes(&self, outcome: Result<Value, serde_json::Error>) -> bool {
        match *self {
            ApiResponseContent::Success(content) => content.writes(outcome),
            ApiResponseContent::Failure(content) => content.writes(outcome),
        }
    }

    fn to_json(&self) -> (outcome: Result<Value, serde_json::Error>) {
        match self {
            ApiResponseContent::Success(content) => content.to_json(),
            ApiResponseContent::Failure(content) => content.to_json(),
        }
    }
}

impl<Success, Failure> ApiResponseContentBase for ApiResponseContent<Success, Failure> where
    Success: ApiResponseContentSuccess,
    Failure: ApiResponseContentFailure,
 {
    /// The status code is that of the variant.
    open spec fn reports_status(&self, code: u16) -> bool {
        match *self {
            ApiResponseContent::Success(content) => content.reports_status(code),
            ApiResponseContent::Failure(content) => content.reports_status(code),
        }
    }

    fn status_code(&self) -> (code: u16) {
        match self {
            ApiResponseContent::Success(content) => content.status_code(),
            ApiResponseContent::Failure(content) => content.status_code(),
        }
    }
}

/// A response as a handler of an API returns it.
pub struct ApiResponse<Success, Failure> where
    Success: ApiResponseContentSuccess,
    Failure: ApiResponseContentFailure,
 {
    pub content: ApiResponseContent<Success, Failure>,
}

/// Content that is a status code and a JSON document.
pub struct JsonContent {
    pub status_code: u16,
    pub document: Value,
}

impl ToJson for JsonContent {
    open spec fn writes(&self, outcome: Result<Value, serde_json::Error>) -> bool {
        self.document.writes(outcome)
    }

    fn to_json(&self) -> (outcome: Result<Value, serde_json::Error>) {
        self.document.to_json()
    }
}

impl ApiResponseContentBase for JsonContent {
    open spec fn reports_status(&self, code: u16) -> bool {
        code == self.status_code
    }

    fn status_code(&self) -> (code: u16) {
        self.status_code
    }
}

impl ApiResponseContentSuccess for JsonContent {

}

impl ApiResponseContentFailure for JsonContent {

}

} // verus!
