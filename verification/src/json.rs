//! JSON as the content of requests, responses and channel messages.
//!
//! A request is decoded only if it says that its body is JSON; whatever goes
//! wrong on the way is kept as the decode result, and the handler decides what
//! to answer. A response is encoded in compact or pretty form; one that
//! cannot be encoded is replaced by an empty response with status 500.

use crate::api::{
    origin_content, ApiRequest, ApiRequestContent, ApiRequestOriginContent, ApiResponse,
    ApiResponseContentBase, ApiResponseContentFailure, ApiResponseContentSuccess,
};
use crate::channel::{
    queued_after_send, send_verdict, ApiChannel, ApiChannelExtensions, ApiChannelReceiver,
    ApiChannelSender, Closed, SendError, StreamableRequest,
};
use crate::converter::{RequestConverter, ResponseConverter};
use crate::http::{
    field_value, HeaderMap, Request, Response, ResponseView, INTERNAL_SERVER_ERROR,
};
use crate::text::{ascii_bytes, bytes_eq, literal_bytes};
use serde_json::Value;
use std::marker::PhantomData;
use vstd::prelude::*;

verus! {

/// The error of `serde_json`. The library hands it on and never looks inside.
#[verifier::external_type_specification]
#[verifier::external_body]
pub struct ExJsonError(serde_json::Error);

/// A JSON document as `serde_json` holds it. The library hands it on and
/// never looks inside.
#[verifier::external_type_specification]
#[verifier::external_body]
pub struct ExJsonValue(Value);

/// The error of `hyper`, which a body that cannot be read leaves behind. The
/// library hands it on and never looks inside.
#[verifier::external_type_specification]
#[verifier::external_body]
pub struct ExHyperError(hyper::Error);

/// Why the body of a request was not decoded.
#[derive(Debug)]
pub enum JsonApiRequestConvertError {
    /// There is no `Content-Type` field, or it is empty.
    ContentTypeMissed,
    /// The `Content-Type` field holds something other than the content type
    /// of JSON, be it text or not.
    ContentTypeIncorrect,
    /// The body could not be read.
    Hyper(hyper::Error),
    /// The body is not JSON, or not JSON of the shape that is wanted.
    SerdeJson(serde_json::Error),
}

/// The name of the field that says what the body is.
pub fn content_type_name() -> (name: &'static [u8])
    ensures
        name@ == ascii_bytes("content-type"@),
{
    proof {
        reveal_strlit("content-type");
    }
    literal_bytes("content-type")
}

/// The content type of JSON.
pub fn json_content_type() -> (value: &'static [u8])
    ensures
        value@ == ascii_bytes("application/json"@),
{
    proof {
        reveal_strlit("application/json");
    }
    literal_bytes("application/json")
}

/// Whether the header fields announce a JSON body. The `Content-Type` field
/// must be `application/json` to the letter: no other case, no parameter. A
/// field that is missing or empty is missed; every other value is incorrect.
pub open spec fn content_type_verdict(headers: Seq<(Seq<u8>, Seq<u8>)>) -> Result<
    (),
    JsonApiRequestConvertError,
> {
    match field_value(headers, ascii_bytes("content-type"@)) {
        None => Err(JsonApiRequestConvertError::ContentTypeMissed),
        Some(value) => if value == ascii_bytes("application/json"@) {
            Ok(())
        } else if value.len() == 0 {
            Err(JsonApiRequestConvertError::ContentTypeMissed)
        } else {
            Err(JsonApiRequestConvertError::ContentTypeIncorrect)
        },
    }
}

/// Every value of the `Content-Type` field other than the content type of
/// JSON and the empty one is incorrect, whatever bytes it is made of.
pub proof fn law_other_content_types_are_incorrect(
    headers: Seq<(Seq<u8>, Seq<u8>)>,
    value: Seq<u8>,
)
    requires
        field_value(headers, ascii_bytes("content-type"@)) == Some(value),
        value != ascii_bytes("application/json"@),
        value.len() > 0,
    ensures
        content_type_verdict(headers) == Err::<(), JsonApiRequestConvertError>(
            JsonApiRequestConvertError::ContentTypeIncorrect,
        ),
{
}

/// Tells whether the header fields announce a JSON body, and if not, why.
pub fn check_content_type(headers: &HeaderMap) -> (verdict: Result<(), JsonApiRequestConvertError>)
    ensures
        verdict == content_type_verdict(headers@),
{
    match headers.get(content_type_name()) {
        None => Err(JsonApiRequestConvertError::ContentTypeMissed),
        Some(value) => {
            if bytes_eq(value.as_slice(), json_content_type()) {
                Ok(())
            } else if value.len() == 0 {
                Err(JsonApiRequestConvertError::ContentTypeMissed)
            } else {
                Err(JsonApiRequestConvertError::ContentTypeIncorrect)
            }
        },
    }
}

/// The compact JSON text of a document: what the document holds, written
/// without any space between its parts.
pub uninterp spec fn compact_json(document: Value) -> Seq<u8>;

/// The pretty JSON text of a document: what the document holds, written
/// with line breaks and indentation.
pub uninterp spec fn pretty_json(document: Value) -> Seq<u8>;

/// The JSON text of a document in the chosen form.
pub open spec fn json_text(document: Value, pretty_printed: bool) -> Seq<u8> {
    if pretty_printed {
        pretty_json(document)
    } else {
        compact_json(document)
    }
}

/// What `serde_json` reads from the bytes: the document that they hold,
/// given by its compact text, or nothing where they are no JSON document.
pub uninterp spec fn json_document(bytes: Seq<u8>) -> Option<Seq<u8>>;

/// What `serde_json` reads from the text: the document that it holds, given
/// by its compact text, or nothing where it is no JSON document.
pub uninterp spec fn json_document_of_text(text: Seq<char>) -> Option<Seq<u8>>;

/// The bytes are a JSON document that `serde_json` accepts.
pub open spec fn well_formed_json(bytes: Seq<u8>) -> bool {
    json_document(bytes) is Some
}

/// The text is a JSON document that `serde_json` accepts.
pub open spec fn well_formed_json_text(text: Seq<char>) -> bool {
    json_document_of_text(text) is Some
}

/// `parsed` is the outcome of reading an input that holds `held`: the
/// document with that text, or a failure where the input holds none.
pub open spec fn parsed_as(
    held: Option<Seq<u8>>,
    parsed: Result<Value, serde_json::Error>,
) -> bool {
    match parsed {
        Ok(document) => held == Some(compact_json(document)),
        Err(_) => held is None,
    }
}

/// Calls `serde_json::from_slice` for a `Value`. Whether it succeeds, and
/// with which document, depends on the bytes alone.
#[verifier::external_body]
fn value_from_slice(bytes: &[u8]) -> (parsed: Result<Value, serde_json::Error>)
    ensures
        parsed_as(json_document(bytes@), parsed),
{
    serde_json::from_slice::<Value>(bytes)
}

/// Calls `serde_json::from_str` for a `Value`. Whether it succeeds, and with
/// which document, depends on the text alone.
#[verifier::external_body]
fn value_from_str(text: &str) -> (parsed: Result<Value, serde_json::Error>)
    ensures
        parsed_as(json_document_of_text(text@), parsed),
{
    serde_json::from_str::<Value>(text)
}

/// Calls `serde_json::to_vec`. On a document it succeeds: it writes into a
/// vector, which takes every byte, and a document has nothing that the
/// writer refuses. The bytes are the compact text of the document.
#[verifier::external_body]
fn value_to_vec(value: &Value) -> (encoded: Result<Vec<u8>, serde_json::Error>)
    ensures
        encoded is Ok,
        encoded matches Ok(bytes) ==> bytes@ == compact_json(*value),
{
    serde_json::to_vec(value)
}

/// Calls `serde_json::to_vec_pretty`. On a document it succeeds, as
/// `to_vec` does. The bytes are the pretty text of the document.
#[verifier::external_body]
fn value_to_vec_pretty(value: &Value) -> (encoded: Result<Vec<u8>, serde_json::Error>)
    ensures
        encoded is Ok,
        encoded matches Ok(bytes) ==> bytes@ == pretty_json(*value),
{
    serde_json::to_vec_pretty(value)
}

/// Calls `serde_json::to_string`, which makes a string of what `to_vec`
/// writes. On a document it succeeds, and the bytes of the string are the
/// compact text of the document.
#[verifier::external_body]
fn value_to_string(value: &Value) -> (encoded: Result<String, serde_json::Error>)
    ensures
        encoded is Ok,
        encoded matches Ok(text) ==> vstd::utf8::encode_utf8(text@) == compact_json(*value),
{
    serde_json::to_string(value)
}

/// Calls `serde_json::to_string_pretty`, which makes a string of what
/// `to_vec_pretty` writes. On a document it succeeds, and the bytes of the
/// string are the pretty text of the document.
#[verifier::external_body]
fn value_to_string_pretty(value: &Value) -> (encoded: Result<String, serde_json::Error>)
    ensures
        encoded is Ok,
        encoded matches Ok(text) ==> vstd::utf8::encode_utf8(text@) == pretty_json(*value),
{
    serde_json::to_string_pretty(value)
}

/// Calls `Value::clone`, which gives an equal document.
#[verifier::external_body]
fn clone_value(value: &Value) -> (copy: Value)
    ensures
        copy == *value,
{
    value.clone()
}

/// A type whose values can be read from a JSON document.
pub trait FromJson: Sized {
    /// `outcome` is what reading `value` may give. A type that does not say
    /// more may give anything.
    open spec fn reads(value: Value, outcome: Result<Self, serde_json::Error>) -> bool {
        true
    }

    fn from_json(value: Value) -> (outcome: Result<Self, serde_json::Error>)
        ensures
            Self::reads(value, outcome),
    ;
}

/// A type whose values can be written as a JSON document.
pub trait ToJson {
    /// `outcome` is what writing `self` may give. A type that does not say
    /// more may give anything.
    open spec fn writes(&self, outcome: Result<Value, serde_json::Error>) -> bool {
        true
    }

    fn to_json(&self) -> (outcome: Result<Value, serde_json::Error>)
        ensures
            self.writes(outcome),
    ;
}

/// A document is read as itself.
impl FromJson for Value {
    open spec fn reads(value: Value, outcome: Result<Value, serde_json::Error>) -> bool {
        outcome == Ok::<Value, serde_json::Error>(value)
    }

    fn from_json(value: Value) -> (outcome: Result<Value, serde_json::Error>) {
        Ok(value)
    }
}

/// A document is written as itself.
impl ToJson for Value {
    open spec fn writes(&self, outcome: Result<Value, serde_json::Error>) -> bool {
        outcome == Ok::<Value, serde_json::Error>(*self)
    }

    fn to_json(&self) -> (outcome: Result<Value, serde_json::Error>) {
        Ok(clone_value(self))
    }
}

/// The unit type is read as `serde_json` reads it: from the null document
/// and from no other.
impl FromJson for () {
    /// The unit is read exactly where the compact text of the document is
    /// `null`.
    open spec fn reads(value: Value, outcome: Result<(), serde_json::Error>) -> bool {
        outcome is Ok <==> compact_json(value) == ascii_bytes("null"@)
    }

    fn from_json(value: Value) -> (outcome: Result<(), serde_json::Error>) {
        unit_from_value(value)
    }
}

/// Calls `serde_json::from_value` for the unit type. It reads the unit where
/// the document is the null document, and fails on every other. The null
/// document is the one that `serde_json` writes as `null`: a truth value is
/// written as a word of its own, a number with a digit or a sign first, for
/// the numbers that a document holds are finite, and a string, a list and an
/// object with their opening mark first. So the call succeeds exactly where
/// the compact text of the document is `null`.
#[verifier::external_body]
fn unit_from_value(value: Value) -> (outcome: Result<(), serde_json::Error>)
    ensures
        outcome is Ok <==> compact_json(value) == ascii_bytes("null"@),
{
    serde_json::from_value::<()>(value)
}

/// What becomes of a body that was parsed: a failure to parse or to read the
/// wanted data from the document is a decode failure.
pub open spec fn read_from_parsed<Data: FromJson>(
    parsed: Result<Value, serde_json::Error>,
    data: Result<Data, JsonApiRequestConvertError>,
) -> bool {
    match parsed {
        Err(error) => data == Err::<Data, JsonApiRequestConvertError>(
            JsonApiRequestConvertError::SerdeJson(error),
        ),
        Ok(value) => exists|outcome: Result<Data, serde_json::Error>|
            {
                &&& #[trigger] Data::reads(value, outcome)
                &&& match outcome {
                    Ok(read) => data == Ok::<Data, JsonApiRequestConvertError>(read),
                    Err(error) => data == Err::<Data, JsonApiRequestConvertError>(
                        JsonApiRequestConvertError::SerdeJson(error),
                    ),
                }
            },
    }
}

/// Reads the wanted data from a body that was parsed.
pub fn read_parsed<Data: FromJson>(parsed: Result<Value, serde_json::Error>) -> (data: Result<
    Data,
    JsonApiRequestConvertError,
>)
    ensures
        read_from_parsed(parsed, data),
{
    match parsed {
        Err(error) => Err(JsonApiRequestConvertError::SerdeJson(error)),
        Ok(value) => {
            let outcome = Data::from_json(value);
            assert(Data::reads(value, outcome));
            match outcome {
                Ok(read) => Ok(read),
                Err(error) => Err(JsonApiRequestConvertError::SerdeJson(error)),
            }
        },
    }
}

/// What decoding a request gives. The header fields are judged first; then
/// the body must have been read; then it must be JSON; then the wanted data
/// must be read from the document that it holds. The first of these that
/// fails is the result.
pub open spec fn decoded_as<Data: FromJson>(
    headers: Seq<(Seq<u8>, Seq<u8>)>,
    body: Result<Vec<u8>, hyper::Error>,
    data: Result<Data, JsonApiRequestConvertError>,
) -> bool {
    match content_type_verdict(headers) {
        Err(error) => data == Err::<Data, JsonApiRequestConvertError>(error),
        Ok(()) => match body {
            Err(error) => data == Err::<Data, JsonApiRequestConvertError>(
                JsonApiRequestConvertError::Hyper(error),
            ),
            Ok(bytes) => exists|parsed: Result<Value, serde_json::Error>|
                {
                    &&& parsed_as(json_document(bytes@), parsed)
                    &&& #[trigger] read_from_parsed(parsed, data)
                },
        },
    }
}

/// Decodes the body of a request whose header fields are `headers`. `body`
/// is what reading the body gave; it is looked at only where the header
/// fields announce JSON.
pub fn decode<Data: FromJson>(headers: &HeaderMap, body: Result<Vec<u8>, hyper::Error>) -> (data:
    Result<Data, JsonApiRequestConvertError>)
    ensures
        decoded_as(headers@, body, data),
{
    match check_content_type(headers) {
        Err(error) => Err(error),
        Ok(()) => match body {
            Err(error) => Err(JsonApiRequestConvertError::Hyper(error)),
            Ok(bytes) => {
                let parsed = value_from_slice(bytes.as_slice());
                let ghost witness = parsed;
                let data = read_parsed(parsed);
                assert(read_from_parsed(witness, data));
                data
            },
        },
    }
}

/// The header fields are judged before anything else: where they do not
/// announce JSON, that is the decode result, whatever the body is and
/// whether or not it could be read.
pub proof fn law_header_fields_are_judged_first<Data: FromJson>(
    headers: Seq<(Seq<u8>, Seq<u8>)>,
    body: Result<Vec<u8>, hyper::Error>,
    data: Result<Data, JsonApiRequestConvertError>,
)
    requires
        content_type_verdict(headers) is Err,
        decoded_as(headers, body, data),
    ensures
        data == Err::<Data, JsonApiRequestConvertError>(content_type_verdict(headers)->Err_0),
        field_value(headers, ascii_bytes("content-type"@)) is None ==> data == Err::<
            Data,
            JsonApiRequestConvertError,
        >(JsonApiRequestConvertError::ContentTypeMissed),
{
}

/// A body that was announced as JSON and read decodes to a document exactly
/// when it holds one, and then to that document; a body that holds none is a
/// decode failure of the JSON kind.
pub proof fn law_decoded_document(
    headers: Seq<(Seq<u8>, Seq<u8>)>,
    bytes: Vec<u8>,
    data: Result<Value, JsonApiRequestConvertError>,
)
    requires
        content_type_verdict(headers) is Ok,
        decoded_as(headers, Ok::<Vec<u8>, hyper::Error>(bytes), data),
    ensures
        match json_document(bytes@) {
            Some(text) => data matches Ok(document) && compact_json(document) == text,
            None => data matches Err(JsonApiRequestConvertError::SerdeJson(_)),
        },
{
    let parsed = choose|parsed: Result<Value, serde_json::Error>|
        {
            &&& parsed_as(json_document(bytes@), parsed)
            &&& #[trigger] read_from_parsed(parsed, data)
        };
    assert(read_from_parsed(parsed, data));
}

/// A body that was announced as JSON and read decodes to the unit exactly
/// when the document that it holds is the null document.
pub proof fn law_unit_is_decoded_from_null(
    headers: Seq<(Seq<u8>, Seq<u8>)>,
    bytes: Vec<u8>,
    data: Result<(), JsonApiRequestConvertError>,
)
    requires
        content_type_verdict(headers) is Ok,
        decoded_as(headers, Ok::<Vec<u8>, hyper::Error>(bytes), data),
    ensures
        data is Ok <==> json_document(bytes@) == Some(ascii_bytes("null"@)),
        data is Err ==> data matches Err(JsonApiRequestConvertError::SerdeJson(_)),
{
    let parsed = choose|parsed: Result<Value, serde_json::Error>|
        {
            &&& parsed_as(json_document(bytes@), parsed)
            &&& #[trigger] read_from_parsed(parsed, data)
        };
    assert(read_from_parsed(parsed, data));
}

/// What reading the body of a request gave: its bytes, or the error of the
/// transport.
pub type BodyRead = Result<Vec<u8>, hyper::Error>;

/// Makes API requests of requests with a JSON body.
#[derive(Clone, Copy, Debug)]
pub struct JsonApiRequestConverter;

/// `api_request` is what a request may be made into: its body is decoded
/// and the content type makes the content from the request and the decode
/// result.
pub open spec fn request_converted<Content, Extensions>(
    request: Request<BodyRead, Extensions>,
    api_request: ApiRequest<Content, Extensions>,
) -> bool where Content: ApiRequestContent<Extensions>, Content::Data: FromJson {
    exists|data_result: Result<Content::Data, JsonApiRequestConvertError>|
        {
            &&& #[trigger] decoded_as(request.http.headers@, request.http.body, data_result)
            &&& Content::created_from(origin_content(request, data_result), api_request.content)
        }
}

/// Makes the API request of a request. A body that cannot be decoded does
/// not stop anything: the failure is the decode result that the content is
/// made from.
pub fn make_api_request<Content, Extensions>(request: Request<BodyRead, Extensions>) -> (api_request:
    ApiRequest<Content, Extensions>) where
    Content: ApiRequestContent<Extensions>,
    Content::Data: FromJson,

    ensures
        request_converted(request, api_request),
{
    let data_result = decode::<Content::Data>(&request.http.headers, request.http.body);
    assert(decoded_as(request.http.headers@, request.http.body, data_result));
    let content = Content::create(
        ApiRequestOriginContent {
            method: request.http.method,
            version: request.http.version,
            path: request.http.path,
            query: request.http.query,
            headers: request.http.headers,
            remote_addr: request.remote_addr,
            extensions: request.extensions,
            data_result,
        },
    );
    ApiRequest { content, _p_e: PhantomData }
}

impl<Content, Extensions> RequestConverter<ApiRequest<Content, Extensions>> for JsonApiRequestConverter where
    Content: ApiRequestContent<Extensions>,
    Content::Data: FromJson,
 {
    type Request = Request<BodyRead, Extensions>;

    open spec fn converts_request(
        &self,
        request: Request<BodyRead, Extensions>,
        converted: ApiRequest<Content, Extensions>,
    ) -> bool {
        request_converted(request, converted)
    }

    fn convert_request(&self, request: Request<BodyRead, Extensions>) -> (converted: ApiRequest<
        Content,
        Extensions,
    >) {
        make_api_request(request)
    }
}

/// A status code that a response can carry.
pub open spec fn valid_status(code: u16) -> bool {
    100 <= code < 1000
}

/// A response with a JSON body: the status, the one field that names the
/// content type, and the body.
pub open spec fn json_response_view(status: u16, body: Seq<u8>) -> ResponseView {
    ResponseView {
        status,
        headers: seq![(ascii_bytes("content-type"@), ascii_bytes("application/json"@))],
        body,
    }
}

/// The response that stands in for one that could not be made: status 500,
/// no field, no body.
pub open spec fn internal_server_error_view() -> ResponseView {
    ResponseView {
        status: INTERNAL_SERVER_ERROR,
        headers: Seq::<(Seq<u8>, Seq<u8>)>::empty(),
        body: Seq::<u8>::empty(),
    }
}

/// The response for content with status `status` that was encoded as
/// `encoded`.
pub open spec fn response_view_for(
    status: u16,
    encoded: Result<Vec<u8>, serde_json::Error>,
) -> ResponseView {
    match encoded {
        Ok(bytes) if valid_status(status) => json_response_view(status, bytes@),
        _ => internal_server_error_view(),
    }
}

/// Makes the response for content with status `status` that was encoded as
/// `encoded`. Content that could not be encoded, or whose status no response
/// can carry, gets the empty response with status 500.
pub fn response_for(status: u16, encoded: Result<Vec<u8>, serde_json::Error>) -> (response:
    Response)
    ensures
        response@ == response_view_for(status, encoded),
{
    match encoded {
        Ok(body) => {
            if 100 <= status && status < 1000 {
                let mut headers = HeaderMap::new();
                headers.append(content_type_name(), json_content_type());
                let response = Response { status, headers, body };
                assert(response@.headers =~= json_response_view(status, body@).headers);
                response
            } else {
                Response::empty(INTERNAL_SERVER_ERROR)
            }
        },
        Err(_) => Response::empty(INTERNAL_SERVER_ERROR),
    }
}

/// What becomes of content that was written as `written`: the failure to
/// write it, or the text of the document in the chosen form.
pub open spec fn text_of_written(
    written: Result<Value, serde_json::Error>,
    pretty_printed: bool,
    encoded: Result<Vec<u8>, serde_json::Error>,
) -> bool {
    match written {
        Err(error) => encoded == Err::<Vec<u8>, serde_json::Error>(error),
        Ok(document) => encoded matches Ok(bytes) && bytes@ == json_text(document, pretty_printed),
    }
}

/// `encoded` is what encoding `content` may give.
pub open spec fn encoded_as<Content: ToJson>(
    content: &Content,
    pretty_printed: bool,
    encoded: Result<Vec<u8>, serde_json::Error>,
) -> bool {
    exists|written: Result<Value, serde_json::Error>|
        {
            &&& #[trigger] content.writes(written)
            &&& text_of_written(written, pretty_printed, encoded)
        }
}

/// Encodes content as JSON, in pretty form if `pretty_printed` and in
/// compact form if not.
pub fn encode<Content: ToJson>(content: &Content, pretty_printed: bool) -> (encoded: Result<
    Vec<u8>,
    serde_json::Error,
>)
    ensures
        encoded_as(content, pretty_printed, encoded),
{
    let written = content.to_json();
    assert(content.writes(written));
    match written {
        Ok(document) => {
            if pretty_printed {
                value_to_vec_pretty(&document)
            } else {
                value_to_vec(&document)
            }
        },
        Err(error) => Err(error),
    }
}

/// Makes responses with a JSON body of API responses.
#[derive(Clone, Copy, Debug)]
pub struct JsonApiResponseConverter {
    pub pretty_printed: bool,
}

/// `response` is what an API response may be made into: the status code of
/// the content, the field that names JSON as the content type, and the
/// content encoded as the body; or, where that cannot be done, the empty
/// response with status 500.
pub open spec fn response_converted<Success, Failure>(
    api_response: ApiResponse<Success, Failure>,
    pretty_printed: bool,
    response: Response,
) -> bool where Success: ApiResponseContentSuccess, Failure: ApiResponseContentFailure {
    exists|status_code: u16, encoded: Result<Vec<u8>, serde_json::Error>|
        {
            &&& #[trigger] api_response.content.reports_status(status_code)
            &&& #[trigger] encoded_as(&api_response.content, pretty_printed, encoded)
            &&& response@ == response_view_for(status_code, encoded)
        }
}

/// Makes the response of an API response, with the body in pretty form if
/// `pretty_printed` and in compact form if not.
pub fn make_response<Success, Failure>(
    api_response: ApiResponse<Success, Failure>,
    pretty_printed: bool,
) -> (response: Response) where
    Success: ApiResponseContentSuccess,
    Failure: ApiResponseContentFailure,

    ensures
        response_converted(api_response, pretty_printed, response),
{
    let status_code = api_response.content.status_code();
    let encoded = encode(&api_response.content, pretty_printed);
    assert(api_response.content.reports_status(status_code));
    assert(encoded_as(&api_response.content, pretty_printed, encoded));
    response_for(status_code, encoded)
}

/// Content that can be written gets its response. Where the content
/// reports one status, which a response can carry, and is written as one
/// document, the response has that status, the one field that names JSON as
/// the content type, and the text of the document in the chosen form as its
/// body.
pub proof fn law_written_content_gets_its_response<Success, Failure>(
    api_response: ApiResponse<Success, Failure>,
    pretty_printed: bool,
    response: Response,
    status: u16,
    document: Value,
) where Success: ApiResponseContentSuccess, Failure: ApiResponseContentFailure
    requires
        forall|code: u16| #[trigger] api_response.content.reports_status(code) ==> code == status,
        forall|written: Result<Value, serde_json::Error>| #[trigger]
            api_response.content.writes(written) ==> written == Ok::<Value, serde_json::Error>(
                document,
            ),
        valid_status(status),
        response_converted(api_response, pretty_printed, response),
    ensures
        response@ == json_response_view(status, json_text(document, pretty_printed)),
{
    let (code, encoded) = choose|code: u16, encoded: Result<Vec<u8>, serde_json::Error>|
        {
            &&& #[trigger] api_response.content.reports_status(code)
            &&& #[trigger] encoded_as(&api_response.content, pretty_printed, encoded)
            &&& response@ == response_view_for(code, encoded)
        };
    let written = choose|written: Result<Value, serde_json::Error>|
        {
            &&& #[trigger] api_response.content.writes(written)
            &&& text_of_written(written, pretty_printed, encoded)
        };
    assert(api_response.content.writes(written));
}

/// Content that cannot be written, or whose status no response can carry,
/// gets the empty response with status 500.
pub proof fn law_unwritten_content_gets_500<Success, Failure>(
    api_response: ApiResponse<Success, Failure>,
    pretty_printed: bool,
    response: Response,
) where Success: ApiResponseContentSuccess, Failure: ApiResponseContentFailure
    requires
        (forall|written: Result<Value, serde_json::Error>| #[trigger]
            api_response.content.writes(written) ==> written is Err) || (forall|code: u16| #[trigger]
            api_response.content.reports_status(code) ==> !valid_status(code)),
        response_converted(api_response, pretty_printed, response),
    ensures
        response@ == internal_server_error_view(),
{
    let (code, encoded) = choose|code: u16, encoded: Result<Vec<u8>, serde_json::Error>|
        {
            &&& #[trigger] api_response.content.reports_status(code)
            &&& #[trigger] encoded_as(&api_response.content, pretty_printed, encoded)
            &&& response@ == response_view_for(code, encoded)
        };
    let written = choose|written: Result<Value, serde_json::Error>|
        {
            &&& #[trigger] api_response.content.writes(written)
            &&& text_of_written(written, pretty_printed, encoded)
        };
    assert(api_response.content.writes(written));
}

/// The form changes the body and nothing else. For content that reports one
/// status and is written in one way, the compact and the pretty response
/// have the same status and the same fields.
pub proof fn law_forms_differ_in_the_body_only<Success, Failure>(
    api_response: ApiResponse<Success, Failure>,
    compact: Response,
    pretty: Response,
    status: u16,
    the_written: Result<Value, serde_json::Error>,
) where Success: ApiResponseContentSuccess, Failure: ApiResponseContentFailure
    requires
        forall|code: u16| #[trigger] api_response.content.reports_status(code) ==> code == status,
        forall|written: Result<Value, serde_json::Error>| #[trigger]
            api_response.content.writes(written) ==> written == the_written,
        response_converted(api_response, false, compact),
        response_converted(api_response, true, pretty),
    ensures
        compact@.status == pretty@.status,
        compact@.headers == pretty@.headers,
{
    let (code1, encoded1) = choose|code: u16, encoded: Result<Vec<u8>, serde_json::Error>|
        {
            &&& #[trigger] api_response.content.reports_status(code)
            &&& #[trigger] encoded_as(&api_response.content, false, encoded)
            &&& compact@ == response_view_for(code, encoded)
        };
    let written1 = choose|written: Result<Value, serde_json::Error>|
        {
            &&& #[trigger] api_response.content.writes(written)
            &&& text_of_written(written, false, encoded1)
        };
    let (code2, encoded2) = choose|code: u16, encoded: Result<Vec<u8>, serde_json::Error>|
        {
            &&& #[trigger] api_response.content.reports_status(code)
            &&& #[trigger] encoded_as(&api_response.content, true, encoded)
            &&& pretty@ == response_view_for(code, encoded)
        };
    let written2 = choose|written: Result<Value, serde_json::Error>|
        {
            &&& #[trigger] api_response.content.writes(written)
            &&& text_of_written(written, true, encoded2)
        };
    assert(api_response.content.writes(written1));
    assert(api_response.content.writes(written2));
}

impl<Success, Failure> ResponseConverter<ApiResponse<Success, Failure>> for JsonApiResponseConverter where
    Success: ApiResponseContentSuccess,
    Failure: ApiResponseContentFailure,
 {
    type Response = Response;

    open spec fn converts_response(
        &self,
        response: ApiResponse<Success, Failure>,
        converted: Response,
    ) -> bool {
        response_converted(response, self.pretty_printed, converted)
    }

    fn convert_response(&self, response: ApiResponse<Success, Failure>) -> (converted: Response) {
        make_response(response, self.pretty_printed)
    }
}

/// What becomes of a message that was written as `written`: the failure to
/// write it, or the text of the document in the chosen form.
pub open spec fn string_of_written(
    written: Result<Value, serde_json::Error>,
    pretty_printed: bool,
    outcome: Result<String, serde_json::Error>,
) -> bool {
    match written {
        Err(error) => outcome == Err::<String, serde_json::Error>(error),
        Ok(document) => outcome matches Ok(text) && vstd::utf8::encode_utf8(text@) == json_text(
            document,
            pretty_printed,
        ),
    }
}

/// `outcome` is what writing `message` as JSON text may give.
pub open spec fn serialized_as<Message: ToJson>(
    message: Message,
    pretty_printed: bool,
    outcome: Result<String, serde_json::Error>,
) -> bool {
    exists|written: Result<Value, serde_json::Error>|
        {
            &&& #[trigger] message.writes(written)
            &&& string_of_written(written, pretty_printed, outcome)
        }
}

/// `outcome` is what reading a message from `text` may give: a failure where
/// the text is not JSON, else what the message type reads from the document.
pub open spec fn deserialized_as<Message: FromJson>(
    text: Seq<char>,
    outcome: Result<Message, serde_json::Error>,
) -> bool {
    exists|parsed: Result<Value, serde_json::Error>|
        {
            &&& parsed_as(json_document_of_text(text), parsed)
            &&& #[trigger] read_from_text(parsed, outcome)
        }
}

/// What becomes of a text that was parsed.
pub open spec fn read_from_text<Message: FromJson>(
    parsed: Result<Value, serde_json::Error>,
    outcome: Result<Message, serde_json::Error>,
) -> bool {
    match parsed {
        Err(error) => outcome == Err::<Message, serde_json::Error>(error),
        Ok(value) => Message::reads(value, outcome),
    }
}

/// Reads a message from a text that was parsed.
pub fn read_text<Message: FromJson>(parsed: Result<Value, serde_json::Error>) -> (outcome: Result<
    Message,
    serde_json::Error,
>)
    ensures
        read_from_text(parsed, outcome),
{
    match parsed {
        Err(error) => Err(error),
        Ok(value) => Message::from_json(value),
    }
}

/// Writes a message as JSON text, in pretty form if `pretty_printed` and in
/// compact form if not.
pub fn serialize_message<Message: ToJson>(message: &Message, pretty_printed: bool) -> (outcome:
    Result<String, serde_json::Error>)
    ensures
        serialized_as(*message, pretty_printed, outcome),
{
    let written = message.to_json();
    assert(message.writes(written));
    match written {
        Ok(document) => {
            if pretty_printed {
                value_to_string_pretty(&document)
            } else {
                value_to_string(&document)
            }
        },
        Err(error) => Err(error),
    }
}

/// Reads a message from JSON text.
pub fn deserialize_message<Message: FromJson>(text: &str) -> (outcome: Result<
    Message,
    serde_json::Error,
>)
    ensures
        deserialized_as(text@, outcome),
{
    let parsed = value_from_str(text);
    let ghost witness = parsed;
    let outcome = read_text(parsed);
    assert(read_from_text(witness, outcome));
    outcome
}

/// A message that can be written is sent. Where the message is written as
/// one document, the sender's conversion gives the text of the document in
/// the chosen form, and a send over an open loopback succeeds and puts that
/// one text behind what is on the way.
pub proof fn law_written_message_is_sent<Message: ToJson>(
    message: Message,
    pretty_printed: bool,
    document: Value,
    prepared: Result<String, serde_json::Error>,
    queued: Seq<String>,
)
    requires
        forall|written: Result<Value, serde_json::Error>| #[trigger]
            message.writes(written) ==> written == Ok::<Value, serde_json::Error>(document),
        serialized_as(message, pretty_printed, prepared),
    ensures
        prepared matches Ok(text) && vstd::utf8::encode_utf8(text@) == json_text(
            document,
            pretty_printed,
        ),
        send_verdict(false, prepared) == Ok::<(), SendError<serde_json::Error, Closed>>(()),
        queued_after_send(queued, false, prepared) == queued.push(prepared->Ok_0),
{
    let written = choose|written: Result<Value, serde_json::Error>|
        {
            &&& #[trigger] message.writes(written)
            &&& string_of_written(written, pretty_printed, prepared)
        };
    assert(message.writes(written));
}

/// A message that cannot be written is not sent: the send fails with the
/// failure of the conversion, and nothing joins what is on the way.
pub proof fn law_unwritten_message_is_not_sent<Message: ToJson>(
    message: Message,
    pretty_printed: bool,
    prepared: Result<String, serde_json::Error>,
    queued: Seq<String>,
    closed: bool,
)
    requires
        forall|written: Result<Value, serde_json::Error>| #[trigger]
            message.writes(written) ==> written is Err,
        serialized_as(message, pretty_printed, prepared),
    ensures
        prepared is Err,
        send_verdict(closed, prepared) == Err::<(), SendError<serde_json::Error, Closed>>(
            SendError::Convert(prepared->Err_0),
        ),
        queued_after_send(queued, closed, prepared) == queued,
{
    let written = choose|written: Result<Value, serde_json::Error>|
        {
            &&& #[trigger] message.writes(written)
            &&& string_of_written(written, pretty_printed, prepared)
        };
    assert(message.writes(written));
}

/// Makes typed channels of connections that carry JSON text.
#[derive(Clone, Copy, Debug)]
pub struct JsonApiWebSocketConverter {
    pub pretty_printed: bool,
}

/// The sender writes each message as JSON text in the chosen form, the
/// receiver reads each text as JSON, and both take every input.
pub open spec fn carries_json<Send, Receive, Serialize, Deserialize>(
    serialize: Serialize,
    deserialize: Deserialize,
    pretty_printed: bool,
) -> bool where
    Send: ToJson,
    Receive: FromJson,
    Serialize: Fn(Send) -> Result<String, serde_json::Error>,
    Deserialize: Fn(String) -> Result<Receive, serde_json::Error>,
 {
    &&& forall|message: Send| call_requires(serialize, (message,))
    &&& forall|message: Send, outcome: Result<String, serde_json::Error>| #[trigger]
        call_ensures(serialize, (message,), outcome) ==> serialized_as(
            message,
            pretty_printed,
            outcome,
        )
    &&& forall|text: String| call_requires(deserialize, (text,))
    &&& forall|text: String, outcome: Result<Receive, serde_json::Error>| #[trigger]
        call_ensures(deserialize, (text,), outcome) ==> deserialized_as(text@, outcome)
}

impl JsonApiWebSocketConverter {
    /// Makes the channel over the two halves of a connection. The sender
    /// writes each message as JSON text, pretty or compact as this converter
    /// says; the receiver reads each text as JSON. The channel has no
    /// extensions.
    pub fn convert_stream<Send, Receive, Sink, Stream>(&self, sink: Sink, stream: Stream) -> (channel:
        ApiChannel<
            (),
            ApiChannelSender<Sink, impl Fn(Send) -> Result<String, serde_json::Error>>,
            ApiChannelReceiver<Stream, impl Fn(String) -> Result<Receive, serde_json::Error>>,
        >) where Send: ToJson, Receive: FromJson
        ensures
            channel.sender.sink == sink,
            channel.receiver.spec_stream() == stream,
            channel.receiver.is_open(),
            carries_json::<Send, Receive, _, _>(
                channel.sender.convert_typed_message_fn,
                channel.receiver.spec_convert(),
                self.pretty_printed,
            ),
    {
        let pretty_printed = self.pretty_printed;
        let serialize = move |message: Send| -> (outcome: Result<String, serde_json::Error>)
            ensures
                serialized_as(message, pretty_printed, outcome),
        {
            serialize_message(&message, pretty_printed)
        };
        let deserialize = |text: String| -> (outcome: Result<Receive, serde_json::Error>)
            ensures
                deserialized_as(text@, outcome),
        {
            deserialize_message(text.as_str())
        };
        let sender = ApiChannelSender::with_sink(sink).and_convert_typed_message_fn(serialize);
        let receiver = ApiChannelReceiver::with_stream(stream).and_convert_generic_message_fn(
            deserialize,
        );
        ApiChannel { extensions: (), sender, receiver }
    }
}

/// All the conversions of JSON in one: requests, responses and channels.
pub struct JsonApiConverter {
    pub pretty_printed: bool,
}

impl<Content, Extensions> RequestConverter<ApiRequest<Content, Extensions>> for JsonApiConverter where
    Content: ApiRequestContent<Extensions>,
    Content::Data: FromJson,
 {
    type Request = Request<BodyRead, Extensions>;

    open spec fn converts_request(
        &self,
        request: Request<BodyRead, Extensions>,
        converted: ApiRequest<Content, Extensions>,
    ) -> bool {
        request_converted(request, converted)
    }

    fn convert_request(&self, request: Request<BodyRead, Extensions>) -> (converted: ApiRequest<
        Content,
        Extensions,
    >) {
        make_api_request(request)
    }
}

impl<Success, Failure> ResponseConverter<ApiResponse<Success, Failure>> for JsonApiConverter where
    Success: ApiResponseContentSuccess,
    Failure: ApiResponseContentFailure,
 {
    type Response = Response;

    open spec fn converts_response(
        &self,
        response: ApiResponse<Success, Failure>,
        converted: Response,
    ) -> bool {
        response_converted(response, self.pretty_printed, converted)
    }

    fn convert_response(&self, response: ApiResponse<Success, Failure>) -> (converted: Response) {
        make_response(response, self.pretty_printed)
    }
}

impl JsonApiConverter {
    /// Makes the channel of a connection: the extensions are made from those
    /// of the request, and the halves carry JSON as those of
    /// `JsonApiWebSocketConverter` do, with the same choice of form.
    pub fn convert_streamable_request<Extensions, Send, Receive, Sink, Stream, Origin>(
        &self,
        streamable_request: StreamableRequest<Sink, Stream, Origin>,
    ) -> (channel: ApiChannel<
        Extensions,
        ApiChannelSender<Sink, impl Fn(Send) -> Result<String, serde_json::Error>>,
        ApiChannelReceiver<Stream, impl Fn(String) -> Result<Receive, serde_json::Error>>,
    >) where Extensions: ApiChannelExtensions<Origin>, Send: ToJson, Receive: FromJson
        ensures
            Extensions::created_from(streamable_request.extensions, channel.extensions),
            channel.sender.sink == streamable_request.sink,
            channel.receiver.spec_stream() == streamable_request.stream,
            channel.receiver.is_open(),
            carries_json::<Send, Receive, _, _>(
                channel.sender.convert_typed_message_fn,
                channel.receiver.spec_convert(),
                self.pretty_printed,
            ),
    {
        let extensions = Extensions::create(streamable_request.extensions);
        let converter = JsonApiWebSocketConverter { pretty_printed: self.pretty_printed };
        let halves = converter.convert_stream(streamable_request.sink, streamable_request.stream);
        ApiChannel { extensions, sender: halves.sender, receiver: halves.receiver }
    }
}

} // verus!
