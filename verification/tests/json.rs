use screw::api::{
    ApiRequest, ApiRequestOriginContent, ApiResponse, ApiResponseContent, ApiResponseContentBase,
    JsonContent,
};
use screw::converter::{RequestConverter, ResponseConverter};
use screw::http::{HeaderMap, HttpRequest, Method, RemoteAddr, Request, Version};
use screw::json::{
    check_content_type, content_type_name, decode, deserialize_message, encode, json_content_type,
    make_api_request, make_response, read_parsed, read_text, response_for, serialize_message,
    BodyRead, FromJson, JsonApiConverter, JsonApiRequestConvertError, JsonApiRequestConverter,
    JsonApiResponseConverter, ToJson,
};
use serde_json::Value;
use std::sync::Arc;

fn headers(fields: &[(&str, &[u8])]) -> HeaderMap {
    let mut headers = HeaderMap::new();
    for (name, value) in fields {
        headers.append(name.as_bytes(), value);
    }
    headers
}

fn json_headers() -> HeaderMap {
    headers(&[("Content-Type", b"application/json")])
}

fn request(headers: HeaderMap, body: BodyRead) -> Request<BodyRead, u8> {
    Request {
        remote_addr: RemoteAddr::V4 { ip: 0x7f00_0001, port: 9 },
        extensions: Arc::new(3),
        http: HttpRequest {
            method: Method::Post,
            version: Version::Http11,
            path: "/things".to_string(),
            query: None,
            headers,
            body,
        },
    }
}

fn hyper_error() -> hyper::Error {
    let runtime = tokio::runtime::Builder::new_current_thread().build().unwrap();
    runtime.block_on(async {
        let (sender, body) = hyper::Body::channel();
        sender.abort();
        hyper::body::to_bytes(body).await.unwrap_err()
    })
}

fn object(key: &str, value: Value) -> Value {
    let mut map = serde_json::Map::new();
    map.insert(key.to_string(), value);
    Value::Object(map)
}

/// A target shape of its own: an object with a number under `x`.
#[derive(Debug, PartialEq)]
struct Point {
    x: u64,
}

impl FromJson for Point {
    fn from_json(value: Value) -> Result<Self, serde_json::Error> {
        let x = serde_json::from_value::<u64>(value.get("x").cloned().unwrap_or(Value::Null))?;
        Ok(Point { x })
    }
}

impl ToJson for Point {
    fn to_json(&self) -> Result<Value, serde_json::Error> {
        Ok(object("x", Value::from(self.x)))
    }
}

#[test]
fn names() {
    assert_eq!(content_type_name(), b"content-type");
    assert_eq!(json_content_type(), b"application/json");
}

#[test]
fn json_content_type_is_accepted() {
    assert!(check_content_type(&json_headers()).is_ok());
    assert!(check_content_type(&headers(&[("content-type", b"application/json")])).is_ok());
}

#[test]
fn absent_content_type_is_missed() {
    assert!(matches!(
        check_content_type(&HeaderMap::new()),
        Err(JsonApiRequestConvertError::ContentTypeMissed)
    ));
    assert!(matches!(
        check_content_type(&headers(&[("Accept", b"application/json")])),
        Err(JsonApiRequestConvertError::ContentTypeMissed)
    ));
}

#[test]
fn empty_content_type_is_missed() {
    assert!(matches!(
        check_content_type(&headers(&[("Content-Type", b"")])),
        Err(JsonApiRequestConvertError::ContentTypeMissed)
    ));
}

#[test]
fn other_content_type_is_incorrect() {
    assert!(matches!(
        check_content_type(&headers(&[("Content-Type", b"text/plain")])),
        Err(JsonApiRequestConvertError::ContentTypeIncorrect)
    ));
}

#[test]
fn content_type_is_matched_to_the_letter() {
    for value in [
        &b"application/json; charset=utf-8"[..],
        b"Application/JSON",
        b"application/json ",
        b" application/json",
        b"application/jsonp",
    ] {
        assert!(matches!(
            check_content_type(&headers(&[("Content-Type", value)])),
            Err(JsonApiRequestConvertError::ContentTypeIncorrect)
        ));
    }
}

#[test]
fn content_type_that_is_no_text_is_incorrect() {
    for value in [&b"application/json\xff"[..], b"\xff", b"\x00", b"text/\x7fplain"] {
        assert!(matches!(
            check_content_type(&headers(&[("Content-Type", value)])),
            Err(JsonApiRequestConvertError::ContentTypeIncorrect)
        ));
        let result: Result<Value, _> =
            decode(&headers(&[("Content-Type", value)]), Ok(b"{\"x\":1}".to_vec()));
        assert!(matches!(result, Err(JsonApiRequestConvertError::ContentTypeIncorrect)));
    }
}

#[test]
fn the_first_content_type_counts() {
    let fields = headers(&[("Content-Type", b"text/plain"), ("Content-Type", b"application/json")]);
    assert!(matches!(
        check_content_type(&fields),
        Err(JsonApiRequestConvertError::ContentTypeIncorrect)
    ));
}

#[test]
fn json_body_decodes_for_a_compatible_shape() {
    let point: Point = decode(&json_headers(), Ok(b"{\"x\":1}".to_vec())).unwrap();
    assert_eq!(point, Point { x: 1 });
    let value: Value = decode(&json_headers(), Ok(b"{\"x\":1}".to_vec())).unwrap();
    assert_eq!(value, object("x", Value::from(1)));
}

#[test]
fn json_body_of_another_shape_is_a_decode_failure() {
    let result: Result<Point, _> = decode(&json_headers(), Ok(b"{\"y\":1}".to_vec()));
    assert!(matches!(result, Err(JsonApiRequestConvertError::SerdeJson(_))));
    let result: Result<(), _> = decode(&json_headers(), Ok(b"{\"x\":1}".to_vec()));
    assert!(matches!(result, Err(JsonApiRequestConvertError::SerdeJson(_))));
    let result: Result<(), _> = decode(&json_headers(), Ok(b"null".to_vec()));
    assert!(result.is_ok());
}

#[test]
fn malformed_body_is_a_decode_failure() {
    for body in [&b"{\"x\":"[..], b"", b"{x:1}", b"{\"x\":1} trailing"] {
        let result: Result<Value, _> = decode(&json_headers(), Ok(body.to_vec()));
        assert!(matches!(result, Err(JsonApiRequestConvertError::SerdeJson(_))));
    }
}

#[test]
fn unread_body_is_a_decode_failure() {
    let result: Result<Value, _> = decode(&json_headers(), Err(hyper_error()));
    assert!(matches!(result, Err(JsonApiRequestConvertError::Hyper(_))));
}

#[test]
fn header_fields_are_judged_before_the_body() {
    let result: Result<Value, _> = decode(&HeaderMap::new(), Err(hyper_error()));
    assert!(matches!(result, Err(JsonApiRequestConvertError::ContentTypeMissed)));
    let result: Result<Value, _> =
        decode(&headers(&[("Content-Type", b"text/plain")]), Ok(b"{\"x\":1}".to_vec()));
    assert!(matches!(result, Err(JsonApiRequestConvertError::ContentTypeIncorrect)));
    let result: Result<Value, _> = decode(&HeaderMap::new(), Ok(b"not json".to_vec()));
    assert!(matches!(result, Err(JsonApiRequestConvertError::ContentTypeMissed)));
}

#[test]
fn parsed_bodies_are_read() {
    let parsed = serde_json::from_slice::<Value>(b"{\"x\":7}");
    assert_eq!(read_parsed::<Point>(parsed).unwrap(), Point { x: 7 });
    let parsed = serde_json::from_slice::<Value>(b"[");
    assert!(matches!(read_parsed::<Point>(parsed), Err(JsonApiRequestConvertError::SerdeJson(_))));
    let parsed = serde_json::from_slice::<Value>(b"[1]");
    assert!(matches!(read_parsed::<Point>(parsed), Err(JsonApiRequestConvertError::SerdeJson(_))));
    let parsed = serde_json::from_str::<Value>("{\"x\":8}");
    assert_eq!(read_text::<Point>(parsed).unwrap(), Point { x: 8 });
    let parsed = serde_json::from_str::<Value>("{");
    assert!(read_text::<Point>(parsed).is_err());
}

type Origin = ApiRequestOriginContent<Value, u8>;

#[test]
fn request_is_converted_with_its_decode_result() {
    let api_request: ApiRequest<Origin, u8> =
        JsonApiRequestConverter.convert_request(request(json_headers(), Ok(b"{\"x\":1}".to_vec())));
    let content = api_request.content;
    assert!(content.method == Method::Post);
    assert_eq!(content.version, Version::Http11);
    assert_eq!(content.path, "/things");
    assert_eq!(content.query, None);
    assert_eq!(content.headers.get(b"content-type"), Some(&b"application/json".to_vec()));
    assert_eq!(content.remote_addr.port(), 9);
    assert_eq!(*content.extensions, 3);
    assert_eq!(content.data_result.unwrap(), object("x", Value::from(1)));
}

#[test]
fn decode_failure_is_data_for_the_handler() {
    let api_request: ApiRequest<Origin, u8> =
        make_api_request(request(headers(&[("Content-Type", b"text/plain")]), Ok(b"{}".to_vec())));
    assert_eq!(api_request.content.path, "/things");
    assert!(matches!(
        api_request.content.data_result,
        Err(JsonApiRequestConvertError::ContentTypeIncorrect)
    ));
    let converter = JsonApiConverter { pretty_printed: false };
    let api_request: ApiRequest<Origin, u8> =
        converter.convert_request(request(json_headers(), Ok(b"{".to_vec())));
    assert!(matches!(
        api_request.content.data_result,
        Err(JsonApiRequestConvertError::SerdeJson(_))
    ));
    let api_request: ApiRequest<(), u8> =
        converter.convert_request(request(HeaderMap::new(), Ok(Vec::new())));
    assert_eq!(api_request.content, ());
}

fn nested() -> Value {
    object("point", object("x", Value::from(1)))
}

fn success(status_code: u16, document: Value) -> ApiResponse<JsonContent, JsonContent> {
    ApiResponse { content: ApiResponseContent::Success(JsonContent { status_code, document }) }
}

fn failure(status_code: u16, document: Value) -> ApiResponse<JsonContent, JsonContent> {
    ApiResponse { content: ApiResponseContent::Failure(JsonContent { status_code, document }) }
}

#[test]
fn response_is_encoded_in_compact_form() {
    let response =
        JsonApiResponseConverter { pretty_printed: false }.convert_response(success(200, nested()));
    assert_eq!(response.status, 200);
    assert_eq!(response.headers.len(), 1);
    assert_eq!(response.headers.entries[0].name, b"content-type".to_vec());
    assert_eq!(response.headers.entries[0].value, b"application/json".to_vec());
    assert_eq!(response.body, b"{\"point\":{\"x\":1}}".to_vec());
}

#[test]
fn response_is_encoded_in_pretty_form() {
    let response =
        JsonApiResponseConverter { pretty_printed: true }.convert_response(success(201, nested()));
    assert_eq!(response.status, 201);
    assert_eq!(response.headers.get(b"Content-Type"), Some(&b"application/json".to_vec()));
    assert_eq!(response.body, b"{\n  \"point\": {\n    \"x\": 1\n  }\n}".to_vec());
}

#[test]
fn failure_content_is_encoded_like_success_content() {
    let api_response = failure(404, object("error", Value::from("not found")));
    assert_eq!(api_response.content.status_code(), 404);
    let response = JsonApiConverter { pretty_printed: false }.convert_response(api_response);
    assert_eq!(response.status, 404);
    assert_eq!(response.headers.get(b"content-type"), Some(&b"application/json".to_vec()));
    assert_eq!(response.body, b"{\"error\":\"not found\"}".to_vec());
    let response = make_response(failure(422, Value::Null), true);
    assert_eq!(response.status, 422);
    assert_eq!(response.body, b"null".to_vec());
}

/// Content that cannot be written as a document.
struct Unwritable;

impl ToJson for Unwritable {
    fn to_json(&self) -> Result<Value, serde_json::Error> {
        Err(serde_json::from_str::<Value>("").unwrap_err())
    }
}

impl ApiResponseContentBase for Unwritable {
    fn status_code(&self) -> u16 {
        200
    }
}

impl screw::api::ApiResponseContentSuccess for Unwritable {}

#[test]
fn content_that_cannot_be_encoded_yields_500_with_empty_body() {
    let api_response: ApiResponse<Unwritable, JsonContent> =
        ApiResponse { content: ApiResponseContent::Success(Unwritable) };
    let response = JsonApiResponseConverter { pretty_printed: false }.convert_response(api_response);
    assert_eq!(response.status, 500);
    assert_eq!(response.headers.len(), 0);
    assert!(response.body.is_empty());
    assert!(encode(&Unwritable, true).is_err());
}

#[test]
fn status_that_no_response_can_carry_yields_500_with_empty_body() {
    for status in [0, 99, 1000, 65535] {
        let response = make_response(success(status, nested()), false);
        assert_eq!(response.status, 500);
        assert_eq!(response.headers.len(), 0);
        assert!(response.body.is_empty());
    }
    for status in [100, 200, 999] {
        let response = make_response(success(status, nested()), false);
        assert_eq!(response.status, status);
        assert_eq!(response.body, b"{\"point\":{\"x\":1}}".to_vec());
    }
}

#[test]
fn response_for_encoded_content() {
    let response = response_for(200, Ok(b"[1]".to_vec()));
    assert_eq!(response.status, 200);
    assert_eq!(response.headers.get(b"content-type"), Some(&b"application/json".to_vec()));
    assert_eq!(response.body, b"[1]".to_vec());
    let error = serde_json::from_str::<Value>("").unwrap_err();
    let response = response_for(200, Err(error));
    assert_eq!(response.status, 500);
    assert_eq!(response.headers.len(), 0);
    assert!(response.body.is_empty());
    let response = response_for(42, Ok(b"[1]".to_vec()));
    assert_eq!(response.status, 500);
    assert!(response.body.is_empty());
}

#[test]
fn encoding_follows_the_flag() {
    assert_eq!(encode(&nested(), false).unwrap(), b"{\"point\":{\"x\":1}}".to_vec());
    assert_eq!(encode(&nested(), true).unwrap(), b"{\n  \"point\": {\n    \"x\": 1\n  }\n}".to_vec());
    assert_eq!(encode(&Point { x: 5 }, false).unwrap(), b"{\"x\":5}".to_vec());
}

#[test]
fn messages_are_written_and_read() {
    assert_eq!(serialize_message(&Point { x: 2 }, false).unwrap(), "{\"x\":2}");
    assert_eq!(serialize_message(&Point { x: 2 }, true).unwrap(), "{\n  \"x\": 2\n}");
    assert!(serialize_message(&Unwritable, false).is_err());
    assert_eq!(deserialize_message::<Point>("{\"x\":2}").unwrap(), Point { x: 2 });
    assert_eq!(deserialize_message::<Value>(" [true] ").unwrap(), Value::Array(vec![Value::Bool(true)]));
    assert!(deserialize_message::<Point>("{\"x\":").is_err());
    assert!(deserialize_message::<Point>("{\"x\":\"two\"}").is_err());
    assert!(deserialize_message::<()>("null").is_ok());
    assert!(deserialize_message::<()>("1").is_err());
}

#[test]
fn a_document_is_written_as_an_equal_document() {
    let document = nested();
    assert_eq!(document.to_json().unwrap(), document);
    assert_eq!(Value::from_json(nested()).unwrap(), document);
    let content = JsonContent { status_code: 200, document: nested() };
    assert_eq!(content.to_json().unwrap(), document);
    assert_eq!(content.status_code(), 200);
}

#[test]
fn the_unit_is_read_from_the_null_document_only() {
    assert!(<()>::from_json(Value::Null).is_ok());
    assert_eq!(encode(&Value::Null, false).unwrap(), b"null".to_vec());
    for document in [
        Value::Bool(false),
        Value::from(0),
        Value::from("null"),
        Value::Array(Vec::new()),
        object("x", Value::Null),
    ] {
        assert_ne!(encode(&document, false).unwrap(), b"null".to_vec());
        assert!(<()>::from_json(document).is_err());
    }
}

#[test]
fn the_form_changes_the_body_only() {
    let compact = make_response(success(202, nested()), false);
    let pretty = make_response(success(202, nested()), true);
    assert_eq!(compact.status, 202);
    assert_eq!(compact.status, pretty.status);
    assert_eq!(compact.headers, pretty.headers);
    assert_ne!(compact.body, pretty.body);
    let compact: Value = serde_json::from_slice(&compact.body).unwrap();
    let pretty: Value = serde_json::from_slice(&pretty.body).unwrap();
    assert_eq!(compact, pretty);
    assert_eq!(compact, nested());
}

#[test]
fn every_document_is_encoded() {
    let documents = [
        Value::Null,
        Value::Bool(true),
        Value::from(-3),
        Value::from(2.5),
        Value::from("text with \"quotes\" and \u{e9}"),
        Value::Array(vec![Value::Null, nested()]),
        object("", Value::Array(Vec::new())),
    ];
    for document in documents {
        for pretty_printed in [false, true] {
            let encoded = encode(&document, pretty_printed).unwrap();
            assert_eq!(serde_json::from_slice::<Value>(&encoded).unwrap(), document);
            let text = serialize_message(&document, pretty_printed).unwrap();
            assert_eq!(text.as_bytes(), encoded.as_slice());
            let response = make_response(success(200, document.clone()), pretty_printed);
            assert_eq!(response.status, 200);
            assert_eq!(response.body, encoded);
        }
    }
}
