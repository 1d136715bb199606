use std::collections::BTreeMap;

use server_fn::codec::{arguments, results, serialized, Cbor, Encoding, GetUrl, Json, PostUrl};
use server_fn::codec::{FromReq, IntoReq};
use server_fn::codec::{MultipartFormData, Streaming, StreamingText};
use server_fn::error::ServerFnError;
use server_fn::request::{Body, Method, Request};
use server_fn::response::Response;

fn json_encode<T: serde::Serialize>(value: &T) -> Result<String, String> {
    serde_json::to_string(value).map_err(|e| e.to_string())
}

fn json_decode<T: serde::de::DeserializeOwned>(text: &str) -> Result<T, String> {
    serde_json::from_str(text).map_err(|e| e.to_string())
}

fn cbor_encode<T: serde::Serialize>(value: &T) -> Result<Vec<u8>, String> {
    let mut buffer: Vec<u8> = Vec::new();
    match ciborium::ser::into_writer(value, &mut buffer) {
        Ok(()) => Ok(buffer),
        Err(e) => Err(e.to_string()),
    }
}

fn cbor_decode<T: serde::de::DeserializeOwned>(bytes: &[u8]) -> Result<T, String> {
    ciborium::de::from_reader(bytes).map_err(|e| e.to_string())
}

fn url_encode<T: serde::Serialize>(value: &T) -> Result<String, String> {
    serde_qs::to_string(value).map_err(|e| e.to_string())
}

fn url_decode<T: serde::de::DeserializeOwned>(text: &str) -> Result<T, String> {
    serde_qs::from_str(text).map_err(|e| e.to_string())
}

fn sample_map() -> BTreeMap<String, String> {
    let mut map = BTreeMap::new();
    map.insert("name".to_string(), "Ada Lovelace".to_string());
    map.insert("note".to_string(), "a&b=c ü".to_string());
    map
}

#[test]
fn content_types() {
    assert_eq!(Json::CONTENT_TYPE, "application/json");
    assert_eq!(Cbor::CONTENT_TYPE, "application/cbor");
    assert_eq!(GetUrl::CONTENT_TYPE, "application/x-www-form-urlencoded");
    assert_eq!(PostUrl::CONTENT_TYPE, "application/x-www-form-urlencoded");
    assert_eq!(MultipartFormData::CONTENT_TYPE, "multipart/form-data");
    assert_eq!(Streaming::CONTENT_TYPE, "application/octet-stream");
    assert_eq!(StreamingText::CONTENT_TYPE, "text/plain");
}

#[test]
fn stage_of_each_failure() {
    let failed: Result<u8, String> = Err("why".to_string());
    assert!(matches!(
        serialized(failed.clone()),
        Err(ServerFnError::Serialization(ref text)) if text == "why"
    ));
    assert!(matches!(
        arguments(failed.clone()),
        Err(ServerFnError::Args(ref text)) if text == "why"
    ));
    assert!(matches!(
        results(failed),
        Err(ServerFnError::Deserialization(ref text)) if text == "why"
    ));
    let fine: Result<u8, String> = Ok(7);
    assert!(matches!(serialized(fine.clone()), Ok(7)));
    assert!(matches!(arguments(fine.clone()), Ok(7)));
    assert!(matches!(results(fine), Ok(7)));
}

#[test]
fn json_request_is_a_post_with_the_text_as_body() {
    let req = Json::into_req(Ok("[1,2]".to_string()), "/api/add").unwrap();
    assert_eq!(
        req,
        Request {
            method: Method::Post,
            path: "/api/add".to_string(),
            query: None,
            content_type: Some("application/json".to_string()),
            body: Body::Chunks(vec![b"[1,2]".to_vec()]),
        }
    );
}

#[test]
fn json_request_for_unserializable_arguments_is_not_built() {
    let built = Json::into_req(Err("key must be a string".to_string()), "/api/add");
    assert!(matches!(
        built,
        Err(ServerFnError::Serialization(ref text)) if text == "key must be a string"
    ));
}

#[test]
fn json_response_has_status_200_and_the_text_as_body() {
    let res = Json::into_res(Ok("3".to_string())).unwrap();
    assert_eq!(
        res,
        Response {
            status: 200,
            content_type: Some("application/json".to_string()),
            body: vec![b"3".to_vec()],
        }
    );
    assert!(matches!(
        Json::into_res(Err("nan".to_string())),
        Err(ServerFnError::Serialization(ref text)) if text == "nan"
    ));
}

#[test]
fn json_round_trip_through_a_request() {
    let value = (
        "text with \"quotes\" and ü".to_string(),
        vec![1u32, 2, 3],
        Some(true),
        sample_map(),
    );
    let req = Json::into_req(json_encode(&value), "/api/echo").unwrap();
    let text = Json::from_req(req).unwrap();
    let back: (String, Vec<u32>, Option<bool>, BTreeMap<String, String>) =
        arguments(json_decode(&text)).unwrap();
    assert_eq!(back, value);
}

#[test]
fn json_round_trip_through_a_response() {
    let value: Vec<(i64, String)> = vec![(-1, "a".to_string()), (i64::MAX, String::new())];
    let res = Json::into_res(json_encode(&value)).unwrap();
    let text = Json::from_res(res).unwrap();
    let back: Vec<(i64, String)> = results(json_decode(&text)).unwrap();
    assert_eq!(back, value);
}

#[test]
fn truncated_json_arguments_are_an_argument_failure() {
    let req = Request::try_new_post("/api/echo", "application/json", "{\"foo\":".to_string())
        .unwrap();
    let text = Json::from_req(req).unwrap();
    let decoded: Result<BTreeMap<String, String>, ServerFnError> = arguments(json_decode(&text));
    let error = decoded.unwrap_err();
    assert!(matches!(error, ServerFnError::Args(_)));
    assert!(error
        .to_string()
        .starts_with("error deserializing server function arguments: EOF while parsing"));
}

#[test]
fn json_of_the_wrong_shape_is_an_argument_failure() {
    let decoded: Result<Vec<u32>, ServerFnError> = arguments(json_decode("{\"a\":1}"));
    assert!(matches!(decoded, Err(ServerFnError::Args(ref text)) if text.contains("invalid type")));
}

#[test]
fn json_body_that_is_not_text_is_a_deserialization_failure() {
    let req = Request::try_new_post_bytes("/api/echo", "application/json", vec![0x80]).unwrap();
    assert!(matches!(
        Json::from_req(req),
        Err(ServerFnError::Deserialization(_))
    ));
}

#[test]
fn cbor_request_is_a_post_with_the_bytes_as_body() {
    let req = Cbor::into_req(Ok(vec![0x82, 0x01, 0x02]), "/api/add").unwrap();
    assert_eq!(
        req,
        Request {
            method: Method::Post,
            path: "/api/add".to_string(),
            query: None,
            content_type: Some("application/cbor".to_string()),
            body: Body::Chunks(vec![vec![0x82, 0x01, 0x02]]),
        }
    );
    assert!(matches!(
        Cbor::into_req(Err("no".to_string()), "/api/add"),
        Err(ServerFnError::Serialization(ref text)) if text == "no"
    ));
}

#[test]
fn cbor_response_has_status_200_and_the_bytes_as_body() {
    let res = Cbor::into_res(Ok(vec![0x18, 0x2a])).unwrap();
    assert_eq!(
        res,
        Response {
            status: 200,
            content_type: Some("application/cbor".to_string()),
            body: vec![vec![0x18, 0x2a]],
        }
    );
    assert!(matches!(
        Cbor::into_res(Err("no".to_string())),
        Err(ServerFnError::Serialization(ref text)) if text == "no"
    ));
}

#[test]
fn cbor_round_trip_through_a_request() {
    let value = (sample_map(), vec![0u8, 255, 7], -42i32, "ü".to_string());
    let req = Cbor::into_req(cbor_encode(&value), "/api/echo").unwrap();
    let bytes = Cbor::from_req(req).unwrap();
    let back: (BTreeMap<String, String>, Vec<u8>, i32, String) =
        arguments(cbor_decode(&bytes)).unwrap();
    assert_eq!(back, value);
}

#[test]
fn cbor_round_trip_through_a_response() {
    let value: Option<Vec<String>> = Some(vec!["a".to_string(), String::new()]);
    let res = Cbor::into_res(cbor_encode(&value)).unwrap();
    let bytes = Cbor::from_res(res).unwrap();
    let back: Option<Vec<String>> = results(cbor_decode(&bytes)).unwrap();
    assert_eq!(back, value);
}

#[test]
fn truncated_cbor_is_reported_and_does_not_panic() {
    let mut bytes = cbor_encode(&vec![1u32, 2, 3]).unwrap();
    bytes.truncate(2);
    let decoded: Result<Vec<u32>, ServerFnError> = arguments(cbor_decode(&bytes));
    assert!(matches!(decoded, Err(ServerFnError::Args(_))));
    let decoded: Result<Vec<u32>, ServerFnError> = results(cbor_decode(&bytes));
    assert!(matches!(decoded, Err(ServerFnError::Deserialization(_))));
}

#[test]
fn get_url_request_carries_the_arguments_in_the_query() {
    let req = GetUrl::into_req(Ok("a=1&b=two".to_string()), "/api/find").unwrap();
    assert_eq!(
        req,
        Request {
            method: Method::Get,
            path: "/api/find".to_string(),
            query: Some("a=1&b=two".to_string()),
            content_type: Some("application/x-www-form-urlencoded".to_string()),
            body: Body::Chunks(vec![]),
        }
    );
    assert_eq!(req.url(), "/api/find?a=1&b=two");
    assert_eq!(GetUrl::from_req(&req), "a=1&b=two");
    assert!(matches!(
        GetUrl::into_req(Err("no".to_string()), "/api/find"),
        Err(ServerFnError::Serialization(ref text)) if text == "no"
    ));
}

#[test]
fn get_url_reads_only_the_query() {
    let mut req = Request::try_new_post("/api/find", "text/plain", "a=body".to_string()).unwrap();
    assert_eq!(GetUrl::from_req(&req), "");
    req.query = Some("a=query".to_string());
    assert_eq!(GetUrl::from_req(&req), "a=query");
}

#[test]
fn get_url_round_trip() {
    let value = sample_map();
    let req = GetUrl::into_req(url_encode(&value), "/api/find").unwrap();
    let back: BTreeMap<String, String> = arguments(url_decode(GetUrl::from_req(&req))).unwrap();
    assert_eq!(back, value);
}

#[test]
fn post_url_request_carries_the_arguments_as_its_body() {
    let req = PostUrl::into_req(Ok("a=1&b=two".to_string()), "/api/find").unwrap();
    assert_eq!(
        req,
        Request {
            method: Method::Post,
            path: "/api/find".to_string(),
            query: None,
            content_type: Some("application/x-www-form-urlencoded".to_string()),
            body: Body::Chunks(vec![b"a=1&b=two".to_vec()]),
        }
    );
    assert!(matches!(
        PostUrl::into_req(Err("no".to_string()), "/api/find"),
        Err(ServerFnError::Serialization(ref text)) if text == "no"
    ));
}

#[test]
fn post_url_round_trip() {
    let value = sample_map();
    let req = PostUrl::into_req(url_encode(&value), "/api/find").unwrap();
    let text = PostUrl::from_req(req).unwrap();
    let back: BTreeMap<String, String> = arguments(url_decode(&text)).unwrap();
    assert_eq!(back, value);
}

#[test]
fn url_encoding_joins_pairs_with_ampersands_and_escapes() {
    let text = url_encode(&sample_map()).unwrap();
    let req = PostUrl::into_req(Ok(text.clone()), "/p").unwrap();
    assert_eq!(PostUrl::from_req(req).unwrap(), text);
    assert_eq!(text.matches('&').count(), 1);
    assert!(text.starts_with("name=Ada"));
    assert!(!text.contains(' '));
}

/// A format of the test's own: a number as decimal text.
struct Decimal;

impl Encoding for Decimal {
    const CONTENT_TYPE: &'static str = "text/x-decimal";
}

#[derive(Debug, PartialEq)]
struct Count(u32);

impl IntoReq<Decimal> for Count {
    fn into_req(self, path: &str) -> Result<Request, ServerFnError> {
        Request::try_new_post(path, Decimal::CONTENT_TYPE, self.0.to_string())
    }
}

impl FromReq<Decimal> for Count {
    fn from_req(req: Request) -> Result<Self, ServerFnError> {
        let text = req.try_into_string()?;
        arguments(text.parse::<u32>().map_err(|e| e.to_string())).map(Count)
    }
}

#[test]
fn new_format_is_a_tag_and_its_conversions() {
    let req = <Count as IntoReq<Decimal>>::into_req(Count(42), "/api/count").unwrap();
    assert_eq!(req.content_type.as_deref(), Some("text/x-decimal"));
    assert_eq!(<Count as FromReq<Decimal>>::from_req(req).unwrap(), Count(42));
    let req = Request::try_new_post("/api/count", "text/x-decimal", "many".to_string()).unwrap();
    assert!(matches!(
        <Count as FromReq<Decimal>>::from_req(req),
        Err(ServerFnError::Args(ref text)) if text == "invalid digit found in string"
    ));
}
