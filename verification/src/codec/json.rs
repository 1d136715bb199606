//! JSON in the body of a `POST` request and of a response.
//!
//! The serializer works on the caller's own types and is called by the
//! caller. This module takes what it returned and does the rest: it tells a
//! value that could not be encoded from a body that could not be built,
//! frames the text, and hands the text of a body back for decoding.

use super::Encoding;
use crate::error::{outcome, Failure, ServerFnError};
use crate::request::{Request, RequestView};
use crate::response::{Response, ResponseView};
use crate::wire::{is_header_value, lemma_text_in_one_chunk};
use vstd::prelude::*;
use vstd::utf8::encode_utf8;

verus! {

/// Arguments and results as JSON text.
pub struct Json;

impl Encoding for Json {
    const CONTENT_TYPE: &'static str = "application/json";
}

impl Json {
    /// The content type of the format is this text, and it may stand in a
    /// header, so that a request or a response of the format can always be
    /// built.
    pub proof fn lemma_content_type()
        ensures
            Json::CONTENT_TYPE@ == "application/json"@,
            is_header_value(Json::CONTENT_TYPE@),
    {
        reveal_strlit("application/json");
    }
}

impl Json {
    /// The request that carries a JSON text to the callable at `path`.
    pub open spec fn request(path: Seq<char>, text: Seq<char>) -> RequestView {
        RequestView::post(path, "application/json"@, encode_utf8(text))
    }

    /// The response that carries a JSON text.
    pub open spec fn response(text: Seq<char>) -> ResponseView {
        ResponseView::ok("application/json"@, seq![encode_utf8(text)])
    }

    /// Builds the request for arguments that were serialized as JSON.
    ///
    /// Arguments that could not be serialized are a serialization failure,
    /// and no request is built. Otherwise the request is a `POST` to `path`
    /// with the text as its body.
    pub fn into_req(encoded: Result<String, String>, path: &str) -> (request: Result<
        Request,
        ServerFnError,
    >)
        ensures
            outcome(request) == match encoded {
                Ok(text) => Ok(Json::request(path@, text@)),
                Err(message) => Err(Failure::Serialization(message@)),
            },
    {
        proof {
            Json::lemma_content_type();
        }
        match encoded {
            Ok(text) => Request::try_new_post(path, Json::CONTENT_TYPE, text),
            Err(message) => Err(ServerFnError::Serialization(message)),
        }
    }

    /// Reads the JSON text of the arguments out of a request. The whole body
    /// is read; it must be text.
    pub fn from_req(req: Request) -> (text: Result<String, ServerFnError>)
        ensures
            outcome(text) == req@.text(),
    {
        req.try_into_string()
    }

    /// Builds the response for a result that was serialized as JSON.
    ///
    /// A result that could not be serialized is a serialization failure, and
    /// no response is built.
    pub fn into_res(encoded: Result<String, String>) -> (response: Result<Response, ServerFnError>)
        ensures
            outcome(response) == match encoded {
                Ok(text) => Ok(Json::response(text@)),
                Err(message) => Err(Failure::Serialization(message@)),
            },
    {
        proof {
            Json::lemma_content_type();
        }
        match encoded {
            Ok(text) => Response::try_from_string(Json::CONTENT_TYPE, text),
            Err(message) => Err(ServerFnError::Serialization(message)),
        }
    }

    /// Reads the JSON text of the result out of a response.
    pub fn from_res(res: Response) -> (text: Result<String, ServerFnError>)
        ensures
            outcome(text) == res@.text(),
    {
        res.try_into_string()
    }

    /// What was put into a request is what is read out of it: the text of
    /// the arguments arrives unchanged, whatever the text and the path are.
    pub proof fn lemma_request_round_trip(path: Seq<char>, text: Seq<char>)
        ensures
            Json::request(path, text).built() == Ok::<RequestView, Failure>(
                Json::request(path, text),
            ),
            Json::request(path, text).text() == Ok::<Seq<char>, Failure>(text),
    {
        Json::lemma_content_type();
        lemma_text_in_one_chunk(text);
    }

    /// What was put into a response is what is read out of it: the text of
    /// the result arrives unchanged.
    pub proof fn lemma_response_round_trip(text: Seq<char>)
        ensures
            Json::response(text).built() == Ok::<ResponseView, Failure>(
                Json::response(text),
            ),
            Json::response(text).text() == Ok::<Seq<char>, Failure>(text),
    {
        Json::lemma_content_type();
        lemma_text_in_one_chunk(text);
    }
}

} // verus!
