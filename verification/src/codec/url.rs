//! URL-encoded arguments: in the query of a `GET` request, or as the body of
//! a `POST` request.
//!
//! The caller runs the serializer, which gives pairs of key and value joined
//! by `&`, percent-encoded. This module frames that text and hands it back
//! for decoding.

use super::Encoding;
use crate::error::{outcome, Failure, ServerFnError};
use crate::request::{Request, RequestView};
use crate::wire::{is_header_value, lemma_text_in_one_chunk};
use vstd::prelude::*;
use vstd::utf8::encode_utf8;

verus! {

/// Arguments in the query of a `GET` request. Such a call has no body, so
/// it can be cached and kept as a link.
pub struct GetUrl;

/// Arguments as the body of a `POST` request.
pub struct PostUrl;

impl Encoding for GetUrl {
    const CONTENT_TYPE: &'static str = "application/x-www-form-urlencoded";
}

impl GetUrl {
    /// The content type of the format is this text, and it may stand in a
    /// header, so that a request or a response of the format can always be
    /// built.
    pub proof fn lemma_content_type()
        ensures
            GetUrl::CONTENT_TYPE@ == "application/x-www-form-urlencoded"@,
            is_header_value(GetUrl::CONTENT_TYPE@),
    {
        reveal_strlit("application/x-www-form-urlencoded");
    }
}

impl Encoding for PostUrl {
    const CONTENT_TYPE: &'static str = "application/x-www-form-urlencoded";
}

impl PostUrl {
    /// The content type of the format is this text, and it may stand in a
    /// header, so that a request or a response of the format can always be
    /// built.
    pub proof fn lemma_content_type()
        ensures
            PostUrl::CONTENT_TYPE@ == "application/x-www-form-urlencoded"@,
            is_header_value(PostUrl::CONTENT_TYPE@),
    {
        reveal_strlit("application/x-www-form-urlencoded");
    }
}

impl GetUrl {
    /// The request that carries encoded arguments to the callable at `path`.
    pub open spec fn request(path: Seq<char>, query: Seq<char>) -> RequestView {
        RequestView::get(path, "application/x-www-form-urlencoded"@, query)
    }

    /// The encoded arguments of a request: its query, and nothing where it
    /// has none.
    pub open spec fn arguments(req: RequestView) -> Seq<char> {
        match req.query {
            Some(query) => query,
            None => Seq::empty(),
        }
    }

    /// Builds the request for arguments that were serialized for a URL.
    ///
    /// Arguments that could not be serialized are a serialization failure,
    /// and no request is built. Otherwise the request is a `GET` of `path`
    /// with the text as its query.
    pub fn into_req(encoded: Result<String, String>, path: &str) -> (request: Result<
        Request,
        ServerFnError,
    >)
        ensures
            outcome(request) == match encoded {
                Ok(query) => Ok(GetUrl::request(path@, query@)),
                Err(message) => Err(Failure::Serialization(message@)),
            },
    {
        proof {
            GetUrl::lemma_content_type();
        }
        match encoded {
            Ok(query) => Request::try_new_get(path, GetUrl::CONTENT_TYPE, query.as_str()),
            Err(message) => Err(ServerFnError::Serialization(message)),
        }
    }

    /// Reads the encoded arguments out of a request. Only the query is read.
    pub fn from_req(req: &Request) -> (query: &str)
        ensures
            query@ == GetUrl::arguments(req@),
    {
        match req.as_query() {
            Some(query) => query,
            None => {
                proof {
                    reveal_strlit("");
                }
                assert(""@ =~= Seq::<char>::empty());
                ""
            },
        }
    }

    /// What was put into a request is what is read out of it: the encoded
    /// arguments arrive unchanged, whatever they and the path are.
    pub proof fn lemma_request_round_trip(path: Seq<char>, query: Seq<char>)
        ensures
            GetUrl::request(path, query).built() == Ok::<RequestView, Failure>(
                GetUrl::request(path, query),
            ),
            GetUrl::arguments(GetUrl::request(path, query)) == query,
    {
        GetUrl::lemma_content_type();
    }
}

impl PostUrl {
    /// The request that carries encoded arguments to the callable at `path`.
    pub open spec fn request(path: Seq<char>, text: Seq<char>) -> RequestView {
        RequestView::post(path, "application/x-www-form-urlencoded"@, encode_utf8(text))
    }

    /// Builds the request for arguments that were serialized for a URL.
    ///
    /// Arguments that could not be serialized are a serialization failure,
    /// and no request is built. Otherwise the request is a `POST` to `path`
    /// with the text as its whole body.
    pub fn into_req(encoded: Result<String, String>, path: &str) -> (request: Result<
        Request,
        ServerFnError,
    >)
        ensures
            outcome(request) == match encoded {
                Ok(text) => Ok(PostUrl::request(path@, text@)),
                Err(message) => Err(Failure::Serialization(message@)),
            },
    {
        proof {
            PostUrl::lemma_content_type();
        }
        match encoded {
            Ok(text) => Request::try_new_post(path, PostUrl::CONTENT_TYPE, text),
            Err(message) => Err(ServerFnError::Serialization(message)),
        }
    }

    /// Reads the encoded arguments out of a request. The whole body is read;
    /// it must be text.
    pub fn from_req(req: Request) -> (text: Result<String, ServerFnError>)
        ensures
            outcome(text) == req@.text(),
    {
        req.try_into_string()
    }

    /// What was put into a request is what is read out of it: the encoded
    /// arguments arrive unchanged, whatever they and the path are.
    pub proof fn lemma_request_round_trip(path: Seq<char>, text: Seq<char>)
        ensures
            PostUrl::request(path, text).built() == Ok::<RequestView, Failure>(
                PostUrl::request(path, text),
            ),
            PostUrl::request(path, text).text() == Ok::<Seq<char>, Failure>(text),
    {
        PostUrl::lemma_content_type();
        lemma_text_in_one_chunk(text);
    }
}

} // verus!
