//! A request as plain values: what a client builds and a server reads.
//!
//! A transport turns a [`Request`] into its own request type when it sends,
//! and its own request type into a [`Request`] when it has received and read
//! one. Nothing here depends on which transport that is.

use crate::codec::stream::ByteStream;
use crate::error::{outcome, Failure, ServerFnError};
use crate::wire::{
    check_header_value, chunk_seq, header_error_text, is_header_value, join, joined, read_text,
    stream_of, text_of, FormData,
};
use vstd::prelude::*;
use vstd::utf8::encode_utf8;

verus! {

/// How a request is sent.
#[derive(Clone, Copy, Debug, PartialEq, Eq, Structural)]
pub enum Method {
    Get,
    Post,
}

/// What a request carries.
#[derive(Clone, Debug, PartialEq, Eq)]
pub enum Body {
    /// Bytes, in the chunks in which they arrive.
    Chunks(Vec<Vec<u8>>),
    /// A form, which the transport encodes when it sends the request.
    Form(FormData),
}

/// A [`Body`], with bytes and text as sequences.
pub enum BodyView {
    Chunks(Seq<Seq<u8>>),
    Form(Seq<(Seq<char>, Seq<u8>)>),
}

impl View for Body {
    type V = BodyView;

    open spec fn view(&self) -> BodyView {
        match *self {
            Body::Chunks(chunks) => BodyView::Chunks(chunk_seq(chunks)),
            Body::Form(form) => BodyView::Form(form@),
        }
    }
}

/// A request for one callable.
#[derive(Clone, Debug, PartialEq, Eq)]
pub struct Request {
    pub method: Method,
    /// The path of the callable that is asked for.
    pub path: String,
    /// What follows the `?` of the request's target, if it has one.
    pub query: Option<String>,
    /// The value of the `Content-Type` header, if it was sent.
    pub content_type: Option<String>,
    pub body: Body,
}

/// A [`Request`], with bytes and text as sequences.
pub struct RequestView {
    pub method: Method,
    pub path: Seq<char>,
    pub query: Option<Seq<char>>,
    pub content_type: Option<Seq<char>>,
    pub body: BodyView,
}

/// The text that may be missing, as a sequence of characters.
pub open spec fn text_view(text: Option<String>) -> Option<Seq<char>> {
    match text {
        Some(text) => Some(text@),
        None => None,
    }
}

impl View for Request {
    type V = RequestView;

    open spec fn view(&self) -> RequestView {
        RequestView {
            method: self.method,
            path: self.path@,
            query: text_view(self.query),
            content_type: text_view(self.content_type),
            body: self.body@,
        }
    }
}

/// The message of the failure to read a form as bytes.
pub open spec fn unencoded_form_text() -> Seq<char> {
    "the form of this request has not been encoded"@
}

impl RequestView {
    /// What building a request gives: the request if the content type may
    /// stand in a header, else the failure to build it.
    pub open spec fn built(self) -> Result<RequestView, Failure> {
        if self.content_type is Some && !is_header_value(self.content_type->0) {
            Err(Failure::Request(header_error_text()))
        } else {
            Ok(self)
        }
    }

    /// The `GET` request that carries `query` behind the path.
    pub open spec fn get(path: Seq<char>, content_type: Seq<char>, query: Seq<char>) -> RequestView {
        RequestView {
            method: Method::Get,
            path,
            query: Some(query),
            content_type: Some(content_type),
            body: BodyView::Chunks(Seq::empty()),
        }
    }

    /// The `POST` request that carries `bytes` as its body, in one chunk.
    pub open spec fn post(path: Seq<char>, content_type: Seq<char>, bytes: Seq<u8>) -> RequestView {
        RequestView {
            method: Method::Post,
            path,
            query: None,
            content_type: Some(content_type),
            body: BodyView::Chunks(seq![bytes]),
        }
    }

    /// The `POST` request that carries a form. The transport encodes the form
    /// and names its content type.
    pub open spec fn multipart(path: Seq<char>, form: Seq<(Seq<char>, Seq<u8>)>) -> RequestView {
        RequestView {
            method: Method::Post,
            path,
            query: None,
            content_type: None,
            body: BodyView::Form(form),
        }
    }

    /// The target of the request: the path, and behind a `?` the query where
    /// there is one.
    pub open spec fn url(self) -> Seq<char> {
        match self.query {
            Some(query) => self.path + seq!['?'] + query,
            None => self.path,
        }
    }

    /// The chunks of the body. A form has none until it is encoded.
    pub open spec fn chunks(self) -> Result<Seq<Seq<u8>>, Failure> {
        match self.body {
            BodyView::Chunks(chunks) => Ok(chunks),
            BodyView::Form(_) => Err(Failure::Deserialization(unencoded_form_text())),
        }
    }

    /// The body as one block of bytes.
    pub open spec fn bytes(self) -> Result<Seq<u8>, Failure> {
        match self.chunks() {
            Ok(chunks) => Ok(joined(chunks)),
            Err(error) => Err(error),
        }
    }

    /// The body as text.
    pub open spec fn text(self) -> Result<Seq<char>, Failure> {
        match self.bytes() {
            Ok(bytes) => text_of(bytes),
            Err(error) => Err(error),
        }
    }

    /// The body as a stream of its chunks.
    pub open spec fn stream(self) -> Result<
        Seq<Result<Seq<u8>, Failure>>,
        Failure,
    > {
        match self.chunks() {
            Ok(chunks) => Ok(stream_of(chunks)),
            Err(error) => Err(error),
        }
    }
}

impl Request {
    /// Builds a `GET` request whose arguments stand in the query.
    ///
    /// Fails, as a request that could not be built, exactly when the content
    /// type may not stand in a header.
    pub fn try_new_get(path: &str, content_type: &str, query: &str) -> (request: Result<
        Request,
        ServerFnError,
    >)
        ensures
            outcome(request) == RequestView::get(path@, content_type@, query@).built(),
    {
        match check_header_value(content_type) {
            Ok(()) => {
                let chunks: Vec<Vec<u8>> = Vec::new();
                assert(chunk_seq(chunks) =~= Seq::<Seq<u8>>::empty());
                Ok(
                    Request {
                        method: Method::Get,
                        path: path.to_owned(),
                        query: Some(query.to_owned()),
                        content_type: Some(content_type.to_owned()),
                        body: Body::Chunks(chunks),
                    },
                )
            },
            Err(fault) => Err(ServerFnError::Request(fault)),
        }
    }

    /// Builds a `POST` request whose body is the given text.
    ///
    /// Fails, as a request that could not be built, exactly when the content
    /// type may not stand in a header.
    pub fn try_new_post(path: &str, content_type: &str, body: String) -> (request: Result<
        Request,
        ServerFnError,
    >)
        ensures
            outcome(request) == RequestView::post(path@, content_type@, encode_utf8(body@)).built(),
    {
        let bytes = body.as_str().as_bytes_vec();
        Request::try_new_post_bytes(path, content_type, bytes)
    }

    /// Builds a `POST` request whose body is the given bytes.
    ///
    /// Fails, as a request that could not be built, exactly when the content
    /// type may not stand in a header.
    pub fn try_new_post_bytes(path: &str, content_type: &str, body: Vec<u8>) -> (request: Result<
        Request,
        ServerFnError,
    >)
        ensures
            outcome(request) == RequestView::post(path@, content_type@, body@).built(),
    {
        match check_header_value(content_type) {
            Ok(()) => {
                let mut chunks: Vec<Vec<u8>> = Vec::new();
                chunks.push(body);
                assert(chunk_seq(chunks) =~= seq![body@]);
                Ok(
                    Request {
                        method: Method::Post,
                        path: path.to_owned(),
                        query: None,
                        content_type: Some(content_type.to_owned()),
                        body: Body::Chunks(chunks),
                    },
                )
            },
            Err(fault) => Err(ServerFnError::Request(fault)),
        }
    }

    /// Builds a `POST` request that carries a form. This always succeeds.
    pub fn try_new_multipart(path: &str, body: FormData) -> (request: Result<Request, ServerFnError>)
        ensures
            outcome(request) == Ok::<RequestView, Failure>(
                RequestView::multipart(path@, body@),
            ),
    {
        Ok(
            Request {
                method: Method::Post,
                path: path.to_owned(),
                query: None,
                content_type: None,
                body: Body::Form(body),
            },
        )
    }

    /// The target to send the request to.
    pub fn url(&self) -> (url: String)
        ensures
            url@ == self@.url(),
    {
        match &self.query {
            Some(query) => {
                proof {
                    reveal_strlit("?");
                }
                let url = self.path.clone().concat("?").concat(query.as_str());
                assert(url@ =~= self@.url());
                url
            },
            None => self.path.clone(),
        }
    }

    /// The query of the request's target: what follows the `?`.
    pub fn as_query(&self) -> (query: Option<&str>)
        ensures
            match query {
                Some(query) => self@.query == Some(query@),
                None => self@.query is None,
            },
    {
        match &self.query {
            Some(query) => Some(query.as_str()),
            None => None,
        }
    }

    /// The value of the `Content-Type` header, if it was sent.
    pub fn to_content_type(&self) -> (content_type: Option<String>)
        ensures
            text_view(content_type) == self@.content_type,
    {
        match &self.content_type {
            Some(content_type) => Some(content_type.clone()),
            None => None,
        }
    }

    /// Reads the whole body as bytes.
    pub fn try_into_bytes(self) -> (bytes: Result<Vec<u8>, ServerFnError>)
        ensures
            outcome(bytes) == self@.bytes(),
    {
        match self.body {
            Body::Chunks(chunks) => Ok(join(&chunks)),
            Body::Form(_) => Err(
                ServerFnError::Deserialization(
                    "the form of this request has not been encoded".to_owned(),
                ),
            ),
        }
    }

    /// Reads the whole body as text. A body that is not UTF-8 is a
    /// deserialization failure.
    pub fn try_into_string(self) -> (text: Result<String, ServerFnError>)
        ensures
            outcome(text) == self@.text(),
    {
        match self.try_into_bytes() {
            Ok(bytes) => read_text(bytes),
            Err(error) => Err(error),
        }
    }

    /// Hands the body out as a stream of its chunks.
    pub fn try_into_stream(self) -> (stream: Result<ByteStream, ServerFnError>)
        ensures
            outcome(stream) == self@.stream(),
    {
        match self.body {
            Body::Chunks(chunks) => Ok(ByteStream::new(chunks)),
            Body::Form(_) => Err(
                ServerFnError::Deserialization(
                    "the form of this request has not been encoded".to_owned(),
                ),
            ),
        }
    }
}

} // verus!
