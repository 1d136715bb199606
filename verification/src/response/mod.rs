//! A response as plain values: what a server builds and a client reads.

use crate::codec::stream::ByteStream;
use crate::error::{outcome, Failure, ServerFnError};
use crate::request::text_view;
use crate::wire::{
    check_header_value, chunk_seq, header_error_text, is_header_value, join, joined,
    lemma_text_in_one_chunk, read_text, stream_of, text_of,
};
use vstd::prelude::*;
use vstd::utf8::encode_utf8;

verus! {

/// The status of a response that holds what was asked for.
pub const STATUS_OK: u16 = 200;

/// The status of the response to a request that names no registered callable.
pub const STATUS_BAD_REQUEST: u16 = 400;

/// The status of the response that reports a failed call.
pub const STATUS_INTERNAL_SERVER_ERROR: u16 = 500;

/// The answer to one request.
#[derive(Clone, Debug, PartialEq, Eq)]
pub struct Response {
    pub status: u16,
    /// The value of the `Content-Type` header, if one is sent.
    pub content_type: Option<String>,
    /// The bytes of the body, in the chunks in which they are sent.
    pub body: Vec<Vec<u8>>,
}

/// A [`Response`], with bytes and text as sequences.
pub struct ResponseView {
    pub status: u16,
    pub content_type: Option<Seq<char>>,
    pub body: Seq<Seq<u8>>,
}

impl View for Response {
    type V = ResponseView;

    open spec fn view(&self) -> ResponseView {
        ResponseView {
            status: self.status,
            content_type: text_view(self.content_type),
            body: chunk_seq(self.body),
        }
    }
}

impl ResponseView {
    /// The response of status 200 that carries `body` under `content_type`.
    pub open spec fn ok(content_type: Seq<char>, body: Seq<Seq<u8>>) -> ResponseView {
        ResponseView { status: STATUS_OK, content_type: Some(content_type), body }
    }

    /// What building a response gives: the response if the content type may
    /// stand in a header, else the failure to build it.
    pub open spec fn built(self) -> Result<ResponseView, Failure> {
        if self.content_type is Some && !is_header_value(self.content_type->0) {
            Err(Failure::Response(header_error_text()))
        } else {
            Ok(self)
        }
    }

    /// The response that carries nothing but a text, under the given status.
    pub open spec fn plain(status: u16, text: Seq<char>) -> ResponseView {
        ResponseView { status, content_type: None, body: seq![encode_utf8(text)] }
    }

    /// The response that reports a failed call: status 500, and the text of
    /// the error as the body.
    pub open spec fn error(error: Failure) -> ResponseView {
        ResponseView::plain(STATUS_INTERNAL_SERVER_ERROR, error.text())
    }

    /// The body as one block of bytes.
    pub open spec fn bytes(self) -> Seq<u8> {
        joined(self.body)
    }

    /// The body as text.
    pub open spec fn text(self) -> Result<Seq<char>, Failure> {
        text_of(self.bytes())
    }

    /// The body as a stream of its chunks.
    pub open spec fn stream(self) -> Seq<Result<Seq<u8>, Failure>> {
        stream_of(self.body)
    }
}

/// A response that carries nothing but a text is read back as that text,
/// whatever the status and the text are.
pub proof fn lemma_plain_text(status: u16, text: Seq<char>)
    ensures
        ResponseView::plain(status, text).status == status,
        ResponseView::plain(status, text).text() == Ok::<Seq<char>, Failure>(text),
{
    lemma_text_in_one_chunk(text);
}

impl Response {
    /// Builds a response of status 200 whose body is the given text.
    ///
    /// Fails, as a response that could not be built, exactly when the content
    /// type may not stand in a header.
    pub fn try_from_string(content_type: &str, data: String) -> (response: Result<
        Response,
        ServerFnError,
    >)
        ensures
            outcome(response) == ResponseView::ok(content_type@, seq![encode_utf8(data@)]).built(),
    {
        let bytes = data.as_str().as_bytes_vec();
        Response::try_from_bytes(content_type, bytes)
    }

    /// Builds a response of status 200 whose body is the given bytes.
    ///
    /// Fails, as a response that could not be built, exactly when the content
    /// type may not stand in a header.
    pub fn try_from_bytes(content_type: &str, data: Vec<u8>) -> (response: Result<
        Response,
        ServerFnError,
    >)
        ensures
            outcome(response) == ResponseView::ok(content_type@, seq![data@]).built(),
    {
        let mut chunks: Vec<Vec<u8>> = Vec::new();
        chunks.push(data);
        assert(chunk_seq(chunks) =~= seq![data@]);
        Response::try_from_stream(content_type, chunks)
    }

    /// Builds a response of status 200 whose body is sent in the given
    /// chunks, in their order.
    ///
    /// Fails, as a response that could not be built, exactly when the content
    /// type may not stand in a header.
    pub fn try_from_stream(content_type: &str, data: Vec<Vec<u8>>) -> (response: Result<
        Response,
        ServerFnError,
    >)
        ensures
            outcome(response) == ResponseView::ok(content_type@, chunk_seq(data)).built(),
    {
        match check_header_value(content_type) {
            Ok(()) => Ok(
                Response {
                    status: STATUS_OK,
                    content_type: Some(content_type.to_owned()),
                    body: data,
                },
            ),
            Err(fault) => Err(ServerFnError::Response(fault)),
        }
    }

    /// Builds the response that carries nothing but a text.
    pub fn plain(status: u16, text: String) -> (response: Response)
        ensures
            response@ == ResponseView::plain(status, text@),
    {
        let mut chunks: Vec<Vec<u8>> = Vec::new();
        chunks.push(text.as_str().as_bytes_vec());
        assert(chunk_seq(chunks) =~= seq![encode_utf8(text@)]);
        Response { status, content_type: None, body: chunks }
    }

    /// Builds the response that reports a failed call. This cannot fail: the
    /// status is 500 and the body is the text of the error.
    pub fn error_response(err: ServerFnError) -> (response: Response)
        ensures
            response@ == ResponseView::error(err@),
    {
        Response::plain(STATUS_INTERNAL_SERVER_ERROR, err.to_string())
    }

    /// Reads the whole body as text. A body that is not UTF-8 is a
    /// deserialization failure.
    pub fn try_into_string(self) -> (text: Result<String, ServerFnError>)
        ensures
            outcome(text) == self@.text(),
    {
        read_text(join(&self.body))
    }

    /// Reads the whole body as bytes.
    pub fn try_into_bytes(self) -> (bytes: Result<Vec<u8>, ServerFnError>)
        ensures
            outcome(bytes) == Ok::<Seq<u8>, Failure>(self@.bytes()),
    {
        Ok(join(&self.body))
    }

    /// Hands the body out as a stream of its chunks.
    pub fn try_into_stream(self) -> (stream: Result<ByteStream, ServerFnError>)
        ensures
            outcome(stream) == Ok::<
                Seq<Result<Seq<u8>, Failure>>,
                Failure,
            >(self@.stream()),
    {
        Ok(ByteStream::new(self.body))
    }
}

} // verus!
