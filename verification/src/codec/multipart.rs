//! Multipart form data, for calls whose arguments include files.
//!
//! A client hands over a form, which its transport encodes. A server gets
//! the encoded body and a parser over it that yields the fields one by one,
//! in the order in which they were submitted. The boundary between the
//! fields is named in the content type of the request; a request that names
//! none is refused before anything of its body is read.

use super::{Encoding, FromReq, IntoReq};
use crate::codec::stream::ByteStream;
use crate::error::{outcome, Failure, ServerFnError};
use crate::request::{Request, RequestView};
use crate::wire::FormData;
use crate::wire::is_header_value;
use vstd::prelude::*;

verus! {

/// Arguments as a multipart form.
pub struct MultipartFormData;

impl Encoding for MultipartFormData {
    const CONTENT_TYPE: &'static str = "multipart/form-data";
}

impl MultipartFormData {
    /// The content type of the format is this text, and it may stand in a
    /// header, so that a request or a response of the format can always be
    /// built.
    pub proof fn lemma_content_type()
        ensures
            MultipartFormData::CONTENT_TYPE@ == "multipart/form-data"@,
            is_header_value(MultipartFormData::CONTENT_TYPE@),
    {
        reveal_strlit("multipart/form-data");
    }
}

/// `multer::Multipart`, the parser that yields the fields of an encoded
/// form as its body is read.
#[verifier::external_type_specification]
#[verifier::external_body]
pub struct ExMultipart<'r>(multer::Multipart<'r>);

/// The boundary that `multer::parse_boundary` finds in the value of a
/// `Content-Type` header, if the value names the type of a multipart form
/// and a boundary. It depends on the value alone.
pub uninterp spec fn boundary_of(content_type: Seq<char>) -> Option<Seq<char>>;

/// `multer::parse_boundary`, with a failure of any kind as `None`.
///
/// Trusted: what comes back is the boundary that the library finds in the
/// value, and the same value always gives the same.
#[verifier::external_body]
fn parse_boundary(content_type: &str) -> (boundary: Option<String>)
    ensures
        match boundary {
            Some(found) => boundary_of(content_type@) == Some(found@),
            None => boundary_of(content_type@) is None,
        },
{
    multer::parse_boundary(content_type).ok()
}

/// What a parser reads from: a chunk of bytes, or in its place the text of
/// the error that reading the chunk ran into.
pub open spec fn chunk_views(chunks: Seq<Result<Vec<u8>, String>>) -> Seq<
    Result<Seq<u8>, Seq<char>>,
> {
    chunks.map_values(
        |chunk: Result<Vec<u8>, String>|
            match chunk {
                Ok(bytes) => Ok(bytes@),
                Err(text) => Err(text@),
            },
    )
}

/// The chunks of a stream as a parser reads them: an error stands as its
/// text.
pub open spec fn parser_chunks(items: Seq<Result<Seq<u8>, Failure>>) -> Seq<
    Result<Seq<u8>, Seq<char>>,
> {
    items.map_values(
        |item: Result<Seq<u8>, Failure>|
            match item {
                Ok(bytes) => Ok(bytes),
                Err(error) => Err(error.text()),
            },
    )
}

/// What `multer::Multipart::new` made a parser of: the chunks that it reads,
/// in their order, and the boundary between the fields.
pub uninterp spec fn parser_source(parser: multer::Multipart<'static>) -> (
    Seq<Result<Seq<u8>, Seq<char>>>,
    Seq<char>,
);

/// `multer::Multipart::new`, over chunks that are all in memory.
///
/// Trusted: the parser is made of these chunks, in this order, and of this
/// boundary, and of nothing else. Which fields it yields is not claimed: it
/// reads the chunks as fields are asked of it.
#[verifier::external_body]
fn new_parser(chunks: Vec<Result<Vec<u8>, String>>, boundary: String) -> (parser: multer::Multipart<
    'static,
>)
    ensures
        parser_source(parser) == (chunk_views(chunks@), boundary@),
{
    multer::Multipart::new(
        futures::stream::iter(chunks.into_iter().map(|chunk| chunk.map(bytes::Bytes::from))),
        boundary,
    )
}

/// The chunks of a stream for the parser, which takes an error as its text.
fn parser_input(stream: ByteStream) -> (chunks: Vec<Result<Vec<u8>, String>>)
    ensures
        chunk_views(chunks@) == parser_chunks(stream@),
{
    let mut left = stream;
    let mut chunks: Vec<Result<Vec<u8>, String>> = Vec::new();
    loop
        invariant
            chunks.len() + left@.len() == stream@.len(),
            forall|i: int| 0 <= i < left@.len() ==> #[trigger] left@[i] == stream@[chunks.len() + i],
            forall|i: int|
                0 <= i < chunks.len() ==> match #[trigger] chunks[i] {
                    Ok(bytes) => stream@[i] == Ok::<Seq<u8>, Failure>(bytes@),
                    Err(text) => stream@[i] matches Err(error) && text@ == error.text(),
                },
        decreases left@.len(),
    {
        match left.next() {
            Some(Ok(bytes)) => {
                chunks.push(Ok(bytes));
            },
            Some(Err(error)) => {
                chunks.push(Err(error.to_string()));
            },
            None => {
                assert(chunk_views(chunks@) =~= parser_chunks(stream@));
                return chunks;
            },
        }
    }
}

/// A multipart form on either side of a call.
pub enum MultipartData {
    /// The form that a client sends.
    Client(FormData),
    /// The parser over the body that a server received.
    Server(multer::Multipart<'static>),
}

/// The message of the failure to find a boundary.
pub open spec fn boundary_error_text() -> Seq<char> {
    "couldn't parse boundary"@
}

/// The message of the failure to send what a server received.
pub open spec fn received_form_text() -> Seq<char> {
    "a form that was received cannot be sent"@
}

impl MultipartData {
    /// The form that a client sends, if this is one.
    pub fn into_client_data(self) -> (form: Option<FormData>)
        ensures
            form == match self {
                MultipartData::Client(data) => Some(data),
                MultipartData::Server(_) => None,
            },
    {
        match self {
            MultipartData::Client(data) => Some(data),
            MultipartData::Server(_) => None,
        }
    }

    /// The parser over a received body, if this is one.
    pub fn into_data(self) -> (parser: Option<multer::Multipart<'static>>)
        ensures
            parser == match self {
                MultipartData::Client(_) => None,
                MultipartData::Server(data) => Some(data),
            },
    {
        match self {
            MultipartData::Client(_) => None,
            MultipartData::Server(data) => Some(data),
        }
    }

    /// Whether `decoded` is what a request with this boundary gives.
    ///
    /// Without a boundary the request is refused, whatever its body holds.
    /// With one, a body that can be read in chunks gives the parser that is
    /// made of exactly these chunks, in their order, and of this boundary.
    pub open spec fn decoded(
        boundary: Option<Seq<char>>,
        req: RequestView,
        decoded: Result<MultipartData, ServerFnError>,
    ) -> bool {
        match boundary {
            None => decoded matches Err(error) && error@ == Failure::Request(boundary_error_text()),
            Some(found) => match req.stream() {
                Ok(items) => decoded matches Ok(MultipartData::Server(parser)) && parser_source(
                    parser,
                ) == (parser_chunks(items), found),
                Err(unread) => decoded matches Err(error) && error@ == unread,
            },
        }
    }

    /// The boundary that the content type of a request names, if it names
    /// one.
    pub open spec fn boundary(req: RequestView) -> Option<Seq<char>> {
        match req.content_type {
            Some(content_type) => boundary_of(content_type),
            None => None,
        }
    }

    /// Reads a request whose boundary has been looked for.
    ///
    /// A request without a boundary is a request failure, and nothing of its
    /// body is read.
    pub fn from_boundary(boundary: Option<String>, req: Request) -> (decoded: Result<
        MultipartData,
        ServerFnError,
    >)
        ensures
            MultipartData::decoded(crate::request::text_view(boundary), req@, decoded),
    {
        match boundary {
            None => Err(ServerFnError::Request("couldn't parse boundary".to_owned())),
            Some(boundary) => match req.try_into_stream() {
                Ok(stream) => Ok(MultipartData::Server(new_parser(parser_input(stream), boundary))),
                Err(error) => Err(error),
            },
        }
    }
}

impl From<FormData> for MultipartData {
    /// A form is what a client sends.
    fn from(value: FormData) -> (data: Self) {
        MultipartData::Client(value)
    }
}

impl vstd::std_specs::convert::FromSpecImpl<FormData> for MultipartData {
    open spec fn obeys_from_spec() -> bool {
        true
    }

    open spec fn from_spec(value: FormData) -> Self {
        MultipartData::Client(value)
    }
}

impl IntoReq<MultipartFormData> for FormData {
    /// Builds the request that carries the form to the callable at `path`.
    /// This always succeeds.
    fn into_req(self, path: &str) -> (request: Result<Request, ServerFnError>)
        ensures
            outcome(request) == Ok::<RequestView, Failure>(RequestView::multipart(path@, self@)),
    {
        Request::try_new_multipart(path, self)
    }
}

impl IntoReq<MultipartFormData> for MultipartData {
    /// Builds the request that carries the form of a client to the callable
    /// at `path`. What a server received is not sent on: that is a request
    /// failure.
    fn into_req(self, path: &str) -> (request: Result<Request, ServerFnError>)
        ensures
            outcome(request) == match self {
                MultipartData::Client(form) => Ok::<RequestView, Failure>(
                    RequestView::multipart(path@, form@),
                ),
                MultipartData::Server(_) => Err(Failure::Request(received_form_text())),
            },
    {
        match self.into_client_data() {
            Some(form) => Request::try_new_multipart(path, form),
            None => Err(
                ServerFnError::Request("a form that was received cannot be sent".to_owned()),
            ),
        }
    }
}

impl FromReq<MultipartFormData> for MultipartData {
    /// Reads a multipart request: finds the boundary in its content type,
    /// then hands out the parser over its body.
    ///
    /// A request without a content type, or whose content type names no
    /// boundary, is a request failure, and nothing of its body is read.
    fn from_req(req: Request) -> (decoded: Result<Self, ServerFnError>)
        ensures
            MultipartData::decoded(MultipartData::boundary(req@), req@, decoded),
    {
        let boundary = match req.to_content_type() {
            Some(content_type) => parse_boundary(content_type.as_str()),
            None => None,
        };
        MultipartData::from_boundary(boundary, req)
    }
}

} // verus!
