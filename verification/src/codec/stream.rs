//! Bodies that are read chunk by chunk: raw bytes and text.
//!
//! A stream is read once, front to back. What has been pulled is gone, and a
//! stream that has given its last chunk gives nothing from then on.

use super::{Encoding, FromRes, IntoRes};
use crate::error::{outcome, Failure, ServerFnError};
use crate::response::{Response, ResponseView};
use crate::wire::{chunk_seq, read_text, stream_of, text_of};
use crate::wire::is_header_value;
use vstd::prelude::*;
use vstd::utf8::{encode_utf8, encode_utf8_decode_utf8, encode_utf8_valid_utf8};

verus! {

/// A body of raw bytes that is sent in chunks.
pub struct Streaming;

impl Encoding for Streaming {
    const CONTENT_TYPE: &'static str = "application/octet-stream";
}

impl Streaming {
    /// The content type of the format is this text, and it may stand in a
    /// header, so that a request or a response of the format can always be
    /// built.
    pub proof fn lemma_content_type()
        ensures
            Streaming::CONTENT_TYPE@ == "application/octet-stream"@,
            is_header_value(Streaming::CONTENT_TYPE@),
    {
        reveal_strlit("application/octet-stream");
    }
}

/// A body of text that is sent in chunks.
pub struct StreamingText;

impl Encoding for StreamingText {
    const CONTENT_TYPE: &'static str = "text/plain";
}

impl StreamingText {
    /// The content type of the format is this text, and it may stand in a
    /// header, so that a request or a response of the format can always be
    /// built.
    pub proof fn lemma_content_type()
        ensures
            StreamingText::CONTENT_TYPE@ == "text/plain"@,
            is_header_value(StreamingText::CONTENT_TYPE@),
    {
        reveal_strlit("text/plain");
    }
}

/// Chunks of bytes still to be read, the next one first. A chunk may be the
/// error that reading it ran into.
pub struct ByteStream {
    chunks: Vec<Result<Vec<u8>, ServerFnError>>,
}

impl View for ByteStream {
    type V = Seq<Result<Seq<u8>, Failure>>;

    /// The chunks that are left, in the order in which they will be read.
    closed spec fn view(&self) -> Self::V {
        self.chunks@.map_values(|chunk: Result<Vec<u8>, ServerFnError>| outcome(chunk))
    }
}

impl ByteStream {
    /// A stream that holds the given chunks, none of them an error.
    pub fn new(chunks: Vec<Vec<u8>>) -> (stream: Self)
        ensures
            stream@ == stream_of(chunk_seq(chunks)),
    {
        let mut chunks = chunks;
        let ghost all = chunk_seq(chunks);
        let mut held: Vec<Result<Vec<u8>, ServerFnError>> = Vec::new();
        while chunks.len() > 0
            invariant
                held.len() + chunks.len() == all.len(),
                forall|i: int|
                    0 <= i < chunks.len() ==> (#[trigger] chunks[i])@ == all[all.len() - chunks.len()
                        + i],
                forall|i: int|
                    0 <= i < held.len() ==> outcome(#[trigger] held[i]) == Ok::<
                        Seq<u8>,
                        Failure,
                    >(all[i]),
            decreases chunks.len(),
        {
            let chunk = chunks.remove(0);
            held.push(Ok(chunk));
        }
        let stream = ByteStream { chunks: held };
        assert(stream@ =~= stream_of(all));
        stream
    }

    /// A stream that holds the given chunks, errors among them.
    pub fn from_results(chunks: Vec<Result<Vec<u8>, ServerFnError>>) -> (stream: Self)
        ensures
            stream@ == chunks@.map_values(|chunk: Result<Vec<u8>, ServerFnError>| outcome(chunk)),
    {
        ByteStream { chunks }
    }

    /// Pulls the next chunk. A stream that is exhausted gives `None` and
    /// stays exhausted.
    pub fn next(&mut self) -> (chunk: Option<Result<Vec<u8>, ServerFnError>>)
        ensures
            old(self)@.len() == 0 ==> chunk is None && final(self)@ == old(self)@,
            old(self)@.len() > 0 ==> chunk is Some && outcome(chunk->0) == old(self)@[0]
                && final(self)@ == old(self)@.drop_first(),
    {
        if self.chunks.len() == 0 {
            None
        } else {
            let chunk = self.chunks.remove(0);
            assert(self@ =~= old(self)@.drop_first());
            Some(chunk)
        }
    }

    /// All the chunks that are left, in order.
    pub fn into_inner(self) -> (chunks: Vec<Result<Vec<u8>, ServerFnError>>)
        ensures
            chunks@.map_values(|chunk: Result<Vec<u8>, ServerFnError>| outcome(chunk)) == self@,
    {
        self.chunks
    }
}

/// The chunks of a stream in one piece, for sending: all of them if none is
/// an error, else the first error among them.
pub open spec fn collected(items: Seq<Result<Seq<u8>, Failure>>) -> Result<Seq<Seq<u8>>, Failure>
    decreases items.len(),
{
    if items.len() == 0 {
        Ok(Seq::empty())
    } else {
        match items[0] {
            Err(error) => Err(error),
            Ok(chunk) => match collected(items.drop_first()) {
                Ok(rest) => Ok(seq![chunk] + rest),
                Err(error) => Err(error),
            },
        }
    }
}

/// A stream without an error gives all its chunks.
pub proof fn lemma_collected_stream_of(chunks: Seq<Seq<u8>>)
    ensures
        collected(stream_of(chunks)) == Ok::<Seq<Seq<u8>>, Failure>(chunks),
    decreases chunks.len(),
{
    if chunks.len() == 0 {
        assert(chunks =~= Seq::<Seq<u8>>::empty());
    } else {
        lemma_collected_stream_of(chunks.drop_first());
        assert(stream_of(chunks).drop_first() =~= stream_of(chunks.drop_first()));
        assert(seq![chunks[0]] + chunks.drop_first() =~= chunks);
    }
}

/// Pulls every chunk of a stream, up to its first error.
fn collect(stream: ByteStream) -> (chunks: Result<Vec<Vec<u8>>, ServerFnError>)
    ensures
        match chunks {
            Ok(chunks) => collected(stream@) == Ok::<Seq<Seq<u8>>, Failure>(chunk_seq(chunks)),
            Err(error) => collected(stream@) == Err::<Seq<Seq<u8>>, Failure>(error@),
        },
{
    let mut left = stream;
    let mut done: Vec<Vec<u8>> = Vec::new();
    assert(chunk_seq(done) =~= Seq::<Seq<u8>>::empty());
    assert(forall|rest: Seq<Seq<u8>>| Seq::<Seq<u8>>::empty() + rest =~= rest);
    loop
        invariant
            collected(stream@) == match collected(left@) {
                Ok(rest) => Ok::<Seq<Seq<u8>>, Failure>(chunk_seq(done) + rest),
                Err(error) => Err::<Seq<Seq<u8>>, Failure>(error),
            },
        decreases left@.len(),
    {
        let ghost held = chunk_seq(done);
        match left.next() {
            None => {
                assert(chunk_seq(done) + Seq::<Seq<u8>>::empty() =~= chunk_seq(done));
                return Ok(done);
            },
            Some(Err(error)) => {
                return Err(error);
            },
            Some(Ok(chunk)) => {
                done.push(chunk);
                proof {
                    assert(chunk_seq(done) =~= held.push(chunk@));
                    match collected(left@) {
                        Ok(rest) => {
                            assert(held + (seq![chunk@] + rest) =~= held.push(chunk@) + rest);
                        },
                        Err(_) => {},
                    }
                }
            },
        }
    }
}

impl ByteStream {
    /// The response that sends these chunks, in their order, as a stream of
    /// bytes.
    pub open spec fn sent(chunks: Seq<Seq<u8>>) -> ResponseView {
        ResponseView::ok("application/octet-stream"@, chunks)
    }

    /// The response that sends the chunks of a stream, in their order: a
    /// stream that holds an error is not sent, and the error is the outcome.
    pub open spec fn response(items: Seq<Result<Seq<u8>, Failure>>) -> Result<ResponseView, Failure> {
        match collected(items) {
            Ok(chunks) => Ok(ByteStream::sent(chunks)),
            Err(error) => Err(error),
        }
    }
}

impl IntoRes<Streaming> for ByteStream {
    /// Builds the response whose body is the stream.
    fn into_res(self) -> (response: Result<Response, ServerFnError>)
        ensures
            outcome(response) == ByteStream::response(self@),
    {
        proof {
            Streaming::lemma_content_type();
        }
        match collect(self) {
            Ok(chunks) => Response::try_from_stream(Streaming::CONTENT_TYPE, chunks),
            Err(error) => Err(error),
        }
    }
}

impl FromRes<Streaming> for ByteStream {
    /// Hands the body of a response out as a stream of its chunks.
    fn from_res(res: Response) -> (stream: Result<Self, ServerFnError>)
        ensures
            outcome(stream) == Ok::<Seq<Result<Seq<u8>, Failure>>, Failure>(res@.stream()),
    {
        res.try_into_stream()
    }
}

/// What a chunk of bytes is as a chunk of text: the text that it encodes, or
/// a deserialization failure where it is not UTF-8. An error stays what it
/// is.
pub open spec fn text_chunk(chunk: Result<Seq<u8>, Failure>) -> Result<Seq<char>, Failure> {
    match chunk {
        Ok(bytes) => text_of(bytes),
        Err(error) => Err(error),
    }
}

/// What a chunk of text is as a chunk of bytes. An error stays what it is.
pub open spec fn byte_chunk(chunk: Result<Seq<char>, Failure>) -> Result<Seq<u8>, Failure> {
    match chunk {
        Ok(text) => Ok(encode_utf8(text)),
        Err(error) => Err(error),
    }
}

/// Reads one chunk of a byte stream as text.
pub fn decode_chunk(chunk: Result<Vec<u8>, ServerFnError>) -> (text: Result<String, ServerFnError>)
    ensures
        outcome(text) == text_chunk(outcome(chunk)),
{
    match chunk {
        Ok(bytes) => read_text(bytes),
        Err(error) => Err(error),
    }
}

/// Writes one chunk of a text stream as bytes.
pub fn encode_chunk(chunk: Result<String, ServerFnError>) -> (bytes: Result<Vec<u8>, ServerFnError>)
    ensures
        outcome(bytes) == byte_chunk(outcome(chunk)),
{
    match chunk {
        Ok(text) => Ok(text.as_str().as_bytes_vec()),
        Err(error) => Err(error),
    }
}

/// Chunks of text still to be read, the next one first. A chunk may be the
/// error that reading it ran into.
pub struct TextStream {
    chunks: Vec<Result<String, ServerFnError>>,
}

impl View for TextStream {
    type V = Seq<Result<Seq<char>, Failure>>;

    /// The chunks that are left, in the order in which they will be read.
    closed spec fn view(&self) -> Self::V {
        self.chunks@.map_values(|chunk: Result<String, ServerFnError>| outcome(chunk))
    }
}

impl TextStream {
    /// A stream that holds the given chunks, none of them an error.
    pub fn new(chunks: Vec<String>) -> (stream: Self)
        ensures
            stream@ == chunks@.map_values(|chunk: String| Ok::<Seq<char>, Failure>(chunk@)),
    {
        let mut chunks = chunks;
        let ghost all = chunks@;
        let mut held: Vec<Result<String, ServerFnError>> = Vec::new();
        while chunks.len() > 0
            invariant
                held.len() + chunks.len() == all.len(),
                forall|i: int|
                    0 <= i < chunks.len() ==> (#[trigger] chunks[i])@ == all[all.len() - chunks.len()
                        + i]@,
                forall|i: int|
                    0 <= i < held.len() ==> outcome(#[trigger] held[i]) == Ok::<Seq<char>, Failure>(
                        all[i]@,
                    ),
            decreases chunks.len(),
        {
            let chunk = chunks.remove(0);
            held.push(Ok(chunk));
        }
        let stream = TextStream { chunks: held };
        assert(stream@ =~= all.map_values(|chunk: String| Ok::<Seq<char>, Failure>(chunk@)));
        stream
    }

    /// A stream that holds the given chunks, errors among them.
    pub fn from_results(chunks: Vec<Result<String, ServerFnError>>) -> (stream: Self)
        ensures
            stream@ == chunks@.map_values(|chunk: Result<String, ServerFnError>| outcome(chunk)),
    {
        TextStream { chunks }
    }

    /// Pulls the next chunk. A stream that is exhausted gives `None` and
    /// stays exhausted.
    pub fn next(&mut self) -> (chunk: Option<Result<String, ServerFnError>>)
        ensures
            old(self)@.len() == 0 ==> chunk is None && final(self)@ == old(self)@,
            old(self)@.len() > 0 ==> chunk is Some && outcome(chunk->0) == old(self)@[0]
                && final(self)@ == old(self)@.drop_first(),
    {
        if self.chunks.len() == 0 {
            None
        } else {
            let chunk = self.chunks.remove(0);
            assert(self@ =~= old(self)@.drop_first());
            Some(chunk)
        }
    }

    /// All the chunks that are left, in order.
    pub fn into_inner(self) -> (chunks: Vec<Result<String, ServerFnError>>)
        ensures
            chunks@.map_values(|chunk: Result<String, ServerFnError>| outcome(chunk)) == self@,
    {
        self.chunks
    }

    /// The same stream with each chunk of text written as bytes.
    pub fn into_bytes(self) -> (stream: ByteStream)
        ensures
            stream@ == self@.map_values(|chunk: Result<Seq<char>, Failure>| byte_chunk(chunk)),
    {
        let mut texts = self;
        let ghost all = texts@;
        let mut held: Vec<Result<Vec<u8>, ServerFnError>> = Vec::new();
        loop
            invariant
                all == self@,
                held.len() + texts@.len() == all.len(),
                forall|i: int|
                    0 <= i < texts@.len() ==> #[trigger] texts@[i] == all[all.len() - texts@.len()
                        + i],
                forall|i: int|
                    0 <= i < held.len() ==> outcome(#[trigger] held[i]) == byte_chunk(all[i]),
            decreases texts@.len(),
        {
            match texts.next() {
                Some(chunk) => {
                    held.push(encode_chunk(chunk));
                },
                None => {
                    let stream = ByteStream::from_results(held);
                    assert(stream@ =~= all.map_values(
                        |chunk: Result<Seq<char>, Failure>| byte_chunk(chunk),
                    ));
                    return stream;
                },
            }
        }
    }

    /// The stream over the same chunks, each read as text.
    pub fn from_bytes(stream: ByteStream) -> (texts: Self)
        ensures
            texts@ == stream@.map_values(|chunk: Result<Seq<u8>, Failure>| text_chunk(chunk)),
    {
        let mut left = stream;
        let ghost all = stream@;
        let mut held: Vec<Result<String, ServerFnError>> = Vec::new();
        loop
            invariant
                all == stream@,
                held.len() + left@.len() == all.len(),
                forall|i: int|
                    0 <= i < left@.len() ==> #[trigger] left@[i] == all[all.len() - left@.len()
                        + i],
                forall|i: int|
                    0 <= i < held.len() ==> outcome(#[trigger] held[i]) == text_chunk(all[i]),
            decreases left@.len(),
        {
            match left.next() {
                Some(chunk) => {
                    held.push(decode_chunk(chunk));
                },
                None => {
                    let texts = TextStream::from_results(held);
                    assert(texts@ =~= all.map_values(
                        |chunk: Result<Seq<u8>, Failure>| text_chunk(chunk),
                    ));
                    return texts;
                },
            }
        }
    }

    /// The response that sends these texts, in their order, as a stream of
    /// text: each text is a chunk of the bytes that encode it.
    pub open spec fn sent(texts: Seq<Seq<char>>) -> ResponseView {
        ResponseView::ok("text/plain"@, texts.map_values(|text: Seq<char>| encode_utf8(text)))
    }

    /// The response that sends the chunks of a stream of text, in their
    /// order: a stream that holds an error is not sent, and the error is the
    /// outcome.
    pub open spec fn response(items: Seq<Result<Seq<char>, Failure>>) -> Result<
        ResponseView,
        Failure,
    > {
        match collected(items.map_values(|chunk: Result<Seq<char>, Failure>| byte_chunk(chunk))) {
            Ok(chunks) => Ok(ResponseView::ok("text/plain"@, chunks)),
            Err(error) => Err(error),
        }
    }

    /// The stream of text that a response holds.
    pub open spec fn stream(res: ResponseView) -> Seq<Result<Seq<char>, Failure>> {
        res.stream().map_values(|chunk: Result<Seq<u8>, Failure>| text_chunk(chunk))
    }
}

impl IntoRes<StreamingText> for TextStream {
    /// Builds the response whose body is the stream.
    fn into_res(self) -> (response: Result<Response, ServerFnError>)
        ensures
            outcome(response) == TextStream::response(self@),
    {
        proof {
            StreamingText::lemma_content_type();
        }
        match collect(self.into_bytes()) {
            Ok(chunks) => Response::try_from_stream(StreamingText::CONTENT_TYPE, chunks),
            Err(error) => Err(error),
        }
    }
}

impl FromRes<StreamingText> for TextStream {
    /// Hands the body of a response out as a stream of text, chunk by chunk.
    /// A chunk that is not UTF-8 is a deserialization failure at its place
    /// in the stream; the chunks before and after it are not touched.
    fn from_res(res: Response) -> (stream: Result<Self, ServerFnError>)
        ensures
            outcome(stream) == Ok::<Seq<Result<Seq<char>, Failure>>, Failure>(
                TextStream::stream(res@),
            ),
    {
        match res.try_into_stream() {
            Ok(stream) => Ok(TextStream::from_bytes(stream)),
            Err(error) => Err(error),
        }
    }
}

/// A stream of text arrives as it was sent: the chunks that the client
/// reads out of the response are the chunks that the server put in, as many
/// and in the same order.
pub proof fn lemma_text_stream_round_trip(texts: Seq<Seq<char>>)
    ensures
        TextStream::response(texts.map_values(|text: Seq<char>| Ok::<Seq<char>, Failure>(text)))
            == Ok::<ResponseView, Failure>(TextStream::sent(texts)),
        TextStream::sent(texts).built() == Ok::<ResponseView, Failure>(TextStream::sent(texts)),
        TextStream::stream(TextStream::sent(texts)) == texts.map_values(
            |text: Seq<char>| Ok::<Seq<char>, Failure>(text),
        ),
{
    let sent = texts.map_values(|text: Seq<char>| Ok::<Seq<char>, Failure>(text));
    let bytes = texts.map_values(|text: Seq<char>| encode_utf8(text));
    assert(sent.map_values(|chunk: Result<Seq<char>, Failure>| byte_chunk(chunk)) =~= stream_of(
        bytes,
    ));
    lemma_collected_stream_of(bytes);
    StreamingText::lemma_content_type();
    let res = ResponseView::ok("text/plain"@, bytes);
    assert forall|i: int| 0 <= i < texts.len() implies #[trigger] TextStream::stream(res)[i]
        == sent[i] by {
        encode_utf8_valid_utf8(texts[i]);
        encode_utf8_decode_utf8(texts[i]);
    }
    assert(TextStream::stream(res) =~= sent);
}

/// A stream of bytes arrives as it was sent, chunk for chunk.
pub proof fn lemma_byte_stream_round_trip(chunks: Seq<Seq<u8>>)
    ensures
        ByteStream::response(stream_of(chunks)) == Ok::<ResponseView, Failure>(
            ByteStream::sent(chunks),
        ),
        ByteStream::sent(chunks).built() == Ok::<ResponseView, Failure>(ByteStream::sent(chunks)),
        ByteStream::sent(chunks).stream() == stream_of(chunks),
{
    lemma_collected_stream_of(chunks);
    Streaming::lemma_content_type();
}

} // verus!
