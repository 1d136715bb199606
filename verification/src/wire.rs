//! What travels between client and server: header values, body bytes and the
//! text that they encode.

use crate::error::{outcome, Failure, ServerFnError};
use vstd::prelude::*;
use vstd::utf8::{
    decode_utf8, encode_utf8, encode_utf8_decode_utf8, encode_utf8_valid_utf8, valid_utf8,
};

verus! {

/// Whether a character may stand in the value of an HTTP header: a tab, or
/// anything from the space upwards but the delete character.
pub open spec fn is_header_char(c: char) -> bool {
    (c as u32 >= 32 && c as u32 != 127) || c as u32 == 9
}

/// Whether a text may be the value of an HTTP header.
pub open spec fn is_header_value(value: Seq<char>) -> bool {
    forall|i: int| 0 <= i < value.len() ==> is_header_char(#[trigger] value[i])
}

/// The text of the error that an invalid header value is refused with.
pub open spec fn header_error_text() -> Seq<char> {
    "failed to parse header value"@
}

/// `http::HeaderValue::from_str`, kept for its verdict alone.
///
/// Trusted: the value is accepted exactly when each of its characters is a
/// tab or lies from the space upwards without being the delete character, and
/// a refusal is shown as the text "failed to parse header value".
#[verifier::external_body]
pub(crate) fn check_header_value(value: &str) -> (verdict: Result<(), String>)
    ensures
        verdict is Ok <==> is_header_value(value@),
        verdict matches Err(text) ==> text@ == header_error_text(),
{
    match http::HeaderValue::from_str(value) {
        Ok(_) => Ok(()),
        Err(e) => Err(e.to_string()),
    }
}

/// The text that `String::from_utf8` shows for bytes that are not UTF-8. It
/// names the place of the first fault, and depends on the bytes alone.
pub uninterp spec fn utf8_error_text(bytes: Seq<u8>) -> Seq<char>;

/// `String::from_utf8`, with its error shown as text.
///
/// Trusted: bytes that are valid UTF-8 give the text that they encode; any
/// others give the text of the standard library's error for them.
#[verifier::external_body]
pub(crate) fn string_from_utf8(bytes: Vec<u8>) -> (text: Result<String, String>)
    ensures
        match text {
            Ok(s) => valid_utf8(bytes@) && s@ == decode_utf8(bytes@),
            Err(e) => !valid_utf8(bytes@) && e@ == utf8_error_text(bytes@),
        },
{
    match String::from_utf8(bytes) {
        Ok(s) => Ok(s),
        Err(e) => Err(e.to_string()),
    }
}

/// The chunks of a body, each as the sequence of its bytes.
pub open spec fn chunk_seq(chunks: Vec<Vec<u8>>) -> Seq<Seq<u8>> {
    chunks@.map_values(|chunk: Vec<u8>| chunk@)
}

/// The bytes of a body, chunk after chunk.
pub open spec fn joined(chunks: Seq<Seq<u8>>) -> Seq<u8>
    decreases chunks.len(),
{
    if chunks.len() == 0 {
        Seq::empty()
    } else {
        joined(chunks.drop_last()) + chunks.last()
    }
}

/// A body of one chunk is that chunk.
pub proof fn lemma_joined_single(chunk: Seq<u8>)
    ensures
        joined(seq![chunk]) == chunk,
{
    let chunks = seq![chunk];
    assert(chunks.drop_last() =~= Seq::<Seq<u8>>::empty());
    assert(joined(chunks.drop_last()) =~= Seq::<u8>::empty());
    assert(joined(chunks) =~= chunk);
}

/// All the bytes of a body in one block.
pub fn join(chunks: &Vec<Vec<u8>>) -> (bytes: Vec<u8>)
    ensures
        bytes@ == joined(chunk_seq(*chunks)),
{
    let mut bytes: Vec<u8> = Vec::new();
    let mut i: usize = 0;
    while i < chunks.len()
        invariant
            i <= chunks.len(),
            bytes@ == joined(chunk_seq(*chunks).take(i as int)),
        decreases chunks.len() - i,
    {
        let chunk = &chunks[i];
        let mut j: usize = 0;
        let ghost before = bytes@;
        while j < chunk.len()
            invariant
                j <= chunk.len(),
                bytes@ == before + chunk@.take(j as int),
            decreases chunk.len() - j,
        {
            bytes.push(chunk[j]);
            j = j + 1;
            assert(chunk@.take(j as int) =~= chunk@.take(j - 1).push(chunk@[j - 1]));
        }
        assert(chunk@.take(j as int) =~= chunk@);
        proof {
            let all = chunk_seq(*chunks);
            assert(all.take(i + 1).drop_last() =~= all.take(i as int));
            assert(all.take(i + 1).last() == chunk@);
        }
        i = i + 1;
    }
    assert(chunk_seq(*chunks).take(i as int) =~= chunk_seq(*chunks));
    bytes
}

/// The text that a body of these bytes holds: what they decode to, or the
/// failure to decode them.
pub open spec fn text_of(bytes: Seq<u8>) -> Result<Seq<char>, Failure> {
    if valid_utf8(bytes) {
        Ok(decode_utf8(bytes))
    } else {
        Err(Failure::Deserialization(utf8_error_text(bytes)))
    }
}

/// Reads a body as text. Bytes that are not UTF-8 are a deserialization
/// failure.
pub fn read_text(bytes: Vec<u8>) -> (text: Result<String, ServerFnError>)
    ensures
        outcome(text) == text_of(bytes@),
{
    match string_from_utf8(bytes) {
        Ok(text) => Ok(text),
        Err(fault) => Err(ServerFnError::Deserialization(fault)),
    }
}

/// A text that is sent as one chunk is read back as it was: the bytes that
/// encode it are valid, and they decode to the same text.
pub proof fn lemma_text_in_one_chunk(text: Seq<char>)
    ensures
        joined(seq![encode_utf8(text)]) == encode_utf8(text),
        text_of(joined(seq![encode_utf8(text)])) == Ok::<Seq<char>, Failure>(text),
{
    lemma_joined_single(encode_utf8(text));
    encode_utf8_valid_utf8(text);
    encode_utf8_decode_utf8(text);
}

/// The stream that gives the chunks of a body one by one.
pub open spec fn stream_of(chunks: Seq<Seq<u8>>) -> Seq<Result<Seq<u8>, Failure>> {
    chunks.map_values(|chunk: Seq<u8>| Ok::<Seq<u8>, Failure>(chunk))
}

/// The fields of a form that the transport encodes when it sends the request:
/// each a name and the bytes of its value, in the order of submission.
#[derive(Clone, Debug, PartialEq, Eq)]
pub struct FormData {
    pub fields: Vec<(String, Vec<u8>)>,
}

impl View for FormData {
    type V = Seq<(Seq<char>, Seq<u8>)>;

    open spec fn view(&self) -> Self::V {
        self.fields@.map_values(|field: (String, Vec<u8>)| (field.0@, field.1@))
    }
}

impl FormData {
    /// A form without fields.
    pub fn new() -> (form: Self)
        ensures
            form@ == Seq::<(Seq<char>, Seq<u8>)>::empty(),
    {
        let form = FormData { fields: Vec::new() };
        assert(form@ =~= Seq::<(Seq<char>, Seq<u8>)>::empty());
        form
    }

    /// Adds a field after those that the form holds.
    pub fn append(&mut self, name: String, value: Vec<u8>)
        ensures
            final(self)@ == old(self)@.push((name@, value@)),
    {
        self.fields.push((name, value));
        assert(self@ =~= old(self)@.push((name@, value@)));
    }
}

} // verus!
