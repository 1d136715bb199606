//! CBOR in the body of a `POST` request and of a response.
//!
//! The contract is that of JSON, on a binary body: the caller runs the
//! serializer, and this module frames the bytes and tells the failures apart.

use super::Encoding;
use crate::error::{outcome, Failure, ServerFnError};
use crate::request::{Request, RequestView};
use crate::response::{Response, ResponseView};
use crate::wire::lemma_joined_single;
use crate::wire::is_header_value;
use vstd::prelude::*;

verus! {

/// Arguments and results as CBOR.
pub struct Cbor;

impl Encoding for Cbor {
    const CONTENT_TYPE: &'static str = "application/cbor";
}

impl Cbor {
    /// The content type of the format is this text, and it may stand in a
    /// header, so that a request or a response of the format can always be
    /// built.
    pub proof fn lemma_content_type()
        ensures
            Cbor::CONTENT_TYPE@ == "application/cbor"@,
            is_header_value(Cbor::CONTENT_TYPE@),
    {
        reveal_strlit("application/cbor");
    }
}

impl Cbor {
    /// The request that carries CBOR bytes to the callable at `path`.
    pub open spec fn request(path: Seq<char>, bytes: Seq<u8>) -> RequestView {
        RequestView::post(path, "application/cbor"@, bytes)
    }

    /// The response that carries CBOR bytes.
    pub open spec fn response(bytes: Seq<u8>) -> ResponseView {
        ResponseView::ok("application/cbor"@, seq![bytes])
    }

    /// Builds the request for arguments that were serialized as CBOR.
    ///
    /// Arguments that could not be serialized are a serialization failure,
    /// and no request is built. Otherwise the request is a `POST` to `path`
    /// with the bytes as its body.
    pub fn into_req(encoded: Result<Vec<u8>, String>, path: &str) -> (request: Result<
        Request,
        ServerFnError,
    >)
        ensures
            outcome(request) == match encoded {
                Ok(bytes) => Ok(Cbor::request(path@, bytes@)),
                Err(message) => Err(Failure::Serialization(message@)),
            },
    {
        proof {
            Cbor::lemma_content_type();
        }
        match encoded {
            Ok(bytes) => Request::try_new_post_bytes(path, Cbor::CONTENT_TYPE, bytes),
            Err(message) => Err(ServerFnError::Serialization(message)),
        }
    }

    /// Reads the CBOR bytes of the arguments out of a request.
    pub fn from_req(req: Request) -> (bytes: Result<Vec<u8>, ServerFnError>)
        ensures
            outcome(bytes) == req@.bytes(),
    {
        req.try_into_bytes()
    }

    /// Builds the response for a result that was serialized as CBOR.
    ///
    /// A result that could not be serialized is a serialization failure, and
    /// no response is built.
    pub fn into_res(encoded: Result<Vec<u8>, String>) -> (response: Result<Response, ServerFnError>)
        ensures
            outcome(response) == match encoded {
                Ok(bytes) => Ok(Cbor::response(bytes@)),
                Err(message) => Err(Failure::Serialization(message@)),
            },
    {
        proof {
            Cbor::lemma_content_type();
        }
        match encoded {
            Ok(bytes) => Response::try_from_bytes(Cbor::CONTENT_TYPE, bytes),
            Err(message) => Err(ServerFnError::Serialization(message)),
        }
    }

    /// Reads the CBOR bytes of the result out of a response.
    pub fn from_res(res: Response) -> (bytes: Result<Vec<u8>, ServerFnError>)
        ensures
            outcome(bytes) == Ok::<Seq<u8>, Failure>(res@.bytes()),
    {
        res.try_into_bytes()
    }

    /// What was put into a request is what is read out of it: the bytes of
    /// the arguments arrive unchanged, whatever the bytes and the path are.
    pub proof fn lemma_request_round_trip(path: Seq<char>, bytes: Seq<u8>)
        ensures
            Cbor::request(path, bytes).built() == Ok::<RequestView, Failure>(
                Cbor::request(path, bytes),
            ),
            Cbor::request(path, bytes).bytes() == Ok::<Seq<u8>, Failure>(bytes),
    {
        Cbor::lemma_content_type();
        lemma_joined_single(bytes);
    }

    /// What was put into a response is what is read out of it: the bytes of
    /// the result arrive unchanged.
    pub proof fn lemma_response_round_trip(bytes: Seq<u8>)
        ensures
            Cbor::response(bytes).built() == Ok::<ResponseView, Failure>(
                Cbor::response(bytes),
            ),
            Cbor::response(bytes).bytes() == bytes,
    {
        Cbor::lemma_content_type();
        lemma_joined_single(bytes);
    }
}

} // verus!
