//! The wire formats and the four conversions that each of them offers.

pub mod cbor;
pub mod json;
pub mod multipart;
pub mod stream;
pub mod url;

pub use cbor::Cbor;
pub use json::Json;
pub use multipart::{MultipartData, MultipartFormData};
pub use stream::{ByteStream, Streaming, StreamingText, TextStream};
pub use url::{GetUrl, PostUrl};

use crate::error::{Failure, ServerFnError};
use crate::request::Request;
use crate::response::Response;
use vstd::prelude::*;

verus! {

/// A wire format: a marker type with the content type that it is sent under.
pub trait Encoding {
    /// The value of the `Content-Type` header for this format.
    const CONTENT_TYPE: &'static str;
}

/// Values that a server reads out of a request in the format `Enc`.
pub trait FromReq<Enc>: Sized {
    /// Reads the value out of the request.
    fn from_req(req: Request) -> Result<Self, ServerFnError>;
}

/// Values that a client puts into a request in the format `Enc`.
pub trait IntoReq<Enc> {
    /// Builds the request that carries the value to the callable at `path`.
    fn into_req(self, path: &str) -> Result<Request, ServerFnError>;
}

/// Values that a client reads out of a response in the format `Enc`.
pub trait FromRes<Enc>: Sized {
    /// Reads the value out of the response.
    fn from_res(res: Response) -> Result<Self, ServerFnError>;
}

/// Values that a server puts into a response in the format `Enc`.
pub trait IntoRes<Enc> {
    /// Builds the response that carries the value.
    fn into_res(self) -> Result<Response, ServerFnError>;
}

/// What a serializer gave, as a stage of the call: a value that could not be
/// encoded is a serialization failure with the serializer's message.
pub fn serialized<T>(encoded: Result<T, String>) -> (stage: Result<T, ServerFnError>)
    ensures
        match encoded {
            Ok(data) => stage == Ok::<T, ServerFnError>(data),
            Err(message) => stage matches Err(error) && error@ == Failure::Serialization(
                message@,
            ),
        },
{
    match encoded {
        Ok(data) => Ok(data),
        Err(message) => Err(ServerFnError::Serialization(message)),
    }
}

/// What a deserializer made of the arguments of a request: arguments that
/// could not be decoded are an argument failure with the deserializer's
/// message.
pub fn arguments<T>(decoded: Result<T, String>) -> (stage: Result<T, ServerFnError>)
    ensures
        match decoded {
            Ok(value) => stage == Ok::<T, ServerFnError>(value),
            Err(message) => stage matches Err(error) && error@ == Failure::Args(message@),
        },
{
    match decoded {
        Ok(value) => Ok(value),
        Err(message) => Err(ServerFnError::Args(message)),
    }
}

/// What a deserializer made of the result in a response: a result that
/// could not be decoded is a deserialization failure with the deserializer's
/// message.
pub fn results<T>(decoded: Result<T, String>) -> (stage: Result<T, ServerFnError>)
    ensures
        match decoded {
            Ok(value) => stage == Ok::<T, ServerFnError>(value),
            Err(message) => stage matches Err(error) && error@ == Failure::Deserialization(
                message@,
            ),
        },
{
    match decoded {
        Ok(value) => Ok(value),
        Err(message) => Err(ServerFnError::Deserialization(message)),
    }
}

} // verus!
