//! The side of a transport that sends a request and waits for the answer.

use crate::error::{Failure, ServerFnError};
use crate::request::Request;
use crate::response::Response;
use vstd::prelude::*;

verus! {

/// A transport as a client sees it.
///
/// What comes back depends on the network and on the server, so nothing is
/// promised of it: a failure to reach the server is reported as an error.
pub trait Client {
    /// Sends the request and gives what the server answered.
    fn send(req: Request) -> Result<Response, ServerFnError>;
}

/// What a transport came back with, as a stage of the call: a response is
/// handed on, and a failure to reach the server is a request failure with
/// the transport's message.
pub fn reached(answer: Result<Response, String>) -> (stage: Result<Response, ServerFnError>)
    ensures
        match answer {
            Ok(res) => stage == Ok::<Response, ServerFnError>(res),
            Err(message) => stage matches Err(error) && error@ == Failure::Request(message@),
        },
{
    match answer {
        Ok(res) => Ok(res),
        Err(message) => Err(ServerFnError::Request(message)),
    }
}

} // verus!
