//! The contract of a callable: a function that a client invokes by path and
//! a server runs.
//!
//! A callable type holds the arguments of one call. Its wire formats decide
//! how arguments and result travel; its body is the function itself. The
//! operations built from these are the same for every callable, and this
//! module states what they do whatever the formats and the body are.

use crate::client::Client;
use crate::codec::{Encoding, FromReq, FromRes, IntoReq, IntoRes};
use crate::error::{Failure, ServerFnError};
use crate::request::Request;
use crate::response::{lemma_plain_text, Response, ResponseView, STATUS_INTERNAL_SERVER_ERROR};
use vstd::prelude::*;

verus! {

/// One remotely callable function. A value of the type holds the arguments
/// of one call.
pub trait ServerFn: Sized + FromReq<Self::InputEncoding> + IntoReq<Self::InputEncoding> {
    /// The path under which the callable is registered and asked for.
    const PATH: &'static str;

    /// The transport that carries a call from the client.
    type Client: Client;

    /// What the function returns.
    type Output: IntoRes<Self::OutputEncoding> + FromRes<Self::OutputEncoding>;

    /// The wire format of the arguments.
    type InputEncoding: Encoding;

    /// The wire format of the result.
    type OutputEncoding: Encoding;

    /// The function itself, run on the arguments that `self` holds.
    fn run_body(self) -> Result<Self::Output, ServerFnError>;

    /// The path at which the callable is reached.
    fn url() -> (path: &'static str)
        ensures
            path@ == Self::PATH@,
    {
        Self::PATH
    }
}

/// Whether `response` answers for `outcome`: it is the response where there
/// is one, else the response that reports the error.
pub open spec fn answered(outcome: Result<Response, ServerFnError>, response: Response) -> bool {
    match outcome {
        Ok(done) => response == done,
        Err(error) => response@ == ResponseView::error(error@),
    }
}

/// Answers for the outcome of a call. No outcome is left without a
/// well-formed response.
pub fn respond(outcome: Result<Response, ServerFnError>) -> (response: Response)
    ensures
        answered(outcome, response),
{
    match outcome {
        Ok(done) => done,
        Err(error) => Response::error_response(error),
    }
}

/// Whether `outcome` may come of encoding what a body returned, in the
/// format `Enc`: a failed body stays what it is, and a result is encoded.
pub open spec fn encoded<O: IntoRes<Enc>, Enc>(
    ran: Result<O, ServerFnError>,
    outcome: Result<Response, ServerFnError>,
) -> bool {
    match ran {
        Ok(output) => call_ensures(<O as IntoRes<Enc>>::into_res, (output,), outcome),
        Err(error) => outcome == Err::<Response, ServerFnError>(error),
    }
}

/// Whether `outcome` may come of running the body of `T` on what decoding
/// gave, and encoding the result: arguments that could not be decoded end
/// the call with that error, before the body is run.
pub open spec fn run<T: ServerFn>(
    decoded: Result<T, ServerFnError>,
    outcome: Result<Response, ServerFnError>,
) -> bool {
    match decoded {
        Ok(this) => exists|ran: Result<T::Output, ServerFnError>| #[trigger]
            call_ensures(T::run_body, (this,), ran) && encoded::<T::Output, T::OutputEncoding>(
                ran,
                outcome,
            ),
        Err(error) => outcome == Err::<Response, ServerFnError>(error),
    }
}

/// Whether `outcome` may come of running `T` on the server for `req`: the
/// arguments are decoded, the body is run on them, its result is encoded, and
/// the first of these to fail decides.
pub open spec fn executed<T: ServerFn>(
    req: Request,
    outcome: Result<Response, ServerFnError>,
) -> bool {
    exists|decoded: Result<T, ServerFnError>| #[trigger]
        call_ensures(T::from_req, (req,), decoded) && run::<T>(decoded, outcome)
}

/// Whether `response` may be the answer of `T` on the server to `req`.
pub open spec fn served<T: ServerFn>(req: Request, response: Response) -> bool {
    exists|outcome: Result<Response, ServerFnError>| #[trigger]
        executed::<T>(req, outcome) && answered(outcome, response)
}

/// Decodes the arguments, runs the body and encodes its result. The first
/// step that fails ends the call with its error.
pub fn execute_on_server<T: ServerFn>(req: Request) -> (outcome: Result<Response, ServerFnError>)
    ensures
        executed::<T>(req, outcome),
{
    let decoded = T::from_req(req);
    let outcome = match decoded {
        Ok(this) => {
            let ran = this.run_body();
            let outcome = match ran {
                Ok(output) => output.into_res(),
                Err(error) => Err(error),
            };
            assert(call_ensures(T::run_body, (this,), ran) && encoded::<
                T::Output,
                T::OutputEncoding,
            >(ran, outcome));
            outcome
        },
        Err(error) => Err(error),
    };
    assert(call_ensures(T::from_req, (req,), decoded) && run::<T>(decoded, outcome));
    outcome
}

/// Runs the call on the server and always answers: with the encoded result,
/// or with the response that reports what failed.
pub fn run_on_server<T: ServerFn>(req: Request) -> (response: Response)
    ensures
        served::<T>(req, response),
{
    let outcome = execute_on_server::<T>(req);
    let response = respond(outcome);
    assert(executed::<T>(req, outcome) && answered(outcome, response));
    response
}

/// Encodes what a body returned, in the format `Enc`, and answers: with the
/// encoded result, or with the response that reports the failure of the body
/// or of the encoding.
pub fn finish_on_server<O: IntoRes<Enc>, Enc>(ran: Result<O, ServerFnError>) -> (response: Response)
    ensures
        exists|outcome: Result<Response, ServerFnError>| #[trigger]
            encoded::<O, Enc>(ran, outcome) && answered(outcome, response),
{
    let outcome = match ran {
        Ok(output) => output.into_res(),
        Err(error) => Err(error),
    };
    let response = respond(outcome);
    assert(encoded::<O, Enc>(ran, outcome) && answered(outcome, response));
    response
}

/// No failure is left unanswered: where the arguments of a request cannot
/// be decoded, the server still answers, with status 500 and, as the body,
/// the text of the error that decoding gave.
pub proof fn lemma_decode_failure_is_answered<T: ServerFn>(req: Request, response: Response)
    requires
        served::<T>(req, response),
        forall|decoded: Result<T, ServerFnError>| #[trigger]
            call_ensures(T::from_req, (req,), decoded) ==> decoded is Err,
    ensures
        response@.status == STATUS_INTERNAL_SERVER_ERROR,
        exists|error: ServerFnError| #[trigger]
            call_ensures(T::from_req, (req,), Err::<T, ServerFnError>(error)) && response@.text()
                == Ok::<Seq<char>, Failure>(error@.text()),
{
    let outcome = choose|outcome: Result<Response, ServerFnError>| #[trigger]
        executed::<T>(req, outcome) && answered(outcome, response);
    let decoded = choose|decoded: Result<T, ServerFnError>| #[trigger]
        call_ensures(T::from_req, (req,), decoded) && run::<T>(decoded, outcome);
    let error = decoded->Err_0;
    lemma_failure_is_answered::<T>(req, error, response);
    assert(call_ensures(T::from_req, (req,), Err::<T, ServerFnError>(error)));
}

/// Whatever a call on the server comes to, the answer is the encoded result
/// or the report of an error: a failure at any stage gives status 500 and the
/// text of the error.
pub proof fn lemma_failure_is_answered<T: ServerFn>(
    req: Request,
    error: ServerFnError,
    response: Response,
)
    requires
        executed::<T>(req, Err::<Response, ServerFnError>(error)),
        answered(Err::<Response, ServerFnError>(error), response),
    ensures
        served::<T>(req, response),
        response@.status == STATUS_INTERNAL_SERVER_ERROR,
        response@.text() == Ok::<Seq<char>, Failure>(error@.text()),
{
    lemma_plain_text(STATUS_INTERNAL_SERVER_ERROR, error@.text());
}

/// Whether `output` may come of what the transport answered, read in the
/// format `Enc`: a failure to reach the server stays what it is, and a
/// response is decoded.
pub open spec fn received<O: FromRes<Enc>, Enc>(
    answer: Result<Response, ServerFnError>,
    output: Result<O, ServerFnError>,
) -> bool {
    match answer {
        Ok(res) => call_ensures(<O as FromRes<Enc>>::from_res, (res,), output),
        Err(error) => output == Err::<O, ServerFnError>(error),
    }
}

/// Whether `output` may come of sending what encoding the arguments gave:
/// arguments that could not be encoded end the call with that error, and
/// nothing is sent.
pub open spec fn sent<T: ServerFn>(
    built: Result<Request, ServerFnError>,
    output: Result<T::Output, ServerFnError>,
) -> bool {
    match built {
        Ok(req) => exists|answer: Result<Response, ServerFnError>| #[trigger]
            call_ensures(<T::Client as Client>::send, (req,), answer) && received::<
                T::Output,
                T::OutputEncoding,
            >(answer, output),
        Err(error) => output == Err::<T::Output, ServerFnError>(error),
    }
}

/// Whether `output` may come of calling `T` from the client with the
/// arguments `this`: the request is built for the path of `T`, sent through
/// its transport, and the answer decoded; the first of these to fail decides.
pub open spec fn called<T: ServerFn>(this: T, output: Result<T::Output, ServerFnError>) -> bool {
    exists|built: Result<Request, ServerFnError>| #[trigger]
        call_ensures(T::into_req, (this, T::PATH), built) && sent::<T>(built, output)
}

/// What the caller gets for what the transport answered, read in the
/// format `Enc`.
pub fn finish_on_client<O: FromRes<Enc>, Enc>(answer: Result<Response, ServerFnError>) -> (output:
    Result<O, ServerFnError>)
    ensures
        received::<O, Enc>(answer, output),
{
    match answer {
        Ok(res) => O::from_res(res),
        Err(error) => Err(error),
    }
}

/// Runs the call from the client: encodes the arguments, sends the request
/// and decodes the answer. Every failure is handed to the caller.
pub fn run_on_client<T: ServerFn>(this: T) -> (output: Result<T::Output, ServerFnError>)
    ensures
        called::<T>(this, output),
{
    let built = this.into_req(T::PATH);
    let output = match built {
        Ok(req) => {
            let answer = T::Client::send(req);
            let output = finish_on_client::<T::Output, T::OutputEncoding>(answer);
            assert(call_ensures(<T::Client as Client>::send, (req,), answer) && received::<
                T::Output,
                T::OutputEncoding,
            >(answer, output));
            output
        },
        Err(error) => Err(error),
    };
    assert(call_ensures(T::into_req, (this, T::PATH), built) && sent::<T>(built, output));
    output
}

} // verus!
