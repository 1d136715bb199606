//! Remote calls of typed functions over an HTTP-like transport: the error
//! model, the wire formats, plain requests and responses, the contract of a
//! callable, and the registry that routes a request to its handler by path.

pub mod callable;
pub mod client;
pub mod codec;
pub mod error;
pub mod registry;
pub mod request;
pub mod response;
pub mod wire;

pub use callable::{
    execute_on_server, finish_on_client, finish_on_server, respond, run_on_client, run_on_server,
    ServerFn,
};
pub use client::Client;
pub use codec::{Encoding, FromReq, FromRes, IntoReq, IntoRes};
pub use error::{ServerFnError, UnitDisplay, ViaError, WrapError};
pub use registry::{handle_server_fn, not_found, register_explicit, Registry, ServerFnTraitObj};
pub use request::{Body, Method, Request};
pub use response::Response;
pub use wire::FormData;
