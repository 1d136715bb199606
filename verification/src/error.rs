//! The one error type that every stage of a remote call reports through.

use vstd::prelude::*;

verus! {

/// Stands where a caller supplies no error type of its own.
#[derive(Debug)]
pub struct UnitDisplay(());

impl UnitDisplay {
    /// The only value of the type.
    pub fn new() -> (unit: Self) {
        UnitDisplay(())
    }

    /// The text shown for the unit error.
    pub open spec fn text() -> Seq<char> {
        "Unit Type Displayed"@
    }

    /// The text shown for the unit error, as a string.
    pub fn to_string(&self) -> (text: String)
        ensures
            text@ == Self::text(),
    {
        "Unit Type Displayed".to_owned()
    }
}

impl Clone for UnitDisplay {
    fn clone(&self) -> (copy: Self)
        ensures
            copy == *self,
    {
        UnitDisplay(())
    }
}

/// The failure of one stage of a remote call.
///
/// Every kind but the first carries a message for a human reader; the first
/// carries an error value of the caller's own type.
#[derive(Debug)]
pub enum ServerFnError<E = UnitDisplay> {
    /// An error of the caller's own, passed through unchanged.
    WrappedServerError(E),
    /// The function could not be registered.
    Registration(String),
    /// The client could not reach the server.
    Request(String),
    /// The server could not build a response.
    Response(String),
    /// The function itself failed on the server.
    ServerError(String),
    /// The result that the server sent could not be decoded.
    Deserialization(String),
    /// A value could not be encoded.
    Serialization(String),
    /// The arguments that the client sent could not be decoded.
    Args(String),
    /// An argument was not sent.
    MissingArg(String),
}

/// What a [`ServerFnError`] says: its kind, and its message as a sequence of
/// characters.
pub enum ErrorView<E> {
    WrappedServerError(E),
    Registration(Seq<char>),
    Request(Seq<char>),
    Response(Seq<char>),
    ServerError(Seq<char>),
    Deserialization(Seq<char>),
    Serialization(Seq<char>),
    Args(Seq<char>),
    MissingArg(Seq<char>),
}

impl<E> View for ServerFnError<E> {
    type V = ErrorView<E>;

    open spec fn view(&self) -> ErrorView<E> {
        match *self {
            ServerFnError::WrappedServerError(e) => ErrorView::WrappedServerError(e),
            ServerFnError::Registration(s) => ErrorView::Registration(s@),
            ServerFnError::Request(s) => ErrorView::Request(s@),
            ServerFnError::Response(s) => ErrorView::Response(s@),
            ServerFnError::ServerError(s) => ErrorView::ServerError(s@),
            ServerFnError::Deserialization(s) => ErrorView::Deserialization(s@),
            ServerFnError::Serialization(s) => ErrorView::Serialization(s@),
            ServerFnError::Args(s) => ErrorView::Args(s@),
            ServerFnError::MissingArg(s) => ErrorView::MissingArg(s@),
        }
    }
}

impl<E> ErrorView<E> {
    /// The words that introduce the message of each kind.
    pub open spec fn prefix(self) -> Seq<char> {
        match self {
            ErrorView::WrappedServerError(_) => Seq::empty(),
            ErrorView::Registration(_) => "error while trying to register the server function: "@,
            ErrorView::Request(_) => "error reaching server to call server function: "@,
            ErrorView::Response(_) => "error generating HTTP response: "@,
            ErrorView::ServerError(_) => "error running server function: "@,
            ErrorView::Deserialization(_) => "error deserializing server function results: "@,
            ErrorView::Serialization(_) => "error serializing server function arguments: "@,
            ErrorView::Args(_) => "error deserializing server function arguments: "@,
            ErrorView::MissingArg(_) => "missing argument "@,
        }
    }

    /// The message that the error carries; empty for a wrapped error.
    pub open spec fn detail(self) -> Seq<char> {
        match self {
            ErrorView::WrappedServerError(_) => Seq::empty(),
            ErrorView::Registration(s) => s,
            ErrorView::Request(s) => s,
            ErrorView::Response(s) => s,
            ErrorView::ServerError(s) => s,
            ErrorView::Deserialization(s) => s,
            ErrorView::Serialization(s) => s,
            ErrorView::Args(s) => s,
            ErrorView::MissingArg(s) => s,
        }
    }
}

impl ErrorView<UnitDisplay> {
    /// The text of the error: the words for its kind, then its message. A
    /// wrapped unit error has the text of the unit.
    pub open spec fn text(self) -> Seq<char> {
        match self {
            ErrorView::WrappedServerError(_) => UnitDisplay::text(),
            _ => self.prefix() + self.detail(),
        }
    }
}

impl<E> ServerFnError<E> {
    /// The wrapped error of the caller's own, if this is one.
    pub fn source(&self) -> (cause: Option<&E>)
        ensures
            cause == match *self {
                ServerFnError::WrappedServerError(e) => Some(&e),
                _ => None,
            },
    {
        match self {
            ServerFnError::WrappedServerError(e) => Some(e),
            _ => None,
        }
    }
}

impl ServerFnError<UnitDisplay> {
    /// The text of the error, as shown to a human reader.
    pub fn to_string(&self) -> (text: String)
        ensures
            text@ == self@.text(),
    {
        match self {
            ServerFnError::WrappedServerError(e) => e.to_string(),
            ServerFnError::Registration(s) => String::from_str(
                "error while trying to register the server function: ",
            ).concat(s.as_str()),
            ServerFnError::Request(s) => String::from_str(
                "error reaching server to call server function: ",
            ).concat(s.as_str()),
            ServerFnError::Response(s) => String::from_str("error generating HTTP response: ").concat(
                s.as_str(),
            ),
            ServerFnError::ServerError(s) => String::from_str(
                "error running server function: ",
            ).concat(s.as_str()),
            ServerFnError::Deserialization(s) => String::from_str(
                "error deserializing server function results: ",
            ).concat(s.as_str()),
            ServerFnError::Serialization(s) => String::from_str(
                "error serializing server function arguments: ",
            ).concat(s.as_str()),
            ServerFnError::Args(s) => String::from_str(
                "error deserializing server function arguments: ",
            ).concat(s.as_str()),
            ServerFnError::MissingArg(s) => String::from_str("missing argument ").concat(s.as_str()),
        }
    }
}

/// What an error of the library's own says, where the caller supplies no
/// error type.
pub type Failure = ErrorView<UnitDisplay>;

/// What a result says, with its value and its error each taken by its view.
pub open spec fn outcome<T: View>(result: Result<T, ServerFnError>) -> Result<T::V, Failure> {
    match result {
        Ok(value) => Ok(value@),
        Err(error) => Err(error@),
    }
}

impl<E: Clone> ServerFnError<E> {
    /// Whether `copy` is what cloning `self` may give: the same kind with the
    /// same message, or a wrapped error that is a clone of the wrapped error.
    pub open spec fn cloned_as(self, copy: Self) -> bool {
        match self {
            ServerFnError::WrappedServerError(e) => copy matches ServerFnError::WrappedServerError(c)
                && cloned(e, c),
            _ => copy@ == self@,
        }
    }
}

impl<E: Clone> Clone for ServerFnError<E> {
    fn clone(&self) -> (copy: Self)
        ensures
            self.cloned_as(copy),
    {
        match self {
            ServerFnError::WrappedServerError(e) => ServerFnError::WrappedServerError(e.clone()),
            ServerFnError::Registration(s) => ServerFnError::Registration(s.clone()),
            ServerFnError::Request(s) => ServerFnError::Request(s.clone()),
            ServerFnError::Response(s) => ServerFnError::Response(s.clone()),
            ServerFnError::ServerError(s) => ServerFnError::ServerError(s.clone()),
            ServerFnError::Deserialization(s) => ServerFnError::Deserialization(s.clone()),
            ServerFnError::Serialization(s) => ServerFnError::Serialization(s.clone()),
            ServerFnError::Args(s) => ServerFnError::Args(s.clone()),
            ServerFnError::MissingArg(s) => ServerFnError::MissingArg(s.clone()),
        }
    }
}

impl From<String> for ServerFnError<String> {
    /// A plain message becomes a wrapped error, so that `?` works on a
    /// function that fails with a `String`.
    fn from(err: String) -> (error: Self) {
        ServerFnError::WrappedServerError(err)
    }
}

impl vstd::std_specs::convert::FromSpecImpl<String> for ServerFnError<String> {
    open spec fn obeys_from_spec() -> bool {
        true
    }

    open spec fn from_spec(err: String) -> Self {
        ServerFnError::WrappedServerError(err)
    }
}

/// Holds a value on its way to becoming a [`ServerFnError`].
#[derive(Debug)]
pub struct WrapError<T>(pub T);

/// Turns what a [`WrapError`] holds into a [`ServerFnError`] over `E`.
pub trait ViaError<E> {
    /// The error that the held value becomes.
    fn into_server_error(&self) -> ServerFnError<E>;
}

/// An error of the caller's own is wrapped.
impl<E: Clone> ViaError<E> for WrapError<E> {
    fn into_server_error(&self) -> (error: ServerFnError<E>)
        ensures
            error matches ServerFnError::WrappedServerError(e) && cloned(self.0, e),
    {
        ServerFnError::WrappedServerError(self.0.clone())
    }
}

/// What is a [`ServerFnError`] already stays what it is, and is not wrapped
/// a second time.
impl<E: Clone> ViaError<E> for WrapError<ServerFnError<E>> {
    fn into_server_error(&self) -> (error: ServerFnError<E>)
        ensures
            self.0.cloned_as(error),
    {
        self.0.clone()
    }
}

} // verus!
