//! The one error type that every operation of the client reports.

use crate::json::Json;
use cookie::ParseError as CookieError;
use serde_json::Error as ParseError;
use vstd::prelude::*;
use vstd::std_specs::convert::FromSpecImpl;

verus! {

/// The reason the `cookie` crate gives for refusing a `Set-Cookie` header.
#[verifier::external_type_specification]
#[verifier::external_body]
pub struct ExCookieError(CookieError);

/// Why a call failed.
#[derive(Debug)]
pub enum Error {
    /// The server answered with well-formed JSON that reports a failure: an
    /// `error` field, or a login result other than success. Holds the whole
    /// answer.
    Json(Json),
    /// The body of the answer is not JSON.
    Parse(ParseError),
    /// A `Set-Cookie` header of the answer is malformed.
    Cookie(CookieError),
    /// The request could not be sent or the answer could not be read. Holds
    /// the transport's description.
    Transport(String),
    /// The answer's HTTP status is not a success. Holds the status line.
    Status(String),
    /// The answer is JSON of an unexpected shape. Holds the path of the
    /// field that is missing or of the wrong kind, and the whole answer.
    Shape(String, Json),
}

/// The five classes of failure.
#[derive(Debug, Clone, Copy, PartialEq, Eq, Structural)]
pub enum ErrorKind {
    Transport,
    HttpStatus,
    Parse,
    Cookie,
    Api,
}

impl Error {
    /// The class of this failure.
    pub open spec fn spec_kind(&self) -> ErrorKind {
        match self {
            Error::Json(_) => ErrorKind::Api,
            Error::Parse(_) => ErrorKind::Parse,
            Error::Cookie(_) => ErrorKind::Cookie,
            Error::Transport(_) => ErrorKind::Transport,
            Error::Status(_) => ErrorKind::HttpStatus,
            Error::Shape(_, _) => ErrorKind::Parse,
        }
    }

    /// Whether a failure of this class is tried again instead of reported.
    pub open spec fn spec_is_transient(&self) -> bool {
        self.spec_kind() == ErrorKind::Transport || self.spec_kind() == ErrorKind::HttpStatus
    }

    /// The class of this failure.
    #[verifier::when_used_as_spec(spec_kind)]
    pub fn kind(&self) -> (kind: ErrorKind)
        ensures
            kind == self.spec_kind(),
    {
        match self {
            Error::Json(_) => ErrorKind::Api,
            Error::Parse(_) => ErrorKind::Parse,
            Error::Cookie(_) => ErrorKind::Cookie,
            Error::Transport(_) => ErrorKind::Transport,
            Error::Status(_) => ErrorKind::HttpStatus,
            Error::Shape(_, _) => ErrorKind::Parse,
        }
    }

    /// Whether a failure of this class is tried again instead of reported:
    /// true of transport failures and of HTTP statuses, false of all others.
    #[verifier::when_used_as_spec(spec_is_transient)]
    pub fn is_transient(&self) -> (transient: bool)
        ensures
            transient == self.spec_is_transient(),
    {
        match self {
            Error::Transport(_) => true,
            Error::Status(_) => true,
            _ => false,
        }
    }
}

impl From<Json> for Error {
    fn from(err: Json) -> (e: Error) {
        Error::Json(err)
    }
}

impl FromSpecImpl<Json> for Error {
    open spec fn obeys_from_spec() -> bool {
        true
    }

    open spec fn from_spec(err: Json) -> Error {
        Error::Json(err)
    }
}

impl From<ParseError> for Error {
    fn from(err: ParseError) -> (e: Error) {
        Error::Parse(err)
    }
}

impl FromSpecImpl<ParseError> for Error {
    open spec fn obeys_from_spec() -> bool {
        true
    }

    open spec fn from_spec(err: ParseError) -> Error {
        Error::Parse(err)
    }
}

impl From<CookieError> for Error {
    fn from(err: CookieError) -> (e: Error) {
        Error::Cookie(err)
    }
}

impl FromSpecImpl<CookieError> for Error {
    open spec fn obeys_from_spec() -> bool {
        true
    }

    open spec fn from_spec(err: CookieError) -> Error {
        Error::Cookie(err)
    }
}

impl From<String> for Error {
    fn from(err: String) -> (e: Error) {
        Error::Status(err)
    }
}

impl FromSpecImpl<String> for Error {
    open spec fn obeys_from_spec() -> bool {
        true
    }

    open spec fn from_spec(err: String) -> Error {
        Error::Status(err)
    }
}

} // verus!
