//! One physical exchange with the server, as plain data: the request that
//! goes out, the reply that comes back, and what a reply amounts to.
//!
//! Nothing here touches the network. A transport sends an [`Outgoing`] and
//! hands back a [`Reply`].

use crate::cookies::well_formed;
use crate::error::Error;
use crate::json::{parsed_document, Json, JsonValue};
use crate::text::lines;
use vstd::prelude::*;

verus! {

/// The HTTP method of a request.
#[derive(Debug, Clone, Copy, PartialEq, Eq, Structural)]
pub enum Method {
    Get,
    Post,
}

/// How the arguments of a call travel. Exactly one applies to a call.
#[derive(Debug, Clone, Copy, PartialEq, Eq, Structural)]
pub enum Encoding {
    /// In the query string of a GET.
    Query,
    /// As the form body of a POST.
    Form,
    /// As the text parts of a multipart POST.
    Multipart,
}

impl Encoding {
    /// The method that goes with this encoding: GET for a query string,
    /// POST for a body.
    pub open spec fn spec_method(self) -> Method {
        match self {
            Encoding::Query => Method::Get,
            Encoding::Form => Method::Post,
            Encoding::Multipart => Method::Post,
        }
    }

    /// The method that goes with this encoding.
    #[verifier::when_used_as_spec(spec_method)]
    pub fn method(self) -> (method: Method)
        ensures
            method == self.spec_method(),
    {
        match self {
            Encoding::Query => Method::Get,
            Encoding::Form => Method::Post,
            Encoding::Multipart => Method::Post,
        }
    }
}

/// A request, ready for the transport.
#[derive(Debug)]
pub struct Outgoing {
    pub method: Method,
    /// The endpoint.
    pub url: String,
    /// The value of the `User-Agent` header.
    pub user_agent: String,
    /// The value of the `Cookie` header.
    pub cookie: String,
    pub encoding: Encoding,
    /// The arguments, each name once.
    pub args: Vec<(String, String)>,
}

/// What came back for one request.
#[derive(Debug)]
pub struct Reply {
    /// The HTTP status code.
    pub status: u16,
    /// The status as the transport prints it, for error reports.
    pub status_line: String,
    /// The values of the `Set-Cookie` headers, in the order of the reply.
    pub set_cookies: Vec<String>,
    /// The body.
    pub body: String,
}

/// Whether an HTTP status code reports success.
pub open spec fn is_success(status: u16) -> bool {
    200 <= status < 300
}

/// Whether a decoded answer reports a failure of the call: it has an
/// `error` field at its top.
pub open spec fn reports_failure(answer: JsonValue) -> bool {
    answer.field("error"@) is Some
}

/// What a reply amounts to.
pub enum Verdict {
    /// A `Set-Cookie` header cannot be read.
    BadCookie,
    /// The status is not a success.
    Refused,
    /// The body is not JSON.
    BadBody,
    /// The body is JSON that reports a failure.
    Failure(JsonValue),
    /// The body is JSON that reports none.
    Success(JsonValue),
}

impl Reply {
    /// The texts of the `Set-Cookie` headers.
    pub open spec fn cookie_texts(&self) -> Seq<Seq<char>> {
        lines(self.set_cookies@)
    }

    /// What this reply amounts to. The headers are looked at first, then
    /// the status, then the body.
    pub open spec fn verdict(&self) -> Verdict {
        if !well_formed(self.cookie_texts()) {
            Verdict::BadCookie
        } else if !is_success(self.status) {
            Verdict::Refused
        } else {
            match parsed_document(self.body@) {
                None => Verdict::BadBody,
                Some(answer) => if reports_failure(answer) {
                    Verdict::Failure(answer)
                } else {
                    Verdict::Success(answer)
                },
            }
        }
    }
}

/// Sorts a decoded answer into success and failure: an answer with an
/// `error` field at its top is a failure of the call, whatever the HTTP
/// status was, and is handed back whole inside the error.
pub fn envelope(answer: Json) -> (outcome: Result<Json, Error>)
    ensures
        match outcome {
            Ok(json) => !reports_failure(answer@) && json == answer,
            Err(e) => reports_failure(answer@) && e == Error::Json(answer),
        },
{
    let failed = answer.get("error").is_some();
    if failed {
        Err(Error::Json(answer))
    } else {
        Ok(answer)
    }
}

} // verus!
