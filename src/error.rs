use vstd::prelude::*;
use vstd::string::*;
use crate::message::{Response, INTERNAL_SERVER_ERROR, BAD_REQUEST};
use crate::status::{canonical_reason, canonical_reason_of, opt_view};

verus! {

/// The error a middleware may end the chain with.
#[derive(Debug)]
pub enum HttpError {
    /// A bare status; its body is the status's reason phrase.
    Status(u16),
    /// A status with an explicit body.
    StatusAndReason(u16, String),
    /// A response built in full by the middleware.
    Response(Response),
    /// A failure of the transport or of an encoder, described in words; it is
    /// answered as an internal server error and its text is not sent.
    Underlying(String),
}

/// The body that answers a bare status: its reason phrase, or nothing.
pub open spec fn reason_body(reason: Option<Seq<char>>) -> Seq<char> {
    match reason {
        Some(r) => r,
        None => Seq::empty(),
    }
}

/// The response that a bare status turns into, given its reason phrase.
pub open spec fn status_response_spec(r: Response, status: u16, reason: Option<Seq<char>>) -> bool {
    &&& r.status == status
    &&& r.headers@.len() == 0
    &&& r.body@ == reason_body(reason)
}

/// The response an error turns into.
pub open spec fn error_response_spec(e: HttpError, r: Response) -> bool {
    match e {
        HttpError::Status(s) => status_response_spec(r, s, canonical_reason_of(s)),
        HttpError::StatusAndReason(s, body) => r.status == s && r.headers@.len() == 0
            && r.body@ == body@,
        HttpError::Response(res) => r == res,
        HttpError::Underlying(_) => status_response_spec(
            r,
            INTERNAL_SERVER_ERROR,
            canonical_reason_of(INTERNAL_SERVER_ERROR),
        ),
    }
}

/// The response for a bare status whose reason phrase is `reason`.
pub fn status_response(status: u16, reason: Option<String>) -> (r: Response)
    ensures
        r.status == status,
        r.headers@.len() == 0,
        r.body@ == reason_body(opt_view(reason)),
{
    match reason {
        Some(text) => Response { status, headers: Vec::new(), body: text },
        None => Response::with_status(status),
    }
}

impl HttpError {
    /// The response that answers this error.
    pub fn into_http_response(self) -> (r: Response)
        ensures
            error_response_spec(self, r),
    {
        match self {
            HttpError::Status(status) => status_response(status, canonical_reason(status)),
            HttpError::StatusAndReason(status, reason) => {
                Response { status, headers: Vec::new(), body: reason }
            },
            HttpError::Response(res) => res,
            HttpError::Underlying(_) => {
                status_response(INTERNAL_SERVER_ERROR, canonical_reason(INTERNAL_SERVER_ERROR))
            },
        }
    }
}

impl From<u16> for HttpError {
    fn from(status: u16) -> (e: HttpError) {
        HttpError::Status(status)
    }
}

impl vstd::std_specs::convert::FromSpecImpl<u16> for HttpError {
    open spec fn obeys_from_spec() -> bool {
        true
    }

    open spec fn from_spec(status: u16) -> HttpError {
        HttpError::Status(status)
    }
}

impl From<Response> for HttpError {
    fn from(res: Response) -> (e: HttpError) {
        HttpError::Response(res)
    }
}

impl vstd::std_specs::convert::FromSpecImpl<Response> for HttpError {
    open spec fn obeys_from_spec() -> bool {
        true
    }

    open spec fn from_spec(res: Response) -> HttpError {
        HttpError::Response(res)
    }
}

#[verifier::external_type_specification]
#[verifier::external_body]
pub struct ExJsonError(serde_json::Error);

/// A body that could not be encoded is the client's fault: 400.
impl From<serde_json::Error> for HttpError {
    fn from(err: serde_json::Error) -> (e: HttpError) {
        HttpError::Status(BAD_REQUEST)
    }
}

impl vstd::std_specs::convert::FromSpecImpl<serde_json::Error> for HttpError {
    open spec fn obeys_from_spec() -> bool {
        true
    }

    open spec fn from_spec(err: serde_json::Error) -> HttpError {
        HttpError::Status(BAD_REQUEST)
    }
}

} // verus!
