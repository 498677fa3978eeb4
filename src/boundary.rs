use vstd::prelude::*;
use crate::error::{HttpError, error_response_spec};
use crate::message::{Request, Response, NOT_FOUND, INTERNAL_SERVER_ERROR};
use crate::outcome::Outcome;

verus! {

/// An empty response with status `code`.
pub open spec fn bare(r: Response, code: u16) -> bool {
    r.status == code && r.headers@.len() == 0 && r.body@.len() == 0
}

/// The response that answers a request whose chain ended as `o`.
pub open spec fn answers<S>(o: Outcome<S>, r: Response) -> bool {
    match o {
        Outcome::Terminate(res) => r == res,
        Outcome::Failed(e) => error_response_spec(e, r),
        Outcome::Continue(..) => bare(r, NOT_FOUND),
    }
}

/// The fallback at the end of a chain when nothing else answers: an empty 404.
pub fn default_fallback<S>(req: Request, res: Response, state: S) -> (o: Outcome<S>)
    ensures
        o matches Outcome::Terminate(r) && bare(r, NOT_FOUND),
{
    let mut res = Response::new();
    res.status(NOT_FOUND);
    Outcome::Terminate(res)
}

/// Turns the outcome a chain ended with into the response sent back: the
/// response it ended with, the response of its error, or an empty 404 where
/// the request was handed on past the end.
pub fn respond<S>(outcome: Outcome<S>) -> (r: Response)
    ensures
        answers(outcome, r),
{
    match outcome {
        Outcome::Terminate(res) => res,
        Outcome::Failed(err) => err.into_http_response(),
        Outcome::Continue(..) => Response::with_status(NOT_FOUND),
    }
}

/// The response sent when a middleware panicked: an empty 500.
pub fn server_error() -> (r: Response)
    ensures
        bare(r, INTERNAL_SERVER_ERROR),
{
    Response::with_status(INTERNAL_SERVER_ERROR)
}

/// A response carrying a body encoded as JSON: the encoder's result is the
/// body, with a `content-type: application/json` header, or, where the
/// encoder failed, a 400 error.
pub fn json_response(res: Response, encoded: Result<String, serde_json::Error>) -> (r: Result<
    Response,
    HttpError,
>)
    ensures
        match encoded {
            Ok(body) => r matches Ok(out) && out.status == res.status && out.headers@.drop_last()
                == res.headers@ && out.headers@.len() == res.headers@.len() + 1
                && out.headers@.last().0@ == "content-type"@ && out.headers@.last().1@
                == "application/json"@ && out.body == body,
            Err(_) => r matches Err(HttpError::Status(code)) && code == crate::message::BAD_REQUEST,
        },
{
    match encoded {
        Ok(body) => {
            let mut res = res;
            res.header("content-type", "application/json");
            Ok(Response { status: res.status, headers: res.headers, body })
        },
        Err(e) => Err(HttpError::from(e)),
    }
}

/// A request that nothing in the chain answers gets an empty 404: whether the
/// default fallback ended the chain or a fallback handed the request on.
pub proof fn lemma_unanswered_is_not_found<S>(last: Outcome<S>, r: Response)
    requires
        last is Continue || (last matches Outcome::Terminate(f) && bare(f, NOT_FOUND)),
        answers(last, r),
    ensures
        bare(r, NOT_FOUND),
{
}

} // verus!
