use vstd::prelude::*;

verus! {

/// The standard reason phrase of a status code, as the `http` crate knows it.
pub uninterp spec fn canonical_reason_of(code: u16) -> Option<Seq<char>>;

/// The character view of an optional string.
pub open spec fn opt_view(s: Option<String>) -> Option<Seq<char>> {
    match s {
        Some(t) => Some(t@),
        None => None,
    }
}

/// Relies on `http::StatusCode::from_u16` and `http::StatusCode::canonical_reason`:
/// the reason phrase of the code, none for a code that `from_u16` refuses
/// (below 100 or from 600 on).
#[verifier::external_body]
pub(crate) fn canonical_reason(code: u16) -> (r: Option<String>)
    ensures
        opt_view(r) == canonical_reason_of(code),
        !(100 <= code < 600) ==> r is None,
{
    match http::StatusCode::from_u16(code) {
        Ok(status) => status.canonical_reason().map(|p| p.to_string()),
        Err(_) => None,
    }
}

} // verus!
