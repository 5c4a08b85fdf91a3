use vstd::prelude::*;

use crate::error::{ErrorView, GeneratorError};

verus! {

/// The standard reason phrase of an HTTP status code, where it has one.
pub uninterp spec fn canonical_reason_of(code: u16) -> Option<Seq<char>>;

/// Relies on http's `StatusCode::from_u16` (re-exported by reqwest) to accept
/// the code, and on `StatusCode::canonical_reason` for its reason phrase.
#[verifier::external_body]
fn canonical_reason(code: u16) -> (r: Option<String>)
    ensures
        r.deep_view() == canonical_reason_of(code),
{
    match reqwest::StatusCode::from_u16(code) {
        Ok(status) => status.canonical_reason().map(|phrase| phrase.to_string()),
        Err(_) => None,
    }
}

/// A status in the 2xx range.
pub open spec fn is_success(status: u16) -> bool {
    200 <= status <= 299
}

/// The failure that a response status alone decides, if any. A 401 names the
/// credential, ahead of the generic failure of every other non-2xx status.
pub open spec fn status_failure(status: u16) -> Option<ErrorView> {
    if status == 401 {
        Some(ErrorView::InvalidCredential)
    } else if !is_success(status) {
        Some(ErrorView::HttpStatus { code: status, reason: canonical_reason_of(status) })
    } else {
        None
    }
}

/// What a decoded response body yields: the alias address, or a decode failure.
pub open spec fn body_outcome(decoded: Result<Seq<char>, Seq<char>>) -> Result<
    Seq<char>,
    ErrorView,
> {
    match decoded {
        Ok(email) => Ok(email),
        Err(text) => Err(ErrorView::Decode(text)),
    }
}

/// The result of one exchange with the provider, given the response status and
/// what decoding the body as `{"data": {"email": ..}}` gave. The body is only
/// consulted when the status does not already decide a failure.
pub open spec fn exchange_outcome(status: u16, decoded: Result<Seq<char>, Seq<char>>) -> Result<
    Seq<char>,
    ErrorView,
> {
    match status_failure(status) {
        Some(failure) => Err(failure),
        None => body_outcome(decoded),
    }
}

/// The mathematical content of a generation result.
pub open spec fn result_view(r: Result<String, GeneratorError>) -> Result<Seq<char>, ErrorView> {
    match r {
        Ok(email) => Ok(email@),
        Err(e) => Err(e@),
    }
}

/// The mathematical content of a decoded body: the address, or the decoder's message.
pub open spec fn decoded_view(d: Result<String, String>) -> Result<Seq<char>, Seq<char>> {
    match d {
        Ok(email) => Ok(email@),
        Err(text) => Err(text@),
    }
}

/// Decides from the response status whether the exchange has failed. `Ok`
/// means the body is to be decoded next.
pub fn check_status(status: u16) -> (r: Result<(), GeneratorError>)
    ensures
        r is Ok <==> status_failure(status) is None,
        r matches Err(e) ==> status_failure(status) == Some(e@),
{
    if status == 401 {
        Err(GeneratorError::InvalidCredential)
    } else if !(200 <= status && status <= 299) {
        Err(GeneratorError::HttpStatus { code: status, reason: canonical_reason(status) })
    } else {
        Ok(())
    }
}

/// Finishes the exchange from the decoded body of a success response: the
/// alias address, or the decode failure.
pub fn alias_from_decoded(decoded: Result<String, String>) -> (r: Result<String, GeneratorError>)
    ensures
        result_view(r) == body_outcome(decoded_view(decoded)),
{
    match decoded {
        Ok(email) => Ok(email),
        Err(text) => Err(GeneratorError::Decode(text)),
    }
}

} // verus!
