//! How manager errors map onto the control surface: which status code an
//! error answers with, and which text is shown to the client. Only a call
//! of an unknown function is the client's mistake; everything else is an
//! internal failure and shows no detail.

use vstd::prelude::*;

use crate::manager::{spec_error_message, Error, LoaderError};
use crate::message::ErrorMessage;

verus! {

/// The status code a manager error answers with: not-found for an unknown
/// function, internal-error otherwise.
pub open spec fn spec_status_code(e: Error) -> u16 {
    match e {
        Error::CallError { source: LoaderError::UnknownFunction { .. } } => 404u16,
        _ => 500u16,
    }
}

/// The text a manager error shows the client: the unknown-function report,
/// the function's own failure report, or a bare internal-error notice.
pub open spec fn spec_client_error(e: Error) -> Seq<char> {
    match e {
        Error::CallError { source: LoaderError::UnknownFunction { .. } } => spec_error_message(e),
        Error::CallError { source: LoaderError::CallError { name, source } } =>
            source.spec_message(),
        _ => "Internal Server Error"@,
    }
}

/// The error envelope shown to the client for a manager error.
pub fn get_serializable(err: &Error) -> (r: ErrorMessage)
    ensures
        r.spec_error() == spec_client_error(*err),
{
    match err {
        Error::CallError { source: LoaderError::UnknownFunction { .. } } => ErrorMessage::new(
            err.message().as_str(),
        ),
        Error::CallError { source: LoaderError::CallError { name, source } } => ErrorMessage::new(
            source.message().as_str(),
        ),
        _ => ErrorMessage::new("Internal Server Error"),
    }
}

/// The status code a manager error answers with.
pub fn get_status_code(err: &Error) -> (r: u16)
    ensures
        r == spec_status_code(*err),
{
    match err {
        Error::CallError { source: LoaderError::UnknownFunction { .. } } => 404,
        _ => 500,
    }
}

/// Whether a string is a valid HTTP header name. The answer depends on
/// the string's characters alone.
pub uninterp spec fn spec_is_header_name(s: Seq<char>) -> bool;

/// Whether a string is a valid HTTP header value. The answer depends on
/// the string's characters alone.
pub uninterp spec fn spec_is_header_value(s: Seq<char>) -> bool;

/// Relies on http's `HeaderName` parsing, reached through warp: whether a
/// string parses as a header name is a function of the string alone.
#[verifier::external_body]
fn is_valid_header_name(name: &str) -> (r: bool)
    ensures
        r == spec_is_header_name(name@),
{
    <warp::http::header::HeaderName as core::str::FromStr>::from_str(name).is_ok()
}

/// Relies on http's `HeaderValue` parsing, reached through warp: whether a
/// string parses as a header value is a function of the string alone.
#[verifier::external_body]
fn is_valid_header_value(value: &str) -> (r: bool)
    ensures
        r == spec_is_header_value(value@),
{
    <warp::http::HeaderValue as core::str::FromStr>::from_str(value).is_ok()
}

/// The metadata pairs whose name and value are both valid HTTP header
/// tokens, in order.
pub open spec fn spec_valid_headers(pairs: Seq<(String, String)>) -> Seq<(String, String)>
    decreases pairs.len(),
{
    if pairs.len() == 0 {
        pairs
    } else {
        spec_valid_headers(pairs.drop_last()) + (if spec_is_header_name(pairs.last().0@)
            && spec_is_header_value(pairs.last().1@) {
            seq![pairs.last()]
        } else {
            Seq::empty()
        })
    }
}

/// Select the metadata entries that may populate an HTTP answer's headers:
/// an entry with an invalid name or value is skipped, as the data plane's
/// answer requires.
pub fn valid_headers(metadata: &Vec<(String, String)>) -> (r: Vec<(String, String)>)
    ensures
        r@ == spec_valid_headers(metadata@),
{
    let n = metadata.len();
    let mut r: Vec<(String, String)> = Vec::new();
    let mut i: usize = 0;
    while i < n
        invariant
            i <= n,
            n == metadata@.len(),
            r@ =~= spec_valid_headers(metadata@.take(i as int)),
        decreases n - i,
    {
        let pair = &metadata[i];
        proof {
            assert(metadata@.take(i + 1).drop_last() =~= metadata@.take(i as int));
            assert(metadata@.take(i + 1).last() == metadata@[i as int]);
        }
        if is_valid_header_name(pair.0.as_str()) && is_valid_header_value(pair.1.as_str()) {
            let entry = (pair.0.clone(), pair.1.clone());
            proof {
                assert(entry == metadata@[i as int]);
            }
            r.push(entry);
        }
        i = i + 1;
    }
    proof {
        assert(metadata@.take(n as int) =~= metadata@);
    }
    r
}

} // verus!
