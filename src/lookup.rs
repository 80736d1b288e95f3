//! A registry lookup: the request to make and the status that its outcome gives.

use vstd::prelude::*;
use vstd::string::StringExecFns;
use crate::page::{classify_page, page_status};
use crate::status::NifStatus;

verus! {

/// The lookup endpoint; the number follows as the value of its query parameter.
pub const LOOKUP_ENDPOINT: &'static str = "https://www.nif.pt/?q=";

/// The address to fetch for the number `nif`.
pub fn lookup_url(nif: &str) -> (r: String)
    ensures
        r@ == LOOKUP_ENDPOINT@ + nif@,
{
    let mut url = LOOKUP_ENDPOINT.to_owned();
    url.append(nif);
    url
}

/// An HTTP status code in the success class (200 to 299).
pub open spec fn is_success_code(code: u16) -> bool {
    200 <= code && code <= 299
}

/// Whether a response with status `code` is read further.
pub fn response_succeeded(code: u16) -> (r: bool)
    ensures
        r == is_success_code(code),
{
    200 <= code && code <= 299
}

/// What a lookup request came back with.
pub enum FetchOutcome {
    /// No response arrived: the connection, name resolution or the transfer failed.
    TransportFailure,
    /// A response arrived with status `code`; `body` is its text, where it was
    /// read, and `None` where reading it failed or the status was not a success.
    Response { code: u16, body: Option<String> },
}

/// The status that a lookup outcome gives.
pub open spec fn fetch_status(f: FetchOutcome) -> NifStatus {
    match f {
        FetchOutcome::TransportFailure => NifStatus::Unknown,
        FetchOutcome::Response { code, body } => {
            if !is_success_code(code) {
                NifStatus::Unknown
            } else {
                match body {
                    Some(b) => page_status(b@),
                    None => NifStatus::Unknown,
                }
            }
        },
    }
}

/// Decides the status of a lookup from what the request came back with: every
/// failure gives `Unknown`, a page read in full is classified.
pub fn status_of_fetch(f: &FetchOutcome) -> (r: NifStatus)
    ensures
        r == fetch_status(*f),
        f matches FetchOutcome::TransportFailure ==> r == NifStatus::Unknown,
{
    match f {
        FetchOutcome::TransportFailure => NifStatus::Unknown,
        FetchOutcome::Response { code, body } => {
            if !response_succeeded(*code) {
                NifStatus::Unknown
            } else {
                match body {
                    Some(b) => classify_page(b.as_str()),
                    None => NifStatus::Unknown,
                }
            }
        },
    }
}

} // verus!
