//! Reading answers off a client: what a status and a body come to.
//!
//! The exchange itself is the caller's; what it hands back here is the status
//! code and the body text, and what comes out is the body or an error that
//! still carries both.
use vstd::prelude::*;

use crate::netkit::error::{truncate, truncated, HttpError};

verus! {

/// How much of an upstream body to quote in an error message.
pub const DETAIL: usize = 300;

/// How much of a body that is not JSON to quote.
pub const SNIPPET: usize = 200;

/// Whether a status code is a success (2xx).
pub open spec fn is_success(status: u16) -> bool {
    200 <= status <= 299
}

/// The body of a successful answer, or an error that keeps the status, the
/// raw body, and the first `DETAIL` characters of it to quote.
pub fn answer(method: &'static str, url: &str, status: u16, body: String) -> (r: Result<String, HttpError>)
    ensures
        is_success(status) ==> (r matches Ok(b) && b@ == body@),
        !is_success(status) ==> (r matches Err(HttpError::Status { method: m, url: u, status: s, detail, body: b })
            && m@ == method@ && u@ == url@ && s == status && b@ == body@
            && detail@ == truncated(body@, DETAIL as nat)),
{
    if 200 <= status && status <= 299 {
        Ok(body)
    } else {
        let detail = truncate(body.as_str(), DETAIL);
        Err(HttpError::Status { method, url: url.to_owned(), status, detail, body })
    }
}

/// The error for a successful answer whose body was not the JSON expected.
pub fn not_json(url: &str, body: &str) -> (e: HttpError)
    ensures
        e matches HttpError::Decode { url: u, snippet } && u@ == url@ && snippet@ == truncated(
            body@,
            SNIPPET as nat,
        ),
{
    HttpError::Decode { url: url.to_owned(), snippet: truncate(body, SNIPPET) }
}

} // verus!
