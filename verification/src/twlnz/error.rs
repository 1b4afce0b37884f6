//! What The Warehouse said no with.
//!
//! A `verify` token is minted into a page and expires, so a write can fail
//! for a reason that has nothing to do with the account -- and the fix is to
//! fetch the page again, not to sign in. And most responses are HTML, so "the
//! markup moved" is told apart from "the site said no".
use vstd::prelude::*;

use crate::netkit::error::{status_fault, AuthFault, Error as NetError, Fault, HttpError};
use crate::text::{cat, cat3, decimal_string};

verus! {

#[derive(Debug)]
pub enum Error {
    Http(HttpError),
    Net(NetError),
    RateLimited { retry_after: Option<u64> },
    SessionExpired,
    NotSignedIn,
    /// A page token has run out: fetch the page again.
    TokenExpired { action: &'static str },
    NotInPage { what: String, detail: String },
    NoSuchProduct(String),
    NoSuchStore(String),
    /// The site answered, and said no.
    Refused { action: &'static str, message: String },
    LoginRefused { step: &'static str, detail: String },
    NoSession { detail: String },
    Shape(String),
    /// A body that should have been JSON was not; `detail` is what the
    /// decoder said.
    Decode { context: String, detail: String },
}

impl Error {
    /// Something expected in a page was not there.
    pub fn not_in_page(what: String) -> (e: Error)
        ensures
            e matches Error::NotInPage { what: w, detail } && w == what && detail@.len() == 0,
    {
        Error::NotInPage { what, detail: String::new() }
    }

    pub fn body(&self) -> (r: &str)
        ensures
            r@ == (match self {
                Error::Http(HttpError::Status { body, .. }) => body@,
                _ => Seq::<char>::empty(),
            }),
    {
        match self {
            Error::Http(e) => e.body(),
            _ => {
                proof {
                    reveal_strlit("");
                }
                ""
            },
        }
    }

    /// The one failure where retrying harder is the wrong move.
    pub fn is_rate_limited(&self) -> (r: bool)
        ensures
            r == (self is RateLimited),
    {
        match self {
            Error::RateLimited { .. } => true,
            _ => false,
        }
    }

    pub fn is_lapsed(&self) -> (r: bool)
        ensures
            r == (self is SessionExpired || self is NotSignedIn),
    {
        match self {
            Error::SessionExpired | Error::NotSignedIn => true,
            _ => false,
        }
    }

    pub fn is_stale_token(&self) -> (r: bool)
        ensures
            r == (self is TokenExpired),
    {
        match self {
            Error::TokenExpired { .. } => true,
            _ => false,
        }
    }

    /// What a message about this failure says.
    pub open spec fn message_spec(&self) -> Seq<char> {
        match self {
            Error::Http(e) => e.message_spec(),
            Error::Net(e) => e.message_spec(),
            Error::RateLimited { retry_after } => "The Warehouse is rate-limiting this client"@ + (
            match retry_after {
                Some(secs) => "; it asked for "@ + crate::text::decimal(*secs as nat)
                    + "s before the next request"@,
                None => Seq::empty(),
            }),
            Error::SessionExpired => "the Warehouse session has expired"@,
            Error::NotSignedIn => "not signed in to The Warehouse"@,
            Error::TokenExpired { action } => "the page token for "@ + action@ + " has expired"@,
            Error::NotInPage { what, detail } => what@ + " was not found in the page"@ + detail@,
            Error::NoSuchProduct(p) => "no product called "@ + p@,
            Error::NoSuchStore(s) => "no store called "@ + s@,
            Error::Refused { action, message } => action@ + " was refused: "@ + message@,
            Error::LoginRefused { step, detail } => "the sign-in page refused the "@ + step@ + detail@,
            Error::NoSession { detail } => "signing in did not produce a session"@ + detail@,
            Error::Shape(s) => s@,
            Error::Decode { context, .. } => context@,
        }
    }

    pub fn message(&self) -> (r: String)
        ensures
            r@ == self.message_spec(),
    {
        match self {
            Error::Http(e) => e.message(),
            Error::Net(e) => e.message(),
            Error::RateLimited { retry_after } => match retry_after {
                Some(secs) => {
                    let n = decimal_string(*secs);
                    let tail = cat3("; it asked for ", n.as_str(), "s before the next request");
                    cat("The Warehouse is rate-limiting this client", tail.as_str())
                },
                None => "The Warehouse is rate-limiting this client".to_owned(),
            },
            Error::SessionExpired => "the Warehouse session has expired".to_owned(),
            Error::NotSignedIn => "not signed in to The Warehouse".to_owned(),
            Error::TokenExpired { action } => cat3("the page token for ", action, " has expired"),
            Error::NotInPage { what, detail } => cat3(
                what.as_str(),
                " was not found in the page",
                detail.as_str(),
            ),
            Error::NoSuchProduct(p) => cat("no product called ", p.as_str()),
            Error::NoSuchStore(s) => cat("no store called ", s.as_str()),
            Error::Refused { action, message } => cat3(action, " was refused: ", message.as_str()),
            Error::LoginRefused { step, detail } => cat3(
                "the sign-in page refused the ",
                step,
                detail.as_str(),
            ),
            Error::NoSession { detail } => cat("signing in did not produce a session", detail.as_str()),
            Error::Shape(s) => s.clone(),
            Error::Decode { context, .. } => context.clone(),
        }
    }
}

/// An HTTP failure as this client's error: a 429 is a rate limit.
pub fn from_http(e: HttpError) -> (r: Error)
    ensures
        e.status_spec() == Some(429u16) ==> r matches Error::RateLimited { retry_after: None },
        e.status_spec() != Some(429u16) ==> r == Error::Http(e),
{
    match e.status() {
        Some(429) => Error::RateLimited { retry_after: None },
        _ => Error::Http(e),
    }
}

impl Fault for Error {
    fn auth(&self) -> (r: Option<AuthFault>)
        ensures
            r == (match self {
                Error::SessionExpired => Some(AuthFault::Expired),
                Error::NotSignedIn => Some(AuthFault::Missing),
                Error::LoginRefused { .. } => Some(AuthFault::Rejected),
                Error::Http(h) => status_fault(h.status_spec()),
                _ => None,
            }),
    {
        match self {
            Error::SessionExpired => Some(AuthFault::Expired),
            Error::NotSignedIn => Some(AuthFault::Missing),
            Error::LoginRefused { .. } => Some(AuthFault::Rejected),
            Error::Http(e) => e.auth(),
            _ => None,
        }
    }

    fn is_transport(&self) -> (r: bool)
        ensures
            r == (self matches Error::Http(e) && e is Transport),
    {
        match self {
            Error::Http(e) => e.is_transport(),
            _ => false,
        }
    }
}

} // verus!
