//! What Kmart said no with.
//!
//! GraphQL answers 200 with an `errors` array rather than an HTTP status, and
//! Kmart's own hosts are behind a bot manager that answers a challenge that
//! looks like success or like rate limiting to anything that only reads the
//! status. So the failures worth naming are named here.
use vstd::prelude::*;

use crate::netkit::error::{status_fault, AuthFault, Error as NetError, Fault, HttpError};
use crate::netkit::run::{debug_quoted, quoted};
use crate::text;
use crate::text::{cat, cat3, contains_str};

verus! {

#[derive(Debug)]
pub enum Error {
    Http(HttpError),
    Net(NetError),
    /// The bot manager served a challenge instead of the thing asked for. Not
    /// retryable and not a rate limit: importing cookies from a browser that
    /// passed it is the way past it.
    Challenged { host: String },
    SessionExpired,
    NotSignedIn,
    /// There are cookies but no way to turn them into a bearer token.
    SessionUnrenewable,
    Graphql { operation: &'static str, message: String },
    /// A cart mutation lost a race: `version` no longer matched.
    CartConflict,
    NoSuchStore(String),
    NoSuchProduct(String),
    NoSuchCategory(String),
    RateLimited { retry_after: Option<u64> },
    LoginRefused { step: &'static str, detail: String },
    /// The import produced nothing usable.
    NoSession { detail: String },
    Shape(String),
    /// A body that should have been JSON was not; `detail` is what the
    /// decoder said.
    Decode { context: String, detail: String },
}

/// Whether a body is one of the three challenge forms: the gateway's JSON
/// carrying `cpr_chlge`, the storefront's sensor-script container, or the
/// login host's "Access Denied" page, whose host link is entity-escaped so
/// only `edgesuite` survives of it.
pub open spec fn challenge_body(body: Seq<char>) -> bool {
    text::contains(body, "cpr_chlge"@) || text::contains(body, "sec-if-cpt-container"@) || (
    text::contains(body, "Access Denied"@) && text::contains(body, "edgesuite"@))
}

/// Whether a response body is a bot challenge rather than an answer.
pub fn is_challenge_body(body: &str) -> (r: bool)
    ensures
        r == challenge_body(body@),
{
    contains_str(body, "cpr_chlge") || contains_str(body, "sec-if-cpt-container") || (contains_str(
        body,
        "Access Denied",
    ) && contains_str(body, "edgesuite"))
}

impl Error {
    /// The raw upstream body of an HTTP failure; empty for the rest.
    pub fn body(&self) -> (r: &str)
        ensures
            r@ == (match self {
                Error::Http(HttpError::Status { body, .. }) => body@,
                _ => Seq::<char>::empty(),
            }),
    {
        match self {
            Error::Http(e) => e.body(),
            _ => {
                proof {
                    reveal_strlit("");
                }
                ""
            },
        }
    }

    /// Whether a client holding stored credentials should try renewing and
    /// go again.
    pub fn is_lapsed(&self) -> (r: bool)
        ensures
            r == (self is SessionExpired || self is NotSignedIn),
    {
        match self {
            Error::SessionExpired | Error::NotSignedIn => true,
            _ => false,
        }
    }

    /// Whether this is the bot manager rather than Kmart: not fixed by
    /// signing in again, so a client that retried on it would loop.
    pub fn is_challenge(&self) -> (r: bool)
        ensures
            r == (self is Challenged),
    {
        match self {
            Error::Challenged { .. } => true,
            _ => false,
        }
    }

    /// What a message about this failure says.
    pub open spec fn message_spec(&self) -> Seq<char> {
        match self {
            Error::Http(e) => e.message_spec(),
            Error::Net(e) => e.message_spec(),
            Error::Challenged { host } => host@ + " answered with a bot challenge rather than the request"@,
            Error::SessionExpired => "the Kmart session has expired"@,
            Error::NotSignedIn => "not signed in to Kmart"@,
            Error::SessionUnrenewable => "the stored Kmart session cannot be renewed"@,
            Error::Graphql { operation, message } => operation@ + " failed: "@ + message@,
            Error::CartConflict => "the cart changed underneath this request"@,
            Error::NoSuchStore(id) => "no store with id "@ + id@,
            Error::NoSuchProduct(k) => "no product with keycode "@ + k@,
            Error::NoSuchCategory(c) => "no category matching "@ + debug_quoted(c@),
            Error::RateLimited { .. } => "Kmart is rate limiting this client"@,
            Error::LoginRefused { step, detail } => "the sign-in refused the "@ + step@ + detail@,
            Error::NoSession { detail } => "those cookies do not carry a Kmart session"@ + detail@,
            Error::Shape(s) => s@,
            Error::Decode { context, .. } => context@,
        }
    }

    pub fn message(&self) -> (r: String)
        ensures
            r@ == self.message_spec(),
    {
        match self {
            Error::Http(e) => e.message(),
            Error::Net(e) => e.message(),
            Error::Challenged { host } => cat(
                host.as_str(),
                " answered with a bot challenge rather than the request",
            ),
            Error::SessionExpired => "the Kmart session has expired".to_owned(),
            Error::NotSignedIn => "not signed in to Kmart".to_owned(),
            Error::SessionUnrenewable => "the stored Kmart session cannot be renewed".to_owned(),
            Error::Graphql { operation, message } => cat3(operation, " failed: ", message.as_str()),
            Error::CartConflict => "the cart changed underneath this request".to_owned(),
            Error::NoSuchStore(id) => cat("no store with id ", id.as_str()),
            Error::NoSuchProduct(k) => cat("no product with keycode ", k.as_str()),
            Error::NoSuchCategory(c) => {
                let q = quoted(c.as_str());
                cat("no category matching ", q.as_str())
            },
            Error::RateLimited { .. } => "Kmart is rate limiting this client".to_owned(),
            Error::LoginRefused { step, detail } => cat3(
                "the sign-in refused the ",
                step,
                detail.as_str(),
            ),
            Error::NoSession { detail } => cat(
                "those cookies do not carry a Kmart session",
                detail.as_str(),
            ),
            Error::Shape(s) => s.clone(),
            Error::Decode { context, .. } => context.clone(),
        }
    }
}

/// The kind of authentication failure each error is.
pub open spec fn kmart_fault(e: &Error) -> Option<AuthFault> {
    match e {
        Error::SessionExpired | Error::SessionUnrenewable => Some(AuthFault::Expired),
        Error::NotSignedIn | Error::NoSession { .. } => Some(AuthFault::Missing),
        Error::LoginRefused { .. } => Some(AuthFault::Rejected),
        Error::Http(h) => status_fault(h.status_spec()),
        _ => None,
    }
}

impl Fault for Error {
    fn auth(&self) -> (r: Option<AuthFault>)
        ensures
            r == kmart_fault(self),
    {
        match self {
            Error::SessionExpired | Error::SessionUnrenewable => Some(AuthFault::Expired),
            Error::NotSignedIn | Error::NoSession { .. } => Some(AuthFault::Missing),
            Error::LoginRefused { .. } => Some(AuthFault::Rejected),
            Error::Http(e) => e.auth(),
            _ => None,
        }
    }

    fn is_transport(&self) -> (r: bool)
        ensures
            r == (self matches Error::Http(e) && e is Transport),
    {
        match self {
            Error::Http(e) => e.is_transport(),
            _ => false,
        }
    }
}

} // verus!
