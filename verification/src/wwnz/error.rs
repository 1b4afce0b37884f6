//! What Woolworths said no with. GraphQL answers 200 with an `errors` array
//! rather than an HTTP status, so "not signed in" arrives as an extension code
//! on a successful response.
use vstd::prelude::*;

use crate::netkit::error::{status_fault, AuthFault, Error as NetError, Fault, HttpError};
use crate::text::{cat, cat3};

verus! {

#[derive(Debug)]
pub enum Error {
    Http(HttpError),
    Net(NetError),
    SessionExpired,
    NotSignedIn,
    /// The stored session cannot be renewed without a password.
    SessionUnrenewable,
    Graphql { operation: &'static str, message: String },
    LoginRefused { step: &'static str, detail: String },
    NoSession { detail: String },
    Shape(String),
    /// A body that should have been JSON was not; `detail` is what the
    /// decoder said.
    Decode { context: String, detail: String },
}

impl Error {
    pub fn body(&self) -> (r: &str)
        ensures
            r@ == (match self {
                Error::Http(HttpError::Status { body, .. }) => body@,
                _ => Seq::<char>::empty(),
            }),
    {
        match self {
            Error::Http(e) => e.body(),
            _ => {
                proof {
                    reveal_strlit("");
                }
                ""
            },
        }
    }

    /// Both need an account, but only a lapse is worth retrying
    /// automatically.
    pub fn is_lapsed(&self) -> (r: bool)
        ensures
            r == (self is SessionExpired || self is NotSignedIn),
    {
        match self {
            Error::SessionExpired | Error::NotSignedIn => true,
            _ => false,
        }
    }

    /// What a message about this failure says.
    pub open spec fn message_spec(&self) -> Seq<char> {
        match self {
            Error::Http(e) => e.message_spec(),
            Error::Net(e) => e.message_spec(),
            Error::SessionExpired => "the Woolworths session has expired"@,
            Error::NotSignedIn => "not signed in to Woolworths"@,
            Error::SessionUnrenewable => "the stored Woolworths session cannot be renewed without a password"@,
            Error::Graphql { operation, message } => operation@ + " failed: "@ + message@,
            Error::LoginRefused { step, detail } => "the sign-in page refused the "@ + step@ + detail@,
            Error::NoSession { detail } => "signing in did not produce a session"@ + detail@,
            Error::Shape(s) => s@,
            Error::Decode { context, .. } => context@,
        }
    }

    pub fn message(&self) -> (r: String)
        ensures
            r@ == self.message_spec(),
    {
        match self {
            Error::Http(e) => e.message(),
            Error::Net(e) => e.message(),
            Error::SessionExpired => "the Woolworths session has expired".to_owned(),
            Error::NotSignedIn => "not signed in to Woolworths".to_owned(),
            Error::SessionUnrenewable => "the stored Woolworths session cannot be renewed without a password".to_owned(),
            Error::Graphql { operation, message } => cat3(operation, " failed: ", message.as_str()),
            Error::LoginRefused { step, detail } => cat3(
                "the sign-in page refused the ",
                step,
                detail.as_str(),
            ),
            Error::NoSession { detail } => cat("signing in did not produce a session", detail.as_str()),
            Error::Shape(s) => s.clone(),
            Error::Decode { context, .. } => context.clone(),
        }
    }
}

impl Fault for Error {
    fn auth(&self) -> (r: Option<AuthFault>)
        ensures
            r == (match self {
                Error::SessionExpired | Error::SessionUnrenewable => Some(AuthFault::Expired),
                Error::NotSignedIn => Some(AuthFault::Missing),
                Error::LoginRefused { .. } => Some(AuthFault::Rejected),
                Error::Http(h) => status_fault(h.status_spec()),
                _ => None,
            }),
    {
        match self {
            Error::SessionExpired => Some(AuthFault::Expired),
            Error::NotSignedIn => Some(AuthFault::Missing),
            Error::SessionUnrenewable => Some(AuthFault::Expired),
            Error::LoginRefused { .. } => Some(AuthFault::Rejected),
            Error::Http(e) => e.auth(),
            _ => None,
        }
    }

    fn is_transport(&self) -> (r: bool)
        ensures
            r == (self matches Error::Http(e) && e is Transport),
    {
        match self {
            Error::Http(e) => e.is_transport(),
            _ => false,
        }
    }
}

} // verus!
