//! Failures with their evidence still attached.
//!
//! An HTTP failure keeps its status code and its raw body, so a caller asks a
//! question instead of matching substrings of a formatted message.
use vstd::prelude::*;

use crate::text;
use crate::text::{cat, cat3, chars_of, decimal_string, string_range, trim_bounds};

verus! {

/// What kind of authentication failure this was.
#[derive(Copy, Clone, PartialEq, Eq, Structural, Debug)]
pub enum AuthFault {
    /// Nothing was presented.
    Missing,
    /// Presented and refused -- 401.
    Rejected,
    /// Accepted, but not allowed to do this -- 403.
    Forbidden,
    /// Known to have run out, from a claim or an explicit upstream code.
    Expired,
}

/// Implemented by every error type of the clients, so retry logic can ask
/// about a failure without knowing which client produced it.
pub trait Fault {
    fn auth(&self) -> Option<AuthFault>;

    /// A connection problem rather than an answer. Worth retrying; an auth
    /// failure is not.
    fn is_transport(&self) -> bool {
        false
    }
}

/// An HTTP exchange that did not give the answer asked for.
#[derive(Debug)]
pub enum HttpError {
    /// No answer at all; `detail` is what the connection reported.
    Transport { method: &'static str, url: String, detail: String },
    /// An answer with a failing status. `body` is the raw upstream body,
    /// untruncated; `detail` is the part of it a message quotes.
    Status { method: &'static str, url: String, status: u16, detail: String, body: String },
    /// An answer that was not the JSON expected.
    Decode { url: String, snippet: String },
}

/// The fault a status code stands for: 401 refused, 403 forbidden.
pub open spec fn status_fault(status: Option<u16>) -> Option<AuthFault> {
    match status {
        Some(401) => Some(AuthFault::Rejected),
        Some(403) => Some(AuthFault::Forbidden),
        _ => None,
    }
}

/// `: detail`, or nothing for an empty detail.
pub open spec fn detail_suffix(detail: Seq<char>) -> Seq<char> {
    if detail.len() == 0 {
        seq![]
    } else {
        ": "@ + detail
    }
}

impl HttpError {
    pub open spec fn status_spec(&self) -> Option<u16> {
        match self {
            HttpError::Status { status, .. } => Some(*status),
            _ => None,
        }
    }

    pub open spec fn url_spec(&self) -> Seq<char> {
        match self {
            HttpError::Transport { url, .. } => url@,
            HttpError::Status { url, .. } => url@,
            HttpError::Decode { url, .. } => url@,
        }
    }

    /// What a message about this failure says.
    pub open spec fn message_spec(&self) -> Seq<char> {
        match self {
            HttpError::Transport { method, url, detail } => method@ + " "@ + url@ + ": "@ + detail@,
            HttpError::Status { method, url, status, detail, .. } => method@ + " "@ + url@
                + ": HTTP "@ + text::decimal(*status as nat) + detail_suffix(detail@),
            HttpError::Decode { url, snippet } => url@ + " did not answer with JSON: "@ + snippet@,
        }
    }

    pub fn status(&self) -> (r: Option<u16>)
        ensures
            r == self.status_spec(),
    {
        match self {
            HttpError::Status { status, .. } => Some(*status),
            _ => None,
        }
    }

    /// The raw body of a failing answer; empty for the other kinds.
    pub fn body(&self) -> (r: &str)
        ensures
            r@ == (match self {
                HttpError::Status { body, .. } => body@,
                _ => Seq::<char>::empty(),
            }),
    {
        match self {
            HttpError::Status { body, .. } => body.as_str(),
            _ => {
                proof {
                    reveal_strlit("");
                }
                ""
            },
        }
    }

    pub fn url(&self) -> (r: &str)
        ensures
            r@ == self.url_spec(),
    {
        match self {
            HttpError::Transport { url, .. } => url.as_str(),
            HttpError::Status { url, .. } => url.as_str(),
            HttpError::Decode { url, .. } => url.as_str(),
        }
    }

    /// The text of this failure, as a message shows it.
    pub fn message(&self) -> (r: String)
        ensures
            r@ == self.message_spec(),
    {
        match self {
            HttpError::Transport { method, url, detail } => {
                let a = cat3(method, " ", url.as_str());
                cat3(a.as_str(), ": ", detail.as_str())
            },
            HttpError::Status { method, url, status, detail, .. } => {
                let a = cat3(method, " ", url.as_str());
                let code = decimal_string(*status as u64);
                let b = cat3(a.as_str(), ": HTTP ", code.as_str());
                if detail.as_str().is_empty() {
                    b
                } else {
                    let c = cat3(b.as_str(), ": ", detail.as_str());
                    c
                }
            },
            HttpError::Decode { url, snippet } => cat3(
                url.as_str(),
                " did not answer with JSON: ",
                snippet.as_str(),
            ),
        }
    }
}

impl Fault for HttpError {
    fn auth(&self) -> (r: Option<AuthFault>)
        ensures
            r == status_fault(self.status_spec()),
    {
        match self.status() {
            Some(401) => Some(AuthFault::Rejected),
            Some(403) => Some(AuthFault::Forbidden),
            _ => None,
        }
    }

    fn is_transport(&self) -> (r: bool)
        ensures
            r == (self is Transport),
    {
        match self {
            HttpError::Transport { .. } => true,
            _ => false,
        }
    }
}

/// Every way an operation of the kit can fail.
#[derive(Debug)]
pub enum Error {
    Http(HttpError),
    /// A file could not be read or written; `detail` is what the system said.
    Io { context: String, detail: String },
    /// The credential store refused; `detail` is what it said.
    Keyring { context: String, detail: String },
    /// A body that should have been JSON was not.
    Decode { context: String, detail: String },
    /// A config file that is not valid TOML; `detail` names the line.
    Toml { context: String, detail: String },
    /// A configured command that did not give a value.
    Command { command: String, detail: String },
    Config(String),
}

impl Error {
    /// What a message about this failure says.
    pub open spec fn message_spec(&self) -> Seq<char> {
        match self {
            Error::Http(e) => e.message_spec(),
            Error::Io { context, .. } => context@,
            Error::Keyring { context, .. } => context@,
            Error::Decode { context, .. } => context@,
            Error::Toml { context, detail } => context@ + ": "@ + detail@,
            Error::Command { command, detail } => command@ + " failed: "@ + detail@,
            Error::Config(text) => text@,
        }
    }

    pub fn message(&self) -> (r: String)
        ensures
            r@ == self.message_spec(),
    {
        match self {
            Error::Http(e) => e.message(),
            Error::Io { context, .. } => context.clone(),
            Error::Keyring { context, .. } => context.clone(),
            Error::Decode { context, .. } => context.clone(),
            Error::Toml { context, detail } => cat3(context.as_str(), ": ", detail.as_str()),
            Error::Command { command, detail } => cat3(
                command.as_str(),
                " failed: ",
                detail.as_str(),
            ),
            Error::Config(text) => text.clone(),
        }
    }
}

impl Fault for Error {
    fn auth(&self) -> (r: Option<AuthFault>)
        ensures
            r == (match self {
                Error::Http(e) => status_fault(e.status_spec()),
                _ => None,
            }),
    {
        match self {
            Error::Http(e) => e.auth(),
            _ => None,
        }
    }

    fn is_transport(&self) -> (r: bool)
        ensures
            r == (self matches Error::Http(e) && e is Transport),
    {
        match self {
            Error::Http(e) => e.is_transport(),
            _ => false,
        }
    }
}

/// `text` trimmed, and cut to `max` characters with `...` after when it was
/// longer.
pub open spec fn truncated(text: Seq<char>, max: nat) -> Seq<char> {
    let t = text::trim(text);
    if t.len() <= max {
        t
    } else {
        t.take(max as int) + "..."@
    }
}

/// Cut a body down for a message without losing that it was cut.
pub fn truncate(text: &str, max: usize) -> (r: String)
    ensures
        r@ == truncated(text@, max as nat),
{
    let v = chars_of(text);
    let (a, b) = trim_bounds(&v, 0, v.len());
    assert(v@.subrange(0, v@.len() as int) =~= v@);
    if b - a <= max {
        string_range(&v, a, b)
    } else {
        let kept = string_range(&v, a, a + max);
        assert(v@.subrange(a as int, (a + max) as int) =~= v@.subrange(a as int, b as int).take(
            max as int,
        ));
        cat(kept.as_str(), "...")
    }
}

} // verus!
