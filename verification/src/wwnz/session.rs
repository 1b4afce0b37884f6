//! What the API is called with: a guest token for browsing, or an account
//! session for anything belonging to a person.
//!
//! The GraphQL endpoint is authorised entirely by cookies: `__guest__token`,
//! which the storefront hands to anyone, and `__session__0`/`__session__1`, an
//! encrypted session split across values because it is too big for one.
use vstd::prelude::*;

use crate::netkit::cookies::{entries_insert, header_text, names_quoted, quoted_names, CookieMap, Entries};
use crate::netkit::jwt;
use crate::kmart::session::{opt_quoted, opt_text, sat_add};
use crate::text;
use crate::text::{cat3, starts_with_str};
use crate::netkit::cookies::entries_get;
use crate::wwnz::error::Error;

verus! {

pub const GUEST_COOKIE: &'static str = "__guest__token";

/// The prefix of the account session's cookies.
pub const SESSION_COOKIE_PREFIX: &'static str = "__session__";

/// Where a stored session is filed in the credential store.
pub const ACCOUNT: &'static str = "session";

/// How long a guest token is taken to last when it does not say.
pub const ASSUMED_GUEST_LIFETIME_SECS: u64 = 900;

/// How long before a cached guest token's expiry it is no longer used.
pub const EXPIRY_MARGIN_SECS: u64 = 60;

/// Whether any cookie is part of an account session.
pub open spec fn has_session_cookie(jar: Entries) -> bool {
    exists|i: int| 0 <= i < jar.len() && text::starts_with(#[trigger] jar[i].0, SESSION_COOKIE_PREFIX@)
}

pub struct Session {
    cookies: CookieMap,
    /// Whether this is an account session rather than a guest's.
    pub account: bool,
}

impl Default for Session {
    fn default() -> (s: Session)
        ensures
            s.jar() == Seq::<(Seq<char>, Seq<char>)>::empty(),
            !s.is_account(),
    {
        Session { cookies: CookieMap::new(), account: false }
    }
}

impl Session {
    pub closed spec fn jar(&self) -> Entries {
        self.cookies@
    }

    pub closed spec fn is_account(&self) -> bool {
        self.account
    }

    /// A guest's session: the token alone.
    pub fn guest(token: &str) -> (s: Session)
        ensures
            s.jar() == entries_insert(seq![], GUEST_COOKIE@, token@),
            !s.is_account(),
    {
        let mut cookies = CookieMap::new();
        cookies.insert(GUEST_COOKIE.to_owned(), token.to_owned());
        Session { cookies, account: false }
    }

    /// A session from cookies: an account one when any is a session cookie.
    pub fn from_cookies(cookies: CookieMap) -> (s: Session)
        ensures
            s.jar() == cookies@,
            s.is_account() == has_session_cookie(cookies@),
    {
        let names = cookies.keys();
        let n = names.len();
        let mut account = false;
        let mut i: usize = 0;
        while i < n
            invariant
                n == names@.len(),
                n == cookies@.len(),
                forall|j: int| 0 <= j < n ==> (#[trigger] names@[j])@ == cookies@[j].0,
                i <= n,
                account == (exists|j: int| 0 <= j < i && text::starts_with(#[trigger] cookies@[j].0, SESSION_COOKIE_PREFIX@)),
            decreases n - i,
        {
            if starts_with_str(names[i].as_str(), SESSION_COOKIE_PREFIX) {
                assert(text::starts_with(cookies@[i as int].0, SESSION_COOKIE_PREFIX@));
                account = true;
            }
            i += 1;
        }
        Session { cookies, account }
    }

    /// Whether these cookies speak for an account.
    pub fn account(&self) -> (r: bool)
        ensures
            r == self.is_account(),
    {
        self.account
    }

    pub fn cookies(&self) -> (r: CookieMap)
        ensures
            r@ == self.jar(),
    {
        self.cookies.duplicate()
    }

    /// The session's text for a log: cookie names and whether it is an
    /// account, never a value.
    pub fn redacted(&self) -> (r: String)
        ensures
            r@ == "Session { cookies: ["@ + quoted_names(self.jar()) + "], account: "@ + (if self.is_account() {
                "true"@
            } else {
                "false"@
            }) + " }"@,
    {
        let mut out = String::new();
        out.append("Session { cookies: [");
        let names = names_quoted(&self.cookies);
        out.append(names.as_str());
        out.append("], account: ");
        if self.account {
            out.append("true");
        } else {
            out.append("false");
        }
        out.append(" }");
        out
    }

    /// The `Cookie` header, or none when there are no cookies.
    pub fn header(&self) -> (r: Option<String>)
        ensures
            match r {
                Some(h) => self.jar().len() > 0 && h@ == header_text(self.jar()),
                None => self.jar().len() == 0,
            },
    {
        self.cookies.header()
    }
}

/// A session on disk.
pub struct StoredSession {
    pub email: Option<String>,
    pub cookies: CookieMap,
    pub obtained_at: u64,
}

impl StoredSession {
    /// The record as a log shows it: the email, the cookies' names and when
    /// it was obtained -- never a value.
    pub fn redacted(&self) -> (r: String)
        ensures
            r@ == "StoredSession { email: "@ + opt_text(self.email.deep_view()) + ", cookies: ["@ + quoted_names(
                self.cookies@,
            ) + "], obtained_at: "@ + text::decimal(self.obtained_at as nat) + " }"@,
    {
        let mut out = String::new();
        out.append("StoredSession { email: ");
        let email = opt_quoted(&self.email);
        out.append(email.as_str());
        out.append(", cookies: [");
        let names = names_quoted(&self.cookies);
        out.append(names.as_str());
        out.append("], obtained_at: ");
        let at = crate::text::decimal_string(self.obtained_at);
        out.append(at.as_str());
        out.append(" }");
        out
    }

    pub fn session(&self) -> (s: Session)
        ensures
            s.jar() == self.cookies@,
            s.is_account() == has_session_cookie(self.cookies@),
    {
        Session::from_cookies(self.cookies.duplicate())
    }
}

/// When a guest token is taken to lapse, in Unix seconds: its own claim
/// where it carries one, else the assumed lifetime after `now`.
pub open spec fn guest_expiry(token: Seq<char>, now: u64) -> u64 {
    match jwt::payload_bytes(token) {
        Some(b) => match jwt::json_u64_claim(b, "exp"@) {
            Some(secs) => jwt::ms_of(secs) / 1000,
            None => sat_add(now, ASSUMED_GUEST_LIFETIME_SECS),
        },
        None => sat_add(now, ASSUMED_GUEST_LIFETIME_SECS),
    }
}

/// When a guest token minted at `now` should be thrown away.
pub fn guest_expires_at(token: &str, now: u64) -> (r: u64)
    ensures
        r == guest_expiry(token@, now),
{
    match jwt::expiry_ms(token) {
        Some(ms) => ms / 1000,
        None => now.saturating_add(ASSUMED_GUEST_LIFETIME_SECS),
    }
}

/// Whether a cached guest token that lapses at `expires_at` is still worth
/// using at `now`, with the margin to spare.
pub fn guest_still_good(expires_at: u64, now: u64) -> (r: bool)
    ensures
        r == (expires_at > sat_add(now, EXPIRY_MARGIN_SECS)),
{
    expires_at > now.saturating_add(EXPIRY_MARGIN_SECS)
}

/// The guest token the storefront's home page set, out of the cookies its
/// answer set: an error when there is none to call the API with, which
/// usually means a bot check was served.
pub fn guest_from(set: &CookieMap, url: &str) -> (r: Result<String, Error>)
    ensures
        match entries_get(set@, GUEST_COOKIE@) {
            Some(t) if t.len() > 0 => r matches Ok(x) && x@ == t,
            _ => r matches Err(Error::Shape(m)) && m@ == url@ + " set no "@ + GUEST_COOKIE@
                + " cookie, so there is nothing to call the API with. The storefront may be serving a bot check."@,
        },
{
    match set.get(GUEST_COOKIE) {
        Some(t) => if !t.as_str().is_empty() {
            return Ok(t.clone());
        },
        None => {},
    }
    let mut m = cat3(url, " set no ", GUEST_COOKIE);
    m.append(" cookie, so there is nothing to call the API with. The storefront may be serving a bot check.");
    Err(Error::Shape(m))
}

} // verus!
