//! What the storefront is called with.
//!
//! The storefront authorises entirely by cookie: `dwsid`, the storefront
//! session; `usid_twl`, the shopper id; and `cc-at_twl`, a shopper JWT that
//! the storefront issues to anyone, signed in or not -- so its presence is not
//! a sign-in, and its `isb` claim is what says whose it is.
use vstd::prelude::*;

use crate::netkit::cookies::{entries_get, entries_insert, entries_remove, header_text, names_quoted, quoted_names, set_cookie_entries, set_cookies, CookieMap, Entries};
use crate::netkit::jwt;
use crate::kmart::session::{opt_quoted, opt_text, sat_add};
use crate::text;
use crate::text::{chars_of, eq_str, find_at, matches_here, string_range, trim_bounds};

verus! {

pub const SESSION_COOKIE: &'static str = "dwsid";

/// The shopper JWT, issued to guests and accounts alike.
pub const ACCOUNT_COOKIE: &'static str = "cc-at_twl";

/// The claim that names whose the token is.
pub const SHOPPER_CLAIM: &'static str = "isb";

pub const SHOPPER_COOKIE: &'static str = "usid_twl";

/// The registered shopper's refresh token: set by a sign-in, and the
/// plainest signal of one.
pub const REFRESH_COOKIE: &'static str = "cc-nx_twl";

/// A guest's refresh token: one character apart in name, opposite in
/// meaning.
pub const GUEST_REFRESH_COOKIE: &'static str = "cc-nx-g_twl";

/// Where a stored session is filed in the credential store.
pub const ACCOUNT: &'static str = "session";

/// How long before the token's expiry it counts as lapsed.
pub const EXPIRY_MARGIN_SECS: u64 = 60;

/// The first `::`-separated part of an `isb` claim that starts `upn:`, with
/// that prefix taken off.
pub open spec fn upn_part(parts: Seq<Seq<char>>) -> Option<Seq<char>>
    decreases parts.len(),
{
    if parts.len() == 0 {
        None
    } else if text::starts_with(parts[0], "upn:"@) {
        Some(parts[0].subrange(4, parts[0].len() as int))
    } else {
        upn_part(parts.drop_first())
    }
}

/// The shopper an `isb` claim names: its `upn`, trimmed, unless that is empty
/// or `Guest`.
pub open spec fn shopper_of(isb: Seq<char>) -> Option<Seq<char>> {
    match upn_part(text::split_str(isb, "::"@)) {
        None => None,
        Some(u) => {
            let t = text::trim(u);
            if t.len() == 0 || t == "Guest"@ {
                None
            } else {
                Some(t)
            }
        },
    }
}

/// The `upn` an `isb` claim carries.
pub fn upn(isb: &str) -> (r: Option<String>)
    ensures
        r.deep_view() == shopper_of(isb@),
{
    let v = chars_of(isb);
    let sep = chars_of("::");
    let tag = chars_of("upn:");
    proof {
        reveal_strlit("::");
        reveal_strlit("upn:");
    }
    let n = v.len();
    let mut pos: usize = 0;
    assert(v@.skip(0) =~= v@);
    let mut found: Option<(usize, usize)> = None;
    loop
        invariant_except_break
            found is None,
        invariant
            v@ == isb@,
            n == v@.len(),
            sep@ == "::"@,
            tag@ == "upn:"@,
            pos <= n,
            upn_part(text::split_str(v@, sep@)) == upn_part(text::split_str(v@.skip(pos as int), sep@)),
        ensures
            match found {
                Some((a, b)) => a <= b <= n && upn_part(text::split_str(v@, sep@)) == Some(
                    v@.subrange(a as int, b as int),
                ),
                None => upn_part(text::split_str(v@, sep@)) is None,
            },
        decreases n - pos,
    {
        let ghost rest = v@.skip(pos as int);
        let found_at = find_at(&v, &sep, pos);
        proof {
            reveal_strlit("::");
            reveal_strlit("upn:");
            text::lemma_find_skip(v@, sep@, pos as int, 0);
            assert(pos as int + 0 == pos as int);
            text::lemma_find_from(rest, sep@, 0);
            match found_at {
                Some(k) => {
                    assert(text::find(rest, sep@) == Some(k - pos));
                },
                None => {
                    assert(text::find(rest, sep@) is None);
                },
            }
        }
        let end = match found_at {
            Some(k) => k,
            None => n,
        };
        let ghost piece = v@.subrange(pos as int, end as int);
        assert(rest.subrange(0, end - pos) =~= piece);
        let ghost parts = text::split_str(rest, sep@);
        assert(parts[0] == piece);
        let starts = end - pos >= 4 && matches_here(&v, &tag, pos);
        assert(starts == text::starts_with(piece, tag@)) by {
            if end - pos >= 4 {
                assert(piece.subrange(0, 4) =~= v@.subrange(pos as int, pos + 4));
            }
        }
        if starts {
            assert(piece.subrange(4, piece.len() as int) =~= v@.subrange(pos + 4, end as int));
            assert(upn_part(parts) == Some(v@.subrange(pos + 4, end as int)));
            found = Some((pos + 4, end));
            break;
        }
        if end == n {
            assert(parts =~= seq![rest]);
            assert(parts.drop_first().len() == 0);
            assert(upn_part(parts) == upn_part(parts.drop_first()));
            assert(upn_part(parts) is None);
            break;
        }
        assert(parts.drop_first() == text::split_str(rest.subrange(end - pos + 2, rest.len() as int), sep@));
        assert(rest.subrange(end - pos + 2, rest.len() as int) =~= v@.skip(end + 2));
        pos = end + 2;
    }
    match found {
        None => None,
        Some((a, b)) => {
            let (x, y) = trim_bounds(&v, a, b);
            let t = string_range(&v, x, y);
            if x == y || eq_str(t.as_str(), "Guest") {
                None
            } else {
                Some(t)
            }
        },
    }
}

/// The storefront's cookies.
pub struct Session {
    cookies: CookieMap,
}

impl Default for Session {
    fn default() -> (s: Session)
        ensures
            s.jar() == Seq::<(Seq<char>, Seq<char>)>::empty(),
    {
        Session { cookies: CookieMap::new() }
    }
}

impl Session {
    pub closed spec fn jar(&self) -> Entries {
        self.cookies@
    }

    pub fn from_cookies(cookies: CookieMap) -> (s: Session)
        ensures
            s.jar() == cookies@,
    {
        Session { cookies }
    }

    /// Whether an account is behind this: a registered refresh token, or a
    /// shopper token that names someone.
    pub fn account(&self) -> (r: bool)
        ensures
            r == ((entries_get(self.jar(), REFRESH_COOKIE@) matches Some(t) && t.len() > 0)
                || self.shopper_spec() is Some),
    {
        match self.cookies.get(REFRESH_COOKIE) {
            Some(t) => {
                if !t.as_str().is_empty() {
                    return true;
                }
            },
            None => {},
        }
        self.shopper().is_some()
    }

    /// Who the shopper token names.
    pub open spec fn shopper_spec(&self) -> Option<Seq<char>> {
        match entries_get(self.jar(), ACCOUNT_COOKIE@) {
            None => None,
            Some(token) => match jwt::payload_bytes(token) {
                None => None,
                Some(b) => match jwt::json_str_claim(b, SHOPPER_CLAIM@) {
                    None => None,
                    Some(isb) => shopper_of(isb),
                },
            },
        }
    }

    pub fn shopper(&self) -> (r: Option<String>)
        ensures
            r.deep_view() == self.shopper_spec(),
    {
        let token = self.cookies.get(ACCOUNT_COOKIE)?;
        let isb = jwt::claim_str(token.as_str(), SHOPPER_CLAIM)?;
        upn(isb.as_str())
    }

    pub fn cookies(&self) -> (r: CookieMap)
        ensures
            r@ == self.jar(),
    {
        self.cookies.duplicate()
    }

    pub fn get(&self, name: &str) -> (r: Option<&str>)
        ensures
            match r {
                Some(v) => entries_get(self.jar(), name@) == Some(v@),
                None => entries_get(self.jar(), name@) is None,
            },
    {
        match self.cookies.get(name) {
            Some(v) => Some(v.as_str()),
            None => None,
        }
    }

    /// Fold in what a response set: an empty value deletes.
    pub fn absorb(&mut self, set_cookie_values: &Vec<String>)
        ensures
            final(self).jar() == absorb_all(
                old(self).jar(),
                set_cookie_entries(seq![], set_cookie_values@.map_values(|s: String| s@)),
            ),
    {
        let fresh = set_cookies(set_cookie_values);
        let pairs = fresh.pairs();
        let ghost all = fresh@;
        let ghost goal = absorb_all(self.cookies@, all);
        let n = pairs.len();
        let mut i: usize = 0;
        assert(all.skip(0) =~= all);
        while i < n
            invariant
                n == pairs@.len(),
                n == all.len(),
                forall|j: int| 0 <= j < n ==> ((#[trigger] pairs@[j]).0@, pairs@[j].1@) == all[j],
                i <= n,
                absorb_all(self.cookies@, all.skip(i as int)) == goal,
            decreases n - i,
        {
            assert(all.skip(i as int)[0] == all[i as int]);
            assert(all.skip(i as int).drop_first() =~= all.skip(i + 1));
            if pairs[i].1.as_str().is_empty() {
                self.cookies.remove(pairs[i].0.as_str());
            } else {
                self.cookies.insert(pairs[i].0.clone(), pairs[i].1.clone());
            }
            i += 1;
        }
        assert(all.skip(n as int).len() == 0);
    }

    /// The `Cookie` header, or none when there are no cookies.
    pub fn header(&self) -> (r: Option<String>)
        ensures
            match r {
                Some(h) => self.jar().len() > 0 && h@ == header_text(self.jar()),
                None => self.jar().len() == 0,
            },
    {
        self.cookies.header()
    }

    /// When the shopper token lapses, in Unix seconds, off its own claim.
    pub open spec fn expires_spec(&self) -> Option<u64> {
        match entries_get(self.jar(), ACCOUNT_COOKIE@) {
            None => None,
            Some(token) => match jwt::payload_bytes(token) {
                None => None,
                Some(b) => match jwt::json_u64_claim(b, "exp"@) {
                    None => None,
                    Some(secs) => Some((jwt::ms_of(secs) / 1000) as u64),
                },
            },
        }
    }

    /// Whether the token has lapsed by `now`, with the margin to spare.
    pub open spec fn lapsed_by(&self, now: u64) -> bool {
        self.expires_spec() matches Some(exp) && exp <= sat_add(now, EXPIRY_MARGIN_SECS)
    }

    pub fn expires_at(&self) -> (r: Option<u64>)
        ensures
            r == self.expires_spec(),
    {
        let token = self.cookies.get(ACCOUNT_COOKIE)?;
        match jwt::expiry_ms(token.as_str()) {
            Some(ms) => Some(ms / 1000),
            None => None,
        }
    }

    /// Whether the token has lapsed by `now`, with the margin to spare.
    pub fn lapsed_at(&self, now: u64) -> (r: bool)
        ensures
            r == self.lapsed_by(now),
    {
        match self.expires_at() {
            Some(exp) => exp <= now.saturating_add(EXPIRY_MARGIN_SECS),
            None => false,
        }
    }

    /// Whether the token has lapsed, by the clock.
    pub fn lapsed(&self) -> (r: bool)
        ensures
            exists|now: u64| r == #[trigger] self.lapsed_by(now),
    {
        self.lapsed_at(jwt::now_secs())
    }

    /// The session's text for a log: cookie names and whether there is an
    /// account, never a value.
    pub fn redacted(&self) -> (r: String)
        ensures
            r@ == "Session { cookies: ["@ + quoted_names(self.jar()) + "], account: "@ + (if (entries_get(
                self.jar(),
                REFRESH_COOKIE@,
            ) matches Some(t) && t.len() > 0) || self.shopper_spec() is Some {
                "true"@
            } else {
                "false"@
            }) + " }"@,
    {
        let mut out = String::new();
        out.append("Session { cookies: [");
        let names = names_quoted(&self.cookies);
        out.append(names.as_str());
        out.append("], account: ");
        if self.account() {
            out.append("true");
        } else {
            out.append("false");
        }
        out.append(" }");
        out
    }
}

/// Fold set cookies into a jar: an empty value deletes.
pub open spec fn absorb_all(jar: Entries, pairs: Entries) -> Entries
    decreases pairs.len(),
{
    if pairs.len() == 0 {
        jar
    } else {
        let (name, value) = pairs[0];
        let next = if value.len() == 0 {
            entries_remove(jar, name)
        } else {
            entries_insert(jar, name, value)
        };
        absorb_all(next, pairs.drop_first())
    }
}

/// A session on disk.
pub struct StoredSession {
    pub email: Option<String>,
    pub cookies: CookieMap,
    pub obtained_at: u64,
}

impl StoredSession {
    /// The record as a log shows it: the email, the cookies' names and when
    /// it was obtained -- never a value.
    pub fn redacted(&self) -> (r: String)
        ensures
            r@ == "StoredSession { email: "@ + opt_text(self.email.deep_view()) + ", cookies: ["@ + quoted_names(
                self.cookies@,
            ) + "], obtained_at: "@ + text::decimal(self.obtained_at as nat) + " }"@,
    {
        let mut out = String::new();
        out.append("StoredSession { email: ");
        let email = opt_quoted(&self.email);
        out.append(email.as_str());
        out.append(", cookies: [");
        let names = names_quoted(&self.cookies);
        out.append(names.as_str());
        out.append("], obtained_at: ");
        let at = crate::text::decimal_string(self.obtained_at);
        out.append(at.as_str());
        out.append(" }");
        out
    }

    pub fn of_at(session: &Session, email: Option<String>, now: u64) -> (r: StoredSession)
        ensures
            r.cookies@ == session.jar(),
            r.email == email,
            r.obtained_at == now,
    {
        StoredSession { email, cookies: session.cookies(), obtained_at: now }
    }

    pub fn of(session: &Session, email: Option<String>) -> (r: StoredSession)
        ensures
            r.cookies@ == session.jar(),
            r.email == email,
    {
        StoredSession::of_at(session, email, jwt::now_secs())
    }

    pub fn session(&self) -> (s: Session)
        ensures
            s.jar() == self.cookies@,
    {
        Session::from_cookies(self.cookies.duplicate())
    }
}

} // verus!
