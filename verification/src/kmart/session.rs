//! What a request is made with.
//!
//! Kmart needs two independent credentials: a bearer token from Auth0, which
//! says who you are, and bot-manager cookies for the gateway, which say you
//! are a browser. Either can be present without the other, and the failures
//! need opposite advice, so [`Session::signed_in`] and [`Session::admitted`]
//! are separate questions.
use vstd::prelude::*;

use crate::kmart::country::{country_named, Country};
use crate::netkit::cookies::{lemma_insert_keys, lemma_remove_keys, entries_has, entries_insert, entries_remove, header_text, names_quoted, quoted_names, set_cookie_entries, set_cookies, CookieMap, Entries};
use crate::netkit::jwt;
use crate::text;
use crate::text::{cat, starts_with_str};

verus! {

/// Where a stored session is filed in the credential store.
pub const ACCOUNT: &'static str = "session";

/// Renew this long before the token expires, so one does not lapse midway
/// through a command that makes several calls.
pub const EXPIRY_MARGIN_SECS: u64 = 180;

/// The cookies worth keeping out of a browser export: the bot manager's.
pub open spec fn admission_cookie(name: Seq<char>) -> bool {
    name == "_abck"@ || name == "ak_bmsc"@ || text::starts_with(name, "bm_"@)
}

pub fn is_admission_cookie(name: &str) -> (r: bool)
    ensures
        r == admission_cookie(name@),
{
    text::eq_str(name, "_abck") || text::eq_str(name, "ak_bmsc") || starts_with_str(name, "bm_")
}

/// An Auth0 token pair.
pub struct Tokens {
    pub access: String,
    /// Present because the storefront asks for `offline_access`.
    pub refresh: Option<String>,
    /// Unix seconds.
    pub expires_at: u64,
}

pub type TokensView = (Seq<char>, Option<Seq<char>>, u64);

impl View for Tokens {
    type V = TokensView;

    open spec fn view(&self) -> TokensView {
        (
            self.access@,
            match self.refresh {
                Some(r) => Some(r@),
                None => None,
            },
            self.expires_at,
        )
    }
}

/// When a token pair lapses: at its own `exp` claim where the access token
/// carries one, else `expires_in` (fifteen minutes when absent) after `now`.
pub open spec fn expiry_of(access: Seq<char>, expires_in: Option<u64>, now: u64) -> u64 {
    match jwt::payload_bytes(access) {
        Some(b) => match jwt::json_u64_claim(b, "exp"@) {
            Some(secs) => jwt::ms_of(secs) / 1000,
            None => sat_add(now, expires_in.unwrap_or(900)),
        },
        None => sat_add(now, expires_in.unwrap_or(900)),
    }
}

pub open spec fn sat_add(a: u64, b: u64) -> u64 {
    if a + b > u64::MAX {
        u64::MAX
    } else {
        (a + b) as u64
    }
}

impl Tokens {
    /// The pair as a log shows it: whether there is a refresh token, and
    /// when they expire -- never a token.
    pub fn redacted(&self) -> (r: String)
        ensures
            r@ == token_text(self@),
    {
        let mut out = String::new();
        out.append("Tokens { access: \"<redacted>\", refresh: ");
        if self.refresh.is_some() {
            out.append("Some(\"<redacted>\")");
        } else {
            out.append("None");
        }
        out.append(", expires_at: ");
        let at = crate::text::decimal_string(self.expires_at);
        out.append(at.as_str());
        out.append(" }");
        out
    }

    /// Build from what `/oauth/token` answered, at `now`.
    ///
    /// The JWT's own claim is preferred: it is what the gateway will actually
    /// enforce, and `expires_in` is relative to a clock that may not be this
    /// one.
    pub fn new_at(access: String, refresh: Option<String>, expires_in: Option<u64>, now: u64) -> (t: Tokens)
        ensures
            t@ == (access@, (match refresh {
                Some(r) => Some(r@),
                None => None,
            }), expiry_of(access@, expires_in, now)),
    {
        let expires_at = match jwt::expiry_ms(access.as_str()) {
            Some(ms) => ms / 1000,
            None => {
                let within = match expires_in {
                    Some(s) => s,
                    None => 900,
                };
                now.saturating_add(within)
            },
        };
        Tokens { access, refresh, expires_at }
    }

    /// Build from what `/oauth/token` answered, reading the clock.
    pub fn new(access: String, refresh: Option<String>, expires_in: Option<u64>) -> (t: Tokens)
        ensures
            t@.0 == access@,
            t@.1 == (match refresh {
                Some(r) => Some(r@),
                None => None,
            }),
            exists|now: u64| t@.2 == expiry_of(access@, expires_in, now),
    {
        Tokens::new_at(access, refresh, expires_in, jwt::now_secs())
    }

    /// A pair holding only a refresh token: nothing to authorise a request
    /// with yet, and born lapsed so the first call renews.
    pub fn from_refresh(refresh: String) -> (t: Tokens)
        ensures
            t@ == (Seq::<char>::empty(), Some(refresh@), 0u64),
    {
        Tokens { access: String::new(), refresh: Some(refresh), expires_at: 0 }
    }

    /// Whether this has run out by `now`, or is within the margin of it.
    pub fn lapsed_at(&self, now: u64) -> (r: bool)
        ensures
            r == (self.expires_at <= sat_add(now, EXPIRY_MARGIN_SECS)),
    {
        self.expires_at <= now.saturating_add(EXPIRY_MARGIN_SECS)
    }

    /// Whether this has run out, or is about to, by the clock.
    pub fn lapsed(&self) -> (r: bool)
        ensures
            exists|now: u64| r == (self.expires_at <= sat_add(now, EXPIRY_MARGIN_SECS)),
    {
        self.lapsed_at(jwt::now_secs())
    }

    /// Whose it is, off the token's own claims. Unverified.
    pub fn subject(&self) -> (r: Option<String>)
        ensures
            r.deep_view() == (match jwt::payload_bytes(self.access@) {
                None => None,
                Some(b) => jwt::json_str_claim(b, "sub"@),
            }),
    {
        jwt::claim_str(self.access.as_str(), "sub")
    }

    /// The same pair, as a new value.
    pub fn duplicate(&self) -> (t: Tokens)
        ensures
            t@ == self@,
    {
        let refresh = match &self.refresh {
            Some(r) => Some(r.clone()),
            None => None,
        };
        Tokens { access: self.access.clone(), refresh, expires_at: self.expires_at }
    }
}

/// The credentials one request is made with.
pub struct Session {
    tokens: Option<Tokens>,
    /// Per country, because the two storefronts are different bot-manager
    /// origins and a cookie earned on one is not accepted by the other.
    au: Option<CookieMap>,
    nz: Option<CookieMap>,
}

/// A session as values: its tokens, and each country's cookies where it has
/// a set.
pub type SessionView = (Option<TokensView>, Option<Entries>, Option<Entries>);

/// Tokens as a log shows them: whether there are any, whether a refresh
/// token is among them, and when they expire.
pub open spec fn tokens_text(t: Option<TokensView>) -> Seq<char> {
    match t {
        Some(v) => "Some("@ + token_text(v) + ")"@,
        None => "None"@,
    }
}

/// A token pair as a log shows it: names and times only.
pub open spec fn token_text(v: TokensView) -> Seq<char> {
    "Tokens { access: \"<redacted>\", refresh: "@ + (if v.1 is Some {
        "Some(\"<redacted>\")"@
    } else {
        "None"@
    }) + ", expires_at: "@ + text::decimal(v.2 as nat) + " }"@
}

/// An optional text as a log shows it, quoted.
pub open spec fn opt_text(t: Option<Seq<char>>) -> Seq<char> {
    match t {
        Some(x) => "Some(\""@ + x + "\")"@,
        None => "None"@,
    }
}

pub fn opt_quoted(t: &Option<String>) -> (r: String)
    ensures
        r@ == opt_text(t.deep_view()),
{
    match t {
        Some(x) => {
            let mut out = String::new();
            out.append("Some(\"");
            out.append(x.as_str());
            out.append("\")");
            out
        },
        None => "None".to_owned(),
    }
}

/// One country's cookies as a log shows them: its code and their names.
pub open spec fn jar_text(code: Seq<char>, jar: Entries) -> Seq<char> {
    "\""@ + code + "\": ["@ + quoted_names(jar) + "]"@
}

/// The countries' cookies as a log shows them, Australia first.
pub open spec fn jars_text(s: SessionView) -> Seq<char> {
    match (s.1, s.2) {
        (Some(a), Some(n)) => jar_text("AU"@, a) + ", "@ + jar_text("NZ"@, n),
        (Some(a), None) => jar_text("AU"@, a),
        (None, Some(n)) => jar_text("NZ"@, n),
        (None, None) => seq![],
    }
}

fn jar_line(code: &str, m: &CookieMap) -> (r: String)
    ensures
        r@ == jar_text(code@, m@),
{
    let mut out = String::new();
    out.append("\"");
    out.append(code);
    out.append("\": [");
    let names = names_quoted(m);
    out.append(names.as_str());
    out.append("]");
    out
}

pub open spec fn opt_tokens(t: Option<Tokens>) -> Option<TokensView> {
    match t {
        Some(t) => Some(t@),
        None => None,
    }
}

pub open spec fn opt_jar(m: Option<CookieMap>) -> Option<Entries> {
    match m {
        Some(m) => Some(m@),
        None => None,
    }
}

/// One country's cookies in a session's view.
pub open spec fn jar_of(s: SessionView, country: Country) -> Option<Entries> {
    match country {
        Country::Au => s.1,
        Country::Nz => s.2,
    }
}

/// A session's view with one country's cookies set.
pub open spec fn with_jar(s: SessionView, country: Country, jar: Entries) -> SessionView {
    match country {
        Country::Au => (s.0, Some(jar), s.2),
        Country::Nz => (s.0, s.1, Some(jar)),
    }
}

/// Fold a response's cookies into a jar: bot-manager cookies only, and an
/// empty value deletes.
pub open spec fn absorb_entries(jar: Entries, pairs: Entries) -> Entries
    decreases pairs.len(),
{
    if pairs.len() == 0 {
        jar
    } else {
        let (name, value) = pairs[0];
        let next = if !admission_cookie(name) {
            jar
        } else if value.len() == 0 {
            entries_remove(jar, name)
        } else {
            entries_insert(jar, name, value)
        };
        absorb_entries(next, pairs.drop_first())
    }
}

impl Session {
    pub closed spec fn view_of(&self) -> SessionView {
        (opt_tokens(self.tokens), opt_jar(self.au), opt_jar(self.nz))
    }

    pub fn new() -> (s: Session)
        ensures
            s.view_of() == (None::<TokensView>, None::<Entries>, None::<Entries>),
    {
        Session { tokens: None, au: None, nz: None }
    }

    pub fn with_tokens(self, tokens: Tokens) -> (s: Session)
        ensures
            s.view_of() == (Some(tokens@), self.view_of().1, self.view_of().2),
    {
        Session { tokens: Some(tokens), au: self.au, nz: self.nz }
    }

    pub fn with_cookies(self, country: Country, cookies: CookieMap) -> (s: Session)
        ensures
            s.view_of() == with_jar(self.view_of(), country, cookies@),
    {
        match country {
            Country::Au => Session { tokens: self.tokens, au: Some(cookies), nz: self.nz },
            Country::Nz => Session { tokens: self.tokens, au: self.au, nz: Some(cookies) },
        }
    }

    pub fn tokens(&self) -> (r: Option<&Tokens>)
        ensures
            opt_tokens(match r {
                Some(t) => Some(*t),
                None => None,
            }) == self.view_of().0,
    {
        match &self.tokens {
            Some(t) => Some(t),
            None => None,
        }
    }

    fn jar(&self, country: Country) -> (r: Option<&CookieMap>)
        ensures
            opt_jar(match r {
                Some(m) => Some(*m),
                None => None,
            }) == jar_of(self.view_of(), country),
    {
        match country {
            Country::Au => match &self.au {
                Some(m) => Some(m),
                None => None,
            },
            Country::Nz => match &self.nz {
                Some(m) => Some(m),
                None => None,
            },
        }
    }

    /// Whether there is an account behind this.
    pub fn signed_in(&self) -> (r: bool)
        ensures
            r == self.view_of().0 is Some,
    {
        self.tokens.is_some()
    }

    /// Whether the gateway will look at a request at all: the country's jar
    /// holds the cookie that carries the bot manager's verdict.
    pub fn admitted(&self, country: Country) -> (r: bool)
        ensures
            r == (jar_of(self.view_of(), country) matches Some(j) && entries_has(j, "_abck"@)),
    {
        match self.jar(country) {
            Some(m) => m.contains_key("_abck"),
            None => false,
        }
    }

    /// One country's admission cookies, or an empty set when there are none.
    pub fn admission(&self, country: Country) -> (r: CookieMap)
        ensures
            r@ == (match jar_of(self.view_of(), country) {
                Some(j) => j,
                None => Seq::empty(),
            }),
    {
        match self.jar(country) {
            Some(m) => m.duplicate(),
            None => CookieMap::new(),
        }
    }

    /// The `Cookie` header for one country, or `None` when there is nothing
    /// to send.
    pub fn cookie_header(&self, country: Country) -> (r: Option<String>)
        ensures
            match jar_of(self.view_of(), country) {
                Some(j) if j.len() > 0 => r matches Some(h) && h@ == header_text(j),
                _ => r is None,
            },
    {
        match self.jar(country) {
            Some(m) => m.header(),
            None => None,
        }
    }

    /// The `Authorization` header, when there is a usable token: none for an
    /// empty access token, which is what a session imported as a bare refresh
    /// token holds until it has renewed once.
    pub fn bearer(&self) -> (r: Option<String>)
        ensures
            match self.view_of().0 {
                Some(t) if t.0.len() > 0 => r matches Some(h) && h@ == "Bearer "@ + t.0,
                _ => r is None,
            },
    {
        match &self.tokens {
            Some(t) => {
                if t.access.as_str().is_empty() {
                    None
                } else {
                    Some(cat("Bearer ", t.access.as_str()))
                }
            },
            None => None,
        }
    }

    /// Fold in what a response set -- its `Set-Cookie` values -- so cookies
    /// earned mid-run are kept.
    pub fn absorb(&mut self, country: Country, set_cookie_values: &Vec<String>)
        ensures
            final(self).view_of() == with_jar(
                old(self).view_of(),
                country,
                absorb_entries(
                    match jar_of(old(self).view_of(), country) {
                        Some(j) => j,
                        None => Seq::empty(),
                    },
                    set_cookie_entries(seq![], set_cookie_values@.map_values(|s: String| s@)),
                ),
            ),
    {
        let fresh = set_cookies(set_cookie_values);
        let pairs = fresh.pairs();
        let mut jar = self.admission(country);
        let ghost all = fresh@;
        let ghost goal = absorb_entries(jar@, all);
        let n = pairs.len();
        let mut i: usize = 0;
        assert(all.skip(0) =~= all);
        while i < n
            invariant
                n == pairs@.len(),
                n == all.len(),
                forall|j: int| 0 <= j < n ==> ((#[trigger] pairs@[j]).0@, pairs@[j].1@) == all[j],
                i <= n,
                absorb_entries(jar@, all.skip(i as int)) == goal,
            decreases n - i,
        {
            let name = &pairs[i].0;
            let value = &pairs[i].1;
            assert(all.skip(i as int)[0] == all[i as int]);
            assert(all.skip(i as int).drop_first() =~= all.skip(i + 1));
            if is_admission_cookie(name.as_str()) {
                if value.as_str().is_empty() {
                    jar.remove(name.as_str());
                } else {
                    jar.insert(name.clone(), value.clone());
                }
            }
            i += 1;
        }
        assert(all.skip(n as int).len() == 0);
        match country {
            Country::Au => self.au = Some(jar),
            Country::Nz => self.nz = Some(jar),
        }
    }

    /// The session's text for a log: token presence and expiry and cookie
    /// names, and never a credential's value.
    pub fn redacted(&self) -> (r: String)
        ensures
            r@ == "Session { tokens: "@ + tokens_text(self.view_of().0) + ", cookies: {"@ + jars_text(
                self.view_of(),
            ) + "} }"@,
    {
        proof {
            reveal_strlit("AU");
            reveal_strlit("NZ");
        }
        let mut out = String::new();
        out.append("Session { tokens: ");
        match &self.tokens {
            Some(t) => {
                out.append("Some(");
                let text = t.redacted();
                out.append(text.as_str());
                out.append(")");
            },
            None => out.append("None"),
        }
        out.append(", cookies: {");
        let au = match self.jar(Country::Au) {
            Some(m) => Some(jar_line("AU", m)),
            None => None,
        };
        let nz = match self.jar(Country::Nz) {
            Some(m) => Some(jar_line("NZ", m)),
            None => None,
        };
        match (&au, &nz) {
            (Some(a), Some(n)) => {
                out.append(a.as_str());
                out.append(", ");
                out.append(n.as_str());
            },
            (Some(a), None) => out.append(a.as_str()),
            (None, Some(n)) => out.append(n.as_str()),
            (None, None) => {},
        }
        out.append("} }");
        out
    }
}

/// A session on disk.
pub struct StoredSession {
    /// The email it was obtained for, so a status command can name it.
    pub email: Option<String>,
    pub tokens: Option<Tokens>,
    /// Which storefront signed this in, by country code. A refresh token is
    /// bound to the application that minted it, so renewing needs to know.
    pub auth_country: Option<String>,
    /// Each country's cookies, by country code.
    pub cookies: Vec<(String, CookieMap)>,
    pub obtained_at: u64,
}

/// The stored cookies as values.
pub open spec fn stored_jars(cookies: Seq<(String, CookieMap)>) -> Seq<(Seq<char>, Entries)> {
    cookies.map_values(|e: (String, CookieMap)| (e.0@, e.1@))
}

/// What a session holds for the jars a stored session lists: each entry
/// whose code names a country sets that country's jar, a later one winning.
pub open spec fn restore_jars(s: SessionView, jars: Seq<(Seq<char>, Entries)>) -> SessionView
    decreases jars.len(),
{
    if jars.len() == 0 {
        s
    } else {
        let next = match country_named(text::lower_seq(text::trim(jars[0].0))) {
            Some(c) => with_jar(s, c, jars[0].1),
            None => s,
        };
        restore_jars(next, jars.drop_first())
    }
}

/// The jars a session is stored with: Australia's first, then New
/// Zealand's, each under its code.
pub open spec fn store_jars(s: SessionView) -> Seq<(Seq<char>, Entries)> {
    let au = match s.1 {
        Some(j) => seq![("AU"@, j)],
        None => seq![],
    };
    let nz = match s.2 {
        Some(j) => seq![("NZ"@, j)],
        None => seq![],
    };
    au + nz
}

/// A stored session's cookies as a log shows them: each country's code and
/// its cookies' names, in the order held.
pub open spec fn jars_listed(jars: Seq<(Seq<char>, Entries)>) -> Seq<char>
    decreases jars.len(),
{
    if jars.len() == 0 {
        seq![]
    } else if jars.len() == 1 {
        jar_text(jars[0].0, jars[0].1)
    } else {
        jars_listed(jars.drop_last()) + ", "@ + jar_text(jars.last().0, jars.last().1)
    }
}

impl StoredSession {
    /// The record as a log shows it: the email, the tokens' presence and
    /// expiry, and the cookies' names -- never a credential.
    pub fn redacted(&self) -> (r: String)
        ensures
            r@ == "StoredSession { email: "@ + opt_text(self.email.deep_view()) + ", tokens: "@ + tokens_text(
                opt_tokens(self.tokens),
            ) + ", cookies: {"@ + jars_listed(stored_jars(self.cookies@)) + "} }"@,
    {
        let mut out = String::new();
        out.append("StoredSession { email: ");
        let email = opt_quoted(&self.email);
        out.append(email.as_str());
        out.append(", tokens: ");
        match &self.tokens {
            Some(t) => {
                out.append("Some(");
                let text = t.redacted();
                out.append(text.as_str());
                out.append(")");
            },
            None => out.append("None"),
        }
        out.append(", cookies: {");
        let ghost jars = stored_jars(self.cookies@);
        let n = self.cookies.len();
        let mut listed = String::new();
        let mut k: usize = 0;
        while k < n
            invariant
                n == self.cookies@.len(),
                jars == stored_jars(self.cookies@),
                k <= n,
                listed@ == jars_listed(jars.take(k as int)),
            decreases n - k,
        {
            assert(jars.take(k + 1).drop_last() =~= jars.take(k as int));
            assert(jars[k as int] == (self.cookies@[k as int].0@, self.cookies@[k as int].1@));
            if k > 0 {
                listed.append(", ");
            }
            let line = jar_line(self.cookies[k].0.as_str(), &self.cookies[k].1);
            listed.append(line.as_str());
            proof {
                if k == 0 {
                    assert(listed@ =~= jar_text(jars[0].0, jars[0].1));
                }
            }
            k += 1;
        }
        assert(jars.take(n as int) =~= jars);
        out.append(listed.as_str());
        out.append("} }");
        out
    }

    /// A record of `session` for `email`, taken at `now`.
    pub fn of_at(session: &Session, email: Option<String>, now: u64) -> (r: StoredSession)
        ensures
            opt_tokens(r.tokens) == session.view_of().0,
            stored_jars(r.cookies@) == store_jars(session.view_of()),
            r.auth_country is None,
            r.email == email,
            r.obtained_at == now,
    {
        let tokens = match &session.tokens {
            Some(t) => Some(t.duplicate()),
            None => None,
        };
        let mut cookies: Vec<(String, CookieMap)> = Vec::new();
        match &session.au {
            Some(m) => cookies.push(("AU".to_owned(), m.duplicate())),
            None => {},
        }
        let ghost mid = cookies@;
        match &session.nz {
            Some(m) => cookies.push(("NZ".to_owned(), m.duplicate())),
            None => {},
        }
        assert(stored_jars(cookies@) =~= store_jars(session.view_of()));
        StoredSession { email, auth_country: None, tokens, cookies, obtained_at: now }
    }

    /// A record of `session` for `email`, stamped by the clock.
    pub fn of(session: &Session, email: Option<String>) -> (r: StoredSession)
        ensures
            opt_tokens(r.tokens) == session.view_of().0,
            stored_jars(r.cookies@) == store_jars(session.view_of()),
            r.auth_country is None,
            r.email == email,
    {
        StoredSession::of_at(session, email, jwt::now_secs())
    }

    /// Say which storefront signed this in.
    pub fn with_auth_country(self, country: Option<Country>) -> (r: StoredSession)
        ensures
            match country {
                Some(c) => r.auth_country matches Some(a) && a@ == c.code_spec(),
                None => r.auth_country is None,
            },
            r.email == self.email,
            r.tokens == self.tokens,
            r.cookies == self.cookies,
            r.obtained_at == self.obtained_at,
    {
        let auth_country = match country {
            Some(c) => Some(c.code().to_owned()),
            None => None,
        };
        StoredSession { auth_country, ..self }
    }

    /// Which storefront signed this in, if it was recorded.
    pub fn auth_country(&self) -> (r: Option<Country>)
        ensures
            r == (match self.auth_country {
                Some(a) => country_named(text::lower_seq(text::trim(a@))),
                None => None,
            }),
    {
        match &self.auth_country {
            Some(a) => Country::parse(a.as_str()),
            None => None,
        }
    }

    /// The live session this record describes.
    pub fn session(&self) -> (s: Session)
        ensures
            s.view_of() == restore_jars(
                (opt_tokens(self.tokens), None, None),
                stored_jars(self.cookies@),
            ),
    {
        let mut session = Session::new();
        match &self.tokens {
            Some(t) => {
                session = session.with_tokens(t.duplicate());
            },
            None => {},
        }
        let ghost all = stored_jars(self.cookies@);
        let ghost goal = restore_jars(session.view_of(), all);
        let n = self.cookies.len();
        let mut i: usize = 0;
        assert(all.skip(0) =~= all);
        while i < n
            invariant
                n == self.cookies@.len(),
                all == stored_jars(self.cookies@),
                i <= n,
                restore_jars(session.view_of(), all.skip(i as int)) == goal,
            decreases n - i,
        {
            let (code, jar) = &self.cookies[i];
            assert(all.skip(i as int)[0] == all[i as int]);
            assert(all.skip(i as int).drop_first() =~= all.skip(i + 1));
            match Country::parse(code.as_str()) {
                Some(country) => {
                    session = session.with_cookies(country, jar.duplicate());
                },
                None => {},
            }
            i += 1;
        }
        assert(all.skip(n as int).len() == 0);
        session
    }
}

/// A session stored and restored is the session it was: the same tokens and
/// each country's cookies unchanged.
pub proof fn lemma_stored_round_trip(s: SessionView)
    ensures
        restore_jars((s.0, None, None), store_jars(s)) == s,
{
    reveal_strlit("AU");
    reveal_strlit("NZ");
    let au = "AU"@;
    let nz = "NZ"@;
    assert(text::trim_start(au) == au);
    assert(text::trim_end(au) == au);
    assert(text::lower_seq(au) =~= "au"@) by {
        reveal_strlit("au");
    }
    assert(text::trim_start(nz) == nz);
    assert(text::trim_end(nz) == nz);
    assert(text::lower_seq(nz) =~= "nz"@) by {
        reveal_strlit("nz");
    }
    assert(text::trim(au) == au);
    assert(text::trim(nz) == nz);
    assert(country_named(text::lower_seq(text::trim(au))) == Some(Country::Au));
    assert(country_named(text::lower_seq(text::trim(nz))) == Some(Country::Nz)) by {
        reveal_strlit("au");
        reveal_strlit("aus");
        reveal_strlit("australia");
        reveal_strlit("nz");
        assert("nz"@[0] != "au"@[0]);
        assert("nz"@[0] != "aus"@[0]);
        assert("nz"@[0] != "australia"@[0]);
    }
    let s0: SessionView = (s.0, None, None);
    let jars = store_jars(s);
    match (s.1, s.2) {
        (Some(a), Some(z)) => {
            assert(jars =~= seq![(au, a), (nz, z)]);
            let s1 = with_jar(s0, Country::Au, a);
            assert(jars.drop_first() =~= seq![(nz, z)]);
            assert(restore_jars(s0, jars) == restore_jars(s1, jars.drop_first()));
            let s2 = with_jar(s1, Country::Nz, z);
            assert(jars.drop_first().drop_first().len() == 0);
            assert(restore_jars(s1, jars.drop_first()) == restore_jars(s2, jars.drop_first().drop_first()));
            assert(s2 == s);
        },
        (Some(a), None) => {
            assert(jars =~= seq![(au, a)]);
            assert(jars.drop_first().len() == 0);
            assert(restore_jars(s0, jars) == restore_jars(with_jar(s0, Country::Au, a), jars.drop_first()));
        },
        (None, Some(z)) => {
            assert(jars =~= seq![(nz, z)]);
            assert(jars.drop_first().len() == 0);
            assert(restore_jars(s0, jars) == restore_jars(with_jar(s0, Country::Nz, z), jars.drop_first()));
        },
        (None, None) => {
            assert(jars.len() == 0);
        },
    }
}


/// Admission does not carry across the Tasman: setting one country's cookies
/// leaves the other country's, and the tokens, as they were.
pub proof fn lemma_jars_stay_apart(s: SessionView, c: Country, jar: Entries, other: Country)
    requires
        c != other,
    ensures
        jar_of(with_jar(s, c, jar), other) == jar_of(s, other),
        jar_of(with_jar(s, c, jar), c) == Some(jar),
        with_jar(s, c, jar).0 == s.0,
{
}

/// Absorbing a response keeps the bot-manager cookies and drops the rest: a
/// jar that held nothing else holds nothing else afterwards.
pub proof fn lemma_absorb_keeps_only_admission(jar: Entries, pairs: Entries)
    requires
        forall|i: int| 0 <= i < jar.len() ==> admission_cookie(#[trigger] jar[i].0),
    ensures
        forall|i: int|
            0 <= i < absorb_entries(jar, pairs).len() ==> admission_cookie(
                #[trigger] absorb_entries(jar, pairs)[i].0,
            ),
    decreases pairs.len(),
{
    if pairs.len() > 0 {
        let (name, value) = pairs[0];
        let next = if !admission_cookie(name) {
            jar
        } else if value.len() == 0 {
            entries_remove(jar, name)
        } else {
            entries_insert(jar, name, value)
        };
        if admission_cookie(name) {
            if value.len() == 0 {
                lemma_remove_keys(jar, name);
                assert forall|i: int| 0 <= i < next.len() implies admission_cookie(#[trigger] next[i].0) by {
                    let j = choose|j: int| 0 <= j < jar.len() && next[i].0 == jar[j].0;
                    assert(admission_cookie(jar[j].0));
                }
            } else {
                lemma_insert_keys(jar, name, value);
                assert forall|i: int| 0 <= i < next.len() implies admission_cookie(#[trigger] next[i].0) by {
                    if next[i].0 != name {
                        let j = choose|j: int| 0 <= j < jar.len() && next[i].0 == jar[j].0;
                        assert(admission_cookie(jar[j].0));
                    }
                }
            }
        }
        assert(absorb_entries(jar, pairs) == absorb_entries(next, pairs.drop_first()));
        lemma_absorb_keeps_only_admission(next, pairs.drop_first());
    }
}

} // verus!
