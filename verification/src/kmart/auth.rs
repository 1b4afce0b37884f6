//! Signing in to Kmart, and the cookies a browser export brings.
//!
//! The login is Auth0's universal login with PKCE. The exchanges themselves
//! are the caller's; here are the URL that starts it, the pieces read off
//! each page the flow serves, and what a cookie export contributes.
use vstd::prelude::*;

use base64::Engine;
use sha2::Digest;

use crate::kmart::country::Country;
use crate::kmart::endpoints::{pair_views, query_string, query_text, Endpoints};
use crate::kmart::endpoints::{component, encode};
use crate::kmart::error::{challenge_body, is_challenge_body, Error};
use crate::kmart::session::{expiry_of, Tokens, admission_cookie, is_admission_cookie, with_jar, Session, SessionView};
use crate::kmart::vendor::{AUTH_AUDIENCE, AUTH_SCOPE};
use crate::netkit::cookies::{entries_insert, netscape_entries, CookieMap, Entries};
use crate::netkit::cookies as nk;
use crate::netkit::error::HttpError;
use crate::netkit::jwt;
use crate::text;
use crate::text::{cat, cat3, chars_of, contains_str, eq_str, find_at, index_in, replace_str, rfind_char, string_range, trim_bounds};

verus! {

/// A trace that discards everything.
pub fn no_trace(_step: &str, _detail: &str) {
}

/// A six-bit value as a letter of the URL-safe base64 alphabet:
/// `A`-`Z`, `a`-`z`, `0`-`9`, then `-` and `_`.
pub open spec fn b64_letter(v: int) -> char {
    if v < 26 {
        (('A' as int) + v) as char
    } else if v < 52 {
        (('a' as int) + (v - 26)) as char
    } else if v < 62 {
        (('0' as int) + (v - 52)) as char
    } else if v == 62 {
        '-'
    } else {
        '_'
    }
}

/// What `base64`'s URL-safe, unpadded engine encodes `bytes` to: each
/// three bytes as four letters of six bits each, most significant first; a
/// last one or two bytes as two or three letters, the spare low bits zero,
/// with no `=` padding.
pub open spec fn url_safe_b64(bytes: Seq<u8>) -> Seq<char>
    decreases bytes.len(),
{
    let b0 = if bytes.len() > 0 { bytes[0] as int } else { 0 };
    let b1 = if bytes.len() > 1 { bytes[1] as int } else { 0 };
    let b2 = if bytes.len() > 2 { bytes[2] as int } else { 0 };
    if bytes.len() == 0 {
        seq![]
    } else if bytes.len() == 1 {
        seq![b64_letter(b0 / 4), b64_letter((b0 % 4) * 16)]
    } else if bytes.len() == 2 {
        seq![b64_letter(b0 / 4), b64_letter((b0 % 4) * 16 + b1 / 16), b64_letter((b1 % 16) * 4)]
    } else {
        seq![
            b64_letter(b0 / 4),
            b64_letter((b0 % 4) * 16 + b1 / 16),
            b64_letter((b1 % 16) * 4 + b2 / 64),
            b64_letter(b2 % 64),
        ] + url_safe_b64(bytes.skip(3))
    }
}

/// The SHA-256 digest of `bytes`.
pub uninterp spec fn sha256(bytes: Seq<u8>) -> Seq<u8>;

/// `base64::engine::general_purpose::URL_SAFE_NO_PAD.encode`: the bytes in
/// the URL-safe alphabet without padding, as `url_safe_b64` spells out.
#[verifier::external_body]
fn b64(bytes: &[u8]) -> (r: String)
    ensures
        r@ == url_safe_b64(bytes@),
{
    base64::engine::general_purpose::URL_SAFE_NO_PAD.encode(bytes)
}

/// `sha2::Sha256::digest`.
#[verifier::external_body]
fn digest(bytes: &[u8]) -> (r: Vec<u8>)
    ensures
        r@ == sha256(bytes@),
{
    sha2::Sha256::digest(bytes).to_vec()
}

/// `n` bytes from `rand::fill`, the system's random source.
#[verifier::external_body]
fn random_bytes(n: usize) -> (r: Vec<u8>)
    ensures
        r@.len() == n,
{
    let mut bytes = vec![0u8; n];
    rand::fill(bytes.as_mut_slice());
    bytes
}

/// A PKCE pair: the secret, and the digest of it that goes out first.
pub struct Pkce {
    pub verifier: String,
    pub challenge: String,
}

impl Pkce {
    /// A pair around a fresh verifier: 32 random bytes, base64url.
    pub fn generate() -> (p: Pkce)
        ensures
            exists|bytes: Seq<u8>| bytes.len() == 32 && p.verifier@ == url_safe_b64(bytes),
            p.challenge@ == url_safe_b64(sha256(vstd::utf8::encode_utf8(p.verifier@))),
    {
        let bytes = random_bytes(32);
        Pkce::from_verifier(b64(bytes.as_slice()))
    }

    /// The pair for a given verifier: the challenge is the base64url of its
    /// SHA-256, as RFC 7636 specifies for `S256`.
    pub fn from_verifier(verifier: String) -> (p: Pkce)
        ensures
            p.verifier == verifier,
            p.challenge@ == url_safe_b64(sha256(vstd::utf8::encode_utf8(verifier@))),
    {
        let d = digest(verifier.as_str().as_bytes());
        let challenge = b64(d.as_slice());
        Pkce { verifier, challenge }
    }
}

/// A random URL-safe value, for `state` and `nonce`: 16 random bytes.
fn nonce() -> (r: String)
    ensures
        exists|bytes: Seq<u8>| bytes.len() == 16 && r@ == url_safe_b64(bytes),
{
    let bytes = random_bytes(16);
    b64(bytes.as_slice())
}

/// The parameters the `/authorize` request carries.
pub open spec fn authorize_params(
    endpoints: Endpoints,
    challenge: Seq<char>,
    state: Seq<char>,
    nonce: Seq<char>,
) -> Seq<(Seq<char>, Seq<char>)> {
    seq![
        ("client_id"@, endpoints.auth_client_id@),
        ("audience"@, AUTH_AUDIENCE@),
        ("redirect_uri"@, endpoints.auth_redirect@),
        ("scope"@, AUTH_SCOPE@),
        ("response_type"@, "code"@),
        ("response_mode"@, "query"@),
        ("prompt"@, "login"@),
        ("code_challenge"@, challenge),
        ("code_challenge_method"@, "S256"@),
        ("state"@, state),
        ("nonce"@, nonce),
    ]
}

/// The `/authorize` URL that starts a login, for a given `state` and `nonce`.
/// It asks for the form even when a session cookie is present, so the result
/// does not depend on state this process cannot see.
pub fn authorize_url_with(endpoints: &Endpoints, pkce: &Pkce, state: &str, nonce: &str) -> (r: String)
    ensures
        r@ == endpoints.auth@ + "/authorize"@ + "?"@ + query_text(
            authorize_params(*endpoints, pkce.challenge@, state@, nonce@),
        ),
{
    let mut params: Vec<(String, String)> = Vec::new();
    params.push(("client_id".to_owned(), endpoints.auth_client_id.clone()));
    params.push(("audience".to_owned(), AUTH_AUDIENCE.to_owned()));
    params.push(("redirect_uri".to_owned(), endpoints.auth_redirect.clone()));
    params.push(("scope".to_owned(), AUTH_SCOPE.to_owned()));
    params.push(("response_type".to_owned(), "code".to_owned()));
    params.push(("response_mode".to_owned(), "query".to_owned()));
    params.push(("prompt".to_owned(), "login".to_owned()));
    params.push(("code_challenge".to_owned(), pkce.challenge.clone()));
    params.push(("code_challenge_method".to_owned(), "S256".to_owned()));
    params.push(("state".to_owned(), state.to_owned()));
    params.push(("nonce".to_owned(), nonce.to_owned()));
    assert(pair_views(params@) =~= authorize_params(*endpoints, pkce.challenge@, state@, nonce@));
    let base = endpoints.authorize();
    let q = query_string(params.as_slice());
    cat3(base.as_str(), "?", q.as_str())
}

/// The `/authorize` URL that starts a login, with a fresh `state` and
/// `nonce`, so neither can be replayed.
pub fn authorize_url(endpoints: &Endpoints, pkce: &Pkce) -> (r: String)
    ensures
        exists|state: Seq<char>, nonce: Seq<char>| r@ == endpoints.auth@ + "/authorize"@ + "?"@
            + query_text(authorize_params(*endpoints, pkce.challenge@, state, nonce)),
{
    let state = nonce();
    let n = nonce();
    authorize_url_with(endpoints, pkce, state.as_str(), n.as_str())
}

// --------------------------------------------------------------- exports

/// The bot-manager cookies among `pairs`, with a value, inserted into `jar`.
pub open spec fn admitted_entries(jar: Entries, pairs: Entries) -> Entries
    decreases pairs.len(),
{
    if pairs.len() == 0 {
        jar
    } else {
        let (name, value) = pairs[0];
        let next = if admission_cookie(name) && value.len() > 0 {
            entries_insert(jar, name, value)
        } else {
            jar
        };
        admitted_entries(next, pairs.drop_first())
    }
}

/// What an export holds for one country: its bot-manager cookies.
pub open spec fn export_jar(text: Seq<char>, country: Country) -> Entries {
    admitted_entries(
        seq![],
        netscape_entries(text, match country {
            Country::Au => "kmart.com.au"@,
            Country::Nz => "kmart.co.nz"@,
        }),
    )
}

/// One country's bot-manager cookies out of a Netscape export. An export is
/// a whole browser profile and the rest of it has no business in a
/// credential store.
pub fn from_netscape(text: &str, country: Country) -> (m: CookieMap)
    ensures
        m@ == export_jar(text@, country),
{
    let all = nk::from_netscape(text, country.cookie_domain());
    let pairs = all.pairs();
    let ghost src = all@;
    let mut m = CookieMap::new();
    let n = pairs.len();
    let mut i: usize = 0;
    assert(src.skip(0) =~= src);
    while i < n
        invariant
            n == pairs@.len(),
            n == src.len(),
            forall|j: int| 0 <= j < n ==> ((#[trigger] pairs@[j]).0@, pairs@[j].1@) == src[j],
            i <= n,
            admitted_entries(m@, src.skip(i as int)) == admitted_entries(seq![], src),
        decreases n - i,
    {
        assert(src.skip(i as int)[0] == src[i as int]);
        assert(src.skip(i as int).drop_first() =~= src.skip(i + 1));
        let name = &pairs[i].0;
        let value = &pairs[i].1;
        if is_admission_cookie(name.as_str()) && !value.as_str().is_empty() {
            m.insert(name.clone(), value.clone());
        }
        i += 1;
    }
    assert(src.skip(n as int).len() == 0);
    m
}

/// What an export makes of a session: each country whose jar is not empty.
pub open spec fn export_session(text: Seq<char>) -> SessionView {
    let s0: SessionView = (None, None, None);
    let au = export_jar(text, Country::Au);
    let s1 = if au.len() > 0 { with_jar(s0, Country::Au, au) } else { s0 };
    let nz = export_jar(text, Country::Nz);
    if nz.len() > 0 { with_jar(s1, Country::Nz, nz) } else { s1 }
}

/// Both countries at once, since one export usually carries both.
pub fn session_from_netscape(text: &str) -> (s: Session)
    ensures
        s.view_of() == export_session(text@),
{
    let mut session = Session::new();
    let au = from_netscape(text, Country::Au);
    if !au.is_empty() {
        session = session.with_cookies(Country::Au, au);
    }
    let nz = from_netscape(text, Country::Nz);
    if !nz.is_empty() {
        session = session.with_cookies(Country::Nz, nz);
    }
    session
}

// ------------------------------------------------------------ the pages

/// What the `url` crate parses `u` to, as its path; `None` where it does not
/// parse.
pub uninterp spec fn url_path(u: Seq<char>) -> Option<Seq<char>>;

/// The query pairs of `u` as the `url` crate decodes them; `None` where it
/// does not parse.
pub uninterp spec fn url_query(u: Seq<char>) -> Option<Seq<(Seq<char>, Seq<char>)>>;

/// The ASCII serialisation of `u`'s origin; `None` where it does not parse.
pub uninterp spec fn url_origin(u: Seq<char>) -> Option<Seq<char>>;

/// Whether the `url` crate parses `u` as an absolute URL.
pub uninterp spec fn url_parses(u: Seq<char>) -> bool;

/// `location` resolved against `base`; `None` where `base` does not parse or
/// the join fails.
pub uninterp spec fn url_join(base: Seq<char>, location: Seq<char>) -> Option<Seq<char>>;

/// `u`'s host; `None` where it does not parse or has none.
pub uninterp spec fn url_host(u: Seq<char>) -> Option<Seq<char>>;

/// `url::Url::parse(u)`, then `Url::path`.
#[verifier::external_body]
fn path_of(u: &str) -> (r: Option<String>)
    ensures
        r.deep_view() == url_path(u@),
{
    url::Url::parse(u).ok().map(|p| p.path().to_string())
}

/// `url::Url::parse(u)`, then `Url::query_pairs`, each pair owned.
#[verifier::external_body]
fn query_of(u: &str) -> (r: Option<Vec<(String, String)>>)
    ensures
        match r {
            Some(v) => url_query(u@) == Some(v@.map_values(|p: (String, String)| (p.0@, p.1@))),
            None => url_query(u@) is None,
        },
{
    let url = url::Url::parse(u).ok()?;
    Some(url.query_pairs().map(|(k, v)| (k.to_string(), v.to_string())).collect())
}

/// `url::Url::parse(u)`, then `Url::origin().ascii_serialization()`.
#[verifier::external_body]
fn origin_text(u: &str) -> (r: Option<String>)
    ensures
        r.deep_view() == url_origin(u@),
{
    url::Url::parse(u).ok().map(|p| p.origin().ascii_serialization())
}

/// Whether `url::Url::parse(u)` succeeds.
#[verifier::external_body]
fn parses(u: &str) -> (r: bool)
    ensures
        r == url_parses(u@),
{
    url::Url::parse(u).is_ok()
}

/// `url::Url::parse(base)`, then `Url::join(location)`.
#[verifier::external_body]
fn joined(base: &str, location: &str) -> (r: Option<String>)
    ensures
        r.deep_view() == url_join(base@, location@),
{
    url::Url::parse(base).and_then(|b| b.join(location)).ok().map(String::from)
}

/// `url::Url::parse(u)`, then `Url::host_str`.
#[verifier::external_body]
fn host_text(u: &str) -> (r: Option<String>)
    ensures
        r.deep_view() == url_host(u@),
{
    url::Url::parse(u).ok().and_then(|p| p.host_str().map(str::to_string))
}

/// One response from the login flow: where it landed and what it served.
pub struct Page {
    /// The URL the redirect chain ended on.
    pub landed: String,
    /// Whether it answered with a 4xx.
    pub rejected: bool,
    pub html: String,
}

/// A URL's path, or nothing where it does not parse.
pub open spec fn path_or_empty(u: Seq<char>) -> Seq<char> {
    match url_path(u) {
        Some(p) => p,
        None => Seq::empty(),
    }
}

impl Page {
    /// Whether this page is the form that was just submitted, re-rendered
    /// with a 4xx -- which is how Auth0 reports a refusal.
    pub fn bounced(&self, submitted_to: &str) -> (r: bool)
        ensures
            r == (self.rejected && path_or_empty(self.landed@) == path_or_empty(submitted_to@)),
    {
        if !self.rejected {
            return false;
        }
        let a = match path_of(self.landed.as_str()) {
            Some(p) => p,
            None => String::new(),
        };
        let b = match path_of(submitted_to) {
            Some(p) => p,
            None => String::new(),
        };
        eq_str(a.as_str(), b.as_str())
    }

    /// Whether the page is a bot challenge.
    pub fn challenged(&self) -> (r: bool)
        ensures
            r == crate::kmart::error::challenge_body(self.html@),
    {
        is_challenge_body(self.html.as_str())
    }
}

/// The first value among `pairs` under `key`.
pub open spec fn first_value(pairs: Seq<(Seq<char>, Seq<char>)>, key: Seq<char>) -> Option<Seq<char>>
    decreases pairs.len(),
{
    if pairs.len() == 0 {
        None
    } else if pairs[0].0 == key {
        Some(pairs[0].1)
    } else {
        first_value(pairs.drop_first(), key)
    }
}

/// The `code` query parameter off the URL the flow ended on; none where it
/// is missing or empty.
pub open spec fn landed_code(landed: Seq<char>) -> Option<Seq<char>> {
    match url_query(landed) {
        None => None,
        Some(pairs) => match first_value(pairs, "code"@) {
            Some(c) if c.len() > 0 => Some(c),
            _ => None,
        },
    }
}

pub fn code_from(landed: &str) -> (r: Option<String>)
    ensures
        r.deep_view() == landed_code(landed@),
{
    let pairs = query_of(landed)?;
    let ghost all = pairs@.map_values(|p: (String, String)| (p.0@, p.1@));
    let n = pairs.len();
    let mut i: usize = 0;
    assert(all.skip(0) =~= all);
    while i < n
        invariant
            n == pairs@.len(),
            all == pairs@.map_values(|p: (String, String)| (p.0@, p.1@)),
            url_query(landed@) == Some(all),
            i <= n,
            first_value(all, "code"@) == first_value(all.skip(i as int), "code"@),
        decreases n - i,
    {
        assert(all.skip(i as int)[0] == all[i as int]);
        assert(all.skip(i as int).drop_first() =~= all.skip(i + 1));
        if eq_str(pairs[i].0.as_str(), "code") {
            if pairs[i].1.as_str().is_empty() {
                return None;
            }
            return Some(pairs[i].1.clone());
        }
        i += 1;
    }
    None
}

/// `url`'s origin, or `url` itself where it does not parse.
pub fn origin_of(url: &str) -> (r: String)
    ensures
        r@ == (match url_origin(url@) {
            Some(o) => o,
            None => url@,
        }),
{
    match origin_text(url) {
        Some(o) => o,
        None => url.to_owned(),
    }
}

/// A `Location` made absolute against the request it answered: an absolute
/// one as it is, a relative one joined to `base`, and as it is where that
/// fails.
pub open spec fn made_absolute(location: Seq<char>, base: Seq<char>) -> Seq<char> {
    if url_parses(location) {
        location
    } else {
        match url_join(base, location) {
            Some(j) => j,
            None => location,
        }
    }
}

pub fn absolute(location: &str, base: &str) -> (r: String)
    ensures
        r@ == made_absolute(location@, base@),
{
    if parses(location) {
        return location.to_owned();
    }
    match joined(base, location) {
        Some(j) => j,
        None => location.to_owned(),
    }
}

/// `url`'s host, or `url` itself where it has none.
pub open spec fn host_or_self(url: Seq<char>) -> Seq<char> {
    match url_host(url) {
        Some(h) => h,
        None => url,
    }
}

pub fn host_of(url: &str) -> (r: String)
    ensures
        r@ == host_or_self(url@),
{
    match host_text(url) {
        Some(h) => h,
        None => url.to_owned(),
    }
}

/// Whether the login flow follows a redirect to `host`: only within the
/// auth host, since the last hop goes to the bot-checked storefront and
/// carries the code. A target without a host is not followed.
pub fn follows(host: Option<&str>, auth_host: &str) -> (r: bool)
    ensures
        r == (host matches Some(h) && h@ == auth_host@),
{
    match host {
        Some(h) => eq_str(h, auth_host),
        None => false,
    }
}

// ------------------------------------------------------- page scraping

/// The handful of entities that turn up in these pages' text and
/// attributes, decoded.
pub open spec fn unescaped(s: Seq<char>) -> Seq<char> {
    text::replace(
        text::replace(
            text::replace(text::replace(text::replace(s, "&amp;"@, "&"@), "&quot;"@, "\""@), "&#39;"@, "'"@),
            "&lt;"@,
            "<"@,
        ),
        "&gt;"@,
        ">"@,
    )
}

pub fn strip_entities(s: &str) -> (r: String)
    ensures
        r@ == unescaped(s@),
{
    proof {
        reveal_strlit("&amp;");
        reveal_strlit("&quot;");
        reveal_strlit("&#39;");
        reveal_strlit("&lt;");
        reveal_strlit("&gt;");
    }
    let a = replace_str(s, "&amp;", "&");
    let b = replace_str(a.as_str(), "&quot;", "\"");
    let c = replace_str(b.as_str(), "&#39;", "'");
    let d = replace_str(c.as_str(), "&lt;", "<");
    replace_str(d.as_str(), "&gt;", ">")
}

/// The value of `name="..."` in a tag, entities decoded.
pub open spec fn attribute_value(tag: Seq<char>, name: Seq<char>) -> Option<Seq<char>> {
    let needle = name + "=\""@;
    match text::find(tag, needle) {
        None => None,
        Some(p) => {
            let at = p + needle.len();
            match text::index_of(tag.subrange(at, tag.len() as int), '"') {
                None => None,
                Some(e) => Some(unescaped(tag.subrange(at, at + e))),
            }
        },
    }
}

/// The value of `name="..."` in `v[from..to]`, entities decoded.
fn attribute_in(v: &Vec<char>, from: usize, to: usize, name: &str) -> (r: Option<String>)
    requires
        from <= to <= v.len(),
    ensures
        r.deep_view() == attribute_value(v@.subrange(from as int, to as int), name@),
{
    let tag = string_range(v, from, to);
    attribute(tag.as_str(), name)
}

pub fn attribute(tag: &str, name: &str) -> (r: Option<String>)
    ensures
        r.deep_view() == attribute_value(tag@, name@),
{
    let t = chars_of(tag);
    let needle_text = cat(name, "=\"");
    let needle = chars_of(needle_text.as_str());
    let n = t.len();
    match find_at(&t, &needle, 0) {
        None => None,
        Some(p) => {
            proof {
                text::lemma_find_from(t@, needle@, 0);
                assert(text::matches_at(t@, needle@, p as int));
            }
            let at = p + needle.len();
            match index_in(&t, '"', at, n) {
                None => None,
                Some(e) => {
                    let raw = string_range(&t, at, e);
                    assert(t@.subrange(at as int, n as int).subrange(0, e - at) =~= t@.subrange(
                        at as int,
                        e as int,
                    ));
                    Some(strip_entities(raw.as_str()))
                },
            }
        },
    }
}

/// The hidden `state` field, searching from `start`: the first tag carrying
/// `name="state"` with a non-empty `value`, the value allowed either side of
/// the name. A tag with no `<` before it or no `>` after it ends the search.
pub open spec fn form_state_from(html: Seq<char>, start: int) -> Option<Seq<char>>
    decreases html.len() - start,
{
    if start < 0 || start > html.len() {
        None
    } else {
        match text::find_from(html, "name=\"state\""@, start) {
            None => None,
            Some(a) => match text::rfind_char_in(html, '<', start, a) {
                None => None,
                Some(ts) => match text::find_from(html, ">"@, a) {
                    None => None,
                    Some(te) => {
                        proof {
                            reveal_strlit("name=\"state\"");
                            reveal_strlit(">");
                            text::lemma_find_from(html, "name=\"state\""@, start);
                            text::lemma_find_from(html, ">"@, a);
                            assert(html.subrange(a, a + 12)[0] == html[a]);
                            assert(html.subrange(te, te + 1)[0] == html[te]);
                        }
                        match attribute_value(html.subrange(ts, te), "value"@) {
                            Some(v) if v.len() > 0 => Some(v),
                            _ => form_state_from(html, te),
                        }
                    },
                },
            },
        }
    }
}

/// The value of the login form's hidden `state` field.
pub fn form_state(html: &str) -> (r: Option<String>)
    ensures
        r.deep_view() == form_state_from(html@, 0),
{
    let v = chars_of(html);
    let pat = chars_of("name=\"state\"");
    let gt = chars_of(">");
    let n = v.len();
    let mut start: usize = 0;
    proof {
        reveal_strlit("name=\"state\"");
        reveal_strlit(">");
    }
    loop
        invariant
            v@ == html@,
            n == v@.len(),
            pat@ == "name=\"state\""@,
            gt@ == ">"@,
            start <= n,
            form_state_from(v@, start as int) == form_state_from(v@, 0),
        decreases n - start,
    {
        let a = match find_at(&v, &pat, start) {
            None => return None,
            Some(a) => a,
        };
        proof {
            text::lemma_find_from(v@, pat@, start as int);
            text::lemma_rfind_char_in(v@, '<', start as int, a as int);
        }
        let ts = match rfind_char(&v, '<', start, a) {
            None => return None,
            Some(ts) => ts,
        };
        let te = match find_at(&v, &gt, a) {
            None => return None,
            Some(te) => te,
        };
        proof {
            reveal_strlit("name=\"state\"");
            reveal_strlit(">");
            text::lemma_find_from(v@, gt@, a as int);
            assert(text::matches_at(v@, pat@, a as int));
            assert(text::matches_at(v@, gt@, te as int));
            assert(v@.subrange(a as int, a + 12)[0] == v@[a as int]);
            assert(v@.subrange(te as int, te + 1)[0] == v@[te as int]);
        }
        match attribute_in(&v, ts, te, "value") {
            Some(value) => {
                if !value.as_str().is_empty() {
                    return Some(value);
                }
            },
            None => {},
        }
        start = te;
    }
}

/// The banner text after `marker`: from the end of the tag the marker sits
/// in to the next tag, trimmed and decoded; none where it is empty.
pub open spec fn banner_after(html: Seq<char>, marker: Seq<char>) -> Option<Seq<char>> {
    match text::find(html, marker) {
        None => None,
        Some(p) => {
            let at = p + marker.len();
            match text::index_of(html.subrange(at, html.len() as int), '>') {
                None => None,
                Some(e) => {
                    let after = at + e + 1;
                    match text::index_of(html.subrange(after, html.len() as int), '<') {
                        None => None,
                        Some(e2) => {
                            let t = unescaped(text::trim(html.subrange(after, after + e2)));
                            if t.len() > 0 {
                                Some(t)
                            } else {
                                None
                            }
                        },
                    }
                },
            }
        },
    }
}

/// An Auth0 error banner, by the first of its markers that yields text:
/// the password field's, the username field's, the two message classes, and
/// an alert role.
pub open spec fn banner(html: Seq<char>) -> Option<Seq<char>> {
    match banner_after(html, "id=\"error-element-password\""@) {
        Some(t) => Some(t),
        None => match banner_after(html, "id=\"error-element-username\""@) {
            Some(t) => Some(t),
            None => match banner_after(html, "class=\"ulp-input-error-message\""@) {
                Some(t) => Some(t),
                None => match banner_after(html, "class=\"ulp-error-info\""@) {
                    Some(t) => Some(t),
                    None => banner_after(html, "role=\"alert\""@),
                },
            },
        },
    }
}

fn banner_in(v: &Vec<char>, marker: &str) -> (r: Option<String>)
    ensures
        r.deep_view() == banner_after(v@, marker@),
{
    let m = chars_of(marker);
    let n = v.len();
    let p = find_at(v, &m, 0)?;
    proof {
        text::lemma_find_from(v@, m@, 0);
        assert(text::matches_at(v@, m@, p as int));
    }
    let at = p + m.len();
    let e = index_in(v, '>', at, n)?;
    let after = e + 1;
    assert(v@.subrange(at as int, n as int)[e - at] == v@[e as int]);
    let e2 = index_in(v, '<', after, n)?;
    let (a, b) = trim_bounds(v, after, e2);
    assert(v@.subrange(after as int, n as int).subrange(0, e2 - after) =~= v@.subrange(
        after as int,
        e2 as int,
    ));
    let raw = string_range(v, a, b);
    let t = strip_entities(raw.as_str());
    if t.as_str().is_empty() {
        None
    } else {
        Some(t)
    }
}

/// An Auth0 error banner, which is the page's own explanation of a refusal.
pub fn error_message(html: &str) -> (r: Option<String>)
    ensures
        r.deep_view() == banner(html@),
{
    let v = chars_of(html);
    if let Some(t) = banner_in(&v, "id=\"error-element-password\"") {
        return Some(t);
    }
    if let Some(t) = banner_in(&v, "id=\"error-element-username\"") {
        return Some(t);
    }
    if let Some(t) = banner_in(&v, "class=\"ulp-input-error-message\"") {
        return Some(t);
    }
    if let Some(t) = banner_in(&v, "class=\"ulp-error-info\"") {
        return Some(t);
    }
    banner_in(&v, "role=\"alert\"")
}

/// An Auth0 banner as a trailing clause, or nothing when the page carried
/// none.
pub open spec fn reason_text(html: Seq<char>) -> Seq<char> {
    match banner(html) {
        Some(m) => ": "@ + m,
        None => Seq::empty(),
    }
}

pub fn reason(html: &str) -> (r: String)
    ensures
        r@ == reason_text(html@),
{
    match error_message(html) {
        Some(m) => cat(": ", m.as_str()),
        None => String::new(),
    }
}


// ------------------------------------------------------- the flow
//
// The login walks Auth0's pages in turn: the `/authorize` request answers
// with the email form, the email with the password form, and the password
// with a redirect to the storefront carrying the authorization code -- or,
// first, with an offer to enrol a passkey, which is declined. The requests
// are the caller's; here is what each page served means for the next one.

/// Which request the page in hand answered.
#[derive(Clone, Copy, Debug, PartialEq, Eq, Structural)]
pub enum Stage {
    /// The `/authorize` request, answered with the email form.
    Start,
    /// The email address, answered with the password form.
    Identifier,
    /// The password, answered with the storefront redirect or a passkey offer.
    Password,
    /// The declined passkey offer, answered with the storefront redirect.
    Passkey,
}

/// A form to post.
pub struct Submit {
    /// Which step this is, for the trace.
    pub step: String,
    pub url: String,
    pub form: Vec<(String, String)>,
}

/// What the flow asks for next.
pub enum Action {
    Submit(Submit),
    /// Trade this authorization code for tokens.
    Exchange(String),
}

/// An action or a refusal, as text.
pub enum Outcome {
    Submit(Seq<char>, Seq<char>, Seq<(Seq<char>, Seq<char>)>),
    Exchange(Seq<char>),
    Challenged(Seq<char>),
    Refused(Seq<char>, Seq<char>),
    NoSession(Seq<char>),
    Other,
}

pub open spec fn outcome_of(r: Result<Action, Error>) -> Outcome {
    match r {
        Ok(Action::Submit(s)) => Outcome::Submit(s.step@, s.url@, pair_views(s.form@)),
        Ok(Action::Exchange(code)) => Outcome::Exchange(code@),
        Err(Error::Challenged { host }) => Outcome::Challenged(host@),
        Err(Error::LoginRefused { step, detail }) => Outcome::Refused(step@, detail@),
        Err(Error::NoSession { detail }) => Outcome::NoSession(detail@),
        Err(_) => Outcome::Other,
    }
}

/// The hidden capability fields the page's own script fills in; Auth0
/// branches on them, so they are sent as a browser would.
pub open spec fn capability_fields() -> Seq<(Seq<char>, Seq<char>)> {
    seq![
        ("js-available"@, "true"@),
        ("webauthn-available"@, "true"@),
        ("is-brave"@, "false"@),
        ("webauthn-platform-available"@, "true"@),
    ]
}

pub open spec fn identifier_form(state: Seq<char>, email: Seq<char>) -> Seq<(Seq<char>, Seq<char>)> {
    seq![("state"@, state), ("username"@, email)] + capability_fields()
}

pub open spec fn password_form(state: Seq<char>, email: Seq<char>, password: Seq<char>) -> Seq<
    (Seq<char>, Seq<char>),
> {
    seq![("state"@, state), ("username"@, email), ("password"@, password)] + capability_fields()
}

pub open spec fn passkey_form(state: Seq<char>) -> Seq<(Seq<char>, Seq<char>)> {
    seq![("state"@, state), ("action"@, "abort-passkey-enrollment"@)]
}

/// `{auth}{path}{state}`, the state encoded: where each form posts.
pub open spec fn step_url(auth: Seq<char>, path: Seq<char>, state: Seq<char>) -> Seq<char> {
    auth + path + component(state)
}

/// A URL up to its query.
pub open spec fn head_of(url: Seq<char>) -> Seq<char> {
    match text::index_of(url, '?') {
        Some(i) => url.subrange(0, i),
        None => url,
    }
}

/// A 4xx back on the path just posted to.
pub open spec fn page_bounced(landed: Seq<char>, rejected: bool, target: Seq<char>) -> bool {
    rejected && path_or_empty(landed) == path_or_empty(target)
}

/// The end of the flow: the code on the URL it stopped at, or why not.
pub open spec fn finish_outcome(landed: Seq<char>, html: Seq<char>) -> Outcome {
    match landed_code(landed) {
        Some(code) => Outcome::Exchange(code),
        None => Outcome::NoSession(
            ": the flow ended at "@ + head_of(landed) + " without an authorization code"@
                + reason_text(html),
        ),
    }
}

/// Where the flow goes from the page that answered `stage`, and what it asks
/// for there.
pub open spec fn next_step(
    stage: Stage,
    auth: Seq<char>,
    email: Seq<char>,
    password: Seq<char>,
    landed: Seq<char>,
    rejected: bool,
    html: Seq<char>,
) -> (Stage, Outcome) {
    let challenge = Outcome::Challenged(host_or_self(auth));
    let state = form_state_from(html, 0);
    match stage {
        Stage::Start => if challenge_body(html) {
            (stage, challenge)
        } else {
            match state {
                None => (
                    stage,
                    Outcome::NoSession(
                        ": the sign-in page at "@ + auth
                            + " carried no login form, so Kmart has changed it"@,
                    ),
                ),
                Some(st) => (
                    Stage::Identifier,
                    Outcome::Submit(
                        "identifier"@,
                        step_url(auth, "/u/login/identifier?state="@, st),
                        identifier_form(st, email),
                    ),
                ),
            }
        },
        Stage::Identifier => if challenge_body(html) {
            (stage, challenge)
        } else if page_bounced(landed, rejected, auth + "/u/login/identifier"@) {
            (stage, Outcome::Refused("email address"@, reason_text(html)))
        } else {
            match state {
                None => (stage, Outcome::Refused("email address"@, reason_text(html))),
                Some(st) => (
                    Stage::Password,
                    Outcome::Submit(
                        "password"@,
                        step_url(auth, "/u/login/password?state="@, st),
                        password_form(st, email, password),
                    ),
                ),
            }
        },
        Stage::Password => if challenge_body(html) {
            (stage, challenge)
        } else if page_bounced(landed, rejected, auth + "/u/login/password"@) {
            (stage, Outcome::Refused("password"@, reason_text(html)))
        } else if text::contains(landed, "/u/passkey-enrollment"@) {
            match state {
                None => (
                    stage,
                    Outcome::NoSession(": the passkey prompt carried no state to decline it with"@),
                ),
                Some(st) => (
                    Stage::Passkey,
                    Outcome::Submit(
                        "passkey"@,
                        step_url(auth, "/u/passkey-enrollment?state="@, st),
                        passkey_form(st),
                    ),
                ),
            }
        } else {
            (stage, finish_outcome(landed, html))
        },
        Stage::Passkey => (stage, finish_outcome(landed, html)),
    }
}

/// A sign-in under way: who is signing in where, and how far it has got.
pub struct LoginFlow {
    /// The Auth0 tenant's base URL.
    pub auth: String,
    pub email: String,
    pub password: String,
    pub stage: Stage,
}

fn owned_pair(k: &str, v: &str) -> (r: (String, String))
    ensures
        r.0@ == k@,
        r.1@ == v@,
{
    (k.to_owned(), v.to_owned())
}

fn push_capabilities(form: &mut Vec<(String, String)>)
    ensures
        pair_views(final(form)@) == pair_views(old(form)@) + capability_fields(),
{
    let ghost before = form@;
    form.push(owned_pair("js-available", "true"));
    form.push(owned_pair("webauthn-available", "true"));
    form.push(owned_pair("is-brave", "false"));
    form.push(owned_pair("webauthn-platform-available", "true"));
    assert(pair_views(form@) =~= pair_views(before) + capability_fields());
}

/// `url` up to its query.
fn without_query(url: &str) -> (r: String)
    ensures
        r@ == head_of(url@),
{
    let v = chars_of(url);
    match index_in(&v, '?', 0, v.len()) {
        Some(i) => {
            assert(v@.subrange(0, v@.len() as int) =~= v@);
            string_range(&v, 0, i)
        },
        None => {
            assert(v@.subrange(0, v@.len() as int) =~= v@);
            url.to_owned()
        },
    }
}

fn finish(page: &Page) -> (r: Result<Action, Error>)
    ensures
        outcome_of(r) == finish_outcome(page.landed@, page.html@),
{
    match code_from(page.landed.as_str()) {
        Some(code) => Ok(Action::Exchange(code)),
        None => {
            let head = without_query(page.landed.as_str());
            let first = cat3(": the flow ended at ", head.as_str(), " without an authorization code");
            let why = reason(page.html.as_str());
            Err(Error::NoSession { detail: cat(first.as_str(), why.as_str()) })
        },
    }
}

impl LoginFlow {
    /// A sign-in that has not yet sent the `/authorize` request.
    pub fn new(auth: String, email: String, password: String) -> (f: LoginFlow)
        ensures
            f.auth == auth,
            f.email == email,
            f.password == password,
            f.stage == Stage::Start,
    {
        LoginFlow { auth, email, password, stage: Stage::Start }
    }

    fn challenge(&self) -> (r: Result<Action, Error>)
        ensures
            outcome_of(r) == Outcome::Challenged(host_or_self(self.auth@)),
    {
        Err(Error::Challenged { host: host_of(self.auth.as_str()) })
    }

    fn submit(&self, step: &str, path: &str, state: &str, form: Vec<(String, String)>) -> (r: Result<
        Action,
        Error,
    >)
        ensures
            outcome_of(r) == Outcome::Submit(step@, step_url(self.auth@, path@, state@), pair_views(form@)),
    {
        let code = encode(state);
        Ok(Action::Submit(Submit { step: step.to_owned(), url: cat3(self.auth.as_str(), path, code.as_str()), form }))
    }

    fn after_start(&self, page: &Page) -> (r: (Stage, Result<Action, Error>))
        requires
            self.stage == Stage::Start,
        ensures
            (r.0, outcome_of(r.1)) == next_step(self.stage, self.auth@, self.email@, self.password@, page.landed@, page.rejected, page.html@),
    {
        if page.challenged() {
            return (Stage::Start, self.challenge());
        }
        match form_state(page.html.as_str()) {
            None => (Stage::Start, Err(Error::NoSession {
                detail: cat3(": the sign-in page at ", self.auth.as_str(), " carried no login form, so Kmart has changed it"),
            })),
            Some(state) => {
                let mut form: Vec<(String, String)> = Vec::new();
                form.push(owned_pair("state", state.as_str()));
                form.push(owned_pair("username", self.email.as_str()));
                let ghost head = form@;
                assert(pair_views(head) =~= seq![("state"@, state@), ("username"@, self.email@)]);
                push_capabilities(&mut form);
                (Stage::Identifier, self.submit("identifier", "/u/login/identifier?state=", state.as_str(), form))
            },
        }
    }

    fn after_identifier(&self, page: &Page) -> (r: (Stage, Result<Action, Error>))
        requires
            self.stage == Stage::Identifier,
        ensures
            (r.0, outcome_of(r.1)) == next_step(self.stage, self.auth@, self.email@, self.password@, page.landed@, page.rejected, page.html@),
    {
        if page.challenged() {
            return (Stage::Identifier, self.challenge());
        }
        let target = cat(self.auth.as_str(), "/u/login/identifier");
        if page.bounced(target.as_str()) {
            return (Stage::Identifier, Err(Error::LoginRefused { step: "email address", detail: reason(page.html.as_str()) }));
        }
        match form_state(page.html.as_str()) {
            None => (Stage::Identifier, Err(Error::LoginRefused { step: "email address", detail: reason(page.html.as_str()) })),
            Some(state) => {
                let mut form: Vec<(String, String)> = Vec::new();
                form.push(owned_pair("state", state.as_str()));
                form.push(owned_pair("username", self.email.as_str()));
                form.push(owned_pair("password", self.password.as_str()));
                let ghost head = form@;
                assert(pair_views(head) =~= seq![("state"@, state@), ("username"@, self.email@), ("password"@, self.password@)]);
                push_capabilities(&mut form);
                (Stage::Password, self.submit("password", "/u/login/password?state=", state.as_str(), form))
            },
        }
    }

    fn after_password(&self, page: &Page) -> (r: (Stage, Result<Action, Error>))
        requires
            self.stage == Stage::Password,
        ensures
            (r.0, outcome_of(r.1)) == next_step(self.stage, self.auth@, self.email@, self.password@, page.landed@, page.rejected, page.html@),
    {
        if page.challenged() {
            return (Stage::Password, self.challenge());
        }
        let target = cat(self.auth.as_str(), "/u/login/password");
        if page.bounced(target.as_str()) {
            return (Stage::Password, Err(Error::LoginRefused { step: "password", detail: reason(page.html.as_str()) }));
        }
        if !contains_str(page.landed.as_str(), "/u/passkey-enrollment") {
            return (Stage::Password, finish(page));
        }
        match form_state(page.html.as_str()) {
            None => (Stage::Password, Err(Error::NoSession {
                detail: ": the passkey prompt carried no state to decline it with".to_owned(),
            })),
            Some(state) => {
                let mut form: Vec<(String, String)> = Vec::new();
                form.push(owned_pair("state", state.as_str()));
                form.push(owned_pair("action", "abort-passkey-enrollment"));
                assert(pair_views(form@) =~= passkey_form(state@));
                (Stage::Passkey, self.submit("passkey", "/u/passkey-enrollment?state=", state.as_str(), form))
            },
        }
    }

    /// Read the page that answered the last request: move the flow on and
    /// say what to send next, or why the sign-in cannot go on.
    pub fn advance(&mut self, page: &Page) -> (r: Result<Action, Error>)
        ensures
            final(self).auth == old(self).auth,
            final(self).email == old(self).email,
            final(self).password == old(self).password,
            (final(self).stage, outcome_of(r)) == next_step(
                old(self).stage,
                old(self).auth@,
                old(self).email@,
                old(self).password@,
                page.landed@,
                page.rejected,
                page.html@,
            ),
    {
        let (next, r) = match self.stage {
            Stage::Start => self.after_start(page),
            Stage::Identifier => self.after_identifier(page),
            Stage::Password => self.after_password(page),
            Stage::Passkey => (Stage::Passkey, finish(page)),
        };
        self.stage = next;
        r
    }
}


// ------------------------------------------------------- each response

/// What a response to a flow step comes to: a server error is raised, and
/// anything else is a page -- a 4xx recorded rather than raised, because a
/// refused form comes back as one carrying its banner. Where the redirect
/// chain stopped at an unfollowed hop, `location` is that hop, which is
/// preferred over `uri`, the request before it: on the last step it is the
/// one carrying the code.
pub fn page_from(url: &str, status: u16, location: Option<String>, uri: &str, html: String) -> (r: Result<Page, Error>)
    ensures
        500 <= status < 600 ==> (r matches Err(
            Error::Http(HttpError::Status { method, url: u, status: s, detail, body }),
        ) && method@ == "POST"@ && u@ == url@ && s == status && detail@.len() == 0 && body@.len()
            == 0),
        !(500 <= status < 600) ==> (r matches Ok(p) && p.landed@ == (match location {
            Some(l) => made_absolute(l@, uri@),
            None => uri@,
        }) && p.rejected == (400 <= status < 500) && p.html == html),
{
    if 500 <= status && status < 600 {
        return Err(Error::Http(HttpError::Status {
            method: "POST",
            url: url.to_owned(),
            status,
            detail: String::new(),
            body: String::new(),
        }));
    }
    let landed = match location {
        Some(l) => absolute(l.as_str(), uri),
        None => uri.to_owned(),
    };
    Ok(Page { landed, rejected: 400 <= status && status < 500, html })
}

// ------------------------------------------------------- the token endpoint

/// The text `serde_json` writes for an object collected from these string
/// fields, taken in this order (its map writes the keys sorted, and a later
/// field wins over an earlier one of the same name).
pub uninterp spec fn json_object_text(fields: Seq<(Seq<char>, Seq<char>)>) -> Seq<char>;

/// A `serde_json::Map` of string values, collected from `fields`, written
/// with `Value::to_string`.
#[verifier::external_body]
fn json_object(fields: Vec<(String, String)>) -> (r: String)
    ensures
        r@ == json_object_text(pair_views(fields@)),
{
    let map: serde_json::Map<String, serde_json::Value> =
        fields.into_iter().map(|(k, v)| (k, serde_json::Value::String(v))).collect();
    serde_json::Value::Object(map).to_string()
}

/// What the authorization-code exchange posts.
pub fn exchange_body(endpoints: &Endpoints, code: &str, verifier: &str) -> (r: String)
    ensures
        r@ == json_object_text(
            seq![
                ("client_id"@, endpoints.auth_client_id@),
                ("code_verifier"@, verifier@),
                ("grant_type"@, "authorization_code"@),
                ("code"@, code@),
                ("redirect_uri"@, endpoints.auth_redirect@),
            ],
        ),
{
    let mut fields: Vec<(String, String)> = Vec::new();
    fields.push(owned_pair("client_id", endpoints.auth_client_id.as_str()));
    fields.push(owned_pair("code_verifier", verifier));
    fields.push(owned_pair("grant_type", "authorization_code"));
    fields.push(owned_pair("code", code));
    fields.push(owned_pair("redirect_uri", endpoints.auth_redirect.as_str()));
    assert(pair_views(fields@) =~= seq![
        ("client_id"@, endpoints.auth_client_id@),
        ("code_verifier"@, verifier@),
        ("grant_type"@, "authorization_code"@),
        ("code"@, code@),
        ("redirect_uri"@, endpoints.auth_redirect@),
    ]);
    json_object(fields)
}

/// What renewing from a refresh token posts.
pub fn refresh_body(endpoints: &Endpoints, refresh_token: &str) -> (r: String)
    ensures
        r@ == json_object_text(
            seq![
                ("client_id"@, endpoints.auth_client_id@),
                ("grant_type"@, "refresh_token"@),
                ("refresh_token"@, refresh_token@),
            ],
        ),
{
    let mut fields: Vec<(String, String)> = Vec::new();
    fields.push(owned_pair("client_id", endpoints.auth_client_id.as_str()));
    fields.push(owned_pair("grant_type", "refresh_token"));
    fields.push(owned_pair("refresh_token", refresh_token));
    assert(pair_views(fields@) =~= seq![
        ("client_id"@, endpoints.auth_client_id@),
        ("grant_type"@, "refresh_token"@),
        ("refresh_token"@, refresh_token@),
    ]);
    json_object(fields)
}

/// The detail of a refusal: Auth0's `error_description`, else its `error`,
/// as a trailing clause.
pub open spec fn refusal_detail(body: Seq<u8>) -> Seq<char> {
    let said = if jwt::json_has_claim(body, "error_description"@) {
        jwt::json_str_claim(body, "error_description"@)
    } else {
        jwt::json_str_claim(body, "error"@)
    };
    match said {
        Some(m) => ": "@ + m,
        None => seq![],
    }
}

/// What the token endpoint's answer `body` comes to, read at `now`
/// (seconds): tokens where it carries an `access_token`; otherwise a bot
/// challenge, or the refusal Auth0 states in the body -- the status alone is
/// misleading, a rejected code and a challenge both being 403.
pub open spec fn token_answer_is(r: Result<Tokens, Error>, auth: Seq<char>, what: &'static str, body: Seq<char>, now: u64) -> bool {
    let bytes = vstd::utf8::encode_utf8(body);
    match jwt::json_str_claim(bytes, "access_token"@) {
        Some(access) => r matches Ok(t) && t@ == (
            access,
            jwt::json_str_claim(bytes, "refresh_token"@),
            expiry_of(access, jwt::json_u64_claim(bytes, "expires_in"@), now),
        ),
        None => if challenge_body(body) {
            r matches Err(Error::Challenged { host }) && host@ == host_or_self(auth)
        } else {
            r matches Err(Error::LoginRefused { step, detail }) && step == what && detail@
                == refusal_detail(bytes)
        },
    }
}

pub fn token_answer(auth: &str, what: &'static str, body: &str, now: u64) -> (r: Result<Tokens, Error>)
    ensures
        token_answer_is(r, auth@, what, body@, now),
{
    let bytes = body.as_bytes();
    if let Some(access) = jwt::str_claim(bytes, "access_token") {
        let refresh = jwt::str_claim(bytes, "refresh_token");
        let expires_in = jwt::u64_claim(bytes, "expires_in");
        let t = Tokens::new_at(access, refresh, expires_in, now);
        proof {
            assert(refresh.deep_view() == (match refresh {
                Some(x) => Some(x@),
                None => None,
            }));
        }
        return Ok(t);
    }
    if is_challenge_body(body) {
        return Err(Error::Challenged { host: host_of(auth) });
    }
    let said = if jwt::has_claim(bytes, "error_description") {
        jwt::str_claim(bytes, "error_description")
    } else {
        jwt::str_claim(bytes, "error")
    };
    let detail = match said {
        Some(m) => cat(": ", m.as_str()),
        None => String::new(),
    };
    Err(Error::LoginRefused { step: what, detail })
}

/// [`token_answer`] at the time by the system clock.
pub fn token_reply(auth: &str, what: &'static str, body: &str) -> (r: Result<Tokens, Error>)
    ensures
        exists|now: u64| #[trigger] token_answer_is(r, auth@, what, body@, now),
{
    let now = jwt::now_secs();
    let r = token_answer(auth, what, body, now);
    assert(token_answer_is(r, auth@, what, body@, now));
    r
}

} // verus!
