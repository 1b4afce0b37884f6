//! Signing in to Woolworths: the login flow itself is the caller's; what a
//! browser export brings is decided here.
use vstd::prelude::*;

use crate::kmart::auth as pages;
use crate::netkit::cookies::{entries_insert, netscape_entries, from_netscape as cookies_from_netscape, CookieMap, Entries};
use crate::wwnz::session::{has_session_cookie, Session, GUEST_COOKIE, SESSION_COOKIE_PREFIX};
use crate::text;
use crate::text::{cat, cat3, eq_str, starts_with_str};
use crate::kmart::endpoints::pair_views;
use crate::netkit::error::HttpError;
use crate::wwnz::endpoints::Endpoints;
use crate::wwnz::error::Error;

verus! {

/// A trace that discards everything.
pub fn no_trace(_step: &str, _detail: &str) {
}

/// Whether a cookie belongs to a Woolworths session: a session cookie or the
/// guest token.
pub open spec fn session_cookie(name: Seq<char>) -> bool {
    text::starts_with(name, SESSION_COOKIE_PREFIX@) || name == GUEST_COOKIE@
}

/// The session cookies among `pairs`, inserted into `jar`.
pub open spec fn kept(jar: Entries, pairs: Entries) -> Entries
    decreases pairs.len(),
{
    if pairs.len() == 0 {
        jar
    } else {
        let next = if session_cookie(pairs[0].0) {
            entries_insert(jar, pairs[0].0, pairs[0].1)
        } else {
            jar
        };
        kept(next, pairs.drop_first())
    }
}

/// Pull a session out of a Netscape-format `cookies.txt`: the way back in
/// when the sign-in page changes shape.
pub fn from_netscape(text: &str) -> (s: Session)
    ensures
        s.jar() == kept(seq![], netscape_entries(text@, "woolworths.co.nz"@)),
        s.is_account() == has_session_cookie(s.jar()),
{
    let all = cookies_from_netscape(text, "woolworths.co.nz");
    let pairs = all.pairs();
    let ghost src = all@;
    let mut m = CookieMap::new();
    let n = pairs.len();
    let mut i: usize = 0;
    assert(src.skip(0) =~= src);
    while i < n
        invariant
            n == pairs@.len(),
            n == src.len(),
            forall|j: int| 0 <= j < n ==> ((#[trigger] pairs@[j]).0@, pairs@[j].1@) == src[j],
            i <= n,
            kept(m@, src.skip(i as int)) == kept(seq![], src),
        decreases n - i,
    {
        assert(src.skip(i as int)[0] == src[i as int]);
        assert(src.skip(i as int).drop_first() =~= src.skip(i + 1));
        let name = &pairs[i].0;
        if starts_with_str(name.as_str(), SESSION_COOKIE_PREFIX) || eq_str(name.as_str(), GUEST_COOKIE) {
            m.insert(name.clone(), pairs[i].1.clone());
        }
        i += 1;
    }
    assert(src.skip(n as int).len() == 0);
    Session::from_cookies(m)
}

/// One response from the login flow: where it landed and what it served.
pub type Page = pages::Page;

/// The value of the login form's hidden `state` field: the first tag
/// carrying `name="state"` with a non-empty value, entities decoded.
pub fn form_state(html: &str) -> (r: Option<String>)
    ensures
        r.deep_view() == pages::form_state_from(html@, 0),
{
    pages::form_state(html)
}

/// An Auth0 error banner, by the first of its markers that yields text.
pub fn error_message(html: &str) -> (r: Option<String>)
    ensures
        r.deep_view() == pages::banner(html@),
{
    pages::error_message(html)
}

/// An Auth0 banner as a trailing clause, or nothing when the page carried
/// none.
pub fn reason(html: &str) -> (r: String)
    ensures
        r@ == (match pages::banner(html@) {
            Some(m) => ": "@ + m,
            None => Seq::empty(),
        }),
{
    pages::reason(html)
}

/// `url`'s origin, or `url` itself where it does not parse.
pub fn origin_of(url: &str) -> (r: String)
    ensures
        r@ == (match pages::url_origin(url@) {
            Some(o) => o,
            None => url@,
        }),
{
    pages::origin_of(url)
}

/// The cookie names of a jar, joined for a trace; never their values.
pub fn names(cookies: &CookieMap) -> (r: String)
    ensures
        r@ == joined_names(cookies@),
{
    let keys = cookies.keys();
    let mut out = String::new();
    let n = keys.len();
    let mut i: usize = 0;
    while i < n
        invariant
            n == keys@.len(),
            n == cookies@.len(),
            forall|j: int| 0 <= j < n ==> (#[trigger] keys@[j])@ == cookies@[j].0,
            i <= n,
            out@ == joined_names(cookies@.take(i as int)),
        decreases n - i,
    {
        if i > 0 {
            out.append(", ");
        }
        out.append(keys[i].as_str());
        assert(cookies@.take(i + 1).drop_last() =~= cookies@.take(i as int));
        if i == 0 {
            assert(cookies@.take(0).len() == 0);
        }
        i += 1;
    }
    assert(cookies@.take(n as int) =~= cookies@);
    out
}

/// The names of a jar's cookies, joined with `, `.
pub open spec fn joined_names(jar: Entries) -> Seq<char>
    decreases jar.len(),
{
    if jar.len() == 0 {
        seq![]
    } else if jar.len() == 1 {
        jar[0].0
    } else {
        joined_names(jar.drop_last()) + ", "@ + jar.last().0
    }
}


// ------------------------------------------------------- the flow
//
// The storefront hands the OAuth request to Auth0, which answers with the
// email form; the email is answered with the password form, and the
// password with the redirects back to the storefront that set the session
// cookie. The requests, and the jar they fill, are the caller's.

/// Which request the page in hand answered.
#[derive(Clone, Copy, Debug, PartialEq, Eq, Structural)]
pub enum Stage {
    /// The storefront's `/auth/login`, answered with the email form.
    Start,
    /// The email address, answered with the password form.
    Identifier,
    /// The password, answered with the storefront.
    Password,
}

/// What the flow asks for next.
pub enum Action {
    Submit(pages::Submit),
    /// The flow is through: read the storefront's cookies out of the jar and
    /// hand them to [`finish`].
    ReadJar,
}

/// An action or a refusal, as text.
pub enum Outcome {
    Submit(Seq<char>, Seq<char>, Seq<(Seq<char>, Seq<char>)>),
    ReadJar,
    Refused(Seq<char>, Seq<char>),
    NoSession(Seq<char>),
    Other,
}

pub open spec fn outcome_of(r: Result<Action, Error>) -> Outcome {
    match r {
        Ok(Action::Submit(s)) => Outcome::Submit(s.step@, s.url@, pair_views(s.form@)),
        Ok(Action::ReadJar) => Outcome::ReadJar,
        Err(Error::LoginRefused { step, detail }) => Outcome::Refused(step@, detail@),
        Err(Error::NoSession { detail }) => Outcome::NoSession(detail@),
        Err(_) => Outcome::Other,
    }
}

/// Where the flow starts: the storefront's own login route.
pub open spec fn start_url(origin: Seq<char>) -> Seq<char> {
    origin + "/auth/login?returnTo=/"@
}

/// Where the flow goes from the page that answered `stage`, and what it asks
/// for there.
pub open spec fn next_step(
    stage: Stage,
    origin: Seq<char>,
    auth: Seq<char>,
    email: Seq<char>,
    password: Seq<char>,
    landed: Seq<char>,
    rejected: bool,
    html: Seq<char>,
) -> (Stage, Outcome) {
    let state = pages::form_state_from(html, 0);
    match stage {
        Stage::Start => match state {
            None => (
                stage,
                Outcome::NoSession(
                    ": the sign-in page at "@ + start_url(origin)
                        + " carried no login form. Woolworths may have changed it, or be serving a bot check; importing cookies from a browser is the way past that."@,
                ),
            ),
            Some(st) => (
                Stage::Identifier,
                Outcome::Submit(
                    "identifier"@,
                    auth + "/u/login/identifier?state="@ + st,
                    pages::identifier_form(st, email),
                ),
            ),
        },
        Stage::Identifier => if pages::page_bounced(landed, rejected, auth + "/u/login/identifier"@) {
            (stage, Outcome::Refused("email address"@, pages::reason_text(html)))
        } else {
            match state {
                None => (stage, Outcome::Refused("email address"@, pages::reason_text(html))),
                Some(st) => (
                    Stage::Password,
                    Outcome::Submit(
                        "password"@,
                        auth + "/u/login/password?state="@ + st,
                        seq![("state"@, st), ("username"@, email), ("password"@, password)],
                    ),
                ),
            }
        },
        Stage::Password => if pages::page_bounced(landed, rejected, auth + "/u/login/password"@) {
            (stage, Outcome::Refused("password"@, pages::reason_text(html)))
        } else {
            (stage, Outcome::ReadJar)
        },
    }
}

/// A sign-in under way.
pub struct LoginFlow {
    /// The storefront.
    pub origin: String,
    /// The Auth0 tenant's base URL.
    pub auth: String,
    pub email: String,
    pub password: String,
    pub stage: Stage,
}

fn pair(k: &str, v: &str) -> (r: (String, String))
    ensures
        r.0@ == k@,
        r.1@ == v@,
{
    (k.to_owned(), v.to_owned())
}

impl LoginFlow {
    /// A sign-in that has not yet asked for the login page.
    pub fn new(endpoints: &Endpoints, email: String, password: String) -> (f: LoginFlow)
        ensures
            f.origin == endpoints.origin,
            f.auth == endpoints.auth,
            f.email == email,
            f.password == password,
            f.stage == Stage::Start,
    {
        LoginFlow { origin: endpoints.origin.clone(), auth: endpoints.auth.clone(), email, password, stage: Stage::Start }
    }

    /// The first request: the storefront's login route, which hands the whole
    /// OAuth request to Auth0.
    pub fn start(&self) -> (r: String)
        ensures
            r@ == start_url(self.origin@),
    {
        cat(self.origin.as_str(), "/auth/login?returnTo=/")
    }

    fn after_start(&self, page: &Page) -> (r: (Stage, Result<Action, Error>))
        requires
            self.stage == Stage::Start,
        ensures
            (r.0, outcome_of(r.1)) == next_step(self.stage, self.origin@, self.auth@, self.email@, self.password@, page.landed@, page.rejected, page.html@),
    {
        match pages::form_state(page.html.as_str()) {
            None => {
                let start = self.start();
                (Stage::Start, Err(Error::NoSession {
                    detail: cat3(": the sign-in page at ", start.as_str(), " carried no login form. Woolworths may have changed it, or be serving a bot check; importing cookies from a browser is the way past that."),
                }))
            },
            Some(state) => {
                let mut form: Vec<(String, String)> = Vec::new();
                form.push(pair("state", state.as_str()));
                form.push(pair("username", self.email.as_str()));
                form.push(pair("js-available", "true"));
                form.push(pair("webauthn-available", "true"));
                form.push(pair("is-brave", "false"));
                form.push(pair("webauthn-platform-available", "true"));
                assert(pair_views(form@) =~= pages::identifier_form(state@, self.email@));
                let url = cat3(self.auth.as_str(), "/u/login/identifier?state=", state.as_str());
                (Stage::Identifier, Ok(Action::Submit(pages::Submit { step: "identifier".to_owned(), url, form })))
            },
        }
    }

    fn after_identifier(&self, page: &Page) -> (r: (Stage, Result<Action, Error>))
        requires
            self.stage == Stage::Identifier,
        ensures
            (r.0, outcome_of(r.1)) == next_step(self.stage, self.origin@, self.auth@, self.email@, self.password@, page.landed@, page.rejected, page.html@),
    {
        let target = cat(self.auth.as_str(), "/u/login/identifier");
        if page.bounced(target.as_str()) {
            return (Stage::Identifier, Err(Error::LoginRefused { step: "email address", detail: pages::reason(page.html.as_str()) }));
        }
        match pages::form_state(page.html.as_str()) {
            None => (Stage::Identifier, Err(Error::LoginRefused { step: "email address", detail: pages::reason(page.html.as_str()) })),
            Some(state) => {
                let mut form: Vec<(String, String)> = Vec::new();
                form.push(pair("state", state.as_str()));
                form.push(pair("username", self.email.as_str()));
                form.push(pair("password", self.password.as_str()));
                assert(pair_views(form@) =~= seq![("state"@, state@), ("username"@, self.email@), ("password"@, self.password@)]);
                let url = cat3(self.auth.as_str(), "/u/login/password?state=", state.as_str());
                (Stage::Password, Ok(Action::Submit(pages::Submit { step: "password".to_owned(), url, form })))
            },
        }
    }

    /// Read the page that answered the last request: move the flow on and
    /// say what to do next, or why the sign-in cannot go on.
    pub fn advance(&mut self, page: &Page) -> (r: Result<Action, Error>)
        ensures
            final(self).origin == old(self).origin,
            final(self).auth == old(self).auth,
            final(self).email == old(self).email,
            final(self).password == old(self).password,
            (final(self).stage, outcome_of(r)) == next_step(
                old(self).stage,
                old(self).origin@,
                old(self).auth@,
                old(self).email@,
                old(self).password@,
                page.landed@,
                page.rejected,
                page.html@,
            ),
    {
        let (next, r) = match self.stage {
            Stage::Start => self.after_start(page),
            Stage::Identifier => self.after_identifier(page),
            Stage::Password => {
                let target = cat(self.auth.as_str(), "/u/login/password");
                if page.bounced(target.as_str()) {
                    (Stage::Password, Err(Error::LoginRefused { step: "password", detail: pages::reason(page.html.as_str()) }))
                } else {
                    (Stage::Password, Ok(Action::ReadJar))
                }
            },
        };
        self.stage = next;
        r
    }
}

/// The session the storefront's cookies make once the flow is through; a
/// jar with no session cookie means Auth0 refused something rather than
/// completing the flow, and the last page usually says what.
pub fn finish(page: &Page, cookies: CookieMap) -> (r: Result<Session, Error>)
    ensures
        has_session_cookie(cookies@) ==> (r matches Ok(s) && s.jar() == cookies@ && s.is_account()),
        !has_session_cookie(cookies@) ==> (r matches Err(Error::NoSession { detail }) && detail@
            == pages::reason_text(page.html@)),
{
    let session = Session::from_cookies(cookies);
    if !session.account() {
        return Err(Error::NoSession { detail: pages::reason(page.html.as_str()) });
    }
    Ok(session)
}

/// What a response to a flow step comes to: a server error is raised, and
/// anything else is a page -- a 4xx recorded rather than raised, because a
/// refused form comes back as one carrying its banner.
pub fn page_from(url: &str, status: u16, uri: &str, html: String) -> (r: Result<Page, Error>)
    ensures
        500 <= status < 600 ==> (r matches Err(
            Error::Http(HttpError::Status { method, url: u, status: s, detail, body }),
        ) && method@ == "POST"@ && u@ == url@ && s == status && detail@.len() == 0 && body@.len()
            == 0),
        !(500 <= status < 600) ==> (r matches Ok(p) && p.landed@ == uri@ && p.rejected == (400
            <= status < 500) && p.html == html),
{
    if 500 <= status && status < 600 {
        return Err(Error::Http(HttpError::Status {
            method: "POST",
            url: url.to_owned(),
            status,
            detail: String::new(),
            body: String::new(),
        }));
    }
    Ok(Page { landed: uri.to_owned(), rejected: 400 <= status && status < 500, html })
}

} // verus!
