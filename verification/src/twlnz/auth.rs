//! Signing in to The Warehouse.
//!
//! An ordinary form POST -- the email, the password and a CSRF token scraped
//! from the login page -- answering 302 with the session cookies attached.
//! Two requests, in order, because the second needs the first's token: the
//! requests are the caller's; what the pages say, and what the answer comes
//! to, is decided here.
use vstd::prelude::*;

use crate::text::{cat, cat3, decimal_string};
use crate::twlnz::endpoints::Endpoints;
use crate::twlnz::error::Error;
use crate::twlnz::extract::{
    first_attr, first_attr_in, first_text, first_text_in, select_document, selected_document, str_views,
};
use crate::twlnz::session::REFRESH_COOKIE;

verus! {

/// A trace that discards everything.
pub fn no_trace(_step: &str) {
}

/// The CSRF field the login form posts.
pub const CSRF_FIELD: &'static str = "csrf_token";

/// The hidden input the login page renders the token into.
pub const CSRF_INPUT: &'static str = "input[name=\"csrf_token\"]";

/// Where the site renders what it found wrong with a sign-in.
pub const LOGIN_ALERT: &'static str = "div.alert-danger, .login-error-message, .invalid-feedback";

/// The form's token: the value of the first token input that has one, if
/// that value is not empty.
pub open spec fn csrf_of(html: Seq<char>) -> Option<Seq<char>> {
    match first_attr(selected_document(html, CSRF_INPUT@, seq!["value"@]), 0) {
        Some(v) => if v.len() > 0 {
            Some(v)
        } else {
            None
        },
        None => None,
    }
}

/// The form's CSRF token, from the hidden input the login page renders.
pub fn csrf_token(html: &str) -> (r: Option<String>)
    ensures
        r.deep_view() == csrf_of(html@),
{
    let names: [&str; 1] = ["value"];
    assert(str_views(names@) =~= seq!["value"@]);
    let es = select_document(html, CSRF_INPUT, &names);
    match first_attr_in(&es, 0) {
        Some(v) => if v.as_str().is_empty() {
            None
        } else {
            Some(v)
        },
        None => None,
    }
}

/// What the site said was wrong: the first alert whose text is not blank.
pub open spec fn form_error_of(html: Seq<char>) -> Option<Seq<char>> {
    first_text(selected_document(html, LOGIN_ALERT@, seq![]))
}

/// What the site said was wrong, from the alert it renders back into the
/// page, trimmed.
pub fn form_error(html: &str) -> (r: Option<String>)
    ensures
        r.deep_view() == form_error_of(html@),
{
    let none: [&str; 0] = [];
    assert(str_views(none@) =~= Seq::<Seq<char>>::empty());
    let es = select_document(html, LOGIN_ALERT, &none);
    first_text_in(&es)
}

/// The token to post, or the refusal a page without one earns: a bot check
/// served in place of the login page looks exactly like that, and posting
/// credentials into it would be worse than failing.
pub fn login_token(html: &str) -> (r: Result<String, Error>)
    ensures
        match csrf_of(html@) {
            Some(t) => r matches Ok(x) && x@ == t,
            None => r matches Err(Error::LoginRefused { step, detail }) && step@ == "login page"@
                && detail@ == ": it carried no "@ + CSRF_FIELD@
                + " field, which usually means a bot check was served instead"@,
        },
{
    match csrf_token(html) {
        Some(t) => Ok(t),
        None => Err(
            Error::LoginRefused {
                step: "login page",
                detail: cat3(
                    ": it carried no ",
                    CSRF_FIELD,
                    " field, which usually means a bot check was served instead",
                ),
            },
        ),
    }
}

/// Where the credentials are posted: `rurl=1` is what the site's own form
/// sends, without which the controller has no redirect target to build.
pub fn login_url(endpoints: &Endpoints) -> (r: String)
    ensures
        r@ == endpoints.origin@ + "/account/submit-login"@ + "?rurl=1"@,
{
    let base = endpoints.login();
    cat(base.as_str(), "?rurl=1")
}

/// The fields the login form posts, in the form's order.
pub fn login_form(email: &str, password: &str, token: &str) -> (r: Vec<(String, String)>)
    ensures
        r@.len() == 3,
        r@[0].0@ == "dwfrm_login_email"@ && r@[0].1@ == email@,
        r@[1].0@ == "dwfrm_login_password"@ && r@[1].1@ == password@,
        r@[2].0@ == CSRF_FIELD@ && r@[2].1@ == token@,
{
    let mut out: Vec<(String, String)> = Vec::new();
    out.push(("dwfrm_login_email".to_owned(), email.to_owned()));
    out.push(("dwfrm_login_password".to_owned(), password.to_owned()));
    out.push((CSRF_FIELD.to_owned(), token.to_owned()));
    out
}

/// What the form's answer comes to: its status, whether the cookies it set
/// speak for a person, and its page. A 401 or 403 is a refused password; a
/// session is success; anything else is read for the site's own words
/// before falling back to saying that no session came of it.
pub fn login_answer(status: u16, signed_in: bool, body: &str) -> (r: Result<(), Error>)
    ensures
        (status == 401 || status == 403) ==> (r matches Err(Error::LoginRefused { step, detail })
            && step@ == "password"@ && detail@.len() == 0),
        !(status == 401 || status == 403) && signed_in ==> r is Ok,
        !(status == 401 || status == 403) && !signed_in ==> match form_error_of(body@) {
            Some(m) => r matches Err(Error::LoginRefused { step, detail }) && step@ == "password"@
                && detail@ == ": "@ + m,
            None => r matches Err(Error::NoSession { detail }) && detail@ == ", so no "@ + REFRESH_COOKIE@
                + " cookie was set. The form answered "@ + crate::text::decimal(status as nat) + (if status
                == 200 {
                ", which is the sign-in page again rather than a redirect"@
            } else {
                ""@
            }),
        },
{
    if status == 401 || status == 403 {
        return Err(Error::LoginRefused { step: "password", detail: String::new() });
    }
    if signed_in {
        return Ok(());
    }
    match form_error(body) {
        Some(message) => Err(Error::LoginRefused { step: "password", detail: cat(": ", message.as_str()) }),
        None => {
            proof {
                reveal_strlit("");
            }
            let mut detail = cat3(", so no ", REFRESH_COOKIE, " cookie was set. The form answered ");
            let n = decimal_string(status as u64);
            detail.append(n.as_str());
            // A 200 means the login page was re-rendered, which is what a
            // refused password looks like.
            let tail = if status == 200 {
                ", which is the sign-in page again rather than a redirect"
            } else {
                ""
            };
            detail.append(tail);
            Err(Error::NoSession { detail })
        },
    }
}

} // verus!
