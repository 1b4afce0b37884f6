//! The identifiers Kmart's own front end sends, and the only place they live.
//!
//! None of these is a secret: every one is served to every visitor in the
//! HTML of the storefront's home page, which is how they were obtained and how
//! they are re-obtained. They rot -- a vendor rotates a key or registers a new
//! application -- so they are kept in one place, and [`Vendor::read`] can take
//! fresh ones off a live page.
use vstd::prelude::*;

use crate::kmart::country::Country;
use crate::text;
use crate::text::{cat, cat3, chars_of, find_at, index_in, string_range, trim_bounds};

verus! {

/// The Auth0 tenant. One for both countries.
pub const AUTH_DOMAIN: &'static str = "https://auth.kmart.com.au";

/// What an access token is minted for, and the reason one sign-in serves
/// both countries: the audience names the gateway family rather than a
/// country.
pub const AUTH_AUDIENCE: &'static str = "https://api.kmart.com.au/gateway/graphql";

/// `offline_access` is the one that matters: it is what makes a session
/// renewable without a password.
pub const AUTH_SCOPE: &'static str = "openid profile email offline_access";

/// The client version the search index is told it is talking to.
pub const SEARCH_CLIENT: &'static str = "ciojs-client-2.77.1";

pub open spec fn auth_client_id_spec(country: Country) -> Seq<char> {
    match country {
        Country::Au => "wf0Dz7lKuhKN319si7vRE0DiPyEyE5Hy"@,
        Country::Nz => "dFXRMOiN5flCI5VLc8IZ005AsGklQro4"@,
    }
}

pub open spec fn search_key_spec(country: Country) -> Seq<char> {
    match country {
        Country::Au => "key_GZTqlLr41FS2p7AY"@,
        Country::Nz => "key_EyiTrcbGw7IFH3wR"@,
    }
}

pub open spec fn auth_redirect_spec(country: Country) -> Seq<char> {
    country.origin_spec() + "/account/login"@
}

/// The Auth0 application a storefront signs in as: one per country, despite
/// the shared tenant. A refresh token is bound to the application that
/// minted it.
pub fn auth_client_id(country: Country) -> (r: &'static str)
    ensures
        r@ == auth_client_id_spec(country),
{
    match country {
        Country::Au => "wf0Dz7lKuhKN319si7vRE0DiPyEyE5Hy",
        Country::Nz => "dFXRMOiN5flCI5VLc8IZ005AsGklQro4",
    }
}

/// Where Auth0 sends the authorization code: that country's storefront.
pub fn auth_redirect(country: Country) -> (r: String)
    ensures
        r@ == auth_redirect_spec(country),
{
    cat(country.origin(), "/account/login")
}

/// The search index key. These are the whole difference between the two
/// catalogues.
pub fn search_key(country: Country) -> (r: &'static str)
    ensures
        r@ == search_key_spec(country),
{
    match country {
        Country::Au => "key_GZTqlLr41FS2p7AY",
        Country::Nz => "key_EyiTrcbGw7IFH3wR",
    }
}

/// What a country's front end is configured with, as this crate needs it.
#[derive(Clone, Debug)]
pub struct Vendor {
    pub search_key: String,
    pub auth_client_id: String,
    pub auth_audience: String,
    pub auth_redirect: String,
}

/// The value a page holds for `"name":"`: what follows the key up to the
/// next `"`, trimmed, and nothing when that is empty or the key is absent.
pub open spec fn page_field(html: Seq<char>, name: Seq<char>) -> Option<Seq<char>> {
    let key = "\""@ + name + "\":\""@;
    match text::find(html, key) {
        None => None,
        Some(at) => {
            let rest = html.subrange(at + key.len(), html.len() as int);
            match text::index_of(rest, '"') {
                None => None,
                Some(end) => {
                    let value = text::trim(rest.take(end));
                    if value.len() == 0 {
                        None
                    } else {
                        Some(value)
                    }
                },
            }
        },
    }
}

/// What `Vendor::read` makes of a page: all three values or none.
pub open spec fn page_vendor(html: Seq<char>, country: Country) -> Option<(Seq<char>, Seq<char>, Seq<char>)> {
    match (
        page_field(html, "constructorApiKey"@),
        page_field(html, "clientId"@),
        page_field(html, "audience"@),
    ) {
        (Some(k), Some(c), Some(a)) => Some((k, c, a)),
        _ => None,
    }
}

/// One value off the page.
fn field(page: &Vec<char>, name: &str) -> (r: Option<String>)
    ensures
        match r {
            Some(v) => page_field(page@, name@) == Some(v@),
            None => page_field(page@, name@) is None,
        },
{
    let key_text = cat3("\"", name, "\":\"");
    let key = chars_of(key_text.as_str());
    let n = page.len();
    match find_at(page, &key, 0) {
        None => None,
        Some(at) => {
            proof {
                text::lemma_find_from(page@, key@, 0);
                assert(text::matches_at(page@, key@, at as int));
                assert(at + key@.len() <= page@.len());
            }
            let start = at + key.len();
            let ghost rest = page@.subrange(start as int, page@.len() as int);
            match index_in(page, '"', start, n) {
                None => None,
                Some(end) => {
                    let (a, b) = trim_bounds(page, start, end);
                    assert(rest.take(end - start) =~= page@.subrange(start as int, end as int));
                    if a == b {
                        None
                    } else {
                        Some(string_range(page, a, b))
                    }
                },
            }
        },
    }
}

impl Vendor {
    /// The values compiled in, as measured when this was written.
    pub fn baked(country: Country) -> (v: Vendor)
        ensures
            v.search_key@ == search_key_spec(country),
            v.auth_client_id@ == auth_client_id_spec(country),
            v.auth_audience@ == AUTH_AUDIENCE@,
            v.auth_redirect@ == auth_redirect_spec(country),
    {
        Vendor {
            search_key: search_key(country).to_owned(),
            auth_client_id: auth_client_id(country).to_owned(),
            auth_audience: AUTH_AUDIENCE.to_owned(),
            auth_redirect: auth_redirect(country),
        }
    }

    /// Read them out of a storefront home page.
    ///
    /// A substring search rather than a parse: the page carries a megabyte of
    /// payload whose shape is Kmart's business. All or nothing -- a page that
    /// yields two of the three is a page whose shape has moved, and half a
    /// configuration is worse than the baked one.
    pub fn read(html: &str, country: Country) -> (r: Option<Vendor>)
        ensures
            match page_vendor(html@, country) {
                None => r is None,
                Some((k, c, a)) => r matches Some(v) && v.search_key@ == k && v.auth_client_id@ == c
                    && v.auth_audience@ == a && v.auth_redirect@ == auth_redirect_spec(country),
            },
    {
        let page = chars_of(html);
        let search_key = field(&page, "constructorApiKey")?;
        let auth_client_id = field(&page, "clientId")?;
        let auth_audience = field(&page, "audience")?;
        Some(Vendor { search_key, auth_client_id, auth_audience, auth_redirect: auth_redirect(country) })
    }
}

} // verus!
