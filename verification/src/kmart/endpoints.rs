//! Where Kmart lives -- which is four places.
//!
//! Plain fields, not resolved from the environment: the caller decides
//! whether an override exists, which is also how a test points the whole flow
//! at one mock server.
use vstd::prelude::*;

use crate::kmart::country::Country;
use crate::kmart::vendor;
use crate::kmart::vendor::Vendor;
use crate::text;
use crate::text::{cat, cat3, char_from_ascii, string_of, trim_end_char_str};

verus! {

/// Whether a byte goes into a URL component as itself.
pub open spec fn unreserved(b: u8) -> bool {
    (65 <= b <= 90) || (97 <= b <= 122) || (48 <= b <= 57) || b == 45 || b == 95 || b == 46 || b == 126
}

/// An upper-case hex digit.
pub open spec fn hex_digit(n: int) -> char {
    if n < 10 {
        (48 + n) as char
    } else {
        (55 + n) as char
    }
}

/// One byte of a component, percent-encoded where it is not unreserved.
pub open spec fn encode_byte(b: u8) -> Seq<char> {
    if unreserved(b) {
        seq![b as char]
    } else {
        seq!['%', hex_digit(b as int / 16), hex_digit(b as int % 16)]
    }
}

/// A component percent-encoded byte by byte, as its UTF-8 bytes are.
pub open spec fn percent_encoded(bytes: Seq<u8>) -> Seq<char>
    decreases bytes.len(),
{
    if bytes.len() == 0 {
        seq![]
    } else {
        percent_encoded(bytes.drop_last()) + encode_byte(bytes.last())
    }
}

fn hex_char(n: u8) -> (c: char)
    requires
        n < 16,
    ensures
        c == hex_digit(n as int),
{
    if n < 10 {
        char_from_ascii(48 + n as u32)
    } else {
        char_from_ascii(55 + n as u32)
    }
}

/// Percent-encode one URL component.
pub fn encode(value: &str) -> (r: String)
    ensures
        r@ == percent_encoded(vstd::utf8::encode_utf8(value@)),
{
    let bytes = value.as_bytes();
    let mut out: Vec<char> = Vec::new();
    let n = bytes.len();
    let mut i: usize = 0;
    while i < n
        invariant
            n == bytes@.len(),
            bytes@ == vstd::utf8::encode_utf8(value@),
            i <= n,
            out@ == percent_encoded(bytes@.take(i as int)),
        decreases n - i,
    {
        let b = bytes[i];
        let ghost before = out@;
        if (65 <= b && b <= 90) || (97 <= b && b <= 122) || (48 <= b && b <= 57) || b == 45 || b
            == 95 || b == 46 || b == 126 {
            out.push(char_from_ascii(b as u32));
        } else {
            out.push('%');
            out.push(hex_char(b / 16));
            out.push(hex_char(b % 16));
        }
        assert(out@ =~= before + encode_byte(b));
        assert(bytes@.take(i + 1).drop_last() =~= bytes@.take(i as int));
        i += 1;
    }
    assert(bytes@.take(n as int) =~= bytes@);
    string_of(&out)
}

/// `k=v` pairs joined with `&`, each side encoded.
pub open spec fn query_text(params: Seq<(Seq<char>, Seq<char>)>) -> Seq<char>
    decreases params.len(),
{
    if params.len() == 0 {
        seq![]
    } else if params.len() == 1 {
        component(params[0].0) + "="@ + component(params[0].1)
    } else {
        query_text(params.drop_last()) + "&"@ + component(params.last().0) + "="@
            + component(params.last().1)
    }
}

/// One URL component of text, encoded.
pub open spec fn component(t: Seq<char>) -> Seq<char> {
    percent_encoded(vstd::utf8::encode_utf8(t))
}

/// Each pair as text.
pub open spec fn pair_views(params: Seq<(String, String)>) -> Seq<(Seq<char>, Seq<char>)> {
    params.map_values(|p: (String, String)| (p.0@, p.1@))
}

/// `a=1&b=2` from pairs, in the order given.
///
/// Order is kept because filter parameters repeat one key, and a map would
/// lose the second.
pub fn query_string(params: &[(String, String)]) -> (r: String)
    ensures
        r@ == query_text(pair_views(params@)),
{
    let ghost all = pair_views(params@);
    let mut out = String::new();
    let n = params.len();
    let mut i: usize = 0;
    while i < n
        invariant
            n == params@.len(),
            all == pair_views(params@),
            i <= n,
            out@ == query_text(all.take(i as int)),
        decreases n - i,
    {
        let k = encode(params[i].0.as_str());
        let v = encode(params[i].1.as_str());
        if i > 0 {
            out.append("&");
        }
        out.append(k.as_str());
        out.append("=");
        out.append(v.as_str());
        proof {
            let t = all.take(i + 1);
            assert(t.drop_last() =~= all.take(i as int));
            assert(t.last() == all[i as int]);
            if i == 0 {
                assert(all.take(0) =~= Seq::<(Seq<char>, Seq<char>)>::empty());
            }
        }
        i += 1;
    }
    assert(all.take(n as int) =~= all);
    out
}

/// Where each of the four services is, and what the storefront is
/// configured with.
#[derive(Clone, Debug)]
pub struct Endpoints {
    /// The storefront.
    pub origin: String,
    /// The GraphQL gateway.
    pub api: String,
    /// Auth0: one tenant for both countries.
    pub auth: String,
    /// The search index host, shared by both countries.
    pub search: String,
    /// Which index the key selects.
    pub search_key: String,
    /// The Auth0 application to sign in as.
    pub auth_client_id: String,
    /// What the authorization code is bound to.
    pub auth_redirect: String,
}

/// A base URL without its trailing slashes.
fn bare(s: String) -> (r: String)
    ensures
        r@ == text::trim_end_char(s@, '/'),
{
    trim_end_char_str(s.as_str(), '/')
}

impl Endpoints {
    /// The hosts one country is served from.
    pub fn of(country: Country) -> (e: Endpoints)
        ensures
            e.origin@ == country.origin_spec(),
            e.api@ == country.api_spec(),
            e.auth@ == "https://auth.kmart.com.au"@,
            e.search@ == "https://ac.cnstrc.com"@,
            e.search_key@ == vendor::search_key_spec(country),
            e.auth_client_id@ == vendor::auth_client_id_spec(country),
            e.auth_redirect@ == vendor::auth_redirect_spec(country),
    {
        Endpoints {
            origin: country.origin().to_owned(),
            api: country.api().to_owned(),
            auth: "https://auth.kmart.com.au".to_owned(),
            search: "https://ac.cnstrc.com".to_owned(),
            search_key: vendor::search_key(country).to_owned(),
            auth_client_id: vendor::auth_client_id(country).to_owned(),
            auth_redirect: vendor::auth_redirect(country),
        }
    }

    /// Take the values a storefront is serving today over the ones that
    /// shipped.
    pub fn with_vendor(self, vendor: &Vendor) -> (e: Endpoints)
        ensures
            e.origin@ == self.origin@,
            e.api@ == self.api@,
            e.auth@ == self.auth@,
            e.search@ == self.search@,
            e.search_key@ == vendor.search_key@,
            e.auth_client_id@ == vendor.auth_client_id@,
            e.auth_redirect@ == vendor.auth_redirect@,
    {
        let mut e = self;
        e.search_key = vendor.search_key.clone();
        e.auth_client_id = vendor.auth_client_id.clone();
        e.auth_redirect = vendor.auth_redirect.clone();
        e
    }

    pub fn with_origin(self, origin: String) -> (e: Endpoints)
        ensures
            e == (Endpoints { origin: e.origin, ..self }),
            e.origin@ == text::trim_end_char(origin@, '/'),
    {
        let mut e = self;
        e.origin = bare(origin);
        e
    }

    pub fn with_api(self, api: String) -> (e: Endpoints)
        ensures
            e == (Endpoints { api: e.api, ..self }),
            e.api@ == text::trim_end_char(api@, '/'),
    {
        let mut e = self;
        e.api = bare(api);
        e
    }

    pub fn with_auth(self, auth: String) -> (e: Endpoints)
        ensures
            e == (Endpoints { auth: e.auth, ..self }),
            e.auth@ == text::trim_end_char(auth@, '/'),
    {
        let mut e = self;
        e.auth = bare(auth);
        e
    }

    pub fn with_search(self, search: String) -> (e: Endpoints)
        ensures
            e == (Endpoints { search: e.search, ..self }),
            e.search@ == text::trim_end_char(search@, '/'),
    {
        let mut e = self;
        e.search = bare(search);
        e
    }

    pub fn with_search_key(self, key: String) -> (e: Endpoints)
        ensures
            e == (Endpoints { search_key: e.search_key, ..self }),
            e.search_key@ == key@,
    {
        let mut e = self;
        e.search_key = key;
        e
    }

    /// Point every host at one place. For a test with a single mock server.
    pub fn all(base: String) -> (e: Endpoints)
        ensures
            e.origin@ == text::trim_end_char(base@, '/'),
            e.api@ == e.origin@,
            e.auth@ == e.origin@,
            e.search@ == e.origin@,
            e.search_key@ == "key_test"@,
            e.auth_client_id@ == "client-test"@,
            e.auth_redirect@ == "https://storefront.test/account/login"@,
    {
        let base = bare(base);
        Endpoints {
            origin: base.clone(),
            api: base.clone(),
            auth: base.clone(),
            search: base,
            search_key: "key_test".to_owned(),
            auth_client_id: "client-test".to_owned(),
            auth_redirect: "https://storefront.test/account/login".to_owned(),
        }
    }

    pub fn graphql(&self) -> (r: String)
        ensures
            r@ == self.api@ + "/gateway/graphql"@,
    {
        cat(self.api.as_str(), "/gateway/graphql")
    }

    /// Keyword search. Also the product lookup: a keycode is a term the
    /// index matches exactly.
    pub fn search_term(&self, term: &str) -> (r: String)
        ensures
            r@ == self.search@ + "/search/"@ + percent_encoded(vstd::utf8::encode_utf8(term@)),
    {
        let t = encode(term);
        cat3(self.search.as_str(), "/search/", t.as_str())
    }

    /// A category listing, by the group id a category is known by.
    pub fn browse_group(&self, group_id: &str) -> (r: String)
        ensures
            r@ == self.search@ + "/browse/group_id/"@ + percent_encoded(vstd::utf8::encode_utf8(group_id@)),
    {
        let g = encode(group_id);
        cat3(self.search.as_str(), "/browse/group_id/", g.as_str())
    }

    pub fn authorize(&self) -> (r: String)
        ensures
            r@ == self.auth@ + "/authorize"@,
    {
        cat(self.auth.as_str(), "/authorize")
    }

    pub fn token(&self) -> (r: String)
        ensures
            r@ == self.auth@ + "/oauth/token"@,
    {
        cat(self.auth.as_str(), "/oauth/token")
    }
}

} // verus!
