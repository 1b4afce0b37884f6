//! Australia or New Zealand.
//!
//! Kmart runs one backend for both. What differs is the catalogue and the
//! money: each country has its own search index under its own key, with its
//! own products at its own prices. So the country is a parameter rather than
//! a build of its own, and it is threaded through everything that talks to
//! Kmart.
use vstd::prelude::*;

use crate::kmart::vendor;
use crate::text;
use crate::text::{eq_any, lower_str, trim_str};

verus! {

#[derive(Clone, Copy, Debug, PartialEq, Eq, Structural, Hash)]
pub enum Country {
    Au,
    Nz,
}

/// What `Country::parse` accepts, once trimmed and lower-cased.
pub open spec fn country_named(t: Seq<char>) -> Option<Country> {
    if t == "au"@ || t == "aus"@ || t == "australia"@ {
        Some(Country::Au)
    } else if t == "nz"@ || t == "nzl"@ || t == "new zealand"@ || t == "new-zealand"@ {
        Some(Country::Nz)
    } else {
        None
    }
}

impl Country {
    /// Both countries, in order.
    pub fn all() -> (r: [Country; 2])
        ensures
            r@ == seq![Country::Au, Country::Nz],
    {
        [Country::Au, Country::Nz]
    }

    pub open spec fn code_spec(self) -> Seq<char> {
        match self {
            Country::Au => "AU"@,
            Country::Nz => "NZ"@,
        }
    }

    pub open spec fn origin_spec(self) -> Seq<char> {
        match self {
            Country::Au => "https://www.kmart.com.au"@,
            Country::Nz => "https://www.kmart.co.nz"@,
        }
    }

    pub open spec fn api_spec(self) -> Seq<char> {
        match self {
            Country::Au => "https://api.kmart.com.au"@,
            Country::Nz => "https://api.kmart.co.nz"@,
        }
    }

    /// The lower-case short form a config file holds and a message prints.
    pub open spec fn short_spec(self) -> Seq<char> {
        match self {
            Country::Au => "au"@,
            Country::Nz => "nz"@,
        }
    }

    /// The `x-country-code` header, and the `country` field on every gateway
    /// input that takes one.
    pub fn code(self) -> (r: &'static str)
        ensures
            r@ == self.code_spec(),
    {
        match self {
            Country::Au => "AU",
            Country::Nz => "NZ",
        }
    }

    pub fn name(self) -> (r: &'static str)
        ensures
            r@ == (match self {
                Country::Au => "Australia"@,
                Country::Nz => "New Zealand"@,
            }),
    {
        match self {
            Country::Au => "Australia",
            Country::Nz => "New Zealand",
        }
    }

    pub fn currency(self) -> (r: &'static str)
        ensures
            r@ == (match self {
                Country::Au => "AUD"@,
                Country::Nz => "NZD"@,
            }),
    {
        match self {
            Country::Au => "AUD",
            Country::Nz => "NZD",
        }
    }

    /// The storefront, which is also the `Origin` the gateway expects.
    pub fn origin(self) -> (r: &'static str)
        ensures
            r@ == self.origin_spec(),
    {
        match self {
            Country::Au => "https://www.kmart.com.au",
            Country::Nz => "https://www.kmart.co.nz",
        }
    }

    pub fn api(self) -> (r: &'static str)
        ensures
            r@ == self.api_spec(),
    {
        match self {
            Country::Au => "https://api.kmart.com.au",
            Country::Nz => "https://api.kmart.co.nz",
        }
    }

    /// The search index key that shipped for this country.
    pub fn search_key(self) -> (r: &'static str)
        ensures
            r@ == vendor::search_key_spec(self),
    {
        vendor::search_key(self)
    }

    /// The domain a cookie export is filtered to.
    pub fn cookie_domain(self) -> (r: &'static str)
        ensures
            r@ == (match self {
                Country::Au => "kmart.com.au"@,
                Country::Nz => "kmart.co.nz"@,
            }),
    {
        match self {
            Country::Au => "kmart.com.au",
            Country::Nz => "kmart.co.nz",
        }
    }

    /// What the site calls the subdivision a postcode is in: a state in
    /// Australia, an island in New Zealand.
    pub fn subdivision(self) -> (r: &'static str)
        ensures
            r@ == (match self {
                Country::Au => "state"@,
                Country::Nz => "island"@,
            }),
    {
        match self {
            Country::Au => "state",
            Country::Nz => "island",
        }
    }

    /// What someone would type: a code or a name, any case, padded or not.
    pub fn parse(text: &str) -> (r: Option<Country>)
        ensures
            r == country_named(text::lower_seq(text::trim(text@))),
    {
        let t = lower_str(trim_str(text).as_str());
        let au: [&str; 3] = ["au", "aus", "australia"];
        let nz: [&str; 4] = ["nz", "nzl", "new zealand", "new-zealand"];
        if eq_any(t.as_str(), &au) {
            proof {
                let i = choose|i: int| 0 <= i < au@.len() && t@ == (#[trigger] au@[i])@;
            }
            Some(Country::Au)
        } else if eq_any(t.as_str(), &nz) {
            assert(t@ != au@[0]@ && t@ != au@[1]@ && t@ != au@[2]@);
            Some(Country::Nz)
        } else {
            assert(t@ != au@[0]@ && t@ != au@[1]@ && t@ != au@[2]@);
            assert(t@ != nz@[0]@ && t@ != nz@[1]@ && t@ != nz@[2]@ && t@ != nz@[3]@);
            None
        }
    }

    /// The short form, as `Display` writes it.
    pub fn to_string(&self) -> (r: String)
        ensures
            r@ == self.short_spec(),
    {
        match self {
            Country::Au => "au".to_owned(),
            Country::Nz => "nz".to_owned(),
        }
    }
}


/// What `Display` writes for a country, `parse` reads back as that country.
pub proof fn lemma_short_form_parses_back(c: Country)
    ensures
        country_named(text::lower_seq(text::trim(c.short_spec()))) == Some(c),
{
    reveal_strlit("au");
    reveal_strlit("nz");
    let s = c.short_spec();
    assert(!text::is_ws(s[0]) && !text::is_ws(s[1]));
    assert(text::trim_start(s) == s);
    assert(text::trim_end(s) == s);
    assert(text::lower_seq(s) =~= s);
    reveal_strlit("aus");
    reveal_strlit("australia");
    assert(s != "aus"@ && s != "australia"@);
    if c == Country::Nz {
        assert(s[0] != "au"@[0]);
    }
}

/// The two countries never share a catalogue key, a gateway or a
/// storefront: the wrong key would answer with the other country's products
/// at the other country's prices.
pub proof fn lemma_countries_apart(a: Country, b: Country)
    requires
        a != b,
    ensures
        vendor::search_key_spec(a) != vendor::search_key_spec(b),
        a.api_spec() != b.api_spec(),
        a.origin_spec() != b.origin_spec(),
{
    reveal_strlit("key_GZTqlLr41FS2p7AY");
    reveal_strlit("key_EyiTrcbGw7IFH3wR");
    reveal_strlit("https://api.kmart.com.au");
    reveal_strlit("https://api.kmart.co.nz");
    reveal_strlit("https://www.kmart.com.au");
    reveal_strlit("https://www.kmart.co.nz");
    assert(vendor::search_key_spec(Country::Au)[4] != vendor::search_key_spec(Country::Nz)[4]);
    assert(Country::Au.api_spec()[20] != Country::Nz.api_spec()[20]);
    assert(Country::Au.origin_spec()[20] != Country::Nz.origin_spec()[20]);
}

} // verus!
