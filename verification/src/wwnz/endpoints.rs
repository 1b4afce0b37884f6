//! Where the Woolworths API lives: the storefront, which also answers the
//! GraphQL, and the sign-in host.
use vstd::prelude::*;

use crate::text;
use crate::text::{cat, trim_end_char_str};

verus! {

#[derive(Clone, Debug)]
pub struct Endpoints {
    pub origin: String,
    pub auth: String,
}

impl Default for Endpoints {
    fn default() -> (e: Endpoints)
        ensures
            e.origin@ == "https://www.woolworths.co.nz"@,
            e.auth@ == "https://auth.woolworths.co.nz"@,
    {
        Endpoints {
            origin: "https://www.woolworths.co.nz".to_owned(),
            auth: "https://auth.woolworths.co.nz".to_owned(),
        }
    }
}

impl Endpoints {
    pub fn with_origin(self, origin: String) -> (e: Endpoints)
        ensures
            e.origin@ == text::trim_end_char(origin@, '/'),
            e.auth == self.auth,
    {
        Endpoints { origin: trim_end_char_str(origin.as_str(), '/'), auth: self.auth }
    }

    pub fn with_auth(self, auth: String) -> (e: Endpoints)
        ensures
            e.origin == self.origin,
            e.auth@ == text::trim_end_char(auth@, '/'),
    {
        Endpoints { origin: self.origin, auth: trim_end_char_str(auth.as_str(), '/') }
    }

    pub fn graphql(&self) -> (r: String)
        ensures
            r@ == self.origin@ + "/api/graphql"@,
    {
        cat(self.origin.as_str(), "/api/graphql")
    }
}

} // verus!
