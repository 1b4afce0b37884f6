//! Where The Warehouse lives: one storefront, whose controllers all sit under
//! one site path.
use vstd::prelude::*;

use crate::kmart::endpoints as pct;
use crate::text;
use crate::text::{cat, cat3, starts_with_str, trim_end_char_str, trim_start_char_str};

verus! {

/// The storefront's site id, part of every controller path.
pub const SITE: &'static str = "Sites-twl-Site";

/// The storefront.
#[derive(Clone, Debug)]
pub struct Endpoints {
    pub origin: String,
}

impl Default for Endpoints {
    fn default() -> (e: Endpoints)
        ensures
            e.origin@ == "https://www.thewarehouse.co.nz"@,
    {
        Endpoints { origin: "https://www.thewarehouse.co.nz".to_owned() }
    }
}

impl Endpoints {
    pub fn with_origin(self, origin: String) -> (e: Endpoints)
        ensures
            e.origin@ == text::trim_end_char(origin@, '/'),
    {
        Endpoints { origin: trim_end_char_str(origin.as_str(), '/') }
    }

    /// A storefront controller, by its action name.
    pub fn controller(&self, action: &str) -> (r: String)
        ensures
            r@ == self.origin@ + "/on/demandware.store/"@ + SITE@ + "/default/"@ + action@,
    {
        let a = cat3(self.origin.as_str(), "/on/demandware.store/", SITE);
        cat3(a.as_str(), "/default/", action)
    }

    pub fn updategrid(&self) -> (r: String)
        ensures
            r@ == self.origin@ + "/search/updategrid"@,
    {
        cat(self.origin.as_str(), "/search/updategrid")
    }

    pub fn search(&self) -> (r: String)
        ensures
            r@ == self.origin@ + "/search"@,
    {
        cat(self.origin.as_str(), "/search")
    }

    pub fn suggestions(&self) -> (r: String)
        ensures
            r@ == self.origin@ + "/search/suggestions"@,
    {
        cat(self.origin.as_str(), "/search/suggestions")
    }

    /// A category page, by its path with or without a leading slash.
    pub fn category_page(&self, path: &str) -> (r: String)
        ensures
            r@ == self.origin@ + "/"@ + text::trim_start_char(path@, '/'),
    {
        let p = trim_start_char_str(path, '/');
        cat3(self.origin.as_str(), "/", p.as_str())
    }

    /// A product page, by its slug and product id.
    pub fn product_page(&self, slug: &str, pid: &str) -> (r: String)
        ensures
            r@ == self.origin@ + "/p/"@ + text::trim_start_char(text::trim_end_char(slug@, '/'), '/')
                + "/"@ + pid@ + ".html"@,
    {
        let s = trim_end_char_str(slug, '/');
        let s = trim_start_char_str(s.as_str(), '/');
        let a = cat3(self.origin.as_str(), "/p/", s.as_str());
        let b = cat3(a.as_str(), "/", pid);
        cat(b.as_str(), ".html")
    }

    pub fn variation(&self) -> (r: String)
        ensures
            r@ == self.origin@ + "/products/variation"@,
    {
        cat(self.origin.as_str(), "/products/variation")
    }

    pub fn stores_region(&self) -> (r: String)
        ensures
            r@ == self.origin@ + "/products/stores/region"@,
    {
        cat(self.origin.as_str(), "/products/stores/region")
    }

    pub fn minicart(&self) -> (r: String)
        ensures
            r@ == self.origin@ + "/cart/minicart"@,
    {
        cat(self.origin.as_str(), "/cart/minicart")
    }

    pub fn cart_page(&self) -> (r: String)
        ensures
            r@ == self.origin@ + "/cart"@,
    {
        cat(self.origin.as_str(), "/cart")
    }

    pub fn wishlist_page(&self) -> (r: String)
        ensures
            r@ == self.origin@ + "/wishlist"@,
    {
        cat(self.origin.as_str(), "/wishlist")
    }

    pub fn login(&self) -> (r: String)
        ensures
            r@ == self.origin@ + "/account/submit-login"@,
    {
        cat(self.origin.as_str(), "/account/submit-login")
    }

    pub fn login_page(&self) -> (r: String)
        ensures
            r@ == self.origin@ + "/login"@,
    {
        cat(self.origin.as_str(), "/login")
    }

    pub fn account_page(&self) -> (r: String)
        ensures
            r@ == self.origin@ + "/account"@,
    {
        cat(self.origin.as_str(), "/account")
    }

    /// A URL scraped off a page, made absolute: an `http://` or `https://`
    /// one as it is, anything else put under the storefront.
    pub fn absolute(&self, path: &str) -> (r: String)
        ensures
            r@ == (if text::starts_with(path@, "http://"@) || text::starts_with(path@, "https://"@) {
                path@
            } else {
                self.origin@ + "/"@ + text::trim_start_char(path@, '/')
            }),
    {
        if starts_with_str(path, "http://") || starts_with_str(path, "https://") {
            path.to_owned()
        } else {
            let p = trim_start_char_str(path, '/');
            cat3(self.origin.as_str(), "/", p.as_str())
        }
    }
}

/// Percent-encode one URL component, byte by byte of its UTF-8.
pub fn encode(value: &str) -> (r: String)
    ensures
        r@ == pct::percent_encoded(vstd::utf8::encode_utf8(value@)),
{
    pct::encode(value)
}

/// `a=1&b=2` from pairs, in the order given.
pub fn query_string(params: &[(String, String)]) -> (r: String)
    ensures
        r@ == pct::query_text(pct::pair_views(params@)),
{
    pct::query_string(params)
}

} // verus!
