//! Product detail, and the page tokens everything else is bought with.
//!
//! Cart, wishlist, stock and variation endpoints all need a `verify` token
//! minted into the product page and stamped with the time it was minted, so
//! none of them can be called cold: the token-bearing operations take a
//! [`Pdp`], a page that has been read.
use vstd::prelude::*;

use crate::measure::Double;
use crate::netkit::jwt;
use crate::text;
use crate::text::{cat, cat3, chars_of, contains_str, eq_any, eq_str, find_at, index_in, is_empty_str, rfind_char, string_range};
use crate::kmart::endpoints as pct;
use crate::twlnz::domain::{blank_product, Price, Product, ProductDetail, VariationAxis, VariationValue};
use crate::twlnz::endpoints::encode;
use crate::twlnz::error::Error;
use crate::twlnz::extract::{Actions, LdOffer, LdProduct};
use crate::twlnz::wire::unescape;

verus! {

#[derive(Copy, Clone, Debug, PartialEq, Eq, Structural)]
pub enum Action {
    AddToCart,
    AddToWishlist,
    StoreStock,
    Shipping,
    Variation,
}

impl Action {
    /// The action, named for a message.
    pub fn describe(self) -> (r: &'static str)
        ensures
            r@ == (match self {
                Action::AddToCart => "an add-to-cart action"@,
                Action::AddToWishlist => "an add-to-wishlist action"@,
                Action::StoreStock => "a store-stock action"@,
                Action::Shipping => "a shipping action"@,
                Action::Variation => "a variation action"@,
            }),
    {
        match self {
            Action::AddToCart => "an add-to-cart action",
            Action::AddToWishlist => "an add-to-wishlist action",
            Action::StoreStock => "a store-stock action",
            Action::Shipping => "a shipping action",
            Action::Variation => "a variation action",
        }
    }
}

/// The last `/`-separated part of a schema.org availability URL.
pub open spec fn schema_leaf(availability: Seq<char>) -> Seq<char> {
    match text::rfind_char_in(availability, '/', 0, availability.len() as int) {
        Some(s) => availability.subrange(s + 1, availability.len() as int),
        None => availability,
    }
}

/// Whether a schema.org availability means it can be had: in stock, in
/// store only, limited, or on pre-order.
pub open spec fn schema_available(availability: Seq<char>) -> bool {
    let leaf = schema_leaf(availability);
    leaf == "InStock"@ || leaf == "InStoreOnly"@ || leaf == "LimitedAvailability"@ || leaf == "PreOrder"@
}

/// The leaf of a URL is what follows its last `/`.
proof fn lemma_leaf_after_slash(prefix: Seq<char>, leaf: Seq<char>)
    requires
        forall|i: int| 0 <= i < leaf.len() ==> leaf[i] != '/',
    ensures
        schema_leaf(prefix + seq!['/'] + leaf) == leaf,
{
    let s = prefix + seq!['/'] + leaf;
    let p = prefix.len() as int;
    text::lemma_rfind_char_in(s, '/', 0, s.len() as int);
    assert(s[p] == '/');
    match text::rfind_char_in(s, '/', 0, s.len() as int) {
        Some(k) => {
            if k < p {
                assert(s[p] != '/');
            }
            if k > p {
                assert(s[k] == leaf[k - p - 1]);
            }
            assert(k == p);
            assert(s.subrange(k + 1, s.len() as int) =~= leaf);
        },
        None => {},
    }
}

/// Which schema.org availabilities count as available, under any prefix
/// (`http://schema.org/`, `https://schema.org/`, or none): in stock, in store
/// only, limited and pre-order do; out of stock, sold out, discontinued,
/// back-order and online-only do not, and neither does the bare prefix.
pub proof fn lemma_schema_availability(prefix: Seq<char>)
    ensures
        schema_available(prefix + "/InStock"@),
        schema_available(prefix + "/InStoreOnly"@),
        schema_available(prefix + "/LimitedAvailability"@),
        schema_available(prefix + "/PreOrder"@),
        !schema_available(prefix + "/OutOfStock"@),
        !schema_available(prefix + "/SoldOut"@),
        !schema_available(prefix + "/Discontinued"@),
        !schema_available(prefix + "/BackOrder"@),
        !schema_available(prefix + "/OnlineOnly"@),
        !schema_available(prefix + "/"@),
        schema_available("InStock"@),
        schema_available("LimitedAvailability"@),
        !schema_available("OutOfStock"@),
{
    reveal_strlit("/");
    reveal_strlit("InStock");
    reveal_strlit("InStoreOnly");
    reveal_strlit("LimitedAvailability");
    reveal_strlit("PreOrder");
    reveal_strlit("OutOfStock");
    reveal_strlit("SoldOut");
    reveal_strlit("Discontinued");
    reveal_strlit("BackOrder");
    reveal_strlit("OnlineOnly");
    reveal_strlit("/InStock");
    reveal_strlit("/InStoreOnly");
    reveal_strlit("/LimitedAvailability");
    reveal_strlit("/PreOrder");
    reveal_strlit("/OutOfStock");
    reveal_strlit("/SoldOut");
    reveal_strlit("/Discontinued");
    reveal_strlit("/BackOrder");
    reveal_strlit("/OnlineOnly");
    let leaves = seq![
        "InStock"@, "InStoreOnly"@, "LimitedAvailability"@, "PreOrder"@, "OutOfStock"@,
        "SoldOut"@, "Discontinued"@, "BackOrder"@, "OnlineOnly"@, Seq::<char>::empty(),
    ];
    assert forall|k: int| 0 <= k < leaves.len() implies schema_leaf(prefix + seq!['/'] + leaves[k]) == leaves[k] by {
        lemma_leaf_after_slash(prefix, leaves[k]);
    }
    assert(prefix + "/InStock"@ =~= prefix + seq!['/'] + leaves[0]);
    assert(prefix + "/InStoreOnly"@ =~= prefix + seq!['/'] + leaves[1]);
    assert(prefix + "/LimitedAvailability"@ =~= prefix + seq!['/'] + leaves[2]);
    assert(prefix + "/PreOrder"@ =~= prefix + seq!['/'] + leaves[3]);
    assert(prefix + "/OutOfStock"@ =~= prefix + seq!['/'] + leaves[4]);
    assert(prefix + "/SoldOut"@ =~= prefix + seq!['/'] + leaves[5]);
    assert(prefix + "/Discontinued"@ =~= prefix + seq!['/'] + leaves[6]);
    assert(prefix + "/BackOrder"@ =~= prefix + seq!['/'] + leaves[7]);
    assert(prefix + "/OnlineOnly"@ =~= prefix + seq!['/'] + leaves[8]);
    assert(prefix + "/"@ =~= prefix + seq!['/'] + leaves[9]);
    text::lemma_rfind_char_in("InStock"@, '/', 0, 7);
    text::lemma_rfind_char_in("LimitedAvailability"@, '/', 0, 19);
    text::lemma_rfind_char_in("OutOfStock"@, '/', 0, 10);
}

/// `http://schema.org/InStock` and its neighbours.
pub fn schema_in_stock(availability: &str) -> (r: bool)
    ensures
        r == schema_available(availability@),
{
    let v = chars_of(availability);
    let n = v.len();
    proof {
        text::lemma_rfind_char_in(v@, '/', 0, n as int);
    }
    let leaf = match rfind_char(&v, '/', 0, n) {
        Some(s) => string_range(&v, s + 1, n),
        None => {
            assert(v@.subrange(0, n as int) =~= v@);
            string_range(&v, 0, n)
        },
    };
    let names: [&str; 4] = ["InStock", "InStoreOnly", "LimitedAvailability", "PreOrder"];
    let r = eq_any(leaf.as_str(), &names);
    proof {
        if r {
            let k = choose|k: int| 0 <= k < names@.len() && leaf@ == (#[trigger] names@[k])@;
        } else {
            assert(leaf@ != names@[0]@ && leaf@ != names@[1]@ && leaf@ != names@[2]@ && leaf@ != names@[3]@);
        }
    }
    r
}


impl Action {
    /// The likely reason an action is missing, so a message says something
    /// more useful than that a URL was: a product not orderable online offers
    /// no add-to-cart, and one with no axes no variation.
    pub fn why_absent(self, detail: &ProductDetail) -> (r: &'static str)
        ensures
            r@ == (match self {
                Action::AddToCart => if detail.product.availability.online == Some(false) {
                    ". It is not orderable online, so the page offers no way to add it"@
                } else {
                    ""@
                },
                Action::Variation => if detail.axes@.len() == 0 {
                    ". This product has no variations to choose between"@
                } else {
                    ""@
                },
                _ => ""@,
            }),
    {
        proof {
            reveal_strlit("");
        }
        match self {
            Action::AddToCart => if detail.product.availability.online == Some(false) {
                ". It is not orderable online, so the page offers no way to add it"
            } else {
                ""
            },
            Action::Variation => if detail.axes.len() == 0 {
                ". This product has no variations to choose between"
            } else {
                ""
            },
            _ => "",
        }
    }
}

/// A product page that has been read, and what it authorises. Short-lived:
/// its tokens carry the time they were minted and age out.
pub struct Pdp {
    /// The id the page was fetched for, which its tokens are signed against.
    pub pid: String,
    pub detail: ProductDetail,
    pub actions: Actions,
}

/// `u64::from_str`: an optional `+`, then at least one ASCII digit and
/// nothing else, within range.
pub open spec fn u64_text(s: Seq<char>) -> Option<u64> {
    let d = if s.len() > 0 && s[0] == '+' { s.drop_first() } else { s };
    if d.len() > 0 && text::all_digits(d) && text::digits_value(d) <= u64::MAX {
        Some(text::digits_value(d) as u64)
    } else {
        None
    }
}

/// When a token was minted: what follows its first `verify=` (up to any
/// second one), up to its first `-`, read as a number.
pub open spec fn token_time(url: Seq<char>) -> Option<u64> {
    match text::find(url, "verify="@) {
        None => None,
        Some(p) => {
            let rest = url.subrange(p + 7, url.len() as int);
            let piece = match text::find(rest, "verify="@) {
                Some(q) => rest.take(q),
                None => rest,
            };
            let head = match text::index_of(piece, '-') {
                Some(k) => piece.take(k),
                None => piece,
            };
            u64_text(head)
        },
    }
}

fn u64_of(v: &Vec<char>, from: usize, to: usize) -> (r: Option<u64>)
    requires
        from <= to <= v.len(),
    ensures
        r == u64_text(v@.subrange(from as int, to as int)),
{
    let ghost s = v@.subrange(from as int, to as int);
    let start = if from < to && v[from] == '+' { from + 1 } else { from };
    let ghost d = v@.subrange(start as int, to as int);
    assert(from < to && v@[from as int] == '+' ==> d =~= s.drop_first());
    assert(!(from < to && v@[from as int] == '+') ==> d =~= s);
    if start == to {
        return None;
    }
    let mut k = start;
    let mut acc: u128 = 0;
    while k < to
        invariant
            from <= start <= k <= to <= v.len(),
            start < to,
            s == v@.subrange(from as int, to as int),
            d == v@.subrange(start as int, to as int),
            u64_text(s) == (if d.len() > 0 && text::all_digits(d) && text::digits_value(d) <= u64::MAX {
                Some(text::digits_value(d) as u64)
            } else {
                None
            }),
            text::all_digits(d.take(k - start)),
            acc == text::digits_value(d.take(k - start)),
            acc <= u64::MAX,
        decreases to - k,
    {
        let c = v[k];
        assert(d.take(k - start + 1).drop_last() =~= d.take(k - start));
        assert(d.take(k - start + 1).last() == c);
        if !('0' <= c && c <= '9') {
            assert(!text::all_digits(d)) by {
                assert(!text::is_ascii_digit(d[k - start]));
            }
            return None;
        }
        let next = acc * 10 + ((c as u32) - 48) as u128;
        assert(text::digits_value(d.take(k - start + 1)) == next);
        if next > 0xffff_ffff_ffff_ffff {
            proof {
                lemma_prefix_digits(d, k - start + 1);
            }
            return None;
        }
        acc = next;
        k += 1;
    }
    assert(d.take(to - start) =~= d);
    Some(acc as u64)
}

proof fn lemma_prefix_digits(d: Seq<char>, k: int)
    requires
        0 <= k <= d.len(),
        text::all_digits(d.take(k)),
    ensures
        text::all_digits(d) ==> text::digits_value(d.take(k)) <= text::digits_value(d),
    decreases d.len() - k,
{
    if k < d.len() && text::all_digits(d) {
        let e = d.drop_last();
        assert(e.take(k) =~= d.take(k));
        assert(text::all_digits(e));
        lemma_prefix_digits(e, k);
        assert(text::is_ascii_digit(d.last()));
    } else if k == d.len() {
        assert(d.take(k) =~= d);
    }
}

fn minted(url: &str) -> (r: Option<u64>)
    ensures
        r == token_time(url@),
{
    let v = chars_of(url);
    let pat = chars_of("verify=");
    proof {
        reveal_strlit("verify=");
    }
    let p = match find_at(&v, &pat, 0) {
        Some(p) => p,
        None => return None,
    };
    proof {
        text::lemma_find_from(v@, pat@, 0);
        assert(pat@.len() == 7);
    }
    let vl = v.len();
    let rest_text = string_range(&v, p + 7, vl);
    let r = chars_of(rest_text.as_str());
    let ghost rest = r@;
    let end = match find_at(&r, &pat, 0) {
        Some(q) => q,
        None => r.len(),
    };
    proof {
        text::lemma_find_from(rest, pat@, 0);
    }
    let ghost piece = r@.subrange(0, end as int);
    assert(piece == (match text::find(rest, "verify="@) {
        Some(q) => rest.take(q),
        None => rest,
    })) by {
        match text::find(rest, pat@) {
            Some(q) => {
                assert(rest.take(q) =~= piece);
            },
            None => {
                assert(rest =~= piece);
            },
        }
    }
    let head_end = match index_in(&r, '-', 0, end) {
        Some(k) => k,
        None => end,
    };
    assert(r@.subrange(0, head_end as int) == (match text::index_of(piece, '-') {
        Some(k) => piece.take(k),
        None => piece,
    })) by {
        match text::index_of(piece, '-') {
            Some(k) => {
                assert(piece.take(k) =~= r@.subrange(0, head_end as int));
            },
            None => {
                assert(piece =~= r@.subrange(0, head_end as int));
            },
        }
    }
    u64_of(&r, 0, head_end)
}

impl Pdp {
    /// When the page's tokens were minted: the `verify` timestamp of its
    /// add-to-cart action, else its wishlist one, else its stock one.
    pub fn minted_at(&self) -> (r: Option<u64>)
        ensures
            r == (match self.actions.add_to_cart {
                Some(u) => token_time(u@),
                None => match self.actions.add_to_wishlist {
                    Some(u) => token_time(u@),
                    None => match self.actions.store_stock {
                        Some(u) => token_time(u@),
                        None => None,
                    },
                },
            }),
    {
        let url = match &self.actions.add_to_cart {
            Some(u) => u,
            None => match &self.actions.add_to_wishlist {
                Some(u) => u,
                None => match &self.actions.store_stock {
                    Some(u) => u,
                    None => return None,
                },
            },
        };
        minted(url.as_str())
    }

    /// Whether the page is older than `max_age_secs` at `now`: advisory only,
    /// so a long-running command re-reads the page rather than spending a
    /// write on a token that will be refused.
    pub fn stale_at(&self, max_age_secs: u64, now: u64) -> (r: bool)
        ensures
            r == (match self.minted_at_spec() {
                Some(t) => (if now >= t { now - t } else { 0 }) > max_age_secs,
                None => false,
            }),
    {
        match self.minted_at() {
            Some(t) => now.saturating_sub(t) > max_age_secs,
            None => false,
        }
    }

    pub open spec fn minted_at_spec(&self) -> Option<u64> {
        match self.actions.add_to_cart {
            Some(u) => token_time(u@),
            None => match self.actions.add_to_wishlist {
                Some(u) => token_time(u@),
                None => match self.actions.store_stock {
                    Some(u) => token_time(u@),
                    None => None,
                },
            },
        }
    }

    /// Whether the page's tokens are older than `max_age_secs` at `now`.
    pub open spec fn stale_by(&self, max_age_secs: u64, now: u64) -> bool {
        match self.minted_at_spec() {
            Some(t) => (if now >= t { now - t } else { 0 }) > max_age_secs,
            None => false,
        }
    }

    /// [`Pdp::stale_at`] by the system clock: the answer for the time the
    /// clock read, whatever that was.
    pub fn stale(&self, max_age_secs: u64) -> (r: bool)
        ensures
            exists|now: u64| r == #[trigger] self.stale_by(max_age_secs, now),
            self.minted_at_spec() is None ==> !r,
    {
        let now = jwt::now_secs();
        let r = self.stale_at(max_age_secs, now);
        assert(r == self.stale_by(max_age_secs, now));
        r
    }

    /// The action URL for an operation, or the reason there is none -- a
    /// missing action is usually the site's answer: a sold-out product
    /// genuinely has no add-to-cart URL.
    pub fn action(&self, which: Action) -> (r: Result<&str, Error>)
        ensures
            match self.slot(which) {
                Some(u) => r matches Ok(x) && x@ == u@,
                None => r matches Err(Error::NotInPage { what, detail }) && what@ == describe_spec(which)
                    + " for "@ + self.pid@ && detail@ == why_absent_spec(which, self.detail),
            },
    {
        let slot = match which {
            Action::AddToCart => &self.actions.add_to_cart,
            Action::AddToWishlist => &self.actions.add_to_wishlist,
            Action::StoreStock => &self.actions.store_stock,
            Action::Shipping => &self.actions.shipping,
            Action::Variation => &self.actions.variation,
        };
        match slot {
            Some(u) => Ok(u.as_str()),
            None => Err(Error::NotInPage {
                what: cat3(which.describe(), " for ", self.pid.as_str()),
                detail: which.why_absent(&self.detail).to_owned(),
            }),
        }
    }

    pub open spec fn slot(&self, which: Action) -> Option<String> {
        match which {
            Action::AddToCart => self.actions.add_to_cart,
            Action::AddToWishlist => self.actions.add_to_wishlist,
            Action::StoreStock => self.actions.store_stock,
            Action::Shipping => self.actions.shipping,
            Action::Variation => self.actions.variation,
        }
    }
}

pub open spec fn describe_spec(a: Action) -> Seq<char> {
    match a {
        Action::AddToCart => "an add-to-cart action"@,
        Action::AddToWishlist => "an add-to-wishlist action"@,
        Action::StoreStock => "a store-stock action"@,
        Action::Shipping => "a shipping action"@,
        Action::Variation => "a variation action"@,
    }
}

pub open spec fn why_absent_spec(a: Action, detail: ProductDetail) -> Seq<char> {
    match a {
        Action::AddToCart => if detail.product.availability.online == Some(false) {
            ". It is not orderable online, so the page offers no way to add it"@
        } else {
            ""@
        },
        Action::Variation => if detail.axes@.len() == 0 {
            ". This product has no variations to choose between"@
        } else {
            ""@
        },
        _ => ""@,
    }
}


// ------------------------------------------------------- choosing a value

/// The URL the site signed for one value of one axis: on the first axis
/// with that id, the first value whose id or label is the one asked for.
pub open spec fn signed_url(axes: Seq<VariationAxis>, axis: Seq<char>, value: Seq<char>) -> Option<Seq<char>>
    decreases axes.len(),
{
    if axes.len() == 0 {
        None
    } else if axes[0].id@ == axis {
        value_url(axes[0].values@, value)
    } else {
        signed_url(axes.drop_first(), axis, value)
    }
}

pub open spec fn value_url(values: Seq<VariationValue>, value: Seq<char>) -> Option<Seq<char>>
    decreases values.len(),
{
    if values.len() == 0 {
        None
    } else if values[0].id@ == value || values[0].label@ == value {
        match values[0].url {
            Some(u) => Some(u@),
            None => None,
        }
    } else {
        value_url(values.drop_first(), value)
    }
}

/// A variation URL built by hand: the parameter name embeds the product id,
/// `dwvar_<pid>_<attr>`, and the value is percent-encoded.
pub open spec fn built_selection(base: Seq<char>, pid: Seq<char>, axis: Seq<char>, value: Seq<char>) -> Seq<char> {
    base + (if text::contains(base, "?"@) { "&"@ } else { "?"@ }) + "dwvar_"@ + pid + "_"@ + axis + "="@
        + pct::percent_encoded(vstd::utf8::encode_utf8(value))
}

fn value_url_of(values: &Vec<VariationValue>, value: &str) -> (r: Option<String>)
    ensures
        match value_url(values@, value@) {
            Some(u) => r matches Some(x) && x@ == u,
            None => r is None,
        },
{
    let n = values.len();
    assert(values@.subrange(0, n as int) =~= values@);
    let mut i: usize = 0;
    while i < n
        invariant
            i <= n == values.len(),
            value_url(values@, value@) == value_url(values@.subrange(i as int, n as int), value@),
        decreases n - i,
    {
        assert(values@.subrange(i as int, n as int).drop_first() =~= values@.subrange(i + 1, n as int));
        let v = &values[i];
        if eq_str(v.id.as_str(), value) || eq_str(v.label.as_str(), value) {
            return match &v.url {
                Some(u) => Some(u.as_str().to_owned()),
                None => None,
            };
        }
        i += 1;
    }
    None
}

fn signed_url_of(axes: &Vec<VariationAxis>, axis: &str, value: &str) -> (r: Option<String>)
    ensures
        match signed_url(axes@, axis@, value@) {
            Some(u) => r matches Some(x) && x@ == u,
            None => r is None,
        },
{
    let n = axes.len();
    assert(axes@.subrange(0, n as int) =~= axes@);
    let mut i: usize = 0;
    while i < n
        invariant
            i <= n == axes.len(),
            signed_url(axes@, axis@, value@) == signed_url(axes@.subrange(i as int, n as int), axis@, value@),
        decreases n - i,
    {
        assert(axes@.subrange(i as int, n as int).drop_first() =~= axes@.subrange(i + 1, n as int));
        if eq_str(axes[i].id.as_str(), axis) {
            return value_url_of(&axes[i].values, value);
        }
        i += 1;
    }
    None
}

impl Pdp {
    /// A variation URL with one axis value chosen. The site pre-signs one URL
    /// per value, which is preferred because it carries the rest of the
    /// current selection; otherwise one is built on the variation action.
    pub fn select(&self, axis: &str, value: &str) -> (r: Result<String, Error>)
        ensures
            match signed_url(self.detail.axes@, axis@, value@) {
                Some(u) => r matches Ok(x) && x@ == u,
                None => match self.actions.variation {
                    Some(b) => r matches Ok(x) && x@ == built_selection(b@, self.pid@, axis@, value@),
                    None => r matches Err(Error::NotInPage { what, detail }) && what@ == describe_spec(
                        Action::Variation,
                    ) + " for "@ + self.pid@ && detail@ == why_absent_spec(Action::Variation, self.detail),
                },
            },
    {
        if let Some(url) = signed_url_of(&self.detail.axes, axis, value) {
            return Ok(url);
        }
        let base = match self.action(Action::Variation) {
            Ok(b) => b,
            Err(e) => return Err(e),
        };
        proof {
            reveal_strlit("?");
        }
        let joiner = if contains_str(base, "?") { "&" } else { "?" };
        let mut out = cat3(base, joiner, "dwvar_");
        out.append(self.pid.as_str());
        out.append("_");
        out.append(axis);
        out.append("=");
        let enc = encode(value);
        out.append(enc.as_str());
        Ok(out)
    }
}

// ------------------------------------------------------- reading a page

/// The first tile, at or after `i`, that addresses `pid`.
pub open spec fn tile_for(tiles: Seq<Product>, pid: Seq<char>, i: int) -> Option<int>
    decreases tiles.len() - i,
{
    if i < 0 || i >= tiles.len() {
        None
    } else if tiles[i].id@ == pid {
        Some(i)
    } else {
        tile_for(tiles, pid, i + 1)
    }
}

/// The tile a detail is built on: the one for the pid, else the first.
pub open spec fn base_tile(tiles: Seq<Product>, pid: Seq<char>) -> Option<Product> {
    match tile_for(tiles, pid, 0) {
        Some(i) => Some(tiles[i]),
        None => if tiles.len() > 0 {
            Some(tiles[0])
        } else {
            None
        },
    }
}

/// Nothing recognisable at all -- an error page, a bot check or a redesign:
/// no schema.org block, no tile and no action.
pub open spec fn not_a_product_page(actions: Actions, ld: Option<LdProduct>, tiles: Seq<Product>) -> bool {
    &&& ld is None
    &&& tiles.len() == 0
    &&& actions.add_to_cart is None && actions.add_to_wishlist is None && actions.store_stock is None
    &&& actions.shipping is None && actions.set_region is None && actions.variation is None
}

pub open spec fn opt_view(o: Option<String>) -> Option<Seq<char>> {
    match o {
        Some(s) => Some(s@),
        None => None,
    }
}

pub open spec fn first_view(v: Seq<String>) -> Option<Seq<char>> {
    if v.len() > 0 {
        Some(v[0]@)
    } else {
        None
    }
}

/// What of a tile a detail page leaves as the tile had it (nothing, with
/// no tile).
pub open spec fn kept_from(p: Product, base: Option<Product>) -> bool {
    match base {
        Some(t) => {
            &&& p.master_id == t.master_id
            &&& p.was_price == t.was_price
            &&& p.rating == t.rating
            &&& p.category == t.category
            &&& p.url == t.url
            &&& p.availability.status == t.availability.status
            &&& p.availability.in_store == t.availability.in_store
            &&& p.availability.label == t.availability.label
            &&& p.marketplace == t.marketplace
        },
        None => {
            &&& p.master_id is None && p.was_price is None && p.rating is None
            &&& p.category is None && p.url is None
            &&& p.availability.status is None && p.availability.in_store is None
            &&& p.availability.label is None && !p.marketplace
        },
    }
}

/// A detail assembled from a tile (when there is one) and the schema.org
/// block (when there is one): each fills what the other leaves open. The
/// tile has stock and the category; the block has the description, the SKU
/// and the barcode. The block's offer is the online one, so it fills the
/// online axis only.
pub open spec fn built_detail(
    d: ProductDetail,
    base: Option<Product>,
    pid: Seq<char>,
    ld: Option<LdProduct>,
    offer_value: Option<Double>,
) -> bool {
    let p = d.product;
    let b_id = match base { Some(t) => t.id@, None => seq![] };
    let b_name = match base { Some(t) => t.name@, None => seq![] };
    let b_brand = match base { Some(t) => opt_view(t.brand), None => None };
    let b_image = match base { Some(t) => opt_view(t.image), None => None };
    let b_ean = match base { Some(t) => opt_view(t.ean), None => None };
    let b_online = match base { Some(t) => t.availability.online, None => None };
    let b_price_empty = match base {
        Some(t) => t.price.value is None && t.price.formatted is None,
        None => true,
    };
    let offer: Option<LdOffer> = match ld { Some(l) => l.offers, None => None };
    &&& p.id@ == (if b_id.len() == 0 { pid } else { b_id })
    &&& p.name@ == (match ld {
        Some(l) => if b_name.len() == 0 {
            match l.name { Some(n) => n@, None => seq![] }
        } else {
            b_name
        },
        None => b_name,
    })
    &&& opt_view(p.brand) == (match ld {
        Some(l) => if b_brand is None {
            match l.brand { Some(br) => opt_view(br.name), None => None }
        } else {
            b_brand
        },
        None => b_brand,
    })
    &&& opt_view(p.image) == (match ld {
        Some(l) => if b_image is None { first_view(l.image@) } else { b_image },
        None => b_image,
    })
    &&& opt_view(p.ean) == (match ld {
        Some(l) => if b_ean is None { first_view(l.gtin13@) } else { b_ean },
        None => b_ean,
    })
    &&& (match offer {
        Some(o) => if b_price_empty {
            &&& p.price.value == offer_value
            &&& opt_view(p.price.formatted) == (match o.price { Some(x) => Some("$"@ + x@), None => None })
            &&& p.price.currency == o.currency
        } else {
            base matches Some(t) && p.price == t.price
        },
        None => match base {
            Some(t) => p.price == t.price,
            None => p.price.value is None && p.price.formatted is None && p.price.currency is None,
        },
    })
    &&& p.availability.online == (match offer {
        Some(o) => if b_online is None {
            match o.availability { Some(a) => Some(schema_available(a@)), None => None }
        } else {
            b_online
        },
        None => b_online,
    })
    &&& kept_from(p, base)
    &&& opt_view(d.description) == (match ld {
        Some(l) => match l.description { Some(x) => Some(crate::twlnz::wire::unescaped(x@)), None => None },
        None => None,
    })
    &&& opt_view(d.sku) == (match ld {
        Some(l) => match l.sku { Some(s) => Some(s@), None => Some(pid) },
        None => Some(pid),
    })
    &&& d.max_quantity is None
    &&& d.axes@.len() == 0
    &&& d.shipping@.len() == 0
}

proof fn lemma_tile_for(tiles: Seq<Product>, pid: Seq<char>, i: int)
    requires
        0 <= i,
    ensures
        tile_for(tiles, pid, i) matches Some(k) ==> i <= k < tiles.len(),
    decreases tiles.len() - i,
{
    if i < tiles.len() && tiles[i].id@ != pid {
        lemma_tile_for(tiles, pid, i + 1);
    }
}

fn tile_index(tiles: &Vec<Product>, pid: &str) -> (r: Option<usize>)
    ensures
        match tile_for(tiles@, pid@, 0) {
            Some(i) => 0 <= i < tiles.len() && r == Some(i as usize),
            None => r is None,
        },
{
    proof {
        lemma_tile_for(tiles@, pid@, 0);
    }
    let n = tiles.len();
    let mut i: usize = 0;
    while i < n
        invariant
            i <= n == tiles.len(),
            tile_for(tiles@, pid@, 0) == tile_for(tiles@, pid@, i as int),
        decreases n - i,
    {
        if eq_str(tiles[i].id.as_str(), pid) {
            return Some(i);
        }
        i += 1;
    }
    None
}

impl Pdp {
    /// Read a product page from what was found on it: the actions it
    /// authorises, its schema.org block, its product tiles, and the block's
    /// offer price read as a number. A page with none of these is refused
    /// rather than returned as a hollow product.
    #[verifier::spinoff_prover]
    #[verifier::rlimit(50)]
    pub fn parse(
        pid: &str,
        actions: Actions,
        ld: Option<LdProduct>,
        tiles: Vec<Product>,
        offer_value: Option<Double>,
    ) -> (r: Result<Pdp, Error>)
        ensures
            r is Err <==> not_a_product_page(actions, ld, tiles@),
            r matches Err(e) ==> e matches Error::NotInPage { what, detail } && what@ == "product "@ + pid@
                && detail@ == ", so the page was not a product page"@,
            r matches Ok(p) ==> {
                &&& p.pid@ == pid@
                &&& p.actions == actions
                &&& built_detail(p.detail, base_tile(tiles@, pid@), pid@, ld, offer_value)
            },
    {
        if ld.is_none() && tiles.len() == 0 && actions.is_empty() {
            return Err(
                Error::NotInPage {
                    what: cat("product ", pid),
                    detail: ", so the page was not a product page".to_owned(),
                },
            );
        }
        let ghost tiles0 = tiles@;
        let mut tiles = tiles;
        let found = tile_index(&tiles, pid);
        assert(found matches Some(i) ==> i < tiles.len());
        let mut product = match found {
            Some(i) => tiles.remove(i),
            None => if tiles.len() > 0 {
                tiles.remove(0)
            } else {
                Product::default()
            },
        };
        let ghost base = base_tile(tiles0, pid@);
        assert(base matches Some(t) ==> t == product);
        assert(base is None ==> blank_product(product));
        assert(base is None ==> product.name@ =~= Seq::<char>::empty());
        if is_empty_str(product.id.as_str()) {
            product.id = pid.to_owned();
        }
        let mut description: Option<String> = None;
        let mut sku: Option<String> = None;
        match ld {
            Some(l) => {
                let LdProduct { name, description: about, sku: code, brand, offers, gtin13, image } = l;
                if is_empty_str(product.name.as_str()) {
                    product.name = match name {
                        Some(n) => n,
                        None => String::new(),
                    };
                }
                if product.brand.is_none() {
                    product.brand = match brand {
                        Some(b) => b.name,
                        None => None,
                    };
                }
                if product.image.is_none() {
                    let mut image = image;
                    product.image = if image.len() > 0 { Some(image.remove(0)) } else { None };
                }
                // The barcode only appears here, and only on a detail page.
                if product.ean.is_none() {
                    let mut gtin13 = gtin13;
                    product.ean = if gtin13.len() > 0 { Some(gtin13.remove(0)) } else { None };
                }
                match offers {
                    Some(o) => {
                        let LdOffer { price, currency, availability } = o;
                        if product.price.is_empty() {
                            let formatted = match &price {
                                Some(x) => Some(cat("$", x.as_str())),
                                None => None,
                            };
                            product.price = Price { value: offer_value, formatted, currency };
                        }
                        if product.availability.online.is_none() {
                            product.availability.online = match &availability {
                                Some(a) => Some(schema_in_stock(a.as_str())),
                                None => None,
                            };
                        }
                    },
                    None => {},
                }
                // Entities survive into the block as written.
                description = match about {
                    Some(x) => Some(unescape(x.as_str())),
                    None => None,
                };
                sku = code;
            },
            None => {},
        }
        if sku.is_none() {
            sku = Some(pid.to_owned());
        }
        let detail = ProductDetail {
            product,
            description,
            sku,
            max_quantity: None,
            axes: Vec::new(),
            shipping: Vec::new(),
        };
        Ok(Pdp { pid: pid.to_owned(), detail, actions })
    }
}

} // verus!
