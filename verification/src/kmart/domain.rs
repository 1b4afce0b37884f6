//! The types the Kmart client hands back.
//!
//! Money is in cents, always: the catalogue states a price as dollars in a
//! double, as a decimal string, or not at all, and one integer at the
//! boundary means the conversion happens once.
use vstd::prelude::*;

use crate::kmart::country::Country;
use crate::measure::Double;
use crate::text;
use crate::text::{cat, chars_of, eq_ignore_case_str, eq_str, index_in, trim_str};

verus! {

/// One refinement a listing offers.
pub struct Facet {
    pub name: String,
    pub label: Option<String>,
    pub options: Vec<FacetOption>,
}

pub struct FacetOption {
    pub value: String,
    pub label: Option<String>,
    pub count: Option<u64>,
}

/// A sort a listing offers, as the index spells it.
pub struct Sort {
    pub by: String,
    pub order: String,
    pub label: Option<String>,
}

/// A node of the category tree.
pub struct Category {
    pub id: String,
    pub name: String,
    pub path: Option<String>,
    pub count: Option<u64>,
    pub children: Vec<Category>,
}

/// A category and everything under it, depth first, parents before their
/// children.
pub open spec fn walk_of(c: Category) -> Seq<Category>
    decreases c, 1nat,
{
    seq![c] + walk_all(c.children@)
}

/// The walks of a run of categories, one after another.
pub open spec fn walk_all(cs: Seq<Category>) -> Seq<Category>
    decreases cs, 0nat,
{
    if cs.len() == 0 {
        seq![]
    } else {
        walk_all(cs.drop_last()) + walk_of(cs.last())
    }
}

impl Category {
    /// Every category under this one, this one first, depth first.
    pub fn walk(&self) -> (r: Vec<&Category>)
        ensures
            r@.map_values(|c: &Category| *c) == walk_of(*self),
        decreases *self,
    {
        let mut out: Vec<&Category> = Vec::new();
        out.push(self);
        let n = self.children.len();
        let mut i: usize = 0;
        assert(self.children@.take(0) =~= Seq::<Category>::empty());
        while i < n
            invariant
                n == self.children@.len(),
                i <= n,
                out@.map_values(|c: &Category| *c) == seq![*self] + walk_all(
                    self.children@.take(i as int),
                ),
            decreases n - i,
        {
            let child = &self.children[i];
            let sub = child.walk();
            let ghost before = out@.map_values(|c: &Category| *c);
            let mut j: usize = 0;
            while j < sub.len()
                invariant
                    j <= sub@.len(),
                    out@.map_values(|c: &Category| *c) == before + sub@.map_values(
                        |c: &Category| *c,
                    ).take(j as int),
                decreases sub@.len() - j,
            {
                let ghost prev = out@;
                out.push(sub[j]);
                assert(out@.map_values(|c: &Category| *c) =~= prev.map_values(|c: &Category| *c).push(
                    *sub@[j as int],
                ));
                assert(sub@.map_values(|c: &Category| *c).take(j + 1) =~= sub@.map_values(
                    |c: &Category| *c,
                ).take(j as int).push(*sub@[j as int]));
                assert(out@.map_values(|c: &Category| *c) =~= before + sub@.map_values(
                    |c: &Category| *c,
                ).take(j + 1));
                j += 1;
            }
            assert(sub@.map_values(|c: &Category| *c).take(sub@.len() as int) =~= sub@.map_values(
                |c: &Category| *c,
            ));
            assert(self.children@.take(i + 1).drop_last() =~= self.children@.take(i as int));
            assert(self.children@.take(i + 1).last() == self.children@[i as int]);
            assert(out@.map_values(|c: &Category| *c) =~= seq![*self] + walk_all(
                self.children@.take(i + 1),
            ));
            i += 1;
        }
        assert(self.children@.take(n as int) =~= self.children@);
        out
    }
}

/// A postcode the gateway knows.
pub struct Postcode {
    pub postcode: String,
    pub suburb: Option<String>,
    pub state: Option<String>,
    pub metro: Option<bool>,
}

/// One day of a store's hours.
pub struct TradingDay {
    pub day: String,
    pub hours: String,
}

/// How a shipped order can be followed.
pub struct Tracking {
    pub number: Option<String>,
    pub carrier: Option<String>,
    pub link: Option<String>,
}

/// Who is signed in.
pub struct Customer {
    pub id: Option<String>,
    pub email: Option<String>,
    pub name: Option<String>,
}


// ------------------------------------------------------------------ money

/// An amount, in cents.
#[derive(Clone, Copy, Debug, PartialEq, Eq, Structural)]
pub struct Price {
    pub cents: i64,
}

/// A run of text as `i64::from_str` reads it, before the range check: an
/// optional sign, then at least one ASCII digit and nothing else.
pub open spec fn signed_value(s: Seq<char>) -> Option<int> {
    let (neg, d) = if s.len() > 0 && s[0] == '-' {
        (true, s.drop_first())
    } else if s.len() > 0 && s[0] == '+' {
        (false, s.drop_first())
    } else {
        (false, s)
    };
    if d.len() > 0 && text::all_digits(d) {
        Some(if neg { -(text::digits_value(d) as int) } else { text::digits_value(d) as int })
    } else {
        None
    }
}

/// `i64::from_str`.
pub open spec fn int_text(s: Seq<char>) -> Option<i64> {
    match signed_value(s) {
        Some(v) => if i64::MIN <= v <= i64::MAX {
            Some(v as i64)
        } else {
            None
        },
        None => None,
    }
}

/// The UTF-8 length of a character.
pub open spec fn utf8_len(c: char) -> int {
    if (c as u32) < 0x80 {
        1
    } else if (c as u32) < 0x800 {
        2
    } else if (c as u32) < 0x10000 {
        3
    } else {
        4
    }
}

/// A price's text split into its sign and its whole and fractional digits.
pub open spec fn price_parts(t0: Seq<char>) -> (int, Seq<char>, Seq<char>) {
    let t = text::trim(t0);
    let (sign, body) = if t.len() > 0 && t[0] == '-' {
        (-1int, t.drop_first())
    } else {
        (1int, t)
    };
    match text::split_once(body, '.') {
        Some((w, f)) => (sign, w, f),
        None => (sign, body, seq![]),
    }
}

/// The cents the first two places of `frac` come to, padded or cut.
pub open spec fn frac_cents(frac: Seq<char>) -> Option<i64> {
    if frac.len() == 0 {
        Some(0)
    } else if frac.len() == 1 {
        int_text(frac.push('0'))
    } else {
        int_text(frac.take(2))
    }
}

/// Where `Price::parse` stops on text: the whole part, when it has one, and
/// the fractional part read to cents, each by `i64::from_str`.
pub open spec fn price_values(t0: Seq<char>) -> Option<(int, i64, i64)> {
    let (sign, whole, frac) = price_parts(t0);
    if whole.len() == 0 && frac.len() == 0 {
        None
    } else {
        let w = if whole.len() == 0 { Some(0i64) } else { int_text(whole) };
        match w {
            None => None,
            Some(w) => match frac_cents(frac) {
                None => None,
                Some(c) => Some((sign, w, c)),
            },
        }
    }
}

/// Where `Price::parse` panics: cutting the fraction to two bytes inside a
/// character, or cents that overflow an `i64`.
pub open spec fn parse_panics(t0: Seq<char>) -> bool {
    let (sign, whole, frac) = price_parts(t0);
    let whole_ok = whole.len() == 0 || int_text(whole) is Some;
    let frac_bytes = if frac.len() == 0 { 0 } else if frac.len() == 1 { utf8_len(frac[0]) } else { 2 + utf8_len(frac[1]) };
    let cut_inside = frac.len() >= 1 && (frac_bytes >= 2) && !(utf8_len(frac[0]) == 2 || (utf8_len(frac[0]) == 1
        && frac.len() >= 2 && utf8_len(frac[1]) == 1));
    ||| (!(whole.len() == 0 && frac.len() == 0) && whole_ok && cut_inside)
    ||| match price_values(t0) {
        Some((sign, w, c)) => {
            let x = w * 100;
            !(i64::MIN <= x <= i64::MAX) || !(i64::MIN <= x + c <= i64::MAX) || (sign == -1 && x + c
                == i64::MIN)
        },
        None => false,
    }
}

/// A price's text as cents: `39.00` is 3900, `12.5` is 1250, `-3.50` is
/// -350, and anything that is not a decimal is nothing.
pub open spec fn price_of(t0: Seq<char>) -> Option<int> {
    match price_values(t0) {
        Some((sign, w, c)) => Some(sign * (w * 100 + c)),
        None => None,
    }
}

/// `i64::from_str` on `v[from..to]`.
fn int_in(v: &Vec<char>, from: usize, to: usize) -> (r: Option<i64>)
    requires
        from <= to <= v.len(),
    ensures
        r == int_text(v@.subrange(from as int, to as int)),
{
    let ghost s = v@.subrange(from as int, to as int);
    if from == to {
        return None;
    }
    let neg = v[from] == '-';
    let start = if v[from] == '-' || v[from] == '+' { from + 1 } else { from };
    let ghost d = v@.subrange(start as int, to as int);
    assert(v[from as int] == '-' || v[from as int] == '+' ==> d =~= s.drop_first());
    assert(!(v[from as int] == '-' || v[from as int] == '+') ==> d =~= s);
    if start == to {
        return None;
    }
    assert(signed_value(s) == (if d.len() > 0 && text::all_digits(d) {
        Some(if neg { -(text::digits_value(d) as int) } else { text::digits_value(d) as int })
    } else {
        None
    }));
    let mut k = start;
    let mut acc: i128 = 0;
    while k < to
        invariant
            from <= start <= k <= to <= v.len(),
            start < to,
            d == v@.subrange(start as int, to as int),
            signed_value(v@.subrange(from as int, to as int)) == (if d.len() > 0 && text::all_digits(d) {
                Some(if neg { -(text::digits_value(d) as int) } else { text::digits_value(d) as int })
            } else {
                None
            }),
            text::all_digits(d.take(k - start)),
            acc == text::digits_value(d.take(k - start)),
            acc <= 0x8000_0000_0000_0000,
        decreases to - k,
    {
        let c = v[k];
        assert(d.take(k - start + 1).drop_last() =~= d.take(k - start));
        assert(d.take(k - start + 1).last() == c);
        if !('0' <= c && c <= '9') {
            assert(!text::all_digits(d)) by {
                assert(!text::is_ascii_digit(d[k - start]));
            }
            return None;
        }
        let next = acc * 10 + ((c as u32) - 48) as i128;
        assert(text::digits_value(d.take(k - start + 1)) == next);
        if next > 0x8000_0000_0000_0000 {
            proof {
                assert(text::all_digits(d.take(k - start + 1)));
                lemma_digits_prefix(d, k - start + 1);
            }
            return None;
        }
        acc = next;
        k += 1;
    }
    assert(d.take(to - start) =~= d);
    if neg {
        Some((0 - acc) as i64)
    } else if acc <= 0x7fff_ffff_ffff_ffff {
        Some(acc as i64)
    } else {
        None
    }
}

/// A longer run of digits is worth at least as much as its start.
proof fn lemma_digits_prefix(d: Seq<char>, k: int)
    requires
        0 <= k <= d.len(),
        text::all_digits(d.take(k)),
    ensures
        text::all_digits(d) ==> text::digits_value(d.take(k)) <= text::digits_value(d),
    decreases d.len() - k,
{
    if k < d.len() && text::all_digits(d) {
        let e = d.drop_last();
        assert(e.take(k) =~= d.take(k));
        assert(text::all_digits(e));
        lemma_digits_prefix(e, k);
        assert(text::is_ascii_digit(d.last()));
    } else if k == d.len() {
        assert(d.take(k) =~= d);
    }
}

impl Price {
    pub fn cents(cents: i64) -> (p: Price)
        ensures
            p.cents == cents,
    {
        Price { cents }
    }

    /// Whether `parse` would panic on `text`: see [`parse_panics`].
    pub fn parse_panics(text: &str) -> (r: bool)
        ensures
            r == parse_panics(text@),
    {
        let t = trim_str(text);
        let v = chars_of(t.as_str());
        let n = v.len();
        let (sign, from): (i64, usize) = if n > 0 && v[0] == '-' { (-1, 1) } else { (1, 0) };
        let ghost body = v@.subrange(from as int, n as int);
        assert(from == 1 ==> body =~= v@.drop_first());
        assert(from == 0 ==> body =~= v@);
        let (wend, fstart) = match index_in(&v, '.', from, n) {
            Some(d) => (d, d + 1),
            None => (n, n),
        };
        assert(v@.subrange(from as int, wend as int) == price_parts(text@).1) by {
            assert(body.subrange(0, wend - from) =~= v@.subrange(from as int, wend as int));
        }
        assert(v@.subrange(fstart as int, n as int) == price_parts(text@).2) by {
            assert(body.subrange(fstart - from, body.len() as int) =~= v@.subrange(fstart as int, n as int));
        }
        let ghost whole = v@.subrange(from as int, wend as int);
        let ghost frac = v@.subrange(fstart as int, n as int);
        if wend == from && fstart == n {
            return false;
        }
        let w = if wend == from { Some(0i64) } else { int_in(&v, from, wend) };
        let w = match w {
            None => return false,
            Some(w) => w,
        };
        let flen = n - fstart;
        if flen >= 1 {
            let c0 = v[fstart] as u32;
            let l0: usize = if c0 < 0x80 { 1 } else if c0 < 0x800 { 2 } else if c0 < 0x10000 { 3 } else { 4 };
            let bytes: usize = if flen == 1 {
                l0
            } else {
                let c1 = v[fstart + 1] as u32;
                2 + if c1 < 0x80 { 1 } else if c1 < 0x800 { 2 } else if c1 < 0x10000 { 3 } else { 4 }
            };
            let boundary = l0 == 2 || (l0 == 1 && flen >= 2 && (v[fstart + 1] as u32) < 0x80);
            if bytes >= 2 && !boundary {
                return true;
            }
        }
        let c = if flen == 0 {
            Some(0i64)
        } else if flen == 1 {
            let mut p: Vec<char> = Vec::new();
            p.push(v[fstart]);
            p.push('0');
            assert(p@ =~= frac.push('0'));
            assert(p@.subrange(0, 2) =~= p@);
            int_in(&p, 0, 2)
        } else {
            assert(v@.subrange(fstart as int, fstart + 2) =~= frac.take(2));
            int_in(&v, fstart, fstart + 2)
        };
        match c {
            None => false,
            Some(c) => {
                let x = (w as i128) * 100;
                x < i64::MIN as i128 || x > i64::MAX as i128 || x + (c as i128) < i64::MIN as i128 || x
                    + (c as i128) > i64::MAX as i128 || (sign == -1 && x + (c as i128) == i64::MIN as i128)
            },
        }
    }

    /// From the catalogue's decimal string, `"39.00"`: parsed as a decimal
    /// rather than through binary floating point, to two places, padded or
    /// cut -- a feed that starts quoting four is no reason to fail.
    pub fn parse(text: &str) -> (r: Option<Price>)
        requires
            !parse_panics(text@),
        ensures
            match price_of(text@) {
                Some(c) => r matches Some(p) && p.cents == c,
                None => r is None,
            },
    {
        let t = trim_str(text);
        let v = chars_of(t.as_str());
        let n = v.len();
        let (sign, from): (i64, usize) = if n > 0 && v[0] == '-' { (-1, 1) } else { (1, 0) };
        let ghost body = v@.subrange(from as int, n as int);
        assert(from == 1 ==> body =~= v@.drop_first());
        assert(from == 0 ==> body =~= v@);
        let (wend, fstart) = match index_in(&v, '.', from, n) {
            Some(d) => (d, d + 1),
            None => (n, n),
        };
        assert(v@.subrange(from as int, wend as int) == price_parts(text@).1) by {
            assert(body.subrange(0, wend - from) =~= v@.subrange(from as int, wend as int));
        }
        assert(v@.subrange(fstart as int, n as int) == price_parts(text@).2) by {
            assert(body.subrange(fstart - from, body.len() as int) =~= v@.subrange(fstart as int, n as int));
        }
        let ghost frac = v@.subrange(fstart as int, n as int);
        if wend == from && fstart == n {
            return None;
        }
        let w = if wend == from { Some(0i64) } else { int_in(&v, from, wend) };
        let w = match w {
            None => return None,
            Some(w) => w,
        };
        let flen = n - fstart;
        let c = if flen == 0 {
            Some(0i64)
        } else if flen == 1 {
            let mut p: Vec<char> = Vec::new();
            p.push(v[fstart]);
            p.push('0');
            assert(p@ =~= frac.push('0'));
            assert(p@.subrange(0, 2) =~= p@);
            int_in(&p, 0, 2)
        } else {
            assert(v@.subrange(fstart as int, fstart + 2) =~= frac.take(2));
            int_in(&v, fstart, fstart + 2)
        };
        match c {
            None => None,
            Some(c) => {
                assert(price_values(text@) == Some((sign as int, w, c)));
                Some(Price { cents: sign * (w * 100 + c) })
            },
        }
    }
}


// ------------------------------------------------------------------ products

pub struct Rating {
    pub score: Double,
    pub reviews: u64,
}

/// One product, as the catalogue knows it. Everything but the keycode is
/// optional: the index is fed per category.
pub struct Product {
    /// The one id that works everywhere: the index's `variation_id`, the
    /// gateway's `sku`, and the tail of the page slug.
    pub keycode: String,
    pub name: String,
    pub brand: Option<String>,
    pub price: Option<Price>,
    /// The higher price a markdown was taken from; only ever set when it
    /// exceeds `price`.
    pub was: Option<Price>,
    pub currency: Option<String>,
    pub colour: Option<String>,
    pub size: Option<String>,
    /// `Kmart` for Kmart's own stock, a business name for a marketplace
    /// listing.
    pub seller: Option<String>,
    pub rating: Option<Rating>,
    pub url: Option<String>,
    pub image: Option<String>,
    /// The other shots, as bare asset paths.
    pub images: Vec<String>,
    /// HTML, as the feed carries it.
    pub description: Option<String>,
    pub free_shipping: bool,
    /// Stock pooled nationally rather than per store.
    pub national_inventory: bool,
    pub category_id: Option<String>,
    /// Sizes and colours, each with a keycode of its own.
    pub variations: Vec<Variation>,
    /// Whatever else the feed carried, by key in order, each value as the
    /// JSON text it arrived as: per category and unstable, so passed through
    /// rather than read.
    pub extra: Vec<(String, String)>,
}

impl Product {
    /// Whether a marketplace seller rather than Kmart is behind it.
    pub fn marketplace(&self) -> (r: bool)
        ensures
            r == (match self.seller {
                Some(s) => !text::eq_ignore_case(s@, "kmart"@),
                None => false,
            }),
    {
        match &self.seller {
            Some(s) => !eq_ignore_case_str(s.as_str(), "kmart"),
            None => false,
        }
    }

    /// The full storefront URL, for a country.
    pub fn page(&self, country: Country) -> (r: Option<String>)
        ensures
            match self.url {
                Some(u) => r matches Some(p) && p@ == country.origin_spec() + u@,
                None => r is None,
            },
    {
        match &self.url {
            Some(u) => Some(cat(country.origin(), u.as_str())),
            None => None,
        }
    }
}

pub struct Variation {
    pub keycode: String,
    pub name: Option<String>,
    pub colour: Option<String>,
    pub size: Option<String>,
    pub price: Option<Price>,
}

/// A page of products, and what the index said about the query behind it.
pub struct Listing {
    pub products: Vec<Product>,
    pub total: u64,
    /// How many results matched the words typed: the index falls back to a
    /// semantic match, so a term matching nothing still answers.
    pub exact: Option<u64>,
    pub facets: Vec<Facet>,
    pub sorts: Vec<Sort>,
}

impl Listing {
    /// Whether the results are a fallback rather than a match.
    pub fn is_guess(&self) -> (r: bool)
        ensures
            r == (self.exact == Some(0u64) && self.products@.len() > 0),
    {
        self.exact == Some(0u64) && self.products.len() > 0
    }
}

// ------------------------------------------------------------------ stock

/// A shop.
pub struct Store {
    /// The `locationId`: one namespace across both countries.
    pub id: String,
    pub name: String,
    pub phone: Option<String>,
    pub address: Vec<String>,
    pub city: Option<String>,
    pub state: Option<String>,
    pub postcode: Option<String>,
    pub latitude: Option<Double>,
    pub longitude: Option<Double>,
    /// Kilometres from the postcode asked about.
    pub distance_km: Option<Double>,
    pub hours: Vec<TradingDay>,
}

/// How much of something one store has.
pub struct StoreStock {
    pub store_id: String,
    pub name: Option<String>,
    pub available: i64,
    pub distance_km: Option<Double>,
    /// A buddy store fills orders on another's behalf.
    pub buddy: bool,
}

/// Where a product can be had, near a postcode: every channel independent,
/// and any of them absent.
pub struct Availability {
    pub keycode: String,
    pub postcode: String,
    pub region: Option<String>,
    pub home_delivery: Option<i64>,
    pub pool: Option<String>,
    pub express: Option<i64>,
    pub click_and_collect: Option<i64>,
    pub stores: Vec<StoreStock>,
    pub in_store: Vec<StoreStock>,
}

pub open spec fn positive(n: Option<i64>) -> bool {
    n matches Some(v) && v > 0
}

pub open spec fn some_store_has(stores: Seq<StoreStock>) -> bool {
    exists|i: int| 0 <= i < stores.len() && (#[trigger] stores[i]).available > 0
}

fn any_store_has(stores: &Vec<StoreStock>) -> (r: bool)
    ensures
        r == some_store_has(stores@),
{
    let mut i: usize = 0;
    while i < stores.len()
        invariant
            i <= stores@.len(),
            forall|j: int| 0 <= j < i ==> (#[trigger] stores@[j]).available <= 0,
        decreases stores@.len() - i,
    {
        if stores[i].available > 0 {
            return true;
        }
        i += 1;
    }
    false
}

impl Availability {
    /// Whether it can be had at all, by any route.
    pub fn any(&self) -> (r: bool)
        ensures
            r == (positive(self.home_delivery) || positive(self.express) || positive(self.click_and_collect)
                || some_store_has(self.stores@) || some_store_has(self.in_store@)),
    {
        let over = |n: Option<i64>| -> (b: bool)
            ensures
                b == positive(n),
        {
            match n {
                Some(v) => v > 0,
                None => false,
            }
        };
        over(self.home_delivery) || over(self.express) || over(self.click_and_collect) || any_store_has(
            &self.stores,
        ) || any_store_has(&self.in_store)
    }
}

// ------------------------------------------------------------------ the bag

pub struct CartLine {
    /// The line's id, which is not the product's.
    pub id: String,
    pub keycode: String,
    pub name: String,
    pub quantity: i64,
    pub unit_price: Option<Price>,
    pub total: Option<Price>,
    pub seller: Option<String>,
    /// The variant's size and colour, as `(name, value)`.
    pub options: Vec<(String, String)>,
}

/// The shopping bag.
pub struct Cart {
    pub id: String,
    /// Optimistic concurrency: every write carries the version it read.
    pub version: i64,
    pub total: Option<Price>,
    pub collect_store_id: Option<String>,
    /// Delivery, which `total` already includes.
    pub shipping: Option<Price>,
    pub shipping_method: Option<String>,
    pub lines: Vec<CartLine>,
}

/// The quantities of `lines`, added.
pub open spec fn quantity_sum(lines: Seq<CartLine>) -> int
    decreases lines.len(),
{
    if lines.len() == 0 {
        0
    } else {
        quantity_sum(lines.drop_last()) + lines.last().quantity
    }
}

/// The line totals of `lines`, added, where a line has one.
pub open spec fn total_sum(lines: Seq<CartLine>) -> int
    decreases lines.len(),
{
    if lines.len() == 0 {
        0
    } else {
        total_sum(lines.drop_last()) + match lines.last().total {
            Some(p) => p.cents as int,
            None => 0,
        }
    }
}

/// Every running sum an addition passes through fits an `i64`.
pub open spec fn sums_fit(lines: Seq<CartLine>, sum: spec_fn(Seq<CartLine>) -> int) -> bool {
    forall|k: int| 0 <= k <= lines.len() ==> i64::MIN <= #[trigger] sum(lines.take(k)) <= i64::MAX
}

/// The first line whose keycode is `keycode`.
pub open spec fn line_for(lines: Seq<CartLine>, keycode: Seq<char>) -> Option<int>
    decreases lines.len(),
{
    if lines.len() == 0 {
        None
    } else if lines[0].keycode@ == keycode {
        Some(0)
    } else {
        match line_for(lines.drop_first(), keycode) {
            Some(i) => Some(i + 1),
            None => None,
        }
    }
}

impl Cart {
    /// The line holding a keycode, which is what a quantity change needs:
    /// the gateway addresses a line by its own id, not by the product's.
    pub fn line(&self, keycode: &str) -> (r: Option<&CartLine>)
        ensures
            match line_for(self.lines@, keycode@) {
                Some(i) => r == Some(&self.lines@[i]),
                None => r is None,
            },
    {
        let ghost ls = self.lines@;
        let mut i: usize = 0;
        assert(ls.skip(0) =~= ls);
        while i < self.lines.len()
            invariant
                ls == self.lines@,
                i <= ls.len(),
                line_for(ls, keycode@) == (match line_for(ls.skip(i as int), keycode@) {
                    Some(j) => Some(j + i),
                    None => None,
                }),
            decreases ls.len() - i,
        {
            assert(ls.skip(i as int)[0] == ls[i as int]);
            assert(ls.skip(i as int).drop_first() =~= ls.skip(i + 1));
            if eq_str(self.lines[i].keycode.as_str(), keycode) {
                return Some(&self.lines[i]);
            }
            i += 1;
        }
        None
    }

    /// How many things are in the bag: quantities, not lines.
    pub fn items(&self) -> (r: i64)
        requires
            sums_fit(self.lines@, |ls: Seq<CartLine>| quantity_sum(ls)),
        ensures
            r == quantity_sum(self.lines@),
    {
        let ghost ls = self.lines@;
        let mut sum: i64 = 0;
        let mut i: usize = 0;
        while i < self.lines.len()
            invariant
                ls == self.lines@,
                i <= ls.len(),
                sums_fit(ls, |ls: Seq<CartLine>| quantity_sum(ls)),
                sum == quantity_sum(ls.take(i as int)),
            decreases ls.len() - i,
        {
            assert(ls.take(i + 1).drop_last() =~= ls.take(i as int));
            let ghost f = |ls: Seq<CartLine>| quantity_sum(ls);
            assert(i64::MIN <= f(ls.take(i + 1)) <= i64::MAX);
            sum = sum + self.lines[i].quantity;
            i += 1;
        }
        assert(ls.take(ls.len() as int) =~= ls);
        sum
    }

    /// What the goods come to, before delivery.
    pub fn subtotal(&self) -> (r: Price)
        requires
            sums_fit(self.lines@, |ls: Seq<CartLine>| total_sum(ls)),
        ensures
            r.cents == total_sum(self.lines@),
    {
        let ghost ls = self.lines@;
        let mut sum: i64 = 0;
        let mut i: usize = 0;
        while i < self.lines.len()
            invariant
                ls == self.lines@,
                i <= ls.len(),
                sums_fit(ls, |ls: Seq<CartLine>| total_sum(ls)),
                sum == total_sum(ls.take(i as int)),
            decreases ls.len() - i,
        {
            assert(ls.take(i + 1).drop_last() =~= ls.take(i as int));
            let ghost f = |ls: Seq<CartLine>| total_sum(ls);
            assert(i64::MIN <= f(ls.take(i + 1)) <= i64::MAX);
            match self.lines[i].total {
                Some(p) => {
                    sum = sum + p.cents;
                },
                None => {},
            }
            i += 1;
        }
        assert(ls.take(ls.len() as int) =~= ls);
        Price::cents(sum)
    }
}

/// What is saved for later.
pub struct Wishlist {
    pub id: Option<String>,
    pub version: Option<i64>,
    pub items: Vec<WishlistItem>,
}

pub struct WishlistItem {
    pub id: String,
    pub keycode: String,
    pub name: Option<String>,
    pub quantity: i64,
    pub price: Option<Price>,
}

pub struct Order {
    pub id: String,
    pub total: Option<Price>,
    pub status: Option<String>,
    pub placed: Option<String>,
    pub tracking: Vec<Tracking>,
}

/// A page of orders; `next` is the cursor for the following one.
pub struct OrderPage {
    pub orders: Vec<Order>,
    pub total: Option<i64>,
    pub next: Option<String>,
}

} // verus!
