//! What the Woolworths client hands back: products, stores, the cart and
//! orders in whole cents, variant keys, the category tree and order filters.
//! A quantity is kilograms on a weighed line, so it stays a double, carried
//! through untouched.
use vstd::prelude::*;

use crate::measure::Double;
use crate::text;
use crate::text::{cat, cat3, chars_of, contains_str, eq_any, eq_str, index_in, string_range, to_lowercase, to_uppercase, trim_str};

verus! {

/// The key a cart line is addressed by: a stock code and a unit.
///
/// With a unit (not blank), the stock code -- what precedes any `-` -- with
/// the unit upper-cased after a `-`. Without one, a key that already has a
/// `-` is kept, and a bare stock code is completed to the each (`-EA`).
pub open spec fn variant_key_of(sku_or_key: Seq<char>, unit: Option<Seq<char>>) -> Seq<char> {
    let raw = text::trim(sku_or_key);
    match unit {
        Some(u) if text::trim(u).len() > 0 => text::split_char(raw, '-')[0] + "-"@ + text::unicode_upper(
            text::trim(u),
        ),
        _ => if text::contains(raw, "-"@) {
            raw
        } else {
            raw + "-EA"@
        },
    }
}

pub fn variant_key(sku_or_key: &str, unit: Option<&str>) -> (r: String)
    ensures
        r@ == variant_key_of(
            sku_or_key@,
            match unit {
                Some(u) => Some(u@),
                None => None,
            },
        ),
{
    let raw = trim_str(sku_or_key);
    match unit {
        Some(u) => {
            let t = trim_str(u);
            if !t.as_str().is_empty() {
                let v = chars_of(raw.as_str());
                let n = v.len();
                let end = match index_in(&v, '-', 0, n) {
                    Some(k) => k,
                    None => n,
                };
                proof {
                    assert(v@.subrange(0, n as int) =~= v@);
                    text::lemma_split_nonempty(v@, '-');
                }
                let stock = string_range(&v, 0, end);
                assert(text::split_char(raw@, '-')[0] == stock@);
                let upper = to_uppercase(t.as_str());
                return cat3(stock.as_str(), "-", upper.as_str());
            }
        },
        None => {},
    }
    if contains_str(raw.as_str(), "-") {
        raw
    } else {
        cat(raw.as_str(), "-EA")
    }
}

/// Asking for a variant key without a unit a second time changes nothing.
pub proof fn lemma_variant_key_settles(sku_or_key: Seq<char>)
    ensures
        variant_key_of(variant_key_of(sku_or_key, None), None) == variant_key_of(sku_or_key, None),
{
    let raw = text::trim(sku_or_key);
    lemma_trim_settles(sku_or_key);
    reveal_strlit("-");
    reveal_strlit("-EA");
    if text::contains(raw, "-"@) {
    } else {
        let k = raw + "-EA"@;
        assert(text::matches_at(k, "-"@, raw.len() as int)) by {
            assert(k.subrange(raw.len() as int, raw.len() as int + 1) =~= "-"@);
        }
        text::lemma_find_from(k, "-"@, 0);
        lemma_trim_of_keyed(raw);
    }
}

/// Trimmed text trims to itself.
pub proof fn lemma_trim_settles(s: Seq<char>)
    ensures
        text::trim(text::trim(s)) == text::trim(s),
{
    text::lemma_trim_start(s);
    let a = text::trim_start(s);
    text::lemma_trim_end(a);
    let t = text::trim_end(a);
    text::lemma_trim_start(t);
    let k = choose|k: int|
        0 <= k <= t.len() && text::trim_start(t) == t.subrange(k, t.len() as int) && (forall|j: int|
            0 <= j < k ==> text::is_ws(#[trigger] t[j])) && (k < t.len() ==> !text::is_ws(t[k]));
    if k > 0 {
        assert(t[0] == a[0]);
        assert(text::is_ws(t[0]));
        assert(false);
    }
    assert(t.subrange(0, t.len() as int) =~= t);
    text::lemma_trim_end(t);
    if t.len() > 0 {
        assert(!text::is_ws(t.last()));
    }
    assert(text::trim_end(t) == t);
}

/// A trimmed key with `-EA` after it is still trimmed.
proof fn lemma_trim_of_keyed(raw: Seq<char>)
    requires
        text::trim(raw) == raw,
        "-EA"@.len() == 3,
        "-EA"@[2] == 'A',
        "-EA"@[0] == '-',
    ensures
        text::trim(raw + "-EA"@) == raw + "-EA"@,
{
    let k = raw + "-EA"@;
    text::lemma_trim_start(raw);
    let a = choose|a: int|
        0 <= a <= raw.len() && text::trim_start(raw) == raw.subrange(a, raw.len() as int) && (forall|j: int|
            0 <= j < a ==> text::is_ws(#[trigger] raw[j])) && (a < raw.len() ==> !text::is_ws(raw[a]));
    text::lemma_trim_end(text::trim_start(raw));
    if raw.len() > 0 {
        if a > 0 {
            text::lemma_trim_end(raw.subrange(a, raw.len() as int));
            assert(text::trim_end(raw.subrange(a, raw.len() as int)).len() <= raw.len() - a);
            assert(false);
        }
        assert(!text::is_ws(k[0]));
    } else {
        assert(k[0] == '-');
    }
    assert(text::trim_start(k) == k);
    assert(k.last() == 'A');
    assert(text::trim_end(k) == k);
}

/// A node of the category tree.
pub struct Category {
    pub key: String,
    pub name: String,
    pub slug: String,
    pub level: u32,
    pub children: Vec<Category>,
}

/// Every category of a tree with the names of its ancestors, depth first,
/// parents before their children.
pub open spec fn flat(c: Category, path: Seq<Seq<char>>) -> Seq<(Seq<Seq<char>>, Category)>
    decreases c, 1nat,
{
    seq![(path, c)] + flat_all(c.children@, path.push(c.name@))
}

pub open spec fn flat_all(cs: Seq<Category>, path: Seq<Seq<char>>) -> Seq<(Seq<Seq<char>>, Category)>
    decreases cs, 0nat,
{
    if cs.len() == 0 {
        seq![]
    } else {
        flat_all(cs.drop_last(), path) + flat(cs.last(), path)
    }
}

/// An entry of a flattened tree, as values.
pub open spec fn entry_view(e: (Vec<String>, &Category)) -> (Seq<Seq<char>>, Category) {
    (e.0@.map_values(|s: String| s@), *e.1)
}

pub open spec fn path_view(p: Seq<String>) -> Seq<Seq<char>> {
    p.map_values(|s: String| s@)
}

/// Among `items`, the earliest of the lowest level whose name passes `ok`.
pub open spec fn lowest(items: Seq<Category>, ok: spec_fn(Seq<char>) -> bool) -> Option<Category>
    decreases items.len(),
{
    if items.len() == 0 {
        None
    } else {
        let before = lowest(items.drop_last(), ok);
        let x = items.last();
        if ok(x.name@) && (before matches Some(b) ==> x.level < b.level) {
            Some(x)
        } else {
            before
        }
    }
}

/// What `Category::find` picks: the lowest-level exact name match, else the
/// lowest-level name containing the needle, compared lower-cased.
pub open spec fn found(root: Category, needle: Seq<char>) -> Option<Category> {
    let n = text::unicode_lower(text::trim(needle));
    let items = flat(root, seq![]).map_values(|e: (Seq<Seq<char>>, Category)| e.1);
    if n.len() == 0 {
        None
    } else {
        match lowest(items, |name: Seq<char>| text::unicode_lower(name) == n) {
            Some(c) => Some(c),
            None => lowest(items, |name: Seq<char>| text::contains(text::unicode_lower(name), n)),
        }
    }
}

impl Category {
    fn walk<'a>(&'a self, path: &mut Vec<String>, out: &mut Vec<(Vec<String>, &'a Category)>)
        ensures
            final(path)@ == old(path)@,
            final(out)@.map_values(|e: (Vec<String>, &Category)| entry_view(e)) == old(out)@.map_values(
                |e: (Vec<String>, &Category)| entry_view(e),
            ) + flat(*self, path_view(old(path)@)),
        decreases *self,
    {
        let ghost p0 = path@;
        let ghost o0 = out@.map_values(|e: (Vec<String>, &Category)| entry_view(e));
        let here = path.clone();
        out.push((here, self));
        assert(out@.map_values(|e: (Vec<String>, &Category)| entry_view(e)) =~= o0 + seq![
            (path_view(p0), *self),
        ]);
        path.push(self.name.clone());
        assert(path_view(path@) =~= path_view(p0).push(self.name@));
        let n = self.children.len();
        let mut i: usize = 0;
        assert(self.children@.take(0).len() == 0);
        while i < n
            invariant
                n == self.children@.len(),
                i <= n,
                path@ == p0.push(self.name),
                path_view(path@) == path_view(p0).push(self.name@),
                out@.map_values(|e: (Vec<String>, &Category)| entry_view(e)) == o0 + seq![
                    (path_view(p0), *self),
                ] + flat_all(self.children@.take(i as int), path_view(p0).push(self.name@)),
            decreases n - i,
        {
            let ghost before = out@.map_values(|e: (Vec<String>, &Category)| entry_view(e));
            self.children[i].walk(path, out);
            assert(self.children@.take(i + 1).drop_last() =~= self.children@.take(i as int));
            assert(self.children@.take(i + 1).last() == self.children@[i as int]);
            i += 1;
        }
        assert(self.children@.take(n as int) =~= self.children@);
        path.pop();
        assert(path@ =~= p0);
    }

    /// Every category under this one, this one first, each with the names of
    /// the categories above it.
    pub fn flatten(&self) -> (r: Vec<(Vec<String>, &Category)>)
        ensures
            r@.map_values(|e: (Vec<String>, &Category)| entry_view(e)) == flat(*self, seq![]),
    {
        let mut out: Vec<(Vec<String>, &Category)> = Vec::new();
        let mut path: Vec<String> = Vec::new();
        assert(path_view(path@) =~= Seq::<Seq<char>>::empty());
        self.walk(&mut path, &mut out);
        assert(Seq::<(Vec<String>, &Category)>::empty().map_values(|e: (Vec<String>, &Category)| entry_view(e)) + flat(*self, seq![]) =~= flat(*self, seq![]));
        out
    }

    /// A category by name: an exact match before a partial one, and a
    /// shallower one before a deeper, compared lower-cased.
    pub fn find(&self, needle: &str) -> (r: Option<&Category>)
        ensures
            match r {
                Some(c) => found(*self, needle@) == Some(*c),
                None => found(*self, needle@) is None,
            },
    {
        let n = to_lowercase(trim_str(needle).as_str());
        if n.as_str().is_empty() {
            return None;
        }
        let all = self.flatten();
        let ghost items = flat(*self, seq![]).map_values(|e: (Seq<Seq<char>>, Category)| e.1);
        let ghost exact = |name: Seq<char>| text::unicode_lower(name) == n@;
        let ghost partial = |name: Seq<char>| text::contains(text::unicode_lower(name), n@);
        let m = all.len();
        assert(items.len() == m);
        let mut best: Option<&Category> = None;
        let mut i: usize = 0;
        while i < m
            invariant
                m == all@.len(),
                i <= m,
                all@.map_values(|e: (Vec<String>, &Category)| entry_view(e)) == flat(*self, seq![]),
                items == flat(*self, seq![]).map_values(|e: (Seq<Seq<char>>, Category)| e.1),
                exact == (|name: Seq<char>| text::unicode_lower(name) == n@),
                (match best {
                    Some(b) => Some(*b),
                    None => None,
                }) == lowest(items.take(i as int), exact),
            decreases m - i,
        {
            let c = all[i].1;
            assert(items[i as int] == *c);
            assert(items.take(i + 1).drop_last() =~= items.take(i as int));
            assert(items.take(i + 1).last() == *c);
            let lower = to_lowercase(c.name.as_str());
            if eq_str(lower.as_str(), n.as_str()) {
                match best {
                    Some(b) => {
                        if c.level < b.level {
                            best = Some(c);
                        }
                    },
                    None => {
                        best = Some(c);
                    },
                }
            }
            i += 1;
        }
        assert(items.take(m as int) =~= items);
        if best.is_some() {
            return best;
        }
        let mut i: usize = 0;
        while i < m
            invariant
                m == all@.len(),
                i <= m,
                all@.map_values(|e: (Vec<String>, &Category)| entry_view(e)) == flat(*self, seq![]),
                items == flat(*self, seq![]).map_values(|e: (Seq<Seq<char>>, Category)| e.1),
                partial == (|name: Seq<char>| text::contains(text::unicode_lower(name), n@)),
                (match best {
                    Some(b) => Some(*b),
                    None => None,
                }) == lowest(items.take(i as int), partial),
            decreases m - i,
        {
            let c = all[i].1;
            assert(items[i as int] == *c);
            assert(items.take(i + 1).drop_last() =~= items.take(i as int));
            assert(items.take(i + 1).last() == *c);
            let lower = to_lowercase(c.name.as_str());
            if contains_str(lower.as_str(), n.as_str()) {
                match best {
                    Some(b) => {
                        if c.level < b.level {
                            best = Some(c);
                        }
                    },
                    None => {
                        best = Some(c);
                    },
                }
            }
            i += 1;
        }
        best
    }
}

/// Which orders a listing shows.
#[derive(Copy, Clone, Debug, PartialEq, Eq, Structural)]
pub enum Filter {
    Active,
    Past,
    All,
}

impl Default for Filter {
    fn default() -> (f: Filter)
        ensures
            f == Filter::All,
    {
        Filter::All
    }
}

/// The filter a word names, once trimmed and lower-cased.
pub open spec fn filter_named(t: Seq<char>) -> Option<Filter> {
    if t == "active"@ || t == "open"@ || t == "current"@ {
        Some(Filter::Active)
    } else if t == "past"@ || t == "completed"@ || t == "history"@ {
        Some(Filter::Past)
    } else if t == "all"@ {
        Some(Filter::All)
    } else {
        None
    }
}

impl Filter {
    /// How the API spells it.
    pub fn wire(self) -> (r: &'static str)
        ensures
            r@ == (match self {
                Filter::Active => "ACTIVE"@,
                Filter::Past => "PAST"@,
                Filter::All => "ALL"@,
            }),
    {
        match self {
            Filter::Active => "ACTIVE",
            Filter::Past => "PAST",
            Filter::All => "ALL",
        }
    }

    /// The synonyms the site suggests, in any case.
    pub fn parse(s: &str) -> (r: Option<Filter>)
        ensures
            r == filter_named(text::unicode_lower(text::trim(s@))),
    {
        let t = to_lowercase(trim_str(s).as_str());
        let t = t.as_str();
        let active: [&str; 3] = ["active", "open", "current"];
        let past: [&str; 3] = ["past", "completed", "history"];
        if eq_any(t, &active) {
            proof {
                let k = choose|k: int| 0 <= k < active@.len() && t@ == (#[trigger] active@[k])@;
            }
            Some(Filter::Active)
        } else if eq_any(t, &past) {
            assert(t@ != active@[0]@ && t@ != active@[1]@ && t@ != active@[2]@);
            Some(Filter::Past)
        } else if eq_str(t, "all") {
            assert(t@ != active@[0]@ && t@ != active@[1]@ && t@ != active@[2]@);
            assert(t@ != past@[0]@ && t@ != past@[1]@ && t@ != past@[2]@);
            Some(Filter::All)
        } else {
            assert(t@ != active@[0]@ && t@ != active@[1]@ && t@ != active@[2]@);
            assert(t@ != past@[0]@ && t@ != past@[1]@ && t@ != past@[2]@);
            None
        }
    }
}

/// One fee on an order.
pub struct Fee {
    pub kind: String,
    pub cents: i64,
}

/// An order in a listing.
pub struct Order {
    pub number: String,
    pub placed_at: Option<String>,
    pub status: Option<String>,
    pub fulfilment_status: Option<String>,
    pub total_cents: Option<i64>,
    pub method: Option<String>,
    /// The store a pickup names, or the address a delivery names.
    pub destination: Option<String>,
    pub slot_start: Option<String>,
    pub amendable: bool,
}

/// A page of orders.
pub struct OrderPage {
    pub orders: Vec<Order>,
    pub total: u32,
    pub total_pages: u32,
}


/// A product, priced from its first variant, in whole cents.
pub struct Product {
    pub sku: String,
    /// `282768-EA`: what cart changes key on.
    pub variant_key: String,
    pub name: String,
    pub brand: Option<String>,
    pub unit_of_measure: Option<String>,
    pub price_cents: Option<i64>,
    pub was_price_cents: Option<i64>,
    pub unit_price_cents: Option<i64>,
    pub unit_measure: Option<String>,
    pub is_special: bool,
    pub is_club_price: bool,
    pub in_stock: Option<bool>,
    pub availability: Option<String>,
    pub department: Option<String>,
    pub store_key: Option<String>,
    /// An ad slot: a real product at a real price, marked so a reader can tell
    /// why it is at the top.
    pub sponsored: bool,
    pub image: Option<String>,
    pub url: String,
}

pub struct Store {
    pub id: String,
    pub name: String,
    pub address: Option<String>,
    pub suburb: Option<String>,
    pub city: Option<String>,
    pub distance_km: Option<Double>,
}

pub struct CartLine {
    pub sku: String,
    pub variant_key: String,
    pub name: String,
    pub brand: Option<String>,
    /// Kilograms on a `-KGM` line, a count on every other one.
    pub quantity: Double,
    pub unit_price_cents: Option<i64>,
    pub total_cents: Option<i64>,
    pub discount_cents: Option<i64>,
    pub can_substitute: bool,
}

pub struct Cart {
    pub id: Option<String>,
    pub lines: Vec<CartLine>,
    /// The quantities, added, when the site said: fractional where a weighed
    /// line is in the cart. Where it did not, the number of lines stands for
    /// it.
    pub total_items: Option<Double>,
    pub unique_products: u32,
    /// The lines alone.
    pub items_cents: Option<i64>,
    /// Products plus fees: what the site calls the order subtotal.
    pub subtotal_cents: Option<i64>,
    pub to_pay_cents: Option<i64>,
    pub discount_cents: Option<i64>,
    pub store_name: Option<String>,
    pub store_id: Option<String>,
    pub fulfilment_method: Option<String>,
    pub problems: Vec<String>,
}

/// A quantity to set a variant to.
pub struct Change {
    pub variant_key: String,
    pub quantity: Double,
}

pub struct OrderLineItem {
    pub sku: String,
    pub variant_key: String,
    pub name: String,
    pub quantity: Double,
    pub total_cents: Option<i64>,
    pub unit_price_cents: Option<i64>,
    pub saving_cents: Option<i64>,
    pub can_substitute: bool,
}

pub struct OrderDetail {
    pub number: String,
    pub status: Option<String>,
    pub placed_at: Option<String>,
    pub amendable: bool,
    /// Zero while the order is still being picked.
    pub total_cents: Option<i64>,
    pub estimated_total_cents: Option<i64>,
    pub discount_cents: Option<i64>,
    pub savings_cents: Option<i64>,
    pub items_cents: Option<i64>,
    pub fees: Vec<Fee>,
    pub method: Option<String>,
    pub kind: Option<String>,
    pub slot_start: Option<String>,
    pub slot_end: Option<String>,
    pub location_name: Option<String>,
    pub location_store_id: Option<String>,
    pub address: Option<String>,
    pub lines: Vec<OrderLineItem>,
}

impl OrderDetail {
    /// What the order comes to: the settled total, or the estimate while the
    /// total still reads zero or is absent.
    pub fn total(&self) -> (r: Option<i64>)
        ensures
            r == (match self.total_cents {
                Some(0) | None => self.estimated_total_cents,
                settled => settled,
            }),
    {
        match self.total_cents {
            Some(0) | None => self.estimated_total_cents,
            settled => settled,
        }
    }
}

} // verus!
