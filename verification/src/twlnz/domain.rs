//! What the Warehouse client hands back that holds no money: the category
//! tree, variation axes, shipping, availability, and the island stock is
//! quoted for.
use vstd::prelude::*;

use crate::measure::Double;
use crate::text;
use crate::text::{chars_of, eq_any, eq_str, eq_ignore_case_str, string_of, to_lowercase, trim_str};

verus! {

/// Whether a product can be had, on two axes: online, and on a shelf.
pub struct Availability {
    pub status: Option<String>,
    pub online: Option<bool>,
    pub in_store: Option<bool>,
    pub label: Option<String>,
}

impl Default for Availability {
    /// Nothing known on either axis.
    fn default() -> (a: Availability)
        ensures
            a.status is None && a.online is None && a.in_store is None && a.label is None,
    {
        Availability { status: None, online: None, in_store: None, label: None }
    }
}

impl Availability {
    /// Whether it can be had at all: unknown when neither axis is known,
    /// else whether either says yes.
    pub fn orderable(&self) -> (r: Option<bool>)
        ensures
            r == (match (self.online, self.in_store) {
                (None, None) => None,
                (a, b) => Some(a == Some(true) || b == Some(true)),
            }),
    {
        match (self.online, self.in_store) {
            (None, None) => None,
            (a, b) => Some(
                (match a {
                    Some(x) => x,
                    None => false,
                }) || (match b {
                    Some(x) => x,
                    None => false,
                }),
            ),
        }
    }

    /// One word for a listing: online stock first, then the shelf, and
    /// `sold out` only when something says no and nothing says yes.
    pub fn summary(&self) -> (r: &'static str)
        ensures
            r@ == (match (self.online, self.in_store) {
                (Some(true), _) => "in stock"@,
                (_, Some(true)) => "in store"@,
                (None, None) => "-"@,
                _ => "sold out"@,
            }),
    {
        match (self.online, self.in_store) {
            (Some(true), _) => "in stock",
            (_, Some(true)) => "in store",
            (None, None) => "-",
            _ => "sold out",
        }
    }
}

/// One axis a product varies on, such as colour or size.
pub struct VariationAxis {
    pub id: String,
    pub name: String,
    pub selected: Option<String>,
    pub values: Vec<VariationValue>,
}

pub struct VariationValue {
    pub id: String,
    pub label: String,
    pub selected: bool,
    pub selectable: bool,
    pub orderable: bool,
    pub url: Option<String>,
}

/// A way a product can reach the shopper.
pub struct ShippingOption {
    pub id: String,
    pub name: String,
    pub estimate: Option<String>,
    pub pickup: bool,
}

/// A node of the category tree.
pub struct Category {
    pub id: String,
    pub name: String,
    pub path: Option<String>,
    pub children: Vec<Category>,
}

/// How many categories a tree holds, its root included.
pub open spec fn tree_size(c: Category) -> nat
    decreases c, 1nat,
{
    1 + forest_size(c.children@)
}

pub open spec fn forest_size(cs: Seq<Category>) -> nat
    decreases cs, 0nat,
{
    if cs.len() == 0 {
        0
    } else {
        forest_size(cs.drop_last()) + tree_size(cs.last())
    }
}

/// The first category, depth first, whose id or name is `needle` in any
/// ASCII case.
pub open spec fn find_in(c: Category, needle: Seq<char>) -> Option<Category>
    decreases c, 1nat,
{
    if text::eq_ignore_case(c.id@, needle) || text::eq_ignore_case(c.name@, needle) {
        Some(c)
    } else {
        find_among(c.children@, needle)
    }
}

pub open spec fn find_among(cs: Seq<Category>, needle: Seq<char>) -> Option<Category>
    decreases cs, 0nat,
{
    if cs.len() == 0 {
        None
    } else {
        match find_in(cs[0], needle) {
            Some(c) => Some(c),
            None => find_among(cs.drop_first(), needle),
        }
    }
}

impl Category {
    /// How many categories this tree holds, itself included.
    pub fn count(&self) -> (r: usize)
        requires
            tree_size(*self) <= usize::MAX,
        ensures
            r == tree_size(*self),
        decreases *self,
    {
        let mut total: usize = 1;
        let n = self.children.len();
        let mut i: usize = 0;
        assert(self.children@.take(0) =~= Seq::<Category>::empty());
        while i < n
            invariant
                n == self.children@.len(),
                i <= n,
                tree_size(*self) <= usize::MAX,
                total == 1 + forest_size(self.children@.take(i as int)),
            decreases n - i,
        {
            proof {
                assert(self.children@.take(i + 1).drop_last() =~= self.children@.take(i as int));
                lemma_forest_prefix(self.children@, i + 1);
            }
            let c = self.children[i].count();
            total = total + c;
            i += 1;
        }
        assert(self.children@.take(n as int) =~= self.children@);
        total
    }

    /// The first category, depth first, known by `needle` as its id or its
    /// name, in any ASCII case.
    pub fn find(&self, needle: &str) -> (r: Option<&Category>)
        ensures
            match r {
                Some(c) => find_in(*self, needle@) == Some(*c),
                None => find_in(*self, needle@) is None,
            },
        decreases *self,
    {
        if eq_ignore_case_str(self.id.as_str(), needle) || eq_ignore_case_str(self.name.as_str(), needle) {
            return Some(self);
        }
        let n = self.children.len();
        let mut i: usize = 0;
        assert(self.children@.skip(0) =~= self.children@);
        while i < n
            invariant
                n == self.children@.len(),
                i <= n,
                find_in(*self, needle@) == find_among(self.children@, needle@),
                find_among(self.children@, needle@) == find_among(self.children@.skip(i as int), needle@),
            decreases n - i,
        {
            assert(self.children@.skip(i as int)[0] == self.children@[i as int]);
            assert(self.children@.skip(i as int).drop_first() =~= self.children@.skip(i + 1));
            match self.children[i].find(needle) {
                Some(c) => {
                    return Some(c);
                },
                None => {},
            }
            i += 1;
        }
        None
    }
}

/// The sizes of a prefix of a forest are bounded by the whole.
proof fn lemma_forest_prefix(cs: Seq<Category>, k: int)
    requires
        0 <= k <= cs.len(),
    ensures
        forest_size(cs.take(k)) <= forest_size(cs),
    decreases cs.len() - k,
{
    if k < cs.len() {
        lemma_forest_prefix(cs, k + 1);
        assert(cs.take(k + 1).drop_last() =~= cs.take(k));
    } else {
        assert(cs.take(k) =~= cs);
    }
}

/// Which island stock is quoted for.
#[derive(Copy, Clone, Debug, PartialEq, Eq, Structural)]
pub enum Island {
    North,
    South,
}

/// Text with spaces, hyphens and underscores taken out.
pub open spec fn squeezed(s: Seq<char>) -> Seq<char>
    decreases s.len(),
{
    if s.len() == 0 {
        s
    } else {
        let rest = squeezed(s.drop_last());
        let c = s.last();
        if c == ' ' || c == '-' || c == '_' {
            rest
        } else {
            rest.push(c)
        }
    }
}

/// The island a name, once lower-cased and squeezed, stands for.
pub open spec fn island_named(t: Seq<char>) -> Option<Island> {
    if t == "north"@ || t == "northisland"@ || t == "n"@ || t == "ni"@ {
        Some(Island::North)
    } else if t == "south"@ || t == "southisland"@ || t == "s"@ || t == "si"@ {
        Some(Island::South)
    } else {
        None
    }
}

impl Island {
    /// The refinement value the storefront uses.
    pub fn value(self) -> (r: &'static str)
        ensures
            r@ == (match self {
                Island::North => "northIsland"@,
                Island::South => "southIsland"@,
            }),
    {
        match self {
            Island::North => "northIsland",
            Island::South => "southIsland",
        }
    }

    /// However it is typed: `North Island`, `north-island`, `ni`, `N`.
    pub fn parse(text: &str) -> (r: Option<Island>)
        ensures
            r == island_named(squeezed(text::unicode_lower(text::trim(text@)))),
    {
        let t = trim_str(text);
        let lower = to_lowercase(t.as_str());
        let v = chars_of(lower.as_str());
        let mut out: Vec<char> = Vec::new();
        let n = v.len();
        let mut i: usize = 0;
        while i < n
            invariant
                n == v@.len(),
                i <= n,
                out@ == squeezed(v@.take(i as int)),
            decreases n - i,
        {
            let c = v[i];
            assert(v@.take(i + 1).drop_last() =~= v@.take(i as int));
            if !(c == ' ' || c == '-' || c == '_') {
                out.push(c);
            }
            i += 1;
        }
        assert(v@.take(n as int) =~= v@);
        let s = string_of(&out);
        let north: [&str; 4] = ["north", "northisland", "n", "ni"];
        let south: [&str; 4] = ["south", "southisland", "s", "si"];
        if eq_any(s.as_str(), &north) {
            proof {
                let k = choose|k: int| 0 <= k < north@.len() && s@ == (#[trigger] north@[k])@;
            }
            Some(Island::North)
        } else if eq_any(s.as_str(), &south) {
            assert(s@ != north@[0]@ && s@ != north@[1]@ && s@ != north@[2]@ && s@ != north@[3]@);
            Some(Island::South)
        } else {
            assert(s@ != north@[0]@ && s@ != north@[1]@ && s@ != north@[2]@ && s@ != north@[3]@);
            assert(s@ != south@[0]@ && s@ != south@[1]@ && s@ != south@[2]@ && s@ != south@[3]@);
            None
        }
    }

    /// The short name, as `Display` writes it.
    pub fn to_string(&self) -> (r: String)
        ensures
            r@ == (match self {
                Island::North => "north"@,
                Island::South => "south"@,
            }),
    {
        match self {
            Island::North => "north".to_owned(),
            Island::South => "south".to_owned(),
        }
    }
}


/// One store's stock, out of the stock modal.
pub struct StoreStock {
    /// The id off the store's toggle: what follows the last `-` of its
    /// `data-target`.
    pub store_id: Option<String>,
    pub store_name: String,
    /// The visible text, kept so an unfamiliar state still prints something
    /// true.
    pub label: Option<String>,
    /// Whether the availability class says `IN_STOCK`.
    pub in_stock: Option<bool>,
}


/// The digits and points of a displayed price, in order: what is left to
/// read a number from once the currency sign and separators are gone.
pub open spec fn price_chars(s: Seq<char>) -> Seq<char>
    decreases s.len(),
{
    if s.len() == 0 {
        seq![]
    } else if text::is_ascii_digit(s.last()) || s.last() == '.' {
        price_chars(s.drop_last()).push(s.last())
    } else {
        price_chars(s.drop_last())
    }
}

/// `$1,299.00` to `1299.00`, so a scraped tile can still be sorted by price.
pub fn price_digits(text: &str) -> (r: String)
    ensures
        r@ == price_chars(text@),
{
    let v = chars_of(text);
    let mut out: Vec<char> = Vec::new();
    let mut k: usize = 0;
    while k < v.len()
        invariant
            k <= v@.len(),
            out@ == price_chars(v@.take(k as int)),
        decreases v@.len() - k,
    {
        assert(v@.take(k + 1).drop_last() =~= v@.take(k as int));
        assert(v@.take(k + 1).last() == v@[k as int]);
        if ('0' <= v[k] && v[k] <= '9') || v[k] == '.' {
            out.push(v[k]);
        }
        k += 1;
    }
    assert(v@.take(v@.len() as int) =~= v@);
    string_of(&out)
}


/// An amount as the site quotes it: the number, for sorting and arithmetic,
/// and the text the site chose to display, which is the honest thing to
/// print. A listing tile carries only the text.
pub struct Price {
    pub value: Option<Double>,
    pub formatted: Option<String>,
    pub currency: Option<String>,
}

impl Default for Price {
    fn default() -> (p: Price)
        ensures
            p.value is None && p.formatted is None && p.currency is None,
    {
        Price { value: None, formatted: None, currency: None }
    }
}

impl Price {
    /// Neither a number nor a text.
    pub fn is_empty(&self) -> (r: bool)
        ensures
            r == (self.value is None && self.formatted is None),
    {
        self.value.is_none() && self.formatted.is_none()
    }

    /// Nothing at all.
    pub fn none() -> (p: Price)
        ensures
            p.value is None && p.formatted is None && p.currency is None,
    {
        Price { value: None, formatted: None, currency: None }
    }
}

/// A product as a listing or a detail page describes it.
pub struct Product {
    /// The id that addresses this product: what a URL and the cart take.
    pub id: String,
    /// The variation master, when this is one of its members.
    pub master_id: Option<String>,
    pub name: String,
    pub brand: Option<String>,
    pub ean: Option<String>,
    pub price: Price,
    /// The crossed-out price, when the item is reduced.
    pub was_price: Option<Price>,
    pub rating: Option<Double>,
    /// The primary category path, slash-separated.
    pub category: Option<String>,
    pub url: Option<String>,
    pub image: Option<String>,
    pub availability: Availability,
    /// Sold by a third party through The Warehouse.
    pub marketplace: bool,
}

/// A product about which nothing is known.
pub open spec fn blank_product(p: Product) -> bool {
    &&& p.id@.len() == 0
    &&& p.master_id is None
    &&& p.name@.len() == 0
    &&& p.brand is None
    &&& p.ean is None
    &&& p.price.value is None && p.price.formatted is None && p.price.currency is None
    &&& p.was_price is None
    &&& p.rating is None
    &&& p.category is None
    &&& p.url is None
    &&& p.image is None
    &&& p.availability.status is None && p.availability.online is None
    &&& p.availability.in_store is None && p.availability.label is None
    &&& !p.marketplace
}

impl Default for Product {
    fn default() -> (p: Product)
        ensures
            blank_product(p),
    {
        Product {
            id: String::new(),
            master_id: None,
            name: String::new(),
            brand: None,
            ean: None,
            price: Price::default(),
            was_price: None,
            rating: None,
            category: None,
            url: None,
            image: None,
            availability: Availability::default(),
            marketplace: false,
        }
    }
}

impl Product {
    /// Whether this is one member of a variation family, so the price and
    /// stock shown are for one colour rather than all of them.
    pub fn is_variant(&self) -> (r: bool)
        ensures
            r == (self.master_id matches Some(m) && m@ != self.id@),
    {
        match &self.master_id {
            Some(m) => !eq_str(m.as_str(), self.id.as_str()),
            None => false,
        }
    }
}

/// A product plus what only a detail page knows.
pub struct ProductDetail {
    pub product: Product,
    pub description: Option<String>,
    pub sku: Option<String>,
    pub max_quantity: Option<u32>,
    pub axes: Vec<VariationAxis>,
    pub shipping: Vec<ShippingOption>,
}

/// A shop.
pub struct Store {
    pub id: String,
    pub name: String,
    pub address: Option<String>,
    pub city: Option<String>,
    pub postcode: Option<String>,
    /// The ISO region code, `NZ-AUK` and the like.
    pub region: Option<String>,
    pub latitude: Option<Double>,
    pub longitude: Option<Double>,
    pub phone: Option<String>,
    pub email: Option<String>,
    pub click_and_collect: Option<bool>,
    /// Today's hours as the site phrases them.
    pub hours_today: Option<String>,
    pub open_now: Option<bool>,
}

/// The basket.
pub struct Cart {
    pub id: Option<String>,
    pub lines: Vec<CartLine>,
    pub subtotal: Option<String>,
    /// Total units, which is not the number of lines.
    pub quantity: u32,
}

pub struct CartLine {
    /// The line's own id.
    pub uuid: String,
    /// The other line id, which is what removal takes.
    pub pli_uuid: Option<String>,
    pub id: String,
    pub name: String,
    pub brand: Option<String>,
    pub quantity: u32,
    /// What one of them costs.
    pub price: Price,
    /// What the line costs, kept apart from the unit price.
    pub total: Price,
}

} // verus!
