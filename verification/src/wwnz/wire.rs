//! The JSON Woolworths sends, as values, and the mapping of the parts that
//! need one onto the client's own types. The JSON itself is read by the
//! caller into these.
use vstd::prelude::*;

use crate::measure::Double;
use crate::text;
use crate::text::{cat, cat3, chars_of, eq_ignore_case_str, index_in, string_range, trim_str};
use crate::wwnz::domain::{Cart, CartLine, Category, Fee, Order, OrderDetail, OrderLineItem, OrderPage, Product, Store};

verus! {

/// The department names a product sits under, top level first.
pub struct Hierarchy {
    pub lvl1: Vec<String>,
}

/// One category of the tree.
pub struct WireCategory {
    pub key: Option<String>,
    pub name: Option<String>,
    pub display_slug: Option<String>,
    pub slug: Option<String>,
    pub level: Option<u32>,
    pub children: Vec<WireCategory>,
}

/// `c` is what `w` maps to: its key, name (empty when none), display slug
/// or else slug (empty when neither), level (zero when none), and its
/// children mapped in turn, those without a key dropped.
pub open spec fn mapped(w: WireCategory, c: Category) -> bool
    decreases w, 1nat,
{
    &&& w.key == Some(c.key)
    &&& c.name@ == (match w.name {
        Some(n) => n@,
        None => Seq::<char>::empty(),
    })
    &&& c.slug@ == (match w.display_slug {
        Some(s) => s@,
        None => match w.slug {
            Some(s) => s@,
            None => Seq::<char>::empty(),
        },
    })
    &&& c.level == (match w.level {
        Some(l) => l,
        None => 0u32,
    })
    &&& mapped_list(w.children@, c.children@)
}

pub open spec fn mapped_list(ws: Seq<WireCategory>, cs: Seq<Category>) -> bool
    decreases ws, 0nat,
{
    if ws.len() == 0 {
        cs.len() == 0
    } else if ws.last().key is None {
        mapped_list(ws.drop_last(), cs)
    } else {
        cs.len() > 0 && mapped(ws.last(), cs.last()) && mapped_list(ws.drop_last(), cs.drop_last())
    }
}

fn map_category(w: &WireCategory) -> (r: Option<Category>)
    ensures
        match r {
            Some(c) => mapped(*w, c),
            None => w.key is None,
        },
    decreases *w,
{
    let key = match &w.key {
        Some(k) => k.clone(),
        None => return None,
    };
    let name = match &w.name {
        Some(n) => n.clone(),
        None => String::new(),
    };
    let slug = match &w.display_slug {
        Some(s) => s.clone(),
        None => match &w.slug {
            Some(s) => s.clone(),
            None => String::new(),
        },
    };
    let level = match w.level {
        Some(l) => l,
        None => 0,
    };
    let all = &w.children;
    let mut children: Vec<Category> = Vec::new();
    let n = all.len();
    let mut i: usize = 0;
    assert(all@.take(0).len() == 0);
    while i < n
        invariant
            n == all@.len(),
            i <= n,
            *all == w.children,
            mapped_list(all@.take(i as int), children@),
        decreases n - i,
    {
        proof {
            assert(decreases_to!(*w => w.children@[i as int]));
        }
        assert(all@.take(i + 1).drop_last() =~= all@.take(i as int));
        assert(all@.take(i + 1).last() == all@[i as int]);
        let ghost before = children@;
        match map_category(&all[i]) {
            Some(c) => {
                children.push(c);
                assert(children@.drop_last() =~= before);
            },
            None => {},
        }
        i += 1;
    }
    assert(all@.take(n as int) =~= all@);
    Some(Category { key, name, slug, level, children })
}

impl WireCategory {
    /// The category this describes, or none without a key.
    pub fn into_category(self) -> (r: Option<Category>)
        ensures
            match r {
                Some(c) => mapped(self, c),
                None => self.key is None,
            },
    {
        map_category(&self)
    }
}

pub struct WireAddress {
    pub lines: Option<WireLines>,
    pub locality: Option<WireLocality>,
}

pub struct WireLines {
    pub line1: Option<String>,
}

pub struct WireLocality {
    pub suburb: Option<String>,
    pub city: Option<String>,
}

pub struct WireCheckout {
    pub amount_to_pay_as_cents: Option<i64>,
}

pub struct WirePricing {
    pub order_subtotal: Option<WireEvaluated>,
    pub product_subtotal: Option<WireEvaluated>,
}

pub struct WireEvaluated {
    pub after_discount_as_cents: Option<i64>,
    pub discount_amount_as_cents: Option<i64>,
}

pub struct WireValidation {
    pub failed_validations: Vec<WireFailure>,
}

pub struct WireFailure {
    pub message: Option<String>,
    pub title: Option<String>,
}

pub struct WireCartProduct {
    pub brand: Option<String>,
    pub variants: Vec<WireCartVariant>,
}

pub struct WireCartVariant {
    pub name: Option<String>,
    pub key: Option<String>,
}

pub struct WireShoppingMode {
    pub pickup_location: Option<WireNamed>,
}

pub struct WireNamed {
    pub id: Option<String>,
    pub name: Option<String>,
}

pub struct WireFulfilment {
    pub fulfilment_proposition: Option<WireProposition>,
}

pub struct WireProposition {
    pub store_id: Option<String>,
    pub method: Option<String>,
    pub store: Option<WireStoreRef>,
}

pub struct WireStoreRef {
    pub store_id: Option<String>,
    pub name: Option<String>,
}

// ------------------------------------------------------------------ search

/// One row of a result page: a product, a sponsored product, or anything
/// else the union carries -- ad slots, editorial tiles -- which is skipped.
pub enum WireResult {
    ProductSummary(WireProduct),
    SponsoredProduct(WireProduct),
    Other,
}

pub struct WireProduct {
    pub sku: Option<String>,
    pub product_name: Option<String>,
    pub brand: Option<String>,
    pub slug: Option<String>,
    pub image_url: Option<String>,
    pub store_key: Option<String>,
    pub variants: Vec<WireVariant>,
    pub category_hierarchy_names: Option<Hierarchy>,
}

pub struct WireVariant {
    pub variant_key: Option<String>,
    pub unit_of_measure: Option<String>,
    pub availability_status: Option<String>,
    pub variant_price: Option<WirePrice>,
}

/// A variant's prices. Search quotes dollars as doubles; they are rounded to
/// whole cents at the edge, so these are cents.
pub struct WirePrice {
    pub selling_price: Option<i64>,
    pub was_price: Option<i64>,
    pub cup_price: Option<i64>,
    pub cup_unit: Option<String>,
    pub is_special: Option<bool>,
    pub is_club_price: Option<bool>,
}

/// A text that is there and not blank.
pub open spec fn nonblank(t: Option<String>) -> Option<Seq<char>> {
    match t {
        Some(v) => if text::trim(v@).len() > 0 {
            Some(v@)
        } else {
            None
        },
        None => None,
    }
}

fn keep_nonblank(t: Option<String>) -> (r: Option<String>)
    ensures
        r.deep_view() == nonblank(t),
{
    match t {
        Some(v) => if trim_str(v.as_str()).as_str().is_empty() {
            None
        } else {
            Some(v)
        },
        None => None,
    }
}

/// Whether a variant's availability says it can be had: anything but
/// unavailable or out of stock, by any case.
pub open spec fn stocked(a: Seq<char>) -> bool {
    !text::eq_ignore_case(a, "UNAVAILABLE"@) && !text::eq_ignore_case(a, "OUT_OF_STOCK"@)
}

pub open spec fn text_or_empty(t: Option<String>) -> Seq<char> {
    match t {
        Some(v) => v@,
        None => Seq::empty(),
    }
}

/// What a search row comes to as a product, priced from its first variant;
/// nothing for a row without a SKU.
pub open spec fn product_is(w: WireProduct, origin: Seq<char>, sponsored: bool, r: Option<Product>) -> bool {
    match w.sku {
        None => r is None,
        Some(sku) => r matches Some(p) && {
            let v = if w.variants@.len() > 0 { Some(w.variants@[0]) } else { None };
            let price = match v {
                Some(v) => v.variant_price,
                None => None,
            };
            &&& p.sku == sku
            &&& p.url@ == origin + "/shop/product-details/"@ + sku@ + "/"@ + text_or_empty(w.slug)
            &&& p.variant_key@ == (match v {
                Some(WireVariant { variant_key: Some(k), .. }) => k@,
                _ => sku@ + "-EA"@,
            })
            &&& p.name@ == text_or_empty(w.product_name)
            &&& p.brand.deep_view() == nonblank(w.brand)
            &&& p.unit_of_measure == (match v {
                Some(v) => v.unit_of_measure,
                None => None,
            })
            &&& p.price_cents == (match price {
                Some(x) => x.selling_price,
                None => None,
            })
            &&& p.was_price_cents == (match price {
                Some(x) => x.was_price,
                None => None,
            })
            &&& p.unit_price_cents == (match price {
                Some(x) => x.cup_price,
                None => None,
            })
            &&& p.unit_measure.deep_view() == (match price {
                Some(x) => nonblank(x.cup_unit),
                None => None,
            })
            &&& p.is_special == (price matches Some(x) && x.is_special == Some(true))
            &&& p.is_club_price == (price matches Some(x) && x.is_club_price == Some(true))
            &&& p.availability == (match v {
                Some(v) => v.availability_status,
                None => None,
            })
            &&& p.in_stock == (match p.availability {
                Some(a) => Some(stocked(a@)),
                None => None,
            })
            &&& p.department == (match w.category_hierarchy_names {
                Some(h) => if h.lvl1@.len() > 0 { Some(h.lvl1@[0]) } else { None },
                None => None,
            })
            &&& p.store_key == w.store_key
            &&& p.sponsored == sponsored
            &&& p.image == w.image_url
        },
    }
}

/// A search row's prices: the product sells at its first variant's selling
/// price and was its first variant's was-price, each absent where the row
/// has no variant or the variant no price; the was-price never stands in for
/// the price, nor the other way round.
pub proof fn lemma_product_prices(w: WireProduct, origin: Seq<char>, sponsored: bool, r: Option<Product>)
    requires
        product_is(w, origin, sponsored, r),
    ensures
        forall|p: Product, x: WirePrice|
            r == Some(p) && w.variants@.len() > 0 && w.variants@[0].variant_price == Some(x) ==> (
            p.price_cents == x.selling_price && p.was_price_cents == x.was_price
            && p.unit_price_cents == x.cup_price),
        forall|p: Product|
            r == Some(p) && (w.variants@.len() == 0 || w.variants@[0].variant_price is None) ==> (
            p.price_cents is None && p.was_price_cents is None && p.unit_price_cents is None),
        r is Some <==> w.sku is Some,
{
}

impl WireProduct {
    /// The product as one row, priced from its first variant: nearly
    /// everything has exactly one, and where there are more the site leads
    /// with the first.
    pub fn into_product(self, origin: &str, sponsored: bool) -> (r: Option<Product>)
        ensures
            product_is(self, origin@, sponsored, r),
            r matches Some(p) ==> p.price_cents == (if self.variants@.len() > 0 {
                match self.variants@[0].variant_price {
                    Some(x) => x.selling_price,
                    None => None,
                }
            } else {
                None
            }),
            r matches Some(p) ==> p.was_price_cents == (if self.variants@.len() > 0 {
                match self.variants@[0].variant_price {
                    Some(x) => x.was_price,
                    None => None,
                }
            } else {
                None
            }),
    {
        let ghost w = self;
        let sku = match self.sku {
            Some(s) => s,
            None => return None,
        };
        let mut variants = self.variants;
        let variant = if variants.len() > 0 { Some(variants.remove(0)) } else { None };
        let slug = match self.slug {
            Some(s) => s,
            None => String::new(),
        };
        let mut url = cat3(origin, "/shop/product-details/", sku.as_str());
        url = cat3(url.as_str(), "/", slug.as_str());
        let (variant_key, unit_of_measure, availability, price) = match variant {
            Some(v) => (v.variant_key, v.unit_of_measure, v.availability_status, v.variant_price),
            None => (None, None, None, None),
        };
        let variant_key = match variant_key {
            Some(k) => k,
            None => cat(sku.as_str(), "-EA"),
        };
        let (price_cents, was_price_cents, unit_price_cents, unit_measure, is_special, is_club_price) = match price {
            Some(x) => (
                x.selling_price,
                x.was_price,
                x.cup_price,
                keep_nonblank(x.cup_unit),
                x.is_special == Some(true),
                x.is_club_price == Some(true),
            ),
            None => (None, None, None, None, false, false),
        };
        let in_stock = match &availability {
            Some(a) => Some(!eq_ignore_case_str(a.as_str(), "UNAVAILABLE") && !eq_ignore_case_str(a.as_str(), "OUT_OF_STOCK")),
            None => None,
        };
        let department = match self.category_hierarchy_names {
            Some(h) => {
                let mut names = h.lvl1;
                if names.len() > 0 {
                    Some(names.remove(0))
                } else {
                    None
                }
            },
            None => None,
        };
        Some(Product {
            url,
            variant_key,
            name: match self.product_name {
                Some(n) => n,
                None => String::new(),
            },
            brand: keep_nonblank(self.brand),
            unit_of_measure,
            price_cents,
            was_price_cents,
            unit_price_cents,
            unit_measure,
            is_special,
            is_club_price,
            in_stock,
            availability,
            department,
            store_key: self.store_key,
            sponsored,
            image: self.image_url,
            sku,
        })
    }
}

// ------------------------------------------------------------------ stores

pub struct WireLocation {
    pub id: Option<String>,
    pub store_id: Option<String>,
    pub name: Option<String>,
    pub distance: Option<Double>,
    pub address: Option<WireAddress>,
}

impl WireLocation {
    /// The store, by its store id or else its id; none without either.
    pub fn into_store(self) -> (r: Option<Store>)
        ensures
            match (self.store_id, self.id) {
                (None, None) => r is None,
                _ => r matches Some(s) && s.id == (match self.store_id {
                    Some(i) => i,
                    None => self.id->0,
                }) && s.name@ == (match self.name {
                    Some(n) => n@,
                    None => "(unnamed)"@,
                }) && s.address.deep_view() == (match self.address {
                    Some(WireAddress { lines: Some(l), .. }) => nonblank(l.line1),
                    _ => None,
                }) && s.suburb.deep_view() == (match self.address {
                    Some(WireAddress { locality: Some(l), .. }) => nonblank(l.suburb),
                    _ => None,
                }) && s.city.deep_view() == (match self.address {
                    Some(WireAddress { locality: Some(l), .. }) => nonblank(l.city),
                    _ => None,
                }) && s.distance_km == self.distance,
            },
    {
        let id = match self.store_id {
            Some(i) => i,
            None => match self.id {
                Some(i) => i,
                None => return None,
            },
        };
        let (line1, suburb, city) = match self.address {
            Some(a) => (
                match a.lines {
                    Some(l) => l.line1,
                    None => None,
                },
                match &a.locality {
                    Some(l) => l.suburb.clone(),
                    None => None,
                },
                match a.locality {
                    Some(l) => l.city,
                    None => None,
                },
            ),
            None => (None, None, None),
        };
        Some(Store {
            id,
            name: match self.name {
                Some(n) => n,
                None => "(unnamed)".to_owned(),
            },
            address: keep_nonblank(line1),
            suburb: keep_nonblank(suburb),
            city: keep_nonblank(city),
            distance_km: self.distance,
        })
    }
}

// ------------------------------------------------------------------ the cart

pub struct WireCart {
    pub key: Option<String>,
    /// The quantities, added: fractional with a weighed line in the cart.
    pub total_item_quantity: Option<Double>,
    pub total_unique_product_sku: Option<u32>,
    pub line_items: Vec<WireLineItem>,
    pub checkout: Option<WireCheckout>,
    pub pricing: Option<WirePricing>,
    pub validation_result: Option<WireValidation>,
    pub shopping_mode: Option<WireShoppingMode>,
    pub fulfilment: Option<WireFulfilment>,
}

pub struct WireLineItem {
    pub sku: Option<String>,
    pub product_variant_sku: Option<String>,
    pub quantity: Option<Double>,
    pub can_substitute: Option<bool>,
    pub line_total: Option<WireEvaluated>,
    pub unit_price: Option<WireEvaluated>,
    pub product: Option<WireCartProduct>,
}

/// A variant key's stock code: what precedes its first `-`.
pub open spec fn stock_code(key: Seq<char>) -> Seq<char> {
    match text::index_of(key, '-') {
        Some(i) => key.take(i),
        None => key,
    }
}

fn stock_code_of(key: &str) -> (r: String)
    ensures
        r@ == stock_code(key@),
{
    let v = chars_of(key);
    match index_in(&v, '-', 0, v.len()) {
        Some(i) => {
            assert(v@.subrange(0, v@.len() as int) =~= v@);
            string_range(&v, 0, i)
        },
        None => {
            assert(v@.subrange(0, v@.len() as int) =~= v@);
            key.to_owned()
        },
    }
}

/// A discount worth reporting: there and not zero.
pub open spec fn nonzero(c: Option<i64>) -> Option<i64> {
    match c {
        Some(0) => None,
        other => other,
    }
}

pub type CartLineView = (
    Seq<char>,
    Seq<char>,
    Seq<char>,
    Option<Seq<char>>,
    Double,
    Option<i64>,
    Option<i64>,
    Option<i64>,
    bool,
);

pub open spec fn line_view(l: CartLine) -> CartLineView {
    (
        l.sku@,
        l.variant_key@,
        l.name@,
        l.brand.deep_view(),
        l.quantity,
        l.unit_price_cents,
        l.total_cents,
        l.discount_cents,
        l.can_substitute,
    )
}

/// What a cart line comes to: keyed by its variant SKU or its first
/// variant's key, its SKU its own or the key's stock code; nothing for a
/// line with no key.
pub open spec fn line_of(w: WireLineItem) -> Option<CartLineView> {
    let variant = match w.product {
        Some(p) => if p.variants@.len() > 0 { Some(p.variants@[0]) } else { None },
        None => None,
    };
    let key = match w.product_variant_sku {
        Some(k) => Some(k@),
        None => match variant {
            Some(v) => v.key.deep_view(),
            None => None,
        },
    };
    match key {
        None => None,
        Some(key) => Some(
            (
                match w.sku {
                    Some(s) => s@,
                    None => stock_code(key),
                },
                key,
                match variant {
                    Some(v) => text_or_empty(v.name),
                    None => Seq::empty(),
                },
                match w.product {
                    Some(p) => nonblank(p.brand),
                    None => None,
                },
                match w.quantity {
                    Some(q) => q,
                    None => Double { bits: 0 },
                },
                match w.unit_price {
                    Some(p) => p.after_discount_as_cents,
                    None => None,
                },
                match w.line_total {
                    Some(t) => t.after_discount_as_cents,
                    None => None,
                },
                match w.line_total {
                    Some(t) => nonzero(t.discount_amount_as_cents),
                    None => None,
                },
                w.can_substitute == Some(true),
            ),
        ),
    }
}

/// A cart line's money, as the site gave it: the unit price is the wire
/// line's discounted unit price and the total its discounted line total,
/// never one for the other; a discount of zero is no discount.
pub proof fn lemma_line_amounts(w: WireLineItem)
    ensures
        line_of(w) matches Some(v) ==> v.5 == (match w.unit_price {
            Some(p) => p.after_discount_as_cents,
            None => None,
        }),
        line_of(w) matches Some(v) ==> v.6 == (match w.line_total {
            Some(t) => t.after_discount_as_cents,
            None => None,
        }),
        line_of(w) matches Some(v) ==> (v.7 matches Some(d) ==> d != 0),
        line_of(w) is Some <==> (w.product_variant_sku is Some || (w.product matches Some(p)
            && p.variants@.len() > 0 && p.variants@[0].key is Some)),
{
}

/// The lines of a cart, those without a key dropped.
pub open spec fn lines_of(ws: Seq<WireLineItem>) -> Seq<CartLineView>
    decreases ws.len(),
{
    if ws.len() == 0 {
        seq![]
    } else {
        let before = lines_of(ws.drop_last());
        match line_of(ws.last()) {
            Some(l) => before.push(l),
            None => before,
        }
    }
}

impl WireLineItem {
    pub fn into_line(&self) -> (r: Option<CartLine>)
        ensures
            match line_of(*self) {
                Some(v) => r matches Some(l) && line_view(l) == v,
                None => r is None,
            },
            r matches Some(l) ==> l.unit_price_cents == (match self.unit_price {
                Some(p) => p.after_discount_as_cents,
                None => None,
            }),
            r matches Some(l) ==> l.total_cents == (match self.line_total {
                Some(t) => t.after_discount_as_cents,
                None => None,
            }),
    {
        let (variant_key_alt, variant_name, brand) = match &self.product {
            Some(p) => {
                let (k, n) = if p.variants.len() > 0 {
                    (p.variants[0].key.clone(), p.variants[0].name.clone())
                } else {
                    (None, None)
                };
                (k, n, keep_nonblank(p.brand.clone()))
            },
            None => (None, None, None),
        };
        let variant_key = match &self.product_variant_sku {
            Some(k) => k.clone(),
            None => match variant_key_alt {
                Some(k) => k,
                None => return None,
            },
        };
        let sku = match &self.sku {
            Some(s) => s.clone(),
            None => stock_code_of(variant_key.as_str()),
        };
        let (total_cents, discount_cents) = match &self.line_total {
            Some(t) => (t.after_discount_as_cents, match t.discount_amount_as_cents {
                Some(0) => None,
                other => other,
            }),
            None => (None, None),
        };
        Some(CartLine {
            sku,
            name: match variant_name {
                Some(n) => n,
                None => String::new(),
            },
            brand,
            quantity: match self.quantity {
                Some(q) => q,
                None => Double { bits: 0 },
            },
            unit_price_cents: match &self.unit_price {
                Some(p) => p.after_discount_as_cents,
                None => None,
            },
            total_cents,
            discount_cents,
            can_substitute: self.can_substitute == Some(true),
            variant_key,
        })
    }
}

/// The messages of the validations a cart failed, each by its message or
/// else its title.
pub open spec fn problems_of(fs: Seq<WireFailure>) -> Seq<Seq<char>>
    decreases fs.len(),
{
    if fs.len() == 0 {
        seq![]
    } else {
        let before = problems_of(fs.drop_last());
        match fs.last().message {
            Some(m) => before.push(m@),
            None => match fs.last().title {
                Some(t) => before.push(t@),
                None => before,
            },
        }
    }
}

fn problems_from(fs: &Vec<WireFailure>) -> (r: Vec<String>)
    ensures
        r@.map_values(|p: String| p@) == problems_of(fs@),
{
    let mut out: Vec<String> = Vec::new();
    let mut i: usize = 0;
    while i < fs.len()
        invariant
            i <= fs@.len(),
            out@.map_values(|p: String| p@) == problems_of(fs@.take(i as int)),
        decreases fs@.len() - i,
    {
        assert(fs@.take(i + 1).drop_last() =~= fs@.take(i as int));
        assert(fs@.take(i + 1).last() == fs@[i as int]);
        let said = match &fs[i].message {
            Some(m) => Some(m.clone()),
            None => fs[i].title.clone(),
        };
        match said {
            Some(m) => {
                let ghost before = out@.map_values(|p: String| p@);
                out.push(m);
                assert(out@.map_values(|p: String| p@) =~= before.push(m@));
            },
            None => {},
        }
        i += 1;
    }
    assert(fs@.take(fs@.len() as int) =~= fs@);
    out
}

pub open spec fn cart_is(w: WireCart, c: Cart) -> bool {
    let subtotal = match w.pricing {
        Some(p) => p.order_subtotal,
        None => None,
    };
    let products = match w.pricing {
        Some(p) => p.product_subtotal,
        None => None,
    };
    let proposition = match w.fulfilment {
        Some(f) => f.fulfilment_proposition,
        None => None,
    };
    let pickup = match w.shopping_mode {
        Some(m) => m.pickup_location,
        None => None,
    };
    let store = match proposition {
        Some(p) => p.store,
        None => None,
    };
    &&& c.id == w.key
    &&& c.lines@.map_values(|l: CartLine| line_view(l)) == lines_of(w.line_items@)
    &&& c.total_items == w.total_item_quantity
    &&& c.unique_products == (match w.total_unique_product_sku {
        Some(n) => n,
        None => c.lines@.len() as u32,
    })
    &&& c.subtotal_cents == (match subtotal {
        Some(s) => s.after_discount_as_cents,
        None => None,
    })
    &&& c.items_cents == (match products {
        Some(s) => s.after_discount_as_cents,
        None => None,
    })
    &&& c.to_pay_cents == (match w.checkout {
        Some(k) => k.amount_to_pay_as_cents,
        None => None,
    })
    &&& c.discount_cents == (match subtotal {
        Some(s) => nonzero(s.discount_amount_as_cents),
        None => None,
    })
    &&& c.store_name == (match store {
        Some(WireStoreRef { name: Some(n), .. }) => Some(n),
        _ => match pickup {
            Some(p) => p.name,
            None => None,
        },
    })
    &&& c.store_id == (match store {
        Some(WireStoreRef { store_id: Some(i), .. }) => Some(i),
        _ => match proposition {
            Some(WireProposition { store_id: Some(i), .. }) => Some(i),
            _ => match pickup {
                Some(p) => p.id,
                None => None,
            },
        },
    })
    &&& c.fulfilment_method == (match proposition {
        Some(p) => p.method,
        None => None,
    })
    &&& c.problems@.map_values(|p: String| p@) == (match w.validation_result {
        Some(v) => problems_of(v.failed_validations@),
        None => seq![],
    })
}

impl WireCart {
    /// The cart. The proposition names the store it will be picked from,
    /// which is the one that matters; the pickup location is the fallback
    /// for a cart with no slot chosen yet.
    pub fn into_cart(self) -> (c: Cart)
        ensures
            cart_is(self, c),
    {
        let (subtotal, discount, items_cents) = match &self.pricing {
            Some(p) => (
                match &p.order_subtotal {
                    Some(s) => s.after_discount_as_cents,
                    None => None,
                },
                match &p.order_subtotal {
                    Some(s) => match s.discount_amount_as_cents {
                        Some(0) => None,
                        other => other,
                    },
                    None => None,
                },
                match &p.product_subtotal {
                    Some(s) => s.after_discount_as_cents,
                    None => None,
                },
            ),
            None => (None, None, None),
        };
        let (prop_store_name, prop_store_id, prop_id, method) = match self.fulfilment {
            Some(WireFulfilment { fulfilment_proposition: Some(p) }) => match p.store {
                Some(s) => (s.name, s.store_id, p.store_id, p.method),
                None => (None, None, p.store_id, p.method),
            },
            _ => (None, None, None, None),
        };
        let (pickup_name, pickup_id) = match self.shopping_mode {
            Some(WireShoppingMode { pickup_location: Some(p) }) => (p.name, p.id),
            _ => (None, None),
        };
        let store_name = match prop_store_name {
            Some(n) => Some(n),
            None => pickup_name,
        };
        let store_id = match prop_store_id {
            Some(i) => Some(i),
            None => match prop_id {
                Some(i) => Some(i),
                None => pickup_id,
            },
        };
        let items = &self.line_items;
        let mut lines: Vec<CartLine> = Vec::new();
        let mut i: usize = 0;
        while i < items.len()
            invariant
                i <= items@.len(),
                lines@.map_values(|l: CartLine| line_view(l)) == lines_of(items@.take(i as int)),
            decreases items@.len() - i,
        {
            assert(items@.take(i + 1).drop_last() =~= items@.take(i as int));
            assert(items@.take(i + 1).last() == items@[i as int]);
            match items[i].into_line() {
                Some(l) => {
                    let ghost before = lines@.map_values(|l: CartLine| line_view(l));
                    let ghost lv = line_view(l);
                    lines.push(l);
                    assert(lines@.map_values(|l: CartLine| line_view(l)) =~= before.push(lv));
                },
                None => {},
            }
            i += 1;
        }
        assert(items@.take(items@.len() as int) =~= items@);
        let problems = match &self.validation_result {
            Some(v) => problems_from(&v.failed_validations),
            None => Vec::new(),
        };
        let unique_products = match self.total_unique_product_sku {
            Some(n) => n,
            None => #[verifier::truncate] (lines.len() as u32),
        };
        let c = Cart {
            id: self.key,
            total_items: self.total_item_quantity,
            unique_products,
            items_cents,
            subtotal_cents: subtotal,
            to_pay_cents: match self.checkout {
                Some(k) => k.amount_to_pay_as_cents,
                None => None,
            },
            discount_cents: discount,
            store_name,
            store_id,
            fulfilment_method: method,
            problems,
            lines,
        };
        assert(c.id == self.key);
        assert(c.lines@.map_values(|l: CartLine| line_view(l)) == lines_of(self.line_items@));
        assert(c.subtotal_cents == (match self.pricing { Some(p) => match p.order_subtotal { Some(s) => s.after_discount_as_cents, None => None }, None => None }));
        assert(c.store_name == (match (match (match self.fulfilment { Some(f) => f.fulfilment_proposition, None => None }) { Some(p) => p.store, None => None }) {
            Some(WireStoreRef { name: Some(n), .. }) => Some(n),
            _ => match (match self.shopping_mode { Some(m) => m.pickup_location, None => None }) {
                Some(p) => p.name,
                None => None,
            },
        }));
        assert(c.problems@.map_values(|p: String| p@) == (match self.validation_result {
            Some(v) => problems_of(v.failed_validations@),
            None => seq![],
        }));
        c
    }
}

/// The orders query's answer.
pub struct OrdersEnvelope {
    pub orders: Option<WireOrderPage>,
}

pub struct WireOrderPage {
    pub results: Vec<WireOrder>,
    pub total_count: Option<u32>,
    pub total_pages: Option<u32>,
}

pub struct WireOrder {
    pub order_number: Option<String>,
    pub created_date_time: Option<String>,
    pub order_status: Option<String>,
    pub fulfilment_status: Option<String>,
    pub is_amendable: Option<bool>,
    pub total: Option<WireOrderTotal>,
    pub fulfilments: Vec<WireOrderFulfilment>,
}

pub struct WireOrderTotal {
    pub after_discount_in_cents: Option<i64>,
}

pub struct WireOrderFulfilment {
    pub method: Option<String>,
    pub kind: Option<String>,
    pub start_time: Option<String>,
    pub end_time: Option<String>,
    pub fulfilment_location: Option<WireFulfilmentLocation>,
    pub address: Option<WireOrderAddress>,
}

pub struct WireFulfilmentLocation {
    pub name: Option<String>,
    pub store_id: Option<String>,
}

pub struct WireOrderAddress {
    pub lines: Option<WireLines>,
}

/// Where an order goes: the store a pickup names, else the address a
/// delivery names.
pub open spec fn destination_of(f: WireOrderFulfilment) -> Option<String> {
    match f.fulfilment_location {
        Some(WireFulfilmentLocation { name: Some(n), .. }) => Some(n),
        _ => match f.address {
            Some(WireOrderAddress { lines: Some(WireLines { line1 }) }) => line1,
            _ => None,
        },
    }
}

/// `o` is what `w` maps to: its number, dates and statuses, its total, and
/// the method, destination and slot of its first fulfilment.
pub open spec fn order_mapped(w: WireOrder, o: Order) -> bool {
    let f = if w.fulfilments@.len() > 0 { Some(w.fulfilments@[0]) } else { None };
    &&& w.order_number == Some(o.number)
    &&& o.placed_at == w.created_date_time
    &&& o.status == w.order_status
    &&& o.fulfilment_status == w.fulfilment_status
    &&& o.total_cents == (match w.total {
        Some(t) => t.after_discount_in_cents,
        None => None,
    })
    &&& o.method == (match f {
        Some(f) => f.method,
        None => None,
    })
    &&& o.destination == (match f {
        Some(f) => destination_of(f),
        None => None,
    })
    &&& o.slot_start == (match f {
        Some(f) => f.start_time,
        None => None,
    })
    &&& o.amendable == (w.is_amendable == Some(true))
}

impl WireOrder {
    /// An order, for one that has a number.
    fn into_order(&self) -> (r: Option<Order>)
        ensures
            match r {
                Some(o) => order_mapped(*self, o),
                None => self.order_number is None,
            },
            r matches Some(o) ==> o.status == self.order_status && o.fulfilment_status == self.fulfilment_status,
    {
        let number = match &self.order_number {
            Some(n) => n.clone(),
            None => return None,
        };
        let total_cents = match &self.total {
            Some(t) => t.after_discount_in_cents,
            None => None,
        };
        let (method, destination, slot_start) = if self.fulfilments.len() > 0 {
            let f = &self.fulfilments[0];
            let destination = match &f.fulfilment_location {
                Some(WireFulfilmentLocation { name: Some(n), .. }) => Some(n.clone()),
                _ => match &f.address {
                    Some(WireOrderAddress { lines: Some(WireLines { line1 }) }) => line1.clone(),
                    _ => None,
                },
            };
            (f.method.clone(), destination, f.start_time.clone())
        } else {
            (None, None, None)
        };
        let amendable = match self.is_amendable {
            Some(a) => a,
            None => false,
        };
        Some(
            Order {
                number,
                placed_at: self.created_date_time.clone(),
                status: self.order_status.clone(),
                fulfilment_status: self.fulfilment_status.clone(),
                total_cents,
                method,
                destination,
                slot_start,
                amendable,
            },
        )
    }
}

/// `os` is what the orders with a number among `ws` map to, in order.
pub open spec fn orders_mapped(ws: Seq<WireOrder>, os: Seq<Order>) -> bool
    decreases ws.len(),
{
    if ws.len() == 0 {
        os.len() == 0
    } else if ws.last().order_number is None {
        orders_mapped(ws.drop_last(), os)
    } else {
        os.len() > 0 && order_mapped(ws.last(), os.last()) && orders_mapped(ws.drop_last(), os.drop_last())
    }
}

/// The wire orders that carry a number, in order.
pub open spec fn numbered_orders(ws: Seq<WireOrder>) -> Seq<WireOrder>
    decreases ws.len(),
{
    if ws.len() == 0 {
        seq![]
    } else if ws.last().order_number is Some {
        numbered_orders(ws.drop_last()).push(ws.last())
    } else {
        numbered_orders(ws.drop_last())
    }
}

/// A page's orders are its numbered wire orders, one for one and in order:
/// each with that order's number, and with the order's own status and its
/// fulfilment's status, never one for the other.
pub proof fn lemma_orders_keep_their_statuses(ws: Seq<WireOrder>, os: Seq<Order>)
    requires
        orders_mapped(ws, os),
    ensures
        os.len() == numbered_orders(ws).len(),
        forall|k: int| 0 <= k < os.len() ==> {
            let w = #[trigger] numbered_orders(ws)[k];
            &&& w.order_number == Some(os[k].number)
            &&& os[k].status == w.order_status
            &&& os[k].fulfilment_status == w.fulfilment_status
        },
    decreases ws.len(),
{
    if ws.len() > 0 {
        let init = ws.drop_last();
        if ws.last().order_number is None {
            lemma_orders_keep_their_statuses(init, os);
        } else {
            lemma_orders_keep_their_statuses(init, os.drop_last());
            assert forall|k: int| 0 <= k < os.len() implies {
                let w = #[trigger] numbered_orders(ws)[k];
                &&& w.order_number == Some(os[k].number)
                &&& os[k].status == w.order_status
                &&& os[k].fulfilment_status == w.fulfilment_status
            } by {
                if k < os.len() - 1 {
                    assert(numbered_orders(ws)[k] == numbered_orders(init)[k]);
                    assert(os[k] == os.drop_last()[k]);
                } else {
                    assert(numbered_orders(ws)[k] == ws.last());
                    assert(os[k] == os.last());
                }
            }
        }
    }
}

impl WireOrderPage {
    /// A page of orders: those with a number, the total the site gave (else
    /// how many there are here), and its page count (else one).
    pub fn into_page(self) -> (p: OrderPage)
        ensures
            orders_mapped(self.results@, p.orders@),
            p.orders@.len() == numbered_orders(self.results@).len(),
            forall|k: int| 0 <= k < p.orders@.len() ==> {
                let w = #[trigger] numbered_orders(self.results@)[k];
                &&& w.order_number == Some(p.orders@[k].number)
                &&& p.orders@[k].status == w.order_status
                &&& p.orders@[k].fulfilment_status == w.fulfilment_status
            },
            p.total == (match self.total_count {
                Some(t) => t,
                None => p.orders@.len() as u32,
            }),
            p.total_pages == (match self.total_pages {
                Some(t) => t,
                None => 1u32,
            }),
    {
        let mut orders: Vec<Order> = Vec::new();
        let n = self.results.len();
        let mut i: usize = 0;
        assert(self.results@.take(0).len() == 0);
        while i < n
            invariant
                n == self.results@.len(),
                i <= n,
                orders_mapped(self.results@.take(i as int), orders@),
            decreases n - i,
        {
            assert(self.results@.take(i + 1).drop_last() =~= self.results@.take(i as int));
            assert(self.results@.take(i + 1).last() == self.results@[i as int]);
            let ghost before = orders@;
            match self.results[i].into_order() {
                Some(o) => {
                    orders.push(o);
                    assert(orders@.drop_last() =~= before);
                },
                None => {},
            }
            i += 1;
        }
        assert(self.results@.take(n as int) =~= self.results@);
        let total = match self.total_count {
            Some(t) => t,
            None => orders.len() as u32,
        };
        let total_pages = match self.total_pages {
            Some(t) => t,
            None => 1,
        };
        proof {
            lemma_orders_keep_their_statuses(self.results@, orders@);
        }
        OrderPage { orders, total, total_pages }
    }
}

pub struct WireOrderSubtotal {
    pub after_discount_in_cents: Option<i64>,
}

/// One fee on an order as the site sends it.
pub struct WireFee {
    pub kind: Option<String>,
    pub tag: Option<String>,
    pub amount_in_cents: Option<i64>,
}

impl WireFee {
    /// The fee, named by its type or else its tag; none without a name or an
    /// amount.
    pub fn into_fee(self) -> (r: Option<Fee>)
        ensures
            match r {
                Some(f) => self.amount_in_cents == Some(f.cents) && (match self.kind {
                    Some(k) => f.kind == k,
                    None => self.tag == Some(f.kind),
                }),
                None => self.amount_in_cents is None || (self.kind is None && self.tag is None),
            },
    {
        let kind = match self.kind {
            Some(k) => k,
            None => match self.tag {
                Some(t) => t,
                None => return None,
            },
        };
        let cents = match self.amount_in_cents {
            Some(c) => c,
            None => return None,
        };
        Some(Fee { kind, cents })
    }
}

pub struct WireOrderProduct {
    pub name: Option<String>,
}


/// One order, in full.
pub struct WireOrderDetail {
    pub order_number: Option<String>,
    pub order_status: Option<String>,
    pub created_date_time: Option<String>,
    pub is_amendable: Option<bool>,
    /// Zero while the order is still being picked; the estimate is the real
    /// number then.
    pub order_total_in_cents: Option<i64>,
    pub estimated_total_in_cents: Option<i64>,
    pub order_discount_in_cents: Option<i64>,
    pub order_savings_in_cents: Option<i64>,
    pub product_subtotal: Option<WireOrderSubtotal>,
    pub fees: Vec<WireFee>,
    pub fulfilments: Vec<WireOrderFulfilment>,
    pub line_items: Vec<WireOrderLineItem>,
}

pub struct WireOrderLineItem {
    pub product_id: Option<String>,
    pub product_key: Option<String>,
    /// `133211-EA`: the variant key under another name.
    pub sku_id: Option<String>,
    pub quantity: Option<Double>,
    pub allow_substitutions: Option<bool>,
    pub total_price_as_cents: Option<i64>,
    pub total_saving_as_cents: Option<i64>,
    pub unit_price_after_discount_as_cents: Option<i64>,
    pub product: Option<WireOrderProduct>,
}

pub type OrderLineView = (Seq<char>, Seq<char>, Seq<char>, Double, Option<i64>, Option<i64>, Option<i64>, bool);

pub open spec fn order_line_view(l: OrderLineItem) -> OrderLineView {
    (l.sku@, l.variant_key@, l.name@, l.quantity, l.total_cents, l.unit_price_cents, l.saving_cents, l.can_substitute)
}

/// What an order line comes to: its variant key is `skuId`, else the stock
/// code completed to the each; its SKU the stock code, the product id, or
/// the key's stock code. Nothing for a line with neither key.
pub open spec fn order_line_of(w: WireOrderLineItem) -> Option<OrderLineView> {
    let key = match w.sku_id {
        Some(k) => Some(k@),
        None => match w.product_key {
            Some(k) => Some(k@ + "-EA"@),
            None => None,
        },
    };
    match key {
        None => None,
        Some(key) => Some(
            (
                match w.product_key {
                    Some(k) => k@,
                    None => match w.product_id {
                        Some(i) => i@,
                        None => stock_code(key),
                    },
                },
                key,
                match w.product {
                    Some(p) => text_or_empty(p.name),
                    None => Seq::empty(),
                },
                match w.quantity {
                    Some(q) => q,
                    None => Double { bits: 0 },
                },
                w.total_price_as_cents,
                w.unit_price_after_discount_as_cents,
                nonzero(w.total_saving_as_cents),
                w.allow_substitutions == Some(true),
            ),
        ),
    }
}

pub open spec fn order_lines_of(ws: Seq<WireOrderLineItem>) -> Seq<OrderLineView>
    decreases ws.len(),
{
    if ws.len() == 0 {
        seq![]
    } else {
        let before = order_lines_of(ws.drop_last());
        match order_line_of(ws.last()) {
            Some(l) => before.push(l),
            None => before,
        }
    }
}

impl WireOrderLineItem {
    pub fn into_line(&self) -> (r: Option<OrderLineItem>)
        ensures
            match order_line_of(*self) {
                Some(v) => r matches Some(l) && order_line_view(l) == v,
                None => r is None,
            },
    {
        let variant_key = match &self.sku_id {
            Some(k) => k.clone(),
            None => match &self.product_key {
                Some(k) => cat(k.as_str(), "-EA"),
                None => return None,
            },
        };
        let sku = match &self.product_key {
            Some(k) => k.clone(),
            None => match &self.product_id {
                Some(i) => i.clone(),
                None => stock_code_of(variant_key.as_str()),
            },
        };
        Some(OrderLineItem {
            sku,
            name: match &self.product {
                Some(p) => match &p.name {
                    Some(n) => n.clone(),
                    None => String::new(),
                },
                None => String::new(),
            },
            quantity: match self.quantity {
                Some(q) => q,
                None => Double { bits: 0 },
            },
            total_cents: self.total_price_as_cents,
            unit_price_cents: self.unit_price_after_discount_as_cents,
            saving_cents: match self.total_saving_as_cents {
                Some(0) => None,
                other => other,
            },
            can_substitute: self.allow_substitutions == Some(true),
            variant_key,
        })
    }
}

/// The fees that carry a name and an amount.
pub open spec fn fees_of(ws: Seq<WireFee>) -> Seq<(Seq<char>, i64)>
    decreases ws.len(),
{
    if ws.len() == 0 {
        seq![]
    } else {
        let before = fees_of(ws.drop_last());
        let w = ws.last();
        let kind = match w.kind {
            Some(k) => Some(k@),
            None => w.tag.deep_view(),
        };
        match (kind, w.amount_in_cents) {
            (Some(k), Some(c)) => before.push((k, c)),
            _ => before,
        }
    }
}

pub open spec fn detail_is(w: WireOrderDetail, d: OrderDetail) -> bool {
    let f = if w.fulfilments@.len() > 0 { Some(w.fulfilments@[0]) } else { None };
    let location = match f {
        Some(f) => f.fulfilment_location,
        None => None,
    };
    &&& Some(d.number) == w.order_number
    &&& d.status == w.order_status
    &&& d.placed_at == w.created_date_time
    &&& d.amendable == (w.is_amendable == Some(true))
    &&& d.total_cents == w.order_total_in_cents
    &&& d.estimated_total_cents == w.estimated_total_in_cents
    &&& d.discount_cents == nonzero(w.order_discount_in_cents)
    &&& d.savings_cents == nonzero(w.order_savings_in_cents)
    &&& d.items_cents == (match w.product_subtotal {
        Some(s) => s.after_discount_in_cents,
        None => None,
    })
    &&& d.fees@.map_values(|x: Fee| (x.kind@, x.cents)) == fees_of(w.fees@)
    &&& d.method == (match f {
        Some(f) => f.method,
        None => None,
    })
    &&& d.kind == (match f {
        Some(f) => f.kind,
        None => None,
    })
    &&& d.slot_start == (match f {
        Some(f) => f.start_time,
        None => None,
    })
    &&& d.slot_end == (match f {
        Some(f) => f.end_time,
        None => None,
    })
    &&& d.location_name == (match location {
        Some(l) => l.name,
        None => None,
    })
    &&& d.location_store_id == (match location {
        Some(l) => l.store_id,
        None => None,
    })
    &&& d.address == (match f {
        Some(WireOrderFulfilment { address: Some(WireOrderAddress { lines: Some(l) }), .. }) => l.line1,
        _ => None,
    })
    &&& d.lines@.map_values(|l: OrderLineItem| order_line_view(l)) == order_lines_of(w.line_items@)
}

impl WireOrderDetail {
    /// The order, in full; nothing without a number.
    pub fn into_detail(self) -> (r: Option<OrderDetail>)
        ensures
            match r {
                Some(d) => detail_is(self, d),
                None => self.order_number is None,
            },
    {
        let number = match self.order_number {
            Some(n) => n,
            None => return None,
        };
        let fs = &self.fees;
        let mut fees: Vec<Fee> = Vec::new();
        let mut i: usize = 0;
        while i < fs.len()
            invariant
                i <= fs@.len(),
                fees@.map_values(|x: Fee| (x.kind@, x.cents)) == fees_of(fs@.take(i as int)),
            decreases fs@.len() - i,
        {
            assert(fs@.take(i + 1).drop_last() =~= fs@.take(i as int));
            assert(fs@.take(i + 1).last() == fs@[i as int]);
            let kind = match &fs[i].kind {
                Some(k) => Some(k.clone()),
                None => fs[i].tag.clone(),
            };
            match (kind, fs[i].amount_in_cents) {
                (Some(k), Some(c)) => {
                    let ghost before = fees@.map_values(|x: Fee| (x.kind@, x.cents));
                    let ghost kv = k@;
                    fees.push(Fee { kind: k, cents: c });
                    assert(fees@.map_values(|x: Fee| (x.kind@, x.cents)) =~= before.push((kv, c)));
                },
                _ => {},
            }
            i += 1;
        }
        assert(fs@.take(fs@.len() as int) =~= fs@);
        let items = &self.line_items;
        let mut lines: Vec<OrderLineItem> = Vec::new();
        let mut j: usize = 0;
        while j < items.len()
            invariant
                j <= items@.len(),
                lines@.map_values(|l: OrderLineItem| order_line_view(l)) == order_lines_of(items@.take(j as int)),
            decreases items@.len() - j,
        {
            assert(items@.take(j + 1).drop_last() =~= items@.take(j as int));
            assert(items@.take(j + 1).last() == items@[j as int]);
            match items[j].into_line() {
                Some(l) => {
                    let ghost before = lines@.map_values(|l: OrderLineItem| order_line_view(l));
                    let ghost lv = order_line_view(l);
                    lines.push(l);
                    assert(lines@.map_values(|l: OrderLineItem| order_line_view(l)) =~= before.push(lv));
                },
                None => {},
            }
            j += 1;
        }
        assert(items@.take(items@.len() as int) =~= items@);
        let mut fulfilments = self.fulfilments;
        let f = if fulfilments.len() > 0 { Some(fulfilments.remove(0)) } else { None };
        let (method, kind, slot_start, slot_end, location_name, location_store_id, address) = match f {
            Some(f) => {
                let (ln, ls) = match f.fulfilment_location {
                    Some(l) => (l.name, l.store_id),
                    None => (None, None),
                };
                let address = match f.address {
                    Some(WireOrderAddress { lines: Some(l) }) => l.line1,
                    _ => None,
                };
                (f.method, f.kind, f.start_time, f.end_time, ln, ls, address)
            },
            None => (None, None, None, None, None, None, None),
        };
        Some(OrderDetail {
            number,
            status: self.order_status,
            placed_at: self.created_date_time,
            amendable: self.is_amendable == Some(true),
            total_cents: self.order_total_in_cents,
            estimated_total_cents: self.estimated_total_in_cents,
            discount_cents: match self.order_discount_in_cents {
                Some(0) => None,
                other => other,
            },
            savings_cents: match self.order_savings_in_cents {
                Some(0) => None,
                other => other,
            },
            items_cents: match self.product_subtotal {
                Some(s) => s.after_discount_in_cents,
                None => None,
            },
            fees,
            method,
            kind,
            slot_start,
            slot_end,
            location_name,
            location_store_id,
            address,
            lines,
        })
    }
}

} // verus!
