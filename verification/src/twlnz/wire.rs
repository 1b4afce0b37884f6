//! The JSON The Warehouse sends, as values, and the mapping of the parts
//! that need one onto the client's own types. The JSON itself is read by the
//! caller into these.
use vstd::prelude::*;

use crate::measure::Double;
use crate::twlnz::domain::{
    Availability, Cart, CartLine, Category, Price, Product, ProductDetail, ShippingOption, Store, VariationAxis,
    VariationValue,
};
use crate::twlnz::extract::{plain_text, prose};
use crate::text;
use crate::text::{cat, chars_of, find_at, index_in, replace_str, string_range};

verus! {

/// The envelope every controller answers in: whether it refused, and why.
pub struct Envelope {
    pub error: bool,
    /// The reason, under whichever of `msg`, `errorMessage` or `message` the
    /// controller used.
    pub msg: Option<String>,
}

pub struct WireImages {
    pub large: Vec<WireImage>,
    pub small: Vec<WireImage>,
}

pub struct WireImage {
    pub url: Option<String>,
}

/// The four answers that make availability two-dimensional.
pub struct WireAvailability {
    pub online_stock_available: Option<bool>,
    pub online_channel_orderable: Option<bool>,
    pub store_channel_orderable: Option<bool>,
    pub product_status: Option<String>,
    pub cart_label: Option<String>,
}

/// Online availability: where both are known, orderable and in stock; else
/// whichever is known.
pub open spec fn online_of(orderable: Option<bool>, stocked: Option<bool>) -> Option<bool> {
    match (orderable, stocked) {
        (Some(o), Some(s)) => Some(o && s),
        (Some(o), None) => Some(o),
        (None, s) => s,
    }
}

impl WireAvailability {
    /// Orderable is the stricter of the two and the one that matters: stock
    /// that exists but is not sellable online is not online stock.
    pub fn into_availability(self) -> (a: Availability)
        ensures
            a.status == self.product_status,
            a.online == online_of(self.online_channel_orderable, self.online_stock_available),
            a.in_store == self.store_channel_orderable,
            a.label == self.cart_label,
    {
        let online = match (self.online_channel_orderable, self.online_stock_available) {
            (Some(o), Some(s)) => Some(o && s),
            (Some(o), None) => Some(o),
            (None, s) => s,
        };
        Availability {
            status: self.product_status,
            online,
            in_store: self.store_channel_orderable,
            label: self.cart_label,
        }
    }
}

/// One axis of variation as the variation endpoint sends it.
pub struct WireAxis {
    pub attribute_id: Option<String>,
    pub id: Option<String>,
    pub display_name: Option<String>,
    pub display_value: Option<String>,
    pub values: Vec<WireAxisValue>,
}

pub struct WireAxisValue {
    pub id: Option<String>,
    pub display_value: Option<String>,
    pub value: Option<String>,
    pub selected: bool,
    /// Whether the combination exists at all.
    pub selectable: bool,
    /// Whether it can be bought; a real combination can still be sold out.
    pub orderable: bool,
    pub url: Option<String>,
}

pub struct WireShipping {
    pub id: String,
    pub display_name: Option<String>,
    pub estimated_arrival_time: Option<String>,
    pub store_pickup_enabled: bool,
}

impl WireShipping {
    /// A shipping method as the client shows it: named by its id where it
    /// has no display name.
    pub fn into_option(self) -> (o: ShippingOption)
        ensures
            o.id == self.id,
            o.name@ == (match self.display_name {
                Some(n) => n@,
                None => self.id@,
            }),
            o.estimate == self.estimated_arrival_time,
            o.pickup == self.store_pickup_enabled,
    {
        let name = match self.display_name {
            Some(n) => n,
            None => self.id.clone(),
        };
        ShippingOption { id: self.id, name, estimate: self.estimated_arrival_time, pickup: self.store_pickup_enabled }
    }
}

// ------------------------------------------------------------------ money

/// An amount as a controller sends it.
pub struct Money {
    pub value: Option<Double>,
    pub currency: Option<String>,
    pub formatted: Option<String>,
}

impl Money {
    pub fn into_price(self) -> (p: Price)
        ensures
            p.value == self.value,
            p.formatted == self.formatted,
            p.currency == self.currency,
    {
        Price { value: self.value, formatted: self.formatted, currency: self.currency }
    }
}

pub struct PriceBlock {
    pub sales: Option<Money>,
    /// The pre-discount price, present only when the item is reduced.
    pub list: Option<Money>,
}

/// A price as what it holds: the number, the text, the currency.
pub type PriceView = (Option<Double>, Option<Seq<char>>, Option<Seq<char>>);

pub open spec fn price_view(p: Price) -> PriceView {
    (p.value, p.formatted.deep_view(), p.currency.deep_view())
}

pub open spec fn money_view(m: Money) -> PriceView {
    (m.value, m.formatted.deep_view(), m.currency.deep_view())
}


fn copy_money(m: &Money) -> (r: Money)
    ensures
        money_view(r) == money_view(*m),
{
    Money { value: m.value, currency: m.currency.clone(), formatted: m.formatted.clone() }
}

impl PriceBlock {
    /// The selling price, or nothing.
    pub fn sales(&self) -> (p: Price)
        ensures
            price_view(p) == (match self.sales {
                Some(m) => money_view(m),
                None => (None, None, None),
            }),
    {
        match &self.sales {
            Some(m) => copy_money(m).into_price(),
            None => Price::none(),
        }
    }

    /// The crossed-out price, discarded when it is a hollow object: the site
    /// sends `{"value":null,"currency":null,"formatted":null}` rather than
    /// omitting it.
    pub fn was(&self) -> (p: Option<Price>)
        ensures
            match self.list {
                Some(m) => if m.value is None && m.formatted is None {
                    p is None
                } else {
                    p matches Some(x) && price_view(x) == money_view(m)
                },
                None => p is None,
            },
    {
        match &self.list {
            Some(m) => {
                let price = copy_money(m).into_price();
                if price.is_empty() {
                    None
                } else {
                    Some(price)
                }
            },
            None => None,
        }
    }
}

// ------------------------------------------------------------------ products

/// A product as the variation endpoint sends it.
pub struct WireProduct {
    pub id: Option<String>,
    pub product_name: Option<String>,
    pub brand: Option<String>,
    pub master_product: Option<String>,
    pub price: PriceBlock,
    pub availability: Option<WireAvailability>,
    pub variation_attributes: Vec<WireAxis>,
    pub max_order_quantity: Option<u32>,
    pub short_description: Option<String>,
    pub long_description: Option<String>,
    pub ean: Option<String>,
    pub rating: Option<Double>,
    pub images: Option<WireImages>,
    pub shipping_options: Vec<WireShipping>,
    pub selected_product_url: Option<String>,
    /// Marketplace items carry their own seller and shipping group.
    pub marketplace: Option<bool>,
}

/// A product's image: the first large one, else the first small one.
pub open spec fn image_of(images: Option<WireImages>) -> Option<Seq<char>> {
    match images {
        Some(i) => if i.large@.len() > 0 {
            i.large@[0].url.deep_view()
        } else if i.small@.len() > 0 {
            i.small@[0].url.deep_view()
        } else {
            None
        },
        None => None,
    }
}

pub open spec fn text_or_empty(t: Option<String>) -> Seq<char> {
    match t {
        Some(v) => v@,
        None => Seq::empty(),
    }
}

/// What a variation answer comes to as a product.
pub open spec fn product_is(w: WireProduct, p: Product) -> bool {
    &&& p.id@ == text_or_empty(w.id)
    &&& p.master_id.deep_view() == w.master_product.deep_view()
    &&& p.name@ == text_or_empty(w.product_name)
    &&& p.brand.deep_view() == w.brand.deep_view()
    &&& p.ean.deep_view() == w.ean.deep_view()
    &&& price_view(p.price) == (match w.price.sales {
        Some(m) => money_view(m),
        None => (None, None, None),
    })
    &&& (match w.price.list {
        Some(m) => if m.value is None && m.formatted is None {
            p.was_price is None
        } else {
            p.was_price matches Some(x) && price_view(x) == money_view(m)
        },
        None => p.was_price is None,
    })
    &&& p.rating == w.rating
    &&& p.category is None
    &&& p.url.deep_view() == w.selected_product_url.deep_view()
    &&& p.image.deep_view() == image_of(w.images)
    &&& (match w.availability {
        Some(a) => p.availability.status == a.product_status && p.availability.online == online_of(
            a.online_channel_orderable,
            a.online_stock_available,
        ) && p.availability.in_store == a.store_channel_orderable && p.availability.label == a.cart_label,
        None => p.availability.status is None && p.availability.online is None && p.availability.in_store is None
            && p.availability.label is None,
    })
    &&& p.marketplace == (w.marketplace == Some(true))
}

fn first_image(images: &Option<WireImages>) -> (r: Option<String>)
    ensures
        r.deep_view() == image_of(*images),
{
    match images {
        Some(i) => if i.large.len() > 0 {
            i.large[0].url.clone()
        } else if i.small.len() > 0 {
            i.small[0].url.clone()
        } else {
            None
        },
        None => None,
    }
}

/// An axis as the client shows it: named by its id where it has no name;
/// its current choice the display value where there is one, else the value
/// marked selected; its values those with an id.
pub open spec fn axis_of(a: WireAxis) -> Option<AxisView> {
    let id = match a.attribute_id {
        Some(i) => Some(i@),
        None => a.id.deep_view(),
    };
    match id {
        None => None,
        Some(id) => Some(
            (
                id,
                match a.display_name {
                    Some(n) => n@,
                    None => id,
                },
                match a.display_value {
                    Some(v) if v@.len() > 0 => Some(v@),
                    _ => match first_selected(a.values@) {
                        Some(k) => a.values@[k].display_value.deep_view(),
                        None => None,
                    },
                },
                values_of(a.values@),
            ),
        ),
    }
}

pub type ValueView = (Seq<char>, Seq<char>, bool, bool, bool, Option<Seq<char>>);

pub type AxisView = (Seq<char>, Seq<char>, Option<Seq<char>>, Seq<ValueView>);

pub open spec fn value_view(v: VariationValue) -> ValueView {
    (v.id@, v.label@, v.selected, v.selectable, v.orderable, v.url.deep_view())
}

pub open spec fn axis_view(a: VariationAxis) -> AxisView {
    (a.id@, a.name@, a.selected.deep_view(), a.values@.map_values(|v: VariationValue| value_view(v)))
}

/// The first value marked selected.
pub open spec fn first_selected(vs: Seq<WireAxisValue>) -> Option<int>
    decreases vs.len(),
{
    if vs.len() == 0 {
        None
    } else if vs[0].selected {
        Some(0)
    } else {
        match first_selected(vs.drop_first()) {
            Some(k) => Some(k + 1),
            None => None,
        }
    }
}

/// The values carrying an id (or, failing that, a value), each labelled by
/// its display value or its id.
pub open spec fn values_of(vs: Seq<WireAxisValue>) -> Seq<ValueView>
    decreases vs.len(),
{
    if vs.len() == 0 {
        seq![]
    } else {
        let before = values_of(vs.drop_last());
        let v = vs.last();
        let vid = match v.id {
            Some(i) => Some(i@),
            None => v.value.deep_view(),
        };
        match vid {
            Some(vid) => before.push(
                (
                    vid,
                    match v.display_value {
                        Some(d) => d@,
                        None => vid,
                    },
                    v.selected,
                    v.selectable,
                    v.orderable,
                    v.url.deep_view(),
                ),
            ),
            None => before,
        }
    }
}

fn axis_values(vs: &Vec<WireAxisValue>) -> (r: Vec<VariationValue>)
    ensures
        r@.map_values(|v: VariationValue| value_view(v)) == values_of(vs@),
{
    let mut out: Vec<VariationValue> = Vec::new();
    let mut i: usize = 0;
    while i < vs.len()
        invariant
            i <= vs@.len(),
            out@.map_values(|v: VariationValue| value_view(v)) == values_of(vs@.take(i as int)),
        decreases vs@.len() - i,
    {
        assert(vs@.take(i + 1).drop_last() =~= vs@.take(i as int));
        assert(vs@.take(i + 1).last() == vs@[i as int]);
        let v = &vs[i];
        let vid = match &v.id {
            Some(x) => Some(x.clone()),
            None => v.value.clone(),
        };
        match vid {
            Some(vid) => {
                let label = match &v.display_value {
                    Some(d) => d.clone(),
                    None => vid.clone(),
                };
                let x = VariationValue {
                    id: vid,
                    label,
                    selected: v.selected,
                    selectable: v.selectable,
                    orderable: v.orderable,
                    url: v.url.clone(),
                };
                let ghost before = out@.map_values(|v: VariationValue| value_view(v));
                out.push(x);
                assert(out@.map_values(|v: VariationValue| value_view(v)) =~= before.push(value_view(x)));
            },
            None => {},
        }
        i += 1;
    }
    assert(vs@.take(vs@.len() as int) =~= vs@);
    out
}

fn selected_label(vs: &Vec<WireAxisValue>) -> (r: Option<String>)
    ensures
        r.deep_view() == (match first_selected(vs@) {
            Some(k) => vs@[k].display_value.deep_view(),
            None => None,
        }),
{
    let mut k: usize = 0;
    assert(vs@.skip(0) =~= vs@);
    while k < vs.len()
        invariant
            k <= vs@.len(),
            first_selected(vs@) == (match first_selected(vs@.skip(k as int)) {
                Some(j) => Some(j + k),
                None => None,
            }),
        decreases vs@.len() - k,
    {
        assert(vs@.skip(k as int)[0] == vs@[k as int]);
        assert(vs@.skip(k as int).drop_first() =~= vs@.skip(k + 1));
        if vs[k].selected {
            return vs[k].display_value.clone();
        }
        k += 1;
    }
    None
}

impl WireAxis {
    pub fn into_axis(&self) -> (r: Option<VariationAxis>)
        ensures
            match axis_of(*self) {
                Some(v) => r matches Some(a) && axis_view(a) == v,
                None => r is None,
            },
    {
        let id = match &self.attribute_id {
            Some(i) => i.clone(),
            None => match &self.id {
                Some(i) => i.clone(),
                None => return None,
            },
        };
        let name = match &self.display_name {
            Some(n) => n.clone(),
            None => id.clone(),
        };
        let mut selected: Option<String> = None;
        let shown = match &self.display_value {
            Some(v) => !v.as_str().is_empty(),
            None => false,
        };
        if shown {
            selected = self.display_value.clone();
        } else {
            selected = selected_label(&self.values);
        }
        Some(VariationAxis { id, name, selected, values: axis_values(&self.values) })
    }
}

/// A description as prose: the long one, else the short one, entities undone
/// once and markup read as text; nothing where that leaves nothing.
pub open spec fn description_of(long: Option<String>, short: Option<String>) -> Option<Seq<char>> {
    let d = match long {
        Some(l) => Some(l@),
        None => short.deep_view(),
    };
    match d {
        Some(d) => if prose(unescaped(d)).len() > 0 {
            Some(prose(unescaped(d)))
        } else {
            None
        },
        None => None,
    }
}

pub open spec fn detail_is(w: WireProduct, d: ProductDetail) -> bool {
    &&& product_is(w, d.product)
    &&& d.description.deep_view() == description_of(w.long_description, w.short_description)
    &&& d.sku.deep_view() == w.id.deep_view()
    &&& d.max_quantity == w.max_order_quantity
    &&& axes_of(w.variation_attributes@) == d.axes@.map_values(|a: VariationAxis| axis_view(a))
    &&& d.shipping@.len() == w.shipping_options@.len()
    &&& forall|i: int|
        0 <= i < d.shipping@.len() ==> (#[trigger] d.shipping@[i]).id == w.shipping_options@[i].id && d.shipping@[i].name@
            == (match w.shipping_options@[i].display_name {
            Some(n) => n@,
            None => w.shipping_options@[i].id@,
        }) && d.shipping@[i].estimate == w.shipping_options@[i].estimated_arrival_time && d.shipping@[i].pickup
            == w.shipping_options@[i].store_pickup_enabled
}

/// The axes that carry an id.
pub open spec fn axes_of(axes: Seq<WireAxis>) -> Seq<AxisView>
    decreases axes.len(),
{
    if axes.len() == 0 {
        seq![]
    } else {
        let before = axes_of(axes.drop_last());
        match axis_of(axes.last()) {
            Some(a) => before.push(a),
            None => before,
        }
    }
}

impl WireProduct {
    /// The product a variation answer describes.
    pub fn into_product(self) -> (p: Product)
        ensures
            product_is(self, p),
    {
        let image = first_image(&self.images);
        let availability = match self.availability {
            Some(a) => a.into_availability(),
            None => Availability { status: None, online: None, in_store: None, label: None },
        };
        Product {
            id: match self.id {
                Some(i) => i,
                None => String::new(),
            },
            master_id: self.master_product,
            name: match self.product_name {
                Some(n) => n,
                None => String::new(),
            },
            brand: self.brand,
            ean: self.ean,
            price: self.price.sales(),
            was_price: self.price.was(),
            rating: self.rating,
            category: None,
            url: self.selected_product_url,
            image,
            availability,
            marketplace: self.marketplace == Some(true),
        }
    }

    /// The detail a variation answer describes: the product, and what only a
    /// detail page knows.
    pub fn into_detail(self) -> (d: ProductDetail)
        ensures
            detail_is(self, d),
    {
        let raw = match &self.long_description {
            Some(l) => Some(l.clone()),
            None => self.short_description.clone(),
        };
        let description = match raw {
            Some(d) => {
                let t = plain_text(unescape(d.as_str()).as_str());
                if t.as_str().is_empty() {
                    None
                } else {
                    Some(t)
                }
            },
            None => None,
        };
        let ghost w = self;
        let mut axes: Vec<VariationAxis> = Vec::new();
        let attrs = &self.variation_attributes;
        let mut i: usize = 0;
        while i < attrs.len()
            invariant
                i <= attrs@.len(),
                axes@.map_values(|a: VariationAxis| axis_view(a)) == axes_of(attrs@.take(i as int)),
            decreases attrs@.len() - i,
        {
            assert(attrs@.take(i + 1).drop_last() =~= attrs@.take(i as int));
            assert(attrs@.take(i + 1).last() == attrs@[i as int]);
            match attrs[i].into_axis() {
                Some(a) => {
                    let ghost before = axes@.map_values(|a: VariationAxis| axis_view(a));
                    let ghost av = axis_view(a);
                    axes.push(a);
                    assert(axes@.map_values(|a: VariationAxis| axis_view(a)) =~= before.push(av));
                },
                None => {},
            }
            i += 1;
        }
        assert(attrs@.take(attrs@.len() as int) =~= attrs@);
        let mut shipping: Vec<ShippingOption> = Vec::new();
        let opts = &self.shipping_options;
        let mut j: usize = 0;
        while j < opts.len()
            invariant
                j <= opts@.len(),
                shipping@.len() == j,
                forall|k: int|
                    0 <= k < j ==> (#[trigger] shipping@[k]).id == opts@[k].id && shipping@[k].name@ == (match opts@[k].display_name {
                        Some(n) => n@,
                        None => opts@[k].id@,
                    }) && shipping@[k].estimate == opts@[k].estimated_arrival_time && shipping@[k].pickup
                        == opts@[k].store_pickup_enabled,
            decreases opts@.len() - j,
        {
            let o = &opts[j];
            let copy = WireShipping {
                id: o.id.clone(),
                display_name: o.display_name.clone(),
                estimated_arrival_time: o.estimated_arrival_time.clone(),
                store_pickup_enabled: o.store_pickup_enabled,
            };
            shipping.push(copy.into_option());
            j += 1;
        }
        let sku = self.id.clone();
        let max_quantity = self.max_order_quantity;
        ProductDetail { sku, product: self.into_product(), description, max_quantity, axes, shipping }
    }
}

/// A subtotal as a controller sends it: text, a number, or an object
/// carrying its text under `formatted`.
pub enum Subtotal {
    Text(String),
    /// A number, as `serde_json` writes it.
    Number(String),
    /// An object, and its `formatted` text where that is a string.
    Object(Option<String>),
    Other,
}

/// A subtotal as the text the client shows: a bare number gets a dollar sign.
pub open spec fn subtotal_text(s: Subtotal) -> Option<Seq<char>> {
    match s {
        Subtotal::Text(t) => Some(t@),
        Subtotal::Number(n) => Some("$"@ + n@),
        Subtotal::Object(f) => f.deep_view(),
        Subtotal::Other => None,
    }
}

/// The cart's totals.
pub struct WireTotals {
    pub sub_total: Option<Subtotal>,
}

/// A basket model.
pub struct WireCart {
    pub cart_id: Option<String>,
    pub items: Vec<WireCartItem>,
    /// Only the minicart puts a subtotal here; every wrapped model keeps it
    /// in `totals`.
    pub sub_total: Option<Subtotal>,
    pub totals: Option<WireTotals>,
    pub quantity_total: Option<u32>,
}

/// One basket under five names: four wrappers, or the minicart's fields at
/// the top level.
pub struct CartResponse {
    pub cart_model: Option<WireCart>,
    pub cart: Option<WireCart>,
    pub basket_model: Option<WireCart>,
    pub basket: Option<WireCart>,
    pub quantity_total: Option<u32>,
    pub items: Option<Vec<WireCartItem>>,
    pub sub_total: Option<Subtotal>,
}

/// A line total in the two shapes it arrives in: a nested price block from
/// the wrapped models, flat money from the minicart.
pub enum WireLineTotal {
    Nested(PriceBlock),
    Flat(Money),
}

impl WireLineTotal {
    pub fn into_price(self) -> (p: Price)
        ensures
            price_view(p) == (match self {
                WireLineTotal::Nested(b) => match b.sales {
                    Some(m) => money_view(m),
                    None => (None, None, None),
                },
                WireLineTotal::Flat(m) => money_view(m),
            }),
    {
        match self {
            WireLineTotal::Nested(b) => b.sales(),
            WireLineTotal::Flat(m) => m.into_price(),
        }
    }
}

/// One line of a basket.
pub struct WireCartItem {
    pub uuid: Option<String>,
    pub id: Option<String>,
    pub product_name: Option<String>,
    pub brand: Option<String>,
    /// The line id removal takes, under the two names the site gives it.
    pub uuid_upper: Option<String>,
    pub pre_order_uuid: Option<String>,
    pub quantity: Option<u32>,
    pub price: Option<PriceBlock>,
    pub price_total: Option<WireLineTotal>,
}

impl WireCartItem {
    /// The line this describes. `price.sales` is per unit and `priceTotal`
    /// is the line; whichever arrived, the other is derived rather than left
    /// empty -- `per_unit` and `for_line` are those derivations, the total
    /// divided by the quantity and the unit price multiplied by it, used only
    /// for the half that did not arrive.
    pub fn into_line(self, per_unit: Option<Price>, for_line: Option<Price>) -> (l: CartLine)
        ensures
            l.uuid@ == text_or_empty(self.uuid),
            l.pli_uuid.deep_view() == (match self.uuid_upper {
                Some(u) => Some(u@),
                None => self.pre_order_uuid.deep_view(),
            }),
            l.id@ == text_or_empty(self.id),
            l.name@ == text_or_empty(self.product_name),
            l.brand == self.brand,
            l.quantity == (match self.quantity {
                Some(q) => q,
                None => 1,
            }),
            price_view(l.price) == (match self.price {
                Some(b) => match b.sales {
                    Some(m) => money_view(m),
                    None => (None, None, None),
                },
                None => match (self.price_total, per_unit) {
                    (Some(_), Some(u)) => price_view(u),
                    _ => (None, None, None),
                },
            }),
            price_view(l.total) == (match self.price_total {
                Some(WireLineTotal::Nested(b)) => match b.sales {
                    Some(m) => money_view(m),
                    None => (None, None, None),
                },
                Some(WireLineTotal::Flat(m)) => money_view(m),
                None => match (self.price, for_line) {
                    (Some(_), Some(t)) => price_view(t),
                    _ => (None, None, None),
                },
            }),
    {
        let quantity = match self.quantity {
            Some(q) => q,
            None => 1,
        };
        let unit = match &self.price {
            Some(b) => Some(b.sales()),
            None => None,
        };
        let had_unit = unit.is_some();
        let total = match self.price_total {
            Some(t) => Some(t.into_price()),
            None => None,
        };
        let had_total = total.is_some();
        let price = match unit {
            Some(u) => u,
            None => match (had_total, per_unit) {
                (true, Some(u)) => u,
                _ => Price::none(),
            },
        };
        let total = match total {
            Some(t) => t,
            None => match (had_unit, for_line) {
                (true, Some(t)) => t,
                _ => Price::none(),
            },
        };
        CartLine {
            uuid: match self.uuid {
                Some(u) => u,
                None => String::new(),
            },
            pli_uuid: match self.uuid_upper {
                Some(u) => Some(u),
                None => self.pre_order_uuid,
            },
            id: match self.id {
                Some(i) => i,
                None => String::new(),
            },
            name: match self.product_name {
                Some(n) => n,
                None => String::new(),
            },
            brand: self.brand,
            quantity,
            price,
            total,
        }
    }
}

/// What a basket answer holds, whichever shape it came in: the model under
/// the first of its four names, else the minicart's top-level fields.
pub struct CartParts {
    pub id: Option<String>,
    pub items: Vec<WireCartItem>,
    pub subtotal: Option<Subtotal>,
    pub quantity: Option<u32>,
}

impl CartResponse {
    /// The basket's parts. A model's own subtotal, else its totals', else the
    /// one beside it; a model's own count ahead of the one beside it -- a
    /// removal repeats `quantityTotal` at the top level for the line it took
    /// out, which is always zero.
    pub fn into_parts(self) -> (p: CartParts)
        ensures
            ({
                let model = match self.cart_model {
                    Some(m) => Some(m),
                    None => match self.cart {
                        Some(m) => Some(m),
                        None => match self.basket_model {
                            Some(m) => Some(m),
                            None => self.basket,
                        },
                    },
                };
                match model {
                    Some(m) => p.id == m.cart_id && p.items == m.items && p.subtotal == (match m.sub_total {
                        Some(s) => Some(s),
                        None => match m.totals {
                            Some(WireTotals { sub_total: Some(s) }) => Some(s),
                            _ => self.sub_total,
                        },
                    }) && p.quantity == (match m.quantity_total {
                        Some(q) => Some(q),
                        None => self.quantity_total,
                    }),
                    None => p.id is None && p.items@ == (match self.items {
                        Some(v) => v@,
                        None => Seq::<WireCartItem>::empty(),
                    }) && p.subtotal == self.sub_total && p.quantity == self.quantity_total,
                }
            }),
    {
        let model = match self.cart_model {
            Some(m) => Some(m),
            None => match self.cart {
                Some(m) => Some(m),
                None => match self.basket_model {
                    Some(m) => Some(m),
                    None => self.basket,
                },
            },
        };
        match model {
            Some(m) => {
                let subtotal = match m.sub_total {
                    Some(s) => Some(s),
                    None => match m.totals {
                        Some(WireTotals { sub_total: Some(s) }) => Some(s),
                        _ => self.sub_total,
                    },
                };
                let quantity = match m.quantity_total {
                    Some(q) => Some(q),
                    None => self.quantity_total,
                };
                CartParts { id: m.cart_id, items: m.items, subtotal, quantity }
            },
            None => CartParts {
                id: None,
                items: match self.items {
                    Some(v) => v,
                    None => Vec::new(),
                },
                subtotal: self.sub_total,
                quantity: self.quantity_total,
            },
        }
    }
}

/// The units on `lines`, added.
pub open spec fn units(lines: Seq<CartLine>) -> int
    decreases lines.len(),
{
    if lines.len() == 0 {
        0
    } else {
        units(lines.drop_last()) + lines.last().quantity
    }
}

/// A basket from its parts and its lines: the site's own count when it sent
/// one, because it counts units rather than lines, else the lines' units.
pub fn cart_from(id: Option<String>, lines: Vec<CartLine>, subtotal: Option<Subtotal>, quantity: Option<u32>) -> (c: Cart)
    requires
        quantity is None ==> forall|k: int| 0 <= k <= lines@.len() ==> #[trigger] units(lines@.take(k)) <= u32::MAX,
    ensures
        c.id == id,
        c.lines == lines,
        c.quantity == (match quantity {
            Some(q) => q as int,
            None => units(lines@),
        }),
        c.subtotal.deep_view() == (match subtotal {
            Some(s) => subtotal_text(s),
            None => None,
        }),
{
    let quantity = match quantity {
        Some(q) => q,
        None => {
            let mut sum: u32 = 0;
            let mut i: usize = 0;
            while i < lines.len()
                invariant
                    i <= lines@.len(),
                    forall|k: int| 0 <= k <= lines@.len() ==> #[trigger] units(lines@.take(k)) <= u32::MAX,
                    sum == units(lines@.take(i as int)),
                decreases lines@.len() - i,
            {
                assert(lines@.take(i + 1).drop_last() =~= lines@.take(i as int));
                assert(units(lines@.take(i + 1)) <= u32::MAX);
                sum = sum + lines[i].quantity;
                i += 1;
            }
            assert(lines@.take(lines@.len() as int) =~= lines@);
            sum
        },
    };
    let subtotal = match subtotal {
        Some(Subtotal::Text(t)) => Some(t),
        Some(Subtotal::Number(n)) => Some(cat("$", n.as_str())),
        Some(Subtotal::Object(f)) => f,
        _ => None,
    };
    Cart { id, lines, subtotal, quantity }
}

/// A store as the store finder sends it.
pub struct WireStore {
    pub id: String,
    pub name: Option<String>,
    pub full_address: Option<String>,
    pub city: Option<String>,
    pub postal_code: Option<String>,
    pub state_code: Option<String>,
    pub latitude: Option<Double>,
    pub longitude: Option<Double>,
    pub phone: Option<String>,
    pub email: Option<String>,
    pub click_and_collect: Option<bool>,
    pub open_now: Option<bool>,
    pub opening_hours: Option<WireHours>,
}

impl WireStore {
    /// The store, named by its id where it has no name.
    pub fn into_store(self) -> (s: Store)
        ensures
            s.id == self.id,
            s.name@ == (match self.name {
                Some(n) => n@,
                None => self.id@,
            }),
            s.address == self.full_address,
            s.city == self.city,
            s.postcode == self.postal_code,
            s.region == self.state_code,
            s.latitude == self.latitude,
            s.longitude == self.longitude,
            s.phone == self.phone,
            s.email == self.email,
            s.click_and_collect == self.click_and_collect,
            s.hours_today == (match self.opening_hours {
                Some(h) => h.opening_hours,
                None => None,
            }),
            s.open_now == self.open_now,
    {
        let name = match self.name {
            Some(n) => n,
            None => self.id.clone(),
        };
        Store {
            name,
            address: self.full_address,
            city: self.city,
            postcode: self.postal_code,
            region: self.state_code,
            latitude: self.latitude,
            longitude: self.longitude,
            phone: self.phone,
            email: self.email,
            click_and_collect: self.click_and_collect,
            hours_today: match self.opening_hours {
                Some(h) => h.opening_hours,
                None => None,
            },
            open_now: self.open_now,
            id: self.id,
        }
    }
}

pub struct WireHours {
    pub opening_hours: Option<String>,
}

/// Entities the site double-escapes into JSON, undone once.
pub open spec fn unescaped(s: Seq<char>) -> Seq<char> {
    text::replace(
        text::replace(
            text::replace(
                text::replace(text::replace(text::replace(s, "&amp;"@, "&"@), "&lt;"@, "<"@), "&gt;"@, ">"@),
                "&quot;"@,
                "\""@,
            ),
            "&#39;"@,
            "'"@,
        ),
        "&nbsp;"@,
        " "@,
    )
}

/// The site double-escapes descriptions into JSON -- `H&amp;H` arrives as
/// written -- so an entity that survived is undone once for printing.
pub fn unescape(s: &str) -> (r: String)
    ensures
        r@ == unescaped(s@),
{
    proof {
        reveal_strlit("&amp;");
        reveal_strlit("&lt;");
        reveal_strlit("&gt;");
        reveal_strlit("&quot;");
        reveal_strlit("&#39;");
        reveal_strlit("&nbsp;");
    }
    let a = replace_str(s, "&amp;", "&");
    let b = replace_str(a.as_str(), "&lt;", "<");
    let c = replace_str(b.as_str(), "&gt;", ">");
    let d = replace_str(c.as_str(), "&quot;", "\"");
    let e = replace_str(d.as_str(), "&#39;", "'");
    replace_str(e.as_str(), "&nbsp;", " ")
}

/// The categories endpoint's answer.
pub struct CategoriesResponse {
    pub categories: Vec<WireCategory>,
}

/// One category, or -- without an id -- a refusal in its place.
pub struct WireCategory {
    pub id: Option<String>,
    pub display_name: Option<String>,
    pub url: Option<String>,
    pub sub_categories: Vec<WireCategory>,
}

/// The path of an absolute URL: what follows its host, with its slash.
pub open spec fn url_path_of(u: Seq<char>) -> Option<Seq<char>> {
    let parts = text::split_str(u, "://"@);
    if parts.len() < 2 {
        None
    } else {
        match text::split_once(parts[1], '/') {
            None => None,
            Some((_, p)) => Some("/"@ + p),
        }
    }
}

/// The path of an absolute URL.
pub fn path_of_url(u: &str) -> (r: Option<String>)
    ensures
        r.deep_view() == url_path_of(u@),
{
    let v = chars_of(u);
    let pat = chars_of("://");
    let n = v.len();
    proof {
        reveal_strlit("://");
        text::lemma_find_from(v@, pat@, 0);
    }
    let a = match find_at(&v, &pat, 0) {
        None => {
            return None;
        },
        Some(a) => a,
    };
    let after = a + 3;
    let ghost rest = v@.subrange(after as int, n as int);
    proof {
        assert(text::matches_at(v@, pat@, a as int));
        text::lemma_find_skip(v@, pat@, after as int, 0);
        assert(after as int + 0 == after as int);
        assert(v@.skip(after as int) =~= rest);
        text::lemma_find_from(rest, pat@, 0);
    }
    let b = match find_at(&v, &pat, after) {
        Some(b) => b,
        None => n,
    };
    let ghost second = v@.subrange(after as int, b as int);
    proof {
        let parts = text::split_str(v@, pat@);
        assert(parts.drop_first() == text::split_str(rest, pat@));
        assert(text::split_str(rest, pat@)[0] =~= second);
    }
    match index_in(&v, '/', after, b) {
        None => None,
        Some(s) => {
            assert(second.subrange(s - after + 1, second.len() as int) =~= v@.subrange(
                s + 1,
                b as int,
            ));
            let p = string_range(&v, s + 1, b);
            Some(cat("/", p.as_str()))
        },
    }
}

/// `c` is what `w` maps to: its id, its name (the id where it has none), the
/// path of its URL, and its subcategories mapped in turn, refusals dropped.
pub open spec fn mapped(w: WireCategory, c: Category) -> bool
    decreases w, 1nat,
{
    &&& w.id == Some(c.id)
    &&& c.name@ == (match w.display_name {
        Some(n) => n@,
        None => c.id@,
    })
    &&& c.path.deep_view() == (match w.url {
        Some(u) => url_path_of(u@),
        None => None,
    })
    &&& mapped_list(w.sub_categories@, c.children@)
}

pub open spec fn mapped_list(ws: Seq<WireCategory>, cs: Seq<Category>) -> bool
    decreases ws, 0nat,
{
    if ws.len() == 0 {
        cs.len() == 0
    } else if ws.last().id is None {
        mapped_list(ws.drop_last(), cs)
    } else {
        cs.len() > 0 && mapped(ws.last(), cs.last()) && mapped_list(ws.drop_last(), cs.drop_last())
    }
}

/// The category `w` describes, or none when it was a refusal.
fn map_category(w: &WireCategory) -> (r: Option<Category>)
    ensures
        match r {
            Some(c) => mapped(*w, c),
            None => w.id is None,
        },
    decreases *w,
{
    let id = match &w.id {
        Some(id) => id.clone(),
        None => return None,
    };
    let name = match &w.display_name {
        Some(n) => n.clone(),
        None => id.clone(),
    };
    let path = match &w.url {
        Some(u) => path_of_url(u.as_str()),
        None => None,
    };
    let all = &w.sub_categories;
    let mut children: Vec<Category> = Vec::new();
    let n = all.len();
    let mut i: usize = 0;
    assert(all@.take(0).len() == 0);
    while i < n
        invariant
            n == all@.len(),
            i <= n,
            *all == w.sub_categories,
            mapped_list(all@.take(i as int), children@),
        decreases n - i,
    {
        proof {
            assert(decreases_to!(*w => w.sub_categories@[i as int]));
        }
        assert(all@.take(i + 1).drop_last() =~= all@.take(i as int));
        assert(all@.take(i + 1).last() == all@[i as int]);
        let ghost before = children@;
        match map_category(&all[i]) {
            Some(c) => {
                children.push(c);
                assert(children@.drop_last() =~= before);
            },
            None => {},
        }
        i += 1;
    }
    assert(all@.take(n as int) =~= all@);
    Some(Category { id, name, path, children })
}

impl WireCategory {
    /// The category this describes, or none when the entry was a refusal.
    pub fn into_category(self) -> (r: Option<Category>)
        ensures
            match r {
                Some(c) => mapped(self, c),
                None => self.id is None,
            },
    {
        map_category(&self)
    }
}

} // verus!
