//! What the wire carries, as values: every field optional, because a field
//! either vendor renames should cost a column rather than the whole command.
//! The JSON itself is read by the caller into these.
use vstd::prelude::*;

use crate::kmart::domain::Price;
use crate::measure::Double;
use crate::text;

verus! {

/// How many results one source of a listing contributed.
pub struct ResultSource {
    pub count: u64,
}

/// One entry of a product's price list.
pub struct PriceEntry {
    pub kind: Option<String>,
    pub amount: Option<String>,
    pub currency: Option<String>,
}

pub struct Facet {
    pub name: Option<String>,
    pub display_name: Option<String>,
    pub options: Vec<FacetOption>,
}

pub struct FacetOption {
    pub value: Option<String>,
    pub display_name: Option<String>,
    pub count: Option<u64>,
}

pub struct SortOption {
    pub sort_by: Option<String>,
    pub sort_order: Option<String>,
    pub display_name: Option<String>,
}

/// A node of the index's category tree.
pub struct Group {
    pub group_id: Option<String>,
    pub display_name: Option<String>,
    pub count: Option<u64>,
    pub children: Vec<Group>,
    pub data: GroupData,
}

pub struct GroupData {
    pub url: Option<String>,
}

/// One answer of the search index.
pub struct SearchResponse {
    pub results: Vec<SearchResult>,
    pub facets: Vec<Facet>,
    pub groups: Vec<Group>,
    pub sort_options: Vec<SortOption>,
    pub total_num_results: u64,
    /// How the results were found, by source name in order: `token_match`
    /// is a real keyword hit, `embeddings_match` the semantic fallback.
    pub result_sources: Vec<(String, ResultSource)>,
}

/// One product the index found.
pub struct SearchResult {
    /// The display name.
    pub value: Option<String>,
    pub data: ItemData,
    /// Its sizes and colours, each with a keycode of its own.
    pub variations: Vec<Variation>,
}

pub struct Variation {
    pub value: Option<String>,
    pub data: ItemData,
}

/// A product's `data` bag: typed where it is reliable, raw where not.
pub struct ItemData {
    /// `P_43165537`: the keycode with a prefix.
    pub id: Option<String>,
    /// The keycode.
    pub variation_id: Option<String>,
    pub url: Option<String>,
    pub image_url: Option<String>,
    pub brand: Option<String>,
    pub colour: Option<String>,
    pub size: Option<String>,
    /// `["Kmart"]` for Kmart's own stock, a seller's name for a marketplace one.
    pub seller: Vec<String>,
    pub free_shipping: Option<bool>,
    pub national_inventory: Option<bool>,
    pub primary_category_id: Option<String>,
    /// The effective price -- what the site renders -- which the index sends
    /// as dollars in a double, rounded to cents at the edge.
    pub price: Option<Price>,
    /// The priced entries behind it, which is where a currency is stated.
    pub prices: Vec<PriceEntry>,
    pub ratings: Option<Ratings>,
    /// HTML.
    pub description: Option<String>,
    pub alt_images: Vec<String>,
    /// Everything else the feed carried, by key, as raw JSON text.
    pub extra: Vec<(String, String)>,
}

pub struct Ratings {
    pub average_score: Option<Double>,
    pub total_reviews: Option<u64>,
}

/// A GraphQL answer: the data, and any errors beside it.
pub struct GqlEnvelope<T> {
    pub data: Option<T>,
    pub errors: Vec<GqlError>,
}

/// One GraphQL error. Its `extensions` are kept by name, each with its text
/// where the value is a string.
pub struct GqlError {
    pub message: Option<String>,
    pub extensions: Vec<(String, Option<String>)>,
}

/// The text an extension holds under `name`: the first entry so named, if
/// its value is a string.
pub open spec fn extension_text(ext: Seq<(String, Option<String>)>, name: Seq<char>) -> Option<Seq<char>>
    decreases ext.len(),
{
    if ext.len() == 0 {
        None
    } else if ext[0].0@ == name {
        match ext[0].1 {
            Some(s) => Some(s@),
            None => None,
        }
    } else {
        extension_text(ext.drop_first(), name)
    }
}

impl GqlError {
    /// The machine-readable code an error carries in its extensions.
    pub fn code(&self) -> (r: Option<&str>)
        ensures
            match r {
                Some(c) => extension_text(self.extensions@, "code"@) == Some(c@),
                None => extension_text(self.extensions@, "code"@) is None,
            },
    {
        let n = self.extensions.len();
        let mut i: usize = 0;
        assert(self.extensions@.skip(0) =~= self.extensions@);
        while i < n
            invariant
                n == self.extensions@.len(),
                i <= n,
                extension_text(self.extensions@, "code"@) == extension_text(
                    self.extensions@.skip(i as int),
                    "code"@,
                ),
            decreases n - i,
        {
            assert(self.extensions@.skip(i as int)[0] == self.extensions@[i as int]);
            assert(self.extensions@.skip(i as int).drop_first() =~= self.extensions@.skip(i + 1));
            if text::eq_str(self.extensions[i].0.as_str(), "code") {
                return match &self.extensions[i].1 {
                    Some(s) => Some(s.as_str()),
                    None => None,
                };
            }
            i += 1;
        }
        None
    }
}

/// Stock in one delivery channel.
pub struct ChannelStock {
    pub pool_name: Option<String>,
    pub stock: Option<Available>,
}

pub struct Available {
    pub available: Option<i64>,
}

pub struct TotalStock {
    pub total_available: Option<i64>,
}

pub struct LocationRef {
    pub location_id: Option<String>,
}

pub struct CncFulfilment {
    pub location_id: Option<String>,
    pub is_buddy_location: Option<bool>,
    pub stock: Option<Available>,
}

pub struct TradingHours {
    pub week_day: Option<String>,
    pub hours: Option<String>,
}

pub struct PostcodeData {
    pub suggestions: Vec<PostcodeSuggestion>,
}

pub struct PostcodeSuggestion {
    pub postcode: Option<String>,
    pub state: Option<String>,
    pub suburb: Option<String>,
    pub is_metro_region_for_free_shipping: Option<bool>,
}

/// What a `me { ... }` query answers.
pub struct MeData<T> {
    pub me: Option<T>,
}

pub struct VariantBody {
    pub sku: Option<String>,
    pub attributes: Vec<Attribute>,
}

/// A JSON value an object field may hold, where the value read from it is
/// only ever its text.
pub enum AttributeValue {
    Text(String),
    /// A number, as `serde_json` prints it.
    Number(String),
    Bool(bool),
    /// An object: for each of `label`, `value` and `key`, absent (`None`),
    /// or present with its text where it is a string.
    Object { label: Option<Option<String>>, value: Option<Option<String>>, key: Option<Option<String>> },
    /// Null or an array.
    Other,
}

/// One variant attribute.
pub struct Attribute {
    pub name: Option<String>,
    pub value: AttributeValue,
}

/// The text of a labelled object: the first of `label`, `value`, `key`
/// present, if it is a string.
pub open spec fn labelled_text(
    label: Option<Option<String>>,
    value: Option<Option<String>>,
    key: Option<Option<String>>,
) -> Option<Seq<char>> {
    let first = match label {
        Some(l) => Some(l),
        None => match value {
            Some(v) => Some(v),
            None => key,
        },
    };
    match first {
        Some(Some(s)) => Some(s@),
        _ => None,
    }
}

impl Attribute {
    pub open spec fn text_spec(&self) -> Option<Seq<char>> {
        match &self.value {
            AttributeValue::Text(s) => Some(s@),
            AttributeValue::Number(n) => Some(n@),
            AttributeValue::Bool(b) => Some(if *b { "true"@ } else { "false"@ }),
            AttributeValue::Object { label, value, key } => labelled_text(*label, *value, *key),
            AttributeValue::Other => None,
        }
    }

    /// The attribute's value as text, however it was written.
    pub fn text(&self) -> (r: Option<String>)
        ensures
            match r {
                Some(t) => self.text_spec() == Some(t@),
                None => self.text_spec() is None,
            },
    {
        match &self.value {
            AttributeValue::Text(s) => Some(s.clone()),
            AttributeValue::Number(n) => Some(n.clone()),
            AttributeValue::Bool(b) => Some(if *b { "true".to_owned() } else { "false".to_owned() }),
            AttributeValue::Object { label, value, key } => {
                let first = match label {
                    Some(l) => Some(l),
                    None => match value {
                        Some(v) => Some(v),
                        None => match key {
                            Some(k) => Some(k),
                            None => None,
                        },
                    },
                };
                match first {
                    Some(Some(s)) => Some(s.clone()),
                    _ => None,
                }
            },
            AttributeValue::Other => None,
        }
    }
}

pub struct CustomFields {
    pub fields: Option<CartLineFields>,
}

pub struct CartLineFields {
    pub seller_name: Option<String>,
}

pub struct ShippedItem {
    pub tracking_number: Option<String>,
    pub carrier: Option<String>,
    pub tracking_link: Option<String>,
}

pub struct CustomerData {
    pub customer: Option<CustomerBody>,
}

pub struct CustomerBody {
    pub id: Option<String>,
    pub email: Option<String>,
    pub first_name: Option<String>,
    pub last_name: Option<String>,
}

} // verus!
