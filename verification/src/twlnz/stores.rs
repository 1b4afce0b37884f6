//! Shops, and what they hold: the sixteen regions the store finder knows,
//! and the markup per-product stock arrives in.
use vstd::prelude::*;

use crate::netkit::jwt::{json_str_claim, json_valid, json_value, str_claim};
use crate::twlnz::domain::StoreStock;
use crate::twlnz::error::Error;
use crate::twlnz::extract::{panels_upto, selected, store_stock, store_stock_view, StoreStockView, STORE_PANEL};
use crate::text;
use crate::text::{eq_ignore_case_str, trim_str};

verus! {

/// The regions, as `(ISO 3166-2 code, name)`, in the finder's order.
pub open spec fn regions_spec() -> Seq<(Seq<char>, Seq<char>)> {
    seq![
        ("NZ-NTL"@, "Northland"@),
        ("NZ-AUK"@, "Auckland"@),
        ("NZ-WKO"@, "Waikato"@),
        ("NZ-BOP"@, "Bay of Plenty"@),
        ("NZ-GIS"@, "Gisborne"@),
        ("NZ-HKB"@, "Hawke's Bay"@),
        ("NZ-TKI"@, "Taranaki"@),
        ("NZ-MWT"@, "Manawatu-Whanganui"@),
        ("NZ-WGN"@, "Wellington"@),
        ("NZ-TAS"@, "Tasman"@),
        ("NZ-NSN"@, "Nelson"@),
        ("NZ-MBH"@, "Marlborough"@),
        ("NZ-WTC"@, "West Coast"@),
        ("NZ-CAN"@, "Canterbury"@),
        ("NZ-OTA"@, "Otago"@),
        ("NZ-STL"@, "Southland"@),
    ]
}

/// The regions the store finder knows, in its order.
pub fn regions() -> (r: [(&'static str, &'static str); 16])
    ensures
        r@.map_values(|e: (&str, &str)| (e.0@, e.1@)) == regions_spec(),
{
    let r = [
        ("NZ-NTL", "Northland"),
        ("NZ-AUK", "Auckland"),
        ("NZ-WKO", "Waikato"),
        ("NZ-BOP", "Bay of Plenty"),
        ("NZ-GIS", "Gisborne"),
        ("NZ-HKB", "Hawke's Bay"),
        ("NZ-TKI", "Taranaki"),
        ("NZ-MWT", "Manawatu-Whanganui"),
        ("NZ-WGN", "Wellington"),
        ("NZ-TAS", "Tasman"),
        ("NZ-NSN", "Nelson"),
        ("NZ-MBH", "Marlborough"),
        ("NZ-WTC", "West Coast"),
        ("NZ-CAN", "Canterbury"),
        ("NZ-OTA", "Otago"),
        ("NZ-STL", "Southland"),
    ];
    assert(r@.map_values(|e: (&str, &str)| (e.0@, e.1@)) =~= regions_spec());
    r
}

/// Whether `code` is one of the region codes, in any ASCII case.
pub fn is_region(code: &str) -> (r: bool)
    ensures
        r == (exists|i: int| 0 <= i < 16 && text::eq_ignore_case(#[trigger] regions_spec()[i].0, code@)),
{
    let table = regions();
    let mut i: usize = 0;
    while i < 16
        invariant
            i <= 16,
            table@.map_values(|e: (&str, &str)| (e.0@, e.1@)) == regions_spec(),
            forall|j: int| 0 <= j < i ==> !text::eq_ignore_case(#[trigger] regions_spec()[j].0, code@),
        decreases 16 - i,
    {
        assert(regions_spec()[i as int] == (table@[i as int].0@, table@[i as int].1@));
        if eq_ignore_case_str(table[i].0, code) {
            assert(text::eq_ignore_case(regions_spec()[i as int].0, code@));
            return true;
        }
        i += 1;
    }
    false
}

/// The first region whose code or name is `needle`, trimmed, in any ASCII
/// case.
pub open spec fn region_from(needle: Seq<char>, i: int) -> Option<Seq<char>>
    decreases 16 - i,
{
    if i < 0 || i >= 16 {
        None
    } else if text::eq_ignore_case(regions_spec()[i].0, needle) || text::eq_ignore_case(
        regions_spec()[i].1,
        needle,
    ) {
        Some(regions_spec()[i].0)
    } else {
        region_from(needle, i + 1)
    }
}

/// A region's code, by its code or its name.
pub fn region(needle: &str) -> (r: Option<&'static str>)
    ensures
        match r {
            Some(c) => region_from(text::trim(needle@), 0) == Some(c@),
            None => region_from(text::trim(needle@), 0) is None,
        },
{
    let n = trim_str(needle);
    let table = regions();
    let mut i: usize = 0;
    while i < 16
        invariant
            i <= 16,
            table@.map_values(|e: (&str, &str)| (e.0@, e.1@)) == regions_spec(),
            region_from(text::trim(needle@), 0) == region_from(n@, i as int),
            n@ == text::trim(needle@),
        decreases 16 - i,
    {
        assert(regions_spec()[i as int] == (table@[i as int].0@, table@[i as int].1@));
        if eq_ignore_case_str(table[i].0, n.as_str()) || eq_ignore_case_str(table[i].1, n.as_str()) {
            return Some(table[i].0);
        }
        i += 1;
    }
    None
}


/// The store-stock markup a body carries: under `modalTemplate`,
/// `stores` or `renderedRegionStores` -- one name per controller for the
/// same content -- the first that holds a string.
pub open spec fn stock_markup_of(body: Seq<u8>) -> Option<Seq<char>> {
    match json_str_claim(body, "modalTemplate"@) {
        Some(h) => Some(h),
        None => match json_str_claim(body, "stores"@) {
            Some(h) => Some(h),
            None => json_str_claim(body, "renderedRegionStores"@),
        },
    }
}

/// The store-stock markup out of a controller's answer: an error for a
/// body that is not JSON, and for one that carries no markup.
pub fn stock_markup(body: &str) -> (r: Result<String, Error>)
    ensures
        !json_valid(vstd::utf8::encode_utf8(body@)) ==> (r matches Err(Error::Decode { context, .. })
            && context@ == "parsing store stock"@),
        json_valid(vstd::utf8::encode_utf8(body@)) ==> (match stock_markup_of(
            vstd::utf8::encode_utf8(body@),
        ) {
            Some(h) => r matches Ok(m) && m@ == h,
            None => r matches Err(Error::NotInPage { what, .. }) && what@
                == "the store availability markup"@,
        }),
{
    let bytes = body.as_bytes();
    if json_value(bytes).is_err() {
        return Err(
            Error::Decode {
                context: "parsing store stock".to_owned(),
                detail: "not JSON".to_owned(),
            },
        );
    }
    if let Some(h) = str_claim(bytes, "modalTemplate") {
        return Ok(h);
    }
    if let Some(h) = str_claim(bytes, "stores") {
        return Ok(h);
    }
    if let Some(h) = str_claim(bytes, "renderedRegionStores") {
        return Ok(h);
    }
    Err(Error::not_in_page("the store availability markup".to_owned()))
}

/// What a stock modal's markup lists, panel by panel.
pub open spec fn stock_in(html: Seq<char>) -> Seq<StoreStockView> {
    panels_upto(html, selected(html, STORE_PANEL@, seq![]).len() as int)
}

/// Per-store stock, out of whichever field the endpoint used.
pub fn parse_stock(body: &str) -> (r: Result<Vec<StoreStock>, Error>)
    ensures
        !json_valid(vstd::utf8::encode_utf8(body@)) ==> (r matches Err(Error::Decode { context, .. })
            && context@ == "parsing store stock"@),
        json_valid(vstd::utf8::encode_utf8(body@)) ==> (match stock_markup_of(
            vstd::utf8::encode_utf8(body@),
        ) {
            Some(h) => r matches Ok(v) && v@.map_values(|s: StoreStock| store_stock_view(s)) == stock_in(h),
            None => r matches Err(Error::NotInPage { what, .. }) && what@
                == "the store availability markup"@,
        }),
{
    match stock_markup(body) {
        Ok(html) => Ok(store_stock(html.as_str())),
        Err(e) => Err(e),
    }
}

} // verus!
