//! What is read off the storefront's pages by their text alone: a product's
//! id out of its path, and the actions a product page authorises.
use vstd::prelude::*;

use crate::text;
use crate::twlnz::domain::{Availability, StoreStock};
use crate::kmart::endpoints::pair_views;
use crate::netkit::cookies::{entries_insert, CookieMap, Entries};
use crate::netkit::jwt::{json_str_claim, str_claim};
use crate::text::{chars_of, find_at, split_ranges, starts_with_str, contains_str, eq_str, line_ranges, pieces, ranges_within, replace_str, trim_end_str, trim_str, ends_with_str, index_in, rfind_char, string_range};

verus! {

/// The product id a product page's path ends in: the last segment before any
/// query or fragment, without its `.html`; none when it has no such ending or
/// nothing before it.
pub open spec fn pid_of(path: Seq<char>) -> Option<Seq<char>> {
    let end = match text::index_of(path, '?') {
        Some(q) => match text::index_of(path.take(q), '#') {
            Some(h) => h,
            None => q,
        },
        None => match text::index_of(path, '#') {
            Some(h) => h,
            None => path.len() as int,
        },
    };
    let p = path.take(end);
    let file = match text::rfind_char_in(p, '/', 0, p.len() as int) {
        Some(s) => p.subrange(s + 1, p.len() as int),
        None => p,
    };
    if text::ends_with(file, ".html"@) && file.len() > 5 {
        Some(file.take(file.len() - 5))
    } else {
        None
    }
}

/// `RM110164727-1M` out of `/p/young-original-nylon-swim-shorts/RM110164727-1M.html`.
///
/// Query first, then the extension: a tile links with a variation already
/// chosen, so stripping `.html` from the raw path would not match.
pub fn pid_from_path(path: &str) -> (r: Option<String>)
    ensures
        r.deep_view() == pid_of(path@),
{
    let v = chars_of(path);
    let n = v.len();
    let end = match index_in(&v, '?', 0, n) {
        Some(q) => match index_in(&v, '#', 0, q) {
            Some(h) => h,
            None => q,
        },
        None => match index_in(&v, '#', 0, n) {
            Some(h) => h,
            None => n,
        },
    };
    assert(v@.subrange(0, n as int) =~= v@);
    proof {
        match text::index_of(v@, '?') {
            Some(q) => {
                assert(v@.subrange(0, q) =~= v@.take(q));
            },
            None => {},
        }
    }
    let ghost p = v@.take(end as int);
    assert(v@.subrange(0, end as int) =~= p);
    proof {
        text::lemma_rfind_char_in(v@, '/', 0, end as int);
    }
    let start = match rfind_char(&v, '/', 0, end) {
        Some(s) => s + 1,
        None => 0,
    };
    proof {
        text::lemma_rfind_char_in(v@, '/', 0, end as int);
        text::lemma_rfind_char_in(p, '/', 0, end as int);
        match text::rfind_char_in(v@, '/', 0, end as int) {
            Some(s) => {
                assert(p.subrange(s + 1, p.len() as int) =~= v@.subrange(s + 1, end as int));
            },
            None => {
                assert(p =~= v@.subrange(0, end as int));
            },
        }
    }
    let file = string_range(&v, start, end);
    if ends_with_str(file.as_str(), ".html") && end - start > 5 {
        proof {
            reveal_strlit(".html");
            assert(file@.take(file@.len() - 5) =~= v@.subrange(start as int, end - 5));
        }
        Some(string_range(&v, start, end - 5))
    } else {
        proof {
            reveal_strlit(".html");
        }
        None
    }
}

/// The `verify`-bearing action URLs a product page was rendered with.
pub struct Actions {
    pub add_to_cart: Option<String>,
    pub add_to_wishlist: Option<String>,
    pub store_stock: Option<String>,
    pub shipping: Option<String>,
    pub set_region: Option<String>,
    /// The variation endpoint with no value chosen.
    pub variation: Option<String>,
}

impl Actions {
    /// Whether the page authorised nothing at all.
    pub fn is_empty(&self) -> (r: bool)
        ensures
            r == (self.add_to_cart is None && self.add_to_wishlist is None && self.store_stock is None
                && self.shipping is None && self.set_region is None && self.variation is None),
    {
        self.add_to_cart.is_none() && self.add_to_wishlist.is_none() && self.store_stock.is_none()
            && self.shipping.is_none() && self.set_region.is_none() && self.variation.is_none()
    }
}

/// The schema.org `Product` block a detail page carries: a second,
/// independent description of the same product.
pub struct LdProduct {
    pub name: Option<String>,
    pub description: Option<String>,
    pub sku: Option<String>,
    pub brand: Option<LdBrand>,
    pub offers: Option<LdOffer>,
    pub gtin13: Vec<String>,
    pub image: Vec<String>,
}

pub struct LdBrand {
    pub name: Option<String>,
}

pub struct LdOffer {
    pub price: Option<String>,
    pub currency: Option<String>,
    /// A schema.org URL: `http://schema.org/InStock`.
    pub availability: Option<String>,
}


// ------------------------------------------------------- the markup
//
// `scraper` parses the pages and matches the selectors; what is read off the
// elements it finds, and what that comes to, is decided here.

/// What is read off one element: the attributes asked for, in the order
/// asked, its text, and its classes as `scraper` lists them (sorted, without
/// repeats).
pub struct Element {
    pub attrs: Vec<Option<String>>,
    pub text: String,
    pub classes: Vec<String>,
}

pub type ElementView = (Seq<Option<Seq<char>>>, Seq<char>, Seq<Seq<char>>);

impl View for Element {
    type V = ElementView;

    open spec fn view(&self) -> ElementView {
        (
            self.attrs@.map_values(|a: Option<String>| a.deep_view()),
            self.text@,
            self.classes@.map_values(|c: String| c@),
        )
    }
}

pub open spec fn element_views(es: Seq<Element>) -> Seq<ElementView> {
    es.map_values(|e: Element| e@)
}

pub open spec fn nested_views(ls: Seq<Vec<Element>>) -> Seq<Seq<ElementView>> {
    ls.map_values(|es: Vec<Element>| element_views(es@))
}

pub open spec fn str_views(names: Seq<&str>) -> Seq<Seq<char>> {
    names.map_values(|n: &str| n@)
}

/// The elements `scraper` matches with `css` in `html` parsed as a fragment,
/// in document order, each read for the attributes `names`.
pub uninterp spec fn selected(html: Seq<char>, css: Seq<char>, names: Seq<Seq<char>>) -> Seq<ElementView>;

/// For each element `css` matches, the elements `inner` matches among its
/// descendants, each read for the attributes `names`.
pub uninterp spec fn selected_within(
    html: Seq<char>,
    css: Seq<char>,
    inner: Seq<char>,
    names: Seq<Seq<char>>,
) -> Seq<Seq<ElementView>>;

/// `Html::parse_fragment`, `Selector::parse` and `Html::select`, reading
/// `ElementRef::attr` for each name, `ElementRef::text` collected, and
/// `Element::classes`; nothing where the selector does not parse.
#[verifier::external_body]
fn select(html: &str, css: &str, names: &[&str]) -> (r: Vec<Element>)
    ensures
        element_views(r@) == selected(html@, css@, str_views(names@)),
        forall|k: int| 0 <= k < r@.len() ==> (#[trigger] r@[k]).attrs@.len() == names@.len(),
{
    let doc = scraper::Html::parse_fragment(html);
    let Ok(sel) = scraper::Selector::parse(css) else { return Vec::new() };
    doc.select(&sel).map(|e| Element {
        attrs: names.iter().map(|n| e.attr(n).map(str::to_string)).collect(),
        text: e.text().collect(),
        classes: e.value().classes().map(str::to_string).collect(),
    }).collect()
}

/// The elements `scraper` matches with `css` in `html` parsed as a whole
/// document, in document order, each read for the attributes `names`.
pub uninterp spec fn selected_document(html: Seq<char>, css: Seq<char>, names: Seq<Seq<char>>) -> Seq<ElementView>;

/// As [`select`], with `Html::parse_document` in place of
/// `Html::parse_fragment`.
#[verifier::external_body]
pub(crate) fn select_document(html: &str, css: &str, names: &[&str]) -> (r: Vec<Element>)
    ensures
        element_views(r@) == selected_document(html@, css@, str_views(names@)),
        forall|k: int| 0 <= k < r@.len() ==> (#[trigger] r@[k]).attrs@.len() == names@.len(),
{
    let doc = scraper::Html::parse_document(html);
    let Ok(sel) = scraper::Selector::parse(css) else { return Vec::new() };
    doc.select(&sel).map(|e| Element {
        attrs: names.iter().map(|n| e.attr(n).map(str::to_string)).collect(),
        text: e.text().collect(),
        classes: e.value().classes().map(str::to_string).collect(),
    }).collect()
}

/// As [`select`], then `ElementRef::select` with `inner` inside each match.
#[verifier::external_body]
fn select_within(html: &str, css: &str, inner: &str, names: &[&str]) -> (r: Vec<Vec<Element>>)
    ensures
        nested_views(r@) == selected_within(html@, css@, inner@, str_views(names@)),
        forall|k: int, m: int|
            0 <= k < r@.len() && 0 <= m < r@[k]@.len() ==> (#[trigger] r@[k]@[m]).attrs@.len()
                == names@.len(),
{
    let doc = scraper::Html::parse_fragment(html);
    let (Ok(outer), Ok(sel)) = (scraper::Selector::parse(css), scraper::Selector::parse(inner)) else { return Vec::new() };
    doc.select(&outer).map(|o| o.select(&sel).map(|e| Element {
        attrs: names.iter().map(|n| e.attr(n).map(str::to_string)).collect(),
        text: e.text().collect(),
        classes: e.value().classes().map(str::to_string).collect(),
    }).collect()).collect()
}

/// One step of a walk over a parsed fragment: entering or leaving an
/// element, a text node, or anything else.
pub enum Event {
    Open(String),
    Close(String),
    Text(String),
    Other,
}

pub enum EventView {
    Open(Seq<char>),
    Close(Seq<char>),
    Text(Seq<char>),
    Other,
}

pub open spec fn event_view(e: Event) -> EventView {
    match e {
        Event::Open(n) => EventView::Open(n@),
        Event::Close(n) => EventView::Close(n@),
        Event::Text(t) => EventView::Text(t@),
        Event::Other => EventView::Other,
    }
}

/// The walk `ego_tree`'s `traverse` makes over the root element of `html`
/// parsed as a fragment, the root's own opening and closing included.
pub uninterp spec fn parsed_events(html: Seq<char>) -> Seq<EventView>;

/// `Html::parse_fragment`, then `traverse` from `root_element`, each edge
/// told apart by the node it is on.
#[verifier::external_body]
fn events(html: &str) -> (r: Vec<Event>)
    ensures
        r@.map_values(|e: Event| event_view(e)) == parsed_events(html@),
{
    let doc = scraper::Html::parse_fragment(html);
    doc.root_element().traverse().map(|edge| match edge {
        ego_tree::iter::Edge::Open(n) => match n.value() {
            scraper::Node::Text(t) => Event::Text(t.to_string()),
            scraper::Node::Element(e) => Event::Open(e.name().to_string()),
            _ => Event::Other,
        },
        ego_tree::iter::Edge::Close(n) => match n.value() {
            scraper::Node::Element(e) => Event::Close(e.name().to_string()),
            _ => Event::Other,
        },
    }).collect()
}

// ------------------------------------------------------- actions

pub const ACTION_URL: &'static str = "[href], [url], [data-url], [data-href], input.add-to-cart-url";

/// Five attributes, because the site puts action URLs on whichever suits the
/// element: `href` on links, `url` on its custom elements, `value` on hidden
/// inputs, `data-url`/`data-href` on radio inputs and options.
pub open spec fn action_attrs() -> Seq<Seq<char>> {
    seq!["href"@, "url"@, "data-url"@, "data-href"@, "value"@]
}

/// Which action a URL is, by the endpoint it names: add to cart, wishlist,
/// store stock, shipping, region, variation -- and only one carrying a
/// `verify` token, and for variations only the bare one with no value chosen.
pub open spec fn slot_of(raw: Seq<char>) -> Option<int> {
    if !text::contains(raw, "verify="@) {
        None
    } else if text::contains(raw, "/cart/add-product"@) {
        Some(0)
    } else if text::contains(raw, "/wishlist-add-product"@) {
        Some(1)
    } else if text::contains(raw, "/products/stores"@) {
        Some(2)
    } else if text::contains(raw, "/products/shipping"@) {
        Some(3)
    } else if text::contains(raw, "/products/set-region"@) {
        Some(4)
    } else if text::contains(raw, "/products/variation"@) && !text::contains(raw, "dwvar_"@) {
        Some(5)
    } else {
        None
    }
}

/// The first of `values` that is action `k`.
pub open spec fn first_of_values(values: Seq<Option<Seq<char>>>, k: int) -> Option<Seq<char>>
    decreases values.len(),
{
    if values.len() == 0 {
        None
    } else {
        match first_of_values(values.drop_last(), k) {
            Some(x) => Some(x),
            None => match values.last() {
                Some(raw) if slot_of(raw) == Some(k) => Some(raw),
                _ => None,
            },
        }
    }
}

/// The first URL among `es`, in document order and then attribute order,
/// that is action `k`: a page repeats an action in several templates, with
/// the same token.
pub open spec fn first_action(es: Seq<ElementView>, k: int) -> Option<Seq<char>>
    decreases es.len(),
{
    if es.len() == 0 {
        None
    } else {
        match first_action(es.drop_last(), k) {
            Some(x) => Some(x),
            None => first_of_values(es.last().0, k),
        }
    }
}

fn slot(raw: &str) -> (r: Option<usize>)
    ensures
        match slot_of(raw@) {
            Some(k) => r == Some(k as usize),
            None => r is None,
        },
{
    if !contains_str(raw, "verify=") {
        None
    } else if contains_str(raw, "/cart/add-product") {
        Some(0)
    } else if contains_str(raw, "/wishlist-add-product") {
        Some(1)
    } else if contains_str(raw, "/products/stores") {
        Some(2)
    } else if contains_str(raw, "/products/shipping") {
        Some(3)
    } else if contains_str(raw, "/products/set-region") {
        Some(4)
    } else if contains_str(raw, "/products/variation") && !contains_str(raw, "dwvar_") {
        Some(5)
    } else {
        None
    }
}

impl Actions {
    pub open spec fn slot_view(&self, k: int) -> Option<Seq<char>> {
        if k == 0 {
            self.add_to_cart.deep_view()
        } else if k == 1 {
            self.add_to_wishlist.deep_view()
        } else if k == 2 {
            self.store_stock.deep_view()
        } else if k == 3 {
            self.shipping.deep_view()
        } else if k == 4 {
            self.set_region.deep_view()
        } else {
            self.variation.deep_view()
        }
    }

    fn fill(&mut self, k: usize, raw: &String)
        requires
            k < 6,
        ensures
            forall|j: int| 0 <= j < 6 && j != k ==> final(self).slot_view(j) == old(self).slot_view(j),
            final(self).slot_view(k as int) == (match old(self).slot_view(k as int) {
                Some(x) => Some(x),
                None => Some(raw@),
            }),
    {
        let slot = if k == 0 {
            &mut self.add_to_cart
        } else if k == 1 {
            &mut self.add_to_wishlist
        } else if k == 2 {
            &mut self.store_stock
        } else if k == 3 {
            &mut self.shipping
        } else if k == 4 {
            &mut self.set_region
        } else {
            &mut self.variation
        };
        if slot.is_none() {
            *slot = Some(raw.clone());
        }
    }
}

/// Scrape a product page for the actions it authorises: for each action,
/// the first URL on the page that names its endpoint and carries a token.
pub fn actions(html: &str) -> (a: Actions)
    ensures
        forall|k: int|
            0 <= k < 6 ==> #[trigger] a.slot_view(k) == first_action(
                selected(html@, ACTION_URL@, action_attrs()),
                k,
            ),
{
    let names: [&str; 5] = ["href", "url", "data-url", "data-href", "value"];
    assert(str_views(names@) =~= action_attrs());
    let found_in = select(html, ACTION_URL, &names);
    let ghost es = element_views(found_in@);
    let mut found = Actions {
        add_to_cart: None,
        add_to_wishlist: None,
        store_stock: None,
        shipping: None,
        set_region: None,
        variation: None,
    };
    let n = found_in.len();
    let mut i: usize = 0;
    while i < n
        invariant
            n == found_in@.len(),
            es == element_views(found_in@),
            i <= n,
            forall|k: int| 0 <= k < 6 ==> #[trigger] found.slot_view(k) == first_action(es.take(i as int), k),
        decreases n - i,
    {
        let attrs = &found_in[i].attrs;
        let ghost vals = es[i as int].0;
        assert(vals == attrs@.map_values(|a: Option<String>| a.deep_view()));
        assert(es.take(i + 1).drop_last() =~= es.take(i as int));
        let m = attrs.len();
        let mut j: usize = 0;
        while j < m
            invariant
                m == attrs@.len(),
                vals == attrs@.map_values(|a: Option<String>| a.deep_view()),
                j <= m,
                forall|k: int| 0 <= k < 6 ==> #[trigger] found.slot_view(k) == (match first_action(es.take(i as int), k) {
                    Some(x) => Some(x),
                    None => first_of_values(vals.take(j as int), k),
                }),
            decreases m - j,
        {
            assert(vals.take(j + 1).drop_last() =~= vals.take(j as int));
            match &attrs[j] {
                Some(raw) => {
                    match slot(raw.as_str()) {
                        Some(k) => {
                            found.fill(k, raw);
                        },
                        None => {},
                    }
                },
                None => {},
            }
            j += 1;
        }
        assert(vals.take(m as int) =~= vals);
        i += 1;
    }
    assert(es.take(n as int) =~= es);
    found
}


// ------------------------------------------------------- descriptions as prose

/// Elements that start on a line of their own.
pub open spec fn block_element(name: Seq<char>) -> bool {
    name == "p"@ || name == "div"@ || name == "br"@ || name == "h1"@ || name == "h2"@ || name == "h3"@
        || name == "h4"@ || name == "h5"@ || name == "h6"@ || name == "ul"@ || name == "ol"@
}

/// What entering an element writes: a bullet for a list item, a line break
/// for a block.
pub open spec fn opening(name: Seq<char>) -> Seq<char> {
    if name == "li"@ {
        "\n  - "@
    } else if block_element(name) {
        "\n"@
    } else {
        seq![]
    }
}

/// What leaving an element writes: a line break, but after a `br` or a list
/// item, whose break came first.
pub open spec fn closing(name: Seq<char>) -> Seq<char> {
    if name == "br"@ || name == "li"@ {
        seq![]
    } else {
        "\n"@
    }
}

/// The text a walk writes, and how deep it is inside a `script` or `style`,
/// whose contents are skipped. Newlines inside text are formatting in the
/// source, not meaning, and become spaces.
pub open spec fn rendered(evs: Seq<EventView>) -> (nat, Seq<char>)
    decreases evs.len(),
{
    if evs.len() == 0 {
        (0, seq![])
    } else {
        let (skip, out) = rendered(evs.drop_last());
        match evs.last() {
            EventView::Open(name) => if skip > 0 {
                ((skip + 1) as nat, out)
            } else if name == "script"@ || name == "style"@ {
                (1, out)
            } else {
                (0, out + opening(name))
            },
            EventView::Close(name) => if skip > 0 {
                ((skip - 1) as nat, out)
            } else {
                (0, out + closing(name))
            },
            EventView::Text(t) => if skip > 0 {
                (skip, out)
            } else {
                (0, out + text::replace(t, "\n"@, " "@))
            },
            EventView::Other => (skip, out),
        }
    }
}

/// The walk without the root element's own opening and closing.
pub open spec fn inside_root(evs: Seq<EventView>) -> Seq<EventView> {
    if evs.len() >= 2 {
        evs.subrange(1, evs.len() - 1)
    } else {
        seq![]
    }
}

/// Lines with their trailing whitespace gone and each run of blank lines
/// folded into one.
pub open spec fn collapsed(ls: Seq<Seq<char>>) -> Seq<Seq<char>>
    decreases ls.len(),
{
    if ls.len() == 0 {
        seq![]
    } else {
        let kept = collapsed(ls.drop_last());
        let line = text::trim_end(ls.last());
        if line.len() == 0 && kept.len() > 0 && kept.last().len() == 0 {
            kept
        } else {
            kept.push(line)
        }
    }
}

/// Lines joined with `\n`.
pub open spec fn joined_lines(ls: Seq<Seq<char>>) -> Seq<char>
    decreases ls.len(),
{
    if ls.len() == 0 {
        seq![]
    } else if ls.len() == 1 {
        ls[0]
    } else {
        joined_lines(ls.drop_last()) + "\n"@ + ls.last()
    }
}

/// A fragment of HTML as prose: block elements become line breaks, list
/// items bullets, scripts and styles vanish, runs of blank lines fold into
/// one, and the whole is trimmed.
pub open spec fn prose(html: Seq<char>) -> Seq<char> {
    text::trim(joined_lines(collapsed(text::lines(rendered(inside_root(parsed_events(html))).1))))
}

fn is_block(name: &str) -> (r: bool)
    ensures
        r == block_element(name@),
{
    eq_str(name, "p") || eq_str(name, "div") || eq_str(name, "br") || eq_str(name, "h1") || eq_str(name, "h2")
        || eq_str(name, "h3") || eq_str(name, "h4") || eq_str(name, "h5") || eq_str(name, "h6") || eq_str(name, "ul")
        || eq_str(name, "ol")
}

fn opening_text(name: &str) -> (r: &'static str)
    ensures
        r@ == opening(name@),
{
    if eq_str(name, "li") {
        "\n  - "
    } else if is_block(name) {
        "\n"
    } else {
        proof {
            reveal_strlit("");
        }
        ""
    }
}

fn closing_text(name: &str) -> (r: &'static str)
    ensures
        r@ == closing(name@),
{
    if eq_str(name, "br") || eq_str(name, "li") {
        proof {
            reveal_strlit("");
        }
        ""
    } else {
        "\n"
    }
}

fn write_events(evs: &Vec<Event>) -> (r: String)
    ensures
        r@ == rendered(inside_root(evs@.map_values(|e: Event| event_view(e)))).1,
{
    let ghost all = evs@.map_values(|e: Event| event_view(e));
    let ghost inner = inside_root(all);
    let mut out = String::new();
    if evs.len() < 2 {
        return out;
    }
    let end = evs.len() - 1;
    let mut skip: usize = 0;
    let mut i: usize = 1;
    while i < end
        invariant
            all == evs@.map_values(|e: Event| event_view(e)),
            end + 1 == evs@.len(),
            inner == all.subrange(1, all.len() - 1),
            1 <= i <= end,
            skip <= i,
            rendered(inner.take(i - 1)) == (skip as nat, out@),
        decreases end - i,
    {
        let ghost before = out@;
        let ghost prev = skip;
        assert(inner.take(i as int).drop_last() =~= inner.take(i - 1));
        assert(inner.take(i as int).last() == all[i as int]);
        assert(all[i as int] == event_view(evs@[i as int]));
        match &evs[i] {
            Event::Open(name) => {
                if skip > 0 {
                    skip = skip + 1;
                } else if eq_str(name.as_str(), "script") || eq_str(name.as_str(), "style") {
                    skip = 1;
                } else {
                    out.append(opening_text(name.as_str()));
                }
            },
            Event::Close(name) => {
                if skip > 0 {
                    skip = skip - 1;
                } else {
                    out.append(closing_text(name.as_str()));
                }
            },
            Event::Text(t) => {
                if skip == 0 {
                    proof {
                        reveal_strlit("\n");
                    }
                    let flat = replace_str(t.as_str(), "\n", " ");
                    out.append(flat.as_str());
                }
            },
            Event::Other => {},
        }
        assert(rendered(inner.take(i as int)) == (skip as nat, out@));
        i += 1;
    }
    assert(inner.take(end - 1) =~= inner);
    out
}

/// A description as prose, so a fragment of HTML -- headings, a list of
/// features -- reads in a terminal: see [`prose`].
pub fn plain_text(html: &str) -> (r: String)
    ensures
        r@ == prose(html@),
{
    let evs = events(html);
    let out = write_events(&evs);
    let v = chars_of(out.as_str());
    let ranges = line_ranges(&v);
    let ghost ls = text::lines(out@);
    let mut kept: Vec<String> = Vec::new();
    let n = ranges.len();
    let mut i: usize = 0;
    while i < n
        invariant
            n == ranges@.len(),
            v@ == out@,
            pieces(v@, ranges@) == ls,
            ranges_within(ranges@, 0, v@.len() as int),
            i <= n,
            kept@.map_values(|k: String| k@) == collapsed(ls.take(i as int)),
        decreases n - i,
    {
        let (a, b) = ranges[i];
        let piece = string_range(&v, a, b);
        assert(piece@ == ls[i as int]);
        let line = trim_end_str(piece.as_str());
        assert(ls.take(i + 1).drop_last() =~= ls.take(i as int));
        assert(ls.take(i + 1).last() == ls[i as int]);
        let k = kept.len();
        if line.as_str().is_empty() && k > 0 && kept[k - 1].as_str().is_empty() {
        } else {
            let ghost before = kept@.map_values(|k: String| k@);
            kept.push(line);
            assert(kept@.map_values(|k: String| k@) =~= before.push(line@));
        }
        i += 1;
    }
    assert(ls.take(n as int) =~= ls);
    let ghost views = kept@.map_values(|k: String| k@);
    let mut joined = String::new();
    let m = kept.len();
    let mut j: usize = 0;
    while j < m
        invariant
            m == kept@.len(),
            views == kept@.map_values(|k: String| k@),
            j <= m,
            joined@ == joined_lines(views.take(j as int)),
        decreases m - j,
    {
        if j > 0 {
            joined.append("\n");
        }
        joined.append(kept[j].as_str());
        assert(views.take(j + 1).drop_last() =~= views.take(j as int));
        if j == 0 {
            assert(views.take(0).len() == 0);
        }
        j += 1;
    }
    assert(views.take(m as int) =~= views);
    trim_str(joined.as_str())
}


// ------------------------------------------------------- listing tiles

pub const TILE: &'static str = "div.product-tile";
pub const TILE_LINK: &'static str = "a.link, section.product-tile-image a[href]";
pub const TILE_IMAGE: &'static str = "img.tile-image";
pub const TILE_PRICE: &'static str = "div.price";
pub const TILE_WAS: &'static str = "div.strike-through, span.strike-through, del";
pub const TILE_STOCK: &'static str = "div.availability-stock-status";
pub const TILE_RATING: &'static str = "div.ratings [data-rating], div.ratings .rating-value";

/// One field of a JSON object, as `serde_json` found it.
pub enum Scalar {
    Text(String),
    /// A number, as `serde_json` writes it back.
    Number(String),
    Bool(bool),
    Other,
}

pub enum ScalarView {
    Text(Seq<char>),
    Number(Seq<char>),
    Bool(bool),
    Other,
}

pub open spec fn scalar_view(s: Scalar) -> ScalarView {
    match s {
        Scalar::Text(t) => ScalarView::Text(t@),
        Scalar::Number(n) => ScalarView::Number(n@),
        Scalar::Bool(b) => ScalarView::Bool(b),
        Scalar::Other => ScalarView::Other,
    }
}

/// The field `key` of the JSON object `raw`, by `serde_json`: none where
/// `raw` is not an object or lacks it.
pub uninterp spec fn json_field(raw: Seq<char>, key: Seq<char>) -> Option<ScalarView>;

/// `serde_json::from_str` into a `Map`, `Map::get`, and the value told apart
/// by its variant; a number written back with `Number::to_string`.
#[verifier::external_body]
fn field(raw: &str, key: &str) -> (r: Option<Scalar>)
    ensures
        match r {
            Some(v) => json_field(raw@, key@) == Some(scalar_view(v)),
            None => json_field(raw@, key@) is None,
        },
{
    let map: serde_json::Map<String, serde_json::Value> = serde_json::from_str(raw).ok()?;
    Some(match map.get(key)? {
        serde_json::Value::String(s) => Scalar::Text(s.clone()),
        serde_json::Value::Number(n) => Scalar::Number(n.to_string()),
        serde_json::Value::Bool(b) => Scalar::Bool(*b),
        _ => Scalar::Other,
    })
}

/// A tracking field as text, whatever it was written as; the site writes
/// `na` where a value is absent, so that, `undefined` and blank mean nothing.
pub open spec fn gtm_str(raw: Seq<char>, key: Seq<char>) -> Option<Seq<char>> {
    let t = match json_field(raw, key) {
        Some(ScalarView::Text(s)) => Some(text::trim(s)),
        Some(ScalarView::Number(n)) => Some(text::trim(n)),
        _ => None,
    };
    match t {
        Some(t) => if t.len() == 0 || t == "na"@ || t == "undefined"@ {
            None
        } else {
            Some(t)
        },
        None => None,
    }
}

/// The first of several names for one field.
pub open spec fn gtm_any(raw: Seq<char>, keys: Seq<Seq<char>>) -> Option<Seq<char>>
    decreases keys.len(),
{
    if keys.len() == 0 {
        None
    } else {
        match gtm_str(raw, keys[0]) {
            Some(v) => Some(v),
            None => gtm_any(raw, keys.drop_first()),
        }
    }
}

/// A tracking flag: a boolean, or the text `true` or `false`.
pub open spec fn gtm_flag(raw: Seq<char>, key: Seq<char>) -> Option<bool> {
    match json_field(raw, key) {
        Some(ScalarView::Bool(b)) => Some(b),
        Some(ScalarView::Text(s)) => if s == "true"@ {
            Some(true)
        } else if s == "false"@ {
            Some(false)
        } else {
            None
        },
        _ => None,
    }
}

fn gtm_text(raw: &str, key: &str) -> (r: Option<String>)
    ensures
        r.deep_view() == gtm_str(raw@, key@),
{
    let t = match field(raw, key) {
        Some(Scalar::Text(s)) => trim_str(s.as_str()),
        Some(Scalar::Number(n)) => trim_str(n.as_str()),
        _ => return None,
    };
    if t.as_str().is_empty() || eq_str(t.as_str(), "na") || eq_str(t.as_str(), "undefined") {
        None
    } else {
        Some(t)
    }
}

fn gtm_first(raw: &str, a: &str, b: &str) -> (r: Option<String>)
    ensures
        r.deep_view() == gtm_any(raw@, seq![a@, b@]),
{
    assert(seq![a@, b@].drop_first() =~= seq![b@]);
    assert(seq![b@].drop_first() =~= Seq::<Seq<char>>::empty());
    reveal_with_fuel(gtm_any, 3);
    match gtm_text(raw, a) {
        Some(v) => Some(v),
        None => gtm_text(raw, b),
    }
}

fn gtm_bool(raw: &str, key: &str) -> (r: Option<bool>)
    ensures
        r == gtm_flag(raw@, key@),
{
    match field(raw, key) {
        Some(Scalar::Bool(b)) => Some(b),
        Some(Scalar::Text(s)) => if eq_str(s.as_str(), "true") {
            Some(true)
        } else if eq_str(s.as_str(), "false") {
            Some(false)
        } else {
            None
        },
        _ => None,
    }
}

/// The list at `i`, or nothing.
pub open spec fn nth(ls: Seq<Seq<ElementView>>, i: int) -> Seq<ElementView> {
    if 0 <= i < ls.len() {
        ls[i]
    } else {
        seq![]
    }
}

/// The first of `es` carrying its `j`th attribute, and that attribute.
pub open spec fn first_attr(es: Seq<ElementView>, j: int) -> Option<Seq<char>>
    decreases es.len(),
{
    if es.len() == 0 {
        None
    } else {
        match es[0].0[j] {
            Some(v) => Some(v),
            None => first_attr(es.drop_first(), j),
        }
    }
}

/// The first of `es` whose text, trimmed, is not blank, trimmed.
pub open spec fn first_text(es: Seq<ElementView>) -> Option<Seq<char>>
    decreases es.len(),
{
    if es.len() == 0 {
        None
    } else if text::trim(es[0].1).len() > 0 {
        Some(text::trim(es[0].1))
    } else {
        first_text(es.drop_first())
    }
}

/// Every `j`th attribute present among `es`, in order.
pub open spec fn present_attrs(es: Seq<ElementView>, j: int) -> Seq<Seq<char>>
    decreases es.len(),
{
    if es.len() == 0 {
        seq![]
    } else {
        let rest = present_attrs(es.drop_first(), j);
        match es[0].0[j] {
            Some(v) => seq![v] + rest,
            None => rest,
        }
    }
}

fn first_attr_at(ls: &Vec<Vec<Element>>, i: usize, j: usize) -> (r: Option<String>)
    requires
        forall|k: int, m: int|
            0 <= k < ls@.len() && 0 <= m < ls@[k]@.len() ==> j < (#[trigger] ls@[k]@[m]).attrs@.len(),
    ensures
        r.deep_view() == first_attr(nth(nested_views(ls@), i as int), j as int),
{
    if i >= ls.len() {
        return None;
    }
    assert(nth(nested_views(ls@), i as int) == element_views(ls@[i as int]@));
    first_attr_in(&ls[i], j)
}

/// The first of `es` carrying its `j`th attribute, and that attribute.
pub(crate) fn first_attr_in(es: &Vec<Element>, j: usize) -> (r: Option<String>)
    requires
        forall|m: int| 0 <= m < es@.len() ==> j < (#[trigger] es@[m]).attrs@.len(),
    ensures
        r.deep_view() == first_attr(element_views(es@), j as int),
{
    let ghost vs = element_views(es@);
    let n = es.len();
    let mut k: usize = 0;
    assert(vs.skip(0) =~= vs);
    while k < n
        invariant
            n == es@.len(),
            vs == element_views(es@),
            forall|m: int| 0 <= m < n ==> j < (#[trigger] es@[m]).attrs@.len(),
            k <= n,
            first_attr(vs, j as int) == first_attr(vs.skip(k as int), j as int),
        decreases n - k,
    {
        assert(vs.skip(k as int)[0] == vs[k as int]);
        assert(vs.skip(k as int).drop_first() =~= vs.skip(k + 1));
        assert(vs[k as int].0[j as int] == es@[k as int].attrs@[j as int].deep_view());
        match &es[k].attrs[j] {
            Some(v) => {
                let r = v.clone();
                assert(vs.skip(k as int).len() > 0);
                assert(first_attr(vs.skip(k as int), j as int) == Some(r@));
                return Some(r);
            },
            None => {},
        }
        k += 1;
    }
    None
}

fn first_text_at(ls: &Vec<Vec<Element>>, i: usize) -> (r: Option<String>)
    ensures
        r.deep_view() == first_text(nth(nested_views(ls@), i as int)),
{
    if i >= ls.len() {
        return None;
    }
    assert(nth(nested_views(ls@), i as int) == element_views(ls@[i as int]@));
    first_text_in(&ls[i])
}

/// The first of `es` whose text, trimmed, is not blank, trimmed.
pub(crate) fn first_text_in(es: &Vec<Element>) -> (r: Option<String>)
    ensures
        r.deep_view() == first_text(element_views(es@)),
{
    let ghost vs = element_views(es@);
    let n = es.len();
    let mut k: usize = 0;
    assert(vs.skip(0) =~= vs);
    while k < n
        invariant
            n == es@.len(),
            vs == element_views(es@),
            k <= n,
            first_text(vs) == first_text(vs.skip(k as int)),
        decreases n - k,
    {
        assert(vs.skip(k as int)[0] == vs[k as int]);
        assert(vs.skip(k as int).drop_first() =~= vs.skip(k + 1));
        let t = trim_str(es[k].text.as_str());
        assert(vs[k as int].1 == es@[k as int].text@);
        if !t.as_str().is_empty() {
            assert(vs.skip(k as int).len() > 0);
            assert(first_text(vs.skip(k as int)) == Some(t@));
            return Some(t);
        }
        k += 1;
    }
    None
}

fn present_attrs_at(ls: &Vec<Vec<Element>>, i: usize, j: usize) -> (r: Vec<String>)
    requires
        forall|k: int, m: int|
            0 <= k < ls@.len() && 0 <= m < ls@[k]@.len() ==> j < (#[trigger] ls@[k]@[m]).attrs@.len(),
    ensures
        r@.map_values(|s: String| s@) == present_attrs(nth(nested_views(ls@), i as int), j as int),
{
    let mut out: Vec<String> = Vec::new();
    if i >= ls.len() {
        return out;
    }
    let es = &ls[i];
    let ghost vs = element_views(es@);
    assert(nth(nested_views(ls@), i as int) == vs);
    let n = es.len();
    let mut k: usize = n;
    assert(vs.skip(n as int).len() == 0);
    while k > 0
        invariant
            n == es@.len(),
            vs == element_views(es@),
            forall|m: int| 0 <= m < n ==> j < (#[trigger] es@[m]).attrs@.len(),
            k <= n,
            out@.map_values(|s: String| s@).reverse() == present_attrs(vs.skip(k as int), j as int),
        decreases k,
    {
        k -= 1;
        assert(vs.skip(k as int)[0] == vs[k as int]);
        assert(vs.skip(k as int).drop_first() =~= vs.skip(k + 1));
        assert(vs[k as int].0[j as int] == es@[k as int].attrs@[j as int].deep_view());
        match &es[k].attrs[j] {
            Some(v) => {
                let ghost before = out@.map_values(|s: String| s@);
                out.push(v.clone());
                assert(out@.map_values(|s: String| s@) =~= before.push(v@));
                assert(before.push(v@).reverse() =~= seq![v@] + before.reverse());
            },
            None => {},
        }
    }
    assert(vs.skip(0) =~= vs);
    let ghost backwards = out@.map_values(|s: String| s@);
    let mut fwd: Vec<String> = Vec::new();
    let mut m: usize = out.len();
    while m > 0
        invariant
            m <= out@.len(),
            backwards == out@.map_values(|s: String| s@),
            fwd@.map_values(|s: String| s@) == backwards.reverse().take(out@.len() - m),
        decreases m,
    {
        m -= 1;
        let ghost before = fwd@.map_values(|s: String| s@);
        fwd.push(out[m].clone());
        assert(fwd@.map_values(|s: String| s@) =~= before.push(backwards[m as int]));
        assert(backwards.reverse().take(out@.len() - m) =~= backwards.reverse().take(out@.len() - m - 1).push(
            backwards[m as int],
        ));
    }
    assert(backwards.reverse().take(out@.len() as int) =~= backwards.reverse());
    fwd
}

pub type AvailabilityView = (Option<Seq<char>>, Option<bool>, Option<bool>, Option<Seq<char>>);

pub open spec fn availability_view(a: Availability) -> AvailabilityView {
    (a.status.deep_view(), a.online, a.in_store, a.label.deep_view())
}

/// The tile's own stock marker, which is structured rather than prose:
/// `data-stock-status="IN_STOCK" data-orderable="true"`. "Find in store"
/// is orderable, but not online: the one boolean is read against the
/// status to say which channel.
pub open spec fn stock_marker(stock: Seq<ElementView>) -> AvailabilityView {
    if stock.len() == 0 {
        (None, None, None, None)
    } else {
        let node = stock[0];
        let status = node.0[0];
        let orderable = match node.0[1] {
            Some(v) => Some(v == "true"@),
            None => None,
        };
        let find_in_store = match status {
            Some(s) => Some(s == "FIND_IN_STORE"@),
            None => None,
        };
        let both = orderable == Some(true) && find_in_store == Some(true);
        let t = text::trim(node.1);
        (
            status,
            if both { Some(false) } else { orderable },
            if both { Some(true) } else if orderable == Some(false) { Some(false) } else { None },
            if t.len() == 0 { None } else { Some(t) },
        )
    }
}

fn stock_at(ls: &Vec<Vec<Element>>, i: usize) -> (a: Availability)
    requires
        forall|k: int, m: int|
            0 <= k < ls@.len() && 0 <= m < ls@[k]@.len() ==> 2 == (#[trigger] ls@[k]@[m]).attrs@.len(),
    ensures
        availability_view(a) == stock_marker(nth(nested_views(ls@), i as int)),
{
    if i >= ls.len() || ls[i].len() == 0 {
        return Availability { status: None, online: None, in_store: None, label: None };
    }
    let node = &ls[i][0];
    let status = node.attrs[0].clone();
    let orderable = match &node.attrs[1] {
        Some(v) => Some(eq_str(v.as_str(), "true")),
        None => None,
    };
    let find_in_store = match &status {
        Some(s) => Some(eq_str(s.as_str(), "FIND_IN_STORE")),
        None => None,
    };
    let both = orderable == Some(true) && find_in_store == Some(true);
    let t = trim_str(node.text.as_str());
    Availability {
        status,
        online: if both { Some(false) } else { orderable },
        in_store: if both { Some(true) } else if orderable == Some(false) { Some(false) } else { None },
        label: if t.as_str().is_empty() { None } else { Some(t) },
    }
}


/// A listing tile, as its markup and tracking payload describe it. The
/// money is kept as the text it arrived as: what it is as a number is the
/// caller's to read.
pub struct Tile {
    /// The id that addresses the product: the link's, else the variation
    /// group's, else the wrapper's `data-pid`, else the master's.
    pub id: String,
    /// The master id the tracking payload names.
    pub master_id: Option<String>,
    pub name: String,
    pub brand: Option<String>,
    pub ean: Option<String>,
    /// The displayed price, preferred: it is what a person sees.
    pub shown_price: Option<String>,
    /// The tracking payload's price.
    pub tracked_price: Option<String>,
    /// The crossed-out price, as displayed.
    pub was_price: Option<String>,
    /// The tracking payload's rating.
    pub tracked_rating: Option<String>,
    /// Each `data-rating` on the tile's rating markup, in order.
    pub rating_marks: Vec<String>,
    pub category: Option<String>,
    pub url: Option<String>,
    pub image: Option<String>,
    pub availability: Availability,
    /// Sold by a third party through The Warehouse.
    pub marketplace: bool,
}

pub struct TileView {
    pub id: Seq<char>,
    pub master_id: Option<Seq<char>>,
    pub name: Seq<char>,
    pub brand: Option<Seq<char>>,
    pub ean: Option<Seq<char>>,
    pub shown_price: Option<Seq<char>>,
    pub tracked_price: Option<Seq<char>>,
    pub was_price: Option<Seq<char>>,
    pub tracked_rating: Option<Seq<char>>,
    pub rating_marks: Seq<Seq<char>>,
    pub category: Option<Seq<char>>,
    pub url: Option<Seq<char>>,
    pub image: Option<Seq<char>>,
    pub availability: AvailabilityView,
    pub marketplace: bool,
}

impl View for Tile {
    type V = TileView;

    open spec fn view(&self) -> TileView {
        TileView {
            id: self.id@,
            master_id: self.master_id.deep_view(),
            name: self.name@,
            brand: self.brand.deep_view(),
            ean: self.ean.deep_view(),
            shown_price: self.shown_price.deep_view(),
            tracked_price: self.tracked_price.deep_view(),
            was_price: self.was_price.deep_view(),
            tracked_rating: self.tracked_rating.deep_view(),
            rating_marks: self.rating_marks@.map_values(|s: String| s@),
            category: self.category.deep_view(),
            url: self.url.deep_view(),
            image: self.image.deep_view(),
            availability: availability_view(self.availability),
            marketplace: self.marketplace,
        }
    }
}

/// What one tile's markup comes to; nothing for a tile with neither an id
/// nor a name to show.
pub open spec fn tile_at(html: Seq<char>, outer: ElementView, i: int) -> Option<TileView> {
    let gtm = match outer.0[0] {
        Some(r) => r,
        None => "{}"@,
    };
    let links = nth(selected_within(html, TILE@, TILE_LINK@, seq!["href"@]), i);
    let href = first_attr(links, 0);
    let master = gtm_str(gtm, "id"@);
    let from_link = match href {
        Some(h) => pid_of(h),
        None => None,
    };
    let id = match from_link {
        Some(p) => Some(p),
        None => match gtm_any(gtm, seq!["variationGroupId"@, "variationProductId"@]) {
            Some(v) => Some(v),
            None => match outer.0[1] {
                Some(p) => Some(p),
                None => master,
            },
        },
    };
    let name = match gtm_str(gtm, "name"@) {
        Some(n) => Some(n),
        None => first_text(links),
    };
    match (id, name) {
        (Some(id), Some(name)) => Some(
            TileView {
                id,
                master_id: master,
                name,
                brand: gtm_str(gtm, "brand"@),
                ean: gtm_str(gtm, "productEAN"@),
                shown_price: first_text(nth(selected_within(html, TILE@, TILE_PRICE@, seq![]), i)),
                tracked_price: gtm_str(gtm, "price"@),
                was_price: first_text(nth(selected_within(html, TILE@, TILE_WAS@, seq![]), i)),
                tracked_rating: gtm_str(gtm, "productRating"@),
                rating_marks: present_attrs(
                    nth(selected_within(html, TILE@, TILE_RATING@, seq!["data-rating"@]), i),
                    0,
                ),
                category: gtm_str(gtm, "category"@),
                url: href,
                image: first_attr(nth(selected_within(html, TILE@, TILE_IMAGE@, seq!["src"@]), i), 0),
                availability: stock_marker(
                    nth(
                        selected_within(html, TILE@, TILE_STOCK@, seq!["data-stock-status"@, "data-orderable"@]),
                        i,
                    ),
                ),
                marketplace: gtm_flag(gtm, "marketplaceProduct"@) == Some(true),
            },
        ),
        _ => None,
    }
}

/// The tiles among the first `n` the page carries.
pub open spec fn tiles_upto(html: Seq<char>, outers: Seq<ElementView>, n: int) -> Seq<TileView>
    decreases n,
{
    if n <= 0 {
        seq![]
    } else {
        let before = tiles_upto(html, outers, n - 1);
        match tile_at(html, outers[n - 1], n - 1) {
            Some(t) => before.push(t),
            None => before,
        }
    }
}

/// Every product tile in a listing page or an `updategrid` fragment.
pub open spec fn tiles_of(html: Seq<char>) -> Seq<TileView> {
    let outers = selected(html, TILE@, seq!["data-gtm-product"@, "data-pid"@]);
    tiles_upto(html, outers, outers.len() as int)
}

/// Every product tile in a listing page or an `updategrid` fragment: one
/// reading for both, the fragment being the same markup as the grid inside
/// a full page.
pub fn tiles(html: &str) -> (r: Vec<Tile>)
    ensures
        r@.map_values(|t: Tile| t@) == tiles_of(html@),
{
    let outer_names: [&str; 2] = ["data-gtm-product", "data-pid"];
    let href: [&str; 1] = ["href"];
    let src: [&str; 1] = ["src"];
    let none: [&str; 0] = [];
    let rating: [&str; 1] = ["data-rating"];
    let stock_names: [&str; 2] = ["data-stock-status", "data-orderable"];
    assert(str_views(outer_names@) =~= seq!["data-gtm-product"@, "data-pid"@]);
    assert(str_views(href@) =~= seq!["href"@]);
    assert(str_views(src@) =~= seq!["src"@]);
    assert(str_views(none@) =~= Seq::<Seq<char>>::empty());
    assert(str_views(rating@) =~= seq!["data-rating"@]);
    assert(str_views(stock_names@) =~= seq!["data-stock-status"@, "data-orderable"@]);
    let outers = select(html, TILE, &outer_names);
    let links = select_within(html, TILE, TILE_LINK, &href);
    let images = select_within(html, TILE, TILE_IMAGE, &src);
    let prices = select_within(html, TILE, TILE_PRICE, &none);
    let wases = select_within(html, TILE, TILE_WAS, &none);
    let ratings = select_within(html, TILE, TILE_RATING, &rating);
    let stocks = select_within(html, TILE, TILE_STOCK, &stock_names);
    let ghost os = element_views(outers@);
    let mut out: Vec<Tile> = Vec::new();
    let n = outers.len();
    let mut i: usize = 0;
    while i < n
        invariant
            n == outers@.len(),
            os == element_views(outers@),
            os == selected(html@, TILE@, seq!["data-gtm-product"@, "data-pid"@]),
            forall|k: int| 0 <= k < n ==> (#[trigger] outers@[k]).attrs@.len() == 2,
            nested_views(links@) == selected_within(html@, TILE@, TILE_LINK@, seq!["href"@]),
            forall|k: int, m: int| 0 <= k < links@.len() && 0 <= m < links@[k]@.len() ==> (#[trigger] links@[k]@[m]).attrs@.len() == 1,
            nested_views(images@) == selected_within(html@, TILE@, TILE_IMAGE@, seq!["src"@]),
            forall|k: int, m: int| 0 <= k < images@.len() && 0 <= m < images@[k]@.len() ==> (#[trigger] images@[k]@[m]).attrs@.len() == 1,
            nested_views(prices@) == selected_within(html@, TILE@, TILE_PRICE@, Seq::<Seq<char>>::empty()),
            nested_views(wases@) == selected_within(html@, TILE@, TILE_WAS@, Seq::<Seq<char>>::empty()),
            nested_views(ratings@) == selected_within(html@, TILE@, TILE_RATING@, seq!["data-rating"@]),
            forall|k: int, m: int| 0 <= k < ratings@.len() && 0 <= m < ratings@[k]@.len() ==> (#[trigger] ratings@[k]@[m]).attrs@.len() == 1,
            nested_views(stocks@) == selected_within(html@, TILE@, TILE_STOCK@, seq!["data-stock-status"@, "data-orderable"@]),
            forall|k: int, m: int| 0 <= k < stocks@.len() && 0 <= m < stocks@[k]@.len() ==> (#[trigger] stocks@[k]@[m]).attrs@.len() == 2,
            i <= n,
            out@.map_values(|t: Tile| t@) == tiles_upto(html@, os, i as int),
        decreases n - i,
    {
        let tile = &outers[i];
        assert(os[i as int] == tile@);
        let gtm: String = match &tile.attrs[0] {
            Some(r) => r.clone(),
            None => "{}".to_owned(),
        };
        let href = first_attr_at(&links, i, 0);
        let master = gtm_text(gtm.as_str(), "id");
        let from_link = match &href {
            Some(h) => pid_from_path(h.as_str()),
            None => None,
        };
        let id = match from_link {
            Some(p) => Some(p),
            None => match gtm_first(gtm.as_str(), "variationGroupId", "variationProductId") {
                Some(v) => Some(v),
                None => match &tile.attrs[1] {
                    Some(p) => Some(p.clone()),
                    None => master.clone(),
                },
            },
        };
        let name = match gtm_text(gtm.as_str(), "name") {
            Some(n) => Some(n),
            None => first_text_at(&links, i),
        };
        let ghost want = tile_at(html@, os[i as int], i as int);
        let ghost before = out@.map_values(|t: Tile| t@);
        match (id, name) {
            (Some(id), Some(name)) => {
                let t = Tile {
                    id,
                    master_id: master,
                    name,
                    brand: gtm_text(gtm.as_str(), "brand"),
                    ean: gtm_text(gtm.as_str(), "productEAN"),
                    shown_price: first_text_at(&prices, i),
                    tracked_price: gtm_text(gtm.as_str(), "price"),
                    was_price: first_text_at(&wases, i),
                    tracked_rating: gtm_text(gtm.as_str(), "productRating"),
                    rating_marks: present_attrs_at(&ratings, i, 0),
                    category: gtm_text(gtm.as_str(), "category"),
                    url: href,
                    image: first_attr_at(&images, i, 0),
                    availability: stock_at(&stocks, i),
                    marketplace: gtm_bool(gtm.as_str(), "marketplaceProduct") == Some(true),
                };
                assert(want == Some(t@));
                out.push(t);
                assert(out@.map_values(|t: Tile| t@) =~= before.push(t@));
            },
            _ => {
                assert(want is None);
            },
        }
        i += 1;
    }
    out
}


// ------------------------------------------------------- the grid's edges

pub const HEADER_COUNT: &'static str = "div.filter-header p, div.header-bar p";
pub const GRID_FOOTER: &'static str = "div.grid-footer";

/// The ASCII digits of `s`, in order.
pub open spec fn digits_in(s: Seq<char>) -> Seq<char>
    decreases s.len(),
{
    if s.len() == 0 {
        seq![]
    } else if text::is_ascii_digit(s.last()) {
        digits_in(s.drop_last()).push(s.last())
    } else {
        digits_in(s.drop_last())
    }
}

/// The total out of a `65 - 96 of 3,122 products` line: the digits after the
/// first ` of `, when there are some and they fit a `u32`.
pub open spec fn header_total(line: Seq<char>) -> Option<u32> {
    match text::find(line, " of "@) {
        None => None,
        Some(p) => {
            let d = digits_in(line.subrange(p + 4, line.len() as int));
            if d.len() > 0 && text::digits_value(d) <= u32::MAX {
                Some(text::digits_value(d) as u32)
            } else {
                None
            }
        },
    }
}

pub open spec fn first_total(es: Seq<ElementView>) -> Option<u32>
    decreases es.len(),
{
    if es.len() == 0 {
        None
    } else {
        match header_total(es[0].1) {
            Some(t) => Some(t),
            None => first_total(es.drop_first()),
        }
    }
}

proof fn lemma_digits_in_are_digits(s: Seq<char>)
    ensures
        text::all_digits(digits_in(s)),
    decreases s.len(),
{
    if s.len() > 0 {
        lemma_digits_in_are_digits(s.drop_last());
    }
}

proof fn lemma_prefix_value_grows(s: Seq<char>, k: int)
    requires
        0 <= k <= s.len(),
        text::all_digits(s),
    ensures
        text::digits_value(s.take(k)) <= text::digits_value(s),
    decreases s.len() - k,
{
    if k < s.len() {
        assert(s.drop_last().take(k) =~= s.take(k));
        assert(text::all_digits(s.drop_last()));
        lemma_prefix_value_grows(s.drop_last(), k);
        assert(text::is_ascii_digit(s.last()));
    } else {
        assert(s.take(k) =~= s);
    }
}

fn header_total_of(line: &str) -> (r: Option<u32>)
    ensures
        r == header_total(line@),
{
    let v = chars_of(line);
    let vl = v.len();
    let of = chars_of(" of ");
    proof {
        reveal_strlit(" of ");
    }
    let p = match find_at(&v, &of, 0) {
        Some(p) => p,
        None => return None,
    };
    proof {
        text::lemma_find_from(v@, of@, 0);
        assert(of@.len() == 4);
        assert(p + 4 <= v@.len());
    }
    let ghost rest = v@.subrange(p + 4, v@.len() as int);
    let ghost d = digits_in(rest);
    let mut digits: Vec<char> = Vec::new();
    let mut k: usize = p + 4;
    while k < v.len()
        invariant
            p + 4 <= k <= v@.len(),
            rest == v@.subrange(p + 4, v@.len() as int),
            digits@ == digits_in(rest.take(k - p - 4)),
        decreases v@.len() - k,
    {
        assert(rest.take(k - p - 4 + 1).drop_last() =~= rest.take(k - p - 4));
        assert(rest.take(k - p - 4 + 1).last() == v@[k as int]);
        if '0' <= v[k] && v[k] <= '9' {
            digits.push(v[k]);
        }
        k += 1;
    }
    assert(rest.take(rest.len() as int) =~= rest);
    if digits.len() == 0 {
        return None;
    }
    proof {
        lemma_digits_in_are_digits(rest);
    }
    let mut val: u64 = 0;
    let mut j: usize = 0;
    while j < digits.len()
        invariant
            digits@ == d,
            d == digits_in(line@.subrange(p + 4, line@.len() as int)),
            text::find(line@, " of "@) == Some(p as int),
            d.len() > 0,
            text::all_digits(d),
            j <= d.len(),
            val == text::digits_value(d.take(j as int)),
            val <= u32::MAX,
        decreases d.len() - j,
    {
        assert(d.take(j + 1).drop_last() =~= d.take(j as int));
        assert(text::is_ascii_digit(d[j as int]));
        let next = val * 10 + ((digits[j] as u32) - 48) as u64;
        assert(d.take(j + 1).last() == d[j as int]);
        assert(text::digits_value(d.take(j + 1)) == next);
        if next > 0xffff_ffff {
            proof {
                lemma_prefix_value_grows(d, j + 1);
            }
            return None;
        }
        val = next;
        j += 1;
    }
    assert(d.take(d.len() as int) =~= d);
    Some(val as u32)
}

/// How many products the whole listing has, from the line the grid is headed
/// with: the only place the total appears.
pub fn listing_total(html: &str) -> (r: Option<u32>)
    ensures
        r == first_total(selected(html@, HEADER_COUNT@, seq![])),
{
    let none: [&str; 0] = [];
    assert(str_views(none@) =~= Seq::<Seq<char>>::empty());
    let es = select(html, HEADER_COUNT, &none);
    let ghost vs = element_views(es@);
    let n = es.len();
    let mut k: usize = 0;
    assert(vs.skip(0) =~= vs);
    while k < n
        invariant
            n == es@.len(),
            vs == element_views(es@),
            vs == selected(html@, HEADER_COUNT@, seq![]),
            k <= n,
            first_total(vs) == first_total(vs.skip(k as int)),
        decreases n - k,
    {
        assert(vs.skip(k as int)[0] == vs[k as int]);
        assert(vs.skip(k as int).drop_first() =~= vs.skip(k + 1));
        match header_total_of(es[k].text.as_str()) {
            Some(t) => {
                return Some(t);
            },
            None => {},
        }
        k += 1;
    }
    None
}

/// The `data-sort-options` texts of the grid footers, in page order; a
/// footer without one gives nothing.
pub open spec fn sort_texts(es: Seq<ElementView>) -> Seq<Seq<char>>
    decreases es.len(),
{
    if es.len() == 0 {
        seq![]
    } else {
        let before = sort_texts(es.drop_last());
        match es.last().0[0] {
            Some(raw) => before.push(raw),
            None => before,
        }
    }
}

/// The JSON each grid footer carries in `data-sort-options`, unread, in
/// page order. Reading it into rules is for `sort_options`.
pub fn sort_option_texts(html: &str) -> (r: Vec<String>)
    ensures
        r@.map_values(|t: String| t@) == sort_texts(selected(html@, GRID_FOOTER@, seq!["data-sort-options"@])),
{
    let names: [&str; 1] = ["data-sort-options"];
    assert(str_views(names@) =~= seq!["data-sort-options"@]);
    let es = select(html, GRID_FOOTER, &names);
    let ghost vs = element_views(es@);
    let mut out: Vec<String> = Vec::new();
    let n = es.len();
    let mut k: usize = 0;
    while k < n
        invariant
            n == es@.len(),
            vs == element_views(es@),
            forall|m: int| 0 <= m < n ==> (#[trigger] es@[m]).attrs@.len() == 1,
            k <= n,
            out@.map_values(|t: String| t@) == sort_texts(vs.take(k as int)),
        decreases n - k,
    {
        assert(vs.take(k + 1).drop_last() =~= vs.take(k as int));
        assert(vs.take(k + 1).last() == vs[k as int]);
        assert(vs[k as int].0[0] == es@[k as int].attrs@[0].deep_view());
        match &es[k].attrs[0] {
            Some(raw) => {
                let ghost prev = out@.map_values(|t: String| t@);
                out.push(raw.clone());
                assert(out@.map_values(|t: String| t@) =~= prev.push(raw@));
            },
            None => {},
        }
        k += 1;
    }
    assert(vs.take(n as int) =~= vs);
    out
}

/// A rule's id as the URL takes it: the site suffixes the default rule's id
/// with `-option` in the menu but not in the URL it builds.
pub open spec fn rule_id(id: Seq<char>) -> Seq<char> {
    if text::ends_with(id, "-option"@) {
        id.subrange(0, id.len() - 7)
    } else {
        id
    }
}

/// Each footer's `(id, display name)` entries where its text read as a
/// rule list, in order, with each id as the URL takes it; a footer whose
/// text did not read adds nothing.
pub open spec fn sort_rules(readings: Seq<Option<Seq<(Seq<char>, Seq<char>)>>>) -> Seq<(Seq<char>, Seq<char>)>
    decreases readings.len(),
{
    if readings.len() == 0 {
        seq![]
    } else {
        let before = sort_rules(readings.drop_last());
        match readings.last() {
            Some(entries) => before + entries.map_values(
                |e: (Seq<char>, Seq<char>)| (rule_id(e.0), e.1),
            ),
            None => before,
        }
    }
}

/// Each footer's reading, by its pairs' text.
pub open spec fn reading_views(readings: Seq<Option<Vec<(String, String)>>>) -> Seq<Option<Seq<(Seq<char>, Seq<char>)>>> {
    readings.map_values(|o: Option<Vec<(String, String)>>| match o {
        Some(v) => Some(pair_views(v@)),
        None => None,
    })
}

/// The sort rules a listing offers, as `(id, display name)`, from what each
/// grid footer's `data-sort-options` read as (see `sort_option_texts`):
/// read from the page so a rule the site adds is offered without a release.
pub fn sort_options(readings: Vec<Option<Vec<(String, String)>>>) -> (r: Vec<(String, String)>)
    ensures
        pair_views(r@) == sort_rules(reading_views(readings@)),
{
    let ghost vs = reading_views(readings@);
    let mut out: Vec<(String, String)> = Vec::new();
    let n = readings.len();
    let mut k: usize = 0;
    while k < n
        invariant
            n == readings@.len(),
            vs == reading_views(readings@),
            k <= n,
            pair_views(out@) == sort_rules(vs.take(k as int)),
        decreases n - k,
    {
        assert(vs.take(k + 1).drop_last() =~= vs.take(k as int));
        assert(vs.take(k + 1).last() == vs[k as int]);
        match &readings[k] {
            Some(entries) => {
                let ghost before = pair_views(out@);
                let ghost es_v = pair_views(entries@);
                let m = entries.len();
                let mut j: usize = 0;
                while j < m
                    invariant
                        m == entries@.len(),
                        es_v == pair_views(entries@),
                        j <= m,
                        pair_views(out@) == before + es_v.take(j as int).map_values(
                            |e: (Seq<char>, Seq<char>)| (rule_id(e.0), e.1),
                        ),
                    decreases m - j,
                {
                    let id = &entries[j].0;
                    let kept = if ends_with_str(id.as_str(), "-option") {
                        proof {
                            reveal_strlit("-option");
                        }
                        let w = chars_of(id.as_str());
                        string_range(&w, 0, w.len() - 7)
                    } else {
                        id.clone()
                    };
                    let ghost prev = pair_views(out@);
                    out.push((kept, entries[j].1.clone()));
                    assert(pair_views(out@) =~= prev.push((kept@, entries@[j as int].1@)));
                    assert(es_v.take(j + 1) =~= es_v.take(j as int).push(es_v[j as int]));
                    assert(before + es_v.take(j + 1).map_values(|e: (Seq<char>, Seq<char>)| (rule_id(e.0), e.1))
                        =~= (before + es_v.take(j as int).map_values(|e: (Seq<char>, Seq<char>)| (rule_id(e.0), e.1))).push(
                        (rule_id(es_v[j as int].0), es_v[j as int].1),
                    ));
                    j += 1;
                }
                assert(es_v.take(m as int) =~= es_v);
            },
            None => {},
        }
        k += 1;
    }
    assert(vs.take(n as int) =~= vs);
    out
}

// ------------------------------------------------------- the stock modal

pub const STORE_PANEL: &'static str = "div.store.panel";
pub const STORE_TITLE: &'static str = "h6.title, .store-details-title h6";
pub const STORE_AVAIL: &'static str = "span.store-availability";
pub const STORE_TOGGLE: &'static str = "[data-target]";
pub const REGION_OPTION: &'static str = "[data-href], a[href*='/products/stores/region']";
pub const SUGGEST_PRODUCT: &'static str = "a.suggestion-product, .product-suggestions a[href*='/p/']";

/// What follows the last `-`, or all of it.
pub open spec fn after_last_dash(s: Seq<char>) -> Seq<char> {
    match text::rfind_char_in(s, '-', 0, s.len() as int) {
        Some(i) => s.subrange(i + 1, s.len() as int),
        None => s,
    }
}

/// The first class, as `scraper` orders them, carrying the availability
/// prefix, without it.
pub open spec fn status_class(classes: Seq<Seq<char>>) -> Option<Seq<char>>
    decreases classes.len(),
{
    if classes.len() == 0 {
        None
    } else if text::starts_with(classes[0], "store-availability__"@) {
        Some(classes[0].subrange(20, classes[0].len() as int))
    } else {
        status_class(classes.drop_first())
    }
}

pub type StoreStockView = (Option<Seq<char>>, Seq<char>, Option<Seq<char>>, Option<bool>);

pub open spec fn store_stock_view(s: StoreStock) -> StoreStockView {
    (s.store_id.deep_view(), s.store_name@, s.label.deep_view(), s.in_stock)
}

/// One panel of the modal; none for a panel with no title.
pub open spec fn panel_at(html: Seq<char>, i: int) -> Option<StoreStockView> {
    let titles = nth(selected_within(html, STORE_PANEL@, STORE_TITLE@, seq![]), i);
    let avail = nth(selected_within(html, STORE_PANEL@, STORE_AVAIL@, seq![]), i);
    let toggles = nth(selected_within(html, STORE_PANEL@, STORE_TOGGLE@, seq!["data-target"@]), i);
    if titles.len() == 0 {
        None
    } else {
        let status = if avail.len() == 0 { None } else { status_class(avail[0].2) };
        let label = if avail.len() == 0 {
            None
        } else if text::trim(avail[0].1).len() == 0 {
            None
        } else {
            Some(text::trim(avail[0].1))
        };
        Some(
            (
                match first_attr(toggles, 0) {
                    Some(t) => Some(after_last_dash(t)),
                    None => None,
                },
                text::trim(titles[0].1),
                label,
                match status {
                    Some(s) => Some(s == "IN_STOCK"@),
                    None => None,
                },
            ),
        )
    }
}

pub open spec fn panels_upto(html: Seq<char>, n: int) -> Seq<StoreStockView>
    decreases n,
{
    if n <= 0 {
        seq![]
    } else {
        let before = panels_upto(html, n - 1);
        match panel_at(html, n - 1) {
            Some(p) => before.push(p),
            None => before,
        }
    }
}

fn status_of(classes: &Vec<String>) -> (r: Option<String>)
    ensures
        r.deep_view() == status_class(classes@.map_values(|c: String| c@)),
{
    let ghost cs = classes@.map_values(|c: String| c@);
    let n = classes.len();
    let mut k: usize = 0;
    assert(cs.skip(0) =~= cs);
    while k < n
        invariant
            n == classes@.len(),
            cs == classes@.map_values(|c: String| c@),
            k <= n,
            status_class(cs) == status_class(cs.skip(k as int)),
        decreases n - k,
    {
        assert(cs.skip(k as int)[0] == cs[k as int]);
        assert(cs.skip(k as int).drop_first() =~= cs.skip(k + 1));
        if starts_with_str(classes[k].as_str(), "store-availability__") {
            proof {
                reveal_strlit("store-availability__");
            }
            let w = chars_of(classes[k].as_str());
            return Some(string_range(&w, 20, w.len()));
        }
        k += 1;
    }
    None
}

fn after_dash(s: &str) -> (r: String)
    ensures
        r@ == after_last_dash(s@),
{
    let v = chars_of(s);
    proof {
        text::lemma_rfind_char_in(v@, '-', 0, v@.len() as int);
    }
    match rfind_char(&v, '-', 0, v.len()) {
        Some(i) => string_range(&v, i + 1, v.len()),
        None => s.to_owned(),
    }
}

/// Per-store stock, out of the rendered modal the stock endpoint answers
/// with: "in stock" arrives as a class on a span, which is at least a
/// machine value; the visible text is kept either way.
pub fn store_stock(html: &str) -> (r: Vec<StoreStock>)
    ensures
        r@.map_values(|s: StoreStock| store_stock_view(s)) == panels_upto(
            html@,
            selected(html@, STORE_PANEL@, seq![]).len() as int,
        ),
{
    let none: [&str; 0] = [];
    let target: [&str; 1] = ["data-target"];
    assert(str_views(none@) =~= Seq::<Seq<char>>::empty());
    assert(str_views(target@) =~= seq!["data-target"@]);
    let panels = select(html, STORE_PANEL, &none);
    let titles = select_within(html, STORE_PANEL, STORE_TITLE, &none);
    let avails = select_within(html, STORE_PANEL, STORE_AVAIL, &none);
    let toggles = select_within(html, STORE_PANEL, STORE_TOGGLE, &target);
    let mut out: Vec<StoreStock> = Vec::new();
    let n = panels.len();
    assert(element_views(panels@).len() == n);
    let mut i: usize = 0;
    while i < n
        invariant
            n == selected(html@, STORE_PANEL@, seq![]).len(),
            nested_views(titles@) == selected_within(html@, STORE_PANEL@, STORE_TITLE@, Seq::<Seq<char>>::empty()),
            nested_views(avails@) == selected_within(html@, STORE_PANEL@, STORE_AVAIL@, Seq::<Seq<char>>::empty()),
            nested_views(toggles@) == selected_within(html@, STORE_PANEL@, STORE_TOGGLE@, seq!["data-target"@]),
            forall|k: int, m: int| 0 <= k < toggles@.len() && 0 <= m < toggles@[k]@.len() ==> (#[trigger] toggles@[k]@[m]).attrs@.len() == 1,
            i <= n,
            out@.map_values(|s: StoreStock| store_stock_view(s)) == panels_upto(html@, i as int),
        decreases n - i,
    {
        let ghost before = out@.map_values(|s: StoreStock| store_stock_view(s));
        if i < titles.len() && titles[i].len() > 0 {
            let ghost ts = nth(nested_views(titles@), i as int);
            let ghost av = nth(nested_views(avails@), i as int);
            assert(ts[0].1 == titles@[i as int]@[0].text@);
            let store_name = trim_str(titles[i][0].text.as_str());
            let (status, label) = if i < avails.len() && avails[i].len() > 0 {
                assert(av[0] == avails@[i as int]@[0]@);
                let t = trim_str(avails[i][0].text.as_str());
                (status_of(&avails[i][0].classes), if t.as_str().is_empty() { None } else { Some(t) })
            } else {
                (None, None)
            };
            let store_id = match first_attr_at(&toggles, i, 0) {
                Some(t) => Some(after_dash(t.as_str())),
                None => None,
            };
            let in_stock = match &status {
                Some(s) => Some(eq_str(s.as_str(), "IN_STOCK")),
                None => None,
            };
            let st = StoreStock { store_id, store_name, label, in_stock };
            assert(panel_at(html@, i as int) == Some(store_stock_view(st)));
            out.push(st);
            assert(out@.map_values(|s: StoreStock| store_stock_view(s)) =~= before.push(store_stock_view(st)));
        } else {
            assert(panel_at(html@, i as int) is None);
        }
        i += 1;
    }
    out
}

/// The region a stock link is for: the option's own `value`, else the
/// `region=` parameter of its URL.
pub open spec fn region_param(pieces: Seq<Seq<char>>) -> Option<Seq<char>>
    decreases pieces.len(),
{
    if pieces.len() == 0 {
        None
    } else if text::starts_with(pieces[0], "region="@) {
        Some(pieces[0].subrange(7, pieces[0].len() as int))
    } else {
        region_param(pieces.drop_first())
    }
}

/// `s` with each `&` read as a `?`, so one split takes both.
pub open spec fn amp_as_query(s: Seq<char>) -> Seq<char> {
    s.map_values(|c: char| if c == '&' { '?' } else { c })
}

/// The pieces `str::split(['?', '&'])` yields.
pub open spec fn query_pieces(s: Seq<char>) -> Seq<Seq<char>> {
    text::split_char(amp_as_query(s), '?')
}

/// What a region option links to, and the region it is for; none for an
/// option that is not a stock link or names no region.
pub open spec fn region_link(e: ElementView) -> Option<(Seq<char>, Seq<char>)> {
    let raw = match e.0[0] {
        Some(h) => Some(h),
        None => e.0[1],
    };
    match raw {
        Some(raw) => if text::contains(raw, "/products/stores/region"@) {
            let region = match e.0[2] {
                Some(v) => Some(v),
                None => region_param(query_pieces(raw)),
            };
            match region {
                Some(r) => if r.len() > 0 {
                    Some((r, raw))
                } else {
                    None
                },
                None => None,
            }
        } else {
            None
        },
        None => None,
    }
}

/// The region links among `es`, each into `jar` in turn, a later link for a
/// region replacing an earlier.
pub open spec fn region_links_of(jar: Entries, es: Seq<ElementView>) -> Entries
    decreases es.len(),
{
    if es.len() == 0 {
        jar
    } else {
        let next = match region_link(es[0]) {
            Some((r, raw)) => entries_insert(jar, r, raw),
            None => jar,
        };
        region_links_of(next, es.drop_first())
    }
}

fn region_of(raw: &str) -> (r: Option<String>)
    ensures
        r.deep_view() == region_param(query_pieces(raw@)),
{
    let v = chars_of(raw);
    let mut w: Vec<char> = Vec::new();
    let mut k: usize = 0;
    while k < v.len()
        invariant
            k <= v@.len(),
            w@ == amp_as_query(v@.take(k as int)),
        decreases v@.len() - k,
    {
        w.push(if v[k] == '&' { '?' } else { v[k] });
        assert(amp_as_query(v@.take(k + 1)) =~= amp_as_query(v@.take(k as int)).push(if v@[k as int] == '&' { '?' } else { v@[k as int] }));
        k += 1;
    }
    assert(v@.take(v@.len() as int) =~= v@);
    assert(w@.subrange(0, w@.len() as int) =~= w@);
    let ranges = split_ranges(&w, '?', 0, w.len());
    let ghost ps = pieces(w@, ranges@);
    let n = ranges.len();
    let mut i: usize = 0;
    assert(ps.skip(0) =~= ps);
    while i < n
        invariant
            n == ranges@.len(),
            ps == pieces(w@, ranges@),
            ps == query_pieces(raw@),
            ranges_within(ranges@, 0, w@.len() as int),
            i <= n,
            region_param(ps) == region_param(ps.skip(i as int)),
        decreases n - i,
    {
        assert(ps.skip(i as int)[0] == ps[i as int]);
        assert(ps.skip(i as int).drop_first() =~= ps.skip(i + 1));
        let (a, b) = ranges[i];
        let piece = string_range(&w, a, b);
        if starts_with_str(piece.as_str(), "region=") {
            proof {
                reveal_strlit("region=");
            }
            let pv = chars_of(piece.as_str());
            return Some(string_range(&pv, 7, pv.len()));
        }
        i += 1;
    }
    None
}

/// The per-region stock URLs a stock modal was rendered with, keyed by
/// region code: one pre-signed URL per region, each with a token of its own.
pub fn region_links(html: &str) -> (r: CookieMap)
    ensures
        r@ == region_links_of(seq![], selected(html@, REGION_OPTION@, seq!["data-href"@, "href"@, "value"@])),
{
    let names: [&str; 3] = ["data-href", "href", "value"];
    assert(str_views(names@) =~= seq!["data-href"@, "href"@, "value"@]);
    let es = select(html, REGION_OPTION, &names);
    let ghost vs = element_views(es@);
    let mut out = CookieMap::new();
    let n = es.len();
    let mut i: usize = 0;
    assert(vs.skip(0) =~= vs);
    while i < n
        invariant
            n == es@.len(),
            vs == element_views(es@),
            forall|m: int| 0 <= m < n ==> (#[trigger] es@[m]).attrs@.len() == 3,
            i <= n,
            region_links_of(out@, vs.skip(i as int)) == region_links_of(seq![], vs),
        decreases n - i,
    {
        assert(vs.skip(i as int)[0] == vs[i as int]);
        assert(vs.skip(i as int).drop_first() =~= vs.skip(i + 1));
        let e = &es[i];
        assert(vs[i as int].0 == e.attrs@.map_values(|a: Option<String>| a.deep_view()));
        let raw = match &e.attrs[0] {
            Some(h) => Some(h),
            None => match &e.attrs[1] {
                Some(h) => Some(h),
                None => None,
            },
        };
        match raw {
            Some(raw) => {
                if contains_str(raw.as_str(), "/products/stores/region") {
                    let region = match &e.attrs[2] {
                        Some(v) => Some(v.clone()),
                        None => region_of(raw.as_str()),
                    };
                    match region {
                        Some(r) => {
                            if !r.as_str().is_empty() {
                                out.insert(r, raw.clone());
                            }
                        },
                        None => {},
                    }
                }
            },
            None => {},
        }
        i += 1;
    }
    assert(vs.skip(n as int).len() == 0);
    out
}

/// A typeahead entry: the product its link points at, and its name.
pub open spec fn suggestion(e: ElementView) -> Option<(Seq<char>, Seq<char>)> {
    match e.0[0] {
        Some(href) => match pid_of(href) {
            Some(pid) => if text::trim(e.1).len() > 0 {
                Some((pid, text::trim(e.1)))
            } else {
                None
            },
            None => None,
        },
        None => None,
    }
}

pub open spec fn suggestions_of(es: Seq<ElementView>) -> Seq<(Seq<char>, Seq<char>)>
    decreases es.len(),
{
    if es.len() == 0 {
        seq![]
    } else {
        let before = suggestions_of(es.drop_last());
        match suggestion(es.last()) {
            Some(s) => before.push(s),
            None => before,
        }
    }
}

/// Products the typeahead offered, as `(pid, name)`.
pub fn suggestions(html: &str) -> (r: Vec<(String, String)>)
    ensures
        pair_views(r@) == suggestions_of(selected(html@, SUGGEST_PRODUCT@, seq!["href"@])),
{
    let names: [&str; 1] = ["href"];
    assert(str_views(names@) =~= seq!["href"@]);
    let es = select(html, SUGGEST_PRODUCT, &names);
    let ghost vs = element_views(es@);
    let mut out: Vec<(String, String)> = Vec::new();
    let n = es.len();
    let mut i: usize = 0;
    while i < n
        invariant
            n == es@.len(),
            vs == element_views(es@),
            forall|m: int| 0 <= m < n ==> (#[trigger] es@[m]).attrs@.len() == 1,
            i <= n,
            pair_views(out@) == suggestions_of(vs.take(i as int)),
        decreases n - i,
    {
        assert(vs.take(i + 1).drop_last() =~= vs.take(i as int));
        assert(vs.take(i + 1).last() == vs[i as int]);
        let e = &es[i];
        assert(vs[i as int].0 == e.attrs@.map_values(|a: Option<String>| a.deep_view()));
        assert(vs[i as int].1 == e.text@);
        match &e.attrs[0] {
            Some(href) => match pid_from_path(href.as_str()) {
                Some(pid) => {
                    let name = trim_str(e.text.as_str());
                    if !name.as_str().is_empty() {
                        let ghost before = pair_views(out@);
                        out.push((pid, name));
                        assert(pair_views(out@) =~= before.push((pid@, name@)));
                    }
                },
                None => {},
            },
            None => {},
        }
        i += 1;
    }
    assert(vs.take(n as int) =~= vs);
    out
}
// ------------------------------------------------------- the schema.org block

pub const LD_JSON: &'static str = "script[type=\"application/ld+json\"]";

/// Whether a block's JSON says it describes a product.
pub open spec fn is_product_block(text: Seq<char>) -> bool {
    json_str_claim(vstd::utf8::encode_utf8(text), "@type"@) == Some("Product"@)
}

/// The texts of those of `es` that describe a product, in order.
pub open spec fn product_texts(es: Seq<ElementView>) -> Seq<Seq<char>>
    decreases es.len(),
{
    if es.len() == 0 {
        seq![]
    } else {
        let rest = product_texts(es.drop_first());
        if is_product_block(es[0].1) {
            seq![es[0].1] + rest
        } else {
            rest
        }
    }
}

/// The `ld+json` blocks a page carries that describe a product, in page
/// order. A page carries several -- breadcrumbs and the organisation as
/// well -- so each block's `@type` is checked rather than the first taken.
pub fn product_blocks(html: &str) -> (r: Vec<String>)
    ensures
        r@.map_values(|s: String| s@) == product_texts(selected(html@, LD_JSON@, seq![])),
{
    let none: [&str; 0] = [];
    assert(str_views(none@) =~= Seq::<Seq<char>>::empty());
    let es = select(html, LD_JSON, &none);
    let ghost vs = element_views(es@);
    let mut out: Vec<String> = Vec::new();
    let n = es.len();
    let mut k: usize = n;
    assert(vs.skip(n as int).len() == 0);
    while k > 0
        invariant
            n == es@.len(),
            vs == element_views(es@),
            k <= n,
            out@.map_values(|s: String| s@) == product_texts(vs.skip(k as int)),
        decreases k,
    {
        k -= 1;
        assert(vs.skip(k as int)[0] == vs[k as int]);
        assert(vs.skip(k as int).drop_first() =~= vs.skip(k + 1));
        assert(vs[k as int].1 == es@[k as int].text@);
        let text = es[k].text.as_str();
        let ty = str_claim(text.as_bytes(), "@type");
        let product = match &ty {
            Some(t) => crate::text::eq_str(t.as_str(), "Product"),
            None => false,
        };
        proof {
            reveal_strlit("Product");
        }
        if product {
            let mut next: Vec<String> = Vec::new();
            next.push(text.to_owned());
            let mut rest = out;
            next.append(&mut rest);
            out = next;
            assert(out@.map_values(|s: String| s@) =~= seq![vs[k as int].1] + product_texts(vs.skip(k + 1)));
        }
    }
    assert(vs.skip(0) =~= vs);
    out
}

} // verus!
