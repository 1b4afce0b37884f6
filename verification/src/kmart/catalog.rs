//! The catalogue: a third-party search index serving Kmart's product feed.
//!
//! One request shape serves all of it. `/search/<term>` and
//! `/browse/group_id/<id>` take the same parameters and answer the same
//! envelope, and a keycode is a term the index matches exactly -- so fetching
//! one product is a search, not a lookup.
use vstd::prelude::*;

use crate::kmart::country::Country;
use crate::kmart::domain::{
    parse_panics, price_of, Category, Facet as DomainFacet, FacetOption as DomainFacetOption, Listing, Price,
    Product, Rating, Sort as DomainSort, Variation as DomainVariation,
};
use crate::kmart::endpoints::{component, pair_views, query_string, query_text, Endpoints};
use crate::kmart::vendor::SEARCH_CLIENT;
use crate::kmart::wire::{
    Facet, FacetOption, Group, ItemData, PriceEntry, ResultSource, SearchResponse, SearchResult, SortOption, Variation,
};
use crate::text;
use crate::text::{cat, cat3, chars_of, decimal_string, eq_ignore_case_str, eq_str, starts_with_str, string_range, trim_str};

verus! {

/// What the storefront asks for per page.
pub const PAGE_SIZE: u32 = 60;

/// Whether `n` names a sort, by its friendly alias or by the index's field.
pub open spec fn names(n: Seq<char>, alias: Seq<char>, by: Seq<char>) -> bool {
    text::eq_ignore_case(n, alias) || text::eq_ignore_case(n, by)
}

/// The index's `(sort_by, sort_order)` for a sort name. An unfamiliar name is
/// passed through as `sort_by`, descending: the index publishes its own sort
/// list per listing, and refusing one this table has not heard of would age
/// badly.
pub open spec fn sort_choice(name: Seq<char>) -> (Seq<char>, Seq<char>) {
    let n = text::trim(name);
    if names(n, "popular"@, "relevance"@) {
        ("relevance"@, "descending"@)
    } else if names(n, "new"@, "numberOfDaysSinceStartDate"@) {
        ("numberOfDaysSinceStartDate"@, "ascending"@)
    } else if names(n, "price-low-to-high"@, "price"@) {
        ("price"@, "ascending"@)
    } else if names(n, "price-high-to-low"@, "price"@) {
        ("price"@, "descending"@)
    } else {
        (n, "descending"@)
    }
}

/// Turn a friendly sort name into what the index wants.
pub fn sort_for(name: &str) -> (r: (String, String))
    ensures
        (r.0@, r.1@) == sort_choice(name@),
{
    let n = trim_str(name);
    let n = n.as_str();
    if eq_ignore_case_str(n, "popular") || eq_ignore_case_str(n, "relevance") {
        ("relevance".to_owned(), "descending".to_owned())
    } else if eq_ignore_case_str(n, "new") || eq_ignore_case_str(n, "numberOfDaysSinceStartDate") {
        ("numberOfDaysSinceStartDate".to_owned(), "ascending".to_owned())
    } else if eq_ignore_case_str(n, "price-low-to-high") || eq_ignore_case_str(n, "price") {
        ("price".to_owned(), "ascending".to_owned())
    } else if eq_ignore_case_str(n, "price-high-to-low") || eq_ignore_case_str(n, "price") {
        ("price".to_owned(), "descending".to_owned())
    } else {
        (n.to_owned(), "descending".to_owned())
    }
}

/// Where the products come from.
pub enum Select {
    /// A keyword, or a keycode -- the index does not distinguish.
    Term(String),
    /// A category, by its 32-hex group id.
    Group(String),
}

/// One listing request.
pub struct Query {
    pub select: Select,
    pub page: u32,
    pub per_page: u32,
    pub sort: Option<(String, String)>,
    /// Refinements, as `(facet name, value)`; one facet may take more than
    /// one value, and the index reads the repeats.
    pub filters: Vec<(String, String)>,
}

/// The parameters a listing URL carries, in order.
pub open spec fn listing_params(q: Query, key: Seq<char>, client_id: Seq<char>) -> Seq<(Seq<char>, Seq<char>)> {
    let (by, order) = match q.sort {
        Some((b, o)) => (b@, o@),
        None => ("relevance"@, "descending"@),
    };
    seq![
        ("key"@, key),
        ("i"@, client_id),
        ("s"@, "1"@),
        ("c"@, SEARCH_CLIENT@),
        ("page"@, text::decimal(q.page as nat)),
        ("num_results_per_page"@, text::decimal(q.per_page as nat)),
    ] + q.filters@.map_values(|f: (String, String)| ("filters["@ + f.0@ + "]"@, f.1@)) + seq![
        ("sort_by"@, by),
        ("sort_order"@, order),
    ]
}

/// The path a listing is asked for at.
pub open spec fn listing_base(select: Select, search: Seq<char>) -> Seq<char> {
    match select {
        Select::Term(t) => search + "/search/"@ + component(t@),
        Select::Group(g) => search + "/browse/group_id/"@ + component(g@),
    }
}

impl Query {
    fn new(select: Select) -> (q: Query)
        ensures
            q.select == select,
            q.page == 1,
            q.per_page == PAGE_SIZE,
            q.sort is None,
            q.filters@.len() == 0,
    {
        Query { select, page: 1, per_page: PAGE_SIZE, sort: None, filters: Vec::new() }
    }

    pub fn term(term: String) -> (q: Query)
        ensures
            q.select == Select::Term(term),
            q.page == 1,
            q.per_page == PAGE_SIZE,
            q.sort is None,
            q.filters@.len() == 0,
    {
        Query::new(Select::Term(term))
    }

    pub fn group(id: String) -> (q: Query)
        ensures
            q.select == Select::Group(id),
            q.page == 1,
            q.per_page == PAGE_SIZE,
            q.sort is None,
            q.filters@.len() == 0,
    {
        Query::new(Select::Group(id))
    }

    /// Pages count from one; a zero asks for the first.
    pub fn page(self, page: u32) -> (q: Query)
        ensures
            q == (Query { page: if page < 1 { 1 } else { page }, ..self }),
    {
        let mut q = self;
        q.page = if page < 1 { 1 } else { page };
        q
    }

    /// Between one and two hundred a page.
    pub fn per_page(self, n: u32) -> (q: Query)
        ensures
            q == (Query { per_page: if n < 1 { 1 } else if n > 200 { 200 } else { n }, ..self }),
    {
        let mut q = self;
        q.per_page = if n < 1 { 1 } else if n > 200 { 200 } else { n };
        q
    }

    pub fn sort(self, name: &str) -> (q: Query)
        ensures
            q.select == self.select,
            q.page == self.page,
            q.per_page == self.per_page,
            q.filters == self.filters,
            q.sort matches Some((b, o)) && (b@, o@) == sort_choice(name@),
    {
        let mut q = self;
        q.sort = Some(sort_for(name));
        q
    }

    pub fn filter(self, name: String, value: String) -> (q: Query)
        ensures
            q.select == self.select,
            q.page == self.page,
            q.per_page == self.per_page,
            q.sort == self.sort,
            q.filters@ == self.filters@.push((name, value)),
    {
        let mut q = self;
        q.filters.push((name, value));
        q
    }

    /// Keep only what is ranged in one island. New Zealand only: Australia
    /// has no such facet, so asking there changes nothing.
    pub fn island(self, country: Country, island: Option<&str>) -> (q: Query)
        ensures
            match (country, island) {
                (Country::Nz, Some(code)) => q.select == self.select && q.page == self.page
                    && q.per_page == self.per_page && q.sort == self.sort && q.filters@.len()
                    == self.filters@.len() + 1 && q.filters@.drop_last() == self.filters@
                    && q.filters@.last().0@ == "Available in "@ + code@ && q.filters@.last().1@
                    == "True"@,
                _ => q == self,
            },
    {
        match (country, island) {
            (Country::Nz, Some(code)) => {
                let name = cat("Available in ", code);
                let q = self.filter(name, "True".to_owned());
                assert(q.filters@.drop_last() =~= self.filters@);
                q
            },
            _ => self,
        }
    }

    /// The URL, key and client identity included. `client_id` is the
    /// visitor id the index personalises on, kept stable across runs.
    pub fn url(&self, endpoints: &Endpoints, client_id: &str) -> (r: String)
        ensures
            r@ == listing_base(self.select, endpoints.search@) + "?"@ + query_text(
                listing_params(*self, endpoints.search_key@, client_id@),
            ),
    {
        let base = match &self.select {
            Select::Term(term) => endpoints.search_term(term.as_str()),
            Select::Group(id) => endpoints.browse_group(id.as_str()),
        };
        let mut params: Vec<(String, String)> = Vec::new();
        params.push(("key".to_owned(), endpoints.search_key.clone()));
        params.push(("i".to_owned(), client_id.to_owned()));
        params.push(("s".to_owned(), "1".to_owned()));
        params.push(("c".to_owned(), SEARCH_CLIENT.to_owned()));
        params.push(("page".to_owned(), decimal_string(self.page as u64)));
        params.push(("num_results_per_page".to_owned(), decimal_string(self.per_page as u64)));
        let ghost head = pair_views(params@);
        assert(head =~= seq![
            ("key"@, endpoints.search_key@),
            ("i"@, client_id@),
            ("s"@, "1"@),
            ("c"@, SEARCH_CLIENT@),
            ("page"@, text::decimal(self.page as nat)),
            ("num_results_per_page"@, text::decimal(self.per_page as nat)),
        ]);
        let n = self.filters.len();
        let mut i: usize = 0;
        while i < n
            invariant
                n == self.filters@.len(),
                i <= n,
                pair_views(params@) == head + self.filters@.take(i as int).map_values(
                    |f: (String, String)| ("filters["@ + f.0@ + "]"@, f.1@),
                ),
            decreases n - i,
        {
            let name = cat3("filters[", self.filters[i].0.as_str(), "]");
            let ghost before = params@;
            params.push((name, self.filters[i].1.clone()));
            assert(self.filters@.take(i + 1) =~= self.filters@.take(i as int).push(
                self.filters@[i as int],
            ));
            assert(pair_views(params@) =~= pair_views(before).push(
                ("filters["@ + self.filters@[i as int].0@ + "]"@, self.filters@[i as int].1@),
            ));
            i += 1;
        }
        assert(self.filters@.take(n as int) =~= self.filters@);
        let (by, order) = match &self.sort {
            Some((b, o)) => (b.clone(), o.clone()),
            None => ("relevance".to_owned(), "descending".to_owned()),
        };
        let ghost mid = pair_views(params@);
        let ghost sorted = (by@, order@);
        assert(sorted == (match self.sort {
            Some((b, o)) => (b@, o@),
            None => ("relevance"@, "descending"@),
        }));
        params.push(("sort_by".to_owned(), by));
        params.push(("sort_order".to_owned(), order));
        assert(pair_views(params@) =~= mid.push(("sort_by"@, sorted.0)).push(("sort_order"@, sorted.1)));
        assert(pair_views(params@) =~= listing_params(*self, endpoints.search_key@, client_id@));
        let qs = query_string(params.as_slice());
        cat3(base.as_str(), "?", qs.as_str())
    }
}

/// The parameters the tree request carries.
pub open spec fn tree_params(key: Seq<char>, client_id: Seq<char>, depth: u32) -> Seq<(Seq<char>, Seq<char>)> {
    seq![
        ("key"@, key),
        ("i"@, client_id),
        ("s"@, "1"@),
        ("c"@, SEARCH_CLIENT@),
        ("page"@, "1"@),
        ("num_results_per_page"@, "1"@),
        ("fmt_options[groups_max_depth]"@, text::decimal(
            (if depth < 1 { 1 } else if depth > 6 { 6 } else { depth }) as nat,
        )),
    ]
}

/// The tree request: every category, to a depth between one and six. The
/// groups ride along on a one-product listing of the index's root.
pub fn tree_url(endpoints: &Endpoints, client_id: &str, depth: u32) -> (r: String)
    ensures
        r@ == endpoints.search@ + "/browse/group_id/"@ + component("all"@) + "?"@ + query_text(
            tree_params(endpoints.search_key@, client_id@, depth),
        ),
{
    let d: u32 = if depth < 1 { 1 } else if depth > 6 { 6 } else { depth };
    let mut params: Vec<(String, String)> = Vec::new();
    params.push(("key".to_owned(), endpoints.search_key.clone()));
    params.push(("i".to_owned(), client_id.to_owned()));
    params.push(("s".to_owned(), "1".to_owned()));
    params.push(("c".to_owned(), SEARCH_CLIENT.to_owned()));
    params.push(("page".to_owned(), "1".to_owned()));
    params.push(("num_results_per_page".to_owned(), "1".to_owned()));
    params.push(("fmt_options[groups_max_depth]".to_owned(), decimal_string(d as u64)));
    assert(pair_views(params@) =~= tree_params(endpoints.search_key@, client_id@, depth));
    let base = endpoints.browse_group("all");
    let qs = query_string(params.as_slice());
    cat3(base.as_str(), "?", qs.as_str())
}

// ------------------------------------------------------------ the tree

/// `c` is what a group converts to: its id, its name (empty when it has
/// none), its page, its count, and its children converted in turn.
pub open spec fn converted(g: Group, c: Category) -> bool
    decreases g, 1nat,
{
    &&& g.group_id == Some(c.id)
    &&& c.name@ == (match g.display_name {
        Some(n) => n@,
        None => Seq::<char>::empty(),
    })
    &&& c.path == g.data.url
    &&& c.count == g.count
    &&& converted_list(g.children@, c.children@)
}

/// `cs` is what the groups that have an id convert to, in order; groups
/// without one are dropped.
pub open spec fn converted_list(gs: Seq<Group>, cs: Seq<Category>) -> bool
    decreases gs, 0nat,
{
    if gs.len() == 0 {
        cs.len() == 0
    } else if gs.last().group_id is None {
        converted_list(gs.drop_last(), cs)
    } else {
        cs.len() > 0 && converted(gs.last(), cs.last()) && converted_list(gs.drop_last(), cs.drop_last())
    }
}

/// One group as a category, or none when it has no id.
pub fn category(g: &Group) -> (r: Option<Category>)
    ensures
        match r {
            Some(c) => converted(*g, c),
            None => g.group_id is None,
        },
    decreases *g,
{
    let id = match &g.group_id {
        Some(id) => id.clone(),
        None => return None,
    };
    let name = match &g.display_name {
        Some(n) => n.clone(),
        None => String::new(),
    };
    let children = categories_of(&g.children);
    Some(Category { id, name, path: g.data.url.clone(), count: g.count, children })
}

/// The groups that have an id, as categories.
fn categories_of(gs: &Vec<Group>) -> (r: Vec<Category>)
    ensures
        converted_list(gs@, r@),
    decreases gs@,
{
    let mut out: Vec<Category> = Vec::new();
    let n = gs.len();
    let mut i: usize = 0;
    assert(gs@.take(0).len() == 0);
    while i < n
        invariant
            n == gs@.len(),
            i <= n,
            converted_list(gs@.take(i as int), out@),
        decreases n - i,
    {
        assert(gs@.take(i + 1).drop_last() =~= gs@.take(i as int));
        assert(gs@.take(i + 1).last() == gs@[i as int]);
        let ghost before = out@;
        match category(&gs[i]) {
            Some(c) => {
                out.push(c);
                assert(out@.drop_last() =~= before);
            },
            None => {},
        }
        i += 1;
    }
    assert(gs@.take(n as int) =~= gs@);
    out
}

/// Whether a group is the index's root, `all`: a container rather than a
/// category.
pub open spec fn is_root(g: Group) -> bool {
    g.group_id matches Some(id) && id@ == "all"@
}

/// The groups a tree answer's categories come from: the root's children in
/// place of the root.
pub open spec fn tree_groups(roots: Seq<Group>) -> Seq<Group>
    decreases roots.len(),
{
    if roots.len() == 0 {
        seq![]
    } else {
        tree_groups(roots.drop_last()) + (if is_root(roots.last()) {
            roots.last().children@
        } else {
            seq![roots.last()]
        })
    }
}

/// The categories out of a tree answer's groups.
pub fn categories(groups: &Vec<Group>) -> (r: Vec<Category>)
    ensures
        converted_list(tree_groups(groups@), r@),
{
    let mut out: Vec<Category> = Vec::new();
    let n = groups.len();
    let mut i: usize = 0;
    assert(tree_groups(groups@.take(0)).len() == 0);
    while i < n
        invariant
            n == groups@.len(),
            i <= n,
            converted_list(tree_groups(groups@.take(i as int)), out@),
        decreases n - i,
    {
        let g = &groups[i];
        let ghost done = tree_groups(groups@.take(i as int));
        assert(groups@.take(i + 1).drop_last() =~= groups@.take(i as int));
        assert(groups@.take(i + 1).last() == groups@[i as int]);
        let root = match &g.group_id {
            Some(id) => eq_str(id.as_str(), "all"),
            None => false,
        };
        if root {
            let m = g.children.len();
            let mut j: usize = 0;
            assert(done + g.children@.take(0) =~= done);
            while j < m
                invariant
                    m == g.children@.len(),
                    j <= m,
                    converted_list(done + g.children@.take(j as int), out@),
                decreases m - j,
            {
                assert((done + g.children@.take(j + 1)).drop_last() =~= done + g.children@.take(
                    j as int,
                ));
                assert((done + g.children@.take(j + 1)).last() == g.children@[j as int]);
                let ghost before = out@;
                match category(&g.children[j]) {
                    Some(c) => {
                        out.push(c);
                        assert(out@.drop_last() =~= before);
                    },
                    None => {},
                }
                j += 1;
            }
            assert(g.children@.take(m as int) =~= g.children@);
        } else {
            assert((done + seq![*g]).drop_last() =~= done);
            assert((done + seq![*g]).last() == *g);
            let ghost before = out@;
            match category(g) {
                Some(c) => {
                    out.push(c);
                    assert(out@.drop_last() =~= before);
                },
                None => {},
            }
        }
        i += 1;
    }
    assert(groups@.take(n as int) =~= groups@);
    out
}


// ------------------------------------------------------------------ listings

/// A product's keycode: `variation_id`, else `id` without its `P_`.
pub open spec fn keycode_of(d: ItemData) -> Option<Seq<char>> {
    match d.variation_id {
        Some(v) => Some(v@),
        None => match d.id {
            Some(i) => if text::starts_with(i@, "P_"@) {
                Some(i@.subrange(2, i@.len() as int))
            } else {
                None
            },
            None => None,
        },
    }
}

/// The effective price: the rendered one, else the first entry's amount.
pub open spec fn effective_price(d: ItemData) -> Option<int> {
    match d.price {
        Some(p) => Some(p.cents as int),
        None => if d.prices.len() > 0 {
            match d.prices[0].amount {
                Some(a) => price_of(a@),
                None => None,
            }
        } else {
            None
        },
    }
}

/// Whether an entry is of the `list` kind, the one a markdown arrives as.
pub open spec fn is_list(e: PriceEntry) -> bool {
    e.kind matches Some(k) && k@ == "list"@
}

/// Whether an entry's amount, if it has one, parses without a panic.
pub open spec fn amount_parses(e: PriceEntry) -> bool {
    e.amount matches Some(a) ==> !parse_panics(a@)
}

/// A `list` entry's amount, where it parses.
pub open spec fn list_amount(e: PriceEntry) -> Option<int> {
    if is_list(e) {
        match e.amount {
            Some(a) => price_of(a@),
            None => None,
        }
    } else {
        None
    }
}

/// The highest `list` amount above `now`: the price a markdown was taken
/// from, when there was one.
pub open spec fn markdown(entries: Seq<PriceEntry>, now: Option<int>) -> Option<int>
    decreases entries.len(),
{
    if entries.len() == 0 {
        None
    } else {
        let before = markdown(entries.drop_last(), now);
        let here = match (list_amount(entries.last()), now) {
            (Some(x), Some(n)) => if x > n {
                Some(x)
            } else {
                None
            },
            _ => None,
        };
        match (before, here) {
            (Some(b), Some(h)) => Some(if h > b { h } else { b }),
            (Some(b), None) => Some(b),
            (None, h) => h,
        }
    }
}

/// Whether an entry is a `list` amount strictly above the price `now`.
pub open spec fn listed_above(e: PriceEntry, now: Option<int>) -> bool {
    list_amount(e) matches Some(x) && now matches Some(n) && x > n
}

/// What `markdown` finds, stated without its recursion: where some list
/// amount stands strictly above the price, the highest such amount, which is
/// itself one of them; otherwise nothing. A list amount equal to the price
/// is no markdown.
pub proof fn lemma_markdown_is_highest_above(entries: Seq<PriceEntry>, now: Option<int>)
    ensures
        match markdown(entries, now) {
            Some(w) => {
                &&& now matches Some(n) && w > n
                &&& exists|j: int| 0 <= j < entries.len() && #[trigger] list_amount(entries[j]) == Some(w)
                &&& forall|j: int| 0 <= j < entries.len() && listed_above(entries[j], now)
                    ==> (#[trigger] list_amount(entries[j]))->0 <= w
            },
            None => forall|j: int| 0 <= j < entries.len() ==> !listed_above(#[trigger] entries[j], now),
        },
    decreases entries.len(),
{
    if entries.len() > 0 {
        let init = entries.drop_last();
        lemma_markdown_is_highest_above(init, now);
        let last = entries.len() - 1;
        assert(entries[last] == entries.last());
        assert forall|j: int| 0 <= j < last implies #[trigger] entries[j] == init[j] by {}
        match markdown(entries, now) {
            Some(w) => {
                match markdown(init, now) {
                    Some(b) => {
                        let jb = choose|j: int| 0 <= j < init.len() && #[trigger] list_amount(init[j]) == Some(b);
                        assert(list_amount(entries[jb]) == Some(b));
                    },
                    None => {},
                }
                if listed_above(entries.last(), now) && w == list_amount(entries.last())->0 {
                    assert(list_amount(entries[last]) == Some(w));
                }
                assert forall|j: int| 0 <= j < entries.len() && listed_above(entries[j], now)
                    implies (#[trigger] list_amount(entries[j]))->0 <= w by {
                    if j < last {
                        assert(entries[j] == init[j]);
                        assert(list_amount(init[j]) == list_amount(entries[j]));
                    }
                }
            },
            None => {
                assert forall|j: int| 0 <= j < entries.len() implies !listed_above(#[trigger] entries[j], now) by {
                    if j < last {
                        assert(entries[j] == init[j]);
                    }
                }
            },
        }
    }
}

/// A price in cents, where there is one.
pub open spec fn cents_of(p: Option<Price>) -> Option<int> {
    match p {
        Some(x) => Some(x.cents as int),
        None => None,
    }
}

/// A product's markdown is always above its price: where it has a `was`, it
/// has a price, and the `was` is strictly higher -- the highest `list` entry
/// above the price, one of the result's own entries. An undiscounted item,
/// whose list entries are at or below its price, has no `was`.
pub proof fn lemma_was_above_price(r: SearchResult, p: Option<Product>)
    requires
        product_is(r, p),
    ensures
        p matches Some(q) ==> (q.was matches Some(w) ==> (q.price matches Some(x) && w.cents > x.cents
            && exists|j: int| 0 <= j < r.data.prices.len() && #[trigger] list_amount(r.data.prices[j]) == Some(w.cents as int))),
        p matches Some(q) ==> (forall|j: int| 0 <= j < r.data.prices.len() && #[trigger] listed_above(r.data.prices[j], cents_of(q.price))
            ==> (q.was matches Some(w) && list_amount(r.data.prices[j])->0 <= w.cents)),
        p matches Some(q) ==> ((forall|j: int| 0 <= j < r.data.prices.len() ==> !#[trigger] listed_above(r.data.prices[j], cents_of(q.price)))
            ==> q.was is None),
{
    lemma_markdown_is_highest_above(r.data.prices@, effective_price(r.data));
    if let Some(q) = p {
        let now = effective_price(r.data);
        assert(cents_of(q.price) == now);
        if let Some(w) = markdown(r.data.prices@, now) {
            let j = choose|j: int| 0 <= j < r.data.prices@.len() && #[trigger] list_amount(r.data.prices@[j]) == Some(w);
            assert(listed_above(r.data.prices@[j], now));
            assert(listed_above(r.data.prices[j], cents_of(q.price)));
        }
    }
}

/// Every amount `product` reads parses without a panic.
pub open spec fn amounts_parse(d: ItemData) -> bool {
    &&& (d.price is None && d.prices.len() > 0) ==> (d.prices[0].amount matches Some(a) ==> !parse_panics(a@))
    &&& forall|i: int| 0 <= i < d.prices.len() && is_list(#[trigger] d.prices[i]) ==> amount_parses(d.prices[i])
}

pub type VariationView = (Seq<char>, Option<Seq<char>>, Option<Seq<char>>, Option<Seq<char>>, Option<Price>);

pub open spec fn variation_view(v: DomainVariation) -> VariationView {
    (v.keycode@, v.name.deep_view(), v.colour.deep_view(), v.size.deep_view(), v.price)
}

/// The variations that carry a keycode of their own, in order.
pub open spec fn variations_of(vs: Seq<Variation>) -> Seq<VariationView>
    decreases vs.len(),
{
    if vs.len() == 0 {
        seq![]
    } else {
        let before = variations_of(vs.drop_last());
        let v = vs.last();
        match v.data.variation_id {
            Some(k) => before.push((k@, v.value.deep_view(), v.data.colour.deep_view(), v.data.size.deep_view(), v.data.price)),
            None => before,
        }
    }
}

pub open spec fn string_views(v: Seq<String>) -> Seq<Seq<char>> {
    v.map_values(|s: String| s@)
}

/// What one search result comes to as a product: all of it, or nothing for
/// a record with no keycode.
pub open spec fn product_is(r: SearchResult, p: Option<Product>) -> bool {
    let d = r.data;
    match keycode_of(d) {
        None => p is None,
        Some(k) => p matches Some(p) && {
            &&& p.keycode@ == k
            &&& p.name@ == (match r.value {
                Some(v) => v@,
                None => Seq::<char>::empty(),
            })
            &&& p.brand.deep_view() == d.brand.deep_view()
            &&& (match effective_price(d) {
                Some(c) => p.price matches Some(x) && x.cents == c,
                None => p.price is None,
            })
            &&& (match markdown(d.prices@, effective_price(d)) {
                Some(c) => p.was matches Some(x) && x.cents == c,
                None => p.was is None,
            })
            &&& p.currency.deep_view() == (if d.prices.len() > 0 {
                d.prices[0].currency.deep_view()
            } else {
                None
            })
            &&& p.colour.deep_view() == d.colour.deep_view()
            &&& p.size.deep_view() == d.size.deep_view()
            &&& p.seller.deep_view() == (if d.seller.len() > 0 {
                Some(d.seller[0]@)
            } else {
                None
            })
            &&& (match d.ratings {
                Some(rt) => match rt.average_score {
                    Some(sc) => p.rating matches Some(x) && x.score == sc && x.reviews == (match rt.total_reviews {
                        Some(n) => n,
                        None => 0,
                    }),
                    None => p.rating is None,
                },
                None => p.rating is None,
            })
            &&& p.url.deep_view() == d.url.deep_view()
            &&& p.image.deep_view() == d.image_url.deep_view()
            &&& string_views(p.images@) == string_views(d.alt_images@)
            &&& p.description.deep_view() == d.description.deep_view()
            &&& p.free_shipping == (d.free_shipping == Some(true))
            &&& p.national_inventory == (d.national_inventory == Some(true))
            &&& p.category_id.deep_view() == d.primary_category_id.deep_view()
            &&& p.variations@.map_values(|v: DomainVariation| variation_view(v)) == variations_of(r.variations@)
            &&& pair_views(p.extra@) == pair_views(d.extra@)
        }
    }
}

fn copy_text(v: &Vec<String>) -> (r: Vec<String>)
    ensures
        string_views(r@) == string_views(v@),
{
    let mut out: Vec<String> = Vec::new();
    let mut i: usize = 0;
    while i < v.len()
        invariant
            i <= v@.len(),
            string_views(out@) == string_views(v@.take(i as int)),
        decreases v@.len() - i,
    {
        let ghost before = string_views(out@);
        out.push(v[i].clone());
        assert(string_views(out@) =~= before.push(v@[i as int]@));
        assert(string_views(v@.take(i + 1)) =~= string_views(v@.take(i as int)).push(v@[i as int]@));
        i += 1;
    }
    assert(v@.take(v@.len() as int) =~= v@);
    out
}

fn copy_pairs(v: &Vec<(String, String)>) -> (r: Vec<(String, String)>)
    ensures
        pair_views(r@) == pair_views(v@),
{
    let mut out: Vec<(String, String)> = Vec::new();
    let mut i: usize = 0;
    while i < v.len()
        invariant
            i <= v@.len(),
            pair_views(out@) == pair_views(v@.take(i as int)),
        decreases v@.len() - i,
    {
        let ghost before = pair_views(out@);
        out.push((v[i].0.clone(), v[i].1.clone()));
        assert(pair_views(out@) =~= before.push((v@[i as int].0@, v@[i as int].1@)));
        assert(pair_views(v@.take(i + 1)) =~= pair_views(v@.take(i as int)).push((v@[i as int].0@, v@[i as int].1@)));
        i += 1;
    }
    assert(v@.take(v@.len() as int) =~= v@);
    out
}

fn keycode(d: &ItemData) -> (r: Option<String>)
    ensures
        r.deep_view() == keycode_of(*d),
{
    match &d.variation_id {
        Some(v) => Some(v.clone()),
        None => match &d.id {
            Some(i) => if starts_with_str(i.as_str(), "P_") {
                proof {
                    reveal_strlit("P_");
                }
                let w = chars_of(i.as_str());
                Some(string_range(&w, 2, w.len()))
            } else {
                None
            },
            None => None,
        },
    }
}

fn markdown_of(entries: &Vec<PriceEntry>, now: Option<Price>) -> (r: Option<Price>)
    requires
        forall|i: int| 0 <= i < entries@.len() && is_list(#[trigger] entries@[i]) ==> amount_parses(entries@[i]),
    ensures
        match markdown(entries@, match now { Some(p) => Some(p.cents as int), None => None }) {
            Some(c) => r matches Some(x) && x.cents == c,
            None => r is None,
        },
{
    let ghost n = match now {
        Some(p) => Some(p.cents as int),
        None => None,
    };
    let mut best: Option<Price> = None;
    let mut i: usize = 0;
    while i < entries.len()
        invariant
            i <= entries@.len(),
            n == (match now { Some(p) => Some(p.cents as int), None => None }),
            forall|j: int| 0 <= j < entries@.len() && is_list(#[trigger] entries@[j]) ==> amount_parses(entries@[j]),
            match markdown(entries@.take(i as int), n) {
                Some(c) => best matches Some(x) && x.cents == c,
                None => best is None,
            },
        decreases entries@.len() - i,
    {
        assert(entries@.take(i + 1).drop_last() =~= entries@.take(i as int));
        assert(entries@.take(i + 1).last() == entries@[i as int]);
        let e = &entries[i];
        let is_list = match &e.kind {
            Some(k) => eq_str(k.as_str(), "list"),
            None => false,
        };
        if is_list {
            match &e.amount {
                Some(a) => match Price::parse(a.as_str()) {
                    Some(x) => match now {
                        Some(p) => {
                            if x.cents > p.cents {
                                best = match best {
                                    Some(b) => Some(if x.cents > b.cents { x } else { b }),
                                    None => Some(x),
                                };
                            }
                        },
                        None => {},
                    },
                    None => {},
                },
                None => {},
            }
        }
        i += 1;
    }
    assert(entries@.take(entries@.len() as int) =~= entries@);
    best
}

fn variations(vs: &Vec<Variation>) -> (r: Vec<DomainVariation>)
    ensures
        r@.map_values(|v: DomainVariation| variation_view(v)) == variations_of(vs@),
{
    let mut out: Vec<DomainVariation> = Vec::new();
    let mut i: usize = 0;
    while i < vs.len()
        invariant
            i <= vs@.len(),
            out@.map_values(|v: DomainVariation| variation_view(v)) == variations_of(vs@.take(i as int)),
        decreases vs@.len() - i,
    {
        assert(vs@.take(i + 1).drop_last() =~= vs@.take(i as int));
        assert(vs@.take(i + 1).last() == vs@[i as int]);
        let v = &vs[i];
        match &v.data.variation_id {
            Some(k) => {
                let x = DomainVariation {
                    keycode: k.clone(),
                    name: v.value.clone(),
                    colour: v.data.colour.clone(),
                    size: v.data.size.clone(),
                    price: v.data.price,
                };
                let ghost before = out@.map_values(|v: DomainVariation| variation_view(v));
                out.push(x);
                assert(out@.map_values(|v: DomainVariation| variation_view(v)) =~= before.push(variation_view(x)));
            },
            None => {},
        }
        i += 1;
    }
    assert(vs@.take(vs@.len() as int) =~= vs@);
    out
}

/// One search result as a product; nothing for a record with no keycode.
///
/// The `price` number is the effective one -- what the site renders; the
/// `prices` list is where a currency is stated, and where a higher `list`
/// entry reveals a markdown.
pub fn product(result: &SearchResult) -> (p: Option<Product>)
    requires
        amounts_parse(result.data),
    ensures
        product_is(*result, p),
        p matches Some(q) ==> (q.was matches Some(w) ==> (q.price matches Some(x) && w.cents > x.cents)),
{
    let d = &result.data;
    let keycode = match keycode(d) {
        Some(k) => k,
        None => return None,
    };
    let price = match d.price {
        Some(p) => Some(p),
        None => if d.prices.len() > 0 {
            match &d.prices[0].amount {
                Some(a) => Price::parse(a.as_str()),
                None => None,
            }
        } else {
            None
        },
    };
    assert(match effective_price(*d) {
        Some(c) => price matches Some(x) && x.cents == c,
        None => price is None,
    });
    let was = markdown_of(&d.prices, price);
    let rating = match &d.ratings {
        Some(r) => match r.average_score {
            Some(score) => Some(Rating {
                score,
                reviews: match r.total_reviews {
                    Some(n) => n,
                    None => 0,
                },
            }),
            None => None,
        },
        None => None,
    };
    let p = Product {
        keycode,
        name: match &result.value {
            Some(v) => v.clone(),
            None => String::new(),
        },
        brand: d.brand.clone(),
        price,
        was,
        currency: if d.prices.len() > 0 { d.prices[0].currency.clone() } else { None },
        colour: d.colour.clone(),
        size: d.size.clone(),
        seller: if d.seller.len() > 0 { Some(d.seller[0].clone()) } else { None },
        rating,
        url: d.url.clone(),
        image: d.image_url.clone(),
        images: copy_text(&d.alt_images),
        description: d.description.clone(),
        free_shipping: d.free_shipping == Some(true),
        national_inventory: d.national_inventory == Some(true),
        category_id: d.primary_category_id.clone(),
        variations: variations(&result.variations),
        extra: copy_pairs(&d.extra),
    };
    proof {
        lemma_was_above_price(*result, Some(p));
    }
    Some(p)
}


/// `ps` is what `rs` come to as products, those without a keycode dropped.
pub open spec fn listed(rs: Seq<SearchResult>, ps: Seq<Product>) -> bool
    decreases rs.len(),
{
    if rs.len() == 0 {
        ps.len() == 0
    } else if keycode_of(rs.last().data) is None {
        listed(rs.drop_last(), ps)
    } else {
        ps.len() > 0 && product_is(rs.last(), Some(ps.last())) && listed(rs.drop_last(), ps.drop_last())
    }
}

pub type FacetView = (Seq<char>, Option<Seq<char>>, Seq<(Seq<char>, Option<Seq<char>>, Option<u64>)>);

pub open spec fn facet_view(f: DomainFacet) -> FacetView {
    (f.name@, f.label.deep_view(), f.options@.map_values(|o: DomainFacetOption| (o.value@, o.label.deep_view(), o.count)))
}

/// The options that carry a value.
pub open spec fn options_of(os: Seq<FacetOption>) -> Seq<(Seq<char>, Option<Seq<char>>, Option<u64>)>
    decreases os.len(),
{
    if os.len() == 0 {
        seq![]
    } else {
        let before = options_of(os.drop_last());
        match os.last().value {
            Some(v) => before.push((v@, os.last().display_name.deep_view(), os.last().count)),
            None => before,
        }
    }
}

/// The refinements that carry a name.
pub open spec fn facets_of(fs: Seq<Facet>) -> Seq<FacetView>
    decreases fs.len(),
{
    if fs.len() == 0 {
        seq![]
    } else {
        let before = facets_of(fs.drop_last());
        match fs.last().name {
            Some(n) => before.push((n@, fs.last().display_name.deep_view(), options_of(fs.last().options@))),
            None => before,
        }
    }
}

pub type SortView = (Seq<char>, Seq<char>, Option<Seq<char>>);

pub open spec fn sort_view(s: DomainSort) -> SortView {
    (s.by@, s.order@, s.label.deep_view())
}

/// The sorts that name a field, descending where no order is given.
pub open spec fn sorts_of(ss: Seq<SortOption>) -> Seq<SortView>
    decreases ss.len(),
{
    if ss.len() == 0 {
        seq![]
    } else {
        let before = sorts_of(ss.drop_last());
        let s = ss.last();
        match s.sort_by {
            Some(b) => before.push((b@, match s.sort_order {
                Some(o) => o@,
                None => "descending"@,
            }, s.display_name.deep_view())),
            None => before,
        }
    }
}

/// The count a source contributed, by its name.
pub open spec fn source_count(sources: Seq<(String, ResultSource)>, name: Seq<char>) -> Option<u64>
    decreases sources.len(),
{
    if sources.len() == 0 {
        None
    } else if sources[0].0@ == name {
        Some(sources[0].1.count)
    } else {
        source_count(sources.drop_first(), name)
    }
}

fn options(os: &Vec<FacetOption>) -> (r: Vec<DomainFacetOption>)
    ensures
        r@.map_values(|o: DomainFacetOption| (o.value@, o.label.deep_view(), o.count)) == options_of(os@),
{
    let mut out: Vec<DomainFacetOption> = Vec::new();
    let mut i: usize = 0;
    while i < os.len()
        invariant
            i <= os@.len(),
            out@.map_values(|o: DomainFacetOption| (o.value@, o.label.deep_view(), o.count)) == options_of(os@.take(i as int)),
        decreases os@.len() - i,
    {
        assert(os@.take(i + 1).drop_last() =~= os@.take(i as int));
        assert(os@.take(i + 1).last() == os@[i as int]);
        match &os[i].value {
            Some(v) => {
                let o = DomainFacetOption { value: v.clone(), label: os[i].display_name.clone(), count: os[i].count };
                let ghost before = out@.map_values(|o: DomainFacetOption| (o.value@, o.label.deep_view(), o.count));
                out.push(o);
                assert(out@.map_values(|o: DomainFacetOption| (o.value@, o.label.deep_view(), o.count)) =~= before.push(
                    (o.value@, o.label.deep_view(), o.count),
                ));
            },
            None => {},
        }
        i += 1;
    }
    assert(os@.take(os@.len() as int) =~= os@);
    out
}

fn count_of(sources: &Vec<(String, ResultSource)>, name: &str) -> (r: Option<u64>)
    ensures
        r == source_count(sources@, name@),
{
    let mut k: usize = 0;
    assert(sources@.skip(0) =~= sources@);
    while k < sources.len()
        invariant
            k <= sources@.len(),
            source_count(sources@, name@) == source_count(sources@.skip(k as int), name@),
        decreases sources@.len() - k,
    {
        assert(sources@.skip(k as int)[0] == sources@[k as int]);
        assert(sources@.skip(k as int).drop_first() =~= sources@.skip(k + 1));
        if eq_str(sources[k].0.as_str(), name) {
            return Some(sources[k].1.count);
        }
        k += 1;
    }
    None
}

/// A whole listing response: its products, its total, how many matched the
/// words typed, and the refinements and sorts it offers.
pub fn listing_from(response: &SearchResponse) -> (l: Listing)
    requires
        forall|i: int| 0 <= i < response.results@.len() ==> amounts_parse(#[trigger] response.results@[i].data),
    ensures
        listed(response.results@, l.products@),
        l.total == response.total_num_results,
        l.exact == source_count(response.result_sources@, "token_match"@),
        l.facets@.map_values(|f: DomainFacet| facet_view(f)) == facets_of(response.facets@),
        l.sorts@.map_values(|s: DomainSort| sort_view(s)) == sorts_of(response.sort_options@),
{
    let rs = &response.results;
    let mut products: Vec<Product> = Vec::new();
    let mut i: usize = 0;
    while i < rs.len()
        invariant
            i <= rs@.len(),
            forall|j: int| 0 <= j < rs@.len() ==> amounts_parse(#[trigger] rs@[j].data),
            listed(rs@.take(i as int), products@),
        decreases rs@.len() - i,
    {
        assert(rs@.take(i + 1).drop_last() =~= rs@.take(i as int));
        assert(rs@.take(i + 1).last() == rs@[i as int]);
        assert(amounts_parse(rs@[i as int].data));
        match product(&rs[i]) {
            Some(p) => {
                let ghost before = products@;
                products.push(p);
                assert(products@.drop_last() =~= before);
            },
            None => {},
        }
        i += 1;
    }
    assert(rs@.take(rs@.len() as int) =~= rs@);
    let exact = count_of(&response.result_sources, "token_match");
    let fs = &response.facets;
    let mut facets: Vec<DomainFacet> = Vec::new();
    let mut f: usize = 0;
    while f < fs.len()
        invariant
            f <= fs@.len(),
            facets@.map_values(|x: DomainFacet| facet_view(x)) == facets_of(fs@.take(f as int)),
        decreases fs@.len() - f,
    {
        assert(fs@.take(f + 1).drop_last() =~= fs@.take(f as int));
        assert(fs@.take(f + 1).last() == fs@[f as int]);
        match &fs[f].name {
            Some(n) => {
                let x = DomainFacet { name: n.clone(), label: fs[f].display_name.clone(), options: options(&fs[f].options) };
                let ghost before = facets@.map_values(|x: DomainFacet| facet_view(x));
                facets.push(x);
                assert(facets@.map_values(|x: DomainFacet| facet_view(x)) =~= before.push(facet_view(x)));
            },
            None => {},
        }
        f += 1;
    }
    assert(fs@.take(fs@.len() as int) =~= fs@);
    let ss = &response.sort_options;
    let mut sorts: Vec<DomainSort> = Vec::new();
    let mut j: usize = 0;
    while j < ss.len()
        invariant
            j <= ss@.len(),
            sorts@.map_values(|x: DomainSort| sort_view(x)) == sorts_of(ss@.take(j as int)),
        decreases ss@.len() - j,
    {
        assert(ss@.take(j + 1).drop_last() =~= ss@.take(j as int));
        assert(ss@.take(j + 1).last() == ss@[j as int]);
        match &ss[j].sort_by {
            Some(b) => {
                let order = match &ss[j].sort_order {
                    Some(o) => o.clone(),
                    None => "descending".to_owned(),
                };
                let x = DomainSort { by: b.clone(), order, label: ss[j].display_name.clone() };
                let ghost before = sorts@.map_values(|x: DomainSort| sort_view(x));
                sorts.push(x);
                assert(sorts@.map_values(|x: DomainSort| sort_view(x)) =~= before.push(sort_view(x)));
            },
            None => {},
        }
        j += 1;
    }
    assert(ss@.take(ss@.len() as int) =~= ss@);
    Listing { products, total: response.total_num_results, exact, facets, sorts }
}

} // verus!
