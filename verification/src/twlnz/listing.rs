//! Finding products: search, browse, and the paging both share.
//!
//! One endpoint answers both: it takes either `q=` for a keyword or `cgid=`
//! for a category. Paging is a window -- `sz` stays constant while `start`
//! walks -- so any page can be asked for directly.
use vstd::prelude::*;

use crate::twlnz::domain::{Island, Product};
use crate::text;
use crate::text::{cat, chars_of, decimal_string, find_at, index_in, string_range, trim_end_char_str};

verus! {

pub const PAGE_SIZE: u32 = 32;

/// The sort rule the storefront lists with when none is named.
pub const DEFAULT_SORT: &'static str = "default-navigation";

/// A refinement: a facet name and one of its values.
pub struct Facet {
    pub name: String,
    pub value: String,
}

impl Facet {
    pub fn new(name: String, value: String) -> (f: Facet)
        ensures
            f.name == name,
            f.value == value,
    {
        Facet { name, value }
    }
}

/// What a listing lists: a keyword search or a category.
pub enum Query {
    Keyword(String),
    Category(String),
}

impl Query {
    pub open spec fn key_spec(&self) -> Seq<char> {
        match self {
            Query::Keyword(_) => "q"@,
            Query::Category(_) => "cgid"@,
        }
    }

    pub open spec fn text_spec(&self) -> Seq<char> {
        match self {
            Query::Keyword(q) => q@,
            Query::Category(c) => c@,
        }
    }

    /// The one parameter a search and a browse differ in.
    pub fn param(&self) -> (r: (&'static str, &str))
        ensures
            r.0@ == self.key_spec(),
            r.1@ == self.text_spec(),
    {
        match self {
            Query::Keyword(q) => ("q", q.as_str()),
            Query::Category(c) => ("cgid", c.as_str()),
        }
    }

    /// What the listing is of, for a message.
    pub fn describes(&self) -> (r: &str)
        ensures
            r@ == self.text_spec(),
    {
        match self {
            Query::Keyword(q) => q.as_str(),
            Query::Category(c) => c.as_str(),
        }
    }
}

/// The numbered refinement pairs for `facets`, the first numbered `first`.
pub open spec fn facet_pairs(facets: Seq<Facet>, first: nat) -> Seq<(Seq<char>, Seq<char>)>
    decreases facets.len(),
{
    if facets.len() == 0 {
        seq![]
    } else {
        let k = first + facets.len() - 1;
        facet_pairs(facets.drop_last(), first) + seq![
            ("prefn"@ + text::decimal(k as nat), facets.last().name@),
            ("prefv"@ + text::decimal(k as nat), facets.last().value@),
        ]
    }
}

/// The parameters of one window of a listing. The island is a refinement
/// like any other, so it takes the first numbered slot and the caller's
/// facets are numbered after it.
pub open spec fn listing_params(
    query: Query,
    start: u32,
    size: u32,
    sort: Option<Seq<char>>,
    island: Option<Seq<char>>,
    facets: Seq<Facet>,
) -> Seq<(Seq<char>, Seq<char>)> {
    let head = seq![
        (query.key_spec(), query.text_spec()),
        ("start"@, text::decimal(start as nat)),
        ("sz"@, text::decimal(size as nat)),
    ];
    let sorted = match sort {
        Some(s) => seq![("srule"@, s)],
        None => seq![],
    };
    let isle = match island {
        Some(v) => seq![("prefn1"@, "islandAvailability"@), ("prefv1"@, v)],
        None => seq![],
    };
    let first: nat = if island is Some { 2 } else { 1 };
    head + sorted + isle + facet_pairs(facets, first)
}

/// The storefront's value for an island.
pub open spec fn island_value(i: Island) -> Seq<char> {
    match i {
        Island::North => "northIsland"@,
        Island::South => "southIsland"@,
    }
}

/// The parameters of one window of a listing.
pub fn params(
    query: &Query,
    start: u32,
    size: u32,
    sort: Option<&str>,
    island: Option<Island>,
    facets: &[Facet],
) -> (r: Vec<(String, String)>)
    requires
        facets@.len() < u64::MAX - 2,
    ensures
        r@.map_values(|p: (String, String)| (p.0@, p.1@)) == listing_params(
            *query,
            start,
            size,
            match sort {
                Some(s) => Some(s@),
                None => None,
            },
            match island {
                Some(i) => Some(island_value(i)),
                None => None,
            },
            facets@,
        ),
{
    let (key, value) = query.param();
    let mut out: Vec<(String, String)> = Vec::new();
    out.push((key.to_owned(), value.to_owned()));
    out.push(("start".to_owned(), decimal_string(start as u64)));
    out.push(("sz".to_owned(), decimal_string(size as u64)));
    match sort {
        Some(s) => out.push(("srule".to_owned(), s.to_owned())),
        None => {},
    }
    let mut n: u64 = 1;
    match island {
        Some(i) => {
            out.push(("prefn1".to_owned(), "islandAvailability".to_owned()));
            out.push(("prefv1".to_owned(), i.value().to_owned()));
            n = 2;
        },
        None => {},
    }
    let ghost first = n as nat;
    let ghost before = out@.map_values(|p: (String, String)| (p.0@, p.1@));
    let m = facets.len();
    let mut j: usize = 0;
    while j < m
        invariant
            m == facets@.len(),
            m < u64::MAX - 2,
            j <= m,
            first == 1 || first == 2,
            n == first + j,
            out@.map_values(|p: (String, String)| (p.0@, p.1@)) == before + facet_pairs(
                facets@.take(j as int),
                first,
            ),
        decreases m - j,
    {
        let num = decimal_string(n);
        let ghost prev = out@.map_values(|p: (String, String)| (p.0@, p.1@));
        out.push((cat("prefn", num.as_str()), facets[j].name.clone()));
        out.push((cat("prefv", num.as_str()), facets[j].value.clone()));
        assert(facets@.take(j + 1).drop_last() =~= facets@.take(j as int));
        assert(facets@.take(j + 1).last() == facets@[j as int]);
        assert(out@.map_values(|p: (String, String)| (p.0@, p.1@)) =~= prev + seq![
            ("prefn"@ + text::decimal(n as nat), facets@[j as int].name@),
            ("prefv"@ + text::decimal(n as nat), facets@[j as int].value@),
        ]);
        n = n + 1;
        j += 1;
    }
    assert(facets@.take(m as int) =~= facets@);
    assert(out@.map_values(|p: (String, String)| (p.0@, p.1@)) =~= listing_params(
        *query,
        start,
        size,
        match sort {
            Some(s) => Some(s@),
            None => None,
        },
        match island {
            Some(i) => Some(island_value(i)),
            None => None,
        },
        facets@,
    ));
    out
}

/// The category a URL lands on: the part of its path after `/c/`, up to any
/// further `/c/`, trailing slashes trimmed; none when there is no such part
/// or it is empty.
pub open spec fn landed_category(url: Seq<char>) -> Option<Seq<char>> {
    let path = text::split_char(url, '?')[0];
    let parts = text::split_str(path, "/c/"@);
    if parts.len() < 2 {
        None
    } else {
        let rest = text::trim_end_char(parts[1], '/');
        if rest.len() == 0 {
            None
        } else {
            Some(rest)
        }
    }
}

/// Whether a search was redirected into a category, and which.
pub fn category_from_url(url: &str) -> (r: Option<String>)
    ensures
        r.deep_view() == landed_category(url@),
{
    let v = chars_of(url);
    let n = v.len();
    let end = match index_in(&v, '?', 0, n) {
        Some(q) => q,
        None => n,
    };
    proof {
        text::lemma_split_nonempty(v@, '?');
        assert(v@.subrange(0, n as int) =~= v@);
    }
    let path = string_range(&v, 0, end);
    let p = chars_of(path.as_str());
    assert(text::split_char(url@, '?')[0] == p@);
    let pat = chars_of("/c/");
    proof {
        reveal_strlit("/c/");
        text::lemma_find_from(p@, pat@, 0);
    }
    let a = match find_at(&p, &pat, 0) {
        None => {
            return None;
        },
        Some(a) => a,
    };
    let after = a + 3;
    let ghost rest = p@.subrange(after as int, p@.len() as int);
    proof {
        assert(text::matches_at(p@, pat@, a as int));
        text::lemma_find_skip(p@, pat@, after as int, 0);
        assert(after as int + 0 == after as int);
        assert(p@.skip(after as int) =~= rest);
        text::lemma_find_from(rest, pat@, 0);
    }
    let b = match find_at(&p, &pat, after) {
        Some(b) => b,
        None => p.len(),
    };
    proof {
        let parts = text::split_str(p@, pat@);
        assert(parts.drop_first() == text::split_str(rest, pat@));
        assert(text::split_str(rest, pat@)[0] =~= p@.subrange(after as int, b as int));
    }
    let piece = string_range(&p, after, b);
    let t = trim_end_char_str(piece.as_str(), '/');
    if t.as_str().is_empty() {
        None
    } else {
        Some(t)
    }
}

// ------------------------------------------------------- paging a search

/// One window of results.
pub struct Listing {
    pub products: Vec<Product>,
    /// How many the whole listing holds, when the page said: only the header
    /// of a listing carries it.
    pub total: Option<u32>,
    /// The category a keyword search landed in, when it redirected into one.
    pub category: Option<String>,
}

/// How many to ask for when `have` of `max` are in hand: a page at most,
/// and never none.
pub open spec fn window_for(max: u32, have: nat) -> u32 {
    let left: int = if have >= max { 0 } else { max - have };
    let w: int = if left < PAGE_SIZE { left } else { PAGE_SIZE as int };
    if w < 1 {
        1
    } else {
        w as u32
    }
}

/// A search being paged: windows are asked for until `max` products are in
/// hand or the results run out. The fetching is the caller's; what to ask
/// for next, and when to stop, is decided here.
pub struct Paging {
    /// What is being listed; a keyword search that lands in a category is
    /// paged as that category from then on.
    pub query: Query,
    pub max: u32,
    pub products: Vec<Product>,
    pub total: Option<u32>,
    pub category: Option<String>,
    /// The offset of the next window.
    pub start: u32,
    /// Whether a window has shown the results to be exhausted.
    pub done: bool,
}

impl Paging {
    pub fn new(query: Query, max: u32) -> (p: Paging)
        ensures
            p.query == query,
            p.max == max,
            p.products@.len() == 0,
            p.total is None,
            p.category is None,
            p.start == 0,
            !p.done,
    {
        Paging { query, max, products: Vec::new(), total: None, category: None, start: 0, done: false }
    }

    /// Whether another window is wanted.
    pub open spec fn wants_more(&self) -> bool {
        !self.done && self.products@.len() < self.max
    }

    /// The window to fetch next, as `(start, size)`, or nothing once done.
    pub fn next_window(&self) -> (r: Option<(u32, u32)>)
        ensures
            match r {
                Some((start, size)) => self.wants_more() && start == self.start && size == window_for(
                    self.max,
                    self.products@.len(),
                ),
                None => !self.wants_more(),
            },
    {
        if self.done || self.products.len() as u64 >= self.max as u64 {
            return None;
        }
        let left = self.max - (self.products.len() as u32);
        let w = if left < PAGE_SIZE { left } else { PAGE_SIZE };
        let size = if w < 1 { 1 } else { w };
        Some((self.start, size))
    }

    /// Take in the window fetched for [`Paging::next_window`]. A window
    /// shorter than the one asked for is the end of the results -- the
    /// load-bearing stop, since a fragment does not always carry a total --
    /// and so is holding as many as the total says there are. A keyword that
    /// resolved to a category is paged as that category from here, because
    /// `q=` and `cgid=` are not interchangeable once the site has decided.
    pub fn take(&mut self, page: Listing)
        requires
            old(self).wants_more(),
            old(self).start + page.products@.len() <= u32::MAX,
        ensures
            final(self).max == old(self).max,
            final(self).products@ == old(self).products@ + page.products@,
            final(self).total == (match page.total {
                Some(t) => Some(t),
                None => old(self).total,
            }),
            final(self).category == (match old(self).category {
                Some(c) => Some(c),
                None => page.category,
            }),
            final(self).query == (match (old(self).category, page.category, old(self).query) {
                (None, Some(c), Query::Keyword(_)) => Query::Category(c),
                _ => old(self).query,
            }),
            final(self).start == old(self).start + page.products@.len(),
            final(self).done == (page.products@.len() < window_for(old(self).max, old(self).products@.len())
                || (final(self).total matches Some(t) && final(self).products@.len() >= t)),
    {
        let size = match self.next_window() {
            Some((_, z)) => z,
            None => 1,
        };
        let Listing { products, total, category } = page;
        let got = products.len();
        let mut products = products;
        self.products.append(&mut products);
        if total.is_some() {
            self.total = total;
        }
        match category {
            Some(landed) => {
                if self.category.is_none() {
                    let keyword = match &self.query {
                        Query::Keyword(_) => true,
                        Query::Category(_) => false,
                    };
                    if keyword {
                        self.query = Query::Category(landed.clone());
                    }
                    self.category = Some(landed);
                }
            },
            None => {},
        }
        self.start = self.start + (got as u32);
        let short = (got as u64) < (size as u64);
        let full = match self.total {
            Some(t) => self.products.len() as u64 >= t as u64,
            None => false,
        };
        self.done = short || full;
    }

    /// What the search came to: at most `max` products, the total, and the
    /// category a keyword landed in.
    pub fn finish(self) -> (l: Listing)
        ensures
            l.products@ == (if self.products@.len() <= self.max {
                self.products@
            } else {
                self.products@.subrange(0, self.max as int)
            }),
            l.total == self.total,
            l.category == self.category,
    {
        let Paging { products, total, category, max, .. } = self;
        let mut products = products;
        if products.len() as u64 > max as u64 {
            products.truncate(max as usize);
        }
        Listing { products, total, category }
    }
}

} // verus!
