//! What the storefront client decides between its requests: where a
//! request goes and what it carries, which page it claims to come from, and
//! what an answer comes to. The requests themselves are the caller's.
use vstd::prelude::*;

use crate::netkit::cookies::{entries_get, CookieMap, Entries};
use crate::netkit::jwt::{json_str_claim, json_valid, json_value, str_claim};
use crate::text;
use crate::text::{cat, cat3, chars_of, decimal_string, eq_str, index_in, split_ranges, string_range};
use crate::twlnz::domain::{CartLine, ProductDetail};
use crate::twlnz::endpoints::{query_string, Endpoints};
use crate::twlnz::error::Error;
use crate::twlnz::extract::{region_links, region_links_of, selected, REGION_OPTION};
use crate::twlnz::stores::{region, region_from};

verus! {

/// The value of the first `key=value` pair among `pairs` whose key is `pid`
/// or `productId`.
pub open spec fn pid_in(pairs: Seq<Seq<char>>) -> Option<Seq<char>>
    decreases pairs.len(),
{
    if pairs.len() == 0 {
        None
    } else {
        match text::split_once(pairs[0], '=') {
            Some((k, v)) if k == "pid"@ || k == "productId"@ => Some(v),
            _ => pid_in(pairs.drop_first()),
        }
    }
}

/// The product an action URL is about: `pid` on most controllers and
/// `productId` on the regional stock one.
pub open spec fn action_pid(url: Seq<char>) -> Option<Seq<char>> {
    let parts = text::split_char(url, '?');
    if parts.len() < 2 {
        None
    } else {
        pid_in(text::split_char(parts[1], '&'))
    }
}

pub fn pid_of(url: &str) -> (r: Option<String>)
    ensures
        r.deep_view() == action_pid(url@),
{
    let v = chars_of(url);
    let n = v.len();
    let parts = split_ranges(&v, '?', 0, n);
    assert(v@.subrange(0, n as int) =~= v@);
    if parts.len() < 2 {
        return None;
    }
    let (qa, qb) = parts[1];
    let ghost query = v@.subrange(qa as int, qb as int);
    let pairs = split_ranges(&v, '&', qa, qb);
    let ghost all = text::split_char(query, '&');
    assert(text::split_char(url@, '?')[1] == query);
    assert(action_pid(url@) == pid_in(all));
    let m = pairs.len();
    let mut i: usize = 0;
    assert(all.skip(0) =~= all);
    while i < m
        invariant
            m == pairs@.len(),
            crate::text::pieces(v@, pairs@) == all,
            crate::text::ranges_within(pairs@, qa as int, qb as int),
            qb <= n,
            n == v@.len(),
            i <= m,
            pid_in(all) == pid_in(all.skip(i as int)),
            action_pid(url@) == pid_in(all),
            v@ == url@,
        decreases m - i,
    {
        let (a, b) = pairs[i];
        assert(pairs@[i as int] == (a, b));
        let ghost pair = v@.subrange(a as int, b as int);
        assert(all[i as int] == pair);
        assert(all.skip(i as int)[0] == pair);
        assert(all.skip(i as int).drop_first() =~= all.skip(i + 1));
        match index_in(&v, '=', a, b) {
            Some(e) => {
                assert(pair.subrange(0, e - a) =~= v@.subrange(a as int, e as int));
                assert(pair.subrange(e - a + 1, pair.len() as int) =~= v@.subrange(e + 1, b as int));
                let key = string_range(&v, a, e);
                if eq_str(key.as_str(), "pid") || eq_str(key.as_str(), "productId") {
                    return Some(string_range(&v, e + 1, b));
                }
            },
            None => {},
        }
        i += 1;
    }
    None
}

/// A page older than this, in seconds, is re-read before its tokens are
/// spent: the real expiry is not published, and five minutes is well inside
/// the window observed to work.
pub const TOKEN_MAX_AGE_SECS: u64 = 300;

/// What a cart add does once a post has been answered.
pub enum AddNext {
    /// The token was refused as stale the first time: re-read the product
    /// page and post once more with its fresh token.
    ReadPageAndPost,
    /// Done: the answer stands, success or failure.
    Finish(Result<serde_json::Value, Error>),
}

/// A cart add's decision after a post: a refusal for a stale page token is
/// retried once against a freshly read page; any other answer, or a second
/// stale refusal, is the result.
pub fn after_add(answer: Result<serde_json::Value, Error>, retried: bool) -> (r: AddNext)
    ensures
        (answer matches Err(e) && e is TokenExpired && !retried) ==> r is ReadPageAndPost,
        !(answer matches Err(e) && e is TokenExpired && !retried) ==> r == AddNext::Finish(answer),
{
    match answer {
        Err(e) => {
            if e.is_stale_token() && !retried {
                AddNext::ReadPageAndPost
            } else {
                AddNext::Finish(Err(e))
            }
        },
        Ok(v) => AddNext::Finish(Ok(v)),
    }
}

/// The page a browser would have been standing on for a background request:
/// for anything about a product, the product page, where the token in the
/// URL was minted; otherwise the home page.
pub fn xhr_referer(endpoints: &Endpoints, url: &str) -> (r: String)
    ensures
        r@ == (match action_pid(url@) {
            Some(pid) => endpoints.origin@ + "/p/"@ + "p"@ + "/"@ + pid + ".html"@,
            None => endpoints.origin@ + "/"@,
        }),
{
    proof {
        reveal_strlit("p");
        assert(text::trim_end_char("p"@, '/') == "p"@);
        assert(text::trim_start_char("p"@, '/') == "p"@);
    }
    match pid_of(url) {
        Some(pid) => endpoints.product_page("p", pid.as_str()),
        None => cat(endpoints.origin.as_str(), "/"),
    }
}

/// The same for a form post: the product page, else the cart.
pub fn form_referer(endpoints: &Endpoints, url: &str) -> (r: String)
    ensures
        r@ == (match action_pid(url@) {
            Some(pid) => endpoints.origin@ + "/p/"@ + "p"@ + "/"@ + pid + ".html"@,
            None => endpoints.origin@ + "/cart"@,
        }),
{
    proof {
        reveal_strlit("p");
        assert(text::trim_end_char("p"@, '/') == "p"@);
        assert(text::trim_start_char("p"@, '/') == "p"@);
    }
    match pid_of(url) {
        Some(pid) => endpoints.product_page("p", pid.as_str()),
        None => endpoints.cart_page(),
    }
}

/// Where a GET goes: the URL as given when there are no parameters, else
/// with the parameters this crate composed appended -- so a pre-signed URL
/// is never re-encoded.
pub fn request_target(url: &str, params: &[(String, String)]) -> (r: String)
    ensures
        r@ == (if params@.len() == 0 {
            url@
        } else {
            url@ + "?"@ + crate::kmart::endpoints::query_text(crate::kmart::endpoints::pair_views(params@))
        }),
{
    if params.len() == 0 {
        url.to_owned()
    } else {
        let q = query_string(params);
        cat3(url, "?", q.as_str())
    }
}

/// The typeahead's URL for `text`.
pub fn suggest_url(endpoints: &Endpoints, text: &str) -> (r: String)
    ensures
        r@ == endpoints.origin@ + "/search/suggestions"@ + "?"@ + crate::kmart::endpoints::query_text(
            seq![("q"@, text@)],
        ),
{
    let params = vec![("q".to_owned(), text.to_owned())];
    assert(crate::kmart::endpoints::pair_views(params@) =~= seq![("q"@, text@)]);
    request_target(endpoints.suggestions().as_str(), params.as_slice())
}

/// Setting a line to an exact quantity, by product id: what the site's own
/// request sends, and the only handle a person has.
pub fn quantity_url(endpoints: &Endpoints, pid: &str, quantity: u32) -> (r: String)
    ensures
        r@ == endpoints.origin@ + "/on/demandware.store/"@ + crate::twlnz::endpoints::SITE@ + "/default/"@
            + "Cart-UpdateQuantity"@ + "?pid="@ + pid@ + "&quantity="@ + text::decimal(quantity as nat),
{
    let mut out = endpoints.controller("Cart-UpdateQuantity");
    out.append("?pid=");
    out.append(pid);
    out.append("&quantity=");
    let n = decimal_string(quantity as u64);
    out.append(n.as_str());
    out
}

/// Taking a line out, by its `pli_uuid` where it has one: the site reports
/// two ids per line and this controller accepts only the second.
pub fn removal_url(endpoints: &Endpoints, line: &CartLine) -> (r: String)
    ensures
        r@ == endpoints.origin@ + "/on/demandware.store/"@ + crate::twlnz::endpoints::SITE@ + "/default/"@
            + "Cart-RemoveProductLineItem"@ + "?pid="@ + line.id@ + "&uuid="@ + (match line.pli_uuid {
            Some(u) => u@,
            None => line.uuid@,
        }),
{
    let uuid = match &line.pli_uuid {
        Some(u) => u.as_str(),
        None => line.uuid.as_str(),
    };
    let mut out = endpoints.controller("Cart-RemoveProductLineItem");
    out.append("?pid=");
    out.append(line.id.as_str());
    out.append("&uuid=");
    out.append(uuid);
    out
}

/// The cart add's form: the product, at least one of it, the page it came
/// from, and an empty Turnstile answer -- sent empty rather than left out,
/// because a missing field is a different shape from an unanswered
/// challenge.
pub fn add_form(pid: &str, quantity: u32) -> (r: Vec<(String, String)>)
    ensures
        r@.len() == 4,
        r@[0].0@ == "pid"@ && r@[0].1@ == pid@,
        r@[1].0@ == "quantity"@ && r@[1].1@ == text::decimal((if quantity < 1 { 1 } else { quantity }) as nat),
        r@[2].0@ == "context"@ && r@[2].1@ == "PDP"@,
        r@[3].0@ == "cf-turnstile-response"@ && r@[3].1@.len() == 0,
{
    proof {
        reveal_strlit("");
    }
    let q = if quantity < 1 { 1 } else { quantity };
    let mut out: Vec<(String, String)> = Vec::new();
    out.push(("pid".to_owned(), pid.to_owned()));
    out.push(("quantity".to_owned(), decimal_string(q as u64)));
    out.push(("context".to_owned(), "PDP".to_owned()));
    out.push(("cf-turnstile-response".to_owned(), "".to_owned()));
    out
}

/// The wishlist add's form: the product, once.
pub fn wishlist_form(pid: &str) -> (r: Vec<(String, String)>)
    ensures
        r@.len() == 2,
        r@[0].0@ == "pid"@ && r@[0].1@ == pid@,
        r@[1].0@ == "quantity"@ && r@[1].1@ == "1"@,
{
    let mut out: Vec<(String, String)> = Vec::new();
    out.push(("pid".to_owned(), pid.to_owned()));
    out.push(("quantity".to_owned(), "1".to_owned()));
    out
}

/// Binding the cart to a store: both fields carry the same id, as the
/// site's own form sends them.
pub fn store_form(store_id: &str) -> (r: Vec<(String, String)>)
    ensures
        r@.len() == 2,
        r@[0].0@ == "preferredStoreId"@ && r@[0].1@ == store_id@,
        r@[1].0@ == "storeId"@ && r@[1].1@ == store_id@,
{
    let mut out: Vec<(String, String)> = Vec::new();
    out.push(("preferredStoreId".to_owned(), store_id.to_owned()));
    out.push(("storeId".to_owned(), store_id.to_owned()));
    out
}

/// The store finder's parameters for one region, named by code or by name.
/// An unknown region is refused before any request: the finder answers one
/// with an empty list, which would read as "no stores here".
pub fn store_params(name: &str) -> (r: Result<Vec<(String, String)>, Error>)
    ensures
        match region_from(text::trim(name@), 0) {
            Some(code) => r matches Ok(ps) && ps@.len() == 1 && ps@[0].0@ == "region"@ && ps@[0].1@ == code,
            None => r matches Err(Error::NoSuchStore(n)) && n@ == name@,
        },
{
    match region(name) {
        Some(code) => {
            let mut out: Vec<(String, String)> = Vec::new();
            out.push(("region".to_owned(), code.to_owned()));
            Ok(out)
        },
        None => Err(Error::NoSuchStore(name.to_owned())),
    }
}

/// `roots` joined with commas.
pub open spec fn comma_joined(roots: Seq<Seq<char>>) -> Seq<char>
    decreases roots.len(),
{
    if roots.len() == 0 {
        seq![]
    } else if roots.len() == 1 {
        roots[0]
    } else {
        comma_joined(roots.drop_last()) + ","@ + roots.last()
    }
}

/// The department tree's parameters: the roots, and how deep below them.
pub fn category_params(roots: &[&str], depth: u32) -> (r: Vec<(String, String)>)
    ensures
        r@.len() == 2,
        r@[0].0@ == "cgids"@ && r@[0].1@ == comma_joined(roots@.map_values(|s: &str| s@)),
        r@[1].0@ == "maxDepth"@ && r@[1].1@ == text::decimal(depth as nat),
{
    let ghost views = roots@.map_values(|s: &str| s@);
    let mut joined = String::new();
    let n = roots.len();
    let mut i: usize = 0;
    while i < n
        invariant
            n == roots@.len(),
            i <= n,
            views == roots@.map_values(|s: &str| s@),
            joined@ == comma_joined(views.take(i as int)),
        decreases n - i,
    {
        assert(views.take(i + 1).drop_last() =~= views.take(i as int));
        if i > 0 {
            joined.append(",");
        } else {
            assert(views.take(1) =~= seq![views[0]]);
        }
        joined.append(roots[i]);
        proof {
            if i == 0 {
                assert(joined@ =~= views[0]);
            }
        }
        i += 1;
    }
    assert(views.take(n as int) =~= views);
    let mut out: Vec<(String, String)> = Vec::new();
    out.push(("cgids".to_owned(), joined));
    out.push(("maxDepth".to_owned(), decimal_string(depth as u64)));
    out
}

/// Before an account-only call: nothing to do when the session speaks for
/// an account and has not lapsed; a renewal when one can be had; otherwise
/// the reason there is no account to speak for.
pub fn account_step(account: bool, lapsed: bool, can_renew: bool) -> (r: Result<bool, Error>)
    ensures
        account && !lapsed ==> r == Ok::<bool, Error>(false),
        !(account && !lapsed) && can_renew ==> r == Ok::<bool, Error>(true),
        !(account && !lapsed) && !can_renew ==> (if account {
            r matches Err(Error::SessionExpired)
        } else {
            r matches Err(Error::NotSignedIn)
        }),
{
    if account && !lapsed {
        Ok(false)
    } else if can_renew {
        Ok(true)
    } else if account {
        Err(Error::SessionExpired)
    } else {
        Err(Error::NotSignedIn)
    }
}

/// The variation endpoint's detail, with what only the page knows filled
/// in: the category path and the canonical description.
pub fn merged_detail(detail: ProductDetail, page: &ProductDetail) -> (r: ProductDetail)
    ensures
        r.product.category == (match detail.product.category {
            Some(c) => Some(c),
            None => page.product.category,
        }),
        r.description == (match detail.description {
            Some(d) => Some(d),
            None => page.description,
        }),
        r.product.id == detail.product.id,
        r.product.price == detail.product.price,
        r.product.availability == detail.product.availability,
        r.sku == detail.sku,
        r.max_quantity == detail.max_quantity,
        r.axes == detail.axes,
        r.shipping == detail.shipping,
{
    let mut detail = detail;
    if detail.product.category.is_none() {
        detail.product.category = page.product.category.clone();
    }
    if detail.description.is_none() {
        detail.description = page.description.clone();
    }
    detail
}

/// The names of `es`, joined with `, `.
pub open spec fn names_listed(es: Entries) -> Seq<char>
    decreases es.len(),
{
    if es.len() == 0 {
        seq![]
    } else if es.len() == 1 {
        es[0].0
    } else {
        names_listed(es.drop_last()) + ", "@ + es.last().0
    }
}

/// The modal's own signed link for one region, or what it offers instead.
pub fn region_stock_link(links: &CookieMap, region: &str) -> (r: Result<String, Error>)
    ensures
        match entries_get(links@, region@) {
            Some(u) => r matches Ok(x) && x@ == u,
            None => r matches Err(Error::NotInPage { what, detail }) && what@ == "a stock link for "@ + region@
                && detail@ == (if links@.len() == 0 {
                ", and the page offered none at all"@
            } else {
                ", which offers "@ + names_listed(links@)
            }),
        },
{
    if let Some(u) = links.get(region) {
        return Ok(u.clone());
    }
    let detail = if links.is_empty() {
        ", and the page offered none at all".to_owned()
    } else {
        let keys = links.keys();
        let ghost es = links@;
        let n = keys.len();
        let mut joined = String::new();
        let mut i: usize = 0;
        while i < n
            invariant
                n == keys@.len() == es.len(),
                es == links@,
                forall|k: int| 0 <= k < n ==> (#[trigger] keys@[k])@ == es[k].0,
                i <= n,
                joined@ == names_listed(es.take(i as int)),
            decreases n - i,
        {
            assert(es.take(i + 1).drop_last() =~= es.take(i as int));
            assert(es.take(i + 1).last() == es[i as int]);
            if i > 0 {
                joined.append(", ");
            }
            joined.append(keys[i].as_str());
            proof {
                if i == 0 {
                    assert(joined@ =~= es[0].0);
                }
            }
            i += 1;
        }
        assert(es.take(n as int) =~= es);
        cat(", which offers ", joined.as_str())
    };
    Err(Error::NotInPage { what: cat("a stock link for ", region), detail })
}

/// The stock modal's markup, for following one region's link out of it:
/// under `modalTemplate` or `stores`.
pub open spec fn modal_markup_of(body: Seq<u8>) -> Option<Seq<char>> {
    match json_str_claim(body, "modalTemplate"@) {
        Some(h) => Some(h),
        None => json_str_claim(body, "stores"@),
    }
}

/// The per-region links a modal's markup carries.
pub open spec fn links_in(html: Seq<char>) -> Entries {
    region_links_of(seq![], selected(html, REGION_OPTION@, seq!["data-href"@, "href"@, "value"@]))
}

/// Narrowing stock to a region is a third request, not a parameter: the
/// modal is rendered with one pre-signed URL per region, and a URL built by
/// hand is refused however well formed. This finds that URL in the modal's
/// answer.
pub fn region_link_in(body: &str, region: &str) -> (r: Result<String, Error>)
    ensures
        !json_valid(vstd::utf8::encode_utf8(body@)) ==> (r matches Err(Error::Decode { context, .. })
            && context@ == "parsing the store stock"@),
        json_valid(vstd::utf8::encode_utf8(body@)) ==> (match modal_markup_of(vstd::utf8::encode_utf8(body@)) {
            None => r matches Err(Error::NotInPage { what, .. }) && what@ == "the store availability markup"@,
            Some(h) => {
                let links = links_in(h);
                match entries_get(links, region@) {
                    Some(u) => r matches Ok(x) && x@ == u,
                    None => r matches Err(Error::NotInPage { what, detail }) && what@ == "a stock link for "@
                        + region@ && detail@ == (if links.len() == 0 {
                        ", and the page offered none at all"@
                    } else {
                        ", which offers "@ + names_listed(links)
                    }),
                }
            },
        }),
{
    let bytes = body.as_bytes();
    if json_value(bytes).is_err() {
        return Err(
            Error::Decode { context: "parsing the store stock".to_owned(), detail: "not JSON".to_owned() },
        );
    }
    let markup = match str_claim(bytes, "modalTemplate") {
        Some(h) => h,
        None => match str_claim(bytes, "stores") {
            Some(h) => h,
            None => return Err(Error::not_in_page("the store availability markup".to_owned())),
        },
    };
    let links = region_links(markup.as_str());
    region_stock_link(&links, region)
}

} // verus!
