use base64::Engine;
use shopping_kit::netkit::cookies::CookieMap;
use shopping_kit::netkit::error::{AuthFault, Fault, HttpError};
use shopping_kit::netkit::jwt::now_secs;
use shopping_kit::twlnz::cart::{checked, is_stale_token, refusal};
use shopping_kit::twlnz::client::{
    account_step, add_form, category_params, form_referer, merged_detail, pid_of, quantity_url, region_link_in,
    region_stock_link, removal_url, request_target, store_form, store_params, suggest_url, wishlist_form,
    xhr_referer, after_add, AddNext, TOKEN_MAX_AGE_SECS,
};
use shopping_kit::twlnz::listing::{Listing, Paging};
use shopping_kit::twlnz::domain::{Availability, Category, Island};
use shopping_kit::twlnz::endpoints::{query_string, Endpoints};
use shopping_kit::twlnz::error::{from_http, Error};
use shopping_kit::twlnz::domain::price_digits;
use shopping_kit::twlnz::extract::{
    actions, listing_total, pid_from_path, plain_text, product_blocks, region_links, sort_option_texts, sort_options, store_stock,
    suggestions, tiles, Actions, Tile,
};
use shopping_kit::twlnz::http::{profile_index, squash};
use shopping_kit::twlnz::listing::{category_from_url, params, Facet, Query};
use shopping_kit::twlnz::product::{schema_in_stock, Action, Pdp};
use shopping_kit::twlnz::domain::{VariationAxis, VariationValue};
use shopping_kit::twlnz::extract::{LdBrand, LdOffer, LdProduct};
use shopping_kit::twlnz::session::{
    upn, Session, StoredSession, ACCOUNT_COOKIE, GUEST_REFRESH_COOKIE, REFRESH_COOKIE, SESSION_COOKIE,
};
use shopping_kit::twlnz::stores::{is_region, parse_stock, region, stock_markup};
use shopping_kit::twlnz::auth::{csrf_token, form_error, login_answer, login_form, login_token, login_url};
use shopping_kit::measure::Double;
use shopping_kit::twlnz::domain::{Cart, CartLine, Price, Product};
use shopping_kit::twlnz::wire::{
    cart_from, unescape, CartResponse, CategoriesResponse, Envelope, Money, PriceBlock, Subtotal, WireAvailability,
    WireAxis, WireAxisValue, WireCart, WireCartItem, WireCategory, WireLineTotal, WireProduct, WireStore, WireTotals,
};
use std::collections::HashMap;

fn token(exp: u64, isb: &str) -> String {
    let payload = base64::engine::general_purpose::URL_SAFE_NO_PAD
        .encode(format!(r#"{{"exp":{exp},"isb":"{isb}"}}"#));
    format!("header.{payload}.signature")
}

fn jwt(exp: u64) -> String {
    token(exp, "uido:slas::upn:shopper@example.test::uidn:A Shopper")
}

fn with(pairs: &[(&str, &str)]) -> Session {
    let mut m = CookieMap::new();
    for (k, v) in pairs {
        m.insert(k.to_string(), v.to_string());
    }
    Session::from_cookies(m)
}

fn envelope(error: bool, msg: Option<&str>) -> Envelope {
    Envelope { error, msg: msg.map(str::to_string) }
}

#[test]
fn an_action_refused_with_a_200_is_still_an_error() {
    // The whole reason the body is read: the site does not use the status
    // code for this, so a naive client would report success.
    let err = checked(
        "wishlist add",
        r#"{"action":"Wishlist-AddProduct","error":true,
            "msg":"The product is already in the wishlist and will not be added again."}"#,
        &envelope(true, Some("The product is already in the wishlist and will not be added again.")),
    )
    .unwrap_err();
    assert!(err.message().contains("already in the wishlist"), "{}", err.message());
    assert!(!err.is_stale_token());
}

#[test]
fn an_expired_page_token_is_told_apart_from_an_ordinary_refusal() {
    let err = checked(
        "cart add",
        r#"{"error":true,"msg":"The verify token has expired."}"#,
        &envelope(true, Some("The verify token has expired.")),
    )
    .unwrap_err();
    assert!(err.is_stale_token(), "{}", err.message());
}

#[test]
fn a_blocked_request_is_not_mistaken_for_a_stale_token() {
    // The site means this one literally: it is the `Sec-Fetch-*` headers,
    // not the token. Retrying with a fresh page would fail identically.
    let err = checked(
        "store stock",
        r#"{"error":true,"errorMessage":"Cross-Origin Request Blocked"}"#,
        &envelope(true, Some("Cross-Origin Request Blocked")),
    )
    .unwrap_err();
    assert!(!err.is_stale_token(), "{}", err.message());
    assert!(err.message().contains("Cross-Origin"), "{}", err.message());
}

#[test]
fn a_stock_refusal_is_not_mistaken_for_a_stale_token() {
    // "expired" appears in both kinds of message; retrying a sold-out add
    // with a fresh page would just fail again.
    let err = checked(
        "cart add",
        r#"{"error":true,"msg":"This offer has expired -- the product is out of stock."}"#,
        &envelope(true, Some("This offer has expired -- the product is out of stock.")),
    )
    .unwrap_err();
    assert!(!err.is_stale_token(), "{}", err.message());
}

#[test]
fn the_stale_token_test_ignores_case_and_yields_to_stock() {
    assert!(!is_stale_token("Token valid, but the item is Out of Stock"));
    assert!(is_stale_token("VERIFY failed"));
}

#[test]
fn an_answer_that_is_not_json_is_a_decode_error_naming_the_action() {
    let err = checked("cart add", "<html>Service Unavailable</html>", &envelope(false, None)).unwrap_err();
    match err {
        Error::Decode { context, detail } => {
            assert_eq!(context, "parsing cart add");
            assert!(!detail.is_empty());
        }
        other => panic!("expected a decode error, got {}", other.message()),
    }
}

#[test]
fn an_envelope_without_an_error_is_an_answer() {
    assert!(refusal("cart add", &envelope(false, Some("anything"))).is_ok());
    let err = refusal("cart add", &envelope(true, None)).unwrap_err();
    assert_eq!(err.message(), "cart add was refused: the site gave no reason");
}

#[test]
fn the_product_an_action_is_about_is_found_under_either_name() {
    assert_eq!(pid_of("/cart/add-product?pid=R1&verify=1-a").as_deref(), Some("R1"));
    assert_eq!(pid_of("/x/Stores-PDPStoreAvailability?productId=R2&region=NZ-CAN").as_deref(), Some("R2"));
    assert_eq!(pid_of("/cart/minicart"), None);
}

#[test]
fn an_island_is_named_however_it_is_typed() {
    assert_eq!(Island::parse("North Island"), Some(Island::North));
    assert_eq!(Island::parse("si"), Some(Island::South));
    assert_eq!(Island::parse("chatham"), None);
    assert_eq!(Island::North.value(), "northIsland");
    assert_eq!(Island::parse(&Island::South.to_string()), Some(Island::South));
}

#[test]
fn a_category_is_searchable_by_id_or_by_name() {
    let tree = Category {
        id: "root".into(),
        name: "Root".into(),
        path: None,
        children: vec![Category {
            id: "toysbaby".into(),
            name: "Toys & Baby".into(),
            path: Some("/c/toys-baby".into()),
            children: vec![],
        }],
    };
    assert_eq!(tree.count(), 2);
    assert_eq!(tree.find("TOYSBABY").map(|c| c.id.as_str()), Some("toysbaby"));
    assert_eq!(tree.find("toys & baby").map(|c| c.id.as_str()), Some("toysbaby"));
    assert!(tree.find("groceries").is_none());
}

#[test]
fn in_store_only_stock_is_not_sold_out() {
    let a = Availability {
        status: Some("FIND_IN_STORE".into()),
        online: Some(false),
        in_store: Some(true),
        label: Some("In-store only".into()),
    };
    assert_eq!(a.orderable(), Some(true));
    assert_eq!(a.summary(), "in store");
}

#[test]
fn nothing_known_is_not_reported_as_sold_out() {
    let a = Availability { status: None, online: None, in_store: None, label: None };
    assert_eq!(a.orderable(), None);
    assert_eq!(a.summary(), "-");
    let out = Availability { status: None, online: Some(false), in_store: None, label: None };
    assert_eq!(out.summary(), "sold out");
}

#[test]
fn a_query_string_encodes_values_and_keeps_the_order_it_was_given() {
    let params = [
        ("q".to_string(), "blue shirt".to_string()),
        ("prefn1".to_string(), "islandAvailability".to_string()),
        ("prefv1".to_string(), "northIsland".to_string()),
    ]
    .to_vec();
    assert_eq!(query_string(&params), "q=blue%20shirt&prefn1=islandAvailability&prefv1=northIsland");
}

#[test]
fn overrides_trim_a_trailing_slash() {
    let e = Endpoints::default().with_origin("http://127.0.0.1:9/".into());
    assert_eq!(e.updategrid(), "http://127.0.0.1:9/search/updategrid");
    assert_eq!(
        e.controller("Stores-FindStores"),
        "http://127.0.0.1:9/on/demandware.store/Sites-twl-Site/default/Stores-FindStores"
    );
}

#[test]
fn a_scraped_action_url_keeps_its_encoded_verify_token() {
    let e = Endpoints::default();
    let raw = "/cart/add-product?pid=R1&verify=1788496536-sRRVB4dd%2F4n2%3D";
    assert_eq!(
        e.absolute(raw),
        "https://www.thewarehouse.co.nz/cart/add-product?pid=R1&verify=1788496536-sRRVB4dd%2F4n2%3D"
    );
}

#[test]
fn an_already_absolute_url_is_left_alone() {
    let e = Endpoints::default();
    assert_eq!(e.absolute("https://elsewhere.test/x"), "https://elsewhere.test/x");
}

#[test]
fn every_page_has_its_own_path() {
    let e = Endpoints::default();
    assert_eq!(e.product_page("/young-shorts/", "R1"), "https://www.thewarehouse.co.nz/p/young-shorts/R1.html");
    assert_eq!(e.category_page("/c/toys"), "https://www.thewarehouse.co.nz/c/toys");
    assert_eq!(e.login(), "https://www.thewarehouse.co.nz/account/submit-login");
    assert_eq!(e.wishlist_page(), "https://www.thewarehouse.co.nz/wishlist");
}

#[test]
fn a_pid_is_taken_off_the_end_of_a_product_path() {
    assert_eq!(pid_from_path("/p/a-slug/R123.html").as_deref(), Some("R123"));
    assert_eq!(pid_from_path("/p/a-slug/RM1-2M.html?dwvar_x=y").as_deref(), Some("RM1-2M"));
    assert_eq!(pid_from_path("/c/toys-baby"), None);
    assert_eq!(pid_from_path("/p/.html"), None, "nothing before the extension");
    assert_eq!(pid_from_path("R9.html#top").as_deref(), Some("R9"));
}

#[test]
fn a_page_that_authorises_nothing_is_empty() {
    let none = Actions { add_to_cart: None, add_to_wishlist: None, store_stock: None, shipping: None, set_region: None, variation: None };
    assert!(none.is_empty());
    let some = Actions { add_to_cart: Some("/cart/add".into()), ..none };
    assert!(!some.is_empty());
}

#[test]
fn a_profile_is_found_however_its_name_is_punctuated() {
    let names: Vec<String> = ["Chrome137", "Safari26_4", "Firefox151"].iter().map(|s| s.to_string()).collect();
    assert_eq!(profile_index("Safari26_4", &names), Some(1));
    assert_eq!(profile_index("safari26_4", &names), Some(1));
    assert_eq!(profile_index(" safari-26-4 ", &names), Some(1));
    assert_eq!(profile_index("firefox151", &names), Some(2));
}

#[test]
fn an_unknown_name_is_none_rather_than_a_silent_default() {
    let names: Vec<String> = ["Safari26_4", "Firefox151"].iter().map(|s| s.to_string()).collect();
    assert_eq!(profile_index("safari", &names), None);
    assert_eq!(profile_index("safari26_99", &names), None);
    assert_eq!(profile_index("", &names), None);
    assert_eq!(squash(" Safari-26_4 "), "safari264");
}

#[test]
fn a_window_names_its_own_start_and_size() {
    let p = params(&Query::Keyword("blue".into()), 64, 32, None, None, &[]);
    assert!(p.contains(&("q".to_string(), "blue".to_string())));
    assert!(p.contains(&("start".to_string(), "64".to_string())));
    assert!(p.contains(&("sz".to_string(), "32".to_string())));
}

#[test]
fn a_browse_and_a_search_differ_only_in_one_parameter() {
    let s = params(&Query::Keyword("x".into()), 0, 32, None, None, &[]);
    let b = params(&Query::Category("toysbaby".into()), 0, 32, None, None, &[]);
    assert_eq!(s[0].0, "q");
    assert_eq!(b[0].0, "cgid");
    assert_eq!(s[1..], b[1..]);
}

#[test]
fn the_island_takes_a_refinement_slot_and_pushes_the_rest_along() {
    let p = params(
        &Query::Category("toysbaby".into()),
        0,
        32,
        Some("price-low-to-high"),
        Some(Island::North),
        &[Facet::new("brand".into(), "LEGO".into()), Facet::new("color".into(), "Blue".into())],
    );
    let pairs: HashMap<_, _> = p.into_iter().collect();
    assert_eq!(pairs["srule"], "price-low-to-high");
    assert_eq!(pairs["prefn1"], "islandAvailability");
    assert_eq!(pairs["prefv1"], "northIsland");
    assert_eq!(pairs["prefn2"], "brand");
    assert_eq!(pairs["prefv2"], "LEGO");
    assert_eq!(pairs["prefn3"], "color");
    assert_eq!(pairs["prefv3"], "Blue");
}

#[test]
fn facets_start_at_one_when_no_island_is_set() {
    let p = params(&Query::Keyword("x".into()), 0, 32, None, None, &[Facet::new("brand".into(), "LEGO".into())]);
    let pairs: HashMap<_, _> = p.into_iter().collect();
    assert_eq!(pairs["prefn1"], "brand");
}

#[test]
fn a_search_that_lands_on_a_category_is_recognised_by_its_url() {
    assert_eq!(
        category_from_url("https://www.thewarehouse.co.nz/c/toys-baby/top-brands/lego?sr=lego").as_deref(),
        Some("toys-baby/top-brands/lego")
    );
    assert_eq!(category_from_url("https://www.thewarehouse.co.nz/search?q=blue"), None);
    assert_eq!(category_from_url("https://x.test/c/?q"), None, "an empty category is none");
}

#[test]
fn a_query_describes_what_it_lists() {
    assert_eq!(Query::Keyword("blue".into()).describes(), "blue");
    assert_eq!(Query::Category("toys".into()).param(), ("cgid", "toys"));
}

#[test]
fn schema_org_in_store_only_still_counts_as_available() {
    assert!(schema_in_stock("http://schema.org/InStock"));
    assert!(schema_in_stock("InStoreOnly"));
    assert!(!schema_in_stock("http://schema.org/OutOfStock"));
    assert_eq!(Action::AddToCart.describe(), "an add-to-cart action");
}

#[test]
fn a_guests_token_is_not_an_account_even_though_it_is_a_real_token() {
    let guest = token(now_secs() + 3600, "uido:slas::upn:Guest::uidn:Guest User::gcid:abc");
    let session = with(&[(ACCOUNT_COOKIE, &guest)]);
    assert!(!session.account());
    assert_eq!(session.shopper(), None);
}

#[test]
fn the_registered_refresh_token_is_enough_on_its_own() {
    let guest_at = token(now_secs() + 3600, "uido:slas::upn:Guest::uidn:Guest User");
    let session = with(&[(ACCOUNT_COOKIE, &guest_at), (REFRESH_COOKIE, "r")]);
    assert!(session.account());
}

#[test]
fn the_guest_refresh_token_is_not_the_registered_one() {
    assert!(!with(&[(GUEST_REFRESH_COOKIE, "r")]).account());
}

#[test]
fn a_signed_in_token_names_the_shopper_it_was_issued_for() {
    let session = with(&[(ACCOUNT_COOKIE, &jwt(now_secs() + 3600))]);
    assert!(session.account());
    assert_eq!(session.shopper().as_deref(), Some("shopper@example.test"));
}

#[test]
fn a_storefront_session_alone_is_not_an_account() {
    assert!(!with(&[(SESSION_COOKIE, "abc")]).account());
    assert!(!with(&[(ACCOUNT_COOKIE, "")]).account());
    assert!(!with(&[(ACCOUNT_COOKIE, "not-a-jwt")]).account());
}

#[test]
fn cookies_are_sent_as_one_header_and_never_printed() {
    let s = with(&[(SESSION_COOKIE, "abc"), (ACCOUNT_COOKIE, "secret-value")]);
    assert_eq!(s.header().as_deref(), Some("cc-at_twl=secret-value; dwsid=abc"));
    let text = s.redacted();
    assert!(text.contains(ACCOUNT_COOKIE));
    assert!(!text.contains("secret-value"), "{text}");
    assert!(Session::default().header().is_none());
}

#[test]
fn an_expiring_token_is_lapsed_before_it_actually_expires() {
    assert!(!with(&[(ACCOUNT_COOKIE, &jwt(now_secs() + 3600))]).lapsed());
    assert!(with(&[(ACCOUNT_COOKIE, &jwt(now_secs() + 30))]).lapsed());
}

#[test]
fn a_token_with_no_readable_expiry_is_taken_at_face_value() {
    let s = with(&[(ACCOUNT_COOKIE, "not-a-jwt")]);
    assert!(!s.lapsed());
    assert_eq!(s.expires_at(), None);
}

#[test]
fn the_upn_is_read_out_of_the_claim() {
    assert_eq!(upn("uido:slas::upn: a@b.test ::x").as_deref(), Some("a@b.test"));
    assert_eq!(upn("upn:Guest"), None);
    assert_eq!(upn("uido:slas"), None);
    assert_eq!(upn("upn:"), None);
}

#[test]
fn absorbing_sets_and_an_empty_value_clears() {
    let mut s = with(&[(SESSION_COOKIE, "old")]);
    s.absorb(&vec!["dwsid=; Max-Age=0".to_string(), "usid_twl=u; Path=/".to_string()]);
    assert_eq!(s.get(SESSION_COOKIE), None);
    assert_eq!(s.get("usid_twl"), Some("u"));
    let stored = StoredSession::of(&s, None);
    assert_eq!(stored.session().header().as_deref(), Some("usid_twl=u"));
}

#[test]
fn a_region_is_found_by_code_or_by_name() {
    assert_eq!(region("nz-can"), Some("NZ-CAN"));
    assert_eq!(region("Canterbury"), Some("NZ-CAN"));
    assert_eq!(region("Chatham Islands"), None);
    assert!(is_region("NZ-AUK"));
    assert!(!is_region("Auckland"));
}

#[test]
fn both_endpoints_names_for_the_same_markup_are_read() {
    // One field name per controller for identical content; keying on one
    // would silently return nothing for the other.
    let markup = r##"<div class="store panel">
            <div data-target="#c-full-store-details-116">
            <h6 class="title">Example Town</h6>
            <span class="store-availability store-availability__IN_STOCK">In stock</span>
            </div></div>"##;
    for key in ["modalTemplate", "stores"] {
        // The markup arrives as a JSON string value.
        let body = format!(r#"{{"action":"X","{key}":{}}}"#, serde_json::to_string(markup).unwrap());
        let stock = parse_stock(&body).unwrap();
        assert_eq!(stock.len(), 1, "{key}");
        assert_eq!(stock[0].store_name, "Example Town");
        assert_eq!(stock[0].in_stock, Some(true));
    }
}

#[test]
fn the_markup_is_read_under_every_name_the_controllers_use() {
    let markup = "<div class=\\\"store panel\\\">In stock</div>";
    for key in ["modalTemplate", "stores", "renderedRegionStores"] {
        let body = format!(r#"{{"action":"X","{key}":"{markup}"}}"#);
        assert_eq!(stock_markup(&body).unwrap(), "<div class=\"store panel\">In stock</div>", "{key}");
    }
}

#[test]
fn a_response_carrying_no_markup_is_an_error_not_an_empty_list() {
    // An empty list would read as "no store has it", which is a different
    // and much worse claim than "the response did not parse".
    let err = parse_stock(r#"{"action":"X"}"#).err().unwrap();
    assert!(matches!(err, Error::NotInPage { .. }), "{}", err.message());
    assert!(matches!(parse_stock("{ not json").err().unwrap(), Error::Decode { .. }));
}

#[test]
fn a_rate_limit_is_named_rather_than_left_as_a_status_code() {
    let limited = Error::RateLimited { retry_after: Some(30) };
    assert!(limited.is_rate_limited());
    assert!(limited.message().contains("rate-limiting"), "{}", limited.message());
    assert!(limited.message().contains("30s"), "{}", limited.message());
    assert!(!limited.is_lapsed());
    assert_eq!(limited.auth(), None);
    assert_eq!(limited.message(), "The Warehouse is rate-limiting this client; it asked for 30s before the next request");
    let from = from_http(HttpError::Status { method: "GET", url: "u".into(), status: 429, detail: String::new(), body: String::new() });
    assert!(from.is_rate_limited());
    assert_eq!(Error::NotSignedIn.auth(), Some(AuthFault::Missing));
    assert!(Error::SessionExpired.is_lapsed());
}

#[test]
fn stock_that_exists_but_cannot_be_sold_online_is_not_online_stock() {
    let w = WireAvailability {
        online_stock_available: Some(true),
        online_channel_orderable: Some(false),
        store_channel_orderable: Some(true),
        product_status: Some("FIND_IN_STORE".into()),
        cart_label: Some("In-store only".into()),
    };
    let a = w.into_availability();
    assert_eq!(a.online, Some(false), "orderable is the stricter test");
    assert_eq!(a.in_store, Some(true));
    assert_eq!(a.summary(), "in store");
}

#[test]
fn an_html_entity_that_survived_into_json_is_undone_once() {
    let mut p = wire_product("R1");
    p.short_description = Some("H&amp;H Men&#39;s Tee".to_string());
    assert_eq!(p.into_detail().description.as_deref(), Some("H&H Men's Tee"));
    assert_eq!(unescape("H&amp;H Men&#39;s Tee"), "H&H Men's Tee");
    assert_eq!(unescape("a&amp;amp;b&nbsp;c"), "a&amp;b c");
}

#[test]
fn a_category_url_becomes_the_path_a_landing_page_is_fetched_by() {
    let w = WireCategory {
        id: Some("homegarden".into()),
        display_name: Some("Home, Garden & Appliances".into()),
        url: Some("https://www.thewarehouse.co.nz/c/home-garden-appliances".into()),
        sub_categories: vec![],
    };
    let c = w.into_category().unwrap();
    assert_eq!(c.id, "homegarden");
    assert_eq!(c.path.as_deref(), Some("/c/home-garden-appliances"));
    assert_eq!(c.name, "Home, Garden & Appliances");
}

#[test]
fn a_refused_category_is_dropped_rather_than_failing_the_whole_tree() {
    let parsed = CategoriesResponse {
        categories: vec![
            WireCategory { id: Some("toysbaby".into()), display_name: Some("Toys & Baby".into()), url: None, sub_categories: vec![] },
            WireCategory { id: None, display_name: None, url: None, sub_categories: vec![] },
        ],
    };
    let categories: Vec<Category> = parsed.categories.into_iter().filter_map(WireCategory::into_category).collect();
    assert_eq!(categories.len(), 1);
    assert_eq!(categories[0].id, "toysbaby");
    assert_eq!(categories[0].path, None);
}

const TILE_HTML: &str = r##"
<div class="product-tile" data-gtm-product="{&quot;name&quot;:&quot;Plain Cotton Tee&quot;,&quot;id&quot;:&quot;RM100000001&quot;,&quot;brand&quot;:&quot;Example Brand&quot;,&quot;productEAN&quot;:&quot;9400000000001&quot;,&quot;variationGroupId&quot;:&quot;RM100000001-1M&quot;,&quot;productRating&quot;:&quot;4.6&quot;,&quot;marketplaceProduct&quot;:false,&quot;category&quot;:&quot;clothing/clothing-tops&quot;,&quot;price&quot;:&quot;12.00&quot;}">
  <section class="product-tile-image">
    <a href="/p/plain-cotton-tee/RM100000001-1M.html"><img class="tile-image" src="https://example.test/tee.jpg" /></a>
    <div class="availability-stock-status" data-stock-status="IN_STOCK" data-orderable="true"></div>
  </section>
  <section class="product-tile-details">
    <div class="price">$12.00</div>
    <a class="link" href="/p/plain-cotton-tee/RM100000001-1M.html">Plain Cotton Tee</a>
  </section>
</div>"##;

/// The number a tile's price comes to: the displayed one, else the tracked one.
fn price_value(t: &Tile) -> Option<f64> {
    match &t.shown_price {
        Some(text) => price_digits(text).parse().ok(),
        None => t.tracked_price.as_deref().and_then(|p| p.parse().ok()),
    }
}

/// The rating a tile comes to: the tracked one, else the first mark that reads.
fn rating_value(t: &Tile) -> Option<f64> {
    t.tracked_rating
        .as_deref()
        .and_then(|r| r.parse().ok())
        .or_else(|| t.rating_marks.iter().find_map(|m| m.parse().ok()))
}

#[test]
fn a_tile_is_read_from_its_tracking_payload_and_its_markup() {
    let products = tiles(TILE_HTML);
    assert_eq!(products.len(), 1);
    let p = &products[0];
    assert_eq!(p.id, "RM100000001-1M");
    assert_eq!(p.master_id.as_deref(), Some("RM100000001"));
    assert!(p.master_id.as_deref().is_some_and(|m| m != p.id));
    assert_eq!(p.name, "Plain Cotton Tee");
    assert_eq!(p.brand.as_deref(), Some("Example Brand"));
    assert_eq!(p.ean.as_deref(), Some("9400000000001"));
    assert_eq!(price_value(p), Some(12.0));
    assert_eq!(p.shown_price.as_deref(), Some("$12.00"));
    assert_eq!(rating_value(p), Some(4.6));
    assert_eq!(p.image.as_deref(), Some("https://example.test/tee.jpg"));
    assert_eq!(p.availability.online, Some(true));
    assert!(!p.marketplace);
}

#[test]
fn a_tile_with_no_tracking_payload_still_yields_a_product() {
    let html = r#"<div class="product-tile">
        <a class="link" href="/p/slug/R9999999.html">Something</a>
        <div class="price">$4.50</div>
    </div>"#;
    let products = tiles(html);
    assert_eq!(products.len(), 1);
    assert_eq!(products[0].id, "R9999999");
    assert_eq!(products[0].name, "Something");
    assert_eq!(price_value(&products[0]), Some(4.50));
    assert_eq!(products[0].brand, None);
    assert_eq!(products[0].availability.orderable(), None);
}

#[test]
fn a_tile_with_neither_a_link_nor_a_payload_is_skipped_not_fatal() {
    let html = r#"<div class="product-tile"><div class="price">$1.00</div></div>"#;
    assert!(tiles(html).is_empty());
}

#[test]
fn one_oddly_typed_field_does_not_cost_the_whole_payload() {
    let html = r##"<div class="product-tile" data-gtm-product="{&quot;name&quot;:&quot;A Thing&quot;,&quot;id&quot;:&quot;R1&quot;,&quot;brand&quot;:&quot;Example Brand&quot;,&quot;productEAN&quot;:&quot;9400000000004&quot;,&quot;productRating&quot;:5,&quot;category&quot;:&quot;toysbaby&quot;}">
        <a class="link" href="/p/a-thing/R1.html">A Thing</a></div>"##;
    let p = &tiles(html)[0];
    assert_eq!(rating_value(p), Some(5.0), "a numeric rating reads as a number");
    assert_eq!(p.brand.as_deref(), Some("Example Brand"));
    assert_eq!(p.ean.as_deref(), Some("9400000000004"));
    assert_eq!(p.category.as_deref(), Some("toysbaby"));
}

#[test]
fn both_names_for_the_variation_group_are_accepted() {
    for key in ["variationGroupId", "variationProductId"] {
        let html = format!(
            r#"<div class="product-tile" data-gtm-product='{{"name":"A Thing","id":"RM1","{key}":"RM1-2M"}}'>
               <span>no link</span></div>"#
        );
        assert_eq!(tiles(&html)[0].id, "RM1-2M", "{key}");
    }
}

#[test]
fn a_tile_with_no_link_falls_back_to_the_pid_on_the_wrapper() {
    let html = r#"<div class="product-tile" data-pid="R7"
        data-gtm-product='{"name":"A Thing"}'><span>no link</span></div>"#;
    assert_eq!(tiles(html)[0].id, "R7");
}

#[test]
fn the_sites_na_placeholder_reads_as_absent() {
    let html = r##"<div class="product-tile" data-gtm-product="{&quot;name&quot;:&quot;X&quot;,&quot;id&quot;:&quot;R1&quot;,&quot;brand&quot;:&quot;na&quot;,&quot;productRating&quot;:&quot;na&quot;,&quot;variationGroupId&quot;:&quot;na&quot;}">
        <a class="link" href="/p/x/R1.html">X</a></div>"##;
    let p = &tiles(html)[0];
    assert_eq!(p.brand, None, "\"na\" is the site writing nothing");
    assert_eq!(rating_value(p), None);
    assert_eq!(p.id, "R1");
}

#[test]
fn find_in_store_stock_reads_as_a_shop_not_as_online() {
    let html = r#"<div class="product-tile">
        <a class="link" href="/p/x/R2.html">X</a>
        <div class="availability-stock-status" data-stock-status="FIND_IN_STORE" data-orderable="true">In-store only</div>
    </div>"#;
    let a = &tiles(html)[0].availability;
    assert_eq!(a.online, Some(false));
    assert_eq!(a.in_store, Some(true));
    assert_eq!(a.summary(), "in store");
    assert_eq!(a.label.as_deref(), Some("In-store only"));
}

#[test]
fn the_total_comes_out_of_the_grid_header() {
    let html = r#"<div class="filter-header"><div class="header-bar">
        <p class="mb-0">65 &ndash; 96 of 3,122 products</p></div></div>"#;
    assert_eq!(listing_total(html), Some(3122));
    assert_eq!(listing_total("<div></div>"), None);
}

#[test]
fn the_default_sort_rule_loses_the_suffix_the_menu_gives_it() {
    let html = r##"<div class="grid-footer" data-sort-options="{&quot;options&quot;:[{&quot;displayName&quot;:&quot;Best Match&quot;,&quot;id&quot;:&quot;default-navigation-option&quot;},{&quot;displayName&quot;:&quot;Price Low To High&quot;,&quot;id&quot;:&quot;price-low-to-high&quot;}]}"></div>"##;
    let readings = sort_option_texts(html).iter().map(|raw| read_sort_menu(raw)).collect();
    let sorts = sort_options(readings);
    assert_eq!(sorts[0].0, "default-navigation");
    assert_eq!(sorts[1].0, "price-low-to-high");
}

/// A footer's sort menu read as `(id, displayName)` pairs; `options` may be
/// absent, every entry needs both strings.
fn read_sort_menu(raw: &str) -> Option<Vec<(String, String)>> {
    let v: serde_json::Value = serde_json::from_str(raw).ok()?;
    let Some(list) = v.as_object()?.get("options") else { return Some(Vec::new()) };
    list.as_array()?
        .iter()
        .map(|o| Some((o.get("id")?.as_str()?.to_string(), o.get("displayName")?.as_str()?.to_string())))
        .collect()
}

#[test]
fn each_grid_footer_hands_over_its_sort_menu_text_in_page_order() {
    let html = r##"<div class="grid-footer" data-sort-options="{&quot;options&quot;:[]}"></div>
    <div class="grid-footer"></div>
    <div class="grid-footer" data-sort-options="not json"></div>"##;
    assert_eq!(sort_option_texts(html), vec!["{\"options\":[]}".to_string(), "not json".to_string()]);
}

#[test]
fn a_footer_that_did_not_read_adds_no_rules_and_the_rest_keep_their_order() {
    let readings = vec![
        Some(vec![("a-option".to_string(), "A".to_string())]),
        None,
        Some(vec![("b".to_string(), "B".to_string()), ("option".to_string(), "O".to_string())]),
    ];
    assert_eq!(
        sort_options(readings),
        vec![
            ("a".to_string(), "A".to_string()),
            ("b".to_string(), "B".to_string()),
            ("option".to_string(), "O".to_string()),
        ]
    );
}

#[test]
fn every_verify_bearing_action_on_a_page_is_found_by_what_it_points_at() {
    let html = r##"
    <input type="hidden" class="add-to-cart-url" value="/cart/add-product?pid=R1&amp;verify=1-aaa" />
    <gep-add-to-wishlist url="/wishlist-add-product?pid=R1&amp;verify=1-bbb"></gep-add-to-wishlist>
    <a href="/products/stores?pid=R1&amp;verify=1-ccc">stock</a>
    <a href="/products/variation?dwvar_R1_color=RED&amp;pid=R1&amp;verify=1-ddd">red</a>
    <a href="/products/variation?pid=R1&amp;verify=1-eee">base</a>
    <a href="/somewhere/else">not an action</a>"##;
    let a = actions(html);
    assert_eq!(a.add_to_cart.as_deref(), Some("/cart/add-product?pid=R1&verify=1-aaa"));
    assert_eq!(a.add_to_wishlist.as_deref(), Some("/wishlist-add-product?pid=R1&verify=1-bbb"));
    assert_eq!(a.store_stock.as_deref(), Some("/products/stores?pid=R1&verify=1-ccc"));
    assert_eq!(a.variation.as_deref(), Some("/products/variation?pid=R1&verify=1-eee"));
    assert_eq!(a.shipping, None);
}

#[test]
fn a_variation_url_is_found_on_the_radio_input_that_carries_it() {
    let html = r##"
    <input type="radio" name="color" value="BGE"
           data-url="/products/variation?dwvar_R1_color=BGE&amp;pid=R1&amp;verify=1-a" />
    <input type="radio" name="color" value="BLU"
           data-url="/products/variation?pid=R1&amp;quantity=1&amp;verify=1-b" />"##;
    assert_eq!(
        actions(html).variation.as_deref(),
        Some("/products/variation?pid=R1&quantity=1&verify=1-b")
    );
}

#[test]
fn a_page_carrying_no_actions_says_so_rather_than_looking_populated() {
    assert!(actions("<div>nothing here</div>").is_empty());
}

#[test]
fn a_html_description_becomes_readable_prose() {
    let html = "<p>A comfortable tee.</p><h3>Features</h3>\
                <ul><li>100% cotton</li><li>Round neck</li></ul>";
    assert_eq!(
        plain_text(html),
        "A comfortable tee.\n\nFeatures\n\n  - 100% cotton\n  - Round neck"
    );
}

#[test]
fn a_description_that_is_already_plain_is_left_alone() {
    assert_eq!(plain_text("Just a sentence."), "Just a sentence.");
    assert_eq!(plain_text(""), "");
}

#[test]
fn scripts_and_styles_do_not_reach_the_prose() {
    assert_eq!(
        plain_text("<p>Kept</p><script>var x = 1;</script><style>p{}</style><div>also\nkept</div>"),
        "Kept\n\nalso kept"
    );
}

#[test]
fn the_stock_modal_carries_one_signed_url_per_region() {
    let html = r##"<select>
      <option value="">Select a region</option>
      <option value="NZ-AUK" data-href="/products/stores/region?productId=R1&amp;region=NZ-AUK&amp;verify=1-aaa">Auckland</option>
      <option value="NZ-CAN" data-href="/products/stores/region?productId=R1&amp;region=NZ-CAN&amp;verify=1-bbb">Canterbury</option>
    </select>
    <a href="/products/stores?pid=R1&amp;verify=1-ccc">all</a>"##;
    let links = region_links(html);
    assert_eq!(links.len(), 2);
    assert_eq!(
        links.get("NZ-CAN").map(|s| s.as_str()),
        Some("/products/stores/region?productId=R1&region=NZ-CAN&verify=1-bbb")
    );
}

#[test]
fn a_region_link_without_a_value_is_named_by_its_query() {
    let html = r#"<a href="/products/stores/region?productId=R1&amp;region=NZ-WGN&amp;verify=1">x</a>"#;
    let links = region_links(html);
    assert_eq!(
        links.get("NZ-WGN").map(|s| s.as_str()),
        Some("/products/stores/region?productId=R1&region=NZ-WGN&verify=1")
    );
}

#[test]
fn per_store_stock_is_read_from_the_class_and_the_words_are_kept_too() {
    let html = r##"
    <div class="store panel">
      <div class="store-toggle" data-target="#c-full-store-details-116">
        <div class="store-details-title"><h6 class="title">Example Town</h6></div>
        <span class="store-availability store-availability__IN_STOCK">In stock</span>
      </div>
    </div>
    <div class="store panel">
      <div class="store-toggle" data-target="#c-full-store-details-204">
        <div class="store-details-title"><h6 class="title">Other Town</h6></div>
        <span class="store-availability store-availability__NOT_AVAILABLE">Not available</span>
      </div>
    </div>"##;
    let stock = store_stock(html);
    assert_eq!(stock.len(), 2);
    assert_eq!(stock[0].store_id.as_deref(), Some("116"));
    assert_eq!(stock[0].store_name, "Example Town");
    assert_eq!(stock[0].in_stock, Some(true));
    assert_eq!(stock[1].in_stock, Some(false));
    assert_eq!(stock[1].label.as_deref(), Some("Not available"));
}

#[test]
fn the_typeahead_names_each_product_it_offers() {
    let html = r#"<div class="product-suggestions">
        <a class="suggestion-product" href="/p/a-tee/R1.html"> A Tee </a>
        <a class="suggestion-product" href="/c/toys">Toys</a>
        <a class="suggestion-product" href="/p/blank/R2.html">  </a></div>"#;
    assert_eq!(suggestions(html), vec![("R1".to_string(), "A Tee".to_string())]);
}

#[test]
fn a_displayed_price_keeps_only_its_digits_and_point() {
    assert_eq!(price_digits("$1,299.00"), "1299.00");
    assert_eq!(price_digits("Was $5"), "5");
    assert_eq!(price_digits("free"), "");
}

fn dbl(v: f64) -> Double {
    Double { bits: v.to_bits() }
}

fn value_of(d: Option<Double>) -> Option<f64> {
    d.map(|d| f64::from_bits(d.bits))
}

fn money(value: Option<f64>, currency: Option<&str>, formatted: Option<&str>) -> Money {
    Money { value: value.map(dbl), currency: currency.map(str::to_string), formatted: formatted.map(str::to_string) }
}

fn sales(value: f64, formatted: &str) -> PriceBlock {
    PriceBlock { sales: Some(money(Some(value), None, Some(formatted))), list: None }
}

fn wire_product(id: &str) -> WireProduct {
    WireProduct {
        id: Some(id.to_string()),
        product_name: None,
        brand: None,
        master_product: None,
        price: PriceBlock { sales: None, list: None },
        availability: None,
        variation_attributes: Vec::new(),
        max_order_quantity: None,
        short_description: None,
        long_description: None,
        ean: None,
        rating: None,
        images: None,
        shipping_options: Vec::new(),
        selected_product_url: None,
        marketplace: None,
    }
}

fn line_item(uuid: Option<&str>, id: &str, quantity: u32) -> WireCartItem {
    WireCartItem {
        uuid: uuid.map(str::to_string),
        id: Some(id.to_string()),
        product_name: Some("T".to_string()),
        brand: None,
        uuid_upper: None,
        pre_order_uuid: None,
        quantity: Some(quantity),
        price: None,
        price_total: None,
    }
}

fn wire_cart(items: Vec<WireCartItem>) -> WireCart {
    WireCart { cart_id: Some("c1".to_string()), items, sub_total: None, totals: None, quantity_total: None }
}

fn empty_response() -> CartResponse {
    CartResponse {
        cart_model: None,
        cart: None,
        basket_model: None,
        basket: None,
        quantity_total: None,
        items: None,
        sub_total: None,
    }
}

/// The basket an answer comes to, with nothing derived for a missing half.
fn basket(r: CartResponse) -> Cart {
    let parts = r.into_parts();
    let lines = parts.items.into_iter().map(|w| w.into_line(None, None)).collect();
    cart_from(parts.id, lines, parts.subtotal, parts.quantity)
}

#[test]
fn a_hollow_list_price_is_not_a_discount() {
    let block = PriceBlock {
        sales: Some(money(Some(7.49), Some("NZD"), Some("$7.49"))),
        list: Some(money(None, None, None)),
    };
    assert_eq!(value_of(block.sales().value), Some(7.49));
    assert!(block.was().is_none());
}

#[test]
fn a_real_list_price_survives() {
    let block = PriceBlock {
        sales: Some(money(None, None, Some("$5.00"))),
        list: Some(money(Some(9.0), None, Some("$9.00"))),
    };
    assert_eq!(block.was().unwrap().formatted.as_deref(), Some("$9.00"));
}

#[test]
fn a_variation_axis_keeps_selectable_and_orderable_apart() {
    let value = |id: &str, selectable: bool, orderable: bool, selected: bool| WireAxisValue {
        id: Some(id.to_string()),
        display_value: Some(id.to_string()),
        value: None,
        selected,
        selectable,
        orderable,
        url: None,
    };
    let mut p = wire_product("RM1-8M");
    p.product_name = Some("Tee".to_string());
    p.master_product = Some("RM1".to_string());
    p.variation_attributes = vec![WireAxis {
        attribute_id: Some("size".to_string()),
        id: None,
        display_name: Some("Size".to_string()),
        display_value: None,
        values: vec![value("XS", false, false, false), value("S", true, false, false), value("M", true, true, true)],
    }];
    let d = p.into_detail();
    let size = &d.axes[0];
    assert_eq!(size.id, "size");
    assert_eq!(size.selected.as_deref(), Some("M"));
    assert_eq!(size.values.len(), 3);
    assert!(!size.values[0].selectable);
    assert!(size.values[1].selectable && !size.values[1].orderable);
    assert!(size.values[2].orderable);
    assert!(d.product.is_variant());
}


#[test]
fn an_add_nests_its_cart_under_a_name_of_its_own() {
    let mut r = empty_response();
    r.quantity_total = Some(5);
    let mut item = line_item(Some("u1"), "R1", 2);
    item.price = Some(sales(7.49, "$7.49"));
    r.cart = Some(wire_cart(vec![item]));
    let cart = basket(r);
    assert_eq!(cart.lines.len(), 1);
    assert_eq!(cart.id.as_deref(), Some("c1"));
    assert_eq!(cart.quantity, 5);
}

#[test]
fn both_cart_shapes_read_as_one_cart() {
    let mut nested = empty_response();
    let mut item = line_item(Some("u1"), "R1", 2);
    item.price = Some(sales(7.49, "$7.49"));
    let mut model = wire_cart(vec![item]);
    model.sub_total = Some(Subtotal::Text("$10.48".to_string()));
    nested.cart_model = Some(model);
    let cart = basket(nested);
    assert_eq!(cart.id.as_deref(), Some("c1"));
    assert_eq!(cart.lines[0].uuid, "u1");
    assert_eq!(cart.quantity, 2, "units, counted off the lines");
    assert_eq!(cart.subtotal.as_deref(), Some("$10.48"));

    let mut flat = empty_response();
    flat.quantity_total = Some(2);
    flat.sub_total = Some(Subtotal::Text("$10.48".to_string()));
    let mut a = line_item(Some("u1"), "R1", 1);
    a.price_total = Some(WireLineTotal::Flat(money(Some(7.49), None, Some("$7.49"))));
    let mut b = line_item(Some("u2"), "R2", 1);
    b.price_total = Some(WireLineTotal::Flat(money(Some(2.99), None, Some("$2.99"))));
    flat.items = Some(vec![a, b]);
    let parts = flat.into_parts();
    let lines: Vec<_> = parts
        .items
        .into_iter()
        .map(|w| {
            let per_unit = Price { value: Some(dbl(7.49)), formatted: Some("$7.49".to_string()), currency: None };
            w.into_line(Some(per_unit), None)
        })
        .collect();
    let cart = cart_from(parts.id, lines, parts.subtotal, parts.quantity);
    assert_eq!(cart.lines.len(), 2);
    assert_eq!(cart.quantity, 2);
    assert_eq!(cart.lines[0].price.formatted.as_deref(), Some("$7.49"));
}

#[test]
fn every_name_the_site_gives_the_cart_reads_as_a_cart() {
    for key in 0..4 {
        let mut r = empty_response();
        let model = Some(wire_cart(vec![line_item(Some("u"), "R1", 1)]));
        match key {
            0 => r.cart_model = model,
            1 => r.cart = model,
            2 => r.basket_model = model,
            _ => r.basket = model,
        }
        assert_eq!(basket(r).lines.len(), 1, "{key}");
    }
}

#[test]
fn a_wrapped_basket_takes_its_totals_over_the_envelope_around_it() {
    let mut r = empty_response();
    let mut item = line_item(Some("u"), "R1", 2);
    item.uuid_upper = Some("p".to_string());
    let mut model = wire_cart(vec![item]);
    model.cart_id = None;
    model.quantity_total = Some(2);
    model.totals = Some(WireTotals { sub_total: Some(Subtotal::Text("$14.98".to_string())) });
    r.basket = Some(model);
    r.quantity_total = Some(0);
    let cart = basket(r);
    assert_eq!(cart.lines.len(), 1);
    assert_eq!(cart.quantity, 2);
    assert_eq!(cart.subtotal.as_deref(), Some("$14.98"));
}

#[test]
fn a_line_total_reads_in_both_of_the_shapes_it_arrives_in() {
    let mut flat = empty_response();
    let mut item = line_item(None, "R1", 2);
    item.price = Some(sales(7.49, "$7.49"));
    item.price_total = Some(WireLineTotal::Flat(money(Some(14.98), None, Some("$14.98"))));
    flat.items = Some(vec![item]);
    assert_eq!(basket(flat).lines[0].total.formatted.as_deref(), Some("$14.98"));

    let mut nested = empty_response();
    let mut item = line_item(None, "R1", 2);
    item.price = Some(sales(7.49, "$7.49"));
    item.price_total = Some(WireLineTotal::Nested(sales(14.98, "$14.98")));
    nested.cart = Some(wire_cart(vec![item]));
    assert_eq!(basket(nested).lines[0].total.formatted.as_deref(), Some("$14.98"));
}

#[test]
fn a_line_carries_both_of_the_ids_the_site_gives_it() {
    let mut r = empty_response();
    let mut item = line_item(Some("line-1"), "R1", 1);
    item.uuid_upper = Some("pli-1".to_string());
    r.items = Some(vec![item]);
    let cart = basket(r);
    assert_eq!(cart.lines[0].uuid, "line-1");
    assert_eq!(cart.lines[0].pli_uuid.as_deref(), Some("pli-1"));

    let mut both = empty_response();
    let mut item = line_item(Some("line-1"), "R1", 1);
    item.uuid_upper = Some("pli-1".to_string());
    item.pre_order_uuid = Some("pli-1".to_string());
    both.items = Some(vec![item]);
    assert_eq!(basket(both).lines[0].pli_uuid.as_deref(), Some("pli-1"));

    let mut only_pre = empty_response();
    let mut item = line_item(Some("line-1"), "R1", 1);
    item.pre_order_uuid = Some("pli-1".to_string());
    only_pre.cart_model = Some(wire_cart(vec![item]));
    assert_eq!(basket(only_pre).lines[0].pli_uuid.as_deref(), Some("pli-1"));
}

#[test]
fn a_unit_price_and_a_line_total_are_never_confused() {
    let mut item = line_item(Some("u"), "R1", 4);
    item.price = Some(sales(9.99, "$9.99"));
    let derived_total = Price { value: Some(dbl(39.96)), formatted: Some("$39.96".to_string()), currency: None };
    let line = item.into_line(None, Some(derived_total));
    assert_eq!(value_of(line.price.value), Some(9.99), "per unit, as sent");
    assert_eq!(line.total.formatted.as_deref(), Some("$39.96"), "derived");

    let mut item = line_item(Some("u"), "R1", 2);
    item.price_total = Some(WireLineTotal::Flat(money(Some(19.98), None, Some("$19.98"))));
    let derived_unit = Price { value: Some(dbl(9.99)), formatted: Some("$9.99".to_string()), currency: None };
    let line = item.into_line(Some(derived_unit), None);
    assert_eq!(value_of(line.total.value), Some(19.98), "the line, as sent");
    assert_eq!(line.price.formatted.as_deref(), Some("$9.99"), "derived");
}

#[test]
fn a_number_subtotal_is_printed_as_dollars() {
    let c = cart_from(None, Vec::new(), Some(Subtotal::Number("12.5".to_string())), Some(0));
    assert_eq!(c.subtotal.as_deref(), Some("$12.5"));
    let c = cart_from(None, Vec::new(), Some(Subtotal::Object(Some("$3.00".to_string()))), None);
    assert_eq!(c.subtotal.as_deref(), Some("$3.00"));
    assert_eq!(c.quantity, 0);
}

#[test]
fn a_store_keeps_the_region_it_was_found_by() {
    let w = WireStore {
        id: "119".to_string(),
        name: Some("Example Town".to_string()),
        full_address: Some("1 Example Road, Example Town".to_string()),
        city: None,
        postal_code: None,
        state_code: Some("NZ-AUK".to_string()),
        latitude: Some(dbl(-36.7)),
        longitude: Some(dbl(174.7)),
        phone: None,
        email: None,
        click_and_collect: Some(true),
        open_now: Some(true),
        opening_hours: Some(shopping_kit::twlnz::wire::WireHours { opening_hours: Some("8.00am - 9.00pm".to_string()) }),
    };
    let s = w.into_store();
    assert_eq!(s.id, "119");
    assert_eq!(s.region.as_deref(), Some("NZ-AUK"));
    assert_eq!(s.hours_today.as_deref(), Some("8.00am - 9.00pm"));
    assert_eq!(s.click_and_collect, Some(true));
    assert_eq!(value_of(s.latitude), Some(-36.7));
}

#[test]
fn a_store_without_a_name_is_named_by_its_id() {
    let w = WireStore {
        id: "116".to_string(),
        name: None,
        full_address: None,
        city: None,
        postal_code: None,
        state_code: None,
        latitude: None,
        longitude: None,
        phone: None,
        email: None,
        click_and_collect: None,
        open_now: None,
        opening_hours: None,
    };
    assert_eq!(w.into_store().name, "116");
}

fn bare_product(id: &str, master: Option<&str>) -> Product {
    Product {
        id: id.into(),
        master_id: master.map(str::to_string),
        name: String::new(),
        brand: None,
        ean: None,
        price: Price::none(),
        was_price: None,
        rating: None,
        category: None,
        url: None,
        image: None,
        availability: Availability { status: None, online: None, in_store: None, label: None },
        marketplace: false,
    }
}

#[test]
fn a_variation_group_is_told_apart_from_its_master() {
    let p = bare_product("RM110164727-1M", Some("RM110164727"));
    assert!(p.is_variant());
    let plain = bare_product("R3059518", Some("R3059518"));
    assert!(!plain.is_variant(), "a master that is its own id is not a variant");
}

const PDP_PAGE: &str = r##"
    <script type="application/ld+json">{"@context":"http://schema.org/","@type":"Product",
      "name":"Example Milk 3L","description":"Example Milk, three litres","sku":"R2000001",
      "brand":{"name":"Example Dairy"},"gtin13":["9400000000003"],
      "image":["https://example.test/milk.jpg"],
      "offers":{"@type":"Offer","price":"8.99","priceCurrency":"NZD","availability":"http://schema.org/InStock"}}</script>
    <input class="add-to-cart-url" value="/cart/add-product?pid=R2000001&amp;verify=1788496536-aaa" />
    <gep-add-to-wishlist url="/wishlist-add-product?pid=R2000001&amp;verify=1788496536-bbb"></gep-add-to-wishlist>
    <a href="/products/stores?pid=R2000001&amp;verify=1788496536-ccc">stock</a>"##;

fn some(s: &str) -> Option<String> {
    Some(s.to_string())
}

/// The page's schema.org block, as its JSON reads.
fn pdp_page_ld() -> LdProduct {
    LdProduct {
        name: some("Example Milk 3L"),
        description: some("Example Milk, three litres"),
        sku: some("R2000001"),
        brand: Some(LdBrand { name: some("Example Dairy") }),
        offers: Some(LdOffer {
            price: some("8.99"),
            currency: some("NZD"),
            availability: some("http://schema.org/InStock"),
        }),
        gtin13: vec!["9400000000003".to_string()],
        image: vec!["https://example.test/milk.jpg".to_string()],
    }
}

fn pdp_page() -> Pdp {
    assert!(tiles(PDP_PAGE).is_empty());
    Pdp::parse("R2000001", actions(PDP_PAGE), Some(pdp_page_ld()), Vec::new(), Some(dbl(8.99))).unwrap()
}

#[test]
fn a_page_yields_the_product_and_the_actions_it_authorises() {
    let pdp = pdp_page();
    assert_eq!(pdp.detail.product.name, "Example Milk 3L");
    assert_eq!(pdp.detail.product.brand.as_deref(), Some("Example Dairy"));
    // Only a detail page has the barcode.
    assert_eq!(pdp.detail.product.ean.as_deref(), Some("9400000000003"));
    assert_eq!(value_of(pdp.detail.product.price.value), Some(8.99));
    assert_eq!(pdp.detail.product.availability.online, Some(true));
    assert!(pdp.action(Action::AddToCart).is_ok());
    assert_eq!(pdp.minted_at(), Some(1_788_496_536));
}

#[test]
fn a_page_fills_the_rest_from_its_schema_block() {
    let pdp = pdp_page();
    assert_eq!(pdp.pid, "R2000001");
    assert_eq!(pdp.detail.product.id, "R2000001");
    assert_eq!(pdp.detail.product.price.formatted.as_deref(), Some("$8.99"));
    assert_eq!(pdp.detail.product.price.currency.as_deref(), Some("NZD"));
    assert_eq!(pdp.detail.product.image.as_deref(), Some("https://example.test/milk.jpg"));
    assert_eq!(pdp.detail.description.as_deref(), Some("Example Milk, three litres"));
    assert_eq!(pdp.detail.sku.as_deref(), Some("R2000001"));
    assert!(pdp.detail.axes.is_empty());
}

#[test]
fn a_tile_for_the_pid_is_preferred_and_keeps_what_it_knows() {
    let mut other = Product::default();
    other.id = "R9".to_string();
    other.name = "Another".to_string();
    let mut mine = Product::default();
    mine.id = "R2000001".to_string();
    mine.name = "Milk from the tile".to_string();
    mine.category = some("food/dairy");
    mine.availability.in_store = Some(true);
    let mut ld = pdp_page_ld();
    ld.sku = None;
    ld.description = some("Milk &amp; more");
    let pdp = Pdp::parse("R2000001", no_actions(), Some(ld), vec![other, mine], None).unwrap();
    assert_eq!(pdp.detail.product.name, "Milk from the tile");
    assert_eq!(pdp.detail.product.category.as_deref(), Some("food/dairy"));
    assert_eq!(pdp.detail.product.availability.in_store, Some(true));
    assert_eq!(pdp.detail.product.availability.online, Some(true));
    assert_eq!(pdp.detail.product.price.value, None);
    assert_eq!(pdp.detail.product.price.formatted.as_deref(), Some("$8.99"));
    // With no SKU in the block, the pid stands in for one.
    assert_eq!(pdp.detail.sku.as_deref(), Some("R2000001"));
    assert_eq!(pdp.detail.description.as_deref(), Some("Milk & more"));
    // With no tile for the pid, the first one is used.
    let first = Pdp::parse("R5", no_actions(), None, vec![Product::default()], None).unwrap();
    assert_eq!(first.detail.product.id, "R5");
    assert_eq!(first.detail.sku.as_deref(), Some("R5"));
}

#[test]
fn a_page_that_is_not_a_product_page_is_refused_rather_than_returned_hollow() {
    let html = "<html><body>Page not found</body></html>";
    assert!(tiles(html).is_empty());
    let err = Pdp::parse("R1", actions(html), None, Vec::new(), None).err().unwrap();
    assert!(matches!(err, Error::NotInPage { .. }), "{}", err.message());
    assert_eq!(err.message(), "product R1 was not found in the page, so the page was not a product page");
}

#[test]
fn a_missing_action_says_why_rather_than_naming_a_missing_url() {
    let html = r#"<script type="application/ld+json">{"@type":"Product","name":"Sold Out Thing",
            "offers":{"price":"5.00","availability":"http://schema.org/OutOfStock"}}</script>"#;
    let ld = LdProduct {
        name: some("Sold Out Thing"),
        description: None,
        sku: None,
        brand: None,
        offers: Some(LdOffer { price: some("5.00"), currency: None, availability: some("http://schema.org/OutOfStock") }),
        gtin13: Vec::new(),
        image: Vec::new(),
    };
    let pdp = Pdp::parse("R3", actions(html), Some(ld), tiles_none(html), Some(dbl(5.0))).unwrap();
    assert_eq!(pdp.detail.product.availability.online, Some(false));
    let err = pdp.action(Action::AddToCart).err().unwrap();
    assert!(err.message().contains("not orderable online"), "{}", err.message());
}

fn no_actions() -> Actions {
    Actions { add_to_cart: None, add_to_wishlist: None, store_stock: None, shipping: None, set_region: None, variation: None }
}

fn tiles_none(html: &str) -> Vec<Product> {
    assert!(tiles(html).is_empty());
    Vec::new()
}

#[test]
fn a_stale_page_is_told_from_its_own_token_timestamp() {
    let mut pdp = pdp_page();
    assert!(pdp.stale(60), "a 2026 token is long past any sane max age");
    // A page minted now is not stale.
    let fresh = format!("/cart/add-product?pid=R1&verify={}-aaa", now_secs());
    pdp.actions.add_to_cart = Some(fresh);
    assert!(!pdp.stale(300));
}

#[test]
fn staleness_is_measured_against_the_given_clock() {
    let pdp = pdp_page();
    assert!(!pdp.stale_at(60, 1_788_496_536 + 60));
    assert!(pdp.stale_at(60, 1_788_496_536 + 61));
    // A clock behind the token counts as no age at all.
    assert!(!pdp.stale_at(0, 1_000));
}

#[test]
fn selecting_a_value_prefers_the_url_the_site_already_signed() {
    // The site's own URL carries the rest of the current selection, which a
    // hand-built one would drop.
    let mut pdp = pdp_page();
    pdp.detail.axes = vec![VariationAxis {
        id: "color".into(),
        name: "Color".into(),
        selected: None,
        values: vec![VariationValue {
            id: "RED".into(),
            label: "Red".into(),
            selected: false,
            selectable: true,
            orderable: true,
            url: Some("/products/variation?dwvar_R1_color=RED&pid=R1&verify=1-x".into()),
        }],
    }];
    assert_eq!(
        pdp.select("color", "Red").unwrap(),
        "/products/variation?dwvar_R1_color=RED&pid=R1&verify=1-x"
    );
}

#[test]
fn a_hand_built_selection_encodes_the_value_and_embeds_the_pid() {
    // `dwvar_<pid>_<attr>` -- the parameter name is per product, and values
    // like `BRN L` and `CHR/MARL` need encoding.
    let mut pdp = pdp_page();
    pdp.actions.variation = Some("/products/variation?pid=R2000001&verify=1-e".into());
    assert_eq!(
        pdp.select("color", "BRN L").unwrap(),
        "/products/variation?pid=R2000001&verify=1-e&dwvar_R2000001_color=BRN%20L"
    );
}

#[test]
fn a_selection_with_no_variation_action_says_there_are_no_variations() {
    let pdp = pdp_page();
    let err = pdp.select("color", "Red").err().unwrap();
    assert!(err.message().contains("no variations to choose between"), "{}", err.message());
}

#[test]
fn the_form_token_is_read_off_the_login_page() {
    let html = r#"<form action="/account/submit-login">
            <input type="hidden" name="csrf_token" value="a-long-opaque-token" />
            <input name="dwfrm_login_email" /></form>"#;
    assert_eq!(csrf_token(html).as_deref(), Some("a-long-opaque-token"));
}

#[test]
fn a_page_with_no_token_is_reported_rather_than_posted_to_blind() {
    // A bot check served in place of the login page looks exactly like
    // this, and posting credentials into it would be worse than failing.
    assert_eq!(csrf_token("<html><body>Checking your browser</body></html>"), None);
    assert_eq!(csrf_token(r#"<input name="csrf_token" value="" />"#), None);
}

#[test]
fn the_sites_own_words_for_a_bad_password_are_kept() {
    let html = r#"<div class="alert alert-danger">The email or password you entered is incorrect.</div>"#;
    assert_eq!(form_error(html).as_deref(), Some("The email or password you entered is incorrect."));
    assert_eq!(form_error("<div>fine</div>"), None);
}

#[test]
fn a_login_page_without_a_token_is_a_refusal_of_the_page() {
    let err = login_token("<html><body>Checking your browser</body></html>").unwrap_err();
    assert_eq!(
        err.message(),
        "the sign-in page refused the login page: it carried no csrf_token field, which usually means a bot check was served instead"
    );
    let ok = login_token(r#"<input name="csrf_token" value="t0k" />"#).unwrap();
    assert_eq!(ok, "t0k");
}

#[test]
fn the_form_posts_the_credentials_and_the_token_in_order() {
    let form = login_form("a@example.test", "hunter2", "t0k");
    assert_eq!(
        form,
        vec![
            ("dwfrm_login_email".to_string(), "a@example.test".to_string()),
            ("dwfrm_login_password".to_string(), "hunter2".to_string()),
            ("csrf_token".to_string(), "t0k".to_string()),
        ]
    );
    assert_eq!(login_url(&Endpoints::default()), "https://www.thewarehouse.co.nz/account/submit-login?rurl=1");
}

#[test]
fn the_forms_answer_is_read_for_a_session_then_for_the_sites_words() {
    assert!(login_answer(302, true, "").is_ok());
    let refused = login_answer(403, true, "").unwrap_err();
    assert_eq!(refused.message(), "the sign-in page refused the password");
    let worded = login_answer(200, false, r#"<div class="alert-danger">Wrong password.</div>"#).unwrap_err();
    assert_eq!(worded.message(), "the sign-in page refused the password: Wrong password.");
    let again = login_answer(200, false, "<p>sign in</p>").unwrap_err();
    assert_eq!(
        again.message(),
        "signing in did not produce a session, so no cc-nx_twl cookie was set. The form answered 200, which is the sign-in page again rather than a redirect"
    );
    let other = login_answer(302, false, "").unwrap_err();
    assert_eq!(
        other.message(),
        "signing in did not produce a session, so no cc-nx_twl cookie was set. The form answered 302"
    );
}

fn tile(id: &str) -> Product {
    let mut p = Product::default();
    p.id = id.to_string();
    p
}

fn window(n: usize, total: Option<u32>, category: Option<&str>) -> Listing {
    Listing { products: (0..n).map(|i| tile(&format!("R{i}"))).collect(), total, category: category.map(str::to_string) }
}

#[test]
fn paging_stops_at_the_end_rather_than_asking_for_a_window_past_it() {
    // One product in a listing whose header says it is the last: nothing is
    // asked for after it even though more were wanted.
    let mut paging = Paging::new(Query::Category("toysbaby".into()), 100);
    assert_eq!(paging.next_window(), Some((0, 32)));
    paging.take(window(1, Some(3122), None));
    assert_eq!(paging.next_window(), None);
    let listing = paging.finish();
    assert_eq!(listing.products.len(), 1);
    assert_eq!(listing.total, Some(3122));
}

#[test]
fn an_empty_listing_is_an_empty_result_not_an_error() {
    let mut paging = Paging::new(Query::Keyword("nothing at all".into()), 50);
    assert_eq!(paging.next_window(), Some((0, 32)));
    paging.take(window(0, None, None));
    assert_eq!(paging.next_window(), None);
    assert!(paging.finish().products.is_empty());
}

#[test]
fn full_windows_walk_on_until_the_total_is_in_hand() {
    let mut paging = Paging::new(Query::Category("c".into()), 100);
    paging.take(window(32, Some(64), None));
    assert_eq!(paging.next_window(), Some((32, 32)));
    paging.take(window(32, None, None));
    // Sixty-four held, and the total said sixty-four.
    assert_eq!(paging.next_window(), None);
    assert_eq!(paging.finish().products.len(), 64);
}

#[test]
fn the_last_window_asks_only_for_what_is_still_wanted_and_no_more_is_kept() {
    let mut paging = Paging::new(Query::Category("c".into()), 40);
    assert_eq!(paging.next_window(), Some((0, 32)));
    paging.take(window(32, None, None));
    assert_eq!(paging.next_window(), Some((32, 8)));
    paging.take(window(10, None, None));
    assert_eq!(paging.next_window(), None);
    assert_eq!(paging.finish().products.len(), 40);
    // Nothing wanted still asks for one.
    assert_eq!(Paging::new(Query::Category("c".into()), 0).next_window(), None);
}

#[test]
fn a_keyword_that_lands_in_a_category_is_paged_as_that_category() {
    let mut paging = Paging::new(Query::Keyword("lego".into()), 100);
    paging.take(window(32, None, Some("toys-lego")));
    assert!(matches!(&paging.query, Query::Category(c) if c == "toys-lego"));
    // A later landing does not move it again.
    paging.take(window(32, None, Some("elsewhere")));
    assert_eq!(paging.category.as_deref(), Some("toys-lego"));
    let listing = paging.finish();
    assert_eq!(listing.category.as_deref(), Some("toys-lego"));
}

const REGION_MODAL: &str = r##"<select>
      <option value="">Select a region</option>
      <option value="NZ-AUK" data-href="/products/stores/region?productId=R1&amp;region=NZ-AUK&amp;verify=1-aaa">Auckland</option>
      <option value="NZ-CAN" data-href="/products/stores/region?productId=R1&amp;region=NZ-CAN&amp;verify=1-bbb">Canterbury</option>
    </select>"##;

#[test]
fn narrowing_stock_to_a_region_follows_the_modals_own_signed_link() {
    let body = format!(r#"{{"modalTemplate":{}}}"#, serde_json::to_string(REGION_MODAL).unwrap());
    assert_eq!(
        region_link_in(&body, "NZ-CAN").unwrap(),
        "/products/stores/region?productId=R1&region=NZ-CAN&verify=1-bbb"
    );
    assert!(matches!(region_link_in("nope", "NZ-CAN").unwrap_err(), Error::Decode { .. }));
    assert!(matches!(region_link_in(r#"{"x":1}"#, "NZ-CAN").unwrap_err(), Error::NotInPage { .. }));
}

#[test]
fn a_region_the_modal_does_not_offer_names_the_ones_it_does() {
    let body = format!(r#"{{"stores":{}}}"#, serde_json::to_string(REGION_MODAL).unwrap());
    let err = region_link_in(&body, "NZ-XXX").unwrap_err();
    assert_eq!(err.message(), "a stock link for NZ-XXX was not found in the page, which offers NZ-AUK, NZ-CAN");
    let none = region_stock_link(&region_links("<p>no links</p>"), "NZ-AUK").unwrap_err();
    assert_eq!(none.message(), "a stock link for NZ-AUK was not found in the page, and the page offered none at all");
}

#[test]
fn an_unknown_region_is_refused_before_a_request_is_made() {
    let err = store_params("Chatham Islands").unwrap_err();
    assert!(err.message().contains("Chatham Islands"), "{}", err.message());
    let ok = store_params("canterbury").unwrap();
    assert_eq!(ok, vec![("region".to_string(), "NZ-CAN".to_string())]);
}

#[test]
fn an_account_only_call_says_so_rather_than_failing_obscurely() {
    let err = account_step(false, false, false).unwrap_err();
    assert!(err.message().contains("not signed in"), "{}", err.message());
    assert!(matches!(account_step(true, true, false), Err(Error::SessionExpired)));
    assert_eq!(account_step(true, false, false).unwrap(), false);
    assert_eq!(account_step(true, true, true).unwrap(), true);
    assert_eq!(account_step(false, false, true).unwrap(), true);
}

#[test]
fn a_background_request_claims_the_page_its_token_came_from() {
    let e = Endpoints::default();
    assert_eq!(xhr_referer(&e, "/cart/add-product?pid=R1&verify=1-a"), "https://www.thewarehouse.co.nz/p/p/R1.html");
    assert_eq!(xhr_referer(&e, "/cart/minicart"), "https://www.thewarehouse.co.nz/");
    assert_eq!(form_referer(&e, "/on/x/Cart-SelectStore"), "https://www.thewarehouse.co.nz/cart");
}

#[test]
fn a_presigned_url_is_used_as_given_and_parameters_are_only_appended() {
    let url = "/products/variation?pid=R1&verify=1-e";
    assert_eq!(request_target(url, &[]), url);
    let params = vec![("q".to_string(), "milk & eggs".to_string())];
    assert_eq!(request_target("/search", &params), "/search?q=milk%20%26%20eggs");
    assert_eq!(suggest_url(&Endpoints::default(), "lego"), "https://www.thewarehouse.co.nz/search/suggestions?q=lego");
}

#[test]
fn cart_writes_address_what_the_site_expects() {
    let e = Endpoints::default();
    assert_eq!(
        quantity_url(&e, "R1", 3),
        "https://www.thewarehouse.co.nz/on/demandware.store/Sites-twl-Site/default/Cart-UpdateQuantity?pid=R1&quantity=3"
    );
    let line = CartLine {
        uuid: "u1".into(),
        pli_uuid: Some("p1".into()),
        id: "R1".into(),
        name: "Thing".into(),
        brand: None,
        quantity: 1,
        price: Price::default(),
        total: Price::default(),
    };
    assert!(removal_url(&e, &line).ends_with("Cart-RemoveProductLineItem?pid=R1&uuid=p1"));
    let form = add_form("R1", 0);
    assert_eq!(form[1], ("quantity".to_string(), "1".to_string()));
    assert_eq!(form[2], ("context".to_string(), "PDP".to_string()));
    assert_eq!(form[3], ("cf-turnstile-response".to_string(), String::new()));
    assert_eq!(wishlist_form("R1")[1].1, "1");
    assert_eq!(store_form("116"), vec![("preferredStoreId".to_string(), "116".to_string()), ("storeId".to_string(), "116".to_string())]);
    assert_eq!(category_params(&["homegarden", "toys"], 0), vec![
        ("cgids".to_string(), "homegarden,toys".to_string()),
        ("maxDepth".to_string(), "0".to_string()),
    ]);
    assert_eq!(TOKEN_MAX_AGE_SECS, 300);
}

#[test]
fn the_variation_detail_keeps_what_only_the_page_knew() {
    let page = pdp_page();
    let mut from_json = pdp_page().detail;
    from_json.description = None;
    from_json.product.category = None;
    let mut page_detail = page.detail;
    page_detail.product.category = some("food/dairy");
    let merged = merged_detail(from_json, &page_detail);
    assert_eq!(merged.product.category.as_deref(), Some("food/dairy"));
    assert_eq!(merged.description.as_deref(), Some("Example Milk, three litres"));
}

#[test]
fn a_successful_action_yields_its_cart() {
    let body = r#"{"error":false,"cartModel":{"cartId":"c1","subTotal":"$10.48",
        "items":[{"uuid":"u1","id":"R1","productName":"Thing","quantity":2,
        "price":{"sales":{"value":7.49,"formatted":"$7.49"}}}]}}"#;
    let value = checked("cart add", body, &Envelope { error: false, msg: None }).unwrap();
    assert_eq!(value["cartModel"]["cartId"], "c1");
    let mut item = line_item(Some("u1"), "R1", 2);
    item.product_name = Some("Thing".to_string());
    item.price = Some(sales(7.49, "$7.49"));
    let mut model = wire_cart(vec![item]);
    model.sub_total = Some(Subtotal::Text("$10.48".to_string()));
    let mut response = empty_response();
    response.cart_model = Some(model);
    let cart = basket(response);
    assert_eq!(cart.lines.len(), 1);
    assert_eq!(cart.quantity, 2);
}

#[test]
fn a_store_list_parses_to_records() {
    // {"stores":{"stores":[{"ID":"119","name":"Example Town","stateCode":"NZ-AUK","fullAddress":"1 Example Rd"}]}}
    let w = WireStore {
        id: "119".to_string(),
        name: Some("Example Town".to_string()),
        full_address: Some("1 Example Rd".to_string()),
        city: None,
        postal_code: None,
        state_code: Some("NZ-AUK".to_string()),
        latitude: None,
        longitude: None,
        phone: None,
        email: None,
        click_and_collect: None,
        open_now: None,
        opening_hours: None,
    };
    let stores = vec![w.into_store()];
    assert_eq!(stores[0].id, "119");
    assert_eq!(stores[0].region.as_deref(), Some("NZ-AUK"));
}

#[test]
fn only_the_block_that_describes_a_product_is_taken() {
    let html = r#"<script type="application/ld+json">{"@type":"BreadcrumbList","itemListElement":[]}</script>
        <script type="application/ld+json">{"@type":"Product","name":"Thing"}</script>
        <script type="application/ld+json">not json</script>"#;
    let blocks = product_blocks(html);
    assert_eq!(blocks.len(), 1);
    assert!(blocks[0].contains("\"name\":\"Thing\""));
    assert_eq!(product_blocks(PDP_PAGE).len(), 1);
}

#[test]
fn the_store_and_account_pages_sit_under_the_storefront() {
    let e = Endpoints::default();
    assert_eq!(e.stores_region(), "https://www.thewarehouse.co.nz/products/stores/region");
    assert_eq!(e.account_page(), "https://www.thewarehouse.co.nz/account");
}

#[test]
fn a_session_logs_its_cookie_names_and_whether_it_is_an_account() {
    let s = with(&[(SESSION_COOKIE, "abc")]);
    assert_eq!(s.redacted(), r#"Session { cookies: ["dwsid"], account: false }"#);
    assert_eq!(Session::default().redacted(), "Session { cookies: [], account: false }");
}

#[test]
fn a_stored_session_logs_its_names_and_when_it_was_obtained() {
    let s = with(&[(SESSION_COOKIE, "abc")]);
    let stored = shopping_kit::twlnz::session::StoredSession::of_at(&s, None, 9);
    assert_eq!(stored.redacted(), r#"StoredSession { email: None, cookies: ["dwsid"], obtained_at: 9 }"#);
}

#[test]
fn an_expired_page_token_is_not_an_expired_session() {
    // One is fixed by re-fetching a page, the other by signing in.
    let stale = Error::TokenExpired { action: "cart add" };
    assert!(stale.is_stale_token());
    assert!(!stale.is_lapsed());
    assert_eq!(stale.auth(), None);

    assert!(Error::SessionExpired.is_lapsed());
    assert!(!Error::SessionExpired.is_stale_token());
}

#[test]
fn error_auth_kinds_are_distinct() {
    assert_eq!(Error::SessionExpired.auth(), Some(AuthFault::Expired));
    assert_eq!(Error::NotSignedIn.auth(), Some(AuthFault::Missing));
    assert_eq!(Error::Shape("x".into()).auth(), None);
}

#[test]
fn the_product_block_is_picked_out_of_several_ld_json_blocks() {
    let html = r#"
        <script type="application/ld+json">{"@type":"BreadcrumbList","itemListElement":[]}</script>
        <script type="application/ld+json">{"@context":"http://schema.org/","@type":"Product","name":"Example Milk 3L","sku":"R1","brand":{"name":"Example"},"gtin13":["9400000000002"],"offers":{"@type":"Offer","price":"8.99","priceCurrency":"NZD","availability":"http://schema.org/InStock"}}</script>"#;
    let blocks = product_blocks(html);
    assert_eq!(blocks.len(), 1, "a Product block");
    let ld: serde_json::Value = serde_json::from_str(&blocks[0]).unwrap();
    assert_eq!(ld["name"], "Example Milk 3L");
    assert_eq!(ld["sku"], "R1");
    assert_eq!(ld["gtin13"][0], "9400000000002");
    assert_eq!(ld["offers"]["price"], "8.99");
}

#[test]
fn a_stale_token_refusal_is_retried_once_and_then_stands() {
    assert!(matches!(after_add(Err(Error::TokenExpired { action: "the cart add" }), false), AddNext::ReadPageAndPost));
    assert!(matches!(
        after_add(Err(Error::TokenExpired { action: "the cart add" }), true),
        AddNext::Finish(Err(Error::TokenExpired { .. }))
    ));
    let refused = Error::Refused { action: "the cart add", message: "out of stock".into() };
    assert!(matches!(after_add(Err(refused), false), AddNext::Finish(Err(Error::Refused { .. }))));
    let answered = after_add(Ok(serde_json::Value::Bool(true)), false);
    assert!(matches!(answered, AddNext::Finish(Ok(_))));
}
