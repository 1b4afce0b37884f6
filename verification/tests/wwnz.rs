use shopping_kit::netkit::cookies::CookieMap;
use shopping_kit::netkit::error::{AuthFault, Fault};
use shopping_kit::wwnz::auth::{
    error_message, finish, form_state, from_netscape, names, page_from, reason, Action, LoginFlow,
    Page, Stage,
};
use shopping_kit::wwnz::error::Error;
use shopping_kit::wwnz::domain::{variant_key, Category, Filter};
use shopping_kit::wwnz::endpoints::Endpoints;
use shopping_kit::wwnz::gql::{document, OPERATIONS, ORDER_DETAILS};
use shopping_kit::wwnz::session::{guest_expires_at, guest_from, guest_still_good, Session, StoredSession};
use shopping_kit::measure::Double;
use shopping_kit::wwnz::domain::OrderDetail;
use shopping_kit::wwnz::wire::{
    WireCartProduct, WireCartVariant, WireLineItem, WireOrderDetail, WireOrderLineItem, WireOrderProduct,
    WireProduct, WireResult,
};
use shopping_kit::wwnz::wire::{WireCategory, WireFee, WireFulfilmentLocation, WireOrder, WireOrderFulfilment, WireOrderPage};

fn jar(pairs: &[(&str, &str)]) -> CookieMap {
    let mut m = CookieMap::new();
    for (k, v) in pairs {
        m.insert(k.to_string(), v.to_string());
    }
    m
}

#[test]
fn auth_the_state_is_read_off_the_hidden_field() {
    let html = r#"<form><input type="hidden" name="state" value="hKFo2SB-abc"/>
                  <input name="username" type="email"/></form>"#;
    assert_eq!(form_state(html).as_deref(), Some("hKFo2SB-abc"));
}

#[test]
fn auth_the_value_is_found_even_when_it_precedes_the_name() {
    let html = r#"<input value="abc123" type="hidden" name="state">"#;
    assert_eq!(form_state(html).as_deref(), Some("abc123"));
}

#[test]
fn auth_an_empty_state_is_skipped_for_a_later_one() {
    let html = r#"<input name="state" value=""><input name="state" value="real">"#;
    assert_eq!(form_state(html).as_deref(), Some("real"));
}

#[test]
fn a_page_with_no_form_has_no_state() {
    assert!(form_state("<html><body>Just a moment...</body></html>").is_none());
}

#[test]
fn entities_in_the_state_are_decoded() {
    let html = r#"<input name="state" value="a&amp;b">"#;
    assert_eq!(form_state(html).as_deref(), Some("a&b"));
}

#[test]
fn an_auth0_banner_is_read_however_it_is_rendered() {
    for html in [
        r#"<span id="error-element-password">Wrong email or password</span>"#,
        r#"<div class="ulp-input-error-message">Wrong email or password</div>"#,
        r#"<div role="alert">Wrong email or password</div>"#,
    ] {
        assert_eq!(error_message(html).as_deref(), Some("Wrong email or password"), "{html}");
    }
    assert_eq!(error_message("<p>nothing wrong</p>"), None);
    assert_eq!(reason("<p>nothing wrong</p>"), "");
}

#[test]
fn an_imported_jar_keeps_only_the_session_and_guest_cookies() {
    let text = "\
.woolworths.co.nz\tTRUE\t/\tTRUE\t1900000000\t__session__0\tpart-a
.woolworths.co.nz\tTRUE\t/\tTRUE\t1900000000\t__session__1\tpart-b
.woolworths.co.nz\tTRUE\t/\tTRUE\t1900000000\tak_bmsc\tbotmanager
.other-site.test\tTRUE\t/\tTRUE\t1900000000\t__session__0\tnot-ours
";
    let session = from_netscape(text);
    assert!(session.account);
    assert_eq!(
        session.header().as_deref(),
        Some("__session__0=part-a; __session__1=part-b"),
        "another site's cookies and the bot-manager cookie are left out"
    );
}

#[test]
fn an_import_with_nothing_useful_is_not_an_account() {
    assert!(!from_netscape("# empty\n").account);
}

#[test]
fn a_jar_is_traced_by_its_names() {
    assert_eq!(names(&jar(&[("b", "secret"), ("a", "x")])), "a, b");
    assert_eq!(names(&CookieMap::new()), "");
}

#[test]
fn a_bare_stock_code_is_completed_to_the_each_variant() {
    assert_eq!(variant_key("282768", None), "282768-EA");
    assert_eq!(variant_key("282768-EA", None), "282768-EA");
    assert_eq!(variant_key("282768-KGM", None), "282768-KGM");
}

#[test]
fn an_explicit_unit_replaces_whatever_suffix_was_there() {
    assert_eq!(variant_key("282768", Some("kgm")), "282768-KGM");
    assert_eq!(variant_key("282768-EA", Some("kgm")), "282768-KGM");
    assert_eq!(variant_key("282768-EA", Some("  ")), "282768-EA");
}

#[test]
fn completing_a_key_twice_changes_nothing() {
    for raw in ["282768", " 282768-EA ", "", "-x"] {
        let once = variant_key(raw, None);
        assert_eq!(variant_key(&once, None), once, "{raw:?}");
    }
}

#[test]
fn order_filters_accept_the_synonyms_the_site_suggests() {
    assert_eq!(Filter::parse("open"), Some(Filter::Active));
    assert_eq!(Filter::parse("history"), Some(Filter::Past));
    assert_eq!(Filter::parse("ALL"), Some(Filter::All));
    assert_eq!(Filter::parse("yesterday"), None);
    assert_eq!(Filter::Active.wire(), "ACTIVE");
    assert_eq!(Filter::default(), Filter::All);
}

#[test]
fn a_category_lookup_prefers_an_exact_shallower_match() {
    let tree = Category {
        key: "root".into(),
        name: "All".into(),
        slug: "all".into(),
        level: 0,
        children: vec![
            Category { key: "a".into(), name: "Milkshakes".into(), slug: "m".into(), level: 1, children: vec![] },
            Category { key: "b".into(), name: "Milk".into(), slug: "milk".into(), level: 1, children: vec![] },
        ],
    };
    assert_eq!(tree.find("milk").unwrap().key, "b");
    assert_eq!(tree.find("milkshake").unwrap().key, "a");
    assert!(tree.find("").is_none());
    assert_eq!(tree.flatten().len(), 3);
}

#[test]
fn a_flattened_tree_carries_each_ones_ancestors() {
    let tree = Category {
        key: "r".into(),
        name: "Root".into(),
        slug: "r".into(),
        level: 0,
        children: vec![Category {
            key: "d".into(),
            name: "Dairy".into(),
            slug: "d".into(),
            level: 1,
            children: vec![Category { key: "m".into(), name: "Milk".into(), slug: "m".into(), level: 2, children: vec![] }],
        }],
    };
    let flat = tree.flatten();
    assert_eq!(flat[2].0, vec!["Root".to_string(), "Dairy".to_string()]);
    assert_eq!(flat[2].1.key, "m");
    assert!(flat[0].0.is_empty());
}

#[test]
fn endpoints_overrides_trim_a_trailing_slash() {
    let e = Endpoints::default().with_origin("http://127.0.0.1:9/".into());
    assert_eq!(e.graphql(), "http://127.0.0.1:9/api/graphql");
    assert_eq!(e.auth, "https://auth.woolworths.co.nz", "untouched");
}

#[test]
fn every_operation_has_a_document_that_defines_itself() {
    for op in OPERATIONS {
        let doc = document(op).unwrap_or_else(|| panic!("no document for {op}"));
        assert!(doc.contains(op), "{op} document does not define {op}");
    }
}

#[test]
fn every_fragment_used_is_also_defined() {
    for op in OPERATIONS {
        let doc = document(op).expect("checked above");
        for spread in doc.match_indices("...").map(|(i, _)| &doc[i + 3..]) {
            let name: String = spread.chars().take_while(|c| c.is_ascii_alphanumeric()).collect();
            if name.is_empty() {
                continue;
            }
            assert!(doc.contains(&format!("fragment {name}")), "{op} spreads {name} without defining it");
        }
    }
}

#[test]
fn an_unknown_operation_is_none_rather_than_a_panic() {
    assert!(document("NoSuchOperation").is_none());
}

#[test]
fn the_order_detail_document_does_not_ask_for_personal_details() {
    for field in ["contact", "payments", "cardSuffix", "firstName", "email"] {
        assert!(!ORDER_DETAILS.contains(field), "asks for {field}");
    }
}

#[test]
fn cookie_headers_are_rebuilt_in_full_and_in_index_order() {
    let s = Session::from_cookies(jar(&[("__session__1", "b"), ("__session__0", "a")]));
    assert_eq!(s.header().as_deref(), Some("__session__0=a; __session__1=b"));
    assert!(s.account, "session cookies mean an account");
}

#[test]
fn a_guest_token_alone_is_not_an_account() {
    let s = Session::guest("t");
    assert_eq!(s.header().as_deref(), Some("__guest__token=t"));
    assert!(!s.account);
    assert!(Session::default().header().is_none());
}

#[test]
fn a_session_prints_its_cookie_names_but_never_their_values() {
    let s = Session::from_cookies(jar(&[("__session__0", "secret-value")]));
    let text = s.redacted();
    assert!(text.contains("__session__0"));
    assert!(!text.contains("secret-value"), "{text}");
}

#[test]
fn a_stored_session_is_an_account_when_it_holds_session_cookies() {
    let stored = StoredSession { email: Some("shopper@example.test".into()), cookies: jar(&[("__session__0", "a")]), obtained_at: 1_756_512_000 };
    assert!(stored.session().account);
    assert_eq!(stored.session().cookies().len(), 1);
}

#[test]
fn a_guest_token_is_kept_until_its_margin() {
    assert_eq!(guest_expires_at("not-a-jwt", 100), 1000);
    assert!(guest_still_good(1000, 939));
    assert!(!guest_still_good(1000, 940));
}

#[test]
fn a_category_tree_maps_with_its_fallbacks() {
    let w = WireCategory {
        key: Some("k".into()),
        name: None,
        display_slug: None,
        slug: Some("s".into()),
        level: None,
        children: vec![WireCategory { key: None, name: None, display_slug: None, slug: None, level: Some(1), children: vec![] }],
    };
    let c = w.into_category().unwrap();
    assert_eq!(c.name, "");
    assert_eq!(c.slug, "s");
    assert_eq!(c.level, 0);
    assert!(c.children.is_empty());
}

#[test]
fn an_order_names_where_it_goes() {
    let order = |number: Option<&str>, location: Option<&str>| WireOrder {
        order_number: number.map(str::to_string),
        created_date_time: None,
        order_status: Some("Placed".into()),
        fulfilment_status: None,
        is_amendable: Some(true),
        total: None,
        fulfilments: vec![WireOrderFulfilment {
            method: Some("Pickup".into()),
            kind: None,
            start_time: Some("9am".into()),
            end_time: None,
            fulfilment_location: Some(WireFulfilmentLocation { name: location.map(str::to_string), store_id: None }),
            address: None,
        }],
    };
    let page = WireOrderPage { results: vec![order(Some("1"), Some("Store A")), order(None, None)], total_count: None, total_pages: None };
    let page = page.into_page();
    assert_eq!(page.orders.len(), 1);
    assert_eq!(page.total, 1);
    assert_eq!(page.total_pages, 1);
    assert_eq!(page.orders[0].destination.as_deref(), Some("Store A"));
    assert!(page.orders[0].amendable);
}

#[test]
fn a_fee_needs_a_name_and_an_amount() {
    let fee = WireFee { kind: None, tag: Some("bag".into()), amount_in_cents: Some(20) }.into_fee().unwrap();
    assert_eq!(fee.kind, "bag");
    assert_eq!(fee.cents, 20);
    assert!(WireFee { kind: Some("x".into()), tag: None, amount_in_cents: None }.into_fee().is_none());
}

fn page(landed: &str, rejected: bool, html: &str) -> Page {
    Page { landed: landed.to_string(), rejected, html: html.to_string() }
}

#[test]
fn a_login_starts_at_the_storefront_and_posts_the_state_as_served() {
    let e = Endpoints::default();
    let mut flow = LoginFlow::new(&e, "a@b.nz".into(), "pw".into());
    assert_eq!(flow.start(), "https://www.woolworths.co.nz/auth/login?returnTo=/");
    match flow.advance(&page("https://auth.woolworths.co.nz/u/login/identifier?state=a", false, r#"<input name="state" value="a b">"#)) {
        Ok(Action::Submit(s)) => {
            assert_eq!(s.step, "identifier");
            assert_eq!(s.url, "https://auth.woolworths.co.nz/u/login/identifier?state=a b");
            assert_eq!(s.form.len(), 6);
        }
        _ => panic!("expected the email form"),
    }
    assert_eq!(flow.stage, Stage::Identifier);
    match flow.advance(&page("https://auth.woolworths.co.nz/u/login/password?state=c", false, r#"<input name="state" value="c">"#)) {
        Ok(Action::Submit(s)) => {
            assert_eq!(s.url, "https://auth.woolworths.co.nz/u/login/password?state=c");
            assert_eq!(
                s.form,
                vec![
                    ("state".to_string(), "c".to_string()),
                    ("username".to_string(), "a@b.nz".to_string()),
                    ("password".to_string(), "pw".to_string()),
                ]
            );
        }
        _ => panic!("expected the password form"),
    }
    match flow.advance(&page("https://www.woolworths.co.nz/", false, "")) {
        Ok(Action::ReadJar) => {}
        _ => panic!("expected the flow to be through"),
    }
}

#[test]
fn a_refused_email_is_reported_with_the_banner() {
    let e = Endpoints::default();
    let mut flow = LoginFlow::new(&e, "a@b.nz".into(), "pw".into());
    flow.stage = Stage::Identifier;
    let html = r#"<div class="ulp-error-info">No such account</div><input name="state" value="d">"#;
    match flow.advance(&page("https://auth.woolworths.co.nz/u/login/identifier?state=d", true, html)) {
        Err(Error::LoginRefused { step, detail }) => {
            assert_eq!(step, "email address");
            assert_eq!(detail, ": No such account");
        }
        _ => panic!("expected a refusal"),
    }
}

#[test]
fn a_flow_that_ends_without_a_session_cookie_is_no_session() {
    let p = page("https://auth.woolworths.co.nz/u/login/password", false, r#"<div role="alert">Try again</div>"#);
    let mut jar = CookieMap::new();
    jar.insert("ASP.NET_SessionId".to_string(), "x".to_string());
    match finish(&p, jar) {
        Err(Error::NoSession { detail }) => assert_eq!(detail, ": Try again"),
        _ => panic!("expected no session"),
    }
    let mut jar = CookieMap::new();
    jar.insert("__session__abc".to_string(), "x".to_string());
    assert!(finish(&p, jar).unwrap().account);
    assert!(page_from("u", 503, "u", String::new()).is_err());
    assert!(page_from("u", 404, "u", String::new()).unwrap().rejected);
}

fn quantity(d: Double) -> f64 {
    f64::from_bits(d.bits)
}

fn wire_product(sku: &str) -> WireProduct {
    WireProduct {
        sku: Some(sku.to_string()),
        product_name: None,
        brand: None,
        slug: None,
        image_url: None,
        store_key: None,
        variants: Vec::new(),
        category_hierarchy_names: None,
    }
}

#[test]
fn an_ad_slot_and_an_unknown_row_are_told_apart() {
    let rows = vec![
        WireResult::ProductSummary(wire_product("1")),
        WireResult::SponsoredProduct(wire_product("2")),
        WireResult::Other,
    ];
    let kinds: Vec<&str> = rows
        .iter()
        .map(|r| match r {
            WireResult::ProductSummary(_) => "product",
            WireResult::SponsoredProduct(_) => "ad",
            WireResult::Other => "skip",
        })
        .collect();
    assert_eq!(kinds, ["product", "ad", "skip"]);
}

#[test]
fn a_product_with_no_variant_still_gets_a_usable_cart_key() {
    let product = wire_product("282768").into_product("https://example.test", false).unwrap();
    assert_eq!(product.variant_key, "282768-EA");
    assert_eq!(product.in_stock, None, "unknown, not out of stock");
    assert_eq!(product.url, "https://example.test/shop/product-details/282768/");
}

#[test]
fn an_order_line_takes_its_variant_key_from_sku_id() {
    let raw = WireOrderLineItem {
        product_id: Some("133211".into()),
        product_key: Some("133211".into()),
        sku_id: Some("133211-EA".into()),
        quantity: Some(Double { bits: 6.0f64.to_bits() }),
        allow_substitutions: Some(false),
        total_price_as_cents: Some(563),
        total_saving_as_cents: Some(1),
        unit_price_after_discount_as_cents: Some(94),
        product: Some(WireOrderProduct { name: Some("Woolworths Fresh Bananas".into()) }),
    };
    let line = raw.into_line().unwrap();
    assert_eq!(line.variant_key, "133211-EA");
    assert_eq!(line.sku, "133211");
    assert_eq!(quantity(line.quantity), 6.0);
    assert_eq!(line.saving_cents, Some(1));
}

fn bare_detail(number: &str) -> WireOrderDetail {
    WireOrderDetail {
        order_number: Some(number.into()),
        order_status: None,
        created_date_time: None,
        is_amendable: None,
        order_total_in_cents: None,
        estimated_total_in_cents: None,
        order_discount_in_cents: None,
        order_savings_in_cents: None,
        product_subtotal: None,
        fees: Vec::new(),
        fulfilments: Vec::new(),
        line_items: Vec::new(),
    }
}

#[test]
fn an_order_detail_maps_its_fees_and_fulfilment() {
    let mut raw = bare_detail("WN100061750");
    raw.order_status = Some("IN_PROGRESS".into());
    raw.created_date_time = Some("2026-09-02T22:44:49.280Z".into());
    raw.is_amendable = Some(false);
    raw.order_total_in_cents = Some(0);
    raw.estimated_total_in_cents = Some(43225);
    raw.fees = vec![
        WireFee {
            kind: Some("standardDeliveryFee".into()),
            tag: Some("Fee-Groceries-standardDeliveryFee".into()),
            amount_in_cents: Some(900),
        },
        WireFee { kind: Some("bagFee".into()), tag: Some("Fee-Groceries-bagFee".into()), amount_in_cents: Some(150) },
    ];
    raw.fulfilments = vec![WireOrderFulfilment {
        method: Some("delivery".into()),
        kind: Some("delivery-truck".into()),
        start_time: Some("2026-09-03T17:30:00.000+12:00".into()),
        end_time: Some("2026-09-03T20:00:00.000+12:00".into()),
        fulfilment_location: Some(WireFulfilmentLocation {
            name: Some("Regent Woolworths".into()),
            store_id: Some("9048".into()),
        }),
        address: None,
    }];
    let detail: OrderDetail = raw.into_detail().unwrap();
    assert_eq!(detail.number, "WN100061750");
    assert_eq!(detail.total(), Some(43225), "estimate stands in for a zero total");
    assert_eq!(detail.fees.len(), 2);
    assert_eq!(detail.fees[0].kind, "standardDeliveryFee");
    assert_eq!(detail.location_store_id.as_deref(), Some("9048"));
    assert_eq!(detail.kind.as_deref(), Some("delivery-truck"));
}

#[test]
fn an_order_detail_with_nothing_but_a_number_still_maps() {
    let detail = bare_detail("WN1").into_detail().unwrap();
    assert!(detail.lines.is_empty());
    assert!(detail.fees.is_empty());
    assert_eq!(detail.total(), None);
}

#[test]
fn a_cart_line_falls_back_to_the_variants_key_and_derives_its_sku() {
    let raw = WireLineItem {
        sku: None,
        product_variant_sku: None,
        quantity: Some(Double { bits: 1.5f64.to_bits() }),
        can_substitute: None,
        line_total: None,
        unit_price: None,
        product: Some(WireCartProduct {
            brand: Some("Fresh".into()),
            variants: vec![WireCartVariant { name: Some("Bananas".into()), key: Some("133211-KGM".into()) }],
        }),
    };
    let line = raw.into_line().unwrap();
    assert_eq!(line.variant_key, "133211-KGM");
    assert_eq!(line.sku, "133211");
    assert_eq!(quantity(line.quantity), 1.5);
}

#[test]
fn an_in_progress_order_reports_its_estimate_rather_than_a_zero_total() {
    let mut order = OrderDetail {
        number: "WN1".into(),
        status: Some("IN_PROGRESS".into()),
        placed_at: None,
        amendable: false,
        total_cents: Some(0),
        estimated_total_cents: Some(43225),
        discount_cents: None,
        savings_cents: None,
        items_cents: None,
        fees: Vec::new(),
        method: None,
        kind: None,
        slot_start: None,
        slot_end: None,
        location_name: None,
        location_store_id: None,
        address: None,
        lines: Vec::new(),
    };
    assert_eq!(order.total(), Some(43225));
    order.total_cents = Some(41000);
    assert_eq!(order.total(), Some(41000), "a settled total wins");
}

#[test]
fn the_home_pages_guest_token_is_what_the_api_is_called_with() {
    let set = shopping_kit::netkit::cookies::set_cookies(&vec![
        "ASP.NET_SessionId=x; path=/".to_string(),
        "__guest__token=abc.def; Path=/; Secure".to_string(),
    ]);
    assert_eq!(guest_from(&set, "https://www.woolworths.co.nz/").unwrap(), "abc.def");
    let none = shopping_kit::netkit::cookies::set_cookies(&vec!["__guest__token=; Path=/".to_string()]);
    let err = guest_from(&none, "https://www.woolworths.co.nz/").err().unwrap();
    assert_eq!(
        err.message(),
        "https://www.woolworths.co.nz/ set no __guest__token cookie, so there is nothing to call the API with. The storefront may be serving a bot check."
    );
}

#[test]
fn a_cart_with_no_count_of_its_own_counts_its_lines() {
    let line = shopping_kit::wwnz::wire::WireLineItem {
        sku: Some("133211".into()),
        product_variant_sku: None,
        quantity: Some(Double { bits: 2.0f64.to_bits() }),
        can_substitute: None,
        line_total: None,
        unit_price: None,
        product: Some(WireCartProduct {
            brand: None,
            variants: vec![WireCartVariant { name: Some("Milk".into()), key: Some("133211-EA".into()) }],
        }),
    };
    let cart = shopping_kit::wwnz::wire::WireCart {
        key: Some("bag-1".into()),
        total_item_quantity: None,
        total_unique_product_sku: None,
        line_items: vec![line],
        checkout: None,
        pricing: None,
        validation_result: None,
        shopping_mode: None,
        fulfilment: None,
    }
    .into_cart();
    assert_eq!(cart.id.as_deref(), Some("bag-1"));
    assert_eq!(cart.lines.len(), 1);
    assert_eq!(cart.unique_products, 1);
    assert_eq!(cart.subtotal_cents, None);
    assert_eq!(cart.store_name, None);
}

#[test]
fn a_session_logs_its_cookie_names_in_order() {
    let s = Session::from_cookies(jar(&[("__session__1", "b"), ("__session__0", "a")]));
    assert_eq!(s.redacted(), r#"Session { cookies: ["__session__0", "__session__1"], account: true }"#);
    assert_eq!(Session::guest("t").redacted(), r#"Session { cookies: ["__guest__token"], account: false }"#);
}

#[test]
fn a_stored_session_logs_its_names_and_never_its_values() {
    let stored = StoredSession { email: Some("shopper@example.test".into()), cookies: jar(&[("__session__0", "secret")]), obtained_at: 7 };
    assert_eq!(
        stored.redacted(),
        r#"StoredSession { email: Some("shopper@example.test"), cookies: ["__session__0"], obtained_at: 7 }"#
    );
}

#[test]
fn a_bounce_is_the_same_path_coming_back_with_a_client_error() {
    let page = Page {
        landed: "https://auth.example.test/u/login/password?state=x".into(),
        rejected: true,
        html: String::new(),
    };
    assert!(page.bounced("https://auth.example.test/u/login/password"));
    assert!(!page.bounced("https://auth.example.test/u/login/identifier"));

    let moved = Page { landed: "https://www.example.test/".into(), rejected: false, html: String::new() };
    assert!(!moved.bounced("https://auth.example.test/u/login/password"));
}

#[test]
fn error_a_lapsed_session_is_told_apart_from_never_having_signed_in() {
    // Both need an account, but only one is worth retrying automatically.
    assert!(Error::SessionExpired.is_lapsed());
    assert!(Error::NotSignedIn.is_lapsed());
    assert!(!Error::Shape("x".into()).is_lapsed());
}

#[test]
fn wwnz_error_auth_kinds_are_distinct() {
    assert_eq!(Error::SessionExpired.auth(), Some(AuthFault::Expired));
    assert_eq!(Error::NotSignedIn.auth(), Some(AuthFault::Missing));
    assert_eq!(Error::LoginRefused { step: "password", detail: String::new() }.auth(), Some(AuthFault::Rejected));
    assert_eq!(Error::Shape("x".into()).auth(), None);
}
