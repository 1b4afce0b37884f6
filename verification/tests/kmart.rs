use base64::Engine;
use shopping_kit::kmart::auth::{
    absolute, attribute, authorize_url, authorize_url_with, code_from, error_message, form_state,
    exchange_body, follows, from_netscape, host_of, origin_of, page_from, reason, refresh_body,
    session_from_netscape, strip_entities, token_answer, Action, LoginFlow, Page, Pkce, Stage,
};
use shopping_kit::kmart::catalog::{categories, sort_for, tree_url, Query};
use shopping_kit::kmart::country::Country;
use shopping_kit::kmart::domain::{
    Availability as Stock, Cart, CartLine, Category, Listing, Price, Product, StoreStock,
};
use shopping_kit::kmart::catalog::{listing_from, product};
use shopping_kit::kmart::wire::{ItemData, PriceEntry, ResultSource, SearchResponse, SearchResult, SortOption};
use shopping_kit::kmart::endpoints::{encode, query_string, Endpoints};
use shopping_kit::kmart::error::{is_challenge_body, Error};
use shopping_kit::kmart::gql;
use shopping_kit::kmart::session::{is_admission_cookie, Session, StoredSession, Tokens};
use shopping_kit::kmart::vendor::{
    auth_client_id, auth_redirect, search_key, Vendor, AUTH_AUDIENCE, AUTH_DOMAIN, AUTH_SCOPE,
};
use shopping_kit::kmart::wire::{Attribute, AttributeValue, GqlError, Group, GroupData};
use shopping_kit::netkit::cookies::CookieMap;
use shopping_kit::netkit::error::{AuthFault, Fault};
use shopping_kit::netkit::jwt::now_secs;

fn jwt(exp: u64, sub: &str) -> String {
    let payload = base64::engine::general_purpose::URL_SAFE_NO_PAD
        .encode(format!(r#"{{"exp":{exp},"sub":"{sub}"}}"#));
    format!("header.{payload}.signature")
}

fn cookies(pairs: &[(&str, &str)]) -> CookieMap {
    let mut m = CookieMap::new();
    for (k, v) in pairs {
        m.insert(k.to_string(), v.to_string());
    }
    m
}

fn endpoints() -> Endpoints {
    Endpoints::of(Country::Nz)
}

#[test]
fn the_state_is_read_off_the_hidden_field() {
    let html = r#"<form><input type="hidden" name="state" value="hKFo2SB-abc"/>
                  <input name="username" type="email"/></form>"#;
    assert_eq!(form_state(html).as_deref(), Some("hKFo2SB-abc"));
}

#[test]
fn the_value_is_found_even_when_it_precedes_the_name() {
    let html = r#"<input value="abc123" type="hidden" name="state">"#;
    assert_eq!(form_state(html).as_deref(), Some("abc123"));
}

#[test]
fn an_empty_state_is_skipped_for_a_later_one() {
    let html = r#"<input name="state" value=""><input name="state" value="real">"#;
    assert_eq!(form_state(html).as_deref(), Some("real"));
}

#[test]
fn a_relative_location_is_resolved_against_the_step_that_sent_it() {
    assert_eq!(
        absolute("/u/login/password?state=x", "https://auth.kmart.com.au/u/login/identifier"),
        "https://auth.kmart.com.au/u/login/password?state=x"
    );
    let done = "https://www.kmart.co.nz/account/login?code=abc";
    assert_eq!(absolute(done, "https://auth.kmart.com.au/authorize/resume"), done);
}

#[test]
fn an_auth0_banner_becomes_the_reason_a_login_was_refused() {
    let html = r#"<span id="error-element-password" class="ulp-input-error-message">
        Wrong email or password</span>"#;
    assert_eq!(reason(html), ": Wrong email or password");
    assert_eq!(reason("<p>fine</p>"), "");
}

#[test]
fn an_export_yields_only_the_cookies_that_matter_and_only_for_that_country() {
    let text = "\
# Netscape HTTP Cookie File
.kmart.co.nz\tTRUE\t/\tTRUE\t9999999999\t_abck\tnz-admission
.kmart.co.nz\tTRUE\t/\tTRUE\t9999999999\tbm_sz\tnz-bm
.kmart.co.nz\tTRUE\t/\tTRUE\t9999999999\tutag_main_v_id\ttracking
.kmart.com.au\tTRUE\t/\tTRUE\t9999999999\t_abck\tau-admission
.example.test\tTRUE\t/\tTRUE\t9999999999\t_abck\tsomeone-else
";
    let nz = from_netscape(text, Country::Nz);
    assert_eq!(nz.get("_abck").map(String::as_str), Some("nz-admission"));
    assert!(nz.contains_key("bm_sz"));
    assert!(!nz.contains_key("utag_main_v_id"), "analytics is not a credential");
    assert_eq!(nz.len(), 2);

    let au = from_netscape(text, Country::Au);
    assert_eq!(au.get("_abck").map(String::as_str), Some("au-admission"));

    let session = session_from_netscape(text);
    assert!(session.admitted(Country::Nz));
    assert!(session.admitted(Country::Au));
    assert!(!session.signed_in(), "cookies are not a sign-in");
}

#[test]
fn an_export_with_nothing_relevant_yields_nothing() {
    let session = session_from_netscape("# empty\n");
    assert!(!session.admitted(Country::Nz));
    assert!(!session.admitted(Country::Au));
}

#[test]
fn the_pkce_challenge_matches_the_rfc_7636_worked_example() {
    let pkce = Pkce::from_verifier("dBjftJeZ4CVP-mB92K27uhbUJU1p1r_wW1gFWFOEjXk".into());
    assert_eq!(pkce.challenge, "E9Melhoa2OwvFrEMTJguCHaoeK1t8URWbuGJSstw-cM");
}

#[test]
fn a_generated_verifier_is_random_and_the_right_length() {
    let a = Pkce::generate();
    let b = Pkce::generate();
    assert_ne!(a.verifier, b.verifier, "a fixed verifier defeats the point");
    assert_eq!(a.verifier.len(), 43);
    assert!(!a.verifier.contains('='), "no padding");
    assert!(!a.verifier.contains('+') && !a.verifier.contains('/'), "url-safe");
}

#[test]
fn the_authorize_url_carries_everything_auth0_binds_the_code_to() {
    let pkce = Pkce::from_verifier("v".into());
    let url = authorize_url(&Endpoints::of(Country::Nz), &pkce);
    assert!(url.starts_with("https://auth.kmart.com.au/authorize?"));
    for needle in [
        &format!("client_id={}", Endpoints::of(Country::Nz).auth_client_id) as &str,
        "code_challenge_method=S256",
        "response_type=code",
        "prompt=login",
        "offline_access",
    ] {
        assert!(url.contains(needle), "missing {needle} in {url}");
    }
    assert!(url.contains(&format!("code_challenge={}", pkce.challenge)));
}

#[test]
fn the_australian_flow_shares_the_tenant_but_not_the_application() {
    let pkce = Pkce::from_verifier("v".into());
    let au = authorize_url(&Endpoints::of(Country::Au), &pkce);
    let nz = authorize_url(&Endpoints::of(Country::Nz), &pkce);
    for url in [&au, &nz] {
        assert!(url.starts_with("https://auth.kmart.com.au/authorize?"));
        assert!(url.contains("audience=https%3A%2F%2Fapi.kmart.com.au"));
    }
    assert!(au.contains(&format!("client_id={}", Endpoints::of(Country::Au).auth_client_id)));
    assert_ne!(Endpoints::of(Country::Au).auth_client_id, Endpoints::of(Country::Nz).auth_client_id);
    assert!(au.contains("redirect_uri=https%3A%2F%2Fwww.kmart.com.au"));
    assert!(nz.contains("redirect_uri=https%3A%2F%2Fwww.kmart.co.nz"));
}

#[test]
fn each_login_gets_a_fresh_state_and_nonce() {
    let pkce = Pkce::from_verifier("v".into());
    let e = Endpoints::of(Country::Nz);
    assert_ne!(authorize_url(&e, &pkce), authorize_url(&e, &pkce));
}

#[test]
fn a_given_state_and_nonce_land_at_the_end_of_the_query() {
    let pkce = Pkce::from_verifier("v".into());
    let url = authorize_url_with(&endpoints(), &pkce, "s t", "n");
    assert!(url.ends_with("&state=s%20t&nonce=n"), "{url}");
}

#[test]
fn the_code_is_read_off_the_url_the_flow_stopped_at() {
    let landed = "https://www.kmart.co.nz/account/login?code=IvHJ-abc&state=xyz";
    assert_eq!(code_from(landed).as_deref(), Some("IvHJ-abc"));
    assert_eq!(code_from("https://www.kmart.co.nz/account/login?error=login_required"), None);
    assert_eq!(code_from("not a url"), None);
    assert_eq!(code_from("https://x.test/?code="), None, "an empty code is none");
}

#[test]
fn a_bounce_is_the_same_path_with_a_4xx() {
    let page = Page {
        landed: "https://auth.kmart.com.au/u/login/password?state=x".into(),
        rejected: true,
        html: String::new(),
    };
    assert!(page.bounced("https://auth.kmart.com.au/u/login/password"));
    assert!(!page.bounced("https://auth.kmart.com.au/u/login/identifier"));
    assert!(!page.challenged());
}

#[test]
fn hosts_and_origins_are_read_off_urls_and_left_alone_otherwise() {
    assert_eq!(origin_of("https://auth.kmart.com.au/u/login?x=1"), "https://auth.kmart.com.au");
    assert_eq!(origin_of("not a url"), "not a url");
    assert_eq!(host_of("https://api.kmart.co.nz/gateway/graphql"), "api.kmart.co.nz");
    assert_eq!(host_of("nowhere"), "nowhere");
}

#[test]
fn entities_and_attributes_are_decoded() {
    assert_eq!(strip_entities("a&amp;b &lt;c&gt; &quot;d&quot; &#39;e&#39;"), "a&b <c> \"d\" 'e'");
    assert_eq!(attribute(r#"<input name="state" value="a&amp;b">"#, "value").as_deref(), Some("a&b"));
    assert_eq!(attribute("<input>", "value"), None);
    assert_eq!(form_state("<html><body>Just a moment...</body></html>"), None);
    assert_eq!(error_message(r#"<div role="alert">  Blocked  </div>"#).as_deref(), Some("Blocked"));
}

#[test]
fn a_search_url_carries_the_countrys_key_and_the_default_sort() {
    let url = Query::term("milk frother".into()).url(&endpoints(), "visitor-1");
    assert!(url.starts_with("https://ac.cnstrc.com/search/milk%20frother?"));
    assert!(url.contains(&format!("key={}", Country::Nz.search_key())), "{url}");
    assert!(url.contains("i=visitor-1"));
    assert!(url.contains("sort_by=relevance&sort_order=descending"), "{url}");
}

#[test]
fn the_australian_key_is_the_one_used_for_australia() {
    let url = Query::term("mop".into()).url(&Endpoints::of(Country::Au), "v");
    assert!(url.contains(&format!("key={}", Country::Au.search_key())), "{url}");
    assert_ne!(Country::Au.search_key(), Country::Nz.search_key());
}

#[test]
fn a_keycode_is_just_a_term() {
    let url = Query::term("43165537".into()).per_page(1).url(&endpoints(), "v");
    assert!(url.contains("/search/43165537?"), "{url}");
    assert!(url.contains("num_results_per_page=1"));
}

#[test]
fn repeated_filters_survive_into_the_query_string() {
    let url = Query::group("abc".into())
        .filter("Colour".into(), "Black".into())
        .filter("Colour".into(), "White".into())
        .url(&endpoints(), "v");
    assert_eq!(url.matches("filters%5BColour%5D=").count(), 2, "a map would have dropped one: {url}");
}

#[test]
fn the_island_filter_is_new_zealand_only() {
    let nz = Query::term("x".into()).island(Country::Nz, Some("SI")).url(&endpoints(), "v");
    assert!(nz.contains("filters%5BAvailable%20in%20SI%5D=True"), "{nz}");
    let au = Query::term("x".into()).island(Country::Au, Some("SI"));
    assert!(au.filters.is_empty());
    assert!(Query::term("x".into()).island(Country::Nz, None).filters.is_empty());
}

#[test]
fn an_unknown_sort_is_passed_through_rather_than_refused() {
    assert_eq!(sort_for("price-low-to-high"), ("price".into(), "ascending".into()));
    assert_eq!(sort_for("Popular"), ("relevance".into(), "descending".into()));
    assert_eq!(sort_for("price"), ("price".into(), "ascending".into()));
    assert_eq!(sort_for("whatever"), ("whatever".into(), "descending".into()));
}

#[test]
fn paging_is_one_based_and_the_page_size_is_bounded() {
    assert_eq!(Query::term("x".into()).page(0).page, 1);
    assert_eq!(Query::term("x".into()).per_page(0).per_page, 1);
    assert_eq!(Query::term("x".into()).per_page(9999).per_page, 200);
}

#[test]
fn a_chosen_sort_replaces_the_default_in_the_url() {
    let url = Query::term("x".into()).sort(" new ").page(3).url(&endpoints(), "v");
    assert!(url.contains("page=3&"), "{url}");
    assert!(url.ends_with("sort_by=numberOfDaysSinceStartDate&sort_order=ascending"), "{url}");
}

#[test]
fn the_tree_url_asks_for_the_root_and_a_bounded_depth() {
    let url = tree_url(&endpoints(), "v", 99);
    assert!(url.contains("/browse/group_id/all?"), "{url}");
    assert!(url.contains("fmt_options%5Bgroups_max_depth%5D=6"), "{url}");
    assert!(tree_url(&endpoints(), "v", 0).ends_with("groups_max_depth%5D=1"));
}

fn group(id: Option<&str>, children: Vec<Group>) -> Group {
    Group {
        group_id: id.map(str::to_string),
        display_name: id.map(|i| i.to_uppercase()),
        count: Some(1),
        children,
        data: GroupData { url: id.map(|i| format!("/category/{i}")) },
    }
}

#[test]
fn the_tree_drops_the_synthetic_root_and_keeps_the_nesting() {
    let roots = vec![
        group(Some("all"), vec![group(Some("home"), vec![group(Some("kitchen"), vec![])]), group(None, vec![])]),
        group(Some("toys"), vec![]),
    ];
    let cats = categories(&roots);
    let ids: Vec<&str> = cats.iter().map(|c| c.id.as_str()).collect();
    assert_eq!(ids, ["home", "toys"], "`all` is a container, not a category");
    assert_eq!(cats[0].children[0].id, "kitchen");
    assert_eq!(cats[0].name, "HOME");
    assert_eq!(cats[0].path.as_deref(), Some("/category/home"));
    assert!(cats[0].walk().len() > cats[0].children.len());
}

#[test]
fn the_two_countries_never_share_a_catalogue_key() {
    assert_ne!(Country::Au.search_key(), Country::Nz.search_key());
    assert_ne!(Country::Au.api(), Country::Nz.api());
    assert_ne!(Country::Au.origin(), Country::Nz.origin());
}

#[test]
fn a_country_parses_from_what_someone_would_type() {
    assert_eq!(Country::parse("nz"), Some(Country::Nz));
    assert_eq!(Country::parse("AU"), Some(Country::Au));
    assert_eq!(Country::parse(" Australia "), Some(Country::Au));
    assert_eq!(Country::parse("New Zealand"), Some(Country::Nz));
    assert_eq!(Country::parse("uk"), None);
}

#[test]
fn display_round_trips_through_parse() {
    for c in Country::all() {
        assert_eq!(Country::parse(&c.to_string()), Some(c));
        assert_eq!(Country::parse(c.code()), Some(c));
    }
}

#[test]
fn each_country_names_itself_and_its_money() {
    assert_eq!(Country::Nz.name(), "New Zealand");
    assert_eq!(Country::Au.currency(), "AUD");
    assert_eq!(Country::Nz.cookie_domain(), "kmart.co.nz");
    assert_eq!(Country::Nz.subdivision(), "island");
    assert_eq!(Country::Au.to_string(), "au");
}

#[test]
fn walking_a_tree_visits_every_node_once() {
    let leaf = |id: &str| Category { id: id.into(), name: id.into(), path: None, count: None, children: Vec::new() };
    let tree = Category {
        children: vec![Category { children: vec![leaf("c")], ..leaf("b") }, leaf("d")],
        ..leaf("a")
    };
    let ids: Vec<&str> = tree.walk().iter().map(|c| c.id.as_str()).collect();
    assert_eq!(ids, ["a", "b", "c", "d"]);
}

#[test]
fn overrides_trim_a_trailing_slash_and_leave_the_others_alone() {
    let e = Endpoints::of(Country::Nz).with_api("http://127.0.0.1:9/".into());
    assert_eq!(e.graphql(), "http://127.0.0.1:9/gateway/graphql");
    assert_eq!(e.search, "https://ac.cnstrc.com", "untouched");
}

#[test]
fn all_points_every_host_at_one_place() {
    let e = Endpoints::all("http://127.0.0.1:9".into());
    assert_eq!(e.graphql(), "http://127.0.0.1:9/gateway/graphql");
    assert_eq!(e.token(), "http://127.0.0.1:9/oauth/token");
    assert_eq!(e.search_term("mop"), "http://127.0.0.1:9/search/mop");
}

#[test]
fn the_two_countries_get_different_hosts_and_the_same_auth() {
    let nz = Endpoints::of(Country::Nz);
    let au = Endpoints::of(Country::Au);
    assert_eq!(nz.graphql(), "https://api.kmart.co.nz/gateway/graphql");
    assert_eq!(au.graphql(), "https://api.kmart.com.au/gateway/graphql");
    assert_eq!(nz.auth, au.auth);
    assert_eq!(nz.search, au.search, "one index host");
    assert_ne!(nz.search_key, au.search_key, "two indexes");
}

#[test]
fn a_search_term_is_encoded_into_the_path() {
    let e = Endpoints::of(Country::Nz);
    assert_eq!(e.search_term("milk frother"), "https://ac.cnstrc.com/search/milk%20frother");
    assert_eq!(e.search_term("43165537"), "https://ac.cnstrc.com/search/43165537");
}

#[test]
fn a_query_string_keeps_repeated_keys_in_the_order_given() {
    let params = [
        ("filters[Colour]".to_string(), "Black".to_string()),
        ("filters[Colour]".to_string(), "White".to_string()),
    ]
    .to_vec();
    assert_eq!(query_string(&params), "filters%5BColour%5D=Black&filters%5BColour%5D=White");
}

#[test]
fn encoding_works_on_the_utf8_bytes() {
    assert_eq!(encode("é/~-_."), "%C3%A9%2F~-_.");
    assert_eq!(encode(""), "");
    assert_eq!(query_string(&[]), "");
}

#[test]
fn with_vendor_and_the_other_overrides_touch_only_their_fields() {
    let v = Vendor::read(PAGE, Country::Nz).unwrap();
    let e = Endpoints::of(Country::Nz)
        .with_vendor(&v)
        .with_origin("https://o.test//".into())
        .with_auth("https://a.test/".into())
        .with_search("https://s.test".into())
        .with_search_key("k".into());
    assert_eq!(e.auth_client_id, "AaBbCcDdEeFf0011");
    assert_eq!(e.origin, "https://o.test");
    assert_eq!(e.authorize(), "https://a.test/authorize");
    assert_eq!(e.browse_group("a b"), "https://s.test/browse/group_id/a%20b");
    assert_eq!(e.search_key, "k");
    assert_eq!(e.api, "https://api.kmart.co.nz");
}

#[test]
fn all_three_challenge_bodies_are_recognised() {
    assert!(is_challenge_body(r#"{"cpr_chlge":"true","t":"230881678"}"#));
    assert!(is_challenge_body(r#"<div id="sec-if-cpt-container" role="main">"#));
    assert!(is_challenge_body(
        "<HTML><HEAD>\n<TITLE>Access Denied</TITLE>\n</HEAD><BODY>\n<H1>Access Denied</H1>\n \
         You don't have permission to access \
         &#34;http&#58;&#47;&#47;auth&#46;kmart&#46;com&#46;au&#47;u&#47;login&#47;password&#63;&#34; \
         on this server.<P>\nReference&#32;&#35;18&#46;d83d517&#46;1788554069&#46;499e0ba\n<P>\
         https&#58;&#47;&#47;errors&#46;edgesuite&#46;net&#47;18&#46;d83d517&#46;1788554069&#46;499e0ba</P>"
    ));
    assert!(!is_challenge_body(r#"{"data":{"postcodeQuery":[]}}"#));
    assert!(!is_challenge_body(r#"<span id="error-element-password">Access Denied for this user</span>"#));
}

#[test]
fn a_lapsed_session_is_told_apart_from_never_having_signed_in() {
    assert!(Error::SessionExpired.is_lapsed());
    assert!(Error::NotSignedIn.is_lapsed());
    assert!(!Error::Shape("x".into()).is_lapsed());
}

#[test]
fn a_challenge_is_not_a_lapsed_session() {
    let challenged = Error::Challenged { host: "api.kmart.co.nz".into() };
    assert!(challenged.is_challenge());
    assert!(!challenged.is_lapsed());
    assert_eq!(challenged.auth(), None);
    assert_eq!(challenged.message(), "api.kmart.co.nz answered with a bot challenge rather than the request");
}

#[test]
fn auth_kinds_are_distinct() {
    assert_eq!(Error::SessionExpired.auth(), Some(AuthFault::Expired));
    assert_eq!(Error::NotSignedIn.auth(), Some(AuthFault::Missing));
    assert_eq!(Error::LoginRefused { step: "password", detail: String::new() }.auth(), Some(AuthFault::Rejected));
    assert_eq!(Error::Shape("x".into()).auth(), None);
    assert_eq!(Error::NoSuchCategory("a b".into()).message(), "no category matching \"a b\"");
}

const ALL: [(&str, &str); 11] = [
    ("PRODUCT_AVAILABILITY", gql::PRODUCT_AVAILABILITY),
    ("LOCATION_DETAIL", gql::LOCATION_DETAIL),
    ("POSTCODE_SUGGESTIONS", gql::POSTCODE_SUGGESTIONS),
    ("ACTIVE_CART", gql::ACTIVE_CART),
    ("CREATE_CART", gql::CREATE_CART),
    ("UPDATE_CART", gql::UPDATE_CART),
    ("WISHLIST", gql::WISHLIST),
    ("WISHLIST_WITH_STOCK", gql::WISHLIST_WITH_STOCK),
    ("WISHLIST_ADD", gql::WISHLIST_ADD),
    ("ORDERS", gql::ORDERS),
    ("CUSTOMER", gql::CUSTOMER),
];

#[test]
fn every_document_has_balanced_braces() {
    for (name, doc) in ALL {
        let opens = doc.matches('{').count();
        let closes = doc.matches('}').count();
        assert_eq!(opens, closes, "{name} has {opens} open and {closes} close");
    }
}

#[test]
fn every_document_names_its_operation() {
    for (name, doc) in ALL {
        let first = doc.trim_start().lines().next().unwrap();
        assert!(first.starts_with("query ") || first.starts_with("mutation "), "{name} starts with {first:?}");
        let named = first.split_once(' ').map(|(_, rest)| rest.trim_start()).unwrap_or("");
        assert!(named.starts_with(|c: char| c.is_ascii_alphabetic()), "{name} is anonymous: {first}");
    }
}

#[test]
fn no_document_asks_for_typename() {
    for (name, doc) in ALL {
        assert!(!doc.contains("__typename"), "{name}");
    }
}

#[test]
fn being_signed_in_and_being_let_in_are_separate_questions() {
    let token_only = Session::new().with_tokens(Tokens::new(jwt(now_secs() + 900, "auth0|abc"), None, None));
    assert!(token_only.signed_in());
    assert!(!token_only.admitted(Country::Nz));
    let cookies_only = Session::new().with_cookies(Country::Nz, cookies(&[("_abck", "valid")]));
    assert!(!cookies_only.signed_in());
    assert!(cookies_only.admitted(Country::Nz));
}

#[test]
fn admission_does_not_carry_across_the_tasman() {
    let s = Session::new().with_cookies(Country::Nz, cookies(&[("_abck", "v")]));
    assert!(s.admitted(Country::Nz));
    assert!(!s.admitted(Country::Au));
    assert!(s.cookie_header(Country::Au).is_none());
}

#[test]
fn admission_needs_the_cookie_that_actually_carries_the_verdict() {
    let s = Session::new().with_cookies(Country::Nz, cookies(&[("bm_sz", "v")]));
    assert!(!s.admitted(Country::Nz));
}

#[test]
fn only_the_bot_manager_cookies_are_kept_from_an_export() {
    for name in ["_abck", "ak_bmsc", "bm_sz", "bm_s", "bm_so"] {
        assert!(is_admission_cookie(name), "{name}");
    }
    for name in ["utag_main_v_id", "optimizelyEndUserId", "ko_token", "_fbp"] {
        assert!(!is_admission_cookie(name), "{name}");
    }
}

#[test]
fn a_token_takes_its_expiry_from_its_own_claim_not_the_clock() {
    let exp = now_secs() + 4242;
    let t = Tokens::new(jwt(exp, "auth0|abc"), None, Some(900));
    assert_eq!(t.expires_at, exp, "the claim wins over expires_in");
    assert_eq!(t.subject().as_deref(), Some("auth0|abc"));
    assert!(!t.lapsed());
}

#[test]
fn an_opaque_token_falls_back_to_expires_in() {
    let t = Tokens::new("not-a-jwt".into(), None, Some(900));
    assert!(t.expires_at > now_secs() + 800);
    assert_eq!(t.subject(), None);
    assert_eq!(Tokens::new_at("not-a-jwt".into(), None, None, 100).expires_at, 1000);
}

#[test]
fn a_bare_refresh_token_is_a_session_that_has_not_renewed_yet() {
    let session = Session::new().with_tokens(Tokens::from_refresh("r".into()));
    assert!(session.signed_in(), "there is something to renew from");
    assert!(session.bearer().is_none(), "but nothing to send yet");
    assert!(session.tokens().unwrap().lapsed(), "so the first call renews");
}

#[test]
fn a_token_inside_the_margin_is_already_lapsed() {
    let t = Tokens::new(jwt(now_secs() + 60, "s"), None, None);
    assert!(t.lapsed());
    assert!(t.lapsed_at(t.expires_at - 180));
    assert!(!t.lapsed_at(t.expires_at - 181));
}

#[test]
fn credentials_are_never_printed() {
    let s = Session::new()
        .with_tokens(Tokens::new(jwt(now_secs() + 900, "auth0|abc"), Some("refresh-secret".into()), None))
        .with_cookies(Country::Nz, cookies(&[("_abck", "cookie-secret")]));
    let text = s.redacted();
    assert!(text.contains("_abck"), "names are fine: {text}");
    assert!(!text.contains("cookie-secret"), "{text}");
    assert!(!text.contains("refresh-secret"), "{text}");
}

#[test]
fn a_stored_session_restores_the_session_it_was_made_from() {
    let session = Session::new()
        .with_tokens(Tokens::new(jwt(now_secs() + 900, "auth0|abc"), Some("r".into()), None))
        .with_cookies(Country::Au, cookies(&[("_abck", "v")]));
    let stored = StoredSession::of(&session, Some("shopper@example.test".into()));
    let back = stored.session();
    assert!(back.signed_in());
    assert!(back.admitted(Country::Au));
    assert!(!back.admitted(Country::Nz));
    assert_eq!(back.cookie_header(Country::Au).as_deref(), Some("_abck=v"));
}

#[test]
fn the_storefront_that_signed_in_is_recorded_and_read_back() {
    let stored = StoredSession::of_at(&Session::new(), None, 7).with_auth_country(Some(Country::Au));
    assert_eq!(stored.auth_country.as_deref(), Some("AU"));
    assert_eq!(stored.auth_country(), Some(Country::Au));
    assert_eq!(stored.obtained_at, 7);
    assert_eq!(StoredSession::of_at(&Session::new(), None, 7).auth_country(), None);
}

#[test]
fn absorbing_a_response_keeps_the_bot_cookies_and_drops_the_rest() {
    let mut s = Session::new();
    s.absorb(Country::Nz, &vec!["_abck=fresh; Path=/; Max-Age=3600".to_string(), "utag_main_v_id=tracking; Path=/".to_string()]);
    assert!(s.admitted(Country::Nz));
    let header = s.cookie_header(Country::Nz).unwrap();
    assert!(header.contains("_abck=fresh"));
    assert!(!header.contains("utag_main"), "{header}");
}

#[test]
fn an_empty_value_in_a_response_deletes_the_cookie() {
    let mut s = Session::new().with_cookies(Country::Au, cookies(&[("_abck", "old"), ("bm_sz", "x")]));
    s.absorb(Country::Au, &vec!["_abck=; Max-Age=0".to_string()]);
    assert!(!s.admitted(Country::Au));
    assert_eq!(s.cookie_header(Country::Au).as_deref(), Some("bm_sz=x"));
    assert_eq!(s.admission(Country::Nz).len(), 0);
}

#[test]
fn a_bearer_header_carries_the_access_token() {
    let s = Session::new().with_tokens(Tokens::new_at("abc".into(), None, None, 0));
    assert_eq!(s.bearer().as_deref(), Some("Bearer abc"));
}

#[test]
fn nothing_here_is_shared_between_the_countries_by_accident() {
    assert_ne!(auth_client_id(Country::Au), auth_client_id(Country::Nz));
    assert_ne!(search_key(Country::Au), search_key(Country::Nz));
    assert_ne!(auth_redirect(Country::Au), auth_redirect(Country::Nz));
}

#[test]
fn the_tenant_and_the_audience_are_shared_on_purpose() {
    assert!(AUTH_DOMAIN.ends_with("kmart.com.au"));
    assert!(AUTH_AUDIENCE.starts_with("https://api.kmart.com.au"));
    assert!(AUTH_SCOPE.contains("offline_access"), "renewable");
}

#[test]
fn a_redirect_belongs_to_its_own_storefront() {
    assert_eq!(auth_redirect(Country::Nz), "https://www.kmart.co.nz/account/login");
}

const PAGE: &str = r#"<!doctype html><html><body><script>window.__NUXT__={
    "runtimeConfig":{"public":{"auth0Configs":{"domain":"auth.kmart.com.au",
    "clientId":"AaBbCcDdEeFf0011","audience":"https://api.kmart.com.au/gateway/graphql"}},
    "preview":false,"constructorApiKey":"key_TestTestTest"}}</script></body></html>"#;

#[test]
fn a_live_page_supplies_the_whole_set() {
    let read = Vendor::read(PAGE, Country::Nz).expect("all three keys are there");
    assert_eq!(read.search_key, "key_TestTestTest");
    assert_eq!(read.auth_client_id, "AaBbCcDdEeFf0011");
    assert_eq!(read.auth_audience, "https://api.kmart.com.au/gateway/graphql");
    assert_eq!(read.auth_redirect, auth_redirect(Country::Nz));
}

#[test]
fn a_page_missing_any_of_them_supplies_none_of_them() {
    assert!(Vendor::read(&PAGE.replace("constructorApiKey", "somethingElse"), Country::Nz).is_none());
    assert!(Vendor::read(&PAGE.replace("clientId", "somethingElse"), Country::Nz).is_none());
    assert!(Vendor::read("<html>not the page you wanted</html>", Country::Nz).is_none());
}

#[test]
fn an_empty_value_is_not_a_value() {
    assert!(Vendor::read(&PAGE.replace("key_TestTestTest", ""), Country::Nz).is_none());
}

#[test]
fn the_baked_set_is_what_the_accessors_say() {
    let baked = Vendor::baked(Country::Au);
    assert_eq!(baked.search_key, search_key(Country::Au));
    assert_eq!(baked.auth_client_id, auth_client_id(Country::Au));
}

#[test]
fn a_gateway_error_code_and_an_attribute_read_as_text() {
    let e = GqlError {
        message: Some("nope".into()),
        extensions: vec![("classification".into(), None), ("code".into(), Some("UNAUTHENTICATED".into()))],
    };
    assert_eq!(e.code(), Some("UNAUTHENTICATED"));
    assert_eq!(GqlError { message: None, extensions: vec![("code".into(), None)] }.code(), None);
    let labelled = Attribute {
        name: Some("colour".into()),
        value: AttributeValue::Object { label: None, value: Some(Some("Black".into())), key: Some(Some("black".into())) },
    };
    assert_eq!(labelled.text().as_deref(), Some("Black"));
    assert_eq!(Attribute { name: None, value: AttributeValue::Bool(true) }.text().as_deref(), Some("true"));
    assert_eq!(Attribute { name: None, value: AttributeValue::Other }.text(), None);
}

fn page(landed: &str, rejected: bool, html: &str) -> Page {
    Page { landed: landed.to_string(), rejected, html: html.to_string() }
}

fn submitted(r: Result<Action, Error>) -> (String, String, Vec<(String, String)>) {
    match r {
        Ok(Action::Submit(s)) => (s.step, s.url, s.form),
        _ => panic!("expected a form to submit"),
    }
}

const AUTH: &str = "https://auth.kmart.com.au";

#[test]
fn a_login_walks_email_then_password_then_trades_the_code() {
    let mut flow = LoginFlow::new(AUTH.into(), "a@b.nz".into(), "hunter2".into());
    let r = flow.advance(&page(
        "https://auth.kmart.com.au/u/login/identifier?state=s1",
        false,
        r#"<input type="hidden" name="state" value="s 1">"#,
    ));
    let (step, url, form) = submitted(r);
    assert_eq!(step, "identifier");
    assert_eq!(url, "https://auth.kmart.com.au/u/login/identifier?state=s%201");
    assert_eq!(form[0], ("state".to_string(), "s 1".to_string()));
    assert_eq!(form[1], ("username".to_string(), "a@b.nz".to_string()));
    assert_eq!(form.len(), 6);
    assert_eq!(flow.stage, Stage::Identifier);

    let r = flow.advance(&page(
        "https://auth.kmart.com.au/u/login/password?state=s2",
        false,
        r#"<input name="state" value="s2">"#,
    ));
    let (step, url, form) = submitted(r);
    assert_eq!(step, "password");
    assert_eq!(url, "https://auth.kmart.com.au/u/login/password?state=s2");
    assert_eq!(form[2], ("password".to_string(), "hunter2".to_string()));
    assert_eq!(form.len(), 7);
    assert_eq!(flow.stage, Stage::Password);

    let r = flow.advance(&page("https://www.kmart.co.nz/account/login?code=abc&state=x", false, ""));
    match r {
        Ok(Action::Exchange(code)) => assert_eq!(code, "abc"),
        _ => panic!("expected the code"),
    }
}

#[test]
fn a_passkey_offer_is_declined_before_the_code() {
    let mut flow = LoginFlow::new(AUTH.into(), "a@b.nz".into(), "pw".into());
    flow.stage = Stage::Password;
    let r = flow.advance(&page(
        "https://auth.kmart.com.au/u/passkey-enrollment?state=p",
        false,
        r#"<input name="state" value="p1">"#,
    ));
    let (step, url, form) = submitted(r);
    assert_eq!(step, "passkey");
    assert_eq!(url, "https://auth.kmart.com.au/u/passkey-enrollment?state=p1");
    assert_eq!(form[1], ("action".to_string(), "abort-passkey-enrollment".to_string()));
    assert_eq!(flow.stage, Stage::Passkey);
    let r = flow.advance(&page("https://www.kmart.co.nz/account/login?state=x", false, ""));
    match r {
        Err(Error::NoSession { detail }) => assert_eq!(
            detail,
            ": the flow ended at https://www.kmart.co.nz/account/login without an authorization code"
        ),
        _ => panic!("expected no session"),
    }
}

#[test]
fn a_wrong_password_is_refused_with_the_sites_words() {
    let mut flow = LoginFlow::new(AUTH.into(), "a@b.nz".into(), "pw".into());
    flow.stage = Stage::Password;
    let r = flow.advance(&page(
        "https://auth.kmart.com.au/u/login/password?state=z",
        true,
        r#"<span id="error-element-password" class="ulp-input-error-message">Wrong email or password</span><input name="state" value="z">"#,
    ));
    match r {
        Err(Error::LoginRefused { step, detail }) => {
            assert_eq!(step, "password");
            assert_eq!(detail, ": Wrong email or password");
        }
        _ => panic!("expected a refusal"),
    }
    assert_eq!(flow.stage, Stage::Password);
}

#[test]
fn a_challenge_anywhere_in_the_flow_is_named() {
    let mut flow = LoginFlow::new(AUTH.into(), "a@b.nz".into(), "pw".into());
    let r = flow.advance(&page(AUTH, true, "<h1>Access Denied</h1> edgesuite"));
    match r {
        Err(Error::Challenged { host }) => assert_eq!(host, "auth.kmart.com.au"),
        _ => panic!("expected a challenge"),
    }
    let r = flow.advance(&page(AUTH, false, "<html>no form</html>"));
    match r {
        Err(Error::NoSession { detail }) => assert_eq!(
            detail,
            ": the sign-in page at https://auth.kmart.com.au carried no login form, so Kmart has changed it"
        ),
        _ => panic!("expected no session"),
    }
}

#[test]
fn a_server_error_is_raised_and_a_client_error_is_a_page() {
    match page_from("https://a.test/x", 502, None, "https://a.test/x", String::new()) {
        Err(Error::Http(shopping_kit::netkit::error::HttpError::Status { method, status, url, .. })) => {
            assert_eq!(method, "POST");
            assert_eq!(status, 502);
            assert_eq!(url, "https://a.test/x");
        }
        _ => panic!("expected a status error"),
    }
    let p = page_from(
        "https://a.test/x",
        302,
        Some("/next?code=1".to_string()),
        "https://a.test/u/login",
        "body".to_string(),
    )
    .unwrap();
    assert_eq!(p.landed, "https://a.test/next?code=1");
    assert!(!p.rejected);
    let p = page_from("https://a.test/x", 400, None, "https://a.test/u/login", String::new()).unwrap();
    assert_eq!(p.landed, "https://a.test/u/login");
    assert!(p.rejected);
}

#[test]
fn a_token_answer_becomes_tokens_or_the_refusal_it_states() {
    let access = jwt(1_700_000_900, "auth0|1");
    let body = format!(r#"{{"access_token":"{access}","refresh_token":"r1","expires_in":900}}"#);
    let t = token_answer(AUTH, "refresh token", &body, 5).unwrap();
    assert_eq!(t.refresh.as_deref(), Some("r1"));
    assert_eq!(t.expires_at, 1_700_000_900);

    let opaque = token_answer(AUTH, "refresh token", r#"{"access_token":"opaque","expires_in":60}"#, 1000).unwrap();
    assert_eq!(opaque.expires_at, 1060);
    assert!(opaque.refresh.is_none());

    match token_answer(AUTH, "refresh token", r#"{"error":"invalid_grant","error_description":"Unknown or invalid refresh token."}"#, 0) {
        Err(Error::LoginRefused { step, detail }) => {
            assert_eq!(step, "refresh token");
            assert_eq!(detail, ": Unknown or invalid refresh token.");
        }
        _ => panic!("expected a refusal"),
    }
    match token_answer(AUTH, "authorization code", r#"{"error":"invalid_grant"}"#, 0) {
        Err(Error::LoginRefused { detail, .. }) => assert_eq!(detail, ": invalid_grant"),
        _ => panic!("expected a refusal"),
    }
    match token_answer(AUTH, "authorization code", r#"{"error_description":null,"error":"x"}"#, 0) {
        Err(Error::LoginRefused { detail, .. }) => assert_eq!(detail, ""),
        _ => panic!("expected a refusal"),
    }
    match token_answer(AUTH, "authorization code", "<html>Access Denied edgesuite</html>", 0) {
        Err(Error::Challenged { host }) => assert_eq!(host, "auth.kmart.com.au"),
        _ => panic!("expected a challenge"),
    }
}

#[test]
fn the_token_requests_carry_what_auth0_binds_them_to() {
    let e = Endpoints::of(Country::Nz);
    let body: serde_json::Value = serde_json::from_str(&exchange_body(&e, "c0de", "v3r")).unwrap();
    assert_eq!(body["grant_type"], "authorization_code");
    assert_eq!(body["code"], "c0de");
    assert_eq!(body["code_verifier"], "v3r");
    assert_eq!(body["client_id"], e.auth_client_id.as_str());
    assert_eq!(body["redirect_uri"], e.auth_redirect.as_str());
    let body: serde_json::Value = serde_json::from_str(&refresh_body(&e, "rt")).unwrap();
    assert_eq!(body["grant_type"], "refresh_token");
    assert_eq!(body["refresh_token"], "rt");
    assert_eq!(body.as_object().unwrap().len(), 3);
}

#[test]
fn a_decimal_price_string_does_not_go_through_a_float() {
    assert_eq!(Price::parse("39.00"), Some(Price::cents(3900)));
    assert_eq!(Price::parse("0.05"), Some(Price::cents(5)));
    assert_eq!(Price::parse("12"), Some(Price::cents(1200)));
    assert_eq!(Price::parse("12.5"), Some(Price::cents(1250)));
    assert_eq!(Price::parse("-3.50"), Some(Price::cents(-350)));
    assert_eq!(Price::parse("what"), None);
}

#[test]
fn a_price_is_cut_to_two_places_and_blank_is_nothing() {
    assert_eq!(Price::parse(" 1.999 "), Some(Price::cents(199)));
    assert_eq!(Price::parse(".5"), Some(Price::cents(50)));
    assert_eq!(Price::parse("."), None);
    assert_eq!(Price::parse(""), None);
    assert_eq!(Price::parse("1.x"), None);
    assert!(!Price::parse_panics("39.00"));
    assert!(Price::parse_panics("1.a\u{e9}"));
    assert!(Price::parse_panics("99999999999999999"));
}

fn product_with(seller: Option<&str>) -> Product {
    Product {
        keycode: "43165537".into(),
        name: "Milk Frother".into(),
        brand: None,
        price: None,
        was: None,
        currency: None,
        colour: None,
        size: None,
        seller: seller.map(str::to_string),
        rating: None,
        url: Some("/product/milk-frother-black-43165537/".into()),
        image: None,
        description: None,
        free_shipping: false,
        national_inventory: false,
        category_id: None,
        variations: Vec::new(),
        images: Vec::new(),
        extra: Vec::new(),
    }
}

#[test]
fn a_marketplace_seller_is_told_apart_from_kmart() {
    assert!(!product_with(Some("Kmart")).marketplace());
    assert!(!product_with(Some("kmart")).marketplace());
    assert!(product_with(Some("Some Other Seller")).marketplace());
    assert!(!product_with(None).marketplace());
}

#[test]
fn a_product_page_url_follows_the_country() {
    let p = product_with(None);
    assert_eq!(
        p.page(Country::Nz).unwrap(),
        "https://www.kmart.co.nz/product/milk-frother-black-43165537/"
    );
    assert_eq!(
        p.page(Country::Au).unwrap(),
        "https://www.kmart.com.au/product/milk-frother-black-43165537/"
    );
}

#[test]
fn a_listing_knows_when_its_results_are_a_guess() {
    let guess = Listing {
        products: vec![product_with(None)],
        total: 20,
        exact: Some(0),
        facets: Vec::new(),
        sorts: Vec::new(),
    };
    assert!(guess.is_guess());
    let real = Listing { products: vec![product_with(None)], total: 20, exact: Some(20), facets: Vec::new(), sorts: Vec::new() };
    assert!(!real.is_guess());
    let none = Listing { products: Vec::new(), total: 20, exact: Some(0), facets: Vec::new(), sorts: Vec::new() };
    assert!(!none.is_guess());
}

fn store_stock(id: &str, available: i64) -> StoreStock {
    StoreStock { store_id: id.into(), name: None, available, distance_km: None, buddy: false }
}

#[test]
fn availability_is_per_channel_and_any_one_of_them_counts() {
    let mut a = Stock {
        keycode: "43165537".into(),
        postcode: "1010".into(),
        region: None,
        home_delivery: Some(0),
        pool: None,
        express: None,
        click_and_collect: Some(0),
        stores: Vec::new(),
        in_store: Vec::new(),
    };
    assert!(!a.any(), "zero everywhere");
    a.stores = vec![store_stock("8229", 4)];
    assert!(a.any());
}

#[test]
fn a_cart_line_is_addressed_by_its_own_id_not_the_products() {
    let cart = Cart {
        id: "c".into(),
        version: 3,
        total: Some(Price::cents(8400)),
        collect_store_id: None,
        shipping: Some(Price::cents(600)),
        shipping_method: Some("Standard".into()),
        lines: vec![
            CartLine {
                id: "line-1".into(),
                keycode: "43165537".into(),
                name: "Milk Frother".into(),
                quantity: 2,
                unit_price: Some(Price::cents(3900)),
                total: Some(Price::cents(7800)),
                seller: None,
                options: Vec::new(),
            },
            CartLine {
                id: "line-2".into(),
                keycode: "43226382".into(),
                name: "Mop".into(),
                quantity: 1,
                unit_price: None,
                total: None,
                seller: None,
                options: Vec::new(),
            },
        ],
    };
    assert_eq!(cart.line("43165537").map(|l| l.id.as_str()), Some("line-1"));
    assert!(cart.line("nope").is_none());
    assert_eq!(cart.items(), 3, "quantities, not lines");
    assert_eq!(cart.subtotal(), Price::cents(7800));
}

fn item(variation_id: Option<&str>, id: Option<&str>) -> ItemData {
    ItemData {
        id: id.map(str::to_string),
        variation_id: variation_id.map(str::to_string),
        url: Some("/product/x-1/".into()),
        image_url: None,
        brand: Some("Anko".into()),
        colour: None,
        size: None,
        seller: vec!["Kmart".into()],
        free_shipping: None,
        national_inventory: Some(true),
        primary_category_id: None,
        price: None,
        prices: vec![
            PriceEntry { kind: Some("list".into()), amount: Some("12.00".into()), currency: Some("NZD".into()) },
            PriceEntry { kind: Some("list".into()), amount: Some("15.00".into()), currency: None },
        ],
        ratings: None,
        description: None,
        alt_images: vec!["a.jpg".into()],
        extra: vec![("Capacity".into(), "\"2L\"".into())],
    }
}

#[test]
fn a_result_takes_its_price_from_the_entries_and_a_higher_list_is_the_markdown() {
    let r = SearchResult { value: Some("Kettle".into()), data: item(Some("1"), None), variations: Vec::new() };
    let p = product(&r).unwrap();
    assert_eq!(p.keycode, "1");
    assert_eq!(p.name, "Kettle");
    assert_eq!(p.price, Some(Price::cents(1200)));
    assert_eq!(p.was, Some(Price::cents(1500)));
    assert_eq!(p.currency.as_deref(), Some("NZD"));
    assert_eq!(p.seller.as_deref(), Some("Kmart"));
    assert!(p.national_inventory && !p.free_shipping);
    assert_eq!(p.images, vec!["a.jpg".to_string()]);
    assert_eq!(p.extra.len(), 1);
}

#[test]
fn a_prefixed_id_is_the_keycode_of_last_resort() {
    let r = SearchResult { value: None, data: item(None, Some("P_43165537")), variations: Vec::new() };
    assert_eq!(product(&r).unwrap().keycode, "43165537");
    let r = SearchResult { value: None, data: item(None, Some("43165537")), variations: Vec::new() };
    assert!(product(&r).is_none());
}

#[test]
fn a_listing_counts_only_the_exact_matches_and_defaults_the_sort_order() {
    let response = SearchResponse {
        results: vec![
            SearchResult { value: Some("Kettle".into()), data: item(Some("1"), None), variations: Vec::new() },
            SearchResult { value: None, data: item(None, None), variations: Vec::new() },
        ],
        facets: Vec::new(),
        groups: Vec::new(),
        sort_options: vec![
            SortOption { sort_by: Some("price".into()), sort_order: None, display_name: None },
            SortOption { sort_by: None, sort_order: None, display_name: Some("x".into()) },
        ],
        total_num_results: 20,
        result_sources: vec![
            ("embeddings_match".into(), ResultSource { count: 20 }),
            ("token_match".into(), ResultSource { count: 0 }),
        ],
    };
    let l = listing_from(&response);
    assert_eq!(l.products.len(), 1);
    assert_eq!(l.exact, Some(0));
    assert!(l.is_guess());
    assert_eq!(l.sorts.len(), 1);
    assert_eq!(l.sorts[0].order, "descending");
}

#[test]
fn it_serialises_as_the_short_code_a_config_file_would_hold() {
    // The short form is what a config file holds, as a JSON string.
    assert_eq!(serde_json::to_string(&Country::Nz.to_string()).unwrap(), r#""nz""#);
    assert_eq!(Country::parse(&serde_json::from_str::<String>(r#""au""#).unwrap()), Some(Country::Au));
}

#[test]
fn a_session_logs_as_its_debug_form_with_the_values_left_out() {
    let s = Session::new()
        .with_tokens(Tokens { access: "a".into(), refresh: Some("r".into()), expires_at: 42 })
        .with_cookies(Country::Nz, cookies(&[("_abck", "x"), ("bm_sz", "y")]));
    assert_eq!(
        s.redacted(),
        r#"Session { tokens: Some(Tokens { access: "<redacted>", refresh: Some("<redacted>"), expires_at: 42 }), cookies: {"NZ": ["_abck", "bm_sz"]} }"#
    );
    assert_eq!(Session::new().redacted(), "Session { tokens: None, cookies: {} }");
}

#[test]
fn a_stored_session_logs_its_tokens_presence_and_cookie_names() {
    let s = Session::new()
        .with_tokens(Tokens { access: "a".into(), refresh: None, expires_at: 5 })
        .with_cookies(Country::Au, cookies(&[("_abck", "x")]));
    let stored = StoredSession::of_at(&s, Some("me@example.test".into()), 7);
    assert_eq!(
        stored.redacted(),
        r#"StoredSession { email: Some("me@example.test"), tokens: Some(Tokens { access: "<redacted>", refresh: None, expires_at: 5 }), cookies: {"AU": ["_abck"]} }"#
    );
    assert_eq!(
        Tokens { access: "a".into(), refresh: Some("r".into()), expires_at: 1 }.redacted(),
        r#"Tokens { access: "<redacted>", refresh: Some("<redacted>"), expires_at: 1 }"#
    );
}

#[test]
fn login_redirects_are_followed_only_within_the_auth_host() {
    assert!(follows(Some("auth.kmart.co.nz"), "auth.kmart.co.nz"));
    assert!(!follows(Some("www.kmart.co.nz"), "auth.kmart.co.nz"));
    assert!(!follows(None, "auth.kmart.co.nz"));
}
