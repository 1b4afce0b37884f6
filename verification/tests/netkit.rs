use base64::Engine;
use shopping_kit::netkit::cookies::{from_netscape, parse_cookie_header, set_cookies, CookieMap};
use shopping_kit::netkit::error::{truncate, AuthFault, Error, Fault, HttpError};
use shopping_kit::netkit::http::answer;
use shopping_kit::netkit::jar::{Kept, KeptCookies};
use shopping_kit::netkit::jwt::{claim_str, claims, exp_to_ms, expiry_ms, fresh, fresh_by, now_ms, payload};
use shopping_kit::netkit::paths::{join_path, Paths};
use shopping_kit::netkit::run::{command_line, command_output, Finished};
use shopping_kit::netkit::secrets::{from_file, from_store, safe, Backend, Secrets};
use std::time::Duration;

fn jwt_with(payload_json: &str) -> String {
    let encoded = base64::engine::general_purpose::URL_SAFE_NO_PAD.encode(payload_json);
    format!("header.{encoded}.signature")
}

fn status(code: u16, body: &str) -> HttpError {
    HttpError::Status {
        method: "GET",
        url: "https://example.test/thing".into(),
        status: code,
        detail: String::new(),
        body: body.into(),
    }
}

#[test]
fn parses_a_request_cookie_header() {
    let got = parse_cookie_header("a=1; b=2 ;  c=3");
    assert_eq!(got.get("a").map(String::as_str), Some("1"));
    assert_eq!(got.get("c").map(String::as_str), Some("3"));
    assert_eq!(got.len(), 3);
}

#[test]
fn reads_a_netscape_export_and_ignores_other_sites() {
    let text = "\
# Netscape HTTP Cookie File
.example.test\tTRUE\t/\tTRUE\t1900000000\tsession-token\tabc123
#HttpOnly_.example.test\tTRUE\t/\tTRUE\t1900000000\t__cf_bm\tcfvalue
.other-site.test\tTRUE\t/\tTRUE\t1900000000\tsession-token\tnot-ours
malformed line with too few fields
";
    let got = from_netscape(text, "example.test");
    assert_eq!(got.get("session-token").map(String::as_str), Some("abc123"));
    assert_eq!(
        got.get("__cf_bm").map(String::as_str),
        Some("cfvalue"),
        "#HttpOnly_ is a prefix, not a comment"
    );
    assert_eq!(got.len(), 2, "another site's cookies are not imported");
}

#[test]
fn truncation_says_it_truncated() {
    assert_eq!(truncate("short", 20), "short");
    assert_eq!(truncate("abcdefghij", 4), "abcd...");
}

#[test]
fn freshness_leaves_room_for_the_request_it_authorises() {
    let now = now_ms();
    assert!(fresh(now + 120_000, Duration::from_secs(60).as_millis() as u64));
    // Expires in 30s, but the margin is 60s: not fresh enough to use.
    assert!(!fresh(now + 30_000, Duration::from_secs(60).as_millis() as u64));
    assert!(!fresh(0, Duration::from_secs(0).as_millis() as u64));
}

#[test]
fn the_fallback_is_named_honestly() {
    assert!(Backend::File.describe().contains("no system credential store"));
}

#[test]
fn classifies_auth_failures_by_code_not_by_message_text() {
    assert_eq!(status(401, "").auth(), Some(AuthFault::Rejected));
    assert_eq!(status(403, "").auth(), Some(AuthFault::Forbidden));
    assert_eq!(status(500, "").auth(), None);
    assert_eq!(status(200, "the number 401 appears here").auth(), None);
}

#[test]
fn keeps_the_raw_body_for_the_one_caller_that_needs_it() {
    let e = status(400, r#"{"message":"Store is not defined"}"#);
    assert!(e.body().contains("Store is not defined"));
    assert_eq!(e.status(), Some(400));
}

#[test]
fn reads_expiry_in_milliseconds() {
    let token = jwt_with(r#"{"exp":1700000000}"#);
    assert_eq!(expiry_ms(&token), Some(1_700_000_000_000));
}

#[test]
fn reads_a_named_claim() {
    let token = jwt_with(r#"{"banner":"MNW","sub":"u1"}"#);
    assert_eq!(claim_str(&token, "banner").as_deref(), Some("MNW"));
    assert_eq!(claim_str(&token, "absent"), None);
}

#[test]
fn garbage_reads_as_no_claims_rather_than_panicking() {
    assert!(claims("not-a-jwt").is_none());
    assert!(claims("").is_none());
    assert!(claims("a.!!!not-base64!!!.c").is_none());
    assert!(expiry_ms("header.eyJ9.sig").is_none());
}

#[test]
fn a_payload_that_decodes_but_is_not_json_has_no_claims() {
    // `eyJ9` decodes, to `{"}`, which is not JSON.
    assert_eq!(payload("header.eyJ9.sig"), Some(br#"{"}"#.to_vec()));
    assert!(claims("header.eyJ9.sig").is_none());
    let token = format!("h.{}.s", base64::engine::general_purpose::URL_SAFE_NO_PAD.encode(r#"{"exp":1}"#));
    let value = claims(&token).unwrap();
    assert_eq!(value.get("exp").and_then(|v| v.as_u64()), Some(1));
}

#[test]
fn a_payload_in_the_standard_alphabet_is_read_too() {
    // `{"exp":1}` in standard base64 without padding.
    let standard = base64::engine::general_purpose::STANDARD_NO_PAD.encode(r#"{"exp":1}"#);
    let token = format!("h.{standard}.s");
    assert_eq!(expiry_ms(&token), Some(1000));
}

#[test]
fn an_expiry_too_large_for_milliseconds_is_pinned_not_wrapped() {
    assert_eq!(exp_to_ms(u64::MAX / 10), u64::MAX);
    assert_eq!(exp_to_ms(2), 2000);
}

#[test]
fn freshness_by_given_times() {
    assert!(fresh_by(1_000, 100, 899));
    assert!(!fresh_by(1_000, 100, 900));
    assert!(!fresh_by(u64::MAX, u64::MAX, 1), "saturates rather than wrapping");
}

#[test]
fn a_later_cookie_of_the_same_name_wins_and_names_stay_ordered() {
    let got = parse_cookie_header("b=1; a=2; b=3; =nameless; junk");
    assert_eq!(got.keys(), vec!["a".to_string(), "b".to_string()]);
    assert_eq!(got.get("b").map(String::as_str), Some("3"));
    assert_eq!(got.header().as_deref(), Some("a=2; b=3"));
}

#[test]
fn set_cookie_values_keep_only_their_name_and_value() {
    let got = set_cookies(&vec![
        "_abck=fresh; Path=/; Max-Age=3600".to_string(),
        "  spaced = value ; HttpOnly".to_string(),
        "novalue".to_string(),
    ]);
    assert_eq!(got.get("_abck").map(String::as_str), Some("fresh"));
    assert_eq!(got.get("spaced").map(String::as_str), Some("value"));
    assert_eq!(got.len(), 2);
}

#[test]
fn a_cookie_map_inserts_replaces_and_removes() {
    let mut m = CookieMap::new();
    assert!(m.is_empty());
    assert_eq!(m.header(), None);
    m.insert("z".into(), "1".into());
    m.insert("a".into(), "2".into());
    m.insert("z".into(), "3".into());
    assert_eq!(m.pairs(), vec![("a".to_string(), "2".to_string()), ("z".to_string(), "3".to_string())]);
    m.remove("a");
    m.remove("missing");
    assert_eq!(m.header().as_deref(), Some("z=3"));
    assert!(!m.contains_key("a"));
}

#[test]
fn an_http_failure_keeps_status_and_body_and_quotes_a_trimmed_detail() {
    let long = "x".repeat(400);
    match answer("GET", "https://example.test/a", 503, long.clone()) {
        Err(HttpError::Status { status, body, detail, .. }) => {
            assert_eq!(status, 503);
            assert_eq!(body, long);
            assert_eq!(detail.len(), 303, "300 characters and the ellipsis");
        }
        _ => panic!("a 503 is a failure"),
    }
    assert_eq!(answer("GET", "https://example.test/a", 204, "ok".into()).ok().as_deref(), Some("ok"));
}

#[test]
fn failure_messages_read_as_the_original_wording() {
    let e = status(404, "");
    assert_eq!(e.message(), "GET https://example.test/thing: HTTP 404");
    let with_detail = HttpError::Status {
        method: "POST",
        url: "u".into(),
        status: 500,
        detail: "boom".into(),
        body: "boom".into(),
    };
    assert_eq!(with_detail.message(), "POST u: HTTP 500: boom");
    let net = Error::Http(status(401, ""));
    assert_eq!(net.auth(), Some(AuthFault::Rejected));
    assert!(!net.is_transport());
    let transport = Error::Http(HttpError::Transport { method: "GET", url: "u".into(), detail: "reset".into() });
    assert!(transport.is_transport());
    assert_eq!(Error::Config("bad".into()).message(), "bad");
}

#[test]
fn overrides_replace_only_what_they_name() {
    let paths = Paths::new("/cfg".into(), "/state".into()).with_state_dir("/elsewhere".into());
    assert_eq!(paths.config_dir, "/cfg");
    assert_eq!(paths.state_dir, "/elsewhere");
}

#[test]
fn scoping_moves_state_and_leaves_config_alone() {
    let scoped = Paths::new("/cfg".into(), "/state".into()).scoped("newworld");
    assert_eq!(scoped.config_dir, "/cfg");
    assert_eq!(scoped.state_dir, "/state/newworld");
    assert_eq!(scoped.config_file(), "/cfg/config.toml");
}

#[test]
fn joining_follows_the_platform_rules() {
    assert_eq!(join_path("/a/", "b"), "/a/b");
    assert_eq!(join_path("/a", "/abs"), "/abs");
    assert_eq!(join_path("", "b"), "b");
}

#[test]
fn account_names_cannot_escape_the_directory() {
    let s = Secrets::new("net-kit-test".into(), Backend::File, "/tmp/state");
    assert_eq!(s.path("../../etc/passwd"), "/tmp/state/secrets/net_kit_test/______etc_passwd");
    assert_eq!(s.path("a/b"), "/tmp/state/secrets/net_kit_test/a_b");
    assert_eq!(safe("héllo-1"), "h_llo_1");
}

#[test]
fn two_tools_sharing_a_state_directory_stay_separate() {
    let a = Secrets::new("tool-a".into(), Backend::File, "/s");
    let b = Secrets::new("tool-b".into(), Backend::File, "/s");
    assert_ne!(a.path("session"), b.path("session"));
    assert_eq!(a.service(), "tool-a");
    assert_eq!(a.backend(), Backend::File);
}

#[test]
fn a_service_that_reduces_to_nothing_still_keeps_apart_from_one_that_does_not() {
    let empty = Secrets::new("".into(), Backend::File, "/s");
    let named = Secrets::new("a".into(), Backend::File, "/s");
    assert_eq!(empty.path("a_b"), "/s/secrets/a_b");
    assert_eq!(named.path("b"), "/s/secrets/a/b");
    assert_ne!(empty.path("a/b"), named.path("b"));
}

#[test]
fn a_blank_secret_is_no_secret() {
    assert_eq!(from_store("  \n".into()), None);
    assert_eq!(from_store(" kept as is ".into()).as_deref(), Some(" kept as is "));
    assert_eq!(from_file(" trimmed \n").as_deref(), Some("trimmed"));
    assert_eq!(from_file("\n"), None);
}

#[test]
fn an_empty_command_is_rejected_before_spawning() {
    let err = command_line("token_command", "   ").unwrap_err();
    assert!(err.message().contains("is empty"), "{}", err.message());
}

#[test]
fn a_command_line_splits_into_program_and_arguments() {
    let (program, args) = command_line("password_command", "printf 'hunter2\\n'").unwrap();
    assert_eq!(program, "printf");
    assert_eq!(args, vec!["hunter2\\n".to_string()]);
    let err = command_line("password_command", "echo 'unclosed").unwrap_err();
    assert!(err.message().starts_with("password_command failed: could not parse"), "{}", err.message());
}

#[test]
fn what_a_finished_command_comes_to() {
    let ok = Finished { success: true, status: "exit status: 0".into(), stdout: "hunter2\n".into(), stderr: String::new() };
    assert_eq!(command_output("password_command", "x", Ok(ok)).unwrap(), "hunter2");
    let silent = Finished { success: true, status: "exit status: 0".into(), stdout: " \n".into(), stderr: String::new() };
    assert!(command_output("token_command", "true", Ok(silent)).unwrap_err().message().contains("printed nothing"));
    let failed = Finished { success: false, status: "exit status: 1".into(), stdout: String::new(), stderr: " nope \n".into() };
    assert_eq!(
        command_output("password_command", "false", Ok(failed)).unwrap_err().message(),
        "password_command failed: exited exit status: 1: nope"
    );
    let missing = command_output("token_command", "nope", Err("No such file".into())).unwrap_err();
    assert!(missing.message().contains("could not run"), "{}", missing.message());
}

fn kept(host: &str, name: &str, value: &str, expires_at: u64) -> Kept {
    Kept { host: host.to_string(), name: name.to_string(), value: value.to_string(), expires_at }
}

fn names(jar: &KeptCookies, now: u64) -> Vec<(String, String, String, u64)> {
    jar.live(now).into_iter().map(|k| (k.host, k.name, k.value, k.expires_at)).collect()
}

#[test]
fn only_cookies_the_rule_keeps_and_that_expire_are_kept() {
    let mut jar = KeptCookies::new();
    jar.remember(true, "a.test".into(), "bm".into(), "1".into(), Some(2_000), None, 1_000);
    // Max-Age counts from now.
    jar.remember(true, "a.test".into(), "ak".into(), "2".into(), None, Some(60), 1_000);
    // A session cookie is dropped at exit, as a browser drops it.
    jar.remember(true, "a.test".into(), "session".into(), "3".into(), None, None, 1_000);
    // Analytics has no business in a credential store.
    jar.remember(false, "a.test".into(), "ga".into(), "4".into(), Some(9_000), None, 1_000);
    assert_eq!(
        names(&jar, 1_000),
        vec![
            ("a.test".to_string(), "ak".to_string(), "2".to_string(), 1_060),
            ("a.test".to_string(), "bm".to_string(), "1".to_string(), 2_000),
        ]
    );
}

#[test]
fn a_cookie_replaces_its_own_host_and_name_only() {
    let mut jar = KeptCookies::new();
    jar.insert(kept("b.test", "bm", "old", 5_000));
    jar.insert(kept("a.test", "bm", "other", 5_000));
    jar.insert(kept("b.test", "bm", "new", 6_000));
    assert_eq!(jar.len(), 2);
    // By name, whichever host set it: the first in host order.
    assert_eq!(jar.get("bm").as_deref(), Some("other"));
    assert_eq!(jar.get("absent"), None);
    let live = names(&jar, 0);
    assert_eq!(live[1], ("b.test".to_string(), "bm".to_string(), "new".to_string(), 6_000));
}

#[test]
fn a_stored_jar_loads_without_what_has_expired_and_saves_what_it_loaded() {
    let stored = vec![kept("a.test", "x", "1", 100), kept("a.test", "y", "2", 900), kept("a.test", "y", "3", 950)];
    let jar = KeptCookies::from_stored(stored, 500);
    assert_eq!(names(&jar, 500), vec![("a.test".to_string(), "y".to_string(), "3".to_string(), 950)]);
    // Written back and read again at the same moment, nothing changes.
    let again = KeptCookies::from_stored(jar.live(500), 500);
    assert_eq!(names(&again, 500), names(&jar, 500));
    // Later, it has aged out too.
    assert!(jar.live(950).is_empty());
}

#[test]
fn a_config_override_leaves_the_state_directory_alone() {
    let paths = Paths::new("/cfg".into(), "/state".into()).with_config_dir("/elsewhere".into());
    assert_eq!(paths.config_dir, "/elsewhere");
    assert_eq!(paths.state_dir, "/state");
    let detected = shopping_kit::netkit::secrets::Backend::detect();
    assert!(matches!(detected, Backend::Keyring | Backend::File));
}

#[test]
fn the_credential_store_is_used_where_it_came_up() {
    assert_eq!(Backend::for_store(true), Backend::Keyring);
    assert_eq!(Backend::for_store(false), Backend::File);
}

#[test]
fn defaults_give_two_usable_directories() {
    let paths = Paths::defaults("net-kit-test").unwrap();
    assert!(paths.config_dir.starts_with('/'), "{}", paths.config_dir);
    assert!(paths.state_dir.starts_with('/'), "{}", paths.state_dir);
}
