//! The checks on a fetched page.

use ryu_monitors::check::{
    alert_status, eval_content_diff, eval_keyword, eval_stock, eval_uptime, fetched_label,
    first_capture, hex, judge_content, judge_keyword, judge_stock, pattern_matches, prefer_group,
    sha256_hex,
};
use ryu_monitors::json::{quote_json, refusal, spider_body_text, write_json, Json};
use ryu_monitors::model::{CheckOutcome, Fetched, PendingAlert};
use ryu_monitors::store::{map_snapshot, snapshot_row};
use ryu_monitors::text::normalize_text;
use ryu_monitors::{CheckStatus, FetchBackend, NumComparator, Snapshot};

fn snap(value: &str, hash: Option<&str>) -> Snapshot {
    Snapshot {
        id: 1,
        monitor_id: "m".into(),
        checked_at: "now".into(),
        status: CheckStatus::Okay,
        http_status: Some(200),
        latency_ms: Some(1),
        value: Some(value.into()),
        content_hash: hash.map(str::to_string),
        note: None,
    }
}

fn page(body: &str) -> Fetched {
    Fetched {
        http_status: Some(200),
        latency_ms: 1,
        body: body.into(),
    }
}

fn with_code(code: u16, latency_ms: u64) -> Fetched {
    Fetched {
        http_status: Some(code),
        latency_ms,
        body: String::new(),
    }
}

fn as_baseline(out: &CheckOutcome) -> Snapshot {
    Snapshot {
        id: 7,
        monitor_id: "m".into(),
        checked_at: "t".into(),
        status: out.status,
        http_status: out.http_status,
        latency_ms: out.latency_ms,
        value: out.value.clone(),
        content_hash: out.content_hash.clone(),
        note: out.note.clone(),
    }
}

// ---- uptime ----------------------------------------------------------------

#[test]
fn uptime_alerts_on_down_transition() {
    let out = eval_uptime(Ok(with_code(500, 5)), &[], Some(&snap("up", None)));
    assert_eq!(out.status, CheckStatus::Triggered);
    assert_eq!(out.alert.unwrap().kind, "uptime_down");
}

#[test]
fn uptime_no_alert_when_still_up() {
    let out = eval_uptime(Ok(with_code(200, 5)), &[], Some(&snap("up", None)));
    assert_eq!(out.status, CheckStatus::Okay);
    assert!(out.alert.is_none());
}

#[test]
fn uptime_recovers_on_up_transition() {
    let out = eval_uptime(Ok(with_code(200, 3)), &[], Some(&snap("down", None)));
    assert_eq!(out.status, CheckStatus::Triggered);
    assert_eq!(out.alert.unwrap().kind, "uptime_up");
    assert_eq!(out.value.as_deref(), Some("up"));
}

#[test]
fn uptime_honors_explicit_expect_status() {
    // 204 is a 2xx but NOT in the allowlist, so it counts as down.
    let out = eval_uptime(Ok(with_code(204, 1)), &[200, 301], Some(&snap("up", None)));
    assert_eq!(out.status, CheckStatus::Triggered);
    assert_eq!(out.alert.unwrap().kind, "uptime_down");
}

#[test]
fn uptime_error_alerts_when_was_up() {
    let out = eval_uptime(Err("boom".to_string()), &[], Some(&snap("up", None)));
    assert_eq!(out.status, CheckStatus::Triggered);
    assert_eq!(out.value.as_deref(), Some("down"));
    assert_eq!(out.alert.unwrap().kind, "uptime_down");
}

#[test]
fn uptime_error_when_already_down_is_not_retriggered() {
    let out = eval_uptime(Err("boom".to_string()), &[], Some(&snap("down", None)));
    assert!(out.alert.is_none());
    assert_eq!(out.status, CheckStatus::Okay);
    assert_eq!(out.value.as_deref(), Some("down"));
}

#[test]
fn uptime_first_check_defaults_to_previously_up() {
    let out = eval_uptime(Err("dns".to_string()), &[], None);
    assert_eq!(out.alert.unwrap().kind, "uptime_down");
}

#[test]
fn uptime_messages_are_exact() {
    let up = eval_uptime(Ok(with_code(301, 1234)), &[], Some(&snap("down", None)));
    let alert = up.alert.unwrap();
    assert_eq!(alert.title, "Site back up");
    assert_eq!(alert.message, "Recovered (HTTP 301), 1234 ms.");
    assert_eq!(up.http_status, Some(301));
    assert_eq!(up.latency_ms, Some(1234));

    let down = eval_uptime(Ok(with_code(400, 9)), &[], None);
    let alert = down.alert.unwrap();
    assert_eq!(alert.title, "Site down");
    assert_eq!(alert.message, "Unexpected HTTP 400.");

    let failed = eval_uptime(Err("dns".to_string()), &[], None);
    assert_eq!(failed.alert.unwrap().message, "Request failed: dns");
    assert_eq!(failed.note.as_deref(), Some("dns"));
    assert_eq!(failed.http_status, None);
    assert_eq!(failed.latency_ms, None);
}

#[test]
fn uptime_healthy_codes_have_exact_bounds() {
    for (code, up) in [(199, false), (200, true), (399, true), (400, false)] {
        let out = eval_uptime(Ok(with_code(code, 0)), &[], None);
        assert_eq!(out.value.as_deref(), Some(if up { "up" } else { "down" }));
    }
    // A page without a code counts as code 0, which can be expected.
    let bare = Fetched { http_status: None, latency_ms: 0, body: String::new() };
    assert_eq!(eval_uptime(Ok(bare.clone()), &[], None).value.as_deref(), Some("down"));
    assert_eq!(eval_uptime(Ok(bare), &[0], None).value.as_deref(), Some("up"));
}

#[test]
fn uptime_alerts_exactly_on_change_over_a_history() {
    let mut prev: Option<Snapshot> = None;
    let mut alerts = Vec::new();
    for code in [200u16, 200, 500, 500, 503, 200, 200, 404] {
        let out = eval_uptime(Ok(with_code(code, 1)), &[], prev.as_ref());
        alerts.push(out.alert.is_some());
        prev = Some(as_baseline(&out));
    }
    assert_eq!(alerts, [false, false, true, false, false, true, false, true]);
}

#[test]
fn a_stored_baseline_compares_like_the_recorded_one() {
    let first = eval_content_diff(&page("a b"), None, None);
    let recorded = as_baseline(&first);
    let mut row = snapshot_row(&recorded);
    row.id = 99;
    let mut read = map_snapshot(row);
    read.checked_at = "later".into();
    for body in ["a b", "a c"] {
        let direct = eval_content_diff(&page(body), None, Some(&recorded));
        let stored = eval_content_diff(&page(body), None, Some(&read));
        assert_eq!(direct.alert.is_some(), stored.alert.is_some());
        assert_eq!(direct.alert.is_some(), body == "a c");
    }
}

// ---- keyword and stock -----------------------------------------------------

#[test]
fn keyword_alerts_on_appearance() {
    let fetched = page("Tickets are now ON SALE");
    let out = eval_keyword(&fetched, "on sale", false, false, true, Some(&snap("absent", None)));
    assert_eq!(out.status, CheckStatus::Triggered);
    assert_eq!(out.value.as_deref(), Some("present"));
}

#[test]
fn keyword_no_repeat_when_already_present() {
    let fetched = page("ON SALE");
    let out = eval_keyword(&fetched, "on sale", false, false, true, Some(&snap("present", None)));
    assert!(out.alert.is_none());
}

#[test]
fn keyword_alerts_on_disappearance_when_configured() {
    let fetched = page("nothing relevant");
    let out = eval_keyword(&fetched, "sold out", false, false, false, Some(&snap("present", None)));
    assert_eq!(out.status, CheckStatus::Triggered);
    assert_eq!(out.value.as_deref(), Some("absent"));
}

#[test]
fn keyword_regex_case_sensitive_matches() {
    let fetched = page("Order ID: ABC123");
    let out = eval_keyword(&fetched, r"[A-Z]{3}\d{3}", true, true, true, Some(&snap("absent", None)));
    assert_eq!(out.value.as_deref(), Some("present"));
}

#[test]
fn keyword_first_check_present_fires_alert() {
    let fetched = page("ON SALE");
    let out = eval_keyword(&fetched, "on sale", false, false, true, None);
    assert_eq!(out.status, CheckStatus::Triggered);
}

#[test]
fn keyword_messages_are_exact() {
    let out = judge_keyword(&page(""), "on sale", true, true, None);
    let alert = out.alert.unwrap();
    assert_eq!(alert.title, "Keyword appeared \"on sale\"");
    assert_eq!(alert.message, "On HTTP 200");
    assert_eq!(alert.kind, "keyword");
    let out = judge_keyword(&page(""), "on sale", false, false, None);
    assert_eq!(out.alert.unwrap().title, "Keyword disappeared \"on sale\"");
}

#[test]
fn keyword_after_a_failed_check_counts_as_not_present() {
    let mut failed = snap("present", None);
    failed.value = None;
    assert!(judge_keyword(&page(""), "x", true, true, Some(&failed)).alert.is_some());
    assert!(judge_keyword(&page(""), "x", false, false, Some(&failed)).alert.is_none());
}

#[test]
fn stock_alerts_when_back_in_stock() {
    let fetched = page("Add to cart");
    let out = eval_stock(&fetched, "add to cart", false, true, Some(&snap("out_of_stock", None)));
    assert_eq!(out.status, CheckStatus::Triggered);
    assert_eq!(out.value.as_deref(), Some("in_stock"));
}

#[test]
fn stock_goes_out_of_stock_alert() {
    let fetched = page("Currently unavailable");
    let out = eval_stock(&fetched, "add to cart", false, false, Some(&snap("in_stock", None)));
    assert_eq!(out.status, CheckStatus::Triggered);
    assert_eq!(out.value.as_deref(), Some("out_of_stock"));
}

#[test]
fn stock_no_repeat_when_already_in_stock() {
    let fetched = page("Add to cart");
    let out = eval_stock(&fetched, "add to cart", false, true, Some(&snap("in_stock", None)));
    assert!(out.alert.is_none());
    assert_eq!(out.status, CheckStatus::Okay);
}

#[test]
fn stock_messages_are_exact() {
    let alert = judge_stock(&page(""), true, true, None).alert.unwrap();
    assert_eq!((alert.title.as_str(), alert.message.as_str()), ("Now in stock", "On HTTP 200"));
    assert_eq!(alert.kind, "stock");
    let bare = Fetched { http_status: None, latency_ms: 0, body: String::new() };
    let alert = judge_stock(&bare, false, false, None).alert.unwrap();
    assert_eq!((alert.title.as_str(), alert.message.as_str()), ("Now out of stock", "On fetched page"));
}

#[test]
fn keyword_and_stock_alert_exactly_on_the_wanted_change() {
    let seen = [false, true, true, false, true];
    for wanted in [true, false] {
        let mut prev: Option<Snapshot> = None;
        let mut before: Option<bool> = None;
        for present in seen {
            let out = judge_keyword(&page(""), "x", present, wanted, prev.as_ref());
            assert_eq!(out.alert.is_some(), present == wanted && before != Some(wanted));
            before = Some(present);
            prev = Some(as_baseline(&out));
        }
        let mut prev: Option<Snapshot> = None;
        let mut before: Option<bool> = None;
        for present in seen {
            let out = judge_stock(&page(""), present, wanted, prev.as_ref());
            assert_eq!(out.alert.is_some(), present == wanted && before != Some(wanted));
            before = Some(present);
            prev = Some(as_baseline(&out));
        }
    }
}

// ---- patterns --------------------------------------------------------------

#[test]
fn patterns_are_plain_text_or_regexes() {
    assert!(pattern_matches("A.B", "a.b", false, false));
    assert!(!pattern_matches("AxB", "a.b", false, false));
    assert!(pattern_matches("AxB", "a.b", true, false));
    assert!(!pattern_matches("AxB", "a.b", true, true));
    assert!(!pattern_matches("A.B", "a.b", false, true));
    assert!(pattern_matches("\u{c9}T\u{c9}", "\u{e9}t\u{e9}", false, false));
    assert!(pattern_matches("anything", "", false, true));
    // A regex that does not compile is not found.
    assert!(!pattern_matches("((", "((", true, true));
}

#[test]
fn captures_prefer_the_first_group() {
    assert_eq!(first_capture("id=42;", r"id=(\d+)").as_deref(), Some("42"));
    assert_eq!(first_capture("id=42;", r"id=\d+").as_deref(), Some("id=42"));
    assert_eq!(first_capture("ab", r"a(x)?b").as_deref(), Some("ab"));
    assert_eq!(first_capture("id=x", r"id=(\d+)"), None);
    assert_eq!(first_capture("(", "("), None);
    assert_eq!(prefer_group(Some(("w".into(), Some("g".into())))).as_deref(), Some("g"));
    assert_eq!(prefer_group(Some(("w".into(), None))).as_deref(), Some("w"));
    assert_eq!(prefer_group(None), None);
}

// ---- content ---------------------------------------------------------------

#[test]
fn content_diff_alerts_on_hash_change() {
    let fetched = page("new body");
    let out = eval_content_diff(&fetched, None, Some(&snap("x", Some("deadbeef"))));
    assert_eq!(out.status, CheckStatus::Triggered);
    assert_eq!(out.alert.unwrap().kind, "content_change");
}

#[test]
fn content_diff_no_alert_on_first_check() {
    let fetched = page("hello world");
    let out = eval_content_diff(&fetched, None, None);
    assert!(out.alert.is_none());
    assert!(out.content_hash.is_some());
}

#[test]
fn content_diff_no_alert_when_hash_unchanged() {
    let fetched = page("same body");
    let hash = sha256_hex(&normalize_text("same body"));
    let out = eval_content_diff(&fetched, None, Some(&snap("x", Some(&hash))));
    assert!(out.alert.is_none());
    assert_eq!(out.status, CheckStatus::Okay);
}

#[test]
fn content_diff_scopes_to_region_regex() {
    let fetched = page("prefix <price>9.99</price> suffix-that-changes-a-lot");
    // Only the captured region is hashed, so noise outside it is ignored.
    let out = eval_content_diff(&fetched, Some(r"<price>(.*?)</price>"), None);
    assert_eq!(out.value.as_deref(), Some("4 chars")); // "9.99"
}

#[test]
fn content_diff_sees_words_only() {
    let first = eval_content_diff(&page("a  b\n"), None, None);
    let second = eval_content_diff(&page("\ta b"), None, Some(&as_baseline(&first)));
    assert!(second.alert.is_none());
    assert_eq!(first.content_hash, second.content_hash);
    let third = eval_content_diff(&page("a c"), None, Some(&as_baseline(&second)));
    let alert = third.alert.unwrap();
    assert_eq!(alert.title, "Content changed");
    assert_eq!(alert.message, "The watched content on HTTP 200 changed.");
}

#[test]
fn content_length_counts_bytes() {
    let out = eval_content_diff(&page("\u{20ac}"), None, None);
    assert_eq!(out.value.as_deref(), Some("3 chars"));
    // A region that is not found is empty.
    let out = eval_content_diff(&page("abc"), Some("<x>(.*)</x>"), None);
    assert_eq!(out.value.as_deref(), Some("0 chars"));
    assert_eq!(out.content_hash, Some(sha256_hex("")));
}

#[test]
fn content_baseline_without_a_hash_is_none() {
    assert!(judge_content(&page("x"), 1, "h".into(), Some(&snap("x", None))).alert.is_none());
    assert!(judge_content(&page("x"), 1, "h".into(), Some(&snap("x", Some("g")))).alert.is_some());
}

#[test]
fn sha256_hex_is_stable_and_distinct() {
    let a = sha256_hex("hello");
    assert_eq!(a, sha256_hex("hello"));
    assert_ne!(a, sha256_hex("world"));
    assert_eq!(a.len(), 64);
}

#[test]
fn sha256_hex_of_known_texts() {
    assert_eq!(
        sha256_hex(""),
        "e3b0c44298fc1c149afbf4c8996fb92427ae41e4649b934ca495991b7852b855"
    );
    assert_eq!(
        sha256_hex("abc"),
        "ba7816bf8f01cfea414140de5dae2223b00361a396177a9cb410ff61f20015ad"
    );
    assert_eq!(hex(&[0x00, 0x0f, 0xa0, 0xff]), "000fa0ff");
}

// ---- shared pieces ---------------------------------------------------------

#[test]
fn labels_and_statuses() {
    assert_eq!(fetched_label(&with_code(204, 1)), "HTTP 204");
    let alert = PendingAlert { title: String::new(), message: String::new(), kind: "price" };
    assert_eq!(alert_status(&Some(alert)), CheckStatus::Triggered);
    assert_eq!(alert_status(&None), CheckStatus::Okay);
}

#[test]
fn fetch_backend_defaults_to_http() {
    assert_eq!(FetchBackend::default(), FetchBackend::Http);
    assert_eq!(NumComparator::default(), NumComparator::Changed);
}

// ---- crawl answers ---------------------------------------------------------

fn json_of(value: &serde_json::Value) -> Json {
    match value {
        serde_json::Value::Null => Json::Null,
        serde_json::Value::Bool(b) => Json::Bool(*b),
        serde_json::Value::Number(n) => Json::Number(n.to_string()),
        serde_json::Value::String(s) => Json::Text(s.clone()),
        serde_json::Value::Array(items) => Json::Array(items.iter().map(json_of).collect()),
        serde_json::Value::Object(map) => {
            Json::Object(map.iter().map(|(k, v)| (k.clone(), json_of(v))).collect())
        }
    }
}

fn body_of(text: &str) -> String {
    let value: serde_json::Value = serde_json::from_str(text).unwrap();
    spider_body_text(&json_of(&value))
}

#[test]
fn spider_body_prefers_content_string() {
    assert_eq!(body_of(r#"{ "content": "page text" }"#), "page text");
}

#[test]
fn spider_body_concatenates_page_array() {
    let out = body_of(r#"[ { "content": "first" }, { "markdown": "second" } ]"#);
    assert!(out.contains("first"));
    assert!(out.contains("second"));
    assert_eq!(out, "first\nsecond\n");
}

#[test]
fn spider_body_falls_back_to_raw_json() {
    let out = body_of(r#"{ "unexpected": true }"#);
    assert!(out.contains("unexpected"));
    assert_eq!(out, r#"{"unexpected":true}"#);
}

#[test]
fn json_is_written_as_serde_writes_it() {
    let texts = [
        "null",
        "true",
        "false",
        "0",
        "-12",
        "18446744073709551615",
        "1.5",
        "1e300",
        "0.1234567890123456789",
        "[]",
        "{}",
        "[1,[2,[]],{}]",
        r#"{"b":[1,2.50,null,true],"a":{"k":"v","q":"\"\\/\n\t\u0001\u007f"}}"#,
        r#""\u20ac \ud83d\udd14 \b\f\r""#,
        r#"[{"":""}]"#,
    ];
    for text in texts {
        let value: serde_json::Value = serde_json::from_str(text).unwrap();
        assert_eq!(write_json(&json_of(&value)), value.to_string());
    }
}

#[test]
fn every_character_is_quoted_as_serde_quotes_it() {
    for c in '\0'..=char::MAX {
        let text = c.to_string();
        let expected = serde_json::Value::String(text.clone()).to_string();
        assert_eq!(quote_json(&text), expected);
    }
    assert_eq!(body_of("\"a bare string\""), "\"a bare string\"");
    assert_eq!(body_of("\"\""), "\"\"");
}

#[test]
fn spider_pages_take_the_first_text_they_have() {
    let out = body_of(r#"[ { "html": "h", "text": "t" }, { "x": 1 }, { "content": 5, "html": "g" } ]"#);
    assert_eq!(out, "t\ng\n");
    assert_eq!(body_of(r#"[ { "x": 1 } ]"#), r#"[{"x":1}]"#);
    assert_eq!(body_of("[]"), "[]");
}

#[test]
fn a_crawl_that_is_not_available_says_why() {
    let told = Json::Object(vec![
        ("available".into(), Json::Bool(false)),
        ("reason".into(), Json::Text("spider not installed".into())),
    ]);
    assert_eq!(refusal(&told).as_deref(), Some("spider not installed"));
    let silent = Json::Object(vec![("available".into(), Json::Bool(false))]);
    assert_eq!(refusal(&silent).as_deref(), Some("spider unavailable"));
    let fine = Json::Object(vec![("available".into(), Json::Bool(true))]);
    assert_eq!(refusal(&fine), None);
    assert_eq!(refusal(&Json::Null), None);
}
