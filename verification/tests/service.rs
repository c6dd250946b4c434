//! The HTTP surface, the settings, the store rows and the notifications.

use std::collections::HashMap;
use std::path::PathBuf;

use ryu_monitors::access::{
    bearer_ok, core_base, data_dir, default_db_path, port_setting, request_allowed, token_setting, SetOnce,
    DEFAULT_CORE_PORT, DEFAULT_PORT,
};
use ryu_monitors::api::{
    ack_alert, advance_write, advance_write_at, alerts_limit, begin_create, begin_update,
    create_monitor, default_true, delete_monitor, feed_step, fresh_monitor_id, get_monitor, health,
    judge_body, limit, listing, run_monitor, snapshots_limit, update_monitor, validate_body,
    FeedStep, MonitorBody, Received, Reply, WriteEvent, WriteState,
};
use ryu_monitors::callback::{callback_token, judge_callback, tool_result};
use ryu_monitors::json::Json;
use ryu_monitors::notify::{
    is_success, push_expo_message, send_telegram_text, send_webhook_text, telegram_alert,
    telegram_api, webhook_alert, webhook_message, HttpAnswer,
};
use ryu_monitors::schedule::{interval_is_valid, looks_like_cron, try_interval};
use ryu_monitors::store::{
    alert_row, map_alert, map_snapshot, readable_monitors, snapshot_row, status_from_str,
    status_str, stored_alert,
};
use ryu_monitors::{
    init_data_dir, Alert, AlertDeliveryTargets, CheckStatus, CheckType, FetchBackend, Monitor,
    Snapshot,
};

const NOW: &str = "2024-05-01T00:00:00+00:00";

fn body(name: &str, url: &str, interval: &str) -> MonitorBody {
    MonitorBody {
        name: name.to_string(),
        url: url.to_string(),
        backend: FetchBackend::Http,
        check: CheckType::Uptime { expect_status: vec![] },
        interval: interval.to_string(),
        enabled: true,
        notify: Vec::new(),
    }
}

fn monitor(id: &str) -> Monitor {
    Monitor {
        id: id.to_string(),
        name: "first".into(),
        url: "https://example.com".into(),
        backend: FetchBackend::Spider,
        check: CheckType::ContentDiff { region_regex: None },
        interval: "5m".into(),
        enabled: false,
        notify: vec![],
        created_at: "created".into(),
        updated_at: "updated".into(),
        last_check_at: Some("checked".into()),
        last_status: Some(CheckStatus::Error),
        last_value: Some("value".into()),
    }
}

// ---- validation ------------------------------------------------------------

#[test]
fn validate_rejects_non_http_scheme() {
    let err = validate_body(&body("n", "ftp://example.com", "5m"), true).unwrap_err();
    assert!(err.contains("http or https"));
}

#[test]
fn validate_rejects_unparseable_url() {
    assert!(validate_body(&body("n", "not a url", "5m"), true)
        .unwrap_err()
        .contains("invalid url"));
}

#[test]
fn validate_rejects_blank_name() {
    assert!(validate_body(&body("   ", "https://example.com", "5m"), true)
        .unwrap_err()
        .contains("name is required"));
}

#[test]
fn validate_rejects_bad_interval() {
    assert!(validate_body(&body("n", "https://example.com", "nonsense"), false)
        .unwrap_err()
        .contains("neither a duration"));
}

#[test]
fn validate_accepts_good_body() {
    assert!(validate_body(&body("n", "https://example.com", "5m"), true).is_ok());
}

#[test]
fn the_first_complaint_wins() {
    let bad = body(" ", "x", "y");
    assert_eq!(judge_body(&bad, Err("e".into()), false), Err("invalid url: e".into()));
    assert_eq!(judge_body(&bad, Ok("ws".into()), false), Err("url must be http or https".into()));
    assert_eq!(judge_body(&bad, Ok("http".into()), false), Err("name is required".into()));
    let named = body("n", "x", "y");
    assert_eq!(
        judge_body(&named, Ok("https".into()), false),
        Err("interval 'y' is neither a duration (e.g. 5m) nor a cron expression".into())
    );
    assert_eq!(judge_body(&named, Ok("https".into()), true), Ok(()));
    // The scheme is read in lower case.
    assert!(validate_body(&body("n", "HTTPS://example.com", "5m"), true).is_ok());
    assert_eq!(
        validate_body(&body("n", "example.com", "5m"), true),
        Err("invalid url: relative URL without a base".into())
    );
}

#[test]
fn the_interval_is_judged_last() {
    for (name, url) in [("n", "ftp://example.com"), ("n", "not a url"), (" ", "https://example.com")] {
        let refused = body(name, url, "5m");
        assert_eq!(validate_body(&refused, true), validate_body(&refused, false));
        assert!(validate_body(&refused, true).is_err());
    }
}

// ---- limits ----------------------------------------------------------------

fn query(pairs: &[(&str, &str)]) -> HashMap<String, String> {
    pairs.iter().map(|(k, v)| (k.to_string(), v.to_string())).collect()
}

#[test]
fn alerts_limit_defaults_and_caps() {
    assert_eq!(alerts_limit(&query(&[])), 100);
    assert_eq!(alerts_limit(&query(&[("limit", "5")])), 5);
    assert_eq!(alerts_limit(&query(&[("limit", "99999")])), 1000);
    assert_eq!(alerts_limit(&query(&[("limit", "abc")])), 100);
}

#[test]
fn limits_read_unsigned_numbers() {
    assert_eq!(snapshots_limit(&query(&[])), 50);
    assert_eq!(snapshots_limit(&query(&[("limit", "100000")])), 500);
    assert_eq!(snapshots_limit(&query(&[("other", "7")])), 50);
    for text in ["0", "7", "+7", "007", "4294967295", "4294967296", "-1", "", "+", " 7", "7 ", "1_0", "\u{0667}"] {
        let expected = text.parse::<u32>().unwrap_or(100).min(1000);
        assert_eq!(limit(Some(text), 100, 1000), expected, "{text:?}");
    }
    assert_eq!(limit(None, 100, 1000), 100);
}

// ---- creating and updating -------------------------------------------------

#[test]
fn create_then_get_then_delete_roundtrip() {
    let state = create_monitor(body("watch", "https://example.com", "5m"), true);
    let state = match state {
        WriteState::Save { monitor } => {
            assert!(monitor.id.starts_with("mon_"));
            assert_eq!(monitor.id.len(), 36);
            assert_eq!(monitor.created_at, monitor.updated_at);
            assert!(monitor.created_at.ends_with("+00:00"));
            assert_eq!(monitor.last_status, None);
            advance_write(WriteState::Save { monitor }, WriteEvent::Saved(Ok(())))
        }
        _ => panic!("a good body is stored"),
    };
    assert!(matches!(&state, WriteState::Schedule { monitor } if monitor.name == "watch"));
    match advance_write(state, WriteEvent::Scheduled(Ok(()))) {
        WriteState::Finished { reply } => {
            assert_eq!(reply.code(), 200);
            assert_eq!(reply.error(), None);
            assert!(matches!(reply, Reply::Monitor(m) if m.name == "watch"));
        }
        _ => panic!("the request is answered"),
    }
    assert_eq!(get_monitor(Ok(Some(monitor("mon_1")))).code(), 200);
    assert_eq!(delete_monitor(Ok(true)).code(), 200);
    assert_eq!(get_monitor(Ok(None)).code(), 404);
}

#[test]
fn create_rejects_invalid_body_with_400() {
    match create_monitor(body("n", "gopher://example.com", "5m"), true) {
        WriteState::Finished { reply } => {
            assert_eq!(reply.code(), 400);
            assert!(reply.error().unwrap().contains("http or https"));
        }
        _ => panic!("a bad body is refused"),
    }
}

#[test]
fn create_propagates_sync_failure_as_500() {
    let state = create_monitor(body("n", "https://example.com", "5m"), true);
    let state = advance_write(state, WriteEvent::Saved(Ok(())));
    match advance_write(state, WriteEvent::Scheduled(Err("sync failed".into()))) {
        WriteState::Finished { reply } => {
            assert_eq!(reply.code(), 500);
            assert_eq!(reply.error().as_deref(), Some("sync failed"));
        }
        _ => panic!("the request is answered"),
    }
}

#[test]
fn a_monitor_that_is_not_stored_is_not_scheduled() {
    let state = begin_create(body("n", "https://example.com", "5m"), Ok(()), "mon_1".into(), NOW);
    match advance_write_at(state, WriteEvent::Saved(Err("disk".into())), NOW) {
        WriteState::Finished { reply } => {
            assert_eq!(reply.code(), 500);
            assert_eq!(reply.error().as_deref(), Some("disk"));
        }
        _ => panic!("the request is answered"),
    }
}

#[test]
fn get_missing_is_404() {
    let reply = get_monitor(Ok(None));
    assert_eq!(reply.code(), 404);
    assert_eq!(reply.error().as_deref(), Some("not found"));
    assert_eq!(get_monitor(Err("e".into())).code(), 500);
}

#[test]
fn update_replaces_and_preserves_created_at() {
    let state = update_monitor("mon_1".into(), body("second", "https://example.org", "10m"), true);
    assert!(matches!(&state, WriteState::Load { id, .. } if id == "mon_1"));
    let state = advance_write_at(state, WriteEvent::Loaded(Ok(Some(monitor("mon_1")))), NOW);
    let state = advance_write_at(state, WriteEvent::Saved(Ok(())), "later");
    match advance_write_at(state, WriteEvent::Scheduled(Ok(())), "later") {
        WriteState::Finished { reply: Reply::Monitor(m) } => {
            assert_eq!(m.name, "second");
            assert_eq!(m.url, "https://example.org");
            assert_eq!(m.interval, "10m");
            assert_eq!(m.backend, FetchBackend::Http);
            assert!(m.enabled);
            assert_eq!(m.created_at, "created");
            assert_eq!(m.id, "mon_1");
            assert_eq!(m.updated_at, NOW);
            assert_eq!(m.last_check_at.as_deref(), Some("checked"));
            assert_eq!(m.last_status, Some(CheckStatus::Error));
            assert_eq!(m.last_value.as_deref(), Some("value"));
        }
        _ => panic!("the request is answered with the monitor"),
    }
}

#[test]
fn update_missing_is_404() {
    let state = update_monitor("nope".into(), body("n", "https://example.com", "5m"), true);
    match advance_write(state, WriteEvent::Loaded(Ok(None))) {
        WriteState::Finished { reply } => assert_eq!(reply.code(), 404),
        _ => panic!("the request is answered"),
    }
}

#[test]
fn update_of_an_unreadable_monitor_is_500() {
    let state = begin_update("nope".into(), body("n", "https://example.com", "5m"), Ok(()));
    match advance_write_at(state, WriteEvent::Loaded(Err("locked".into())), NOW) {
        WriteState::Finished { reply } => assert_eq!(reply.code(), 500),
        _ => panic!("the request is answered"),
    }
}

#[test]
fn update_rejects_invalid_body() {
    match update_monitor("mon_1".into(), body("", "https://example.com", "5m"), true) {
        WriteState::Finished { reply } => assert_eq!(reply.code(), 400),
        _ => panic!("a bad body is refused"),
    }
}

#[test]
fn delete_missing_is_404() {
    assert_eq!(delete_monitor(Ok(false)).code(), 404);
    assert_eq!(delete_monitor(Err("e".into())).code(), 500);
}

#[test]
fn run_missing_monitor_is_400() {
    let reply = run_monitor(Err("monitor 'nope' not found".into()));
    assert_eq!(reply.code(), 400);
    assert!(reply.error().unwrap().contains("not found"));
    assert_eq!(run_monitor(Ok(CheckStatus::Triggered)).code(), 200);
}

#[test]
fn acknowledging_says_whether_there_was_an_alert() {
    assert!(matches!(ack_alert(Ok(true)), Reply::Done));
    assert_eq!(ack_alert(Ok(false)).code(), 404);
    assert_eq!(ack_alert(Err("e".into())).error().as_deref(), Some("e"));
}

#[test]
fn lists_are_empty_where_the_store_fails() {
    assert_eq!(listing(Ok(vec![1, 2])), (vec![1, 2], None));
    assert_eq!(listing::<u8>(Err("e".into())), (vec![], Some("e".to_string())));
}

#[test]
fn health_needs_a_readable_store() {
    let well = health(Ok(vec![monitor("a"), monitor("b")]));
    assert_eq!((well.code, well.ok, well.monitor_count), (200, true, Some(2)));
    assert_eq!(well.error, None);
    let ill = health(Err("locked".into()));
    assert_eq!((ill.code, ill.ok, ill.monitor_count), (503, false, None));
    assert_eq!(ill.error.as_deref(), Some("locked"));
}

#[test]
fn fresh_ids_differ() {
    let a = fresh_monitor_id();
    let b = fresh_monitor_id();
    assert_ne!(a, b);
    assert!(a[4..].chars().all(|c| c.is_ascii_digit() || ('a'..='f').contains(&c)));
    assert!(default_true());
}

#[test]
fn the_alert_stream_is_primed_then_forwards() {
    assert!(matches!(feed_step(true, None), FeedStep::Comment("ready")));
    assert!(matches!(feed_step(false, None), FeedStep::Receive));
    assert!(matches!(feed_step(false, Some(Received::Alert("{}".into()))), FeedStep::Data(d) if d == "{}"));
    assert!(matches!(feed_step(false, Some(Received::Lagged)), FeedStep::Receive));
    assert!(matches!(feed_step(false, Some(Received::Closed)), FeedStep::End));
}

// ---- settings and the bearer check -----------------------------------------

#[test]
fn bearer_ok_matches_only_exact_nonempty_token() {
    assert!(bearer_ok(Some("secret"), Some("secret")));
    assert!(!bearer_ok(Some("secret"), Some("other")));
    assert!(!bearer_ok(Some("secre"), Some("secret")));
    assert!(!bearer_ok(None, Some("secret")));
}

#[test]
fn bearer_ok_is_fail_closed_without_expected() {
    assert!(!bearer_ok(Some("secret"), None));
    assert!(!bearer_ok(Some(""), Some("")));
    assert!(!bearer_ok(None, None));
}

#[test]
fn the_bearer_check_reads_the_header() {
    assert!(request_allowed(Some("Bearer secret"), Some("secret")));
    assert!(!request_allowed(Some("bearer secret"), Some("secret")));
    assert!(!request_allowed(Some("Bearer  secret"), Some("secret")));
    assert!(!request_allowed(Some("secret"), Some("secret")));
    assert!(!request_allowed(Some("Bear"), Some("secret")));
    assert!(!request_allowed(None, Some("secret")));
    assert!(!request_allowed(Some("Bearer "), Some("")));
    assert!(!request_allowed(Some("Bearer "), token_setting(Some("  ")).as_deref()));
}

#[test]
fn settings_fall_back_to_their_defaults() {
    assert_eq!(port_setting(None, DEFAULT_PORT), 8003);
    assert_eq!(port_setting(Some(" 9000\n"), DEFAULT_PORT), 9000);
    assert_eq!(port_setting(Some("65536"), DEFAULT_CORE_PORT), 7980);
    assert_eq!(port_setting(Some("x"), DEFAULT_CORE_PORT), 7980);
    assert_eq!(token_setting(Some(" t \t")).as_deref(), Some("t"));
    assert_eq!(token_setting(None), None);
    assert_eq!(core_base(7980), "http://127.0.0.1:7980");
}

#[test]
fn data_dir_falls_back_and_then_keeps_the_first() {
    let mut slot: SetOnce<PathBuf> = SetOnce::new();
    let temp = PathBuf::from("/temp");
    assert_eq!(data_dir(&slot, &temp), &temp);
    init_data_dir(&mut slot, PathBuf::from("/first"));
    init_data_dir(&mut slot, PathBuf::from("/second"));
    assert_eq!(data_dir(&slot, &temp), &PathBuf::from("/first"));
    let (dir, file) = default_db_path(&slot, &temp);
    assert_eq!(dir.join(file), PathBuf::from("/first/monitors.db"));
}

// ---- schedules -------------------------------------------------------------

#[test]
fn cron_sanity_accepts_five_fields_rejects_prose() {
    assert!(looks_like_cron("*/5 * * * *"));
    assert!(looks_like_cron("0 9 * * 1-5"));
    assert!(!looks_like_cron("5m"));
    assert!(!looks_like_cron("every day"));
    assert!(!looks_like_cron("* * * *")); // 4 fields
}

#[test]
fn intervals_are_durations_or_cron() {
    assert!(interval_is_valid("5m"));
    assert!(interval_is_valid("1h 30m"));
    assert!(interval_is_valid("  0,30\t9 * * 1-5\n"));
    assert!(!interval_is_valid("nonsense"));
    assert!(!interval_is_valid("a b c d e"));
    assert!(!interval_is_valid("* * * * * *"));
    assert!(!interval_is_valid(""));
}

#[test]
fn intervals_that_cannot_be_decided_are_left_open() {
    assert_eq!(try_interval("18446744073709551615s 1000000000ns"), None);
    // One part is decided whatever its digits, and so are several with numbers of a sane size.
    assert_eq!(try_interval("18446744073709551615s"), Some(true));
    assert_eq!(try_interval("18446744073709551616s"), Some(false));
    assert_eq!(try_interval("1000000000000000ns"), Some(true));
    assert_eq!(try_interval("0000000000000005m"), Some(true));
    assert_eq!(try_interval("0000000000000001h 0000000000000030m"), Some(true));
    assert_eq!(try_interval("307445734561825860.25m"), Some(true));
    assert_eq!(try_interval("499999999999ns 1s"), Some(true));
    assert_eq!(try_interval("600000000000s 1s"), Some(true));
    assert_eq!(try_interval("18446744073709551615ns 18446744073ms 5us 1s"), Some(true));
    assert_eq!(try_interval("9223372036854775807.5s 1s"), Some(true));
    assert_eq!(try_interval("99999999999999999999s 1s"), Some(false));
    assert_eq!(try_interval("500000000000y 1month 2M 3w 4d 5h 6min 7m"), Some(true));
    assert_eq!(try_interval("600000000000y 1s"), None);
    assert_eq!(try_interval("18446744073709551614s 1s"), None);
    assert_eq!(try_interval("0,5,10,15,20,25,30,35 * * * *"), Some(true));
    assert_eq!(try_interval("5m"), Some(true));
    assert_eq!(try_interval("1 5m"), Some(true));
    assert_eq!(try_interval("soon"), Some(false));
}

// ---- rows ------------------------------------------------------------------

#[test]
fn statuses_round_trip_and_unknown_words_are_okay() {
    for status in [CheckStatus::Okay, CheckStatus::Triggered, CheckStatus::Error] {
        assert_eq!(status_from_str(status_str(status)), status);
    }
    assert_eq!(status_str(CheckStatus::Okay), "ok");
    assert_eq!(status_from_str("Triggered"), CheckStatus::Okay);
}

#[test]
fn snapshots_round_trip_through_their_rows() {
    let snapshot = Snapshot {
        id: 0,
        monitor_id: "m".into(),
        checked_at: "t".into(),
        status: CheckStatus::Error,
        http_status: Some(404),
        latency_ms: Some(u64::MAX),
        value: None,
        content_hash: Some("h".into()),
        note: Some("n".into()),
    };
    let mut row = snapshot_row(&snapshot);
    assert_eq!(row.latency_ms, Some(-1));
    assert_eq!(row.status, "error");
    row.id = 12;
    let back = map_snapshot(row);
    assert_eq!(back.id, 12);
    assert_eq!(back.latency_ms, Some(u64::MAX));
    assert_eq!(back.status, CheckStatus::Error);
    assert_eq!(back.http_status, Some(404));
    assert_eq!((back.value, back.content_hash.as_deref(), back.note.as_deref()), (None, Some("h"), Some("n")));
}

#[test]
fn alerts_round_trip_through_their_rows() {
    let alert = Alert {
        id: 0,
        monitor_id: "m1".into(),
        monitor_name: "n".into(),
        created_at: "t".into(),
        title: "t".into(),
        message: "msg".into(),
        kind: "keyword".into(),
        acknowledged: false,
    };
    let stored = stored_alert(&alert, 5);
    assert_eq!(stored.id, 5);
    assert_eq!(stored.message, "msg");
    let mut row = alert_row(&alert);
    assert_eq!(row.acknowledged, 0);
    assert!(!map_alert(alert_row(&alert)).acknowledged);
    row.acknowledged = 1;
    let read = map_alert(row);
    assert!(read.acknowledged);
    assert_eq!((read.monitor_id.as_str(), read.kind.as_str()), ("m1", "keyword"));
}

#[test]
fn unreadable_monitors_are_passed_over() {
    let kept = readable_monitors(vec![Some(monitor("a")), None, Some(monitor("b")), None]);
    let ids: Vec<&str> = kept.iter().map(|m| m.id.as_str()).collect();
    assert_eq!(ids, ["a", "b"]);
}

// ---- notifications ---------------------------------------------------------

fn answer(code: u16, shown: &str) -> Result<HttpAnswer, String> {
    Ok(HttpAnswer { code, shown: shown.into() })
}

#[test]
fn alert_delivery_targets_default_is_empty() {
    let d = AlertDeliveryTargets::default();
    assert!(d.targets.is_empty());
    assert!(d.emails.is_empty());
}

#[test]
fn sends_are_fine_only_on_2xx() {
    assert_eq!(send_webhook_text(answer(200, "200 OK")), Ok(()));
    assert_eq!(send_webhook_text(answer(299, "299")), Ok(()));
    assert_eq!(
        send_webhook_text(answer(500, "500 Internal Server Error")),
        Err("webhook returned HTTP 500 Internal Server Error".into())
    );
    assert_eq!(send_webhook_text(Err("refused".into())), Err("webhook send failed: refused".into()));
    assert_eq!(
        send_telegram_text(answer(302, "302 Found")),
        Err("telegram returned HTTP 302 Found".into())
    );
    assert_eq!(send_telegram_text(Err("refused".into())), Err("telegram send failed: refused".into()));
    assert!(!is_success(199) && is_success(200) && !is_success(300));
}

#[test]
fn messages_carry_title_and_text() {
    let plain = webhook_message("hello world");
    assert_eq!((plain.text.as_str(), plain.content.as_str()), ("hello world", "hello world"));
    let alert = webhook_alert("Down!", "site is 500ing");
    assert_eq!(alert.text, "Down!\nsite is 500ing");
    assert_eq!(alert.content, "Down!\nsite is 500ing");
    assert_eq!(telegram_alert("Title", "body"), "\u{1f514} Title\nbody");
    assert_eq!(telegram_api("BOT"), "https://api.telegram.org/botBOT/sendMessage");
}

#[test]
fn pushes_are_one_per_token_and_none_without() {
    let data = Json::Object(vec![("url".into(), Json::Text("/x".into()))]);
    assert!(push_expo_message(&[], "t", "b", &data).is_none());
    let tokens = ["one".to_string(), "two".to_string()];
    let messages = push_expo_message(&tokens, "Title", "Body", &data).unwrap();
    assert_eq!(messages.len(), 2);
    assert_eq!(messages[1].to, "two");
    for message in &messages {
        assert_eq!(message.data.get_text("url").map(String::as_str), Some("/x"));
    }
    assert_eq!((messages[0].title.as_str(), messages[0].body.as_str(), messages[0].sound), ("Title", "Body", "default"));
}

// ---- callbacks -------------------------------------------------------------

#[test]
fn callbacks_need_a_token_and_a_2xx() {
    assert_eq!(callback_token(Some("t")), Ok("t"));
    assert_eq!(
        callback_token(None),
        Err("no RYU_EXT_TOKEN configured for Core callback".to_string())
    );
    let told = Json::Object(vec![("error".into(), Json::Text("denied".into()))]);
    assert_eq!(judge_callback(answer(204, "204 No Content"), &told), Ok(()));
    assert_eq!(judge_callback(answer(403, "403 Forbidden"), &told), Err("denied".into()));
    assert_eq!(
        judge_callback(answer(403, "403 Forbidden"), &Json::Null),
        Err("core callback failed: HTTP 403 Forbidden".into())
    );
    assert_eq!(
        judge_callback(Err("refused".into()), &Json::Null),
        Err("core callback not reachable: refused".into())
    );
}

#[test]
fn tool_results_are_unwrapped() {
    let wrapped = Json::Object(vec![("result".into(), Json::Text("page".into()))]);
    assert!(matches!(tool_result(&wrapped), Json::Text(s) if s == "page"));
    assert!(matches!(tool_result(&Json::Bool(true)), Json::Bool(true)));
}
