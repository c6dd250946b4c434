//! Whole runs of a monitor, answered by hand.

use ryu_monitors::callback::crawl_args;
use ryu_monitors::engine::{
    advance, advance_at, evaluate, record_check, start_run, RunEvent, RunState, Verdict,
};
use ryu_monitors::json::Json;
use ryu_monitors::model::{CheckOutcome, Fetched, PendingAlert};
use ryu_monitors::number::{Figures, Number, Previous, Reading};
use ryu_monitors::store::stored_alert;
use ryu_monitors::{
    Alert, CheckStatus, CheckType, FetchBackend, Monitor, NotifyTarget, NumComparator, Snapshot,
};

const NOW: &str = "2024-05-01T00:00:00+00:00";

fn sample_monitor(id: &str, check: CheckType) -> Monitor {
    Monitor {
        id: id.to_string(),
        name: "test".to_string(),
        url: "http://93.184.216.34/".to_string(),
        backend: FetchBackend::Spider,
        check,
        interval: "5m".to_string(),
        enabled: true,
        notify: Vec::new(),
        created_at: "c".into(),
        updated_at: "u".into(),
        last_check_at: None,
        last_status: None,
        last_value: None,
    }
}

fn keyword(pattern: &str) -> CheckType {
    CheckType::Keyword {
        pattern: pattern.into(),
        is_regex: false,
        case_sensitive: false,
        alert_when_present: true,
    }
}

fn seeded(value: &str) -> Snapshot {
    Snapshot {
        id: 3,
        monitor_id: "m".into(),
        checked_at: "t0".into(),
        status: CheckStatus::Okay,
        http_status: None,
        latency_ms: None,
        value: Some(value.into()),
        content_hash: None,
        note: None,
    }
}

/// What a finished run left behind.
struct Left {
    result: Result<CheckStatus, String>,
    snapshots: Vec<Snapshot>,
    monitors: Vec<Monitor>,
    alerts: Vec<Alert>,
    delivered: Vec<(Alert, Vec<NotifyTarget>)>,
    steps: usize,
}

/// Drive a run of `id` to its end: the store holds `monitor` and `baseline`, the crawler answers `crawl`,
/// and every write fails where `broken` says so.
fn drive(
    id: &str,
    monitor: Option<Monitor>,
    baseline: Option<Snapshot>,
    crawl: fn() -> Json,
    broken: bool,
) -> Left {
    let mut left = Left {
        result: Err("unfinished".into()),
        snapshots: vec![],
        monitors: vec![],
        alerts: vec![],
        delivered: vec![],
        steps: 0,
    };
    let mut monitor = monitor;
    let mut baseline = baseline;
    let mut state = start_run(id);
    loop {
        let event = match &state {
            RunState::Load { id: asked } => {
                assert_eq!(asked, id);
                RunEvent::Loaded(Ok(monitor.take()))
            }
            RunState::Baseline { .. } => RunEvent::Baseline(Ok(baseline.take())),
            RunState::Page { monitor, .. } => {
                assert_eq!(monitor.url, "http://93.184.216.34/");
                RunEvent::Page { result: Ok((503, "page".into())), latency_ms: 12 }
            }
            RunState::Screen { .. } => RunEvent::Screened(Ok(())),
            RunState::Crawl { monitor, .. } => {
                let args = crawl_args(monitor);
                assert_eq!((args.url.as_str(), args.depth, args.limit), ("http://93.184.216.34/", 0, 1));
                RunEvent::Crawled { result: Ok(crawl()), latency_ms: 8 }
            }
            RunState::Measure { .. } => RunEvent::Measured(None),
            RunState::SaveSnapshot { record } => {
                left.snapshots.push(record.snapshot.clone());
                RunEvent::SnapshotSaved(if broken { Err("disk".into()) } else { Ok(9) })
            }
            RunState::SaveMonitor { record } => {
                left.monitors.push(record.monitor.clone());
                RunEvent::MonitorSaved(if broken { Err("disk".into()) } else { Ok(()) })
            }
            RunState::SaveAlert { alert, .. } => {
                left.alerts.push(alert.clone());
                RunEvent::AlertSaved(if broken {
                    Err("disk".into())
                } else {
                    Ok(stored_alert(alert, 41))
                })
            }
            RunState::Deliver { alert, targets, .. } => {
                left.delivered.push((alert.clone(), targets.clone()));
                RunEvent::Delivered
            }
            RunState::Finished { .. } => break,
        };
        left.steps += 1;
        state = advance_at(state, event, NOW);
    }
    if let RunState::Finished { result } = state {
        left.result = result;
    }
    left
}

fn on_sale() -> Json {
    Json::Object(vec![("content".into(), Json::Text("Tickets are now ON SALE".into()))])
}

fn still_on_sale() -> Json {
    Json::Object(vec![("content".into(), Json::Text("ON SALE".into()))])
}

fn greeting() -> Json {
    Json::Object(vec![("content".into(), Json::Text("hi".into()))])
}

fn wordless() -> Json {
    Json::Object(vec![("n".into(), Json::Number("1".into())), ("t".into(), Json::Bool(true))])
}

fn unavailable() -> Json {
    Json::Object(vec![
        ("available".into(), Json::Bool(false)),
        ("reason".into(), Json::Text("spider not installed".into())),
    ])
}

#[test]
fn run_monitor_missing_id_errors() {
    let left = drive("nope", None, None, on_sale, false);
    let err = left.result.unwrap_err();
    assert!(err.contains("not found"));
    assert_eq!(err, "monitor 'nope' not found");
    assert!(left.snapshots.is_empty() && left.monitors.is_empty() && left.alerts.is_empty());
}

#[test]
fn run_monitor_fires_alert_and_delivers() {
    let monitor = sample_monitor("mon_run", keyword("on sale"));
    let left = drive("mon_run", Some(monitor), Some(seeded("absent")), on_sale, false);
    assert_eq!(left.result, Ok(CheckStatus::Triggered));
    assert_eq!(left.alerts.len(), 1);
    assert_eq!(left.alerts[0].kind, "keyword");
    assert_eq!(left.alerts[0].created_at, NOW);
    // The stored alert is delivered.
    assert_eq!(left.delivered.len(), 1);
    assert_eq!(left.delivered[0].0.id, 41);
    let updated = &left.monitors[0];
    assert_eq!(updated.last_status, Some(CheckStatus::Triggered));
    assert_eq!(updated.last_value.as_deref(), Some("present"));
    assert_eq!(updated.last_check_at.as_deref(), Some(NOW));
    assert_eq!(updated.updated_at, NOW);
    assert_eq!(updated.created_at, "c");
    assert_eq!(left.snapshots[0].latency_ms, Some(8));
    assert_eq!(left.steps, 8);
}

#[test]
fn run_monitor_no_transition_no_alert() {
    let monitor = sample_monitor("mon_same", keyword("on sale"));
    let mut baseline = seeded("present");
    baseline.status = CheckStatus::Triggered;
    let left = drive("mon_same", Some(monitor), Some(baseline), still_on_sale, false);
    assert_eq!(left.result, Ok(CheckStatus::Okay));
    assert!(left.delivered.is_empty());
    assert!(left.alerts.is_empty());
}

#[test]
fn run_monitor_agentbrowser_backend_records_error() {
    let mut monitor = sample_monitor("mon_ab", keyword("x"));
    monitor.backend = FetchBackend::Agentbrowser;
    let left = drive("mon_ab", Some(monitor), None, on_sale, false);
    assert_eq!(left.result, Ok(CheckStatus::Error));
    assert_eq!(left.snapshots.len(), 1);
    assert_eq!(left.snapshots[0].status, CheckStatus::Error);
    assert!(left.snapshots[0].note.as_ref().unwrap().contains("agentbrowser"));
}

#[test]
fn run_monitor_spider_unavailable_is_error() {
    let monitor = sample_monitor("mon_unavail", CheckType::ContentDiff { region_regex: None });
    let left = drive("mon_unavail", Some(monitor), None, unavailable, false);
    assert_eq!(left.result, Ok(CheckStatus::Error));
    assert!(left.snapshots[0].note.as_ref().unwrap().contains("spider not installed"));
}

#[test]
fn run_monitor_uptime_via_spider_marks_down() {
    let monitor = sample_monitor("mon_up", CheckType::Uptime { expect_status: vec![] });
    let mut baseline = seeded("up");
    baseline.http_status = Some(200);
    baseline.latency_ms = Some(1);
    let left = drive("mon_up", Some(monitor), Some(baseline), greeting, false);
    assert_eq!(left.result, Ok(CheckStatus::Triggered));
    assert_eq!(left.delivered[0].0.kind, "uptime_down");
}

#[test]
fn alerts_go_to_the_targets_of_the_monitor() {
    let mut monitor = sample_monitor("mon", keyword("on sale"));
    monitor.notify = vec![NotifyTarget::Email { to: "a@b.co".into() }];
    let left = drive("mon", Some(monitor), None, on_sale, false);
    assert_eq!(left.delivered[0].1, vec![NotifyTarget::Email { to: "a@b.co".into() }]);
}

#[test]
fn a_crawl_without_page_text_is_searched_as_json() {
    let monitor = sample_monitor("mon", keyword(r#"{"n":1,"t":true}"#));
    let left = drive("mon", Some(monitor), None, wordless, false);
    assert_eq!(left.snapshots[0].value.as_deref(), Some("present"));
}

#[test]
fn run_over_http_keeps_the_code() {
    let mut monitor = sample_monitor("mon_http", CheckType::Uptime { expect_status: vec![] });
    monitor.backend = FetchBackend::Http;
    let left = drive("mon", Some(monitor), Some(seeded("up")), on_sale, false);
    assert_eq!(left.result, Ok(CheckStatus::Triggered));
    assert_eq!(left.snapshots[0].http_status, Some(503));
    assert_eq!(left.snapshots[0].latency_ms, Some(12));
    assert_eq!(left.alerts[0].message, "Unexpected HTTP 503.");
}

#[test]
fn failed_writes_do_not_stop_a_run() {
    let monitor = sample_monitor("mon_disk", keyword("on sale"));
    let left = drive("mon", Some(monitor), None, on_sale, true);
    assert_eq!(left.result, Ok(CheckStatus::Triggered));
    assert_eq!((left.snapshots.len(), left.monitors.len(), left.alerts.len()), (1, 1, 1));
    assert!(left.delivered.is_empty());
}

#[test]
fn a_price_that_is_no_number_is_recorded_as_an_error() {
    let check = CheckType::Price {
        extract_regex: "now (ON)".into(),
        comparator: NumComparator::Changed,
        threshold: None,
    };
    let left = drive("mon", Some(sample_monitor("mon_price", check)), None, on_sale, false);
    assert_eq!(left.result, Ok(CheckStatus::Error));
    assert_eq!(left.snapshots[0].value.as_deref(), Some("ON"));
    assert_eq!(
        left.snapshots[0].note.as_deref(),
        Some("could not parse a number from the match")
    );
    assert_eq!(left.steps, 7);
}

#[test]
fn a_measured_price_is_compared() {
    let check = CheckType::Price {
        extract_regex: r"\$([0-9.,]+)".into(),
        comparator: NumComparator::GreaterThan,
        threshold: Some(Number { bits: 100f64.to_bits() }),
    };
    let fetched = Fetched { http_status: Some(200), latency_ms: 1, body: "$1,200".into() };
    let (fetched, texts) = match evaluate(&check, Ok(fetched), Some(&seeded("$90"))) {
        Verdict::Measure { fetched, texts } => (fetched, texts),
        Verdict::Outcome(_) => panic!("the numbers have to be read first"),
    };
    assert_eq!(texts.raw, "1,200");
    assert_eq!(texts.value, "1200");
    assert_eq!(texts.previous.as_deref(), Some("90"));
    let shown = |n: f64, s: &str| Reading { number: Number { bits: n.to_bits() }, shown: s.into() };
    let figures = Figures {
        value: shown(1200.0, "1200"),
        reread: Some(Number { bits: 1200f64.to_bits() }),
        previous: Some(Previous {
            reading: shown(90.0, "90"),
            distance: Number { bits: 1110f64.to_bits() },
            drop_pct: shown(-1233.3, "-1233.3"),
            rise_pct: shown(1233.3, "1233.3"),
        }),
        threshold_shown: "100".into(),
    };
    let state = RunState::Measure { monitor: sample_monitor("m", check), fetched, texts };
    match advance_at(state, RunEvent::Measured(Some(figures)), NOW) {
        RunState::SaveSnapshot { record } => {
            assert_eq!(record.status, CheckStatus::Triggered);
            assert_eq!(record.snapshot.value.as_deref(), Some("1200"));
            assert_eq!(record.alert.unwrap().message, "Now 1200 (above 100).");
        }
        _ => panic!("the outcome is recorded"),
    }
}

#[test]
fn fetch_failures_are_recorded_with_their_reason() {
    let monitor = || sample_monitor("m", keyword("x"));
    let note = |state: RunState| match state {
        RunState::SaveSnapshot { record } => {
            assert_eq!(record.status, CheckStatus::Error);
            assert!(record.alert.is_none());
            record.snapshot.note.unwrap()
        }
        _ => panic!("a failed fetch is recorded"),
    };
    let page = RunState::Page { monitor: monitor(), prev: None };
    let event = RunEvent::Page { result: Err("blocked".into()), latency_ms: 1 };
    assert_eq!(note(advance_at(page, event, NOW)), "blocked");
    let screen = RunState::Screen { monitor: monitor(), prev: None };
    assert_eq!(note(advance_at(screen, RunEvent::Screened(Err("private".into())), NOW)), "private");
    let crawl = RunState::Crawl { monitor: monitor(), prev: None };
    let event = RunEvent::Crawled { result: Err("offline".into()), latency_ms: 1 };
    assert_eq!(note(advance_at(crawl, event, NOW)), "spider crawl failed: offline");
}

#[test]
fn a_store_that_cannot_be_read_ends_the_run_but_a_lost_baseline_does_not() {
    match advance_at(start_run("m"), RunEvent::Loaded(Err("locked".into())), NOW) {
        RunState::Finished { result } => assert_eq!(result, Err("locked".to_string())),
        _ => panic!("the run ends"),
    }
    let state = RunState::Baseline { monitor: sample_monitor("m", keyword("x")) };
    match advance_at(state, RunEvent::Baseline(Err("locked".into())), NOW) {
        RunState::Screen { prev, .. } => assert!(prev.is_none()),
        _ => panic!("the run goes on without a baseline"),
    }
}

#[test]
fn an_answer_that_was_not_asked_for_changes_nothing() {
    let state = advance_at(start_run("m"), RunEvent::Delivered, NOW);
    assert!(matches!(state, RunState::Load { id } if id == "m"));
}

#[test]
fn advance_records_the_present_time() {
    let mut monitor = sample_monitor("m", keyword("x"));
    monitor.backend = FetchBackend::Agentbrowser;
    match advance(RunState::Baseline { monitor }, RunEvent::Baseline(Ok(None))) {
        RunState::SaveSnapshot { record } => {
            let now = record.snapshot.checked_at;
            assert!(now.len() >= 25);
            assert!(now.ends_with("+00:00"));
            assert_eq!(record.monitor.last_check_at.as_deref(), Some(now.as_str()));
        }
        _ => panic!("the failed fetch is recorded"),
    }
}

#[test]
fn a_record_repeats_the_outcome() {
    let outcome = CheckOutcome {
        status: CheckStatus::Triggered,
        http_status: Some(200),
        latency_ms: Some(4),
        value: Some("v".into()),
        content_hash: Some("h".into()),
        note: None,
        alert: Some(PendingAlert { title: "t".into(), message: "m".into(), kind: "price" }),
    };
    let record = record_check(sample_monitor("mon_1", keyword("x")), outcome, NOW);
    assert_eq!(record.snapshot.id, 0);
    assert_eq!(record.snapshot.monitor_id, "mon_1");
    assert_eq!(record.snapshot.content_hash.as_deref(), Some("h"));
    assert_eq!(record.monitor.last_value.as_deref(), Some("v"));
    let alert = record.alert.unwrap();
    assert_eq!((alert.id, alert.monitor_id.as_str(), alert.monitor_name.as_str()), (0, "mon_1", "test"));
    assert_eq!((alert.title.as_str(), alert.message.as_str(), alert.kind.as_str()), ("t", "m", "price"));
    assert!(!alert.acknowledged);
}
