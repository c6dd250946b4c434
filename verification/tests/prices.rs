//! Price checks: the numbers are read with the floating-point arithmetic of the application.

use ryu_monitors::check::{capture_price, number_text, price_alert as raise};
use ryu_monitors::model::{CheckOutcome, Fetched};
use ryu_monitors::number::{Figures, Number, Previous, Reading};
use ryu_monitors::{CheckStatus, NumComparator, Snapshot};

fn number(n: f64) -> Number {
    Number { bits: n.to_bits() }
}

fn parse_number(raw: &str) -> Option<f64> {
    number_text(raw).parse::<f64>().ok()
}

fn format_number(n: f64) -> String {
    if n.fract() == 0.0 {
        format!("{}", n as i64)
    } else {
        format!("{n:.2}")
    }
}

fn reading(n: f64) -> Reading {
    Reading { number: number(n), shown: format_number(n) }
}

fn percentage(n: f64) -> Reading {
    Reading { number: number(n), shown: format!("{n:.1}") }
}

fn figures(value: f64, previous: Option<f64>, threshold: Option<f64>) -> Figures {
    Figures {
        value: reading(value),
        reread: parse_number(&format_number(value)).map(number),
        previous: previous.map(|p| Previous {
            reading: reading(p),
            distance: number((p - value).abs()),
            drop_pct: percentage((p - value) / p * 100.0),
            rise_pct: percentage((value - p) / p * 100.0),
        }),
        threshold_shown: threshold.map(format_number).unwrap_or_default(),
    }
}

fn price_alert(
    comparator: NumComparator,
    threshold: Option<f64>,
    value: f64,
    prev: Option<f64>,
) -> Option<String> {
    raise(comparator, threshold.map(number), &figures(value, prev, threshold))
}

fn eval_price(
    fetched: &Fetched,
    extract_regex: &str,
    comparator: NumComparator,
    threshold: Option<f64>,
    prev: Option<&Snapshot>,
) -> CheckOutcome {
    let texts = match capture_price(fetched, extract_regex, prev) {
        Ok(texts) => texts,
        Err(outcome) => return outcome,
    };
    let previous = texts.previous.as_deref().and_then(|p| p.parse::<f64>().ok());
    let read = texts.value.parse::<f64>().ok().map(|v| figures(v, previous, threshold));
    ryu_monitors::check::eval_price(fetched, comparator, threshold.map(number), texts, read)
}

fn snap(value: &str) -> Snapshot {
    Snapshot {
        id: 1,
        monitor_id: "m".into(),
        checked_at: "now".into(),
        status: CheckStatus::Okay,
        http_status: Some(200),
        latency_ms: Some(1),
        value: Some(value.into()),
        content_hash: None,
        note: None,
    }
}

fn page(body: &str) -> Fetched {
    Fetched { http_status: Some(200), latency_ms: 1, body: body.into() }
}

#[test]
fn price_drop_below_threshold() {
    let out = eval_price(
        &page("Price: $42.50"),
        r"\$([0-9.,]+)",
        NumComparator::LessThan,
        Some(50.0),
        Some(&snap("60")),
    );
    assert_eq!(out.status, CheckStatus::Triggered);
    assert_eq!(out.value.as_deref(), Some("42.50"));
    let alert = out.alert.unwrap();
    assert_eq!(alert.title, "Price change");
    assert_eq!(alert.message, "Now 42.50 (below 50).");
    assert_eq!(alert.kind, "price");
}

#[test]
fn price_pct_drop() {
    let out = eval_price(
        &page("80"),
        r"([0-9.]+)",
        NumComparator::DropsByPct,
        Some(10.0),
        Some(&snap("100")),
    );
    assert_eq!(out.status, CheckStatus::Triggered);
    assert_eq!(out.alert.unwrap().message, "Dropped 20.0% (from 100 to 80).");
}

#[test]
fn parse_number_strips_currency() {
    assert_eq!(parse_number("$1,299.00"), Some(1299.00));
    assert_eq!(parse_number("Price 42"), Some(42.0));
}

#[test]
fn parse_number_rejects_non_numeric_and_negative() {
    assert_eq!(parse_number("out of stock"), None);
    assert_eq!(parse_number(""), None);
    assert_eq!(parse_number("-5"), Some(-5.0));
}

#[test]
fn number_texts_keep_digits_dots_and_minus() {
    assert_eq!(number_text("\u{20ac} 1.234,50-"), "1.23450-");
    assert_eq!(number_text("1e5"), "15");
    assert_eq!(number_text("\u{0663}"), "");
}

#[test]
fn price_regex_no_match_is_error() {
    let out = eval_price(&page("no price here"), r"\$([0-9.]+)", NumComparator::Changed, None, None);
    assert_eq!(out.status, CheckStatus::Error);
    assert_eq!(out.note.as_deref(), Some(r"price regex '\$([0-9.]+)' did not match"));
    assert!(out.note.unwrap().contains("did not match"));
    assert_eq!(out.value, None);
    assert_eq!(out.http_status, Some(200));
}

#[test]
fn price_unparseable_capture_is_error() {
    let out = eval_price(
        &page("Price: N/A"),
        r"Price: (.+)",
        NumComparator::Changed,
        None,
        Some(&snap("10")),
    );
    assert_eq!(out.status, CheckStatus::Error);
    assert_eq!(out.value.as_deref(), Some("N/A"));
    assert!(out.note.unwrap().contains("could not parse"));
}

#[test]
fn price_alert_changed_only_on_difference() {
    assert!(price_alert(NumComparator::Changed, None, 10.0, Some(10.0)).is_none());
    assert!(price_alert(NumComparator::Changed, None, 11.0, Some(10.0)).is_some());
    // No prior value => no baseline to compare against.
    assert!(price_alert(NumComparator::Changed, None, 11.0, None).is_none());
}

#[test]
fn price_alert_greater_than_crosses_once() {
    assert!(price_alert(NumComparator::GreaterThan, Some(100.0), 120.0, Some(90.0)).is_some());
    assert!(price_alert(NumComparator::GreaterThan, Some(100.0), 120.0, Some(110.0)).is_none());
    assert!(price_alert(NumComparator::GreaterThan, None, 120.0, Some(90.0)).is_none());
}

#[test]
fn price_alert_less_than_first_check_crosses() {
    assert!(price_alert(NumComparator::LessThan, Some(50.0), 40.0, None).is_some());
    assert!(price_alert(NumComparator::LessThan, Some(50.0), 60.0, None).is_none());
}

#[test]
fn price_alert_rises_by_pct() {
    assert!(price_alert(NumComparator::RisesByPct, Some(10.0), 120.0, Some(100.0)).is_some());
    assert!(price_alert(NumComparator::RisesByPct, Some(10.0), 105.0, Some(100.0)).is_none());
    assert!(price_alert(NumComparator::RisesByPct, Some(10.0), 120.0, None).is_none());
}

#[test]
fn price_alert_drops_by_pct_guards_zero_baseline() {
    assert!(price_alert(NumComparator::DropsByPct, Some(10.0), 5.0, Some(0.0)).is_none());
}

#[test]
fn price_alert_messages_are_exact() {
    assert_eq!(
        price_alert(NumComparator::Changed, None, 11.5, Some(10.0)).as_deref(),
        Some("Changed from 10 to 11.50.")
    );
    assert_eq!(
        price_alert(NumComparator::LessThan, Some(50.0), 40.0, Some(50.0)).as_deref(),
        Some("Now 40 (below 50).")
    );
    assert_eq!(
        price_alert(NumComparator::GreaterThan, Some(50.0), 60.0, Some(50.0)).as_deref(),
        Some("Now 60 (above 50).")
    );
    assert_eq!(
        price_alert(NumComparator::RisesByPct, Some(10.0), 125.0, Some(100.0)).as_deref(),
        Some("Rose 25.0% (from 100 to 125).")
    );
    // A base that is not above zero counts as a change of nothing.
    assert_eq!(
        price_alert(NumComparator::DropsByPct, Some(-1.0), 5.0, Some(-5.0)).as_deref(),
        Some("Dropped 0.0% (from -5 to 5).")
    );
}

#[test]
fn price_change_of_one_epsilon_is_none() {
    let next = 1.0 + f64::EPSILON;
    assert!(price_alert(NumComparator::Changed, None, next, Some(1.0)).is_none());
    assert!(price_alert(NumComparator::Changed, None, 1.0 + 2.0 * f64::EPSILON, Some(1.0)).is_some());
}

#[test]
fn an_unchanged_price_is_silent_however_many_decimals_it_has() {
    let pages = ["$1.234", "$42.50", "$1,299.00", "$0.001", "$-7", "$123456789012345678901234567890", "$0.1"];
    for text in pages {
        for comparator in [NumComparator::Changed, NumComparator::LessThan, NumComparator::GreaterThan] {
            let first = eval_price(&page(text), r"\$(.+)", comparator, Some(10.0), None);
            assert_ne!(first.status, CheckStatus::Error);
            let again = format!("{text} EUR");
            let prev = snap(first.value.as_deref().unwrap());
            let second = eval_price(&page(&again), r"\$(.+)", comparator, Some(10.0), Some(&prev));
            assert!(second.alert.is_none(), "{text} {comparator:?}");
            assert_eq!(
                parse_number(first.value.as_deref().unwrap()),
                parse_number(text),
                "{text} is recorded as it reads"
            );
        }
    }
}

#[test]
fn a_price_is_recorded_in_short_where_that_reads_back() {
    let recorded = |text: &str| {
        eval_price(&page(text), r"\$(.+)", NumComparator::Changed, None, None).value.unwrap()
    };
    assert_eq!(recorded("$42.5"), "42.50");
    assert_eq!(recorded("$1,299.00"), "1299");
    assert_eq!(recorded("$1.234"), "1.234");
    assert_eq!(recorded("$100000000000000000000"), "100000000000000000000");
}

#[test]
fn a_change_behind_the_second_decimal_alerts_once() {
    let first = eval_price(&page("$1.234"), r"\$(.+)", NumComparator::Changed, None, None);
    let prev = snap(first.value.as_deref().unwrap());
    let second = eval_price(&page("$1.239"), r"\$(.+)", NumComparator::Changed, None, Some(&prev));
    assert_eq!(second.status, CheckStatus::Triggered);
    let prev = snap(second.value.as_deref().unwrap());
    let third = eval_price(&page("$1.239"), r"\$(.+)", NumComparator::Changed, None, Some(&prev));
    assert_eq!(third.status, CheckStatus::Okay);
}

#[test]
fn printed_cents_read_back_and_symbols_are_not_seen() {
    for k in [-1_000_000_000_000i64, -12345, -500, -1, 0, 1, 99, 100, 4250, 129900, 999_999_999_999] {
        let n = k as f64 / 100.0;
        let shown = format_number(n);
        assert_eq!(parse_number(&shown), Some(n));
        for c in ["$", "USD ", ",", "\u{20ac}"] {
            assert_eq!(parse_number(&format!("{c}{shown}")), Some(n));
            assert_eq!(parse_number(&format!("{shown}{c}")), Some(n));
        }
    }
}

#[test]
fn number_order_is_that_of_doubles() {
    let some = [
        f64::NEG_INFINITY,
        f64::MIN,
        -1.5,
        -f64::MIN_POSITIVE,
        -5e-324,
        -0.0,
        0.0,
        5e-324,
        f64::MIN_POSITIVE,
        f64::EPSILON,
        1.0,
        1.5,
        f64::MAX,
        f64::INFINITY,
        f64::NAN,
        -f64::NAN,
    ];
    for a in some {
        for b in some {
            assert_eq!(number(a).lt(number(b)), a < b, "{a} < {b}");
            assert_eq!(number(a).le(number(b)), a <= b, "{a} <= {b}");
        }
    }
    assert_eq!(ryu_monitors::number::EPSILON_BITS, f64::EPSILON.to_bits());
}
