//! One run of a monitor, as a machine: each state says what is to be done next, and the answer
//! moves the run to the next state.

use vstd::prelude::*;

use crate::boundary::now_rfc3339;
use crate::check::{
    capture_price, eval_content_diff, eval_keyword, eval_price, eval_stock, eval_uptime, PriceTexts,
    PriceTextsView,
};
use crate::json::{refusal, spider_body_text, Json};
use crate::model::{
    Alert, AlertView, CheckOutcome, CheckStatus, CheckType, FetchBackend, Fetched, FetchedView,
    Monitor, MonitorView, NumComparator, OutcomeView, Snapshot, SnapshotView,
};
use crate::notify::NotifyTarget;
use crate::number::{Figures, Number};

verus! {

// ---- evaluation -----------------------------------------------------------

/// What a check comes to: an outcome, or numbers that have to be read first.
pub enum Verdict {
    Outcome(CheckOutcome),
    Measure { fetched: Fetched, texts: PriceTexts },
}

/// What a verdict says.
pub enum VerdictView {
    Outcome(OutcomeView),
    Measure { fetched: FetchedView, texts: PriceTextsView },
}

impl View for Verdict {
    type V = VerdictView;

    open spec fn view(&self) -> VerdictView {
        match self {
            Verdict::Outcome(outcome) => VerdictView::Outcome(outcome@),
            Verdict::Measure { fetched, texts } => VerdictView::Measure {
                fetched: fetched@,
                texts: texts@,
            },
        }
    }
}

/// The outcome of a check whose page could not be fetched.
pub open spec fn unfetched(e: Seq<char>) -> OutcomeView {
    OutcomeView {
        status: CheckStatus::Error,
        http_status: None,
        latency_ms: None,
        value: None,
        content_hash: None,
        note: Some(e),
        alert: None,
    }
}

/// What a check says of a page, or of a failed fetch.
pub open spec fn verdict_on(
    check: CheckType,
    fetched: Result<FetchedView, Seq<char>>,
    prev: Option<SnapshotView>,
) -> VerdictView {
    match (check, fetched) {
        (CheckType::Uptime { expect_status }, _) => VerdictView::Outcome(
            crate::check::uptime_outcome(fetched, expect_status@, prev),
        ),
        (_, Err(e)) => VerdictView::Outcome(unfetched(e)),
        (
            CheckType::Keyword { pattern, is_regex, case_sensitive, alert_when_present },
            Ok(f),
        ) => VerdictView::Outcome(
            crate::check::keyword_outcome(
                f,
                pattern@,
                crate::check::pattern_found(f.body, pattern@, is_regex, case_sensitive),
                alert_when_present,
                prev,
            ),
        ),
        (CheckType::ContentDiff { region_regex }, Ok(f)) => {
            let watched = crate::check::watched_text(f.body, region_regex.deep_view());
            VerdictView::Outcome(
                crate::check::content_outcome(
                    f,
                    vstd::utf8::encode_utf8(watched).len(),
                    crate::check::text_hash(watched),
                    prev,
                ),
            )
        },
        (CheckType::Price { extract_regex, .. }, Ok(f)) => match crate::check::captured(
            f.body,
            extract_regex@,
        ) {
            Some(raw) => VerdictView::Measure {
                fetched: f,
                texts: crate::check::price_texts(raw, prev),
            },
            None => VerdictView::Outcome(crate::check::no_price(f, extract_regex@)),
        },
        (
            CheckType::Stock { in_stock_pattern, is_regex, alert_when_in_stock },
            Ok(f),
        ) => VerdictView::Outcome(
            crate::check::stock_outcome(
                f,
                crate::check::pattern_found(f.body, in_stock_pattern@, is_regex, false),
                alert_when_in_stock,
                prev,
            ),
        ),
    }
}

/// Run the check logic against a freshly-fetched page (or a fetch failure).
pub fn evaluate(
    check: &CheckType,
    fetched: Result<Fetched, String>,
    prev: Option<&Snapshot>,
) -> (r: Verdict)
    ensures
        r@ == verdict_on(*check, crate::check::attempt(fetched), prev.deep_view()),
{
    // Uptime is special: a fetch failure is the signal, so it handles the error itself.
    if let CheckType::Uptime { expect_status } = check {
        return Verdict::Outcome(eval_uptime(fetched, expect_status.as_slice(), prev));
    }
    let fetched = match fetched {
        Ok(f) => f,
        Err(e) => {
            return Verdict::Outcome(
                CheckOutcome {
                    status: CheckStatus::Error,
                    http_status: None,
                    latency_ms: None,
                    value: None,
                    content_hash: None,
                    note: Some(e),
                    alert: None,
                },
            );
        },
    };
    match check {
        CheckType::Uptime { expect_status } => Verdict::Outcome(
            eval_uptime(Ok(fetched), expect_status.as_slice(), prev),
        ),
        CheckType::Keyword { pattern, is_regex, case_sensitive, alert_when_present } => {
            Verdict::Outcome(
                eval_keyword(
                    &fetched,
                    pattern.as_str(),
                    *is_regex,
                    *case_sensitive,
                    *alert_when_present,
                    prev,
                ),
            )
        },
        CheckType::ContentDiff { region_regex } => {
            let region = match region_regex {
                Some(re) => Some(re.as_str()),
                None => None,
            };
            Verdict::Outcome(eval_content_diff(&fetched, region, prev))
        },
        CheckType::Price { extract_regex, comparator: _, threshold: _ } => {
            match capture_price(&fetched, extract_regex.as_str(), prev) {
                Ok(texts) => Verdict::Measure { fetched, texts },
                Err(outcome) => Verdict::Outcome(outcome),
            }
        },
        CheckType::Stock { in_stock_pattern, is_regex, alert_when_in_stock } => Verdict::Outcome(
            eval_stock(
                &fetched,
                in_stock_pattern.as_str(),
                *is_regex,
                *alert_when_in_stock,
                prev,
            ),
        ),
    }
}

// ---- what a run records ---------------------------------------------------

/// What a finished check leaves behind.
pub struct CheckRecord {
    /// The snapshot to store.
    pub snapshot: Snapshot,
    /// The monitor with its rollup brought up to date.
    pub monitor: Monitor,
    /// The alert to store and deliver, where the check raised one.
    pub alert: Option<Alert>,
    pub status: CheckStatus,
}

/// What a record holds.
pub struct RecordView {
    pub snapshot: SnapshotView,
    pub monitor: MonitorView,
    pub alert: Option<AlertView>,
    pub status: CheckStatus,
}

impl View for CheckRecord {
    type V = RecordView;

    open spec fn view(&self) -> RecordView {
        RecordView {
            snapshot: self.snapshot@,
            monitor: self.monitor@,
            alert: match self.alert {
                Some(alert) => Some(alert@),
                None => None,
            },
            status: self.status,
        }
    }
}

/// The snapshot that an outcome is recorded as.
pub open spec fn snapshot_of(
    monitor_id: Seq<char>,
    outcome: OutcomeView,
    now: Seq<char>,
) -> SnapshotView {
    SnapshotView {
        id: 0,
        monitor_id,
        checked_at: now,
        status: outcome.status,
        http_status: outcome.http_status,
        latency_ms: outcome.latency_ms,
        value: outcome.value,
        content_hash: outcome.content_hash,
        note: outcome.note,
    }
}

/// The record of an outcome: the snapshot, the rollup on the monitor, and the alert.
pub open spec fn record_of(monitor: MonitorView, outcome: OutcomeView, now: Seq<char>) -> RecordView {
    RecordView {
        snapshot: snapshot_of(monitor.id, outcome, now),
        monitor: MonitorView {
            last_check_at: Some(now),
            last_status: Some(outcome.status),
            last_value: outcome.value,
            updated_at: now,
            ..monitor
        },
        alert: match outcome.alert {
            Some(pending) => Some(
                AlertView {
                    id: 0,
                    monitor_id: monitor.id,
                    monitor_name: monitor.name,
                    created_at: now,
                    title: pending.title,
                    message: pending.message,
                    kind: pending.kind,
                    acknowledged: false,
                },
            ),
            None => None,
        },
        status: outcome.status,
    }
}

/// Record what a check produced.
pub fn record_check(monitor: Monitor, outcome: CheckOutcome, now: &str) -> (r: CheckRecord)
    ensures
        r@ == record_of(monitor@, outcome@, now@),
{
    let snapshot = Snapshot {
        id: 0,
        monitor_id: monitor.id.clone(),
        checked_at: now.to_string(),
        status: outcome.status,
        http_status: outcome.http_status,
        latency_ms: outcome.latency_ms,
        value: outcome.value.clone(),
        content_hash: outcome.content_hash,
        note: outcome.note,
    };
    let alert = match outcome.alert {
        Some(pending) => Some(
            Alert {
                id: 0,
                monitor_id: monitor.id.clone(),
                monitor_name: monitor.name.clone(),
                created_at: now.to_string(),
                title: pending.title,
                message: pending.message,
                kind: pending.kind.to_string(),
                acknowledged: false,
            },
        ),
        None => None,
    };
    let mut monitor = monitor;
    monitor.last_check_at = Some(now.to_string());
    monitor.last_status = Some(outcome.status);
    monitor.last_value = outcome.value;
    monitor.updated_at = now.to_string();
    CheckRecord { snapshot, monitor, alert, status: outcome.status }
}

// ---- the run --------------------------------------------------------------

/// How far a run has come, and with that what has to be done next.
pub enum RunState {
    /// Load the monitor with this id.
    Load { id: String },
    /// Load the latest snapshot of the monitor.
    Baseline { monitor: Monitor },
    /// Fetch the monitor's URL over plain HTTP, guarded.
    Page { monitor: Monitor, prev: Option<Snapshot> },
    /// Screen the monitor's URL before a crawl.
    Screen { monitor: Monitor, prev: Option<Snapshot> },
    /// Crawl the monitor's URL: one page, no depth.
    Crawl { monitor: Monitor, prev: Option<Snapshot> },
    /// Read the texts as numbers and compare them.
    Measure { monitor: Monitor, fetched: Fetched, texts: PriceTexts },
    /// Store the snapshot of the record.
    SaveSnapshot { record: CheckRecord },
    /// Store the monitor of the record.
    SaveMonitor { record: CheckRecord },
    /// Store the alert.
    SaveAlert { alert: Alert, targets: Vec<NotifyTarget>, status: CheckStatus },
    /// Deliver the stored alert to the targets.
    Deliver { alert: Alert, targets: Vec<NotifyTarget>, status: CheckStatus },
    /// Nothing is left to do.
    Finished { result: Result<CheckStatus, String> },
}

/// What a run is at.
pub enum RunView {
    Load { id: Seq<char> },
    Baseline { monitor: MonitorView },
    Page { monitor: MonitorView, prev: Option<SnapshotView> },
    Screen { monitor: MonitorView, prev: Option<SnapshotView> },
    Crawl { monitor: MonitorView, prev: Option<SnapshotView> },
    Measure { monitor: MonitorView, fetched: FetchedView, texts: PriceTextsView },
    SaveSnapshot { record: RecordView },
    SaveMonitor { record: RecordView },
    SaveAlert { alert: AlertView, targets: Seq<NotifyTarget>, status: CheckStatus },
    Deliver { alert: AlertView, targets: Seq<NotifyTarget>, status: CheckStatus },
    Finished { result: Result<CheckStatus, Seq<char>> },
}

impl View for RunState {
    type V = RunView;

    open spec fn view(&self) -> RunView {
        match self {
            RunState::Load { id } => RunView::Load { id: id@ },
            RunState::Baseline { monitor } => RunView::Baseline { monitor: monitor@ },
            RunState::Page { monitor, prev } => RunView::Page {
                monitor: monitor@,
                prev: prev.deep_view(),
            },
            RunState::Screen { monitor, prev } => RunView::Screen {
                monitor: monitor@,
                prev: prev.deep_view(),
            },
            RunState::Crawl { monitor, prev } => RunView::Crawl {
                monitor: monitor@,
                prev: prev.deep_view(),
            },
            RunState::Measure { monitor, fetched, texts } => RunView::Measure {
                monitor: monitor@,
                fetched: fetched@,
                texts: texts@,
            },
            RunState::SaveSnapshot { record } => RunView::SaveSnapshot { record: record@ },
            RunState::SaveMonitor { record } => RunView::SaveMonitor { record: record@ },
            RunState::SaveAlert { alert, targets, status } => RunView::SaveAlert {
                alert: alert@,
                targets: targets@,
                status: *status,
            },
            RunState::Deliver { alert, targets, status } => RunView::Deliver {
                alert: alert@,
                targets: targets@,
                status: *status,
            },
            RunState::Finished { result } => RunView::Finished {
                result: match result {
                    Ok(status) => Ok(*status),
                    Err(e) => Err(e@),
                },
            },
        }
    }
}

/// The answer to what a run asked for.
pub enum RunEvent {
    /// The monitor, or nothing under its id, or why the store could not be read.
    Loaded(Result<Option<Monitor>, String>),
    /// The latest snapshot, or none, or why the store could not be read.
    Baseline(Result<Option<Snapshot>, String>),
    /// The HTTP code and the body of the page, and how long the fetch took.
    Page { result: Result<(u16, String), String>, latency_ms: u64 },
    /// The URL may be crawled, or why not.
    Screened(Result<(), String>),
    /// The answer of the crawler, and how long the crawl took.
    Crawled { result: Result<Json, String>, latency_ms: u64 },
    /// The figures, or nothing where the captured text is no number.
    Measured(Option<Figures>),
    /// The id of the stored snapshot, or why it was not stored.
    SnapshotSaved(Result<i64, String>),
    /// The monitor was stored, or why not.
    MonitorSaved(Result<(), String>),
    /// The alert as it was stored, or why it was not.
    AlertSaved(Result<Alert, String>),
    /// The alert was handed on.
    Delivered,
}

/// What an answer says.
pub enum EventView {
    Loaded(Result<Option<MonitorView>, Seq<char>>),
    Baseline(Result<Option<SnapshotView>, Seq<char>>),
    Page { result: Result<(u16, Seq<char>), Seq<char>>, latency_ms: u64 },
    Screened(Result<(), Seq<char>>),
    Crawled { result: Result<Json, Seq<char>>, latency_ms: u64 },
    Measured(Option<Figures>),
    SnapshotSaved(Result<i64, Seq<char>>),
    MonitorSaved(Result<(), Seq<char>>),
    AlertSaved(Result<AlertView, Seq<char>>),
    Delivered,
}

impl View for RunEvent {
    type V = EventView;

    open spec fn view(&self) -> EventView {
        match self {
            RunEvent::Loaded(Ok(Some(monitor))) => EventView::Loaded(Ok(Some(monitor@))),
            RunEvent::Loaded(Ok(None)) => EventView::Loaded(Ok(None)),
            RunEvent::Loaded(Err(e)) => EventView::Loaded(Err(e@)),
            RunEvent::Baseline(Ok(prev)) => EventView::Baseline(Ok(prev.deep_view())),
            RunEvent::Baseline(Err(e)) => EventView::Baseline(Err(e@)),
            RunEvent::Page { result, latency_ms } => EventView::Page {
                result: match result {
                    Ok(page) => Ok((page.0, page.1@)),
                    Err(e) => Err(e@),
                },
                latency_ms: *latency_ms,
            },
            RunEvent::Screened(Ok(_)) => EventView::Screened(Ok(())),
            RunEvent::Screened(Err(e)) => EventView::Screened(Err(e@)),
            RunEvent::Crawled { result, latency_ms } => EventView::Crawled {
                result: match result {
                    Ok(answer) => Ok(*answer),
                    Err(e) => Err(e@),
                },
                latency_ms: *latency_ms,
            },
            RunEvent::Measured(figures) => EventView::Measured(*figures),
            RunEvent::SnapshotSaved(Ok(id)) => EventView::SnapshotSaved(Ok(*id)),
            RunEvent::SnapshotSaved(Err(e)) => EventView::SnapshotSaved(Err(e@)),
            RunEvent::MonitorSaved(Ok(_)) => EventView::MonitorSaved(Ok(())),
            RunEvent::MonitorSaved(Err(e)) => EventView::MonitorSaved(Err(e@)),
            RunEvent::AlertSaved(Ok(alert)) => EventView::AlertSaved(Ok(alert@)),
            RunEvent::AlertSaved(Err(e)) => EventView::AlertSaved(Err(e@)),
            RunEvent::Delivered => EventView::Delivered,
        }
    }
}

/// The error of a run whose monitor does not exist.
pub open spec fn not_found(id: Seq<char>) -> Seq<char> {
    "monitor '"@ + id + "' not found"@
}

/// The error of a fetch through the browser.
pub open spec fn no_browser() -> Seq<char> {
    "the agentbrowser backend is not yet integrated; use the http or spider backend"@
}

/// The run once the check has its page, or failed to get it.
pub open spec fn judged(
    monitor: MonitorView,
    fetched: Result<FetchedView, Seq<char>>,
    prev: Option<SnapshotView>,
    now: Seq<char>,
) -> RunView {
    match verdict_on(monitor.check, fetched, prev) {
        VerdictView::Outcome(outcome) => RunView::SaveSnapshot {
            record: record_of(monitor, outcome, now),
        },
        VerdictView::Measure { fetched, texts } => RunView::Measure { monitor, fetched, texts },
    }
}

/// The page in the answer of a crawl.
pub open spec fn crawled_page(
    result: Result<Json, Seq<char>>,
    latency_ms: u64,
) -> Result<FetchedView, Seq<char>> {
    match result {
        Ok(answer) => match crate::json::crawl_refusal(answer) {
            Some(reason) => Err(reason),
            None => Ok(
                FetchedView {
                    http_status: None,
                    latency_ms,
                    body: crate::json::crawl_text(answer),
                },
            ),
        },
        Err(e) => Err("spider crawl failed: "@ + e),
    }
}

/// The outcome of a price check once the figures are known.
pub open spec fn measured_outcome(
    monitor: MonitorView,
    fetched: FetchedView,
    texts: PriceTextsView,
    figures: Option<Figures>,
) -> Option<OutcomeView> {
    match monitor.check {
        CheckType::Price { comparator, threshold, .. } => Some(
            crate::check::price_outcome(fetched, comparator, threshold, texts, figures),
        ),
        _ => None,
    }
}

/// Where a run goes with an answer. An answer that the run did not ask for changes nothing.
pub open spec fn next_state(state: RunView, event: EventView, now: Seq<char>) -> RunView {
    match (state, event) {
        (RunView::Load { id }, EventView::Loaded(loaded)) => match loaded {
            Ok(Some(monitor)) => RunView::Baseline { monitor },
            Ok(None) => RunView::Finished { result: Err(not_found(id)) },
            Err(e) => RunView::Finished { result: Err(e) },
        },
        (RunView::Baseline { monitor }, EventView::Baseline(loaded)) => {
            let prev = match loaded {
                Ok(prev) => prev,
                Err(_) => None,
            };
            match monitor.backend {
                FetchBackend::Http => RunView::Page { monitor, prev },
                FetchBackend::Spider => RunView::Screen { monitor, prev },
                FetchBackend::Agentbrowser => judged(monitor, Err(no_browser()), prev, now),
            }
        },
        (RunView::Page { monitor, prev }, EventView::Page { result, latency_ms }) => {
            let fetched = match result {
                Ok(page) => Ok(
                    FetchedView { http_status: Some(page.0), latency_ms, body: page.1 },
                ),
                Err(e) => Err(e),
            };
            judged(monitor, fetched, prev, now)
        },
        (RunView::Screen { monitor, prev }, EventView::Screened(screened)) => match screened {
            Ok(_) => RunView::Crawl { monitor, prev },
            Err(e) => judged(monitor, Err(e), prev, now),
        },
        (RunView::Crawl { monitor, prev }, EventView::Crawled { result, latency_ms }) => judged(
            monitor,
            crawled_page(result, latency_ms),
            prev,
            now,
        ),
        (RunView::Measure { monitor, fetched, texts }, EventView::Measured(figures)) => {
            match measured_outcome(monitor, fetched, texts, figures) {
                Some(outcome) => RunView::SaveSnapshot { record: record_of(monitor, outcome, now) },
                None => state,
            }
        },
        (RunView::SaveSnapshot { record }, EventView::SnapshotSaved(_)) => RunView::SaveMonitor {
            record,
        },
        (RunView::SaveMonitor { record }, EventView::MonitorSaved(_)) => match record.alert {
            Some(alert) => RunView::SaveAlert {
                alert,
                targets: record.monitor.notify,
                status: record.status,
            },
            None => RunView::Finished { result: Ok(record.status) },
        },
        (RunView::SaveAlert { alert, targets, status }, EventView::AlertSaved(saved)) => {
            match saved {
                Ok(stored) => RunView::Deliver { alert: stored, targets, status },
                Err(_) => RunView::Finished { result: Ok(status) },
            }
        },
        (RunView::Deliver { alert, targets, status }, EventView::Delivered) => RunView::Finished {
            result: Ok(status),
        },
        _ => state,
    }
}

fn judge(
    monitor: Monitor,
    fetched: Result<Fetched, String>,
    prev: Option<Snapshot>,
    now: &str,
) -> (r: RunState)
    ensures
        r@ == judged(monitor@, crate::check::attempt(fetched), prev.deep_view(), now@),
{
    match evaluate(&monitor.check, fetched, prev.as_ref()) {
        Verdict::Outcome(outcome) => RunState::SaveSnapshot {
            record: record_check(monitor, outcome, now),
        },
        Verdict::Measure { fetched, texts } => RunState::Measure { monitor, fetched, texts },
    }
}

fn page_of_crawl(result: Result<Json, String>, latency_ms: u64) -> (r: Result<
    Fetched,
    String,
>)
    ensures
        crate::check::attempt(r) == crawled_page(
            match result {
                Ok(answer) => Ok(answer),
                Err(e) => Err(e@),
            },
            latency_ms,
        ),
{
    match result {
        Ok(answer) => match refusal(&answer) {
            Some(reason) => Err(reason),
            None => Ok(
                Fetched {
                    http_status: None,
                    latency_ms,
                    body: spider_body_text(&answer),
                },
            ),
        },
        Err(e) => Err("spider crawl failed: ".to_string().concat(e.as_str())),
    }
}

/// Begin a run of one monitor.
pub fn start_run(monitor_id: &str) -> (r: RunState)
    ensures
        r@ == (RunView::Load { id: monitor_id@ }),
{
    RunState::Load { id: monitor_id.to_string() }
}

/// Move a run on with the answer to what it asked for; `now` is the time at which an outcome is
/// recorded.
pub fn advance_at(state: RunState, event: RunEvent, now: &str) -> (r: RunState)
    ensures
        r@ == next_state(state@, event@, now@),
{
    match (state, event) {
        (RunState::Load { id }, RunEvent::Loaded(loaded)) => match loaded {
            Ok(Some(monitor)) => RunState::Baseline { monitor },
            Ok(None) => RunState::Finished {
                result: Err("monitor '".to_string().concat(id.as_str()).concat("' not found")),
            },
            Err(e) => RunState::Finished { result: Err(e) },
        },
        (RunState::Baseline { monitor }, RunEvent::Baseline(loaded)) => {
            let prev = match loaded {
                Ok(prev) => prev,
                Err(_) => None,
            };
            match monitor.backend {
                FetchBackend::Http => RunState::Page { monitor, prev },
                FetchBackend::Spider => RunState::Screen { monitor, prev },
                FetchBackend::Agentbrowser => judge(
                    monitor,
                    Err(
                        "the agentbrowser backend is not yet integrated; use the http or spider backend".to_string(),
                    ),
                    prev,
                    now,
                ),
            }
        },
        (RunState::Page { monitor, prev }, RunEvent::Page { result, latency_ms }) => {
            let fetched = match result {
                Ok((status, body)) => Ok(Fetched { http_status: Some(status), latency_ms, body }),
                Err(e) => Err(e),
            };
            judge(monitor, fetched, prev, now)
        },
        (RunState::Screen { monitor, prev }, RunEvent::Screened(screened)) => match screened {
            Ok(_) => RunState::Crawl { monitor, prev },
            Err(e) => judge(monitor, Err(e), prev, now),
        },
        (RunState::Crawl { monitor, prev }, RunEvent::Crawled { result, latency_ms }) => judge(
            monitor,
            page_of_crawl(result, latency_ms),
            prev,
            now,
        ),
        (RunState::Measure { monitor, fetched, texts }, RunEvent::Measured(figures)) => {
            let price = match &monitor.check {
                CheckType::Price { extract_regex: _, comparator, threshold } => Some(
                    (*comparator, *threshold),
                ),
                _ => None,
            };
            match price {
                Some((comparator, threshold)) => {
                    let outcome = eval_price(&fetched, comparator, threshold, texts, figures);
                    RunState::SaveSnapshot { record: record_check(monitor, outcome, now) }
                },
                None => RunState::Measure { monitor, fetched, texts },
            }
        },
        (RunState::SaveSnapshot { record }, RunEvent::SnapshotSaved(_)) => RunState::SaveMonitor {
            record,
        },
        (RunState::SaveMonitor { record }, RunEvent::MonitorSaved(_)) => match record.alert {
            Some(alert) => RunState::SaveAlert {
                alert,
                targets: record.monitor.notify,
                status: record.status,
            },
            None => RunState::Finished { result: Ok(record.status) },
        },
        (RunState::SaveAlert { alert: _, targets, status }, RunEvent::AlertSaved(saved)) => {
            match saved {
                Ok(stored) => RunState::Deliver { alert: stored, targets, status },
                Err(_) => RunState::Finished { result: Ok(status) },
            }
        },
        (RunState::Deliver { alert: _, targets: _, status }, RunEvent::Delivered) => {
            RunState::Finished { result: Ok(status) }
        },
        (state, _) => state,
    }
}

/// Move a run on with the answer to what it asked for, at the present time.
pub fn advance(state: RunState, event: RunEvent) -> (r: RunState)
    ensures
        exists|now: Seq<char>|
            crate::boundary::utc_text(now) && r@ == #[trigger] next_state(state@, event@, now),
{
    let now = now_rfc3339();
    advance_at(state, event, now.as_str())
}

// ---- laws of consecutive checks -------------------------------------------

/// A check is triggered exactly when it raised an alert, and one that ended in an error says why.
pub proof fn law_status_tells_alert(
    check: CheckType,
    fetched: Result<FetchedView, Seq<char>>,
    prev: Option<SnapshotView>,
)
    ensures
        verdict_on(check, fetched, prev) matches VerdictView::Outcome(outcome) ==> {
            &&& outcome.status == CheckStatus::Triggered <==> outcome.alert is Some
            &&& outcome.status == CheckStatus::Error ==> outcome.note is Some
        },
{
}

/// A price check whose numbers were read is triggered exactly when it raised an alert, and it ends
/// in an error exactly where the captured text is no number.
pub proof fn law_measured_status_tells_alert(
    monitor: MonitorView,
    fetched: FetchedView,
    texts: PriceTextsView,
    figures: Option<Figures>,
)
    ensures
        measured_outcome(monitor, fetched, texts, figures) matches Some(outcome) ==> {
            &&& outcome.status == CheckStatus::Triggered <==> outcome.alert is Some
            &&& outcome.status == CheckStatus::Error <==> figures is None
        },
{
}

/// A failed fetch ends every check but an uptime check in an error, without an alert and without a
/// value.
pub proof fn law_failed_fetch_is_an_error(
    check: CheckType,
    e: Seq<char>,
    prev: Option<SnapshotView>,
)
    requires
        !(check is Uptime),
    ensures
        verdict_on(check, Err(e), prev) == VerdictView::Outcome(unfetched(e)),
{
}

/// An uptime check that follows another alerts exactly when the site went up or down in between:
/// a site that stays down, or stays up, is not reported again.
pub proof fn law_uptime_alerts_on_change(
    first: Result<FetchedView, Seq<char>>,
    second: Result<FetchedView, Seq<char>>,
    expect_status: Seq<u16>,
    prev: Option<SnapshotView>,
    id: Seq<char>,
    now: Seq<char>,
)
    ensures
        ({
            let before = crate::check::uptime_outcome(first, expect_status, prev);
            let after = crate::check::uptime_outcome(
                second,
                expect_status,
                Some(snapshot_of(id, before, now)),
            );
            &&& after.alert is Some <==> after.value != before.value
            &&& after.value == before.value ==> after.status == CheckStatus::Okay
            &&& after.alert matches Some(alert) ==> alert.kind == if after.value == Some("up"@) {
                "uptime_up"@
            } else {
                "uptime_down"@
            }
        }),
{
    reveal_strlit("up");
    reveal_strlit("down");
    assert("up"@.len() != "down"@.len());
}

/// Before its first check a site counts as up: the first check alerts exactly when it finds the
/// site down.
pub proof fn law_first_uptime_check(
    fetched: Result<FetchedView, Seq<char>>,
    expect_status: Seq<u16>,
)
    ensures
        ({
            let outcome = crate::check::uptime_outcome(fetched, expect_status, None);
            outcome.alert is Some <==> outcome.value == Some("down"@)
        }),
{
    reveal_strlit("up");
    reveal_strlit("down");
    assert("up"@.len() != "down"@.len());
}

/// A failed fetch always reads as down, whatever codes are expected.
pub proof fn law_unreachable_is_down(
    e: Seq<char>,
    expect_status: Seq<u16>,
    prev: Option<SnapshotView>,
)
    ensures
        crate::check::uptime_outcome(Err(e), expect_status, prev).value == Some("down"@),
{
}

/// A keyword check that follows another alerts exactly when the keyword came, or went, in between
/// and that is the change asked for.
pub proof fn law_keyword_alerts_on_transition(
    first: FetchedView,
    first_present: bool,
    second: FetchedView,
    second_present: bool,
    pattern: Seq<char>,
    alert_when_present: bool,
    prev: Option<SnapshotView>,
    id: Seq<char>,
    now: Seq<char>,
)
    ensures
        ({
            let before = crate::check::keyword_outcome(
                first,
                pattern,
                first_present,
                alert_when_present,
                prev,
            );
            let after = crate::check::keyword_outcome(
                second,
                pattern,
                second_present,
                alert_when_present,
                Some(snapshot_of(id, before, now)),
            );
            &&& after.alert is Some <==> first_present != second_present && second_present
                == alert_when_present
            &&& after.value == before.value <==> first_present == second_present
        }),
{
    reveal_strlit("present");
    reveal_strlit("absent");
    assert("present"@.len() != "absent"@.len());
}

/// The first keyword check alerts exactly when it finds the state asked for.
pub proof fn law_first_keyword_check(
    fetched: FetchedView,
    pattern: Seq<char>,
    present: bool,
    alert_when_present: bool,
)
    ensures
        crate::check::keyword_outcome(fetched, pattern, present, alert_when_present, None).alert
            is Some <==> present == alert_when_present,
{
}

/// A stock check that follows another alerts exactly when the item came in, or went out, in between
/// and that is the change asked for.
pub proof fn law_stock_alerts_on_transition(
    first: FetchedView,
    first_in_stock: bool,
    second: FetchedView,
    second_in_stock: bool,
    alert_when_in_stock: bool,
    prev: Option<SnapshotView>,
    id: Seq<char>,
    now: Seq<char>,
)
    ensures
        ({
            let before = crate::check::stock_outcome(
                first,
                first_in_stock,
                alert_when_in_stock,
                prev,
            );
            let after = crate::check::stock_outcome(
                second,
                second_in_stock,
                alert_when_in_stock,
                Some(snapshot_of(id, before, now)),
            );
            &&& after.alert is Some <==> first_in_stock != second_in_stock && second_in_stock
                == alert_when_in_stock
            &&& after.value == before.value <==> first_in_stock == second_in_stock
        }),
{
    reveal_strlit("in_stock");
    reveal_strlit("out_of_stock");
    assert("in_stock"@.len() != "out_of_stock"@.len());
}

/// The first stock check alerts exactly when it finds the state asked for.
pub proof fn law_first_stock_check(
    fetched: FetchedView,
    in_stock: bool,
    alert_when_in_stock: bool,
)
    ensures
        crate::check::stock_outcome(fetched, in_stock, alert_when_in_stock, None).alert is Some
            <==> in_stock == alert_when_in_stock,
{
}

/// The first content check never alerts; a later one alerts exactly when the hash of the watched
/// text is not the one of the check before it.
pub proof fn law_content_alerts_on_change(
    first: FetchedView,
    first_length: nat,
    first_hash: Seq<char>,
    second: FetchedView,
    second_length: nat,
    second_hash: Seq<char>,
    prev: Option<SnapshotView>,
    id: Seq<char>,
    now: Seq<char>,
)
    ensures
        crate::check::content_outcome(first, first_length, first_hash, None).alert is None,
        ({
            let before = crate::check::content_outcome(first, first_length, first_hash, prev);
            let after = crate::check::content_outcome(
                second,
                second_length,
                second_hash,
                Some(snapshot_of(id, before, now)),
            );
            after.alert is Some <==> first_hash != second_hash
        }),
{
}

/// A content check does not alert where the watched regions of the two pages have the same words:
/// white space alone makes no change.
pub proof fn law_white_space_is_no_change(
    first: FetchedView,
    second: FetchedView,
    region_regex: Option<String>,
    prev: Option<SnapshotView>,
    id: Seq<char>,
    now: Seq<char>,
)
    requires
        crate::text::words(crate::check::region_of(first.body, region_regex.deep_view()))
            == crate::text::words(crate::check::region_of(second.body, region_regex.deep_view())),
    ensures
        ({
            let check = CheckType::ContentDiff { region_regex };
            &&& verdict_on(check, Ok(first), prev) matches VerdictView::Outcome(before)
            &&& verdict_on(check, Ok(second), Some(snapshot_of(id, before, now)))
                matches VerdictView::Outcome(after)
            &&& after.alert is None
            &&& after.status == CheckStatus::Okay
            &&& after.content_hash == before.content_hash
            &&& after.value == before.value
        }),
{
}

/// A content check that follows a failed fetch has nothing to compare with and does not alert.
pub proof fn law_content_baseline_needs_a_page(
    e: Seq<char>,
    second: FetchedView,
    length: nat,
    hash: Seq<char>,
    id: Seq<char>,
    now: Seq<char>,
)
    ensures
        crate::check::content_outcome(
            second,
            length,
            hash,
            Some(snapshot_of(id, unfetched(e), now)),
        ).alert is None,
{
}

/// Of the snapshot before it, a check sees the value and the hash alone.
pub proof fn law_baseline_is_value_and_hash(
    check: CheckType,
    fetched: Result<FetchedView, Seq<char>>,
    s: SnapshotView,
    t: SnapshotView,
)
    requires
        s.value == t.value,
        s.content_hash == t.content_hash,
    ensures
        verdict_on(check, fetched, Some(s)) == verdict_on(check, fetched, Some(t)),
{
}

/// The next check compares with what this one recorded: storing a snapshot and reading it back
/// makes no difference to it.
pub proof fn law_store_keeps_the_baseline(
    check: CheckType,
    fetched: Result<FetchedView, Seq<char>>,
    s: SnapshotView,
    id: i64,
)
    ensures
        verdict_on(
            check,
            fetched,
            Some(
                crate::store::snapshot_of_row(
                    crate::store::SnapshotRowView { id, ..crate::store::row_of_snapshot(s) },
                ),
            ),
        ) == verdict_on(check, fetched, Some(s)),
{
    crate::store::law_snapshot_round_trip(s, id);
}

// ---- laws of prices -------------------------------------------------------

/// Without a previous value there is no change, no drop and no rise; without a threshold only a
/// change is reported.
pub proof fn law_price_needs_its_inputs(
    comparator: NumComparator,
    threshold: Option<Number>,
    figures: Figures,
)
    ensures
        figures.previous is None && (comparator == NumComparator::Changed || comparator
            == NumComparator::DropsByPct || comparator == NumComparator::RisesByPct)
            ==> crate::check::price_message(comparator, threshold, figures) is None,
        threshold is None && comparator != NumComparator::Changed ==> crate::check::price_message(
            comparator,
            threshold,
            figures,
        ) is None,
{
}

/// The next price check compares with the number that this one recorded; where this one captured
/// nothing, there is nothing to compare with.
pub proof fn law_price_baseline(
    fetched: FetchedView,
    comparator: NumComparator,
    threshold: Option<Number>,
    extract_regex: Seq<char>,
    texts: PriceTextsView,
    figures: Figures,
    next_raw: Seq<char>,
    id: Seq<char>,
    now: Seq<char>,
)
    ensures
        ({
            let read = crate::check::price_outcome(
                fetched,
                comparator,
                threshold,
                texts,
                Some(figures),
            );
            let missed = crate::check::no_price(fetched, extract_regex);
            &&& crate::check::price_texts(next_raw, Some(snapshot_of(id, read, now))).previous
                == Some(crate::check::number_chars(crate::check::recorded_price(texts, figures)))
            &&& crate::check::price_texts(next_raw, Some(snapshot_of(id, missed, now))).previous
                is None
        }),
{
}

/// A price below the threshold is reported once: not again while the value before it was below the
/// threshold too. The same holds above the threshold.
pub proof fn law_price_crosses_once(threshold: Number, figures: Figures)
    ensures
        figures.previous matches Some(p) && p.reading.number.below(threshold)
            ==> crate::check::price_message(NumComparator::LessThan, Some(threshold), figures) is None,
        figures.previous matches Some(p) && threshold.below(p.reading.number)
            ==> crate::check::price_message(NumComparator::GreaterThan, Some(threshold), figures)
            is None,
{
}

/// Where the numbers are numbers, a price alert below a threshold comes exactly when the value is
/// below it and the previous value, if any, was not; the same holds above.
pub proof fn law_price_reports_a_crossing(threshold: Number, figures: Figures)
    requires
        !threshold.not_a_number(),
        !figures.value.number.not_a_number(),
        figures.previous matches Some(p) ==> !p.reading.number.not_a_number(),
    ensures
        crate::check::price_message(NumComparator::LessThan, Some(threshold), figures) is Some
            <==> figures.value.number.below(threshold) && !(figures.previous matches Some(p)
            && p.reading.number.below(threshold)),
        crate::check::price_message(NumComparator::GreaterThan, Some(threshold), figures) is Some
            <==> threshold.below(figures.value.number) && !(figures.previous matches Some(p)
            && threshold.below(p.reading.number)),
{
}

/// A percentage of a previous value that is not above zero counts as zero: a threshold above zero
/// is not reached.
pub proof fn law_price_base_must_be_positive(
    comparator: NumComparator,
    threshold: Number,
    figures: Figures,
)
    requires
        comparator == NumComparator::DropsByPct || comparator == NumComparator::RisesByPct,
        (Number { bits: 0 }).below(threshold),
        figures.previous matches Some(p) && !(Number { bits: 0 }).below(p.reading.number),
    ensures
        crate::check::price_message(comparator, Some(threshold), figures) is None,
{
}

// ---- laws of a run --------------------------------------------------------

/// The answer is one that the state asked for.
pub open spec fn answers(state: RunView, event: EventView) -> bool {
    match (state, event) {
        (RunView::Load { .. }, EventView::Loaded(_)) => true,
        (RunView::Baseline { .. }, EventView::Baseline(_)) => true,
        (RunView::Page { .. }, EventView::Page { .. }) => true,
        (RunView::Screen { .. }, EventView::Screened(_)) => true,
        (RunView::Crawl { .. }, EventView::Crawled { .. }) => true,
        (RunView::Measure { monitor, .. }, EventView::Measured(_)) => monitor.check is Price,
        (RunView::SaveSnapshot { .. }, EventView::SnapshotSaved(_)) => true,
        (RunView::SaveMonitor { .. }, EventView::MonitorSaved(_)) => true,
        (RunView::SaveAlert { .. }, EventView::AlertSaved(_)) => true,
        (RunView::Deliver { .. }, EventView::Delivered) => true,
        _ => false,
    }
}

/// How many answers a run can still take at most.
pub open spec fn steps_left(state: RunView) -> nat {
    match state {
        RunView::Load { .. } => 9,
        RunView::Baseline { .. } => 8,
        RunView::Screen { .. } => 7,
        RunView::Page { .. } => 6,
        RunView::Crawl { .. } => 6,
        RunView::Measure { .. } => 5,
        RunView::SaveSnapshot { .. } => 4,
        RunView::SaveMonitor { .. } => 3,
        RunView::SaveAlert { .. } => 2,
        RunView::Deliver { .. } => 1,
        RunView::Finished { .. } => 0,
    }
}

/// Every answer that was asked for brings the run closer to its end, and any other leaves it as it
/// is: a run ends after nine answers at most.
pub proof fn law_run_ends(state: RunView, event: EventView, now: Seq<char>)
    ensures
        answers(state, event) ==> steps_left(next_state(state, event, now)) < steps_left(state),
        !answers(state, event) ==> next_state(state, event, now) == state,
        steps_left(state) == 0 <==> state is Finished,
{
}

/// A run only ever asks to measure a price.
pub open spec fn consistent(state: RunView) -> bool {
    state matches RunView::Measure { monitor, .. } ==> monitor.check is Price
}

/// A run begins consistent and stays so.
pub proof fn law_run_stays_consistent(
    id: Seq<char>,
    state: RunView,
    event: EventView,
    now: Seq<char>,
)
    ensures
        consistent(RunView::Load { id }),
        consistent(state) ==> consistent(next_state(state, event, now)),
{
}

/// A run fails only where its monitor could not be loaded: it then ends at once, having stored
/// nothing.
pub proof fn law_only_loading_fails(state: RunView, event: EventView, now: Seq<char>)
    requires
        !(state is Finished),
    ensures
        next_state(state, event, now) matches RunView::Finished { result } ==> {
            &&& result is Err ==> state is Load
            &&& state is Load ==> result is Err
        },
{
}

/// A run of a monitor that does not exist says so.
pub proof fn law_missing_monitor(id: Seq<char>, now: Seq<char>)
    ensures
        next_state(RunView::Load { id }, EventView::Loaded(Ok(None)), now) == (RunView::Finished {
            result: Err("monitor '"@ + id + "' not found"@),
        }),
{
}

/// Once a check is recorded the run ends with the status of the check, whatever becomes of the
/// writes and of the delivery.
pub proof fn law_recorded_run_succeeds(
    record: RecordView,
    snapshot_saved: Result<i64, Seq<char>>,
    monitor_saved: Result<(), Seq<char>>,
    alert_saved: Result<AlertView, Seq<char>>,
    now: Seq<char>,
)
    ensures
        ({
            let done = RunView::Finished { result: Ok(record.status) };
            let stored = next_state(
                next_state(
                    RunView::SaveSnapshot { record },
                    EventView::SnapshotSaved(snapshot_saved),
                    now,
                ),
                EventView::MonitorSaved(monitor_saved),
                now,
            );
            let alerted = next_state(stored, EventView::AlertSaved(alert_saved), now);
            &&& record.alert is None ==> stored == done
            &&& record.alert is Some && alert_saved is Err ==> alerted == done
            &&& record.alert is Some && alert_saved is Ok ==> next_state(
                alerted,
                EventView::Delivered,
                now,
            ) == done
        }),
{
}

/// Only an alert that was stored is delivered, as it was stored, to the targets of its monitor; and
/// only an alert of the record is stored.
pub proof fn law_only_stored_alerts_are_delivered(state: RunView, event: EventView, now: Seq<char>)
    ensures
        next_state(state, event, now) matches RunView::Deliver { alert, targets, status } ==> {
            ||| state == next_state(state, event, now)
            ||| state matches RunView::SaveAlert { targets: asked, status: known, .. } && event
                == EventView::AlertSaved(Ok(alert)) && targets == asked && status == known
        },
        next_state(state, event, now) matches RunView::SaveAlert { alert, targets, status } ==> {
            ||| state == next_state(state, event, now)
            ||| state matches RunView::SaveMonitor { record } && record.alert == Some(alert)
                && targets == record.monitor.notify && status == record.status
        },
{
}

/// A URL is crawled only after it has passed the screen.
pub proof fn law_crawl_is_screened(state: RunView, event: EventView, now: Seq<char>)
    ensures
        next_state(state, event, now) matches RunView::Crawl { monitor, prev } ==> {
            ||| state == next_state(state, event, now)
            ||| state == (RunView::Screen { monitor, prev }) && (event matches EventView::Screened(
                Ok(_),
            ))
        },
{
}

/// The record of a check repeats its outcome: the snapshot and the rollup agree with it, the
/// definition of the monitor is unchanged, and there is an alert exactly where the check raised
/// one.
pub proof fn law_record_repeats_outcome(monitor: MonitorView, outcome: OutcomeView, now: Seq<char>)
    ensures
        ({
            let record = record_of(monitor, outcome, now);
            &&& record.status == outcome.status
            &&& record.snapshot.status == outcome.status
            &&& record.snapshot.value == outcome.value
            &&& record.snapshot.monitor_id == monitor.id
            &&& record.monitor.last_status == Some(outcome.status)
            &&& record.monitor.last_value == outcome.value
            &&& record.monitor.last_check_at == Some(record.snapshot.checked_at)
            &&& record.monitor.id == monitor.id
            &&& record.monitor.name == monitor.name
            &&& record.monitor.url == monitor.url
            &&& record.monitor.backend == monitor.backend
            &&& record.monitor.check == monitor.check
            &&& record.monitor.interval == monitor.interval
            &&& record.monitor.enabled == monitor.enabled
            &&& record.monitor.notify == monitor.notify
            &&& record.monitor.created_at == monitor.created_at
            &&& record.alert is Some <==> outcome.alert is Some
            &&& record.alert matches Some(alert) ==> alert.monitor_id == monitor.id
                && alert.monitor_name == monitor.name && !alert.acknowledged
        }),
{
}

} // verus!
