//! Monitors, snapshots, alerts, and what a single check produces.

use vstd::prelude::*;

use crate::notify::NotifyTarget;
use crate::number::Number;

verus! {

/// Where a monitor fetches the page from.
#[derive(Debug, Clone, Copy, PartialEq, Eq, Structural)]
pub enum FetchBackend {
    /// A plain HTTP GET (fast; no JS rendering).
    Http,
    /// The Spider crawler (`spider__crawl`), for sites that need a real crawl.
    Spider,
    /// AI browser (JS rendering). Not yet integrated: a fetch returns a clear error.
    Agentbrowser,
}

impl Default for FetchBackend {
    fn default() -> (r: FetchBackend)
        ensures
            r == FetchBackend::Http,
    {
        FetchBackend::Http
    }
}

/// How a numeric (price/quantity) value is compared against the baseline.
#[derive(Debug, Clone, Copy, PartialEq, Eq, Structural)]
pub enum NumComparator {
    /// Alert on any change in the value.
    Changed,
    /// Alert when the value drops below the threshold.
    LessThan,
    /// Alert when the value rises above the threshold.
    GreaterThan,
    /// Alert when the value drops by at least the threshold, in percent.
    DropsByPct,
    /// Alert when the value rises by at least the threshold, in percent.
    RisesByPct,
}

impl Default for NumComparator {
    fn default() -> (r: NumComparator)
        ensures
            r == NumComparator::Changed,
    {
        NumComparator::Changed
    }
}

/// The kind of check a monitor runs, with its configuration.
#[derive(Debug, Clone, PartialEq)]
pub enum CheckType {
    /// Is the site reachable? `expect_status` says which HTTP codes count as healthy; where it is
    /// empty, any 2xx or 3xx does.
    Uptime { expect_status: Vec<u16> },
    /// Does a keyword or regex appear in the page text?
    Keyword {
        pattern: String,
        is_regex: bool,
        case_sensitive: bool,
        /// Alert when the keyword becomes present (true) or absent (false).
        alert_when_present: bool,
    },
    /// Alert on any change to the page content.
    ContentDiff {
        /// Optional regex (capture group 1) scoping the watched region; without it the whole
        /// normalized page text is hashed.
        region_regex: Option<String>,
    },
    /// Extract a numeric value (regex capture group 1) and compare it.
    Price {
        /// Regex whose first capture group is the number.
        extract_regex: String,
        comparator: NumComparator,
        threshold: Option<Number>,
    },
    /// Stock or inventory by availability phrase.
    Stock {
        /// Pattern that indicates the item is in stock.
        in_stock_pattern: String,
        is_regex: bool,
        /// Alert when it becomes in-stock (true) or out-of-stock (false).
        alert_when_in_stock: bool,
    },
}

/// The outcome status persisted on each snapshot.
#[derive(Debug, Clone, Copy, PartialEq, Eq, Structural)]
pub enum CheckStatus {
    /// Checked successfully, no alert condition met.
    Okay,
    /// An alert condition was met this check.
    Triggered,
    /// The check could not complete (fetch/extract failure).
    Error,
}

/// A watched-site definition.
#[derive(Debug, Clone)]
pub struct Monitor {
    pub id: String,
    pub name: String,
    pub url: String,
    pub backend: FetchBackend,
    pub check: CheckType,
    /// Interval (e.g. `5m`, `1h`) or cron expression.
    pub interval: String,
    /// When false the backing scheduled job is disabled (kept, not removed).
    pub enabled: bool,
    /// Per-monitor notification targets.
    pub notify: Vec<NotifyTarget>,
    pub created_at: String,
    pub updated_at: String,
    /// When the last check ran.
    pub last_check_at: Option<String>,
    /// How the last check ended.
    pub last_status: Option<CheckStatus>,
    /// The signal that the last check read.
    pub last_value: Option<String>,
}

/// What a monitor holds.
pub struct MonitorView {
    pub id: Seq<char>,
    pub name: Seq<char>,
    pub url: Seq<char>,
    pub backend: FetchBackend,
    pub check: CheckType,
    pub interval: Seq<char>,
    pub enabled: bool,
    pub notify: Seq<NotifyTarget>,
    pub created_at: Seq<char>,
    pub updated_at: Seq<char>,
    pub last_check_at: Option<Seq<char>>,
    pub last_status: Option<CheckStatus>,
    pub last_value: Option<Seq<char>>,
}

impl View for Monitor {
    type V = MonitorView;

    open spec fn view(&self) -> MonitorView {
        MonitorView {
            id: self.id@,
            name: self.name@,
            url: self.url@,
            backend: self.backend,
            check: self.check,
            interval: self.interval@,
            enabled: self.enabled,
            notify: self.notify@,
            created_at: self.created_at@,
            updated_at: self.updated_at@,
            last_check_at: self.last_check_at.deep_view(),
            last_status: self.last_status,
            last_value: self.last_value.deep_view(),
        }
    }
}

/// One recorded check (the comparison baseline for the next run).
#[derive(Debug, Clone)]
pub struct Snapshot {
    pub id: i64,
    pub monitor_id: String,
    pub checked_at: String,
    pub status: CheckStatus,
    pub http_status: Option<u16>,
    pub latency_ms: Option<u64>,
    /// The extracted or derived signal: `up`/`down`, `present`/`absent`, a number.
    pub value: Option<String>,
    pub content_hash: Option<String>,
    pub note: Option<String>,
}

/// What a snapshot holds.
pub struct SnapshotView {
    pub id: i64,
    pub monitor_id: Seq<char>,
    pub checked_at: Seq<char>,
    pub status: CheckStatus,
    pub http_status: Option<u16>,
    pub latency_ms: Option<u64>,
    pub value: Option<Seq<char>>,
    pub content_hash: Option<Seq<char>>,
    pub note: Option<Seq<char>>,
}

impl View for Snapshot {
    type V = SnapshotView;

    open spec fn view(&self) -> SnapshotView {
        SnapshotView {
            id: self.id,
            monitor_id: self.monitor_id@,
            checked_at: self.checked_at@,
            status: self.status,
            http_status: self.http_status,
            latency_ms: self.latency_ms,
            value: self.value.deep_view(),
            content_hash: self.content_hash.deep_view(),
            note: self.note.deep_view(),
        }
    }
}

impl DeepView for Snapshot {
    type V = SnapshotView;

    open spec fn deep_view(&self) -> SnapshotView {
        self.view()
    }
}

/// A change event surfaced to the user and fanned out to channels.
#[derive(Debug, Clone)]
pub struct Alert {
    pub id: i64,
    pub monitor_id: String,
    pub monitor_name: String,
    pub created_at: String,
    pub title: String,
    pub message: String,
    /// `uptime_down` | `uptime_up` | `keyword` | `content_change` | `price` | `stock`.
    pub kind: String,
    pub acknowledged: bool,
}

/// What an alert holds.
pub struct AlertView {
    pub id: i64,
    pub monitor_id: Seq<char>,
    pub monitor_name: Seq<char>,
    pub created_at: Seq<char>,
    pub title: Seq<char>,
    pub message: Seq<char>,
    pub kind: Seq<char>,
    pub acknowledged: bool,
}

impl View for Alert {
    type V = AlertView;

    open spec fn view(&self) -> AlertView {
        AlertView {
            id: self.id,
            monitor_id: self.monitor_id@,
            monitor_name: self.monitor_name@,
            created_at: self.created_at@,
            title: self.title@,
            message: self.message@,
            kind: self.kind@,
            acknowledged: self.acknowledged,
        }
    }
}

/// The result of a fetch.
#[derive(Debug, Clone)]
pub struct Fetched {
    pub http_status: Option<u16>,
    pub latency_ms: u64,
    pub body: String,
}

/// What a fetch brought.
pub struct FetchedView {
    pub http_status: Option<u16>,
    pub latency_ms: u64,
    pub body: Seq<char>,
}

impl View for Fetched {
    type V = FetchedView;

    open spec fn view(&self) -> FetchedView {
        FetchedView {
            http_status: self.http_status,
            latency_ms: self.latency_ms,
            body: self.body@,
        }
    }
}

/// An alert that a check raised, before it is stored.
#[derive(Debug, Clone)]
pub struct PendingAlert {
    pub title: String,
    pub message: String,
    pub kind: &'static str,
}

/// What a raised alert says.
pub struct PendingAlertView {
    pub title: Seq<char>,
    pub message: Seq<char>,
    pub kind: Seq<char>,
}

impl View for PendingAlert {
    type V = PendingAlertView;

    open spec fn view(&self) -> PendingAlertView {
        PendingAlertView { title: self.title@, message: self.message@, kind: self.kind@ }
    }
}

impl DeepView for PendingAlert {
    type V = PendingAlertView;

    open spec fn deep_view(&self) -> PendingAlertView {
        self.view()
    }
}

/// What a single check produced, before persistence.
#[derive(Debug, Clone)]
pub struct CheckOutcome {
    pub status: CheckStatus,
    pub http_status: Option<u16>,
    pub latency_ms: Option<u64>,
    pub value: Option<String>,
    pub content_hash: Option<String>,
    pub note: Option<String>,
    pub alert: Option<PendingAlert>,
}

/// What a check produced.
pub struct OutcomeView {
    pub status: CheckStatus,
    pub http_status: Option<u16>,
    pub latency_ms: Option<u64>,
    pub value: Option<Seq<char>>,
    pub content_hash: Option<Seq<char>>,
    pub note: Option<Seq<char>>,
    pub alert: Option<PendingAlertView>,
}

impl View for CheckOutcome {
    type V = OutcomeView;

    open spec fn view(&self) -> OutcomeView {
        OutcomeView {
            status: self.status,
            http_status: self.http_status,
            latency_ms: self.latency_ms,
            value: self.value.deep_view(),
            content_hash: self.content_hash.deep_view(),
            note: self.note.deep_view(),
            alert: self.alert.deep_view(),
        }
    }
}

} // verus!
