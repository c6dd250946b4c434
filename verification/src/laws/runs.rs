//! Laws of whole runs: what a run asks for, what it records, and what the next run makes of it.

use vstd::prelude::*;

use crate::check::PriceTextsView;
use crate::engine::{EventView, RecordView, RunView, VerdictView};
use crate::json::Json;
use crate::model::{
    AlertView, CheckStatus, CheckType, FetchBackend, FetchedView, MonitorView, OutcomeView,
    SnapshotView,
};
use crate::number::Figures;
use crate::store::{AlertRowView, SnapshotRowView};

verus! {

// ---- records --------------------------------------------------------------

/// The record holds a check of the monitor with this outcome at this time: the snapshot repeats the
/// outcome in every field, the rollup on the monitor agrees with it, the definition of the monitor
/// is as it was, and there is an alert exactly where the check raised one, saying what it said.
pub open spec fn records(
    record: RecordView,
    monitor: MonitorView,
    outcome: OutcomeView,
    now: Seq<char>,
) -> bool {
    &&& record.status == outcome.status
    &&& record.snapshot.id == 0
    &&& record.snapshot.monitor_id == monitor.id
    &&& record.snapshot.checked_at == now
    &&& record.snapshot.status == outcome.status
    &&& record.snapshot.http_status == outcome.http_status
    &&& record.snapshot.latency_ms == outcome.latency_ms
    &&& record.snapshot.value == outcome.value
    &&& record.snapshot.content_hash == outcome.content_hash
    &&& record.snapshot.note == outcome.note
    &&& record.monitor.id == monitor.id
    &&& record.monitor.name == monitor.name
    &&& record.monitor.url == monitor.url
    &&& record.monitor.backend == monitor.backend
    &&& record.monitor.check == monitor.check
    &&& record.monitor.interval == monitor.interval
    &&& record.monitor.enabled == monitor.enabled
    &&& record.monitor.notify == monitor.notify
    &&& record.monitor.created_at == monitor.created_at
    &&& record.monitor.updated_at == now
    &&& record.monitor.last_check_at == Some(now)
    &&& record.monitor.last_status == Some(outcome.status)
    &&& record.monitor.last_value == outcome.value
    &&& record.alert is Some <==> outcome.alert is Some
    &&& record.alert is Some ==> {
        let alert = record.alert->0;
        let raised = outcome.alert->0;
        &&& alert.id == 0
        &&& alert.monitor_id == monitor.id
        &&& alert.monitor_name == monitor.name
        &&& alert.created_at == now
        &&& alert.title == raised.title
        &&& alert.message == raised.message
        &&& alert.kind == raised.kind
        &&& !alert.acknowledged
    }
}

/// Recording a check loses nothing of its outcome and changes nothing of the definition of its
/// monitor.
pub proof fn law_record_of_a_check(monitor: MonitorView, outcome: OutcomeView, now: Seq<char>)
    ensures
        records(crate::engine::record_of(monitor, outcome, now), monitor, outcome, now),
{
}

/// Two outcomes that differ in anything that a snapshot holds are recorded by different snapshots.
pub proof fn law_records_tell_outcomes_apart(
    monitor: MonitorView,
    first: OutcomeView,
    second: OutcomeView,
    now: Seq<char>,
)
    requires
        crate::engine::record_of(monitor, first, now).snapshot == crate::engine::record_of(
            monitor,
            second,
            now,
        ).snapshot,
    ensures
        first.status == second.status,
        first.http_status == second.http_status,
        first.latency_ms == second.latency_ms,
        first.value == second.value,
        first.content_hash == second.content_hash,
        first.note == second.note,
{
}

// ---- rows -----------------------------------------------------------------

/// The columns of a stored snapshot are its fields; the status is one of three words, and the
/// latency keeps its bits.
pub proof fn law_snapshot_columns(s: SnapshotView)
    ensures
        ({
            let row = crate::store::row_of_snapshot(s);
            &&& row.id == s.id
            &&& row.monitor_id == s.monitor_id
            &&& row.checked_at == s.checked_at
            &&& s.status == CheckStatus::Okay ==> row.status == "ok"@
            &&& s.status == CheckStatus::Triggered ==> row.status == "triggered"@
            &&& s.status == CheckStatus::Error ==> row.status == "error"@
            &&& row.http_status == s.http_status
            &&& row.latency_ms is Some <==> s.latency_ms is Some
            &&& s.latency_ms is Some && s.latency_ms->0 <= i64::MAX ==> row.latency_ms->0
                == s.latency_ms->0
            &&& row.value == s.value
            &&& row.content_hash == s.content_hash
            &&& row.note == s.note
        }),
{
}

/// A snapshot is read from its columns: the fields are the columns, and a status word that is not
/// known counts as okay.
pub proof fn law_snapshot_from_columns(row: SnapshotRowView)
    ensures
        ({
            let s = crate::store::snapshot_of_row(row);
            &&& s.id == row.id
            &&& s.monitor_id == row.monitor_id
            &&& s.checked_at == row.checked_at
            &&& s.status == CheckStatus::Triggered <==> row.status == "triggered"@
            &&& s.status == CheckStatus::Error <==> row.status == "error"@
            &&& s.http_status == row.http_status
            &&& s.latency_ms is Some <==> row.latency_ms is Some
            &&& row.latency_ms is Some && row.latency_ms->0 >= 0 ==> s.latency_ms->0
                == row.latency_ms->0
            &&& s.value == row.value
            &&& s.content_hash == row.content_hash
            &&& s.note == row.note
        }),
{
    reveal_strlit("triggered");
    reveal_strlit("error");
    assert("error"@.len() != "triggered"@.len());
}

/// The columns of a stored alert are its fields, under the id that it is stored with; it is stored
/// as not acknowledged, and a column that is not zero reads as acknowledged.
pub proof fn law_alert_columns(alert: AlertView, id: i64, read: AlertRowView)
    ensures
        ({
            let row = crate::store::row_of_alert(alert, id);
            &&& row.id == id
            &&& row.monitor_id == alert.monitor_id
            &&& row.monitor_name == alert.monitor_name
            &&& row.created_at == alert.created_at
            &&& row.title == alert.title
            &&& row.message == alert.message
            &&& row.kind == alert.kind
            &&& row.acknowledged == 0
        }),
        ({
            let back = crate::store::alert_of_row(read);
            &&& back.id == read.id
            &&& back.monitor_id == read.monitor_id
            &&& back.monitor_name == read.monitor_name
            &&& back.created_at == read.created_at
            &&& back.title == read.title
            &&& back.message == read.message
            &&& back.kind == read.kind
            &&& back.acknowledged <==> read.acknowledged != 0
        }),
{
}

/// Of stored monitors, those that could be read are listed, all of them and in their order.
pub proof fn law_readable_monitors(
    rows: Seq<Option<crate::model::Monitor>>,
    monitor: crate::model::Monitor,
)
    ensures
        crate::store::readable(seq![]).len() == 0,
        crate::store::readable(rows.push(Some(monitor))) == crate::store::readable(rows).push(monitor@),
        crate::store::readable(rows.push(None)) == crate::store::readable(rows),
{
    assert(rows.push(Some(monitor)).drop_last() == rows);
    assert(rows.push(None).drop_last() == rows);
}

// ---- the steps of a run ---------------------------------------------------

/// A run loads its monitor and then the baseline. Where there is no monitor it says which, where
/// the store fails it says why, and ends.
pub proof fn law_run_begins(id: Seq<char>, monitor: MonitorView, e: Seq<char>, now: Seq<char>)
    ensures
        crate::engine::next_state(RunView::Load { id }, EventView::Loaded(Ok(Some(monitor))), now) == (
        RunView::Baseline { monitor }),
        crate::engine::next_state(RunView::Load { id }, EventView::Loaded(Ok(None)), now) == (
        RunView::Finished { result: Err("monitor '"@ + id + "' not found"@) }),
        crate::engine::next_state(RunView::Load { id }, EventView::Loaded(Err(e)), now) == (
        RunView::Finished { result: Err(e) }),
{
}

/// The backend decides how the page is fetched, and the baseline that was loaded is the one that is
/// compared with; a baseline that could not be read counts as none.
pub proof fn law_run_fetches_by_backend(
    monitor: MonitorView,
    prev: Option<SnapshotView>,
    e: Seq<char>,
    now: Seq<char>,
)
    ensures
        ({
            let at = RunView::Baseline { monitor };
            let next = crate::engine::next_state(at, EventView::Baseline(Ok(prev)), now);
            let lost = crate::engine::next_state(at, EventView::Baseline(Err(e)), now);
            &&& monitor.backend == FetchBackend::Http ==> next == (RunView::Page { monitor, prev })
            &&& monitor.backend == FetchBackend::Spider ==> next == (RunView::Screen {
                monitor,
                prev,
            })
            &&& monitor.backend == FetchBackend::Agentbrowser ==> judged_by(
                next,
                monitor,
                Err(
                    "the agentbrowser backend is not yet integrated; use the http or spider backend"@,
                ),
                prev,
                now,
            )
            &&& lost == crate::engine::next_state(at, EventView::Baseline(Ok(None)), now)
        }),
{
    lemma_judging(
        monitor,
        Err("the agentbrowser backend is not yet integrated; use the http or spider backend"@),
        prev,
        now,
    );
}

/// The run has judged what was fetched: the verdict is recorded, or the numbers of a price are
/// asked for, with the page and the monitor as they were.
pub open spec fn judged_by(
    state: RunView,
    monitor: MonitorView,
    fetched: Result<FetchedView, Seq<char>>,
    prev: Option<SnapshotView>,
    now: Seq<char>,
) -> bool {
    match crate::engine::verdict_on(monitor.check, fetched, prev) {
        VerdictView::Outcome(outcome) => state is SaveSnapshot && records(
            state->SaveSnapshot_record,
            monitor,
            outcome,
            now,
        ),
        VerdictView::Measure { fetched, texts } => state == (RunView::Measure {
            monitor,
            fetched,
            texts,
        }),
    }
}

proof fn lemma_judging(
    monitor: MonitorView,
    fetched: Result<FetchedView, Seq<char>>,
    prev: Option<SnapshotView>,
    now: Seq<char>,
)
    ensures
        judged_by(crate::engine::judged(monitor, fetched, prev, now), monitor, fetched, prev, now),
{
    if let VerdictView::Outcome(outcome) = crate::engine::verdict_on(monitor.check, fetched, prev) {
        law_record_of_a_check(monitor, outcome, now);
    }
}

/// A page that was fetched over HTTP is judged with its code, its body and the time it took; a
/// fetch that failed with its reason.
pub proof fn law_run_judges_the_page(
    monitor: MonitorView,
    prev: Option<SnapshotView>,
    code: u16,
    body: Seq<char>,
    latency_ms: u64,
    e: Seq<char>,
    now: Seq<char>,
)
    ensures
        judged_by(
            crate::engine::next_state(
                RunView::Page { monitor, prev },
                EventView::Page { result: Ok((code, body)), latency_ms },
                now,
            ),
            monitor,
            Ok(FetchedView { http_status: Some(code), latency_ms, body }),
            prev,
            now,
        ),
        judged_by(
            crate::engine::next_state(
                RunView::Page { monitor, prev },
                EventView::Page { result: Err(e), latency_ms },
                now,
            ),
            monitor,
            Err(e),
            prev,
            now,
        ),
{
    lemma_judging(
        monitor,
        Ok(FetchedView { http_status: Some(code), latency_ms, body }),
        prev,
        now,
    );
    lemma_judging(monitor, Err(e), prev, now);
}

/// A screened URL is crawled; one that did not pass is judged as a failed fetch with the reason.
pub proof fn law_run_screens_before_it_crawls(
    monitor: MonitorView,
    prev: Option<SnapshotView>,
    e: Seq<char>,
    now: Seq<char>,
)
    ensures
        crate::engine::next_state(RunView::Screen { monitor, prev }, EventView::Screened(Ok(())), now) == (
        RunView::Crawl { monitor, prev }),
        judged_by(
            crate::engine::next_state(RunView::Screen { monitor, prev }, EventView::Screened(Err(e)), now),
            monitor,
            Err(e),
            prev,
            now,
        ),
{
    lemma_judging(monitor, Err(e), prev, now);
}

/// A crawl is judged by its text, without a code and with the time it took; one that was refused by
/// the reason given, and one that failed by its error.
pub proof fn law_run_judges_the_crawl(
    monitor: MonitorView,
    prev: Option<SnapshotView>,
    answer: Json,
    latency_ms: u64,
    e: Seq<char>,
    now: Seq<char>,
)
    ensures
        ({
            let next = crate::engine::next_state(
                RunView::Crawl { monitor, prev },
                EventView::Crawled { result: Ok(answer), latency_ms },
                now,
            );
            &&& crate::json::crawl_refusal(answer) is None ==> judged_by(
                next,
                monitor,
                Ok(
                    FetchedView {
                        http_status: None,
                        latency_ms,
                        body: crate::json::crawl_text(answer),
                    },
                ),
                prev,
                now,
            )
            &&& crate::json::crawl_refusal(answer) matches Some(reason) ==> judged_by(
                next,
                monitor,
                Err(reason),
                prev,
                now,
            )
        }),
        judged_by(
            crate::engine::next_state(
                RunView::Crawl { monitor, prev },
                EventView::Crawled { result: Err(e), latency_ms },
                now,
            ),
            monitor,
            Err("spider crawl failed: "@ + e),
            prev,
            now,
        ),
{
    lemma_judging(
        monitor,
        Ok(FetchedView { http_status: None, latency_ms, body: crate::json::crawl_text(answer) }),
        prev,
        now,
    );
    if let Some(reason) = crate::json::crawl_refusal(answer) {
        lemma_judging(monitor, Err(reason), prev, now);
    }
    lemma_judging(monitor, Err("spider crawl failed: "@ + e), prev, now);
}

/// A price whose numbers were read is judged by the comparator and the threshold of its monitor, and
/// recorded.
pub proof fn law_run_judges_the_price(
    monitor: MonitorView,
    fetched: FetchedView,
    texts: PriceTextsView,
    figures: Option<Figures>,
    now: Seq<char>,
)
    requires
        monitor.check is Price,
    ensures
        ({
            let next = crate::engine::next_state(
                RunView::Measure { monitor, fetched, texts },
                EventView::Measured(figures),
                now,
            );
            &&& next is SaveSnapshot
            &&& records(
                next->SaveSnapshot_record,
                monitor,
                crate::check::price_outcome(
                    fetched,
                    monitor.check->Price_comparator,
                    monitor.check->Price_threshold,
                    texts,
                    figures,
                ),
                now,
            )
        }),
{
    law_record_of_a_check(
        monitor,
        crate::check::price_outcome(
            fetched,
            monitor.check->Price_comparator,
            monitor.check->Price_threshold,
            texts,
            figures,
        ),
        now,
    );
}

/// A record is stored in its parts: the snapshot, then the monitor, then the alert where there is
/// one, which is then delivered as it was stored, to the targets of the monitor. The run ends with
/// the status of the check. A write that failed does not stop it; an alert that was not stored is
/// not delivered.
pub proof fn law_run_stores_the_record(
    record: RecordView,
    snapshot_saved: Result<i64, Seq<char>>,
    monitor_saved: Result<(), Seq<char>>,
    stored: AlertView,
    e: Seq<char>,
    now: Seq<char>,
)
    ensures
        ({
            let done = RunView::Finished { result: Ok(record.status) };
            let one = crate::engine::next_state(
                RunView::SaveSnapshot { record },
                EventView::SnapshotSaved(snapshot_saved),
                now,
            );
            let two = crate::engine::next_state(one, EventView::MonitorSaved(monitor_saved), now);
            let three = crate::engine::next_state(two, EventView::AlertSaved(Ok(stored)), now);
            &&& one == (RunView::SaveMonitor { record })
            &&& record.alert is None ==> two == done
            &&& record.alert matches Some(alert) ==> {
                &&& two == (RunView::SaveAlert {
                    alert,
                    targets: record.monitor.notify,
                    status: record.status,
                })
                &&& three == (RunView::Deliver {
                    alert: stored,
                    targets: record.monitor.notify,
                    status: record.status,
                })
                &&& crate::engine::next_state(three, EventView::Delivered, now) == done
                &&& crate::engine::next_state(two, EventView::AlertSaved(Err(e)), now) == done
            }
        }),
{
}

/// A finished run stays finished.
pub proof fn law_finished_runs_stay(
    result: Result<CheckStatus, Seq<char>>,
    event: EventView,
    now: Seq<char>,
)
    ensures
        crate::engine::next_state(RunView::Finished { result }, event, now) == (RunView::Finished {
            result,
        }),
{
}

// ---- two runs -------------------------------------------------------------

/// A snapshot as it comes back from the store under the id that the store gave it.
pub open spec fn stored(s: SnapshotView, id: i64) -> SnapshotView {
    crate::store::snapshot_of_row(SnapshotRowView { id, ..crate::store::row_of_snapshot(s) })
}

/// The record of a run over HTTP that got a page.
pub open spec fn page_run(
    monitor: MonitorView,
    prev: Option<SnapshotView>,
    page: FetchedView,
    now: Seq<char>,
) -> RecordView {
    crate::engine::next_state(
        RunView::Page { monitor, prev },
        EventView::Page {
            result: Ok((page.http_status->0, page.body)),
            latency_ms: page.latency_ms,
        },
        now,
    )->SaveSnapshot_record
}

/// A run whose check came to an outcome is followed by a run that compares with that outcome: what
/// the store gives back has its value and its hash.
proof fn lemma_two_runs(
    monitor: MonitorView,
    prev: Option<SnapshotView>,
    first: FetchedView,
    second: FetchedView,
    id: i64,
    now: Seq<char>,
    later: Seq<char>,
)
    requires
        !(monitor.check is Price),
        first.http_status is Some,
        second.http_status is Some,
    ensures
        ({
            let one = page_run(monitor, prev, first, now);
            let two = page_run(one.monitor, Some(stored(one.snapshot, id)), second, later);
            let outcome = super::checks::outcome_of(
                crate::engine::verdict_on(monitor.check, Ok(first), prev),
            );
            let next = super::checks::outcome_of(
                crate::engine::verdict_on(monitor.check, Ok(second), Some(stored(one.snapshot, id))),
            );
            &&& records(one, monitor, outcome, now)
            &&& records(two, one.monitor, next, later)
            &&& stored(one.snapshot, id).value == outcome.value
            &&& stored(one.snapshot, id).content_hash == outcome.content_hash
        }),
{
    let one = page_run(monitor, prev, first, now);
    law_run_judges_the_page(
        monitor,
        prev,
        first.http_status->0,
        first.body,
        first.latency_ms,
        seq![],
        now,
    );
    law_run_judges_the_page(
        one.monitor,
        Some(stored(one.snapshot, id)),
        second.http_status->0,
        second.body,
        second.latency_ms,
        seq![],
        later,
    );
    crate::store::law_snapshot_round_trip(one.snapshot, id);
}

/// A content monitor that runs twice alerts on the second run exactly when the hashes of the two
/// watched texts differ, whatever the first run came to.
pub proof fn law_content_monitor_runs_twice(
    monitor: MonitorView,
    region_regex: Option<String>,
    prev: Option<SnapshotView>,
    first: FetchedView,
    second: FetchedView,
    id: i64,
    now: Seq<char>,
    later: Seq<char>,
)
    requires
        monitor.check == (CheckType::ContentDiff { region_regex }),
        first.http_status is Some,
        second.http_status is Some,
    ensures
        ({
            let one = page_run(monitor, prev, first, now);
            let two = page_run(one.monitor, Some(stored(one.snapshot, id)), second, later);
            let region = match region_regex {
                Some(re) => Some(re@),
                None => None,
            };
            let before = crate::text::joined(crate::text::words(crate::check::region_of(first.body, region)));
            let after = crate::text::joined(crate::text::words(crate::check::region_of(second.body, region)));
            let changed = crate::check::text_hash(before) != crate::check::text_hash(after);
            &&& one.snapshot.content_hash == Some(crate::check::text_hash(before))
            &&& two.snapshot.content_hash == Some(crate::check::text_hash(after))
            &&& two.alert is Some <==> changed
            &&& two.status == CheckStatus::Triggered <==> changed
            &&& changed ==> two.alert->0.kind == "content_change"@
        }),
{
    lemma_two_runs(monitor, prev, first, second, id, now, later);
    let one = page_run(monitor, prev, first, now);
    super::checks::law_content_of_a_page(first, region_regex, prev);
    super::checks::law_content_of_a_page(second, region_regex, Some(stored(one.snapshot, id)));
}

/// An uptime monitor that runs twice alerts on the second run exactly when one of the two pages had
/// an expected code and the other had not.
pub proof fn law_uptime_monitor_runs_twice(
    monitor: MonitorView,
    prev: Option<SnapshotView>,
    first: FetchedView,
    second: FetchedView,
    id: i64,
    now: Seq<char>,
    later: Seq<char>,
    expect_status: Vec<u16>,
)
    requires
        monitor.check == (CheckType::Uptime { expect_status }),
        expect_status@.len() == 0,
        first.http_status is Some,
        second.http_status is Some,
    ensures
        ({
            let one = page_run(monitor, prev, first, now);
            let two = page_run(one.monitor, Some(stored(one.snapshot, id)), second, later);
            let was_up = 200 <= first.http_status->0 < 400;
            let is_up = 200 <= second.http_status->0 < 400;
            &&& two.alert is Some <==> was_up != is_up
            &&& two.status == CheckStatus::Triggered <==> was_up != is_up
            &&& is_up && !was_up ==> two.alert->0.kind == "uptime_up"@
            &&& was_up && !is_up ==> two.alert->0.kind == "uptime_down"@
        }),
{
    lemma_two_runs(monitor, prev, first, second, id, now, later);
    let one = page_run(monitor, prev, first, now);
    super::checks::law_uptime_of_a_page(first, expect_status, prev);
    super::checks::law_uptime_of_a_page(second, expect_status, Some(stored(one.snapshot, id)));
    reveal_strlit("up");
    reveal_strlit("down");
    assert("up"@.len() != "down"@.len());
}

/// A keyword monitor that runs twice alerts on the second run exactly when the keyword came, or
/// went, in between and that is the change asked for.
pub proof fn law_keyword_monitor_runs_twice(
    monitor: MonitorView,
    pattern: String,
    is_regex: bool,
    case_sensitive: bool,
    alert_when_present: bool,
    prev: Option<SnapshotView>,
    first: FetchedView,
    second: FetchedView,
    id: i64,
    now: Seq<char>,
    later: Seq<char>,
)
    requires
        monitor.check == (CheckType::Keyword {
            pattern,
            is_regex,
            case_sensitive,
            alert_when_present,
        }),
        first.http_status is Some,
        second.http_status is Some,
    ensures
        ({
            let one = page_run(monitor, prev, first, now);
            let two = page_run(one.monitor, Some(stored(one.snapshot, id)), second, later);
            let was = crate::check::pattern_found(first.body, pattern@, is_regex, case_sensitive);
            let found = crate::check::pattern_found(second.body, pattern@, is_regex, case_sensitive);
            &&& two.alert is Some <==> was != found && found == alert_when_present
            &&& two.status == CheckStatus::Triggered <==> was != found && found == alert_when_present
        }),
{
    lemma_two_runs(monitor, prev, first, second, id, now, later);
    let one = page_run(monitor, prev, first, now);
    super::checks::law_keyword_of_a_page(
        first,
        pattern,
        is_regex,
        case_sensitive,
        alert_when_present,
        prev,
    );
    super::checks::law_keyword_of_a_page(
        second,
        pattern,
        is_regex,
        case_sensitive,
        alert_when_present,
        Some(stored(one.snapshot, id)),
    );
    reveal_strlit("present");
    reveal_strlit("absent");
    assert("present"@.len() != "absent"@.len());
}

/// A stock monitor that runs twice alerts on the second run exactly when the item came in, or went
/// out, in between and that is the change asked for.
pub proof fn law_stock_monitor_runs_twice(
    monitor: MonitorView,
    in_stock_pattern: String,
    is_regex: bool,
    alert_when_in_stock: bool,
    prev: Option<SnapshotView>,
    first: FetchedView,
    second: FetchedView,
    id: i64,
    now: Seq<char>,
    later: Seq<char>,
)
    requires
        monitor.check == (CheckType::Stock { in_stock_pattern, is_regex, alert_when_in_stock }),
        first.http_status is Some,
        second.http_status is Some,
    ensures
        ({
            let one = page_run(monitor, prev, first, now);
            let two = page_run(one.monitor, Some(stored(one.snapshot, id)), second, later);
            let was = crate::check::pattern_found(first.body, in_stock_pattern@, is_regex, false);
            let found = crate::check::pattern_found(second.body, in_stock_pattern@, is_regex, false);
            &&& two.alert is Some <==> was != found && found == alert_when_in_stock
            &&& two.status == CheckStatus::Triggered <==> was != found && found == alert_when_in_stock
        }),
{
    lemma_two_runs(monitor, prev, first, second, id, now, later);
    let one = page_run(monitor, prev, first, now);
    super::checks::law_stock_of_a_page(
        first,
        in_stock_pattern,
        is_regex,
        alert_when_in_stock,
        prev,
    );
    super::checks::law_stock_of_a_page(
        second,
        in_stock_pattern,
        is_regex,
        alert_when_in_stock,
        Some(stored(one.snapshot, id)),
    );
    reveal_strlit("in_stock");
    reveal_strlit("out_of_stock");
    assert("in_stock"@.len() != "out_of_stock"@.len());
}

} // verus!
