//! Laws of views: the contracts see every field of every value.

use vstd::prelude::*;

use crate::api::{FeedStep, FeedView, MonitorBody, Reply, ReplyView, WriteEvent, WriteEventView};
use crate::api::{WriteState, WriteView};
use crate::check::PriceTexts;
use crate::engine::{CheckRecord, EventView, RunEvent, RunState, RunView, Verdict, VerdictView};
use crate::model::{Alert, CheckOutcome, Fetched, Monitor, PendingAlert, Snapshot};
use crate::notify::{HttpAnswer, PushMessage};
use crate::store::{AlertRow, SnapshotRow};

verus! {

/// The optional text reads so.
pub open spec fn reads(text: Option<String>, seen: Option<Seq<char>>) -> bool {
    match text {
        Some(t) => seen == Some(t@),
        None => seen is None,
    }
}

/// A monitor is seen with its whole definition and its rollup.
pub proof fn law_monitor_is_seen_whole(m: Monitor)
    ensures
        m@.id == m.id@,
        m@.name == m.name@,
        m@.url == m.url@,
        m@.backend == m.backend,
        m@.check == m.check,
        m@.interval == m.interval@,
        m@.enabled == m.enabled,
        m@.notify == m.notify@,
        m@.created_at == m.created_at@,
        m@.updated_at == m.updated_at@,
        m@.last_status == m.last_status,
        reads(m.last_check_at, m@.last_check_at),
        reads(m.last_value, m@.last_value),
{
}

/// A request body is seen with all its fields.
pub proof fn law_body_is_seen_whole(b: MonitorBody)
    ensures
        b@.name == b.name@,
        b@.url == b.url@,
        b@.backend == b.backend,
        b@.check == b.check,
        b@.interval == b.interval@,
        b@.enabled == b.enabled,
        b@.notify == b.notify@,
{
}

/// A snapshot is seen with all its fields.
pub proof fn law_snapshot_is_seen_whole(s: Snapshot)
    ensures
        s@.id == s.id,
        s@.monitor_id == s.monitor_id@,
        s@.checked_at == s.checked_at@,
        s@.status == s.status,
        s@.http_status == s.http_status,
        s@.latency_ms == s.latency_ms,
        reads(s.value, s@.value),
        reads(s.content_hash, s@.content_hash),
        reads(s.note, s@.note),
        s.deep_view() == s@,
{
}

/// An alert is seen with all its fields, stored or only raised.
pub proof fn law_alert_is_seen_whole(a: Alert, p: PendingAlert)
    ensures
        a@.id == a.id,
        a@.monitor_id == a.monitor_id@,
        a@.monitor_name == a.monitor_name@,
        a@.created_at == a.created_at@,
        a@.title == a.title@,
        a@.message == a.message@,
        a@.kind == a.kind@,
        a@.acknowledged == a.acknowledged,
        p@.title == p.title@,
        p@.message == p.message@,
        p@.kind == p.kind@,
        p.deep_view() == p@,
{
}

/// A page is seen with its code, its latency and its body; an attempt to fetch it by what came back.
pub proof fn law_page_is_seen_whole(f: Fetched, e: String)
    ensures
        f@.http_status == f.http_status,
        f@.latency_ms == f.latency_ms,
        f@.body == f.body@,
        crate::check::attempt(Ok(f)) == Ok::<crate::model::FetchedView, Seq<char>>(f@),
        crate::check::attempt(Err(e)) == Err::<crate::model::FetchedView, Seq<char>>(e@),
{
}

/// An outcome is seen with all its fields, and so are the texts of a price.
pub proof fn law_outcome_is_seen_whole(o: CheckOutcome, t: PriceTexts)
    ensures
        o@.status == o.status,
        o@.http_status == o.http_status,
        o@.latency_ms == o.latency_ms,
        reads(o.value, o@.value),
        reads(o.content_hash, o@.content_hash),
        reads(o.note, o@.note),
        o.alert matches Some(p) ==> o@.alert == Some(p@),
        o.alert is None ==> o@.alert is None,
        t@.raw == t.raw@,
        t@.value == t.value@,
        reads(t.previous, t@.previous),
{
}

/// A record is seen with all its parts.
pub proof fn law_record_is_seen_whole(r: CheckRecord)
    ensures
        r@.snapshot == r.snapshot@,
        r@.monitor == r.monitor@,
        r.alert matches Some(a) ==> r@.alert == Some(a@),
        r.alert is None ==> r@.alert is None,
        r@.status == r.status,
{
}

/// Stored rows are seen column by column.
pub proof fn law_rows_are_seen_whole(s: SnapshotRow, a: AlertRow)
    ensures
        s@.id == s.id,
        s@.monitor_id == s.monitor_id@,
        s@.checked_at == s.checked_at@,
        s@.status == s.status@,
        s@.http_status == s.http_status,
        s@.latency_ms == s.latency_ms,
        reads(s.value, s@.value),
        reads(s.content_hash, s@.content_hash),
        reads(s.note, s@.note),
        a@.id == a.id,
        a@.monitor_id == a.monitor_id@,
        a@.monitor_name == a.monitor_name@,
        a@.created_at == a.created_at@,
        a@.title == a.title@,
        a@.message == a.message@,
        a@.kind == a.kind@,
        a@.acknowledged == a.acknowledged,
{
}

/// A verdict is seen by its outcome, or by the page and the texts to be read.
pub proof fn law_verdict_is_seen_whole(v: Verdict)
    ensures
        v matches Verdict::Outcome(o) ==> v@ == VerdictView::Outcome(o@),
        v matches Verdict::Measure { fetched, texts } ==> v@ == (VerdictView::Measure {
            fetched: fetched@,
            texts: texts@,
        }),
{
}

/// A run is seen by its state, with everything that the state carries.
pub proof fn law_run_is_seen_whole(r: RunState)
    ensures
        r matches RunState::Load { id } ==> r@ == (RunView::Load { id: id@ }),
        r matches RunState::Baseline { monitor } ==> r@ == (RunView::Baseline { monitor: monitor@ }),
        r matches RunState::Page { monitor, prev } ==> r@ == (RunView::Page {
            monitor: monitor@,
            prev: prev.deep_view(),
        }),
        r matches RunState::Screen { monitor, prev } ==> r@ == (RunView::Screen {
            monitor: monitor@,
            prev: prev.deep_view(),
        }),
        r matches RunState::Crawl { monitor, prev } ==> r@ == (RunView::Crawl {
            monitor: monitor@,
            prev: prev.deep_view(),
        }),
        r matches RunState::Measure { monitor, fetched, texts } ==> r@ == (RunView::Measure {
            monitor: monitor@,
            fetched: fetched@,
            texts: texts@,
        }),
        r matches RunState::SaveSnapshot { record } ==> r@ == (RunView::SaveSnapshot {
            record: record@,
        }),
        r matches RunState::SaveMonitor { record } ==> r@ == (RunView::SaveMonitor {
            record: record@,
        }),
        r matches RunState::SaveAlert { alert, targets, status } ==> r@ == (RunView::SaveAlert {
            alert: alert@,
            targets: targets@,
            status,
        }),
        r matches RunState::Deliver { alert, targets, status } ==> r@ == (RunView::Deliver {
            alert: alert@,
            targets: targets@,
            status,
        }),
        r matches RunState::Finished { result: Ok(status) } ==> r@ == (RunView::Finished {
            result: Ok(status),
        }),
        r matches RunState::Finished { result: Err(e) } ==> r@ == (RunView::Finished {
            result: Err(e@),
        }),
{
}

/// An answer to a run is seen with everything that it says.
pub proof fn law_answer_is_seen_whole(r: RunEvent)
    ensures
        r matches RunEvent::Loaded(Ok(Some(m))) ==> r@ == EventView::Loaded(Ok(Some(m@))),
        r matches RunEvent::Loaded(Ok(None)) ==> r@ == EventView::Loaded(Ok(None)),
        r matches RunEvent::Loaded(Err(e)) ==> r@ == EventView::Loaded(Err(e@)),
        r matches RunEvent::Baseline(Ok(prev)) ==> r@ == EventView::Baseline(Ok(prev.deep_view())),
        r matches RunEvent::Baseline(Err(e)) ==> r@ == EventView::Baseline(Err(e@)),
        r matches RunEvent::Page { result: Ok(page), latency_ms } ==> r@ == (EventView::Page {
            result: Ok((page.0, page.1@)),
            latency_ms,
        }),
        r matches RunEvent::Page { result: Err(e), latency_ms } ==> r@ == (EventView::Page {
            result: Err(e@),
            latency_ms,
        }),
        r matches RunEvent::Screened(Ok(_)) ==> (r@ matches EventView::Screened(Ok(_))),
        r matches RunEvent::Screened(Err(e)) ==> r@ == EventView::Screened(Err(e@)),
        r matches RunEvent::Crawled { result: Ok(answer), latency_ms } ==> r@ == (
        EventView::Crawled { result: Ok(answer), latency_ms }),
        r matches RunEvent::Crawled { result: Err(e), latency_ms } ==> r@ == (EventView::Crawled {
            result: Err(e@),
            latency_ms,
        }),
        r matches RunEvent::Measured(figures) ==> r@ == EventView::Measured(figures),
        r matches RunEvent::SnapshotSaved(Ok(id)) ==> r@ == EventView::SnapshotSaved(Ok(id)),
        r matches RunEvent::SnapshotSaved(Err(e)) ==> r@ == EventView::SnapshotSaved(Err(e@)),
        r matches RunEvent::MonitorSaved(Ok(_)) ==> (r@ matches EventView::MonitorSaved(Ok(_))),
        r matches RunEvent::MonitorSaved(Err(e)) ==> r@ == EventView::MonitorSaved(Err(e@)),
        r matches RunEvent::AlertSaved(Ok(a)) ==> r@ == EventView::AlertSaved(Ok(a@)),
        r matches RunEvent::AlertSaved(Err(e)) ==> r@ == EventView::AlertSaved(Err(e@)),
        r is Delivered ==> r@ is Delivered,
{
}

/// A reply and a write are seen with everything that they carry.
pub proof fn law_write_is_seen_whole(r: Reply, w: WriteState)
    ensures
        r matches Reply::Monitor(m) ==> r@ == ReplyView::Monitor(m@),
        r matches Reply::Checked(status) ==> r@ == ReplyView::Checked(status),
        r is Done ==> r@ is Done,
        r matches Reply::Invalid(e) ==> r@ == ReplyView::Invalid(e@),
        r is NotFound ==> r@ is NotFound,
        r matches Reply::Failed(e) ==> r@ == ReplyView::Failed(e@),
        w matches WriteState::Load { id, body } ==> w@ == (WriteView::Load { id: id@, body: body@ }),
        w matches WriteState::Save { monitor } ==> w@ == (WriteView::Save { monitor: monitor@ }),
        w matches WriteState::Schedule { monitor } ==> w@ == (WriteView::Schedule {
            monitor: monitor@,
        }),
        w matches WriteState::Finished { reply } ==> w@ == (WriteView::Finished { reply: reply@ }),
{
}

/// An answer to a write is seen with everything that it says.
pub proof fn law_write_answer_is_seen_whole(r: WriteEvent)
    ensures
        r matches WriteEvent::Loaded(Ok(Some(m))) ==> r@ == WriteEventView::Loaded(Ok(Some(m@))),
        r matches WriteEvent::Loaded(Ok(None)) ==> r@ == WriteEventView::Loaded(Ok(None)),
        r matches WriteEvent::Loaded(Err(e)) ==> r@ == WriteEventView::Loaded(Err(e@)),
        r matches WriteEvent::Saved(Ok(_)) ==> (r@ matches WriteEventView::Saved(Ok(_))),
        r matches WriteEvent::Saved(Err(e)) ==> r@ == WriteEventView::Saved(Err(e@)),
        r matches WriteEvent::Scheduled(Ok(_)) ==> (r@ matches WriteEventView::Scheduled(Ok(_))),
        r matches WriteEvent::Scheduled(Err(e)) ==> r@ == WriteEventView::Scheduled(Err(e@)),
{
}

/// A step of the alert stream, a push message and an HTTP answer are seen with what they carry.
pub proof fn law_sent_things_are_seen_whole(
    step: FeedStep,
    message: PushMessage<'_>,
    answer: HttpAnswer,
    e: String,
)
    ensures
        step matches FeedStep::Comment(t) ==> step@ == FeedView::Comment(t@),
        step matches FeedStep::Data(t) ==> step@ == FeedView::Data(t@),
        step is Receive ==> step@ is Receive,
        step is End ==> step@ is End,
        message@.to == message.to@,
        message@.title == message.title@,
        message@.body == message.body@,
        message@.sound == message.sound@,
        message@.data == *message.data,
        crate::notify::answered(Ok(answer)) == Ok::<(u16, Seq<char>), Seq<char>>(
            (answer.code, answer.shown@),
        ),
        crate::notify::answered(Err(e)) == Err::<(u16, Seq<char>), Seq<char>>(e@),
        crate::text::told(Err(e)) == Err::<(), Seq<char>>(e@),
        crate::text::told(Ok(())) is Ok,
{
}

} // verus!
