//! What the store keeps: the rows of snapshots and alerts, and how they are read back.

use vstd::prelude::*;

use crate::model::{Alert, AlertView, CheckStatus, Monitor, MonitorView, Snapshot, SnapshotView};
use crate::text::str_eq;

verus! {

// ---- status words ---------------------------------------------------------

/// The word that a status is stored as.
pub open spec fn status_word(s: CheckStatus) -> Seq<char> {
    match s {
        CheckStatus::Okay => "ok"@,
        CheckStatus::Triggered => "triggered"@,
        CheckStatus::Error => "error"@,
    }
}

/// The status that a stored word stands for; a word that is not known stands for okay.
pub open spec fn word_status(word: Seq<char>) -> CheckStatus {
    if word == "triggered"@ {
        CheckStatus::Triggered
    } else if word == "error"@ {
        CheckStatus::Error
    } else {
        CheckStatus::Okay
    }
}

/// The word that a status is stored as.
pub fn status_str(s: CheckStatus) -> (r: &'static str)
    ensures
        r@ == status_word(s),
{
    match s {
        CheckStatus::Okay => "ok",
        CheckStatus::Triggered => "triggered",
        CheckStatus::Error => "error",
    }
}

/// The status that a stored word stands for.
pub fn status_from_str(s: &str) -> (r: CheckStatus)
    ensures
        r == word_status(s@),
{
    if str_eq(s, "triggered") {
        CheckStatus::Triggered
    } else if str_eq(s, "error") {
        CheckStatus::Error
    } else {
        CheckStatus::Okay
    }
}

/// A status is read back as it was stored.
pub proof fn law_status_round_trip(s: CheckStatus)
    ensures
        word_status(status_word(s)) == s,
{
    reveal_strlit("ok");
    reveal_strlit("triggered");
    reveal_strlit("error");
    assert("ok"@.len() != "triggered"@.len());
    assert("ok"@.len() != "error"@.len());
    assert("error"@.len() != "triggered"@.len());
}

// ---- snapshots ------------------------------------------------------------

/// A row of the snapshots table. The table holds signed integers only.
pub struct SnapshotRow {
    pub id: i64,
    pub monitor_id: String,
    pub checked_at: String,
    pub status: String,
    pub http_status: Option<u16>,
    pub latency_ms: Option<i64>,
    pub value: Option<String>,
    pub content_hash: Option<String>,
    pub note: Option<String>,
}

/// What a row of the snapshots table holds.
pub struct SnapshotRowView {
    pub id: i64,
    pub monitor_id: Seq<char>,
    pub checked_at: Seq<char>,
    pub status: Seq<char>,
    pub http_status: Option<u16>,
    pub latency_ms: Option<i64>,
    pub value: Option<Seq<char>>,
    pub content_hash: Option<Seq<char>>,
    pub note: Option<Seq<char>>,
}

impl View for SnapshotRow {
    type V = SnapshotRowView;

    open spec fn view(&self) -> SnapshotRowView {
        SnapshotRowView {
            id: self.id,
            monitor_id: self.monitor_id@,
            checked_at: self.checked_at@,
            status: self.status@,
            http_status: self.http_status,
            latency_ms: self.latency_ms,
            value: self.value.deep_view(),
            content_hash: self.content_hash.deep_view(),
            note: self.note.deep_view(),
        }
    }
}

/// The row of a snapshot: the latency keeps its 64 bits.
pub open spec fn row_of_snapshot(s: SnapshotView) -> SnapshotRowView {
    SnapshotRowView {
        id: s.id,
        monitor_id: s.monitor_id,
        checked_at: s.checked_at,
        status: status_word(s.status),
        http_status: s.http_status,
        latency_ms: match s.latency_ms {
            Some(v) => Some(#[verifier::truncate] (v as i64)),
            None => None,
        },
        value: s.value,
        content_hash: s.content_hash,
        note: s.note,
    }
}

/// The snapshot that a row holds.
pub open spec fn snapshot_of_row(row: SnapshotRowView) -> SnapshotView {
    SnapshotView {
        id: row.id,
        monitor_id: row.monitor_id,
        checked_at: row.checked_at,
        status: word_status(row.status),
        http_status: row.http_status,
        latency_ms: match row.latency_ms {
            Some(v) => Some(#[verifier::truncate] (v as u64)),
            None => None,
        },
        value: row.value,
        content_hash: row.content_hash,
        note: row.note,
    }
}

/// The row to insert for a snapshot.
pub fn snapshot_row(s: &Snapshot) -> (r: SnapshotRow)
    ensures
        r@ == row_of_snapshot(s@),
{
    SnapshotRow {
        id: s.id,
        monitor_id: s.monitor_id.clone(),
        checked_at: s.checked_at.clone(),
        status: status_str(s.status).to_string(),
        http_status: s.http_status,
        latency_ms: match s.latency_ms {
            Some(v) => Some(#[verifier::truncate] (v as i64)),
            None => None,
        },
        value: s.value.clone(),
        content_hash: s.content_hash.clone(),
        note: s.note.clone(),
    }
}

/// Read a snapshot from its row.
pub fn map_snapshot(row: SnapshotRow) -> (r: Snapshot)
    ensures
        r@ == snapshot_of_row(row@),
{
    Snapshot {
        id: row.id,
        monitor_id: row.monitor_id,
        checked_at: row.checked_at,
        status: status_from_str(row.status.as_str()),
        http_status: row.http_status,
        latency_ms: match row.latency_ms {
            Some(v) => Some(#[verifier::truncate] (v as u64)),
            None => None,
        },
        value: row.value,
        content_hash: row.content_hash,
        note: row.note,
    }
}

/// A snapshot is read back as it was stored, under the id that the store gave it: the baseline of
/// the next check is the record of this one.
pub proof fn law_snapshot_round_trip(s: SnapshotView, id: i64)
    ensures
        snapshot_of_row(SnapshotRowView { id, ..row_of_snapshot(s) }) == (SnapshotView { id, ..s }),
{
    law_status_round_trip(s.status);
    if let Some(v) = s.latency_ms {
        assert(#[verifier::truncate] ((#[verifier::truncate] (v as i64)) as u64) == v)
            by (bit_vector);
    }
}

// ---- alerts ---------------------------------------------------------------

/// A row of the alerts table.
pub struct AlertRow {
    pub id: i64,
    pub monitor_id: String,
    pub monitor_name: String,
    pub created_at: String,
    pub title: String,
    pub message: String,
    pub kind: String,
    pub acknowledged: i64,
}

/// What a row of the alerts table holds.
pub struct AlertRowView {
    pub id: i64,
    pub monitor_id: Seq<char>,
    pub monitor_name: Seq<char>,
    pub created_at: Seq<char>,
    pub title: Seq<char>,
    pub message: Seq<char>,
    pub kind: Seq<char>,
    pub acknowledged: i64,
}

impl View for AlertRow {
    type V = AlertRowView;

    open spec fn view(&self) -> AlertRowView {
        AlertRowView {
            id: self.id,
            monitor_id: self.monitor_id@,
            monitor_name: self.monitor_name@,
            created_at: self.created_at@,
            title: self.title@,
            message: self.message@,
            kind: self.kind@,
            acknowledged: self.acknowledged,
        }
    }
}

/// The row that an alert is stored as under an id: not acknowledged.
pub open spec fn row_of_alert(alert: AlertView, id: i64) -> AlertRowView {
    AlertRowView {
        id,
        monitor_id: alert.monitor_id,
        monitor_name: alert.monitor_name,
        created_at: alert.created_at,
        title: alert.title,
        message: alert.message,
        kind: alert.kind,
        acknowledged: 0,
    }
}

/// The alert that a row holds.
pub open spec fn alert_of_row(row: AlertRowView) -> AlertView {
    AlertView {
        id: row.id,
        monitor_id: row.monitor_id,
        monitor_name: row.monitor_name,
        created_at: row.created_at,
        title: row.title,
        message: row.message,
        kind: row.kind,
        acknowledged: row.acknowledged != 0,
    }
}

/// The row to insert for an alert; the table gives the id.
pub fn alert_row(alert: &Alert) -> (r: AlertRow)
    ensures
        r@ == row_of_alert(alert@, alert.id),
{
    AlertRow {
        id: alert.id,
        monitor_id: alert.monitor_id.clone(),
        monitor_name: alert.monitor_name.clone(),
        created_at: alert.created_at.clone(),
        title: alert.title.clone(),
        message: alert.message.clone(),
        kind: alert.kind.clone(),
        acknowledged: 0,
    }
}

/// Read an alert from its row.
pub fn map_alert(row: AlertRow) -> (r: Alert)
    ensures
        r@ == alert_of_row(row@),
{
    Alert {
        id: row.id,
        monitor_id: row.monitor_id,
        monitor_name: row.monitor_name,
        created_at: row.created_at,
        title: row.title,
        message: row.message,
        kind: row.kind,
        acknowledged: row.acknowledged != 0,
    }
}

/// The alert under the id that the store gave it.
pub fn stored_alert(alert: &Alert, id: i64) -> (r: Alert)
    ensures
        r@ == (AlertView { id, ..alert@ }),
{
    Alert {
        id,
        monitor_id: alert.monitor_id.clone(),
        monitor_name: alert.monitor_name.clone(),
        created_at: alert.created_at.clone(),
        title: alert.title.clone(),
        message: alert.message.clone(),
        kind: alert.kind.clone(),
        acknowledged: alert.acknowledged,
    }
}

/// A new alert is read back as it was handed on when it was stored.
pub proof fn law_alert_round_trip(alert: AlertView, id: i64)
    requires
        !alert.acknowledged,
    ensures
        alert_of_row(row_of_alert(alert, id)) == (AlertView { id, ..alert }),
{
}

// ---- monitors -------------------------------------------------------------

/// The monitors among the stored texts that could be read, in their order.
pub open spec fn readable(rows: Seq<Option<Monitor>>) -> Seq<MonitorView>
    decreases rows.len(),
{
    if rows.len() == 0 {
        seq![]
    } else {
        match rows.last() {
            Some(monitor) => readable(rows.drop_last()).push(monitor@),
            None => readable(rows.drop_last()),
        }
    }
}

/// Keep the monitors that could be read; a stored text that cannot be read is passed over.
pub fn readable_monitors(rows: Vec<Option<Monitor>>) -> (r: Vec<Monitor>)
    ensures
        r@.map_values(|m: Monitor| m@) == readable(rows@),
{
    let ghost all = rows@;
    let ghost seen = |m: Monitor| m@;
    let mut out: Vec<Monitor> = Vec::new();
    assert(out@.map_values(seen) == readable(all.take(0)));
    for row in it: rows
        invariant
            it.seq() == all,
            seen == (|m: Monitor| m@),
            out@.map_values(seen) == readable(all.take(it.index() as int)),
    {
        assert(all.take(it.index() as int + 1).drop_last() == all.take(it.index() as int));
        let ghost before = out@;
        match row {
            Some(monitor) => {
                out.push(monitor);
                assert(out@.map_values(seen) == before.map_values(seen).push(monitor@));
            },
            None => {},
        }
    }
    assert(all.take(all.len() as int) == all);
    out
}

} // verus!
