//! The decisions of the HTTP surface: what a request asks for, step by step, and what it is
//! answered.

use std::collections::HashMap;

use vstd::prelude::*;

use crate::boundary::{fresh_uuid, map_value, now_rfc3339, parse_scheme};
use crate::model::{CheckStatus, CheckType, FetchBackend, Monitor, MonitorView};
use crate::notify::NotifyTarget;
use crate::text::{is_blank, parse_unsigned, str_eq};

verus! {

// ---- request bodies -------------------------------------------------------

/// The default of a flag that is on where a request leaves it out.
pub fn default_true() -> (r: bool)
    ensures
        r,
{
    true
}

/// Request body for creating or updating a monitor.
#[derive(Debug)]
pub struct MonitorBody {
    /// Human-readable label for the watch (shown in the UI and in alerts).
    pub name: String,
    /// Absolute `http`/`https` URL of the page to watch. Any other scheme is rejected.
    pub url: String,
    /// How the page is fetched.
    pub backend: FetchBackend,
    /// What counts as a change worth alerting on.
    pub check: CheckType,
    /// How often to check: a duration (`5m`, `1h`) or a cron expression.
    pub interval: String,
    /// Whether the backing scheduled job runs.
    pub enabled: bool,
    /// Where to deliver alerts for this monitor, in addition to the node-level channels.
    pub notify: Vec<NotifyTarget>,
}

/// What a request body holds.
pub struct BodyView {
    pub name: Seq<char>,
    pub url: Seq<char>,
    pub backend: FetchBackend,
    pub check: CheckType,
    pub interval: Seq<char>,
    pub enabled: bool,
    pub notify: Seq<NotifyTarget>,
}

impl View for MonitorBody {
    type V = BodyView;

    open spec fn view(&self) -> BodyView {
        BodyView {
            name: self.name@,
            url: self.url@,
            backend: self.backend,
            check: self.check,
            interval: self.interval@,
            enabled: self.enabled,
            notify: self.notify@,
        }
    }
}

/// The wire shape of one alert destination, as the API document describes it: one variant for each
/// variant of `NotifyTarget`, tagged by `kind`.
#[derive(Debug)]
pub enum NotifyTargetSchema {
    /// Generic JSON POST; works with Slack and Discord incoming webhooks.
    Webhook {
        /// The incoming-webhook URL to POST the alert to.
        url: String,
    },
    /// Direct Telegram Bot API `sendMessage`.
    Telegram {
        /// Bot token from @BotFather.
        bot_token: String,
        /// Target chat id.
        chat_id: String,
    },
    /// One specific Expo push token, in addition to globally-registered devices.
    ExpoPush {
        /// The `ExponentPushToken[...]` value.
        token: String,
    },
    /// A single email recipient, sent through the node's configured SMTP transport.
    Email {
        /// Recipient address.
        to: String,
    },
}

// ---- validation -----------------------------------------------------------

/// What is wrong with a request body, given what its URL parsed to and whether its interval can be
/// scheduled: the first complaint of four, in this order.
pub open spec fn complaint(
    body: BodyView,
    parsed: Result<Seq<char>, Seq<char>>,
    interval_valid: bool,
) -> Result<(), Seq<char>> {
    match parsed {
        Err(e) => Err("invalid url: "@ + e),
        Ok(scheme) => if scheme != "http"@ && scheme != "https"@ {
            Err("url must be http or https"@)
        } else if crate::text::trimmed(body.name).len() == 0 {
            Err("name is required"@)
        } else if !interval_valid {
            Err(
                "interval '"@ + body.interval
                    + "' is neither a duration (e.g. 5m) nor a cron expression"@,
            )
        } else {
            Ok(())
        },
    }
}

/// Judge a request body by what its URL parsed to.
pub fn judge_body(body: &MonitorBody, parsed: Result<String, String>, interval_valid: bool) -> (r:
    Result<(), String>)
    ensures
        crate::text::told(r) == complaint(
            body@,
            match parsed {
                Ok(scheme) => Ok(scheme@),
                Err(e) => Err(e@),
            },
            interval_valid,
        ),
{
    let scheme = match parsed {
        Ok(scheme) => scheme,
        Err(e) => {
            return Err("invalid url: ".to_string().concat(e.as_str()));
        },
    };
    if !str_eq(scheme.as_str(), "http") && !str_eq(scheme.as_str(), "https") {
        return Err("url must be http or https".to_string());
    }
    if is_blank(body.name.as_str()) {
        return Err("name is required".to_string());
    }
    if !interval_valid {
        return Err(
            "interval '".to_string().concat(body.interval.as_str()).concat(
                "' is neither a duration (e.g. 5m) nor a cron expression",
            ),
        );
    }
    Ok(())
}

/// Validate a monitor body: a parseable http/https URL, a name, and an interval that can be
/// scheduled. Whether it can is decided by the host and handed in.
pub fn validate_body(body: &MonitorBody, interval_valid: bool) -> (r: Result<(), String>)
    ensures
        crate::text::told(r) == complaint(body@, crate::boundary::url_scheme(body@.url), interval_valid),
{
    judge_body(body, parse_scheme(body.url.as_str()), interval_valid)
}

/// A body is accepted exactly when its URL is http or https, its name is not blank and its interval
/// can be scheduled.
pub proof fn law_accepted_bodies(
    body: BodyView,
    parsed: Result<Seq<char>, Seq<char>>,
    interval_valid: bool,
)
    ensures
        complaint(body, parsed, interval_valid) is Ok <==> {
            &&& parsed == Ok::<Seq<char>, Seq<char>>("http"@) || parsed == Ok::<
                Seq<char>,
                Seq<char>,
            >("https"@)
            &&& !crate::text::blank(body.name)
            &&& interval_valid
        },
{
    crate::text::lemma_trimmed_empty(body.name);
}

/// The interval is judged last: where the rest of a body is refused, it makes no difference.
pub proof fn law_interval_is_judged_last(body: BodyView, parsed: Result<Seq<char>, Seq<char>>)
    ensures
        complaint(body, parsed, true) is Err ==> complaint(body, parsed, false) == complaint(
            body,
            parsed,
            true,
        ),
{
}

// ---- limits ---------------------------------------------------------------

/// The number of entries to list: the one asked for, or `default` where none is asked for or it is
/// no number, and never more than `cap`.
pub open spec fn bounded_limit(asked: Option<Seq<char>>, default: u32, cap: u32) -> int {
    let wanted = match asked {
        Some(s) => match crate::text::parsed_unsigned(s, 0xffff_ffff) {
            Some(n) => n as int,
            None => default as int,
        },
        None => default as int,
    };
    if wanted < cap {
        wanted
    } else {
        cap as int
    }
}

/// Read a limit.
pub fn limit(asked: Option<&str>, default: u32, cap: u32) -> (r: u32)
    ensures
        r == bounded_limit(asked.deep_view(), default, cap),
{
    let wanted: u32 = match asked {
        Some(s) => match parse_unsigned(s, 0xffff_ffff) {
            Some(n) => n as u32,
            None => default,
        },
        None => default,
    };
    if wanted < cap {
        wanted
    } else {
        cap
    }
}

/// What the query parameters hold under a key.
pub open spec fn query_text(params: Map<String, String>, key: Seq<char>) -> Option<Seq<char>> {
    if exists|k: String| #[trigger] params.contains_key(k) && k@ == key {
        let k = choose|k: String| #[trigger] params.contains_key(k) && k@ == key;
        Some(params[k]@)
    } else {
        None
    }
}

fn limit_param(params: &HashMap<String, String>, default: u32, cap: u32) -> (r: u32)
    ensures
        r == bounded_limit(query_text(params@, "limit"@), default, cap),
{
    match map_value(params, "limit") {
        Some(v) => limit(Some(v.as_str()), default, cap),
        None => limit(None, default, cap),
    }
}

/// How many alerts to list: 100, or the `limit` of the query, up to 1000.
pub fn alerts_limit(params: &HashMap<String, String>) -> (r: u32)
    ensures
        r == bounded_limit(query_text(params@, "limit"@), 100, 1000),
{
    limit_param(params, 100, 1000)
}

/// How many snapshots to list: 50, or the `limit` of the query, up to 500.
pub fn snapshots_limit(params: &HashMap<String, String>) -> (r: u32)
    ensures
        r == bounded_limit(query_text(params@, "limit"@), 50, 500),
{
    limit_param(params, 50, 500)
}

/// A limit never exceeds its cap, and a numeral up to the cap is taken as it is.
pub proof fn law_limits_are_capped(asked: Option<Seq<char>>, default: u32, cap: u32)
    requires
        default <= cap,
    ensures
        0 <= bounded_limit(asked, default, cap) <= cap,
        asked is None ==> bounded_limit(asked, default, cap) == default,
        asked matches Some(s) ==> (crate::text::is_numeral(s) && crate::text::numeral_value(s) <= cap
            ==> bounded_limit(asked, default, cap) == crate::text::numeral_value(s)),
{
    if let Some(s) = asked {
        if crate::text::is_numeral(s) {
            assert(crate::text::ascii_digit(s[0]));
        }
    }
}

// ---- monitors from bodies -------------------------------------------------

/// A new monitor: the body under an id, created now, never checked.
pub open spec fn created(body: BodyView, id: Seq<char>, now: Seq<char>) -> MonitorView {
    MonitorView {
        id,
        name: body.name,
        url: body.url,
        backend: body.backend,
        check: body.check,
        interval: body.interval,
        enabled: body.enabled,
        notify: body.notify,
        created_at: now,
        updated_at: now,
        last_check_at: None,
        last_status: None,
        last_value: None,
    }
}

/// An existing monitor with a new definition: its id, its creation time and its rollup stay.
pub open spec fn replaced(existing: MonitorView, body: BodyView, now: Seq<char>) -> MonitorView {
    MonitorView {
        id: existing.id,
        name: body.name,
        url: body.url,
        backend: body.backend,
        check: body.check,
        interval: body.interval,
        enabled: body.enabled,
        notify: body.notify,
        created_at: existing.created_at,
        updated_at: now,
        last_check_at: existing.last_check_at,
        last_status: existing.last_status,
        last_value: existing.last_value,
    }
}

/// The monitor of a new definition.
pub fn new_monitor(body: MonitorBody, id: String, now: &str) -> (r: Monitor)
    ensures
        r@ == created(body@, id@, now@),
{
    Monitor {
        id,
        name: body.name,
        url: body.url,
        backend: body.backend,
        check: body.check,
        interval: body.interval,
        enabled: body.enabled,
        notify: body.notify,
        created_at: now.to_string(),
        updated_at: now.to_string(),
        last_check_at: None,
        last_status: None,
        last_value: None,
    }
}

/// Replace the definition of a monitor.
pub fn replace_definition(existing: Monitor, body: MonitorBody, now: &str) -> (r: Monitor)
    ensures
        r@ == replaced(existing@, body@, now@),
{
    Monitor {
        id: existing.id,
        name: body.name,
        url: body.url,
        backend: body.backend,
        check: body.check,
        interval: body.interval,
        enabled: body.enabled,
        notify: body.notify,
        created_at: existing.created_at,
        updated_at: now.to_string(),
        last_check_at: existing.last_check_at,
        last_status: existing.last_status,
        last_value: existing.last_value,
    }
}

/// An id of a monitor: `mon_` and 32 lower-case hexadecimal digits.
pub open spec fn monitor_id_text(id: Seq<char>) -> bool {
    exists|digits: Seq<char>|
        id == "mon_"@ + digits && digits.len() == 32 && #[trigger] all_lower_hex(digits)
}

/// Every character is a lower-case hexadecimal digit.
pub open spec fn all_lower_hex(digits: Seq<char>) -> bool {
    forall|i: int| 0 <= i < digits.len() ==> crate::boundary::lower_hex(#[trigger] digits[i])
}

/// A fresh id for a monitor.
pub fn fresh_monitor_id() -> (r: String)
    ensures
        monitor_id_text(r@),
{
    let digits = fresh_uuid();
    assert(all_lower_hex(digits@));
    "mon_".to_string().concat(digits.as_str())
}

// ---- replies --------------------------------------------------------------

/// What a request on one monitor, one check or one alert is answered.
pub enum Reply {
    /// The monitor.
    Monitor(Monitor),
    /// The status of a check.
    Checked(CheckStatus),
    /// It was done.
    Done,
    /// The request cannot be met as it stands.
    Invalid(String),
    /// There is no such thing.
    NotFound,
    /// Something behind the API failed.
    Failed(String),
}

/// What a reply says.
pub enum ReplyView {
    Monitor(MonitorView),
    Checked(CheckStatus),
    Done,
    Invalid(Seq<char>),
    NotFound,
    Failed(Seq<char>),
}

impl View for Reply {
    type V = ReplyView;

    open spec fn view(&self) -> ReplyView {
        match self {
            Reply::Monitor(monitor) => ReplyView::Monitor(monitor@),
            Reply::Checked(status) => ReplyView::Checked(*status),
            Reply::Done => ReplyView::Done,
            Reply::Invalid(e) => ReplyView::Invalid(e@),
            Reply::NotFound => ReplyView::NotFound,
            Reply::Failed(e) => ReplyView::Failed(e@),
        }
    }
}

impl ReplyView {
    /// The HTTP code of a reply.
    pub open spec fn http_code(self) -> u16 {
        match self {
            ReplyView::Monitor(_) => 200,
            ReplyView::Checked(_) => 200,
            ReplyView::Done => 200,
            ReplyView::Invalid(_) => 400,
            ReplyView::NotFound => 404,
            ReplyView::Failed(_) => 500,
        }
    }

    /// The error text of a reply that is one.
    pub open spec fn error_text(self) -> Option<Seq<char>> {
        match self {
            ReplyView::Invalid(e) => Some(e),
            ReplyView::NotFound => Some("not found"@),
            ReplyView::Failed(e) => Some(e),
            _ => None,
        }
    }
}

impl Reply {
    /// The HTTP code of the reply.
    pub fn code(&self) -> (r: u16)
        ensures
            r == self@.http_code(),
    {
        match self {
            Reply::Monitor(_) => 200,
            Reply::Checked(_) => 200,
            Reply::Done => 200,
            Reply::Invalid(_) => 400,
            Reply::NotFound => 404,
            Reply::Failed(_) => 500,
        }
    }

    /// The error text of the reply, where it is an error.
    pub fn error(&self) -> (r: Option<String>)
        ensures
            r.deep_view() == self@.error_text(),
    {
        match self {
            Reply::Invalid(e) => Some(e.clone()),
            Reply::NotFound => Some("not found".to_string()),
            Reply::Failed(e) => Some(e.clone()),
            _ => None,
        }
    }
}

/// `GET /api/monitors/:id`: one monitor.
pub fn get_monitor(loaded: Result<Option<Monitor>, String>) -> (r: Reply)
    ensures
        r@ == match loaded {
            Ok(Some(monitor)) => ReplyView::Monitor(monitor@),
            Ok(None) => ReplyView::NotFound,
            Err(e) => ReplyView::Failed(e@),
        },
{
    match loaded {
        Ok(Some(monitor)) => Reply::Monitor(monitor),
        Ok(None) => Reply::NotFound,
        Err(e) => Reply::Failed(e),
    }
}

/// What is answered where something was to be changed: done, not found, or failed.
pub open spec fn change_reply(changed: Result<bool, Seq<char>>) -> ReplyView {
    match changed {
        Ok(true) => ReplyView::Done,
        Ok(false) => ReplyView::NotFound,
        Err(e) => ReplyView::Failed(e),
    }
}

fn reply_to_change(changed: Result<bool, String>) -> (r: Reply)
    ensures
        r@ == change_reply(
            match changed {
                Ok(b) => Ok(b),
                Err(e) => Err(e@),
            },
        ),
{
    match changed {
        Ok(true) => Reply::Done,
        Ok(false) => Reply::NotFound,
        Err(e) => Reply::Failed(e),
    }
}

/// `DELETE /api/monitors/:id`: the answer, given whether the store removed a monitor.
pub fn delete_monitor(removed: Result<bool, String>) -> (r: Reply)
    ensures
        r@ == change_reply(
            match removed {
                Ok(b) => Ok(b),
                Err(e) => Err(e@),
            },
        ),
{
    reply_to_change(removed)
}

/// `POST /api/monitors/alerts/:id/ack`: the answer, given whether the store changed an alert.
pub fn ack_alert(acknowledged: Result<bool, String>) -> (r: Reply)
    ensures
        r@ == change_reply(
            match acknowledged {
                Ok(b) => Ok(b),
                Err(e) => Err(e@),
            },
        ),
{
    reply_to_change(acknowledged)
}

/// `POST /api/monitors/:id/run`: the answer, given how the run ended.
pub fn run_monitor(finished: Result<CheckStatus, String>) -> (r: Reply)
    ensures
        r@ == match finished {
            Ok(status) => ReplyView::Checked(status),
            Err(e) => ReplyView::Invalid(e@),
        },
{
    match finished {
        Ok(status) => Reply::Checked(status),
        Err(e) => Reply::Invalid(e),
    }
}

/// A list, and why it is empty where the store could not be read.
pub fn listing<T>(listed: Result<Vec<T>, String>) -> (r: (Vec<T>, Option<String>))
    ensures
        match listed {
            Ok(items) => r.0@ == items@ && r.1 is None,
            Err(e) => r.0@.len() == 0 && r.1.deep_view() == Some(e@),
        },
{
    match listed {
        Ok(items) => (items, None),
        Err(e) => (Vec::new(), Some(e)),
    }
}

/// The health of the service.
pub struct Health {
    /// The HTTP code.
    pub code: u16,
    pub ok: bool,
    /// How many monitors there are, where the store can be read.
    pub monitor_count: Option<usize>,
    pub error: Option<String>,
}

/// The health probe: the service is well where its store can be read.
pub fn health(listed: Result<Vec<Monitor>, String>) -> (r: Health)
    ensures
        match listed {
            Ok(monitors) => r.code == 200 && r.ok && r.monitor_count == Some(monitors@.len() as usize)
                && r.error is None,
            Err(e) => r.code == 503 && !r.ok && r.monitor_count is None && r.error.deep_view() == Some(
                e@,
            ),
        },
{
    match listed {
        Ok(monitors) => Health {
            code: 200,
            ok: true,
            monitor_count: Some(monitors.len()),
            error: None,
        },
        Err(e) => Health { code: 503, ok: false, monitor_count: None, error: Some(e) },
    }
}

// ---- writing a monitor ----------------------------------------------------

/// How far a request to create or update a monitor has come, and with that what is to be done next.
pub enum WriteState {
    /// Load the monitor that is to be updated.
    Load { id: String, body: MonitorBody },
    /// Store the monitor.
    Save { monitor: Monitor },
    /// Create or replace the scheduled job of the monitor.
    Schedule { monitor: Monitor },
    /// Answer the request.
    Finished { reply: Reply },
}

/// What a write is at.
pub enum WriteView {
    Load { id: Seq<char>, body: BodyView },
    Save { monitor: MonitorView },
    Schedule { monitor: MonitorView },
    Finished { reply: ReplyView },
}

impl View for WriteState {
    type V = WriteView;

    open spec fn view(&self) -> WriteView {
        match self {
            WriteState::Load { id, body } => WriteView::Load { id: id@, body: body@ },
            WriteState::Save { monitor } => WriteView::Save { monitor: monitor@ },
            WriteState::Schedule { monitor } => WriteView::Schedule { monitor: monitor@ },
            WriteState::Finished { reply } => WriteView::Finished { reply: reply@ },
        }
    }
}

/// The answer to what a write asked for.
pub enum WriteEvent {
    /// The existing monitor, or none, or why the store could not be read.
    Loaded(Result<Option<Monitor>, String>),
    /// The monitor was stored, or why not.
    Saved(Result<(), String>),
    /// The job was written, or why not.
    Scheduled(Result<(), String>),
}

/// What an answer to a write says.
pub enum WriteEventView {
    Loaded(Result<Option<MonitorView>, Seq<char>>),
    Saved(Result<(), Seq<char>>),
    Scheduled(Result<(), Seq<char>>),
}

impl View for WriteEvent {
    type V = WriteEventView;

    open spec fn view(&self) -> WriteEventView {
        match self {
            WriteEvent::Loaded(Ok(Some(monitor))) => WriteEventView::Loaded(Ok(Some(monitor@))),
            WriteEvent::Loaded(Ok(None)) => WriteEventView::Loaded(Ok(None)),
            WriteEvent::Loaded(Err(e)) => WriteEventView::Loaded(Err(e@)),
            WriteEvent::Saved(r) => WriteEventView::Saved(crate::text::told(*r)),
            WriteEvent::Scheduled(r) => WriteEventView::Scheduled(crate::text::told(*r)),
        }
    }
}

/// Where a request to create a monitor begins, once its body has been judged.
pub open spec fn create_begins(
    body: BodyView,
    checked: Result<(), Seq<char>>,
    id: Seq<char>,
    now: Seq<char>,
) -> WriteView {
    match checked {
        Ok(_) => WriteView::Save { monitor: created(body, id, now) },
        Err(e) => WriteView::Finished { reply: ReplyView::Invalid(e) },
    }
}

/// Where a request to update a monitor begins, once its body has been judged.
pub open spec fn update_begins(
    id: Seq<char>,
    body: BodyView,
    checked: Result<(), Seq<char>>,
) -> WriteView {
    match checked {
        Ok(_) => WriteView::Load { id, body },
        Err(e) => WriteView::Finished { reply: ReplyView::Invalid(e) },
    }
}

/// Where a write goes with an answer. An answer that it did not ask for changes nothing.
pub open spec fn next_write(state: WriteView, event: WriteEventView, now: Seq<char>) -> WriteView {
    match (state, event) {
        (WriteView::Load { id, body }, WriteEventView::Loaded(loaded)) => match loaded {
            Ok(Some(existing)) => WriteView::Save { monitor: replaced(existing, body, now) },
            Ok(None) => WriteView::Finished { reply: ReplyView::NotFound },
            Err(e) => WriteView::Finished { reply: ReplyView::Failed(e) },
        },
        (WriteView::Save { monitor }, WriteEventView::Saved(saved)) => match saved {
            Ok(_) => WriteView::Schedule { monitor },
            Err(e) => WriteView::Finished { reply: ReplyView::Failed(e) },
        },
        (WriteView::Schedule { monitor }, WriteEventView::Scheduled(scheduled)) => match scheduled {
            Ok(_) => WriteView::Finished { reply: ReplyView::Monitor(monitor) },
            Err(e) => WriteView::Finished { reply: ReplyView::Failed(e) },
        },
        _ => state,
    }
}

/// Begin to create a monitor under an id, at a time, once its body has been judged.
pub fn begin_create(
    body: MonitorBody,
    checked: Result<(), String>,
    id: String,
    now: &str,
) -> (r: WriteState)
    ensures
        r@ == create_begins(body@, crate::text::told(checked), id@, now@),
{
    match checked {
        Ok(_) => WriteState::Save { monitor: new_monitor(body, id, now) },
        Err(e) => WriteState::Finished { reply: Reply::Invalid(e) },
    }
}

/// `POST /api/monitors`: begin to create a monitor under a fresh id, now.
pub fn create_monitor(body: MonitorBody, interval_valid: bool) -> (r: WriteState)
    ensures
        exists|id: Seq<char>, now: Seq<char>|
            monitor_id_text(id) && crate::boundary::utc_text(now) && r@ == #[trigger] create_begins(
                body@,
                complaint(body@, crate::boundary::url_scheme(body@.url), interval_valid),
                id,
                now,
            ),
{
    let checked = validate_body(&body, interval_valid);
    let id = fresh_monitor_id();
    let now = now_rfc3339();
    begin_create(body, checked, id, now.as_str())
}

/// Begin to update a monitor, once the body has been judged.
pub fn begin_update(id: String, body: MonitorBody, checked: Result<(), String>) -> (r: WriteState)
    ensures
        r@ == update_begins(id@, body@, crate::text::told(checked)),
{
    match checked {
        Ok(_) => WriteState::Load { id, body },
        Err(e) => WriteState::Finished { reply: Reply::Invalid(e) },
    }
}

/// `PUT /api/monitors/:id`: begin to replace a monitor's definition.
pub fn update_monitor(id: String, body: MonitorBody, interval_valid: bool) -> (r: WriteState)
    ensures
        r@ == update_begins(
            id@,
            body@,
            complaint(body@, crate::boundary::url_scheme(body@.url), interval_valid),
        ),
{
    let checked = validate_body(&body, interval_valid);
    begin_update(id, body, checked)
}

/// Move a write on with the answer to what it asked for; `now` is the time of an update.
pub fn advance_write_at(state: WriteState, event: WriteEvent, now: &str) -> (r: WriteState)
    ensures
        r@ == next_write(state@, event@, now@),
{
    match (state, event) {
        (WriteState::Load { id: _, body }, WriteEvent::Loaded(loaded)) => match loaded {
            Ok(Some(existing)) => WriteState::Save {
                monitor: replace_definition(existing, body, now),
            },
            Ok(None) => WriteState::Finished { reply: Reply::NotFound },
            Err(e) => WriteState::Finished { reply: Reply::Failed(e) },
        },
        (WriteState::Save { monitor }, WriteEvent::Saved(saved)) => match saved {
            Ok(_) => WriteState::Schedule { monitor },
            Err(e) => WriteState::Finished { reply: Reply::Failed(e) },
        },
        (WriteState::Schedule { monitor }, WriteEvent::Scheduled(scheduled)) => match scheduled {
            Ok(_) => WriteState::Finished { reply: Reply::Monitor(monitor) },
            Err(e) => WriteState::Finished { reply: Reply::Failed(e) },
        },
        (state, _) => state,
    }
}

/// Move a write on with the answer to what it asked for, at the present time.
pub fn advance_write(state: WriteState, event: WriteEvent) -> (r: WriteState)
    ensures
        exists|now: Seq<char>|
            crate::boundary::utc_text(now) && r@ == #[trigger] next_write(state@, event@, now),
{
    let now = now_rfc3339();
    advance_write_at(state, event, now.as_str())
}

/// A request whose body is refused is answered 400 with the complaint, before anything is read or
/// stored.
pub proof fn law_refused_body_stores_nothing(
    id: Seq<char>,
    body: BodyView,
    e: Seq<char>,
    now: Seq<char>,
)
    ensures
        ({
            let refused = WriteView::Finished { reply: ReplyView::Invalid(e) };
            &&& create_begins(body, Err(e), id, now) == refused
            &&& update_begins(id, body, Err(e)) == refused
            &&& (refused->reply).http_code() == 400
            &&& (refused->reply).error_text() == Some(e)
        }),
{
}

/// An accepted request to create a monitor is answered with the monitor of its body, not yet
/// checked, exactly when it was stored and its job was written; else it is answered 500 with the
/// first error.
pub proof fn law_create_replies(
    body: BodyView,
    id: Seq<char>,
    now: Seq<char>,
    saved: Result<(), Seq<char>>,
    scheduled: Result<(), Seq<char>>,
    later: Seq<char>,
)
    ensures
        ({
            let begun = create_begins(body, Ok(()), id, now);
            let stored = next_write(begun, WriteEventView::Saved(saved), later);
            let answered = next_write(stored, WriteEventView::Scheduled(scheduled), later);
            answered == WriteView::Finished {
                reply: match (saved, scheduled) {
                    (Err(e), _) => ReplyView::Failed(e),
                    (Ok(_), Err(e)) => ReplyView::Failed(e),
                    (Ok(_), Ok(_)) => ReplyView::Monitor(created(body, id, now)),
                },
            }
        }),
{
}

/// An accepted request to update a monitor that exists keeps its id, its creation time and its
/// rollup, and takes everything else from the body; one for a monitor that does not exist is
/// answered 404.
pub proof fn law_update_replies(
    id: Seq<char>,
    body: BodyView,
    existing: MonitorView,
    now: Seq<char>,
)
    ensures
        ({
            let begun = update_begins(id, body, Ok(()));
            let loaded = next_write(begun, WriteEventView::Loaded(Ok(Some(existing))), now);
            let stored = next_write(loaded, WriteEventView::Saved(Ok(())), now);
            let answered = next_write(stored, WriteEventView::Scheduled(Ok(())), now);
            &&& answered == (WriteView::Finished {
                reply: ReplyView::Monitor(replaced(existing, body, now)),
            })
            &&& replaced(existing, body, now) == (MonitorView {
                id: existing.id,
                created_at: existing.created_at,
                last_check_at: existing.last_check_at,
                last_status: existing.last_status,
                last_value: existing.last_value,
                ..created(body, id, now)
            })
        }),
        next_write(
            update_begins(id, body, Ok(())),
            WriteEventView::Loaded(Ok(None)),
            now,
        ) == (WriteView::Finished { reply: ReplyView::NotFound }),
        ReplyView::NotFound.http_code() == 404,
{
}

/// A monitor is scheduled only after it was stored, and every job is that of the stored monitor.
pub proof fn law_only_stored_monitors_are_scheduled(
    state: WriteView,
    event: WriteEventView,
    now: Seq<char>,
)
    ensures
        next_write(state, event, now) matches WriteView::Schedule { monitor } ==> {
            ||| state == next_write(state, event, now)
            ||| state == (WriteView::Save { monitor }) && (event matches WriteEventView::Saved(
                Ok(_),
            ))
        },
{
}

// ---- the alert stream -----------------------------------------------------

/// What a subscriber to the alerts received.
pub enum Received {
    /// An alert, as JSON text.
    Alert(String),
    /// Some alerts were dropped because the subscriber was slow.
    Lagged,
    /// No alert will come any more.
    Closed,
}

/// What the alert stream does next.
pub enum FeedStep {
    /// Send a comment.
    Comment(&'static str),
    /// Send an alert.
    Data(String),
    /// Wait for the next alert.
    Receive,
    /// End the stream.
    End,
}

/// What a step of the alert stream is.
pub enum FeedView {
    Comment(Seq<char>),
    Data(Seq<char>),
    Receive,
    End,
}

impl View for FeedStep {
    type V = FeedView;

    open spec fn view(&self) -> FeedView {
        match self {
            FeedStep::Comment(text) => FeedView::Comment(text@),
            FeedStep::Data(text) => FeedView::Data(text@),
            FeedStep::Receive => FeedView::Receive,
            FeedStep::End => FeedView::End,
        }
    }
}

/// One step of the alert stream. The first sends a comment at once, so that the first byte does not
/// wait for the first alert; a comment is invisible to an event source. After that every alert is
/// sent, and a gap is passed over.
pub fn feed_step(first: bool, received: Option<Received>) -> (r: FeedStep)
    ensures
        r@ == if first {
            FeedView::Comment("ready"@)
        } else {
            match received {
                Some(Received::Alert(data)) => FeedView::Data(data@),
                Some(Received::Closed) => FeedView::End,
                Some(Received::Lagged) => FeedView::Receive,
                None => FeedView::Receive,
            }
        },
{
    if first {
        return FeedStep::Comment("ready");
    }
    match received {
        Some(Received::Alert(data)) => FeedStep::Data(data),
        Some(Received::Closed) => FeedStep::End,
        Some(Received::Lagged) => FeedStep::Receive,
        None => FeedStep::Receive,
    }
}

} // verus!
