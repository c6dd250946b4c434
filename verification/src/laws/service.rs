//! Laws of requests, settings, schedules and notifications.

use std::path::PathBuf;

use vstd::prelude::*;

use crate::api::{BodyView, ReplyView, WriteEventView, WriteView};
use crate::json::Json;
use crate::model::{CheckStatus, MonitorView};

verus! {

// ---- monitors from bodies -------------------------------------------------

/// The monitor has the definition that the body gives: each field of the body, as it is.
pub open spec fn defined_by(monitor: MonitorView, body: BodyView) -> bool {
    &&& monitor.name == body.name
    &&& monitor.url == body.url
    &&& monitor.backend == body.backend
    &&& monitor.check == body.check
    &&& monitor.interval == body.interval
    &&& monitor.enabled == body.enabled
    &&& monitor.notify == body.notify
}

/// A created monitor has the definition of its body and the id it was given, was created and updated
/// at the same time, and has not been checked.
pub proof fn law_created_monitor(body: BodyView, id: Seq<char>, now: Seq<char>)
    ensures
        ({
            let monitor = crate::api::created(body, id, now);
            &&& defined_by(monitor, body)
            &&& monitor.id == id
            &&& monitor.created_at == now
            &&& monitor.updated_at == now
            &&& monitor.last_check_at is None
            &&& monitor.last_status is None
            &&& monitor.last_value is None
        }),
{
}

/// An updated monitor has the definition of the body; its id, its creation time and what its last
/// check left stay.
pub proof fn law_updated_monitor(existing: MonitorView, body: BodyView, now: Seq<char>)
    ensures
        ({
            let monitor = crate::api::replaced(existing, body, now);
            &&& defined_by(monitor, body)
            &&& monitor.id == existing.id
            &&& monitor.created_at == existing.created_at
            &&& monitor.updated_at == now
            &&& monitor.last_check_at == existing.last_check_at
            &&& monitor.last_status == existing.last_status
            &&& monitor.last_value == existing.last_value
        }),
{
}

/// Bodies that differ make monitors that differ, created or updated.
pub proof fn law_bodies_make_different_monitors(
    first: BodyView,
    second: BodyView,
    existing: MonitorView,
    id: Seq<char>,
    now: Seq<char>,
)
    ensures
        crate::api::created(first, id, now) == crate::api::created(second, id, now) <==> first == second,
        crate::api::replaced(existing, first, now) == crate::api::replaced(existing, second, now) <==> first
            == second,
{
}

// ---- validation -----------------------------------------------------------

/// A URL that does not parse is refused with the parser's words, whatever else the body holds.
pub proof fn law_unparsed_url(body: BodyView, e: Seq<char>, interval_valid: bool)
    ensures
        crate::api::complaint(body, Err(e), interval_valid) == Err::<(), Seq<char>>("invalid url: "@ + e),
{
}

/// A parsed URL whose scheme is neither `http` nor `https` is refused before the rest is looked at.
pub proof fn law_other_scheme(body: BodyView, scheme: Seq<char>, interval_valid: bool)
    requires
        scheme != "http"@,
        scheme != "https"@,
    ensures
        crate::api::complaint(body, Ok(scheme), interval_valid) == Err::<(), Seq<char>>(
            "url must be http or https"@,
        ),
{
}

/// With a URL that will do, a name of white space alone is refused, then an interval that cannot be
/// scheduled, by its text; a body with neither fault is accepted.
pub proof fn law_name_and_interval(body: BodyView, scheme: Seq<char>, interval_valid: bool)
    requires
        scheme == "http"@ || scheme == "https"@,
    ensures
        ({
            let unnamed = forall|i: int|
                0 <= i < body.name.len() ==> crate::text::white_space(#[trigger] body.name[i]);
            let verdict = crate::api::complaint(body, Ok(scheme), interval_valid);
            &&& unnamed ==> verdict == Err::<(), Seq<char>>("name is required"@)
            &&& !unnamed && !interval_valid ==> verdict == Err::<(), Seq<char>>(
                "interval '"@ + body.interval
                    + "' is neither a duration (e.g. 5m) nor a cron expression"@,
            )
            &&& !unnamed && interval_valid ==> verdict is Ok
        }),
{
    crate::text::lemma_trimmed_empty(body.name);
    reveal_strlit("http");
    reveal_strlit("https");
}

// ---- writes ---------------------------------------------------------------

/// A body that was refused is answered with the complaint and goes no further.
pub proof fn law_refused_writes(id: Seq<char>, body: BodyView, e: Seq<char>, now: Seq<char>)
    ensures
        crate::api::create_begins(body, Err(e), id, now) == (WriteView::Finished {
            reply: ReplyView::Invalid(e),
        }),
        crate::api::update_begins(id, body, Err(e)) == (WriteView::Finished {
            reply: ReplyView::Invalid(e),
        }),
{
}

/// A request to create a monitor stores a monitor with the definition of the body under the id that
/// it was given, schedules what it stored, and answers with what it scheduled. The first failure is
/// the answer.
pub proof fn law_create_from_end_to_end(
    body: BodyView,
    id: Seq<char>,
    now: Seq<char>,
    later: Seq<char>,
    e: Seq<char>,
)
    ensures
        ({
            let begun = crate::api::create_begins(body, Ok(()), id, now);
            let saved = crate::api::next_write(begun, WriteEventView::Saved(Ok(())), later);
            let answered = crate::api::next_write(saved, WriteEventView::Scheduled(Ok(())), later);
            let failed = WriteView::Finished { reply: ReplyView::Failed(e) };
            &&& begun is Save
            &&& defined_by(begun->Save_monitor, body)
            &&& begun->Save_monitor.id == id
            &&& begun->Save_monitor.created_at == now
            &&& begun->Save_monitor.updated_at == now
            &&& begun->Save_monitor.last_check_at is None
            &&& begun->Save_monitor.last_status is None
            &&& begun->Save_monitor.last_value is None
            &&& saved == (WriteView::Schedule { monitor: begun->Save_monitor })
            &&& answered == (WriteView::Finished { reply: ReplyView::Monitor(begun->Save_monitor) })
            &&& crate::api::next_write(begun, WriteEventView::Saved(Err(e)), later) == failed
            &&& crate::api::next_write(saved, WriteEventView::Scheduled(Err(e)), later) == failed
        }),
{
}

/// A request to update a monitor loads the one with its id, stores it with the definition of the
/// body and with everything else as it was, schedules what it stored, and answers with what it
/// scheduled. A monitor that is not there is not found; the first failure is the answer.
pub proof fn law_update_from_end_to_end(
    id: Seq<char>,
    body: BodyView,
    existing: MonitorView,
    now: Seq<char>,
    later: Seq<char>,
    e: Seq<char>,
)
    ensures
        ({
            let begun = crate::api::update_begins(id, body, Ok(()));
            let loaded = crate::api::next_write(begun, WriteEventView::Loaded(Ok(Some(existing))), now);
            let saved = crate::api::next_write(loaded, WriteEventView::Saved(Ok(())), later);
            let answered = crate::api::next_write(saved, WriteEventView::Scheduled(Ok(())), later);
            let failed = WriteView::Finished { reply: ReplyView::Failed(e) };
            &&& begun == (WriteView::Load { id, body })
            &&& loaded is Save
            &&& defined_by(loaded->Save_monitor, body)
            &&& loaded->Save_monitor.id == existing.id
            &&& loaded->Save_monitor.created_at == existing.created_at
            &&& loaded->Save_monitor.updated_at == now
            &&& loaded->Save_monitor.last_check_at == existing.last_check_at
            &&& loaded->Save_monitor.last_status == existing.last_status
            &&& loaded->Save_monitor.last_value == existing.last_value
            &&& saved == (WriteView::Schedule { monitor: loaded->Save_monitor })
            &&& answered == (WriteView::Finished {
                reply: ReplyView::Monitor(loaded->Save_monitor),
            })
            &&& crate::api::next_write(begun, WriteEventView::Loaded(Ok(None)), now) == (
            WriteView::Finished { reply: ReplyView::NotFound })
            &&& crate::api::next_write(begun, WriteEventView::Loaded(Err(e)), now) == failed
            &&& crate::api::next_write(loaded, WriteEventView::Saved(Err(e)), later) == failed
            &&& crate::api::next_write(saved, WriteEventView::Scheduled(Err(e)), later) == failed
        }),
{
}

/// An answered request stays answered.
pub proof fn law_answered_writes_stay(reply: ReplyView, event: WriteEventView, now: Seq<char>)
    ensures
        crate::api::next_write(WriteView::Finished { reply }, event, now) == (WriteView::Finished {
            reply,
        }),
{
}

// ---- replies --------------------------------------------------------------

/// Success is answered 200 and holds no error; a request that cannot be met 400, a missing thing
/// 404 and a failure 500, each with its text.
pub proof fn law_reply_codes(monitor: MonitorView, status: CheckStatus, e: Seq<char>)
    ensures
        ReplyView::Monitor(monitor).http_code() == 200,
        ReplyView::Checked(status).http_code() == 200,
        ReplyView::Done.http_code() == 200,
        ReplyView::Invalid(e).http_code() == 400,
        ReplyView::NotFound.http_code() == 404,
        ReplyView::Failed(e).http_code() == 500,
        ReplyView::Monitor(monitor).error_text() is None,
        ReplyView::Checked(status).error_text() is None,
        ReplyView::Done.error_text() is None,
        ReplyView::Invalid(e).error_text() == Some(e),
        ReplyView::NotFound.error_text() == Some("not found"@),
        ReplyView::Failed(e).error_text() == Some(e),
{
}

/// What was to be changed was changed, was not there, or could not be changed.
pub proof fn law_change_replies(e: Seq<char>)
    ensures
        crate::api::change_reply(Ok(true)) == ReplyView::Done,
        crate::api::change_reply(Ok(false)) == ReplyView::NotFound,
        crate::api::change_reply(Err(e)) == ReplyView::Failed(e),
{
}

// ---- limits and ids -------------------------------------------------------

/// A limit is the number asked for where it is one of 32 bits, else the default, and in either case
/// no more than the cap.
pub proof fn law_limits(asked: Seq<char>, default: u32, cap: u32)
    ensures
        ({
            let digits = asked.len() > 0 && (forall|i: int|
                0 <= i < asked.len() ==> '0' as u32 <= (#[trigger] asked[i]) as u32 <= '9' as u32);
            let n = crate::text::numeral_value(asked);
            let r = crate::api::bounded_limit(Some(asked), default, cap);
            &&& digits && n <= cap ==> r == n
            &&& digits && cap < n <= 0xffff_ffff ==> r == cap
            &&& digits && n > 0xffff_ffff ==> r == crate::api::bounded_limit(None, default, cap)
            &&& !digits && !(asked.len() > 1 && asked[0] == '+') ==> r == crate::api::bounded_limit(
                None,
                default,
                cap,
            )
        }),
        default <= cap ==> crate::api::bounded_limit(None, default, cap) == default,
        default > cap ==> crate::api::bounded_limit(None, default, cap) == cap,
{
    super::texts::law_reading_numbers(asked, 0xffff_ffff);
}

/// A query parameter is what the parameters hold under its key, where they hold one.
pub proof fn law_query_text(params: Map<String, String>, key: String)
    ensures
        (forall|k: String| #[trigger] params.contains_key(k) ==> k@ != key@) ==> crate::api::query_text(
            params,
            key@,
        ) is None,
        params.contains_key(key) && (forall|k: String| #[trigger]
            params.contains_key(k) && k@ == key@ ==> k == key) ==> crate::api::query_text(params, key@)
            == Some(params[key]@),
{
}

/// The id of a monitor is `mon_` and 32 characters, each a digit or one of the letters `a` to `f`.
pub proof fn law_monitor_ids(id: Seq<char>)
    ensures
        crate::api::monitor_id_text(id) ==> id.len() == 36 && id[0] == 'm' && id[1] == 'o' && id[2] == 'n'
            && id[3] == '_' && (forall|i: int|
            4 <= i < 36 ==> ('0' as u32 <= (#[trigger] id[i]) as u32 <= '9' as u32 || 'a' as u32
                <= id[i] as u32 <= 'f' as u32)),
{
    reveal_strlit("mon_");
    if crate::api::monitor_id_text(id) {
        let digits = choose|digits: Seq<char>|
            id == "mon_"@ + digits && digits.len() == 32 && #[trigger] crate::api::all_lower_hex(digits);
        assert forall|i: int| 4 <= i < 36 implies ('0' as u32 <= (#[trigger] id[i]) as u32
            <= '9' as u32 || 'a' as u32 <= id[i] as u32 <= 'f' as u32) by {
            assert(id[i] == digits[i - 4]);
        }
    }
}

// ---- settings -------------------------------------------------------------

/// A port is what the setting writes, white space around it left out, where that is a number of 16
/// bits; else it is the default.
pub proof fn law_port_setting(
    before: Seq<char>,
    digits: Seq<char>,
    after: Seq<char>,
    other: Seq<char>,
    default: u16,
)
    requires
        crate::text::blank(before),
        crate::text::blank(after),
        digits.len() > 0,
        forall|i: int|
            0 <= i < digits.len() ==> '0' as u32 <= (#[trigger] digits[i]) as u32 <= '9' as u32,
    ensures
        crate::text::numeral_value(digits) <= 0xffff ==> crate::access::chosen_port(
            Some(before + digits + after),
            default,
        ) == crate::text::numeral_value(digits),
        crate::text::numeral_value(digits) > 0xffff ==> crate::access::chosen_port(
            Some(before + digits + after),
            default,
        ) == default,
        crate::text::parsed_unsigned(crate::text::trimmed(other), 0xffff) is None ==> crate::access::chosen_port(
            Some(other),
            default,
        ) == default,
        crate::access::chosen_port(None, default) == default,
{
    assert(!crate::text::white_space(digits[0]));
    assert(!crate::text::white_space(digits[digits.len() - 1]));
    lemma_trimmed_middle(before, digits, after);
    super::texts::law_reading_numbers(digits, 0xffff);
}

/// Trimming leaves what stands between white space, where that neither begins nor ends with it.
proof fn lemma_trimmed_middle(before: Seq<char>, middle: Seq<char>, after: Seq<char>)
    requires
        crate::text::blank(before),
        crate::text::blank(after),
        middle.len() > 0,
        !crate::text::white_space(middle.first()),
        !crate::text::white_space(middle.last()),
    ensures
        crate::text::trimmed(before + middle + after) == middle,
    decreases before.len() + after.len(),
{
    let s = before + middle + after;
    if before.len() > 0 {
        assert(s.first() == before[0]);
        let rest = before.drop_first();
        assert forall|i: int| 0 <= i < rest.len() implies crate::text::white_space(#[trigger] rest[i]) by {
            assert(rest[i] == before[i + 1]);
        }
        assert(s.drop_first() == rest + middle + after);
        lemma_trimmed_middle(rest, middle, after);
    } else {
        assert(s.first() == middle.first());
        if after.len() > 0 {
            assert(s.last() == after[after.len() - 1]);
            let rest = after.drop_last();
            assert forall|i: int| 0 <= i < rest.len() implies crate::text::white_space(
                #[trigger] rest[i],
            ) by {
                assert(rest[i] == after[i]);
            }
            assert(s.drop_last() == before + middle + rest);
            lemma_trimmed_middle(before, middle, rest);
        } else {
            assert(s == middle);
        }
    }
}

/// A token is what the setting holds between white space; a setting of white space alone, or none,
/// gives no token.
pub proof fn law_token_setting(before: Seq<char>, token: Seq<char>, after: Seq<char>)
    requires
        crate::text::blank(before),
        crate::text::blank(after),
    ensures
        token.len() > 0 && !crate::text::white_space(token.first()) && !crate::text::white_space(token.last())
            ==> crate::access::chosen_token(Some(before + token + after)) == Some(token),
        crate::access::chosen_token(Some(before)) is None,
        crate::access::chosen_token(None) is None,
{
    if token.len() > 0 && !crate::text::white_space(token.first()) && !crate::text::white_space(token.last()) {
        lemma_trimmed_middle(before, token, after);
    }
    crate::text::lemma_trimmed_empty(before);
}

/// A request is let in exactly when a token is configured, is not empty, and is what the header
/// holds behind `Bearer` and one blank.
pub proof fn law_requests_let_in(header: Option<Seq<char>>, expected: Option<Seq<char>>)
    ensures
        crate::access::token_matches(crate::access::header_token(header), expected) <==> (expected is Some
            && expected->0.len() > 0 && header == Some("Bearer "@ + expected->0)),
{
    if let Some(h) = header {
        if let Some(t) = expected {
            if t.len() > 0 {
                crate::access::law_bearer_opens_to_the_token(h, t);
            }
        }
    }
}

/// The first directory that is published is the data directory from then on; before that it is the
/// one for temporary files.
pub proof fn law_published_dir(
    first: PathBuf,
    second: PathBuf,
    temp_dir: PathBuf,
    held: Option<PathBuf>,
)
    ensures
        crate::access::chosen_dir(None, temp_dir) == temp_dir,
        crate::access::chosen_dir(crate::access::filled(None, first), temp_dir) == first,
        held is Some ==> crate::access::filled(held, second) == held,
        held is Some ==> crate::access::chosen_dir(held, temp_dir) == held->0,
{
}

// ---- schedules ------------------------------------------------------------

/// A text has the shape of a cron expression exactly when it has five words, each made of digits
/// and the signs `*`, `/`, `,` and `-`.
pub proof fn law_cron_shape(expr: Seq<char>)
    ensures
        crate::schedule::cron_shaped(expr) <==> {
            let fields = crate::text::words(expr);
            &&& fields.len() == 5
            &&& forall|i: int, j: int|
                0 <= i < 5 && 0 <= j < fields[i].len() ==> {
                    let c = #[trigger] fields[i][j];
                    '0' as u32 <= c as u32 <= '9' as u32 || c == '*' || c == '/' || c == ',' || c
                        == '-'
                }
        },
{
    let fields = crate::text::words(expr);
    crate::text::lemma_words_are_words(expr);
    if crate::schedule::cron_shaped(expr) {
        assert forall|i: int, j: int| 0 <= i < 5 && 0 <= j < fields[i].len() implies ({
            let c = #[trigger] fields[i][j];
            '0' as u32 <= c as u32 <= '9' as u32 || c == '*' || c == '/' || c == ',' || c == '-'
        }) by {
            assert(crate::schedule::cron_field(fields[i]));
            assert(crate::schedule::cron_char(fields[i][j]));
        }
    }
    if fields.len() == 5 && (forall|i: int, j: int|
        0 <= i < 5 && 0 <= j < fields[i].len() ==> {
            let c = #[trigger] fields[i][j];
            '0' as u32 <= c as u32 <= '9' as u32 || c == '*' || c == '/' || c == ',' || c == '-'
        }) {
        assert forall|i: int| 0 <= i < 5 implies crate::schedule::cron_field(#[trigger] fields[i]) by {
            assert(crate::text::is_word(fields[i]));
        }
    }
}

/// An interval can be scheduled exactly when it is a duration or has the shape of a cron expression.
pub proof fn law_schedulable_intervals(interval: Seq<char>)
    ensures
        crate::schedule::schedulable(interval) <==> crate::boundary::duration_text(interval)
            || crate::schedule::cron_shaped(interval),
        crate::schedule::cron_shaped(interval) ==> crate::schedule::decidable(interval),
{
}

/// Whether a text is an interval is decided of every text with one number: one in which a digit has
/// nothing but digits, dots and white space before it.
pub proof fn law_single_durations_are_decided(interval: Seq<char>)
    requires
        forall|i: int, j: int|
            #![trigger interval[i], interval[j]]
            0 <= i < j < interval.len() && '0' as u32 <= interval[j] as u32 <= '9' as u32 ==> (
            '0' as u32 <= interval[i] as u32 <= '9' as u32 || interval[i] == '.'
                || crate::text::white_space(interval[i])),
    ensures
        crate::schedule::decidable(interval),
{
}

/// The seconds of a duration are bounded part by part: a digit goes on with the number, white space
/// does not matter, a dot rounds the number up, and a letter ends the part and begins the next.
pub proof fn law_seconds_of_parts(text: Seq<char>, i: int, number: nat)
    requires
        0 <= i < text.len(),
        number * 10 + 9 <= u64::MAX,
    ensures
        ({
            let c = text[i];
            let digit = '0' as u32 <= c as u32 <= '9' as u32;
            let gap = crate::text::white_space(c);
            let here = crate::boundary::seconds_from(text, i, number, false);
            &&& digit ==> here == crate::boundary::seconds_from(
                text,
                i + 1,
                (number * 10 + (c as u32 - '0' as u32)) as nat,
                false,
            )
            &&& gap ==> here == crate::boundary::seconds_from(text, i + 1, number, false)
            &&& c == '.' ==> here == crate::boundary::seconds_from(text, i + 1, number + 1, true)
            &&& !digit && !gap && c != '.' ==> here == crate::boundary::part_seconds(
                text,
                i,
                number,
            ) + crate::boundary::seconds_from(text, i + 1, 0, false)
        }),
        crate::boundary::seconds_from(text, text.len() as int, number, false) == 0,
        crate::boundary::seconds_from(text, 0, 0, false) < 0xffff_ffff_ffff_ffff
            ==> crate::schedule::decidable(text),
{
}

/// How long the parts of a duration can be, by the letter that its unit begins with.
pub proof fn law_units(text: Seq<char>, i: int, number: nat)
    requires
        0 <= i < text.len(),
        number > 0,
    ensures
        ({
            let most = crate::boundary::part_seconds(text, i, number);
            &&& text[i] == 's' ==> most == number
            &&& text[i] == 'm' ==> most >= number / 1000
            &&& text[i] == 'm' && i + 1 == text.len() ==> most == number * 60
            &&& text[i] == 'h' ==> most == number * 60 * 60
            &&& text[i] == 'd' ==> most == number * 24 * 60 * 60
            &&& text[i] == 'w' ==> most == number * 7 * 24 * 60 * 60
            &&& text[i] == 'y' ==> most == number * 31_557_600
        }),
{
}

// ---- notifications and callbacks ------------------------------------------

/// A send is fine on a 2xx answer; on any other it is reported with the channel and the code, and
/// where there was no answer with the channel and the reason.
pub proof fn law_sends(channel: Seq<char>, code: u16, shown: Seq<char>, e: Seq<char>)
    ensures
        200 <= code <= 299 ==> crate::notify::send_outcome(channel, Ok((code, shown))) is Ok,
        code < 200 || code > 299 ==> crate::notify::send_outcome(channel, Ok((code, shown))) == Err::<
            (),
            Seq<char>,
        >(channel + " returned HTTP "@ + shown),
        crate::notify::send_outcome(channel, Err(e)) == Err::<(), Seq<char>>(
            channel + " send failed: "@ + e,
        ),
{
}

/// The text of an alert is its title, a line end and its message.
pub proof fn law_alert_text(title: Seq<char>, message: Seq<char>)
    ensures
        crate::notify::alert_text(title, message) == title + seq!['\n'] + message,
{
    reveal_strlit("\n");
    assert("\n"@ == seq!['\n']);
}

/// A push message goes to its token with the title, the body and the data as they are, and with the
/// default sound.
pub proof fn law_push_message(token: Seq<char>, title: Seq<char>, body: Seq<char>, data: Json)
    ensures
        ({
            let message = crate::notify::push_for(token, title, body, data);
            &&& message.to == token
            &&& message.title == title
            &&& message.body == body
            &&& message.data == data
            &&& message.sound == "default"@
        }),
{
}

/// A callback is fine on a 2xx answer, whatever it holds; on any other its error is the `error` text
/// of the answer, or the code; without an answer it is the reason.
pub proof fn law_callbacks(code: u16, shown: Seq<char>, value: Json, e: Seq<char>)
    ensures
        200 <= code <= 299 ==> crate::callback::callback_outcome(Ok((code, shown)), value) is Ok,
        code < 200 || code > 299 ==> (value.text_member("error"@) matches Some(told)
            ==> crate::callback::callback_outcome(Ok((code, shown)), value) == Err::<(), Seq<char>>(told)),
        (code < 200 || code > 299) && value.text_member("error"@) is None
            ==> crate::callback::callback_outcome(Ok((code, shown)), value) == Err::<(), Seq<char>>(
            "core callback failed: HTTP "@ + shown,
        ),
        crate::callback::callback_outcome(Err(e), value) == Err::<(), Seq<char>>(
            "core callback not reachable: "@ + e,
        ),
{
}

} // verus!
