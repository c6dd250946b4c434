//! Laws of the single checks: what a page, or a failed fetch, comes to.

use vstd::prelude::*;

use crate::check::PriceTextsView;
use crate::engine::VerdictView;
use crate::model::{
    CheckStatus, CheckType, FetchedView, NumComparator, OutcomeView, PendingAlertView, SnapshotView,
};
use crate::number::{Figures, Number};

verus! {

/// The outcome of a check that came to one.
pub open spec fn outcome_of(verdict: VerdictView) -> OutcomeView {
    verdict->Outcome_0
}

// ---- uptime ---------------------------------------------------------------

/// An uptime check that got a page reads `up` exactly when its code is expected (any from 200 to
/// 399 where none is listed; a page without a code counts as 0). It alerts exactly when that is not
/// what the check before it read, and it keeps the code and the latency of the page.
pub proof fn law_uptime_of_a_page(
    page: FetchedView,
    expect_status: Vec<u16>,
    prev: Option<SnapshotView>,
)
    ensures
        ({
            let verdict = crate::engine::verdict_on(CheckType::Uptime { expect_status }, Ok(page), prev);
            let outcome = outcome_of(verdict);
            let code = match page.http_status {
                Some(code) => code,
                None => 0,
            };
            let up = if expect_status@.len() == 0 {
                200 <= code && code <= 399
            } else {
                exists|i: int| 0 <= i < expect_status@.len() && #[trigger] expect_status@[i] == code
            };
            let was_up = prev matches Some(s) ==> s.value == Some("up"@);
            &&& verdict is Outcome
            &&& up ==> outcome.value == Some("up"@)
            &&& !up ==> outcome.value == Some("down"@)
            &&& outcome.http_status == page.http_status
            &&& outcome.latency_ms == Some(page.latency_ms)
            &&& outcome.content_hash is None
            &&& outcome.note is None
            &&& up == was_up ==> outcome.alert is None && outcome.status == CheckStatus::Okay
            &&& up != was_up ==> outcome.status == CheckStatus::Triggered
            &&& up && !was_up ==> outcome.alert == Some(
                PendingAlertView {
                    title: "Site back up"@,
                    message: "Recovered (HTTP "@ + crate::text::decimal_digits(code as nat) + "), "@
                        + crate::text::decimal_digits(page.latency_ms as nat) + " ms."@,
                    kind: "uptime_up"@,
                },
            )
            &&& !up && was_up ==> outcome.alert == Some(
                PendingAlertView {
                    title: "Site down"@,
                    message: "Unexpected HTTP "@ + crate::text::decimal_digits(code as nat) + "."@,
                    kind: "uptime_down"@,
                },
            )
        }),
{
    let code = match page.http_status {
        Some(code) => code,
        None => 0,
    };
    if expect_status@.contains(code) {
        let i = choose|i: int| 0 <= i < expect_status@.len() && expect_status@[i] == code;
        assert(expect_status@[i] == code);
    }
}

/// An uptime check whose fetch failed reads `down` with the reason as its note, and alerts exactly
/// when the site was up before.
pub proof fn law_uptime_of_a_failed_fetch(
    e: Seq<char>,
    expect_status: Vec<u16>,
    prev: Option<SnapshotView>,
)
    ensures
        ({
            let verdict = crate::engine::verdict_on(CheckType::Uptime { expect_status }, Err(e), prev);
            let outcome = outcome_of(verdict);
            let was_up = prev matches Some(s) ==> s.value == Some("up"@);
            &&& verdict is Outcome
            &&& outcome.value == Some("down"@)
            &&& outcome.note == Some(e)
            &&& outcome.http_status is None
            &&& outcome.latency_ms is None
            &&& outcome.content_hash is None
            &&& was_up ==> outcome.status == CheckStatus::Triggered && outcome.alert == Some(
                PendingAlertView {
                    title: "Site down"@,
                    message: "Request failed: "@ + e,
                    kind: "uptime_down"@,
                },
            )
            &&& !was_up ==> outcome.status == CheckStatus::Okay && outcome.alert is None
        }),
{
}

/// Every other check whose fetch failed ends in an error that holds the reason and nothing else.
pub proof fn law_other_failed_fetches(check: CheckType, e: Seq<char>, prev: Option<SnapshotView>)
    requires
        !(check is Uptime),
    ensures
        crate::engine::verdict_on(check, Err(e), prev) == VerdictView::Outcome(
            OutcomeView {
                status: CheckStatus::Error,
                http_status: None,
                latency_ms: None,
                value: None,
                content_hash: None,
                note: Some(e),
                alert: None,
            },
        ),
{
}

// ---- patterns -------------------------------------------------------------

/// A plain pattern whose case counts is found on every page on which it stands as it is written,
/// whatever stands round it.
pub proof fn law_exact_pattern_is_found(before: Seq<char>, pattern: Seq<char>, after: Seq<char>)
    ensures
        crate::check::pattern_found(before + pattern + after, pattern, false, true),
{
    super::texts::law_part_is_found(before, pattern, after);
}

/// Where a plain pattern whose case counts is found, a stretch of the page equals it.
pub proof fn law_found_pattern_stands_there(body: Seq<char>, pattern: Seq<char>)
    requires
        crate::check::pattern_found(body, pattern, false, true),
    ensures
        exists|before: Seq<char>, after: Seq<char>| body == #[trigger] (before + pattern + after),
{
    super::texts::law_found_part_stands_there(pattern, body);
}

/// A plain pattern whose case does not count is found exactly where it stands once page and pattern
/// are in lower case: the case of neither makes a difference.
pub proof fn law_caseless_pattern(body: Seq<char>, pattern: Seq<char>)
    ensures
        crate::check::pattern_found(body, pattern, false, false) <==> (exists|
            before: Seq<char>,
            after: Seq<char>,
        |
            crate::boundary::lowercase(body) == #[trigger] (before + crate::boundary::lowercase(pattern)
                + after)),
{
    let low = crate::boundary::lowercase(pattern);
    let page = crate::boundary::lowercase(body);
    if crate::check::pattern_found(body, pattern, false, false) {
        super::texts::law_found_part_stands_there(low, page);
    }
    if exists|before: Seq<char>, after: Seq<char>| page == #[trigger] (before + low + after) {
        let (before, after) = choose|before: Seq<char>, after: Seq<char>|
            page == #[trigger] (before + low + after);
        super::texts::law_part_is_found(before, low, after);
    }
}

/// A regex is found exactly where it compiles and matches; where case does not count, the flag for
/// that stands before it.
pub proof fn law_regex_pattern(body: Seq<char>, pattern: Seq<char>)
    ensures
        crate::check::pattern_found(body, pattern, true, true) <==> crate::boundary::regex_match(pattern, body)
            == Some(true),
        crate::check::pattern_found(body, pattern, true, false) <==> crate::boundary::regex_match(
            "(?i)"@ + pattern,
            body,
        ) == Some(true),
{
}

/// A capture is the first group of the match, or the whole match where that group took no part;
/// without a match there is none.
pub proof fn law_captures(body: Seq<char>, pattern: Seq<char>, whole: Seq<char>, group: Seq<char>)
    ensures
        crate::boundary::regex_capture(pattern, body) == Some((whole, Some(group))) ==> crate::check::captured(
            body,
            pattern,
        ) == Some(group),
        crate::boundary::regex_capture(pattern, body) == Some((whole, None::<Seq<char>>))
            ==> crate::check::captured(body, pattern) == Some(whole),
        crate::boundary::regex_capture(pattern, body) is None ==> crate::check::captured(body, pattern) is None,
{
}

// ---- keyword and stock ----------------------------------------------------

/// A keyword check reads `present` exactly when the keyword is found as it was asked for. It alerts
/// exactly when the keyword is in the state asked for and the check before it did not read that
/// state, and it says which change it was.
pub proof fn law_keyword_of_a_page(
    page: FetchedView,
    pattern: String,
    is_regex: bool,
    case_sensitive: bool,
    alert_when_present: bool,
    prev: Option<SnapshotView>,
)
    ensures
        ({
            let verdict = crate::engine::verdict_on(
                CheckType::Keyword { pattern, is_regex, case_sensitive, alert_when_present },
                Ok(page),
                prev,
            );
            let outcome = outcome_of(verdict);
            let present = crate::check::pattern_found(page.body, pattern@, is_regex, case_sensitive);
            let was_so = prev matches Some(s) && (s.value == Some("present"@))
                == alert_when_present;
            let alerts = present == alert_when_present && !was_so;
            &&& verdict is Outcome
            &&& present ==> outcome.value == Some("present"@)
            &&& !present ==> outcome.value == Some("absent"@)
            &&& outcome.http_status == page.http_status
            &&& outcome.latency_ms == Some(page.latency_ms)
            &&& outcome.content_hash is None
            &&& outcome.note is None
            &&& alerts ==> outcome.status == CheckStatus::Triggered
            &&& !alerts ==> outcome.status == CheckStatus::Okay && outcome.alert is None
            &&& alerts && present ==> outcome.alert == Some(
                PendingAlertView {
                    title: "Keyword "@ + "appeared"@ + " \""@ + pattern@ + "\""@,
                    message: "On "@ + label(page),
                    kind: "keyword"@,
                },
            )
            &&& alerts && !present ==> outcome.alert == Some(
                PendingAlertView {
                    title: "Keyword "@ + "disappeared"@ + " \""@ + pattern@ + "\""@,
                    message: "On "@ + label(page),
                    kind: "keyword"@,
                },
            )
        }),
{
}

/// How a message names a page.
pub open spec fn label(page: FetchedView) -> Seq<char> {
    if page.http_status is Some {
        "HTTP "@ + crate::text::decimal_digits(page.http_status->0 as nat)
    } else {
        "fetched page"@
    }
}

/// A stock check reads `in_stock` exactly when the phrase is found, whatever its case. It alerts
/// exactly when the item is in the state asked for and the check before it did not read that state.
pub proof fn law_stock_of_a_page(
    page: FetchedView,
    in_stock_pattern: String,
    is_regex: bool,
    alert_when_in_stock: bool,
    prev: Option<SnapshotView>,
)
    ensures
        ({
            let verdict = crate::engine::verdict_on(
                CheckType::Stock { in_stock_pattern, is_regex, alert_when_in_stock },
                Ok(page),
                prev,
            );
            let outcome = outcome_of(verdict);
            let in_stock = crate::check::pattern_found(page.body, in_stock_pattern@, is_regex, false);
            let was_so = prev matches Some(s) && (s.value == Some("in_stock"@))
                == alert_when_in_stock;
            let alerts = in_stock == alert_when_in_stock && !was_so;
            &&& verdict is Outcome
            &&& in_stock ==> outcome.value == Some("in_stock"@)
            &&& !in_stock ==> outcome.value == Some("out_of_stock"@)
            &&& outcome.http_status == page.http_status
            &&& outcome.latency_ms == Some(page.latency_ms)
            &&& outcome.content_hash is None
            &&& outcome.note is None
            &&& alerts ==> outcome.status == CheckStatus::Triggered
            &&& !alerts ==> outcome.status == CheckStatus::Okay && outcome.alert is None
            &&& alerts && in_stock ==> outcome.alert == Some(
                PendingAlertView {
                    title: "Now "@ + "in stock"@,
                    message: "On "@ + label(page),
                    kind: "stock"@,
                },
            )
            &&& alerts && !in_stock ==> outcome.alert == Some(
                PendingAlertView {
                    title: "Now "@ + "out of stock"@,
                    message: "On "@ + label(page),
                    kind: "stock"@,
                },
            )
        }),
{
}

// ---- content --------------------------------------------------------------

/// The watched region of a page is what the pattern captures, nothing where it captures nothing,
/// and the whole page where there is no pattern.
pub proof fn law_region(body: Seq<char>, pattern: Seq<char>)
    ensures
        crate::check::region_of(body, None) == body,
        crate::check::captured(body, pattern) matches Some(found) ==> crate::check::region_of(body, Some(pattern))
            == found,
        crate::check::captured(body, pattern) is None ==> crate::check::region_of(body, Some(pattern)).len() == 0,
{
}

/// The watched text of a page has all the words of its region, and is nothing but these words with
/// one blank between two.
pub proof fn law_watched_text_has_all_words(body: Seq<char>, region: Option<Seq<char>>)
    ensures
        crate::text::words(crate::check::watched_text(body, region)) == crate::text::words(
            crate::check::region_of(body, region),
        ),
        crate::check::watched_text(body, region) == crate::text::joined(
            crate::text::words(crate::check::region_of(body, region)),
        ),
{
    crate::text::law_normalize_idempotent(crate::check::region_of(body, region));
}

/// Two pages have the same watched text exactly when their regions have the same words.
pub proof fn law_watched_texts_differ_with_their_words(
    first: Seq<char>,
    second: Seq<char>,
    region: Option<Seq<char>>,
)
    ensures
        crate::check::watched_text(first, region) == crate::check::watched_text(second, region) <==> crate::text::words(
            crate::check::region_of(first, region),
        ) == crate::text::words(crate::check::region_of(second, region)),
{
    law_watched_text_has_all_words(first, region);
    law_watched_text_has_all_words(second, region);
}

/// A content check records the hash of the whole normalised region and its length in bytes. It
/// alerts exactly when the check before it recorded another hash.
pub proof fn law_content_of_a_page(
    page: FetchedView,
    region_regex: Option<String>,
    prev: Option<SnapshotView>,
)
    ensures
        ({
            let verdict = crate::engine::verdict_on(
                CheckType::ContentDiff { region_regex },
                Ok(page),
                prev,
            );
            let outcome = outcome_of(verdict);
            let region = match region_regex {
                Some(re) => Some(re@),
                None => None,
            };
            let normal = crate::text::joined(crate::text::words(crate::check::region_of(page.body, region)));
            let changed = prev matches Some(s) && s.content_hash is Some && s.content_hash != Some(
                crate::check::text_hash(normal),
            );
            &&& verdict is Outcome
            &&& outcome.content_hash == Some(crate::check::text_hash(normal))
            &&& outcome.value == Some(
                crate::text::decimal_digits(vstd::utf8::encode_utf8(normal).len()) + " chars"@,
            )
            &&& outcome.http_status == page.http_status
            &&& outcome.latency_ms == Some(page.latency_ms)
            &&& outcome.note is None
            &&& changed ==> outcome.status == CheckStatus::Triggered && outcome.alert == Some(
                PendingAlertView {
                    title: "Content changed"@,
                    message: "The watched content on "@ + label(page) + " changed."@,
                    kind: "content_change"@,
                },
            )
            &&& !changed ==> outcome.status == CheckStatus::Okay && outcome.alert is None
        }),
{
}

// ---- price ----------------------------------------------------------------

/// Of a text, the digits, the dots and the minus signs are kept for reading a number, in their
/// order, and nothing else.
pub proof fn law_kept_characters(a: Seq<char>, c: char)
    ensures
        crate::check::number_chars(seq![]).len() == 0,
        '0' as u32 <= c as u32 <= '9' as u32 || c == '.' || c == '-' ==> crate::check::number_chars(
            a.push(c),
        ) == crate::check::number_chars(a).push(c),
        !('0' as u32 <= c as u32 <= '9' as u32 || c == '.' || c == '-') ==> crate::check::number_chars(
            a.push(c),
        ) == crate::check::number_chars(a),
{
    reveal(Seq::filter);
    assert(a.push(c).drop_last() == a);
}

/// A price check whose pattern captures something asks for two numbers to be read: the captured one
/// and the value that the check before it recorded. One whose pattern captures nothing ends in an
/// error that names the pattern.
pub proof fn law_price_of_a_page(
    page: FetchedView,
    extract_regex: String,
    comparator: NumComparator,
    threshold: Option<Number>,
    prev: Option<SnapshotView>,
)
    ensures
        ({
            let verdict = crate::engine::verdict_on(
                CheckType::Price { extract_regex, comparator, threshold },
                Ok(page),
                prev,
            );
            &&& crate::check::captured(page.body, extract_regex@) matches Some(raw) ==> verdict == (
            VerdictView::Measure {
                fetched: page,
                texts: PriceTextsView {
                    raw,
                    value: crate::check::number_chars(raw),
                    previous: if prev is Some && prev->0.value is Some {
                        Some(crate::check::number_chars(prev->0.value->0))
                    } else {
                        None
                    },
                },
            })
            &&& crate::check::captured(page.body, extract_regex@) is None ==> verdict
                == VerdictView::Outcome(
                OutcomeView {
                    status: CheckStatus::Error,
                    http_status: page.http_status,
                    latency_ms: Some(page.latency_ms),
                    value: None,
                    content_hash: None,
                    note: Some("price regex '"@ + extract_regex@ + "' did not match"@),
                    alert: None,
                },
            )
        }),
{
}

/// A captured text that is no number ends the check in an error that keeps the text.
pub proof fn law_unreadable_price(
    page: FetchedView,
    comparator: NumComparator,
    threshold: Option<Number>,
    texts: PriceTextsView,
)
    ensures
        crate::check::price_outcome(page, comparator, threshold, texts, None) == (OutcomeView {
            status: CheckStatus::Error,
            http_status: page.http_status,
            latency_ms: Some(page.latency_ms),
            value: Some(texts.raw),
            content_hash: None,
            note: Some("could not parse a number from the match"@),
            alert: None,
        }),
{
}

/// A price that was read is recorded by the text that shows it, or by the captured digits where the
/// former reads as another number, and alerts exactly when the comparator has something to say.
pub proof fn law_readable_price(
    page: FetchedView,
    comparator: NumComparator,
    threshold: Option<Number>,
    texts: PriceTextsView,
    figures: Figures,
)
    ensures
        ({
            let outcome = crate::check::price_outcome(page, comparator, threshold, texts, Some(figures));
            let message = crate::check::price_message(comparator, threshold, figures);
            let reads_back = figures.reread matches Some(n) && n.at_most(figures.value.number)
                && figures.value.number.at_most(n);
            &&& outcome.http_status == page.http_status
            &&& outcome.latency_ms == Some(page.latency_ms)
            &&& outcome.content_hash is None
            &&& outcome.note is None
            &&& reads_back ==> outcome.value == Some(figures.value.shown@)
            &&& !reads_back ==> outcome.value == Some(texts.value)
            &&& message is None ==> outcome.status == CheckStatus::Okay && outcome.alert is None
            &&& message matches Some(said) ==> outcome.status == CheckStatus::Triggered
                && outcome.alert == Some(
                PendingAlertView { title: "Price change"@, message: said, kind: "price"@ },
            )
        }),
{
}

/// A change is reported exactly when there is a previous number, the present one is another, be it
/// larger or smaller, and the two are more than the epsilon apart. The message names both.
pub proof fn law_price_changes(threshold: Option<Number>, figures: Figures)
    ensures
        ({
            let message = crate::check::price_message(NumComparator::Changed, threshold, figures);
            let apart = figures.previous matches Some(p) && (p.reading.number.below(
                figures.value.number,
            ) || figures.value.number.below(p.reading.number)) && (Number {
                bits: 0x3cb0_0000_0000_0000,
            }).below(p.distance);
            &&& message is Some <==> apart
            &&& apart ==> message == Some(
                "Changed from "@ + figures.previous->0.reading.shown@ + " to "@
                    + figures.value.shown@ + "."@,
            )
        }),
{
}

/// Which of the two numbers is the larger makes no difference to whether a change is reported: a
/// fall is reported like the rise that undoes it.
pub proof fn law_price_change_has_no_direction(
    threshold: Option<Number>,
    figures: Figures,
    turned: Figures,
)
    requires
        figures.previous is Some,
        turned.previous is Some,
        turned.value.number == figures.previous->0.reading.number,
        turned.previous->0.reading.number == figures.value.number,
        turned.previous->0.distance == figures.previous->0.distance,
    ensures
        crate::check::price_message(NumComparator::Changed, threshold, figures) is Some
            <==> crate::check::price_message(NumComparator::Changed, threshold, turned) is Some,
{
}

/// With comparator changed and the two finite numbers more than the epsilon apart, a message comes
/// exactly when their values are not the same.
pub proof fn law_different_prices_are_reported(threshold: Option<Number>, figures: Figures)
    requires
        figures.previous is Some,
        figures.value.number.finite(),
        figures.previous->0.reading.number.finite(),
        (Number { bits: 0x3cb0_0000_0000_0000 }).below(figures.previous->0.distance),
    ensures
        crate::check::price_message(NumComparator::Changed, threshold, figures) is Some
            <==> figures.value.number.units() != figures.previous->0.reading.number.units(),
{
    super::texts::law_differing_numbers(
        figures.value.number,
        figures.previous->0.reading.number,
    );
}

/// A price below the threshold is reported exactly when the previous one, if there is one, was not
/// below it; one above the threshold likewise. The message names the price and the threshold.
pub proof fn law_price_thresholds(threshold: Number, figures: Figures)
    ensures
        ({
            let value = figures.value.number;
            let less = crate::check::price_message(NumComparator::LessThan, Some(threshold), figures);
            let more = crate::check::price_message(NumComparator::GreaterThan, Some(threshold), figures);
            let falls = value.below(threshold) && (figures.previous matches Some(p)
                ==> threshold.at_most(p.reading.number));
            let rises = threshold.below(value) && (figures.previous matches Some(p)
                ==> p.reading.number.at_most(threshold));
            &&& less is Some <==> falls
            &&& falls ==> less == Some(
                "Now "@ + figures.value.shown@ + " (below "@ + figures.threshold_shown@ + ")."@,
            )
            &&& more is Some <==> rises
            &&& rises ==> more == Some(
                "Now "@ + figures.value.shown@ + " (above "@ + figures.threshold_shown@ + ")."@,
            )
            &&& crate::check::price_message(NumComparator::LessThan, None, figures) is None
            &&& crate::check::price_message(NumComparator::GreaterThan, None, figures) is None
        }),
{
}

/// A drop is reported exactly when it reaches the threshold, in percent of a previous value above
/// zero; a previous value that is not above zero counts as a drop of nothing. A rise likewise.
pub proof fn law_price_percentages(threshold: Number, figures: Figures)
    ensures
        ({
            let zero = Number { bits: 0 };
            let drops = crate::check::price_message(NumComparator::DropsByPct, Some(threshold), figures);
            let rises = crate::check::price_message(NumComparator::RisesByPct, Some(threshold), figures);
            &&& figures.previous is None ==> drops is None && rises is None
            &&& figures.previous matches Some(p) ==> {
                let positive = zero.below(p.reading.number);
                let span = "% (from "@ + p.reading.shown@ + " to "@ + figures.value.shown@ + ")."@;
                &&& positive ==> (drops is Some <==> threshold.at_most(p.drop_pct.number))
                &&& positive ==> (rises is Some <==> threshold.at_most(p.rise_pct.number))
                &&& !positive ==> (drops is Some <==> threshold.at_most(zero))
                &&& !positive ==> (rises is Some <==> threshold.at_most(zero))
                &&& positive && drops is Some ==> drops->0 == "Dropped "@ + p.drop_pct.shown@ + span
                &&& positive && rises is Some ==> rises->0 == "Rose "@ + p.rise_pct.shown@ + span
                &&& !positive && drops is Some ==> drops->0 == "Dropped "@ + "0.0"@ + span
                &&& !positive && rises is Some ==> rises->0 == "Rose "@ + "0.0"@ + span
            }
            &&& crate::check::price_message(NumComparator::DropsByPct, None, figures) is None
            &&& crate::check::price_message(NumComparator::RisesByPct, None, figures) is None
        }),
{
    if let Some(p) = figures.previous {
        let span = "% (from "@ + p.reading.shown@ + " to "@ + figures.value.shown@ + ")."@;
        let a = p.drop_pct.shown@;
        let b = p.rise_pct.shown@;
        let z = "0.0"@;
        assert("Dropped "@ + a + "% (from "@ + p.reading.shown@ + " to "@ + figures.value.shown@
            + ")."@ == "Dropped "@ + a + span);
        assert("Rose "@ + b + "% (from "@ + p.reading.shown@ + " to "@ + figures.value.shown@
            + ")."@ == "Rose "@ + b + span);
        assert("Dropped "@ + z + "% (from "@ + p.reading.shown@ + " to "@ + figures.value.shown@
            + ")."@ == "Dropped "@ + z + span);
        assert("Rose "@ + z + "% (from "@ + p.reading.shown@ + " to "@ + figures.value.shown@
            + ")."@ == "Rose "@ + z + span);
    }
}

} // verus!
