//! The checks: what a fetched page says, compared with the snapshot of the previous run.

use vstd::prelude::*;

use crate::boundary::{regex_captures, regex_is_match, sha256};
use crate::model::{CheckOutcome, CheckStatus, Fetched, NumComparator, PendingAlert, Snapshot};
use crate::model::{FetchedView, OutcomeView, PendingAlertView, SnapshotView};
use crate::number::{Figures, Number, EPSILON_BITS};
use crate::text::{chars_of, contains_text, decimal, is_ascii_digit, normalize_text, str_eq};

verus! {

// ---- shared pieces --------------------------------------------------------

/// A check that raised an alert is triggered; any other is okay.
pub open spec fn status_for(alert: Option<PendingAlertView>) -> CheckStatus {
    if alert is Some {
        CheckStatus::Triggered
    } else {
        CheckStatus::Okay
    }
}

/// The status of a completed check.
pub fn alert_status(alert: &Option<PendingAlert>) -> (r: CheckStatus)
    ensures
        r == status_for(alert.deep_view()),
{
    if alert.is_some() {
        CheckStatus::Triggered
    } else {
        CheckStatus::Okay
    }
}

/// How a message names the page: by its HTTP code, where there is one.
pub open spec fn page_label(fetched: FetchedView) -> Seq<char> {
    match fetched.http_status {
        Some(code) => "HTTP "@ + crate::text::decimal_digits(code as nat),
        None => "fetched page"@,
    }
}

/// The name of a page in a message.
pub fn fetched_label(fetched: &Fetched) -> (r: String)
    ensures
        r@ == page_label(fetched@),
{
    match fetched.http_status {
        Some(code) => "HTTP ".to_string().concat(decimal(code as u64).as_str()),
        None => "fetched page".to_string(),
    }
}

/// Whether the previous check read `word`; `None` where there was no previous check.
pub open spec fn previously(prev: Option<SnapshotView>, word: Seq<char>) -> Option<bool> {
    match prev {
        Some(s) => Some(s.value == Some(word)),
        None => None,
    }
}

fn previous_is(prev: Option<&Snapshot>, word: &str) -> (r: Option<bool>)
    ensures
        r == previously(prev.deep_view(), word@),
{
    match prev {
        Some(s) => match &s.value {
            Some(v) => Some(str_eq(v.as_str(), word)),
            None => Some(false),
        },
        None => None,
    }
}

/// The check moves into the state that is to be alerted: it is there now, and it was not known to
/// be there before.
pub open spec fn enters(now: bool, wanted: bool, was: Option<bool>) -> bool {
    now == wanted && was != Some(wanted)
}

fn moves_into(now: bool, wanted: bool, was: Option<bool>) -> (r: bool)
    ensures
        r == enters(now, wanted, was),
{
    match was {
        Some(w) => now == wanted && w != wanted,
        None => now == wanted,
    }
}

/// A check that completed on a fetched page.
pub open spec fn completed(
    fetched: FetchedView,
    value: Seq<char>,
    content_hash: Option<Seq<char>>,
    alert: Option<PendingAlertView>,
) -> OutcomeView {
    OutcomeView {
        status: status_for(alert),
        http_status: fetched.http_status,
        latency_ms: Some(fetched.latency_ms),
        value: Some(value),
        content_hash,
        note: None,
        alert,
    }
}

// ---- uptime ---------------------------------------------------------------

/// The site counts as up before the first check.
pub open spec fn was_up(prev: Option<SnapshotView>) -> bool {
    previously(prev, "up"@) != Some(false)
}

/// The HTTP codes that count as healthy: the expected ones, or any 2xx or 3xx.
pub open spec fn healthy(code: u16, expect_status: Seq<u16>) -> bool {
    if expect_status.len() == 0 {
        200 <= code < 400
    } else {
        expect_status.contains(code)
    }
}

/// The code of a page; 0 where the fetch brought none.
pub open spec fn page_code(fetched: FetchedView) -> u16 {
    match fetched.http_status {
        Some(code) => code,
        None => 0,
    }
}

/// What an uptime check says of a page, or of a failed fetch.
pub open spec fn uptime_outcome(
    fetched: Result<FetchedView, Seq<char>>,
    expect_status: Seq<u16>,
    prev: Option<SnapshotView>,
) -> OutcomeView {
    match fetched {
        Ok(f) => {
            let code = crate::text::decimal_digits(page_code(f) as nat);
            let up = healthy(page_code(f), expect_status);
            let alert = if up == was_up(prev) {
                None
            } else if up {
                Some(
                    PendingAlertView {
                        title: "Site back up"@,
                        message: "Recovered (HTTP "@ + code + "), "@
                            + crate::text::decimal_digits(f.latency_ms as nat) + " ms."@,
                        kind: "uptime_up"@,
                    },
                )
            } else {
                Some(
                    PendingAlertView {
                        title: "Site down"@,
                        message: "Unexpected HTTP "@ + code + "."@,
                        kind: "uptime_down"@,
                    },
                )
            };
            completed(
                f,
                if up {
                    "up"@
                } else {
                    "down"@
                },
                None,
                alert,
            )
        },
        Err(e) => {
            let alert = if was_up(prev) {
                Some(
                    PendingAlertView {
                        title: "Site down"@,
                        message: "Request failed: "@ + e,
                        kind: "uptime_down"@,
                    },
                )
            } else {
                None
            };
            OutcomeView {
                status: status_for(alert),
                http_status: None,
                latency_ms: None,
                value: Some("down"@),
                content_hash: None,
                note: Some(e),
                alert,
            }
        },
    }
}

/// The view of a fetch attempt.
pub open spec fn attempt(fetched: Result<Fetched, String>) -> Result<FetchedView, Seq<char>> {
    match fetched {
        Ok(f) => Ok(f@),
        Err(e) => Err(e@),
    }
}

fn code_listed(codes: &[u16], code: u16) -> (r: bool)
    ensures
        r == codes@.contains(code),
{
    let mut i: usize = 0;
    while i < codes.len()
        invariant
            i <= codes@.len(),
            forall|j: int| 0 <= j < i ==> codes@[j] != code,
        decreases codes@.len() - i,
    {
        if codes[i] == code {
            assert(codes@[i as int] == code);
            return true;
        }
        i = i + 1;
    }
    false
}

/// Uptime: a failed fetch is itself the signal.
pub fn eval_uptime(
    fetched: Result<Fetched, String>,
    expect_status: &[u16],
    prev: Option<&Snapshot>,
) -> (r: CheckOutcome)
    ensures
        r@ == uptime_outcome(attempt(fetched), expect_status@, prev.deep_view()),
{
    let was: bool = match previous_is(prev, "up") {
        Some(up) => up,
        None => true,
    };
    match fetched {
        Ok(f) => {
            let code: u16 = match f.http_status {
                Some(c) => c,
                None => 0,
            };
            let up: bool = if expect_status.len() == 0 {
                200 <= code && code < 400
            } else {
                code_listed(expect_status, code)
            };
            let alert = if up && !was {
                let message = "Recovered (HTTP ".to_string().concat(
                    decimal(code as u64).as_str(),
                ).concat("), ").concat(decimal(f.latency_ms).as_str()).concat(" ms.");
                Some(PendingAlert { title: "Site back up".to_string(), message, kind: "uptime_up" })
            } else if !up && was {
                let message = "Unexpected HTTP ".to_string().concat(
                    decimal(code as u64).as_str(),
                ).concat(".");
                Some(PendingAlert { title: "Site down".to_string(), message, kind: "uptime_down" })
            } else {
                None
            };
            CheckOutcome {
                status: alert_status(&alert),
                http_status: f.http_status,
                latency_ms: Some(f.latency_ms),
                value: Some(
                    if up {
                        "up".to_string()
                    } else {
                        "down".to_string()
                    },
                ),
                content_hash: None,
                note: None,
                alert,
            }
        },
        Err(e) => {
            let alert = if was {
                let message = "Request failed: ".to_string().concat(e.as_str());
                Some(PendingAlert { title: "Site down".to_string(), message, kind: "uptime_down" })
            } else {
                None
            };
            CheckOutcome {
                status: alert_status(&alert),
                http_status: None,
                latency_ms: None,
                value: Some("down".to_string()),
                content_hash: None,
                note: Some(e),
                alert,
            }
        },
    }
}

// ---- patterns -------------------------------------------------------------

/// A pattern that ignores case where asked to.
pub open spec fn cased_pattern(pattern: Seq<char>, case_sensitive: bool) -> Seq<char> {
    if case_sensitive {
        pattern
    } else {
        "(?i)"@ + pattern
    }
}

/// The pattern is found in the text, as a regex or as plain text. A regex that does not compile
/// is not found.
pub open spec fn pattern_found(
    body: Seq<char>,
    pattern: Seq<char>,
    is_regex: bool,
    case_sensitive: bool,
) -> bool {
    if is_regex {
        crate::boundary::regex_match(cased_pattern(pattern, case_sensitive), body) == Some(true)
    } else if case_sensitive {
        crate::text::substring(pattern, body)
    } else {
        crate::text::substring(
            crate::boundary::lowercase(pattern),
            crate::boundary::lowercase(body),
        )
    }
}

/// Whether the pattern is found in the text.
pub fn pattern_matches(body: &str, pattern: &str, is_regex: bool, case_sensitive: bool) -> (r: bool)
    ensures
        r == pattern_found(body@, pattern@, is_regex, case_sensitive),
{
    if is_regex {
        let found = if case_sensitive {
            regex_is_match(pattern, body)
        } else {
            regex_is_match("(?i)".to_string().concat(pattern).as_str(), body)
        };
        match found {
            Some(b) => b,
            None => false,
        }
    } else if case_sensitive {
        contains_text(body, pattern)
    } else {
        contains_text(body.to_lowercase().as_str(), pattern.to_lowercase().as_str())
    }
}

/// The first match of a pattern: capture group 1, or the whole match where that took no part.
pub open spec fn captured(body: Seq<char>, pattern: Seq<char>) -> Option<Seq<char>> {
    chosen_group(crate::boundary::regex_capture(pattern, body))
}

/// Capture group 1, or the whole match where that took no part.
pub open spec fn chosen_group(found: Option<(Seq<char>, Option<Seq<char>>)>) -> Option<Seq<char>> {
    match found {
        Some(groups) => match groups.1 {
            Some(first) => Some(first),
            None => Some(groups.0),
        },
        None => None,
    }
}

/// Capture group 1 of a match, or the whole match where that took no part.
pub fn prefer_group(found: Option<(String, Option<String>)>) -> (r: Option<String>)
    ensures
        r.deep_view() == match found {
            Some(groups) => chosen_group(Some((groups.0@, groups.1.deep_view()))),
            None => None,
        },
{
    match found {
        Some((whole, first)) => match first {
            Some(group) => Some(group),
            None => Some(whole),
        },
        None => None,
    }
}

/// The first match of a pattern in a text.
pub fn first_capture(body: &str, pattern: &str) -> (r: Option<String>)
    ensures
        r.deep_view() == captured(body@, pattern@),
{
    prefer_group(regex_captures(pattern, body))
}

// ---- keyword --------------------------------------------------------------

/// What a keyword check says, given whether the keyword is on the page.
pub open spec fn keyword_outcome(
    fetched: FetchedView,
    pattern: Seq<char>,
    present: bool,
    alert_when_present: bool,
    prev: Option<SnapshotView>,
) -> OutcomeView {
    let alert = if enters(present, alert_when_present, previously(prev, "present"@)) {
        Some(
            PendingAlertView {
                title: "Keyword "@ + (if present {
                    "appeared"@
                } else {
                    "disappeared"@
                }) + " \""@ + pattern + "\""@,
                message: "On "@ + page_label(fetched),
                kind: "keyword"@,
            },
        )
    } else {
        None
    };
    completed(
        fetched,
        if present {
            "present"@
        } else {
            "absent"@
        },
        None,
        alert,
    )
}

/// Judge a keyword that is on the page or is not.
pub fn judge_keyword(
    fetched: &Fetched,
    pattern: &str,
    present: bool,
    alert_when_present: bool,
    prev: Option<&Snapshot>,
) -> (r: CheckOutcome)
    ensures
        r@ == keyword_outcome(fetched@, pattern@, present, alert_when_present, prev.deep_view()),
{
    let alert = if moves_into(present, alert_when_present, previous_is(prev, "present")) {
        let change = if present {
            "appeared"
        } else {
            "disappeared"
        };
        let title = "Keyword ".to_string().concat(change).concat(" \"").concat(pattern).concat(
            "\"",
        );
        Some(
            PendingAlert {
                title,
                message: "On ".to_string().concat(fetched_label(fetched).as_str()),
                kind: "keyword",
            },
        )
    } else {
        None
    };
    CheckOutcome {
        status: alert_status(&alert),
        http_status: fetched.http_status,
        latency_ms: Some(fetched.latency_ms),
        value: Some(
            if present {
                "present".to_string()
            } else {
                "absent".to_string()
            },
        ),
        content_hash: None,
        note: None,
        alert,
    }
}

/// Keyword: alert on the transition into the configured state.
pub fn eval_keyword(
    fetched: &Fetched,
    pattern: &str,
    is_regex: bool,
    case_sensitive: bool,
    alert_when_present: bool,
    prev: Option<&Snapshot>,
) -> (r: CheckOutcome)
    ensures
        r@ == keyword_outcome(
            fetched@,
            pattern@,
            pattern_found(fetched@.body, pattern@, is_regex, case_sensitive),
            alert_when_present,
            prev.deep_view(),
        ),
{
    let present = pattern_matches(fetched.body.as_str(), pattern, is_regex, case_sensitive);
    judge_keyword(fetched, pattern, present, alert_when_present, prev)
}

// ---- stock ----------------------------------------------------------------

/// What a stock check says, given whether the item is in stock.
pub open spec fn stock_outcome(
    fetched: FetchedView,
    in_stock: bool,
    alert_when_in_stock: bool,
    prev: Option<SnapshotView>,
) -> OutcomeView {
    let alert = if enters(in_stock, alert_when_in_stock, previously(prev, "in_stock"@)) {
        Some(
            PendingAlertView {
                title: "Now "@ + (if in_stock {
                    "in stock"@
                } else {
                    "out of stock"@
                }),
                message: "On "@ + page_label(fetched),
                kind: "stock"@,
            },
        )
    } else {
        None
    };
    completed(
        fetched,
        if in_stock {
            "in_stock"@
        } else {
            "out_of_stock"@
        },
        None,
        alert,
    )
}

/// Judge an item that is in stock or is not.
pub fn judge_stock(
    fetched: &Fetched,
    in_stock: bool,
    alert_when_in_stock: bool,
    prev: Option<&Snapshot>,
) -> (r: CheckOutcome)
    ensures
        r@ == stock_outcome(fetched@, in_stock, alert_when_in_stock, prev.deep_view()),
{
    let alert = if moves_into(in_stock, alert_when_in_stock, previous_is(prev, "in_stock")) {
        let title = "Now ".to_string().concat(
            if in_stock {
                "in stock"
            } else {
                "out of stock"
            },
        );
        Some(
            PendingAlert {
                title,
                message: "On ".to_string().concat(fetched_label(fetched).as_str()),
                kind: "stock",
            },
        )
    } else {
        None
    };
    CheckOutcome {
        status: alert_status(&alert),
        http_status: fetched.http_status,
        latency_ms: Some(fetched.latency_ms),
        value: Some(
            if in_stock {
                "in_stock".to_string()
            } else {
                "out_of_stock".to_string()
            },
        ),
        content_hash: None,
        note: None,
        alert,
    }
}

/// Stock: alert on the transition into the configured state; the phrase ignores case.
pub fn eval_stock(
    fetched: &Fetched,
    in_stock_pattern: &str,
    is_regex: bool,
    alert_when_in_stock: bool,
    prev: Option<&Snapshot>,
) -> (r: CheckOutcome)
    ensures
        r@ == stock_outcome(
            fetched@,
            pattern_found(fetched@.body, in_stock_pattern@, is_regex, false),
            alert_when_in_stock,
            prev.deep_view(),
        ),
{
    let in_stock = pattern_matches(fetched.body.as_str(), in_stock_pattern, is_regex, false);
    judge_stock(fetched, in_stock, alert_when_in_stock, prev)
}

// ---- content --------------------------------------------------------------

/// The lower-case hexadecimal digit for a number below sixteen.
pub open spec fn hex_digit(d: nat) -> char {
    if d < 10 {
        (0x30 + d) as char
    } else {
        (0x61 + d - 10) as char
    }
}

/// Two lower-case hexadecimal digits for each byte.
pub open spec fn hex_text(bytes: Seq<u8>) -> Seq<char>
    decreases bytes.len(),
{
    if bytes.len() == 0 {
        seq![]
    } else {
        hex_text(bytes.drop_last()).push(hex_digit(bytes.last() as nat / 16)).push(
            hex_digit(bytes.last() as nat % 16),
        )
    }
}

pub(crate) fn push_hex_digit(out: &mut String, d: u8)
    requires
        d < 16,
    ensures
        final(out)@ == old(out)@.push(hex_digit(d as nat)),
{
    if d < 10 {
        out.push((0x30u8 + d) as char);
    } else {
        out.push((0x61u8 + d - 10) as char);
    }
}

/// Write bytes in lower-case hexadecimal.
pub fn hex(bytes: &[u8]) -> (r: String)
    ensures
        r@ == hex_text(bytes@),
{
    let mut out = String::new();
    let mut i: usize = 0;
    while i < bytes.len()
        invariant
            i <= bytes@.len(),
            out@ == hex_text(bytes@.take(i as int)),
        decreases bytes@.len() - i,
    {
        let b: u8 = bytes[i];
        push_hex_digit(&mut out, b / 16);
        push_hex_digit(&mut out, b % 16);
        assert(bytes@.take(i as int + 1).drop_last() == bytes@.take(i as int));
        i = i + 1;
    }
    assert(bytes@.take(bytes@.len() as int) == bytes@);
    out
}

/// The hexadecimal SHA-256 digest of a text.
pub open spec fn text_hash(s: Seq<char>) -> Seq<char> {
    hex_text(crate::boundary::sha256_digest(vstd::utf8::encode_utf8(s)))
}

/// Hexadecimal text has two characters for each byte.
pub proof fn lemma_hex_length(bytes: Seq<u8>)
    ensures
        hex_text(bytes).len() == 2 * bytes.len(),
    decreases bytes.len(),
{
    if bytes.len() > 0 {
        lemma_hex_length(bytes.drop_last());
    }
}

/// Two byte strings are written alike exactly when they are the same.
pub proof fn law_hex_is_faithful(a: Seq<u8>, b: Seq<u8>)
    ensures
        hex_text(a) == hex_text(b) <==> a == b,
    decreases a.len(),
{
    lemma_hex_length(a);
    lemma_hex_length(b);
    if hex_text(a) == hex_text(b) {
        if a.len() > 0 {
            let n = hex_text(a).len() as int;
            let front_a = hex_text(a.drop_last());
            let front_b = hex_text(b.drop_last());
            assert(hex_text(a).take(n - 2) == front_a);
            assert(hex_text(b).take(n - 2) == front_b);
            law_hex_is_faithful(a.drop_last(), b.drop_last());
            assert(hex_text(a)[n - 2] == hex_digit(a.last() as nat / 16));
            assert(hex_text(b)[n - 2] == hex_digit(b.last() as nat / 16));
            assert(hex_text(a)[n - 1] == hex_digit(a.last() as nat % 16));
            assert(hex_text(b)[n - 1] == hex_digit(b.last() as nat % 16));
            assert(a.last() == b.last());
            assert(a == a.drop_last().push(a.last()));
            assert(b == b.drop_last().push(b.last()));
        } else {
            assert(a == b);
        }
    }
}

/// The hexadecimal SHA-256 digest of a text.
pub fn sha256_hex(s: &str) -> (r: String)
    ensures
        r@ == text_hash(s@),
        r@.len() == 64,
{
    let digest = sha256(s.as_bytes());
    proof {
        lemma_hex_length(digest@);
    }
    hex(digest.as_slice())
}

/// The watched part of a page: the first match of the region's pattern (nothing where there is no
/// match), or the whole page.
pub open spec fn region_of(body: Seq<char>, region_regex: Option<Seq<char>>) -> Seq<char> {
    match region_regex {
        Some(re) => match captured(body, re) {
            Some(region) => region,
            None => seq![],
        },
        None => body,
    }
}

/// The text that a content check hashes: the words of the region, one blank between two.
pub open spec fn watched_text(body: Seq<char>, region_regex: Option<Seq<char>>) -> Seq<char> {
    crate::text::joined(crate::text::words(region_of(body, region_regex)))
}

/// What a content check says, given the length in bytes of the watched text and its hash.
pub open spec fn content_outcome(
    fetched: FetchedView,
    length: nat,
    hash: Seq<char>,
    prev: Option<SnapshotView>,
) -> OutcomeView {
    let changed = prev matches Some(s) && s.content_hash matches Some(before) && before != hash;
    let alert = if changed {
        Some(
            PendingAlertView {
                title: "Content changed"@,
                message: "The watched content on "@ + page_label(fetched) + " changed."@,
                kind: "content_change"@,
            },
        )
    } else {
        None
    };
    completed(fetched, crate::text::decimal_digits(length) + " chars"@, Some(hash), alert)
}

/// Judge the watched text by its length in bytes and its hash.
pub fn judge_content(
    fetched: &Fetched,
    length: usize,
    hash: String,
    prev: Option<&Snapshot>,
) -> (r: CheckOutcome)
    ensures
        r@ == content_outcome(fetched@, length as nat, hash@, prev.deep_view()),
{
    let changed: bool = match prev {
        Some(s) => match &s.content_hash {
            Some(before) => !str_eq(before.as_str(), hash.as_str()),
            None => false,
        },
        None => false,
    };
    let alert = if changed {
        let message = "The watched content on ".to_string().concat(
            fetched_label(fetched).as_str(),
        ).concat(" changed.");
        Some(
            PendingAlert { title: "Content changed".to_string(), message, kind: "content_change" },
        )
    } else {
        None
    };
    CheckOutcome {
        status: alert_status(&alert),
        http_status: fetched.http_status,
        latency_ms: Some(fetched.latency_ms),
        value: Some(decimal(length as u64).concat(" chars")),
        content_hash: Some(hash),
        note: None,
        alert,
    }
}

/// Content: alert when the hash of the watched text is not the one of the previous check.
pub fn eval_content_diff(
    fetched: &Fetched,
    region_regex: Option<&str>,
    prev: Option<&Snapshot>,
) -> (r: CheckOutcome)
    ensures
        r@ == content_outcome(
            fetched@,
            vstd::utf8::encode_utf8(watched_text(fetched@.body, region_regex.deep_view())).len(),
            text_hash(watched_text(fetched@.body, region_regex.deep_view())),
            prev.deep_view(),
        ),
{
    let region = match region_regex {
        Some(re) => match first_capture(fetched.body.as_str(), re) {
            Some(found) => found,
            None => String::new(),
        },
        None => fetched.body.clone(),
    };
    let normalized = normalize_text(region.as_str());
    let hash = sha256_hex(normalized.as_str());
    judge_content(fetched, normalized.as_str().as_bytes().len(), hash, prev)
}

// ---- price ----------------------------------------------------------------

/// The characters that a number is read from: digits, the decimal point and the minus sign.
pub open spec fn number_char(c: char) -> bool {
    crate::text::ascii_digit(c) || c == '.' || c == '-'
}

/// A text without currency symbols, thousands separators and the like.
pub open spec fn number_chars(raw: Seq<char>) -> Seq<char> {
    raw.filter(|c: char| number_char(c))
}

/// Keep the digits, the dots and the minus signs of a text.
pub fn number_text(raw: &str) -> (r: String)
    ensures
        r@ == number_chars(raw@),
{
    let ghost keep = |c: char| number_char(c);
    let v = chars_of(raw);
    let mut out = String::new();
    let mut i: usize = 0;
    assert(v@.take(0).filter(keep) == Seq::<char>::empty());
    while i < v.len()
        invariant
            i <= v@.len(),
            keep == (|c: char| number_char(c)),
            out@ == v@.take(i as int).filter(keep),
        decreases v@.len() - i,
    {
        let c: char = v[i];
        proof {
            reveal(Seq::filter);
            assert(v@.take(i as int + 1).drop_last() == v@.take(i as int));
        }
        if is_ascii_digit(c) || c == '.' || c == '-' {
            out.push(c);
        }
        i = i + 1;
    }
    assert(v@.take(v@.len() as int) == raw@);
    out
}

/// What is kept of two texts one after the other is what is kept of each.
proof fn lemma_number_chars_append(a: Seq<char>, b: Seq<char>)
    ensures
        number_chars(a + b) == number_chars(a) + number_chars(b),
    decreases b.len(),
{
    reveal(Seq::filter);
    if b.len() == 0 {
        assert(a + b == a);
        assert(number_chars(b) == Seq::<char>::empty());
    } else {
        lemma_number_chars_append(a, b.drop_last());
        assert((a + b).drop_last() == a + b.drop_last());
        assert((a + b).last() == b.last());
    }
}

/// A text without digits, dots and minus signs leaves nothing.
proof fn lemma_nothing_kept(c: Seq<char>)
    requires
        forall|i: int| 0 <= i < c.len() ==> !number_char(#[trigger] c[i]),
    ensures
        number_chars(c) == Seq::<char>::empty(),
    decreases c.len(),
{
    reveal(Seq::filter);
    if c.len() > 0 {
        assert(!number_char(c[c.len() - 1]));
        lemma_nothing_kept(c.drop_last());
    }
}

/// A text of digits, dots and minus signs is kept as it is.
proof fn lemma_all_kept(c: Seq<char>)
    requires
        forall|i: int| 0 <= i < c.len() ==> number_char(#[trigger] c[i]),
    ensures
        number_chars(c) == c,
    decreases c.len(),
{
    reveal(Seq::filter);
    if c.len() > 0 {
        assert(number_char(c[c.len() - 1]));
        lemma_all_kept(c.drop_last());
        assert(c.drop_last().push(c.last()) == c);
    }
}

proof fn lemma_kept_are_number_chars(s: Seq<char>)
    ensures
        forall|i: int| 0 <= i < number_chars(s).len() ==> number_char(#[trigger] number_chars(s)[i]),
    decreases s.len(),
{
    reveal(Seq::filter);
    if s.len() > 0 {
        lemma_kept_are_number_chars(s.drop_last());
    }
}

/// Characters other than digits, dots and minus signs make no difference to a number, wherever they
/// stand: currency symbols, separators and words are not seen. Alone they leave nothing to read.
pub proof fn law_symbols_are_not_seen(before: Seq<char>, symbols: Seq<char>, after: Seq<char>)
    requires
        forall|i: int| 0 <= i < symbols.len() ==> !number_char(#[trigger] symbols[i]),
    ensures
        number_chars(before + symbols + after) == number_chars(before + after),
        number_chars(symbols).len() == 0,
{
    lemma_nothing_kept(symbols);
    lemma_number_chars_append(before + symbols, after);
    lemma_number_chars_append(before, symbols);
    lemma_number_chars_append(before, after);
}

/// Taking the digits, dots and minus signs of a text a second time changes nothing.
pub proof fn law_number_text_idempotent(raw: Seq<char>)
    ensures
        number_chars(number_chars(raw)) == number_chars(raw),
{
    lemma_kept_are_number_chars(raw);
    lemma_all_kept(number_chars(raw));
}

/// The texts that a price check has to read as numbers.
#[derive(Debug, Clone)]
pub struct PriceTexts {
    /// What the pattern captured, as it stands on the page.
    pub raw: String,
    /// The captured number without symbols and separators.
    pub value: String,
    /// The value of the previous check without symbols and separators, where there is one.
    pub previous: Option<String>,
}

/// What the texts of a price check are.
pub struct PriceTextsView {
    pub raw: Seq<char>,
    pub value: Seq<char>,
    pub previous: Option<Seq<char>>,
}

impl View for PriceTexts {
    type V = PriceTextsView;

    open spec fn view(&self) -> PriceTextsView {
        PriceTextsView {
            raw: self.raw@,
            value: self.value@,
            previous: self.previous.deep_view(),
        }
    }
}

/// The texts to read as numbers, for what the pattern captured.
pub open spec fn price_texts(raw: Seq<char>, prev: Option<SnapshotView>) -> PriceTextsView {
    PriceTextsView {
        raw,
        value: number_chars(raw),
        previous: match prev {
            Some(s) => match s.value {
                Some(v) => Some(number_chars(v)),
                None => None,
            },
            None => None,
        },
    }
}

/// A check that could not complete on a fetched page.
pub open spec fn failed(
    fetched: FetchedView,
    value: Option<Seq<char>>,
    note: Seq<char>,
) -> OutcomeView {
    OutcomeView {
        status: CheckStatus::Error,
        http_status: fetched.http_status,
        latency_ms: Some(fetched.latency_ms),
        value,
        content_hash: None,
        note: Some(note),
        alert: None,
    }
}

/// The outcome where the pattern captured nothing.
pub open spec fn no_price(fetched: FetchedView, extract_regex: Seq<char>) -> OutcomeView {
    failed(fetched, None, "price regex '"@ + extract_regex + "' did not match"@)
}

/// Take what the pattern captured apart into the texts to read as numbers.
pub fn judge_capture(
    fetched: &Fetched,
    extract_regex: &str,
    raw: Option<String>,
    prev: Option<&Snapshot>,
) -> (r: Result<PriceTexts, CheckOutcome>)
    ensures
        match (raw, r) {
            (Some(text), Ok(texts)) => texts@ == price_texts(text@, prev.deep_view()),
            (None, Err(outcome)) => outcome@ == no_price(fetched@, extract_regex@),
            _ => false,
        },
{
    match raw {
        Some(raw) => {
            let value = number_text(raw.as_str());
            let previous = match prev {
                Some(s) => match &s.value {
                    Some(v) => Some(number_text(v.as_str())),
                    None => None,
                },
                None => None,
            };
            Ok(PriceTexts { raw, value, previous })
        },
        None => {
            let note = "price regex '".to_string().concat(extract_regex).concat("' did not match");
            Err(
                CheckOutcome {
                    status: CheckStatus::Error,
                    http_status: fetched.http_status,
                    latency_ms: Some(fetched.latency_ms),
                    value: None,
                    content_hash: None,
                    note: Some(note),
                    alert: None,
                },
            )
        },
    }
}

/// Price, first part: find the number on the page.
pub fn capture_price(fetched: &Fetched, extract_regex: &str, prev: Option<&Snapshot>) -> (r: Result<
    PriceTexts,
    CheckOutcome,
>)
    ensures
        match captured(fetched@.body, extract_regex@) {
            Some(raw) => r matches Ok(texts) && texts@ == price_texts(raw, prev.deep_view()),
            None => r matches Err(outcome) && outcome@ == no_price(fetched@, extract_regex@),
        },
{
    judge_capture(fetched, extract_regex, first_capture(fetched.body.as_str(), extract_regex), prev)
}

/// The percentage that counts: 0 where the previous value is not above 0.
pub open spec fn counted_pct(
    previous: crate::number::Previous,
    pct: crate::number::Reading,
) -> (Number, Seq<char>) {
    if (Number { bits: 0 }).below(previous.reading.number) {
        (pct.number, pct.shown@)
    } else {
        (Number { bits: 0 }, "0.0"@)
    }
}

/// The message of a price alert, where the comparator raises one.
pub open spec fn price_message(
    comparator: NumComparator,
    threshold: Option<Number>,
    figures: Figures,
) -> Option<Seq<char>> {
    let value = figures.value;
    match comparator {
        NumComparator::Changed => match figures.previous {
            Some(p) if p.reading.number.differs(value.number) && (Number {
                bits: EPSILON_BITS,
            }).below(p.distance) => Some(
                "Changed from "@ + p.reading.shown@ + " to "@ + value.shown@ + "."@,
            ),
            _ => None,
        },
        NumComparator::LessThan => match threshold {
            Some(t) if value.number.below(t) && (figures.previous matches Some(p) ==> t.at_most(
                p.reading.number,
            )) => Some("Now "@ + value.shown@ + " (below "@ + figures.threshold_shown@ + ")."@),
            _ => None,
        },
        NumComparator::GreaterThan => match threshold {
            Some(t) if t.below(value.number) && (figures.previous matches Some(p)
                ==> p.reading.number.at_most(t)) => Some(
                "Now "@ + value.shown@ + " (above "@ + figures.threshold_shown@ + ")."@,
            ),
            _ => None,
        },
        NumComparator::DropsByPct => match (threshold, figures.previous) {
            (Some(t), Some(p)) if t.at_most(counted_pct(p, p.drop_pct).0) => Some(
                "Dropped "@ + counted_pct(p, p.drop_pct).1 + "% (from "@ + p.reading.shown@
                    + " to "@ + value.shown@ + ")."@,
            ),
            _ => None,
        },
        NumComparator::RisesByPct => match (threshold, figures.previous) {
            (Some(t), Some(p)) if t.at_most(counted_pct(p, p.rise_pct).0) => Some(
                "Rose "@ + counted_pct(p, p.rise_pct).1 + "% (from "@ + p.reading.shown@
                    + " to "@ + value.shown@ + ")."@,
            ),
            _ => None,
        },
    }
}

fn count_pct(previous: &crate::number::Previous, pct: &crate::number::Reading) -> (r: (
    Number,
    String,
))
    ensures
        (r.0, r.1@) == counted_pct(*previous, *pct),
{
    if (Number { bits: 0 }).lt(previous.reading.number) {
        (pct.number, pct.shown.clone())
    } else {
        (Number { bits: 0 }, "0.0".to_string())
    }
}

/// Whether the figures of a price check raise an alert, and what it says.
pub fn price_alert(comparator: NumComparator, threshold: Option<Number>, figures: &Figures) -> (r:
    Option<String>)
    ensures
        r.deep_view() == price_message(comparator, threshold, *figures),
{
    let shown = figures.value.shown.as_str();
    match comparator {
        NumComparator::Changed => match &figures.previous {
            Some(p) => if (p.reading.number.lt(figures.value.number)
                || figures.value.number.lt(p.reading.number)) && (Number {
                bits: EPSILON_BITS,
            }).lt(p.distance) {
                Some(
                    "Changed from ".to_string().concat(p.reading.shown.as_str()).concat(
                        " to ",
                    ).concat(shown).concat("."),
                )
            } else {
                None
            },
            None => None,
        },
        NumComparator::LessThan => {
            let t: Number = match threshold {
                Some(t) => t,
                None => {
                    return None;
                },
            };
            let from_above: bool = match &figures.previous {
                Some(p) => t.le(p.reading.number),
                None => true,
            };
            if figures.value.number.lt(t) && from_above {
                Some(
                    "Now ".to_string().concat(shown).concat(" (below ").concat(
                        figures.threshold_shown.as_str(),
                    ).concat(")."),
                )
            } else {
                None
            }
        },
        NumComparator::GreaterThan => {
            let t: Number = match threshold {
                Some(t) => t,
                None => {
                    return None;
                },
            };
            let from_below: bool = match &figures.previous {
                Some(p) => p.reading.number.le(t),
                None => true,
            };
            if t.lt(figures.value.number) && from_below {
                Some(
                    "Now ".to_string().concat(shown).concat(" (above ").concat(
                        figures.threshold_shown.as_str(),
                    ).concat(")."),
                )
            } else {
                None
            }
        },
        NumComparator::DropsByPct => match (threshold, &figures.previous) {
            (Some(t), Some(p)) => {
                let (pct, pct_shown) = count_pct(p, &p.drop_pct);
                if t.le(pct) {
                    Some(
                        "Dropped ".to_string().concat(pct_shown.as_str()).concat("% (from ").concat(
                            p.reading.shown.as_str(),
                        ).concat(" to ").concat(shown).concat(")."),
                    )
                } else {
                    None
                }
            },
            _ => None,
        },
        NumComparator::RisesByPct => match (threshold, &figures.previous) {
            (Some(t), Some(p)) => {
                let (pct, pct_shown) = count_pct(p, &p.rise_pct);
                if t.le(pct) {
                    Some(
                        "Rose ".to_string().concat(pct_shown.as_str()).concat("% (from ").concat(
                            p.reading.shown.as_str(),
                        ).concat(" to ").concat(shown).concat(")."),
                    )
                } else {
                    None
                }
            },
            _ => None,
        },
    }
}

/// The text that a price is recorded as: the one that shows it, where that reads as the same
/// number; else the number as it was captured, which does.
pub open spec fn recorded_price(texts: PriceTextsView, figures: Figures) -> Seq<char> {
    match figures.reread {
        Some(n) if n.same(figures.value.number) => figures.value.shown@,
        _ => texts.value,
    }
}

/// What a price check says: `figures` is `None` where the captured text is no number.
pub open spec fn price_outcome(
    fetched: FetchedView,
    comparator: NumComparator,
    threshold: Option<Number>,
    texts: PriceTextsView,
    figures: Option<Figures>,
) -> OutcomeView {
    match figures {
        Some(f) => {
            let alert = match price_message(comparator, threshold, f) {
                Some(message) => Some(
                    PendingAlertView { title: "Price change"@, message, kind: "price"@ },
                ),
                None => None,
            };
            completed(fetched, recorded_price(texts, f), None, alert)
        },
        None => failed(fetched, Some(texts.raw), "could not parse a number from the match"@),
    }
}

/// Price, second part: compare the numbers that were read.
pub fn eval_price(
    fetched: &Fetched,
    comparator: NumComparator,
    threshold: Option<Number>,
    texts: PriceTexts,
    figures: Option<Figures>,
) -> (r: CheckOutcome)
    ensures
        r@ == price_outcome(fetched@, comparator, threshold, texts@, figures),
{
    match figures {
        Some(f) => {
            let alert = match price_alert(comparator, threshold, &f) {
                Some(message) => Some(
                    PendingAlert { title: "Price change".to_string(), message, kind: "price" },
                ),
                None => None,
            };
            let reads_back: bool = match f.reread {
                Some(n) => n.le(f.value.number) && f.value.number.le(n),
                None => false,
            };
            CheckOutcome {
                status: alert_status(&alert),
                http_status: fetched.http_status,
                latency_ms: Some(fetched.latency_ms),
                value: Some(
                    if reads_back {
                        f.value.shown
                    } else {
                        texts.value
                    },
                ),
                content_hash: None,
                note: None,
                alert,
            }
        },
        None => CheckOutcome {
            status: CheckStatus::Error,
            http_status: fetched.http_status,
            latency_ms: Some(fetched.latency_ms),
            value: Some(texts.raw),
            content_hash: None,
            note: Some("could not parse a number from the match".to_string()),
            alert: None,
        },
    }
}

// ---- prices over two checks -----------------------------------------------

/// The figures are those of the texts, for one way `read` of reading a text as a number.
pub open spec fn figures_of(
    read: spec_fn(Seq<char>) -> Option<Number>,
    texts: PriceTextsView,
    figures: Option<Figures>,
) -> bool {
    match figures {
        Some(f) => {
            &&& read(texts.value) == Some(f.value.number)
            &&& f.reread == read(number_chars(f.value.shown@))
            &&& match f.previous {
                Some(p) => texts.previous matches Some(t) && read(t) == Some(p.reading.number),
                None => texts.previous matches Some(t) ==> read(t) is None,
            }
        },
        None => read(texts.value) is None,
    }
}

/// A recorded price reads back as the number that was read from the page, whatever symbols stood
/// round it and however many decimals it has.
pub proof fn law_recorded_price_reads_back(
    read: spec_fn(Seq<char>) -> Option<Number>,
    raw: Seq<char>,
    prev: Option<SnapshotView>,
    figures: Figures,
)
    requires
        figures_of(read, price_texts(raw, prev), Some(figures)),
    ensures
        ({
            let recorded = recorded_price(price_texts(raw, prev), figures);
            let value = figures.value.number;
            read(number_chars(recorded)) matches Some(n) && (n.same(value) || n == value)
        }),
{
    law_number_text_idempotent(raw);
}

/// A page whose price did not change raises no alert on a change, and none on the threshold either:
/// whatever the check before it compared with, and whatever symbols and separators stand round the
/// number.
pub proof fn law_unchanged_price_is_silent(
    read: spec_fn(Seq<char>) -> Option<Number>,
    comparator: NumComparator,
    threshold: Option<Number>,
    first: FetchedView,
    first_raw: Seq<char>,
    first_figures: Figures,
    second: FetchedView,
    second_raw: Seq<char>,
    second_figures: Figures,
    prev: Option<SnapshotView>,
    baseline: SnapshotView,
)
    requires
        comparator == NumComparator::Changed || comparator == NumComparator::LessThan || comparator
            == NumComparator::GreaterThan,
        number_chars(first_raw) == number_chars(second_raw),
        figures_of(read, price_texts(first_raw, prev), Some(first_figures)),
        baseline.value == price_outcome(
            first,
            comparator,
            threshold,
            price_texts(first_raw, prev),
            Some(first_figures),
        ).value,
        figures_of(read, price_texts(second_raw, Some(baseline)), Some(second_figures)),
    ensures
        price_outcome(
            second,
            comparator,
            threshold,
            price_texts(second_raw, Some(baseline)),
            Some(second_figures),
        ).alert is None,
{
    law_recorded_price_reads_back(read, first_raw, prev, first_figures);
}

} // verus!
