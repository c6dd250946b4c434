//! What the library takes from outside crates and from the standard library.
//!
//! Nothing in this file is proved. Each item names the function that it calls and states what is
//! relied upon.

use std::collections::HashMap;

use vstd::prelude::*;

verus! {

// ---- regex ----------------------------------------------------------------

/// What searching a text for a pattern of the `regex` crate says: `None` where the pattern does
/// not compile, else whether it matches somewhere.
pub uninterp spec fn regex_match(pattern: Seq<char>, text: Seq<char>) -> Option<bool>;

/// The leftmost match of a pattern of the `regex` crate in a text: the whole match and what
/// capture group 1 took, if it took part. `None` where the pattern does not compile or does not
/// match.
pub uninterp spec fn regex_capture(pattern: Seq<char>, text: Seq<char>) -> Option<
    (Seq<char>, Option<Seq<char>>),
>;

/// Calls `regex::Regex::new` and `Regex::is_match`. The answer depends on the pattern and the
/// text alone; it is named by `regex_match`.
#[verifier::external_body]
pub(crate) fn regex_is_match(pattern: &str, text: &str) -> (r: Option<bool>)
    ensures
        r == regex_match(pattern@, text@),
{
    match regex::Regex::new(pattern) {
        Ok(re) => Some(re.is_match(text)),
        Err(_) => None,
    }
}

/// Calls `regex::Regex::new`, `Regex::captures` and `Captures::get` for the groups 0 and 1. Group
/// 0 is the whole match and always there. The answer depends on the pattern and the text alone;
/// it is named by `regex_capture`.
#[verifier::external_body]
pub(crate) fn regex_captures(pattern: &str, text: &str) -> (r: Option<(String, Option<String>)>)
    ensures
        match r {
            Some(found) => regex_capture(pattern@, text@) == Some(
                (found.0@, found.1.deep_view()),
            ),
            None => regex_capture(pattern@, text@) is None,
        },
{
    let re = regex::Regex::new(pattern).ok()?;
    let caps = re.captures(text)?;
    let whole = caps.get(0)?.as_str().to_string();
    Some((whole, caps.get(1).map(|m| m.as_str().to_string())))
}

// ---- sha2 -----------------------------------------------------------------

/// The SHA-256 digest of a byte string.
pub uninterp spec fn sha256_digest(data: Seq<u8>) -> Seq<u8>;

/// Calls `sha2::Sha256::new`, `update` and `finalize`. The digest depends on the bytes alone and
/// has 32 bytes.
#[verifier::external_body]
pub(crate) fn sha256(data: &[u8]) -> (r: Vec<u8>)
    ensures
        r@ == sha256_digest(data@),
        r@.len() == 32,
{
    let mut hasher = <sha2::Sha256 as sha2::Digest>::new();
    sha2::Digest::update(&mut hasher, data);
    sha2::Digest::finalize(hasher).to_vec()
}

// ---- url ------------------------------------------------------------------

/// What `url::Url::parse` makes of a text: the scheme of the URL, or the text of its error.
pub uninterp spec fn url_scheme(text: Seq<char>) -> Result<Seq<char>, Seq<char>>;

/// Calls `url::Url::parse` and `Url::scheme`, or `to_string` on the parse error. Both depend on
/// the text alone.
#[verifier::external_body]
pub(crate) fn parse_scheme(text: &str) -> (r: Result<String, String>)
    ensures
        match r {
            Ok(scheme) => url_scheme(text@) == Ok::<Seq<char>, Seq<char>>(scheme@),
            Err(e) => url_scheme(text@) == Err::<Seq<char>, Seq<char>>(e@),
        },
{
    match url::Url::parse(text) {
        Ok(parsed) => Ok(parsed.scheme().to_string()),
        Err(e) => Err(e.to_string()),
    }
}

// ---- humantime ------------------------------------------------------------

/// Whether `humantime::parse_duration` reads a text as a duration.
pub uninterp spec fn duration_text(text: Seq<char>) -> bool;

/// A character that can stand inside the number of one part of a duration: a digit, a dot or white
/// space.
pub open spec fn number_part_char(c: char) -> bool {
    crate::text::ascii_digit(c) || crate::text::white_space(c) || c == '.'
}

/// The text has one number at most: no digit stands behind a character that ends a number.
pub open spec fn single_part(text: Seq<char>) -> bool {
    forall|i: int, j: int|
        #![trigger text[i], text[j]]
        0 <= i < j < text.len() && crate::text::ascii_digit(text[j]) ==> number_part_char(text[i])
}

/// The most seconds that a part of a duration can last whose number is at most `number` and whose
/// unit begins at place `i`. Units that begin with `n`, with `u` or with the micro sign, and those
/// that begin with `ms`, are fractions of a second; `mo` and `M` begin a month, any other `m` begins
/// a minute or a fraction of a second. The year is the largest unit.
pub open spec fn part_seconds(text: Seq<char>, i: int, number: nat) -> nat {
    let c = text[i];
    let below_second = number / 1000 + 1;
    if number == 0 {
        0
    } else if c == 'n' || c == 'u' || c == '\u{b5}' {
        below_second
    } else if c == 'm' && i + 1 < text.len() && text[i + 1] == 's' {
        below_second
    } else if c == 'm' && i + 1 < text.len() && text[i + 1] == 'o' {
        number * 2_630_016
    } else if c == 'm' {
        number * 60
    } else if c == 's' {
        number
    } else if c == 'h' {
        number * 3_600
    } else if c == 'd' {
        number * 86_400
    } else if c == 'w' {
        number * 604_800
    } else {
        number * 31_557_600
    }
}

/// The most seconds that the parts of a duration from place `i` on can add up to. `number` is the
/// number that was begun before, with white space inside it passed over; `fraction` says that its
/// decimals have begun, which count as one more. A number that does not fit 64 bits ends the
/// reading, and so does a number without a unit.
pub open spec fn seconds_from(text: Seq<char>, i: int, number: nat, fraction: bool) -> nat
    decreases text.len() - i,
{
    if i < 0 || i >= text.len() {
        0
    } else if crate::text::ascii_digit(text[i]) {
        let next = (number * 10 + (text[i] as u32 - 0x30)) as nat;
        if fraction {
            seconds_from(text, i + 1, number, true)
        } else if next > u64::MAX {
            0
        } else {
            seconds_from(text, i + 1, next, false)
        }
    } else if crate::text::white_space(text[i]) {
        seconds_from(text, i + 1, number, fraction)
    } else if text[i] == '.' {
        seconds_from(
            text,
            i + 1,
            if fraction {
                number
            } else {
                number + 1
            },
            true,
        )
    } else {
        part_seconds(text, i, number) + seconds_from(text, i + 1, 0, false)
    }
}

/// The parts of a duration stay below the largest `u64` number of seconds.
pub open spec fn seconds_fit(text: Seq<char>) -> bool {
    seconds_from(text, 0, 0, false) < u64::MAX
}

/// Calls `humantime::parse_duration` and keeps whether it succeeded, which depends on the text
/// alone. The crate adds the parts of a duration up in a `std::time::Duration` and panics where a
/// part brings the nanoseconds to exactly one second while the seconds are at the largest `u64`, as
/// in `18446744073709551615s 1000000000ns`. One part alone never does both, and parts that stay
/// below the largest `u64` number of seconds never get there.
#[verifier::external_body]
pub(crate) fn is_duration(text: &str) -> (r: bool)
    requires
        single_part(text@) || seconds_fit(text@),
    ensures
        r == duration_text(text@),
{
    humantime::parse_duration(text).is_ok()
}

// ---- uuid and chrono ------------------------------------------------------

/// A lower-case hexadecimal digit.
pub open spec fn lower_hex(c: char) -> bool {
    0x30 <= c as u32 <= 0x39 || 0x61 <= c as u32 <= 0x66
}

/// Calls `uuid::Uuid::new_v4` and formats it with `simple`. The value is random; its form is 32
/// lower-case hexadecimal digits. The crate panics where the system has no random numbers to give.
#[verifier::external_body]
pub(crate) fn fresh_uuid() -> (r: String)
    ensures
        r@.len() == 32,
        forall|i: int| 0 <= i < r@.len() ==> lower_hex(#[trigger] r@[i]),
{
    uuid::Uuid::new_v4().simple().to_string()
}

/// The form of a UTC time in RFC 3339: at least 25 characters, with the offset `+00:00` at the end.
pub open spec fn utc_text(s: Seq<char>) -> bool {
    s.len() >= 25 && s.subrange(s.len() - 6, s.len() as int) == "+00:00"@
}

/// Calls `chrono::Utc::now` and `to_rfc3339`. The time is what the clock says; the text has at
/// least 25 characters and ends in the offset `+00:00`. The crate panics where the clock stands
/// before 1970.
#[verifier::external_body]
pub(crate) fn now_rfc3339() -> (r: String)
    ensures
        utc_text(r@),
{
    chrono::Utc::now().to_rfc3339()
}

// ---- standard library -----------------------------------------------------

/// `std::path::PathBuf`; a value of it is carried through unopened.
#[verifier::external_type_specification]
#[verifier::external_body]
pub struct ExPathBuf(std::path::PathBuf);

/// `String::push` appends one character to the end of the string.
pub assume_specification[ String::push ](s: &mut String, c: char)
    ensures
        final(s)@ == old(s)@.push(c),
;

/// What `str::to_lowercase` makes of a text.
pub uninterp spec fn lowercase(text: Seq<char>) -> Seq<char>;

/// `str::to_lowercase` depends on the text alone.
pub assume_specification[ str::to_lowercase ](text: &str) -> (r: String)
    ensures
        r@ == lowercase(text@),
;

/// Calls `HashMap::get` on a map with string keys: the value under the key that reads `key`. A map
/// holds at most one such key.
#[verifier::external_body]
pub(crate) fn map_value<'a>(map: &'a HashMap<String, String>, key: &str) -> (r: Option<&'a String>)
    ensures
        match r {
            Some(v) => {
                &&& exists|k: String| #[trigger] map@.contains_key(k) && k@ == key@
                &&& forall|k: String| #[trigger]
                    map@.contains_key(k) && k@ == key@ ==> map@[k] == *v
            },
            None => forall|k: String| #[trigger] map@.contains_key(k) ==> k@ != key@,
        },
{
    map.get(key)
}

} // verus!
