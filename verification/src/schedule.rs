//! Which texts say how often a monitor runs.

use vstd::prelude::*;

use crate::boundary::is_duration;
use crate::text::{chars_of, is_ascii_digit, is_white_space, split_words};

verus! {

/// A character of a cron field: a digit, `*`, `/`, `,` or `-`.
pub open spec fn cron_char(c: char) -> bool {
    crate::text::ascii_digit(c) || c == '*' || c == '/' || c == ',' || c == '-'
}

/// A field of a cron expression: not empty, and made of cron characters.
pub open spec fn cron_field(field: Seq<char>) -> bool {
    field.len() > 0 && forall|i: int| 0 <= i < field.len() ==> cron_char(#[trigger] field[i])
}

/// Five fields with white space between them.
pub open spec fn cron_shaped(expr: Seq<char>) -> bool {
    let fields = crate::text::words(expr);
    fields.len() == 5 && forall|i: int| 0 <= i < 5 ==> cron_field(#[trigger] fields[i])
}

fn is_cron_field(field: &str) -> (b: bool)
    ensures
        b == cron_field(field@),
{
    let v = chars_of(field);
    if v.len() == 0 {
        return false;
    }
    let mut i: usize = 0;
    while i < v.len()
        invariant
            i <= v@.len(),
            v@ == field@,
            forall|j: int| 0 <= j < i ==> cron_char(#[trigger] field@[j]),
        decreases v@.len() - i,
    {
        let c: char = v[i];
        if !(is_ascii_digit(c) || c == '*' || c == '/' || c == ',' || c == '-') {
            assert(!cron_char(field@[i as int]));
            return false;
        }
        i = i + 1;
    }
    true
}

/// A permissive sanity check: whether a text has the shape of a five-field cron expression. The
/// scheduler parses strictly, so this only has to reject what is obviously none.
pub fn looks_like_cron(expr: &str) -> (b: bool)
    ensures
        b == cron_shaped(expr@),
{
    let fields = split_words(expr);
    let ghost view = fields.deep_view();
    if fields.len() != 5 {
        return false;
    }
    let mut i: usize = 0;
    while i < 5
        invariant
            i <= 5,
            fields@.len() == 5,
            view == fields.deep_view(),
            view == crate::text::words(expr@),
            forall|j: int| 0 <= j < i ==> cron_field(#[trigger] view[j]),
        decreases 5 - i,
    {
        assert(view[i as int] == fields@[i as int]@);
        if !is_cron_field(fields[i].as_str()) {
            return false;
        }
        i = i + 1;
    }
    true
}

/// The intervals that a monitor may have: a duration (`5m`, `1h`) or a cron expression.
pub open spec fn schedulable(interval: Seq<char>) -> bool {
    crate::boundary::duration_text(interval) || cron_shaped(interval)
}

/// Whether it can be decided that a text is an interval: of a cron expression always, and of any
/// other text that the parser of durations is safe with.
pub open spec fn decidable(interval: Seq<char>) -> bool {
    ||| cron_shaped(interval)
    ||| crate::boundary::single_part(interval)
    ||| crate::boundary::seconds_fit(interval)
}

/// Whether a text is a duration or has the shape of a cron expression.
pub fn interval_is_valid(interval: &str) -> (b: bool)
    requires
        decidable(interval@),
    ensures
        b == schedulable(interval@),
{
    looks_like_cron(interval) || is_duration(interval)
}

fn has_single_part(text: &str) -> (b: bool)
    ensures
        b == crate::boundary::single_part(text@),
{
    let v = chars_of(text);
    let mut ended: bool = false;
    let ghost mut end: int = 0;
    let mut i: usize = 0;
    while i < v.len()
        invariant
            i <= v@.len(),
            v@ == text@,
            ended ==> 0 <= end < i && !crate::boundary::number_part_char(text@[end]),
            !ended ==> forall|j: int|
                0 <= j < i ==> crate::boundary::number_part_char(#[trigger] text@[j]),
            forall|j: int, k: int|
                #![trigger text@[j], text@[k]]
                0 <= j < k < i && crate::text::ascii_digit(text@[k])
                    ==> crate::boundary::number_part_char(text@[j]),
        decreases v@.len() - i,
    {
        let c: char = v[i];
        if is_ascii_digit(c) {
            if ended {
                assert(crate::text::ascii_digit(text@[i as int]));
                assert(!crate::boundary::number_part_char(text@[end]));
                return false;
            }
        } else if !is_white_space(c) && c != '.' && !ended {
            ended = true;
            proof {
                end = i as int;
            }
        }
        i = i + 1;
    }
    true
}

fn part_bound(v: &Vec<char>, i: usize, number: u128) -> (r: u128)
    requires
        i < v@.len(),
        number <= u64::MAX + 1,
    ensures
        r == crate::boundary::part_seconds(v@, i as int, number as nat),
        r <= 0x1_0000_0000_0000_0000 * 31_557_600,
{
    let c: char = v[i];
    let n: usize = v.len();
    let next_s: bool = i + 1 < n && v[i + 1] == 's';
    let next_o: bool = i + 1 < n && v[i + 1] == 'o';
    if number == 0 {
        0
    } else if c == 'n' || c == 'u' || c == '\u{b5}' {
        number / 1000 + 1
    } else if c == 'm' && next_s {
        number / 1000 + 1
    } else if c == 'm' && next_o {
        number * 2_630_016
    } else if c == 'm' {
        number * 60
    } else if c == 's' {
        number
    } else if c == 'h' {
        number * 3_600
    } else if c == 'd' {
        number * 86_400
    } else if c == 'w' {
        number * 604_800
    } else {
        number * 31_557_600
    }
}

fn has_fitting_seconds(text: &str) -> (b: bool)
    ensures
        b == crate::boundary::seconds_fit(text@),
{
    let v = chars_of(text);
    let mut sum: u128 = 0;
    let mut number: u128 = 0;
    let mut fraction: bool = false;
    let mut i: usize = 0;
    while i < v.len()
        invariant
            i <= v@.len(),
            v@ == text@,
            sum < u64::MAX,
            number <= u64::MAX + 1,
            !fraction ==> number <= u64::MAX,
            sum + crate::boundary::seconds_from(text@, i as int, number as nat, fraction)
                == crate::boundary::seconds_from(text@, 0, 0, false),
        decreases v@.len() - i,
    {
        let c: char = v[i];
        if is_ascii_digit(c) {
            if !fraction {
                let next: u128 = number * 10 + (c as u32 - 0x30) as u128;
                if next > u64::MAX as u128 {
                    return true;
                }
                number = next;
            }
        } else if is_white_space(c) {
        } else if c == '.' {
            if !fraction {
                number = number + 1;
                fraction = true;
            }
        } else {
            sum = sum + part_bound(&v, i, number);
            number = 0;
            fraction = false;
            if sum >= u64::MAX as u128 {
                return false;
            }
        }
        i = i + 1;
    }
    true
}

/// Whether a text is a duration or has the shape of a cron expression; `None` where that cannot be
/// decided.
pub fn try_interval(interval: &str) -> (r: Option<bool>)
    ensures
        r == if decidable(interval@) {
            Some(schedulable(interval@))
        } else {
            None
        },
{
    if looks_like_cron(interval) || has_single_part(interval) || has_fitting_seconds(interval) {
        Some(interval_is_valid(interval))
    } else {
        None
    }
}

/// White space makes no difference to a cron expression.
pub proof fn law_cron_ignores_spacing(a: Seq<char>, b: Seq<char>)
    requires
        crate::text::words(a) == crate::text::words(b),
    ensures
        cron_shaped(a) == cron_shaped(b),
{
}

} // verus!
