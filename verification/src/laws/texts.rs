//! Laws of texts, numbers and JSON.

use vstd::arithmetic::power2::*;
use vstd::prelude::*;

use crate::json::Json;
use crate::number::Number;

verus! {

// ---- characters -----------------------------------------------------------

/// White space is the tab, the line ends, the blank and the other blanks of Unicode, and nothing
/// else; a digit is one of ten.
pub proof fn law_character_kinds(c: char)
    ensures
        crate::text::white_space(c) <==> (c == '\t' || c == '\n' || c == '\u{b}' || c == '\u{c}' || c
            == '\r' || c == ' ' || c == '\u{85}' || c == '\u{a0}' || c == '\u{1680}' || (0x2000
            <= c as u32 && c as u32 <= 0x200a) || c == '\u{2028}' || c == '\u{2029}' || c
            == '\u{202f}' || c == '\u{205f}' || c == '\u{3000}'),
        crate::text::ascii_digit(c) <==> (c == '0' || c == '1' || c == '2' || c == '3' || c == '4' || c
            == '5' || c == '6' || c == '7' || c == '8' || c == '9'),
{
}

// ---- words ----------------------------------------------------------------

proof fn lemma_words_of_blank_end(s: Seq<char>, gap: Seq<char>)
    requires
        forall|i: int| 0 <= i < gap.len() ==> crate::text::white_space(#[trigger] gap[i]),
    ensures
        crate::text::words(s + gap) == crate::text::words(s),
    decreases gap.len(),
{
    if gap.len() == 0 {
        assert(s + gap == s);
    } else {
        assert((s + gap).drop_last() == s + gap.drop_last());
        assert((s + gap).last() == gap[gap.len() - 1]);
        lemma_words_of_blank_end(s, gap.drop_last());
    }
}

proof fn lemma_words_behind_gap(s: Seq<char>, t: Seq<char>)
    requires
        !crate::text::ends_in_word(s),
    ensures
        crate::text::words(s + t) == crate::text::words(s) + crate::text::words(t),
        t.len() > 0 ==> crate::text::ends_in_word(s + t) == crate::text::ends_in_word(t),
    decreases t.len(),
{
    if t.len() == 0 {
        assert(s + t == s);
        assert(crate::text::words(s) + crate::text::words(t) == crate::text::words(s));
    } else {
        let front = t.drop_last();
        assert((s + t).drop_last() == s + front);
        assert((s + t).last() == t.last());
        lemma_words_behind_gap(s, front);
        if front.len() == 0 {
            assert(s + front == s);
        }
        assert(crate::text::ends_in_word(s + front) == crate::text::ends_in_word(front));
        let a = crate::text::words(s);
        let b = crate::text::words(front);
        crate::text::lemma_words_are_words(front);
        if !crate::text::white_space(t.last()) {
            if crate::text::ends_in_word(front) {
                assert((a + b).drop_last() == a + b.drop_last());
                assert((a + b).last() == b.last());
                assert((a + b.drop_last()).push(b.last().push(t.last())) == a + b.drop_last().push(
                    b.last().push(t.last()),
                ));
            } else {
                assert((a + b).push(seq![t.last()]) == a + b.push(seq![t.last()]));
            }
        }
    }
}

/// The words on both sides of white space are the words of the two sides, in their order.
pub proof fn law_white_space_parts_words(before: Seq<char>, gap: Seq<char>, after: Seq<char>)
    requires
        gap.len() > 0,
        forall|i: int| 0 <= i < gap.len() ==> crate::text::white_space(#[trigger] gap[i]),
    ensures
        crate::text::words(before + gap + after) == crate::text::words(before) + crate::text::words(after),
{
    lemma_words_of_blank_end(before, gap);
    assert((before + gap).last() == gap[gap.len() - 1]);
    lemma_words_behind_gap(before + gap, after);
}

/// A text without white space is one word; a text of white space alone has none.
pub proof fn law_single_words(s: Seq<char>)
    ensures
        s.len() > 0 && (forall|i: int| 0 <= i < s.len() ==> !crate::text::white_space(#[trigger] s[i]))
            ==> crate::text::words(s) == seq![s],
        (forall|i: int| 0 <= i < s.len() ==> crate::text::white_space(#[trigger] s[i])) ==> crate::text::words(
            s,
        ).len() == 0,
{
    let none: Seq<char> = seq![];
    assert(none + s == s);
    if s.len() > 0 && (forall|i: int|
        0 <= i < s.len() ==> !crate::text::white_space(#[trigger] s[i])) {
        assert(crate::text::is_word(s));
        crate::text::lemma_words_of_joined(seq![s]);
        assert(crate::text::joined(seq![s]) == s);
    }
    if forall|i: int| 0 <= i < s.len() ==> crate::text::white_space(#[trigger] s[i]) {
        lemma_words_of_blank_end(none, s);
    }
}

/// Joined words stand one after the other with one blank between two.
pub proof fn law_joined_words(ws: Seq<Seq<char>>, w: Seq<char>)
    ensures
        crate::text::joined(seq![]) == Seq::<char>::empty(),
        crate::text::joined(seq![w]) == w,
        ws.len() > 0 ==> crate::text::joined(ws.push(w)) == crate::text::joined(ws) + seq![' '] + w,
{
    if ws.len() > 0 {
        assert(ws.push(w).drop_last() == ws);
    }
}

/// Trimming takes white space alone away, and all of it that stands at the two ends.
pub proof fn law_trimming(s: Seq<char>)
    ensures
        exists|before: Seq<char>, after: Seq<char>|
            s == #[trigger] (before + crate::text::trimmed(s) + after) && crate::text::blank(before)
                && crate::text::blank(after),
        crate::text::trimmed(s).len() > 0 ==> !crate::text::white_space(crate::text::trimmed(s).first())
            && !crate::text::white_space(crate::text::trimmed(s).last()),
    decreases s.len(),
{
    let t = crate::text::trimmed(s);
    let none: Seq<char> = seq![];
    if s.len() > 0 && crate::text::white_space(s.first()) {
        law_trimming(s.drop_first());
        assert(t == crate::text::trimmed(s.drop_first()));
        let (before, after) = choose|before: Seq<char>, after: Seq<char>|
            s.drop_first() == #[trigger] (before + t + after) && crate::text::blank(before)
                && crate::text::blank(after);
        let longer = seq![s.first()] + before;
        assert(s.drop_first() == before + t + after);
        assert(s == seq![s.first()] + (before + t + after));
        assert(s == longer + t + after);
        assert forall|i: int| 0 <= i < longer.len() implies crate::text::white_space(
            #[trigger] longer[i],
        ) by {
            if i > 0 {
                assert(longer[i] == before[i - 1]);
            }
        }
        assert(crate::text::blank(longer));
    } else if s.len() > 0 && crate::text::white_space(s.last()) {
        law_trimming(s.drop_last());
        assert(t == crate::text::trimmed(s.drop_last()));
        let (before, after) = choose|before: Seq<char>, after: Seq<char>|
            s.drop_last() == #[trigger] (before + t + after) && crate::text::blank(before)
                && crate::text::blank(after);
        let longer = after.push(s.last());
        assert(s.drop_last() == before + t + after);
        assert(s == (before + t + after).push(s.last()));
        assert(s == before + t + longer);
        assert forall|i: int| 0 <= i < longer.len() implies crate::text::white_space(
            #[trigger] longer[i],
        ) by {
            if i < after.len() {
                assert(longer[i] == after[i]);
            }
        }
        assert(crate::text::blank(longer));
    } else {
        assert(s == none + t + none);
    }
}

/// A text is blank exactly when each of its characters is white space.
pub proof fn law_blank_texts(s: Seq<char>)
    ensures
        crate::text::blank(s) <==> (forall|i: int| 0 <= i < s.len() ==> crate::text::white_space(#[trigger] s[i])),
{
}

// ---- numerals -------------------------------------------------------------

/// A numeral is worth ten times what stands before its last digit, and that digit.
pub proof fn law_numeral_value(s: Seq<char>, c: char)
    requires
        '0' as u32 <= c as u32 <= '9' as u32,
    ensures
        crate::text::numeral_value(seq![]) == 0,
        crate::text::numeral_value(s.push(c)) == 10 * crate::text::numeral_value(s) + (c as u32 - '0' as u32),
{
    assert(s.push(c).drop_last() == s);
}

/// The decimal numeral of a number is made of digits, is worth the number, and begins with a zero
/// only where the number is below ten.
pub proof fn law_decimal_numeral(n: nat)
    ensures
        crate::text::decimal_digits(n).len() > 0,
        forall|i: int|
            0 <= i < crate::text::decimal_digits(n).len() ==> '0' as u32 <= (
            #[trigger] crate::text::decimal_digits(n)[i]) as u32 <= '9' as u32,
        crate::text::numeral_value(crate::text::decimal_digits(n)) == n,
        n >= 10 ==> crate::text::decimal_digits(n)[0] != '0',
        n < 10 ==> crate::text::decimal_digits(n).len() == 1,
    decreases n,
{
    reveal_with_fuel(crate::text::numeral_value, 2);
    if n >= 10 {
        law_decimal_numeral(n / 10);
        let front = crate::text::decimal_digits(n / 10);
        let all = crate::text::decimal_digits(n);
        assert(all.drop_last() == front);
        assert(all[0] == front[0]);
        if n / 10 < 10 {
            assert(crate::text::numeral_value(front.drop_last()) == 0);
            assert(front[0] != '0');
        }
        assert forall|i: int| 0 <= i < all.len() implies '0' as u32 <= (#[trigger] all[i]) as u32
            <= '9' as u32 by {
            if i < front.len() {
                assert(all[i] == front[i]);
            }
        }
    }
}

/// A number is read from digits, or from digits behind one plus sign, where it is not too large;
/// from nothing else.
pub proof fn law_reading_numbers(s: Seq<char>, max: nat)
    ensures
        ({
            let rest = s.drop_first();
            let plain = s.len() > 0 && (forall|i: int|
                0 <= i < s.len() ==> '0' as u32 <= (#[trigger] s[i]) as u32 <= '9' as u32);
            let signed = s.len() > 1 && s[0] == '+' && (forall|i: int|
                0 <= i < rest.len() ==> '0' as u32 <= (#[trigger] rest[i]) as u32 <= '9' as u32);
            &&& plain ==> crate::text::parsed_unsigned(s, max) == if crate::text::numeral_value(s) <= max {
                Some(crate::text::numeral_value(s))
            } else {
                None
            }
            &&& signed ==> crate::text::parsed_unsigned(s, max) == if crate::text::numeral_value(rest) <= max {
                Some(crate::text::numeral_value(rest))
            } else {
                None
            }
            &&& !plain && !signed ==> crate::text::parsed_unsigned(s, max) is None
        }),
{
    let rest = s.drop_first();
    if s.len() > 0 && s[0] == '+' {
        assert(!crate::text::ascii_digit(s[0]));
        assert(crate::text::unsigned_part(s) == rest);
    }
}

// ---- search ---------------------------------------------------------------

/// A text stands in every text that is made by putting something before and behind it.
pub proof fn law_part_is_found(before: Seq<char>, part: Seq<char>, after: Seq<char>)
    ensures
        crate::text::substring(part, before + part + after),
{
    let whole = before + part + after;
    assert(whole.subrange(before.len() as int, before.len() as int + part.len()) == part);
    assert(crate::text::stands_at(part, whole, before.len() as int));
}

/// Where a text is found in another, a stretch of the other reads like it, character by character.
pub proof fn law_found_part_stands_there(part: Seq<char>, whole: Seq<char>)
    requires
        crate::text::substring(part, whole),
    ensures
        exists|before: Seq<char>, after: Seq<char>| whole == #[trigger] (before + part + after),
{
    let i = choose|i: int| #[trigger] crate::text::stands_at(part, whole, i);
    let before = whole.take(i);
    let after = whole.skip(i + part.len());
    assert(whole.subrange(i, i + part.len()) == part);
    assert(whole == before + part + after);
}

// ---- hexadecimal ----------------------------------------------------------

/// Each byte is written as two lower-case hexadecimal digits, the higher one first.
pub proof fn law_hex_digits(bytes: Seq<u8>, i: int)
    requires
        0 <= i < bytes.len(),
    ensures
        crate::check::hex_text(bytes).len() == 2 * bytes.len(),
        crate::check::hex_text(bytes)[2 * i] == "0123456789abcdef"@[bytes[i] as int / 16],
        crate::check::hex_text(bytes)[2 * i + 1] == "0123456789abcdef"@[bytes[i] as int % 16],
    decreases bytes.len(),
{
    crate::check::lemma_hex_length(bytes);
    crate::check::lemma_hex_length(bytes.drop_last());
    reveal_strlit("0123456789abcdef");
    if i < bytes.len() - 1 {
        law_hex_digits(bytes.drop_last(), i);
        assert(crate::check::hex_text(bytes)[2 * i] == crate::check::hex_text(bytes.drop_last())[2 * i]);
        assert(crate::check::hex_text(bytes)[2 * i + 1] == crate::check::hex_text(bytes.drop_last())[2 * i + 1]);
    } else {
        let high = bytes[i] as int / 16;
        let low = bytes[i] as int % 16;
        assert(0 <= high < 16 && 0 <= low < 16);
        assert(crate::check::hex_text(bytes)[2 * i] == crate::check::hex_digit(high as nat));
        assert(crate::check::hex_text(bytes)[2 * i + 1] == crate::check::hex_digit(low as nat));
    }
}

/// The hash of a text is the SHA-256 digest of its UTF-8 bytes, all of them, in hexadecimal.
pub proof fn law_hash_is_of_the_whole_text(s: Seq<char>, i: int)
    requires
        0 <= i < crate::boundary::sha256_digest(vstd::utf8::encode_utf8(s)).len(),
    ensures
        ({
            let digest = crate::boundary::sha256_digest(vstd::utf8::encode_utf8(s));
            &&& crate::check::text_hash(s).len() == 2 * digest.len()
            &&& crate::check::text_hash(s)[2 * i] == "0123456789abcdef"@[digest[i] as int / 16]
            &&& crate::check::text_hash(s)[2 * i + 1] == "0123456789abcdef"@[digest[i] as int % 16]
        }),
{
    law_hex_digits(crate::boundary::sha256_digest(vstd::utf8::encode_utf8(s)), i);
}

// ---- doubles --------------------------------------------------------------

/// A bit pattern is not a number exactly when its exponent field is all ones and its fraction field
/// is not zero; such a pattern compares with nothing.
pub proof fn law_not_a_number(a: Number, b: Number)
    ensures
        a.not_a_number() <==> (a.bits as int / 0x10_0000_0000_0000) % 0x800 == 0x7ff && (a.bits
            as int) % 0x10_0000_0000_0000 != 0,
        a.not_a_number() ==> !a.below(b) && !b.below(a) && !a.at_most(b) && !b.at_most(a)
            && !a.same(b) && !a.differs(b),
{
}

/// The value that a finite pattern stands for, by its fields: with the exponent 0 it is the
/// fraction, else the fraction with a leading one, shifted; the highest bit turns it round.
pub proof fn law_pattern_value(exponent: int, fraction: int)
    requires
        0 <= exponent < 0x7ff,
        0 <= fraction < 0x10_0000_0000_0000,
    ensures
        ({
            let bits = exponent * 0x10_0000_0000_0000 + fraction;
            let value = if exponent == 0 {
                fraction
            } else {
                (0x10_0000_0000_0000 + fraction) * pow2((exponent - 1) as nat)
            };
            &&& (Number { bits: bits as u64 }).finite()
            &&& (Number { bits: bits as u64 }).units() == value
            &&& (Number { bits: (bits + 0x8000_0000_0000_0000) as u64 }).units() == -value
        }),
{
    let bits = exponent * 0x10_0000_0000_0000 + fraction;
    assert(bits / 0x10_0000_0000_0000 == exponent);
    assert(bits % 0x10_0000_0000_0000 == fraction);
}

/// Two finite numbers differ exactly when their values do, and are the same exactly when their
/// values are; neither depends on the order in which they are named.
pub proof fn law_differing_numbers(a: Number, b: Number)
    requires
        a.finite(),
        b.finite(),
    ensures
        a.differs(b) <==> a.units() != b.units(),
        a.same(b) <==> a.units() == b.units(),
        a.differs(b) == b.differs(a),
        a.same(b) == b.same(a),
{
    crate::number::law_rank_is_numeric_order(a, b);
    crate::number::law_rank_is_numeric_order(b, a);
}

// ---- JSON -----------------------------------------------------------------

proof fn lemma_entry_at(entries: Seq<(String, Json)>, key: Seq<char>, i: int)
    requires
        0 <= i < entries.len(),
        entries[i].0@ == key,
        forall|j: int| 0 <= j < i ==> (#[trigger] entries[j]).0@ != key,
    ensures
        crate::json::entry(entries, key) == Some(entries[i].1),
    decreases i,
{
    if i > 0 {
        assert(entries[0].0@ != key);
        let rest = entries.drop_first();
        assert forall|j: int| 0 <= j < i - 1 implies (#[trigger] rest[j]).0@ != key by {
            assert(rest[j] == entries[j + 1]);
        }
        lemma_entry_at(rest, key, i - 1);
    }
}

proof fn lemma_no_entry(entries: Seq<(String, Json)>, key: Seq<char>)
    requires
        forall|j: int| 0 <= j < entries.len() ==> (#[trigger] entries[j]).0@ != key,
    ensures
        crate::json::entry(entries, key) is None,
    decreases entries.len(),
{
    if entries.len() > 0 {
        assert(entries[0].0@ != key);
        let rest = entries.drop_first();
        assert forall|j: int| 0 <= j < rest.len() implies (#[trigger] rest[j]).0@ != key by {
            assert(rest[j] == entries[j + 1]);
        }
        lemma_no_entry(rest, key);
    }
}

/// The member of an object under a key is the first one with that key; an object without the key
/// has none.
pub proof fn law_member_is_the_first(entries: Vec<(String, Json)>, key: Seq<char>, i: int)
    ensures
        0 <= i < entries@.len() && entries@[i].0@ == key && (forall|j: int|
            0 <= j < i ==> (#[trigger] entries@[j]).0@ != key) ==> (Json::Object(entries)).member(
            key,
        ) == Some(entries@[i].1),
        (forall|j: int| 0 <= j < entries@.len() ==> (#[trigger] entries@[j]).0@ != key) ==> (
        Json::Object(entries)).member(key) is None,
{
    if 0 <= i < entries@.len() && entries@[i].0@ == key && (forall|j: int|
        0 <= j < i ==> (#[trigger] entries@[j]).0@ != key) {
        lemma_entry_at(entries@, key, i);
    }
    if forall|j: int| 0 <= j < entries@.len() ==> (#[trigger] entries@[j]).0@ != key {
        lemma_no_entry(entries@, key);
    }
}

/// Only an object has members, and a member counts as text only where it is one.
pub proof fn law_members_of_objects(value: Json, key: Seq<char>)
    ensures
        !(value is Object) ==> value.member(key) is None,
        value.member(key) matches Some(Json::Text(s)) ==> value.text_member(key) == Some(s@),
        !(value.member(key) matches Some(Json::Text(_))) ==> value.text_member(key) is None,
{
}

/// A crawled page gives its `content`, else its `text`, else its `markdown`, else its `html`, with
/// a line end behind it; without any of them it gives nothing.
pub proof fn law_page_text(page: Json)
    ensures
        page.text_member("content"@) matches Some(s) ==> crate::json::page_text(page) == s + seq!['\n'],
        page.text_member("content"@) is None ==> (page.text_member("text"@) matches Some(s)
            ==> crate::json::page_text(page) == s + seq!['\n']),
        page.text_member("content"@) is None && page.text_member("text"@) is None ==> (
        page.text_member("markdown"@) matches Some(s) ==> crate::json::page_text(page) == s + seq!['\n']),
        page.text_member("content"@) is None && page.text_member("text"@) is None
            && page.text_member("markdown"@) is None ==> (page.text_member("html"@) matches Some(s)
            ==> crate::json::page_text(page) == s + seq!['\n']),
        page.text_member("content"@) is None && page.text_member("text"@) is None
            && page.text_member("markdown"@) is None && page.text_member("html"@) is None
            ==> crate::json::page_text(page).len() == 0,
{
}

/// The text of pages is the texts of the single pages, one after the other.
pub proof fn law_pages_follow_each_other(pages: Seq<Json>, page: Json)
    ensures
        crate::json::pages_text(seq![]) == Seq::<char>::empty(),
        crate::json::pages_text(pages.push(page)) == crate::json::pages_text(pages) + crate::json::page_text(page),
{
    assert(pages.push(page).drop_last() == pages);
}

/// The page text of a crawl is its `content`, where it has one; else the text of its pages, where it
/// lists pages with text; else its JSON text.
pub proof fn law_crawl_text(answer: Json)
    ensures
        answer.text_member("content"@) matches Some(s) ==> crate::json::crawl_text(answer) == s,
        answer matches Json::Array(pages) ==> crate::json::crawl_text(answer) == if crate::json::pages_text(
            pages@,
        ).len() > 0 {
            crate::json::pages_text(pages@)
        } else {
            crate::json::json_text(answer)
        },
        answer.text_member("content"@) is None && !(answer is Array) ==> crate::json::crawl_text(answer)
            == crate::json::json_text(answer),
{
}

/// A crawl is refused exactly where its answer says `available` is false, with the `reason` that it
/// gives, or that the crawler is unavailable.
pub proof fn law_crawl_refusal(answer: Json)
    ensures
        crate::json::crawl_refusal(answer) is Some <==> answer.member("available"@) == Some(
            Json::Bool(false),
        ),
        answer.member("available"@) == Some(Json::Bool(false)) ==> crate::json::crawl_refusal(answer)
            == match answer.text_member("reason"@) {
            Some(reason) => Some(reason),
            None => Some("spider unavailable"@),
        },
{
}

/// Words, numbers and strings as JSON.
pub proof fn law_json_leaves(number: String, words: String)
    ensures
        crate::json::json_text(Json::Null) == "null"@,
        crate::json::json_text(Json::Bool(true)) == "true"@,
        crate::json::json_text(Json::Bool(false)) == "false"@,
        crate::json::json_text(Json::Number(number)) == number@,
        crate::json::json_text(Json::Text(words)) == seq!['"'] + crate::json::json_escaped(words@) + seq!['"'],
{
}

/// An array is its items between brackets, an object its members between braces, with commas
/// between two and a colon between a key and its value; white space stands nowhere.
pub proof fn law_json_nesting(
    items: Vec<Json>,
    entries: Vec<(String, Json)>,
    some: Seq<Json>,
    one: Json,
    pairs: Seq<(String, Json)>,
    pair: (String, Json),
)
    ensures
        crate::json::json_text(Json::Array(items)) == seq!['['] + crate::json::items_text(items@) + seq![']'],
        crate::json::json_text(Json::Object(entries)) == seq!['{'] + crate::json::entries_text(entries@) + seq![
            '}',
        ],
        crate::json::items_text(seq![]).len() == 0,
        crate::json::items_text(seq![one]) == crate::json::json_text(one),
        some.len() > 0 ==> crate::json::items_text(some.push(one)) == crate::json::items_text(some) + seq![',']
            + crate::json::json_text(one),
        crate::json::entries_text(seq![]).len() == 0,
        crate::json::entries_text(seq![pair]) == seq!['"'] + crate::json::json_escaped(pair.0@) + seq!['"']
            + seq![':'] + crate::json::json_text(pair.1),
        pairs.len() > 0 ==> crate::json::entries_text(pairs.push(pair)) == crate::json::entries_text(pairs)
            + seq![','] + seq!['"'] + crate::json::json_escaped(pair.0@) + seq!['"'] + seq![':']
            + crate::json::json_text(pair.1),
{
    reveal_strlit("[");
    reveal_strlit("]");
    reveal_strlit("{");
    reveal_strlit("}");
    reveal_strlit(",");
    reveal_strlit(":");
    assert("["@ == seq!['[']);
    assert("]"@ == seq![']']);
    assert("{"@ == seq!['{']);
    assert("}"@ == seq!['}']);
    assert(","@ == seq![',']);
    assert(":"@ == seq![':']);
    assert(some.push(one).drop_last() == some);
    assert(pairs.push(pair).drop_last() == pairs);
    assert(seq![one][0] == one);
    assert(seq![pair][0] == pair);
}

/// Texts are escaped character by character: quotation marks and backslashes behind a backslash,
/// line ends and the like by a letter, other control characters by their number, any other
/// character not at all.
pub proof fn law_json_escapes(a: Seq<char>, c: char)
    ensures
        crate::json::json_escaped(seq![]).len() == 0,
        crate::json::json_escaped(a.push(c)) == crate::json::json_escaped(a) + crate::json::json_char(c),
        crate::json::json_char('"') == seq!['\\', '"'],
        crate::json::json_char('\\') == seq!['\\', '\\'],
        crate::json::json_char('\u{8}') == seq!['\\', 'b'],
        crate::json::json_char('\t') == seq!['\\', 't'],
        crate::json::json_char('\n') == seq!['\\', 'n'],
        crate::json::json_char('\u{c}') == seq!['\\', 'f'],
        crate::json::json_char('\r') == seq!['\\', 'r'],
        c as u32 >= 0x20 && c != '"' && c != '\\' ==> crate::json::json_char(c) == seq![c],
        (c as u32) < 0x20 && c != '\u{8}' && c != '\t' && c != '\n' && c != '\u{c}' && c != '\r'
            ==> crate::json::json_char(c) == seq![
            '\\',
            'u',
            '0',
            '0',
            "0123456789abcdef"@[c as int / 16],
            "0123456789abcdef"@[c as int % 16],
        ],
{
    assert(a.push(c).drop_last() == a);
    reveal_strlit("0123456789abcdef");
}

} // verus!
