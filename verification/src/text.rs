//! Text helpers: characters, words, numerals and comparison of strings.

use vstd::prelude::*;
use vstd::utf8::*;

verus! {

/// A result that carries nothing, or the text of an error.
pub open spec fn told(r: Result<(), String>) -> Result<(), Seq<char>> {
    match r {
        Ok(_) => Ok(()),
        Err(e) => Err(e@),
    }
}

// ---- characters -----------------------------------------------------------

/// The characters of a string, one by one.
pub fn chars_of(s: &str) -> (v: Vec<char>)
    ensures
        v@ == s@,
{
    let mut v: Vec<char> = Vec::new();
    for c in it: s.chars()
        invariant
            it.seq() == s@,
            v@ == s@.take(it.index() as int),
    {
        v.push(c);
        assert(v@ == s@.take(it.index() as int + 1));
    }
    assert(s@.take(s@.len() as int) == s@);
    v
}

/// The string made of the characters `v[from..to]`.
pub fn string_of(v: &Vec<char>, from: usize, to: usize) -> (s: String)
    requires
        from <= to <= v@.len(),
    ensures
        s@ == v@.subrange(from as int, to as int),
{
    let mut s = String::new();
    let mut i: usize = from;
    while i < to
        invariant
            from <= i <= to <= v@.len(),
            s@ == v@.subrange(from as int, i as int),
        decreases to - i,
    {
        s.push(v[i]);
        i = i + 1;
        assert(s@ == v@.subrange(from as int, i as int));
    }
    s
}

/// The Unicode `White_Space` property.
pub open spec fn white_space(c: char) -> bool {
    let u = c as u32;
    ||| 0x9 <= u <= 0xd
    ||| u == 0x20
    ||| u == 0x85
    ||| u == 0xa0
    ||| u == 0x1680
    ||| 0x2000 <= u <= 0x200a
    ||| u == 0x2028
    ||| u == 0x2029
    ||| u == 0x202f
    ||| u == 0x205f
    ||| u == 0x3000
}

/// Whether a character is white space.
pub fn is_white_space(c: char) -> (b: bool)
    ensures
        b == white_space(c),
{
    let u: u32 = c as u32;
    (0x9 <= u && u <= 0xd) || u == 0x20 || u == 0x85 || u == 0xa0 || u == 0x1680 || (0x2000 <= u
        && u <= 0x200a) || u == 0x2028 || u == 0x2029 || u == 0x202f || u == 0x205f || u == 0x3000
}

/// A decimal digit, `0` to `9`.
pub open spec fn ascii_digit(c: char) -> bool {
    0x30 <= c as u32 <= 0x39
}

/// Whether a character is a decimal digit.
pub fn is_ascii_digit(c: char) -> (b: bool)
    ensures
        b == ascii_digit(c),
{
    let u: u32 = c as u32;
    0x30 <= u && u <= 0x39
}

// ---- words ----------------------------------------------------------------

/// The maximal runs of characters that are not white space, in order.
pub open spec fn words(s: Seq<char>) -> Seq<Seq<char>>
    decreases s.len(),
{
    if s.len() == 0 {
        seq![]
    } else {
        let before = words(s.drop_last());
        let c = s.last();
        if white_space(c) {
            before
        } else if ends_in_word(s.drop_last()) {
            before.drop_last().push(before.last().push(c))
        } else {
            before.push(seq![c])
        }
    }
}

/// The text ends in a character that is not white space.
pub open spec fn ends_in_word(s: Seq<char>) -> bool {
    s.len() > 0 && !white_space(s.last())
}

/// A word: not empty, and without white space.
pub open spec fn is_word(w: Seq<char>) -> bool {
    w.len() > 0 && forall|i: int| 0 <= i < w.len() ==> !white_space(#[trigger] w[i])
}

/// The words one after the other, with one blank between two.
pub open spec fn joined(ws: Seq<Seq<char>>) -> Seq<char>
    decreases ws.len(),
{
    if ws.len() == 0 {
        seq![]
    } else if ws.len() == 1 {
        ws[0]
    } else {
        joined(ws.drop_last()) + seq![' '] + ws.last()
    }
}

/// What `words` yields are words; a text that ends in a word has one.
pub proof fn lemma_words_are_words(s: Seq<char>)
    ensures
        forall|i: int| 0 <= i < words(s).len() ==> is_word(#[trigger] words(s)[i]),
        ends_in_word(s) ==> words(s).len() > 0,
    decreases s.len(),
{
    if s.len() > 0 {
        lemma_words_are_words(s.drop_last());
        let before = words(s.drop_last());
        if !white_space(s.last()) && ends_in_word(s.drop_last()) {
            assert(is_word(before[before.len() - 1]));
        }
    }
}

/// The words of a string.
pub fn split_words(s: &str) -> (ws: Vec<String>)
    ensures
        ws.deep_view() == words(s@),
{
    let mut done: Vec<String> = Vec::new();
    let mut current = String::new();
    let mut in_word: bool = false;
    for c in it: s.chars()
        invariant
            it.seq() == s@,
            in_word == ends_in_word(s@.take(it.index() as int)),
            in_word ==> done.deep_view().push(current@) == words(s@.take(it.index() as int)),
            !in_word ==> done.deep_view() == words(s@.take(it.index() as int)) && current@.len()
                == 0,
    {
        proof {
            let next = s@.take(it.index() as int + 1);
            assert(next.drop_last() == s@.take(it.index() as int));
            assert(next.last() == c);
        }
        if is_white_space(c) {
            if in_word {
                let ghost before = done.deep_view().push(current@);
                done.push(current);
                current = String::new();
                in_word = false;
                assert(done.deep_view() == before);
            }
        } else {
            let ghost before = done.deep_view().push(current@);
            current.push(c);
            proof {
                if in_word {
                    assert(before.drop_last().push(before.last().push(c)) == done.deep_view().push(
                        current@,
                    ));
                } else {
                    assert(current@ == seq![c]);
                }
            }
            in_word = true;
        }
    }
    assert(s@.take(s@.len() as int) == s@);
    if in_word {
        let ghost before = done.deep_view().push(current@);
        done.push(current);
        assert(done.deep_view() == before);
    }
    done
}

/// Collapse the white space of a text: its words with one blank between two.
pub fn normalize_text(s: &str) -> (r: String)
    ensures
        r@ == joined(words(s@)),
{
    let ws = split_words(s);
    let ghost view = ws.deep_view();
    let mut out = String::new();
    let mut i: usize = 0;
    while i < ws.len()
        invariant
            i <= ws@.len(),
            view == ws.deep_view(),
            out@ == joined(view.take(i as int)),
        decreases ws@.len() - i,
    {
        if i > 0 {
            out.push(' ');
        }
        out.append(ws[i].as_str());
        proof {
            let next = view.take(i as int + 1);
            assert(next.drop_last() == view.take(i as int));
            assert(next.last() == ws@[i as int]@);
            if i == 0 {
                assert(out@ == next[0]);
            } else {
                assert(out@ == joined(view.take(i as int)) + seq![' '] + next.last());
            }
        }
        i = i + 1;
    }
    assert(view.take(view.len() as int) == view);
    out
}

/// Words that follow a blank are read as one more word.
proof fn lemma_words_append(s: Seq<char>, w: Seq<char>)
    requires
        is_word(w),
        !ends_in_word(s),
    ensures
        words(s + w) == words(s).push(w),
    decreases w.len(),
{
    let shorter = w.drop_last();
    assert((s + w).drop_last() == s + shorter);
    assert((s + w).last() == w.last());
    if shorter.len() == 0 {
        assert(s + shorter == s);
        assert(w == seq![w.last()]);
    } else {
        assert(is_word(shorter));
        lemma_words_append(s, shorter);
        assert((s + shorter).last() == shorter.last());
        let before = words(s).push(shorter);
        assert(before.drop_last() == words(s));
        assert(shorter.push(w.last()) == w);
    }
}

/// The words of joined words are those words.
pub proof fn lemma_words_of_joined(ws: Seq<Seq<char>>)
    requires
        forall|i: int| 0 <= i < ws.len() ==> is_word(#[trigger] ws[i]),
    ensures
        words(joined(ws)) == ws,
    decreases ws.len(),
{
    if ws.len() == 1 {
        let none: Seq<char> = seq![];
        lemma_words_append(none, ws[0]);
        assert(none + ws[0] == ws[0]);
        assert(words(none).push(ws[0]) == ws);
    } else if ws.len() > 1 {
        let front = ws.drop_last();
        lemma_words_of_joined(front);
        let gap = joined(front) + seq![' '];
        assert(gap.drop_last() == joined(front));
        assert(words(gap) == words(joined(front)));
        assert(is_word(ws[ws.len() - 1]));
        lemma_words_append(gap, ws.last());
        assert(front.push(ws.last()) == ws);
    }
}

/// Normalising a text a second time changes nothing, and it keeps the words.
pub proof fn law_normalize_idempotent(s: Seq<char>)
    ensures
        words(joined(words(s))) == words(s),
        joined(words(joined(words(s)))) == joined(words(s)),
{
    lemma_words_are_words(s);
    lemma_words_of_joined(words(s));
}

/// Two texts normalise to the same text exactly when they have the same words.
pub proof fn law_normalize_decides_words(s: Seq<char>, t: Seq<char>)
    ensures
        joined(words(s)) == joined(words(t)) <==> words(s) == words(t),
{
    law_normalize_idempotent(s);
    law_normalize_idempotent(t);
}

// ---- trimming -------------------------------------------------------------

/// The text without the white space at its two ends.
pub open spec fn trimmed(s: Seq<char>) -> Seq<char>
    decreases s.len(),
{
    if s.len() > 0 && white_space(s.first()) {
        trimmed(s.drop_first())
    } else if s.len() > 0 && white_space(s.last()) {
        trimmed(s.drop_last())
    } else {
        s
    }
}

/// Every character is white space.
pub open spec fn blank(s: Seq<char>) -> bool {
    forall|i: int| 0 <= i < s.len() ==> white_space(#[trigger] s[i])
}

/// Trimming leaves nothing exactly of a blank text.
pub proof fn lemma_trimmed_empty(s: Seq<char>)
    ensures
        trimmed(s).len() == 0 <==> blank(s),
    decreases s.len(),
{
    if s.len() > 0 && white_space(s.first()) {
        lemma_trimmed_empty(s.drop_first());
        let rest = s.drop_first();
        if blank(rest) {
            assert forall|i: int| 0 <= i < s.len() implies white_space(#[trigger] s[i]) by {
                if i > 0 {
                    assert(white_space(rest[i - 1]));
                }
            }
        }
        if blank(s) {
            assert forall|i: int| 0 <= i < rest.len() implies white_space(#[trigger] rest[i]) by {
                assert(white_space(s[i + 1]));
            }
        }
    } else if s.len() > 0 {
        assert(!white_space(s[0]));
        if white_space(s.last()) {
            lemma_trimmed_empty(s.drop_last());
            assert(s.drop_last()[0] == s[0]);
        }
    }
}

/// Cut the white space off both ends of a string.
pub fn trim(s: &str) -> (r: String)
    ensures
        r@ == trimmed(s@),
{
    let v = chars_of(s);
    let mut from: usize = 0;
    let mut to: usize = v.len();
    assert(v@.subrange(0, v@.len() as int) == s@);
    while from < to && is_white_space(v[from])
        invariant
            from <= to == v@.len(),
            trimmed(v@.subrange(from as int, to as int)) == trimmed(s@),
        decreases to - from,
    {
        assert(v@.subrange(from as int, to as int).drop_first() == v@.subrange(
            from as int + 1,
            to as int,
        ));
        from = from + 1;
    }
    while from < to && is_white_space(v[to - 1])
        invariant
            from <= to <= v@.len(),
            from < to ==> !white_space(v@[from as int]),
            trimmed(v@.subrange(from as int, to as int)) == trimmed(s@),
        decreases to - from,
    {
        assert(v@.subrange(from as int, to as int).drop_last() == v@.subrange(
            from as int,
            to as int - 1,
        ));
        to = to - 1;
    }
    string_of(&v, from, to)
}

/// Whether a string holds nothing but white space.
pub fn is_blank(s: &str) -> (b: bool)
    ensures
        b == blank(s@),
        b == (trimmed(s@).len() == 0),
{
    proof {
        lemma_trimmed_empty(s@);
    }
    let v = chars_of(s);
    let mut i: usize = 0;
    while i < v.len()
        invariant
            i <= v@.len(),
            v@ == s@,
            blank(s@) == (trimmed(s@).len() == 0),
            forall|j: int| 0 <= j < i ==> white_space(#[trigger] s@[j]),
        decreases v@.len() - i,
    {
        if !is_white_space(v[i]) {
            return false;
        }
        i = i + 1;
    }
    true
}

// ---- numerals -------------------------------------------------------------

/// The digit for a number below ten.
pub open spec fn digit_char(d: nat) -> char {
    (0x30 + d) as char
}

/// The decimal numeral of a number, without leading zeros.
pub open spec fn decimal_digits(n: nat) -> Seq<char>
    decreases n,
{
    if n < 10 {
        seq![digit_char(n)]
    } else {
        decimal_digits(n / 10).push(digit_char(n % 10))
    }
}

/// Write a number in decimal.
pub fn decimal(n: u64) -> (s: String)
    ensures
        s@ == decimal_digits(n as nat),
    decreases n,
{
    if n < 10 {
        let mut s = String::new();
        s.push((0x30u8 + n as u8) as char);
        assert(s@ == seq![digit_char(n as nat)]);
        s
    } else {
        let mut s = decimal(n / 10);
        s.push((0x30u8 + (n % 10) as u8) as char);
        s
    }
}

/// Every character is a decimal digit, and there is one.
pub open spec fn is_numeral(s: Seq<char>) -> bool {
    s.len() > 0 && forall|i: int| 0 <= i < s.len() ==> ascii_digit(#[trigger] s[i])
}

/// The number that a decimal numeral writes.
pub open spec fn numeral_value(s: Seq<char>) -> nat
    decreases s.len(),
{
    if s.len() == 0 {
        0
    } else {
        (numeral_value(s.drop_last()) * 10 + (s.last() as u32 - 0x30)) as nat
    }
}

/// The text behind one leading plus sign, or the whole text.
pub open spec fn unsigned_part(s: Seq<char>) -> Seq<char> {
    if s.len() > 0 && s[0] == '+' {
        s.drop_first()
    } else {
        s
    }
}

/// The number up to `max` that a text writes: digits, with one plus sign allowed before them.
pub open spec fn parsed_unsigned(s: Seq<char>, max: nat) -> Option<nat> {
    if is_numeral(unsigned_part(s)) && numeral_value(unsigned_part(s)) <= max {
        Some(numeral_value(unsigned_part(s)))
    } else {
        None
    }
}

/// A numeral is worth at least any of its beginnings.
proof fn lemma_numeral_grows(s: Seq<char>, n: int)
    requires
        0 <= n <= s.len(),
        forall|i: int| 0 <= i < s.len() ==> ascii_digit(#[trigger] s[i]),
    ensures
        numeral_value(s.take(n)) <= numeral_value(s),
    decreases s.len() - n,
{
    if n == s.len() {
        assert(s.take(n) == s);
    } else {
        lemma_numeral_grows(s, n + 1);
        assert(s.take(n + 1).drop_last() == s.take(n));
        assert(ascii_digit(s[n]));
    }
}

/// Read an unsigned number that is at most `max`.
pub fn parse_unsigned(s: &str, max: u64) -> (r: Option<u64>)
    ensures
        match r {
            Some(n) => parsed_unsigned(s@, max as nat) == Some(n as nat),
            None => parsed_unsigned(s@, max as nat) is None,
        },
{
    let v = chars_of(s);
    let start: usize = if v.len() > 0 && v[0] == '+' {
        1
    } else {
        0
    };
    let ghost part = unsigned_part(s@);
    assert(part == v@.skip(start as int));
    if start == v.len() {
        return None;
    }
    let mut n: u64 = 0;
    let mut i: usize = start;
    while i < v.len()
        invariant
            start <= i <= v@.len(),
            v@ == s@,
            part == v@.skip(start as int),
            part == unsigned_part(s@),
            forall|j: int| 0 <= j < i - start ==> ascii_digit(#[trigger] part[j]),
            n == numeral_value(part.take(i - start)),
            n <= max,
        decreases v@.len() - i,
    {
        assert(v@[i as int] == part[i - start]);
        if !is_ascii_digit(v[i]) {
            return None;
        }
        let d: u64 = (v[i] as u32 - 0x30) as u64;
        proof {
            assert(part.take(i - start + 1).drop_last() == part.take(i - start));
            if is_numeral(part) {
                lemma_numeral_grows(part, i - start + 1);
            }
        }
        if n > max / 10 || d > max || n * 10 > max - d {
            return None;
        }
        n = n * 10 + d;
        i = i + 1;
    }
    assert(part.take(part.len() as int) == part);
    Some(n)
}

/// The decimal numeral of a number is read back as that number.
pub proof fn law_decimal_round_trip(n: nat, max: nat)
    requires
        n <= max,
    ensures
        parsed_unsigned(decimal_digits(n), max) == Some(n),
{
    lemma_decimal_value(n);
    assert(ascii_digit(decimal_digits(n)[0]));
}

proof fn lemma_decimal_value(n: nat)
    ensures
        is_numeral(decimal_digits(n)),
        numeral_value(decimal_digits(n)) == n,
    decreases n,
{
    reveal_with_fuel(numeral_value, 2);
    if n >= 10 {
        lemma_decimal_value(n / 10);
        let front = decimal_digits(n / 10);
        assert(front.push(digit_char(n % 10)).drop_last() == front);
    }
}

// ---- comparison -----------------------------------------------------------

/// Compare two byte strings. All bytes of `a` are gone through, whatever `b` holds and however long
/// it is: neither a difference nor the length of `b` ends the loop early.
pub fn ct_eq(a: &[u8], b: &[u8]) -> (r: bool)
    ensures
        r == (a@ == b@),
{
    let mut diff: u8 = if a.len() == b.len() {
        0
    } else {
        1
    };
    let mut i: usize = 0;
    assert(a@.take(0) == b@.take(0));
    while i < a.len()
        invariant
            i <= a@.len(),
            diff == 0 <==> a@.len() == b@.len() && a@.take(i as int) == b@.take(i as int),
        decreases a@.len() - i,
    {
        let x: u8 = a[i];
        let y: u8 = if i < b.len() {
            b[i]
        } else {
            0
        };
        proof {
            assert((diff | (x ^ y)) == 0u8 <==> diff == 0u8 && x == y) by (bit_vector);
            if a@.len() == b@.len() {
                let p = a@.take(i as int + 1);
                let q = b@.take(i as int + 1);
                assert(p.drop_last() == a@.take(i as int));
                assert(q.drop_last() == b@.take(i as int));
                assert(p == p.drop_last().push(x));
                assert(q == q.drop_last().push(y));
                assert(p == q <==> a@.take(i as int) == b@.take(i as int) && x == y) by {
                    assert(p.last() == x && q.last() == y);
                }
            }
        }
        diff = diff | (x ^ y);
        i = i + 1;
    }
    assert(a@.take(a@.len() as int) == a@);
    assert(b@.take(b@.len() as int) == b@);
    diff == 0
}

/// Two texts are the same exactly when their bytes are.
pub proof fn lemma_bytes_decide_text(s: Seq<char>, t: Seq<char>)
    ensures
        encode_utf8(s) == encode_utf8(t) <==> s == t,
{
    encode_utf8_decode_utf8(s);
    encode_utf8_decode_utf8(t);
}

/// Whether two strings are the same.
pub fn str_eq(a: &str, b: &str) -> (r: bool)
    ensures
        r == (a@ == b@),
{
    proof {
        lemma_bytes_decide_text(a@, b@);
    }
    ct_eq(a.as_bytes(), b.as_bytes())
}

// ---- search ---------------------------------------------------------------

/// `part` stands somewhere in `text`.
pub open spec fn substring(part: Seq<char>, text: Seq<char>) -> bool {
    exists|i: int| #[trigger] stands_at(part, text, i)
}

/// `part` stands in `text` from place `i` on.
pub open spec fn stands_at(part: Seq<char>, text: Seq<char>, i: int) -> bool {
    0 <= i <= text.len() - part.len() && text.subrange(i, i + part.len()) == part
}

/// Whether one text stands somewhere in another.
pub fn contains_text(text: &str, part: &str) -> (r: bool)
    ensures
        r == substring(part@, text@),
{
    let t = chars_of(text);
    let p = chars_of(part);
    let n: usize = t.len();
    if p.len() > n {
        return false;
    }
    let last: usize = n - p.len();
    let mut i: usize = 0;
    while i <= last
        invariant
            i <= last + 1,
            n == t@.len(),
            last == n - p@.len(),
            t@ == text@,
            p@ == part@,
            forall|k: int| 0 <= k < i ==> !#[trigger] stands_at(p@, t@, k),
        decreases last + 1 - i,
    {
        let mut j: usize = 0;
        while j < p.len() && t[i + j] == p[j]
            invariant
                j <= p@.len(),
                i + p@.len() <= n,
                n == t@.len(),
                forall|k: int| 0 <= k < j ==> t@[i + k] == #[trigger] p@[k],
            decreases p@.len() - j,
        {
            j = j + 1;
        }
        if j == p.len() {
            assert(t@.subrange(i as int, i + p@.len()) == p@);
            assert(stands_at(part@, text@, i as int));
            return true;
        }
        assert(!stands_at(p@, t@, i as int)) by {
            assert(t@.subrange(i as int, i + p@.len())[j as int] == t@[i + j]);
        }
        if i == last {
            return false;
        }
        i = i + 1;
    }
    false
}

} // verus!
