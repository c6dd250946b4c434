//! JSON values, and the page text in the answer of a crawl.

use vstd::prelude::*;

use crate::check::push_hex_digit;
use crate::text::{chars_of, str_eq};

verus! {

/// A JSON value. A number is held as the text that shows it.
#[derive(Debug)]
pub enum Json {
    Null,
    Bool(bool),
    Number(String),
    Text(String),
    Array(Vec<Json>),
    Object(Vec<(String, Json)>),
}

/// The value of the first entry whose key reads `key`.
pub open spec fn entry(entries: Seq<(String, Json)>, key: Seq<char>) -> Option<Json>
    decreases entries.len(),
{
    if entries.len() == 0 {
        None
    } else if entries.first().0@ == key {
        Some(entries.first().1)
    } else {
        entry(entries.drop_first(), key)
    }
}

impl Json {
    /// The member of an object under a key; nothing of any other value.
    pub open spec fn member(self, key: Seq<char>) -> Option<Json> {
        match self {
            Json::Object(entries) => entry(entries@, key),
            _ => None,
        }
    }

    /// The text of the member of an object under a key, where it is a text.
    pub open spec fn text_member(self, key: Seq<char>) -> Option<Seq<char>> {
        match self.member(key) {
            Some(Json::Text(s)) => Some(s@),
            _ => None,
        }
    }

    /// The member of an object under a key.
    pub fn get(&self, key: &str) -> (r: Option<&Json>)
        ensures
            match r {
                Some(v) => self.member(key@) == Some(*v),
                None => self.member(key@) is None,
            },
    {
        match self {
            Json::Object(entries) => {
                let mut i: usize = 0;
                assert(entries@.skip(0) == entries@);
                while i < entries.len()
                    invariant
                        i <= entries@.len(),
                        self.member(key@) == entry(entries@.skip(i as int), key@),
                    decreases entries@.len() - i,
                {
                    let e = &entries[i];
                    assert(entries@.skip(i as int).first() == *e);
                    if str_eq(e.0.as_str(), key) {
                        return Some(&e.1);
                    }
                    assert(entries@.skip(i as int).drop_first() == entries@.skip(i as int + 1));
                    i = i + 1;
                }
                None
            },
            _ => None,
        }
    }

    /// The text of the member of an object under a key, where it is a text.
    pub fn get_text(&self, key: &str) -> (r: Option<&String>)
        ensures
            match r {
                Some(s) => self.text_member(key@) == Some(s@),
                None => self.text_member(key@) is None,
            },
    {
        match self.get(key) {
            Some(Json::Text(s)) => Some(s),
            _ => None,
        }
    }
}

// ---- writing --------------------------------------------------------------

/// A character as it stands in a JSON string: the quotation mark, the backslash and the control
/// characters are escaped, any other stands for itself.
pub open spec fn json_char(c: char) -> Seq<char> {
    let u = c as u32;
    if u == 0x22 {
        seq!['\\', '"']
    } else if u == 0x5c {
        seq!['\\', '\\']
    } else if u == 0x8 {
        seq!['\\', 'b']
    } else if u == 0x9 {
        seq!['\\', 't']
    } else if u == 0xa {
        seq!['\\', 'n']
    } else if u == 0xc {
        seq!['\\', 'f']
    } else if u == 0xd {
        seq!['\\', 'r']
    } else if u < 0x20 {
        seq![
            '\\',
            'u',
            '0',
            '0',
            crate::check::hex_digit(u as nat / 16),
            crate::check::hex_digit(u as nat % 16),
        ]
    } else {
        seq![c]
    }
}

/// The characters of a text as they stand in a JSON string.
pub open spec fn json_escaped(text: Seq<char>) -> Seq<char>
    decreases text.len(),
{
    if text.len() == 0 {
        seq![]
    } else {
        json_escaped(text.drop_last()) + json_char(text.last())
    }
}

/// A text as a JSON string: its characters, escaped where they have to be, between quotation marks.
pub open spec fn json_quoted(text: Seq<char>) -> Seq<char> {
    seq!['"'] + json_escaped(text) + seq!['"']
}

fn push_json_char(out: &mut String, c: char)
    ensures
        final(out)@ == old(out)@ + json_char(c),
{
    let ghost before = out@;
    let u: u32 = c as u32;
    if u == 0x22 {
        out.push('\\');
        out.push('"');
    } else if u == 0x5c {
        out.push('\\');
        out.push('\\');
    } else if u == 0x8 {
        out.push('\\');
        out.push('b');
    } else if u == 0x9 {
        out.push('\\');
        out.push('t');
    } else if u == 0xa {
        out.push('\\');
        out.push('n');
    } else if u == 0xc {
        out.push('\\');
        out.push('f');
    } else if u == 0xd {
        out.push('\\');
        out.push('r');
    } else if u < 0x20 {
        out.push('\\');
        out.push('u');
        out.push('0');
        out.push('0');
        push_hex_digit(out, (u / 16) as u8);
        push_hex_digit(out, (u % 16) as u8);
    } else {
        out.push(c);
    }
    assert(out@ == before + json_char(c));
}

/// Write a text as a JSON string.
pub fn quote_json(text: &str) -> (r: String)
    ensures
        r@ == json_quoted(text@),
{
    let v = chars_of(text);
    let mut out = String::new();
    out.push('"');
    let mut i: usize = 0;
    while i < v.len()
        invariant
            i <= v@.len(),
            out@ == seq!['"'] + json_escaped(v@.take(i as int)),
        decreases v@.len() - i,
    {
        push_json_char(&mut out, v[i]);
        assert(v@.take(i as int + 1).drop_last() == v@.take(i as int));
        i = i + 1;
    }
    assert(v@.take(v@.len() as int) == text@);
    out.push('"');
    out
}

/// The first character of a text comes first.
proof fn lemma_escaped_first(text: Seq<char>)
    requires
        text.len() > 0,
    ensures
        json_escaped(text) == json_char(text.first()) + json_escaped(text.drop_first()),
    decreases text.len(),
{
    if text.len() == 1 {
        assert(text.drop_last() == Seq::<char>::empty());
        assert(text.drop_first() == Seq::<char>::empty());
    } else {
        lemma_escaped_first(text.drop_last());
        assert(text.drop_last().drop_first() == text.drop_first().drop_last());
        assert(text.drop_first().last() == text.last());
    }
}

/// The escaped form of a character tells the character, whatever follows it.
proof fn lemma_char_decides(x: char, y: char, whole: Seq<char>)
    requires
        json_char(x).len() <= whole.len(),
        json_char(y).len() <= whole.len(),
        forall|i: int| 0 <= i < json_char(x).len() ==> whole[i] == json_char(x)[i],
        forall|i: int| 0 <= i < json_char(y).len() ==> whole[i] == json_char(y)[i],
    ensures
        x == y,
{
    assert(whole[0] == json_char(x)[0]);
    assert(whole[0] == json_char(y)[0]);
    if whole[0] == '\\' {
        assert(json_char(x).len() >= 2 && json_char(y).len() >= 2);
        assert(whole[1] == json_char(x)[1]);
        assert(whole[1] == json_char(y)[1]);
        if whole[1] == 'u' {
            assert(json_char(x).len() == 6 && json_char(y).len() == 6);
            assert(whole[4] == json_char(x)[4]);
            assert(whole[4] == json_char(y)[4]);
            assert(whole[5] == json_char(x)[5]);
            assert(whole[5] == json_char(y)[5]);
        }
    }
}

/// Two texts whose escaped forms are the same are the same.
proof fn lemma_escaped_decides(a: Seq<char>, b: Seq<char>)
    requires
        json_escaped(a) == json_escaped(b),
    ensures
        a == b,
    decreases a.len(),
{
    let whole = json_escaped(a);
    if a.len() > 0 {
        lemma_escaped_first(a);
        assert(json_char(a.first()).len() > 0);
    }
    if b.len() > 0 {
        lemma_escaped_first(b);
        assert(json_char(b.first()).len() > 0);
    }
    if a.len() > 0 && b.len() > 0 {
        let x = a.first();
        let y = b.first();
        lemma_char_decides(x, y, whole);
        let n = json_char(x).len() as int;
        assert(whole.skip(n) == json_escaped(a.drop_first()));
        assert(whole.skip(n) == json_escaped(b.drop_first()));
        lemma_escaped_decides(a.drop_first(), b.drop_first());
        assert(a == seq![x] + a.drop_first());
        assert(b == seq![y] + b.drop_first());
    } else {
        assert(a.len() == 0 ==> whole.len() == 0);
        assert(b.len() == 0 ==> whole.len() == 0);
        assert(a == b);
    }
}

/// A JSON string is never empty, and it tells the text: two texts are written alike exactly when
/// they are the same.
pub proof fn law_quoting_is_faithful(a: Seq<char>, b: Seq<char>)
    ensures
        json_quoted(a).len() >= 2,
        json_quoted(a) == json_quoted(b) <==> a == b,
{
    if json_quoted(a) == json_quoted(b) {
        let n = json_quoted(a).len() as int;
        assert(json_quoted(a).subrange(1, n - 1) == json_escaped(a));
        assert(json_quoted(b).subrange(1, n - 1) == json_escaped(b));
        lemma_escaped_decides(a, b);
    }
}

/// The compact JSON text of a value: no white space between the tokens, the members of an object in
/// their order.
pub open spec fn json_text(value: Json) -> Seq<char>
    decreases value,
{
    match value {
        Json::Null => "null"@,
        Json::Bool(b) => if b {
            "true"@
        } else {
            "false"@
        },
        Json::Number(n) => n@,
        Json::Text(s) => json_quoted(s@),
        Json::Array(items) => "["@ + items_text(items@) + "]"@,
        Json::Object(entries) => "{"@ + entries_text(entries@) + "}"@,
    }
}

/// The JSON texts of values, with commas between them.
pub open spec fn items_text(items: Seq<Json>) -> Seq<char>
    decreases items,
{
    if items.len() == 0 {
        seq![]
    } else if items.len() == 1 {
        json_text(items[0])
    } else {
        items_text(items.drop_last()) + ","@ + json_text(items.last())
    }
}

/// The JSON texts of the members of an object, with commas between them.
pub open spec fn entries_text(entries: Seq<(String, Json)>) -> Seq<char>
    decreases entries,
{
    if entries.len() == 0 {
        seq![]
    } else if entries.len() == 1 {
        json_quoted(entries[0].0@) + ":"@ + json_text(entries[0].1)
    } else {
        entries_text(entries.drop_last()) + ","@ + json_quoted(
            entries.last().0@,
        ) + ":"@ + json_text(entries.last().1)
    }
}

/// Write a value as compact JSON.
pub fn write_json(value: &Json) -> (r: String)
    ensures
        r@ == json_text(*value),
    decreases value,
{
    match value {
        Json::Null => "null".to_string(),
        Json::Bool(b) => if *b {
            "true".to_string()
        } else {
            "false".to_string()
        },
        Json::Number(n) => n.clone(),
        Json::Text(s) => quote_json(s.as_str()),
        Json::Array(items) => {
            let mut out = String::new();
            let mut i: usize = 0;
            while i < items.len()
                invariant
                    i <= items@.len(),
                    *value == Json::Array(*items),
                    out@ == items_text(items@.take(i as int)),
                decreases items@.len() - i,
            {
                if i > 0 {
                    out.append(",");
                }
                assert(decreases_to!((*value)->Array_0 => items@));
                assert(decreases_to!(items@ => items@[i as int]));
                out.append(write_json(&items[i]).as_str());
                assert(items@.take(i as int + 1).drop_last() == items@.take(i as int));
                i = i + 1;
            }
            assert(items@.take(items@.len() as int) == items@);
            "[".to_string().concat(out.as_str()).concat("]")
        },
        Json::Object(entries) => {
            let mut out = String::new();
            let mut i: usize = 0;
            while i < entries.len()
                invariant
                    i <= entries@.len(),
                    *value == Json::Object(*entries),
                    out@ == entries_text(entries@.take(i as int)),
                decreases entries@.len() - i,
            {
                if i > 0 {
                    out.append(",");
                }
                let e = &entries[i];
                out.append(quote_json(e.0.as_str()).as_str());
                out.append(":");
                assert(decreases_to!((*value)->Object_0 => entries@));
                assert(decreases_to!(entries@ => entries@[i as int]));
                assert(decreases_to!(entries@[i as int] => entries@[i as int].1));
                out.append(write_json(&e.1).as_str());
                assert(entries@.take(i as int + 1).drop_last() == entries@.take(i as int));
                i = i + 1;
            }
            assert(entries@.take(entries@.len() as int) == entries@);
            "{".to_string().concat(out.as_str()).concat("}")
        },
    }
}

// ---- crawls ---------------------------------------------------------------

/// The text of one crawled page: its `content`, `text`, `markdown` or `html`, whichever comes
/// first, and a line end.
pub open spec fn page_text(page: Json) -> Seq<char> {
    if let Some(s) = page.text_member("content"@) {
        s.push('\n')
    } else if let Some(s) = page.text_member("text"@) {
        s.push('\n')
    } else if let Some(s) = page.text_member("markdown"@) {
        s.push('\n')
    } else if let Some(s) = page.text_member("html"@) {
        s.push('\n')
    } else {
        seq![]
    }
}

/// The texts of the pages, one after the other.
pub open spec fn pages_text(pages: Seq<Json>) -> Seq<char>
    decreases pages.len(),
{
    if pages.len() == 0 {
        seq![]
    } else {
        pages_text(pages.drop_last()) + page_text(pages.last())
    }
}

/// The page text of a crawl: the `content` of the answer, or the texts of the pages that it lists,
/// or the JSON text of the whole answer.
pub open spec fn crawl_text(result: Json) -> Seq<char> {
    if let Some(s) = result.text_member("content"@) {
        s
    } else {
        match result {
            Json::Array(pages) if pages_text(pages@).len() > 0 => pages_text(pages@),
            _ => json_text(result),
        }
    }
}

fn push_page(out: &mut String, page: &Json)
    ensures
        final(out)@ == old(out)@ + page_text(*page),
{
    let found = match page.get_text("content") {
        Some(s) => Some(s),
        None => match page.get_text("text") {
            Some(s) => Some(s),
            None => match page.get_text("markdown") {
                Some(s) => Some(s),
                None => page.get_text("html"),
            },
        },
    };
    let ghost before = out@;
    match found {
        Some(s) => {
            out.append(s.as_str());
            out.push('\n');
            assert(out@ == before + s@.push('\n'));
        },
        None => {
            assert(out@ == before + page_text(*page));
        },
    }
}

/// Best-effort extraction of page text from a Spider crawl result; the raw JSON where there is
/// none, so that keyword and content checks still have something.
pub fn spider_body_text(result: &Json) -> (r: String)
    ensures
        r@ == crawl_text(*result),
{
    match result.get_text("content") {
        Some(s) => {
            return s.clone();
        },
        None => {},
    }
    match result {
        Json::Array(pages) => {
            let mut out = String::new();
            let mut i: usize = 0;
            while i < pages.len()
                invariant
                    i <= pages@.len(),
                    out@ == pages_text(pages@.take(i as int)),
                decreases pages@.len() - i,
            {
                push_page(&mut out, &pages[i]);
                assert(pages@.take(i as int + 1).drop_last() == pages@.take(i as int));
                i = i + 1;
            }
            assert(pages@.take(pages@.len() as int) == pages@);
            if !out.as_str().is_empty() {
                return out;
            }
        },
        _ => {},
    }
    write_json(result)
}

/// Why a crawl brought no page, where its answer says that the crawler is not available.
pub open spec fn crawl_refusal(result: Json) -> Option<Seq<char>> {
    if result.member("available"@) == Some(Json::Bool(false)) {
        match result.text_member("reason"@) {
            Some(reason) => Some(reason),
            None => Some("spider unavailable"@),
        }
    } else {
        None
    }
}

/// Why a crawl brought no page, where its answer says so.
pub fn refusal(result: &Json) -> (r: Option<String>)
    ensures
        r.deep_view() == crawl_refusal(*result),
{
    match result.get("available") {
        Some(Json::Bool(available)) => {
            if *available {
                return None;
            }
            match result.get_text("reason") {
                Some(reason) => Some(reason.clone()),
                None => Some("spider unavailable".to_string()),
            }
        },
        _ => None,
    }
}

} // verus!
