//! Settings of the process and the bearer check.

use std::path::PathBuf;

use vstd::prelude::*;

use crate::text::{ct_eq, decimal, parse_unsigned, trim};

verus! {

// ---- settings that are made once ------------------------------------------

/// What a slot holds once a value was put into it: the first one put into it.
pub open spec fn filled<T>(held: Option<T>, value: T) -> Option<T> {
    match held {
        Some(first) => Some(first),
        None => Some(value),
    }
}

/// A slot that keeps the first value put into it.
pub struct SetOnce<T> {
    value: Option<T>,
}

impl<T> SetOnce<T> {
    /// The value in the slot.
    pub closed spec fn held(self) -> Option<T> {
        self.value
    }

    /// An empty slot.
    pub fn new() -> (r: SetOnce<T>)
        ensures
            r.held() is None,
    {
        SetOnce { value: None }
    }

    /// Fill an empty slot; a slot that holds a value keeps it.
    pub fn set(&mut self, value: T)
        ensures
            final(self).held() == filled(old(self).held(), value),
    {
        if self.value.is_none() {
            self.value = Some(value);
        }
    }

    /// The value in the slot.
    pub fn get(&self) -> (r: Option<&T>)
        ensures
            match r {
                Some(v) => self.held() == Some(*v),
                None => self.held() is None,
            },
    {
        self.value.as_ref()
    }
}

/// Publish the monitors data directory. Idempotent: a second call is ignored.
pub fn init_data_dir(slot: &mut SetOnce<PathBuf>, dir: PathBuf)
    ensures
        final(slot).held() == filled(old(slot).held(), dir),
{
    slot.set(dir)
}

/// The published directory, or the one for temporary files where none was published.
pub open spec fn chosen_dir(held: Option<PathBuf>, temp_dir: PathBuf) -> PathBuf {
    match held {
        Some(dir) => dir,
        None => temp_dir,
    }
}

/// The monitors data directory, or `temp_dir` where none was published.
pub fn data_dir<'a>(slot: &'a SetOnce<PathBuf>, temp_dir: &'a PathBuf) -> (r: &'a PathBuf)
    ensures
        *r == chosen_dir(slot.held(), *temp_dir),
{
    match slot.get() {
        Some(dir) => dir,
        None => temp_dir,
    }
}

/// The directory that holds the database, and the name of its file in it. The two are joined where
/// the file is opened.
pub fn default_db_path<'a>(slot: &'a SetOnce<PathBuf>, temp_dir: &'a PathBuf) -> (r: (
    &'a PathBuf,
    &'static str,
))
    ensures
        *r.0 == chosen_dir(slot.held(), *temp_dir),
        r.1@ == "monitors.db"@,
{
    (data_dir(slot, temp_dir), "monitors.db")
}

/// The first directory that is published stays, whatever is published after it; before that it is
/// the one for temporary files.
pub proof fn law_first_dir_stays(first: PathBuf, second: PathBuf, temp_dir: PathBuf)
    ensures
        chosen_dir(None, temp_dir) == temp_dir,
        chosen_dir(filled(None, first), temp_dir) == first,
        chosen_dir(filled(filled(None, first), second), temp_dir) == first,
{
}

// ---- settings from the environment ----------------------------------------

/// The loopback port that the service listens on where none is set.
pub const DEFAULT_PORT: u16 = 8003;

/// The loopback port of the host where none is set.
pub const DEFAULT_CORE_PORT: u16 = 7980;

/// The port that a setting writes, with white space around it allowed; `default` where there is no
/// setting or it is no port.
pub open spec fn chosen_port(setting: Option<Seq<char>>, default: u16) -> nat {
    match setting {
        Some(s) => match crate::text::parsed_unsigned(crate::text::trimmed(s), 0xffff) {
            Some(n) => n,
            None => default as nat,
        },
        None => default as nat,
    }
}

/// Read a port from a setting.
pub fn port_setting(setting: Option<&str>, default: u16) -> (r: u16)
    ensures
        r == chosen_port(setting.deep_view(), default),
{
    match setting {
        Some(s) => match parse_unsigned(trim(s).as_str(), 0xffff) {
            Some(n) => n as u16,
            None => default,
        },
        None => default,
    }
}

/// The token that a setting holds, without the white space around it; none where nothing is left.
pub open spec fn chosen_token(setting: Option<Seq<char>>) -> Option<Seq<char>> {
    match setting {
        Some(s) => if crate::text::trimmed(s).len() > 0 {
            Some(crate::text::trimmed(s))
        } else {
            None
        },
        None => None,
    }
}

/// Read the shared secret from a setting.
pub fn token_setting(setting: Option<&str>) -> (r: Option<String>)
    ensures
        r.deep_view() == chosen_token(setting.deep_view()),
{
    match setting {
        Some(s) => {
            let token = trim(s);
            if token.as_str().is_empty() {
                None
            } else {
                Some(token)
            }
        },
        None => None,
    }
}

/// The loopback base URL of the host.
pub fn core_base(port: u16) -> (r: String)
    ensures
        r@ == "http://127.0.0.1:"@ + crate::text::decimal_digits(port as nat),
{
    "http://127.0.0.1:".to_string().concat(decimal(port as u64).as_str())
}

// ---- the bearer check -----------------------------------------------------

/// A request is let in only where a token is configured, is not empty, and is the one provided.
pub open spec fn token_matches(provided: Option<Seq<char>>, expected: Option<Seq<char>>) -> bool {
    expected matches Some(token) && token.len() > 0 && provided == Some(token)
}

/// Whether the provided token is the expected one. Fail-closed: without an expected token, or with
/// an empty one, the answer is no.
pub fn bearer_ok(provided: Option<&str>, expected: Option<&str>) -> (r: bool)
    ensures
        r == token_matches(provided.deep_view(), expected.deep_view()),
{
    let expected = match expected {
        Some(token) => token,
        None => {
            return false;
        },
    };
    if expected.is_empty() {
        return false;
    }
    let provided_text = match provided {
        Some(token) => token,
        None => "",
    };
    proof {
        crate::text::lemma_bytes_decide_text(provided_text@, expected@);
        reveal_strlit("");
    }
    ct_eq(provided_text.as_bytes(), expected.as_bytes())
}

/// The token in the value of an `Authorization` header: what follows `Bearer` and a blank.
pub open spec fn header_token(header: Option<Seq<char>>) -> Option<Seq<char>> {
    match header {
        Some(value) => if "Bearer "@.is_prefix_of(value) {
            Some(value.skip("Bearer "@.len() as int))
        } else {
            None
        },
        None => None,
    }
}

fn bearer_token(header: Option<&str>) -> (r: Option<String>)
    ensures
        r.deep_view() == header_token(header.deep_view()),
{
    match header {
        Some(value) => {
            let v = crate::text::chars_of(value);
            let prefix = crate::text::chars_of("Bearer ");
            if v.len() < prefix.len() {
                return None;
            }
            let mut i: usize = 0;
            while i < prefix.len()
                invariant
                    i <= prefix@.len() <= v@.len(),
                    v@ == value@,
                    prefix@ == "Bearer "@,
                    header.deep_view() == Some(value@),
                    forall|j: int| 0 <= j < i ==> prefix@[j] == v@[j],
                decreases prefix@.len() - i,
            {
                if v[i] != prefix[i] {
                    return None;
                }
                i = i + 1;
            }
            assert(v@.subrange(prefix@.len() as int, v@.len() as int) == value@.skip(
                prefix@.len() as int,
            ));
            Some(crate::text::string_of(&v, prefix.len(), v.len()))
        },
        None => None,
    }
}

/// Whether a request with this `Authorization` header is let in.
pub fn request_allowed(header: Option<&str>, expected: Option<&str>) -> (r: bool)
    ensures
        r == token_matches(header_token(header.deep_view()), expected.deep_view()),
{
    match bearer_token(header) {
        Some(token) => bearer_ok(Some(token.as_str()), expected),
        None => bearer_ok(None, expected),
    }
}

/// The check is fail-closed: where no token is configured, no request is let in, whatever it
/// presents.
pub proof fn law_bearer_is_fail_closed(header: Option<Seq<char>>, setting: Option<Seq<char>>)
    requires
        setting matches Some(s) ==> crate::text::blank(s),
    ensures
        !token_matches(header_token(header), chosen_token(setting)),
{
    if let Some(s) = setting {
        crate::text::lemma_trimmed_empty(s);
    }
}

/// With a token configured, exactly the requests that present this token are let in.
pub proof fn law_bearer_opens_to_the_token(header: Seq<char>, token: Seq<char>)
    requires
        token.len() > 0,
    ensures
        token_matches(header_token(Some(header)), Some(token)) <==> header == "Bearer "@ + token,
{
    let prefix = "Bearer "@;
    if prefix.is_prefix_of(header) {
        assert(header == prefix + header.skip(prefix.len() as int));
    }
    if header == prefix + token {
        assert(header.skip(prefix.len() as int) == token);
    }
}

} // verus!
