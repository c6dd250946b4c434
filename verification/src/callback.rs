//! Callbacks to the host: what goes into them and what is made of the answers.

use vstd::prelude::*;

use crate::json::Json;
use crate::model::Monitor;
use crate::notify::{is_success, HttpAnswer};

verus! {

/// The arguments of a crawl.
#[derive(Debug)]
pub struct CrawlArgs {
    pub url: String,
    pub depth: u32,
    pub limit: u32,
}

/// The crawl of a monitor's page: that page alone.
pub fn crawl_args(monitor: &Monitor) -> (r: CrawlArgs)
    ensures
        r.url@ == monitor@.url,
        r.depth == 0,
        r.limit == 1,
{
    CrawlArgs { url: monitor.url.clone(), depth: 0, limit: 1 }
}

/// The token of a callback. Without one no callback is made.
pub fn callback_token(ext_token: Option<&str>) -> (r: Result<&str, String>)
    ensures
        match (ext_token, r) {
            (Some(token), Ok(t)) => t@ == token@,
            (None, Err(e)) => e@ == "no RYU_EXT_TOKEN configured for Core callback"@,
            _ => false,
        },
{
    match ext_token {
        Some(token) => Ok(token),
        None => Err("no RYU_EXT_TOKEN configured for Core callback".to_string()),
    }
}

/// What a callback came to, given the answer and the JSON value in it: fine only on a 2xx answer,
/// else the `error` text of the value, or the code.
pub open spec fn callback_outcome(
    answer: Result<(u16, Seq<char>), Seq<char>>,
    value: Json,
) -> Result<(), Seq<char>> {
    match answer {
        Ok(got) => if crate::notify::success(got.0) {
            Ok(())
        } else {
            match value.text_member("error"@) {
                Some(e) => Err(e),
                None => Err("core callback failed: HTTP "@ + got.1),
            }
        },
        Err(e) => Err("core callback not reachable: "@ + e),
    }
}

/// Judge the answer to a callback.
pub fn judge_callback(answer: Result<HttpAnswer, String>, value: &Json) -> (r: Result<(), String>)
    ensures
        crate::text::told(r) == callback_outcome(crate::notify::answered(answer), *value),
{
    match answer {
        Ok(got) => if is_success(got.code) {
            Ok(())
        } else {
            match value.get_text("error") {
                Some(e) => Err(e.clone()),
                None => Err(
                    "core callback failed: HTTP ".to_string().concat(got.shown.as_str()),
                ),
            }
        },
        Err(e) => Err("core callback not reachable: ".to_string().concat(e.as_str())),
    }
}

/// The result of a tool call in the answer to a callback: what stands under `result`, or the whole
/// answer.
pub fn tool_result(answer: &Json) -> (r: &Json)
    ensures
        *r == match answer.member("result"@) {
            Some(inner) => inner,
            None => *answer,
        },
{
    match answer.get("result") {
        Some(inner) => inner,
        None => answer,
    }
}

} // verus!
