//! Client sentiment and repeat-dealing requests.

use vstd::prelude::*;

use crate::models::common::Epic;
use crate::paths::prefixed;
use crate::text::{chars_of, join, push_all, string_of, strs_model};

verus! {

/// `clientsentiment/{market_id}`.
pub fn sentiment_path(market_id: &str) -> (r: String)
    ensures
        r@ == "clientsentiment/"@ + market_id@,
{
    prefixed("clientsentiment/", market_id)
}

/// `clientsentiment/related/{market_id}`.
pub fn related_sentiment_path(market_id: &str) -> (r: String)
    ensures
        r@ == "clientsentiment/related/"@ + market_id@,
{
    prefixed("clientsentiment/related/", market_id)
}

/// `clientsentiment?marketIds=A,B,…`.
pub fn sentiments_path(market_ids: &[&str]) -> (r: String)
    ensures
        r@ == "clientsentiment?marketIds="@ + join(strs_model(market_ids@), ","@),
{
    let ids = crate::text::join_strs(market_ids, &chars_of(","));
    let mut out = chars_of("clientsentiment?marketIds=");
    push_all(&mut out, &ids);
    string_of(&out)
}

/// `repeat-dealing-window?epic={epic}`.
pub fn repeat_dealing_window_path(epic: &Epic) -> (r: String)
    ensures
        r@ == "repeat-dealing-window?epic="@ + epic.0@,
{
    prefixed("repeat-dealing-window?epic=", epic.0.as_str())
}

/// How many times a repeat-dealing window request is made.
pub const WINDOW_ATTEMPTS: u32 = 5;

/// Whether a failed window request `attempt` (1-based) is followed by a
/// pause and another attempt.
pub fn window_retry(attempt: u32) -> (r: bool)
    ensures
        r == (attempt < WINDOW_ATTEMPTS),
{
    attempt < WINDOW_ATTEMPTS
}

} // verus!
