//! Spans of time in words, by the `chrono-humanize` crate.

use vstd::prelude::*;
use crate::math::clamp;

verus! {

/// The words that `chrono_humanize::HumanTime` finds for a span of
/// `milliseconds` from now, such as `in 5 hours`.
pub uninterp spec fn humanized(milliseconds: int) -> Seq<char>;

/// Makes a `chrono::Duration` of `milliseconds`, wraps it in
/// `chrono_humanize::HumanTime` and formats that. The words depend on the
/// number alone. `chrono::Duration::milliseconds` panics on the smallest
/// 64-bit number, which is ruled out.
#[verifier::external_body]
fn humanize_milliseconds(milliseconds: i64) -> (words: String)
    requires
        milliseconds > i64::MIN,
    ensures
        words@ == humanized(milliseconds as int),
{
    format!("{}", chrono_humanize::HumanTime::from(chrono::Duration::milliseconds(milliseconds)))
}

/// When a member who has `time_left` milliseconds to wait can act again,
/// in words. A wait beyond 64 bits is told as the longest that fits.
pub fn wait_in_words(time_left: u128) -> (words: String)
    ensures
        words@ == humanized(clamp(time_left as int, 0, i64::MAX as int)),
{
    if time_left > i64::MAX as u128 {
        humanize_milliseconds(i64::MAX)
    } else {
        humanize_milliseconds(time_left as i64)
    }
}

} // verus!
