//! Whether a video counts as a short clip, from its ISO-8601 duration.

use iso8601_duration::Duration as IsoDuration;
use std::time::Duration as StdDuration;
use vstd::prelude::*;

verus! {

/// The whole seconds of the ISO-8601 duration written in `s`, or `None`
/// where `s` is no such duration or its length is not a count of seconds.
pub uninterp spec fn iso_whole_secs(s: Seq<char>) -> Option<u64>;

/// Relies on iso8601_duration's `Duration::parse` and `Duration::num_seconds`
/// to read the duration and count its seconds (`None` for a parse error or a
/// duration with years or months), and on std's `Duration::try_from_secs_f32`
/// and `as_secs` to turn that count into whole seconds (`None` where it is
/// negative or too large). Parsing needs a leading `P`, so the empty text
/// is refused.
#[verifier::external_body]
fn iso_duration_secs(s: &str) -> (r: Option<u64>)
    ensures
        r == iso_whole_secs(s@),
        s@.len() == 0 ==> r is None,
{
    let d = IsoDuration::parse(s).ok()?;
    let secs = d.num_seconds()?;
    StdDuration::try_from_secs_f32(secs).ok().map(|t| t.as_secs())
}

/// The length above which a video is no short clip, in seconds.
pub const SHORT_CLIP_SECS: u64 = 60;

/// Whether a video that lasts `secs` whole seconds is longer than a minute.
pub open spec fn longer_than_minute(secs: u64) -> bool {
    secs > SHORT_CLIP_SECS
}

/// Whether the duration written in `s` is longer than a minute; `None`
/// where `s` cannot be read as a number of seconds.
pub open spec fn duration_longer_than_minute(s: Seq<char>) -> Option<bool> {
    match iso_whole_secs(s) {
        Some(secs) => Some(longer_than_minute(secs)),
        None => None,
    }
}

/// Whether `secs` whole seconds are more than a minute.
pub fn exceeds_one_minute(secs: u64) -> (r: bool)
    ensures
        r == longer_than_minute(secs),
{
    secs > SHORT_CLIP_SECS
}

/// Whether the ISO-8601 duration `duration_str` (such as `PT1M30S`) is
/// longer than a minute, counting whole seconds; `None` where it cannot be
/// read.
pub fn is_greater_than_one_minute(duration_str: &str) -> (r: Option<bool>)
    ensures
        r == duration_longer_than_minute(duration_str@),
{
    match iso_duration_secs(duration_str) {
        Some(secs) => Some(exceeds_one_minute(secs)),
        None => None,
    }
}

} // verus!
