//! RFC 3339 text of timestamps, through the `time` crate.

use crate::domain::Timestamp;
use vstd::prelude::*;

verus! {

/// The RFC 3339 text the `time` crate writes for the instant `unix_nanos` seen at the
/// UTC offset `offset_seconds`; `None` when the crate cannot represent or format it.
pub uninterp spec fn spec_rfc3339(unix_nanos: i128, offset_seconds: i32) -> Option<Seq<char>>;

/// `OffsetDateTime::from_unix_timestamp_nanos`, moved to the offset of the timestamp
/// with `checked_to_offset`, then `format(&Rfc3339)`.
#[verifier::external_body]
pub(crate) fn format_rfc3339(timestamp: Timestamp) -> (text: Option<String>)
    ensures
        text is Some <==> spec_rfc3339(timestamp.unix_nanos, timestamp.offset_seconds) is Some,
        text is Some ==> text->0@ == spec_rfc3339(timestamp.unix_nanos, timestamp.offset_seconds)->0,
{
    let utc = match time::OffsetDateTime::from_unix_timestamp_nanos(timestamp.unix_nanos) {
        Ok(value) => value,
        Err(_) => return None,
    };
    let offset = match time::UtcOffset::from_whole_seconds(timestamp.offset_seconds) {
        Ok(value) => value,
        Err(_) => return None,
    };
    match utc.checked_to_offset(offset) {
        Some(local) => local.format(&time::format_description::well_known::Rfc3339).ok(),
        None => None,
    }
}

/// `OffsetDateTime::now_utc()`: the current time, seen at the UTC offset. The instant
/// depends on the clock and is left free; the offset is zero.
#[verifier::external_body]
pub(crate) fn now_utc() -> (now: Timestamp)
    ensures
        now.offset_seconds == 0,
{
    let now = time::OffsetDateTime::now_utc();
    Timestamp { unix_nanos: now.unix_timestamp_nanos(), offset_seconds: now.offset().whole_seconds() }
}

} // verus!
