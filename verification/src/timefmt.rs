//! Rendering of timestamps as `YYYY-MM-DD HH:MM UTC`, computed by the `chrono` crate.
use chrono::TimeZone;
use vstd::prelude::*;

verus! {

/// What `chrono` renders with `%Y-%m-%d %H:%M UTC` for the RFC 3339 text `s`, if it parses.
pub uninterp spec fn rfc3339_minute_text(s: Seq<char>) -> Option<Seq<char>>;

/// What `chrono` renders with `%Y-%m-%d %H:%M UTC` for `Utc.timestamp_opt(secs, 0)`, when that
/// is a single time.
pub uninterp spec fn utc_timestamp_opt_text(secs: int) -> Option<Seq<char>>;

/// What `chrono` renders with `%Y-%m-%d %H:%M UTC` for `DateTime::from_timestamp(secs, 0)`,
/// when that is in range.
pub uninterp spec fn utc_from_timestamp_text(secs: int) -> Option<Seq<char>>;

/// Calls `chrono::DateTime::parse_from_rfc3339` and formats the result with
/// `%Y-%m-%d %H:%M UTC` (in the offset the text carries). Claimed: the result is
/// `rfc3339_minute_text(s)`, `None` when parsing fails.
#[verifier::external_body]
pub(crate) fn rfc3339_minute(s: &str) -> (r: Option<String>)
    ensures
        r matches Some(t) ==> rfc3339_minute_text(s@) == Some(t@),
        r is None ==> rfc3339_minute_text(s@) is None,
{
    match chrono::DateTime::parse_from_rfc3339(s) {
        Ok(dt) => Some(dt.format("%Y-%m-%d %H:%M UTC").to_string()),
        Err(_) => None,
    }
}

/// Calls `chrono::Utc.timestamp_opt(secs, 0)` and formats a single result with
/// `%Y-%m-%d %H:%M UTC`. Claimed: the result is `utc_timestamp_opt_text(secs)`, `None` when
/// chrono gives no single time.
#[verifier::external_body]
pub(crate) fn utc_timestamp_opt_minute(secs: i64) -> (r: Option<String>)
    ensures
        r matches Some(t) ==> utc_timestamp_opt_text(secs as int) == Some(t@),
        r is None ==> utc_timestamp_opt_text(secs as int) is None,
{
    match chrono::Utc.timestamp_opt(secs, 0) {
        chrono::LocalResult::Single(dt) => Some(dt.format("%Y-%m-%d %H:%M UTC").to_string()),
        _ => None,
    }
}

/// Calls `chrono::DateTime::from_timestamp(secs, 0)` and formats the result with
/// `%Y-%m-%d %H:%M UTC`. Claimed: the result is `utc_from_timestamp_text(secs)`, `None` when
/// the time is out of range.
#[verifier::external_body]
pub(crate) fn utc_from_timestamp_minute(secs: i64) -> (r: Option<String>)
    ensures
        r matches Some(t) ==> utc_from_timestamp_text(secs as int) == Some(t@),
        r is None ==> utc_from_timestamp_text(secs as int) is None,
{
    match chrono::DateTime::from_timestamp(secs, 0) {
        Some(dt) => Some(dt.format("%Y-%m-%d %H:%M UTC").to_string()),
        None => None,
    }
}

} // verus!
