//! Calendar text of an instant given in seconds since the Unix epoch.

use vstd::prelude::*;

verus! {

/// The text `YYYY-MM-DD HH:MM:SS` of the UTC date and time that lies `secs`
/// seconds after the Unix epoch, or `None` for an instant outside the range
/// of the calendar.
pub uninterp spec fn timestamp_text(secs: int) -> Option<Seq<char>>;

/// Calls `chrono::DateTime::from_timestamp` with `secs` and no nanoseconds,
/// and writes the instant it returns with `DateTime::format` and the pattern
/// `%Y-%m-%d %H:%M:%S`. Trusted: the outcome is a function of `secs` alone,
/// `None` exactly where `from_timestamp` returns `None`.
#[verifier::external_body]
pub(crate) fn format_timestamp(secs: i64) -> (r: Option<String>)
    ensures
        r.is_some() == timestamp_text(secs as int).is_some(),
        r matches Some(text) ==> timestamp_text(secs as int) == Some(text@),
{
    match chrono::DateTime::from_timestamp(secs, 0) {
        Some(instant) => Some(instant.format("%Y-%m-%d %H:%M:%S").to_string()),
        None => None,
    }
}

} // verus!
