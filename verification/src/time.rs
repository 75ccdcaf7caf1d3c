//! Trusted boundary to chrono: parsing RFC 3339 timestamp strings to UTC
//! epoch seconds, formatting epoch seconds for display, and reading the
//! wall clock.

use vstd::prelude::*;

verus! {

/// The UTC epoch seconds denoted by an RFC 3339 timestamp string, or
/// `None` where the string is not a valid RFC 3339 timestamp. The result
/// is a function of the string alone.
pub uninterp spec fn rfc3339_utc_secs(s: Seq<char>) -> Option<i64>;

/// The canonical textual form chrono gives a UTC timestamp, for example
/// `"2015-05-15 00:00:00 UTC"`. The result is a function of the epoch
/// seconds alone.
pub uninterp spec fn utc_display(secs: i64) -> Seq<char>;

/// The least UTC epoch second an RFC 3339 string can denote: year 0000
/// shifted by the largest permitted offset, `+23:59`.
pub const RFC3339_MIN_SECS: i64 = -62167305540;

/// The greatest UTC epoch second an RFC 3339 string can denote: the leap
/// second closing year 9999, shifted by the offset `-23:59`.
pub const RFC3339_MAX_SECS: i64 = 253402387140;

/// Relies on chrono's `DateTime::parse_from_rfc3339` and
/// `DateTime::timestamp`: the parse accepts exactly the RFC 3339 grammar
/// and its result depends on the string alone; a parsed timestamp carries
/// a four-digit year and an offset within a day, so its epoch seconds lie
/// in the bounded range stated here.
#[verifier::external_body]
pub(crate) fn parse_rfc3339_utc(s: &str) -> (r: Option<i64>)
    ensures
        r == rfc3339_utc_secs(s@),
        r matches Some(t) ==> RFC3339_MIN_SECS <= t <= RFC3339_MAX_SECS,
{
    chrono::DateTime::parse_from_rfc3339(s).ok().map(|dt| dt.timestamp())
}

/// Relies on chrono's `DateTime::from_timestamp` and the `Display` of
/// `DateTime<Utc>`: within the stated range `from_timestamp` always
/// returns a value, and its display depends on the epoch seconds alone.
#[verifier::external_body]
pub(crate) fn format_utc(secs: i64) -> (r: String)
    requires
        RFC3339_MIN_SECS <= secs <= RFC3339_MAX_SECS,
    ensures
        r@ == utc_display(secs),
{
    chrono::DateTime::from_timestamp(secs, 0).map(|dt| dt.to_string()).unwrap_or_default()
}

/// Relies on chrono's `Utc::now` and `DateTime::timestamp`: the current
/// wall-clock time as epoch seconds. Nothing is promised of the value.
#[verifier::external_body]
pub(crate) fn now_epoch_secs() -> i64 {
    chrono::Utc::now().timestamp()
}

} // verus!
