//! Time from the outside: the clock, and the RFC 3339 notation of instants.
//! Instants are milliseconds since the Unix epoch, UTC; digits finer than a
//! millisecond in a text are dropped, so two such times within one
//! millisecond compare equal.
use crate::model::opt_text;
use chrono::Datelike;
use vstd::prelude::*;

verus! {

/// The instant, if any, that an RFC 3339 text denotes (`1996-12-19T16:39:57-08:00`).
pub uninterp spec fn rfc3339_instant(s: Seq<char>) -> Option<i64>;

/// The RFC 3339 text of an instant, if the instant can be written as a date.
pub uninterp spec fn rfc3339_text(ms: i64) -> Option<Seq<char>>;

/// The first instant of the UTC calendar month holding `now`, if it can be written as a date.
pub uninterp spec fn month_start(now: i64) -> Option<i64>;

/// The first instant of the UTC calendar year holding `now`, if it can be written as a date.
pub uninterp spec fn year_start(now: i64) -> Option<i64>;

/// Relies on chrono's `From<SystemTime> for DateTime<Utc>` (which takes a
/// clock set before 1970 as a negative instant) and `DateTime::timestamp_millis`.
/// Nothing is promised of the instant: it is whatever the clock says.
#[verifier::external_body]
pub fn now_millis() -> i64 {
    chrono::DateTime::<chrono::Utc>::from(std::time::SystemTime::now()).timestamp_millis()
}

/// Relies on `chrono::DateTime::parse_from_rfc3339` to read the text, and on
/// `DateTime::timestamp_millis` to give the instant it denotes.
#[verifier::external_body]
pub fn parse_rfc3339(s: &str) -> (r: Option<i64>)
    ensures
        r == rfc3339_instant(s@),
{
    match chrono::DateTime::parse_from_rfc3339(s) {
        Ok(d) => Some(d.timestamp_millis()),
        Err(_) => None,
    }
}

/// Relies on `chrono::DateTime::<Utc>::from_timestamp_millis` (none when out
/// of range) and `DateTime::to_rfc3339` to write the instant.
#[verifier::external_body]
pub fn format_rfc3339(ms: i64) -> (r: Option<String>)
    ensures
        opt_text(r) == rfc3339_text(ms),
{
    match chrono::DateTime::<chrono::Utc>::from_timestamp_millis(ms) {
        Some(d) => Some(d.to_rfc3339()),
        None => None,
    }
}

/// Relies on chrono's UTC calendar (`from_timestamp_millis`, `year`, `month`,
/// `NaiveDate::from_ymd_opt`, `and_hms_opt`) for the first day of the month.
#[verifier::external_body]
pub fn month_start_millis(now: i64) -> (r: Option<i64>)
    ensures
        r == month_start(now),
{
    let d = chrono::DateTime::<chrono::Utc>::from_timestamp_millis(now)?;
    let first = chrono::NaiveDate::from_ymd_opt(d.year(), d.month(), 1)?;
    Some(first.and_hms_opt(0, 0, 0)?.and_utc().timestamp_millis())
}

/// Relies on chrono's UTC calendar (`from_timestamp_millis`, `year`,
/// `NaiveDate::from_ymd_opt`, `and_hms_opt`) for the first day of the year.
#[verifier::external_body]
pub fn year_start_millis(now: i64) -> (r: Option<i64>)
    ensures
        r == year_start(now),
{
    let d = chrono::DateTime::<chrono::Utc>::from_timestamp_millis(now)?;
    let first = chrono::NaiveDate::from_ymd_opt(d.year(), 1, 1)?;
    Some(first.and_hms_opt(0, 0, 0)?.and_utc().timestamp_millis())
}

} // verus!
