//! Trusted boundary to the wall clock and to calendar arithmetic. Everything
//! the pipeline's decisions need from time is obtained here as plain values;
//! the decisions themselves are verified functions of those values.
use vstd::prelude::*;

use crate::staleness::TIMESTAMP_BOUND;
use chrono::Datelike;

verus! {

/// A calendar day in UTC, with the moment it was observed. `day_key` is the
/// integer YYYYMMDD used to key one time-series row per channel and day.
pub struct DayStamp {
    pub year: i32,
    pub month: u32,
    pub day: u32,
    pub epoch_millis: i64,
    pub day_key: i32,
}

/// Relies on chrono::Utc::now and the Datelike accessors: the current UTC
/// calendar day. chrono documents month() in 1..=12 and day() in 1..=31, and
/// keeps dates within years ±262000 or so, which bounds the milliseconds; the
/// YYYYMMDD key is formatted and re-parsed, and 0 stands in if the parse fails.
#[verifier::external_body]
fn current_day_utc() -> (stamp: DayStamp)
    ensures
        1 <= stamp.month <= 12,
        1 <= stamp.day <= 31,
        -TIMESTAMP_BOUND <= stamp.epoch_millis <= TIMESTAMP_BOUND,
{
    let now = chrono::Utc::now();
    DayStamp {
        year: now.year(),
        month: now.month(),
        day: now.day(),
        epoch_millis: now.timestamp_millis(),
        day_key: now.format("%Y%m%d").to_string().parse::<i32>().unwrap_or(0),
    }
}

/// Relies on chrono::Utc::now: the current time as seconds since the epoch.
/// chrono keeps dates within years ±262000 or so, which bounds the result.
#[verifier::external_body]
fn current_epoch_seconds() -> (now: i64)
    ensures
        -TIMESTAMP_BOUND <= now <= TIMESTAMP_BOUND,
{
    chrono::Utc::now().timestamp()
}

/// Relies on chrono::Utc::now and chrono_tz::US::Pacific: the current calendar
/// day in the platform's quota-reset timezone, as the integer YYYYMMDD. The
/// key is formatted and re-parsed as the backing store keeps it; 0 stands in
/// if the parse fails.
#[verifier::external_body]
pub(crate) fn current_pacific_day() -> (day_key: i32) {
    let pacific_now = chrono::Utc::now().with_timezone(&chrono_tz::US::Pacific);
    pacific_now.format("%Y%m%d").to_string().parse::<i32>().unwrap_or(0)
}

/// The epoch-second timestamp of an RFC 3339 date-time string; `None` exactly
/// for strings that are not valid RFC 3339. The timestamp depends on the
/// string alone.
pub uninterp spec fn rfc3339_epoch_seconds(s: Seq<char>) -> Option<i64>;

/// Relies on chrono::DateTime::parse_from_rfc3339 and DateTime::timestamp:
/// which strings parse, and to what timestamp, depends on the characters
/// alone; RFC 3339 fixes a four-digit year, so the timestamp stays within
/// chrono's supported range.
#[verifier::external_body]
pub fn parse_rfc3339_epoch_seconds(s: &str) -> (parsed: Option<i64>)
    ensures
        parsed == rfc3339_epoch_seconds(s@),
        parsed is Some ==> -TIMESTAMP_BOUND <= parsed.unwrap() <= TIMESTAMP_BOUND,
{
    match chrono::DateTime::parse_from_rfc3339(s) {
        Ok(moment) => Some(moment.timestamp()),
        Err(_) => None,
    }
}

/// The moment a crawl or scrape runs at: the current time as epoch seconds,
/// with the current UTC calendar day. Whatever the clock reads, the time fits
/// the bound every decision asks for, and the day is a calendar day.
pub fn now_and_today() -> (moment: (i64, DayStamp))
    ensures
        -TIMESTAMP_BOUND <= moment.0 <= TIMESTAMP_BOUND,
        1 <= moment.1.month <= 12,
        1 <= moment.1.day <= 31,
        -TIMESTAMP_BOUND <= moment.1.epoch_millis <= TIMESTAMP_BOUND,
{
    (current_epoch_seconds(), current_day_utc())
}

} // verus!
