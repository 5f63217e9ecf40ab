//! What the calendar and cron crates compute for the scheduler: parsing of
//! instants, lookup of time zones, and the occurrences of a cron expression.
//!
//! Each function here makes one outside computation. Its contract is believed,
//! not proved; where the outcome takes pages to state, the contract gives it a
//! name and the callers speak of that name.

use std::fmt::Write;
use std::str::FromStr;
use vstd::prelude::*;
use crate::scheduler::time::Timestamp;

verus! {

/// The error of the `cron` crate's expression parser.
#[verifier::external_type_specification]
#[verifier::external_body]
pub struct ExCronError(cron::error::Error);

/// The error of `chrono`'s parsers.
#[verifier::external_type_specification]
#[verifier::external_body]
pub struct ExChronoParseError(chrono::ParseError);

/// The error of `chrono_tz`'s zone lookup.
#[verifier::external_type_specification]
#[verifier::external_body]
pub struct ExZoneParseError(chrono_tz::ParseError);

/// Whether `cron::Schedule::from_str` accepts `expression`.
pub uninterp spec fn cron_accepts(expression: Seq<char>) -> bool;

/// Whether `chrono_tz::Tz::from_str` knows a zone called `name`.
pub uninterp spec fn zone_known(name: Seq<char>) -> bool;

/// The first `limit` instants that the iterator `cron::Schedule::after` yields
/// for `expression`, read in the zone `zone`, when started at `after`. Empty
/// where the expression or the zone is not accepted.
pub uninterp spec fn cron_occurrences(
    expression: Seq<char>,
    zone: Seq<char>,
    after: Timestamp,
    limit: nat,
) -> Seq<Timestamp>;

/// Whether `cron::Schedule::includes` holds of `expression` at the instant
/// `at`, read in the zone `zone`. False where the expression or the zone is
/// not accepted.
pub uninterp spec fn cron_includes(expression: Seq<char>, zone: Seq<char>, at: Timestamp) -> bool;

/// The instant that `chrono::DateTime::parse_from_rfc3339` reads from `text`.
pub uninterp spec fn rfc3339_instant(text: Seq<char>) -> Option<Timestamp>;

/// The instant that `chrono::NaiveDateTime::parse_from_str` reads from `text`
/// under the format `pattern`, taken as UTC.
pub uninterp spec fn pattern_instant(text: Seq<char>, pattern: Seq<char>) -> Option<Timestamp>;

/// The time of day that `chrono::NaiveTime::parse_from_str` reads from `text`
/// under the format `pattern`: seconds since midnight and nanoseconds.
pub uninterp spec fn pattern_time_of_day(text: Seq<char>, pattern: Seq<char>) -> Option<(u32, u32)>;

/// The text that `chrono` writes for the instant `at` under the format
/// `pattern`, or `None` where it rejects the instant or the pattern.
pub uninterp spec fn pattern_text(at: Timestamp, pattern: Seq<char>) -> Option<Seq<char>>;

/// Calls `cron::Schedule::from_str` and drops the schedule. Succeeds exactly
/// where the crate accepts the expression.
#[verifier::external_body]
pub(crate) fn cron_check(expression: &str) -> (r: Result<(), cron::error::Error>)
    ensures
        r is Ok <==> cron_accepts(expression@),
{
    match cron::Schedule::from_str(expression) {
        Ok(_) => Ok(()),
        Err(e) => Err(e),
    }
}

/// The message of a `cron` error, as its `Display` writes it.
#[verifier::external_body]
pub(crate) fn cron_error_text(error: &cron::error::Error) -> (text: String) {
    error.to_string()
}

/// Calls `chrono_tz::Tz::from_str` and drops the zone. Succeeds exactly where
/// the crate knows the name.
#[verifier::external_body]
pub(crate) fn zone_check(name: &str) -> (r: Result<(), chrono_tz::ParseError>)
    ensures
        r is Ok <==> zone_known(name@),
{
    match chrono_tz::Tz::from_str(name) {
        Ok(_) => Ok(()),
        Err(e) => Err(e),
    }
}

/// The message of a zone lookup error, as its `Display` writes it.
#[verifier::external_body]
pub(crate) fn zone_error_text(error: &chrono_tz::ParseError) -> (text: String) {
    error.to_string()
}

/// Walks `cron::Schedule::after` from `after`, in the zone `zone`, and
/// collects at most `limit` instants. The crate adds one second to `after`
/// before it searches, which chrono refuses at the end of its range; the
/// four-digit years keep clear of that.
#[verifier::external_body]
pub(crate) fn cron_upcoming(expression: &str, zone: &str, after: Timestamp, limit: usize) -> (found:
    Vec<Timestamp>)
    requires
        after.in_calendar(),
    ensures
        found@ == cron_occurrences(expression@, zone@, after, limit as nat),
        found@.len() <= limit,
{
    let (Ok(schedule), Ok(tz)) = (cron::Schedule::from_str(expression), chrono_tz::Tz::from_str(zone))
    else {
        return Vec::new();
    };
    let Some(start) = chrono::DateTime::from_timestamp(after.secs, after.nanos) else {
        return Vec::new();
    };
    schedule.after(&start.with_timezone(&tz)).take(limit).map(
        |d| Timestamp { secs: d.timestamp(), nanos: d.timestamp_subsec_nanos() },
    ).collect()
}

/// Asks `cron::Schedule::includes` whether the expression, read in the zone
/// `zone`, holds of the instant `at`.
#[verifier::external_body]
pub(crate) fn cron_matches(expression: &str, zone: &str, at: Timestamp) -> (hit: bool)
    ensures
        hit == cron_includes(expression@, zone@, at),
{
    let (Ok(schedule), Ok(tz)) = (cron::Schedule::from_str(expression), chrono_tz::Tz::from_str(zone))
    else {
        return false;
    };
    let Some(moment) = chrono::DateTime::from_timestamp(at.secs, at.nanos) else {
        return false;
    };
    schedule.includes(moment.with_timezone(&tz))
}

/// Calls `chrono::DateTime::parse_from_rfc3339` and gives the instant as
/// seconds and nanoseconds of UTC.
#[verifier::external_body]
pub(crate) fn parse_rfc3339(text: &str) -> (r: Result<Timestamp, chrono::ParseError>)
    ensures
        r is Ok <==> rfc3339_instant(text@) is Some,
        r matches Ok(t) ==> rfc3339_instant(text@) == Some(t),
{
    match chrono::DateTime::parse_from_rfc3339(text) {
        Ok(d) => Ok(Timestamp { secs: d.timestamp(), nanos: d.timestamp_subsec_nanos() }),
        Err(e) => Err(e),
    }
}

/// The message of a `chrono` parse error, as its `Display` writes it.
#[verifier::external_body]
pub(crate) fn chrono_error_text(error: &chrono::ParseError) -> (text: String) {
    error.to_string()
}

/// Calls `chrono::NaiveDateTime::parse_from_str` and reads the result as UTC.
#[verifier::external_body]
pub(crate) fn parse_with_pattern(text: &str, pattern: &str) -> (r: Option<Timestamp>)
    ensures
        r == pattern_instant(text@, pattern@),
{
    match chrono::NaiveDateTime::parse_from_str(text, pattern) {
        Ok(d) => Some(
            Timestamp { secs: d.and_utc().timestamp(), nanos: d.and_utc().timestamp_subsec_nanos() },
        ),
        Err(_) => None,
    }
}

/// Calls `chrono::NaiveTime::parse_from_str`. A time of day has fewer than
/// 86400 seconds since midnight; a leap second shows in the nanoseconds.
#[verifier::external_body]
pub(crate) fn parse_time_of_day(text: &str, pattern: &str) -> (r: Option<(u32, u32)>)
    ensures
        r == pattern_time_of_day(text@, pattern@),
        r matches Some(t) ==> t.0 < 86_400,
{
    match chrono::NaiveTime::parse_from_str(text, pattern) {
        Ok(t) => Some((chrono::Timelike::num_seconds_from_midnight(&t), chrono::Timelike::nanosecond(&t))),
        Err(_) => None,
    }
}

/// Writes the instant with `chrono`'s `format`. `None` where chrono cannot
/// hold the instant or rejects the pattern.
#[verifier::external_body]
pub(crate) fn format_with_pattern(at: Timestamp, pattern: &str) -> (r: Option<String>)
    ensures
        r is Some <==> pattern_text(at, pattern@) is Some,
        r matches Some(s) ==> pattern_text(at, pattern@) == Some(s@),
{
    let moment = chrono::DateTime::from_timestamp(at.secs, at.nanos)?;
    let mut out = String::new();
    match write!(out, "{}", moment.format(pattern)) {
        Ok(_) => Some(out),
        Err(_) => None,
    }
}

/// A fresh random identifier from `uuid::Uuid::new_v4`, in the hyphenated
/// form of 36 characters that its `Display` writes.
#[verifier::external_body]
pub(crate) fn fresh_identifier() -> (id: String)
    ensures
        id@.len() == 36,
{
    uuid::Uuid::new_v4().to_string()
}

} // verus!
