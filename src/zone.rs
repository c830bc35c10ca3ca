use chrono::{Datelike, NaiveDate, NaiveTime, Offset, TimeZone};
use chrono_tz::Tz;
use vstd::prelude::*;

verus! {

/// Largest distance from the Unix epoch, in seconds, of an instant handed to
/// the time-zone database (inside chrono's range of years).
pub const ZONE_SPAN: i64 = 8_000_000_000_000;

/// Largest distance from 1970-01-01, in days, of a day handed to chrono.
pub const DAY_SPAN: i64 = 90_000_000;

pub open spec fn in_zone_span(t: int) -> bool {
    -ZONE_SPAN <= t <= ZONE_SPAN
}

pub open spec fn in_day_span(day: int) -> bool {
    -DAY_SPAN <= day <= DAY_SPAN
}

/// Proleptic Gregorian calendar: shifting the day count to start on
/// 0000-03-01 makes each 400-year era 146097 days long.
pub open spec fn civil_day_of_era(day: int) -> int {
    (day + 719468) % 146097
}

pub open spec fn civil_year_of_era(day: int) -> int {
    let doe = civil_day_of_era(day);
    (doe - doe / 1460 + doe / 36524 - doe / 146096) / 365
}

/// Day within the year that starts on March 1st: 0 to 365.
pub open spec fn civil_day_of_year(day: int) -> int {
    let doe = civil_day_of_era(day);
    let yoe = civil_year_of_era(day);
    doe - (365 * yoe + yoe / 4 - yoe / 100)
}

/// Month counted from March: 0 to 11.
pub open spec fn civil_shifted_month(day: int) -> int {
    (5 * civil_day_of_year(day) + 2) / 153
}

/// Month of day `day` (counted from 1970-01-01): 1 to 12.
pub open spec fn civil_month(day: int) -> int {
    let mp = civil_shifted_month(day);
    if mp < 10 { mp + 3 } else { mp - 9 }
}

/// Day of the month of day `day`: 1 to 31.
pub open spec fn civil_day_of_month(day: int) -> int {
    civil_day_of_year(day) - (153 * civil_shifted_month(day) + 2) / 5 + 1
}

/// Year of day `day`.
pub open spec fn civil_year(day: int) -> int {
    let era = (day + 719468) / 146097;
    civil_year_of_era(day) + era * 400 + if civil_month(day) <= 2 { 1int } else { 0int }
}

/// What chrono writes for the wall-clock reading `day`, `second` under a
/// strftime pattern.
pub uninterp spec fn strftime_text(day: int, second: int, pattern: Seq<char>) -> Seq<char>;

/// The strftime patterns that the messages use.
pub open spec fn known_pattern(pattern: Seq<char>) -> bool {
    pattern == "%A, %B %d, %Y"@ || pattern == "%I:%M %p"@ || pattern == "%A"@ || pattern
        == "%A, %B %d"@
}

/// The IANA zone names that the time-zone database knows.
pub uninterp spec fn known_zone(name: Seq<char>) -> bool;

/// The offset from UTC, in seconds, of zone `zone`'s clock at instant `utc`.
pub uninterp spec fn zone_offset(zone: Seq<char>, utc: int) -> int;

/// The offset of the earliest instant at which zone `zone`'s clock reads
/// `day`, `second`; `None` where the clock skips that reading.
pub uninterp spec fn local_offset(zone: Seq<char>, day: int, second: int) -> Option<int>;

/// Relies on chrono-tz's `Tz::from_str`: whether the database holds a zone of
/// that exact name.
#[verifier::external_body]
pub(crate) fn is_zone_name(name: &str) -> (r: bool)
    ensures
        r == known_zone(name@),
{
    name.parse::<Tz>().is_ok()
}

/// Relies on chrono-tz's `US::Eastern` and `Tz::name`: the zone is named
/// `US/Eastern`, a name that the database holds.
#[verifier::external_body]
pub(crate) fn eastern_zone_name() -> (r: String)
    ensures
        r@ == "US/Eastern"@,
        known_zone(r@),
{
    chrono_tz::US::Eastern.name().to_string()
}

/// Relies on chrono-tz's `TimeZone::offset_from_utc_datetime` and
/// `FixedOffset::local_minus_utc`: the zone's offset from UTC at instant
/// `utc`, which a `FixedOffset` keeps strictly within one day.
#[verifier::external_body]
pub(crate) fn utc_offset_at(zone: &str, utc: i64) -> (r: i32)
    requires
        known_zone(zone@),
        in_zone_span(utc as int),
    ensures
        r == zone_offset(zone@, utc as int),
        -86400 < r < 86400,
{
    let tz: Tz = zone.parse().unwrap();
    let t = chrono::DateTime::from_timestamp(utc, 0).unwrap().naive_utc();
    tz.offset_from_utc_datetime(&t).fix().local_minus_utc()
}

/// Relies on chrono-tz's `TimeZone::offset_from_local_datetime` and
/// `LocalResult::earliest`: the offset of the earliest instant at which the
/// zone's clock reads `day`, `second`; `None` where that reading falls in a gap.
#[verifier::external_body]
pub(crate) fn local_offset_at(zone: &str, day: i64, second: u32) -> (r: Option<i32>)
    requires
        known_zone(zone@),
        in_day_span(day as int),
        second < 86400,
    ensures
        match r {
            Some(o) => local_offset(zone@, day as int, second as int) == Some(o as int) && -86400
                < o < 86400,
            None => local_offset(zone@, day as int, second as int) is None,
        },
{
    let tz: Tz = zone.parse().unwrap();
    let date = NaiveDate::from_epoch_days(day as i32).unwrap();
    let time = NaiveTime::from_num_seconds_from_midnight_opt(second, 0).unwrap();
    match tz.offset_from_local_datetime(&date.and_time(time)).earliest() {
        Some(o) => Some(o.fix().local_minus_utc()),
        None => None,
    }
}

/// Relies on chrono's `NaiveDate::from_epoch_days` with `Datelike`: the
/// Gregorian year, month and day of day `day` counted from 1970-01-01.
#[verifier::external_body]
pub(crate) fn civil_date(day: i64) -> (r: (i32, u32, u32))
    requires
        in_day_span(day as int),
    ensures
        r.0 == civil_year(day as int),
        r.1 == civil_month(day as int),
        r.2 == civil_day_of_month(day as int),
{
    let date = NaiveDate::from_epoch_days(day as i32).unwrap();
    (date.year(), date.month(), date.day())
}

/// Relies on chrono's `NaiveDateTime::format`: the reading `day`, `second`
/// written under a strftime pattern.
#[verifier::external_body]
pub(crate) fn strftime(day: i64, second: u32, pattern: &str) -> (r: String)
    requires
        in_day_span(day as int),
        second < 86400,
        known_pattern(pattern@),
    ensures
        r@ == strftime_text(day as int, second as int, pattern@),
{
    let date = NaiveDate::from_epoch_days(day as i32).unwrap();
    let time = NaiveTime::from_num_seconds_from_midnight_opt(second, 0).unwrap();
    date.and_time(time).format(pattern).to_string()
}

} // verus!
