//! The calendar and the time-zone database, as far as this library needs
//! them. Days, seconds and offsets cross this boundary as plain integers.
//!
//! Everything in this module that carries `external_body` is believed, not
//! proved: each such function makes one call into `chrono` or `chrono_tz` and
//! its contract names the result.

use chrono::{
    DateTime, Datelike, FixedOffset, LocalResult, NaiveDate, NaiveTime, Offset, TimeZone, Timelike,
};
use chrono_tz::Tz;
use std::str::FromStr;
use vstd::prelude::*;

verus! {

/// Seconds in one calendar day.
pub const SECONDS_PER_DAY: i64 = 86_400;

/// Nanoseconds in one second.
pub const NANOS_PER_SECOND: i64 = 1_000_000_000;

/// Day number of 1970-01-01 when 0001-01-01 is day 1.
pub const UNIX_EPOCH_DAY: i64 = 719_163;

/// A wall-clock reading without a zone: the calendar day, counted so that
/// 0001-01-01 is day 1, the second within that day and the nanosecond within
/// that second. A reading within a leap second counts its nanoseconds on
/// from those of the second before, up to two thousand million.
#[derive(Clone, Copy, Debug, PartialEq, Eq, Structural)]
pub struct LocalDateTime {
    pub day: i32,
    pub second: u32,
    pub nano: u32,
}

impl LocalDateTime {
    /// The second lies within the day, and the nanosecond within the second
    /// or, for a reading within a leap second, within the second after it.
    pub open spec fn wf(self) -> bool {
        self.second < SECONDS_PER_DAY && self.nano < 2 * NANOS_PER_SECOND
    }

    /// The reading is within a leap second.
    pub open spec fn in_leap_second(self) -> bool {
        self.nano >= NANOS_PER_SECOND
    }

    /// This time of day comes strictly before the other's, whatever the days.
    pub open spec fn earlier_in_day(self, other: LocalDateTime) -> bool {
        self.second < other.second || (self.second == other.second && self.nano < other.nano)
    }

    /// Whether this time of day comes strictly before the other's, whatever
    /// the days.
    pub fn is_earlier_in_day(&self, other: &LocalDateTime) -> (b: bool)
        ensures
            b == self.earlier_in_day(*other),
    {
        self.second < other.second || (self.second == other.second && self.nano < other.nano)
    }
}

/// What a wall-clock reading means in a zone: nothing (the clocks skipped it),
/// one UTC offset, or two (the clocks showed it twice). Offsets are seconds
/// east of UTC.
#[derive(Clone, Copy, Debug, PartialEq, Eq, Structural)]
pub enum LocalOffset {
    Unresolved,
    Single(i32),
    Ambiguous(i32, i32),
}

/// Day of the week.
#[derive(Clone, Copy, Debug, PartialEq, Eq, Structural)]
pub enum Weekday {
    Mon,
    Tue,
    Wed,
    Thu,
    Fri,
    Sat,
    Sun,
}

impl Weekday {
    /// Saturday or Sunday.
    pub open spec fn weekend(self) -> bool {
        self == Weekday::Sat || self == Weekday::Sun
    }

    /// Whether the day is a Saturday or a Sunday.
    pub fn is_weekend(self) -> (b: bool)
        ensures
            b == self.weekend(),
    {
        match self {
            Weekday::Sat => true,
            Weekday::Sun => true,
            _ => false,
        }
    }
}

/// The wall-clock reading that `chrono::DateTime::parse_from_rfc3339`
/// gives for a text, or the words with which it turns the text down.
pub uninterp spec fn rfc3339_reading(text: Seq<char>) -> Result<LocalDateTime, Seq<char>>;

/// The text that `chrono::DateTime::to_rfc3339` writes for a wall-clock
/// reading at a UTC offset, where `chrono` can hold the two together.
pub uninterp spec fn rfc3339_text(day: int, second: int, nano: int, offset: int) -> Option<
    Seq<char>,
>;

/// The day number of the date that `chrono::NaiveDate::parse_from_str` reads
/// from a text under the format `%Y-%m-%d`, if it accepts the text.
pub uninterp spec fn date_reading(text: Seq<char>) -> Option<i32>;

/// The words with which `chrono_tz::Tz` turns a name down, if it knows no
/// zone of that name.
pub uninterp spec fn zone_failure(name: Seq<char>) -> Option<Seq<char>>;

/// A zone of this name is known.
pub open spec fn zone_known(name: Seq<char>) -> bool {
    zone_failure(name) is None
}

/// The offset or offsets that `chrono_tz::Tz` assigns to a wall-clock second
/// of a day in the named zone.
pub uninterp spec fn zone_local_offset(zone: Seq<char>, day: int, second: int) -> LocalOffset;

/// The offset that `chrono_tz::Tz` assigns to an instant, given in seconds
/// since 1970-01-01T00:00:00Z, in the named zone.
pub uninterp spec fn zone_offset_at(zone: Seq<char>, instant: int) -> Option<i32>;

/// The day of the week on which `chrono` places a day number.
pub uninterp spec fn weekday_of(day: int) -> Option<Weekday>;

/// The calendar year in which `chrono` places a day number.
pub uninterp spec fn year_of(day: int) -> Option<i32>;

/// Calls `chrono::DateTime::parse_from_rfc3339` and hands back the wall-clock
/// fields of the parsed value (`naive_local`), the offset written in the text
/// left aside; where the text is turned down, the words of the error.
/// Nothing is claimed beyond the result being a function of the text.
#[verifier::external_body]
pub(crate) fn read_rfc3339(text: &str) -> (r: Result<LocalDateTime, String>)
    ensures
        match r {
            Ok(t) => rfc3339_reading(text@) == Ok::<LocalDateTime, Seq<char>>(t),
            Err(words) => rfc3339_reading(text@) == Err::<LocalDateTime, Seq<char>>(words@),
        },
{
    match DateTime::parse_from_rfc3339(text) {
        Ok(parsed) => {
            let local = parsed.naive_local();
            Ok(LocalDateTime {
                day: local.num_days_from_ce(),
                second: local.num_seconds_from_midnight(),
                nano: local.nanosecond(),
            })
        },
        Err(e) => Err(e.to_string()),
    }
}

/// Calls `chrono::DateTime::to_rfc3339` on the given wall-clock reading at
/// the given UTC offset. A day, second, nanosecond or offset that `chrono`
/// cannot represent gives `None`. Nothing is claimed beyond the result being
/// a function of the four numbers.
#[verifier::external_body]
pub(crate) fn write_rfc3339(day: i32, second: u32, nano: u32, offset: i32) -> (r: Option<String>)
    ensures
        match r {
            Some(text) => rfc3339_text(day as int, second as int, nano as int, offset as int)
                == Some(text@),
            None => rfc3339_text(day as int, second as int, nano as int, offset as int) is None,
        },
{
    let date = NaiveDate::from_num_days_from_ce_opt(day);
    let time = NaiveTime::from_num_seconds_from_midnight_opt(second, nano);
    match (date, time, FixedOffset::east_opt(offset)) {
        (Some(date), Some(time), Some(east)) => {
            match east.from_local_datetime(&date.and_time(time)) {
                LocalResult::Single(instant) => Some(instant.to_rfc3339()),
                _ => None,
            }
        },
        _ => None,
    }
}

/// Calls `chrono::NaiveDate::parse_from_str` with the format `%Y-%m-%d` and
/// hands back the day number (`num_days_from_ce`) of the date it read.
/// Nothing is claimed beyond the result being a function of the text.
#[verifier::external_body]
pub(crate) fn read_date(text: &str) -> (r: Option<i32>)
    ensures
        r == date_reading(text@),
{
    match NaiveDate::parse_from_str(text, "%Y-%m-%d") {
        Ok(date) => Some(date.num_days_from_ce()),
        Err(_) => None,
    }
}

/// Calls `chrono_tz::Tz::from_str` and hands back the words of its error,
/// or `None` where it found a zone.
#[verifier::external_body]
pub(crate) fn find_zone(name: &str) -> (r: Option<String>)
    ensures
        match r {
            Some(words) => zone_failure(name@) == Some(words@),
            None => zone_failure(name@) is None,
        },
{
    match Tz::from_str(name) {
        Ok(_) => None,
        Err(e) => Some(e.to_string()),
    }
}

/// Calls `chrono::TimeZone::from_local_datetime` on `chrono_tz::Tz` for the
/// named zone and the given wall-clock second, and hands back the UTC offset of
/// each instant it returns. A name that is no zone, or a day or second that
/// `chrono` cannot represent, gives `Unresolved`.
#[verifier::external_body]
pub(crate) fn local_offset(zone: &str, day: i32, second: u32) -> (r: LocalOffset)
    ensures
        r == zone_local_offset(zone@, day as int, second as int),
{
    let date = NaiveDate::from_num_days_from_ce_opt(day);
    let time = NaiveTime::from_num_seconds_from_midnight_opt(second, 0);
    match (Tz::from_str(zone), date, time) {
        (Ok(tz), Some(date), Some(time)) => match tz.from_local_datetime(&date.and_time(time)) {
            LocalResult::Single(t) => LocalOffset::Single(t.offset().fix().local_minus_utc()),
            LocalResult::Ambiguous(a, b) => LocalOffset::Ambiguous(
                a.offset().fix().local_minus_utc(),
                b.offset().fix().local_minus_utc(),
            ),
            LocalResult::None => LocalOffset::Unresolved,
        },
        _ => LocalOffset::Unresolved,
    }
}

/// Calls `chrono::TimeZone::offset_from_utc_datetime` on `chrono_tz::Tz` for
/// the named zone and the given instant, and hands back the UTC offset in
/// seconds. A name that is no zone, or an instant that `chrono` cannot
/// represent, gives `None`.
#[verifier::external_body]
pub(crate) fn offset_at(zone: &str, instant: i64) -> (r: Option<i32>)
    ensures
        r == zone_offset_at(zone@, instant as int),
{
    match (Tz::from_str(zone), DateTime::from_timestamp(instant, 0)) {
        (Ok(tz), Some(utc)) => {
            Some(tz.offset_from_utc_datetime(&utc.naive_utc()).fix().local_minus_utc())
        },
        _ => None,
    }
}

/// Calls `chrono::Datelike::weekday` on the date with the given day number.
/// A day number that `chrono` cannot represent gives `None`.
#[verifier::external_body]
pub(crate) fn weekday(day: i32) -> (r: Option<Weekday>)
    ensures
        r == weekday_of(day as int),
{
    match NaiveDate::from_num_days_from_ce_opt(day) {
        Some(date) => Some(
            match date.weekday() {
                chrono::Weekday::Mon => Weekday::Mon,
                chrono::Weekday::Tue => Weekday::Tue,
                chrono::Weekday::Wed => Weekday::Wed,
                chrono::Weekday::Thu => Weekday::Thu,
                chrono::Weekday::Fri => Weekday::Fri,
                chrono::Weekday::Sat => Weekday::Sat,
                chrono::Weekday::Sun => Weekday::Sun,
            },
        ),
        None => None,
    }
}

/// Calls `chrono::Datelike::year` on the date with the given day number. A
/// day number that `chrono` cannot represent gives `None`.
#[verifier::external_body]
pub(crate) fn year(day: i32) -> (r: Option<i32>)
    ensures
        r == year_of(day as int),
{
    match NaiveDate::from_num_days_from_ce_opt(day) {
        Some(date) => Some(date.year()),
        None => None,
    }
}

} // verus!
