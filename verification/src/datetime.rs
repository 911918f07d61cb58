//! Instants placed in a zone, times of day, and the arithmetic on them.

use crate::calendar::{
    local_offset, offset_at, read_rfc3339, rfc3339_reading, rfc3339_text, write_rfc3339,
    zone_local_offset, zone_offset_at, LocalDateTime, LocalOffset, NANOS_PER_SECOND,
    SECONDS_PER_DAY, UNIX_EPOCH_DAY,
};
use vstd::prelude::*;
use vstd::string::StrSliceExecFns;

verus! {

/// The reading of an RFC 3339 text as a wall-clock time: `None` where the
/// text is not accepted, or where what was read is no time of day.
pub open spec fn parse_local_spec(text: Seq<char>) -> Option<LocalDateTime> {
    match rfc3339_reading(text) {
        Ok(t) => if t.wf() {
            Some(t)
        } else {
            None
        },
        Err(_) => None,
    }
}

/// The words with which an RFC 3339 text was turned down; none where it was
/// read.
pub open spec fn parse_failure(text: Seq<char>) -> Seq<char> {
    match rfc3339_reading(text) {
        Ok(_) => Seq::<char>::empty(),
        Err(words) => words,
    }
}

/// Reads an RFC 3339 text as a wall-clock time, or says in words why the
/// text was turned down. The offset written in the text plays no part: the
/// caller places the reading in a zone of its own choice.
pub fn parse_local_or_say(text: &str) -> (r: Result<LocalDateTime, String>)
    ensures
        match r {
            Ok(t) => parse_local_spec(text@) == Some(t) && t.wf(),
            Err(words) => parse_local_spec(text@) is None && words@ == parse_failure(text@),
        },
{
    match read_rfc3339(text) {
        Ok(t) => if t.second < 86_400 && t.nano < 2_000_000_000 {
            Ok(t)
        } else {
            Err(String::new())
        },
        Err(words) => Err(words),
    }
}

/// Reads an RFC 3339 text as a wall-clock time. The offset written in the
/// text plays no part: the caller places the reading in a zone of its own
/// choice.
pub fn parse_local(text: &str) -> (r: Option<LocalDateTime>)
    ensures
        r == parse_local_spec(text@),
        r matches Some(t) ==> t.wf(),
{
    match parse_local_or_say(text) {
        Ok(t) => Some(t),
        Err(_) => None,
    }
}

/// A wall-clock reading together with the UTC offset in force, in seconds
/// east of UTC: an instant as a zone shows it.
#[derive(Clone, Copy, Debug, PartialEq, Eq, Structural)]
pub struct ZonedDateTime {
    pub local: LocalDateTime,
    pub offset: i32,
}

/// Whole seconds in a span of nanoseconds, rounded toward zero.
pub open spec fn whole_seconds(nanos: int) -> int {
    if nanos >= 0 {
        nanos / (NANOS_PER_SECOND as int)
    } else {
        -((-nanos) / (NANOS_PER_SECOND as int))
    }
}

/// The correction for a leap second in the seconds between two instants.
///
/// An instant within a leap second carries the second of the clock second
/// before it, and its nanoseconds run on past a thousand million. Where `to`
/// falls later in the UTC day than a `from` that is within a leap second, one
/// second is added; where `to` is within a leap second and falls earlier in
/// the UTC day than `from`, one second is taken off; in every other case
/// nothing is corrected.
pub open spec fn leap_correction(from: ZonedDateTime, to: ZonedDateTime) -> int {
    if to.utc_second_of_day() > from.utc_second_of_day() && from.local.in_leap_second() {
        1
    } else if to.utc_second_of_day() < from.utc_second_of_day() && to.local.in_leap_second() {
        -1
    } else {
        0
    }
}

/// Nanoseconds from one instant to another; negative where `to` comes
/// first.
pub open spec fn elapsed_nanos(from: ZonedDateTime, to: ZonedDateTime) -> int {
    (to.instant_second() - from.instant_second() + leap_correction(from, to)) * NANOS_PER_SECOND
        + (to.local.nano - from.local.nano)
}

/// Whole seconds from one instant to another, rounded toward zero; negative
/// where `to` comes first.
pub open spec fn elapsed_seconds(from: ZonedDateTime, to: ZonedDateTime) -> int {
    whole_seconds(elapsed_nanos(from, to))
}

/// The reading placed in the zone, where the zone gives it exactly one
/// offset.
pub open spec fn resolved(zone: Seq<char>, local: LocalDateTime) -> Option<ZonedDateTime> {
    match zone_local_offset(zone, local.day as int, local.second as int) {
        LocalOffset::Single(offset) => Some(ZonedDateTime { local, offset }),
        _ => None,
    }
}

/// The instant `seconds` after `start`, as the zone shows it: `None` where
/// the instant or its wall-clock day cannot be represented.
///
/// A start within a leap second leaves it when shifted by anything but
/// zero: it is taken as the same point of the second before the leap second
/// when shifted forward, and of the second after it when shifted backward.
pub open spec fn shifted(zone: Seq<char>, start: ZonedDateTime, seconds: int) -> Option<
    ZonedDateTime,
> {
    let leaving = start.local.in_leap_second() && seconds != 0;
    let instant = start.instant_second() + seconds + if leaving && seconds < 0 {
        1int
    } else {
        0int
    };
    let nano = if leaving {
        start.local.nano - NANOS_PER_SECOND
    } else {
        start.local.nano as int
    };
    if i64::MIN <= instant <= i64::MAX {
        match zone_offset_at(zone, instant) {
            Some(offset) => {
                let wall = instant + offset;
                let day = wall / (SECONDS_PER_DAY as int) + UNIX_EPOCH_DAY;
                if i32::MIN <= day <= i32::MAX {
                    Some(
                        ZonedDateTime {
                            local: LocalDateTime {
                                day: day as i32,
                                second: (wall % (SECONDS_PER_DAY as int)) as u32,
                                nano: nano as u32,
                            },
                            offset,
                        },
                    )
                } else {
                    None
                }
            },
            None => None,
        }
    } else {
        None
    }
}

impl ZonedDateTime {
    /// Seconds since 1970-01-01T00:00:00Z.
    pub open spec fn instant_second(self) -> int {
        (self.local.day - UNIX_EPOCH_DAY) * SECONDS_PER_DAY + self.local.second - self.offset
    }

    /// Second within the UTC day.
    pub open spec fn utc_second_of_day(self) -> int {
        self.instant_second() % (SECONDS_PER_DAY as int)
    }

    /// This instant comes strictly before the other.
    pub open spec fn precedes(self, other: ZonedDateTime) -> bool {
        self.instant_second() < other.instant_second() || (self.instant_second()
            == other.instant_second() && self.local.nano < other.local.nano)
    }

    /// Seconds since 1970-01-01T00:00:00Z.
    pub fn unix_second(&self) -> (s: i64)
        ensures
            s == self.instant_second(),
    {
        (self.local.day as i64 - UNIX_EPOCH_DAY) * SECONDS_PER_DAY + self.local.second as i64
            - self.offset as i64
    }

    /// Second within the UTC day.
    pub fn second_of_utc_day(&self) -> (s: i64)
        ensures
            s == self.utc_second_of_day(),
    {
        let instant: i64 = self.unix_second();
        if instant >= 0 {
            instant % 86_400
        } else {
            let behind: i64 = (-instant) % 86_400;
            if behind == 0 {
                0
            } else {
                86_400 - behind
            }
        }
    }

    /// Whether this instant comes strictly before the other.
    pub fn is_before(&self, other: &ZonedDateTime) -> (b: bool)
        ensures
            b == self.precedes(*other),
    {
        let mine: i64 = self.unix_second();
        let theirs: i64 = other.unix_second();
        mine < theirs || (mine == theirs && self.local.nano < other.local.nano)
    }

    /// Whole seconds from this instant to a later one, rounded toward zero;
    /// negative where `later` comes first.
    pub fn seconds_until(&self, later: &ZonedDateTime) -> (s: i64)
        ensures
            s == elapsed_seconds(*self, *later),
            -1_000_000_000_000_000 < s < 1_000_000_000_000_000,
    {
        let from_second: i64 = self.second_of_utc_day();
        let to_second: i64 = later.second_of_utc_day();
        let correction: i64 = if to_second > from_second && self.local.nano >= 1_000_000_000 {
            1
        } else if to_second < from_second && later.local.nano >= 1_000_000_000 {
            -1
        } else {
            0
        };
        let seconds: i64 = later.unix_second() - self.unix_second() + correction;
        let span: i128 = seconds as i128 * 1_000_000_000 + (later.local.nano as i128
            - self.local.nano as i128);
        if span >= 0 {
            (span / 1_000_000_000) as i64
        } else {
            let back: i128 = (-span) / 1_000_000_000;
            (-back) as i64
        }
    }

    /// This instant written as RFC 3339 text, with its offset.
    pub open spec fn written(self) -> Option<Seq<char>> {
        rfc3339_text(
            self.local.day as int,
            self.local.second as int,
            self.local.nano as int,
            self.offset as int,
        )
    }

    /// Writes this instant as RFC 3339 text, with its offset. `None` where
    /// the calendar cannot hold the reading and the offset together.
    pub fn to_rfc3339(&self) -> (r: Option<String>)
        ensures
            match r {
                Some(text) => self.written() == Some(text@),
                None => self.written() is None,
            },
    {
        write_rfc3339(self.local.day, self.local.second, self.local.nano, self.offset)
    }

    /// Places a wall-clock reading in the named zone. `None` where the zone
    /// skips the reading, shows it twice, or is unknown.
    pub fn resolve(zone: &str, local: LocalDateTime) -> (r: Option<ZonedDateTime>)
        ensures
            r == resolved(zone@, local),
    {
        match local_offset(zone, local.day, local.second) {
            LocalOffset::Single(offset) => Some(ZonedDateTime { local, offset }),
            _ => None,
        }
    }

    /// The instant `seconds` after this one, as the named zone shows it.
    /// `None` where the instant or its wall-clock day cannot be represented,
    /// or the zone is unknown.
    pub fn plus_seconds(&self, zone: &str, seconds: i64) -> (r: Option<ZonedDateTime>)
        ensures
            r == shifted(zone@, *self, seconds as int),
    {
        let leaving: bool = self.local.nano >= 1_000_000_000 && seconds != 0;
        let carry: i128 = if leaving && seconds < 0 {
            1
        } else {
            0
        };
        let nano: u32 = if leaving {
            self.local.nano - 1_000_000_000
        } else {
            self.local.nano
        };
        let target: i128 = self.unix_second() as i128 + seconds as i128 + carry;
        if target < -9_223_372_036_854_775_808 || target > 9_223_372_036_854_775_807 {
            return None;
        }
        let instant: i64 = target as i64;
        match offset_at(zone, instant) {
            Some(offset) => {
                let wall: i128 = instant as i128 + offset as i128;
                let days: i128 = if wall >= 0 {
                    wall / 86_400
                } else {
                    -((-wall + 86_399) / 86_400)
                };
                let second: i128 = wall - days * 86_400;
                assert(days == (wall as int) / 86_400 && second == (wall as int) % 86_400);
                let day: i128 = days + 719_163;
                if day < -2_147_483_648 || day > 2_147_483_647 {
                    return None;
                }
                Some(
                    ZonedDateTime {
                        local: LocalDateTime { day: day as i32, second: second as u32, nano },
                        offset,
                    },
                )
            },
            None => None,
        }
    }
}

/// Shifting moves an instant forward exactly when the number of seconds is
/// positive, and leaves it where it is when the number is zero. From a start
/// outside a leap second it moves the instant by exactly that many seconds
/// and keeps the sub-second part.
pub proof fn lemma_shift_direction(zone: Seq<char>, start: ZonedDateTime, seconds: int)
    requires
        shifted(zone, start, seconds) is Some,
    ensures
        start.precedes(shifted(zone, start, seconds)->0) <==> seconds > 0,
        seconds == 0 ==> !shifted(zone, start, seconds)->0.precedes(start),
        !start.local.in_leap_second() ==> shifted(zone, start, seconds)->0.instant_second()
            == start.instant_second() + seconds && shifted(zone, start, seconds)->0.local.nano
            == start.local.nano,
        shifted(zone, start, seconds)->0.local.second < SECONDS_PER_DAY,
{
    let leaving = start.local.in_leap_second() && seconds != 0;
    let instant = start.instant_second() + seconds + if leaving && seconds < 0 {
        1int
    } else {
        0int
    };
    let offset = zone_offset_at(zone, instant)->0;
    let wall = instant + offset;
    assert(wall == 86_400 * (wall / 86_400) + wall % 86_400);
    assert(0 <= wall % 86_400 < 86_400);
    assert(shifted(zone, start, seconds)->0.instant_second() == instant);
}

/// From an instant to one that comes after it, the whole seconds are never
/// negative.
pub proof fn lemma_elapsed_forward(from: ZonedDateTime, to: ZonedDateTime)
    requires
        from.local.wf(),
        to.local.wf(),
        from.precedes(to),
    ensures
        elapsed_seconds(from, to) >= 0,
{
}

/// A time of day to the second.
#[derive(Clone, Copy, Debug, PartialEq, Eq, Structural)]
pub struct TimeOfDay {
    pub hour: u8,
    pub minute: u8,
    pub second: u8,
}

/// The value of a decimal digit, for a character that is one.
pub open spec fn digit_value(c: char) -> Option<int> {
    if '0' <= c <= '9' {
        Some(c as int - '0' as int)
    } else {
        None
    }
}

/// The number written by two decimal digits.
pub open spec fn two_digits(high: char, low: char) -> Option<int> {
    match (digit_value(high), digit_value(low)) {
        (Some(h), Some(l)) => Some(10 * h + l),
        _ => None,
    }
}

/// The time of day written as `HH:MM:SS`: two digits each, hours below 24,
/// minutes and seconds below 60, and nothing before or after.
pub open spec fn time_of_day_reading(text: Seq<char>) -> Option<TimeOfDay> {
    if text.len() == 8 && text[2] == ':' && text[5] == ':' {
        match (
            two_digits(text[0], text[1]),
            two_digits(text[3], text[4]),
            two_digits(text[6], text[7]),
        ) {
            (Some(h), Some(m), Some(s)) => if h < 24 && m < 60 && s < 60 {
                Some(TimeOfDay { hour: h as u8, minute: m as u8, second: s as u8 })
            } else {
                None
            },
            _ => None,
        }
    } else {
        None
    }
}

fn digit(c: char) -> (r: Option<u8>)
    ensures
        match r {
            Some(d) => digit_value(c) == Some(d as int),
            None => digit_value(c) is None,
        },
{
    let code: u32 = c as u32;
    if 48 <= code && code <= 57 {
        Some((code - 48) as u8)
    } else {
        None
    }
}

fn digit_pair(high: char, low: char) -> (r: Option<u8>)
    ensures
        match r {
            Some(n) => two_digits(high, low) == Some(n as int),
            None => two_digits(high, low) is None,
        },
{
    match (digit(high), digit(low)) {
        (Some(h), Some(l)) => Some(10 * h + l),
        _ => None,
    }
}

impl TimeOfDay {
    /// Hours below 24, minutes and seconds below 60.
    pub open spec fn wf(self) -> bool {
        self.hour < 24 && self.minute < 60 && self.second < 60
    }

    /// Seconds since midnight.
    pub open spec fn second_of_day(self) -> int {
        self.hour * 3600 + self.minute * 60 + self.second
    }

    /// This time of day on the given day, as a wall-clock reading.
    pub open spec fn on(self, day: i32) -> LocalDateTime {
        LocalDateTime { day, second: self.second_of_day() as u32, nano: 0 }
    }

    /// Seconds since midnight.
    pub fn seconds_from_midnight(&self) -> (s: u32)
        ensures
            s == self.second_of_day(),
    {
        self.hour as u32 * 3600 + self.minute as u32 * 60 + self.second as u32
    }

    /// This time of day on the given day, as a wall-clock reading.
    pub fn on_day(&self, day: i32) -> (r: LocalDateTime)
        ensures
            r == self.on(day),
    {
        LocalDateTime { day, second: self.seconds_from_midnight(), nano: 0 }
    }

    /// The time of day with the given fields, where they are in range.
    pub fn from_hms(hour: u8, minute: u8, second: u8) -> (r: Option<TimeOfDay>)
        ensures
            r == (if hour < 24 && minute < 60 && second < 60 {
                Some(TimeOfDay { hour, minute, second })
            } else {
                None
            }),
    {
        if hour < 24 && minute < 60 && second < 60 {
            Some(TimeOfDay { hour, minute, second })
        } else {
            None
        }
    }

    /// Reads a time of day written as `HH:MM:SS`.
    pub fn parse(text: &str) -> (r: Option<TimeOfDay>)
        ensures
            r == time_of_day_reading(text@),
            r matches Some(t) ==> t.wf(),
    {
        if text.unicode_len() != 8 {
            return None;
        }
        if text.get_char(2) != ':' || text.get_char(5) != ':' {
            return None;
        }
        let hour = digit_pair(text.get_char(0), text.get_char(1));
        let minute = digit_pair(text.get_char(3), text.get_char(4));
        let second = digit_pair(text.get_char(6), text.get_char(7));
        match (hour, minute, second) {
            (Some(h), Some(m), Some(s)) => if h < 24 && m < 60 && s < 60 {
                Some(TimeOfDay { hour: h, minute: m, second: s })
            } else {
                None
            },
            _ => None,
        }
    }
}

} // verus!
