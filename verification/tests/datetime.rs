use workhours::calendar::{LocalDateTime, Weekday};
use workhours::datetime::{parse_local, TimeOfDay, ZonedDateTime};

fn instant(day: i32, second: u32, nano: u32, offset: i32) -> ZonedDateTime {
    ZonedDateTime { local: LocalDateTime { day, second, nano }, offset }
}

#[test]
fn time_of_day_is_read_from_two_digit_fields() {
    assert_eq!(TimeOfDay::parse("09:00:00"), Some(TimeOfDay { hour: 9, minute: 0, second: 0 }));
    assert_eq!(TimeOfDay::parse("23:59:59"), Some(TimeOfDay { hour: 23, minute: 59, second: 59 }));
    assert_eq!(TimeOfDay::parse("00:00:00"), Some(TimeOfDay { hour: 0, minute: 0, second: 0 }));
}

#[test]
fn time_of_day_turns_down_other_shapes() {
    assert_eq!(TimeOfDay::parse("9:00:00"), None);
    assert_eq!(TimeOfDay::parse("09:00"), None);
    assert_eq!(TimeOfDay::parse("09:00:00 "), None);
    assert_eq!(TimeOfDay::parse("09-00-00"), None);
    assert_eq!(TimeOfDay::parse("24:00:00"), None);
    assert_eq!(TimeOfDay::parse("12:60:00"), None);
    assert_eq!(TimeOfDay::parse("12:00:60"), None);
    assert_eq!(TimeOfDay::parse("1a:00:00"), None);
    assert_eq!(TimeOfDay::parse("１２:00:00"), None);
    assert_eq!(TimeOfDay::parse(""), None);
}

#[test]
fn time_of_day_fields_are_checked() {
    assert_eq!(TimeOfDay::from_hms(17, 30, 15), Some(TimeOfDay { hour: 17, minute: 30, second: 15 }));
    assert_eq!(TimeOfDay::from_hms(24, 0, 0), None);
    assert_eq!(TimeOfDay::from_hms(0, 60, 0), None);
    assert_eq!(TimeOfDay::from_hms(0, 0, 60), None);
    let t = TimeOfDay::from_hms(17, 30, 15).unwrap();
    assert_eq!(t.seconds_from_midnight(), 63015);
    assert_eq!(t.on_day(42), LocalDateTime { day: 42, second: 63015, nano: 0 });
}

#[test]
fn rfc3339_text_is_read_as_wall_clock() {
    assert_eq!(
        parse_local("1970-01-01T00:00:00Z"),
        Some(LocalDateTime { day: 719163, second: 0, nano: 0 })
    );
    assert_eq!(
        parse_local("2023-10-02T09:00:00+02:00"),
        Some(LocalDateTime { day: 738795, second: 32400, nano: 0 })
    );
    assert_eq!(parse_local("2023-10-02 09:00"), None);
    assert_eq!(parse_local("2023-02-30T09:00:00Z"), None);
}

#[test]
fn instants_are_seconds_since_the_epoch() {
    assert_eq!(instant(719163, 0, 0, 0).unix_second(), 0);
    assert_eq!(instant(719164, 3600, 0, 7200).unix_second(), 86400 - 3600);
    assert_eq!(instant(738795, 32400, 0, 7200).unix_second(), 1696230000);
}

#[test]
fn instants_are_ordered_by_their_nanoseconds() {
    let a = instant(738795, 32400, 5, 0);
    let b = instant(738795, 32400, 6, 0);
    assert!(a.is_before(&b));
    assert!(!b.is_before(&a));
    assert!(!a.is_before(&a));
    // 10:00 at +02:00 is before 09:00 at +00:00.
    assert!(instant(738795, 36000, 0, 7200).is_before(&instant(738795, 32400, 0, 0)));
}

#[test]
fn elapsed_seconds_round_toward_zero() {
    let a = instant(738795, 100, 600_000_000, 0);
    let b = instant(738795, 102, 500_000_000, 0);
    assert_eq!(a.seconds_until(&b), 1);
    assert_eq!(b.seconds_until(&a), -1);
    assert_eq!(a.seconds_until(&a), 0);
    assert_eq!(instant(738795, 0, 0, 0).seconds_until(&instant(738796, 0, 0, 0)), 86400);
    assert_eq!(instant(i32::MIN, 0, 0, i32::MAX).seconds_until(&instant(i32::MAX, 86399, 999_999_999, i32::MIN)),
        (i32::MAX as i64 - i32::MIN as i64) * 86400 + 86399 + (i32::MAX as i64 - i32::MIN as i64));
}

#[test]
fn readings_are_placed_in_a_zone() {
    let noon = LocalDateTime { day: 738795, second: 43200, nano: 7 };
    assert_eq!(
        ZonedDateTime::resolve("Europe/Paris", noon),
        Some(ZonedDateTime { local: noon, offset: 7200 })
    );
    assert_eq!(
        ZonedDateTime::resolve("America/New_York", noon),
        Some(ZonedDateTime { local: noon, offset: -14400 })
    );
    assert_eq!(ZonedDateTime::resolve("Europe/Atlantis", noon), None);
    assert_eq!(ZonedDateTime::resolve("UTC", LocalDateTime { day: i32::MIN, second: 0, nano: 0 }), None);
}

#[test]
fn shifting_keeps_the_fraction_and_moves_the_instant() {
    let start = ZonedDateTime { local: LocalDateTime { day: 738795, second: 86000, nano: 9 }, offset: 0 };
    let later = start.plus_seconds("UTC", 1000).unwrap();
    assert_eq!(later.local, LocalDateTime { day: 738796, second: 600, nano: 9 });
    let earlier = start.plus_seconds("UTC", -86001).unwrap();
    assert_eq!(earlier.local, LocalDateTime { day: 738794, second: 86399, nano: 9 });
    assert_eq!(start.plus_seconds("UTC", i64::MAX), None);
    assert_eq!(start.plus_seconds("UTC", i64::MIN), None);
    assert_eq!(start.plus_seconds("Nowhere", 1), None);
    let before_epoch = ZonedDateTime { local: LocalDateTime { day: 719163, second: 0, nano: 0 }, offset: 0 };
    assert_eq!(
        before_epoch.plus_seconds("UTC", -1).unwrap().local,
        LocalDateTime { day: 719162, second: 86399, nano: 0 }
    );
}

#[test]
fn weekend_days() {
    assert!(Weekday::Sat.is_weekend());
    assert!(Weekday::Sun.is_weekend());
    assert!(!Weekday::Mon.is_weekend());
    assert!(!Weekday::Fri.is_weekend());
}
