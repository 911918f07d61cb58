//! What holds of every request, proved from the definitions.

use crate::datetime::{lemma_shift_direction, shifted};
use crate::db;
use crate::evaluator::{
    holiday_check, lemma_unreadable_only_on_working_day, lemma_weekend_counts_nothing,
    weekend_day, WorkHoursResult,
};
use crate::{
    calculation, holiday_days, resolution, resolved_end, resolved_start, WorkHoursError,
    WorkHoursRequest,
};
use vstd::prelude::*;

verus! {

/// A request whose end does not come strictly after its start is turned
/// down as invalid input, whatever the window and the holidays: it never
/// counts as zero seconds.
pub proof fn lemma_backward_request_rejected(req: WorkHoursRequest, holidays: Seq<db::Holiday>)
    requires
        resolved_start(req) is Ok,
        resolved_end(req.timezone@, resolved_start(req)->Ok_0.0, req.end_or_duration) is Ok,
        !resolved_start(req)->Ok_0.0.precedes(
            resolved_end(req.timezone@, resolved_start(req)->Ok_0.0, req.end_or_duration)->Ok_0,
        ),
    ensures
        calculation(req, holidays) == Err::<WorkHoursResult, WorkHoursError>(WorkHoursError::InvalidRange),
        WorkHoursError::InvalidRange.invalid_input(),
{
}

/// An end given as zero or fewer seconds after the start never yields a
/// result: where the end can be found at all, the request is turned down as
/// invalid input because its range does not run forward.
pub proof fn lemma_nonpositive_duration_rejected(
    req: WorkHoursRequest,
    holidays: Seq<db::Holiday>,
)
    requires
        req.end_or_duration is Duration,
        req.end_or_duration->duration_seconds <= 0,
    ensures
        calculation(req, holidays) is Err,
        resolved_start(req) is Ok && resolved_end(
            req.timezone@,
            resolved_start(req)->Ok_0.0,
            req.end_or_duration,
        ) is Ok ==> calculation(req, holidays) == Err::<WorkHoursResult, WorkHoursError>(
            WorkHoursError::InvalidRange,
        ),
{
    if resolved_start(req) is Ok {
        let start = resolved_start(req)->Ok_0.0;
        let seconds = req.end_or_duration->duration_seconds as int;
        if shifted(req.timezone@, start, seconds) is Some {
            lemma_shift_direction(req.timezone@, start, seconds);
        }
    }
}

/// Two requests that differ only in how the end is given, one by date and
/// one by duration, have the same outcome whenever the two ends are the same
/// instant of the zone.
pub proof fn lemma_duration_equals_end_date(
    by_date: WorkHoursRequest,
    by_duration: WorkHoursRequest,
    holidays: Seq<db::Holiday>,
)
    requires
        by_date.end_or_duration is EndDate,
        by_duration.end_or_duration is Duration,
        by_date.country@ == by_duration.country@,
        by_date.subdivision == by_duration.subdivision,
        by_date.start_date@ == by_duration.start_date@,
        by_date.start_of_day@ == by_duration.start_of_day@,
        by_date.end_of_day@ == by_duration.end_of_day@,
        by_date.timezone == by_duration.timezone,
        resolved_start(by_date) is Ok,
        resolved_end(
            by_date.timezone@,
            resolved_start(by_date)->Ok_0.0,
            by_date.end_or_duration,
        ) == resolved_end(
            by_duration.timezone@,
            resolved_start(by_duration)->Ok_0.0,
            by_duration.end_or_duration,
        ),
    ensures
        calculation(by_date, holidays) == calculation(by_duration, holidays),
{
}

/// A request whose range covers Saturdays and Sundays only counts nothing,
/// whatever the holidays: also where the date of a holiday cannot be read.
pub proof fn lemma_weekend_request_counts_nothing(
    req: WorkHoursRequest,
    holidays: Seq<db::Holiday>,
)
    requires
        resolution(req) is Ok,
        forall|d: int| resolution(req)->Ok_0.range.covers(d) ==> #[trigger] weekend_day(d),
    ensures
        calculation(req, holidays) == Ok::<WorkHoursResult, WorkHoursError>(
            WorkHoursResult {
                seconds: 0,
                start: resolution(req)->Ok_0.range.start,
                end: resolution(req)->Ok_0.range.end,
            },
        ),
{
    let resolved = resolution(req)->Ok_0;
    lemma_weekend_counts_nothing(resolved.range, resolved.window, holiday_days(holidays));
}

/// A request is turned down for a holiday's date only where some day of its
/// range is no weekend day and is held against a holiday whose date cannot
/// be read before any holiday that falls on that day.
pub proof fn lemma_holiday_date_matters_on_working_day(
    req: WorkHoursRequest,
    holidays: Seq<db::Holiday>,
)
    requires
        calculation(req, holidays) == Err::<WorkHoursResult, WorkHoursError>(
            WorkHoursError::InvalidHolidayDate,
        ),
    ensures
        resolution(req) is Ok,
        exists|d: int|
            resolution(req)->Ok_0.range.covers(d) && !#[trigger] weekend_day(d) && holiday_check(
                holiday_days(holidays),
                d as i32,
                0,
            ) is Unreadable,
{
    let resolved = resolution(req)->Ok_0;
    lemma_unreadable_only_on_working_day(
        resolved.range,
        resolved.window,
        holiday_days(holidays),
        resolved.range.start.local.day as int,
        resolved.range.end.local.day as int,
    );
    let d = choose|d: int|
        resolved.range.start.local.day <= d <= resolved.range.end.local.day && !#[trigger] weekend_day(
            d,
        ) && holiday_check(holiday_days(holidays), d as i32, 0) is Unreadable;
    assert(resolved.range.covers(d));
}

} // verus!
