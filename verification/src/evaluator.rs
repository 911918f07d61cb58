//! The day-by-day walk over a range that sums the seconds worked.
//!
//! Each calendar day of the range is a weekend day, a holiday or a working
//! day. A working day counts the part of the range that falls inside the
//! daily work window; a working day strictly between the first and the last
//! counts the whole window.

use crate::calendar::{weekday, weekday_of, LocalDateTime};
use crate::datetime::{
    elapsed_seconds, lemma_elapsed_forward, resolved, TimeOfDay, ZonedDateTime,
};
use vstd::prelude::*;

verus! {

/// A span of time in a zone, from `start` up to `end`.
pub struct DateTimeRange {
    pub start: ZonedDateTime,
    pub end: ZonedDateTime,
    pub zone: String,
}

/// The daily work window, in wall-clock time.
#[derive(Clone, Copy, Debug, PartialEq, Eq, Structural)]
pub struct WorkWindow {
    pub start_of_day: TimeOfDay,
    pub end_of_day: TimeOfDay,
}

/// The seconds worked in a range, with the range they were counted for.
#[derive(Clone, Copy, Debug, PartialEq, Eq, Structural)]
pub struct WorkHoursResult {
    pub seconds: i64,
    pub start: ZonedDateTime,
    pub end: ZonedDateTime,
}

/// Why a range could not be evaluated.
#[derive(Clone, Copy, Debug, PartialEq, Eq, Structural)]
pub enum EvalError {
    /// The range does not start strictly before it ends.
    InvalidRange,
    /// The window does not open strictly before it closes.
    InvalidWindow,
    /// On some working day of the range the zone does not give the opening
    /// or closing time exactly one instant, or the day lies outside the
    /// calendar.
    UnresolvedDay,
    /// On some day that is no weekend day, a holiday whose date could not be
    /// read stands in the list before any holiday that falls on that day.
    UnreadableHoliday,
}

/// What the list of holidays says of one day. The list is gone through in
/// order, up to the first holiday that falls on the day or cannot be read.
#[derive(Clone, Copy, Debug, PartialEq, Eq, Structural)]
pub enum HolidayCheck {
    /// A holiday falls on the day.
    Holiday,
    /// No holiday falls on the day, and all could be read.
    Working,
    /// A holiday that could not be read came first.
    Unreadable,
}

/// What one calendar day is to the evaluation.
#[derive(Clone, Copy, Debug, PartialEq, Eq, Structural)]
pub enum DayPlan {
    /// A weekend day or a holiday.
    Off,
    /// A working day, with the instants at which the window opens and closes.
    Work { open: ZonedDateTime, close: ZonedDateTime },
    /// A day whose weekday or window instants cannot be told.
    Unresolved,
    /// A day that is no weekend day, and of which the holidays cannot say
    /// whether it is one of them.
    Unreadable,
}

impl DateTimeRange {
    /// The range starts strictly before it ends.
    pub open spec fn forward(self) -> bool {
        self.start.precedes(self.end)
    }

    /// The calendar day lies between the first and last day of the range.
    pub open spec fn covers(self, day: int) -> bool {
        self.start.local.day <= day <= self.end.local.day
    }
}

impl WorkWindow {
    /// Both times are times of day and the window opens strictly before it
    /// closes.
    pub open spec fn valid(self) -> bool {
        &&& self.start_of_day.wf()
        &&& self.end_of_day.wf()
        &&& self.start_of_day.second_of_day() < self.end_of_day.second_of_day()
    }

    /// Length of the window in seconds.
    pub open spec fn duration_seconds(self) -> int {
        self.end_of_day.second_of_day() - self.start_of_day.second_of_day()
    }

    /// Whether both times are times of day and the window opens strictly
    /// before it closes.
    pub fn is_valid(&self) -> (b: bool)
        ensures
            b == self.valid(),
    {
        self.start_of_day.hour < 24 && self.start_of_day.minute < 60 && self.start_of_day.second
            < 60 && self.end_of_day.hour < 24 && self.end_of_day.minute < 60
            && self.end_of_day.second < 60 && self.start_of_day.seconds_from_midnight()
            < self.end_of_day.seconds_from_midnight()
    }
}

/// The day is a Saturday or a Sunday.
pub open spec fn weekend_day(day: int) -> bool {
    weekday_of(day) matches Some(w) && w.weekend()
}

/// What the holidays from position `from` on say of a day. A holiday is
/// the day it falls on, or `None` where its date could not be read.
pub open spec fn holiday_check(holidays: Seq<Option<i32>>, day: i32, from: int) -> HolidayCheck
    decreases holidays.len() - from,
{
    if from < 0 || from >= holidays.len() {
        HolidayCheck::Working
    } else {
        match holidays[from] {
            None => HolidayCheck::Unreadable,
            Some(date) => if date == day {
                HolidayCheck::Holiday
            } else {
                holiday_check(holidays, day, from + 1)
            },
        }
    }
}

/// What the day is. A weekend day is off, whatever the holidays. Any other
/// day is held against the holidays: it is off where one falls on it, and
/// else a working day with the window placed in the zone.
pub open spec fn day_plan(
    zone: Seq<char>,
    window: WorkWindow,
    holidays: Seq<Option<i32>>,
    day: i32,
) -> DayPlan {
    match weekday_of(day as int) {
        None => DayPlan::Unresolved,
        Some(w) => if w.weekend() {
            DayPlan::Off
        } else {
            match holiday_check(holidays, day, 0) {
                HolidayCheck::Unreadable => DayPlan::Unreadable,
                HolidayCheck::Holiday => DayPlan::Off,
                HolidayCheck::Working => match (
                    resolved(zone, window.start_of_day.on(day)),
                    resolved(zone, window.end_of_day.on(day)),
                ) {
                    (Some(open), Some(close)) => DayPlan::Work { open, close },
                    _ => DayPlan::Unresolved,
                },
            }
        },
    }
}

/// Seconds counted on a day that is both the first and the last of the range.
pub open spec fn only_day_seconds(
    range: DateTimeRange,
    open: ZonedDateTime,
    close: ZonedDateTime,
) -> int {
    let start = range.start;
    let end = range.end;
    if close.local.earlier_in_day(start.local) || end.local.earlier_in_day(open.local) {
        0
    } else {
        let from = if start.local.earlier_in_day(open.local) {
            open
        } else {
            start
        };
        let to = if close.local.earlier_in_day(end.local) {
            close
        } else {
            end
        };
        if elapsed_seconds(from, to) < 0 {
            0
        } else {
            elapsed_seconds(from, to)
        }
    }
}

/// Seconds counted on the first day of a range that ends on a later day.
pub open spec fn first_day_seconds(
    range: DateTimeRange,
    open: ZonedDateTime,
    close: ZonedDateTime,
) -> int {
    let start = range.start;
    if !start.local.earlier_in_day(close.local) {
        0
    } else {
        let from = if start.local.earlier_in_day(open.local) {
            open
        } else {
            start
        };
        elapsed_seconds(from, close)
    }
}

/// Seconds counted on the last day of a range that started on an earlier day.
pub open spec fn last_day_seconds(
    range: DateTimeRange,
    open: ZonedDateTime,
    close: ZonedDateTime,
) -> int {
    let end = range.end;
    if end.local.earlier_in_day(open.local) {
        0
    } else {
        let to = if close.local.earlier_in_day(end.local) {
            close
        } else {
            end
        };
        elapsed_seconds(open, to)
    }
}

/// Seconds counted on a working day whose window opens and closes at the
/// given instants.
pub open spec fn worked_seconds(
    range: DateTimeRange,
    window: WorkWindow,
    day: i32,
    open: ZonedDateTime,
    close: ZonedDateTime,
) -> int {
    if day == range.start.local.day && day == range.end.local.day {
        only_day_seconds(range, open, close)
    } else if day == range.start.local.day {
        first_day_seconds(range, open, close)
    } else if day == range.end.local.day {
        last_day_seconds(range, open, close)
    } else {
        window.duration_seconds()
    }
}

/// Seconds counted on a calendar day: nothing on a day off.
pub open spec fn counted_seconds(
    range: DateTimeRange,
    window: WorkWindow,
    holidays: Seq<Option<i32>>,
    day: i32,
) -> int {
    match day_plan(range.zone@, window, holidays, day) {
        DayPlan::Work { open, close } => worked_seconds(range, window, day, open, close),
        _ => 0,
    }
}

/// Seconds counted on the calendar days `first` to `last`, both included.
pub open spec fn total_seconds(
    range: DateTimeRange,
    window: WorkWindow,
    holidays: Seq<Option<i32>>,
    first: int,
    last: int,
) -> int
    decreases last - first + 1,
{
    if last < first {
        0
    } else {
        total_seconds(range, window, holidays, first, last - 1) + counted_seconds(
            range,
            window,
            holidays,
            last as i32,
        )
    }
}

/// The error with which the evaluation stops at a day, if it does.
pub open spec fn day_failure(plan: DayPlan) -> Option<EvalError> {
    match plan {
        DayPlan::Unresolved => Some(EvalError::UnresolvedDay),
        DayPlan::Unreadable => Some(EvalError::UnreadableHoliday),
        _ => None,
    }
}

/// The error of the earliest of the calendar days `first` to `last` at which
/// the evaluation stops, if there is such a day.
pub open spec fn first_failure(
    range: DateTimeRange,
    window: WorkWindow,
    holidays: Seq<Option<i32>>,
    first: int,
    last: int,
) -> Option<EvalError>
    decreases last - first + 1,
{
    if last < first {
        None
    } else {
        match day_failure(day_plan(range.zone@, window, holidays, first as i32)) {
            Some(e) => Some(e),
            None => first_failure(range, window, holidays, first + 1, last),
        }
    }
}

/// The outcome of evaluating a range: the first failed check, or the seconds
/// counted over all calendar days from the day the range starts to the day
/// it ends. The range is checked first, then the window, then the days in
/// order.
pub open spec fn evaluation(
    range: DateTimeRange,
    window: WorkWindow,
    holidays: Seq<Option<i32>>,
) -> Result<WorkHoursResult, EvalError> {
    if !range.forward() {
        Err(EvalError::InvalidRange)
    } else if !window.valid() {
        Err(EvalError::InvalidWindow)
    } else {
        match first_failure(
            range,
            window,
            holidays,
            range.start.local.day as int,
            range.end.local.day as int,
        ) {
            Some(e) => Err(e),
            None => Ok(
                WorkHoursResult {
                    seconds: total_seconds(
                        range,
                        window,
                        holidays,
                        range.start.local.day as int,
                        range.end.local.day as int,
                    ) as i64,
                    start: range.start,
                    end: range.end,
                },
            ),
        }
    }
}

/// Holds a day against the holidays, in their order.
pub fn check_holiday(holidays: &Vec<Option<i32>>, day: i32) -> (c: HolidayCheck)
    ensures
        c == holiday_check(holidays@, day, 0),
{
    let mut i: usize = 0;
    while i < holidays.len()
        invariant
            i <= holidays.len(),
            holiday_check(holidays@, day, 0) == holiday_check(holidays@, day, i as int),
        decreases holidays.len() - i,
    {
        match holidays[i] {
            None => {
                return HolidayCheck::Unreadable;
            },
            Some(date) => {
                if date == day {
                    return HolidayCheck::Holiday;
                }
            },
        }
        i = i + 1;
    }
    HolidayCheck::Working
}

/// Classifies one calendar day and, for a working day, places the window in
/// the zone. The holidays are looked at only where the day is no weekend
/// day.
pub fn plan_day(zone: &str, window: &WorkWindow, holidays: &Vec<Option<i32>>, day: i32) -> (p:
    DayPlan)
    ensures
        p == day_plan(zone@, *window, holidays@, day),
{
    match weekday(day) {
        None => DayPlan::Unresolved,
        Some(w) => {
            if w.is_weekend() {
                return DayPlan::Off;
            }
            match check_holiday(holidays, day) {
                HolidayCheck::Unreadable => DayPlan::Unreadable,
                HolidayCheck::Holiday => DayPlan::Off,
                HolidayCheck::Working => {
                    let open = ZonedDateTime::resolve(zone, window.start_of_day.on_day(day));
                    let close = ZonedDateTime::resolve(zone, window.end_of_day.on_day(day));
                    match (open, close) {
                        (Some(open), Some(close)) => DayPlan::Work { open, close },
                        _ => DayPlan::Unresolved,
                    }
                },
            }
        },
    }
}

/// Seconds counted on a working day of the range, given the instants at
/// which the window opens and closes on that day.
pub fn day_seconds(
    range: &DateTimeRange,
    window: &WorkWindow,
    day: i32,
    open: &ZonedDateTime,
    close: &ZonedDateTime,
) -> (s: i64)
    ensures
        s == worked_seconds(*range, *window, day, *open, *close),
        -1_000_000_000_000_000 < s < 1_000_000_000_000_000,
        window.valid() && day != range.start.local.day && day != range.end.local.day ==> 0 < s
            < 86_400,
{
    let start: &LocalDateTime = &range.start.local;
    let end: &LocalDateTime = &range.end.local;
    let on_first: bool = day == range.start.local.day;
    let on_last: bool = day == range.end.local.day;
    if on_first && on_last {
        if close.local.is_earlier_in_day(start) || end.is_earlier_in_day(&open.local) {
            return 0;
        }
        let from: &ZonedDateTime = if start.is_earlier_in_day(&open.local) {
            open
        } else {
            &range.start
        };
        let to: &ZonedDateTime = if close.local.is_earlier_in_day(end) {
            close
        } else {
            &range.end
        };
        let counted: i64 = from.seconds_until(to);
        if counted < 0 {
            0
        } else {
            counted
        }
    } else if on_first {
        if !start.is_earlier_in_day(&close.local) {
            return 0;
        }
        let from: &ZonedDateTime = if start.is_earlier_in_day(&open.local) {
            open
        } else {
            &range.start
        };
        from.seconds_until(close)
    } else if on_last {
        if end.is_earlier_in_day(&open.local) {
            return 0;
        }
        let to: &ZonedDateTime = if close.local.is_earlier_in_day(end) {
            close
        } else {
            &range.end
        };
        open.seconds_until(to)
    } else {
        window.end_of_day.seconds_from_midnight() as i64
            - window.start_of_day.seconds_from_midnight() as i64
    }
}

/// Sums the seconds worked between the start and the end of the range.
///
/// Fails with `InvalidRange` unless the range starts strictly before it
/// ends, then with `InvalidWindow` unless the window opens strictly before it
/// closes. The calendar days from the day the range starts to the day it
/// ends are then taken in order. The first day that is no weekend day and
/// that the holidays cannot be held against ends the evaluation with
/// `UnreadableHoliday`; the first working day on which the window cannot be
/// placed ends it with `UnresolvedDay`. Otherwise every day is counted as
/// `counted_seconds` says. A holiday is the day it falls on, or `None` where
/// its date could not be read.
pub fn evaluate(range: &DateTimeRange, window: &WorkWindow, holidays: &Vec<Option<i32>>) -> (r: Result<
    WorkHoursResult,
    EvalError,
>)
    ensures
        r == evaluation(*range, *window, holidays@),
{
    if !range.start.is_before(&range.end) {
        return Err(EvalError::InvalidRange);
    }
    if !window.is_valid() {
        return Err(EvalError::InvalidWindow);
    }
    let first: i64 = range.start.local.day as i64;
    let last: i64 = range.end.local.day as i64;
    let mut day: i64 = first;
    let mut total: i64 = 0;
    while day <= last
        invariant
            first == range.start.local.day,
            last == range.end.local.day,
            range.forward(),
            window.valid(),
            first <= day,
            day <= last + 1 || (last < first && day == first),
            first_failure(*range, *window, holidays@, first as int, last as int)
                == first_failure(*range, *window, holidays@, day as int, last as int),
            total == total_seconds(*range, *window, holidays@, first as int, day - 1),
            -(edges_passed(first as int, last as int, day as int) * 1_000_000_000_000_000 + (day
                - first) * 86_400) <= total <= edges_passed(first as int, last as int, day as int)
                * 1_000_000_000_000_000 + (day - first) * 86_400,
        decreases last - day + 1,
    {
        let today: i32 = day as i32;
        match plan_day(range.zone.as_str(), window, holidays, today) {
            DayPlan::Unresolved => {
                return Err(EvalError::UnresolvedDay);
            },
            DayPlan::Unreadable => {
                return Err(EvalError::UnreadableHoliday);
            },
            DayPlan::Off => {},
            DayPlan::Work { open, close } => {
                let counted: i64 = day_seconds(range, window, today, &open, &close);
                total = total + counted;
            },
        }
        day = day + 1;
    }
    assert(total == total_seconds(*range, *window, holidays@, first as int, last as int));
    assert(first_failure(*range, *window, holidays@, first as int, last as int) is None);
    Ok(WorkHoursResult { seconds: total, start: range.start, end: range.end })
}

/// How many of the two edge days of the range, the first and the last, lie
/// before `day`.
pub open spec fn edges_passed(first: int, last: int, day: int) -> int {
    (if day > first {
        1int
    } else {
        0int
    }) + (if day > last {
        1int
    } else {
        0int
    })
}

/// The seconds between two instants stay far inside the machine range.
pub proof fn lemma_elapsed_bounded(from: ZonedDateTime, to: ZonedDateTime)
    ensures
        -1_000_000_000_000_000 < elapsed_seconds(from, to) < 1_000_000_000_000_000,
{
}

/// The seconds counted on any one day stay far inside the machine range,
/// and a working day strictly inside the range counts less than a day.
pub proof fn lemma_counted_bounded(
    range: DateTimeRange,
    window: WorkWindow,
    holidays: Seq<Option<i32>>,
    day: i32,
)
    requires
        window.valid(),
    ensures
        -1_000_000_000_000_000 < counted_seconds(range, window, holidays, day)
            < 1_000_000_000_000_000,
        day != range.start.local.day && day != range.end.local.day ==> 0 <= counted_seconds(
            range,
            window,
            holidays,
            day,
        ) < 86_400,
{
    match day_plan(range.zone@, window, holidays, day) {
        DayPlan::Work { open, close } => {
            lemma_elapsed_bounded(open, close);
            lemma_elapsed_bounded(open, range.end);
            lemma_elapsed_bounded(range.start, close);
            lemma_elapsed_bounded(range.start, range.end);
        },
        _ => {},
    }
}

/// The seconds counted over any run of days of the range fit the result.
pub proof fn lemma_total_bounded(
    range: DateTimeRange,
    window: WorkWindow,
    holidays: Seq<Option<i32>>,
    last: int,
)
    requires
        window.valid(),
        range.start.local.day - 1 <= last <= range.end.local.day,
    ensures
        -3_000_000_000_000_000 < total_seconds(
            range,
            window,
            holidays,
            range.start.local.day as int,
            last,
        ) < 3_000_000_000_000_000,
        -(edges_passed(range.start.local.day as int, range.end.local.day as int, last + 1)
            * 1_000_000_000_000_000 + (last + 1 - range.start.local.day) * 86_400)
            <= total_seconds(range, window, holidays, range.start.local.day as int, last)
            <= edges_passed(range.start.local.day as int, range.end.local.day as int, last + 1)
            * 1_000_000_000_000_000 + (last + 1 - range.start.local.day) * 86_400,
    decreases last - range.start.local.day + 1,
{
    if last >= range.start.local.day {
        lemma_total_bounded(range, window, holidays, last - 1);
        lemma_counted_bounded(range, window, holidays, last as i32);
    }
}

/// The seconds of a successful evaluation are the seconds counted over the
/// days of the range, none lost to the width of the result.
pub proof fn lemma_evaluation_total(
    range: DateTimeRange,
    window: WorkWindow,
    holidays: Seq<Option<i32>>,
)
    requires
        evaluation(range, window, holidays) is Ok,
    ensures
        evaluation(range, window, holidays)->Ok_0.seconds == total_seconds(
            range,
            window,
            holidays,
            range.start.local.day as int,
            range.end.local.day as int,
        ),
{
    let first = range.start.local.day as int;
    let last = range.end.local.day as int;
    if first <= last {
        lemma_total_bounded(range, window, holidays, last);
    }
}

/// A working day strictly between the first and the last day of the range
/// counts the length of the window, whatever the day.
pub proof fn lemma_inner_day_counts_window(
    range: DateTimeRange,
    window: WorkWindow,
    holidays: Seq<Option<i32>>,
    day: i32,
)
    requires
        range.start.local.day < day < range.end.local.day,
        day_plan(range.zone@, window, holidays, day) is Work,
    ensures
        counted_seconds(range, window, holidays, day) == window.duration_seconds(),
{
}

/// Days that count nothing add up to nothing.
pub proof fn lemma_idle_days_total(
    range: DateTimeRange,
    window: WorkWindow,
    holidays: Seq<Option<i32>>,
    first: int,
    last: int,
)
    requires
        forall|d: int|
            first <= d <= last ==> #[trigger] counted_seconds(range, window, holidays, d as i32)
                == 0,
    ensures
        total_seconds(range, window, holidays, first, last) == 0,
    decreases last - first + 1,
{
    if last >= first {
        lemma_idle_days_total(range, window, holidays, first, last - 1);
    }
}

/// A range that starts and ends on the same working day, both inside the
/// work window, counts exactly the whole seconds from its start to its end.
pub proof fn lemma_range_inside_window(
    range: DateTimeRange,
    window: WorkWindow,
    holidays: Seq<Option<i32>>,
)
    requires
        range.start.local.wf(),
        range.end.local.wf(),
        range.forward(),
        window.valid(),
        range.start.local.day == range.end.local.day,
        day_plan(range.zone@, window, holidays, range.start.local.day) is Work,
        !range.start.local.earlier_in_day(window.start_of_day.on(range.start.local.day)),
        !window.end_of_day.on(range.start.local.day).earlier_in_day(range.start.local),
        !range.end.local.earlier_in_day(window.start_of_day.on(range.start.local.day)),
        !window.end_of_day.on(range.start.local.day).earlier_in_day(range.end.local),
    ensures
        evaluation(range, window, holidays) is Ok,
        evaluation(range, window, holidays)->Ok_0.seconds == elapsed_seconds(
            range.start,
            range.end,
        ),
{
    let day = range.start.local.day;
    lemma_elapsed_bounded(range.start, range.end);
    lemma_elapsed_forward(range.start, range.end);
    assert(first_failure(range, window, holidays, day + 1, day as int) is None);
    assert(first_failure(range, window, holidays, day as int, day as int) is None);
    assert(total_seconds(range, window, holidays, day as int, day - 1) == 0);
    assert(total_seconds(range, window, holidays, day as int, day as int) == counted_seconds(
        range,
        window,
        holidays,
        day,
    ));
}

/// No run of Saturdays and Sundays stops the evaluation, whatever the
/// holidays, readable or not.
pub proof fn lemma_weekend_days_pass(
    range: DateTimeRange,
    window: WorkWindow,
    holidays: Seq<Option<i32>>,
    first: int,
    last: int,
)
    requires
        range.start.local.day <= first,
        last <= range.end.local.day,
        forall|d: int| first <= d <= last ==> #[trigger] weekend_day(d),
    ensures
        first_failure(range, window, holidays, first, last) is None,
    decreases last - first + 1,
{
    if first <= last {
        assert(weekend_day(first));
        lemma_weekend_days_pass(range, window, holidays, first + 1, last);
    }
}

/// Where the evaluation stops for a holiday that could not be read, some
/// day of the range is no weekend day, and on that day the unreadable
/// holiday stands in the list before any holiday that falls on the day.
pub proof fn lemma_unreadable_only_on_working_day(
    range: DateTimeRange,
    window: WorkWindow,
    holidays: Seq<Option<i32>>,
    first: int,
    last: int,
)
    requires
        range.start.local.day <= first,
        last <= range.end.local.day,
        first_failure(range, window, holidays, first, last) == Some(EvalError::UnreadableHoliday),
    ensures
        exists|d: int|
            first <= d <= last && !#[trigger] weekend_day(d) && holiday_check(
                holidays,
                d as i32,
                0,
            ) is Unreadable,
    decreases last - first + 1,
{
    if first <= last {
        if day_failure(day_plan(range.zone@, window, holidays, first as i32)) is Some {
            assert(!weekend_day(first) && holiday_check(holidays, first as i32, 0) is Unreadable);
        } else {
            lemma_unreadable_only_on_working_day(range, window, holidays, first + 1, last);
        }
    }
}

/// A range whose calendar days are all Saturdays and Sundays counts
/// nothing, whatever the window and whatever the holidays, also where the
/// date of a holiday could not be read.
pub proof fn lemma_weekend_counts_nothing(
    range: DateTimeRange,
    window: WorkWindow,
    holidays: Seq<Option<i32>>,
)
    requires
        range.forward(),
        window.valid(),
        forall|d: int| range.covers(d) ==> #[trigger] weekend_day(d),
    ensures
        evaluation(range, window, holidays) == Ok::<WorkHoursResult, EvalError>(
            WorkHoursResult { seconds: 0, start: range.start, end: range.end },
        ),
{
    let first = range.start.local.day as int;
    let last = range.end.local.day as int;
    lemma_weekend_days_pass(range, window, holidays, first, last);
    assert forall|d: int| first <= d <= last implies #[trigger] counted_seconds(
        range,
        window,
        holidays,
        d as i32,
    ) == 0 by {
        assert(range.covers(d));
        assert(weekend_day(d));
    }
    lemma_idle_days_total(range, window, holidays, first, last);
}

/// A range that does not start strictly before it ends is turned down,
/// whatever the window and the holidays: it never counts as zero seconds.
pub proof fn lemma_backward_range_rejected(
    range: DateTimeRange,
    window: WorkWindow,
    holidays: Seq<Option<i32>>,
)
    requires
        !range.start.precedes(range.end),
    ensures
        evaluation(range, window, holidays) == Err::<WorkHoursResult, EvalError>(
            EvalError::InvalidRange,
        ),
{
}

} // verus!
