//! Working hours between two instants, given weekends, public holidays, a
//! daily work window and a time zone.
//!
//! A request names the start of a range as text, its end as text or as a
//! number of seconds, the work window as two times of day, and a zone.
//! `resolve_request` reads and checks it, `calculate_work_hours` then walks
//! the calendar days of the range and counts the seconds worked.

pub mod calendar;
pub mod country;
pub mod datetime;
pub mod db;
pub mod evaluator;
pub mod holidays_api;
pub mod laws;
pub mod text;

use crate::calendar::{
    date_reading, find_zone, read_date, year, year_of, zone_failure, zone_known,
};
use crate::country::{is_valid, valid_country};
use crate::datetime::{
    parse_failure, parse_local, parse_local_or_say, parse_local_spec, resolved, shifted,
    time_of_day_reading, TimeOfDay, ZonedDateTime,
};
use crate::evaluator::{
    evaluate, evaluation, DateTimeRange, EvalError, WorkHoursResult, WorkWindow,
};
use crate::text::{lowercase, lowercase_text};
use vstd::prelude::*;
use vstd::string::{StrSliceExecFns, StringExecFns};

verus! {

/// A holiday as a client submits it.
#[derive(Debug, Clone)]
pub struct Holiday {
    pub date: String,
    pub description: String,
}

/// The end of a range: an instant written as text, or a number of seconds
/// after the start.
#[derive(Debug)]
pub enum EndOrDuration {
    EndDate { end_date: String },
    Duration { duration_seconds: i64 },
}

/// A request for the working hours in a range.
#[derive(Debug)]
pub struct WorkHoursRequest {
    pub start_date: String,
    pub end_or_duration: EndOrDuration,
    pub start_of_day: String,
    pub end_of_day: String,
    pub country: String,
    pub subdivision: Option<String>,
    pub timezone: String,
}

/// A request as it arrives, with the end date and the duration both
/// optional.
#[derive(Debug)]
pub struct WorkHoursQueryParams {
    pub start_date: String,
    pub end_date: Option<String>,
    pub duration_seconds: Option<i64>,
    pub start_of_day: String,
    pub end_of_day: String,
    pub country: String,
    pub timezone: String,
    pub subdivision: Option<String>,
}

/// Why a request was turned down.
#[derive(Clone, Copy, Debug, PartialEq, Eq, Structural)]
pub enum WorkHoursError {
    /// Neither an end date nor a duration was given.
    MissingEnd,
    /// No subdivision is named and the country is not a country code.
    InvalidCountry,
    /// The start date is not an RFC 3339 date and time.
    InvalidStartDate,
    /// The start of the day is not written as `HH:MM:SS`.
    InvalidStartTime,
    /// The end of the day is not written as `HH:MM:SS`.
    InvalidEndTime,
    /// The zone is not known.
    InvalidTimezone,
    /// The zone does not give the start's wall-clock time exactly one
    /// instant.
    UnresolvedStart,
    /// The end date is not an RFC 3339 date and time.
    InvalidEndDate,
    /// The zone does not give the end's wall-clock time exactly one instant,
    /// or the end lies outside the calendar.
    UnresolvedEnd,
    /// The start is not strictly before the end.
    InvalidRange,
    /// The day does not start strictly before it ends.
    InvalidWindow,
    /// A day of the range that is no weekend day was held against a holiday
    /// whose date does not begin with a date written as `YYYY-MM-DD`.
    InvalidHolidayDate,
    /// On some working day of the range the zone does not give the start or
    /// the end of the day exactly one instant.
    UnresolvedDay,
}

/// A request read and checked: the range in its zone and the work window.
pub struct ResolvedRequest {
    pub range: DateTimeRange,
    pub window: WorkWindow,
}

/// The outcome of a request as it is reported: the seconds worked, and the
/// start and the end of the range written as RFC 3339 text.
#[derive(Debug)]
pub struct WorkHoursReport {
    pub seconds: i64,
    pub start_date: String,
    pub end_date: String,
}

impl Default for EndOrDuration {
    fn default() -> (r: EndOrDuration)
        ensures
            r matches EndOrDuration::EndDate { end_date } && end_date@ == Seq::<char>::empty(),
    {
        EndOrDuration::EndDate { end_date: String::new() }
    }
}

impl Default for WorkHoursRequest {
    fn default() -> (r: WorkHoursRequest)
        ensures
            r.start_date@.len() == 0,
            r.end_or_duration matches EndOrDuration::EndDate { end_date } && end_date@.len() == 0,
            r.start_of_day@.len() == 0,
            r.end_of_day@.len() == 0,
            r.country@.len() == 0,
            r.subdivision is None,
            r.timezone@.len() == 0,
    {
        WorkHoursRequest {
            start_date: String::new(),
            end_or_duration: EndOrDuration::EndDate { end_date: String::new() },
            start_of_day: String::new(),
            end_of_day: String::new(),
            country: String::new(),
            subdivision: None,
            timezone: String::new(),
        }
    }
}

/// The start of the working day where a request names none.
pub fn default_start_of_day() -> (r: String)
    ensures
        r@ == "09:00:00"@,
{
    String::from_str("09:00:00")
}

/// The end of the working day where a request names none.
pub fn default_end_of_day() -> (r: String)
    ensures
        r@ == "17:00:00"@,
{
    String::from_str("17:00:00")
}

impl WorkHoursError {
    /// The request itself was at fault, as opposed to the calendar or the
    /// holiday data.
    pub open spec fn invalid_input(self) -> bool {
        match self {
            WorkHoursError::MissingEnd => true,
            WorkHoursError::InvalidCountry => true,
            WorkHoursError::InvalidStartDate => true,
            WorkHoursError::InvalidStartTime => true,
            WorkHoursError::InvalidEndTime => true,
            WorkHoursError::InvalidTimezone => true,
            WorkHoursError::InvalidEndDate => true,
            WorkHoursError::InvalidRange => true,
            WorkHoursError::InvalidWindow => true,
            _ => false,
        }
    }

    /// What the message says, for each error.
    pub open spec fn message_text(self) -> Seq<char> {
        match self {
            WorkHoursError::MissingEnd => "Either endDate or durationSeconds must be provided"@,
            WorkHoursError::InvalidCountry => "Invalid country code. Must be a valid ISO-3166-1 alpha-2 code"@,
            WorkHoursError::InvalidStartDate => "Invalid start date format"@,
            WorkHoursError::InvalidStartTime => "Invalid start time format"@,
            WorkHoursError::InvalidEndTime => "Invalid end time format"@,
            WorkHoursError::InvalidTimezone => "Invalid timezone"@,
            WorkHoursError::UnresolvedStart => "Start date does not exist or is ambiguous in the timezone"@,
            WorkHoursError::InvalidEndDate => "Invalid end date format"@,
            WorkHoursError::UnresolvedEnd => "End date does not exist or is ambiguous in the timezone"@,
            WorkHoursError::InvalidRange => "Start date must be strictly before end date"@,
            WorkHoursError::InvalidWindow => "Start of day must be strictly before end of day"@,
            WorkHoursError::InvalidHolidayDate => "Invalid holiday date"@,
            WorkHoursError::UnresolvedDay => "Work window does not exist or is ambiguous in the timezone"@,
        }
    }

    /// Whether the request itself was at fault.
    pub fn is_invalid_input(&self) -> (b: bool)
        ensures
            b == self.invalid_input(),
    {
        match self {
            WorkHoursError::MissingEnd => true,
            WorkHoursError::InvalidCountry => true,
            WorkHoursError::InvalidStartDate => true,
            WorkHoursError::InvalidStartTime => true,
            WorkHoursError::InvalidEndTime => true,
            WorkHoursError::InvalidTimezone => true,
            WorkHoursError::InvalidEndDate => true,
            WorkHoursError::InvalidRange => true,
            WorkHoursError::InvalidWindow => true,
            _ => false,
        }
    }

    /// A message that names the check that failed.
    pub fn message(&self) -> (r: String)
        ensures
            r@ == self.message_text(),
    {
        match self {
            WorkHoursError::MissingEnd => String::from_str(
                "Either endDate or durationSeconds must be provided",
            ),
            WorkHoursError::InvalidCountry => String::from_str(
                "Invalid country code. Must be a valid ISO-3166-1 alpha-2 code",
            ),
            WorkHoursError::InvalidStartDate => String::from_str("Invalid start date format"),
            WorkHoursError::InvalidStartTime => String::from_str("Invalid start time format"),
            WorkHoursError::InvalidEndTime => String::from_str("Invalid end time format"),
            WorkHoursError::InvalidTimezone => String::from_str("Invalid timezone"),
            WorkHoursError::UnresolvedStart => String::from_str(
                "Start date does not exist or is ambiguous in the timezone",
            ),
            WorkHoursError::InvalidEndDate => String::from_str("Invalid end date format"),
            WorkHoursError::UnresolvedEnd => String::from_str(
                "End date does not exist or is ambiguous in the timezone",
            ),
            WorkHoursError::InvalidRange => String::from_str(
                "Start date must be strictly before end date",
            ),
            WorkHoursError::InvalidWindow => String::from_str(
                "Start of day must be strictly before end of day",
            ),
            WorkHoursError::InvalidHolidayDate => String::from_str("Invalid holiday date"),
            WorkHoursError::UnresolvedDay => String::from_str(
                "Work window does not exist or is ambiguous in the timezone",
            ),
        }
    }
}

/// The request that query parameters stand for: the end date where one is
/// given, else the duration, else nothing.
pub open spec fn query_request(params: WorkHoursQueryParams) -> Result<
    WorkHoursRequest,
    WorkHoursError,
> {
    let end = match (params.end_date, params.duration_seconds) {
        (Some(end_date), _) => Some(EndOrDuration::EndDate { end_date }),
        (None, Some(duration_seconds)) => Some(EndOrDuration::Duration { duration_seconds }),
        (None, None) => None,
    };
    match end {
        Some(end_or_duration) => Ok(
            WorkHoursRequest {
                start_date: params.start_date,
                end_or_duration,
                start_of_day: params.start_of_day,
                end_of_day: params.end_of_day,
                country: params.country,
                subdivision: params.subdivision,
                timezone: params.timezone,
            },
        ),
        None => Err(WorkHoursError::MissingEnd),
    }
}

/// Turns query parameters into a request. Fails with `MissingEnd` exactly
/// where neither an end date nor a duration is given; an end date wins over
/// a duration.
pub fn request_from_query(params: &WorkHoursQueryParams) -> (r: Result<
    WorkHoursRequest,
    WorkHoursError,
>)
    ensures
        r == query_request(*params),
{
    let end_or_duration: EndOrDuration = match (&params.end_date, params.duration_seconds) {
        (Some(end_date), _) => EndOrDuration::EndDate { end_date: end_date.clone() },
        (None, Some(duration_seconds)) => EndOrDuration::Duration { duration_seconds },
        (None, None) => {
            return Err(WorkHoursError::MissingEnd);
        },
    };
    let subdivision: Option<String> = match &params.subdivision {
        Some(code) => Some(code.clone()),
        None => None,
    };
    Ok(
        WorkHoursRequest {
            start_date: params.start_date.clone(),
            end_or_duration,
            start_of_day: params.start_of_day.clone(),
            end_of_day: params.end_of_day.clone(),
            country: params.country.clone(),
            subdivision,
            timezone: params.timezone.clone(),
        },
    )
}

/// The request names a jurisdiction: a subdivision, which is taken as
/// written, or else a country that is a country code.
pub open spec fn names_jurisdiction(req: WorkHoursRequest) -> bool {
    (req.subdivision matches Some(code) && code@.len() != 0) || valid_country(req.country@)
}

/// The start of a request placed in its zone, with the work window: the
/// first of these that fails decides the error, in this order: the
/// jurisdiction, the start date, the start of the day, the end of the day,
/// the zone, the start's place in the zone.
pub open spec fn resolved_start(req: WorkHoursRequest) -> Result<
    (ZonedDateTime, WorkWindow),
    WorkHoursError,
> {
    if !names_jurisdiction(req) {
        Err(WorkHoursError::InvalidCountry)
    } else {
        match parse_local_spec(req.start_date@) {
            None => Err(WorkHoursError::InvalidStartDate),
            Some(local) => match time_of_day_reading(req.start_of_day@) {
                None => Err(WorkHoursError::InvalidStartTime),
                Some(start_of_day) => match time_of_day_reading(req.end_of_day@) {
                    None => Err(WorkHoursError::InvalidEndTime),
                    Some(end_of_day) => if !zone_known(req.timezone@) {
                        Err(WorkHoursError::InvalidTimezone)
                    } else {
                        match resolved(req.timezone@, local) {
                            None => Err(WorkHoursError::UnresolvedStart),
                            Some(start) => Ok((start, WorkWindow { start_of_day, end_of_day })),
                        }
                    },
                },
            },
        }
    }
}

/// The end of a range that starts at `start`: the end date placed in the
/// zone, or the instant the given number of seconds after the start.
pub open spec fn resolved_end(zone: Seq<char>, start: ZonedDateTime, end: EndOrDuration)
    -> Result<ZonedDateTime, WorkHoursError> {
    match end {
        EndOrDuration::EndDate { end_date } => match parse_local_spec(end_date@) {
            None => Err(WorkHoursError::InvalidEndDate),
            Some(local) => match resolved(zone, local) {
                None => Err(WorkHoursError::UnresolvedEnd),
                Some(end) => Ok(end),
            },
        },
        EndOrDuration::Duration { duration_seconds } => match shifted(
            zone,
            start,
            duration_seconds as int,
        ) {
            None => Err(WorkHoursError::UnresolvedEnd),
            Some(end) => Ok(end),
        },
    }
}

/// A request read and checked: the start and the window, then the end, then
/// that the range runs forward, then that the window does.
pub open spec fn resolution(req: WorkHoursRequest) -> Result<ResolvedRequest, WorkHoursError> {
    match resolved_start(req) {
        Err(e) => Err(e),
        Ok((start, window)) => match resolved_end(req.timezone@, start, req.end_or_duration) {
            Err(e) => Err(e),
            Ok(end) => {
                let range = DateTimeRange { start, end, zone: req.timezone };
                if !range.forward() {
                    Err(WorkHoursError::InvalidRange)
                } else if !window.valid() {
                    Err(WorkHoursError::InvalidWindow)
                } else {
                    Ok(ResolvedRequest { range, window })
                }
            },
        },
    }
}

/// The calendar day a holiday falls on: the date written in the first ten
/// characters of its date text.
pub open spec fn holiday_day(date: Seq<char>) -> Option<i32> {
    if date.len() < 10 {
        None
    } else {
        date_reading(date.subrange(0, 10))
    }
}

/// The calendar days of a list of holidays, one for one and in order, with
/// `None` for each whose date cannot be read.
pub open spec fn holiday_days(holidays: Seq<db::Holiday>) -> Seq<Option<i32>> {
    Seq::new(holidays.len(), |i: int| holiday_day(holidays[i].date@))
}

/// The error of a request for the error of the evaluation it led to.
pub open spec fn request_error(e: EvalError) -> WorkHoursError {
    match e {
        EvalError::InvalidRange => WorkHoursError::InvalidRange,
        EvalError::InvalidWindow => WorkHoursError::InvalidWindow,
        EvalError::UnresolvedDay => WorkHoursError::UnresolvedDay,
        EvalError::UnreadableHoliday => WorkHoursError::InvalidHolidayDate,
    }
}

/// The seconds worked in a resolved request, given the holidays. A holiday
/// whose date cannot be read matters only on a day that is held against it.
pub open spec fn resolved_calculation(resolved: ResolvedRequest, holidays: Seq<db::Holiday>)
    -> Result<WorkHoursResult, WorkHoursError> {
    match evaluation(resolved.range, resolved.window, holiday_days(holidays)) {
        Ok(result) => Ok(result),
        Err(e) => Err(request_error(e)),
    }
}

/// The outcome of a request: the first check that fails, or the seconds
/// worked in its range.
pub open spec fn calculation(req: WorkHoursRequest, holidays: Seq<db::Holiday>) -> Result<
    WorkHoursResult,
    WorkHoursError,
> {
    match resolution(req) {
        Err(e) => Err(e),
        Ok(resolved) => resolved_calculation(resolved, holidays),
    }
}

fn resolve_start(req: &WorkHoursRequest) -> (r: Result<(ZonedDateTime, WorkWindow), WorkHoursError>)
    ensures
        r == resolved_start(*req),
{
    let subdivision_named: bool = match &req.subdivision {
        Some(code) => !code.as_str().is_empty(),
        None => false,
    };
    if !subdivision_named && !is_valid(req.country.as_str()) {
        return Err(WorkHoursError::InvalidCountry);
    }
    let local = match parse_local(req.start_date.as_str()) {
        Some(local) => local,
        None => {
            return Err(WorkHoursError::InvalidStartDate);
        },
    };
    let start_of_day = match TimeOfDay::parse(req.start_of_day.as_str()) {
        Some(time) => time,
        None => {
            return Err(WorkHoursError::InvalidStartTime);
        },
    };
    let end_of_day = match TimeOfDay::parse(req.end_of_day.as_str()) {
        Some(time) => time,
        None => {
            return Err(WorkHoursError::InvalidEndTime);
        },
    };
    if find_zone(req.timezone.as_str()).is_some() {
        return Err(WorkHoursError::InvalidTimezone);
    }
    match ZonedDateTime::resolve(req.timezone.as_str(), local) {
        Some(start) => Ok((start, WorkWindow { start_of_day, end_of_day })),
        None => Err(WorkHoursError::UnresolvedStart),
    }
}

/// Finds the end of a range that starts at `start` in the named zone.
pub fn resolve_end(zone: &str, start: &ZonedDateTime, end: &EndOrDuration) -> (r: Result<
    ZonedDateTime,
    WorkHoursError,
>)
    ensures
        r == resolved_end(zone@, *start, *end),
{
    match end {
        EndOrDuration::EndDate { end_date } => match parse_local(end_date.as_str()) {
            None => Err(WorkHoursError::InvalidEndDate),
            Some(local) => match ZonedDateTime::resolve(zone, local) {
                None => Err(WorkHoursError::UnresolvedEnd),
                Some(end) => Ok(end),
            },
        },
        EndOrDuration::Duration { duration_seconds } => match start.plus_seconds(
            zone,
            *duration_seconds,
        ) {
            None => Err(WorkHoursError::UnresolvedEnd),
            Some(end) => Ok(end),
        },
    }
}

/// Reads and checks a request.
///
/// The checks come in a fixed order and the first that fails decides the
/// error: the jurisdiction, the start date, the start of the day, the end of
/// the day, the zone, the start's place in the zone, the end, that the start
/// is strictly before the end, and that the day starts strictly before it
/// ends.
pub fn resolve_request(req: &WorkHoursRequest) -> (r: Result<ResolvedRequest, WorkHoursError>)
    ensures
        r == resolution(*req),
{
    let (start, window) = match resolve_start(req) {
        Ok(found) => found,
        Err(e) => {
            return Err(e);
        },
    };
    let end = match resolve_end(req.timezone.as_str(), &start, &req.end_or_duration) {
        Ok(end) => end,
        Err(e) => {
            return Err(e);
        },
    };
    if !start.is_before(&end) {
        return Err(WorkHoursError::InvalidRange);
    }
    if !window.is_valid() {
        return Err(WorkHoursError::InvalidWindow);
    }
    Ok(ResolvedRequest { range: DateTimeRange { start, end, zone: req.timezone.clone() }, window })
}

/// The calendar day a holiday falls on, or `None` where its date does not
/// begin with a date.
pub fn day_of_holiday(holiday: &db::Holiday) -> (r: Option<i32>)
    ensures
        r == holiday_day(holiday.date@),
{
    let date: &str = holiday.date.as_str();
    if date.unicode_len() < 10 {
        None
    } else {
        read_date(date.substring_char(0, 10))
    }
}

/// The calendar days of a list of holidays, one for one and in order, with
/// `None` for each whose date does not begin with a date.
pub fn days_of_holidays(holidays: &Vec<db::Holiday>) -> (days: Vec<Option<i32>>)
    ensures
        days@ == holiday_days(holidays@),
{
    let mut days: Vec<Option<i32>> = Vec::new();
    let mut i: usize = 0;
    while i < holidays.len()
        invariant
            i <= holidays.len(),
            days@.len() == i,
            forall|j: int| 0 <= j < i ==> #[trigger] days@[j] == holiday_day(holidays@[j].date@),
        decreases holidays.len() - i,
    {
        days.push(day_of_holiday(&holidays[i]));
        i = i + 1;
    }
    assert(days@ =~= holiday_days(holidays@));
    days
}

/// Counts the seconds worked in a resolved request. The days of the range
/// are taken in order; a weekend day is off whatever the holidays. Fails
/// with `InvalidHolidayDate` at the first other day that is held against a
/// holiday whose date cannot be read before one that falls on it is found,
/// and with `UnresolvedDay` at the first working day on which the window
/// cannot be placed.
pub fn calculate_resolved(resolved: &ResolvedRequest, holidays: &Vec<db::Holiday>) -> (r: Result<
    WorkHoursResult,
    WorkHoursError,
>)
    ensures
        r == resolved_calculation(*resolved, holidays@),
{
    let days: Vec<Option<i32>> = days_of_holidays(holidays);
    match evaluate(&resolved.range, &resolved.window, &days) {
        Ok(result) => Ok(result),
        Err(EvalError::InvalidRange) => Err(WorkHoursError::InvalidRange),
        Err(EvalError::InvalidWindow) => Err(WorkHoursError::InvalidWindow),
        Err(EvalError::UnresolvedDay) => Err(WorkHoursError::UnresolvedDay),
        Err(EvalError::UnreadableHoliday) => Err(WorkHoursError::InvalidHolidayDate),
    }
}

/// Counts the seconds worked in the range of a request, given the holidays
/// of its jurisdiction.
///
/// The request is read and checked as `resolve_request` does; then every
/// calendar day from the day the range starts to the day it ends counts as
/// the evaluation says, with each holiday read as the day it falls on.
pub fn calculate_work_hours(req: &WorkHoursRequest, holidays: &Vec<db::Holiday>) -> (r: Result<
    WorkHoursResult,
    WorkHoursError,
>)
    ensures
        r == calculation(*req, holidays@),
{
    match resolve_request(req) {
        Ok(resolved) => calculate_resolved(&resolved, holidays),
        Err(e) => Err(e),
    }
}

/// Counts the seconds worked in the range that query parameters name.
/// Fails with `MissingEnd` where they give neither an end date nor a
/// duration, else as `calculate_work_hours` does.
pub fn get_work_hours(params: &WorkHoursQueryParams, holidays: &Vec<db::Holiday>) -> (r: Result<
    WorkHoursResult,
    WorkHoursError,
>)
    ensures
        r == match query_request(*params) {
            Ok(req) => calculation(req, holidays@),
            Err(e) => Err(e),
        },
{
    match request_from_query(params) {
        Ok(req) => calculate_work_hours(&req, holidays),
        Err(e) => Err(e),
    }
}

/// The code under which a country's holidays are stored: the country in
/// lower case. Fails with `InvalidCountry` exactly where the text is no
/// country code.
pub fn storage_country(country: &str) -> (r: Result<String, WorkHoursError>)
    ensures
        match r {
            Ok(code) => valid_country(country@) && code@ == lowercase_text(country@),
            Err(e) => !valid_country(country@) && e == WorkHoursError::InvalidCountry,
        },
{
    if is_valid(country) {
        Ok(lowercase(country))
    } else {
        Err(WorkHoursError::InvalidCountry)
    }
}

/// The records to store for holidays submitted for a country: one for each
/// holiday, in order, under the country in lower case. Fails with
/// `InvalidCountry` exactly where the text is no country code.
pub fn holidays_to_store(country: &str, holidays: &Vec<Holiday>) -> (r: Result<
    Vec<db::Holiday>,
    WorkHoursError,
>)
    ensures
        match r {
            Ok(rows) => valid_country(country@) && rows@.len() == holidays@.len() && forall|
                i: int,
            |
                0 <= i < holidays@.len() ==> (#[trigger] rows@[i]).id is None && rows@[i].date
                    == holidays@[i].date && rows@[i].description == holidays@[i].description
                    && rows@[i].country@ == lowercase_text(country@),
            Err(e) => !valid_country(country@) && e == WorkHoursError::InvalidCountry,
        },
{
    if !is_valid(country) {
        return Err(WorkHoursError::InvalidCountry);
    }
    let mut rows: Vec<db::Holiday> = Vec::new();
    let mut i: usize = 0;
    while i < holidays.len()
        invariant
            i <= holidays.len(),
            rows@.len() == i,
            forall|j: int|
                0 <= j < i ==> (#[trigger] rows@[j]).id is None && rows@[j].date
                    == holidays@[j].date && rows@[j].description == holidays@[j].description
                    && rows@[j].country@ == lowercase_text(country@),
        decreases holidays.len() - i,
    {
        rows.push(
            db::Holiday {
                id: None,
                date: holidays[i].date.clone(),
                description: holidays[i].description.clone(),
                country: lowercase(country),
            },
        );
        i = i + 1;
    }
    Ok(rows)
}

/// What is said of an error of a request: the message of the error and,
/// where a date or the zone was turned down, the words with which it was.
pub open spec fn description(req: WorkHoursRequest, e: WorkHoursError) -> Seq<char> {
    match e {
        WorkHoursError::InvalidStartDate => e.message_text() + ": "@ + parse_failure(
            req.start_date@,
        ),
        WorkHoursError::InvalidEndDate => match req.end_or_duration {
            EndOrDuration::EndDate { end_date } => e.message_text() + ": "@ + parse_failure(
                end_date@,
            ),
            EndOrDuration::Duration { .. } => e.message_text(),
        },
        WorkHoursError::InvalidTimezone => match zone_failure(req.timezone@) {
            Some(words) => e.message_text() + ": "@ + words,
            None => e.message_text(),
        },
        _ => e.message_text(),
    }
}

fn failure_words(text: &str) -> (r: String)
    ensures
        r@ == parse_failure(text@),
{
    match parse_local_or_say(text) {
        Ok(_) => String::new(),
        Err(words) => words,
    }
}

/// Says what went wrong with a request: the message of the error and, where
/// a date or the zone was turned down, the words with which it was.
pub fn describe(req: &WorkHoursRequest, e: WorkHoursError) -> (r: String)
    ensures
        r@ == description(*req, e),
{
    match e {
        WorkHoursError::InvalidStartDate => {
            let words: String = failure_words(req.start_date.as_str());
            e.message().concat(": ").concat(words.as_str())
        },
        WorkHoursError::InvalidEndDate => match &req.end_or_duration {
            EndOrDuration::EndDate { end_date } => {
                let words: String = failure_words(end_date.as_str());
                e.message().concat(": ").concat(words.as_str())
            },
            EndOrDuration::Duration { .. } => e.message(),
        },
        WorkHoursError::InvalidTimezone => match find_zone(req.timezone.as_str()) {
            Some(words) => e.message().concat(": ").concat(words.as_str()),
            None => e.message(),
        },
        _ => e.message(),
    }
}

/// Writes the outcome of a request as it is reported. `None` where the start
/// or the end cannot be written.
pub fn report(result: &WorkHoursResult) -> (r: Option<WorkHoursReport>)
    ensures
        match r {
            Some(written) => written.seconds == result.seconds && result.start.written()
                == Some(written.start_date@) && result.end.written() == Some(
                written.end_date@,
            ),
            None => result.start.written() is None || result.end.written() is None,
        },
{
    match (result.start.to_rfc3339(), result.end.to_rfc3339()) {
        (Some(start_date), Some(end_date)) => Some(
            WorkHoursReport { seconds: result.seconds, start_date, end_date },
        ),
        _ => None,
    }
}

/// The country of a request in lower case, as holidays are stored under it.
pub fn country_code(req: &WorkHoursRequest) -> (r: String)
    ensures
        r@ == lowercase_text(req.country@),
{
    lowercase(req.country.as_str())
}

/// The subdivision of a request, or the empty text where it names none.
pub fn subdivision_code(req: &WorkHoursRequest) -> (r: String)
    ensures
        r@ == match req.subdivision {
            Some(code) => code@,
            None => Seq::<char>::empty(),
        },
{
    match &req.subdivision {
        Some(code) => code.clone(),
        None => String::new(),
    }
}

/// The calendar year in which a resolved request starts: the year whose
/// holidays are looked up.
pub fn holiday_year(resolved: &ResolvedRequest) -> (r: Option<i32>)
    ensures
        r == year_of(resolved.range.start.local.day as int),
{
    year(resolved.range.start.local.day)
}

} // verus!
