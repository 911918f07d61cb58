use workhours::db;
use workhours::holidays_api::mock;
use workhours::holidays_api::mock::{clear_mock_holidays, set_mock_holidays, MockHolidays};
use workhours::holidays_api::{
    cache_key, convert_to_db_holiday, duplicate_holidays, follow_up, get_holidays_for_country,
    holiday_description, holidays_from_response, jurisdiction_code, key_of, persisted_or_empty,
    store_fetched, FetchFollowUp, Holiday, HolidayCache, HolidayLookup, LocalizedName,
    OpenHolidayApiResponse,
};
use workhours::{
    calculate_work_hours, country_code, default_end_of_day, default_start_of_day,
    request_from_query, subdivision_code, EndOrDuration, WorkHoursError, WorkHoursQueryParams,
    WorkHoursRequest,
};

fn holiday(date: &str, description: &str) -> Holiday {
    Holiday { date: date.to_string(), description: description.to_string() }
}

fn name(language: &str, text: &str) -> LocalizedName {
    LocalizedName { language: language.to_string(), text: text.to_string() }
}

fn record(date: &str, names: Vec<LocalizedName>) -> OpenHolidayApiResponse {
    OpenHolidayApiResponse { start_date: date.to_string(), name: names }
}

fn pairs(holidays: &Vec<Holiday>) -> Vec<(String, String)> {
    holidays.iter().map(|h| (h.date.clone(), h.description.clone())).collect()
}

fn fetch_of(lookup: HolidayLookup) -> workhours::holidays_api::HolidayRequest {
    match lookup {
        HolidayLookup::Fetch(request) => request,
        HolidayLookup::Cached(_) => panic!("expected a fetch"),
    }
}

fn cached_of(lookup: HolidayLookup) -> Vec<Holiday> {
    match lookup {
        HolidayLookup::Cached(holidays) => holidays,
        HolidayLookup::Fetch(_) => panic!("expected a cached answer"),
    }
}

#[test]
fn jurisdiction_is_the_subdivision_if_given() {
    assert_eq!(jurisdiction_code("us", ""), "US");
    assert_eq!(jurisdiction_code("us", "us-ca"), "US-CA");
    assert_eq!(jurisdiction_code("De", "de-by"), "DE-BY");
}

#[test]
fn cache_key_is_code_and_year() {
    assert_eq!(cache_key("fr", "", 2023), "FR2023");
    assert_eq!(cache_key("fr", "fr-idf", 2024), "FR-IDF2024");
    assert_eq!(cache_key("fr", "", -5), "FR-5");
}

#[test]
fn empty_cache_asks_for_a_fetch() {
    let cache = HolidayCache::new();
    let request = fetch_of(get_holidays_for_country(&cache, "us", "", 2023, 1_000));
    assert_eq!(request.country_code, "US");
    assert_eq!(request.subdivision_code, None);
    assert_eq!(request.year, 2023);
    assert_eq!(request.jurisdiction_key, "US");
    assert_eq!(cache_key("us", "", request.year), "US2023");
    assert_eq!(
        request.url(),
        "https://openholidaysapi.org/PublicHolidays?countryIsoCode=US&languageIsoCode=EN&validFrom=2023-01-01&validTo=2024-12-31"
    );
}

#[test]
fn fetch_for_a_subdivision_names_both_codes() {
    let cache = HolidayCache::new();
    let request = fetch_of(get_holidays_for_country(&cache, "de", "de-by", 2025, 0));
    assert_eq!(request.country_code, "DE");
    assert_eq!(request.subdivision_code, Some("DE-BY".to_string()));
    assert_eq!(request.jurisdiction_key, "DE-BY");
    assert_eq!(
        request.url(),
        "https://openholidaysapi.org/PublicHolidays?countryIsoCode=DE&subdivisionCode=DE-BY&languageIsoCode=EN&validFrom=2025-01-01&validTo=2026-12-31"
    );
}

#[test]
fn fetched_holidays_answer_for_a_day() {
    let mut cache = HolidayCache::new();
    let request = fetch_of(get_holidays_for_country(&cache, "us", "", 2023, 1_000));
    let records = vec![record("2023-07-04", vec![name("EN", "Independence Day")])];
    let fetched = store_fetched(&mut cache, &request, &records, 1_000);
    assert_eq!(pairs(&fetched), vec![("2023-07-04".to_string(), "Independence Day".to_string())]);

    let again = cached_of(get_holidays_for_country(&cache, "US", "", 2023, 1_000 + 86_399));
    assert_eq!(pairs(&again), pairs(&fetched));

    // At the second of expiry the entry is no longer live.
    let expired = fetch_of(get_holidays_for_country(&cache, "us", "", 2023, 1_000 + 86_400));
    assert_eq!(expired.jurisdiction_key, "US");
    assert_eq!(expired.year, 2023);

    // Another year and another jurisdiction have entries of their own.
    fetch_of(get_holidays_for_country(&cache, "us", "", 2024, 1_000));
    fetch_of(get_holidays_for_country(&cache, "us", "us-ca", 2023, 1_000));
}

#[test]
fn a_new_fetch_replaces_the_entry() {
    let mut cache = HolidayCache::new();
    let request = fetch_of(get_holidays_for_country(&cache, "us", "", 2023, 0));
    store_fetched(&mut cache, &request, &vec![record("2023-01-01", vec![])], 0);
    store_fetched(&mut cache, &request, &vec![record("2023-12-25", vec![name("EN", "Christmas")])], 50);
    let found = cached_of(get_holidays_for_country(&cache, "us", "", 2023, 86_400));
    assert_eq!(pairs(&found), vec![("2023-12-25".to_string(), "Christmas".to_string())]);
    assert_eq!(cache.lookup("US", 2023, 86_449).map(|h| h.len()), Some(1));
    assert_eq!(cache.lookup("US", 2023, 86_450).map(|h| h.len()), None);
}

#[test]
fn an_entry_stored_at_the_end_of_time_never_overflows() {
    let mut cache = HolidayCache::new();
    cache.store("K".to_string(), 2023, vec![holiday("2023-01-01", "x")], u64::MAX - 10);
    assert_eq!(cache.lookup("K", 2023, u64::MAX - 1).map(|h| h.len()), Some(1));
    assert_eq!(cache.lookup("K", 2023, u64::MAX).map(|h| h.len()), None);
}

#[test]
fn an_entry_answers_for_its_own_jurisdiction_and_year_only() {
    let mut cache = HolidayCache::new();
    cache.store("US1".to_string(), 2023, vec![holiday("2023-01-01", "x")], 0);
    assert_eq!(key_of("US1", 2023), key_of("US", 12023));
    assert_eq!(cache.lookup("US1", 2023, 1).map(|h| h.len()), Some(1));
    assert_eq!(cache.lookup("US", 12023, 1).map(|h| h.len()), None);
    assert_eq!(cache.lookup("US1", 2024, 1).map(|h| h.len()), None);
    assert_eq!(cache.lookup("US", 2023, 1).map(|h| h.len()), None);
    cache.store("US".to_string(), 12023, vec![], 0);
    assert_eq!(cache.lookup("US", 12023, 1).map(|h| h.len()), Some(0));
    assert_eq!(cache.lookup("US1", 2023, 1).map(|h| h.len()), None);
}

#[test]
fn description_prefers_english() {
    assert_eq!(holiday_description(&vec![name("DE", "Weihnachten"), name("EN", "Christmas")]), "Christmas");
    assert_eq!(
        holiday_description(&vec![name("EN", "Christmas Day"), name("EN", "Christmas")]),
        "Christmas Day"
    );
    assert_eq!(holiday_description(&vec![name("DE", "Weihnachten"), name("FR", "Noël")]), "Weihnachten");
    assert_eq!(holiday_description(&vec![name("en", "lower case is not English here")]), "lower case is not English here");
    assert_eq!(holiday_description(&vec![name("de", "a"), name("en", "b")]), "a");
    assert_eq!(holiday_description(&vec![]), "");
}

#[test]
fn response_is_read_record_by_record() {
    let records = vec![
        record("2023-12-25", vec![name("DE", "Weihnachten"), name("EN", "Christmas")]),
        record("2023-12-26", vec![]),
    ];
    let holidays = holidays_from_response(&records);
    assert_eq!(
        pairs(&holidays),
        vec![
            ("2023-12-25".to_string(), "Christmas".to_string()),
            ("2023-12-26".to_string(), "".to_string())
        ]
    );
    assert_eq!(holidays_from_response(&vec![]).len(), 0);
}

#[test]
fn conversion_keeps_dates_and_sets_the_country() {
    let converted = convert_to_db_holiday(
        vec![holiday("2023-12-25T00:00:00Z", "Christmas"), holiday("2023-01-01", "New Year's Day")],
        "us",
    );
    assert_eq!(converted.len(), 2);
    assert_eq!(converted[0].id, None);
    assert_eq!(converted[0].date, "2023-12-25T00:00:00Z");
    assert_eq!(converted[0].description, "Christmas");
    assert_eq!(converted[0].country, "us");
    assert_eq!(converted[1].date, "2023-01-01");
    assert_eq!(converted[1].description, "New Year's Day");
    assert_eq!(converted[1].country, "us");
    assert_eq!(convert_to_db_holiday(vec![], "us").len(), 0);
}

#[test]
fn copies_are_equal() {
    let list = vec![holiday("2023-12-25", "Christmas"), holiday("2023-12-26", "Boxing Day")];
    assert_eq!(pairs(&duplicate_holidays(&list)), pairs(&list));
    assert_eq!(pairs(&vec![list[0].duplicate()]), vec![("2023-12-25".to_string(), "Christmas".to_string())]);
}

#[test]
fn nothing_cached_and_nothing_stored_gives_an_empty_list() {
    let cache = HolidayCache::new();
    let source = MockHolidays::new();
    fetch_of(get_holidays_for_country(&cache, "aq", "", 2023, 0));
    assert!(mock::get_holidays_for_country(&source, "aq", "").is_err());
    assert_eq!(persisted_or_empty(None).len(), 0);
    assert_eq!(persisted_or_empty(Some(vec![])).len(), 0);

    let request = WorkHoursRequest {
        start_date: "2023-10-02T09:00:00Z".to_string(),
        end_or_duration: EndOrDuration::EndDate { end_date: "2023-10-06T17:00:00Z".to_string() },
        start_of_day: default_start_of_day(),
        end_of_day: default_end_of_day(),
        country: "AQ".to_string(),
        subdivision: None,
        timezone: "UTC".to_string(),
    };
    let result = calculate_work_hours(&request, &persisted_or_empty(None)).unwrap();
    assert_eq!(result.seconds, 40 * 3600);
}

#[test]
fn stored_holidays_are_the_fallback() {
    let kept = persisted_or_empty(Some(vec![db::Holiday {
        id: Some(7),
        date: "2023-10-04T00:00:00Z".to_string(),
        description: "Test Holiday".to_string(),
        country: "us".to_string(),
    }]));
    assert_eq!(kept.len(), 1);
    assert_eq!(kept[0].id, Some(7));
    assert_eq!(kept[0].date, "2023-10-04T00:00:00Z");
}

#[test]
fn stand_in_answers_under_the_upper_case_code() {
    let mut source = MockHolidays::new();
    set_mock_holidays(&mut source, "US", vec![holiday("2023-10-04T00:00:00Z", "Test Holiday")]);
    set_mock_holidays(&mut source, "US-CA", vec![]);
    let found = mock::get_holidays_for_country(&source, "us", "").unwrap();
    assert_eq!(pairs(&found), vec![("2023-10-04T00:00:00Z".to_string(), "Test Holiday".to_string())]);
    assert_eq!(mock::get_holidays_for_country(&source, "us", "us-ca").unwrap().len(), 0);
    assert_eq!(
        mock::get_holidays_for_country(&source, "fr", "").unwrap_err(),
        "No mock holidays found for country: fr"
    );

    // A code set in lower case is never found: lookups go by upper case.
    set_mock_holidays(&mut source, "fr", vec![holiday("2023-07-14", "Bastille Day")]);
    assert!(mock::get_holidays_for_country(&source, "fr", "").is_err());

    set_mock_holidays(&mut source, "US", vec![]);
    assert_eq!(mock::get_holidays_for_country(&source, "us", "").unwrap().len(), 0);

    clear_mock_holidays(&mut source);
    assert!(mock::get_holidays_for_country(&source, "us", "").is_err());
    assert!(mock::get_holidays_for_country(&source, "us", "us-ca").is_err());
}

#[test]
fn country_and_subdivision_of_a_request() {
    let request = WorkHoursRequest {
        start_date: String::new(),
        end_or_duration: EndOrDuration::default(),
        start_of_day: default_start_of_day(),
        end_of_day: default_end_of_day(),
        country: "Us".to_string(),
        subdivision: Some("us-ny".to_string()),
        timezone: "UTC".to_string(),
    };
    assert_eq!(country_code(&request), "us");
    assert_eq!(subdivision_code(&request), "us-ny");
    let plain = WorkHoursRequest::default();
    assert_eq!(country_code(&plain), "");
    assert_eq!(subdivision_code(&plain), "");
    assert_eq!(plain.start_of_day, "");
    assert!(matches!(plain.end_or_duration, EndOrDuration::EndDate { ref end_date } if end_date.is_empty()));
    assert_eq!(default_start_of_day(), "09:00:00");
    assert_eq!(default_end_of_day(), "17:00:00");
}

#[test]
fn query_needs_an_end_or_a_duration() {
    let mut params = WorkHoursQueryParams {
        start_date: "2023-10-02T09:00:00Z".to_string(),
        end_date: None,
        duration_seconds: None,
        start_of_day: default_start_of_day(),
        end_of_day: default_end_of_day(),
        country: "us".to_string(),
        timezone: "UTC".to_string(),
        subdivision: Some("us-ny".to_string()),
    };
    assert_eq!(request_from_query(&params).unwrap_err(), WorkHoursError::MissingEnd);
    assert_eq!(
        WorkHoursError::MissingEnd.message(),
        "Either endDate or durationSeconds must be provided"
    );

    params.duration_seconds = Some(60);
    let by_duration = request_from_query(&params).unwrap();
    assert!(matches!(by_duration.end_or_duration, EndOrDuration::Duration { duration_seconds: 60 }));
    assert_eq!(by_duration.start_date, "2023-10-02T09:00:00Z");
    assert_eq!(by_duration.subdivision, Some("us-ny".to_string()));
    assert_eq!(by_duration.timezone, "UTC");
    assert_eq!(by_duration.country, "us");

    params.end_date = Some("2023-10-03T09:00:00Z".to_string());
    let by_date = request_from_query(&params).unwrap();
    assert!(matches!(by_date.end_or_duration, EndOrDuration::EndDate { ref end_date } if end_date == "2023-10-03T09:00:00Z"));
}

#[test]
fn errors_of_the_request_are_told_from_the_others() {
    let at_fault = [
        WorkHoursError::MissingEnd,
        WorkHoursError::InvalidCountry,
        WorkHoursError::InvalidStartDate,
        WorkHoursError::InvalidStartTime,
        WorkHoursError::InvalidEndTime,
        WorkHoursError::InvalidTimezone,
        WorkHoursError::InvalidEndDate,
        WorkHoursError::InvalidRange,
        WorkHoursError::InvalidWindow,
    ];
    for e in at_fault {
        assert!(e.is_invalid_input());
        assert!(!e.message().is_empty());
    }
    let others = [
        WorkHoursError::UnresolvedStart,
        WorkHoursError::UnresolvedEnd,
        WorkHoursError::InvalidHolidayDate,
        WorkHoursError::UnresolvedDay,
    ];
    for e in others {
        assert!(!e.is_invalid_input());
        assert!(!e.message().is_empty());
    }
    assert_eq!(WorkHoursError::InvalidRange.message(), "Start date must be strictly before end date");
}

#[test]
fn a_failed_fetch_is_followed_by_a_read_of_the_store() {
    assert!(matches!(follow_up(Err("unreachable".to_string()), "us"), FetchFollowUp::ReadStore));
    match follow_up(Ok(vec![holiday("2023-07-04", "Independence Day")]), "us") {
        FetchFollowUp::Use(rows) => {
            assert_eq!(rows.len(), 1);
            assert_eq!(rows[0].id, None);
            assert_eq!(rows[0].date, "2023-07-04");
            assert_eq!(rows[0].description, "Independence Day");
            assert_eq!(rows[0].country, "us");
        }
        FetchFollowUp::ReadStore => panic!("expected the fetched holidays"),
    }
    assert!(matches!(follow_up(Ok(vec![]), "us"), FetchFollowUp::Use(rows) if rows.is_empty()));
}
