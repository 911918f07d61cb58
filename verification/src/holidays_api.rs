//! Public holidays of a jurisdiction: what to ask the public source for,
//! how to read its answer, and a cache in front of it whose entries live for
//! a day.
//!
//! Nothing here talks to the network. A lookup either answers from the cache
//! or says what to fetch; the caller fetches and hands the answer back.

use crate::db;
use crate::text::{decimal, decimal_text, uppercase, uppercase_text};
use vstd::hash_map::StringHashMap;
use vstd::prelude::*;
use vstd::string::StringExecFns;

pub mod mock;

verus! {

/// Seconds for which a cache entry stays live.
pub const CACHE_SECONDS: u64 = 86_400;

/// A holiday as the public source reports it.
#[derive(Debug, Clone)]
pub struct Holiday {
    pub date: String,
    pub description: String,
}

/// A holiday's name in one language.
#[derive(Debug)]
pub struct LocalizedName {
    pub language: String,
    pub text: String,
}

/// One record of the public source's answer.
#[derive(Debug)]
pub struct OpenHolidayApiResponse {
    pub start_date: String,
    pub name: Vec<LocalizedName>,
}

/// The holidays fetched for one jurisdiction and year, and the second at
/// which they stop being live.
pub struct CacheEntry {
    pub jurisdiction_key: String,
    pub year: i32,
    pub holidays: Vec<Holiday>,
    pub expiration: u64,
}

/// The cache of fetched holidays, by cache key.
pub struct HolidayCache {
    entries: StringHashMap<CacheEntry>,
}

/// What to ask the public source for, and the jurisdiction under which the
/// answer is kept.
#[derive(Debug)]
pub struct HolidayRequest {
    pub country_code: String,
    pub subdivision_code: Option<String>,
    pub year: i32,
    pub jurisdiction_key: String,
}

/// The outcome of asking the cache.
pub enum HolidayLookup {
    /// A live entry answered.
    Cached(Vec<Holiday>),
    /// No live entry: this is what to fetch.
    Fetch(HolidayRequest),
}

impl Holiday {
    /// A copy with the same date and description.
    pub fn duplicate(&self) -> (r: Holiday)
        ensures
            r == *self,
    {
        Holiday { date: self.date.clone(), description: self.description.clone() }
    }
}

/// A copy of a list of holidays.
pub fn duplicate_holidays(holidays: &Vec<Holiday>) -> (r: Vec<Holiday>)
    ensures
        r@ == holidays@,
{
    let mut copy: Vec<Holiday> = Vec::new();
    let mut i: usize = 0;
    while i < holidays.len()
        invariant
            i <= holidays.len(),
            copy@ == holidays@.subrange(0, i as int),
        decreases holidays.len() - i,
    {
        copy.push(holidays[i].duplicate());
        assert(copy@ == holidays@.subrange(0, i + 1));
        i = i + 1;
    }
    assert(holidays@.subrange(0, holidays.len() as int) == holidays@);
    copy
}

/// The code under which a jurisdiction's holidays are looked up: the
/// subdivision in upper case where one is given, else the country in upper
/// case.
pub open spec fn jurisdiction_key(country: Seq<char>, subdivision: Seq<char>) -> Seq<char> {
    if subdivision.len() != 0 {
        uppercase_text(subdivision)
    } else {
        uppercase_text(country)
    }
}

/// The cache key of a jurisdiction and a year: the jurisdiction's code
/// followed by the year.
pub open spec fn key_text(jurisdiction: Seq<char>, year: int) -> Seq<char> {
    jurisdiction + decimal_text(year)
}

/// The cache key of a country, a subdivision and a year.
pub open spec fn cache_key_text(country: Seq<char>, subdivision: Seq<char>, year: int) -> Seq<
    char,
> {
    key_text(jurisdiction_key(country, subdivision), year)
}

/// The second at which an entry stored at `now` stops being live.
pub open spec fn expiry(now: u64) -> u64 {
    if now + CACHE_SECONDS > u64::MAX {
        u64::MAX
    } else {
        (now + CACHE_SECONDS) as u64
    }
}

/// The code under which a jurisdiction's holidays are looked up.
pub fn jurisdiction_code(country: &str, subdivision: &str) -> (code: String)
    ensures
        code@ == jurisdiction_key(country@, subdivision@),
{
    if !subdivision.is_empty() {
        uppercase(subdivision)
    } else {
        uppercase(country)
    }
}

/// The cache key of a jurisdiction and a year.
pub fn key_of(jurisdiction: &str, year: i32) -> (key: String)
    ensures
        key@ == key_text(jurisdiction@, year as int),
{
    let year_text: String = decimal(year as i64);
    String::from_str(jurisdiction).concat(year_text.as_str())
}

/// The cache key of a country, a subdivision and a year.
pub fn cache_key(country: &str, subdivision: &str, year: i32) -> (key: String)
    ensures
        key@ == cache_key_text(country@, subdivision@, year as int),
{
    let jurisdiction: String = jurisdiction_code(country, subdivision);
    key_of(jurisdiction.as_str(), year)
}

impl View for HolidayCache {
    type V = Map<Seq<char>, CacheEntry>;

    closed spec fn view(&self) -> Self::V {
        self.entries@
    }
}

impl HolidayCache {
    /// The holidays kept for a jurisdiction and a year, if the entry under
    /// their cache key was stored for them and is still live at `now`.
    pub open spec fn live(self, jurisdiction: Seq<char>, year: int, now: u64) -> Option<
        Seq<Holiday>,
    > {
        let key = key_text(jurisdiction, year);
        if self@.contains_key(key) && self@[key].jurisdiction_key@ == jurisdiction
            && self@[key].year == year && self@[key].expiration > now {
            Some(self@[key].holidays@)
        } else {
            None
        }
    }

    /// A cache without entries.
    pub fn new() -> (cache: HolidayCache)
        ensures
            cache@ == Map::<Seq<char>, CacheEntry>::empty(),
    {
        HolidayCache { entries: StringHashMap::new() }
    }

    /// A copy of the holidays kept for a jurisdiction and a year, if the
    /// entry is still live at `now`.
    pub fn lookup(&self, jurisdiction: &str, year: i32, now: u64) -> (r: Option<Vec<Holiday>>)
        ensures
            match r {
                Some(holidays) => self.live(jurisdiction@, year as int, now) == Some(holidays@),
                None => self.live(jurisdiction@, year as int, now) is None,
            },
    {
        let key: String = key_of(jurisdiction, year);
        match self.entries.get(key.as_str()) {
            Some(entry) => {
                if entry.year == year && entry.expiration > now && entry.jurisdiction_key
                    == String::from_str(jurisdiction) {
                    Some(duplicate_holidays(&entry.holidays))
                } else {
                    None
                }
            },
            None => None,
        }
    }

    /// Keeps the holidays for a jurisdiction and a year, in place of any
    /// entry under their cache key, to stay live for a day from `now`.
    pub fn store(&mut self, jurisdiction: String, year: i32, holidays: Vec<Holiday>, now: u64)
        ensures
            final(self)@ == old(self)@.insert(
                key_text(jurisdiction@, year as int),
                CacheEntry { jurisdiction_key: jurisdiction, year, holidays, expiration: expiry(now) },
            ),
    {
        let expiration: u64 = if now > u64::MAX - CACHE_SECONDS {
            u64::MAX
        } else {
            now + CACHE_SECONDS
        };
        let key: String = key_of(jurisdiction.as_str(), year);
        self.entries.insert(
            key,
            CacheEntry { jurisdiction_key: jurisdiction, year, holidays, expiration },
        );
    }
}

impl HolidayRequest {
    /// The request asks for the holidays of the given jurisdiction in the
    /// given year and the year after it.
    pub open spec fn is_for(self, country: Seq<char>, subdivision: Seq<char>, year: int) -> bool {
        &&& self.country_code@ == uppercase_text(country)
        &&& match self.subdivision_code {
            Some(code) => subdivision.len() != 0 && code@ == uppercase_text(subdivision),
            None => subdivision.len() == 0,
        }
        &&& self.year == year
        &&& self.jurisdiction_key@ == jurisdiction_key(country, subdivision)
    }

    /// First year of the validity window asked for.
    pub open spec fn valid_from(self) -> int {
        self.year as int
    }

    /// Last year of the validity window asked for: a range may cross into the
    /// next year.
    pub open spec fn valid_to(self) -> int {
        self.year + 1
    }

    /// The address at which the public source answers this request.
    pub open spec fn url_text(self) -> Seq<char> {
        let head = "https://openholidaysapi.org/PublicHolidays?countryIsoCode="@
            + self.country_code@;
        let place = match self.subdivision_code {
            Some(code) => head + "&subdivisionCode="@ + code@,
            None => head,
        };
        place + "&languageIsoCode=EN&validFrom="@ + decimal_text(self.valid_from())
            + "-01-01&validTo="@ + decimal_text(self.valid_to()) + "-12-31"@
    }

    /// The address at which the public source answers this request.
    pub fn url(&self) -> (r: String)
        ensures
            r@ == self.url_text(),
    {
        let head: String = String::from_str(
            "https://openholidaysapi.org/PublicHolidays?countryIsoCode=",
        ).concat(self.country_code.as_str());
        let place: String = match &self.subdivision_code {
            Some(code) => head.concat("&subdivisionCode=").concat(code.as_str()),
            None => head,
        };
        let from: String = decimal(self.year as i64);
        let to: String = decimal(self.year as i64 + 1);
        place.concat("&languageIsoCode=EN&validFrom=").concat(from.as_str()).concat(
            "-01-01&validTo=",
        ).concat(to.as_str()).concat("-12-31")
    }
}

/// Asks the cache for the holidays of a jurisdiction in a year.
///
/// A live entry stored for the jurisdiction and the year answers. Without
/// one the result says what to fetch; the cache itself is left as it is until
/// the answer is handed to `store_fetched`.
pub fn get_holidays_for_country(
    cache: &HolidayCache,
    country: &str,
    subdivision: &str,
    current_year: i32,
    now: u64,
) -> (r: HolidayLookup)
    ensures
        match r {
            HolidayLookup::Cached(holidays) => cache.live(
                jurisdiction_key(country@, subdivision@),
                current_year as int,
                now,
            ) == Some(holidays@),
            HolidayLookup::Fetch(request) => cache.live(
                jurisdiction_key(country@, subdivision@),
                current_year as int,
                now,
            ) is None && request.is_for(country@, subdivision@, current_year as int),
        },
{
    let jurisdiction: String = jurisdiction_code(country, subdivision);
    match cache.lookup(jurisdiction.as_str(), current_year, now) {
        Some(holidays) => HolidayLookup::Cached(holidays),
        None => {
            let subdivision_code: Option<String> = if !subdivision.is_empty() {
                Some(uppercase(subdivision))
            } else {
                None
            };
            HolidayLookup::Fetch(
                HolidayRequest {
                    country_code: uppercase(country),
                    subdivision_code,
                    year: current_year,
                    jurisdiction_key: jurisdiction,
                },
            )
        },
    }
}

/// The name is given in English.
pub open spec fn in_english(name: LocalizedName) -> bool {
    name.language@ == "EN"@
}

/// The text of the first English name at or after position `from`.
pub open spec fn english_text(names: Seq<LocalizedName>, from: int) -> Option<Seq<char>>
    decreases names.len() - from,
{
    if from < 0 || from >= names.len() {
        None
    } else if in_english(names[from]) {
        Some(names[from].text@)
    } else {
        english_text(names, from + 1)
    }
}

/// The description of a holiday: its first English name, else its first
/// name, else nothing.
pub open spec fn description_text(names: Seq<LocalizedName>) -> Seq<char> {
    match english_text(names, 0) {
        Some(text) => text,
        None => if names.len() > 0 {
            names[0].text@
        } else {
            Seq::<char>::empty()
        },
    }
}

/// The description of a holiday: its first English name, else its first
/// name, else nothing.
pub fn holiday_description(names: &Vec<LocalizedName>) -> (r: String)
    ensures
        r@ == description_text(names@),
{
    let english: String = String::from_str("EN");
    let mut i: usize = 0;
    while i < names.len()
        invariant
            i <= names.len(),
            english@ == "EN"@,
            english_text(names@, 0) == english_text(names@, i as int),
        decreases names.len() - i,
    {
        if names[i].language == english {
            return names[i].text.clone();
        }
        i = i + 1;
    }
    if names.len() > 0 {
        names[0].text.clone()
    } else {
        String::new()
    }
}

/// The holidays are the records read one by one: each keeps the record's
/// start date and takes its description from the record's names.
pub open spec fn reads_records(holidays: Seq<Holiday>, records: Seq<OpenHolidayApiResponse>)
    -> bool {
    &&& holidays.len() == records.len()
    &&& forall|i: int|
        0 <= i < records.len() ==> (#[trigger] holidays[i]).date@ == records[i].start_date@
            && holidays[i].description@ == description_text(records[i].name@)
}

/// Reads the public source's answer as a list of holidays.
pub fn holidays_from_response(records: &Vec<OpenHolidayApiResponse>) -> (holidays: Vec<Holiday>)
    ensures
        reads_records(holidays@, records@),
{
    let mut holidays: Vec<Holiday> = Vec::new();
    let mut i: usize = 0;
    while i < records.len()
        invariant
            i <= records.len(),
            reads_records(holidays@, records@.subrange(0, i as int)),
        decreases records.len() - i,
    {
        holidays.push(
            Holiday {
                date: records[i].start_date.clone(),
                description: holiday_description(&records[i].name),
            },
        );
        i = i + 1;
    }
    assert(records@.subrange(0, records.len() as int) == records@);
    holidays
}

/// Takes the public source's answer to a request: reads it as holidays,
/// keeps them in the cache for the request's jurisdiction and year for a day
/// from `now`, in place of any entry under the same cache key, and hands them
/// back. Every other entry stays as it was.
pub fn store_fetched(
    cache: &mut HolidayCache,
    request: &HolidayRequest,
    records: &Vec<OpenHolidayApiResponse>,
    now: u64,
) -> (holidays: Vec<Holiday>)
    ensures
        reads_records(holidays@, records@),
        forall|at: u64|
            #[trigger] final(cache).live(request.jurisdiction_key@, request.year as int, at) == (
            if at < expiry(now) {
                Some(holidays@)
            } else {
                None::<Seq<Holiday>>
            }),
        final(cache)@.remove(key_text(request.jurisdiction_key@, request.year as int)) == old(
            cache,
        )@.remove(key_text(request.jurisdiction_key@, request.year as int)),
{
    let holidays: Vec<Holiday> = holidays_from_response(records);
    let kept: Vec<Holiday> = duplicate_holidays(&holidays);
    cache.store(request.jurisdiction_key.clone(), request.year, kept, now);
    assert(final(cache)@.remove(key_text(request.jurisdiction_key@, request.year as int)) =~= old(
        cache,
    )@.remove(key_text(request.jurisdiction_key@, request.year as int)));
    holidays
}

/// What to do once the public source has been asked.
pub enum FetchFollowUp {
    /// The source answered: these are the holidays to work with.
    Use(Vec<db::Holiday>),
    /// The source failed: read the persisted store for the country.
    ReadStore,
}

/// Decides what follows a fetch: the fetched holidays, as records of the
/// country, where the source answered; a read of the persisted store where
/// it failed, whatever the failure.
pub fn follow_up(fetched: Result<Vec<Holiday>, String>, country: &str) -> (r: FetchFollowUp)
    ensures
        match fetched {
            Ok(holidays) => r matches FetchFollowUp::Use(records) && records@.len()
                == holidays@.len() && forall|i: int|
                0 <= i < holidays@.len() ==> (#[trigger] records@[i]).id is None
                    && records@[i].date == holidays@[i].date && records@[i].description
                    == holidays@[i].description && records@[i].country@ == country@,
            Err(_) => r is ReadStore,
        },
{
    match fetched {
        Ok(holidays) => FetchFollowUp::Use(convert_to_db_holiday(holidays, country)),
        Err(_) => FetchFollowUp::ReadStore,
    }
}

/// The holidays to work with once the fetch has failed: what the persisted
/// store holds for the country, or nothing where the store could not be read.
pub open spec fn fallback(persisted: Option<Vec<db::Holiday>>) -> Seq<db::Holiday> {
    match persisted {
        Some(stored) => stored@,
        None => Seq::<db::Holiday>::empty(),
    }
}

/// Takes what was read from the persisted store after a failed fetch, if
/// it could be read, and hands back the holidays to work with.
pub fn persisted_or_empty(persisted: Option<Vec<db::Holiday>>) -> (r: Vec<db::Holiday>)
    ensures
        r@ == fallback(persisted),
{
    match persisted {
        Some(stored) => stored,
        None => Vec::new(),
    }
}

/// Turns fetched holidays into records of the given country, not yet
/// stored.
pub fn convert_to_db_holiday(holidays: Vec<Holiday>, country: &str) -> (r: Vec<db::Holiday>)
    ensures
        r@.len() == holidays@.len(),
        forall|i: int|
            0 <= i < holidays@.len() ==> (#[trigger] r@[i]).id is None && r@[i].date
                == holidays@[i].date && r@[i].description == holidays@[i].description
                && r@[i].country@ == country@,
{
    let mut records: Vec<db::Holiday> = Vec::new();
    let mut i: usize = 0;
    while i < holidays.len()
        invariant
            i <= holidays.len(),
            records@.len() == i,
            forall|j: int|
                0 <= j < i ==> (#[trigger] records@[j]).id is None && records@[j].date
                    == holidays@[j].date && records@[j].description == holidays@[j].description
                    && records@[j].country@ == country@,
        decreases holidays.len() - i,
    {
        records.push(
            db::Holiday {
                id: None,
                date: holidays[i].date.clone(),
                description: holidays[i].description.clone(),
                country: String::from_str(country),
            },
        );
        i = i + 1;
    }
    records
}

/// With no entry under the cache key of a jurisdiction and a year, the
/// cache has no answer for them at any time; and once the fetch has failed,
/// a store that holds nothing for the country, or that cannot be read, leaves
/// an empty list of holidays.
pub proof fn lemma_nothing_known_gives_empty(
    cache: HolidayCache,
    jurisdiction: Seq<char>,
    year: int,
    now: u64,
    persisted: Option<Vec<db::Holiday>>,
)
    requires
        !cache@.contains_key(key_text(jurisdiction, year)),
        persisted matches Some(stored) ==> stored@.len() == 0,
    ensures
        cache.live(jurisdiction, year, now) is None,
        fallback(persisted).len() == 0,
{
}

/// An answer of the cache was stored for the jurisdiction and the year that
/// were asked for, whatever their cache keys look like.
pub proof fn lemma_answer_is_for_what_was_asked(
    cache: HolidayCache,
    jurisdiction: Seq<char>,
    year: int,
    now: u64,
)
    requires
        cache.live(jurisdiction, year, now) is Some,
    ensures
        cache@[key_text(jurisdiction, year)].jurisdiction_key@ == jurisdiction,
        cache@[key_text(jurisdiction, year)].year == year,
        cache@[key_text(jurisdiction, year)].holidays@ == cache.live(jurisdiction, year, now)->0,
{
}

/// Holidays kept for one jurisdiction and year never answer for another
/// jurisdiction or another year: after they are stored, what the cache says
/// of any other pair is what it said before, or nothing.
pub proof fn lemma_store_answers_for_its_own_only(
    before: HolidayCache,
    after: HolidayCache,
    entry: CacheEntry,
    jurisdiction: Seq<char>,
    year: int,
    now: u64,
)
    requires
        after@ == before@.insert(key_text(entry.jurisdiction_key@, entry.year as int), entry),
        jurisdiction != entry.jurisdiction_key@ || year != entry.year,
    ensures
        after.live(jurisdiction, year, now) is Some ==> after.live(jurisdiction, year, now)
            == before.live(jurisdiction, year, now),
{
}

} // verus!
