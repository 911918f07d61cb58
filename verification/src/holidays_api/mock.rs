//! A stand-in for the public source that answers from holidays set by hand.

use crate::holidays_api::{duplicate_holidays, jurisdiction_code, jurisdiction_key, Holiday};
use vstd::hash_map::StringHashMap;
use vstd::prelude::*;
use vstd::string::StringExecFns;

verus! {

/// Holidays set by hand, by the code they were set under.
pub struct MockHolidays {
    by_code: StringHashMap<Vec<Holiday>>,
}

impl View for MockHolidays {
    type V = Map<Seq<char>, Vec<Holiday>>;

    closed spec fn view(&self) -> Self::V {
        self.by_code@
    }
}

impl MockHolidays {
    /// A stand-in that knows no holidays.
    pub fn new() -> (store: MockHolidays)
        ensures
            store@ == Map::<Seq<char>, Vec<Holiday>>::empty(),
    {
        MockHolidays { by_code: StringHashMap::new() }
    }
}

/// The message with which the stand-in turns down a country it has no
/// holidays for.
pub open spec fn missing_text(country: Seq<char>) -> Seq<char> {
    "No mock holidays found for country: "@ + country
}

/// Sets the holidays under a code, in place of any that were set under it.
/// The code is kept as written.
pub fn set_mock_holidays(store: &mut MockHolidays, country: &str, holidays: Vec<Holiday>)
    ensures
        final(store)@ == old(store)@.insert(country@, holidays),
{
    store.by_code.insert(String::from_str(country), holidays);
}

/// Forgets all holidays that were set.
pub fn clear_mock_holidays(store: &mut MockHolidays)
    ensures
        final(store)@ == Map::<Seq<char>, Vec<Holiday>>::empty(),
{
    store.by_code.clear();
}

/// The holidays set under the jurisdiction's code: the subdivision in upper
/// case where one is given, else the country in upper case. Where none were
/// set under that code, the error names the country.
pub fn get_holidays_for_country(store: &MockHolidays, country: &str, subdivision: &str) -> (r:
    Result<Vec<Holiday>, String>)
    ensures
        match r {
            Ok(holidays) => store@.contains_key(jurisdiction_key(country@, subdivision@))
                && holidays@ == store@[jurisdiction_key(country@, subdivision@)]@,
            Err(message) => !store@.contains_key(jurisdiction_key(country@, subdivision@))
                && message@ == missing_text(country@),
        },
{
    let code: String = jurisdiction_code(country, subdivision);
    match store.by_code.get(code.as_str()) {
        Some(holidays) => Ok(duplicate_holidays(holidays)),
        None => Err(String::from_str("No mock holidays found for country: ").concat(country)),
    }
}

} // verus!
