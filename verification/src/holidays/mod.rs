//! National holidays.
use vstd::prelude::*;
use vstd::string::*;
use crate::error::{Error, Errored};
use crate::transport::{Request, BRASIL_API_URL};

verus! {

/// A national holiday.
#[derive(Debug, Clone, PartialEq, Eq)]
pub struct Holiday {
    /// The day, written as year, month and day with hyphens between them.
    pub date: String,
    pub kind: String,
    pub name: String,
    pub full_name: Option<String>,
}

/// The client of the holiday resource under one base address.
pub struct HolidayService {
    base_url: String,
}

impl HolidayService {
    /// The base address that the client was made with.
    pub closed spec fn base_url(&self) -> Seq<char> {
        self.base_url@
    }

    pub fn new(base_url: &str) -> (service: Self)
        ensures
            service.base_url() == base_url@,
    {
        Self { base_url: String::from_str(base_url) }
    }

    /// The request for the holidays of a year.
    pub fn get_holiday_request(&self, year: &str) -> (request: Request)
        ensures
            request.url@ == self.base_url() + "/api/feriados/v1/"@ + year@,
    {
        Request::to_item(self.base_url.as_str(), "/api/feriados/v1/", year)
    }
}

/// The request that lists the holidays of a year at the production service.
pub fn get_holidays(year: &str) -> (request: Request)
    ensures
        request.url@ == BRASIL_API_URL@ + "/api/feriados/v1/"@ + year@,
{
    HolidayService::new(BRASIL_API_URL).get_holiday_request(year)
}

/// The date under which a day is looked up: year, month and day as they
/// were given, with hyphens between them.
pub open spec fn date_key(year: Seq<char>, month: Seq<char>, day: Seq<char>) -> Seq<char> {
    year + "-"@ + month + "-"@ + day
}

/// Whether a position is the first in a listing whose holiday falls on a date.
pub open spec fn is_first_on(holidays: Seq<Holiday>, date: Seq<char>, at: int) -> bool {
    &&& 0 <= at < holidays.len()
    &&& holidays[at].date@ == date
    &&& forall|before: int| 0 <= before < at ==> (#[trigger] holidays[before]).date@ != date
}

/// Whether no holiday of a listing falls on a date.
pub open spec fn none_on(holidays: Seq<Holiday>, date: Seq<char>) -> bool {
    forall|at: int| 0 <= at < holidays.len() ==> (#[trigger] holidays[at]).date@ != date
}

/// Whether an error is the one made for a day that is no holiday: kind
/// `NotFound` with code 404, a fixed message and no error body.
pub open spec fn is_holiday_not_found(error: Error) -> bool {
    &&& error.code == Some(404u16)
    &&& error.error == Errored::NotFound
    &&& error.message@ == "holiday not found"@
    &&& error.api_error is None
}

/// Looks a day up in the listing of its year. The first holiday of the
/// listing that falls on the day is returned; where there is none, the
/// error is made here, without asking the service again.
pub fn get_holiday(holidays: Vec<Holiday>, year: &str, month: &str, day: &str) -> (found: Result<
    Holiday,
    Error,
>)
    ensures
        match found {
            Ok(holiday) => exists|at: int|
                #[trigger] is_first_on(holidays@, date_key(year@, month@, day@), at) && holiday
                    == holidays@[at],
            Err(error) => none_on(holidays@, date_key(year@, month@, day@)) && is_holiday_not_found(
                error,
            ) && error.consistent(),
        },
{
    let date = String::from_str(year).concat("-").concat(month).concat("-").concat(day);
    let mut listing = holidays;
    let mut at: usize = 0;
    while at < listing.len()
        invariant
            listing@ == holidays@,
            at <= listing.len(),
            date@ == date_key(year@, month@, day@),
            forall|before: int| 0 <= before < at ==> (#[trigger] holidays@[before]).date@ != date@,
        decreases listing.len() - at,
    {
        if listing[at].date == date {
            assert(is_first_on(holidays@, date_key(year@, month@, day@), at as int));
            return Ok(listing.remove(at));
        }
        at = at + 1;
    }
    Err(Error::new(String::from_str("holiday not found"), Errored::NotFound, Some(404)))
}

} // verus!
