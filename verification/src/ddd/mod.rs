//! Telephone area codes (DDD).
use vstd::prelude::*;
use vstd::string::*;
use crate::error::{outcome_view, presence, presence_of, presence_view, Error};
use crate::transport::{Request, BRASIL_API_URL};

verus! {

/// The state and the cities that an area code covers.
#[derive(Debug, Clone, PartialEq, Eq)]
pub struct Ddd {
    pub state: String,
    pub cities: Vec<String>,
    pub nome: Option<String>,
    pub regiao: Option<Regiao>,
}

/// A region of the country.
#[derive(Debug, Clone, PartialEq, Eq)]
pub struct Regiao {
    pub id: i32,
    pub sigla: String,
    pub nome: String,
}

/// The client of the area-code resource under one base address.
pub struct DDDService {
    base_url: String,
}

impl DDDService {
    /// The base address that the client was made with.
    pub closed spec fn base_url(&self) -> Seq<char> {
        self.base_url@
    }

    pub fn new(base_url: &str) -> (service: Self)
        ensures
            service.base_url() == base_url@,
    {
        Self { base_url: String::from_str(base_url) }
    }

    /// The request for an area code. The code goes into the address as it
    /// is.
    pub fn get_ddd_request(&self, ddd: &str) -> (request: Request)
        ensures
            request.url@ == self.base_url() + "/api/ddd/v1/"@ + ddd@,
    {
        Request::to_item(self.base_url.as_str(), "/api/ddd/v1/", ddd)
    }

    /// Reads the normalised outcome of a request for an area code as an
    /// answer to whether the code exists.
    pub fn validate_ddd<T>(&self, outcome: Result<T, Error>) -> (answer: Result<bool, Error>)
        ensures
            presence_view(answer) == presence_of(outcome_view(outcome)),
            answer matches Err(error) ==> outcome == Err::<T, Error>(error),
    {
        presence(outcome)
    }
}

/// The request that fetches an area code from the production service.
pub fn get_ddd(ddd: &str) -> (request: Request)
    ensures
        request.url@ == BRASIL_API_URL@ + "/api/ddd/v1/"@ + ddd@,
{
    DDDService::new(BRASIL_API_URL).get_ddd_request(ddd)
}

/// Tells from the normalised outcome of [`get_ddd`] whether the area code
/// exists: yes after a success, no after an error of kind `NotFound`. Any
/// other error is handed on.
pub fn ddd_exists<T>(outcome: Result<T, Error>) -> (answer: Result<bool, Error>)
    ensures
        presence_view(answer) == presence_of(outcome_view(outcome)),
        answer matches Err(error) ==> outcome == Err::<T, Error>(error),
{
    presence(outcome)
}

} // verus!
