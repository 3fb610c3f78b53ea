//! Postal codes (CEP).
use vstd::prelude::*;
use vstd::string::*;
use crate::error::{outcome_view, presence, presence_of, presence_view, Error};
use crate::transport::{Request, BRASIL_API_URL};

verus! {

/// The address that a postal code stands for.
#[derive(Debug, Clone, PartialEq, Eq)]
pub struct Cep {
    pub cep: String,
    pub state: String,
    pub city: String,
    pub neighborhood: String,
    pub street: String,
    pub service: String,
}

/// Where an address lies.
#[derive(Debug, Clone, PartialEq, Eq)]
pub struct Location {
    pub kind: String,
    pub coordinates: Coordinates,
}

/// A pair of coordinates, as the service writes them.
#[derive(Debug, Clone, PartialEq, Eq)]
pub struct Coordinates {
    pub longitude: String,
    pub latitude: String,
}

/// The error body of the postal-code resource, with the errors of the
/// providers that were asked.
#[derive(Debug, Clone, PartialEq, Eq)]
pub struct CepError {
    pub name: String,
    pub message: String,
    pub kind: String,
    pub errors: Vec<Error>,
}

/// The client of the postal-code resource under one base address.
pub struct CepService {
    base_url: String,
}

impl CepService {
    /// The base address that the client was made with.
    pub closed spec fn base_url(&self) -> Seq<char> {
        self.base_url@
    }

    pub fn new(base_url: &str) -> (service: Self)
        ensures
            service.base_url() == base_url@,
    {
        Self { base_url: String::from_str(base_url) }
    }

    /// The request for a postal code. The code goes into the address as it
    /// is.
    pub fn get_cep_request(&self, cep_code: &str) -> (request: Request)
        ensures
            request.url@ == self.base_url() + "/api/cep/v2/"@ + cep_code@,
    {
        Request::to_item(self.base_url.as_str(), "/api/cep/v2/", cep_code)
    }

    /// Reads the normalised outcome of a request for a postal code as an
    /// answer to whether the code is assigned.
    pub fn validate_cep<T>(&self, outcome: Result<T, Error>) -> (answer: Result<bool, Error>)
        ensures
            presence_view(answer) == presence_of(outcome_view(outcome)),
            answer matches Err(error) ==> outcome == Err::<T, Error>(error),
    {
        presence(outcome)
    }
}

/// The request that fetches a postal code from the production service.
pub fn get_cep(cep_code: &str) -> (request: Request)
    ensures
        request.url@ == BRASIL_API_URL@ + "/api/cep/v2/"@ + cep_code@,
{
    CepService::new(BRASIL_API_URL).get_cep_request(cep_code)
}

/// Tells from the normalised outcome of [`get_cep`] whether the postal code
/// is assigned: yes after a success, no after an error of kind `NotFound`.
/// Any other error is handed on.
pub fn validate<T>(outcome: Result<T, Error>) -> (answer: Result<bool, Error>)
    ensures
        presence_view(answer) == presence_of(outcome_view(outcome)),
        answer matches Err(error) ==> outcome == Err::<T, Error>(error),
{
    presence(outcome)
}

} // verus!
