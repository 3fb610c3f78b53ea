//! Books by ISBN.
use vstd::prelude::*;
use vstd::string::*;
use crate::error::{outcome_view, presence, presence_of, presence_view, Error};
use crate::transport::{Request, BRASIL_API_URL};

verus! {

/// The unit in which a book's dimensions are given.
#[derive(Debug, Clone, Copy, PartialEq, Eq)]
pub enum Unit {
    Centimeter,
    Inch,
}

/// The form in which a book is published.
#[derive(Debug, Clone, Copy, PartialEq, Eq)]
pub enum Format {
    Physical,
    Digital,
}

/// The catalogue that a book's record was drawn from.
#[derive(Debug, Clone, Copy, PartialEq, Eq)]
pub enum Provider {
    Cbl,
    MercadoEditorial,
    OpenLibrary,
    GoogleBooks,
}

/// The client of the ISBN resource under one base address.
pub struct IsbnService {
    base_url: String,
}

impl IsbnService {
    /// The base address that the client was made with.
    pub closed spec fn base_url(&self) -> Seq<char> {
        self.base_url@
    }

    pub fn new(base_url: &str) -> (service: Self)
        ensures
            service.base_url() == base_url@,
    {
        Self { base_url: String::from_str(base_url) }
    }

    /// The request for a book. The ISBN goes into the address as it is.
    pub fn get_isbn_request(&self, isbn_code: &str) -> (request: Request)
        ensures
            request.url@ == self.base_url() + "/api/isbn/v1/"@ + isbn_code@,
    {
        Request::to_item(self.base_url.as_str(), "/api/isbn/v1/", isbn_code)
    }

    /// Reads the normalised outcome of a request for a book as an answer to
    /// whether the ISBN is known.
    pub fn validate_isbn<T>(&self, outcome: Result<T, Error>) -> (answer: Result<bool, Error>)
        ensures
            presence_view(answer) == presence_of(outcome_view(outcome)),
            answer matches Err(error) ==> outcome == Err::<T, Error>(error),
    {
        presence(outcome)
    }
}

/// The request that fetches a book from the production service.
pub fn get_isbn(isbn_code: &str) -> (request: Request)
    ensures
        request.url@ == BRASIL_API_URL@ + "/api/isbn/v1/"@ + isbn_code@,
{
    IsbnService::new(BRASIL_API_URL).get_isbn_request(isbn_code)
}

/// Tells from the normalised outcome of [`get_isbn`] whether the ISBN is
/// known: yes after a success, no after an error of kind `NotFound`. Any
/// other error is handed on.
pub fn validate<T>(outcome: Result<T, Error>) -> (answer: Result<bool, Error>)
    ensures
        presence_view(answer) == presence_of(outcome_view(outcome)),
        answer matches Err(error) ==> outcome == Err::<T, Error>(error),
{
    presence(outcome)
}

} // verus!
