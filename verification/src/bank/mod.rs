//! Banking institutions.
use vstd::prelude::*;
use vstd::string::*;
use crate::text::{decimal, decimal_text};
use crate::transport::{Request, BRASIL_API_URL};

verus! {

/// A banking institution.
#[derive(Debug, Clone, PartialEq, Eq)]
pub struct Bank {
    pub ispb: String,
    pub name: Option<String>,
    pub code: Option<i32>,
    pub fullname: Option<String>,
}

/// The client of the bank resource under one base address.
pub struct BankService {
    base_url: String,
}

impl BankService {
    /// The base address that the client was made with.
    pub closed spec fn base_url(&self) -> Seq<char> {
        self.base_url@
    }

    pub fn new(base_url: &str) -> (service: Self)
        ensures
            service.base_url() == base_url@,
    {
        Self { base_url: String::from_str(base_url) }
    }

    /// The request for the list of all banks.
    pub fn get_all_banks(&self) -> (request: Request)
        ensures
            request.url@ == self.base_url() + "/api/banks/v1"@,
    {
        Request::to(self.base_url.as_str(), "/api/banks/v1")
    }

    /// The request for the bank with a code, which is written in decimal.
    pub fn get_bank_by_code(&self, code: i32) -> (request: Request)
        ensures
            request.url@ == self.base_url() + "/api/banks/v1/"@ + decimal(code as int),
    {
        let code_text = decimal_text(code as i64);
        Request::to_item(self.base_url.as_str(), "/api/banks/v1/", code_text.as_str())
    }
}

/// The request that lists all banks at the production service.
pub fn get_all_banks() -> (request: Request)
    ensures
        request.url@ == BRASIL_API_URL@ + "/api/banks/v1"@,
{
    BankService::new(BRASIL_API_URL).get_all_banks()
}

/// The request that fetches one bank from the production service.
pub fn get_bank(code: i32) -> (request: Request)
    ensures
        request.url@ == BRASIL_API_URL@ + "/api/banks/v1/"@ + decimal(code as int),
{
    BankService::new(BRASIL_API_URL).get_bank_by_code(code)
}

} // verus!
