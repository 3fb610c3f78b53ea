//! Interest rates and official indices.
use vstd::prelude::*;
use vstd::string::*;
use crate::transport::{Request, BRASIL_API_URL};

verus! {

/// The client of the rates resource under one base address.
pub struct TaxasService {
    base_url: String,
}

impl TaxasService {
    /// The base address that the client was made with.
    pub closed spec fn base_url(&self) -> Seq<char> {
        self.base_url@
    }

    pub fn new(base_url: &str) -> (service: Self)
        ensures
            service.base_url() == base_url@,
    {
        Self { base_url: String::from_str(base_url) }
    }

    /// The request for one rate. Its abbreviation goes into the address as
    /// it is.
    pub fn get_taxa_request(&self, sigla: &str) -> (request: Request)
        ensures
            request.url@ == self.base_url() + "/api/taxas/v1/"@ + sigla@,
    {
        Request::to_item(self.base_url.as_str(), "/api/taxas/v1/", sigla)
    }

    /// The request for the list of all rates.
    pub fn list_taxas_request(&self) -> (request: Request)
        ensures
            request.url@ == self.base_url() + "/api/taxas/v1"@,
    {
        Request::to(self.base_url.as_str(), "/api/taxas/v1")
    }
}

/// The request that fetches one rate from the production service.
pub fn get_taxa(sigla: &str) -> (request: Request)
    ensures
        request.url@ == BRASIL_API_URL@ + "/api/taxas/v1/"@ + sigla@,
{
    TaxasService::new(BRASIL_API_URL).get_taxa_request(sigla)
}

/// The request that lists all rates at the production service.
pub fn list_taxas() -> (request: Request)
    ensures
        request.url@ == BRASIL_API_URL@ + "/api/taxas/v1"@,
{
    TaxasService::new(BRASIL_API_URL).list_taxas_request()
}

} // verus!
