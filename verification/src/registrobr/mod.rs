//! Domain names under `.br`, as the registry reports them.
use vstd::prelude::*;
use vstd::string::*;
use crate::transport::{Request, BRASIL_API_URL};

verus! {

/// The registration status of a domain name.
#[derive(Debug, Clone, PartialEq, Eq)]
pub struct Domain {
    pub status_code: u16,
    pub status: String,
    pub fqdn: String,
    pub suggestions: Option<Vec<String>>,
    pub hosts: Option<Vec<String>>,
    pub publication_status: Option<String>,
    pub expires_at: Option<String>,
    pub reasons: Option<Vec<String>>,
}

/// The client of the registry resource under one base address.
pub struct RegistroBrService {
    base_url: String,
}

impl RegistroBrService {
    /// The base address that the client was made with.
    pub closed spec fn base_url(&self) -> Seq<char> {
        self.base_url@
    }

    pub fn new(base_url: &str) -> (service: Self)
        ensures
            service.base_url() == base_url@,
    {
        Self { base_url: String::from_str(base_url) }
    }

    /// The request for a domain name. The name goes into the address as it
    /// is.
    pub fn get_domain_by_name(&self, name: &str) -> (request: Request)
        ensures
            request.url@ == self.base_url() + "/api/registrobr/v1/"@ + name@,
    {
        Request::to_item(self.base_url.as_str(), "/api/registrobr/v1/", name)
    }
}

/// The request that fetches a domain name from the production service.
pub fn get_domain_by_name(name: &str) -> (request: Request)
    ensures
        request.url@ == BRASIL_API_URL@ + "/api/registrobr/v1/"@ + name@,
{
    RegistroBrService::new(BRASIL_API_URL).get_domain_by_name(name)
}

} // verus!
