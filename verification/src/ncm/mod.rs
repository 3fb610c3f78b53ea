//! The Mercosur common nomenclature (NCM) of goods.
use vstd::prelude::*;
use vstd::string::*;
use crate::text::{is_i32_literal, is_i32_text, remove_char, without_char};
use crate::transport::{Request, BRASIL_API_URL};

verus! {

/// An entry of the nomenclature.
#[derive(Debug, Clone, PartialEq, Eq)]
pub struct Ncm {
    pub codigo: Option<String>,
    pub descricao: Option<String>,
    pub data_inicio: Option<String>,
    pub data_fim: Option<String>,
    pub tipo_ato: Option<String>,
    pub numero_ato: Option<String>,
    pub ano_ato: Option<String>,
}

/// What to fetch from the nomenclature.
pub enum Fetch {
    /// Every entry.
    All,
    /// The entry with a code, written with or without dots.
    Code(String),
    /// The entries whose description matches a search text.
    Description(String),
}

/// The client of the nomenclature under one base address, set up for one
/// fetch.
pub struct NcmService {
    base_url: String,
    fetch: Fetch,
}

impl NcmService {
    /// The base address that the client was made with.
    pub closed spec fn base_url(&self) -> Seq<char> {
        self.base_url@
    }

    /// The fetch that the client was made for.
    pub closed spec fn fetch(&self) -> Fetch {
        self.fetch
    }

    /// A code without its dots.
    pub open spec fn undotted(code: Seq<char>) -> Seq<char> {
        without_char(code, '.')
    }

    /// Whether a code is acceptable: without its dots it is a 32-bit signed
    /// integer in decimal.
    pub open spec fn is_code(code: Seq<char>) -> bool {
        is_i32_literal(Self::undotted(code))
    }

    /// Whether a fetch can be asked for: a code must be acceptable, anything
    /// else always is.
    pub open spec fn is_fetchable(fetch: Fetch) -> bool {
        fetch matches Fetch::Code(code) ==> Self::is_code(code@)
    }

    /// Every client asks for something that can be asked for.
    pub open spec fn well_formed(&self) -> bool {
        Self::is_fetchable(self.fetch())
    }

    /// The address that a fetch is sent to.
    pub open spec fn url_of(base_url: Seq<char>, fetch: Fetch) -> Seq<char> {
        match fetch {
            Fetch::All => base_url + "/api/ncm/v1"@,
            Fetch::Code(code) => base_url + "/api/ncm/v1/"@ + Self::undotted(code@),
            Fetch::Description(text) => base_url + "/api/ncm/v1?search="@ + text@,
        }
    }

    /// Makes the client for a fetch that can be asked for.
    pub fn new(base_url: &str, fetch: Fetch) -> (service: Self)
        requires
            Self::is_fetchable(fetch),
        ensures
            service.base_url() == base_url@,
            service.fetch() == fetch,
            service.well_formed(),
    {
        Self { base_url: String::from_str(base_url), fetch }
    }

    /// Makes the client for a fetch, if it can be asked for.
    pub fn try_new(base_url: &str, fetch: Fetch) -> (made: Option<Self>)
        ensures
            made is Some <==> Self::is_fetchable(fetch),
            made matches Some(service) ==> service.base_url() == base_url@ && service.fetch()
                == fetch && service.well_formed(),
    {
        let fetchable = match &fetch {
            Fetch::All => true,
            Fetch::Code(code) => Self::validade_code(code),
            Fetch::Description(_) => true,
        };
        if fetchable {
            Some(Self::new(base_url, fetch))
        } else {
            None
        }
    }

    /// Tells whether a code is acceptable.
    pub fn validade_code(code: &String) -> (valid: bool)
        ensures
            valid == Self::is_code(code@),
    {
        let code_without_dot = Self::take_dot(code);
        is_i32_text(code_without_dot.as_str())
    }

    /// The address that the client's fetch is sent to.
    pub fn set_url_by_fetch(&self) -> (url: String)
        ensures
            url@ == Self::url_of(self.base_url(), self.fetch()),
    {
        let base = String::from_str(self.base_url.as_str());
        match &self.fetch {
            Fetch::All => base.concat("/api/ncm/v1"),
            Fetch::Code(code) => base.concat("/api/ncm/v1/").concat(Self::take_dot(code).as_str()),
            Fetch::Description(text) => base.concat("/api/ncm/v1?search=").concat(text.as_str()),
        }
    }

    /// A code without its dots.
    pub fn take_dot(code: &String) -> (code_without_dot: String)
        ensures
            code_without_dot@ == Self::undotted(code@),
    {
        remove_char(code.as_str(), '.')
    }

    /// The request for the client's fetch.
    pub fn get_ncm_request(&self) -> (request: Request)
        ensures
            request.url@ == Self::url_of(self.base_url(), self.fetch()),
    {
        Request { url: self.set_url_by_fetch() }
    }
}

/// The request that lists the whole nomenclature at the production service.
pub fn get_ncm_all() -> (request: Request)
    ensures
        request.url@ == BRASIL_API_URL@ + "/api/ncm/v1"@,
{
    NcmService::new(BRASIL_API_URL, Fetch::All).get_ncm_request()
}

/// The request that fetches the entry with a code from the production
/// service.
pub fn get_ncm_by_code(code: &str) -> (request: Request)
    requires
        NcmService::is_code(code@),
    ensures
        request.url@ == BRASIL_API_URL@ + "/api/ncm/v1/"@ + NcmService::undotted(code@),
{
    NcmService::new(BRASIL_API_URL, Fetch::Code(String::from_str(code))).get_ncm_request()
}

/// The request that searches the descriptions of the nomenclature at the
/// production service. The search text goes into the address as it is.
pub fn get_ncm_by_description(description: &str) -> (request: Request)
    ensures
        request.url@ == BRASIL_API_URL@ + "/api/ncm/v1?search="@ + description@,
{
    NcmService::new(
        BRASIL_API_URL,
        Fetch::Description(String::from_str(description)),
    ).get_ncm_request()
}

} // verus!
