//! Brokerage firms registered with the securities commission (CVM).
use vstd::prelude::*;
use vstd::string::*;
use crate::transport::{Request, BRASIL_API_URL};

verus! {

/// A brokerage firm.
#[derive(Debug, Clone, PartialEq, Eq)]
pub struct Corretora {
    pub cnpj: String,
    pub nome_social: String,
    pub nome_comercial: String,
    pub bairro: String,
    pub cep: String,
    pub codigo_cvm: String,
    pub complemento: String,
    pub data_inicio_situacao: String,
    pub data_patrimonio_liquido: String,
    pub data_registro: String,
    pub email: String,
    pub logradouro: String,
    pub municipio: String,
    pub pais: String,
    pub telefone: String,
    pub uf: String,
    pub valor_patrimonio_liquido: String,
}

/// The client of the brokerage resource under one base address.
pub struct CorretorasService {
    url: String,
}

impl CorretorasService {
    /// The base address that the client was made with.
    pub closed spec fn base_url(&self) -> Seq<char> {
        self.url@
    }

    pub fn new(url: &str) -> (service: Self)
        ensures
            service.base_url() == url@,
    {
        Self { url: String::from_str(url) }
    }

    /// The request for the list of all brokerage firms.
    pub fn get_corretoras_request(&self) -> (request: Request)
        ensures
            request.url@ == self.base_url() + "/api/cvm/corretoras/v1"@,
    {
        Request::to(self.url.as_str(), "/api/cvm/corretoras/v1")
    }

    /// The request for one brokerage firm. The identifier goes into the
    /// address as it is.
    pub fn get_corretora_by_cnpj(&self, cnpj: &str) -> (request: Request)
        ensures
            request.url@ == self.base_url() + "/api/cvm/corretoras/v1/"@ + cnpj@,
    {
        Request::to_item(self.url.as_str(), "/api/cvm/corretoras/v1/", cnpj)
    }
}

/// The request that lists all brokerage firms at the production service.
pub fn get_corretoras() -> (request: Request)
    ensures
        request.url@ == BRASIL_API_URL@ + "/api/cvm/corretoras/v1"@,
{
    CorretorasService::new(BRASIL_API_URL).get_corretoras_request()
}

/// The request that fetches one brokerage firm from the production service.
pub fn get_corretora(cnpj: &str) -> (request: Request)
    ensures
        request.url@ == BRASIL_API_URL@ + "/api/cvm/corretoras/v1/"@ + cnpj@,
{
    CorretorasService::new(BRASIL_API_URL).get_corretora_by_cnpj(cnpj)
}

} // verus!
