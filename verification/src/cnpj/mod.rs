//! Companies by their tax identifier (CNPJ).
use vstd::prelude::*;
use vstd::string::*;
use crate::transport::{Request, BRASIL_API_URL};

verus! {

/// The registration of a company.
#[derive(Debug, Clone, PartialEq, Eq)]
pub struct Cnpj {
    pub cnpj: Option<String>,
    pub identificador_matriz_filial: Option<i32>,
    pub descricao_matriz_filial: Option<String>,
    pub razao_social: Option<String>,
    pub nome_fantasia: Option<String>,
    pub situacao_cadastral: Option<i32>,
    pub descricao_situacao_cadastral: Option<String>,
    pub data_situacao_cadastral: Option<String>,
    pub motivo_situacao_cadastral: Option<i32>,
    pub nome_cidade_exterior: Option<String>,
    pub codigo_natureza_juridica: Option<i32>,
    pub data_inicio_atividade: Option<String>,
    pub cnae_fiscal: Option<i32>,
    pub cnae_fiscal_descricao: Option<String>,
    pub descricao_tipo_logradouro: Option<String>,
    pub logradouro: Option<String>,
    pub numero: Option<String>,
    pub complemento: Option<String>,
    pub bairro: Option<String>,
    pub cep: Option<String>,
    pub uf: Option<String>,
    pub codigo_municipio: Option<i32>,
    pub municipio: Option<String>,
    pub ddd_telefone_1: Option<String>,
    pub ddd_telefone_2: Option<String>,
    pub ddd_fax: Option<String>,
    pub qualificacao_do_responsavel: Option<i32>,
    pub capital_social: Option<i64>,
    pub porte: Option<String>,
    pub descricao_porte: Option<String>,
    pub opcao_pelo_simples: Option<bool>,
    pub data_opcao_pelo_simples: Option<String>,
    pub data_exclusao_do_simples: Option<String>,
    pub opcao_pelo_mei: Option<bool>,
    pub situacao_especial: Option<String>,
    pub data_situacao_especial: Option<String>,
    pub cnaes_secundarias: Option<Vec<Cnaes>>,
    pub qsa: Option<Vec<Qsa>>,
}

/// A secondary economic activity of a company.
#[derive(Debug, Clone, PartialEq, Eq)]
pub struct Cnaes {
    pub codigo: Option<i32>,
    pub descricao: Option<String>,
}

/// A partner or administrator of a company.
#[derive(Debug, Clone, PartialEq, Eq)]
pub struct Qsa {
    pub identificador_de_socio: Option<i32>,
    pub nome_socio: Option<String>,
    pub cnpj_cpf_do_socio: Option<String>,
    pub codigo_qualificacao_socio: Option<i32>,
    pub percentual_capital_social: Option<i32>,
    pub data_entrada_sociedade: Option<String>,
    pub cpf_representante_legal: Option<String>,
    pub nome_representante_legal: Option<String>,
    pub codigo_qualificacao_representante_legal: Option<i32>,
}

/// The client of the company resource under one base address.
pub struct CnpjService {
    base_url: String,
}

impl CnpjService {
    /// The base address that the client was made with.
    pub closed spec fn base_url(&self) -> Seq<char> {
        self.base_url@
    }

    pub fn new(base_url: &str) -> (service: Self)
        ensures
            service.base_url() == base_url@,
    {
        Self { base_url: String::from_str(base_url) }
    }

    /// The request for a company. The identifier goes into the address as it
    /// is.
    pub fn get_cnpj_request(&self, cnpj_code: &str) -> (request: Request)
        ensures
            request.url@ == self.base_url() + "/api/cnpj/v1/"@ + cnpj_code@,
    {
        Request::to_item(self.base_url.as_str(), "/api/cnpj/v1/", cnpj_code)
    }
}

/// The request that fetches a company from the production service.
pub fn get_cnpj(cnpj: &str) -> (request: Request)
    ensures
        request.url@ == BRASIL_API_URL@ + "/api/cnpj/v1/"@ + cnpj@,
{
    CnpjService::new(BRASIL_API_URL).get_cnpj_request(cnpj)
}

} // verus!
