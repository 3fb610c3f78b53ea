//! States and municipalities, as the IBGE publishes them.
use vstd::prelude::*;
use vstd::string::*;
use crate::text::{join, joined};
use crate::transport::{Request, BRASIL_API_URL};

verus! {

/// A municipality of a state.
#[derive(Debug, Clone, PartialEq, Eq)]
pub struct Municipality {
    pub nome: String,
    pub codigo_ibge: String,
}

/// A state of the federation.
#[derive(Debug, Clone, PartialEq, Eq)]
pub struct State {
    pub id: i32,
    pub sigla: String,
    pub nome: String,
    pub regiao: StateRegion,
}

/// The region that a state lies in.
#[derive(Debug, Clone, PartialEq, Eq)]
pub struct StateRegion {
    pub id: i32,
    pub sigla: String,
    pub nome: String,
}

/// A source that the list of municipalities can be drawn from.
pub enum MunicipalitiesProvider {
    DadosAbertos,
    Gov,
    Wikipedia,
}

impl MunicipalitiesProvider {
    /// The name under which the service knows the provider.
    pub open spec fn name(&self) -> Seq<char> {
        match self {
            MunicipalitiesProvider::DadosAbertos => "dados-abertos-br"@,
            MunicipalitiesProvider::Gov => "gov"@,
            MunicipalitiesProvider::Wikipedia => "wikipedia"@,
        }
    }

    /// The name under which the service knows the provider.
    pub fn to_string(&self) -> (name: &str)
        ensures
            name@ == self.name(),
    {
        match self {
            MunicipalitiesProvider::DadosAbertos => "dados-abertos-br",
            MunicipalitiesProvider::Gov => "gov",
            MunicipalitiesProvider::Wikipedia => "wikipedia",
        }
    }
}

/// The names of a list of providers, in the order of the list.
pub open spec fn provider_names(providers: Seq<MunicipalitiesProvider>) -> Seq<Seq<char>> {
    providers.map_values(|provider: MunicipalitiesProvider| provider.name())
}

/// The value of the `providers` query parameter: the names of the chosen
/// providers with commas between them, and nothing where none was chosen.
pub open spec fn providers_parameter(providers: Option<Vec<MunicipalitiesProvider>>) -> Seq<char> {
    match providers {
        Some(chosen) => joined(provider_names(chosen@), ","@),
        None => Seq::empty(),
    }
}

/// The client of the IBGE resources under one base address.
pub struct IbgeService {
    base_url: String,
}

impl IbgeService {
    /// The base address that the client was made with.
    pub closed spec fn base_url(&self) -> Seq<char> {
        self.base_url@
    }

    pub fn new(base_url: &str) -> (service: Self)
        ensures
            service.base_url() == base_url@,
    {
        Self { base_url: String::from_str(base_url) }
    }

    /// The request for the municipalities of a state, drawn from the chosen
    /// providers.
    pub fn get_municipalities_request(
        &self,
        uf: &str,
        providers: Option<Vec<MunicipalitiesProvider>>,
    ) -> (request: Request)
        ensures
            request.url@ == self.base_url() + "/api/ibge/municipios/v1/"@ + uf@ + "?providers="@
                + providers_parameter(providers),
    {
        let providers_text = match providers {
            Some(chosen) => {
                let mut names: Vec<&str> = Vec::new();
                let mut at: usize = 0;
                while at < chosen.len()
                    invariant
                        at <= chosen.len(),
                        names@.len() == at,
                        forall|i: int| 0 <= i < at ==> (#[trigger] names@[i])@ == chosen@[i].name(),
                    decreases chosen.len() - at,
                {
                    names.push(chosen[at].to_string());
                    at = at + 1;
                }
                assert(crate::text::texts_of(names@) =~= provider_names(chosen@));
                join(&names, ",")
            },
            None => String::new(),
        };
        let url = String::from_str(self.base_url.as_str()).concat("/api/ibge/municipios/v1/").concat(
            uf,
        ).concat("?providers=").concat(providers_text.as_str());
        Request { url }
    }

    /// The request for the list of all states.
    pub fn get_all_states_request(&self) -> (request: Request)
        ensures
            request.url@ == self.base_url() + "/api/ibge/uf/v1"@,
    {
        Request::to(self.base_url.as_str(), "/api/ibge/uf/v1")
    }

    /// The request for one state, by its abbreviation or its code.
    pub fn get_state_request(&self, code: &str) -> (request: Request)
        ensures
            request.url@ == self.base_url() + "/api/ibge/uf/v1/"@ + code@,
    {
        Request::to_item(self.base_url.as_str(), "/api/ibge/uf/v1/", code)
    }
}

/// The request that lists the municipalities of a state at the production
/// service.
pub fn get_municipalities(uf: &str, providers: Option<Vec<MunicipalitiesProvider>>) -> (request:
    Request)
    ensures
        request.url@ == BRASIL_API_URL@ + "/api/ibge/municipios/v1/"@ + uf@ + "?providers="@
            + providers_parameter(providers),
{
    IbgeService::new(BRASIL_API_URL).get_municipalities_request(uf, providers)
}

/// The request that lists all states at the production service.
pub fn get_all_states() -> (request: Request)
    ensures
        request.url@ == BRASIL_API_URL@ + "/api/ibge/uf/v1"@,
{
    IbgeService::new(BRASIL_API_URL).get_all_states_request()
}

/// The request that fetches one state from the production service.
pub fn get_state(code: &str) -> (request: Request)
    ensures
        request.url@ == BRASIL_API_URL@ + "/api/ibge/uf/v1/"@ + code@,
{
    IbgeService::new(BRASIL_API_URL).get_state_request(code)
}

} // verus!
