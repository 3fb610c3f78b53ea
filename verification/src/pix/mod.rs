//! Participants of the PIX payment system.
use vstd::prelude::*;
use vstd::string::*;
use crate::transport::{Request, BRASIL_API_URL};

verus! {

/// An institution that takes part in PIX.
#[derive(Debug, Clone, PartialEq, Eq)]
pub struct Participant {
    pub ispb: String,
    pub nome: String,
    pub nome_reduzido: String,
    pub modalidade_participacao: String,
    pub tipo_participacao: String,
    pub inicio_operacao: String,
}

/// The client of the PIX resource under one base address.
pub struct PIXService {
    base_url: String,
}

impl PIXService {
    /// The base address that the client was made with.
    pub closed spec fn base_url(&self) -> Seq<char> {
        self.base_url@
    }

    pub fn new(base_url: &str) -> (service: Self)
        ensures
            service.base_url() == base_url@,
    {
        Self { base_url: String::from_str(base_url) }
    }

    /// The request for the list of participants.
    pub fn get_participant_request(&self) -> (request: Request)
        ensures
            request.url@ == self.base_url() + "/api/pix/v1/participants"@,
    {
        Request::to(self.base_url.as_str(), "/api/pix/v1/participants")
    }
}

/// The request that lists the participants at the production service.
pub fn get_participants() -> (request: Request)
    ensures
        request.url@ == BRASIL_API_URL@ + "/api/pix/v1/participants"@,
{
    PIXService::new(BRASIL_API_URL).get_participant_request()
}

} // verus!
