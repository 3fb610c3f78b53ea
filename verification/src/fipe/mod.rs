//! Average vehicle prices, as the FIPE tables give them.
use vstd::prelude::*;
use vstd::string::*;
use crate::text::{decimal, decimal_text};
use crate::transport::{Request, BRASIL_API_URL};

verus! {

/// A vehicle brand.
#[derive(Debug, Clone, PartialEq, Eq)]
pub struct Brand {
    pub nome: String,
    pub valor: String,
}

/// The price of a vehicle model in one reference month.
#[derive(Debug, Clone, PartialEq, Eq)]
pub struct Vehicle {
    pub valor: String,
    pub marca: String,
    pub modelo: String,
    pub ano_modelo: i64,
    pub combustivel: String,
    pub codigo_fipe: String,
    pub mes_referencia: String,
    pub tipo_veiculo: i64,
    pub sigla_combustivel: String,
    pub data_consulta: String,
}

/// A reference table: its code and the month it stands for.
#[derive(Debug, Clone, PartialEq, Eq)]
pub struct ReferenceTable {
    pub codigo: i32,
    pub mes: String,
}

/// The kinds of vehicle that the tables know.
pub enum VehicleType {
    Car,
    Motorcycle,
    Truck,
}

impl VehicleType {
    /// The path segment that stands for the kind of vehicle.
    pub open spec fn segment(&self) -> Seq<char> {
        match self {
            VehicleType::Car => "carros"@,
            VehicleType::Motorcycle => "motos"@,
            VehicleType::Truck => "caminhoes"@,
        }
    }

    /// The path segment that stands for the kind of vehicle.
    pub fn to_string(&self) -> (segment: &str)
        ensures
            segment@ == self.segment(),
    {
        match self {
            VehicleType::Car => "carros",
            VehicleType::Motorcycle => "motos",
            VehicleType::Truck => "caminhoes",
        }
    }
}

/// The query that selects a reference table: `tabela_referencia=` and the
/// table's code in decimal, or nothing where no table is chosen.
pub open spec fn reference_table_query(reference_table: Option<i64>) -> Seq<char> {
    match reference_table {
        Some(code) => "tabela_referencia="@ + decimal(code as int),
        None => Seq::empty(),
    }
}

/// Writes the query that selects a reference table.
pub fn reference_table_text(reference_table: Option<i64>) -> (query: String)
    ensures
        query@ == reference_table_query(reference_table),
{
    match reference_table {
        Some(code) => String::from_str("tabela_referencia=").concat(decimal_text(code).as_str()),
        None => String::new(),
    }
}

/// The client of the FIPE resources under one base address.
pub struct FipeService {
    base_url: String,
}

impl FipeService {
    /// The base address that the client was made with.
    pub closed spec fn base_url(&self) -> Seq<char> {
        self.base_url@
    }

    pub fn new(base_url: &str) -> (service: Self)
        ensures
            service.base_url() == base_url@,
    {
        Self { base_url: String::from_str(base_url) }
    }

    /// The request for the brands of one kind of vehicle.
    pub fn get_brands_request(&self, vehicle_type: VehicleType, reference_table: Option<i64>) -> (request:
        Request)
        ensures
            request.url@ == self.base_url() + "/api/fipe/marcas/v1/"@ + vehicle_type.segment() + "?"@
                + reference_table_query(reference_table),
    {
        let vehicle_type = vehicle_type.to_string();
        let reference_table = reference_table_text(reference_table);
        let url = String::from_str(self.base_url.as_str()).concat("/api/fipe/marcas/v1/").concat(
            vehicle_type,
        ).concat("?").concat(reference_table.as_str());
        Request { url }
    }

    /// The request for the prices of the vehicle with a FIPE code.
    pub fn get_vehicle_request(&self, fipe_code: &str, reference_table: Option<i64>) -> (request:
        Request)
        ensures
            request.url@ == self.base_url() + "/api/fipe/preco/v1/"@ + fipe_code@ + "?"@
                + reference_table_query(reference_table),
    {
        let reference_table = reference_table_text(reference_table);
        let url = String::from_str(self.base_url.as_str()).concat("/api/fipe/preco/v1/").concat(
            fipe_code,
        ).concat("?").concat(reference_table.as_str());
        Request { url }
    }

    /// The request for the list of reference tables.
    pub fn get_reference_tables_request(&self) -> (request: Request)
        ensures
            request.url@ == self.base_url() + "/api/fipe/tabelas/v1/"@,
    {
        Request::to(self.base_url.as_str(), "/api/fipe/tabelas/v1/")
    }
}

/// The request that lists the brands of one kind of vehicle at the
/// production service.
pub fn get_brands(vehicle_type: VehicleType, reference_table: Option<i64>) -> (request: Request)
    ensures
        request.url@ == BRASIL_API_URL@ + "/api/fipe/marcas/v1/"@ + vehicle_type.segment() + "?"@
            + reference_table_query(reference_table),
{
    FipeService::new(BRASIL_API_URL).get_brands_request(vehicle_type, reference_table)
}

/// The request that fetches the prices of a vehicle from the production
/// service.
pub fn get_vehicles(fipe_code: &str, reference_table: Option<i64>) -> (request: Request)
    ensures
        request.url@ == BRASIL_API_URL@ + "/api/fipe/preco/v1/"@ + fipe_code@ + "?"@
            + reference_table_query(reference_table),
{
    FipeService::new(BRASIL_API_URL).get_vehicle_request(fipe_code, reference_table)
}

/// The request that lists the reference tables at the production service.
pub fn get_reference_tables() -> (request: Request)
    ensures
        request.url@ == BRASIL_API_URL@ + "/api/fipe/tabelas/v1/"@,
{
    FipeService::new(BRASIL_API_URL).get_reference_tables_request()
}

} // verus!
