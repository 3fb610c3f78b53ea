//! Typed building blocks for a client of the BrasilAPI reference-data service.
//!
//! The crate holds everything about such a client that is pure computation:
//! the resource addresses, the classification of HTTP status codes, the
//! normalisation of transport outcomes into one error type, and the
//! client-side lookups over fetched listings. Each function carries a
//! contract that Verus proves. Performing the HTTP exchange itself is left
//! to the caller, which hands the outcome over as plain values.
pub mod bank;
pub mod cep;
pub mod cnpj;
pub mod corretoras;
pub mod ddd;
pub mod error;
pub mod fipe;
pub mod holidays;
pub mod ibge;
pub mod isbn;
pub mod json;
pub mod ncm;
pub mod pix;
pub mod registrobr;
pub mod taxas;
pub mod text;
pub mod transport;
