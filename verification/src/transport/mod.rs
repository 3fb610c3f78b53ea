//! What goes to the transport and what comes back from it, as plain values.
//!
//! The crate performs no I/O. It says which address to GET as a [`Request`],
//! and takes what the exchange gave as a [`Response`] or a
//! [`TransportFailure`].
use vstd::prelude::*;
use vstd::string::*;

verus! {

/// The address of the production service.
pub const BRASIL_API_URL: &'static str = "https://brasilapi.com.br";

/// The status that denotes success.
pub const STATUS_OK: u16 = 200;

/// A GET request to perform.
#[derive(Debug, Clone, PartialEq, Eq)]
pub struct Request {
    pub url: String,
}

/// A response that arrived: its status and the text of its body.
#[derive(Debug, Clone, PartialEq, Eq)]
pub struct Response {
    pub status: u16,
    pub body: String,
}

/// A failure of the transport itself: no usable response arrived.
#[derive(Debug, Clone, PartialEq, Eq)]
pub struct TransportFailure {
    /// The status, where the failure was detected after one had been read.
    pub status: Option<u16>,
    /// The transport's own description of what went wrong.
    pub description: String,
}

impl Request {
    /// The request for a resource path under a base address.
    pub fn to(base_url: &str, path: &str) -> (request: Self)
        ensures
            request.url@ == base_url@ + path@,
    {
        Request { url: String::from_str(base_url).concat(path) }
    }

    /// The request for one item under a resource path: the item's identifier
    /// follows the path as it is, without any escaping.
    pub fn to_item(base_url: &str, path: &str, item: &str) -> (request: Self)
        ensures
            request.url@ == base_url@ + path@ + item@,
    {
        Request { url: String::from_str(base_url).concat(path).concat(item) }
    }
}

impl Response {
    /// Whether the status denotes success: 200 and nothing else.
    pub open spec fn succeeded(status: u16) -> bool {
        status == STATUS_OK
    }

    /// Tells from the status alone whether a response is handed on as it is.
    /// Where it is not, its body has to be read and made into an error.
    pub fn is_success(status: u16) -> (ok: bool)
        ensures
            ok == Self::succeeded(status),
    {
        status == STATUS_OK
    }
}

} // verus!
