//! Client-side logic for a service-catalog and health-check registry that
//! speaks a blocking-query (long-poll) HTTP protocol.
//!
//! The library holds everything that can be stated and proved without a
//! network: building query-string parameters from typed filter options,
//! decoding JSON bodies into typed records, and interpreting the
//! consistency-index header that drives the blocking-query protocol.
//! Performing the HTTP request itself is left to the caller, who feeds the
//! response's status, headers and body back into this library.

use vstd::prelude::*;

pub mod blocking;
pub mod catalog;
pub mod endpoints;
pub mod error;
pub mod health;
pub mod json;
pub mod params;
pub mod strutil;

verus! {

/// Shared, read-only client configuration.
pub struct Config {
    /// Base address of the server, e.g. `http://127.0.0.1:8500`.
    pub address: String,
    /// Client-wide default datacenter; a per-call datacenter overrides it.
    pub datacenter: Option<String>,
}

/// A catalog/health client: nothing but its immutable configuration.
pub struct Client {
    pub config: Config,
}

impl Client {
    pub fn new(address: String, datacenter: Option<String>) -> (c: Client)
        ensures
            c.config.address == address,
            c.config.datacenter == datacenter,
    {
        Client { config: Config { address, datacenter } }
    }
}

} // verus!
