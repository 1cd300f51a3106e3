//! The endpoint façade's verified half.
//!
//! Each query method builds the endpoint's path and parameters; the caller
//! performs the GET and hands the response body (and, for the blocking
//! variant, the headers) back to the decoders and the blocking engine.

use vstd::prelude::*;
use vstd::string::StringExecFns;
use crate::blocking::{
    spec_blocking_filters, spec_blocking_service_params, spec_blocking_wait, BlockingOptions,
};
use crate::health::{CheckOptions, NodeOptions, ServiceOptions, StateOptions};
use crate::params::{spec_check_params, spec_node_params, spec_service_params, spec_state_params};
use crate::Client;

verus! {

/// One prepared query: a path relative to the API root, and its parameters.
pub struct Query {
    pub path: String,
    pub params: Vec<(String, String)>,
}

fn prefixed(prefix: &str, rest: &str) -> (p: String)
    ensures
        p@ == prefix@ + rest@,
{
    let mut p = String::from_str(prefix);
    p.append(rest);
    p
}

impl Client {
    /// The checks-for-node query: `health/node/{node}`.
    pub fn node_query(&self, node: &str, options: Option<&NodeOptions>) -> (q: Query)
        ensures
            q.path@ == "health/node/"@ + node@,
            q.params.deep_view() == spec_node_params(
                options.deep_view(),
                self.config.datacenter.deep_view(),
            ),
    {
        Query { path: prefixed("health/node/", node), params: self.node_params(options) }
    }

    /// The checks-for-service query: `health/checks/{service}`.
    pub fn checks_query(&self, service: &str, options: Option<&CheckOptions>) -> (q: Query)
        ensures
            q.path@ == "health/checks/"@ + service@,
            q.params.deep_view() == spec_check_params(
                options.deep_view(),
                self.config.datacenter.deep_view(),
            ),
    {
        Query { path: prefixed("health/checks/", service), params: self.check_params(options) }
    }

    /// The service-health query: `health/service/{service}`.
    pub fn service_query(&self, service: &str, options: Option<&ServiceOptions>) -> (q: Query)
        ensures
            q.path@ == "health/service/"@ + service@,
            q.params.deep_view() == spec_service_params(
                options.deep_view(),
                self.config.datacenter.deep_view(),
            ),
    {
        Query { path: prefixed("health/service/", service), params: self.service_params(options) }
    }

    /// The connect-capable service-health query: `health/connect/{service}`.
    pub fn connect_query(&self, service: &str, options: Option<&ServiceOptions>) -> (q: Query)
        ensures
            q.path@ == "health/connect/"@ + service@,
            q.params.deep_view() == spec_service_params(
                options.deep_view(),
                self.config.datacenter.deep_view(),
            ),
    {
        Query { path: prefixed("health/connect/", service), params: self.service_params(options) }
    }

    /// The checks-in-state query: `health/state/{state}`.
    pub fn state_query(&self, state: &str, options: Option<&StateOptions>) -> (q: Query)
        ensures
            q.path@ == "health/state/"@ + state@,
            q.params.deep_view() == spec_state_params(
                options.deep_view(),
                self.config.datacenter.deep_view(),
            ),
    {
        Query { path: prefixed("health/state/", state), params: self.state_params(options) }
    }

    /// The blocking service-health query: the same path as `service_query`,
    /// with the last-known index and the wait duration merged in.
    pub fn service_blocking_query(
        &self,
        index: u64,
        service: &str,
        options: Option<&BlockingOptions<&ServiceOptions>>,
    ) -> (q: Query)
        ensures
            q.path@ == "health/service/"@ + service@,
            q.params.deep_view() == spec_blocking_service_params(
                index,
                spec_blocking_wait(options),
                spec_blocking_filters(options),
                self.config.datacenter.deep_view(),
            ),
    {
        Query {
            path: prefixed("health/service/", service),
            params: self.service_blocking_params(index, options),
        }
    }
}

} // verus!
