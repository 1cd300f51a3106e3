//! Health endpoints: typed records for health checks and service entries,
//! their decoders, and the filter options each endpoint accepts.
//!
//! Decoding follows the server contract for these records: a missing field
//! takes the field type's zero value, a present field of the wrong shape is
//! a decode failure, never a silent coercion.

use vstd::prelude::*;
use crate::catalog::{Node, NodeV};
use crate::error::{decode_error, Error};
use crate::json::{
    arr_deep, json_bool_field, json_get, json_i64_field, json_opt_str_map_field, json_parse,
    json_str_array_field, json_str_field, json_u16_field, obj_deep, parse_json, spec_bool_field,
    spec_get, spec_i64_field, spec_opt_str_map_field, spec_str_array_field, spec_str_field,
    spec_u16_field, JsonValue, JsonView,
};

verus! {

/// Descriptive sub-record of a health check: passthrough data that the
/// client carries but does not interpret.
#[derive(Clone, Debug)]
pub struct HealthCheckDefinition {
    pub http: String,
    pub header: Option<Vec<(String, String)>>,
    pub method: String,
    pub tls_skip_verify: bool,
    pub tcp: String,
    pub interval: String,
    pub timeout: String,
    pub deregister_critical_service_after: String,
}

pub struct HealthCheckDefinitionV {
    pub http: Seq<char>,
    pub header: Option<Seq<(Seq<char>, Seq<char>)>>,
    pub method: Seq<char>,
    pub tls_skip_verify: bool,
    pub tcp: Seq<char>,
    pub interval: Seq<char>,
    pub timeout: Seq<char>,
    pub deregister_critical_service_after: Seq<char>,
}

impl View for HealthCheckDefinition {
    type V = HealthCheckDefinitionV;

    open spec fn view(&self) -> HealthCheckDefinitionV {
        HealthCheckDefinitionV {
            http: self.http@,
            header: self.header.deep_view(),
            method: self.method@,
            tls_skip_verify: self.tls_skip_verify,
            tcp: self.tcp@,
            interval: self.interval@,
            timeout: self.timeout@,
            deregister_critical_service_after: self.deregister_critical_service_after@,
        }
    }
}

impl DeepView for HealthCheckDefinition {
    type V = HealthCheckDefinitionV;

    open spec fn deep_view(&self) -> HealthCheckDefinitionV {
        self@
    }
}

/// One health check: the status string is server-defined and carried as-is.
#[derive(Clone, Debug)]
pub struct HealthCheck {
    pub node: String,
    pub check_id: String,
    pub name: String,
    pub status: String,
    pub notes: String,
    pub output: String,
    pub service_id: String,
    pub service_name: String,
    pub service_tags: Vec<String>,
    pub definition: HealthCheckDefinition,
    pub create_index: i64,
    pub modify_index: i64,
}

pub struct HealthCheckV {
    pub node: Seq<char>,
    pub check_id: Seq<char>,
    pub name: Seq<char>,
    pub status: Seq<char>,
    pub notes: Seq<char>,
    pub output: Seq<char>,
    pub service_id: Seq<char>,
    pub service_name: Seq<char>,
    pub service_tags: Seq<Seq<char>>,
    pub definition: HealthCheckDefinitionV,
    pub create_index: i64,
    pub modify_index: i64,
}

impl View for HealthCheck {
    type V = HealthCheckV;

    open spec fn view(&self) -> HealthCheckV {
        HealthCheckV {
            node: self.node@,
            check_id: self.check_id@,
            name: self.name@,
            status: self.status@,
            notes: self.notes@,
            output: self.output@,
            service_id: self.service_id@,
            service_name: self.service_name@,
            service_tags: self.service_tags.deep_view(),
            definition: self.definition@,
            create_index: self.create_index,
            modify_index: self.modify_index,
        }
    }
}

impl DeepView for HealthCheck {
    type V = HealthCheckV;

    open spec fn deep_view(&self) -> HealthCheckV {
        self@
    }
}

pub type HealthChecks = Vec<HealthCheck>;

/// The service record carried inside a service entry.
#[derive(Clone, Debug)]
pub struct AgentService {
    pub id: String,
    pub service: String,
    pub tags: Vec<String>,
    pub port: u16,
    pub address: String,
}

pub struct AgentServiceV {
    pub id: Seq<char>,
    pub service: Seq<char>,
    pub tags: Seq<Seq<char>>,
    pub port: u16,
    pub address: Seq<char>,
}

impl View for AgentService {
    type V = AgentServiceV;

    open spec fn view(&self) -> AgentServiceV {
        AgentServiceV {
            id: self.id@,
            service: self.service@,
            tags: self.tags.deep_view(),
            port: self.port,
            address: self.address@,
        }
    }
}

impl DeepView for AgentService {
    type V = AgentServiceV;

    open spec fn deep_view(&self) -> AgentServiceV {
        self@
    }
}

/// One service instance's health snapshot at the moment of a query.
#[derive(Clone, Debug)]
pub struct ServiceEntry {
    pub node: Node,
    pub service: AgentService,
    pub checks: HealthChecks,
}

pub struct ServiceEntryV {
    pub node: NodeV,
    pub service: AgentServiceV,
    pub checks: Seq<HealthCheckV>,
}

impl View for ServiceEntry {
    type V = ServiceEntryV;

    open spec fn view(&self) -> ServiceEntryV {
        ServiceEntryV {
            node: self.node@,
            service: self.service@,
            checks: self.checks.deep_view(),
        }
    }
}

impl DeepView for ServiceEntry {
    type V = ServiceEntryV;

    open spec fn deep_view(&self) -> ServiceEntryV {
        self@
    }
}

// Filter options, one struct per endpoint; an unset field sends nothing.
#[derive(Clone, Debug)]
pub struct NodeOptions {
    pub dc: Option<String>,
}

#[derive(Clone, Debug)]
pub struct CheckOptions {
    pub dc: Option<String>,
    pub near: Option<String>,
    pub node_meta: Option<String>,
}

#[derive(Clone, Debug)]
pub struct ServiceOptions {
    pub dc: Option<String>,
    pub near: Option<String>,
    pub tag: Option<String>,
    pub node_meta: Option<String>,
    pub passing: Option<bool>,
}

#[derive(Clone, Debug)]
pub struct StateOptions {
    pub dc: Option<String>,
    pub near: Option<String>,
    pub node_meta: Option<String>,
}

pub struct NodeOptionsV {
    pub dc: Option<Seq<char>>,
}

pub struct CheckOptionsV {
    pub dc: Option<Seq<char>>,
    pub near: Option<Seq<char>>,
    pub node_meta: Option<Seq<char>>,
}

pub struct ServiceOptionsV {
    pub dc: Option<Seq<char>>,
    pub near: Option<Seq<char>>,
    pub tag: Option<Seq<char>>,
    pub node_meta: Option<Seq<char>>,
    pub passing: Option<bool>,
}

pub struct StateOptionsV {
    pub dc: Option<Seq<char>>,
    pub near: Option<Seq<char>>,
    pub node_meta: Option<Seq<char>>,
}

impl View for NodeOptions {
    type V = NodeOptionsV;

    open spec fn view(&self) -> NodeOptionsV {
        NodeOptionsV { dc: self.dc.deep_view() }
    }
}

impl View for CheckOptions {
    type V = CheckOptionsV;

    open spec fn view(&self) -> CheckOptionsV {
        CheckOptionsV {
            dc: self.dc.deep_view(),
            near: self.near.deep_view(),
            node_meta: self.node_meta.deep_view(),
        }
    }
}

impl View for ServiceOptions {
    type V = ServiceOptionsV;

    open spec fn view(&self) -> ServiceOptionsV {
        ServiceOptionsV {
            dc: self.dc.deep_view(),
            near: self.near.deep_view(),
            tag: self.tag.deep_view(),
            node_meta: self.node_meta.deep_view(),
            passing: self.passing,
        }
    }
}

impl View for StateOptions {
    type V = StateOptionsV;

    open spec fn view(&self) -> StateOptionsV {
        StateOptionsV {
            dc: self.dc.deep_view(),
            near: self.near.deep_view(),
            node_meta: self.node_meta.deep_view(),
        }
    }
}

impl DeepView for NodeOptions {
    type V = NodeOptionsV;

    open spec fn deep_view(&self) -> NodeOptionsV {
        self@
    }
}

impl DeepView for CheckOptions {
    type V = CheckOptionsV;

    open spec fn deep_view(&self) -> CheckOptionsV {
        self@
    }
}

impl DeepView for ServiceOptions {
    type V = ServiceOptionsV;

    open spec fn deep_view(&self) -> ServiceOptionsV {
        self@
    }
}

impl DeepView for StateOptions {
    type V = StateOptionsV;

    open spec fn deep_view(&self) -> StateOptionsV {
        self@
    }
}

// Decoders.
pub open spec fn spec_default_definition() -> HealthCheckDefinitionV {
    HealthCheckDefinitionV {
        http: Seq::<char>::empty(),
        header: None,
        method: Seq::<char>::empty(),
        tls_skip_verify: false,
        tcp: Seq::<char>::empty(),
        interval: Seq::<char>::empty(),
        timeout: Seq::<char>::empty(),
        deregister_critical_service_after: Seq::<char>::empty(),
    }
}

pub open spec fn spec_decode_definition(j: JsonView) -> Option<HealthCheckDefinitionV> {
    match j {
        JsonView::Object(o) => {
            if spec_str_field(o, "HTTP"@) is Some && spec_opt_str_map_field(o, "Header"@) is Some
                && spec_str_field(o, "Method"@) is Some && spec_bool_field(o, "TLSSkipVerify"@)
                is Some && spec_str_field(o, "TCP"@) is Some && spec_str_field(o, "Interval"@)
                is Some && spec_str_field(o, "Timeout"@) is Some && spec_str_field(
                o,
                "DeregisterCriticalServiceAfter"@,
            ) is Some {
                Some(
                    HealthCheckDefinitionV {
                        http: spec_str_field(o, "HTTP"@).unwrap(),
                        header: spec_opt_str_map_field(o, "Header"@).unwrap(),
                        method: spec_str_field(o, "Method"@).unwrap(),
                        tls_skip_verify: spec_bool_field(o, "TLSSkipVerify"@).unwrap(),
                        tcp: spec_str_field(o, "TCP"@).unwrap(),
                        interval: spec_str_field(o, "Interval"@).unwrap(),
                        timeout: spec_str_field(o, "Timeout"@).unwrap(),
                        deregister_critical_service_after: spec_str_field(
                            o,
                            "DeregisterCriticalServiceAfter"@,
                        ).unwrap(),
                    },
                )
            } else {
                None
            }
        },
        _ => None,
    }
}

fn decode_definition(j: &JsonValue) -> (r: Option<HealthCheckDefinition>)
    ensures
        match r {
            Some(d) => spec_decode_definition(j.deep()) == Some(d@),
            None => spec_decode_definition(j.deep()) is None,
        },
{
    match j {
        JsonValue::Object(o) => {
            let http = match json_str_field(o, "HTTP") {
                Some(v) => v,
                None => { return None; },
            };
            let header = match json_opt_str_map_field(o, "Header") {
                Some(v) => v,
                None => { return None; },
            };
            let method = match json_str_field(o, "Method") {
                Some(v) => v,
                None => { return None; },
            };
            let tls_skip_verify = match json_bool_field(o, "TLSSkipVerify") {
                Some(v) => v,
                None => { return None; },
            };
            let tcp = match json_str_field(o, "TCP") {
                Some(v) => v,
                None => { return None; },
            };
            let interval = match json_str_field(o, "Interval") {
                Some(v) => v,
                None => { return None; },
            };
            let timeout = match json_str_field(o, "Timeout") {
                Some(v) => v,
                None => { return None; },
            };
            let deregister_critical_service_after = match json_str_field(
                o,
                "DeregisterCriticalServiceAfter",
            ) {
                Some(v) => v,
                None => { return None; },
            };
            Some(
                HealthCheckDefinition {
                    http,
                    header,
                    method,
                    tls_skip_verify,
                    tcp,
                    interval,
                    timeout,
                    deregister_critical_service_after,
                },
            )
        },
        _ => None,
    }
}

fn default_definition() -> (d: HealthCheckDefinition)
    ensures
        d@ == spec_default_definition(),
{
    let d = HealthCheckDefinition {
        http: String::new(),
        header: None,
        method: String::new(),
        tls_skip_verify: false,
        tcp: String::new(),
        interval: String::new(),
        timeout: String::new(),
        deregister_critical_service_after: String::new(),
    };
    d
}

/// The definition field of a health check: missing means all defaults.
pub open spec fn spec_definition_field(o: Seq<(Seq<char>, JsonView)>, key: Seq<char>) -> Option<
    HealthCheckDefinitionV,
> {
    match spec_get(o, key) {
        None => Some(spec_default_definition()),
        Some(j) => spec_decode_definition(j),
    }
}

pub open spec fn spec_decode_health_check(j: JsonView) -> Option<HealthCheckV> {
    match j {
        JsonView::Object(o) => {
            if spec_str_field(o, "Node"@) is Some && spec_str_field(o, "CheckID"@) is Some
                && spec_str_field(o, "Name"@) is Some && spec_str_field(o, "Status"@) is Some
                && spec_str_field(o, "Notes"@) is Some && spec_str_field(o, "Output"@) is Some
                && spec_str_field(o, "ServiceID"@) is Some && spec_str_field(o, "ServiceName"@)
                is Some && spec_str_array_field(o, "ServiceTags"@) is Some
                && spec_definition_field(o, "Definition"@) is Some && spec_i64_field(
                o,
                "CreateIndex"@,
            ) is Some && spec_i64_field(o, "ModifyIndex"@) is Some {
                Some(
                    HealthCheckV {
                        node: spec_str_field(o, "Node"@).unwrap(),
                        check_id: spec_str_field(o, "CheckID"@).unwrap(),
                        name: spec_str_field(o, "Name"@).unwrap(),
                        status: spec_str_field(o, "Status"@).unwrap(),
                        notes: spec_str_field(o, "Notes"@).unwrap(),
                        output: spec_str_field(o, "Output"@).unwrap(),
                        service_id: spec_str_field(o, "ServiceID"@).unwrap(),
                        service_name: spec_str_field(o, "ServiceName"@).unwrap(),
                        service_tags: spec_str_array_field(o, "ServiceTags"@).unwrap(),
                        definition: spec_definition_field(o, "Definition"@).unwrap(),
                        create_index: spec_i64_field(o, "CreateIndex"@).unwrap(),
                        modify_index: spec_i64_field(o, "ModifyIndex"@).unwrap(),
                    },
                )
            } else {
                None
            }
        },
        _ => None,
    }
}

pub fn decode_health_check(j: &JsonValue) -> (r: Option<HealthCheck>)
    ensures
        match r {
            Some(c) => spec_decode_health_check(j.deep()) == Some(c@),
            None => spec_decode_health_check(j.deep()) is None,
        },
{
    match j {
        JsonValue::Object(o) => {
            let node = match json_str_field(o, "Node") {
                Some(v) => v,
                None => { return None; },
            };
            let check_id = match json_str_field(o, "CheckID") {
                Some(v) => v,
                None => { return None; },
            };
            let name = match json_str_field(o, "Name") {
                Some(v) => v,
                None => { return None; },
            };
            let status = match json_str_field(o, "Status") {
                Some(v) => v,
                None => { return None; },
            };
            let notes = match json_str_field(o, "Notes") {
                Some(v) => v,
                None => { return None; },
            };
            let output = match json_str_field(o, "Output") {
                Some(v) => v,
                None => { return None; },
            };
            let service_id = match json_str_field(o, "ServiceID") {
                Some(v) => v,
                None => { return None; },
            };
            let service_name = match json_str_field(o, "ServiceName") {
                Some(v) => v,
                None => { return None; },
            };
            let service_tags = match json_str_array_field(o, "ServiceTags") {
                Some(v) => v,
                None => { return None; },
            };
            let definition = match json_get(o, "Definition") {
                None => default_definition(),
                Some(dj) => match decode_definition(dj) {
                    Some(d) => d,
                    None => { return None; },
                },
            };
            let create_index = match json_i64_field(o, "CreateIndex") {
                Some(v) => v,
                None => { return None; },
            };
            let modify_index = match json_i64_field(o, "ModifyIndex") {
                Some(v) => v,
                None => { return None; },
            };
            Some(
                HealthCheck {
                    node,
                    check_id,
                    name,
                    status,
                    notes,
                    output,
                    service_id,
                    service_name,
                    service_tags,
                    definition,
                    create_index,
                    modify_index,
                },
            )
        },
        _ => None,
    }
}

/// What decoding an array of health checks yields: every element must be a
/// well-shaped check record.
pub open spec fn spec_decode_health_checks_arr(a: Seq<JsonView>) -> Option<Seq<HealthCheckV>> {
    if forall|i: int| 0 <= i < a.len() ==> spec_decode_health_check(#[trigger] a[i]) is Some {
        Some(Seq::new(a.len(), |i: int| spec_decode_health_check(a[i]).unwrap()))
    } else {
        None
    }
}

fn decode_health_checks_arr(a: &Vec<JsonValue>) -> (r: Option<Vec<HealthCheck>>)
    ensures
        match r {
            Some(v) => spec_decode_health_checks_arr(arr_deep(a@)) == Some(v.deep_view()),
            None => spec_decode_health_checks_arr(arr_deep(a@)) is None,
        },
{
    let ghost av = arr_deep(a@);
    let mut out: Vec<HealthCheck> = Vec::new();
    let mut i: usize = 0;
    while i < a.len()
        invariant
            0 <= i <= a.len(),
            av == arr_deep(a@),
            av.len() == a@.len(),
            out@.len() == i,
            forall|j: int| 0 <= j < i ==> spec_decode_health_check(#[trigger] av[j]) is Some,
            forall|j: int|
                0 <= j < i ==> (#[trigger] out@[j])@ == spec_decode_health_check(av[j]).unwrap(),
        decreases a.len() - i,
    {
        match decode_health_check(&a[i]) {
            Some(c) => {
                out.push(c);
            },
            None => {
                proof {
                    assert(av[i as int] == a@[i as int].deep());
                    assert(spec_decode_health_check(av[i as int]) is None);
                }
                return None;
            },
        }
        i = i + 1;
    }
    proof {
        assert(out.deep_view() =~= Seq::new(
            av.len(),
            |j: int| spec_decode_health_check(av[j]).unwrap(),
        ));
    }
    Some(out)
}

pub open spec fn spec_health_checks_of(b: Seq<u8>) -> Option<Seq<HealthCheckV>> {
    match json_parse(b) {
        Some(JsonView::Array(a)) => spec_decode_health_checks_arr(a),
        _ => None,
    }
}

/// Decode the body of a checks listing: a JSON array of health-check
/// records. Fails with a decode error on any other shape.
pub fn decode_health_checks(body: &[u8]) -> (r: Result<HealthChecks, Error>)
    ensures
        match r {
            Ok(v) => spec_health_checks_of(body@) == Some(v.deep_view()),
            Err(e) => e is Decode && spec_health_checks_of(body@) is None,
        },
{
    match parse_json(body) {
        Ok(JsonValue::Array(a)) => match decode_health_checks_arr(&a) {
            Some(v) => Ok(v),
            None => Err(decode_error(body, String::from_str("check record malformed"))),
        },
        Ok(other) => {
            proof {
                assert(!(other.deep() is Array));
            }
            Err(decode_error(body, String::from_str("expected a JSON array")))
        },
        Err(m) => Err(decode_error(body, m)),
    }
}

// Service entries.
pub open spec fn spec_default_node() -> NodeV {
    NodeV { name: Seq::<char>::empty(), address: Seq::<char>::empty() }
}

/// The node record inside a service entry: fields default when missing.
pub open spec fn spec_decode_node(j: JsonView) -> Option<NodeV> {
    match j {
        JsonView::Object(o) => {
            if spec_str_field(o, "Node"@) is Some && spec_str_field(o, "Address"@) is Some {
                Some(
                    NodeV {
                        name: spec_str_field(o, "Node"@).unwrap(),
                        address: spec_str_field(o, "Address"@).unwrap(),
                    },
                )
            } else {
                None
            }
        },
        _ => None,
    }
}

fn decode_node_entry(j: &JsonValue) -> (r: Option<Node>)
    ensures
        match r {
            Some(n) => spec_decode_node(j.deep()) == Some(n@),
            None => spec_decode_node(j.deep()) is None,
        },
{
    match j {
        JsonValue::Object(o) => {
            let name = match json_str_field(o, "Node") {
                Some(v) => v,
                None => { return None; },
            };
            let address = match json_str_field(o, "Address") {
                Some(v) => v,
                None => { return None; },
            };
            Some(Node { name, address })
        },
        _ => None,
    }
}

pub open spec fn spec_default_agent_service() -> AgentServiceV {
    AgentServiceV {
        id: Seq::<char>::empty(),
        service: Seq::<char>::empty(),
        tags: Seq::<Seq<char>>::empty(),
        port: 0,
        address: Seq::<char>::empty(),
    }
}

pub open spec fn spec_decode_agent_service(j: JsonView) -> Option<AgentServiceV> {
    match j {
        JsonView::Object(o) => {
            if spec_str_field(o, "ID"@) is Some && spec_str_field(o, "Service"@) is Some
                && spec_str_array_field(o, "Tags"@) is Some && spec_u16_field(o, "Port"@) is Some
                && spec_str_field(o, "Address"@) is Some {
                Some(
                    AgentServiceV {
                        id: spec_str_field(o, "ID"@).unwrap(),
                        service: spec_str_field(o, "Service"@).unwrap(),
                        tags: spec_str_array_field(o, "Tags"@).unwrap(),
                        port: spec_u16_field(o, "Port"@).unwrap(),
                        address: spec_str_field(o, "Address"@).unwrap(),
                    },
                )
            } else {
                None
            }
        },
        _ => None,
    }
}

fn decode_agent_service(j: &JsonValue) -> (r: Option<AgentService>)
    ensures
        match r {
            Some(s) => spec_decode_agent_service(j.deep()) == Some(s@),
            None => spec_decode_agent_service(j.deep()) is None,
        },
{
    match j {
        JsonValue::Object(o) => {
            let id = match json_str_field(o, "ID") {
                Some(v) => v,
                None => { return None; },
            };
            let service = match json_str_field(o, "Service") {
                Some(v) => v,
                None => { return None; },
            };
            let tags = match json_str_array_field(o, "Tags") {
                Some(v) => v,
                None => { return None; },
            };
            let port = match json_u16_field(o, "Port") {
                Some(v) => v,
                None => { return None; },
            };
            let address = match json_str_field(o, "Address") {
                Some(v) => v,
                None => { return None; },
            };
            Some(AgentService { id, service, tags, port, address })
        },
        _ => None,
    }
}

pub open spec fn spec_decode_service_entry(j: JsonView) -> Option<ServiceEntryV> {
    match j {
        JsonView::Object(o) => {
            let node = match spec_get(o, "Node"@) {
                None => Some(spec_default_node()),
                Some(nj) => spec_decode_node(nj),
            };
            let service = match spec_get(o, "Service"@) {
                None => Some(spec_default_agent_service()),
                Some(sj) => spec_decode_agent_service(sj),
            };
            let checks = match spec_get(o, "Checks"@) {
                None => Some(Seq::<HealthCheckV>::empty()),
                Some(JsonView::Array(a)) => spec_decode_health_checks_arr(a),
                Some(_) => None,
            };
            if node is Some && service is Some && checks is Some {
                Some(
                    ServiceEntryV {
                        node: node.unwrap(),
                        service: service.unwrap(),
                        checks: checks.unwrap(),
                    },
                )
            } else {
                None
            }
        },
        _ => None,
    }
}

pub fn decode_service_entry(j: &JsonValue) -> (r: Option<ServiceEntry>)
    ensures
        match r {
            Some(e) => spec_decode_service_entry(j.deep()) == Some(e@),
            None => spec_decode_service_entry(j.deep()) is None,
        },
{
    match j {
        JsonValue::Object(o) => {
            let node = match json_get(o, "Node") {
                None => Node { name: String::new(), address: String::new() },
                Some(nj) => match decode_node_entry(nj) {
                    Some(n) => n,
                    None => { return None; },
                },
            };
            let service = match json_get(o, "Service") {
                None => {
                    let s = AgentService {
                        id: String::new(),
                        service: String::new(),
                        tags: Vec::new(),
                        port: 0,
                        address: String::new(),
                    };
                    proof {
                        assert(s@.tags =~= Seq::<Seq<char>>::empty());
                    }
                    s
                },
                Some(sj) => match decode_agent_service(sj) {
                    Some(s) => s,
                    None => { return None; },
                },
            };
            let checks = match json_get(o, "Checks") {
                None => {
                    let v: HealthChecks = Vec::new();
                    proof {
                        assert(v.deep_view() =~= Seq::<HealthCheckV>::empty());
                    }
                    v
                },
                Some(JsonValue::Array(a)) => match decode_health_checks_arr(a) {
                    Some(v) => v,
                    None => { return None; },
                },
                Some(_) => { return None; },
            };
            Some(ServiceEntry { node, service, checks })
        },
        _ => None,
    }
}

/// What decoding an array of service entries yields.
pub open spec fn spec_decode_entries(a: Seq<JsonView>) -> Option<Seq<ServiceEntryV>> {
    if forall|i: int| 0 <= i < a.len() ==> spec_decode_service_entry(#[trigger] a[i]) is Some {
        Some(Seq::new(a.len(), |i: int| spec_decode_service_entry(a[i]).unwrap()))
    } else {
        None
    }
}

pub open spec fn spec_entries_of(b: Seq<u8>) -> Option<Seq<ServiceEntryV>> {
    match json_parse(b) {
        Some(JsonView::Array(a)) => spec_decode_entries(a),
        _ => None,
    }
}

/// Decode the body of a service-health listing: a JSON array of service
/// entries. Fails with a decode error on any other shape.
pub fn decode_service_entries(body: &[u8]) -> (r: Result<Vec<ServiceEntry>, Error>)
    ensures
        match r {
            Ok(v) => spec_entries_of(body@) == Some(v.deep_view()),
            Err(e) => e is Decode && spec_entries_of(body@) is None,
        },
{
    let a = match parse_json(body) {
        Ok(JsonValue::Array(a)) => a,
        Ok(other) => {
            proof {
                assert(!(other.deep() is Array));
            }
            return Err(decode_error(body, String::from_str("expected a JSON array")));
        },
        Err(m) => {
            return Err(decode_error(body, m));
        },
    };
    let ghost av = arr_deep(a@);
    let mut out: Vec<ServiceEntry> = Vec::new();
    let mut i: usize = 0;
    while i < a.len()
        invariant
            0 <= i <= a.len(),
            av == arr_deep(a@),
            av.len() == a@.len(),
            json_parse(body@) == Some(JsonView::Array(av)),
            out@.len() == i,
            forall|j: int| 0 <= j < i ==> spec_decode_service_entry(#[trigger] av[j]) is Some,
            forall|j: int|
                0 <= j < i ==> (#[trigger] out@[j])@ == spec_decode_service_entry(av[j]).unwrap(),
        decreases a.len() - i,
    {
        match decode_service_entry(&a[i]) {
            Some(e) => {
                out.push(e);
            },
            None => {
                proof {
                    assert(av[i as int] == a@[i as int].deep());
                    assert(spec_decode_service_entry(av[i as int]) is None);
                }
                return Err(decode_error(body, String::from_str("service entry malformed")));
            },
        }
        i = i + 1;
    }
    proof {
        assert(out.deep_view() =~= Seq::new(
            av.len(),
            |j: int| spec_decode_service_entry(av[j]).unwrap(),
        ));
    }
    Ok(out)
}

} // verus!
