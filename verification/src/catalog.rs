//! Catalog endpoints: the service map and the nodes that carry a service.
//!
//! URL building and body decoding are verified; performing the GET is the
//! caller's side of the contract.

use vstd::prelude::*;
use vstd::string::StringExecFns;
use crate::error::{decode_error, Error};
use crate::json::{
    arr_deep, json_parse, json_req_str_array_field, json_req_str_field, json_req_u16_field,
    json_str_array, obj_deep, parse_json, spec_req_str_array_field, spec_req_str_field,
    spec_req_u16_field, spec_str_array, JsonValue, JsonView,
};

verus! {

/// One cluster member, as the catalog names it.
#[derive(Clone, Debug)]
pub struct Node {
    pub name: String,
    pub address: String,
}

pub struct NodeV {
    pub name: Seq<char>,
    pub address: Seq<char>,
}

impl View for Node {
    type V = NodeV;

    open spec fn view(&self) -> NodeV {
        NodeV { name: self.name@, address: self.address@ }
    }
}

impl DeepView for Node {
    type V = NodeV;

    open spec fn deep_view(&self) -> NodeV {
        self@
    }
}

/// One service instance as the catalog's per-service listing shows it.
/// Every field is required of the payload.
#[derive(Clone, Debug)]
pub struct ServiceNode {
    pub address: String,
    pub node: String,
    pub service_address: String,
    pub service_id: String,
    pub service_name: String,
    pub service_port: u16,
    pub service_tags: Vec<String>,
}

pub struct ServiceNodeV {
    pub address: Seq<char>,
    pub node: Seq<char>,
    pub service_address: Seq<char>,
    pub service_id: Seq<char>,
    pub service_name: Seq<char>,
    pub service_port: u16,
    pub service_tags: Seq<Seq<char>>,
}

impl View for ServiceNode {
    type V = ServiceNodeV;

    open spec fn view(&self) -> ServiceNodeV {
        ServiceNodeV {
            address: self.address@,
            node: self.node@,
            service_address: self.service_address@,
            service_id: self.service_id@,
            service_name: self.service_name@,
            service_port: self.service_port,
            service_tags: self.service_tags.deep_view(),
        }
    }
}

impl DeepView for ServiceNode {
    type V = ServiceNodeV;

    open spec fn deep_view(&self) -> ServiceNodeV {
        self@
    }
}

/// Catalog can be used to query the catalog endpoints.
pub struct Catalog {
    pub endpoint: String,
}

impl Catalog {
    pub fn new(address: &str) -> (c: Catalog)
        ensures
            c.endpoint@ == address@ + "/v1/catalog"@,
    {
        let mut endpoint = String::from_str(address);
        endpoint.append("/v1/catalog");
        Catalog { endpoint }
    }

    /// The URL that lists every service with its tags.
    pub fn services_url(&self) -> (u: String)
        ensures
            u@ == self.endpoint@ + "/services"@,
    {
        let mut u = self.endpoint.clone();
        u.append("/services");
        u
    }

    /// The URL that lists the nodes carrying `service`.
    pub fn nodes_url(&self, service: &str) -> (u: String)
        ensures
            u@ == self.endpoint@ + "/service/"@ + service@,
    {
        let mut u = self.endpoint.clone();
        u.append("/service/");
        u.append(service);
        u
    }
}

/// What decoding the service map yields: an object whose values are all
/// arrays of tag strings, kept in the order handed over.
pub open spec fn spec_services_map(o: Seq<(Seq<char>, JsonView)>) -> Option<
    Seq<(Seq<char>, Seq<Seq<char>>)>,
> {
    if forall|i: int|
        0 <= i < o.len() ==> (#[trigger] o[i].1) is Array && spec_str_array(o[i].1->Array_0)
            is Some {
        Some(Seq::new(o.len(), |i: int| (o[i].0, spec_str_array(o[i].1->Array_0).unwrap())))
    } else {
        None
    }
}

pub open spec fn spec_services_of(b: Seq<u8>) -> Option<Seq<(Seq<char>, Seq<Seq<char>>)>> {
    match json_parse(b) {
        Some(JsonView::Object(o)) => spec_services_map(o),
        _ => None,
    }
}

/// Decode the body of the service-map listing: each service name mapped to
/// its tags. Fails with a decode error on any other shape.
pub fn decode_services(body: &[u8]) -> (r: Result<Vec<(String, Vec<String>)>, Error>)
    ensures
        match r {
            Ok(v) => spec_services_of(body@) == Some(v.deep_view()),
            Err(e) => e is Decode && spec_services_of(body@) is None,
        },
{
    let o = match parse_json(body) {
        Ok(JsonValue::Object(o)) => o,
        Ok(other) => {
            proof {
                assert(!(other.deep() is Object));
            }
            return Err(decode_error(body, String::from_str("expected a JSON object")));
        },
        Err(m) => {
            return Err(decode_error(body, m));
        },
    };
    let ghost ov = obj_deep(o@);
    let mut out: Vec<(String, Vec<String>)> = Vec::new();
    let mut i: usize = 0;
    while i < o.len()
        invariant
            0 <= i <= o.len(),
            ov == obj_deep(o@),
            ov.len() == o@.len(),
            json_parse(body@) == Some(JsonView::Object(ov)),
            out@.len() == i,
            forall|j: int|
                0 <= j < i ==> (#[trigger] ov[j].1) is Array && spec_str_array(ov[j].1->Array_0)
                    is Some,
            forall|j: int|
                0 <= j < i ==> (#[trigger] out@[j]).0@ == ov[j].0 && out@[j].1.deep_view()
                    == spec_str_array(ov[j].1->Array_0).unwrap(),
        decreases o.len() - i,
    {
        match &o[i].1 {
            JsonValue::Array(a) => match json_str_array(a) {
                Some(tags) => {
                    out.push((o[i].0.clone(), tags));
                },
                None => {
                    proof {
                        assert(spec_str_array(ov[i as int].1->Array_0) is None);
                    }
                    return Err(decode_error(body, String::from_str("expected tag strings")));
                },
            },
            _ => {
                proof {
                    assert(!(ov[i as int].1 is Array));
                }
                return Err(decode_error(body, String::from_str("expected a tag array")));
            },
        }
        i = i + 1;
    }
    proof {
        assert(out.deep_view() =~= Seq::new(
            ov.len(),
            |j: int| (ov[j].0, spec_str_array(ov[j].1->Array_0).unwrap()),
        ));
    }
    Ok(out)
}

/// What decoding one catalog node yields: an object whose `Node` and
/// `Address` fields are present strings; anything less is a refusal.
pub open spec fn spec_decode_catalog_node(j: JsonView) -> Option<NodeV> {
    match j {
        JsonView::Object(o) => {
            if spec_req_str_field(o, "Node"@) is Some && spec_req_str_field(o, "Address"@)
                is Some {
                Some(
                    NodeV {
                        name: spec_req_str_field(o, "Node"@).unwrap(),
                        address: spec_req_str_field(o, "Address"@).unwrap(),
                    },
                )
            } else {
                None
            }
        },
        _ => None,
    }
}

pub open spec fn spec_nodes_of(b: Seq<u8>) -> Option<Seq<NodeV>> {
    match json_parse(b) {
        Some(JsonView::Array(a)) => {
            if forall|i: int| 0 <= i < a.len() ==> spec_decode_catalog_node(#[trigger] a[i])
                is Some {
                Some(Seq::new(a.len(), |i: int| spec_decode_catalog_node(a[i]).unwrap()))
            } else {
                None
            }
        },
        _ => None,
    }
}

fn decode_catalog_node(j: &JsonValue) -> (r: Option<Node>)
    ensures
        match r {
            Some(n) => spec_decode_catalog_node(j.deep()) == Some(n@),
            None => spec_decode_catalog_node(j.deep()) is None,
        },
{
    match j {
        JsonValue::Object(o) => {
            let name = match json_req_str_field(o, "Node") {
                Some(v) => v,
                None => {
                    return None;
                },
            };
            let address = match json_req_str_field(o, "Address") {
                Some(v) => v,
                None => {
                    return None;
                },
            };
            Some(Node { name, address })
        },
        _ => None,
    }
}

/// Decode the body of the per-service node listing into the nodes' names and
/// addresses. A record without them is a decode failure, not a partial node.
pub fn decode_nodes(body: &[u8]) -> (r: Result<Vec<Node>, Error>)
    ensures
        match r {
            Ok(v) => spec_nodes_of(body@) == Some(v.deep_view()),
            Err(e) => e is Decode && spec_nodes_of(body@) is None,
        },
{
    let a = match parse_json(body) {
        Ok(JsonValue::Array(a)) => a,
        Ok(other) => {
            proof {
                assert(!(other.deep() is Array));
            }
            return Err(decode_error(body, String::from_str("expected a JSON array")));
        },
        Err(m) => {
            return Err(decode_error(body, m));
        },
    };
    let ghost av = arr_deep(a@);
    let mut out: Vec<Node> = Vec::new();
    let mut i: usize = 0;
    while i < a.len()
        invariant
            0 <= i <= a.len(),
            av == arr_deep(a@),
            av.len() == a@.len(),
            json_parse(body@) == Some(JsonView::Array(av)),
            out@.len() == i,
            forall|j: int| 0 <= j < i ==> spec_decode_catalog_node(#[trigger] av[j]) is Some,
            forall|j: int|
                0 <= j < i ==> (#[trigger] out@[j])@ == spec_decode_catalog_node(av[j]).unwrap(),
        decreases a.len() - i,
    {
        match decode_catalog_node(&a[i]) {
            Some(n) => {
                out.push(n);
            },
            None => {
                proof {
                    assert(av[i as int] == a@[i as int].deep());
                    assert(spec_decode_catalog_node(av[i as int]) is None);
                }
                return Err(decode_error(body, String::from_str("node record incomplete")));
            },
        }
        i = i + 1;
    }
    proof {
        assert(out.deep_view() =~= Seq::new(
            av.len(),
            |j: int| spec_decode_catalog_node(av[j]).unwrap(),
        ));
    }
    Ok(out)
}

/// What decoding one full service-node record yields: every field present
/// and of the right shape, or a refusal.
pub open spec fn spec_decode_service_node(j: JsonView) -> Option<ServiceNodeV> {
    match j {
        JsonView::Object(o) => {
            if spec_req_str_field(o, "Address"@) is Some && spec_req_str_field(o, "Node"@) is Some
                && spec_req_str_field(o, "ServiceAddress"@) is Some && spec_req_str_field(
                o,
                "ServiceID"@,
            ) is Some && spec_req_str_field(o, "ServiceName"@) is Some && spec_req_u16_field(
                o,
                "ServicePort"@,
            ) is Some && spec_req_str_array_field(o, "ServiceTags"@) is Some {
                Some(
                    ServiceNodeV {
                        address: spec_req_str_field(o, "Address"@).unwrap(),
                        node: spec_req_str_field(o, "Node"@).unwrap(),
                        service_address: spec_req_str_field(o, "ServiceAddress"@).unwrap(),
                        service_id: spec_req_str_field(o, "ServiceID"@).unwrap(),
                        service_name: spec_req_str_field(o, "ServiceName"@).unwrap(),
                        service_port: spec_req_u16_field(o, "ServicePort"@).unwrap(),
                        service_tags: spec_req_str_array_field(o, "ServiceTags"@).unwrap(),
                    },
                )
            } else {
                None
            }
        },
        _ => None,
    }
}

fn decode_service_node(j: &JsonValue) -> (r: Option<ServiceNode>)
    ensures
        match r {
            Some(n) => spec_decode_service_node(j.deep()) == Some(n@),
            None => spec_decode_service_node(j.deep()) is None,
        },
{
    match j {
        JsonValue::Object(o) => {
            let address = match json_req_str_field(o, "Address") {
                Some(v) => v,
                None => { return None; },
            };
            let node = match json_req_str_field(o, "Node") {
                Some(v) => v,
                None => { return None; },
            };
            let service_address = match json_req_str_field(o, "ServiceAddress") {
                Some(v) => v,
                None => { return None; },
            };
            let service_id = match json_req_str_field(o, "ServiceID") {
                Some(v) => v,
                None => { return None; },
            };
            let service_name = match json_req_str_field(o, "ServiceName") {
                Some(v) => v,
                None => { return None; },
            };
            let service_port = match json_req_u16_field(o, "ServicePort") {
                Some(v) => v,
                None => { return None; },
            };
            let service_tags = match json_req_str_array_field(o, "ServiceTags") {
                Some(v) => v,
                None => { return None; },
            };
            Some(
                ServiceNode {
                    address,
                    node,
                    service_address,
                    service_id,
                    service_name,
                    service_port,
                    service_tags,
                },
            )
        },
        _ => None,
    }
}

pub open spec fn spec_service_nodes_of(b: Seq<u8>) -> Option<Seq<ServiceNodeV>> {
    match json_parse(b) {
        Some(JsonView::Array(a)) => {
            if forall|i: int| 0 <= i < a.len() ==> spec_decode_service_node(#[trigger] a[i])
                is Some {
                Some(Seq::new(a.len(), |i: int| spec_decode_service_node(a[i]).unwrap()))
            } else {
                None
            }
        },
        _ => None,
    }
}

/// Decode the body of the per-service node listing into full service-node
/// records; a record with any field missing is a decode failure.
pub fn decode_service_nodes(body: &[u8]) -> (r: Result<Vec<ServiceNode>, Error>)
    ensures
        match r {
            Ok(v) => spec_service_nodes_of(body@) == Some(v.deep_view()),
            Err(e) => e is Decode && spec_service_nodes_of(body@) is None,
        },
{
    let a = match parse_json(body) {
        Ok(JsonValue::Array(a)) => a,
        Ok(other) => {
            proof {
                assert(!(other.deep() is Array));
            }
            return Err(decode_error(body, String::from_str("expected a JSON array")));
        },
        Err(m) => {
            return Err(decode_error(body, m));
        },
    };
    let ghost av = arr_deep(a@);
    let mut out: Vec<ServiceNode> = Vec::new();
    let mut i: usize = 0;
    while i < a.len()
        invariant
            0 <= i <= a.len(),
            av == arr_deep(a@),
            av.len() == a@.len(),
            json_parse(body@) == Some(JsonView::Array(av)),
            out@.len() == i,
            forall|j: int| 0 <= j < i ==> spec_decode_service_node(#[trigger] av[j]) is Some,
            forall|j: int|
                0 <= j < i ==> (#[trigger] out@[j])@ == spec_decode_service_node(av[j]).unwrap(),
        decreases a.len() - i,
    {
        match decode_service_node(&a[i]) {
            Some(n) => {
                out.push(n);
            },
            None => {
                proof {
                    assert(av[i as int] == a@[i as int].deep());
                    assert(spec_decode_service_node(av[i as int]) is None);
                }
                return Err(decode_error(body, String::from_str("service node incomplete")));
            },
        }
        i = i + 1;
    }
    proof {
        assert(out.deep_view() =~= Seq::new(
            av.len(),
            |j: int| spec_decode_service_node(av[j]).unwrap(),
        ));
    }
    Ok(out)
}

} // verus!
