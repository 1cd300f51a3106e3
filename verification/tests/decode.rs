use consul::catalog::{decode_nodes, decode_service_nodes, decode_services, Catalog};
use consul::error::Error;
use consul::health::{decode_health_checks, decode_service_entries};
use consul::Client;

#[test]
fn service_fixture_decodes_field_for_field() {
    let c = Client::new(String::from("http://127.0.0.1:8500"), None);
    let q = c.service_query("web", None);
    assert_eq!(q.path, "health/service/web");
    assert!(q.params.is_empty());
    let body = br#"[
      {"Node": {"Node": "alpha", "Address": "10.1.1.1"},
       "Service": {"ID": "web-1", "Service": "web", "Tags": ["http", "v1"], "Port": 8000, "Address": "10.1.1.1"},
       "Checks": [
         {"Node": "alpha", "CheckID": "serfHealth", "Name": "Serf Health Status",
          "Status": "passing", "Notes": "", "Output": "Agent alive",
          "ServiceID": "", "ServiceName": "", "ServiceTags": [],
          "CreateIndex": 5, "ModifyIndex": 5}
       ]},
      {"Node": {"Node": "beta", "Address": "10.1.1.2"},
       "Service": {"ID": "web-2", "Service": "web", "Tags": [], "Port": 8001, "Address": ""},
       "Checks": []}
    ]"#;
    let entries = decode_service_entries(body).unwrap_or_else(|_| panic!("fixture decodes"));
    assert_eq!(entries.len(), 2);
    assert_eq!(entries[0].node.name, "alpha");
    assert_eq!(entries[0].node.address, "10.1.1.1");
    assert_eq!(entries[0].service.id, "web-1");
    assert_eq!(entries[0].service.service, "web");
    assert_eq!(entries[0].service.tags, vec![String::from("http"), String::from("v1")]);
    assert_eq!(entries[0].service.port, 8000);
    assert_eq!(entries[0].checks.len(), 1);
    assert_eq!(entries[0].checks[0].check_id, "serfHealth");
    assert_eq!(entries[0].checks[0].status, "passing");
    assert_eq!(entries[0].checks[0].create_index, 5);
    assert_eq!(entries[1].node.name, "beta");
    assert_eq!(entries[1].service.port, 8001);
    assert!(entries[1].checks.is_empty());
}

#[test]
fn health_check_missing_fields_take_zero_values() {
    let body = br#"[{"Node": "gamma", "Status": "critical"}]"#;
    let checks = decode_health_checks(body).unwrap_or_else(|_| panic!("defaults fill in"));
    assert_eq!(checks.len(), 1);
    assert_eq!(checks[0].node, "gamma");
    assert_eq!(checks[0].status, "critical");
    assert_eq!(checks[0].check_id, "");
    assert_eq!(checks[0].service_tags, Vec::<String>::new());
    assert_eq!(checks[0].create_index, 0);
    assert!(!checks[0].definition.tls_skip_verify);
    assert!(checks[0].definition.header.is_none());
}

#[test]
fn health_check_definition_decodes() {
    let body = br#"[{"Node": "n", "Definition": {
        "HTTP": "http://localhost/health", "Method": "GET",
        "Header": {"X-Token": "SECRET-REDACTED"},
        "TLSSkipVerify": true, "TCP": "", "Interval": "10s", "Timeout": "1s",
        "DeregisterCriticalServiceAfter": "90m"}}]"#;
    let checks = decode_health_checks(body).unwrap_or_else(|_| panic!("definition decodes"));
    let d = &checks[0].definition;
    assert_eq!(d.http, "http://localhost/health");
    assert_eq!(d.method, "GET");
    assert!(d.tls_skip_verify);
    assert_eq!(d.interval, "10s");
    assert_eq!(d.timeout, "1s");
    assert_eq!(d.deregister_critical_service_after, "90m");
    let header = d.header.as_ref().unwrap_or_else(|| panic!("header map kept"));
    assert_eq!(header.len(), 1);
    assert_eq!(header[0].0, "X-Token");
}

#[test]
fn numeric_field_sent_as_string_is_refused() {
    let body = br#"[{"Node": "n", "CreateIndex": "12"}]"#;
    match decode_health_checks(body) {
        Err(Error::Decode { .. }) => {}
        _ => panic!("a string where an integer is expected must fail"),
    }
}

#[test]
fn fractional_index_is_refused() {
    let body = br#"[{"Node": "n", "ModifyIndex": 3.5}]"#;
    match decode_health_checks(body) {
        Err(Error::Decode { .. }) => {}
        _ => panic!("a fractional number where an integer is expected must fail"),
    }
}

#[test]
fn string_field_sent_as_number_is_refused() {
    let body = br#"[{"Node": 4}]"#;
    match decode_health_checks(body) {
        Err(Error::Decode { .. }) => {}
        _ => panic!("a number where a string is expected must fail"),
    }
}

#[test]
fn non_array_body_is_refused() {
    match decode_health_checks(b"{}") {
        Err(Error::Decode { .. }) => {}
        _ => panic!("an object where an array is expected must fail"),
    }
}

#[test]
fn malformed_json_keeps_offending_bytes() {
    let body = b"not json at all";
    match decode_health_checks(body) {
        Err(Error::Decode { data, message }) => {
            assert_eq!(data, body.to_vec());
            assert!(!message.is_empty());
        }
        _ => panic!("malformed JSON must fail"),
    }
}

#[test]
fn long_offending_bodies_are_truncated() {
    let body = vec![b'x'; 1000];
    match decode_health_checks(&body) {
        Err(Error::Decode { data, .. }) => {
            assert_eq!(data.len(), 256);
            assert_eq!(data, vec![b'x'; 256]);
        }
        _ => panic!("malformed JSON must fail"),
    }
}

#[test]
fn negative_indexes_decode() {
    let body = br#"[{"Node": "n", "CreateIndex": -7}]"#;
    let checks = decode_health_checks(body).unwrap_or_else(|_| panic!("negative integer decodes"));
    assert_eq!(checks[0].create_index, -7);
}

#[test]
fn catalog_urls() {
    let c = Catalog::new("http://127.0.0.1:8500");
    assert_eq!(c.endpoint, "http://127.0.0.1:8500/v1/catalog");
    assert_eq!(c.services_url(), "http://127.0.0.1:8500/v1/catalog/services");
    assert_eq!(c.nodes_url("web"), "http://127.0.0.1:8500/v1/catalog/service/web");
}

#[test]
fn services_map_decodes() {
    let body = br#"{"consul": [], "web": ["http", "v1"]}"#;
    let services = decode_services(body).unwrap_or_else(|_| panic!("service map decodes"));
    assert_eq!(services.len(), 2);
    assert_eq!(services[0].0, "consul");
    assert!(services[0].1.is_empty());
    assert_eq!(services[1].0, "web");
    assert_eq!(services[1].1, vec![String::from("http"), String::from("v1")]);
}

#[test]
fn services_map_refuses_non_array_values() {
    match decode_services(br#"{"web": "oops"}"#) {
        Err(Error::Decode { .. }) => {}
        _ => panic!("a non-array service value must fail"),
    }
}

#[test]
fn nodes_decode_requires_name_and_address() {
    let body = br#"[{"Node": "alpha", "Address": "10.0.0.1", "ServicePort": 80}]"#;
    let nodes = decode_nodes(body).unwrap_or_else(|_| panic!("nodes decode"));
    assert_eq!(nodes.len(), 1);
    assert_eq!(nodes[0].name, "alpha");
    assert_eq!(nodes[0].address, "10.0.0.1");
    match decode_nodes(br#"[{"Node": "alpha"}]"#) {
        Err(Error::Decode { .. }) => {}
        _ => panic!("a node without an address must fail"),
    }
}

#[test]
fn service_nodes_require_every_field() {
    let body = br#"[{"Address": "10.0.0.1", "Node": "alpha",
        "ServiceAddress": "", "ServiceID": "web-1", "ServiceName": "web",
        "ServicePort": 8300, "ServiceTags": ["v1"]}]"#;
    let nodes = decode_service_nodes(body).unwrap_or_else(|_| panic!("full record decodes"));
    assert_eq!(nodes.len(), 1);
    assert_eq!(nodes[0].node, "alpha");
    assert_eq!(nodes[0].service_id, "web-1");
    assert_eq!(nodes[0].service_port, 8300);
    assert_eq!(nodes[0].service_tags, vec![String::from("v1")]);
    // The same record without ServicePort is refused, not defaulted.
    let body = br#"[{"Address": "10.0.0.1", "Node": "alpha",
        "ServiceAddress": "", "ServiceID": "web-1", "ServiceName": "web",
        "ServiceTags": ["v1"]}]"#;
    match decode_service_nodes(body) {
        Err(Error::Decode { .. }) => {}
        _ => panic!("a missing field must fail"),
    }
    // A port outside the 16-bit range is refused.
    let body = br#"[{"Address": "a", "Node": "n", "ServiceAddress": "",
        "ServiceID": "i", "ServiceName": "s", "ServicePort": 70000, "ServiceTags": []}]"#;
    match decode_service_nodes(body) {
        Err(Error::Decode { .. }) => {}
        _ => panic!("an out-of-range port must fail"),
    }
}

#[test]
fn endpoint_paths() {
    let c = Client::new(String::from("http://127.0.0.1:8500"), None);
    assert_eq!(c.node_query("n1", None).path, "health/node/n1");
    assert_eq!(c.checks_query("web", None).path, "health/checks/web");
    assert_eq!(c.connect_query("web", None).path, "health/connect/web");
    assert_eq!(c.state_query("critical", None).path, "health/state/critical");
}
