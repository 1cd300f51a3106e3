use consul::health::ServiceOptions;
use consul::params::service_options_from_params;
use consul::Client;

fn client(datacenter: Option<&str>) -> Client {
    Client::new(
        String::from("http://127.0.0.1:8500"),
        datacenter.map(String::from),
    )
}

fn opts() -> ServiceOptions {
    ServiceOptions { dc: None, near: None, tag: None, node_meta: None, passing: None }
}

#[test]
fn only_tag_yields_exactly_one_pair() {
    let c = client(None);
    let o = ServiceOptions { tag: Some(String::from("primary")), ..opts() };
    let params = c.service_params(Some(&o));
    assert_eq!(params, vec![(String::from("tag"), String::from("primary"))]);
}

#[test]
fn no_options_yields_no_pairs() {
    let c = client(None);
    assert!(c.service_params(None).is_empty());
    assert!(c.node_params(None).is_empty());
    assert!(c.check_params(None).is_empty());
    assert!(c.state_params(None).is_empty());
}

#[test]
fn per_call_datacenter_overrides_default() {
    let c = client(Some("dc-default"));
    let o = ServiceOptions { dc: Some(String::from("dc-call")), ..opts() };
    let params = c.service_params(Some(&o));
    assert_eq!(params, vec![(String::from("dc"), String::from("dc-call"))]);
}

#[test]
fn default_datacenter_used_when_call_unset() {
    let c = client(Some("dc-default"));
    let params = c.service_params(Some(&opts()));
    assert_eq!(params, vec![(String::from("dc"), String::from("dc-default"))]);
    let params = c.service_params(None);
    assert_eq!(params, vec![(String::from("dc"), String::from("dc-default"))]);
}

#[test]
fn booleans_serialize_textually() {
    let c = client(None);
    let o = ServiceOptions { passing: Some(true), ..opts() };
    assert_eq!(
        c.service_params(Some(&o)),
        vec![(String::from("passing"), String::from("true"))]
    );
    let o = ServiceOptions { passing: Some(false), ..opts() };
    assert_eq!(
        c.service_params(Some(&o)),
        vec![(String::from("passing"), String::from("false"))]
    );
}

#[test]
fn all_fields_set_yields_all_pairs_in_order() {
    let c = client(None);
    let o = ServiceOptions {
        dc: Some(String::from("dc1")),
        near: Some(String::from("_agent")),
        tag: Some(String::from("v2")),
        node_meta: Some(String::from("rack:r1")),
        passing: Some(true),
    };
    assert_eq!(
        c.service_params(Some(&o)),
        vec![
            (String::from("dc"), String::from("dc1")),
            (String::from("near"), String::from("_agent")),
            (String::from("tag"), String::from("v2")),
            (String::from("node-meta"), String::from("rack:r1")),
            (String::from("passing"), String::from("true")),
        ]
    );
}

#[test]
fn round_trip_dc_and_passing() {
    let c = client(None);
    let o = ServiceOptions {
        dc: Some(String::from("dc1")),
        passing: Some(true),
        ..opts()
    };
    let params = c.service_params(Some(&o));
    assert_eq!(params.len(), 2);
    let back = service_options_from_params(&params).expect("parses back");
    assert_eq!(back.dc.as_deref(), Some("dc1"));
    assert_eq!(back.passing, Some(true));
    assert_eq!(back.near, None);
    assert_eq!(back.tag, None);
    assert_eq!(back.node_meta, None);
    // Order-independent: the reversed list reads back the same.
    let mut reversed = params.clone();
    reversed.reverse();
    let back = service_options_from_params(&reversed).expect("parses back");
    assert_eq!(back.dc.as_deref(), Some("dc1"));
    assert_eq!(back.passing, Some(true));
}

#[test]
fn unparsable_passing_refused_on_read_back() {
    let params = vec![(String::from("passing"), String::from("yes"))];
    assert!(service_options_from_params(&params).is_none());
}
