use consul::blocking::{blocking_service_response, header_index_value, BlockingOptions};
use consul::error::Error;
use consul::health::ServiceOptions;
use consul::Client;

fn headers(pairs: &[(&str, &str)]) -> Vec<(String, String)> {
    pairs.iter().map(|(k, v)| (String::from(*k), String::from(*v))).collect()
}

const TWO_ENTRIES: &str = r#"[
  {"Node": {"Node": "n1", "Address": "10.0.0.1"},
   "Service": {"ID": "web1", "Service": "web", "Tags": ["a"], "Port": 80, "Address": ""},
   "Checks": []},
  {"Node": {"Node": "n2", "Address": "10.0.0.2"},
   "Service": {"ID": "web2", "Service": "web", "Tags": [], "Port": 8080, "Address": ""},
   "Checks": []}
]"#;

#[test]
fn index_and_body_returned_together() {
    let h = headers(&[("Content-Type", "application/json"), ("X-Consul-Index", "42")]);
    let r = blocking_service_response(&h, TWO_ENTRIES.as_bytes()).unwrap_or_else(|_| panic!("success"));
    assert_eq!(r.index, 42);
    assert_eq!(r.body.len(), 2);
    assert_eq!(r.body[0].node.name, "n1");
    assert_eq!(r.body[1].service.port, 8080);
}

#[test]
fn missing_index_header_fails() {
    let h = headers(&[("Content-Type", "application/json")]);
    match blocking_service_response(&h, b"[]") {
        Err(Error::MissingIndex) => {}
        other => panic!("expected MissingIndex, got {}", kind(&other)),
    }
}

#[test]
fn missing_index_short_circuits_before_decoding() {
    // The body is not even valid JSON; the missing header must win.
    let h = headers(&[("Content-Type", "application/json")]);
    match blocking_service_response(&h, b"this is not json") {
        Err(Error::MissingIndex) => {}
        other => panic!("expected MissingIndex, got {}", kind(&other)),
    }
}

#[test]
fn index_regression_is_accepted() {
    // A prior call returned 100; the server now answers 7. No error.
    let prior: u64 = 100;
    let h = headers(&[("X-Consul-Index", "7")]);
    let r = blocking_service_response(&h, b"[]").unwrap_or_else(|_| panic!("regression tolerated"));
    assert!(r.index < prior);
    assert_eq!(r.index, 7);
    assert!(r.body.is_empty());
}

#[test]
fn unparsable_index_header_is_a_decode_error() {
    let h = headers(&[("X-Consul-Index", "not-a-number")]);
    match blocking_service_response(&h, b"[]") {
        Err(Error::Decode { data, .. }) => assert_eq!(data, b"not-a-number"),
        other => panic!("expected Decode, got {}", kind(&other)),
    }
}

#[test]
fn bad_body_with_good_index_is_a_decode_error() {
    let h = headers(&[("X-Consul-Index", "9")]);
    match blocking_service_response(&h, b"{\"not\": \"an array\"}") {
        Err(Error::Decode { .. }) => {}
        other => panic!("expected Decode, got {}", kind(&other)),
    }
}

#[test]
fn largest_index_is_accepted_and_overflow_refused() {
    let h = headers(&[("X-Consul-Index", "18446744073709551615")]);
    match blocking_service_response(&h, b"[]") {
        Ok(r) => assert_eq!(r.index, u64::MAX),
        other => panic!("expected the largest index, got {}", kind(&other)),
    }
    let h = headers(&[("X-Consul-Index", "18446744073709551616")]);
    match blocking_service_response(&h, b"[]") {
        Err(Error::Decode { .. }) => {}
        other => panic!("expected Decode on overflow, got {}", kind(&other)),
    }
}

#[test]
fn leading_zeros_parse_as_decimal() {
    let h = headers(&[("X-Consul-Index", "007")]);
    match blocking_service_response(&h, b"[]") {
        Ok(r) => assert_eq!(r.index, 7),
        other => panic!("expected 7, got {}", kind(&other)),
    }
}

#[test]
fn empty_header_value_is_a_decode_error() {
    let h = headers(&[("X-Consul-Index", "")]);
    match blocking_service_response(&h, b"[]") {
        Err(Error::Decode { .. }) => {}
        other => panic!("expected Decode, got {}", kind(&other)),
    }
}

#[test]
fn header_name_is_case_insensitive() {
    let h = headers(&[("x-consul-index", "11")]);
    assert_eq!(header_index_value(&h).map(String::as_str), Some("11"));
    let h = headers(&[("X-CONSUL-INDEX", "12")]);
    assert_eq!(header_index_value(&h).map(String::as_str), Some("12"));
}

#[test]
fn wait_and_index_parameters_are_sent() {
    let c = Client::new(String::from("http://127.0.0.1:8500"), None);
    let b: BlockingOptions<&ServiceOptions> = BlockingOptions { wait: Some(30), options: None };
    let q = c.service_blocking_query(5, "web", Some(&b));
    assert_eq!(q.path, "health/service/web");
    assert!(q.params.contains(&(String::from("wait"), String::from("30s"))));
    assert!(q.params.contains(&(String::from("index"), String::from("5"))));
    assert_eq!(q.params.len(), 2);
}

#[test]
fn blocking_params_carry_filters() {
    let c = Client::new(String::from("http://127.0.0.1:8500"), Some(String::from("dc9")));
    let o = ServiceOptions {
        dc: None,
        near: None,
        tag: Some(String::from("edge")),
        node_meta: None,
        passing: Some(true),
    };
    let b = BlockingOptions { wait: Some(61), options: Some(&o) };
    let q = c.service_blocking_query(77, "db", Some(&b));
    assert_eq!(
        q.params,
        vec![
            (String::from("index"), String::from("77")),
            (String::from("dc"), String::from("dc9")),
            (String::from("wait"), String::from("61s")),
            (String::from("tag"), String::from("edge")),
            (String::from("passing"), String::from("true")),
        ]
    );
}

fn kind<T>(r: &Result<T, Error>) -> &'static str {
    match r {
        Ok(_) => "Ok",
        Err(Error::Transport(_)) => "Transport",
        Err(Error::MissingIndex) => "MissingIndex",
        Err(Error::Decode { .. }) => "Decode",
        Err(Error::Config(_)) => "Config",
    }
}
