use api_flow::http_client::{response_outcome, HTTPClientBuilder, HTTPMethod};
use api_flow::status_text::status_message;

#[test]
fn builder_defaults() {
    let client = HTTPClientBuilder::new().build();
    assert_eq!(client.http_method, HTTPMethod::Get);
    assert_eq!(client.url, "");
    assert!(client.headers.is_empty());
    assert_eq!(client.response_body, Ok(String::new()));
}

#[test]
fn builder_replaces_method_and_url() {
    let client = HTTPClientBuilder::new()
        .with_http_method(HTTPMethod::Post)
        .with_url("http://example.test/x".to_string())
        .with_http_method(HTTPMethod::Put)
        .build();
    assert_eq!(client.http_method, HTTPMethod::Put);
    assert_eq!(client.url, "http://example.test/x");
}

#[test]
fn method_tokens_are_total() {
    assert_eq!(HTTPMethod::Get.token(), "GET");
    assert_eq!(HTTPMethod::Post.token(), "POST");
    assert_eq!(HTTPMethod::Put.token(), "PUT");
    assert_eq!(HTTPMethod::Delete.token(), "DELETE");
    assert_eq!(HTTPMethod::Patch.token(), "PATCH");
    assert_eq!(HTTPMethod::Head.token(), "HEAD");
    assert_eq!(HTTPMethod::Options.token(), "OPTIONS");
}

#[test]
fn last_header_write_wins() {
    let client = HTTPClientBuilder::new()
        .with_header("A".to_string(), "1".to_string())
        .with_header("A".to_string(), "2".to_string())
        .build();
    assert_eq!(client.header_value(&"A".to_string()), Some(&"2".to_string()));
}

#[test]
fn headers_keep_distinct_keys() {
    let client = HTTPClientBuilder::new()
        .with_header("Accept".to_string(), "text/plain".to_string())
        .with_header("X-Key".to_string(), "k".to_string())
        .build();
    assert_eq!(
        client.header_value(&"Accept".to_string()),
        Some(&"text/plain".to_string())
    );
    assert_eq!(client.header_value(&"X-Key".to_string()), Some(&"k".to_string()));
    assert_eq!(client.header_value(&"Absent".to_string()), None);
}

#[test]
fn bulk_headers_match_single_headers() {
    let entries = vec![
        ("A".to_string(), "1".to_string()),
        ("B".to_string(), "2".to_string()),
        ("A".to_string(), "3".to_string()),
    ];
    let bulk = HTTPClientBuilder::new().with_headers(entries.clone()).build();
    let mut single = HTTPClientBuilder::new();
    for (k, v) in entries {
        single = single.with_header(k, v);
    }
    let single = single.build();
    assert_eq!(bulk.headers, single.headers);
    assert_eq!(bulk.header_value(&"A".to_string()), Some(&"3".to_string()));
    assert_eq!(bulk.header_value(&"B".to_string()), Some(&"2".to_string()));
}

#[test]
fn success_status_passes_body_through() {
    let body = "{\"ok\":true}".to_string();
    let outcome = response_outcome(200, Ok(body.clone()));
    assert_eq!(outcome, Ok(body));
}

#[test]
fn success_status_passes_decode_failure_through() {
    let outcome = response_outcome(200, Err("bad utf-8".to_string()));
    assert_eq!(outcome, Err("bad utf-8".to_string()));
}

#[test]
fn other_status_discards_body() {
    let outcome = response_outcome(404, Ok("a body the server sent".to_string()));
    assert_eq!(outcome, Err("HTTP Error: 404".to_string()));
    let outcome = response_outcome(404, Ok(String::new()));
    assert_eq!(outcome, Err("HTTP Error: 404".to_string()));
    let outcome = response_outcome(500, Ok("x".to_string()));
    assert_eq!(outcome, Err("HTTP Error: 500".to_string()));
}

#[test]
fn status_messages_are_exact() {
    assert_eq!(status_message(0), "HTTP Error: 0");
    assert_eq!(status_message(7), "HTTP Error: 7");
    assert_eq!(status_message(40), "HTTP Error: 40");
    assert_eq!(status_message(201), "HTTP Error: 201");
    assert_eq!(status_message(404), "HTTP Error: 404");
    assert_eq!(status_message(65535), "HTTP Error: 65535");
}

#[test]
fn unresolvable_host_is_a_failure() {
    let mut client = HTTPClientBuilder::new()
        .with_url("http://invalid.invalid".to_string())
        .with_header("Accept".to_string(), "application/json".to_string())
        .build();
    client.send_request(None);
    match &client.response_body {
        Err(m) => assert!(!m.is_empty()),
        Ok(_) => panic!("a call to an unresolvable host cannot succeed"),
    }
}

#[test]
fn empty_url_is_a_failure_not_a_panic() {
    let mut client = HTTPClientBuilder::new().build();
    client.send_request(None);
    match &client.response_body {
        Err(m) => assert!(!m.is_empty()),
        Ok(_) => panic!("an empty url cannot succeed"),
    }
}

#[test]
fn serialization_failure_short_circuits() {
    let mut client = HTTPClientBuilder::new()
        .with_url("http://invalid.invalid".to_string())
        .build();
    client.send_serialized(Some(Err("could not encode body".to_string())));
    assert_eq!(client.response_body, Err("could not encode body".to_string()));
}

#[test]
fn serialized_body_is_sent() {
    let mut client = HTTPClientBuilder::new()
        .with_http_method(HTTPMethod::Post)
        .with_url("http://invalid.invalid".to_string())
        .build();
    let value = serde_json::Value::String("payload".to_string());
    client.send_serialized(Some(Ok(value)));
    match &client.response_body {
        Err(m) => {
            assert!(!m.is_empty());
            assert_ne!(m, "could not encode body");
        }
        Ok(_) => panic!("a call to an unresolvable host cannot succeed"),
    }
}

#[test]
fn resend_replaces_outcome() {
    let mut client = HTTPClientBuilder::new()
        .with_url("http://invalid.invalid".to_string())
        .build();
    client.send_serialized(Some(Err("first".to_string())));
    assert_eq!(client.response_body, Err("first".to_string()));
    client.url = String::new();
    client.send_request(None);
    match &client.response_body {
        Err(m) => {
            assert!(!m.is_empty());
            assert_ne!(m, "first");
        }
        Ok(_) => panic!("an empty url cannot succeed"),
    }
}
