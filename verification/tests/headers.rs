use lemmy_client::{Headers, HttpMethod, RequestBuilder};

fn pair(name: &str, value: &str) -> (String, String) {
    (name.to_string(), value.to_string())
}

fn bare() -> RequestBuilder {
    RequestBuilder::new(HttpMethod::Get, "http://lemmy.ml/api/v3/site".to_string())
}

fn sorted(mut headers: Vec<(String, String)>) -> Vec<(String, String)> {
    headers.sort();
    headers
}

#[test]
fn new_headers_are_empty() {
    let headers = Headers::new();
    assert!(headers.entries().is_empty());
    assert_eq!(headers.get("accept"), None);
}

#[test]
fn insert_stores_a_header() {
    let mut headers = Headers::new();
    assert_eq!(headers.insert("accept".to_string(), "text/plain".to_string()), None);
    assert_eq!(headers.get("accept"), Some(&"text/plain".to_string()));
    assert_eq!(headers.entries(), &vec![pair("accept", "text/plain")]);
}

#[test]
fn insert_replaces_the_value_of_a_name() {
    let mut headers = Headers::new();
    headers.insert("accept".to_string(), "text/plain".to_string());
    headers.insert("x-one".to_string(), "1".to_string());
    let previous = headers.insert("accept".to_string(), "application/json".to_string());
    assert_eq!(previous, Some("text/plain".to_string()));
    assert_eq!(
        headers.entries(),
        &vec![pair("accept", "application/json"), pair("x-one", "1")]
    );
}

#[test]
fn names_that_differ_in_case_are_different_names() {
    let mut headers = Headers::new();
    headers.insert("Accept".to_string(), "a".to_string());
    assert_eq!(headers.insert("accept".to_string(), "b".to_string()), None);
    assert_eq!(headers.entries().len(), 2);
    assert_eq!(headers.get("Accept"), Some(&"a".to_string()));
    assert_eq!(headers.get("ACCEPT"), None);
}

#[test]
fn new_builder_has_no_headers_and_no_body() {
    let builder = bare();
    assert_eq!(builder.method, HttpMethod::Get);
    assert_eq!(builder.url, "http://lemmy.ml/api/v3/site");
    assert!(builder.headers.is_empty());
    assert_eq!(builder.body, None);
}

#[test]
fn header_is_applied_after_the_others() {
    let builder = bare().header("a", "1").header("b", "2").header("a", "3");
    assert_eq!(builder.headers, vec![pair("a", "1"), pair("b", "2"), pair("a", "3")]);
}

#[test]
fn has_header_ignores_the_case_of_letters() {
    let builder = bare().header("Content-Type", "text/plain");
    assert!(builder.has_header("content-type"));
    assert!(builder.has_header("CONTENT-TYPE"));
    assert!(!builder.has_header("content_type"));
    assert!(!builder.has_header("content-typ"));
}

#[test]
fn json_sets_the_body_and_declares_it() {
    let builder = bare().json("{\"a\":1}".to_string());
    assert_eq!(builder.body, Some("{\"a\":1}".to_string()));
    assert_eq!(builder.headers, vec![pair("content-type", "application/json")]);
}

#[test]
fn json_keeps_a_declared_content_type() {
    let builder = bare().header("Content-Type", "text/plain").json("{}".to_string());
    assert_eq!(builder.headers, vec![pair("Content-Type", "text/plain")]);
    assert_eq!(builder.body, Some("{}".to_string()));
}

#[test]
fn with_headers_adds_the_default_agent() {
    let mut headers = Headers::new();
    headers.insert("accept".to_string(), "application/json".to_string());
    let builder = bare().with_headers(&headers);
    assert_eq!(
        builder.headers,
        vec![pair("accept", "application/json"), pair("user-agent", "Lemmy-Client-rs/0.19.3")]
    );
}

#[test]
fn with_no_headers_only_the_default_agent_is_applied() {
    let builder = bare().with_headers(&Headers::new());
    assert_eq!(builder.headers, vec![pair("user-agent", "Lemmy-Client-rs/0.19.3")]);
}

#[test]
fn a_supplied_agent_suppresses_the_default() {
    let mut headers = Headers::new();
    headers.insert("User-Agent".to_string(), "mine/1.0".to_string());
    let builder = bare().with_headers(&headers);
    assert_eq!(builder.headers, vec![pair("User-Agent", "mine/1.0")]);
}

#[test]
fn an_agent_in_any_casing_suppresses_the_default() {
    for name in ["user-agent", "USER-AGENT", "uSeR-aGeNt"] {
        let mut headers = Headers::new();
        headers.insert("accept".to_string(), "a".to_string());
        headers.insert(name.to_string(), "mine/1.0".to_string());
        let builder = bare().with_headers(&headers);
        let agents = builder
            .headers
            .iter()
            .filter(|(n, _)| n.eq_ignore_ascii_case("user-agent"))
            .count();
        assert_eq!(agents, 1);
        assert_eq!(builder.headers, vec![pair("accept", "a"), pair(name, "mine/1.0")]);
    }
}

#[test]
fn a_name_close_to_the_agent_does_not_suppress_the_default() {
    for name in ["user_agent", "user-agent ", "user-agen", "xuser-agent", "u\u{17f}er-agent"] {
        let mut headers = Headers::new();
        headers.insert(name.to_string(), "mine/1.0".to_string());
        let builder = bare().with_headers(&headers);
        assert_eq!(
            builder.headers,
            vec![pair(name, "mine/1.0"), pair("user-agent", "Lemmy-Client-rs/0.19.3")]
        );
    }
}

#[test]
fn with_headers_keeps_what_was_applied_before() {
    let mut headers = Headers::new();
    headers.insert("accept".to_string(), "a".to_string());
    let builder = bare().header("x-first", "1").json("{}".to_string()).with_headers(&headers);
    assert_eq!(
        builder.headers,
        vec![
            pair("x-first", "1"),
            pair("content-type", "application/json"),
            pair("accept", "a"),
            pair("user-agent", "Lemmy-Client-rs/0.19.3"),
        ]
    );
    assert_eq!(builder.body, Some("{}".to_string()));
    assert_eq!(builder.url, "http://lemmy.ml/api/v3/site");
}

#[test]
fn attachment_does_not_depend_on_the_order() {
    let mut one = Headers::new();
    one.insert("accept".to_string(), "a".to_string());
    one.insert("x-one".to_string(), "1".to_string());
    one.insert("x-two".to_string(), "2".to_string());
    let mut other = Headers::new();
    other.insert("x-two".to_string(), "2".to_string());
    other.insert("accept".to_string(), "a".to_string());
    other.insert("x-one".to_string(), "1".to_string());
    let with_one = bare().with_headers(&one);
    let with_other = bare().with_headers(&other);
    assert_ne!(with_one.headers, with_other.headers);
    assert_eq!(sorted(with_one.headers), sorted(with_other.headers));
}

#[test]
fn a_token_is_applied_as_a_bearer_header() {
    let builder = bare().header("accept", "a").maybe_with_jwt(Some("abc"));
    assert_eq!(builder.headers, vec![pair("accept", "a"), pair("authorization", "Bearer abc")]);
}

#[test]
fn no_token_applies_no_header() {
    let builder = bare().header("accept", "a").maybe_with_jwt(None);
    assert_eq!(builder.headers, vec![pair("accept", "a")]);
}

#[test]
fn a_token_overrides_no_header_of_the_caller() {
    let builder = bare().header("Authorization", "Basic xyz").maybe_with_jwt(Some("abc"));
    assert_eq!(
        builder.headers,
        vec![pair("Authorization", "Basic xyz"), pair("authorization", "Bearer abc")]
    );
}

#[test]
fn the_empty_token_is_still_a_token() {
    let builder = bare().maybe_with_jwt(Some(""));
    assert_eq!(builder.headers, vec![pair("authorization", "Bearer ")]);
}
