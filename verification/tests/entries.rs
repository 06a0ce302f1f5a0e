use infinispan::request::entries;
use infinispan::request::entries::CreateEntryReq;
use infinispan::request::{Method, Request, ToHttpRequest};
use std::time::Duration;

fn assert_bare(request: &Request, method: Method, path_and_query: &str) {
    assert_eq!(request.method, method);
    assert_eq!(request.path_and_query, path_and_query);
    assert_eq!(request.headers.len(), 0);
    assert_eq!(request.body, None);
}

#[test]
fn create_entry_without_value_has_no_body_and_no_header() {
    let request = Request::from(&entries::create("test_cache", "test_entry"));

    assert_bare(&request, Method::Post, "/rest/v2/caches/test_cache/test_entry");
}

#[test]
fn create_entry_with_value_sends_it_as_it_is() {
    let request =
        Request::from(&entries::create("test_cache", "test_entry").with_value("some_value".into()));

    assert_eq!(request.method, Method::Post);
    assert_eq!(request.path_and_query, "/rest/v2/caches/test_cache/test_entry");
    assert_eq!(request.headers.len(), 0);
    assert_eq!(request.body.as_deref(), Some("some_value"));
}

#[test]
fn create_entry_with_ttl_of_five_seconds() {
    let request =
        Request::from(&entries::create("test_cache", "test_entry").with_ttl(Duration::from_secs(5)));

    assert_eq!(request.headers.len(), 1);
    assert_eq!(request.headers.name_at(0), "timeToLiveSeconds");
    assert_eq!(request.headers.value_at(0), "5");
    assert_eq!(request.headers.get("timeToLiveSeconds").map(|v| v.as_str()), Some("5"));
    assert_eq!(request.body, None);
}

#[test]
fn create_entry_ttl_is_rounded_down_to_whole_seconds() {
    let below_one = Request::from(&entries::create("c", "e").with_ttl(Duration::from_millis(999)));
    let above_one = Request::from(&entries::create("c", "e").with_ttl(Duration::from_millis(1999)));
    let exact = Request::from(&entries::create("c", "e").with_ttl(Duration::from_millis(120_000)));
    let longest = Request::from(&entries::create("c", "e").with_ttl(Duration::MAX));

    assert_eq!(below_one.headers.get("timeToLiveSeconds").map(|v| v.as_str()), Some("0"));
    assert_eq!(above_one.headers.get("timeToLiveSeconds").map(|v| v.as_str()), Some("1"));
    assert_eq!(exact.headers.get("timeToLiveSeconds").map(|v| v.as_str()), Some("120"));
    assert_eq!(
        longest.headers.get("timeToLiveSeconds").map(|v| v.as_str()),
        Some("18446744073709551615")
    );
}

#[test]
fn create_entry_with_value_and_ttl() {
    let request = Request::from(
        &CreateEntryReq::new("test_cache", "test_entry")
            .with_value("a_value".into())
            .with_ttl(Duration::from_secs(5)),
    );

    assert_eq!(request.body.as_deref(), Some("a_value"));
    assert_eq!(request.headers.len(), 1);
    assert_eq!(request.headers.get("timeToLiveSeconds").map(|v| v.as_str()), Some("5"));
}

#[test]
fn create_entry_keeps_the_last_value_and_ttl() {
    let request = Request::from(
        &entries::create("c", "e")
            .with_value("first".into())
            .with_ttl(Duration::from_secs(1))
            .with_value("second".into())
            .with_ttl(Duration::from_secs(2)),
    );

    assert_eq!(request.body.as_deref(), Some("second"));
    assert_eq!(request.headers.len(), 1);
    assert_eq!(request.headers.value_at(0), "2");
}

#[test]
fn create_entry_becomes_a_wire_request_with_the_ttl_header_last() {
    let http_req = entries::create("c", "e")
        .with_value("v".into())
        .with_ttl(Duration::from_secs(5))
        .to_http_req("http://localhost:11222", "Basic dTpw");

    assert_eq!(http_req.method, Method::Post);
    assert_eq!(http_req.uri, "http://localhost:11222/rest/v2/caches/c/e");
    assert_eq!(
        http_req.headers,
        vec![
            ("Content-Type".to_string(), "application/json".to_string()),
            ("Authorization".to_string(), "Basic dTpw".to_string()),
            ("timeToLiveSeconds".to_string(), "5".to_string()),
        ]
    );
    assert_eq!(http_req.body, "v");
}

#[test]
fn entries_get() {
    assert_bare(
        &entries::get("test_cache", "test_entry"),
        Method::Get,
        "/rest/v2/caches/test_cache/test_entry",
    );
}

#[test]
fn entries_check_exists() {
    assert_bare(
        &entries::check_exists("test_cache", "existing"),
        Method::Head,
        "/rest/v2/caches/test_cache/existing",
    );
}

#[test]
fn update_puts_the_plain_value() {
    let request = entries::update("test_cache", "test_entry", "new_value");

    assert_eq!(request.method, Method::Put);
    assert_eq!(request.path_and_query, "/rest/v2/caches/test_cache/test_entry");
    assert_eq!(request.headers.len(), 0);
    assert_eq!(request.body.as_deref(), Some("new_value"));
}

#[test]
fn update_does_not_wrap_the_value_in_json() {
    let request = entries::update("c", "e", "say \"hi\"");

    assert_eq!(request.body.as_deref(), Some("say \"hi\""));
}

#[test]
fn entries_delete() {
    assert_bare(
        &entries::delete("test_cache", "test_entry"),
        Method::Delete,
        "/rest/v2/caches/test_cache/test_entry",
    );
}

#[test]
fn cache_and_entry_names_are_encoded_each_on_its_own() {
    assert_eq!(entries::entry_url("my cache", "a/b"), "/rest/v2/caches/my%20cache/a%2Fb");
    assert_eq!(entries::entry_url("a/b", "c d"), "/rest/v2/caches/a%2Fb/c%20d");
    assert_eq!(entries::get("k1", "é").path_and_query, "/rest/v2/caches/k1/%C3%A9");
    assert_eq!(
        Request::from(&entries::create("x+y", "1:2")).path_and_query,
        "/rest/v2/caches/x%2By/1%3A2"
    );
}
