use infinispan::request::{caches, entries, Headers, HttpRequest, Method, Request, ToHttpRequest};
use infinispan::{basic_auth_value, join_credentials, Infinispan};

fn header(name: &str, value: &str) -> (String, String) {
    (name.to_string(), value.to_string())
}

#[test]
fn authorization_is_basic_and_the_base64_of_user_colon_password() {
    let client = Infinispan::new("http://localhost:11222", "u", "p");

    assert_eq!(client.base_url(), "http://localhost:11222");
    assert_eq!(client.basic_auth_encoded_val(), "Basic dTpw");
    assert_eq!(client.basic_auth_encoded_val(), format!("Basic {}", base64::encode("u:p")));
}

#[test]
fn authorization_of_longer_credentials() {
    assert_eq!(
        Infinispan::basic_auth_encoded_value("username", "password"),
        "Basic dXNlcm5hbWU6cGFzc3dvcmQ="
    );
    assert_eq!(Infinispan::basic_auth_encoded_value("", ""), "Basic Og==");
    assert_eq!(Infinispan::basic_auth_encoded_value("a:b", "c"), "Basic YTpiOmM=");
    assert_eq!(Infinispan::basic_auth_encoded_value("ü", "ß"), "Basic w7w6w58=");
}

#[test]
fn credentials_are_joined_by_a_colon() {
    assert_eq!(join_credentials("u", "p"), "u:p");
    assert_eq!(join_credentials("", ""), ":");
    assert_eq!(basic_auth_value("dTpw"), "Basic dTpw");
    assert_eq!(basic_auth_value(""), "Basic ");
}

#[test]
fn authorization_is_the_same_on_every_request() {
    let client = Infinispan::new("http://localhost:11222", "u", "p");

    let first = client.http_request(&caches::get("a"));
    let second = client.http_request(&caches::get("a"));
    let third = client.http_request(&entries::delete("a", "b"));

    assert_eq!(first.headers[1], header("Authorization", "Basic dTpw"));
    assert_eq!(second.headers[1], header("Authorization", "Basic dTpw"));
    assert_eq!(third.headers[1], header("Authorization", "Basic dTpw"));
    assert_eq!(first.headers, second.headers);
    assert_eq!(first.uri, second.uri);
    assert_eq!(client.basic_auth_encoded_val(), "Basic dTpw");
}

#[test]
fn two_clients_keep_their_own_credentials() {
    let one = Infinispan::new("http://one", "u", "p");
    let other = Infinispan::new("http://other", "username", "password");

    let from_one = one.http_request(&caches::list());
    let from_other = other.http_request(&caches::list());

    assert_eq!(from_one.uri, "http://one/rest/v2/caches");
    assert_eq!(from_other.uri, "http://other/rest/v2/caches");
    assert_eq!(from_one.headers[1].1, "Basic dTpw");
    assert_eq!(from_other.headers[1].1, "Basic dXNlcm5hbWU6cGFzc3dvcmQ=");
}

#[test]
fn wire_request_of_a_request_without_body() {
    let http_req: HttpRequest =
        caches::get_config("test_cache").to_http_req("http://localhost:11222", "Basic dTpw");

    assert_eq!(http_req.method, Method::Get);
    assert_eq!(http_req.uri, "http://localhost:11222/rest/v2/caches/test_cache?action=config");
    assert_eq!(
        http_req.headers,
        vec![header("Content-Type", "application/json"), header("Authorization", "Basic dTpw")]
    );
    assert_eq!(http_req.body, "");
}

#[test]
fn wire_request_of_a_request_with_body_and_headers() {
    let mut headers = Headers::new();
    headers.insert("X-One".to_string(), "1".to_string());
    headers.insert("X-Two".to_string(), "2".to_string());
    let request = Request::new(Method::Put, "/p?q".to_string(), headers, Some("body".to_string()));

    let http_req = request.to_http_req("base", "auth");

    assert_eq!(http_req.method, Method::Put);
    assert_eq!(http_req.uri, "base/p?q");
    assert_eq!(
        http_req.headers,
        vec![
            header("Content-Type", "application/json"),
            header("Authorization", "auth"),
            header("X-One", "1"),
            header("X-Two", "2"),
        ]
    );
    assert_eq!(http_req.body, "body");
}

#[test]
fn wire_request_does_not_normalize_the_uri() {
    let request = Request::new(Method::Get, "//x".to_string(), Headers::new(), None);

    assert_eq!(request.to_http_req("http://h/", "a").uri, "http://h///x");
    assert_eq!(request.to_http_req("", "a").uri, "//x");
}

#[test]
fn wire_request_keeps_a_mandatory_header_that_the_request_sets_again() {
    let mut headers = Headers::new();
    headers.insert("Content-Type".to_string(), "text/plain".to_string());
    let request = Request::new(Method::Post, "/p".to_string(), headers, None);

    let http_req = request.to_http_req("b", "a");

    assert_eq!(
        http_req.headers,
        vec![
            header("Content-Type", "application/json"),
            header("Authorization", "a"),
            header("Content-Type", "text/plain"),
        ]
    );
}

#[test]
fn request_new_keeps_its_parts() {
    let mut headers = Headers::new();
    headers.insert("n".to_string(), "v".to_string());

    let request = Request::new(Method::Head, "/p".to_string(), headers, Some("b".to_string()));

    assert_eq!(request.method, Method::Head);
    assert_eq!(request.path_and_query, "/p");
    assert_eq!(request.headers.len(), 1);
    assert_eq!(request.headers.get("n").map(|v| v.as_str()), Some("v"));
    assert_eq!(request.body.as_deref(), Some("b"));
}

#[test]
fn method_names() {
    assert_eq!(Method::Get.as_str(), "GET");
    assert_eq!(Method::Head.as_str(), "HEAD");
    assert_eq!(Method::Post.as_str(), "POST");
    assert_eq!(Method::Put.as_str(), "PUT");
    assert_eq!(Method::Delete.as_str(), "DELETE");
}

#[test]
fn headers_insert_replaces_a_name_where_it_stands() {
    let mut headers = Headers::new();
    assert_eq!(headers.len(), 0);
    assert_eq!(headers.get("a"), None);

    headers.insert("a".to_string(), "1".to_string());
    headers.insert("b".to_string(), "2".to_string());
    headers.insert("a".to_string(), "3".to_string());

    assert_eq!(headers.len(), 2);
    assert_eq!(headers.name_at(0), "a");
    assert_eq!(headers.value_at(0), "3");
    assert_eq!(headers.name_at(1), "b");
    assert_eq!(headers.value_at(1), "2");
    assert_eq!(headers.get("a").map(|v| v.as_str()), Some("3"));
    assert_eq!(headers.get("b").map(|v| v.as_str()), Some("2"));
    assert_eq!(headers.get("A"), None);
    assert_eq!(headers.get(""), None);
}
