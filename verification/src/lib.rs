//! A typed client for the REST interface of an Infinispan cache server.
//!
//! The [`request`] module builds transport-agnostic [`request::Request`]
//! values for caches, entries and counters. An [`Infinispan`] client binds
//! such a request to a server and to credentials, and hands out the
//! wire-level [`request::HttpRequest`] that a transport sends.
//!
//! ```
//! use infinispan::request::{caches, entries};
//! use infinispan::Infinispan;
//!
//! let client = Infinispan::new("http://localhost:11222", "username", "password");
//!
//! let create = client.http_request(&caches::create_local("some_cache"));
//! assert_eq!(create.uri, "http://localhost:11222/rest/v2/caches/some_cache");
//!
//! let put = entries::create("some_cache", "some_entry").with_value("a_value".into());
//! assert_eq!(client.http_request(&put).body, "a_value");
//! ```

pub mod encoding;
pub mod json;
pub mod request;
pub mod text;

use crate::encoding::{base64_encode, base64_text};
use crate::request::{http_request, HttpRequest, RequestView, ToHttpRequest};
use vstd::prelude::*;
use vstd::string::*;

verus! {

/// The text that stands for a user and a password: the two, with a colon
/// between them.
pub open spec fn credentials(username: Seq<char>, password: Seq<char>) -> Seq<char> {
    username + ":"@ + password
}

/// The value of the `Authorization` header for credentials in base64.
pub open spec fn basic_auth_of(encoded: Seq<char>) -> Seq<char> {
    "Basic "@ + encoded
}

/// The value of the `Authorization` header for a user and a password.
pub open spec fn basic_auth(username: Seq<char>, password: Seq<char>) -> Seq<char> {
    basic_auth_of(base64_text(credentials(username, password)))
}

/// Joins a user and a password into the text that is then encoded.
pub fn join_credentials(username: &str, password: &str) -> (joined: String)
    ensures
        joined@ == credentials(username@, password@),
{
    let mut joined = String::from_str(username);
    joined.append(":");
    joined.append(password);
    joined
}

/// Makes the value of the `Authorization` header of credentials that are
/// already in base64.
pub fn basic_auth_value(encoded: &str) -> (value: String)
    ensures
        value@ == basic_auth_of(encoded@),
{
    let mut value = String::from_str("Basic ");
    value.append(encoded);
    value
}

/// A client of one server: where the server is, and the credentials, encoded
/// once when the client is made.
#[derive(Debug, Clone)]
pub struct Infinispan {
    base_url: String,
    basic_auth_encoded_val: String,
}

/// An [`Infinispan`] as contracts see it.
pub struct InfinispanView {
    pub base_url: Seq<char>,
    pub basic_auth: Seq<char>,
}

impl View for Infinispan {
    type V = InfinispanView;

    closed spec fn view(&self) -> InfinispanView {
        InfinispanView { base_url: self.base_url@, basic_auth: self.basic_auth_encoded_val@ }
    }
}

impl Infinispan {
    pub fn new(base_url: &str, username: &str, password: &str) -> (client: Self)
        ensures
            client@ == (InfinispanView {
                base_url: base_url@,
                basic_auth: basic_auth(username@, password@),
            }),
    {
        Self {
            base_url: String::from_str(base_url),
            basic_auth_encoded_val: Self::basic_auth_encoded_value(username, password),
        }
    }

    pub fn basic_auth_encoded_value(username: &str, password: &str) -> (value: String)
        ensures
            value@ == basic_auth(username@, password@),
    {
        let joined = join_credentials(username, password);
        let encoded = base64_encode(joined.as_str());
        basic_auth_value(encoded.as_str())
    }

    /// Where the server is.
    pub fn base_url(&self) -> (base_url: &str)
        ensures
            base_url@ == self@.base_url,
    {
        self.base_url.as_str()
    }

    /// The value of the `Authorization` header of every request.
    pub fn basic_auth_encoded_val(&self) -> (value: &str)
        ensures
            value@ == self@.basic_auth,
    {
        self.basic_auth_encoded_val.as_str()
    }

    /// The wire-level request that carries `request` to this client's server.
    pub fn http_request<R: ToHttpRequest>(&self, request: &R) -> (http_req: HttpRequest)
        ensures
            http_req@ == http_request(request.request(), self@.base_url, self@.basic_auth),
    {
        request.to_http_req(self.base_url.as_str(), self.basic_auth_encoded_val.as_str())
    }
}

/// Whatever the request, its wire-level form starts with the content type and
/// the `Authorization` header, whose value is the one that the client was
/// made with: `Basic`, a space, and the base64 of user, colon and password.
pub proof fn lemma_authorization_header(
    request: RequestView,
    base_url: Seq<char>,
    username: Seq<char>,
    password: Seq<char>,
)
    ensures
        ({
            let sent = http_request(request, base_url, basic_auth(username, password));
            &&& sent.headers.len() == 2 + request.headers.len()
            &&& sent.headers[0] == ("Content-Type"@, "application/json"@)
            &&& sent.headers[1] == (
                "Authorization"@,
                "Basic "@ + base64_text(username + ":"@ + password),
            )
            &&& sent.uri == base_url + request.path_and_query
        }),
{
}

} // verus!
