//! Requests on the entries of a cache.

use crate::encoding::{url_encode, url_encoded};
use crate::request::caches::{bare_request, cache_path, CACHES_ENDPOINT};
use crate::request::{
    HeaderSeq, Headers, HttpRequest, Method, Request, RequestView, ToHttpRequest,
};
use crate::text::{digits, unsigned_decimal_string};
use std::time::Duration;
use vstd::prelude::*;
use vstd::std_specs::convert::FromSpecImpl;
use vstd::string::*;

verus! {

/// The header that carries an entry's time to live.
pub const TTL_HEADER: &'static str = "timeToLiveSeconds";

/// The number of whole seconds that a duration contains.
pub uninterp spec fn whole_seconds(duration: Duration) -> u64;

/// `Duration::as_secs` returns the number of whole seconds that the duration
/// contains. Trusted: the result is only given its name.
pub assume_specification[ Duration::as_secs ](duration: &Duration) -> (seconds: u64)
    ensures
        seconds == whole_seconds(*duration),
;

/// The creation of an entry, before it is turned into a request.
#[derive(Debug)]
pub struct CreateEntryReq {
    cache_name: String,
    entry_name: String,
    value: Option<String>,
    ttl: Option<Duration>,
}

/// A [`CreateEntryReq`] as contracts see it.
pub struct CreateEntryReqView {
    pub cache_name: Seq<char>,
    pub entry_name: Seq<char>,
    pub value: Option<Seq<char>>,
    pub ttl: Option<Duration>,
}

impl View for CreateEntryReq {
    type V = CreateEntryReqView;

    closed spec fn view(&self) -> CreateEntryReqView {
        CreateEntryReqView {
            cache_name: self.cache_name@,
            entry_name: self.entry_name@,
            value: match self.value {
                Some(value) => Some(value@),
                None => None,
            },
            ttl: self.ttl,
        }
    }
}

impl CreateEntryReqView {
    /// The headers of the request: the time to live in whole seconds, where
    /// one is set.
    pub open spec fn headers(self) -> HeaderSeq {
        match self.ttl {
            Some(ttl) => seq![(TTL_HEADER@, digits(whole_seconds(ttl) as nat))],
            None => HeaderSeq::empty(),
        }
    }

    /// The request that creates the entry: its value, as it is, is the body.
    pub open spec fn request(self) -> RequestView {
        RequestView {
            method: Method::Post,
            path_and_query: entry_path(self.cache_name, self.entry_name),
            headers: self.headers(),
            body: self.value,
        }
    }
}

impl CreateEntryReq {
    pub fn new(cache_name: &str, entry_name: &str) -> (request: Self)
        ensures
            request@ == (CreateEntryReqView {
                cache_name: cache_name@,
                entry_name: entry_name@,
                value: None,
                ttl: None,
            }),
    {
        Self {
            cache_name: String::from_str(cache_name),
            entry_name: String::from_str(entry_name),
            value: None,
            ttl: None,
        }
    }

    pub fn with_value(self, value: String) -> (request: Self)
        ensures
            request@ == (CreateEntryReqView { value: Some(value@), ..self@ }),
    {
        let mut request = self;
        request.value = Some(value);
        request
    }

    pub fn with_ttl(self, ttl: Duration) -> (request: Self)
        ensures
            request@ == (CreateEntryReqView { ttl: Some(ttl), ..self@ }),
    {
        let mut request = self;
        request.ttl = Some(ttl);
        request
    }
}

impl From<&CreateEntryReq> for Request {
    fn from(request: &CreateEntryReq) -> (converted: Request)
        ensures
            converted@ == request@.request(),
    {
        let mut headers = Headers::new();
        if let Some(ttl) = &request.ttl {
            headers.insert(String::from_str(TTL_HEADER), unsigned_decimal_string(ttl.as_secs()));
        }
        let body = match &request.value {
            Some(value) => Some(value.clone()),
            None => None,
        };
        Request::new(
            Method::Post,
            entry_url(request.cache_name.as_str(), request.entry_name.as_str()),
            headers,
            body,
        )
    }
}

impl FromSpecImpl<&CreateEntryReq> for Request {
    open spec fn obeys_from_spec() -> bool {
        false
    }

    open spec fn from_spec(request: &CreateEntryReq) -> Request {
        arbitrary()
    }
}

impl ToHttpRequest for CreateEntryReq {
    open spec fn request(&self) -> RequestView {
        self@.request()
    }

    fn to_http_req(&self, base_url: &str, basic_auth_encoded: &str) -> (http_req: HttpRequest) {
        Request::from(self).to_http_req(base_url, basic_auth_encoded)
    }
}

pub fn create(cache_name: &str, entry_name: &str) -> (request: CreateEntryReq)
    ensures
        request@ == (CreateEntryReqView {
            cache_name: cache_name@,
            entry_name: entry_name@,
            value: None,
            ttl: None,
        }),
{
    CreateEntryReq::new(cache_name, entry_name)
}

pub fn get(cache_name: &str, entry_name: &str) -> (request: Request)
    ensures
        request@ == bare_request(Method::Get, entry_path(cache_name@, entry_name@)),
{
    Request::new(Method::Get, entry_url(cache_name, entry_name), Headers::new(), None)
}

pub fn check_exists(cache_name: &str, entry_name: &str) -> (request: Request)
    ensures
        request@ == bare_request(Method::Head, entry_path(cache_name@, entry_name@)),
{
    Request::new(Method::Head, entry_url(cache_name, entry_name), Headers::new(), None)
}

pub fn update(cache_name: &str, entry_name: &str, value: &str) -> (request: Request)
    ensures
        request@ == (RequestView {
            method: Method::Put,
            path_and_query: entry_path(cache_name@, entry_name@),
            headers: HeaderSeq::empty(),
            body: Some(value@),
        }),
{
    Request::new(
        Method::Put,
        entry_url(cache_name, entry_name),
        Headers::new(),
        Some(String::from_str(value)),
    )
}

pub fn delete(cache_name: &str, entry_name: &str) -> (request: Request)
    ensures
        request@ == bare_request(Method::Delete, entry_path(cache_name@, entry_name@)),
{
    Request::new(Method::Delete, entry_url(cache_name, entry_name), Headers::new(), None)
}

/// The path of the entry `entry_name` of the cache `cache_name`: each name is
/// percent-encoded on its own.
pub open spec fn entry_path(cache_name: Seq<char>, entry_name: Seq<char>) -> Seq<char> {
    CACHES_ENDPOINT@ + "/"@ + url_encoded(cache_name) + "/"@ + url_encoded(entry_name)
}

pub fn entry_url(cache_name: &str, entry_name: &str) -> (url: String)
    ensures
        url@ == entry_path(cache_name@, entry_name@),
{
    let mut url = String::from_str(CACHES_ENDPOINT);
    url.append("/");
    url.append(url_encode(cache_name).as_str());
    url.append("/");
    url.append(url_encode(entry_name).as_str());
    url
}

/// The path of an entry is the path of its cache, a slash, and the encoded
/// name of the entry.
pub proof fn lemma_entry_path_extends_cache_path(cache_name: Seq<char>, entry_name: Seq<char>)
    ensures
        entry_path(cache_name, entry_name) == cache_path(cache_name) + "/"@ + url_encoded(
            entry_name,
        ),
        cache_path(cache_name).is_prefix_of(entry_path(cache_name, entry_name)),
{
    assert(entry_path(cache_name, entry_name).subrange(0, cache_path(cache_name).len() as int)
        =~= cache_path(cache_name));
}

} // verus!
