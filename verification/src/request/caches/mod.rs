//! Requests on caches: creation with one of the four topologies, and the
//! actions on a cache that exists.

pub mod modes;

use crate::encoding::{url_encode, url_encoded};
use crate::json::{json_doc, json_render, json_tagged, json_text, tagged, JsonDoc};
use crate::request::caches::modes::{
    Distributed, DistributedView, Invalidation, InvalidationView, Local, Replicated, ReplicatedView,
};
use crate::request::{HeaderSeq, Headers, Method, Request, RequestView};
use crate::text::{ascii_lowercase, is_ascii_uppercase, lemma_ascii_lowercase_has_no_uppercase};
use vstd::prelude::*;
use vstd::string::*;

verus! {

/// Where the caches are, on the server.
pub const CACHES_ENDPOINT: &'static str = "/rest/v2/caches";

/// The configuration that a cache is created with.
#[derive(Eq, PartialEq, Debug)]
pub enum Cache {
    Local(Local),
    Replicated(Replicated),
    Distributed(Distributed),
    Invalidation(Invalidation),
}

/// A [`Cache`] as contracts see it.
pub enum CacheView {
    Local(Local),
    Replicated(ReplicatedView),
    Distributed(DistributedView),
    Invalidation(InvalidationView),
}

impl CacheView {
    /// The key under which the configuration stands in its document.
    pub open spec fn tag(self) -> Seq<char> {
        match self {
            CacheView::Local(_) => "local-cache"@,
            CacheView::Replicated(_) => "replicated-cache"@,
            CacheView::Distributed(_) => "distributed-cache"@,
            CacheView::Invalidation(_) => "invalidation-cache"@,
        }
    }

    /// The configuration's own members.
    pub open spec fn content(self) -> JsonDoc {
        match self {
            CacheView::Local(cache) => cache.doc(),
            CacheView::Replicated(cache) => cache.doc(),
            CacheView::Distributed(cache) => cache.doc(),
            CacheView::Invalidation(cache) => cache.doc(),
        }
    }

    /// The document that creates the cache: the configuration under its tag.
    pub open spec fn doc(self) -> JsonDoc {
        tagged(self.tag(), self.content())
    }
}

impl View for Cache {
    type V = CacheView;

    open spec fn view(&self) -> CacheView {
        match self {
            Cache::Local(cache) => CacheView::Local(*cache),
            Cache::Replicated(cache) => CacheView::Replicated(cache@),
            Cache::Distributed(cache) => CacheView::Distributed(cache@),
            Cache::Invalidation(cache) => CacheView::Invalidation(cache@),
        }
    }
}

impl Cache {
    pub(crate) fn to_json(&self) -> (json: serde_json::Value)
        ensures
            json_doc(json) == self@.doc(),
    {
        match self {
            Cache::Local(cache) => json_tagged("local-cache", cache.to_json()),
            Cache::Replicated(cache) => json_tagged("replicated-cache", cache.to_json()),
            Cache::Distributed(cache) => json_tagged("distributed-cache", cache.to_json()),
            Cache::Invalidation(cache) => json_tagged("invalidation-cache", cache.to_json()),
        }
    }
}

/// What can be asked of a cache beyond reading and deleting it.
#[derive(Debug, Clone, Copy, PartialEq, Eq, Structural)]
pub enum Action {
    Clear,
    Config,
    Keys,
    Size,
    Stats,
}

impl Action {
    /// The action's own name.
    pub open spec fn symbol(self) -> Seq<char> {
        match self {
            Action::Clear => "Clear"@,
            Action::Config => "Config"@,
            Action::Keys => "Keys"@,
            Action::Size => "Size"@,
            Action::Stats => "Stats"@,
        }
    }

    /// The query string that asks for the action: its name in lower case.
    pub open spec fn query_args(self) -> Seq<char> {
        "action="@ + ascii_lowercase(self.symbol())
    }

    pub fn to_query_args(&self) -> (query_args: String)
        ensures
            query_args@ == self.query_args(),
    {
        proof {
            reveal_strlit("action=");
        }
        let query_args = match self {
            Action::Clear => {
                proof {
                    reveal_strlit("Clear");
                    reveal_strlit("action=clear");
                }
                "action=clear"
            },
            Action::Config => {
                proof {
                    reveal_strlit("Config");
                    reveal_strlit("action=config");
                }
                "action=config"
            },
            Action::Keys => {
                proof {
                    reveal_strlit("Keys");
                    reveal_strlit("action=keys");
                }
                "action=keys"
            },
            Action::Size => {
                proof {
                    reveal_strlit("Size");
                    reveal_strlit("action=size");
                }
                "action=size"
            },
            Action::Stats => {
                proof {
                    reveal_strlit("Stats");
                    reveal_strlit("action=stats");
                }
                "action=stats"
            },
        };
        String::from_str(query_args)
    }
}

/// The query string of a cache action holds no upper-case ASCII letter,
/// whatever the casing of the action's name.
pub proof fn lemma_query_args_lowercase(action: Action)
    ensures
        forall|i: int|
            0 <= i < action.query_args().len() ==> !is_ascii_uppercase(
                #[trigger] action.query_args()[i],
            ),
{
    reveal_strlit("action=");
    lemma_ascii_lowercase_has_no_uppercase(action.symbol());
    let prefix = "action="@;
    let rest = ascii_lowercase(action.symbol());
    assert forall|i: int| 0 <= i < action.query_args().len() implies !is_ascii_uppercase(
        #[trigger] action.query_args()[i],
    ) by {
        if i >= prefix.len() {
            assert(action.query_args()[i] == rest[i - prefix.len()]);
        }
    }
}

/// The path of the cache `name`: the name is percent-encoded once.
pub open spec fn cache_path(name: Seq<char>) -> Seq<char> {
    CACHES_ENDPOINT@ + "/"@ + url_encoded(name)
}

/// The path and query that ask for `action` on the cache `name`.
pub open spec fn cache_path_with_action(name: Seq<char>, action: Action) -> Seq<char> {
    cache_path(name) + "?"@ + action.query_args()
}

/// The request that applies `method` to `path_and_query`, with no header and
/// no body of its own.
pub open spec fn bare_request(method: Method, path_and_query: Seq<char>) -> RequestView {
    RequestView { method, path_and_query, headers: HeaderSeq::empty(), body: None }
}

/// The request that creates the cache `name` with the configuration `cache`.
pub open spec fn creation(name: Seq<char>, cache: CacheView) -> RequestView {
    RequestView {
        method: Method::Post,
        path_and_query: cache_path(name),
        headers: HeaderSeq::empty(),
        body: Some(json_text(cache.doc())),
    }
}

pub fn create_local(name: &str) -> (request: Request)
    ensures
        request@ == creation(name@, CacheView::Local(Local::standard())),
{
    create_cache(name, Cache::Local(Local::default()))
}

pub fn create_replicated_async(name: &str) -> (request: Request)
    ensures
        request@ == creation(
            name@,
            CacheView::Replicated(ReplicatedView::standard(modes::mode_async(), None)),
        ),
{
    create_cache(name, Cache::Replicated(Replicated::create_async()))
}

pub fn create_replicated_sync(name: &str) -> (request: Request)
    ensures
        request@ == creation(
            name@,
            CacheView::Replicated(
                ReplicatedView::standard(
                    modes::mode_sync(),
                    Some(modes::DEFAULT_REMOTE_TIMEOUT),
                ),
            ),
        ),
{
    create_cache(name, Cache::Replicated(Replicated::create_sync()))
}

pub fn create_distributed_async(name: &str) -> (request: Request)
    ensures
        request@ == creation(
            name@,
            CacheView::Distributed(DistributedView::standard(modes::mode_async())),
        ),
{
    create_cache(name, Cache::Distributed(Distributed::create_async()))
}

pub fn create_distributed_sync(name: &str) -> (request: Request)
    ensures
        request@ == creation(
            name@,
            CacheView::Distributed(DistributedView::standard(modes::mode_sync())),
        ),
{
    create_cache(name, Cache::Distributed(Distributed::create_sync()))
}

pub fn create_invalidation_async(name: &str) -> (request: Request)
    ensures
        request@ == creation(
            name@,
            CacheView::Invalidation(InvalidationView::standard(modes::mode_async(), None)),
        ),
{
    create_cache(name, Cache::Invalidation(Invalidation::create_async()))
}

pub fn create_invalidation_sync(name: &str) -> (request: Request)
    ensures
        request@ == creation(
            name@,
            CacheView::Invalidation(
                InvalidationView::standard(
                    modes::mode_sync(),
                    Some(modes::DEFAULT_REMOTE_TIMEOUT),
                ),
            ),
        ),
{
    create_cache(name, Cache::Invalidation(Invalidation::create_sync()))
}

pub fn check_exists(name: &str) -> (request: Request)
    ensures
        request@ == bare_request(Method::Head, cache_path(name@)),
{
    Request::new(Method::Head, cache_url(name), Headers::new(), None)
}

pub fn get(name: &str) -> (request: Request)
    ensures
        request@ == bare_request(Method::Get, cache_path(name@)),
{
    Request::new(Method::Get, cache_url(name), Headers::new(), None)
}

pub fn get_config(name: &str) -> (request: Request)
    ensures
        request@ == bare_request(Method::Get, cache_path_with_action(name@, Action::Config)),
{
    Request::new(
        Method::Get,
        cache_url_with_action(name, &Action::Config),
        Headers::new(),
        None,
    )
}

pub fn delete(name: &str) -> (request: Request)
    ensures
        request@ == bare_request(Method::Delete, cache_path(name@)),
{
    Request::new(Method::Delete, cache_url(name), Headers::new(), None)
}

pub fn keys(name: &str) -> (request: Request)
    ensures
        request@ == bare_request(Method::Get, cache_path_with_action(name@, Action::Keys)),
{
    Request::new(Method::Get, cache_url_with_action(name, &Action::Keys), Headers::new(), None)
}

pub fn clear(name: &str) -> (request: Request)
    ensures
        request@ == bare_request(Method::Post, cache_path_with_action(name@, Action::Clear)),
{
    Request::new(Method::Post, cache_url_with_action(name, &Action::Clear), Headers::new(), None)
}

pub fn size(name: &str) -> (request: Request)
    ensures
        request@ == bare_request(Method::Get, cache_path_with_action(name@, Action::Size)),
{
    Request::new(Method::Get, cache_url_with_action(name, &Action::Size), Headers::new(), None)
}

pub fn stats(name: &str) -> (request: Request)
    ensures
        request@ == bare_request(Method::Get, cache_path_with_action(name@, Action::Stats)),
{
    Request::new(Method::Get, cache_url_with_action(name, &Action::Stats), Headers::new(), None)
}

pub fn list() -> (request: Request)
    ensures
        request@ == bare_request(Method::Get, CACHES_ENDPOINT@),
{
    Request::new(Method::Get, String::from_str(CACHES_ENDPOINT), Headers::new(), None)
}

pub fn cache_url(name: &str) -> (url: String)
    ensures
        url@ == cache_path(name@),
{
    let mut url = String::from_str(CACHES_ENDPOINT);
    url.append("/");
    url.append(url_encode(name).as_str());
    url
}

pub fn cache_url_with_action(name: &str, action: &Action) -> (url: String)
    ensures
        url@ == cache_path_with_action(name@, *action),
{
    let mut url = cache_url(name);
    url.append("?");
    url.append(action.to_query_args().as_str());
    url
}

pub fn create_cache(name: &str, cache: Cache) -> (request: Request)
    ensures
        request@ == creation(name@, cache@),
{
    let body = json_render(&cache.to_json());
    Request::new(Method::Post, cache_url(name), Headers::new(), Some(body))
}

/// Every path on a cache starts with the caches endpoint and a slash, and the
/// encoded name follows.
pub proof fn lemma_cache_paths_start_at_endpoint(name: Seq<char>, action: Action)
    ensures
        (CACHES_ENDPOINT@ + "/"@).is_prefix_of(cache_path(name)),
        cache_path(name).is_prefix_of(cache_path_with_action(name, action)),
        cache_path(name).skip((CACHES_ENDPOINT@ + "/"@).len() as int) == url_encoded(name),
{
    assert(cache_path_with_action(name, action).subrange(0, cache_path(name).len() as int)
        =~= cache_path(name));
}

} // verus!
