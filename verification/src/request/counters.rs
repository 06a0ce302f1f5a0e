//! Requests on counters: creation, reading, and the arithmetic actions.

use crate::encoding::{url_encode, url_encoded};
use crate::json::{
    json_doc, json_integer, json_object, json_render, json_set, json_tagged, json_text, tagged,
    JsonDoc,
};
use crate::request::caches::bare_request;
use crate::request::{
    HeaderSeq, Headers, HttpRequest, Method, Request, RequestView, ToHttpRequest,
};
use crate::text::{append_decimal, decimal};
use vstd::prelude::*;
use vstd::std_specs::convert::FromSpecImpl;
use vstd::string::*;

verus! {

/// Where the counters are, on the server.
pub const COUNTERS_ENDPOINT: &'static str = "/rest/v2/counters";

/// The value of a counter.
pub type CounterVal = i64;

/// The document of a counter's settings: the initial value is a member only
/// where it is set.
pub open spec fn settings_doc(initial_value: Option<CounterVal>) -> JsonDoc {
    match initial_value {
        Some(value) => JsonDoc::Object(
            Map::empty().insert("initial-value"@, JsonDoc::Integer(value as int)),
        ),
        None => JsonDoc::Object(Map::empty()),
    }
}

fn settings_json(initial_value: Option<CounterVal>) -> (json: serde_json::Value)
    ensures
        json_doc(json) == settings_doc(initial_value),
{
    let mut json = json_object();
    if let Some(value) = initial_value {
        json_set(&mut json, "initial-value", json_integer(value));
    }
    json
}

/// The settings' document has the member `initial-value` exactly where an
/// initial value is set, and the member is then that number.
pub proof fn lemma_initial_value_member(initial_value: Option<CounterVal>)
    ensures
        settings_doc(initial_value).has_member("initial-value"@) <==> initial_value is Some,
        initial_value matches Some(value) ==> settings_doc(initial_value).member(
            "initial-value"@,
        ) == JsonDoc::Integer(value as int),
{
}

/// A counter that may settle on its value late.
#[derive(Debug)]
pub struct WeakCounter {
    pub initial_value: Option<CounterVal>,
}

impl WeakCounter {
    pub fn set_value(&mut self, counter_val: CounterVal)
        ensures
            final(self).initial_value == Some(counter_val),
    {
        self.initial_value = Some(counter_val);
    }
}

/// A counter whose every update is seen in order.
#[derive(Debug)]
pub struct StrongCounter {
    pub initial_value: Option<CounterVal>,
}

impl StrongCounter {
    pub fn set_value(&mut self, counter_val: CounterVal)
        ensures
            final(self).initial_value == Some(counter_val),
    {
        self.initial_value = Some(counter_val);
    }
}

/// The settings that a counter is created with.
#[derive(Debug)]
pub enum Counter {
    Weak(WeakCounter),
    Strong(StrongCounter),
}

impl Counter {
    /// A counter of the given type with no initial value.
    pub open spec fn unset(counter_type: CounterType) -> Counter {
        match counter_type {
            CounterType::Weak => Counter::Weak(WeakCounter { initial_value: None }),
            CounterType::Strong => Counter::Strong(StrongCounter { initial_value: None }),
        }
    }

    /// The same type of counter, starting at `value`.
    pub open spec fn starting_at(self, value: CounterVal) -> Counter {
        match self {
            Counter::Weak(_) => Counter::Weak(WeakCounter { initial_value: Some(value) }),
            Counter::Strong(_) => Counter::Strong(StrongCounter { initial_value: Some(value) }),
        }
    }

    /// The document that creates the counter: its settings under its type's tag.
    pub open spec fn doc(self) -> JsonDoc {
        match self {
            Counter::Weak(counter) => tagged("weak-counter"@, settings_doc(counter.initial_value)),
            Counter::Strong(counter) => tagged(
                "strong-counter"@,
                settings_doc(counter.initial_value),
            ),
        }
    }

    pub(crate) fn to_json(&self) -> (json: serde_json::Value)
        ensures
            json_doc(json) == self.doc(),
    {
        match self {
            Counter::Weak(counter) => json_tagged(
                "weak-counter",
                settings_json(counter.initial_value),
            ),
            Counter::Strong(counter) => json_tagged(
                "strong-counter",
                settings_json(counter.initial_value),
            ),
        }
    }
}

#[derive(Debug, Copy, Clone)]
pub enum CounterType {
    Weak,
    Strong,
}

/// What changes a counter's value.
#[derive(Debug, Clone, Copy, PartialEq, Eq, Structural)]
pub enum Action {
    Add { delta: CounterVal },
    Increment,
    Decrement,
    Reset,
    CompareAndSet { expect: CounterVal, update: CounterVal },
    CompareAndSwap { expect: CounterVal, update: CounterVal },
}

impl Action {
    /// The query string that asks for the action, with its numbers in decimal.
    pub open spec fn query_args(self) -> Seq<char> {
        match self {
            Action::Add { delta } => "action=add&delta="@ + decimal(delta as int),
            Action::Increment => "action=increment"@,
            Action::Decrement => "action=decrement"@,
            Action::Reset => "action=reset"@,
            Action::CompareAndSet { expect, update } => "action=compareAndSet&expect="@ + decimal(
                expect as int,
            ) + "&update="@ + decimal(update as int),
            Action::CompareAndSwap { expect, update } => "action=compareAndSwap&expect="@ + decimal(
                expect as int,
            ) + "&update="@ + decimal(update as int),
        }
    }

    pub fn to_query_args(&self) -> (query_args: String)
        ensures
            query_args@ == self.query_args(),
    {
        match self {
            Action::Add { delta } => {
                let mut query_args = String::from_str("action=add&delta=");
                append_decimal(&mut query_args, *delta);
                query_args
            },
            Action::Increment => String::from_str("action=increment"),
            Action::Decrement => String::from_str("action=decrement"),
            Action::Reset => String::from_str("action=reset"),
            Action::CompareAndSet { expect, update } => {
                let mut query_args = String::from_str("action=compareAndSet&expect=");
                append_decimal(&mut query_args, *expect);
                query_args.append("&update=");
                append_decimal(&mut query_args, *update);
                query_args
            },
            Action::CompareAndSwap { expect, update } => {
                let mut query_args = String::from_str("action=compareAndSwap&expect=");
                append_decimal(&mut query_args, *expect);
                query_args.append("&update=");
                append_decimal(&mut query_args, *update);
                query_args
            },
        }
    }
}

/// The creation of a counter, before it is turned into a request.
#[derive(Debug)]
pub struct CreateCounterReq {
    name: String,
    counter: Counter,
}

/// A [`CreateCounterReq`] as contracts see it.
pub struct CreateCounterReqView {
    pub name: Seq<char>,
    pub counter: Counter,
}

impl View for CreateCounterReq {
    type V = CreateCounterReqView;

    closed spec fn view(&self) -> CreateCounterReqView {
        CreateCounterReqView { name: self.name@, counter: self.counter }
    }
}

impl CreateCounterReqView {
    /// The request that creates the counter.
    pub open spec fn request(self) -> RequestView {
        RequestView {
            method: Method::Post,
            path_and_query: counter_path(self.name),
            headers: HeaderSeq::empty(),
            body: Some(json_text(self.counter.doc())),
        }
    }
}

impl CreateCounterReq {
    pub fn new(name: &str, counter_type: CounterType) -> (request: Self)
        ensures
            request@ == (CreateCounterReqView {
                name: name@,
                counter: Counter::unset(counter_type),
            }),
    {
        let counter = match counter_type {
            CounterType::Weak => Counter::Weak(WeakCounter { initial_value: None }),
            CounterType::Strong => Counter::Strong(StrongCounter { initial_value: None }),
        };
        Self { name: String::from_str(name), counter }
    }

    pub fn with_value(self, value: CounterVal) -> (request: Self)
        ensures
            request@ == (CreateCounterReqView {
                name: self@.name,
                counter: self@.counter.starting_at(value),
            }),
    {
        let mut request = self;
        match &mut request.counter {
            Counter::Weak(counter) => counter.set_value(value),
            Counter::Strong(counter) => counter.set_value(value),
        }
        request
    }
}

impl From<&CreateCounterReq> for Request {
    fn from(request: &CreateCounterReq) -> (converted: Request)
        ensures
            converted@ == request@.request(),
    {
        let body = json_render(&request.counter.to_json());
        Request::new(Method::Post, counter_url(request.name.as_str()), Headers::new(), Some(body))
    }
}

impl FromSpecImpl<&CreateCounterReq> for Request {
    open spec fn obeys_from_spec() -> bool {
        false
    }

    open spec fn from_spec(request: &CreateCounterReq) -> Request {
        arbitrary()
    }
}

impl ToHttpRequest for CreateCounterReq {
    open spec fn request(&self) -> RequestView {
        self@.request()
    }

    fn to_http_req(&self, base_url: &str, basic_auth_encoded: &str) -> (http_req: HttpRequest) {
        Request::from(self).to_http_req(base_url, basic_auth_encoded)
    }
}

/// An increment of a counter, before it is turned into a request: by one, or
/// by a delta where one is given.
#[derive(Debug)]
pub struct IncrementCounterReq {
    name: String,
    delta: Option<CounterVal>,
}

/// An [`IncrementCounterReq`] as contracts see it.
pub struct IncrementCounterReqView {
    pub name: Seq<char>,
    pub delta: Option<CounterVal>,
}

impl View for IncrementCounterReq {
    type V = IncrementCounterReqView;

    closed spec fn view(&self) -> IncrementCounterReqView {
        IncrementCounterReqView { name: self.name@, delta: self.delta }
    }
}

impl IncrementCounterReqView {
    /// The action that the increment asks for: an addition where a delta is
    /// given, else the plain increment.
    pub open spec fn action(self) -> Action {
        match self.delta {
            Some(delta) => Action::Add { delta },
            None => Action::Increment,
        }
    }

    /// The request that increments the counter.
    pub open spec fn request(self) -> RequestView {
        bare_request(Method::Post, counter_path_with_action(self.name, self.action()))
    }
}

impl IncrementCounterReq {
    pub fn new(name: &str) -> (request: Self)
        ensures
            request@ == (IncrementCounterReqView { name: name@, delta: None }),
    {
        Self { name: String::from_str(name), delta: None }
    }

    pub fn by_delta(self, delta: CounterVal) -> (request: Self)
        ensures
            request@ == (IncrementCounterReqView { name: self@.name, delta: Some(delta) }),
    {
        let mut request = self;
        request.delta = Some(delta);
        request
    }

    pub fn action(&self) -> (action: Action)
        ensures
            action == self@.action(),
    {
        match self.delta {
            Some(delta) => Action::Add { delta },
            None => Action::Increment,
        }
    }
}

impl From<&IncrementCounterReq> for Request {
    fn from(request: &IncrementCounterReq) -> (converted: Request)
        ensures
            converted@ == request@.request(),
    {
        Request::new(
            Method::Post,
            counter_url_with_action(request.name.as_str(), &request.action()),
            Headers::new(),
            None,
        )
    }
}

impl FromSpecImpl<&IncrementCounterReq> for Request {
    open spec fn obeys_from_spec() -> bool {
        false
    }

    open spec fn from_spec(request: &IncrementCounterReq) -> Request {
        arbitrary()
    }
}

impl ToHttpRequest for IncrementCounterReq {
    open spec fn request(&self) -> RequestView {
        self@.request()
    }

    fn to_http_req(&self, base_url: &str, basic_auth_encoded: &str) -> (http_req: HttpRequest) {
        Request::from(self).to_http_req(base_url, basic_auth_encoded)
    }
}

pub fn create_weak(name: &str) -> (request: CreateCounterReq)
    ensures
        request@ == (CreateCounterReqView {
            name: name@,
            counter: Counter::unset(CounterType::Weak),
        }),
{
    CreateCounterReq::new(name, CounterType::Weak)
}

pub fn create_strong(name: &str) -> (request: CreateCounterReq)
    ensures
        request@ == (CreateCounterReqView {
            name: name@,
            counter: Counter::unset(CounterType::Strong),
        }),
{
    CreateCounterReq::new(name, CounterType::Strong)
}

pub fn get(name: &str) -> (request: Request)
    ensures
        request@ == bare_request(Method::Get, counter_path(name@)),
{
    Request::new(Method::Get, counter_url(name), Headers::new(), None)
}

pub fn get_config(name: &str) -> (request: Request)
    ensures
        request@ == bare_request(Method::Get, counter_config_path(name@)),
{
    Request::new(Method::Get, counter_config_url(name), Headers::new(), None)
}

pub fn increment(name: &str) -> (request: IncrementCounterReq)
    ensures
        request@ == (IncrementCounterReqView { name: name@, delta: None }),
{
    IncrementCounterReq::new(name)
}

pub fn decrement(name: &str) -> (request: Request)
    ensures
        request@ == bare_request(
            Method::Post,
            counter_path_with_action(name@, Action::Decrement),
        ),
{
    Request::new(
        Method::Post,
        counter_url_with_action(name, &Action::Decrement),
        Headers::new(),
        None,
    )
}

pub fn reset(name: &str) -> (request: Request)
    ensures
        request@ == bare_request(Method::Post, counter_path_with_action(name@, Action::Reset)),
{
    Request::new(Method::Post, counter_url_with_action(name, &Action::Reset), Headers::new(), None)
}

pub fn delete(name: &str) -> (request: Request)
    ensures
        request@ == bare_request(Method::Delete, counter_path(name@)),
{
    Request::new(Method::Delete, counter_url(name), Headers::new(), None)
}

pub fn compare_and_set(name: &str, expect: CounterVal, update: CounterVal) -> (request: Request)
    ensures
        request@ == bare_request(
            Method::Post,
            counter_path_with_action(name@, Action::CompareAndSet { expect, update }),
        ),
{
    Request::new(
        Method::Post,
        counter_url_with_action(name, &Action::CompareAndSet { expect, update }),
        Headers::new(),
        None,
    )
}

pub fn compare_and_swap(name: &str, expect: CounterVal, update: CounterVal) -> (request: Request)
    ensures
        request@ == bare_request(
            Method::Post,
            counter_path_with_action(name@, Action::CompareAndSwap { expect, update }),
        ),
{
    Request::new(
        Method::Post,
        counter_url_with_action(name, &Action::CompareAndSwap { expect, update }),
        Headers::new(),
        None,
    )
}

pub fn list() -> (request: Request)
    ensures
        request@ == bare_request(Method::Get, COUNTERS_ENDPOINT@),
{
    Request::new(Method::Get, String::from_str(COUNTERS_ENDPOINT), Headers::new(), None)
}

/// The path of the counter `name`: the name is percent-encoded once.
pub open spec fn counter_path(name: Seq<char>) -> Seq<char> {
    COUNTERS_ENDPOINT@ + "/"@ + url_encoded(name)
}

pub fn counter_url(name: &str) -> (url: String)
    ensures
        url@ == counter_path(name@),
{
    let mut url = String::from_str(COUNTERS_ENDPOINT);
    url.append("/");
    url.append(url_encode(name).as_str());
    url
}

/// The path and query that ask for `action` on the counter `name`.
pub open spec fn counter_path_with_action(name: Seq<char>, action: Action) -> Seq<char> {
    counter_path(name) + "?"@ + action.query_args()
}

pub fn counter_url_with_action(name: &str, action: &Action) -> (url: String)
    ensures
        url@ == counter_path_with_action(name@, *action),
{
    let mut url = counter_url(name);
    url.append("?");
    url.append(action.to_query_args().as_str());
    url
}

/// The path of the configuration of the counter `name`.
pub open spec fn counter_config_path(name: Seq<char>) -> Seq<char> {
    counter_path(name) + "/config"@
}

pub fn counter_config_url(name: &str) -> (url: String)
    ensures
        url@ == counter_config_path(name@),
{
    let mut url = counter_url(name);
    url.append("/config");
    url
}

/// Every path on a counter starts with the counters endpoint and a slash,
/// and the encoded name follows.
pub proof fn lemma_counter_paths_start_at_endpoint(name: Seq<char>, action: Action)
    ensures
        (COUNTERS_ENDPOINT@ + "/"@).is_prefix_of(counter_path(name)),
        counter_path(name).is_prefix_of(counter_path_with_action(name, action)),
        counter_path(name).is_prefix_of(counter_config_path(name)),
        counter_path(name).skip((COUNTERS_ENDPOINT@ + "/"@).len() as int) == url_encoded(name),
{
    assert(counter_path_with_action(name, action).subrange(0, counter_path(name).len() as int)
        =~= counter_path(name));
    assert(counter_config_path(name).subrange(0, counter_path(name).len() as int)
        =~= counter_path(name));
}

} // verus!
