use infinispan::request::counters;
use infinispan::request::counters::{
    Action, CounterType, CreateCounterReq, IncrementCounterReq, StrongCounter, WeakCounter,
};
use infinispan::request::{Method, Request, ToHttpRequest};
use serde_json::Value;

fn assert_bare(request: &Request, method: Method, path_and_query: &str) {
    assert_eq!(request.method, method);
    assert_eq!(request.path_and_query, path_and_query);
    assert_eq!(request.headers.len(), 0);
    assert_eq!(request.body, None);
}

#[test]
fn create_weak_counter_without_value_omits_the_initial_value() {
    let request = Request::from(&counters::create_weak("test_counter"));

    assert_eq!(request.method, Method::Post);
    assert_eq!(request.path_and_query, "/rest/v2/counters/test_counter");
    assert_eq!(request.headers.len(), 0);
    assert_eq!(request.body.as_deref(), Some("{\"weak-counter\":{}}"));
}

#[test]
fn create_weak_counter_with_value_carries_it() {
    let request = Request::from(&counters::create_weak("test_counter").with_value(10));

    assert_eq!(request.path_and_query, "/rest/v2/counters/test_counter");
    assert_eq!(request.body.as_deref(), Some("{\"weak-counter\":{\"initial-value\":10}}"));
    let body: Value = serde_json::from_str(request.body.as_ref().unwrap()).unwrap();
    assert_eq!(body["weak-counter"]["initial-value"], Value::from(10));
}

#[test]
fn create_strong_counter_without_value_omits_the_initial_value() {
    let request = Request::from(&counters::create_strong("test_counter"));

    assert_eq!(request.method, Method::Post);
    assert_eq!(request.path_and_query, "/rest/v2/counters/test_counter");
    assert_eq!(request.body.as_deref(), Some("{\"strong-counter\":{}}"));
}

#[test]
fn create_strong_counter_with_value_carries_it() {
    let request = Request::from(&counters::create_strong("test_counter").with_value(10));

    assert_eq!(request.body.as_deref(), Some("{\"strong-counter\":{\"initial-value\":10}}"));
}

#[test]
fn create_counter_with_zero_carries_the_zero() {
    let request = Request::from(&counters::create_weak("c").with_value(0));

    assert_eq!(request.body.as_deref(), Some("{\"weak-counter\":{\"initial-value\":0}}"));
}

#[test]
fn create_counter_with_extreme_values() {
    let lowest = Request::from(&counters::create_strong("c").with_value(i64::MIN));
    let highest = Request::from(&counters::create_strong("c").with_value(i64::MAX));

    assert_eq!(
        lowest.body.as_deref(),
        Some("{\"strong-counter\":{\"initial-value\":-9223372036854775808}}")
    );
    assert_eq!(
        highest.body.as_deref(),
        Some("{\"strong-counter\":{\"initial-value\":9223372036854775807}}")
    );
}

#[test]
fn with_value_twice_keeps_the_last_value() {
    let request = Request::from(&counters::create_weak("c").with_value(1).with_value(2));

    assert_eq!(request.body.as_deref(), Some("{\"weak-counter\":{\"initial-value\":2}}"));
}

#[test]
fn create_counter_req_new_takes_the_type() {
    let weak = Request::from(&CreateCounterReq::new("c", CounterType::Weak));
    let strong = Request::from(&CreateCounterReq::new("c", CounterType::Strong));

    assert_eq!(weak.body.as_deref(), Some("{\"weak-counter\":{}}"));
    assert_eq!(strong.body.as_deref(), Some("{\"strong-counter\":{}}"));
}

#[test]
fn set_value_sets_the_initial_value() {
    let mut weak = WeakCounter { initial_value: None };
    let mut strong = StrongCounter { initial_value: Some(1) };

    weak.set_value(7);
    strong.set_value(-7);

    assert_eq!(weak.initial_value, Some(7));
    assert_eq!(strong.initial_value, Some(-7));
}

#[test]
fn counters_get() {
    assert_bare(&counters::get("test_counter"), Method::Get, "/rest/v2/counters/test_counter");
}

#[test]
fn counters_get_config() {
    assert_bare(
        &counters::get_config("test_counter"),
        Method::Get,
        "/rest/v2/counters/test_counter/config",
    );
}

#[test]
fn increment_without_delta_is_the_increment_action() {
    let request = Request::from(&counters::increment("test_counter"));

    assert_bare(&request, Method::Post, "/rest/v2/counters/test_counter?action=increment");
}

#[test]
fn increment_by_delta_is_the_add_action() {
    let request = Request::from(&counters::increment("test_counter").by_delta(2));

    assert_bare(&request, Method::Post, "/rest/v2/counters/test_counter?action=add&delta=2");
}

#[test]
fn increment_by_negative_and_extreme_deltas() {
    let negative = Request::from(&IncrementCounterReq::new("c").by_delta(-15));
    let lowest = Request::from(&IncrementCounterReq::new("c").by_delta(i64::MIN));
    let highest = Request::from(&IncrementCounterReq::new("c").by_delta(i64::MAX));
    let zero = Request::from(&IncrementCounterReq::new("c").by_delta(0));

    assert_eq!(negative.path_and_query, "/rest/v2/counters/c?action=add&delta=-15");
    assert_eq!(
        lowest.path_and_query,
        "/rest/v2/counters/c?action=add&delta=-9223372036854775808"
    );
    assert_eq!(
        highest.path_and_query,
        "/rest/v2/counters/c?action=add&delta=9223372036854775807"
    );
    assert_eq!(zero.path_and_query, "/rest/v2/counters/c?action=add&delta=0");
}

#[test]
fn increment_action_follows_the_delta() {
    assert_eq!(IncrementCounterReq::new("c").action(), Action::Increment);
    assert_eq!(IncrementCounterReq::new("c").by_delta(3).action(), Action::Add { delta: 3 });
    assert_eq!(
        IncrementCounterReq::new("c").by_delta(3).by_delta(4).action(),
        Action::Add { delta: 4 }
    );
}

#[test]
fn decrement_posts_the_decrement_action() {
    assert_bare(
        &counters::decrement("test_counter"),
        Method::Post,
        "/rest/v2/counters/test_counter?action=decrement",
    );
}

#[test]
fn reset_posts_the_reset_action() {
    assert_bare(
        &counters::reset("test_counter"),
        Method::Post,
        "/rest/v2/counters/test_counter?action=reset",
    );
}

#[test]
fn counters_delete() {
    assert_bare(&counters::delete("test_counter"), Method::Delete, "/rest/v2/counters/test_counter");
}

#[test]
fn compare_and_set_keeps_its_mixed_case() {
    assert_bare(
        &counters::compare_and_set("test_counter", 1, 2),
        Method::Post,
        "/rest/v2/counters/test_counter?action=compareAndSet&expect=1&update=2",
    );
}

#[test]
fn compare_and_swap_keeps_its_mixed_case() {
    assert_bare(
        &counters::compare_and_swap("test_counter", -1, 20),
        Method::Post,
        "/rest/v2/counters/test_counter?action=compareAndSwap&expect=-1&update=20",
    );
}

#[test]
fn counters_list() {
    assert_bare(&counters::list(), Method::Get, "/rest/v2/counters");
}

#[test]
fn counter_action_query_args() {
    assert_eq!(Action::Add { delta: 5 }.to_query_args(), "action=add&delta=5");
    assert_eq!(Action::Increment.to_query_args(), "action=increment");
    assert_eq!(Action::Decrement.to_query_args(), "action=decrement");
    assert_eq!(Action::Reset.to_query_args(), "action=reset");
    assert_eq!(
        Action::CompareAndSet { expect: 100, update: -100 }.to_query_args(),
        "action=compareAndSet&expect=100&update=-100"
    );
    assert_eq!(
        Action::CompareAndSwap { expect: 0, update: 1 }.to_query_args(),
        "action=compareAndSwap&expect=0&update=1"
    );
}

#[test]
fn counter_name_is_percent_encoded_once() {
    assert_eq!(counters::counter_url("my counter"), "/rest/v2/counters/my%20counter");
    assert_eq!(counters::counter_config_url("a/b"), "/rest/v2/counters/a%2Fb/config");
    assert_eq!(
        counters::counter_url_with_action("a=b", &Action::Reset),
        "/rest/v2/counters/a%3Db?action=reset"
    );
    assert_eq!(
        Request::from(&counters::create_weak("x y")).path_and_query,
        "/rest/v2/counters/x%20y"
    );
}

#[test]
fn counter_requests_become_wire_requests() {
    let create = counters::create_strong("c").with_value(3).to_http_req("http://h", "Basic x");
    let increment = counters::increment("c").by_delta(4).to_http_req("http://h", "Basic x");

    assert_eq!(create.method, Method::Post);
    assert_eq!(create.uri, "http://h/rest/v2/counters/c");
    assert_eq!(create.body, "{\"strong-counter\":{\"initial-value\":3}}");
    assert_eq!(increment.method, Method::Post);
    assert_eq!(increment.uri, "http://h/rest/v2/counters/c?action=add&delta=4");
    assert_eq!(increment.body, "");
}
