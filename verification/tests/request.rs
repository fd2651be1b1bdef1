use kalshi_api::params::{attach, Param, ParamSet};
use kalshi_api::request::{Method, Request, INVALID_TARGET, JSON_UTF8};
use kalshi_api::response::ApiError;

const EVENTS: &str = "https://trading-api.kalshi.com/trade-api/v2/events/";

fn param(name: &str, value: &str) -> Param {
    Param { name: name.to_string(), value: value.to_string() }
}

fn target(segment: &str) -> Result<String, ApiError> {
    Request::for_resource(Method::Get, EVENTS, segment, "tok").map(|request| request.url)
}

#[test]
fn an_empty_set_sends_nothing() {
    assert_eq!(ParamSet::new().into_params(), vec![]);
}

#[test]
fn a_parameter_that_is_not_set_is_left_out() {
    let set = ParamSet::new().text("cursor", None).i64("limit", None).i32("depth", None);
    assert_eq!(set.into_params(), vec![]);
}

#[test]
fn a_parameter_that_is_set_is_sent_even_when_it_looks_empty() {
    let set = ParamSet::new().text("cursor", Some("")).i64("limit", Some(0)).i32("depth", Some(0));
    assert_eq!(
        set.into_params(),
        vec![param("cursor", ""), param("limit", "0"), param("depth", "0")]
    );
}

#[test]
fn parameters_go_out_in_the_order_in_which_they_were_named() {
    let set = ParamSet::new()
        .i64("limit", Some(100))
        .text("cursor", None)
        .text("status", Some("open"))
        .required("event_ticker", "TSAW-23APR02")
        .i32("depth", Some(-4))
        .text("series_ticker", None);
    assert_eq!(
        set.into_params(),
        vec![
            param("limit", "100"),
            param("status", "open"),
            param("event_ticker", "TSAW-23APR02"),
            param("depth", "-4"),
        ]
    );
}

#[test]
fn values_are_sent_as_given() {
    let set = ParamSet::new().text("tickers", Some("A,B C&d=e")).required("q", " ");
    assert_eq!(set.into_params(), vec![param("tickers", "A,B C&d=e"), param("q", " ")]);
}

#[test]
fn attach_appends_one_parameter() {
    let mut params = vec![param("a", "1")];
    attach(&mut params, "b", "2".to_string());
    assert_eq!(params, vec![param("a", "1"), param("b", "2")]);
}

#[test]
fn a_new_request_declares_json_and_nothing_else() {
    let request = Request::new(Method::Delete, "https://example.net/x".to_string(), None);
    assert_eq!(
        request,
        Request {
            method: Method::Delete,
            url: "https://example.net/x".to_string(),
            bearer: None,
            headers: vec![param("content-type", "application/json; charset=utf-8")],
            query: vec![],
            body: None,
        }
    );
    assert_eq!(JSON_UTF8, "application/json; charset=utf-8");
}

#[test]
fn a_new_request_carries_the_token_it_is_given() {
    let request = Request::new(Method::Get, "https://example.net/x".to_string(), Some("s3cr3t"));
    assert_eq!(request.bearer, Some("s3cr3t".to_string()));
    let request = Request::new(Method::Get, "https://example.net/x".to_string(), Some(""));
    assert_eq!(request.bearer, Some(String::new()));
}

#[test]
fn with_query_and_with_body_replace_only_their_part() {
    let base = Request::new(Method::Post, "https://example.net/x".to_string(), Some("tok"));
    let request = base
        .clone()
        .with_query(ParamSet::new().i64("limit", Some(5)).text("cursor", None))
        .with_body(ParamSet::new().required("action", "buy").i64("yes_price", None));
    assert_eq!(
        request,
        Request {
            query: vec![param("limit", "5")],
            body: Some(vec![param("action", "buy")]),
            ..base
        }
    );
}

#[test]
fn a_segment_extends_the_path_of_the_base() {
    assert_eq!(
        target("TSAW-23APR02"),
        Ok("https://trading-api.kalshi.com/trade-api/v2/events/TSAW-23APR02".to_string())
    );
    assert_eq!(
        target("TSAW-23APR02-B2.5/orderbook"),
        Ok("https://trading-api.kalshi.com/trade-api/v2/events/TSAW-23APR02-B2.5/orderbook"
            .to_string())
    );
}

#[test]
fn an_empty_segment_addresses_the_base() {
    assert_eq!(target(""), Ok(EVENTS.to_string()));
}

#[test]
fn a_segment_is_percent_encoded_but_not_sanitized() {
    assert_eq!(
        target("A B"),
        Ok("https://trading-api.kalshi.com/trade-api/v2/events/A%20B".to_string())
    );
    assert_eq!(
        target("../markets/X"),
        Ok("https://trading-api.kalshi.com/trade-api/v2/markets/X".to_string())
    );
    assert_eq!(target("/orderbook"), Ok("https://trading-api.kalshi.com/orderbook".to_string()));
    assert_eq!(
        target("X?limit=1"),
        Ok("https://trading-api.kalshi.com/trade-api/v2/events/X?limit=1".to_string())
    );
    assert_eq!(target("https://example.net/x"), Ok("https://example.net/x".to_string()));
}

#[test]
fn a_base_without_a_trailing_slash_loses_its_last_segment() {
    let request =
        Request::for_resource(Method::Get, "https://example.net/a/b", "c", "tok").unwrap();
    assert_eq!(request.url, "https://example.net/a/c");
}

#[test]
fn a_segment_that_does_not_resolve_is_reported_as_a_transport_failure() {
    assert_eq!(target("https://[bad"), Err(ApiError::Transport(INVALID_TARGET.to_string())));
}

#[test]
fn a_base_that_is_no_absolute_url_is_reported_as_a_transport_failure() {
    assert_eq!(
        Request::for_resource(Method::Get, "trade-api/v2/events/", "X", "tok"),
        Err(ApiError::Transport("the request target is not a valid URL".to_string()))
    );
}

#[test]
fn a_resource_request_is_a_bare_authenticated_call() {
    assert_eq!(
        Request::for_resource(Method::Delete, EVENTS, "X", "tok"),
        Ok(Request {
            method: Method::Delete,
            url: "https://trading-api.kalshi.com/trade-api/v2/events/X".to_string(),
            bearer: Some("tok".to_string()),
            headers: vec![param("content-type", "application/json; charset=utf-8")],
            query: vec![],
            body: None,
        })
    );
}

#[test]
fn addressed_takes_the_target_as_it_is() {
    assert_eq!(
        Request::addressed(Method::Get, Some("anything at all".to_string()), "tok")
            .map(|request| request.url),
        Ok("anything at all".to_string())
    );
    assert_eq!(
        Request::addressed(Method::Get, None, "tok"),
        Err(ApiError::Transport(INVALID_TARGET.to_string()))
    );
}
