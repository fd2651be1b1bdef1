use kalshi_api::portfolio::{
    cancel_order_request, cancel_order_response, create_order_request, create_order_response,
    get_balance_request, get_balance_response, get_fills_request, get_fills_response,
    get_order_request, get_order_response, get_orders_request, get_orders_response,
    get_positions_request, get_positions_response, get_settlements_request,
    get_settlements_response, Balance, CancelOrderResponse, CreateOrderResponse, EventPosition,
    Fill, GetFillsResponse, GetOrderResponse, GetOrdersResponse, GetPositionsResponse,
    GetSettlementsResponse, MarketPosition, Order, Settlement, CREATE_ORDER_URL,
};
use kalshi_api::params::Param;
use kalshi_api::request::{Method, Request, INVALID_TARGET};
use kalshi_api::response::{ApiError, DecodeError, Reply};

const ORDERS: &str = "https://trading-api.kalshi.com/trade-api/v2/portfolio/orders/";

fn param(name: &str, value: &str) -> Param {
    Param { name: name.to_string(), value: value.to_string() }
}

fn answered(status: u16, body: &str) -> Reply {
    Reply::Answered { status, body: body.to_string() }
}

fn call(method: Method, url: &str, token: &str, query: Vec<Param>) -> Request {
    Request {
        method,
        url: url.to_string(),
        bearer: Some(token.to_string()),
        headers: vec![param("content-type", "application/json; charset=utf-8")],
        query,
        body: None,
    }
}

fn order_json(order_id: &str, ticker: &str, side: &str, action: &str) -> String {
    format!(
        r#"{{"order_id":"{order_id}","client_order_id":"abc-1","ticker":"{ticker}","side":"{side}","action":"{action}","type":"limit","yes_price":45,"no_price":55,"status":"resting","place_count":10,"decrease_count":0,"maker_fill_count":2,"taker_fill_count":3,"close_cancel_count":0,"fcc_cancel_count":0,"remaining_count":5,"queue_position":7,"taker_fees":4,"taker_fill_cost":135,"created_time":"2023-04-01T12:00:00Z","last_update_time":"2023-04-01T12:05:00Z","expiration_time":"2023-04-02T00:00:00Z","user_id":"u-9"}}"#
    )
}

fn order(order_id: &str, ticker: &str, side: &str, action: &str) -> Order {
    Order {
        action: action.to_string(),
        client_order_id: "abc-1".to_string(),
        close_cancel_count: 0,
        created_time: "2023-04-01T12:00:00Z".to_string(),
        decrease_count: 0,
        expiration_time: "2023-04-02T00:00:00Z".to_string(),
        fcc_cancel_count: 0,
        last_update_time: "2023-04-01T12:05:00Z".to_string(),
        maker_fill_count: 2,
        no_price: 55,
        order_id: order_id.to_string(),
        place_count: 10,
        queue_position: 7,
        remaining_count: 5,
        side: side.to_string(),
        status: "resting".to_string(),
        taker_fees: 4,
        taker_fill_cost: 135,
        taker_fill_count: 3,
        ticker: ticker.to_string(),
        type_: "limit".to_string(),
        user_id: "u-9".to_string(),
        yes_price: 45,
    }
}

const FILL_JSON: &str = r#"{"trade_id":"t-1","order_id":"o-1","ticker":"TSAW-23APR02-B2.5","side":"yes","action":"buy","count":3,"yes_price":45,"no_price":55,"is_taker":true,"created_time":"2023-04-01T12:01:00Z"}"#;

fn fill() -> Fill {
    Fill {
        action: "buy".to_string(),
        count: 3,
        created_time: "2023-04-01T12:01:00Z".to_string(),
        is_taker: true,
        no_price: 55,
        order_id: "o-1".to_string(),
        side: "yes".to_string(),
        ticker: "TSAW-23APR02-B2.5".to_string(),
        trade_id: "t-1".to_string(),
        yes_price: 45,
    }
}

const SETTLEMENT_JSON: &str = r#"{"ticker":"TSAW-23APR02-B2.5","market_result":"yes","yes_count":10,"yes_total_cost":450,"no_count":0,"no_total_cost":0,"revenue":1000,"settled_time":"2023-04-09T14:00:00Z"}"#;

fn settlement() -> Settlement {
    Settlement {
        market_result: "yes".to_string(),
        no_count: 0,
        no_total_cost: 0,
        revenue: 1000,
        settled_time: "2023-04-09T14:00:00Z".to_string(),
        ticker: "TSAW-23APR02-B2.5".to_string(),
        yes_count: 10,
        yes_total_cost: 450,
    }
}

const EVENT_POSITION_JSON: &str = r#"{"event_ticker":"TSAW-23APR02","event_exposure":450,"total_cost":450,"realized_pnl":-20,"fees_paid":4,"resting_order_count":1}"#;

const MARKET_POSITION_JSON: &str = r#"{"ticker":"TSAW-23APR02-B2.5","market_exposure":450,"position":-10,"total_cost":9000000000,"realized_pnl":-20,"fees_paid":4,"resting_order_count":1}"#;

fn event_position() -> EventPosition {
    EventPosition {
        event_exposure: 450,
        event_ticker: "TSAW-23APR02".to_string(),
        fees_paid: 4,
        realized_pnl: -20,
        resting_order_count: 1,
        total_cost: 450,
    }
}

fn market_position() -> MarketPosition {
    MarketPosition {
        fees_paid: 4,
        market_exposure: 450,
        position: -10,
        realized_pnl: -20,
        resting_order_count: 1,
        ticker: "TSAW-23APR02-B2.5".to_string(),
        total_cost: 9000000000,
    }
}

#[test]
fn create_order_sends_only_the_fields_that_are_set() {
    let request = create_order_request(
        "tok", "buy", None, "abc-1", 10, None, None, None, "yes", "TSAW-23APR02-B2.5", "limit",
        Some(45),
    );
    assert_eq!(request.method, Method::Post);
    assert_eq!(request.url, CREATE_ORDER_URL);
    assert_eq!(request.url, ORDERS);
    assert_eq!(request.bearer, Some("tok".to_string()));
    assert_eq!(request.headers, vec![param("content-type", "application/json; charset=utf-8")]);
    assert!(request.query.is_empty());
    assert_eq!(
        request.body,
        Some(vec![
            param("action", "buy"),
            param("client_order_id", "abc-1"),
            param("count", "10"),
            param("side", "yes"),
            param("ticker", "TSAW-23APR02-B2.5"),
            param("type", "limit"),
            param("yes_price", "45"),
        ])
    );
}

#[test]
fn create_order_with_only_the_required_fields() {
    let request = create_order_request(
        "tok", "sell", None, "k", 1, None, None, None, "no", "M", "market", None,
    );
    assert_eq!(
        request.body,
        Some(vec![
            param("action", "sell"),
            param("client_order_id", "k"),
            param("count", "1"),
            param("side", "no"),
            param("ticker", "M"),
            param("type", "market"),
        ])
    );
}

#[test]
fn create_order_with_every_field() {
    let request = create_order_request(
        "tok",
        "buy",
        Some(5000),
        "abc-2",
        -3,
        Some(1680480000),
        Some(0),
        Some(-2),
        "yes",
        "M",
        "limit",
        Some(99),
    );
    assert_eq!(
        request.body,
        Some(vec![
            param("action", "buy"),
            param("client_order_id", "abc-2"),
            param("count", "-3"),
            param("side", "yes"),
            param("ticker", "M"),
            param("type", "limit"),
            param("buy_max_cost", "5000"),
            param("expiration_ts", "1680480000"),
            param("no_price", "0"),
            param("sell_position_floor", "-2"),
            param("yes_price", "99"),
        ])
    );
}

#[test]
fn create_order_request_and_response_agree_on_the_order() {
    let request = create_order_request(
        "tok", "buy", None, "abc-1", 10, None, None, None, "yes", "TSAW-23APR02-B2.5", "limit",
        None,
    );
    let sent = request.body.unwrap();
    let value = |name: &str| {
        sent.iter().find(|field| field.name == name).map(|field| field.value.clone()).unwrap()
    };
    let body = format!(
        r#"{{"order":{}}}"#,
        order_json("o-1", &value("ticker"), &value("side"), &value("action"))
    );
    let CreateOrderResponse { order } = create_order_response(answered(201, &body)).unwrap();
    assert_eq!(order.ticker, "TSAW-23APR02-B2.5");
    assert_eq!(order.side, "yes");
    assert_eq!(order.action, "buy");
    assert_eq!(order, self::order("o-1", "TSAW-23APR02-B2.5", "yes", "buy"));
}

#[test]
fn create_order_rejection_keeps_status_and_body() {
    assert_eq!(
        create_order_response(answered(400, "insufficient balance")),
        Err(ApiError::Rejected { status: 400, body: "insufficient balance".to_string() })
    );
}

#[test]
fn create_order_success_without_a_required_field_is_a_decode_error() {
    let body = format!(
        r#"{{"order":{}}}"#,
        order_json("o-1", "M", "yes", "buy").replace(r#""status":"resting","#, "")
    );
    assert_eq!(
        create_order_response(answered(200, &body)),
        Err(ApiError::Decode(DecodeError::Mismatch))
    );
    assert_eq!(
        create_order_response(answered(200, "{}")),
        Err(ApiError::Decode(DecodeError::Mismatch))
    );
}

#[test]
fn an_order_needs_each_of_its_fields() {
    let whole = order_json("o-1", "M", "yes", "buy");
    for field in [
        r#""order_id":"o-1","#,
        r#""client_order_id":"abc-1","#,
        r#""ticker":"M","#,
        r#""side":"yes","#,
        r#""action":"buy","#,
        r#""type":"limit","#,
        r#""yes_price":45,"#,
        r#""no_price":55,"#,
        r#""status":"resting","#,
        r#""place_count":10,"#,
        r#""decrease_count":0,"#,
        r#""maker_fill_count":2,"#,
        r#""taker_fill_count":3,"#,
        r#""close_cancel_count":0,"#,
        r#""fcc_cancel_count":0,"#,
        r#""remaining_count":5,"#,
        r#""queue_position":7,"#,
        r#""taker_fees":4,"#,
        r#""taker_fill_cost":135,"#,
        r#""created_time":"2023-04-01T12:00:00Z","#,
        r#""last_update_time":"2023-04-01T12:05:00Z","#,
        r#""expiration_time":"2023-04-02T00:00:00Z","#,
    ] {
        assert!(whole.contains(field), "{field}");
        let body = format!(r#"{{"order":{}}}"#, whole.replace(field, ""));
        assert_eq!(
            get_order_response(answered(200, &body)),
            Err(ApiError::Decode(DecodeError::Mismatch)),
            "without {field}"
        );
    }
    let body = format!(r#"{{"order":{}}}"#, whole.replace(r#","user_id":"u-9""#, ""));
    assert_eq!(
        get_order_response(answered(200, &body)),
        Err(ApiError::Decode(DecodeError::Mismatch))
    );
}

#[test]
fn get_order_addresses_the_order_by_its_id() {
    assert_eq!(
        get_order_request("tok", "o-1"),
        Ok(call(
            Method::Get,
            "https://trading-api.kalshi.com/trade-api/v2/portfolio/orders/o-1",
            "tok",
            vec![]
        ))
    );
    assert_eq!(
        get_order_request("tok", "https://["),
        Err(ApiError::Transport(INVALID_TARGET.to_string()))
    );
}

#[test]
fn get_order_reads_the_order() {
    let body = format!(r#"{{"order":{}}}"#, order_json("o-1", "M", "no", "sell"));
    assert_eq!(
        get_order_response(answered(200, &body)),
        Ok(GetOrderResponse { order: order("o-1", "M", "no", "sell") })
    );
}

#[test]
fn cancel_order_deletes_the_order_by_its_id() {
    assert_eq!(
        cancel_order_request("tok", "o-1"),
        Ok(call(
            Method::Delete,
            "https://trading-api.kalshi.com/trade-api/v2/portfolio/orders/o-1",
            "tok",
            vec![]
        ))
    );
    assert_eq!(
        cancel_order_request("tok", "https://["),
        Err(ApiError::Transport(INVALID_TARGET.to_string()))
    );
}

#[test]
fn cancel_order_reads_the_order_and_the_reduction() {
    let body = format!(r#"{{"order":{},"reduced_by":5}}"#, order_json("o-1", "M", "yes", "buy"));
    assert_eq!(
        cancel_order_response(answered(200, &body)),
        Ok(CancelOrderResponse { order: order("o-1", "M", "yes", "buy"), reduced_by: 5 })
    );
    let body = format!(r#"{{"order":{}}}"#, order_json("o-1", "M", "yes", "buy"));
    assert_eq!(
        cancel_order_response(answered(200, &body)),
        Err(ApiError::Decode(DecodeError::Mismatch))
    );
    assert_eq!(
        cancel_order_response(answered(404, "order not found")),
        Err(ApiError::Rejected { status: 404, body: "order not found".to_string() })
    );
}

#[test]
fn get_balance_is_a_bare_authenticated_call() {
    assert_eq!(
        get_balance_request("tok"),
        call(
            Method::Get,
            "https://trading-api.kalshi.com/trade-api/v2/portfolio/balance/",
            "tok",
            vec![]
        )
    );
}

#[test]
fn get_balance_reads_the_balance() {
    assert_eq!(
        get_balance_response(answered(200, r#"{"balance":250000}"#)),
        Ok(Balance { balance: 250000 })
    );
    assert_eq!(
        get_balance_response(answered(200, r#"{"balance":"250000"}"#)),
        Err(ApiError::Decode(DecodeError::Mismatch))
    );
}

#[test]
fn get_fills_sends_the_filters_that_are_set() {
    assert_eq!(
        get_fills_request("tok", None, None, None, None, None, None),
        call(
            Method::Get,
            "https://trading-api.kalshi.com/trade-api/v2/portfolio/fills/",
            "tok",
            vec![]
        )
    );
    assert_eq!(
        get_fills_request(
            "tok",
            Some("M"),
            Some("o-1"),
            Some(1680307200),
            Some(1680480000),
            Some(100),
            Some("c1")
        )
        .query,
        vec![
            param("ticker", "M"),
            param("order_id", "o-1"),
            param("min_ts", "1680307200"),
            param("max_ts", "1680480000"),
            param("limit", "100"),
            param("cursor", "c1"),
        ]
    );
    assert_eq!(
        get_fills_request("tok", None, Some(""), None, Some(0), None, None).query,
        vec![param("order_id", ""), param("max_ts", "0")]
    );
}

#[test]
fn get_fills_reads_a_page() {
    let body = format!(r#"{{"cursor":"c2","fills":[{FILL_JSON},{FILL_JSON}]}}"#);
    assert_eq!(
        get_fills_response(answered(200, &body)),
        Ok(GetFillsResponse { cursor: "c2".to_string(), fills: vec![fill(), fill()] })
    );
    let body = format!(
        r#"{{"cursor":"c2","fills":[{}]}}"#,
        FILL_JSON.replace(r#""is_taker":true,"#, "")
    );
    assert_eq!(
        get_fills_response(answered(200, &body)),
        Err(ApiError::Decode(DecodeError::Mismatch))
    );
}

#[test]
fn get_fills_tells_a_page_from_the_end_of_the_listing() {
    let page =
        get_fills_response(answered(200, &format!(r#"{{"cursor":"c2","fills":[{FILL_JSON}]}}"#)))
            .unwrap();
    let end = get_fills_response(answered(200, r#"{"fills":[],"cursor":""}"#)).unwrap();
    assert_eq!((page.fills.len(), page.cursor.as_str()), (1, "c2"));
    assert_eq!((end.fills.len(), end.cursor.as_str()), (0, ""));
    assert_ne!(page, end);
}

#[test]
fn get_orders_sends_the_filters_that_are_set() {
    assert_eq!(
        get_orders_request("tok", None, None, None, None, None, None, None),
        call(Method::Get, ORDERS, "tok", vec![])
    );
    assert_eq!(
        get_orders_request(
            "tok",
            Some("M"),
            Some("E"),
            Some(1),
            Some(2),
            Some("resting"),
            Some("c1"),
            Some(10)
        )
        .query,
        vec![
            param("ticker", "M"),
            param("event_ticker", "E"),
            param("min_ts", "1"),
            param("max_ts", "2"),
            param("status", "resting"),
            param("cursor", "c1"),
            param("limit", "10"),
        ]
    );
    assert_eq!(
        get_orders_request("tok", None, None, None, None, Some("executed"), None, Some(0)).query,
        vec![param("status", "executed"), param("limit", "0")]
    );
}

#[test]
fn get_orders_reads_a_page() {
    let body = format!(
        r#"{{"orders":[{},{}],"cursor":"c9"}}"#,
        order_json("o-1", "M", "yes", "buy"),
        order_json("o-2", "N", "no", "sell")
    );
    assert_eq!(
        get_orders_response(answered(200, &body)),
        Ok(GetOrdersResponse {
            cursor: "c9".to_string(),
            orders: vec![order("o-1", "M", "yes", "buy"), order("o-2", "N", "no", "sell")],
        })
    );
}

#[test]
fn get_orders_tells_a_page_from_the_end_of_the_listing() {
    let page = get_orders_response(answered(
        200,
        &format!(r#"{{"orders":[{}],"cursor":"c9"}}"#, order_json("o-1", "M", "yes", "buy")),
    ))
    .unwrap();
    let end = get_orders_response(answered(200, r#"{"orders":[],"cursor":""}"#)).unwrap();
    assert_eq!((page.orders.len(), page.cursor.as_str()), (1, "c9"));
    assert_eq!((end.orders.len(), end.cursor.as_str()), (0, ""));
    assert_ne!(page, end);
}

#[test]
fn get_positions_sends_the_filters_that_are_set() {
    assert_eq!(
        get_positions_request("tok", None, None, None, None, None),
        call(
            Method::Get,
            "https://trading-api.kalshi.com/trade-api/v2/portfolio/positions/",
            "tok",
            vec![]
        )
    );
    assert_eq!(
        get_positions_request("tok", Some("c1"), Some(5), Some("unsettled"), Some("M"), Some("E"))
            .query,
        vec![
            param("cursor", "c1"),
            param("limit", "5"),
            param("settlement_status", "unsettled"),
            param("ticker", "M"),
            param("event_ticker", "E"),
        ]
    );
}

#[test]
fn get_positions_reads_a_page() {
    let body = format!(
        r#"{{"cursor":"","event_positions":[{EVENT_POSITION_JSON}],"market_positions":[{MARKET_POSITION_JSON}]}}"#
    );
    assert_eq!(
        get_positions_response(answered(200, &body)),
        Ok(GetPositionsResponse {
            cursor: String::new(),
            event_positions: vec![event_position()],
            market_positions: vec![market_position()],
        })
    );
}

#[test]
fn get_positions_refuses_a_value_that_does_not_fit_its_field() {
    let body = format!(
        r#"{{"cursor":"","event_positions":[{}],"market_positions":[]}}"#,
        EVENT_POSITION_JSON.replace(r#""total_cost":450"#, r#""total_cost":9000000000"#)
    );
    assert_eq!(
        get_positions_response(answered(200, &body)),
        Err(ApiError::Decode(DecodeError::Mismatch))
    );
}

#[test]
fn get_positions_tells_a_page_from_the_end_of_the_listing() {
    let page = get_positions_response(answered(
        200,
        &format!(
            r#"{{"cursor":"c3","event_positions":[],"market_positions":[{MARKET_POSITION_JSON}]}}"#
        ),
    ))
    .unwrap();
    let end = get_positions_response(answered(
        200,
        r#"{"cursor":"","event_positions":[],"market_positions":[]}"#,
    ))
    .unwrap();
    assert_eq!(page.market_positions.len(), 1);
    assert_eq!(page.cursor, "c3");
    assert!(end.event_positions.is_empty() && end.market_positions.is_empty());
    assert!(end.cursor.is_empty());
    assert_ne!(page, end);
}

#[test]
fn get_settlements_sends_the_filters_that_are_set() {
    assert_eq!(
        get_settlements_request("tok", None, None),
        call(
            Method::Get,
            "https://trading-api.kalshi.com/trade-api/v2/portfolio/settlements/",
            "tok",
            vec![]
        )
    );
    assert_eq!(
        get_settlements_request("tok", Some(25), Some("c1".to_string())).query,
        vec![param("limit", "25"), param("cursor", "c1")]
    );
    assert_eq!(
        get_settlements_request("tok", None, Some(String::new())).query,
        vec![param("cursor", "")]
    );
}

#[test]
fn get_settlements_reads_a_page() {
    let body = format!(r#"{{"cursor":"c4","settlements":[{SETTLEMENT_JSON}]}}"#);
    assert_eq!(
        get_settlements_response(answered(200, &body)),
        Ok(GetSettlementsResponse { cursor: "c4".to_string(), settlements: vec![settlement()] })
    );
}

#[test]
fn get_settlements_tells_a_page_from_the_end_of_the_listing() {
    let page = get_settlements_response(answered(
        200,
        &format!(r#"{{"cursor":"c4","settlements":[{SETTLEMENT_JSON}]}}"#),
    ))
    .unwrap();
    let end = get_settlements_response(answered(200, r#"{"cursor":"","settlements":[]}"#)).unwrap();
    assert_eq!((page.settlements.len(), page.cursor.as_str()), (1, "c4"));
    assert_eq!((end.settlements.len(), end.cursor.as_str()), (0, ""));
    assert_ne!(page, end);
}

#[test]
fn portfolio_failures_are_classified() {
    assert_eq!(
        get_balance_response(Reply::Failed { cause: "connection reset".to_string() }),
        Err(ApiError::Transport("connection reset".to_string()))
    );
    assert_eq!(
        get_orders_response(answered(429, "slow down")),
        Err(ApiError::Rejected { status: 429, body: "slow down".to_string() })
    );
    assert_eq!(
        get_positions_response(answered(200, "ok")),
        Err(ApiError::Decode(DecodeError::NotJson))
    );
    assert_eq!(
        get_settlements_response(answered(200, "{}")),
        Err(ApiError::Decode(DecodeError::Mismatch))
    );
}
