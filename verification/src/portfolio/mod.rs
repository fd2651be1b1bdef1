//! The portfolio endpoints: balance, fills, orders, positions and
//! settlements of the account. Every call is authenticated.

use crate::decimal::decimal;
use crate::decode::FromJson;
use crate::json::{parsed, Json};
use crate::params::{
    attached, distinct_names, lemma_attached_exactly_the_set, number, number32, owned, text,
    ParamSet,
};
use crate::request::{call, is_call_to, joined, Method, Request};
use crate::response::{is_success, normalize, stands_for, ApiError, Reply};
use vstd::prelude::*;

pub use crate::portfolio::api_structs::{
    Balance, CancelOrderResponse, CreateOrderResponse, EventPosition, Fill, GetFillsResponse,
    GetOrderResponse, GetOrdersResponse, GetPositionsResponse, GetSettlementsResponse,
    MarketPosition, Order, Settlement,
};

pub mod api_structs;

verus! {

/// Where the balance is fetched.
pub const GET_BALANCE_URL: &'static str =
    "https://trading-api.kalshi.com/trade-api/v2/portfolio/balance/";

/// Where fills are listed.
pub const GET_FILLS_URL: &'static str =
    "https://trading-api.kalshi.com/trade-api/v2/portfolio/fills/";

/// Where orders are listed.
pub const GET_ORDERS_URL: &'static str =
    "https://trading-api.kalshi.com/trade-api/v2/portfolio/orders/";

/// Where orders are submitted.
pub const CREATE_ORDER_URL: &'static str =
    "https://trading-api.kalshi.com/trade-api/v2/portfolio/orders/";

/// Under which an order is cancelled by its id.
pub const CANCEL_ORDER_URL: &'static str =
    "https://trading-api.kalshi.com/trade-api/v2/portfolio/orders/";

/// Under which an order is fetched by its id.
pub const GET_ORDER_URL: &'static str =
    "https://trading-api.kalshi.com/trade-api/v2/portfolio/orders/";

/// Where positions are listed.
pub const GET_POSITIONS_URL: &'static str =
    "https://trading-api.kalshi.com/trade-api/v2/portfolio/positions/";

/// Where settlements are listed.
pub const GET_SETTLEMENTS_URL: &'static str =
    "https://trading-api.kalshi.com/trade-api/v2/portfolio/settlements/";

/// The fields of the body that creates an order: the six required ones,
/// then the optional ones.
pub open spec fn create_order_fields(
    action: &str,
    buy_max_cost: Option<i64>,
    client_order_id: &str,
    count: i32,
    expiration_ts: Option<i64>,
    no_price: Option<i64>,
    sell_position_floor: Option<i32>,
    side: &str,
    ticker: &str,
    type_: &str,
    yes_price: Option<i64>,
) -> Seq<(Seq<char>, Option<Seq<char>>)> {
    seq![
        ("action"@, Some(action@)),
        ("client_order_id"@, Some(client_order_id@)),
        ("count"@, Some(decimal(count as int))),
        ("side"@, Some(side@)),
        ("ticker"@, Some(ticker@)),
        ("type"@, Some(type_@)),
        ("buy_max_cost"@, number(buy_max_cost)),
        ("expiration_ts"@, number(expiration_ts)),
        ("no_price"@, number(no_price)),
        ("sell_position_floor"@, number32(sell_position_floor)),
        ("yes_price"@, number(yes_price)),
    ]
}

/// No field of the body that creates an order is named twice, so each
/// goes out exactly when it is set.
pub proof fn lemma_create_order_fields_distinct(
    action: &str,
    buy_max_cost: Option<i64>,
    client_order_id: &str,
    count: i32,
    expiration_ts: Option<i64>,
    no_price: Option<i64>,
    sell_position_floor: Option<i32>,
    side: &str,
    ticker: &str,
    type_: &str,
    yes_price: Option<i64>,
)
    ensures
        distinct_names(
            create_order_fields(
                action,
                buy_max_cost,
                client_order_id,
                count,
                expiration_ts,
                no_price,
                sell_position_floor,
                side,
                ticker,
                type_,
                yes_price,
            ),
        ),
{
    reveal_strlit("action");
    reveal_strlit("client_order_id");
    reveal_strlit("count");
    reveal_strlit("side");
    reveal_strlit("ticker");
    reveal_strlit("type");
    reveal_strlit("buy_max_cost");
    reveal_strlit("expiration_ts");
    reveal_strlit("no_price");
    reveal_strlit("sell_position_floor");
    reveal_strlit("yes_price");
    assert("action"@[0] != "ticker"@[0]);
    assert("side"@[0] != "type"@[0]);
    let set = create_order_fields(
        action,
        buy_max_cost,
        client_order_id,
        count,
        expiration_ts,
        no_price,
        sell_position_floor,
        side,
        ticker,
        type_,
        yes_price,
    );
    assert(set[0].0 == "action"@);
    assert(set[1].0 == "client_order_id"@);
    assert(set[2].0 == "count"@);
    assert(set[3].0 == "side"@);
    assert(set[4].0 == "ticker"@);
    assert(set[5].0 == "type"@);
    assert(set[6].0 == "buy_max_cost"@);
    assert(set[7].0 == "expiration_ts"@);
    assert(set[8].0 == "no_price"@);
    assert(set[9].0 == "sell_position_floor"@);
    assert(set[10].0 == "yes_price"@);
}

/// The request that submits an order. `client_order_id` is the caller's
/// key for the submission; it is sent as it is given, and so is the token.
pub fn create_order_request(
    token: &str,
    action: &str,
    buy_max_cost: Option<i64>,
    client_order_id: &str,
    count: i32,
    expiration_ts: Option<i64>,
    no_price: Option<i64>,
    sell_position_floor: Option<i32>,
    side: &str,
    ticker: &str,
    type_: &str,
    yes_price: Option<i64>,
) -> (r: Request)
    ensures
        r@ == call(
            Method::Post,
            CREATE_ORDER_URL@,
            Some(token@),
            seq![],
            Some(
                attached(
                    create_order_fields(
                        action,
                        buy_max_cost,
                        client_order_id,
                        count,
                        expiration_ts,
                        no_price,
                        sell_position_floor,
                        side,
                        ticker,
                        type_,
                        yes_price,
                    ),
                ),
            ),
        ),
{
    let fields = ParamSet::new().required("action", action).required(
        "client_order_id",
        client_order_id,
    ).i32("count", Some(count)).required("side", side).required("ticker", ticker).required(
        "type",
        type_,
    ).i64("buy_max_cost", buy_max_cost).i64("expiration_ts", expiration_ts).i64(
        "no_price",
        no_price,
    ).i32("sell_position_floor", sell_position_floor).i64("yes_price", yes_price);
    assert(fields@ =~= create_order_fields(
        action,
        buy_max_cost,
        client_order_id,
        count,
        expiration_ts,
        no_price,
        sell_position_floor,
        side,
        ticker,
        type_,
        yes_price,
    ));
    Request::new(Method::Post, CREATE_ORDER_URL.to_owned(), Some(token)).with_body(fields)
}

/// The result of submitting an order.
pub fn create_order_response(reply: Reply) -> (r: Result<CreateOrderResponse, ApiError>)
    ensures
        stands_for(reply, r),
{
    normalize(reply)
}

/// Whether the order in `document` has the ticker, side and action that
/// `fields` carry under these names.
pub open spec fn echoes(document: Json, fields: Seq<(Seq<char>, Seq<char>)>) -> bool {
    &&& document.at("order"@) matches Some(order)
    &&& order.at("ticker"@) matches Some(Json::Text(ticker))
    &&& order.at("side"@) matches Some(Json::Text(side))
    &&& order.at("action"@) matches Some(Json::Text(action))
    &&& fields.contains(("ticker"@, ticker@))
    &&& fields.contains(("side"@, side@))
    &&& fields.contains(("action"@, action@))
}

/// What is submitted is what comes back. Take the request that submits an
/// order with the required fields only, and a successful reply whose body
/// has the shape of a created order and echoes the ticker, side and action
/// that the request carries. Then the result is an order, and its ticker,
/// side and action are those that the caller gave.
pub proof fn lemma_create_order_round_trip(
    token: &str,
    action: &str,
    client_order_id: &str,
    count: i32,
    side: &str,
    ticker: &str,
    type_: &str,
    request: Request,
    reply: Reply,
    r: Result<CreateOrderResponse, ApiError>,
)
    requires
        request@ == call(
            Method::Post,
            CREATE_ORDER_URL@,
            Some(token@),
            seq![],
            Some(
                attached(
                    create_order_fields(
                        action,
                        None,
                        client_order_id,
                        count,
                        None,
                        None,
                        None,
                        side,
                        ticker,
                        type_,
                        None,
                    ),
                ),
            ),
        ),
        reply is Answered,
        is_success(reply->status),
        parsed(reply->body@) matches Some(document) && CreateOrderResponse::fits(document)
            && echoes(document, request@.body->0),
        stands_for(reply, r),
    ensures
        r matches Ok(response) && response.order.ticker@ == ticker@ && response.order.side@
            == side@ && response.order.action@ == action@,
{
    let set = create_order_fields(
        action,
        None,
        client_order_id,
        count,
        None,
        None,
        None,
        side,
        ticker,
        type_,
        None,
    );
    lemma_create_order_fields_distinct(
        action,
        None,
        client_order_id,
        count,
        None,
        None,
        None,
        side,
        ticker,
        type_,
        None,
    );
    let order = parsed(reply->body@)->0.at("order"@)->0;
    let echoed_ticker = order.at("ticker"@)->0->Text_0@;
    let echoed_side = order.at("side"@)->0->Text_0@;
    let echoed_action = order.at("action"@)->0->Text_0@;
    lemma_attached_exactly_the_set(set, "ticker"@, echoed_ticker);
    lemma_attached_exactly_the_set(set, "side"@, echoed_side);
    lemma_attached_exactly_the_set(set, "action"@, echoed_action);
    assert(set[4] == ("ticker"@, Some(ticker@)));
    assert(set[3] == ("side"@, Some(side@)));
    assert(set[0] == ("action"@, Some(action@)));
}

/// The optional parameters of a listing of orders.
pub open spec fn get_orders_params(
    ticker: Option<&str>,
    event_ticker: Option<&str>,
    min_ts: Option<i64>,
    max_ts: Option<i64>,
    status: Option<&str>,
    cursor: Option<&str>,
    limit: Option<i32>,
) -> Seq<(Seq<char>, Option<Seq<char>>)> {
    seq![
        ("ticker"@, text(ticker)),
        ("event_ticker"@, text(event_ticker)),
        ("min_ts"@, number(min_ts)),
        ("max_ts"@, number(max_ts)),
        ("status"@, text(status)),
        ("cursor"@, text(cursor)),
        ("limit"@, number32(limit)),
    ]
}

/// No parameter of a listing of orders is named twice, so each goes out
/// exactly when it is set.
pub proof fn lemma_get_orders_params_distinct(
    ticker: Option<&str>,
    event_ticker: Option<&str>,
    min_ts: Option<i64>,
    max_ts: Option<i64>,
    status: Option<&str>,
    cursor: Option<&str>,
    limit: Option<i32>,
)
    ensures
        distinct_names(
            get_orders_params(
                ticker,
                event_ticker,
                min_ts,
                max_ts,
                status,
                cursor,
                limit,
            ),
        ),
{
    reveal_strlit("ticker");
    reveal_strlit("event_ticker");
    reveal_strlit("min_ts");
    reveal_strlit("max_ts");
    reveal_strlit("status");
    reveal_strlit("cursor");
    reveal_strlit("limit");
    assert("ticker"@[0] != "min_ts"@[0]);
    assert("ticker"@[0] != "max_ts"@[0]);
    assert("ticker"@[0] != "status"@[0]);
    assert("ticker"@[0] != "cursor"@[0]);
    assert("min_ts"@[1] != "max_ts"@[1]);
    assert("min_ts"@[0] != "status"@[0]);
    assert("min_ts"@[0] != "cursor"@[0]);
    assert("max_ts"@[0] != "status"@[0]);
    assert("max_ts"@[0] != "cursor"@[0]);
    assert("status"@[0] != "cursor"@[0]);
    let set = get_orders_params(ticker, event_ticker, min_ts, max_ts, status, cursor, limit);
    assert(set[0].0 == "ticker"@);
    assert(set[1].0 == "event_ticker"@);
    assert(set[2].0 == "min_ts"@);
    assert(set[3].0 == "max_ts"@);
    assert(set[4].0 == "status"@);
    assert(set[5].0 == "cursor"@);
    assert(set[6].0 == "limit"@);
}

/// The request for one page of the account's orders.
pub fn get_orders_request(
    token: &str,
    ticker: Option<&str>,
    event_ticker: Option<&str>,
    min_ts: Option<i64>,
    max_ts: Option<i64>,
    status: Option<&str>,
    cursor: Option<&str>,
    limit: Option<i32>,
) -> (r: Request)
    ensures
        r@ == call(
            Method::Get,
            GET_ORDERS_URL@,
            Some(token@),
            attached(
                get_orders_params(ticker, event_ticker, min_ts, max_ts, status, cursor, limit),
            ),
            None,
        ),
{
    let query = ParamSet::new().text("ticker", ticker).text("event_ticker", event_ticker).i64(
        "min_ts",
        min_ts,
    ).i64("max_ts", max_ts).text("status", status).text("cursor", cursor).i32("limit", limit);
    assert(query@ =~= get_orders_params(
        ticker,
        event_ticker,
        min_ts,
        max_ts,
        status,
        cursor,
        limit,
    ));
    Request::new(Method::Get, GET_ORDERS_URL.to_owned(), Some(token)).with_query(query)
}

/// One page of the account's orders.
pub fn get_orders_response(reply: Reply) -> (r: Result<GetOrdersResponse, ApiError>)
    ensures
        stands_for(reply, r),
{
    normalize(reply)
}

/// The optional parameters of a listing of positions.
pub open spec fn get_positions_params(
    cursor: Option<&str>,
    limit: Option<i32>,
    settlement_status: Option<&str>,
    ticker: Option<&str>,
    event_ticker: Option<&str>,
) -> Seq<(Seq<char>, Option<Seq<char>>)> {
    seq![
        ("cursor"@, text(cursor)),
        ("limit"@, number32(limit)),
        ("settlement_status"@, text(settlement_status)),
        ("ticker"@, text(ticker)),
        ("event_ticker"@, text(event_ticker)),
    ]
}

/// No parameter of a listing of positions is named twice, so each goes out
/// exactly when it is set.
pub proof fn lemma_get_positions_params_distinct(
    cursor: Option<&str>,
    limit: Option<i32>,
    settlement_status: Option<&str>,
    ticker: Option<&str>,
    event_ticker: Option<&str>,
)
    ensures
        distinct_names(
            get_positions_params(
                cursor,
                limit,
                settlement_status,
                ticker,
                event_ticker,
            ),
        ),
{
    reveal_strlit("cursor");
    reveal_strlit("limit");
    reveal_strlit("settlement_status");
    reveal_strlit("ticker");
    reveal_strlit("event_ticker");
    assert("cursor"@[0] != "ticker"@[0]);
    let set = get_positions_params(cursor, limit, settlement_status, ticker, event_ticker);
    assert(set[0].0 == "cursor"@);
    assert(set[1].0 == "limit"@);
    assert(set[2].0 == "settlement_status"@);
    assert(set[3].0 == "ticker"@);
    assert(set[4].0 == "event_ticker"@);
}

/// The request for one page of the account's positions.
pub fn get_positions_request(
    token: &str,
    cursor: Option<&str>,
    limit: Option<i32>,
    settlement_status: Option<&str>,
    ticker: Option<&str>,
    event_ticker: Option<&str>,
) -> (r: Request)
    ensures
        r@ == call(
            Method::Get,
            GET_POSITIONS_URL@,
            Some(token@),
            attached(get_positions_params(cursor, limit, settlement_status, ticker, event_ticker)),
            None,
        ),
{
    let query = ParamSet::new().text("cursor", cursor).i32("limit", limit).text(
        "settlement_status",
        settlement_status,
    ).text("ticker", ticker).text("event_ticker", event_ticker);
    assert(query@ =~= get_positions_params(cursor, limit, settlement_status, ticker, event_ticker));
    Request::new(Method::Get, GET_POSITIONS_URL.to_owned(), Some(token)).with_query(query)
}

/// One page of the account's positions.
pub fn get_positions_response(reply: Reply) -> (r: Result<GetPositionsResponse, ApiError>)
    ensures
        stands_for(reply, r),
{
    normalize(reply)
}

/// The optional parameters of a listing of fills.
pub open spec fn get_fills_params(
    ticker: Option<&str>,
    order_id: Option<&str>,
    min_ts: Option<i64>,
    max_ts: Option<i64>,
    limit: Option<i32>,
    cursor: Option<&str>,
) -> Seq<(Seq<char>, Option<Seq<char>>)> {
    seq![
        ("ticker"@, text(ticker)),
        ("order_id"@, text(order_id)),
        ("min_ts"@, number(min_ts)),
        ("max_ts"@, number(max_ts)),
        ("limit"@, number32(limit)),
        ("cursor"@, text(cursor)),
    ]
}

/// No parameter of a listing of fills is named twice, so each goes out
/// exactly when it is set.
pub proof fn lemma_get_fills_params_distinct(
    ticker: Option<&str>,
    order_id: Option<&str>,
    min_ts: Option<i64>,
    max_ts: Option<i64>,
    limit: Option<i32>,
    cursor: Option<&str>,
)
    ensures
        distinct_names(get_fills_params(ticker, order_id, min_ts, max_ts, limit, cursor)),
{
    reveal_strlit("ticker");
    reveal_strlit("order_id");
    reveal_strlit("min_ts");
    reveal_strlit("max_ts");
    reveal_strlit("limit");
    reveal_strlit("cursor");
    assert("ticker"@[0] != "min_ts"@[0]);
    assert("ticker"@[0] != "max_ts"@[0]);
    assert("ticker"@[0] != "cursor"@[0]);
    assert("min_ts"@[1] != "max_ts"@[1]);
    assert("min_ts"@[0] != "cursor"@[0]);
    assert("max_ts"@[0] != "cursor"@[0]);
    let set = get_fills_params(ticker, order_id, min_ts, max_ts, limit, cursor);
    assert(set[0].0 == "ticker"@);
    assert(set[1].0 == "order_id"@);
    assert(set[2].0 == "min_ts"@);
    assert(set[3].0 == "max_ts"@);
    assert(set[4].0 == "limit"@);
    assert(set[5].0 == "cursor"@);
}

/// The request for one page of the account's fills.
pub fn get_fills_request(
    token: &str,
    ticker: Option<&str>,
    order_id: Option<&str>,
    min_ts: Option<i64>,
    max_ts: Option<i64>,
    limit: Option<i32>,
    cursor: Option<&str>,
) -> (r: Request)
    ensures
        r@ == call(
            Method::Get,
            GET_FILLS_URL@,
            Some(token@),
            attached(get_fills_params(ticker, order_id, min_ts, max_ts, limit, cursor)),
            None,
        ),
{
    let query = ParamSet::new().text("ticker", ticker).text("order_id", order_id).i64(
        "min_ts",
        min_ts,
    ).i64("max_ts", max_ts).i32("limit", limit).text("cursor", cursor);
    assert(query@ =~= get_fills_params(ticker, order_id, min_ts, max_ts, limit, cursor));
    Request::new(Method::Get, GET_FILLS_URL.to_owned(), Some(token)).with_query(query)
}

/// One page of the account's fills.
pub fn get_fills_response(reply: Reply) -> (r: Result<GetFillsResponse, ApiError>)
    ensures
        stands_for(reply, r),
{
    normalize(reply)
}

/// The optional parameters of a listing of settlements.
pub open spec fn get_settlements_params(limit: Option<i64>, cursor: Option<String>) -> Seq<
    (Seq<char>, Option<Seq<char>>),
> {
    seq![("limit"@, number(limit)), ("cursor"@, owned(cursor))]
}

/// No parameter of a listing of settlements is named twice, so each goes out
/// exactly when it is set.
pub proof fn lemma_get_settlements_params_distinct(limit: Option<i64>, cursor: Option<String>)
    ensures
        distinct_names(get_settlements_params(limit, cursor)),
{
    reveal_strlit("limit");
    reveal_strlit("cursor");
    let set = get_settlements_params(limit, cursor);
    assert(set[0].0 == "limit"@);
    assert(set[1].0 == "cursor"@);
}

/// The request for one page of the account's settlements.
pub fn get_settlements_request(token: &str, limit: Option<i64>, cursor: Option<String>) -> (r:
    Request)
    ensures
        r@ == call(
            Method::Get,
            GET_SETTLEMENTS_URL@,
            Some(token@),
            attached(get_settlements_params(limit, cursor)),
            None,
        ),
{
    let query = ParamSet::new().i64("limit", limit);
    let query = match &cursor {
        Some(c) => query.text("cursor", Some(c.as_str())),
        None => query.text("cursor", None),
    };
    assert(query@ =~= get_settlements_params(limit, cursor));
    Request::new(Method::Get, GET_SETTLEMENTS_URL.to_owned(), Some(token)).with_query(query)
}

/// One page of the account's settlements.
pub fn get_settlements_response(reply: Reply) -> (r: Result<GetSettlementsResponse, ApiError>)
    ensures
        stands_for(reply, r),
{
    normalize(reply)
}

/// The request that cancels the order `order_id`.
pub fn cancel_order_request(token: &str, order_id: &str) -> (r: Result<Request, ApiError>)
    ensures
        is_call_to(r, Method::Delete, joined(CANCEL_ORDER_URL@, order_id@), token@),
{
    Request::for_resource(Method::Delete, CANCEL_ORDER_URL, order_id, token)
}

/// The order after its cancellation, with the quantity by which it was
/// reduced.
pub fn cancel_order_response(reply: Reply) -> (r: Result<CancelOrderResponse, ApiError>)
    ensures
        stands_for(reply, r),
{
    normalize(reply)
}

/// The request for the account's balance.
pub fn get_balance_request(token: &str) -> (r: Request)
    ensures
        r@ == call(Method::Get, GET_BALANCE_URL@, Some(token@), seq![], None),
{
    Request::new(Method::Get, GET_BALANCE_URL.to_owned(), Some(token))
}

/// The account's balance.
pub fn get_balance_response(reply: Reply) -> (r: Result<Balance, ApiError>)
    ensures
        stands_for(reply, r),
{
    normalize(reply)
}

/// The request for the order `order_id`.
pub fn get_order_request(token: &str, order_id: &str) -> (r: Result<Request, ApiError>)
    ensures
        is_call_to(r, Method::Get, joined(GET_ORDER_URL@, order_id@), token@),
{
    Request::for_resource(Method::Get, GET_ORDER_URL, order_id, token)
}

/// One order of the account.
pub fn get_order_response(reply: Reply) -> (r: Result<GetOrderResponse, ApiError>)
    ensures
        stands_for(reply, r),
{
    normalize(reply)
}

} // verus!
