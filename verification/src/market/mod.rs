//! The event and market endpoints. Every call is authenticated.

use crate::params::{attached, distinct_names, number, number32, text, ParamSet};
use crate::request::{call, is_call_to, joined, Method, Request, INVALID_TARGET};
use crate::response::{normalize, stands_for, ApiError, Reply};
use vstd::prelude::*;

pub use crate::market::api_structs::{
    Event, GetEventResponse, GetEventsResponse, GetMarketOrderbookResponse, GetMarketResponse,
    GetMarketsResponse, Market, Orderbook,
};

pub mod api_structs;

verus! {

/// Under which an event is fetched by its ticker.
pub const GET_EVENT_URL: &'static str = "https://trading-api.kalshi.com/trade-api/v2/events/";

/// Where events are listed.
pub const GET_EVENTS_URL: &'static str = "https://trading-api.kalshi.com/trade-api/v2/events/";

/// Under which a market is fetched by its ticker.
pub const GET_MARKET_URL: &'static str = "https://trading-api.kalshi.com/trade-api/v2/markets/";

/// Where markets are listed.
pub const GET_MARKETS_URL: &'static str = "https://trading-api.kalshi.com/trade-api/v2/markets/";

/// What follows a market's ticker in the target of its order book.
pub const MARKET_ORDERBOOK_SUFFIX: &'static str = "/orderbook";

/// The optional parameters of a listing of markets, and the event that the
/// listing is for.
pub open spec fn get_markets_params(
    limit: Option<i64>,
    cursor: Option<&str>,
    event_ticker: &str,
    series_ticker: Option<&str>,
    max_close_ts: Option<i64>,
    min_close_ts: Option<i64>,
    status: Option<&str>,
    tickers: Option<&str>,
) -> Seq<(Seq<char>, Option<Seq<char>>)> {
    seq![
        ("limit"@, number(limit)),
        ("cursor"@, text(cursor)),
        ("series_ticker"@, text(series_ticker)),
        ("max_close_ts"@, number(max_close_ts)),
        ("min_close_ts"@, number(min_close_ts)),
        ("status"@, text(status)),
        ("tickers"@, text(tickers)),
        ("event_ticker"@, Some(event_ticker@)),
    ]
}

/// No parameter of a listing of markets is named twice, so each goes out
/// exactly when it is set.
pub proof fn lemma_get_markets_params_distinct(
    limit: Option<i64>,
    cursor: Option<&str>,
    event_ticker: &str,
    series_ticker: Option<&str>,
    max_close_ts: Option<i64>,
    min_close_ts: Option<i64>,
    status: Option<&str>,
    tickers: Option<&str>,
)
    ensures
        distinct_names(
            get_markets_params(
                limit,
                cursor,
                event_ticker,
                series_ticker,
                max_close_ts,
                min_close_ts,
                status,
                tickers,
            ),
        ),
{
    reveal_strlit("limit");
    reveal_strlit("cursor");
    reveal_strlit("series_ticker");
    reveal_strlit("max_close_ts");
    reveal_strlit("min_close_ts");
    reveal_strlit("status");
    reveal_strlit("tickers");
    reveal_strlit("event_ticker");
    assert("cursor"@[0] != "status"@[0]);
    assert("max_close_ts"@[1] != "min_close_ts"@[1]);
    assert("max_close_ts"@[0] != "event_ticker"@[0]);
    assert("min_close_ts"@[0] != "event_ticker"@[0]);
    let set = get_markets_params(
        limit,
        cursor,
        event_ticker,
        series_ticker,
        max_close_ts,
        min_close_ts,
        status,
        tickers,
    );
    assert(set[0].0 == "limit"@);
    assert(set[1].0 == "cursor"@);
    assert(set[2].0 == "series_ticker"@);
    assert(set[3].0 == "max_close_ts"@);
    assert(set[4].0 == "min_close_ts"@);
    assert(set[5].0 == "status"@);
    assert(set[6].0 == "tickers"@);
    assert(set[7].0 == "event_ticker"@);
}

/// The request for one page of the markets of the event `event_ticker`.
/// `status` is one of open, closed and settled; `tickers` is a list
/// separated by commas.
pub fn get_markets_request(
    token: &str,
    limit: Option<i64>,
    cursor: Option<&str>,
    event_ticker: &str,
    series_ticker: Option<&str>,
    max_close_ts: Option<i64>,
    min_close_ts: Option<i64>,
    status: Option<&str>,
    tickers: Option<&str>,
) -> (r: Request)
    ensures
        r@ == call(
            Method::Get,
            GET_MARKETS_URL@,
            Some(token@),
            attached(
                get_markets_params(
                    limit,
                    cursor,
                    event_ticker,
                    series_ticker,
                    max_close_ts,
                    min_close_ts,
                    status,
                    tickers,
                ),
            ),
            None,
        ),
{
    let query = ParamSet::new().i64("limit", limit).text("cursor", cursor).text(
        "series_ticker",
        series_ticker,
    ).i64("max_close_ts", max_close_ts).i64("min_close_ts", min_close_ts).text(
        "status",
        status,
    ).text("tickers", tickers).required("event_ticker", event_ticker);
    assert(query@ =~= get_markets_params(
        limit,
        cursor,
        event_ticker,
        series_ticker,
        max_close_ts,
        min_close_ts,
        status,
        tickers,
    ));
    Request::new(Method::Get, GET_MARKETS_URL.to_owned(), Some(token)).with_query(query)
}

/// One page of markets.
pub fn get_markets_response(reply: Reply) -> (r: Result<GetMarketsResponse, ApiError>)
    ensures
        stands_for(reply, r),
{
    normalize(reply)
}

/// The optional parameters of a listing of events.
pub open spec fn get_events_params(
    limit: Option<i64>,
    cursor: Option<&str>,
    status: Option<&str>,
    series_ticker: Option<&str>,
) -> Seq<(Seq<char>, Option<Seq<char>>)> {
    seq![
        ("limit"@, number(limit)),
        ("cursor"@, text(cursor)),
        ("status"@, text(status)),
        ("series_ticker"@, text(series_ticker)),
    ]
}

/// No parameter of a listing of events is named twice, so each goes out
/// exactly when it is set.
pub proof fn lemma_get_events_params_distinct(
    limit: Option<i64>,
    cursor: Option<&str>,
    status: Option<&str>,
    series_ticker: Option<&str>,
)
    ensures
        distinct_names(get_events_params(limit, cursor, status, series_ticker)),
{
    reveal_strlit("limit");
    reveal_strlit("cursor");
    reveal_strlit("status");
    reveal_strlit("series_ticker");
    assert("cursor"@[0] != "status"@[0]);
    let set = get_events_params(limit, cursor, status, series_ticker);
    assert(set[0].0 == "limit"@);
    assert(set[1].0 == "cursor"@);
    assert(set[2].0 == "status"@);
    assert(set[3].0 == "series_ticker"@);
}

/// The request for one page of events. `status` is one of open, closed and
/// settled.
pub fn get_events_request(
    token: &str,
    limit: Option<i64>,
    cursor: Option<&str>,
    status: Option<&str>,
    series_ticker: Option<&str>,
) -> (r: Request)
    ensures
        r@ == call(
            Method::Get,
            GET_EVENTS_URL@,
            Some(token@),
            attached(get_events_params(limit, cursor, status, series_ticker)),
            None,
        ),
{
    let query = ParamSet::new().i64("limit", limit).text("cursor", cursor).text(
        "status",
        status,
    ).text("series_ticker", series_ticker);
    assert(query@ =~= get_events_params(limit, cursor, status, series_ticker));
    Request::new(Method::Get, GET_EVENTS_URL.to_owned(), Some(token)).with_query(query)
}

/// One page of events.
pub fn get_events_response(reply: Reply) -> (r: Result<GetEventsResponse, ApiError>)
    ensures
        stands_for(reply, r),
{
    normalize(reply)
}

/// The one optional parameter of an order book: how many price levels to
/// return per side.
pub open spec fn get_market_orderbook_params(depth: Option<i32>) -> Seq<
    (Seq<char>, Option<Seq<char>>),
> {
    seq![("depth"@, number32(depth))]
}

/// The request for the order book of the market `market_ticker`. With
/// `depth` unset the exchange applies its own default; a depth that is set
/// is sent as it is, zero too.
pub fn get_market_orderbook_request(market_ticker: &str, depth: Option<i32>, token: &str) -> (r:
    Result<Request, ApiError>)
    ensures
        match joined(GET_MARKET_URL@, market_ticker@ + MARKET_ORDERBOOK_SUFFIX@) {
            Some(url) => r matches Ok(request) && request@ == call(
                Method::Get,
                url,
                Some(token@),
                attached(get_market_orderbook_params(depth)),
                None,
            ),
            None => r matches Err(ApiError::Transport(cause)) && cause@ == INVALID_TARGET@,
        },
{
    let mut segment = market_ticker.to_owned();
    segment.append(MARKET_ORDERBOOK_SUFFIX);
    match Request::for_resource(Method::Get, GET_MARKET_URL, segment.as_str(), token) {
        Ok(request) => {
            let query = ParamSet::new().i32("depth", depth);
            Ok(request.with_query(query))
        },
        Err(e) => Err(e),
    }
}

/// The order book of one market.
pub fn get_market_orderbook_response(reply: Reply) -> (r: Result<
    GetMarketOrderbookResponse,
    ApiError,
>)
    ensures
        stands_for(reply, r),
{
    normalize(reply)
}

/// The request for the event `event_ticker` with its markets.
pub fn get_event_request(event_ticker: &str, token: &str) -> (r: Result<Request, ApiError>)
    ensures
        is_call_to(r, Method::Get, joined(GET_EVENT_URL@, event_ticker@), token@),
{
    Request::for_resource(Method::Get, GET_EVENT_URL, event_ticker, token)
}

/// One event with its markets.
pub fn get_event_response(reply: Reply) -> (r: Result<GetEventResponse, ApiError>)
    ensures
        stands_for(reply, r),
{
    normalize(reply)
}

/// The request for the market `market_ticker`.
pub fn get_market_request(market_ticker: &str, token: &str) -> (r: Result<Request, ApiError>)
    ensures
        is_call_to(r, Method::Get, joined(GET_MARKET_URL@, market_ticker@), token@),
{
    Request::for_resource(Method::Get, GET_MARKET_URL, market_ticker, token)
}

/// One market.
pub fn get_market_response(reply: Reply) -> (r: Result<GetMarketResponse, ApiError>)
    ensures
        stands_for(reply, r),
{
    normalize(reply)
}

} // verus!
