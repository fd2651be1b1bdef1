//! The records of the event and market endpoints. Prices are in cents.

use crate::decode::{field, field_holds, has_field, FromJson};
use crate::json::Json;
use vstd::prelude::*;

verus! {

/// A group of markets. `event_ticker` identifies the event.
#[derive(Clone, Debug, PartialEq, Eq)]
pub struct Event {
    pub category: String,
    pub event_ticker: String,
    pub mutually_exclusive: bool,
    pub series_ticker: String,
    pub strike_period: String,
    pub sub_title: String,
    pub title: String,
}

impl FromJson for Event {
    open spec fn fits(json: Json) -> bool {
        &&& has_field::<String>(json, "category"@)
        &&& has_field::<String>(json, "event_ticker"@)
        &&& has_field::<bool>(json, "mutually_exclusive"@)
        &&& has_field::<String>(json, "series_ticker"@)
        &&& has_field::<String>(json, "strike_period"@)
        &&& has_field::<String>(json, "sub_title"@)
        &&& has_field::<String>(json, "title"@)
    }

    open spec fn read_from(&self, json: Json) -> bool {
        &&& field_holds(self.category, json, "category"@)
        &&& field_holds(self.event_ticker, json, "event_ticker"@)
        &&& field_holds(self.mutually_exclusive, json, "mutually_exclusive"@)
        &&& field_holds(self.series_ticker, json, "series_ticker"@)
        &&& field_holds(self.strike_period, json, "strike_period"@)
        &&& field_holds(self.sub_title, json, "sub_title"@)
        &&& field_holds(self.title, json, "title"@)
    }

    fn from_json(json: &Json) -> (r: Option<Self>) {
        Some(Event {
            category: field(json, "category")?,
            event_ticker: field(json, "event_ticker")?,
            mutually_exclusive: field(json, "mutually_exclusive")?,
            series_ticker: field(json, "series_ticker")?,
            strike_period: field(json, "strike_period")?,
            sub_title: field(json, "sub_title")?,
            title: field(json, "title")?,
        })
    }
}

/// One market of an event. `ticker` identifies the market; `event_ticker` names
/// the event it belongs to.
#[derive(Clone, Debug, PartialEq, Eq)]
pub struct Market {
    pub can_close_early: bool,
    pub category: String,
    pub close_time: String,
    pub event_ticker: String,
    pub expiration_time: String,
    pub expiration_value: String,
    pub floor_strike: i32,
    pub last_price: i32,
    pub liquidity: i32,
    pub no_ask: i32,
    pub no_bid: i32,
    pub open_interest: i32,
    pub open_time: String,
    pub previous_price: i32,
    pub previous_yes_ask: i32,
    pub previous_yes_bid: i32,
    pub result: String,
    pub risk_limit_cents: i32,
    pub strike_type: String,
    pub subtitle: String,
    pub ticker: String,
    pub volume: i32,
    pub volume_24h: i32,
    pub yes_ask: i32,
    pub yes_bid: i32,
}

impl FromJson for Market {
    open spec fn fits(json: Json) -> bool {
        &&& has_field::<bool>(json, "can_close_early"@)
        &&& has_field::<String>(json, "category"@)
        &&& has_field::<String>(json, "close_time"@)
        &&& has_field::<String>(json, "event_ticker"@)
        &&& has_field::<String>(json, "expiration_time"@)
        &&& has_field::<String>(json, "expiration_value"@)
        &&& has_field::<i32>(json, "floor_strike"@)
        &&& has_field::<i32>(json, "last_price"@)
        &&& has_field::<i32>(json, "liquidity"@)
        &&& has_field::<i32>(json, "no_ask"@)
        &&& has_field::<i32>(json, "no_bid"@)
        &&& has_field::<i32>(json, "open_interest"@)
        &&& has_field::<String>(json, "open_time"@)
        &&& has_field::<i32>(json, "previous_price"@)
        &&& has_field::<i32>(json, "previous_yes_ask"@)
        &&& has_field::<i32>(json, "previous_yes_bid"@)
        &&& has_field::<String>(json, "result"@)
        &&& has_field::<i32>(json, "risk_limit_cents"@)
        &&& has_field::<String>(json, "strike_type"@)
        &&& has_field::<String>(json, "subtitle"@)
        &&& has_field::<String>(json, "ticker"@)
        &&& has_field::<i32>(json, "volume"@)
        &&& has_field::<i32>(json, "volume_24h"@)
        &&& has_field::<i32>(json, "yes_ask"@)
        &&& has_field::<i32>(json, "yes_bid"@)
    }

    open spec fn read_from(&self, json: Json) -> bool {
        &&& field_holds(self.can_close_early, json, "can_close_early"@)
        &&& field_holds(self.category, json, "category"@)
        &&& field_holds(self.close_time, json, "close_time"@)
        &&& field_holds(self.event_ticker, json, "event_ticker"@)
        &&& field_holds(self.expiration_time, json, "expiration_time"@)
        &&& field_holds(self.expiration_value, json, "expiration_value"@)
        &&& field_holds(self.floor_strike, json, "floor_strike"@)
        &&& field_holds(self.last_price, json, "last_price"@)
        &&& field_holds(self.liquidity, json, "liquidity"@)
        &&& field_holds(self.no_ask, json, "no_ask"@)
        &&& field_holds(self.no_bid, json, "no_bid"@)
        &&& field_holds(self.open_interest, json, "open_interest"@)
        &&& field_holds(self.open_time, json, "open_time"@)
        &&& field_holds(self.previous_price, json, "previous_price"@)
        &&& field_holds(self.previous_yes_ask, json, "previous_yes_ask"@)
        &&& field_holds(self.previous_yes_bid, json, "previous_yes_bid"@)
        &&& field_holds(self.result, json, "result"@)
        &&& field_holds(self.risk_limit_cents, json, "risk_limit_cents"@)
        &&& field_holds(self.strike_type, json, "strike_type"@)
        &&& field_holds(self.subtitle, json, "subtitle"@)
        &&& field_holds(self.ticker, json, "ticker"@)
        &&& field_holds(self.volume, json, "volume"@)
        &&& field_holds(self.volume_24h, json, "volume_24h"@)
        &&& field_holds(self.yes_ask, json, "yes_ask"@)
        &&& field_holds(self.yes_bid, json, "yes_bid"@)
    }

    fn from_json(json: &Json) -> (r: Option<Self>) {
        Some(Market {
            can_close_early: field(json, "can_close_early")?,
            category: field(json, "category")?,
            close_time: field(json, "close_time")?,
            event_ticker: field(json, "event_ticker")?,
            expiration_time: field(json, "expiration_time")?,
            expiration_value: field(json, "expiration_value")?,
            floor_strike: field(json, "floor_strike")?,
            last_price: field(json, "last_price")?,
            liquidity: field(json, "liquidity")?,
            no_ask: field(json, "no_ask")?,
            no_bid: field(json, "no_bid")?,
            open_interest: field(json, "open_interest")?,
            open_time: field(json, "open_time")?,
            previous_price: field(json, "previous_price")?,
            previous_yes_ask: field(json, "previous_yes_ask")?,
            previous_yes_bid: field(json, "previous_yes_bid")?,
            result: field(json, "result")?,
            risk_limit_cents: field(json, "risk_limit_cents")?,
            strike_type: field(json, "strike_type")?,
            subtitle: field(json, "subtitle")?,
            ticker: field(json, "ticker")?,
            volume: field(json, "volume")?,
            volume_24h: field(json, "volume_24h")?,
            yes_ask: field(json, "yes_ask")?,
            yes_bid: field(json, "yes_bid")?,
        })
    }
}

/// The resting orders of one market at the time of one request. Each level is a
/// list of integers, a price followed by a count.
#[derive(Clone, Debug, PartialEq, Eq)]
pub struct Orderbook {
    pub no: Vec<Vec<i32>>,
    pub yes: Vec<Vec<i32>>,
}

impl FromJson for Orderbook {
    open spec fn fits(json: Json) -> bool {
        &&& has_field::<Vec<Vec<i32>>>(json, "no"@)
        &&& has_field::<Vec<Vec<i32>>>(json, "yes"@)
    }

    open spec fn read_from(&self, json: Json) -> bool {
        &&& field_holds(self.no, json, "no"@)
        &&& field_holds(self.yes, json, "yes"@)
    }

    fn from_json(json: &Json) -> (r: Option<Self>) {
        Some(Orderbook {
            no: field(json, "no")?,
            yes: field(json, "yes")?,
        })
    }
}

/// An event with its markets.
#[derive(Clone, Debug, PartialEq, Eq)]
pub struct GetEventResponse {
    pub event: Event,
    pub markets: Vec<Market>,
}

impl FromJson for GetEventResponse {
    open spec fn fits(json: Json) -> bool {
        &&& has_field::<Event>(json, "event"@)
        &&& has_field::<Vec<Market>>(json, "markets"@)
    }

    open spec fn read_from(&self, json: Json) -> bool {
        &&& field_holds(self.event, json, "event"@)
        &&& field_holds(self.markets, json, "markets"@)
    }

    fn from_json(json: &Json) -> (r: Option<Self>) {
        Some(GetEventResponse {
            event: field(json, "event")?,
            markets: field(json, "markets")?,
        })
    }
}

/// One page of events, with the cursor for the next page. An empty cursor means
/// that there is no further page.
#[derive(Clone, Debug, PartialEq, Eq)]
pub struct GetEventsResponse {
    pub cursor: String,
    pub events: Vec<Event>,
}

impl FromJson for GetEventsResponse {
    open spec fn fits(json: Json) -> bool {
        &&& has_field::<String>(json, "cursor"@)
        &&& has_field::<Vec<Event>>(json, "events"@)
    }

    open spec fn read_from(&self, json: Json) -> bool {
        &&& field_holds(self.cursor, json, "cursor"@)
        &&& field_holds(self.events, json, "events"@)
    }

    fn from_json(json: &Json) -> (r: Option<Self>) {
        Some(GetEventsResponse {
            cursor: field(json, "cursor")?,
            events: field(json, "events")?,
        })
    }
}

impl GetEventsResponse {
    /// A page that carries events and a cursor cannot be taken for the end of
    /// the listing. The response read from a document has as many events as the
    /// document lists and the document's cursor, so the response read from a
    /// document with events differs from the one read from a document that
    /// lists none and has the empty cursor.
    pub proof fn lemma_page_differs_from_end(page: Self, page_json: Json, end: Self, end_json: Json)
        requires
            page.read_from(page_json),
            end.read_from(end_json),
            page_json.at("events"@) matches Some(Json::Array(items)) && items@.len() > 0,
            end_json.at("events"@) matches Some(Json::Array(items)) && items@.len() == 0,
            end_json.at("cursor"@) matches Some(Json::Text(cursor)) && cursor@.len() == 0,
        ensures
            page.events@.len() > 0,
            end.events@.len() == 0,
            end.cursor@.len() == 0,
            page != end,
    {
    }
}

/// One market.
#[derive(Clone, Debug, PartialEq, Eq)]
pub struct GetMarketResponse {
    pub market: Market,
}

impl FromJson for GetMarketResponse {
    open spec fn fits(json: Json) -> bool {
        has_field::<Market>(json, "market"@)
    }

    open spec fn read_from(&self, json: Json) -> bool {
        field_holds(self.market, json, "market"@)
    }

    fn from_json(json: &Json) -> (r: Option<Self>) {
        Some(GetMarketResponse { market: field(json, "market")? })
    }
}

/// One page of markets, with the cursor for the next page. An empty cursor
/// means that there is no further page.
#[derive(Clone, Debug, PartialEq, Eq)]
pub struct GetMarketsResponse {
    pub cursor: String,
    pub markets: Vec<Market>,
}

impl FromJson for GetMarketsResponse {
    open spec fn fits(json: Json) -> bool {
        &&& has_field::<String>(json, "cursor"@)
        &&& has_field::<Vec<Market>>(json, "markets"@)
    }

    open spec fn read_from(&self, json: Json) -> bool {
        &&& field_holds(self.cursor, json, "cursor"@)
        &&& field_holds(self.markets, json, "markets"@)
    }

    fn from_json(json: &Json) -> (r: Option<Self>) {
        Some(GetMarketsResponse {
            cursor: field(json, "cursor")?,
            markets: field(json, "markets")?,
        })
    }
}

impl GetMarketsResponse {
    /// A page that carries markets and a cursor cannot be taken for the end of
    /// the listing. The response read from a document has as many markets as
    /// the document lists and the document's cursor, so the response read from
    /// a document with markets differs from the one read from a document that
    /// lists none and has the empty cursor.
    pub proof fn lemma_page_differs_from_end(page: Self, page_json: Json, end: Self, end_json: Json)
        requires
            page.read_from(page_json),
            end.read_from(end_json),
            page_json.at("markets"@) matches Some(Json::Array(items)) && items@.len() > 0,
            end_json.at("markets"@) matches Some(Json::Array(items)) && items@.len() == 0,
            end_json.at("cursor"@) matches Some(Json::Text(cursor)) && cursor@.len() == 0,
        ensures
            page.markets@.len() > 0,
            end.markets@.len() == 0,
            end.cursor@.len() == 0,
            page != end,
    {
    }
}

/// The order book of one market.
#[derive(Clone, Debug, PartialEq, Eq)]
pub struct GetMarketOrderbookResponse {
    pub orderbook: Orderbook,
}

impl FromJson for GetMarketOrderbookResponse {
    open spec fn fits(json: Json) -> bool {
        has_field::<Orderbook>(json, "orderbook"@)
    }

    open spec fn read_from(&self, json: Json) -> bool {
        field_holds(self.orderbook, json, "orderbook"@)
    }

    fn from_json(json: &Json) -> (r: Option<Self>) {
        Some(GetMarketOrderbookResponse { orderbook: field(json, "orderbook")? })
    }
}

} // verus!
