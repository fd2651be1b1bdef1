//! The records of the portfolio endpoints.

use crate::decode::{field, field_holds, has_field, FromJson};
use crate::json::Json;
use vstd::prelude::*;

verus! {

/// One execution against an order. A fill never changes once it is reported.
#[derive(Clone, Debug, PartialEq, Eq)]
pub struct Fill {
    pub action: String,
    pub count: i32,
    pub created_time: String,
    pub is_taker: bool,
    pub no_price: i32,
    pub order_id: String,
    pub side: String,
    pub ticker: String,
    pub trade_id: String,
    pub yes_price: i32,
}

impl FromJson for Fill {
    open spec fn fits(json: Json) -> bool {
        &&& has_field::<String>(json, "action"@)
        &&& has_field::<i32>(json, "count"@)
        &&& has_field::<String>(json, "created_time"@)
        &&& has_field::<bool>(json, "is_taker"@)
        &&& has_field::<i32>(json, "no_price"@)
        &&& has_field::<String>(json, "order_id"@)
        &&& has_field::<String>(json, "side"@)
        &&& has_field::<String>(json, "ticker"@)
        &&& has_field::<String>(json, "trade_id"@)
        &&& has_field::<i32>(json, "yes_price"@)
    }

    open spec fn read_from(&self, json: Json) -> bool {
        &&& field_holds(self.action, json, "action"@)
        &&& field_holds(self.count, json, "count"@)
        &&& field_holds(self.created_time, json, "created_time"@)
        &&& field_holds(self.is_taker, json, "is_taker"@)
        &&& field_holds(self.no_price, json, "no_price"@)
        &&& field_holds(self.order_id, json, "order_id"@)
        &&& field_holds(self.side, json, "side"@)
        &&& field_holds(self.ticker, json, "ticker"@)
        &&& field_holds(self.trade_id, json, "trade_id"@)
        &&& field_holds(self.yes_price, json, "yes_price"@)
    }

    fn from_json(json: &Json) -> (r: Option<Self>) {
        Some(Fill {
            action: field(json, "action")?,
            count: field(json, "count")?,
            created_time: field(json, "created_time")?,
            is_taker: field(json, "is_taker")?,
            no_price: field(json, "no_price")?,
            order_id: field(json, "order_id")?,
            side: field(json, "side")?,
            ticker: field(json, "ticker")?,
            trade_id: field(json, "trade_id")?,
            yes_price: field(json, "yes_price")?,
        })
    }
}

/// The balance of the account, in cents.
#[derive(Clone, Debug, PartialEq, Eq)]
pub struct Balance {
    pub balance: i32,
}

impl FromJson for Balance {
    open spec fn fits(json: Json) -> bool {
        has_field::<i32>(json, "balance"@)
    }

    open spec fn read_from(&self, json: Json) -> bool {
        field_holds(self.balance, json, "balance"@)
    }

    fn from_json(json: &Json) -> (r: Option<Self>) {
        Some(Balance { balance: field(json, "balance")? })
    }
}

/// An order with the whole of its life so far.
///
/// `order_id` is the identity that the exchange assigned; `client_order_id` is
/// the key under which the caller submitted the order.
#[derive(Clone, Debug, PartialEq, Eq)]
pub struct Order {
    pub action: String,
    pub client_order_id: String,
    pub close_cancel_count: i32,
    pub created_time: String,
    pub decrease_count: i32,
    pub expiration_time: String,
    pub fcc_cancel_count: i32,
    pub last_update_time: String,
    pub maker_fill_count: i32,
    pub no_price: i64,
    pub order_id: String,
    pub place_count: i32,
    pub queue_position: i32,
    pub remaining_count: i32,
    pub side: String,
    pub status: String,
    pub taker_fees: i32,
    pub taker_fill_cost: i64,
    pub taker_fill_count: i64,
    pub ticker: String,
    /// Limit or market order; the member `type` of the document.
    pub type_: String,
    pub user_id: String,
    pub yes_price: i64,
}

impl FromJson for Order {
    open spec fn fits(json: Json) -> bool {
        &&& has_field::<String>(json, "action"@)
        &&& has_field::<String>(json, "client_order_id"@)
        &&& has_field::<i32>(json, "close_cancel_count"@)
        &&& has_field::<String>(json, "created_time"@)
        &&& has_field::<i32>(json, "decrease_count"@)
        &&& has_field::<String>(json, "expiration_time"@)
        &&& has_field::<i32>(json, "fcc_cancel_count"@)
        &&& has_field::<String>(json, "last_update_time"@)
        &&& has_field::<i32>(json, "maker_fill_count"@)
        &&& has_field::<i64>(json, "no_price"@)
        &&& has_field::<String>(json, "order_id"@)
        &&& has_field::<i32>(json, "place_count"@)
        &&& has_field::<i32>(json, "queue_position"@)
        &&& has_field::<i32>(json, "remaining_count"@)
        &&& has_field::<String>(json, "side"@)
        &&& has_field::<String>(json, "status"@)
        &&& has_field::<i32>(json, "taker_fees"@)
        &&& has_field::<i64>(json, "taker_fill_cost"@)
        &&& has_field::<i64>(json, "taker_fill_count"@)
        &&& has_field::<String>(json, "ticker"@)
        &&& has_field::<String>(json, "type"@)
        &&& has_field::<String>(json, "user_id"@)
        &&& has_field::<i64>(json, "yes_price"@)
    }

    open spec fn read_from(&self, json: Json) -> bool {
        &&& field_holds(self.action, json, "action"@)
        &&& field_holds(self.client_order_id, json, "client_order_id"@)
        &&& field_holds(self.close_cancel_count, json, "close_cancel_count"@)
        &&& field_holds(self.created_time, json, "created_time"@)
        &&& field_holds(self.decrease_count, json, "decrease_count"@)
        &&& field_holds(self.expiration_time, json, "expiration_time"@)
        &&& field_holds(self.fcc_cancel_count, json, "fcc_cancel_count"@)
        &&& field_holds(self.last_update_time, json, "last_update_time"@)
        &&& field_holds(self.maker_fill_count, json, "maker_fill_count"@)
        &&& field_holds(self.no_price, json, "no_price"@)
        &&& field_holds(self.order_id, json, "order_id"@)
        &&& field_holds(self.place_count, json, "place_count"@)
        &&& field_holds(self.queue_position, json, "queue_position"@)
        &&& field_holds(self.remaining_count, json, "remaining_count"@)
        &&& field_holds(self.side, json, "side"@)
        &&& field_holds(self.status, json, "status"@)
        &&& field_holds(self.taker_fees, json, "taker_fees"@)
        &&& field_holds(self.taker_fill_cost, json, "taker_fill_cost"@)
        &&& field_holds(self.taker_fill_count, json, "taker_fill_count"@)
        &&& field_holds(self.ticker, json, "ticker"@)
        &&& field_holds(self.type_, json, "type"@)
        &&& field_holds(self.user_id, json, "user_id"@)
        &&& field_holds(self.yes_price, json, "yes_price"@)
    }

    fn from_json(json: &Json) -> (r: Option<Self>) {
        Some(Order {
            action: field(json, "action")?,
            client_order_id: field(json, "client_order_id")?,
            close_cancel_count: field(json, "close_cancel_count")?,
            created_time: field(json, "created_time")?,
            decrease_count: field(json, "decrease_count")?,
            expiration_time: field(json, "expiration_time")?,
            fcc_cancel_count: field(json, "fcc_cancel_count")?,
            last_update_time: field(json, "last_update_time")?,
            maker_fill_count: field(json, "maker_fill_count")?,
            no_price: field(json, "no_price")?,
            order_id: field(json, "order_id")?,
            place_count: field(json, "place_count")?,
            queue_position: field(json, "queue_position")?,
            remaining_count: field(json, "remaining_count")?,
            side: field(json, "side")?,
            status: field(json, "status")?,
            taker_fees: field(json, "taker_fees")?,
            taker_fill_cost: field(json, "taker_fill_cost")?,
            taker_fill_count: field(json, "taker_fill_count")?,
            ticker: field(json, "ticker")?,
            type_: field(json, "type")?,
            user_id: field(json, "user_id")?,
            yes_price: field(json, "yes_price")?,
        })
    }
}

/// The account's exposure, cost and profit in one event.
#[derive(Clone, Debug, PartialEq, Eq)]
pub struct EventPosition {
    pub event_exposure: i32,
    pub event_ticker: String,
    pub fees_paid: i32,
    pub realized_pnl: i32,
    pub resting_order_count: i32,
    pub total_cost: i32,
}

impl FromJson for EventPosition {
    open spec fn fits(json: Json) -> bool {
        &&& has_field::<i32>(json, "event_exposure"@)
        &&& has_field::<String>(json, "event_ticker"@)
        &&& has_field::<i32>(json, "fees_paid"@)
        &&& has_field::<i32>(json, "realized_pnl"@)
        &&& has_field::<i32>(json, "resting_order_count"@)
        &&& has_field::<i32>(json, "total_cost"@)
    }

    open spec fn read_from(&self, json: Json) -> bool {
        &&& field_holds(self.event_exposure, json, "event_exposure"@)
        &&& field_holds(self.event_ticker, json, "event_ticker"@)
        &&& field_holds(self.fees_paid, json, "fees_paid"@)
        &&& field_holds(self.realized_pnl, json, "realized_pnl"@)
        &&& field_holds(self.resting_order_count, json, "resting_order_count"@)
        &&& field_holds(self.total_cost, json, "total_cost"@)
    }

    fn from_json(json: &Json) -> (r: Option<Self>) {
        Some(EventPosition {
            event_exposure: field(json, "event_exposure")?,
            event_ticker: field(json, "event_ticker")?,
            fees_paid: field(json, "fees_paid")?,
            realized_pnl: field(json, "realized_pnl")?,
            resting_order_count: field(json, "resting_order_count")?,
            total_cost: field(json, "total_cost")?,
        })
    }
}

/// The account's exposure, cost and profit in one market.
#[derive(Clone, Debug, PartialEq, Eq)]
pub struct MarketPosition {
    pub fees_paid: i32,
    pub market_exposure: i32,
    pub position: i64,
    pub realized_pnl: i64,
    pub resting_order_count: i64,
    pub ticker: String,
    pub total_cost: i64,
}

impl FromJson for MarketPosition {
    open spec fn fits(json: Json) -> bool {
        &&& has_field::<i32>(json, "fees_paid"@)
        &&& has_field::<i32>(json, "market_exposure"@)
        &&& has_field::<i64>(json, "position"@)
        &&& has_field::<i64>(json, "realized_pnl"@)
        &&& has_field::<i64>(json, "resting_order_count"@)
        &&& has_field::<String>(json, "ticker"@)
        &&& has_field::<i64>(json, "total_cost"@)
    }

    open spec fn read_from(&self, json: Json) -> bool {
        &&& field_holds(self.fees_paid, json, "fees_paid"@)
        &&& field_holds(self.market_exposure, json, "market_exposure"@)
        &&& field_holds(self.position, json, "position"@)
        &&& field_holds(self.realized_pnl, json, "realized_pnl"@)
        &&& field_holds(self.resting_order_count, json, "resting_order_count"@)
        &&& field_holds(self.ticker, json, "ticker"@)
        &&& field_holds(self.total_cost, json, "total_cost"@)
    }

    fn from_json(json: &Json) -> (r: Option<Self>) {
        Some(MarketPosition {
            fees_paid: field(json, "fees_paid")?,
            market_exposure: field(json, "market_exposure")?,
            position: field(json, "position")?,
            realized_pnl: field(json, "realized_pnl")?,
            resting_order_count: field(json, "resting_order_count")?,
            ticker: field(json, "ticker")?,
            total_cost: field(json, "total_cost")?,
        })
    }
}

/// The final outcome of a market for the account.
#[derive(Clone, Debug, PartialEq, Eq)]
pub struct Settlement {
    pub market_result: String,
    pub no_count: i64,
    pub no_total_cost: i64,
    pub revenue: i64,
    pub settled_time: String,
    pub ticker: String,
    pub yes_count: i64,
    pub yes_total_cost: i32,
}

impl FromJson for Settlement {
    open spec fn fits(json: Json) -> bool {
        &&& has_field::<String>(json, "market_result"@)
        &&& has_field::<i64>(json, "no_count"@)
        &&& has_field::<i64>(json, "no_total_cost"@)
        &&& has_field::<i64>(json, "revenue"@)
        &&& has_field::<String>(json, "settled_time"@)
        &&& has_field::<String>(json, "ticker"@)
        &&& has_field::<i64>(json, "yes_count"@)
        &&& has_field::<i32>(json, "yes_total_cost"@)
    }

    open spec fn read_from(&self, json: Json) -> bool {
        &&& field_holds(self.market_result, json, "market_result"@)
        &&& field_holds(self.no_count, json, "no_count"@)
        &&& field_holds(self.no_total_cost, json, "no_total_cost"@)
        &&& field_holds(self.revenue, json, "revenue"@)
        &&& field_holds(self.settled_time, json, "settled_time"@)
        &&& field_holds(self.ticker, json, "ticker"@)
        &&& field_holds(self.yes_count, json, "yes_count"@)
        &&& field_holds(self.yes_total_cost, json, "yes_total_cost"@)
    }

    fn from_json(json: &Json) -> (r: Option<Self>) {
        Some(Settlement {
            market_result: field(json, "market_result")?,
            no_count: field(json, "no_count")?,
            no_total_cost: field(json, "no_total_cost")?,
            revenue: field(json, "revenue")?,
            settled_time: field(json, "settled_time")?,
            ticker: field(json, "ticker")?,
            yes_count: field(json, "yes_count")?,
            yes_total_cost: field(json, "yes_total_cost")?,
        })
    }
}

/// One page of fills, with the cursor for the next page. An empty cursor means
/// that there is no further page.
#[derive(Clone, Debug, PartialEq, Eq)]
pub struct GetFillsResponse {
    pub cursor: String,
    pub fills: Vec<Fill>,
}

impl FromJson for GetFillsResponse {
    open spec fn fits(json: Json) -> bool {
        &&& has_field::<String>(json, "cursor"@)
        &&& has_field::<Vec<Fill>>(json, "fills"@)
    }

    open spec fn read_from(&self, json: Json) -> bool {
        &&& field_holds(self.cursor, json, "cursor"@)
        &&& field_holds(self.fills, json, "fills"@)
    }

    fn from_json(json: &Json) -> (r: Option<Self>) {
        Some(GetFillsResponse {
            cursor: field(json, "cursor")?,
            fills: field(json, "fills")?,
        })
    }
}

impl GetFillsResponse {
    /// A page that carries fills and a cursor cannot be taken for the end of
    /// the listing. The response read from a document has as many fills as the
    /// document lists and the document's cursor, so the response read from a
    /// document with fills differs from the one read from a document that lists
    /// none and has the empty cursor.
    pub proof fn lemma_page_differs_from_end(page: Self, page_json: Json, end: Self, end_json: Json)
        requires
            page.read_from(page_json),
            end.read_from(end_json),
            page_json.at("fills"@) matches Some(Json::Array(items)) && items@.len() > 0,
            end_json.at("fills"@) matches Some(Json::Array(items)) && items@.len() == 0,
            end_json.at("cursor"@) matches Some(Json::Text(cursor)) && cursor@.len() == 0,
        ensures
            page.fills@.len() > 0,
            end.fills@.len() == 0,
            end.cursor@.len() == 0,
            page != end,
    {
    }
}

/// One page of orders, with the cursor for the next page. An empty cursor means
/// that there is no further page.
#[derive(Clone, Debug, PartialEq, Eq)]
pub struct GetOrdersResponse {
    pub cursor: String,
    pub orders: Vec<Order>,
}

impl FromJson for GetOrdersResponse {
    open spec fn fits(json: Json) -> bool {
        &&& has_field::<String>(json, "cursor"@)
        &&& has_field::<Vec<Order>>(json, "orders"@)
    }

    open spec fn read_from(&self, json: Json) -> bool {
        &&& field_holds(self.cursor, json, "cursor"@)
        &&& field_holds(self.orders, json, "orders"@)
    }

    fn from_json(json: &Json) -> (r: Option<Self>) {
        Some(GetOrdersResponse {
            cursor: field(json, "cursor")?,
            orders: field(json, "orders")?,
        })
    }
}

impl GetOrdersResponse {
    /// A page that carries orders and a cursor cannot be taken for the end of
    /// the listing. The response read from a document has as many orders as the
    /// document lists and the document's cursor, so the response read from a
    /// document with orders differs from the one read from a document that
    /// lists none and has the empty cursor.
    pub proof fn lemma_page_differs_from_end(page: Self, page_json: Json, end: Self, end_json: Json)
        requires
            page.read_from(page_json),
            end.read_from(end_json),
            page_json.at("orders"@) matches Some(Json::Array(items)) && items@.len() > 0,
            end_json.at("orders"@) matches Some(Json::Array(items)) && items@.len() == 0,
            end_json.at("cursor"@) matches Some(Json::Text(cursor)) && cursor@.len() == 0,
        ensures
            page.orders@.len() > 0,
            end.orders@.len() == 0,
            end.cursor@.len() == 0,
            page != end,
    {
    }
}

/// The order as the exchange recorded it on creation.
#[derive(Clone, Debug, PartialEq, Eq)]
pub struct CreateOrderResponse {
    pub order: Order,
}

impl FromJson for CreateOrderResponse {
    open spec fn fits(json: Json) -> bool {
        has_field::<Order>(json, "order"@)
    }

    open spec fn read_from(&self, json: Json) -> bool {
        field_holds(self.order, json, "order"@)
    }

    fn from_json(json: &Json) -> (r: Option<Self>) {
        Some(CreateOrderResponse { order: field(json, "order")? })
    }
}

/// One order.
#[derive(Clone, Debug, PartialEq, Eq)]
pub struct GetOrderResponse {
    pub order: Order,
}

impl FromJson for GetOrderResponse {
    open spec fn fits(json: Json) -> bool {
        has_field::<Order>(json, "order"@)
    }

    open spec fn read_from(&self, json: Json) -> bool {
        field_holds(self.order, json, "order"@)
    }

    fn from_json(json: &Json) -> (r: Option<Self>) {
        Some(GetOrderResponse { order: field(json, "order")? })
    }
}

/// The order after its cancellation, and the quantity by which it was reduced.
#[derive(Clone, Debug, PartialEq, Eq)]
pub struct CancelOrderResponse {
    pub order: Order,
    pub reduced_by: i64,
}

impl FromJson for CancelOrderResponse {
    open spec fn fits(json: Json) -> bool {
        &&& has_field::<Order>(json, "order"@)
        &&& has_field::<i64>(json, "reduced_by"@)
    }

    open spec fn read_from(&self, json: Json) -> bool {
        &&& field_holds(self.order, json, "order"@)
        &&& field_holds(self.reduced_by, json, "reduced_by"@)
    }

    fn from_json(json: &Json) -> (r: Option<Self>) {
        Some(CancelOrderResponse {
            order: field(json, "order")?,
            reduced_by: field(json, "reduced_by")?,
        })
    }
}

/// One page of positions, by event and by market, with the cursor for the next
/// page. An empty cursor means that there is no further page.
#[derive(Clone, Debug, PartialEq, Eq)]
pub struct GetPositionsResponse {
    pub cursor: String,
    pub event_positions: Vec<EventPosition>,
    pub market_positions: Vec<MarketPosition>,
}

impl FromJson for GetPositionsResponse {
    open spec fn fits(json: Json) -> bool {
        &&& has_field::<String>(json, "cursor"@)
        &&& has_field::<Vec<EventPosition>>(json, "event_positions"@)
        &&& has_field::<Vec<MarketPosition>>(json, "market_positions"@)
    }

    open spec fn read_from(&self, json: Json) -> bool {
        &&& field_holds(self.cursor, json, "cursor"@)
        &&& field_holds(self.event_positions, json, "event_positions"@)
        &&& field_holds(self.market_positions, json, "market_positions"@)
    }

    fn from_json(json: &Json) -> (r: Option<Self>) {
        Some(GetPositionsResponse {
            cursor: field(json, "cursor")?,
            event_positions: field(json, "event_positions")?,
            market_positions: field(json, "market_positions")?,
        })
    }
}

impl GetPositionsResponse {
    /// A page that carries positions and a cursor cannot be taken for the end
    /// of the listing. The response read from a document has as many positions
    /// as the document lists and the document's cursor, so the response read
    /// from a document with positions differs from the one read from a document
    /// that lists none and has the empty cursor.
    pub proof fn lemma_page_differs_from_end(page: Self, page_json: Json, end: Self, end_json: Json)
        requires
            page.read_from(page_json),
            end.read_from(end_json),
            (page_json.at("event_positions"@) matches Some(Json::Array(items)) && items@.len() > 0)
                || (page_json.at("market_positions"@) matches Some(Json::Array(items))
                && items@.len() > 0),
            end_json.at("event_positions"@) matches Some(Json::Array(items)) && items@.len() == 0,
            end_json.at("market_positions"@) matches Some(Json::Array(items)) && items@.len() == 0,
            end_json.at("cursor"@) matches Some(Json::Text(cursor)) && cursor@.len() == 0,
        ensures
            page.event_positions@.len() > 0 || page.market_positions@.len() > 0,
            end.event_positions@.len() == 0,
            end.market_positions@.len() == 0,
            end.cursor@.len() == 0,
            page != end,
    {
    }
}

/// One page of settlements, with the cursor for the next page. An empty cursor
/// means that there is no further page.
#[derive(Clone, Debug, PartialEq, Eq)]
pub struct GetSettlementsResponse {
    pub cursor: String,
    pub settlements: Vec<Settlement>,
}

impl FromJson for GetSettlementsResponse {
    open spec fn fits(json: Json) -> bool {
        &&& has_field::<String>(json, "cursor"@)
        &&& has_field::<Vec<Settlement>>(json, "settlements"@)
    }

    open spec fn read_from(&self, json: Json) -> bool {
        &&& field_holds(self.cursor, json, "cursor"@)
        &&& field_holds(self.settlements, json, "settlements"@)
    }

    fn from_json(json: &Json) -> (r: Option<Self>) {
        Some(GetSettlementsResponse {
            cursor: field(json, "cursor")?,
            settlements: field(json, "settlements")?,
        })
    }
}

impl GetSettlementsResponse {
    /// A page that carries settlements and a cursor cannot be taken for the end
    /// of the listing. The response read from a document has as many
    /// settlements as the document lists and the document's cursor, so the
    /// response read from a document with settlements differs from the one read
    /// from a document that lists none and has the empty cursor.
    pub proof fn lemma_page_differs_from_end(page: Self, page_json: Json, end: Self, end_json: Json)
        requires
            page.read_from(page_json),
            end.read_from(end_json),
            page_json.at("settlements"@) matches Some(Json::Array(items)) && items@.len() > 0,
            end_json.at("settlements"@) matches Some(Json::Array(items)) && items@.len() == 0,
            end_json.at("cursor"@) matches Some(Json::Text(cursor)) && cursor@.len() == 0,
        ensures
            page.settlements@.len() > 0,
            end.settlements@.len() == 0,
            end.cursor@.len() == 0,
            page != end,
    {
    }
}

} // verus!
