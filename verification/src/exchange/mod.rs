//! The exchange status endpoint. It needs no authentication.

use crate::request::{call, Method, Request};
use crate::response::{normalize, stands_for, ApiError, Reply};
use vstd::prelude::*;

pub use crate::exchange::api_structs::ExchangeStatus;

pub mod api_structs;

verus! {

/// Where the status of the exchange is fetched.
pub const GET_EXCHANGE_STATUS_URL: &'static str =
    "https://trading-api.kalshi.com/trade-api/v2/exchange/status/";

/// The request for the status of the exchange. It carries no token.
pub fn get_exchange_status_request() -> (r: Request)
    ensures
        r@ == call(Method::Get, GET_EXCHANGE_STATUS_URL@, None, seq![], None),
{
    Request::new(Method::Get, GET_EXCHANGE_STATUS_URL.to_owned(), None)
}

/// The status of the exchange at the time of the request.
pub fn get_exchange_status_response(reply: Reply) -> (r: Result<ExchangeStatus, ApiError>)
    ensures
        stands_for(reply, r),
{
    normalize(reply)
}

} // verus!
