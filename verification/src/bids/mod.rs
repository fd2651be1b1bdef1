//! The bid and ask prices of a market, side by side.

use crate::market::Market;
use vstd::prelude::*;

verus! {

/// The ask and bid price of one side of a market, in cents.
#[derive(Debug, Clone, Copy, PartialEq, Eq)]
pub struct Spread {
    pub ask: i32,
    pub bid: i32,
}

/// The spreads of both sides of a market.
#[derive(Debug, Clone, Copy, PartialEq, Eq)]
pub struct Bids {
    pub no: Spread,
    pub yes: Spread,
}

impl From<Market> for Bids {
    /// Takes the four prices of `item` as they are.
    fn from(item: Market) -> (r: Bids)
        ensures
            r.no.ask == item.no_ask,
            r.no.bid == item.no_bid,
            r.yes.ask == item.yes_ask,
            r.yes.bid == item.yes_bid,
    {
        Bids {
            no: Spread { ask: item.no_ask, bid: item.no_bid },
            yes: Spread { ask: item.yes_ask, bid: item.yes_bid },
        }
    }
}

impl vstd::std_specs::convert::FromSpecImpl<Market> for Bids {
    open spec fn obeys_from_spec() -> bool {
        true
    }

    open spec fn from_spec(item: Market) -> Bids {
        Bids {
            no: Spread { ask: item.no_ask, bid: item.no_bid },
            yes: Spread { ask: item.yes_ask, bid: item.yes_bid },
        }
    }
}

} // verus!
