//! The record of the exchange endpoint.

use crate::decode::{field, field_holds, has_field, FromJson};
use crate::json::Json;
use vstd::prelude::*;

verus! {

/// Whether the exchange is up and whether it accepts trades, at the time of the
/// request.
#[derive(Clone, Debug, PartialEq, Eq)]
pub struct ExchangeStatus {
    pub exchange_active: bool,
    pub trading_active: bool,
}

impl FromJson for ExchangeStatus {
    open spec fn fits(json: Json) -> bool {
        &&& has_field::<bool>(json, "exchange_active"@)
        &&& has_field::<bool>(json, "trading_active"@)
    }

    open spec fn read_from(&self, json: Json) -> bool {
        &&& field_holds(self.exchange_active, json, "exchange_active"@)
        &&& field_holds(self.trading_active, json, "trading_active"@)
    }

    fn from_json(json: &Json) -> (r: Option<Self>) {
        Some(ExchangeStatus {
            exchange_active: field(json, "exchange_active")?,
            trading_active: field(json, "trading_active")?,
        })
    }
}

} // verus!
