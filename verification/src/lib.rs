//! Typed client library for the Kalshi trading API: request construction,
//! response normalization and typed views of the API's records.
//!
//! The library never touches the network. Each operation of the API is a
//! pair of functions: one builds the [`request::Request`] to send, the other
//! turns the [`response::Reply`] that came back into a typed result.

pub mod auth;
pub mod bids;
pub mod decimal;
pub mod decode;
pub mod exchange;
pub mod json;
pub mod market;
pub mod params;
pub mod portfolio;
pub mod request;
pub mod response;
