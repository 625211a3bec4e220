//! The live trading state that survives a restart, and where it is kept.

use std::path::PathBuf;
use vstd::prelude::*;
use crate::decimal::Decimal;
use crate::market::Order;

verus! {

/// A path in the file system.
#[verifier::external_type_specification]
#[verifier::external_body]
pub struct ExPathBuf(std::path::PathBuf);

/// The last price seen for a symbol.
#[derive(Debug, PartialEq)]
pub struct LastPrice {
    pub symbol: String,
    pub price: Decimal,
}

/// Durable snapshot of the live trading runtime.
#[derive(Debug, PartialEq)]
pub struct LiveState {
    pub open_orders: Vec<Order>,
    pub last_prices: Vec<LastPrice>,
    pub last_candle_ts_ms: Option<i64>,
}

impl Default for LiveState {
    /// The state before anything happened: no orders, no prices, no candle.
    fn default() -> (r: LiveState)
        ensures
            r.open_orders@.len() == 0,
            r.last_prices@.len() == 0,
            r.last_candle_ts_ms is None,
    {
        LiveState { open_orders: Vec::new(), last_prices: Vec::new(), last_candle_ts_ms: None }
    }
}

/// Knows where the live state document is kept.
pub struct LiveStateStore {
    path: PathBuf,
}

impl LiveStateStore {
    /// The path of the document.
    pub closed spec fn spec_path(&self) -> PathBuf {
        self.path
    }

    /// A store for the document at `path`.
    pub fn new(path: PathBuf) -> (r: LiveStateStore)
        ensures
            r.spec_path() == path,
    {
        LiveStateStore { path }
    }

    /// The path of the document.
    pub fn path(&self) -> (r: &PathBuf)
        ensures
            *r == self.spec_path(),
    {
        &self.path
    }
}

} // verus!
