//! The plugin-facing forms of ticks, fills, signals and orders.
//!
//! Decimal values cross the sandbox boundary as their exact text; turning these values
//! into text and back is the caller's work.

use vstd::prelude::*;
use crate::decimal::{Decimal, DecimalModel};
use crate::market::{copy_text, decimal_option, text_option};

verus! {

/// Direction of an order, as plugins see it.
#[derive(Clone, Copy, Debug, PartialEq, Eq, Structural)]
pub enum PluginSide {
    Buy,
    Sell,
}

/// A trade print, as plugins see it.
#[derive(Debug, PartialEq)]
pub struct PluginTick {
    pub symbol: String,
    pub price: Decimal,
    pub size: Decimal,
    pub side: PluginSide,
    pub timestamp_ms: i64,
}

/// An execution, as plugins see it.
#[derive(Debug, PartialEq)]
pub struct PluginFill {
    pub order_id: String,
    pub symbol: String,
    pub side: PluginSide,
    pub fill_price: Decimal,
    pub fill_quantity: Decimal,
    pub fee: Option<Decimal>,
    pub fee_asset: Option<String>,
    pub timestamp_ms: i64,
}

/// The order types a plugin may ask for.
#[derive(Clone, Copy, Debug, PartialEq, Eq, Structural)]
pub enum PluginOrderType {
    Market,
    Limit,
}

/// The lifetimes a plugin may ask for.
#[derive(Clone, Copy, Debug, PartialEq, Eq, Structural)]
pub enum PluginTimeInForce {
    Gtc,
    Ioc,
    Fok,
    PostOnly,
}

/// An order a plugin asks to place.
#[derive(Debug, PartialEq)]
pub struct PluginOrderRequest {
    pub symbol: String,
    pub side: PluginSide,
    pub order_type: PluginOrderType,
    pub quantity: Decimal,
    pub price: Option<Decimal>,
    pub trigger_price: Option<Decimal>,
    pub time_in_force: Option<PluginTimeInForce>,
    pub client_order_id: Option<String>,
    pub take_profit: Option<Decimal>,
    pub stop_loss: Option<Decimal>,
    pub display_quantity: Option<Decimal>,
}

/// A change a plugin asks to make to a live order.
#[derive(Debug, PartialEq)]
pub struct PluginOrderUpdateRequest {
    pub order_id: String,
    pub symbol: String,
    pub side: PluginSide,
    pub new_price: Option<Decimal>,
    pub new_quantity: Option<Decimal>,
}

/// What a plugin asks the host to do with an order.
#[derive(Debug, PartialEq)]
pub enum PluginChildOrderAction {
    Place(PluginOrderRequest),
    Amend(PluginOrderUpdateRequest),
}

/// One entry of the orders a plugin returns.
#[derive(Debug, PartialEq)]
pub struct PluginChildOrderRequest {
    pub action: PluginChildOrderAction,
}

/// What a plugin returns from a call.
#[derive(Debug, PartialEq)]
pub struct PluginResult {
    pub orders: Vec<PluginChildOrderRequest>,
    pub logs: Vec<String>,
    /// Set when the plugin has nothing left to do.
    pub completed: bool,
}

/// The signal an algorithm was started for, as plugins see it.
#[derive(Debug, PartialEq)]
pub struct PluginSignal {
    pub id: String,
    pub symbol: String,
    pub side: PluginSide,
    pub kind: String,
    pub confidence: Decimal,
    pub target_quantity: Decimal,
    pub note: Option<String>,
    pub group_id: Option<String>,
}

/// The mathematical content of a [`PluginSignal`].
pub struct PluginSignalModel {
    pub id: Seq<char>,
    pub symbol: Seq<char>,
    pub side: PluginSide,
    pub kind: Seq<char>,
    pub confidence: DecimalModel,
    pub target_quantity: DecimalModel,
    pub note: Option<Seq<char>>,
    pub group_id: Option<Seq<char>>,
}

impl View for PluginSignal {
    type V = PluginSignalModel;

    open spec fn view(&self) -> PluginSignalModel {
        PluginSignalModel {
            id: self.id@,
            symbol: self.symbol@,
            side: self.side,
            kind: self.kind@,
            confidence: self.confidence@,
            target_quantity: self.target_quantity@,
            note: text_option(self.note),
            group_id: text_option(self.group_id),
        }
    }
}

impl Clone for PluginSignal {
    fn clone(&self) -> (r: PluginSignal)
        ensures
            r == *self,
    {
        PluginSignal {
            id: self.id.clone(),
            symbol: self.symbol.clone(),
            side: self.side,
            kind: self.kind.clone(),
            confidence: self.confidence,
            target_quantity: self.target_quantity,
            note: copy_text(&self.note),
            group_id: copy_text(&self.group_id),
        }
    }
}

/// Exposure and balances at the start of an algorithm, as plugins see them.
#[derive(Debug, PartialEq)]
pub struct PluginRiskContext {
    pub last_price: Decimal,
    pub portfolio_equity: Decimal,
    pub exchange_equity: Decimal,
    pub signed_position_qty: Decimal,
    pub base_available: Decimal,
    pub quote_available: Decimal,
    pub settlement_available: Decimal,
    pub instrument_kind: Option<String>,
}

/// The mathematical content of a [`PluginRiskContext`].
pub struct PluginRiskContextModel {
    pub last_price: DecimalModel,
    pub portfolio_equity: DecimalModel,
    pub exchange_equity: DecimalModel,
    pub signed_position_qty: DecimalModel,
    pub base_available: DecimalModel,
    pub quote_available: DecimalModel,
    pub settlement_available: DecimalModel,
    pub instrument_kind: Option<Seq<char>>,
}

impl View for PluginRiskContext {
    type V = PluginRiskContextModel;

    open spec fn view(&self) -> PluginRiskContextModel {
        PluginRiskContextModel {
            last_price: self.last_price@,
            portfolio_equity: self.portfolio_equity@,
            exchange_equity: self.exchange_equity@,
            signed_position_qty: self.signed_position_qty@,
            base_available: self.base_available@,
            quote_available: self.quote_available@,
            settlement_available: self.settlement_available@,
            instrument_kind: text_option(self.instrument_kind),
        }
    }
}

impl Clone for PluginRiskContext {
    fn clone(&self) -> (r: PluginRiskContext)
        ensures
            r == *self,
    {
        PluginRiskContext {
            last_price: self.last_price,
            portfolio_equity: self.portfolio_equity,
            exchange_equity: self.exchange_equity,
            signed_position_qty: self.signed_position_qty,
            base_available: self.base_available,
            quote_available: self.quote_available,
            settlement_available: self.settlement_available,
            instrument_kind: copy_text(&self.instrument_kind),
        }
    }
}

/// The protective prices of the signal, handed to the plugin as metadata.
#[derive(Clone, Copy, Debug, PartialEq)]
pub struct PluginMetadata {
    pub stop_loss: Option<Decimal>,
    pub take_profit: Option<Decimal>,
}

/// The mathematical content of a [`PluginMetadata`].
pub struct PluginMetadataModel {
    pub stop_loss: Option<DecimalModel>,
    pub take_profit: Option<DecimalModel>,
}

impl View for PluginMetadata {
    type V = PluginMetadataModel;

    open spec fn view(&self) -> PluginMetadataModel {
        PluginMetadataModel {
            stop_loss: decimal_option(self.stop_loss),
            take_profit: decimal_option(self.take_profit),
        }
    }
}

/// What a plugin is initialised with.
#[derive(Debug, PartialEq)]
pub struct PluginInitContext {
    /// The name of the plugin.
    pub plugin: String,
    /// The plugin's parameters, as JSON text.
    pub params: String,
    pub signal: PluginSignal,
    pub risk: PluginRiskContext,
    pub metadata: PluginMetadata,
}

/// The mathematical content of a [`PluginInitContext`].
pub struct PluginInitContextModel {
    pub plugin: Seq<char>,
    pub params: Seq<char>,
    pub signal: PluginSignalModel,
    pub risk: PluginRiskContextModel,
    pub metadata: PluginMetadataModel,
}

impl View for PluginInitContext {
    type V = PluginInitContextModel;

    open spec fn view(&self) -> PluginInitContextModel {
        PluginInitContextModel {
            plugin: self.plugin@,
            params: self.params@,
            signal: self.signal@,
            risk: self.risk@,
            metadata: self.metadata@,
        }
    }
}

impl Clone for PluginInitContext {
    fn clone(&self) -> (r: PluginInitContext)
        ensures
            r == *self,
    {
        PluginInitContext {
            plugin: self.plugin.clone(),
            params: self.params.clone(),
            signal: self.signal.clone(),
            risk: self.risk.clone(),
            metadata: self.metadata,
        }
    }
}

} // verus!
