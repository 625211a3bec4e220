//! Host-side state of an execution algorithm that delegates to a sandboxed plugin.
//!
//! The sandbox itself lives outside this library. A [`WasmAlgorithm`] decides which
//! entry point of the plugin an event leads to ([`WasmAlgorithm::next_call`]) and what
//! the plugin's answer does to the algorithm ([`WasmAlgorithm::apply_result`]); the
//! caller makes the call in between.

use vstd::prelude::*;
use vstd::string::StringExecFns;
use crate::algorithm::{
    child_models, may_follow, status_after, AlgoStatus, ChildOrderAction, ChildOrderActionModel,
    ChildOrderRequest, ChildOrderRequestModel,
};
use crate::decimal::{model_abs, Decimal, DecimalModel};
use crate::ident::{hyphenated_text, simple_text, Symbol, Uuid};
use crate::market::{
    copy_text, decimal_option, signal_side, text_option, Fill, Order, OrderRequest, OrderRequestModel,
    OrderType, OrderUpdateRequest, OrderUpdateRequestModel, Side, Signal, SignalKind, SignalModel,
    Tick, TimeInForce,
};
use crate::risk::{InstrumentKind, RiskContext};
use crate::text::{
    decimal_digits, digit_char, digit_of, digits_value, lemma_decimal_digits_value,
    lemma_digit_round_trip, lemma_digits_value_grows,
};
use crate::wasm::protocol::{
    PluginChildOrderAction, PluginChildOrderRequest, PluginFill, PluginInitContext,
    PluginInitContextModel, PluginMetadata, PluginMetadataModel, PluginOrderRequest,
    PluginOrderType, PluginOrderUpdateRequest, PluginResult, PluginRiskContext,
    PluginRiskContextModel, PluginSide, PluginSignal, PluginSignalModel, PluginTick,
    PluginTimeInForce,
};

verus! {

/// The kind under which plugin-backed algorithms are stored.
pub open spec fn kind_label() -> Seq<char> {
    "WASM_PLUGIN"@
}

/// The plugin-facing form of a side.
pub open spec fn plugin_side(side: Side) -> PluginSide {
    match side {
        Side::Buy => PluginSide::Buy,
        Side::Sell => PluginSide::Sell,
    }
}

/// The side that a plugin-facing side stands for.
pub open spec fn host_side(side: PluginSide) -> Side {
    match side {
        PluginSide::Buy => Side::Buy,
        PluginSide::Sell => Side::Sell,
    }
}

/// The plugin-facing form of a side.
pub fn to_plugin_side(side: Side) -> (r: PluginSide)
    ensures
        r == plugin_side(side),
{
    match side {
        Side::Buy => PluginSide::Buy,
        Side::Sell => PluginSide::Sell,
    }
}

/// The side that a plugin-facing side stands for.
pub fn from_plugin_side(side: PluginSide) -> (r: Side)
    ensures
        r == host_side(side),
{
    match side {
        PluginSide::Buy => Side::Buy,
        PluginSide::Sell => Side::Sell,
    }
}

/// The plugin-facing form of a tick.
pub open spec fn plugin_tick(tick: Tick) -> PluginTick {
    PluginTick {
        symbol: tick.symbol.code,
        price: tick.price,
        size: tick.size,
        side: plugin_side(tick.side),
        timestamp_ms: tick.exchange_timestamp_ms,
    }
}

/// The plugin-facing form of a tick.
pub fn to_plugin_tick(tick: &Tick) -> (r: PluginTick)
    ensures
        r == plugin_tick(*tick),
{
    PluginTick {
        symbol: tick.symbol.code.clone(),
        price: tick.price,
        size: tick.size,
        side: to_plugin_side(tick.side),
        timestamp_ms: tick.exchange_timestamp_ms,
    }
}

/// The plugin-facing form of a fill.
pub open spec fn plugin_fill(fill: Fill) -> PluginFill {
    PluginFill {
        order_id: fill.order_id,
        symbol: fill.symbol.code,
        side: plugin_side(fill.side),
        fill_price: fill.fill_price,
        fill_quantity: fill.fill_quantity,
        fee: fill.fee,
        fee_asset: fill.fee_asset,
        timestamp_ms: fill.timestamp_ms,
    }
}

/// The plugin-facing form of a fill.
pub fn to_plugin_fill(fill: &Fill) -> (r: PluginFill)
    ensures
        r == plugin_fill(*fill),
{
    PluginFill {
        order_id: fill.order_id.clone(),
        symbol: fill.symbol.code.clone(),
        side: to_plugin_side(fill.side),
        fill_price: fill.fill_price,
        fill_quantity: fill.fill_quantity,
        fee: fill.fee,
        fee_asset: copy_text(&fill.fee_asset),
        timestamp_ms: fill.timestamp_ms,
    }
}

/// The lifetime that a plugin-facing lifetime stands for. Post-only has no counterpart
/// and is dropped.
pub open spec fn host_time_in_force(tif: Option<PluginTimeInForce>) -> Option<TimeInForce> {
    match tif {
        Some(PluginTimeInForce::Gtc) => Some(TimeInForce::GoodTilCanceled),
        Some(PluginTimeInForce::Ioc) => Some(TimeInForce::ImmediateOrCancel),
        Some(PluginTimeInForce::Fok) => Some(TimeInForce::FillOrKill),
        Some(PluginTimeInForce::PostOnly) => None,
        None => None,
    }
}

/// The order type that a plugin-facing order type stands for.
pub open spec fn host_order_type(order_type: PluginOrderType) -> OrderType {
    match order_type {
        PluginOrderType::Market => OrderType::Market,
        PluginOrderType::Limit => OrderType::Limit,
    }
}

/// The order request that a plugin's request stands for: every field carried over.
pub open spec fn converted_request(req: PluginOrderRequest) -> OrderRequestModel {
    OrderRequestModel {
        symbol: req.symbol@,
        side: host_side(req.side),
        order_type: host_order_type(req.order_type),
        quantity: req.quantity@,
        price: decimal_option(req.price),
        trigger_price: decimal_option(req.trigger_price),
        time_in_force: host_time_in_force(req.time_in_force),
        client_order_id: text_option(req.client_order_id),
        take_profit: decimal_option(req.take_profit),
        stop_loss: decimal_option(req.stop_loss),
        display_quantity: decimal_option(req.display_quantity),
    }
}

/// The order request that a plugin's request stands for.
pub fn convert_order_request(req: &PluginOrderRequest) -> (r: OrderRequest)
    ensures
        r@ == converted_request(*req),
        r.client_order_id == req.client_order_id,
{
    let order_type = match req.order_type {
        PluginOrderType::Market => OrderType::Market,
        PluginOrderType::Limit => OrderType::Limit,
    };
    let time_in_force = match req.time_in_force {
        Some(PluginTimeInForce::Gtc) => Some(TimeInForce::GoodTilCanceled),
        Some(PluginTimeInForce::Ioc) => Some(TimeInForce::ImmediateOrCancel),
        Some(PluginTimeInForce::Fok) => Some(TimeInForce::FillOrKill),
        Some(PluginTimeInForce::PostOnly) => None,
        None => None,
    };
    OrderRequest {
        symbol: Symbol::from_code(req.symbol.as_str()),
        side: from_plugin_side(req.side),
        order_type,
        quantity: req.quantity,
        price: req.price,
        trigger_price: req.trigger_price,
        time_in_force,
        client_order_id: copy_text(&req.client_order_id),
        take_profit: req.take_profit,
        stop_loss: req.stop_loss,
        display_quantity: req.display_quantity,
    }
}

/// The update request that a plugin's update stands for: every field carried over.
pub open spec fn converted_update(req: PluginOrderUpdateRequest) -> OrderUpdateRequestModel {
    OrderUpdateRequestModel {
        order_id: req.order_id@,
        symbol: req.symbol@,
        side: host_side(req.side),
        new_price: decimal_option(req.new_price),
        new_quantity: decimal_option(req.new_quantity),
    }
}

/// The update request that a plugin's update stands for.
pub fn convert_order_update(req: &PluginOrderUpdateRequest) -> (r: OrderUpdateRequest)
    ensures
        r@ == converted_update(*req),
{
    OrderUpdateRequest {
        order_id: req.order_id.clone(),
        symbol: Symbol::from_code(req.symbol.as_str()),
        side: from_plugin_side(req.side),
        new_price: req.new_price,
        new_quantity: req.new_quantity,
    }
}

/// The name of a signal kind on the plugin boundary.
pub open spec fn kind_text(kind: SignalKind) -> Seq<char> {
    match kind {
        SignalKind::EnterLong => "enter_long"@,
        SignalKind::ExitLong => "exit_long"@,
        SignalKind::EnterShort => "enter_short"@,
        SignalKind::ExitShort => "exit_short"@,
        SignalKind::Flatten => "flatten"@,
    }
}

/// The name of a signal kind on the plugin boundary.
pub fn signal_kind_label(kind: SignalKind) -> (r: &'static str)
    ensures
        r@ == kind_text(kind),
{
    match kind {
        SignalKind::EnterLong => "enter_long",
        SignalKind::ExitLong => "exit_long",
        SignalKind::EnterShort => "enter_short",
        SignalKind::ExitShort => "exit_short",
        SignalKind::Flatten => "flatten",
    }
}

/// The name of an instrument kind on the plugin boundary.
pub open spec fn instrument_text(kind: InstrumentKind) -> Seq<char> {
    match kind {
        InstrumentKind::Spot => "Spot"@,
        InstrumentKind::LinearPerpetual => "LinearPerpetual"@,
        InstrumentKind::InversePerpetual => "InversePerpetual"@,
    }
}

/// The name of an instrument kind on the plugin boundary.
pub fn instrument_kind_label(kind: InstrumentKind) -> (r: &'static str)
    ensures
        r@ == instrument_text(kind),
{
    match kind {
        InstrumentKind::Spot => "Spot",
        InstrumentKind::LinearPerpetual => "LinearPerpetual",
        InstrumentKind::InversePerpetual => "InversePerpetual",
    }
}

/// What a plugin is initialised with for a signal: the signal with its id and group as
/// hyphenated text and its kind by name, the target quantity without its sign, the risk
/// context field by field, and the signal's protective prices as metadata.
pub open spec fn init_context(
    plugin_name: Seq<char>,
    params: Seq<char>,
    signal: SignalModel,
    total_quantity: DecimalModel,
    ctx: RiskContext,
) -> PluginInitContextModel {
    PluginInitContextModel {
        plugin: plugin_name,
        params,
        signal: PluginSignalModel {
            id: hyphenated_text(signal.id),
            symbol: signal.symbol,
            side: plugin_side(signal_side(signal.kind)),
            kind: kind_text(signal.kind),
            confidence: signal.confidence,
            target_quantity: model_abs(total_quantity),
            note: signal.note,
            group_id: match signal.group_id {
                Some(g) => Some(hyphenated_text(g.value)),
                None => None,
            },
        },
        risk: PluginRiskContextModel {
            last_price: ctx.last_price@,
            portfolio_equity: ctx.portfolio_equity@,
            exchange_equity: ctx.exchange_equity@,
            signed_position_qty: ctx.signed_position_qty@,
            base_available: ctx.base_available@,
            quote_available: ctx.quote_available@,
            settlement_available: ctx.settlement_available@,
            instrument_kind: match ctx.instrument_kind {
                Some(k) => Some(instrument_text(k)),
                None => None,
            },
        },
        metadata: PluginMetadataModel { stop_loss: signal.stop_loss, take_profit: signal.take_profit },
    }
}

/// A sequence number as it appears in an order id: its decimal digits, padded with
/// zeros on the left to four.
pub open spec fn sequence_text(n: nat) -> Seq<char> {
    if n < 10000 {
        seq![
            digit_char((n / 1000) as int),
            digit_char((n / 100 % 10) as int),
            digit_char((n / 10 % 10) as int),
            digit_char((n % 10) as int),
        ]
    } else {
        decimal_digits(n)
    }
}

/// The order id that the host assigns to the `seq`-th order of algorithm `algo` that
/// came without one: `plugin-<algo as 32 hex digits>-<seq, at least four digits>`.
pub open spec fn plugin_order_id(algo: u128, seq: nat) -> Seq<char> {
    "plugin-"@ + simple_text(algo) + "-"@ + sequence_text(seq)
}

/// A sequence number as it appears in an order id.
///
/// Calls `format!` with `{:04}`, which writes the decimal digits of the number and pads
/// them with zeros on the left to a width of four.
#[verifier::external_body]
fn sequence_label(seq: u64) -> (r: String)
    ensures
        r@ == sequence_text(seq as nat),
{
    format!("{:04}", seq)
}

/// The order id that the host assigns to the `seq`-th order of algorithm `algo`.
pub fn assigned_order_id(algo: Uuid, seq: u64) -> (r: String)
    ensures
        r@ == plugin_order_id(algo.value, seq as nat),
{
    let mut id = String::from_str("plugin-");
    let hex = algo.simple();
    id.append(hex.as_str());
    id.append("-");
    let digits = sequence_label(seq);
    id.append(digits.as_str());
    id
}

/// Why a plugin's answer could not be used.
#[derive(Debug, PartialEq, Eq)]
pub enum PluginError {
    /// The answer does not follow the result schema.
    Protocol(String),
    /// The sandbox stopped the plugin.
    Trap(String),
    /// No sequence number is left for an order that came without an id.
    SequenceExhausted,
}

/// The child order that one entry of a plugin's answer stands for, and the sequence
/// number after it. A placement without an id takes the next sequence number; `None`
/// where none is left.
pub open spec fn child_of(algo: u128, seq: u64, req: PluginChildOrderRequest) -> Option<
    (ChildOrderRequestModel, u64),
> {
    match req.action {
        PluginChildOrderAction::Place(order) => if order.client_order_id is Some {
            Some(
                (
                    ChildOrderRequestModel {
                        parent_algo_id: algo,
                        action: ChildOrderActionModel::Place(converted_request(order)),
                    },
                    seq,
                ),
            )
        } else if seq == u64::MAX {
            None
        } else {
            Some(
                (
                    ChildOrderRequestModel {
                        parent_algo_id: algo,
                        action: ChildOrderActionModel::Place(
                            OrderRequestModel {
                                client_order_id: Some(plugin_order_id(algo, (seq + 1) as nat)),
                                ..converted_request(order)
                            },
                        ),
                    },
                    (seq + 1) as u64,
                ),
            )
        },
        PluginChildOrderAction::Amend(update) => Some(
            (
                ChildOrderRequestModel {
                    parent_algo_id: algo,
                    action: ChildOrderActionModel::Amend(converted_update(update)),
                },
                seq,
            ),
        ),
    }
}

/// The child orders that a plugin's answer stands for, in the order the plugin gave
/// them, and the sequence number after the last. `None` where the sequence numbers run
/// out.
pub open spec fn children_of(algo: u128, seq: u64, orders: Seq<PluginChildOrderRequest>) -> Option<
    (Seq<ChildOrderRequestModel>, u64),
>
    decreases orders.len(),
{
    if orders.len() == 0 {
        Some((Seq::empty(), seq))
    } else {
        match children_of(algo, seq, orders.drop_last()) {
            None => None,
            Some((before, s)) => match child_of(algo, s, orders.last()) {
                None => None,
                Some((child, after)) => Some((before.push(child), after)),
            },
        }
    }
}

/// The entry point of a plugin that an event leads to.
#[derive(Clone, Copy, Debug, PartialEq, Eq, Structural)]
pub enum CallKind {
    Init,
    OnTick,
    OnFill,
    OnTimer,
}

/// A call into the sandbox, with what is handed to the plugin.
#[derive(Debug, PartialEq)]
pub enum PluginCall {
    Init(PluginInitContext),
    OnTick(PluginTick),
    OnFill(PluginFill),
    OnTimer,
}

/// Something that happens to an algorithm.
#[derive(Debug, PartialEq)]
pub enum AlgoEvent {
    Start,
    Tick(Tick),
    Fill(Fill),
    Timer,
}

/// The image of a plugin-backed algorithm that is stored and restored.
#[derive(Debug, PartialEq)]
pub struct WasmAlgorithmState {
    pub plugin: PluginInitContext,
    /// The plugin's own state, as JSON text.
    pub plugin_state: String,
    pub status: AlgoStatus,
    pub next_client_seq: u64,
}

/// The mathematical content of a [`WasmAlgorithmState`].
pub struct WasmAlgorithmStateModel {
    pub plugin: PluginInitContextModel,
    pub plugin_state: Seq<char>,
    pub status: AlgoStatus,
    pub next_client_seq: u64,
}

impl View for WasmAlgorithmState {
    type V = WasmAlgorithmStateModel;

    open spec fn view(&self) -> WasmAlgorithmStateModel {
        WasmAlgorithmStateModel {
            plugin: self.plugin@,
            plugin_state: self.plugin_state@,
            status: self.status,
            next_client_seq: self.next_client_seq,
        }
    }
}

impl Clone for WasmAlgorithmState {
    fn clone(&self) -> (r: WasmAlgorithmState)
        ensures
            r == *self,
    {
        WasmAlgorithmState {
            plugin: self.plugin.clone(),
            plugin_state: self.plugin_state.clone(),
            status: self.status,
            next_client_seq: self.next_client_seq,
        }
    }
}

/// The mathematical content of a [`WasmAlgorithm`].
pub struct WasmAlgorithmModel {
    pub id: u128,
    pub status: AlgoStatus,
    /// Whether the plugin's `init` has run.
    pub started: bool,
    pub context: PluginInitContextModel,
    pub plugin_state: Seq<char>,
    /// The last sequence number given to an order that came without an id.
    pub next_client_seq: u64,
}

/// A fresh algorithm: working, not started, with no plugin state and no sequence number
/// used.
pub open spec fn fresh_algorithm(id: u128, context: PluginInitContextModel) -> WasmAlgorithmModel {
    WasmAlgorithmModel {
        id,
        status: AlgoStatus::Working,
        started: false,
        context,
        plugin_state: "null"@,
        next_client_seq: 0,
    }
}

/// The stored image of an algorithm.
pub open spec fn snapshot_of(a: WasmAlgorithmModel) -> WasmAlgorithmStateModel {
    WasmAlgorithmStateModel {
        plugin: a.context,
        plugin_state: a.plugin_state,
        status: a.status,
        next_client_seq: a.next_client_seq,
    }
}

/// The algorithm that a stored image is restored to. A restored algorithm counts as
/// started.
pub open spec fn restored_from(id: u128, s: WasmAlgorithmStateModel) -> WasmAlgorithmModel {
    WasmAlgorithmModel {
        id,
        status: s.status,
        started: true,
        context: s.plugin,
        plugin_state: s.plugin_state,
        next_client_seq: s.next_client_seq,
    }
}

/// Storing an algorithm and restoring it under its id gives the algorithm back: id,
/// status, context, plugin state and sequence number are the same, and it counts as
/// started.
pub proof fn lemma_snapshot_round_trip(a: WasmAlgorithmModel)
    ensures
        restored_from(a.id, snapshot_of(a)) == (WasmAlgorithmModel { started: true, ..a }),
        a.started ==> restored_from(a.id, snapshot_of(a)) == a,
        snapshot_of(restored_from(a.id, snapshot_of(a))) == snapshot_of(a),
{
}

/// What a plugin's answer does to an algorithm, and the child orders it leads to.
///
/// An algorithm that is no longer working ignores the answer. Otherwise the orders are
/// converted in the order given; if the sequence numbers run out the algorithm fails.
/// If they do not, the algorithm takes the new sequence number and plugin state,
/// completes if the plugin says so, and counts as started after `init`.
pub open spec fn applied(
    a: WasmAlgorithmModel,
    call: CallKind,
    orders: Seq<PluginChildOrderRequest>,
    completed: bool,
    plugin_state: Seq<char>,
) -> (WasmAlgorithmModel, Result<Seq<ChildOrderRequestModel>, PluginError>) {
    if a.status != AlgoStatus::Working {
        (a, Ok(Seq::empty()))
    } else {
        match children_of(a.id, a.next_client_seq, orders) {
            None => (
                WasmAlgorithmModel { status: AlgoStatus::Failed, ..a },
                Err(PluginError::SequenceExhausted),
            ),
            Some((children, seq)) => (
                WasmAlgorithmModel {
                    status: if completed {
                        AlgoStatus::Completed
                    } else {
                        AlgoStatus::Working
                    },
                    started: a.started || call == CallKind::Init,
                    plugin_state,
                    next_client_seq: seq,
                    ..a
                },
                Ok(children),
            ),
        }
    }
}

/// The outcome of applying an answer with its child orders taken by their models.
pub open spec fn children_result(r: Result<Vec<ChildOrderRequest>, PluginError>) -> Result<
    Seq<ChildOrderRequestModel>,
    PluginError,
> {
    match r {
        Ok(v) => Ok(child_models(v@)),
        Err(e) => Err(e),
    }
}

/// An execution algorithm that delegates its decisions to a sandboxed plugin.
#[derive(Debug, PartialEq)]
pub struct WasmAlgorithm {
    id: Uuid,
    status: AlgoStatus,
    started: bool,
    context: PluginInitContext,
    plugin_state: String,
    next_client_seq: u64,
}

impl View for WasmAlgorithm {
    type V = WasmAlgorithmModel;

    closed spec fn view(&self) -> WasmAlgorithmModel {
        WasmAlgorithmModel {
            id: self.id.value,
            status: self.status,
            started: self.started,
            context: self.context@,
            plugin_state: self.plugin_state@,
            next_client_seq: self.next_client_seq,
        }
    }
}

impl WasmAlgorithm {
    /// Builds what a plugin is initialised with from a signal and the risk context.
    /// `params` is the plugin's parameters as JSON text.
    pub fn context_from_signal(
        plugin_name: &str,
        params: &str,
        signal: &Signal,
        total_quantity: Decimal,
        ctx: &RiskContext,
    ) -> (r: PluginInitContext)
        ensures
            r@ == init_context(plugin_name@, params@, signal@, total_quantity@, *ctx),
    {
        let plugin_signal = PluginSignal {
            id: signal.id.to_text(),
            symbol: signal.symbol.code.clone(),
            side: to_plugin_side(signal.kind.side()),
            kind: String::from_str(signal_kind_label(signal.kind)),
            confidence: signal.confidence,
            target_quantity: total_quantity.abs(),
            note: copy_text(&signal.note),
            group_id: match signal.group_id {
                Some(g) => Some(g.to_text()),
                None => None,
            },
        };
        let risk = PluginRiskContext {
            last_price: ctx.last_price,
            portfolio_equity: ctx.portfolio_equity,
            exchange_equity: ctx.exchange_equity,
            signed_position_qty: ctx.signed_position_qty,
            base_available: ctx.base_available,
            quote_available: ctx.quote_available,
            settlement_available: ctx.settlement_available,
            instrument_kind: match ctx.instrument_kind {
                Some(k) => Some(String::from_str(instrument_kind_label(k))),
                None => None,
            },
        };
        let metadata = PluginMetadata { stop_loss: signal.stop_loss, take_profit: signal.take_profit };
        PluginInitContext {
            plugin: String::from_str(plugin_name),
            params: String::from_str(params),
            signal: plugin_signal,
            risk,
            metadata,
        }
    }

    /// A fresh algorithm under the given id.
    pub fn with_id(id: Uuid, context: PluginInitContext) -> (r: WasmAlgorithm)
        ensures
            r@ == fresh_algorithm(id.value, context@),
    {
        WasmAlgorithm {
            id,
            status: AlgoStatus::Working,
            started: false,
            context,
            plugin_state: String::from_str("null"),
            next_client_seq: 0,
        }
    }

    /// A fresh algorithm under a random id.
    pub fn new(context: PluginInitContext) -> (r: WasmAlgorithm)
        ensures
            r@ == fresh_algorithm(r@.id, context@),
    {
        WasmAlgorithm::with_id(Uuid::random(), context)
    }

    /// The algorithm that a stored image is restored to.
    pub fn from_snapshot(algo_id: Uuid, snapshot: WasmAlgorithmState) -> (r: WasmAlgorithm)
        ensures
            r@ == restored_from(algo_id.value, snapshot@),
    {
        WasmAlgorithm {
            id: algo_id,
            status: snapshot.status,
            started: true,
            context: snapshot.plugin,
            plugin_state: snapshot.plugin_state,
            next_client_seq: snapshot.next_client_seq,
        }
    }

    /// The image of the algorithm that is stored.
    pub fn state(&self) -> (r: WasmAlgorithmState)
        ensures
            r@ == snapshot_of(self@),
    {
        WasmAlgorithmState {
            plugin: self.context.clone(),
            plugin_state: self.plugin_state.clone(),
            status: self.status,
            next_client_seq: self.next_client_seq,
        }
    }

    /// Always fails: an algorithm of this kind is restored from its image, with
    /// [`WasmAlgorithm::from_snapshot`], and not from a state by itself.
    pub fn from_state(state: &str) -> (r: Result<WasmAlgorithm, PluginError>)
        ensures
            r matches Err(PluginError::Protocol(m)) && m@ == "use WasmAlgorithm::from_snapshot for restoration"@,
    {
        Err(PluginError::Protocol(String::from_str("use WasmAlgorithm::from_snapshot for restoration")))
    }

    /// The kind under which the algorithm is stored.
    pub fn kind(&self) -> (r: &'static str)
        ensures
            r@ == kind_label(),
    {
        "WASM_PLUGIN"
    }

    /// The id of the algorithm.
    pub fn id(&self) -> (r: Uuid)
        ensures
            r.value == self@.id,
    {
        self.id
    }

    /// The status of the algorithm.
    pub fn status(&self) -> (r: AlgoStatus)
        ensures
            r == self@.status,
    {
        self.status
    }

    /// Whether the plugin's `init` has run.
    pub fn started(&self) -> (r: bool)
        ensures
            r == self@.started,
    {
        self.started
    }

    /// The last sequence number given to an order that came without an id.
    pub fn next_client_seq(&self) -> (r: u64)
        ensures
            r == self@.next_client_seq,
    {
        self.next_client_seq
    }

    /// What the plugin was initialised with.
    pub fn context(&self) -> (r: &PluginInitContext)
        ensures
            r@ == self@.context,
    {
        &self.context
    }

    /// The plugin's own state, as JSON text.
    pub fn plugin_state(&self) -> (r: &str)
        ensures
            r@ == self@.plugin_state,
    {
        self.plugin_state.as_str()
    }

    /// Cancels the algorithm: a working algorithm becomes cancelled, a finished one
    /// stays as it is.
    pub fn cancel(&mut self)
        ensures
            final(self)@ == (WasmAlgorithmModel {
                status: status_after(old(self)@.status, AlgoStatus::Cancelled),
                ..old(self)@
            }),
            may_follow(old(self)@.status, final(self)@.status),
    {
        self.status = self.status.advance(AlgoStatus::Cancelled);
    }

    /// Records that the plugin trapped or broke the protocol: a working algorithm becomes
    /// failed, a finished one stays as it is. The plugin state is kept.
    pub fn fail(&mut self)
        ensures
            final(self)@ == (WasmAlgorithmModel {
                status: status_after(old(self)@.status, AlgoStatus::Failed),
                ..old(self)@
            }),
            may_follow(old(self)@.status, final(self)@.status),
    {
        self.status = self.status.advance(AlgoStatus::Failed);
    }
}

/// The call that an event leads to. An algorithm that is no longer working is left
/// alone, and so is a started one that is asked to start again.
pub open spec fn call_for(a: WasmAlgorithm, event: AlgoEvent) -> Option<PluginCall> {
    if a@.status != AlgoStatus::Working {
        None
    } else {
        match event {
            AlgoEvent::Start => if a@.started {
                None
            } else {
                Some(PluginCall::Init(a.spec_context()))
            },
            AlgoEvent::Tick(tick) => Some(PluginCall::OnTick(plugin_tick(tick))),
            AlgoEvent::Fill(fill) => Some(PluginCall::OnFill(plugin_fill(fill))),
            AlgoEvent::Timer => Some(PluginCall::OnTimer),
        }
    }
}

/// The entry point that a call goes to.
pub open spec fn kind_of(call: PluginCall) -> CallKind {
    match call {
        PluginCall::Init(_) => CallKind::Init,
        PluginCall::OnTick(_) => CallKind::OnTick,
        PluginCall::OnFill(_) => CallKind::OnFill,
        PluginCall::OnTimer => CallKind::OnTimer,
    }
}

impl PluginCall {
    /// The entry point that the call goes to.
    pub fn kind(&self) -> (r: CallKind)
        ensures
            r == kind_of(*self),
    {
        match self {
            PluginCall::Init(_) => CallKind::Init,
            PluginCall::OnTick(_) => CallKind::OnTick,
            PluginCall::OnFill(_) => CallKind::OnFill,
            PluginCall::OnTimer => CallKind::OnTimer,
        }
    }
}

impl WasmAlgorithm {
    /// What the plugin was initialised with.
    pub closed spec fn spec_context(&self) -> PluginInitContext {
        self.context
    }

    /// The call into the sandbox that an event leads to, if any.
    pub fn next_call(&self, event: &AlgoEvent) -> (r: Option<PluginCall>)
        ensures
            r == call_for(*self, *event),
    {
        match self.status {
            AlgoStatus::Working => match event {
                AlgoEvent::Start => if self.started {
                    None
                } else {
                    Some(PluginCall::Init(self.context.clone()))
                },
                AlgoEvent::Tick(tick) => Some(PluginCall::OnTick(to_plugin_tick(tick))),
                AlgoEvent::Fill(fill) => Some(PluginCall::OnFill(to_plugin_fill(fill))),
                AlgoEvent::Timer => Some(PluginCall::OnTimer),
            },
            _ => None,
        }
    }

    /// Gives an order its id if it came without one, from the sequence number after
    /// `seq`. Returns the sequence number now in use, `None` where none is left.
    fn ensure_client_id(algo: Uuid, seq: u64, order: &mut OrderRequest) -> (r: Option<u64>)
        ensures
            old(order).client_order_id is Some ==> r == Some(seq) && *final(order) == *old(order),
            old(order).client_order_id is None && seq == u64::MAX ==> r is None && *final(order) == *old(
                order,
            ),
            old(order).client_order_id is None && seq < u64::MAX ==> r == Some((seq + 1) as u64)
                && final(order)@ == (OrderRequestModel {
                client_order_id: Some(plugin_order_id(algo.value, (seq + 1) as nat)),
                ..old(order)@
            }),
    {
        if order.client_order_id.is_some() {
            return Some(seq);
        }
        if seq == u64::MAX {
            return None;
        }
        let next = seq + 1;
        order.client_order_id = Some(assigned_order_id(algo, next));
        Some(next)
    }

    /// The child order that one entry of a plugin's answer stands for.
    fn build_child_request(algo: Uuid, seq: u64, req: &PluginChildOrderRequest) -> (r: Option<
        (ChildOrderRequest, u64),
    >)
        ensures
            match r {
                Some((child, after)) => child_of(algo.value, seq, *req) == Some((child@, after)),
                None => child_of(algo.value, seq, *req) is None,
            },
    {
        match &req.action {
            PluginChildOrderAction::Place(order) => {
                let mut request = convert_order_request(order);
                match Self::ensure_client_id(algo, seq, &mut request) {
                    Some(after) => Some(
                        (
                            ChildOrderRequest { parent_algo_id: algo, action: ChildOrderAction::Place(request) },
                            after,
                        ),
                    ),
                    None => None,
                }
            },
            PluginChildOrderAction::Amend(update) => {
                let request = convert_order_update(update);
                Some(
                    (ChildOrderRequest { parent_algo_id: algo, action: ChildOrderAction::Amend(request) }, seq),
                )
            },
        }
    }

    /// The child orders that a plugin's answer stands for, in the order given.
    fn decode_orders(algo: Uuid, seq: u64, orders: &Vec<PluginChildOrderRequest>) -> (r: Option<
        (Vec<ChildOrderRequest>, u64),
    >)
        ensures
            match r {
                Some((children, after)) => children_of(algo.value, seq, orders@) == Some(
                    (child_models(children@), after),
                ),
                None => children_of(algo.value, seq, orders@) is None,
            },
    {
        let mut mapped: Vec<ChildOrderRequest> = Vec::new();
        let mut current = seq;
        let mut i: usize = 0;
        proof {
            assert(orders@.take(0) =~= Seq::empty());
            assert(child_models(mapped@) =~= Seq::empty());
        }
        while i < orders.len()
            invariant
                i <= orders.len(),
                children_of(algo.value, seq, orders@.take(i as int)) == Some((child_models(mapped@), current)),
            decreases orders.len() - i,
        {
            let ghost before = mapped@;
            proof {
                assert(orders@.take(i + 1).drop_last() =~= orders@.take(i as int));
                assert(orders@.take(i + 1).last() == orders@[i as int]);
            }
            match Self::build_child_request(algo, current, &orders[i]) {
                None => {
                    proof {
                        lemma_children_of_fails_for_good(algo.value, seq, orders@, i + 1);
                    }
                    return None;
                },
                Some((child, after)) => {
                    mapped.push(child);
                    current = after;
                    proof {
                        assert(child_models(mapped@) =~= child_models(before).push(child@));
                    }
                },
            }
            i = i + 1;
        }
        proof {
            assert(orders@.take(i as int) =~= orders@);
        }
        Some((mapped, current))
    }

    /// Takes the plugin's answer to a call and the plugin's state after it, and returns
    /// the child orders to dispatch.
    pub fn apply_result(&mut self, call: CallKind, result: &PluginResult, plugin_state: String) -> (r: Result<
        Vec<ChildOrderRequest>,
        PluginError,
    >)
        ensures
            (final(self)@, children_result(r)) == applied(
                old(self)@,
                call,
                result.orders@,
                result.completed,
                plugin_state@,
            ),
            may_follow(old(self)@.status, final(self)@.status),
            final(self)@.next_client_seq >= old(self)@.next_client_seq,
    {
        match self.status {
            AlgoStatus::Working => {},
            _ => {
                let none: Vec<ChildOrderRequest> = Vec::new();
                proof {
                    assert(child_models(none@) =~= Seq::empty());
                }
                return Ok(none);
            },
        }
        proof {
            lemma_children_of_grows(self.id.value, self.next_client_seq, result.orders@);
        }
        match Self::decode_orders(self.id, self.next_client_seq, &result.orders) {
            None => {
                self.status = AlgoStatus::Failed;
                Err(PluginError::SequenceExhausted)
            },
            Some((children, after)) => {
                self.status = if result.completed {
                    AlgoStatus::Completed
                } else {
                    AlgoStatus::Working
                };
                match call {
                    CallKind::Init => {
                        self.started = true;
                    },
                    _ => {},
                }
                self.plugin_state = plugin_state;
                self.next_client_seq = after;
                Ok(children)
            },
        }
    }
}

/// Once the sequence numbers have run out on a prefix of the orders, they have run out
/// on the whole.
pub proof fn lemma_children_of_fails_for_good(algo: u128, seq: u64, orders: Seq<PluginChildOrderRequest>, n: int)
    requires
        0 <= n <= orders.len(),
        children_of(algo, seq, orders.take(n)) is None,
    ensures
        children_of(algo, seq, orders) is None,
    decreases orders.len() - n,
{
    if n < orders.len() {
        assert(orders.take(n + 1).drop_last() =~= orders.take(n));
        lemma_children_of_fails_for_good(algo, seq, orders, n + 1);
    } else {
        assert(orders.take(n) =~= orders);
    }
}

/// Child orders come out in the order the plugin gave its orders in: the `i`-th child
/// order stands for the `i`-th order, converted with the sequence number that the orders
/// before it left.
pub proof fn lemma_children_keep_order(algo: u128, seq: u64, orders: Seq<PluginChildOrderRequest>, i: int)
    requires
        0 <= i < orders.len(),
        children_of(algo, seq, orders) is Some,
    ensures
        children_of(algo, seq, orders.take(i)) is Some,
        children_of(algo, seq, orders.take(i + 1)) is Some,
        child_of(algo, children_of(algo, seq, orders.take(i)).unwrap().1, orders[i]) == Some(
            (
                children_of(algo, seq, orders).unwrap().0[i],
                children_of(algo, seq, orders.take(i + 1)).unwrap().1,
            ),
        ),
    decreases orders.len(),
{
    let front = orders.drop_last();
    lemma_children_of_grows(algo, seq, front);
    if i == orders.len() - 1 {
        assert(orders.take(i) =~= front);
        assert(orders.take(i + 1) =~= orders);
    } else {
        lemma_children_keep_order(algo, seq, front, i);
        assert(front.take(i) =~= orders.take(i));
        assert(front.take(i + 1) =~= orders.take(i + 1));
    }
}

/// Converting orders never lowers the sequence number, and yields one child order for
/// each order given.
pub proof fn lemma_children_of_grows(algo: u128, seq: u64, orders: Seq<PluginChildOrderRequest>)
    ensures
        children_of(algo, seq, orders) matches Some((children, after)) ==> after >= seq && children.len()
            == orders.len() && after - seq <= orders.len(),
    decreases orders.len(),
{
    if orders.len() > 0 {
        lemma_children_of_grows(algo, seq, orders.drop_last());
    }
}

/// What every order id assigned to algorithm `algo` starts with.
pub open spec fn order_id_prefix(algo: u128) -> Seq<char> {
    "plugin-"@ + simple_text(algo) + "-"@
}

/// The sequence number in an order id that the host assigned to algorithm `algo`;
/// `None` for any other text.
pub open spec fn recovered_sequence(text: Seq<char>, algo: u128) -> Option<u64> {
    let prefix = order_id_prefix(algo);
    if text.len() > prefix.len() && text.subrange(0, prefix.len() as int) == prefix {
        match digits_value(text.subrange(prefix.len() as int, text.len() as int)) {
            Some(v) => if v <= u64::MAX {
                Some(v as u64)
            } else {
                None
            },
            None => None,
        }
    } else {
        None
    }
}

/// A sequence number's text stands for that number, and is not empty.
pub proof fn lemma_sequence_text_value(n: nat)
    ensures
        digits_value(sequence_text(n)) == Some(n),
        sequence_text(n).len() >= 1,
{
    if n < 10000 {
        let s = sequence_text(n);
        let s3 = s.drop_last();
        let s2 = s3.drop_last();
        let s1 = s2.drop_last();
        let s0 = s1.drop_last();
        assert(s0 =~= Seq::<char>::empty());
        lemma_digit_round_trip(n / 1000);
        lemma_digit_round_trip(n / 100 % 10);
        lemma_digit_round_trip(n / 10 % 10);
        lemma_digit_round_trip(n % 10);
        assert(digits_value(s0) == Some(0nat));
        assert(s1.last() == digit_char((n / 1000) as int));
        assert(digits_value(s1) == Some(n / 1000));
        assert(s2.last() == digit_char((n / 100 % 10) as int));
        assert(digits_value(s2) == Some(n / 100));
        assert(s3.last() == digit_char((n / 10 % 10) as int));
        assert(digits_value(s3) == Some(n / 10));
        assert(s.last() == digit_char((n % 10) as int));
    } else {
        lemma_decimal_digits_value(n);
    }
}

/// The sequence number of an assigned order id can be read back from it.
pub proof fn lemma_order_id_round_trip(algo: u128, seq: u64)
    ensures
        recovered_sequence(plugin_order_id(algo, seq as nat), algo) == Some(seq),
{
    let prefix = order_id_prefix(algo);
    let digits = sequence_text(seq as nat);
    let text = plugin_order_id(algo, seq as nat);
    lemma_sequence_text_value(seq as nat);
    assert(text =~= prefix + digits);
    assert(text.subrange(0, prefix.len() as int) =~= prefix);
    assert(text.subrange(prefix.len() as int, text.len() as int) =~= digits);
}

/// Two order ids assigned to one algorithm under different sequence numbers differ: an
/// id is never used twice.
pub proof fn lemma_order_ids_are_distinct(algo: u128, a: u64, b: u64)
    requires
        a != b,
    ensures
        plugin_order_id(algo, a as nat) != plugin_order_id(algo, b as nat),
{
    lemma_order_id_round_trip(algo, a);
    lemma_order_id_round_trip(algo, b);
}

/// The sequence number in use after a placed order is reported: the number in the
/// order's id where the host assigned that id to this algorithm and the number is
/// ahead, the old number otherwise.
pub open spec fn sequence_after_placement(algo: u128, seq: u64, client_order_id: Option<Seq<char>>) -> u64 {
    match client_order_id {
        None => seq,
        Some(text) => match recovered_sequence(text, algo) {
            Some(n) => if n > seq {
                n
            } else {
                seq
            },
            None => seq,
        },
    }
}

/// Reads the sequence number from an order id that the host assigned to `algo`.
pub fn recover_sequence(text: &str, algo: Uuid) -> (r: Option<u64>)
    ensures
        r == recovered_sequence(text@, algo.value),
{
    let mut prefix = String::from_str("plugin-");
    let hex = algo.simple();
    prefix.append(hex.as_str());
    prefix.append("-");
    let prefix_len = prefix.as_str().unicode_len();
    let text_len = text.unicode_len();
    if text_len <= prefix_len {
        return None;
    }
    let head = String::from_str(text.substring_char(0, prefix_len));
    if !(head == prefix) {
        return None;
    }
    let ghost digits = text@.subrange(prefix_len as int, text_len as int);
    let mut value: u64 = 0;
    let mut i: usize = prefix_len;
    proof {
        assert(digits.take(0) =~= Seq::<char>::empty());
    }
    while i < text_len
        invariant
            prefix_len <= i <= text_len,
            text_len == text@.len(),
            prefix_len == order_id_prefix(algo.value).len(),
            text@.len() > prefix_len,
            text@.subrange(0, prefix_len as int) == order_id_prefix(algo.value),
            digits == text@.subrange(prefix_len as int, text_len as int),
            digits_value(digits.take(i - prefix_len)) == Some(value as nat),
        decreases text_len - i,
    {
        let c = text.get_char(i);
        proof {
            assert(digits.take(i - prefix_len + 1).drop_last() =~= digits.take(i - prefix_len));
            assert(digits.take(i - prefix_len + 1).last() == c);
            lemma_digits_value_grows(digits, i - prefix_len + 1);
        }
        let d = match digit_of(c) {
            Some(d) => d,
            None => {
                return None;
            },
        };
        if value > (u64::MAX - d) / 10 {
            return None;
        }
        value = value * 10 + d;
        i = i + 1;
    }
    proof {
        assert(digits.take(i - prefix_len) =~= digits);
    }
    Some(value)
}

impl WasmAlgorithm {
    /// Takes note of an order that the broker reports as placed for this algorithm.
    ///
    /// Where the order carries an id that the host assigned to this algorithm under a
    /// sequence number ahead of the one in use, the algorithm catches up, so that the
    /// number is not given out again. This is what makes a restart between a placement
    /// and the snapshot after it safe.
    pub fn on_child_order_placed(&mut self, order: &Order)
        ensures
            final(self)@ == (WasmAlgorithmModel {
                next_client_seq: sequence_after_placement(
                    old(self)@.id,
                    old(self)@.next_client_seq,
                    order@.request.client_order_id,
                ),
                ..old(self)@
            }),
            final(self)@.next_client_seq >= old(self)@.next_client_seq,
    {
        match &order.request.client_order_id {
            None => {},
            Some(text) => match recover_sequence(text.as_str(), self.id) {
                Some(n) => {
                    if n > self.next_client_seq {
                        self.next_client_seq = n;
                    }
                },
                None => {},
            },
        }
    }
}

/// After a placed order with an assigned id is reported, the next id the host assigns is
/// a different one.
pub proof fn lemma_replayed_id_is_not_reused(algo: u128, seq: u64, placed: u64)
    requires
        sequence_after_placement(algo, seq, Some(plugin_order_id(algo, placed as nat))) < u64::MAX,
    ensures
        sequence_after_placement(algo, seq, Some(plugin_order_id(algo, placed as nat))) >= placed,
        plugin_order_id(
            algo,
            (sequence_after_placement(algo, seq, Some(plugin_order_id(algo, placed as nat))) + 1) as nat,
        ) != plugin_order_id(algo, placed as nat),
{
    lemma_order_id_round_trip(algo, placed);
    let after = sequence_after_placement(algo, seq, Some(plugin_order_id(algo, placed as nat)));
    lemma_order_ids_are_distinct(algo, (after + 1) as u64, placed);
}

} // verus!
