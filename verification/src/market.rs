//! Orders, signals, fills and ticks: the values that flow through the execution core.

use vstd::prelude::*;
use crate::decimal::{Decimal, DecimalModel};
use crate::ident::{Symbol, Uuid};

verus! {

/// Direction of an order.
#[derive(Clone, Copy, Debug, PartialEq, Eq, Structural)]
pub enum Side {
    Buy,
    Sell,
}

impl Side {
    /// The other direction.
    pub fn opposite(self) -> (r: Side)
        ensures
            r != self,
    {
        match self {
            Side::Buy => Side::Sell,
            Side::Sell => Side::Buy,
        }
    }
}

/// How an order is priced.
#[derive(Clone, Copy, Debug, PartialEq, Eq, Structural)]
pub enum OrderType {
    Market,
    Limit,
    StopMarket,
}

/// How long an order stays live.
#[derive(Clone, Copy, Debug, PartialEq, Eq, Structural)]
pub enum TimeInForce {
    GoodTilCanceled,
    ImmediateOrCancel,
    FillOrKill,
}

/// What a strategy asks for.
#[derive(Clone, Copy, Debug, PartialEq, Eq, Structural)]
pub enum SignalKind {
    EnterLong,
    ExitLong,
    EnterShort,
    ExitShort,
    Flatten,
}

/// The side of the order that carries out a signal: entering long and exiting short
/// buy, everything else sells.
pub open spec fn signal_side(kind: SignalKind) -> Side {
    match kind {
        SignalKind::EnterLong | SignalKind::ExitShort => Side::Buy,
        SignalKind::ExitLong | SignalKind::EnterShort | SignalKind::Flatten => Side::Sell,
    }
}

impl SignalKind {
    /// The side of the order that carries out the signal.
    pub fn side(self) -> (r: Side)
        ensures
            r == signal_side(self),
    {
        match self {
            SignalKind::EnterLong | SignalKind::ExitShort => Side::Buy,
            SignalKind::ExitLong | SignalKind::EnterShort | SignalKind::Flatten => Side::Sell,
        }
    }
}

/// The model of an optional decimal.
pub open spec fn decimal_option(d: Option<Decimal>) -> Option<DecimalModel> {
    match d {
        Some(x) => Some(x@),
        None => None,
    }
}

/// The characters of an optional text.
pub open spec fn text_option(t: Option<String>) -> Option<Seq<char>> {
    match t {
        Some(x) => Some(x@),
        None => None,
    }
}

/// Copies an optional text.
pub fn copy_text(text: &Option<String>) -> (r: Option<String>)
    ensures
        r == *text,
{
    match text {
        Some(s) => Some(s.clone()),
        None => None,
    }
}

/// A strategy's intent to change exposure.
#[derive(Debug, PartialEq)]
pub struct Signal {
    pub id: Uuid,
    pub symbol: Symbol,
    pub kind: SignalKind,
    /// Advisory confidence between 0 and 1; the core never gates on it.
    pub confidence: Decimal,
    pub stop_loss: Option<Decimal>,
    pub take_profit: Option<Decimal>,
    pub group_id: Option<Uuid>,
    pub note: Option<String>,
}

/// The mathematical content of a [`Signal`].
pub struct SignalModel {
    pub id: u128,
    pub symbol: Seq<char>,
    pub kind: SignalKind,
    pub confidence: DecimalModel,
    pub stop_loss: Option<DecimalModel>,
    pub take_profit: Option<DecimalModel>,
    pub group_id: Option<Uuid>,
    pub note: Option<Seq<char>>,
}

impl View for Signal {
    type V = SignalModel;

    open spec fn view(&self) -> SignalModel {
        SignalModel {
            id: self.id.value,
            symbol: self.symbol@,
            kind: self.kind,
            confidence: self.confidence@,
            stop_loss: decimal_option(self.stop_loss),
            take_profit: decimal_option(self.take_profit),
            group_id: self.group_id,
            note: text_option(self.note),
        }
    }
}

impl Clone for Signal {
    fn clone(&self) -> (r: Signal)
        ensures
            r == *self,
    {
        Signal {
            id: self.id,
            symbol: self.symbol.clone(),
            kind: self.kind,
            confidence: self.confidence,
            stop_loss: self.stop_loss,
            take_profit: self.take_profit,
            group_id: self.group_id,
            note: copy_text(&self.note),
        }
    }
}

impl Signal {
    /// A signal with the given identifier and no protective prices, group or note.
    pub fn with_id(id: Uuid, symbol: Symbol, kind: SignalKind, confidence: Decimal) -> (r: Signal)
        ensures
            r == (Signal {
                id,
                symbol,
                kind,
                confidence,
                stop_loss: None,
                take_profit: None,
                group_id: None,
                note: None,
            }),
    {
        Signal {
            id,
            symbol,
            kind,
            confidence,
            stop_loss: None,
            take_profit: None,
            group_id: None,
            note: None,
        }
    }

    /// A signal under a fresh random identifier, with no protective prices, group or
    /// note.
    pub fn new(symbol: Symbol, kind: SignalKind, confidence: Decimal) -> (r: Signal)
        ensures
            r == (Signal {
                id: r.id,
                symbol,
                kind,
                confidence,
                stop_loss: None,
                take_profit: None,
                group_id: None,
                note: None,
            }),
    {
        Signal::with_id(Uuid::random(), symbol, kind, confidence)
    }

    /// The same signal with a stop-loss price.
    pub fn with_stop_loss(self, price: Decimal) -> (r: Signal)
        ensures
            r == (Signal { stop_loss: Some(price), ..self }),
    {
        Signal { stop_loss: Some(price), ..self }
    }

    /// The same signal with a take-profit price.
    pub fn with_take_profit(self, price: Decimal) -> (r: Signal)
        ensures
            r == (Signal { take_profit: Some(price), ..self }),
    {
        Signal { take_profit: Some(price), ..self }
    }
}

/// The shape every request must have: a market order carries no price and a stop order
/// carries its trigger price.
pub open spec fn request_well_formed(r: OrderRequestModel) -> bool {
    &&& r.order_type == OrderType::Market ==> r.price is None
    &&& r.order_type == OrderType::StopMarket ==> r.trigger_price is Some
}

/// A request to place an order.
#[derive(Debug, PartialEq)]
pub struct OrderRequest {
    pub symbol: Symbol,
    pub side: Side,
    pub order_type: OrderType,
    pub quantity: Decimal,
    pub price: Option<Decimal>,
    pub trigger_price: Option<Decimal>,
    pub time_in_force: Option<TimeInForce>,
    pub client_order_id: Option<String>,
    pub take_profit: Option<Decimal>,
    pub stop_loss: Option<Decimal>,
    pub display_quantity: Option<Decimal>,
}

/// The mathematical content of an [`OrderRequest`].
pub struct OrderRequestModel {
    pub symbol: Seq<char>,
    pub side: Side,
    pub order_type: OrderType,
    pub quantity: DecimalModel,
    pub price: Option<DecimalModel>,
    pub trigger_price: Option<DecimalModel>,
    pub time_in_force: Option<TimeInForce>,
    pub client_order_id: Option<Seq<char>>,
    pub take_profit: Option<DecimalModel>,
    pub stop_loss: Option<DecimalModel>,
    pub display_quantity: Option<DecimalModel>,
}

impl View for OrderRequest {
    type V = OrderRequestModel;

    open spec fn view(&self) -> OrderRequestModel {
        OrderRequestModel {
            symbol: self.symbol@,
            side: self.side,
            order_type: self.order_type,
            quantity: self.quantity@,
            price: decimal_option(self.price),
            trigger_price: decimal_option(self.trigger_price),
            time_in_force: self.time_in_force,
            client_order_id: text_option(self.client_order_id),
            take_profit: decimal_option(self.take_profit),
            stop_loss: decimal_option(self.stop_loss),
            display_quantity: decimal_option(self.display_quantity),
        }
    }
}

impl Clone for OrderRequest {
    fn clone(&self) -> (r: OrderRequest)
        ensures
            r == *self,
    {
        OrderRequest {
            symbol: self.symbol.clone(),
            side: self.side,
            order_type: self.order_type,
            quantity: self.quantity,
            price: self.price,
            trigger_price: self.trigger_price,
            time_in_force: self.time_in_force,
            client_order_id: copy_text(&self.client_order_id),
            take_profit: self.take_profit,
            stop_loss: self.stop_loss,
            display_quantity: self.display_quantity,
        }
    }
}

impl OrderRequest {
    /// The shape every request must have: a market order carries no price and a stop
    /// order carries its trigger price.
    pub open spec fn well_formed(&self) -> bool {
        request_well_formed(self@)
    }

    /// Whether the request has the shape every request must have.
    pub fn is_well_formed(&self) -> (r: bool)
        ensures
            r == request_well_formed(self@),
    {
        match self.order_type {
            OrderType::Market => self.price.is_none(),
            OrderType::StopMarket => self.trigger_price.is_some(),
            OrderType::Limit => true,
        }
    }
}

/// A request to change the price or quantity of a live order.
#[derive(Debug, PartialEq)]
pub struct OrderUpdateRequest {
    pub order_id: String,
    pub symbol: Symbol,
    pub side: Side,
    pub new_price: Option<Decimal>,
    pub new_quantity: Option<Decimal>,
}

/// The mathematical content of an [`OrderUpdateRequest`].
pub struct OrderUpdateRequestModel {
    pub order_id: Seq<char>,
    pub symbol: Seq<char>,
    pub side: Side,
    pub new_price: Option<DecimalModel>,
    pub new_quantity: Option<DecimalModel>,
}

impl View for OrderUpdateRequest {
    type V = OrderUpdateRequestModel;

    open spec fn view(&self) -> OrderUpdateRequestModel {
        OrderUpdateRequestModel {
            order_id: self.order_id@,
            symbol: self.symbol@,
            side: self.side,
            new_price: decimal_option(self.new_price),
            new_quantity: decimal_option(self.new_quantity),
        }
    }
}

impl Clone for OrderUpdateRequest {
    fn clone(&self) -> (r: OrderUpdateRequest)
        ensures
            r == *self,
    {
        OrderUpdateRequest {
            order_id: self.order_id.clone(),
            symbol: self.symbol.clone(),
            side: self.side,
            new_price: self.new_price,
            new_quantity: self.new_quantity,
        }
    }
}

/// Where an order stands at the broker.
#[derive(Clone, Copy, Debug, PartialEq, Eq, Structural)]
pub enum OrderStatus {
    PendingNew,
    Accepted,
    PartiallyFilled,
    Filled,
    Canceled,
    Rejected,
}

/// An order as the broker reports it after a successful placement.
#[derive(Debug, PartialEq)]
pub struct Order {
    pub id: String,
    pub request: OrderRequest,
    pub status: OrderStatus,
    pub created_at_ms: i64,
    pub updated_at_ms: i64,
}

/// The mathematical content of an [`Order`].
pub struct OrderModel {
    pub id: Seq<char>,
    pub request: OrderRequestModel,
    pub status: OrderStatus,
    pub created_at_ms: i64,
    pub updated_at_ms: i64,
}

impl View for Order {
    type V = OrderModel;

    open spec fn view(&self) -> OrderModel {
        OrderModel {
            id: self.id@,
            request: self.request@,
            status: self.status,
            created_at_ms: self.created_at_ms,
            updated_at_ms: self.updated_at_ms,
        }
    }
}

impl Clone for Order {
    fn clone(&self) -> (r: Order)
        ensures
            r == *self,
    {
        Order {
            id: self.id.clone(),
            request: self.request.clone(),
            status: self.status,
            created_at_ms: self.created_at_ms,
            updated_at_ms: self.updated_at_ms,
        }
    }
}

/// An execution reported by the broker. Fills are facts: they are only ever appended.
#[derive(Debug, PartialEq)]
pub struct Fill {
    pub order_id: String,
    pub symbol: Symbol,
    pub side: Side,
    pub fill_price: Decimal,
    pub fill_quantity: Decimal,
    pub fee: Option<Decimal>,
    pub fee_asset: Option<String>,
    pub timestamp_ms: i64,
}

/// The mathematical content of a [`Fill`].
pub struct FillModel {
    pub order_id: Seq<char>,
    pub symbol: Seq<char>,
    pub side: Side,
    pub fill_price: DecimalModel,
    pub fill_quantity: DecimalModel,
    pub fee: Option<DecimalModel>,
    pub fee_asset: Option<Seq<char>>,
    pub timestamp_ms: i64,
}

impl View for Fill {
    type V = FillModel;

    open spec fn view(&self) -> FillModel {
        FillModel {
            order_id: self.order_id@,
            symbol: self.symbol@,
            side: self.side,
            fill_price: self.fill_price@,
            fill_quantity: self.fill_quantity@,
            fee: decimal_option(self.fee),
            fee_asset: text_option(self.fee_asset),
            timestamp_ms: self.timestamp_ms,
        }
    }
}

impl Clone for Fill {
    fn clone(&self) -> (r: Fill)
        ensures
            r == *self,
    {
        Fill {
            order_id: self.order_id.clone(),
            symbol: self.symbol.clone(),
            side: self.side,
            fill_price: self.fill_price,
            fill_quantity: self.fill_quantity,
            fee: self.fee,
            fee_asset: copy_text(&self.fee_asset),
            timestamp_ms: self.timestamp_ms,
        }
    }
}

/// Whether two optional decimals are the same, mantissa and scale.
pub fn same_decimal_option(a: &Option<Decimal>, b: &Option<Decimal>) -> (r: bool)
    ensures
        r == (decimal_option(*a) == decimal_option(*b)),
{
    match (a, b) {
        (Some(x), Some(y)) => x.same_representation(y),
        (None, None) => true,
        _ => false,
    }
}

/// Whether two optional texts are the same.
pub fn same_text_option(a: &Option<String>, b: &Option<String>) -> (r: bool)
    ensures
        r == (text_option(*a) == text_option(*b)),
{
    match (a, b) {
        (Some(x), Some(y)) => *x == *y,
        (None, None) => true,
        _ => false,
    }
}

impl Fill {
    /// Whether two fills state the same fact: every field is the same.
    pub fn same_as(&self, other: &Fill) -> (r: bool)
        ensures
            r == (self@ == other@),
    {
        self.order_id == other.order_id && self.symbol.same_as(&other.symbol) && self.side == other.side
            && self.fill_price.same_representation(&other.fill_price)
            && self.fill_quantity.same_representation(&other.fill_quantity) && same_decimal_option(
            &self.fee,
            &other.fee,
        ) && same_text_option(&self.fee_asset, &other.fee_asset) && self.timestamp_ms == other.timestamp_ms
    }
}

/// A trade print from the market-data feed.
#[derive(Debug, PartialEq)]
pub struct Tick {
    pub symbol: Symbol,
    pub price: Decimal,
    pub size: Decimal,
    pub side: Side,
    pub exchange_timestamp_ms: i64,
}

/// The mathematical content of a [`Tick`].
pub struct TickModel {
    pub symbol: Seq<char>,
    pub price: DecimalModel,
    pub size: DecimalModel,
    pub side: Side,
    pub exchange_timestamp_ms: i64,
}

impl View for Tick {
    type V = TickModel;

    open spec fn view(&self) -> TickModel {
        TickModel {
            symbol: self.symbol@,
            price: self.price@,
            size: self.size@,
            side: self.side,
            exchange_timestamp_ms: self.exchange_timestamp_ms,
        }
    }
}

impl Clone for Tick {
    fn clone(&self) -> (r: Tick)
        ensures
            r == *self,
    {
        Tick {
            symbol: self.symbol.clone(),
            price: self.price,
            size: self.size,
            side: self.side,
            exchange_timestamp_ms: self.exchange_timestamp_ms,
        }
    }
}

/// The time that a candle covers.
#[derive(Clone, Copy, Debug, PartialEq, Eq, Structural)]
pub enum Interval {
    OneSecond,
    OneMinute,
    FiveMinutes,
    FifteenMinutes,
    OneHour,
    FourHours,
    OneDay,
}

/// The prices and the volume traded in one interval.
#[derive(Debug, PartialEq)]
pub struct Candle {
    pub symbol: Symbol,
    pub interval: Interval,
    pub open: Decimal,
    pub high: Decimal,
    pub low: Decimal,
    pub close: Decimal,
    pub volume: Decimal,
    pub timestamp_ms: i64,
}

impl Clone for Candle {
    fn clone(&self) -> (r: Candle)
        ensures
            r == *self,
    {
        Candle {
            symbol: self.symbol.clone(),
            interval: self.interval,
            open: self.open,
            high: self.high,
            low: self.low,
            close: self.close,
            volume: self.volume,
            timestamp_ms: self.timestamp_ms,
        }
    }
}

/// An open position in one symbol.
#[derive(Debug, PartialEq)]
pub struct Position {
    pub symbol: Symbol,
    pub side: Option<Side>,
    pub quantity: Decimal,
    pub entry_price: Option<Decimal>,
    pub unrealized_pnl: Decimal,
    pub updated_at_ms: i64,
}

impl Clone for Position {
    fn clone(&self) -> (r: Position)
        ensures
            r == *self,
    {
        Position {
            symbol: self.symbol.clone(),
            side: self.side,
            quantity: self.quantity,
            entry_price: self.entry_price,
            unrealized_pnl: self.unrealized_pnl,
            updated_at_ms: self.updated_at_ms,
        }
    }
}

/// The balance of an account in one currency.
#[derive(Debug, PartialEq)]
pub struct AccountBalance {
    pub currency: String,
    pub total: Decimal,
    pub available: Decimal,
    pub updated_at_ms: i64,
}

impl Clone for AccountBalance {
    fn clone(&self) -> (r: AccountBalance)
        ensures
            r == *self,
    {
        AccountBalance {
            currency: self.currency.clone(),
            total: self.total,
            available: self.available,
            updated_at_ms: self.updated_at_ms,
        }
    }
}

} // verus!
