//! Strategies that run in another process: the messages exchanged with them and the
//! transport-agnostic client they are reached through.

use vstd::prelude::*;
use vstd::string::StringExecFns;
use crate::decimal::Decimal;
use crate::ident::Symbol;
use crate::market::{Candle, Fill, Signal, SignalModel, Tick};
use crate::strategy::{StrategyError, StrategyErrorModel};

verus! {

/// Why a call to the remote strategy failed.
#[derive(Debug, PartialEq, Eq)]
pub struct TransportError {
    pub message: String,
}

/// The first message to a remote strategy: its configuration as JSON text.
#[derive(Debug, PartialEq, Eq)]
pub struct InitRequest {
    pub config_json: String,
}

/// The remote strategy's answer to the first message.
#[derive(Debug, PartialEq, Eq)]
pub struct InitResponse {
    pub success: bool,
    pub error_message: String,
    /// The symbols the strategy wants to hear about; the first is its primary symbol.
    pub symbols: Vec<String>,
}

/// A tick handed to the remote strategy.
#[derive(Debug, PartialEq)]
pub struct TickRequest {
    pub tick: Tick,
}

/// A candle handed to the remote strategy.
#[derive(Debug, PartialEq)]
pub struct CandleRequest {
    pub candle: Candle,
}

/// One price level of an order book.
#[derive(Clone, Copy, Debug, PartialEq)]
pub struct BookLevel {
    pub price: Decimal,
    pub size: Decimal,
}

/// The bids and asks of a symbol at one instant, best first.
#[derive(Debug, PartialEq)]
pub struct OrderBook {
    pub symbol: Symbol,
    pub bids: Vec<BookLevel>,
    pub asks: Vec<BookLevel>,
    pub timestamp_ms: i64,
}

/// An order book snapshot handed to the remote strategy.
#[derive(Debug, PartialEq)]
pub struct OrderBookRequest {
    pub order_book: OrderBook,
}

/// A fill handed to the remote strategy.
#[derive(Debug, PartialEq)]
pub struct FillRequest {
    pub fill: Fill,
}

/// The signals a remote strategy answers with.
#[derive(Debug, PartialEq)]
pub struct SignalList {
    pub signals: Vec<Signal>,
}

/// The remote strategy's answer to a heartbeat.
#[derive(Debug, PartialEq, Eq)]
pub struct HeartbeatResponse {
    pub healthy: bool,
    pub status_msg: String,
}

/// Transport-agnostic interface to a strategy that runs in another process. An
/// implementation may speak gRPC, shared memory or anything else; nothing is assumed of
/// what it answers.
pub trait RemoteStrategyClient {
    /// Establishes the connection to the remote strategy.
    fn connect(&mut self) -> Result<(), TransportError>;

    /// Performs the initial handshake and configuration.
    fn initialize(&mut self, req: InitRequest) -> Result<InitResponse, TransportError>;

    /// Pushes a tick event.
    fn on_tick(&mut self, req: TickRequest) -> Result<SignalList, TransportError>;

    /// Pushes a candle event.
    fn on_candle(&mut self, req: CandleRequest) -> Result<SignalList, TransportError>;

    /// Pushes an order book snapshot.
    fn on_order_book(&mut self, req: OrderBookRequest) -> Result<SignalList, TransportError>;

    /// Pushes an execution fill.
    fn on_fill(&mut self, req: FillRequest) -> Result<SignalList, TransportError>;

    /// Asks the remote strategy whether it is healthy.
    fn heartbeat(&mut self) -> Result<HeartbeatResponse, TransportError>;
}

/// How the remote strategy is reached.
#[derive(Debug, PartialEq, Eq)]
pub enum TransportConfig {
    /// Over gRPC, at `endpoint`, with `timeout_ms` for each call.
    Grpc { endpoint: String, timeout_ms: u64 },
}

impl Clone for TransportConfig {
    fn clone(&self) -> (r: TransportConfig)
        ensures
            r == *self,
    {
        match self {
            TransportConfig::Grpc { endpoint, timeout_ms } => TransportConfig::Grpc {
                endpoint: endpoint.clone(),
                timeout_ms: *timeout_ms,
            },
        }
    }
}

impl TransportConfig {
    /// The timeout that calls are made with, in milliseconds: the configured one, and
    /// one millisecond where none is configured.
    pub fn effective_timeout_ms(&self) -> (r: u64)
        ensures
            r == match *self {
                TransportConfig::Grpc { endpoint, timeout_ms } => if timeout_ms == 0 {
                    1
                } else {
                    timeout_ms
                },
            },
    {
        match self {
            TransportConfig::Grpc { endpoint, timeout_ms } => if *timeout_ms == 0 {
                1
            } else {
                *timeout_ms
            },
        }
    }
}

/// The timeout of a call unless configured, in milliseconds.
pub fn default_timeout_ms() -> (r: u64)
    ensures
        r == 500,
{
    500
}

/// The time between two heartbeats unless configured, in milliseconds.
pub const DEFAULT_HEARTBEAT_INTERVAL_MS: u64 = 5_000;

/// The number of failed heartbeats in a row after which the connection is given up.
pub const MAX_HEARTBEAT_FAILURES: u32 = 3;

/// What a heartbeat brought.
#[derive(Clone, Copy, Debug, PartialEq, Eq, Structural)]
pub enum HeartbeatOutcome {
    /// The remote strategy answered and is healthy.
    Healthy,
    /// The remote strategy answered and is not healthy.
    Unhealthy,
    /// The call failed.
    Failed,
}

/// What follows from a heartbeat.
#[derive(Clone, Copy, Debug, PartialEq, Eq, Structural)]
pub struct HeartbeatVerdict {
    /// Whether the connection counts as healthy from now on.
    pub healthy: bool,
    /// Whether the heartbeats are to stop.
    pub stop: bool,
}

/// The number of failures in a row after a heartbeat: none after a healthy one, one more
/// after any other.
pub open spec fn failures_after(failures: u32, outcome: HeartbeatOutcome) -> u32 {
    if outcome == HeartbeatOutcome::Healthy {
        0
    } else if failures == u32::MAX {
        failures
    } else {
        (failures + 1) as u32
    }
}

/// Counts failed heartbeats in a row.
#[derive(Clone, Copy, Debug, PartialEq, Eq)]
pub struct HeartbeatMonitor {
    pub failures: u32,
    pub max_failures: u32,
}

impl HeartbeatMonitor {
    /// A monitor that gives up after `max_failures` failed heartbeats in a row.
    pub fn new(max_failures: u32) -> (r: HeartbeatMonitor)
        ensures
            r.failures == 0,
            r.max_failures == max_failures,
    {
        HeartbeatMonitor { failures: 0, max_failures }
    }

    /// Takes the outcome of a heartbeat. The connection is healthy exactly after a
    /// healthy heartbeat; the heartbeats stop once the failures in a row have reached
    /// the maximum.
    pub fn observe(&mut self, outcome: HeartbeatOutcome) -> (r: HeartbeatVerdict)
        ensures
            final(self).max_failures == old(self).max_failures,
            final(self).failures == failures_after(old(self).failures, outcome),
            r.healthy == (outcome == HeartbeatOutcome::Healthy),
            r.stop == (final(self).failures >= final(self).max_failures),
    {
        let healthy = match outcome {
            HeartbeatOutcome::Healthy => {
                self.failures = 0;
                true
            },
            _ => {
                if self.failures < u32::MAX {
                    self.failures = self.failures + 1;
                }
                false
            },
        };
        HeartbeatVerdict { healthy, stop: self.failures >= self.max_failures }
    }
}

/// What has to happen before the remote strategy can be called.
#[derive(Debug, PartialEq, Eq)]
pub enum ConnectionPlan {
    /// The connection is up and healthy: use it.
    Reuse,
    /// Connect with `config`, then hand over `init`.
    Connect { config: TransportConfig, init: InitRequest },
    /// There is nothing to connect with.
    Fail(StrategyError),
}

/// The texts of a sequence of strings.
pub open spec fn texts(v: Seq<String>) -> Seq<Seq<char>> {
    v.map_values(|s: String| s@)
}

/// The models of a sequence of signals.
pub open spec fn signal_models(v: Seq<Signal>) -> Seq<SignalModel> {
    v.map_values(|s: Signal| s@)
}

/// The mathematical content of an [`RpcStrategy`].
pub struct RpcStrategyModel {
    pub connected: bool,
    pub healthy: bool,
    pub transport: Option<TransportConfig>,
    pub config_payload: Seq<char>,
    pub subscriptions: Seq<Seq<char>>,
    pub pending: Seq<SignalModel>,
    pub symbol: Seq<char>,
}

/// The strategy before it is configured.
pub open spec fn unconfigured() -> RpcStrategyModel {
    RpcStrategyModel {
        connected: false,
        healthy: true,
        transport: None,
        config_payload: "{}"@,
        subscriptions: Seq::empty(),
        pending: Seq::empty(),
        symbol: "UNKNOWN"@,
    }
}

/// The strategy after it was configured: nothing of an earlier connection is kept.
pub open spec fn configured(config: TransportConfig, payload: Seq<char>) -> RpcStrategyModel {
    RpcStrategyModel {
        connected: false,
        healthy: false,
        transport: Some(config),
        config_payload: payload,
        subscriptions: Seq::empty(),
        pending: Seq::empty(),
        symbol: "UNKNOWN"@,
    }
}

/// The symbols that the strategy wants to hear about: its subscriptions, or its primary
/// symbol where it has none.
pub open spec fn subscribed(m: RpcStrategyModel) -> Seq<Seq<char>> {
    if m.subscriptions.len() == 0 {
        seq![m.symbol]
    } else {
        m.subscriptions
    }
}

/// The strategy after the remote side named its symbols: they are the subscriptions,
/// and the first is the primary symbol. Where it named none, the primary symbol stays
/// and is the one subscription.
pub open spec fn with_symbols(m: RpcStrategyModel, symbols: Seq<Seq<char>>) -> RpcStrategyModel {
    if symbols.len() == 0 {
        RpcStrategyModel { subscriptions: seq![m.symbol], ..m }
    } else {
        RpcStrategyModel { subscriptions: symbols, symbol: symbols[0], ..m }
    }
}

/// A strategy that delegates its decisions to a service in another process.
#[derive(Debug)]
pub struct RpcStrategy {
    connected: bool,
    healthy: bool,
    transport_config: Option<TransportConfig>,
    config_payload: String,
    subscriptions: Vec<String>,
    pending_signals: Vec<Signal>,
    symbol: String,
}

impl View for RpcStrategy {
    type V = RpcStrategyModel;

    closed spec fn view(&self) -> RpcStrategyModel {
        RpcStrategyModel {
            connected: self.connected,
            healthy: self.healthy,
            transport: self.transport_config,
            config_payload: self.config_payload@,
            subscriptions: texts(self.subscriptions@),
            pending: signal_models(self.pending_signals@),
            symbol: self.symbol@,
        }
    }
}

impl Default for RpcStrategy {
    fn default() -> (r: RpcStrategy)
        ensures
            r@ == unconfigured(),
    {
        let r = RpcStrategy {
            connected: false,
            healthy: true,
            transport_config: None,
            config_payload: String::from_str("{}"),
            subscriptions: Vec::new(),
            pending_signals: Vec::new(),
            symbol: String::from_str("UNKNOWN"),
        };
        proof {
            assert(texts(r.subscriptions@) =~= Seq::empty());
            assert(signal_models(r.pending_signals@) =~= Seq::empty());
        }
        r
    }
}

/// Copies a list of texts.
pub fn copy_texts(v: &Vec<String>) -> (r: Vec<String>)
    ensures
        r@ == v@,
{
    let mut out: Vec<String> = Vec::new();
    let mut i: usize = 0;
    while i < v.len()
        invariant
            i <= v@.len(),
            out@ == v@.take(i as int),
        decreases v@.len() - i,
    {
        out.push(v[i].clone());
        proof {
            assert(out@ =~= v@.take(i + 1));
        }
        i = i + 1;
    }
    proof {
        assert(v@.take(i as int) =~= v@);
    }
    out
}

impl RpcStrategy {
    /// The name of the strategy.
    pub fn name(&self) -> (r: &'static str)
        ensures
            r@ == "rpc-strategy"@,
    {
        "rpc-strategy"
    }

    /// The primary symbol of the strategy.
    pub fn symbol(&self) -> (r: &str)
        ensures
            r@ == self@.symbol,
    {
        self.symbol.as_str()
    }

    /// Whether a connection is up.
    pub fn is_connected(&self) -> (r: bool)
        ensures
            r == self@.connected,
    {
        self.connected
    }

    /// Whether the connection counts as healthy.
    pub fn is_healthy(&self) -> (r: bool)
        ensures
            r == self@.healthy,
    {
        self.healthy
    }

    /// The symbols that the strategy wants to hear about.
    pub fn subscriptions(&self) -> (r: Vec<String>)
        ensures
            texts(r@) == subscribed(self@),
    {
        if self.subscriptions.len() == 0 {
            let mut out: Vec<String> = Vec::new();
            out.push(self.symbol.clone());
            proof {
                assert(texts(out@) =~= seq![self.symbol@]);
            }
            out
        } else {
            copy_texts(&self.subscriptions)
        }
    }

    /// Takes a new configuration: how to reach the remote strategy, and the
    /// configuration to hand over to it as JSON text. Nothing of an earlier connection
    /// is kept.
    pub fn configure(&mut self, config: TransportConfig, payload: String)
        ensures
            final(self)@ == configured(config, payload@),
    {
        self.transport_config = Some(config);
        self.teardown_client();
        self.subscriptions = Vec::new();
        self.symbol = String::from_str("UNKNOWN");
        self.pending_signals = Vec::new();
        self.config_payload = payload;
        proof {
            assert(texts(self.subscriptions@) =~= Seq::empty());
            assert(signal_models(self.pending_signals@) =~= Seq::empty());
        }
    }

    /// Gives the connection up.
    pub fn teardown_client(&mut self)
        ensures
            final(self)@ == (RpcStrategyModel { connected: false, healthy: false, ..old(self)@ }),
    {
        self.connected = false;
        self.healthy = false;
    }

    /// Takes note of what a heartbeat said of the connection's health.
    pub fn on_heartbeat(&mut self, verdict: HeartbeatVerdict)
        ensures
            final(self)@ == (RpcStrategyModel { healthy: verdict.healthy, ..old(self)@ }),
    {
        self.healthy = verdict.healthy;
    }

    /// Says what has to happen before the remote strategy can be called. A connection
    /// that is up and healthy is used again. One that is up and not healthy is given
    /// up. Without a connection, the strategy connects with its configuration, and fails
    /// where it has none.
    pub fn plan_connection(&mut self) -> (r: ConnectionPlan)
        ensures
            old(self)@.connected && old(self)@.healthy ==> r == ConnectionPlan::Reuse && final(self)@ == old(
                self,
            )@,
            !(old(self)@.connected && old(self)@.healthy) ==> (final(self)@ == (RpcStrategyModel {
                connected: false,
                healthy: if old(self)@.connected {
                    false
                } else {
                    old(self)@.healthy
                },
                ..old(self)@
            })) && match old(self)@.transport {
                Some(config) => (r matches ConnectionPlan::Connect { config: c, init } && c == config
                    && init.config_json@ == old(self)@.config_payload),
                None => (r matches ConnectionPlan::Fail(e) && e@ == StrategyErrorModel::InvalidConfig(
                    "transport config missing"@,
                )),
            },
    {
        if self.connected {
            if self.healthy {
                return ConnectionPlan::Reuse;
            }
            self.teardown_client();
        }
        match &self.transport_config {
            None => ConnectionPlan::Fail(
                StrategyError::InvalidConfig(String::from_str("transport config missing")),
            ),
            Some(config) => ConnectionPlan::Connect {
                config: config.clone(),
                init: InitRequest { config_json: self.config_payload.clone() },
            },
        }
    }

    /// The error for a connection that could not be made.
    pub fn connect_failed(reason: &str) -> (r: StrategyError)
        ensures
            r@ == StrategyErrorModel::Internal("RPC connect failed: "@ + reason@),
    {
        let mut message = String::from_str("RPC connect failed: ");
        message.append(reason);
        StrategyError::Internal(message)
    }

    /// The error for a handshake that could not be made.
    pub fn init_failed(reason: &str) -> (r: StrategyError)
        ensures
            r@ == StrategyErrorModel::Internal("remote strategy init failed: "@ + reason@),
    {
        let mut message = String::from_str("remote strategy init failed: ");
        message.append(reason);
        StrategyError::Internal(message)
    }

    /// Takes the remote strategy's answer to the handshake. A refusal is an error and
    /// leaves the strategy as it was. Otherwise the strategy takes the symbols that the
    /// remote side named, and is connected and healthy.
    pub fn on_initialized(&mut self, response: InitResponse) -> (r: Result<(), StrategyError>)
        ensures
            !response.success ==> final(self)@ == old(self)@ && (r matches Err(e) && e@
                == StrategyErrorModel::Internal("remote strategy rejected init: "@ + response.error_message@)),
            response.success ==> r is Ok && final(self)@ == (RpcStrategyModel {
                connected: true,
                healthy: true,
                ..with_symbols(old(self)@, texts(response.symbols@))
            }),
    {
        if !response.success {
            let mut message = String::from_str("remote strategy rejected init: ");
            message.append(response.error_message.as_str());
            return Err(StrategyError::Internal(message));
        }
        self.apply_remote_metadata(response.symbols);
        self.healthy = true;
        self.connected = true;
        Ok(())
    }

    /// Takes the symbols that the remote side named.
    fn apply_remote_metadata(&mut self, symbols: Vec<String>)
        ensures
            final(self)@ == with_symbols(old(self)@, texts(symbols@)),
    {
        let mut symbols = symbols;
        if symbols.len() == 0 {
            symbols.push(self.symbol.clone());
            proof {
                assert(texts(symbols@) =~= seq![self.symbol@]);
            }
        } else {
            self.symbol = symbols[0].clone();
        }
        self.subscriptions = symbols;
    }

    /// Keeps the signals that the remote strategy answered with until they are drained.
    pub fn handle_signals(&mut self, signals: Vec<Signal>)
        ensures
            final(self)@ == (RpcStrategyModel {
                pending: old(self)@.pending + signal_models(signals@),
                ..old(self)@
            }),
    {
        let mut signals = signals;
        let ghost before = self.pending_signals@;
        let ghost added = signals@;
        self.pending_signals.append(&mut signals);
        proof {
            assert(signal_models(self.pending_signals@) =~= signal_models(before) + signal_models(added));
        }
    }

    /// Hands out the signals kept so far, oldest first, and keeps none.
    pub fn drain_signals(&mut self) -> (r: Vec<Signal>)
        ensures
            signal_models(r@) == old(self)@.pending,
            final(self)@ == (RpcStrategyModel { pending: Seq::empty(), ..old(self)@ }),
    {
        let mut out: Vec<Signal> = Vec::new();
        std::mem::swap(&mut self.pending_signals, &mut out);
        proof {
            assert(signal_models(self.pending_signals@) =~= Seq::empty());
        }
        out
    }
}

} // verus!
