//! The execution engine: turns a signal into a parent order and its protective legs.
//!
//! Placing an order is the broker's work and happens outside this library. The engine
//! therefore runs as a state machine: [`ExecutionEngine::handle_signal`] sizes the
//! signal, checks the parent order and says what to place; the caller places it and
//! hands the broker's answer to [`ExecutionEngine::on_placement`], which says what comes
//! next, until the step is a [`EngineStep::Finish`].

use vstd::prelude::*;
use vstd::string::StringExecFns;
use crate::decimal::{Decimal, DecimalModel};
use crate::ident::{hyphenated_text, Symbol};
use crate::market::{
    request_well_formed, signal_side, Order, OrderModel, OrderRequest, OrderRequestModel,
    OrderType, Side, Signal, SignalKind, SignalModel,
};
use crate::risk::{risk_error_text, PreTradeRiskChecker, RiskContext, RiskError, RiskErrorModel};
use crate::sizer::OrderSizer;

verus! {

/// What a broker can answer instead of an order.
#[derive(Debug, PartialEq, Eq)]
pub enum BrokerError {
    Network(String),
    InvalidRequest(String),
    Rejected(String),
    RateLimited(String),
    Other(String),
}

/// The mathematical content of a [`BrokerError`].
pub enum BrokerErrorModel {
    Network(Seq<char>),
    InvalidRequest(Seq<char>),
    Rejected(Seq<char>),
    RateLimited(Seq<char>),
    Other(Seq<char>),
}

impl View for BrokerError {
    type V = BrokerErrorModel;

    open spec fn view(&self) -> BrokerErrorModel {
        match self {
            BrokerError::Network(m) => BrokerErrorModel::Network(m@),
            BrokerError::InvalidRequest(m) => BrokerErrorModel::InvalidRequest(m@),
            BrokerError::Rejected(m) => BrokerErrorModel::Rejected(m@),
            BrokerError::RateLimited(m) => BrokerErrorModel::RateLimited(m@),
            BrokerError::Other(m) => BrokerErrorModel::Other(m@),
        }
    }
}

impl Clone for BrokerError {
    fn clone(&self) -> (r: BrokerError)
        ensures
            r == *self,
    {
        match self {
            BrokerError::Network(m) => BrokerError::Network(m.clone()),
            BrokerError::InvalidRequest(m) => BrokerError::InvalidRequest(m.clone()),
            BrokerError::Rejected(m) => BrokerError::Rejected(m.clone()),
            BrokerError::RateLimited(m) => BrokerError::RateLimited(m.clone()),
            BrokerError::Other(m) => BrokerError::Other(m.clone()),
        }
    }
}

/// The message of a broker error.
pub open spec fn broker_error_text(e: BrokerErrorModel) -> Seq<char> {
    match e {
        BrokerErrorModel::Network(m) => m,
        BrokerErrorModel::InvalidRequest(m) => m,
        BrokerErrorModel::Rejected(m) => m,
        BrokerErrorModel::RateLimited(m) => m,
        BrokerErrorModel::Other(m) => m,
    }
}

/// An error with the context it arose in: the same kind of error, with the context put
/// before its message.
pub open spec fn with_context(e: BrokerErrorModel, context: Seq<char>) -> BrokerErrorModel {
    match e {
        BrokerErrorModel::Network(m) => BrokerErrorModel::Network(context + ": "@ + m),
        BrokerErrorModel::InvalidRequest(m) => BrokerErrorModel::InvalidRequest(context + ": "@ + m),
        BrokerErrorModel::Rejected(m) => BrokerErrorModel::Rejected(context + ": "@ + m),
        BrokerErrorModel::RateLimited(m) => BrokerErrorModel::RateLimited(context + ": "@ + m),
        BrokerErrorModel::Other(m) => BrokerErrorModel::Other(context + ": "@ + m),
    }
}

/// The context of an error that stops a signal: the signal's id.
pub open spec fn signal_context(id: u128) -> Seq<char> {
    "signal "@ + hyphenated_text(id)
}

/// The context of an error that stops a protective leg: the leg's client order id, which
/// is the signal's id followed by `suffix`.
pub open spec fn leg_context(id: u128, suffix: Seq<char>) -> Seq<char> {
    "order "@ + hyphenated_text(id) + suffix
}

impl BrokerError {
    /// The same error with `context` put before its message.
    pub fn with_context(self, context: &str) -> (r: BrokerError)
        ensures
            r@ == with_context(self@, context@),
    {
        let mut message = String::from_str(context);
        message.append(": ");
        match self {
            BrokerError::Network(m) => {
                message.append(m.as_str());
                BrokerError::Network(message)
            },
            BrokerError::InvalidRequest(m) => {
                message.append(m.as_str());
                BrokerError::InvalidRequest(message)
            },
            BrokerError::Rejected(m) => {
                message.append(m.as_str());
                BrokerError::Rejected(message)
            },
            BrokerError::RateLimited(m) => {
                message.append(m.as_str());
                BrokerError::RateLimited(message)
            },
            BrokerError::Other(m) => {
                message.append(m.as_str());
                BrokerError::Other(message)
            },
        }
    }

    /// The message of the error.
    pub fn message(&self) -> (r: String)
        ensures
            r@ == broker_error_text(self@),
    {
        match self {
            BrokerError::Network(m) => m.clone(),
            BrokerError::InvalidRequest(m) => m.clone(),
            BrokerError::Rejected(m) => m.clone(),
            BrokerError::RateLimited(m) => m.clone(),
            BrokerError::Other(m) => m.clone(),
        }
    }
}

/// The placement whose answer the engine is waiting for.
#[derive(Debug, PartialEq)]
pub enum Awaiting {
    /// The parent order.
    Parent,
    /// The stop-loss leg; the parent is live.
    StopLoss { parent: Order },
    /// The take-profit leg; the parent is live.
    TakeProfit { parent: Order },
}

/// The mathematical content of an [`Awaiting`].
pub enum AwaitingModel {
    Parent,
    StopLoss { parent: OrderModel },
    TakeProfit { parent: OrderModel },
}

impl View for Awaiting {
    type V = AwaitingModel;

    open spec fn view(&self) -> AwaitingModel {
        match self {
            Awaiting::Parent => AwaitingModel::Parent,
            Awaiting::StopLoss { parent } => AwaitingModel::StopLoss { parent: parent@ },
            Awaiting::TakeProfit { parent } => AwaitingModel::TakeProfit { parent: parent@ },
        }
    }
}

/// A signal whose orders are being placed.
#[derive(Debug, PartialEq)]
pub struct SignalRun {
    pub signal: Signal,
    pub ctx: RiskContext,
    /// The size of the parent order and of each protective leg.
    pub quantity: Decimal,
    pub awaiting: Awaiting,
}

/// The mathematical content of a [`SignalRun`].
pub struct SignalRunModel {
    pub signal: SignalModel,
    pub ctx: RiskContext,
    pub quantity: DecimalModel,
    pub awaiting: AwaitingModel,
}

impl View for SignalRun {
    type V = SignalRunModel;

    open spec fn view(&self) -> SignalRunModel {
        SignalRunModel {
            signal: self.signal@,
            ctx: self.ctx,
            quantity: self.quantity@,
            awaiting: self.awaiting@,
        }
    }
}

/// What the caller must do next.
#[derive(Debug, PartialEq)]
pub enum EngineStep {
    /// Place `request` at the broker and report the answer with `run`.
    Place { request: OrderRequest, run: SignalRun },
    /// The signal is done: the parent order, `None` where the size was zero, or the
    /// error that stopped it.
    Finish { result: Result<Option<Order>, BrokerError> },
}

/// The mathematical content of an [`EngineStep`].
pub enum EngineStepModel {
    Place { request: OrderRequestModel, run: SignalRunModel },
    Finish { result: Result<Option<OrderModel>, BrokerErrorModel> },
}

impl View for EngineStep {
    type V = EngineStepModel;

    open spec fn view(&self) -> EngineStepModel {
        match self {
            EngineStep::Place { request, run } => EngineStepModel::Place { request: request@, run: run@ },
            EngineStep::Finish { result } => EngineStepModel::Finish {
                result: match result {
                    Ok(Some(order)) => Ok(Some(order@)),
                    Ok(None) => Ok(None),
                    Err(e) => Err(e@),
                },
            },
        }
    }
}

/// Something the operator should see although the signal goes on.
#[derive(Debug, PartialEq, Eq)]
pub enum EngineWarning {
    /// The size came out as zero or below; nothing is placed.
    ZeroSize,
    /// The stop-loss leg was refused by the risk check or by the broker.
    StopLossFailed(BrokerError),
    /// The take-profit leg was refused by the risk check or by the broker.
    TakeProfitFailed(BrokerError),
}

/// The mathematical content of an [`EngineWarning`].
pub enum EngineWarningModel {
    ZeroSize,
    StopLossFailed(BrokerErrorModel),
    TakeProfitFailed(BrokerErrorModel),
}

impl View for EngineWarning {
    type V = EngineWarningModel;

    open spec fn view(&self) -> EngineWarningModel {
        match self {
            EngineWarning::ZeroSize => EngineWarningModel::ZeroSize,
            EngineWarning::StopLossFailed(e) => EngineWarningModel::StopLossFailed(e@),
            EngineWarning::TakeProfitFailed(e) => EngineWarningModel::TakeProfitFailed(e@),
        }
    }
}

/// The models of a sequence of warnings.
pub open spec fn warning_models(warnings: Seq<EngineWarning>) -> Seq<EngineWarningModel> {
    warnings.map_values(|w: EngineWarning| w@)
}

/// One transition of the engine: the next step and the warnings raised on the way.
#[derive(Debug, PartialEq)]
pub struct EngineOutcome {
    pub step: EngineStep,
    pub warnings: Vec<EngineWarning>,
}

/// The mathematical content of an [`EngineOutcome`].
pub struct EngineOutcomeModel {
    pub step: EngineStepModel,
    pub warnings: Seq<EngineWarningModel>,
}

impl View for EngineOutcome {
    type V = EngineOutcomeModel;

    open spec fn view(&self) -> EngineOutcomeModel {
        EngineOutcomeModel { step: self.step@, warnings: warning_models(self.warnings@) }
    }
}

/// The parent order of a signal: a market order on the signal's side, identified by the
/// signal's id.
pub open spec fn parent_request(signal: SignalModel, quantity: DecimalModel) -> OrderRequestModel {
    OrderRequestModel {
        symbol: signal.symbol,
        side: signal_side(signal.kind),
        order_type: OrderType::Market,
        quantity,
        price: None,
        trigger_price: None,
        time_in_force: None,
        client_order_id: Some(hyphenated_text(signal.id)),
        take_profit: None,
        stop_loss: None,
        display_quantity: None,
    }
}

/// The side of the protective legs: against the direction of the parent order.
pub open spec fn protective_side(kind: SignalKind) -> Side {
    match kind {
        SignalKind::EnterLong | SignalKind::ExitShort => Side::Sell,
        SignalKind::EnterShort | SignalKind::ExitLong | SignalKind::Flatten => Side::Buy,
    }
}

/// A protective leg: a stop order at `trigger` for the parent's quantity, identified by
/// the signal's id followed by `suffix`.
pub open spec fn protective_request(
    signal: SignalModel,
    quantity: DecimalModel,
    trigger: DecimalModel,
    suffix: Seq<char>,
) -> OrderRequestModel {
    OrderRequestModel {
        symbol: signal.symbol,
        side: protective_side(signal.kind),
        order_type: OrderType::StopMarket,
        quantity,
        price: None,
        trigger_price: Some(trigger),
        time_in_force: None,
        client_order_id: Some(hyphenated_text(signal.id) + suffix),
        take_profit: None,
        stop_loss: None,
        display_quantity: None,
    }
}

/// How a refusal by the risk check reaches the caller.
pub open spec fn risk_refusal(e: RiskErrorModel) -> BrokerErrorModel {
    BrokerErrorModel::InvalidRequest(risk_error_text(e))
}

/// The step that ends a signal with its live parent order.
pub open spec fn finished(parent: OrderModel) -> EngineStepModel {
    EngineStepModel::Finish { result: Ok(Some(parent)) }
}

/// What follows once the stop-loss leg is settled: the take-profit leg where the signal
/// asks for one and the risk check lets it pass, the end otherwise. A refusal is a
/// warning, not an error.
pub open spec fn after_stop_loss<R: PreTradeRiskChecker>(
    risk: R,
    signal: SignalModel,
    ctx: RiskContext,
    quantity: DecimalModel,
    parent: OrderModel,
    warnings: Seq<EngineWarningModel>,
) -> EngineOutcomeModel {
    match signal.take_profit {
        None => EngineOutcomeModel { step: finished(parent), warnings },
        Some(price) => {
            let request = protective_request(signal, quantity, price, "-tp"@);
            match risk.verdict(request, ctx) {
                Ok(()) => EngineOutcomeModel {
                    step: EngineStepModel::Place {
                        request,
                        run: SignalRunModel {
                            signal,
                            ctx,
                            quantity,
                            awaiting: AwaitingModel::TakeProfit { parent },
                        },
                    },
                    warnings,
                },
                Err(e) => EngineOutcomeModel {
                    step: finished(parent),
                    warnings: warnings.push(
                        EngineWarningModel::TakeProfitFailed(
                            with_context(risk_refusal(e), leg_context(signal.id, "-tp"@)),
                        ),
                    ),
                },
            }
        },
    }
}

/// What follows once the parent order is live: the stop-loss leg where the signal asks
/// for one and the risk check lets it pass, otherwise what follows the stop-loss leg.
pub open spec fn after_parent<R: PreTradeRiskChecker>(
    risk: R,
    signal: SignalModel,
    ctx: RiskContext,
    quantity: DecimalModel,
    parent: OrderModel,
) -> EngineOutcomeModel {
    match signal.stop_loss {
        None => after_stop_loss(risk, signal, ctx, quantity, parent, Seq::empty()),
        Some(price) => {
            let request = protective_request(signal, quantity, price, "-sl"@);
            match risk.verdict(request, ctx) {
                Ok(()) => EngineOutcomeModel {
                    step: EngineStepModel::Place {
                        request,
                        run: SignalRunModel {
                            signal,
                            ctx,
                            quantity,
                            awaiting: AwaitingModel::StopLoss { parent },
                        },
                    },
                    warnings: Seq::empty(),
                },
                Err(e) => after_stop_loss(
                    risk,
                    signal,
                    ctx,
                    quantity,
                    parent,
                    seq![
                        EngineWarningModel::StopLossFailed(
                            with_context(risk_refusal(e), leg_context(signal.id, "-sl"@)),
                        ),
                    ],
                ),
            }
        },
    }
}

/// The first transition for a signal.
///
/// A sizing error ends the signal with a broker error of kind `Other`. A size of zero
/// or below ends it with no order and a warning. Otherwise the parent order is built
/// and checked: a refusal ends the signal with `InvalidRequest`, a pass asks for the
/// parent to be placed. Every error carries the signal's id as its context.
pub open spec fn first_step<S: OrderSizer, R: PreTradeRiskChecker>(
    sizer: S,
    risk: R,
    signal: SignalModel,
    ctx: RiskContext,
) -> EngineOutcomeModel {
    match sizer.sized(signal, ctx.portfolio_equity@, ctx.last_price@) {
        Err(e) => EngineOutcomeModel {
            step: EngineStepModel::Finish {
                result: Err(
                    with_context(
                        BrokerErrorModel::Other("failed to determine order size"@),
                        signal_context(signal.id),
                    ),
                ),
            },
            warnings: Seq::empty(),
        },
        Ok(quantity) => if quantity.mantissa <= 0 {
            EngineOutcomeModel {
                step: EngineStepModel::Finish { result: Ok(None) },
                warnings: seq![EngineWarningModel::ZeroSize],
            }
        } else {
            let request = parent_request(signal, quantity);
            match risk.verdict(request, ctx) {
                Err(e) => EngineOutcomeModel {
                    step: EngineStepModel::Finish {
                        result: Err(with_context(risk_refusal(e), signal_context(signal.id))),
                    },
                    warnings: Seq::empty(),
                },
                Ok(()) => EngineOutcomeModel {
                    step: EngineStepModel::Place {
                        request,
                        run: SignalRunModel { signal, ctx, quantity, awaiting: AwaitingModel::Parent },
                    },
                    warnings: Seq::empty(),
                },
            }
        },
    }
}

/// The transition on the broker's answer to a placement.
///
/// A failed parent ends the signal with the broker's error, untouched but for the
/// signal's id as its context. A live parent of a flatten signal ends it; of any other
/// signal it leads on to the protective legs. A failed protective leg is a warning with
/// the leg's client order id as its context: the parent is live and stays so.
pub open spec fn next_step<R: PreTradeRiskChecker>(
    risk: R,
    run: SignalRunModel,
    answer: Result<OrderModel, BrokerErrorModel>,
) -> EngineOutcomeModel {
    match run.awaiting {
        AwaitingModel::Parent => match answer {
            Err(e) => EngineOutcomeModel {
                step: EngineStepModel::Finish { result: Err(with_context(e, signal_context(run.signal.id))) },
                warnings: Seq::empty(),
            },
            Ok(order) => if run.signal.kind == SignalKind::Flatten {
                EngineOutcomeModel { step: finished(order), warnings: Seq::empty() }
            } else {
                after_parent(risk, run.signal, run.ctx, run.quantity, order)
            },
        },
        AwaitingModel::StopLoss { parent } => after_stop_loss(
            risk,
            run.signal,
            run.ctx,
            run.quantity,
            parent,
            match answer {
                Err(e) => seq![
                    EngineWarningModel::StopLossFailed(with_context(e, leg_context(run.signal.id, "-sl"@))),
                ],
                Ok(_) => Seq::empty(),
            },
        ),
        AwaitingModel::TakeProfit { parent } => EngineOutcomeModel {
            step: finished(parent),
            warnings: match answer {
                Err(e) => seq![
                    EngineWarningModel::TakeProfitFailed(with_context(e, leg_context(run.signal.id, "-tp"@))),
                ],
                Ok(_) => Seq::empty(),
            },
        },
    }
}

/// The answer of a broker with the order or error taken by its model.
pub open spec fn answer_model(answer: Result<Order, BrokerError>) -> Result<OrderModel, BrokerErrorModel> {
    match answer {
        Ok(order) => Ok(order@),
        Err(e) => Err(e@),
    }
}

/// Translates signals into orders. The engine owns its sizer and its risk checker.
pub struct ExecutionEngine<S: OrderSizer, R: PreTradeRiskChecker> {
    sizer: S,
    risk: R,
}

impl<S: OrderSizer, R: PreTradeRiskChecker> ExecutionEngine<S, R> {
    /// The sizer of the engine.
    pub closed spec fn spec_sizer(&self) -> S {
        self.sizer
    }

    /// The risk checker of the engine.
    pub closed spec fn spec_risk(&self) -> R {
        self.risk
    }

    /// An engine with the given sizer and risk checker.
    pub fn new(sizer: S, risk: R) -> (r: Self)
        ensures
            r.spec_sizer() == sizer,
            r.spec_risk() == risk,
    {
        ExecutionEngine { sizer, risk }
    }

    /// The sizer of the engine.
    pub fn sizer(&self) -> (r: &S)
        ensures
            *r == self.spec_sizer(),
    {
        &self.sizer
    }

    /// The risk checker of the engine.
    pub fn risk(&self) -> (r: &R)
        ensures
            *r == self.spec_risk(),
    {
        &self.risk
    }

    /// A market order for `quantity` of `symbol` on `side`.
    fn build_request(symbol: Symbol, side: Side, quantity: Decimal, client_order_id: Option<String>) -> (r:
        OrderRequest)
        ensures
            r == (OrderRequest {
                symbol,
                side,
                order_type: OrderType::Market,
                quantity,
                price: None,
                trigger_price: None,
                time_in_force: None,
                client_order_id,
                take_profit: None,
                stop_loss: None,
                display_quantity: None,
            }),
    {
        OrderRequest {
            symbol,
            side,
            order_type: OrderType::Market,
            quantity,
            price: None,
            trigger_price: None,
            time_in_force: None,
            client_order_id,
            take_profit: None,
            stop_loss: None,
            display_quantity: None,
        }
    }

    /// A protective stop order for `signal` at `trigger`.
    fn build_protective(signal: &Signal, quantity: Decimal, trigger: Decimal, suffix: &str) -> (r: OrderRequest)
        ensures
            r@ == protective_request(signal@, quantity@, trigger@, suffix@),
    {
        let mut id = signal.id.to_text();
        id.append(suffix);
        let side = match signal.kind {
            SignalKind::EnterLong | SignalKind::ExitShort => Side::Sell,
            SignalKind::EnterShort | SignalKind::ExitLong | SignalKind::Flatten => Side::Buy,
        };
        OrderRequest {
            symbol: signal.symbol.clone(),
            side,
            order_type: OrderType::StopMarket,
            quantity,
            price: None,
            trigger_price: Some(trigger),
            time_in_force: None,
            client_order_id: Some(id),
            take_profit: None,
            stop_loss: None,
            display_quantity: None,
        }
    }

    /// How a refusal by the risk check reaches the caller.
    fn refusal(e: &RiskError) -> (r: BrokerError)
        ensures
            r@ == risk_refusal(e@),
    {
        BrokerError::InvalidRequest(e.message())
    }

    /// The context of an error that stops `signal`.
    fn signal_label(signal: &Signal) -> (r: String)
        ensures
            r@ == signal_context(signal@.id),
    {
        let mut label = String::from_str("signal ");
        let id = signal.id.to_text();
        label.append(id.as_str());
        label
    }

    /// The context of an error that stops a protective leg of `signal`.
    fn leg_label(signal: &Signal, suffix: &str) -> (r: String)
        ensures
            r@ == leg_context(signal@.id, suffix@),
    {
        let mut label = String::from_str("order ");
        let id = signal.id.to_text();
        label.append(id.as_str());
        label.append(suffix);
        label
    }

    /// What follows once the stop-loss leg is settled.
    fn continue_after_stop_loss(
        &self,
        signal: Signal,
        ctx: RiskContext,
        quantity: Decimal,
        parent: Order,
        warnings: Vec<EngineWarning>,
    ) -> (r: EngineOutcome)
        ensures
            r@ == after_stop_loss(
                self.spec_risk(),
                signal@,
                ctx,
                quantity@,
                parent@,
                warning_models(warnings@),
            ),
    {
        let mut warnings = warnings;
        match signal.take_profit {
            None => EngineOutcome { step: EngineStep::Finish { result: Ok(Some(parent)) }, warnings },
            Some(price) => {
                let request = Self::build_protective(&signal, quantity, price, "-tp");
                match self.risk.check(&request, &ctx) {
                    Ok(()) => EngineOutcome {
                        step: EngineStep::Place {
                            request,
                            run: SignalRun {
                                signal,
                                ctx,
                                quantity,
                                awaiting: Awaiting::TakeProfit { parent },
                            },
                        },
                        warnings,
                    },
                    Err(e) => {
                        let ghost before = warnings@;
                        let label = Self::leg_label(&signal, "-tp");
                        let w = EngineWarning::TakeProfitFailed(Self::refusal(&e).with_context(label.as_str()));
                        warnings.push(w);
                        proof {
                            assert(warning_models(warnings@) =~= warning_models(before).push(w@));
                        }
                        EngineOutcome { step: EngineStep::Finish { result: Ok(Some(parent)) }, warnings }
                    },
                }
            },
        }
    }

    /// What follows once the parent order is live.
    fn continue_after_parent(&self, signal: Signal, ctx: RiskContext, quantity: Decimal, parent: Order) -> (r:
        EngineOutcome)
        ensures
            r@ == after_parent(self.spec_risk(), signal@, ctx, quantity@, parent@),
    {
        let mut warnings: Vec<EngineWarning> = Vec::new();
        proof {
            assert(warning_models(warnings@) =~= Seq::empty());
        }
        match signal.stop_loss {
            None => self.continue_after_stop_loss(signal, ctx, quantity, parent, warnings),
            Some(price) => {
                let request = Self::build_protective(&signal, quantity, price, "-sl");
                match self.risk.check(&request, &ctx) {
                    Ok(()) => EngineOutcome {
                        step: EngineStep::Place {
                            request,
                            run: SignalRun { signal, ctx, quantity, awaiting: Awaiting::StopLoss { parent } },
                        },
                        warnings,
                    },
                    Err(e) => {
                        let label = Self::leg_label(&signal, "-sl");
                        let w = EngineWarning::StopLossFailed(Self::refusal(&e).with_context(label.as_str()));
                        warnings.push(w);
                        proof {
                            assert(warning_models(warnings@) =~= seq![w@]);
                        }
                        self.continue_after_stop_loss(signal, ctx, quantity, parent, warnings)
                    },
                }
            },
        }
    }

    /// Takes a signal and says what to place first, or how the signal ended without a
    /// placement.
    pub fn handle_signal(&self, signal: Signal, ctx: RiskContext) -> (r: EngineOutcome)
        ensures
            r@ == first_step(self.spec_sizer(), self.spec_risk(), signal@, ctx),
            r.step matches EngineStep::Place { request, run } ==> request.quantity@.mantissa > 0
                && request_well_formed(request@),
    {
        let mut warnings: Vec<EngineWarning> = Vec::new();
        proof {
            assert(warning_models(warnings@) =~= Seq::empty());
        }
        let quantity = match self.sizer.size(&signal, ctx.portfolio_equity, ctx.last_price) {
            Ok(q) => q,
            Err(_) => {
                let label = Self::signal_label(&signal);
                let error = BrokerError::Other(String::from_str("failed to determine order size"));
                return EngineOutcome {
                    step: EngineStep::Finish { result: Err(error.with_context(label.as_str())) },
                    warnings,
                };
            },
        };
        if !quantity.is_positive() {
            let w = EngineWarning::ZeroSize;
            warnings.push(w);
            proof {
                assert(warning_models(warnings@) =~= seq![EngineWarningModel::ZeroSize]);
            }
            return EngineOutcome { step: EngineStep::Finish { result: Ok(None) }, warnings };
        }
        let side = signal.kind.side();
        let request = Self::build_request(signal.symbol.clone(), side, quantity, Some(signal.id.to_text()));
        match self.risk.check(&request, &ctx) {
            Err(e) => {
                let label = Self::signal_label(&signal);
                EngineOutcome {
                    step: EngineStep::Finish { result: Err(Self::refusal(&e).with_context(label.as_str())) },
                    warnings,
                }
            },
            Ok(()) => EngineOutcome {
                step: EngineStep::Place {
                    request,
                    run: SignalRun { signal, ctx, quantity, awaiting: Awaiting::Parent },
                },
                warnings,
            },
        }
    }

    /// Takes the broker's answer to the placement that `run` was waiting for and says
    /// what comes next.
    pub fn on_placement(&self, run: SignalRun, answer: Result<Order, BrokerError>) -> (r: EngineOutcome)
        ensures
            r@ == next_step(self.spec_risk(), run@, answer_model(answer)),
            r.step matches EngineStep::Place { request, run: next } ==> request.quantity@ == run.quantity@
                && request_well_formed(request@),
    {
        let mut warnings: Vec<EngineWarning> = Vec::new();
        proof {
            assert(warning_models(warnings@) =~= Seq::empty());
        }
        let SignalRun { signal, ctx, quantity, awaiting } = run;
        match awaiting {
            Awaiting::Parent => match answer {
                Err(e) => {
                    let label = Self::signal_label(&signal);
                    EngineOutcome {
                        step: EngineStep::Finish { result: Err(e.with_context(label.as_str())) },
                        warnings,
                    }
                },
                Ok(order) => match signal.kind {
                    SignalKind::Flatten => EngineOutcome {
                        step: EngineStep::Finish { result: Ok(Some(order)) },
                        warnings,
                    },
                    _ => self.continue_after_parent(signal, ctx, quantity, order),
                },
            },
            Awaiting::StopLoss { parent } => {
                match answer {
                    Err(e) => {
                        let label = Self::leg_label(&signal, "-sl");
                        let w = EngineWarning::StopLossFailed(e.with_context(label.as_str()));
                        warnings.push(w);
                        proof {
                            assert(warning_models(warnings@) =~= seq![w@]);
                        }
                    },
                    Ok(_) => {},
                }
                self.continue_after_stop_loss(signal, ctx, quantity, parent, warnings)
            },
            Awaiting::TakeProfit { parent } => {
                match answer {
                    Err(e) => {
                        let label = Self::leg_label(&signal, "-tp");
                        let w = EngineWarning::TakeProfitFailed(e.with_context(label.as_str()));
                        warnings.push(w);
                        proof {
                            assert(warning_models(warnings@) =~= seq![w@]);
                        }
                    },
                    Ok(_) => {},
                }
                EngineOutcome { step: EngineStep::Finish { result: Ok(Some(parent)) }, warnings }
            },
        }
    }
}

} // verus!
