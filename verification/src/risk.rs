//! Pre-trade risk checks: what an order must satisfy before it may reach the broker.

use vstd::prelude::*;
use vstd::string::StringExecFns;
use crate::decimal::{
    decimal_difference, decimal_sum, decimal_text, model_abs, model_le, model_lt, model_zero,
    Decimal, DecimalModel,
};
use crate::market::{OrderRequest, OrderRequestModel, Side};

verus! {

/// The kind of instrument a position is held in.
#[derive(Clone, Copy, Debug, PartialEq, Eq, Structural)]
pub enum InstrumentKind {
    Spot,
    LinearPerpetual,
    InversePerpetual,
}

/// Exposure and balances at the moment an order is checked.
#[derive(Clone, Copy, Debug, PartialEq)]
pub struct RiskContext {
    /// Signed quantity of the open position: long positive, short negative.
    pub signed_position_qty: Decimal,
    /// Total equity of the portfolio.
    pub portfolio_equity: Decimal,
    /// Equity held at the exchange the order goes to.
    pub exchange_equity: Decimal,
    /// Last known price of the symbol.
    pub last_price: Decimal,
    /// When set, only orders that reduce exposure pass.
    pub liquidate_only: bool,
    pub base_available: Decimal,
    pub quote_available: Decimal,
    pub settlement_available: Decimal,
    pub instrument_kind: Option<InstrumentKind>,
}

impl Default for RiskContext {
    /// No position, no equity, no price, no restriction.
    fn default() -> (r: RiskContext)
        ensures
            r.signed_position_qty@ == model_zero(),
            r.portfolio_equity@ == model_zero(),
            r.exchange_equity@ == model_zero(),
            r.last_price@ == model_zero(),
            !r.liquidate_only,
            r.base_available@ == model_zero(),
            r.quote_available@ == model_zero(),
            r.settlement_available@ == model_zero(),
            r.instrument_kind is None,
    {
        RiskContext {
            signed_position_qty: Decimal::zero(),
            portfolio_equity: Decimal::zero(),
            exchange_equity: Decimal::zero(),
            last_price: Decimal::zero(),
            liquidate_only: false,
            base_available: Decimal::zero(),
            quote_available: Decimal::zero(),
            settlement_available: Decimal::zero(),
            instrument_kind: None,
        }
    }
}

/// Why an order was refused.
#[derive(Clone, Copy, Debug, PartialEq)]
pub enum RiskError {
    /// The order is larger than the largest order allowed.
    MaxOrderSize { quantity: Decimal, limit: Decimal },
    /// The position after the order would be larger than the largest position allowed.
    MaxPositionExposure { projected: Decimal, limit: Decimal },
    /// Only exposure-reducing orders pass, and this one does not reduce exposure.
    LiquidateOnly,
    /// The position after the order does not fit the decimal representation.
    PositionOverflow,
}

/// The mathematical content of a [`RiskError`].
pub enum RiskErrorModel {
    MaxOrderSize { quantity: DecimalModel, limit: DecimalModel },
    MaxPositionExposure { projected: DecimalModel, limit: DecimalModel },
    LiquidateOnly,
    PositionOverflow,
}

impl View for RiskError {
    type V = RiskErrorModel;

    open spec fn view(&self) -> RiskErrorModel {
        match *self {
            RiskError::MaxOrderSize { quantity, limit } => RiskErrorModel::MaxOrderSize {
                quantity: quantity@,
                limit: limit@,
            },
            RiskError::MaxPositionExposure { projected, limit } => RiskErrorModel::MaxPositionExposure {
                projected: projected@,
                limit: limit@,
            },
            RiskError::LiquidateOnly => RiskErrorModel::LiquidateOnly,
            RiskError::PositionOverflow => RiskErrorModel::PositionOverflow,
        }
    }
}

/// The outcome of a check with its error, if any, taken by its model.
pub open spec fn verdict_of(r: Result<(), RiskError>) -> Result<(), RiskErrorModel> {
    match r {
        Ok(()) => Ok(()),
        Err(e) => Err(e@),
    }
}

/// The message of a risk error. Quantities are written with four digits after the
/// decimal point.
pub open spec fn risk_error_text(e: RiskErrorModel) -> Seq<char> {
    match e {
        RiskErrorModel::MaxOrderSize { quantity, limit } => "order quantity "@ + decimal_text(
            quantity,
            Some(4nat),
        ) + " exceeds limit "@ + decimal_text(limit, Some(4nat)),
        RiskErrorModel::MaxPositionExposure { projected, limit } => "projected position "@
            + decimal_text(projected, Some(4nat)) + " exceeds limit "@ + decimal_text(
            limit,
            Some(4nat),
        ),
        RiskErrorModel::LiquidateOnly => "liquidate-only mode active"@,
        RiskErrorModel::PositionOverflow => "projected position is not representable"@,
    }
}

impl RiskError {
    /// The message of the error.
    pub fn message(&self) -> (r: String)
        ensures
            r@ == risk_error_text(self@),
    {
        match self {
            RiskError::MaxOrderSize { quantity, limit } => {
                let mut s = String::from_str("order quantity ");
                let q = quantity.to_fixed_text(4);
                s.append(q.as_str());
                s.append(" exceeds limit ");
                let l = limit.to_fixed_text(4);
                s.append(l.as_str());
                s
            },
            RiskError::MaxPositionExposure { projected, limit } => {
                let mut s = String::from_str("projected position ");
                let p = projected.to_fixed_text(4);
                s.append(p.as_str());
                s.append(" exceeds limit ");
                let l = limit.to_fixed_text(4);
                s.append(l.as_str());
                s
            },
            RiskError::LiquidateOnly => String::from_str("liquidate-only mode active"),
            RiskError::PositionOverflow => String::from_str("projected position is not representable"),
        }
    }
}

/// Validates an order before it reaches the broker. A check is pure: it reads the
/// request and the context and nothing else.
pub trait PreTradeRiskChecker {
    /// What the checker decides for a request in a context.
    spec fn verdict(&self, request: OrderRequestModel, ctx: RiskContext) -> Result<(), RiskErrorModel>;

    /// `Ok(())` if the order passes, the first violation otherwise.
    fn check(&self, request: &OrderRequest, ctx: &RiskContext) -> (r: Result<(), RiskError>)
        ensures
            verdict_of(r) == self.verdict(request@, *ctx),
    ;
}

/// A checker that lets every order pass.
#[derive(Clone, Copy, Debug, Default)]
pub struct NoopRiskChecker;

impl PreTradeRiskChecker for NoopRiskChecker {
    open spec fn verdict(&self, request: OrderRequestModel, ctx: RiskContext) -> Result<(), RiskErrorModel> {
        Ok(())
    }

    fn check(&self, request: &OrderRequest, ctx: &RiskContext) -> (r: Result<(), RiskError>) {
        Ok(())
    }
}

/// Upper bounds enforced by the [`BasicRiskChecker`]. Zero switches a bound off.
#[derive(Clone, Copy, Debug, PartialEq)]
pub struct RiskLimits {
    pub max_order_quantity: Decimal,
    pub max_position_quantity: Decimal,
}

impl RiskLimits {
    /// Whether neither bound is negative.
    pub open spec fn is_sanitized(&self) -> bool {
        &&& self.max_order_quantity@.mantissa >= 0
        &&& self.max_position_quantity@.mantissa >= 0
    }

    /// The limits that [`RiskLimits::sanitized`] returns: every negative bound replaced
    /// by zero, which switches it off.
    pub open spec fn sanitized_value(self) -> RiskLimits {
        RiskLimits {
            max_order_quantity: if self.max_order_quantity@.mantissa < 0 {
                Decimal::zero_value()
            } else {
                self.max_order_quantity
            },
            max_position_quantity: if self.max_position_quantity@.mantissa < 0 {
                Decimal::zero_value()
            } else {
                self.max_position_quantity
            },
        }
    }

    /// The same limits with every negative bound replaced by zero, which switches it
    /// off.
    pub fn sanitized(self) -> (r: RiskLimits)
        ensures
            r == self.sanitized_value(),
            r.is_sanitized(),
    {
        proof {
            Decimal::lemma_zero_value();
        }
        RiskLimits {
            max_order_quantity: if self.max_order_quantity.is_negative() {
                Decimal::zero()
            } else {
                self.max_order_quantity
            },
            max_position_quantity: if self.max_position_quantity.is_negative() {
                Decimal::zero()
            } else {
                self.max_position_quantity
            },
        }
    }
}

/// The position after an order of `quantity` on `side`: a buy adds the order's size to
/// the signed position, a sell takes it away. `None` where the result does not fit the
/// representation.
pub open spec fn projected_position(side: Side, position: DecimalModel, quantity: DecimalModel) -> Option<
    DecimalModel,
> {
    match side {
        Side::Buy => decimal_sum(position, model_abs(quantity)),
        Side::Sell => decimal_difference(position, model_abs(quantity)),
    }
}

/// Whether an order on `side` reduces a position: a sell on a long, a buy on a short.
pub open spec fn reduces_exposure(side: Side, position: DecimalModel) -> bool {
    (position.mantissa > 0 && side == Side::Sell) || (position.mantissa < 0 && side == Side::Buy)
}

/// What liquidate-only mode refuses: any order while flat, any order that adds to the
/// position, and any order larger than the position.
pub open spec fn violates_liquidate_only(side: Side, position: DecimalModel, quantity: DecimalModel) -> bool {
    ||| position.mantissa == 0
    ||| !reduces_exposure(side, position)
    ||| model_lt(model_abs(position), model_abs(quantity))
}

/// The decision of the basic checker. The order-size bound is tested first, then the
/// position bound, then liquidate-only mode; the first violation is the answer.
pub open spec fn basic_verdict(
    max_order: DecimalModel,
    max_position: DecimalModel,
    side: Side,
    quantity: DecimalModel,
    position: DecimalModel,
    liquidate_only: bool,
) -> Result<(), RiskErrorModel> {
    if max_order.mantissa > 0 && model_lt(max_order, model_abs(quantity)) {
        Err(RiskErrorModel::MaxOrderSize { quantity: model_abs(quantity), limit: max_order })
    } else {
        match projected_position(side, position, quantity) {
            None => Err(RiskErrorModel::PositionOverflow),
            Some(projected) => if max_position.mantissa > 0 && model_lt(
                max_position,
                model_abs(projected),
            ) {
                Err(RiskErrorModel::MaxPositionExposure { projected, limit: max_position })
            } else if liquidate_only && violates_liquidate_only(side, position, quantity) {
                Err(RiskErrorModel::LiquidateOnly)
            } else {
                Ok(())
            },
        }
    }
}

/// A checker that bounds the size of an order and of the position it leads to, and
/// that honours liquidate-only mode.
#[derive(Clone, Copy, Debug)]
pub struct BasicRiskChecker {
    limits: RiskLimits,
}

impl BasicRiskChecker {
    /// The limits the checker enforces.
    pub closed spec fn spec_limits(&self) -> RiskLimits {
        self.limits
    }

    /// A checker for the given limits, sanitized.
    pub fn new(limits: RiskLimits) -> (r: BasicRiskChecker)
        ensures
            r.spec_limits() == limits.sanitized_value(),
    {
        let sane = limits.sanitized();
        BasicRiskChecker { limits: sane }
    }

    /// The limits the checker enforces.
    #[verifier::when_used_as_spec(spec_limits)]
    pub fn limits(&self) -> (r: RiskLimits)
        ensures
            r == self.spec_limits(),
    {
        self.limits
    }
}

impl PreTradeRiskChecker for BasicRiskChecker {
    open spec fn verdict(&self, request: OrderRequestModel, ctx: RiskContext) -> Result<(), RiskErrorModel> {
        basic_verdict(
            self.spec_limits().max_order_quantity@,
            self.spec_limits().max_position_quantity@,
            request.side,
            request.quantity,
            ctx.signed_position_qty@,
            ctx.liquidate_only,
        )
    }

    fn check(&self, request: &OrderRequest, ctx: &RiskContext) -> (r: Result<(), RiskError>) {
        let qty = request.quantity.abs();
        let max_order = self.limits.max_order_quantity;
        if max_order.is_positive() && qty.gt(&max_order) {
            return Err(RiskError::MaxOrderSize { quantity: qty, limit: max_order });
        }
        let position = ctx.signed_position_qty;
        let projected = match request.side {
            Side::Buy => position.checked_add(&qty),
            Side::Sell => position.checked_sub(&qty),
        };
        let projected_position = match projected {
            Some(p) => p,
            None => {
                return Err(RiskError::PositionOverflow);
            },
        };
        let max_position = self.limits.max_position_quantity;
        if max_position.is_positive() && projected_position.abs().gt(&max_position) {
            return Err(
                RiskError::MaxPositionExposure { projected: projected_position, limit: max_position },
            );
        }
        if ctx.liquidate_only {
            if position.is_zero() {
                return Err(RiskError::LiquidateOnly);
            }
            let reduces = (position.is_positive() && request.side == Side::Sell) || (position.is_negative()
                && request.side == Side::Buy);
            if !reduces {
                return Err(RiskError::LiquidateOnly);
            }
            if qty.gt(&position.abs()) {
                return Err(RiskError::LiquidateOnly);
            }
        }
        Ok(())
    }
}

/// Every order that the basic checker accepts leaves the position within the position
/// bound, where that bound is switched on.
pub proof fn lemma_accepted_order_respects_position_limit(
    checker: BasicRiskChecker,
    request: OrderRequestModel,
    ctx: RiskContext,
)
    requires
        checker.verdict(request, ctx) is Ok,
        checker.spec_limits().max_position_quantity@.mantissa > 0,
    ensures
        projected_position(request.side, ctx.signed_position_qty@, request.quantity) matches Some(p)
            && model_le(model_abs(p), checker.spec_limits().max_position_quantity@),
{
}

/// Every order that the basic checker accepts is within the order-size bound, where
/// that bound is switched on.
pub proof fn lemma_accepted_order_respects_order_limit(
    checker: BasicRiskChecker,
    request: OrderRequestModel,
    ctx: RiskContext,
)
    requires
        checker.verdict(request, ctx) is Ok,
        checker.spec_limits().max_order_quantity@.mantissa > 0,
    ensures
        model_le(model_abs(request.quantity), checker.spec_limits().max_order_quantity@),
{
}

/// In liquidate-only mode every accepted order reduces a position that is open, and
/// is no larger than it.
pub proof fn lemma_liquidate_only_accepts_reductions_only(
    checker: BasicRiskChecker,
    request: OrderRequestModel,
    ctx: RiskContext,
)
    requires
        checker.verdict(request, ctx) is Ok,
        ctx.liquidate_only,
    ensures
        ctx.signed_position_qty@.mantissa != 0,
        reduces_exposure(request.side, ctx.signed_position_qty@),
        model_le(model_abs(request.quantity), model_abs(ctx.signed_position_qty@)),
{
}

} // verus!
