//! Order sizing: how large an order should be for a signal, given the portfolio's
//! equity and the last price.

use vstd::prelude::*;
use vstd::string::StringExecFns;
use crate::decimal::{
    bounded_quotient, decimal_product, model_zero, Decimal, DecimalModel, DEFAULT_DIVISION_SCALE,
};
use crate::market::{Signal, SignalModel};

verus! {

/// Why no size could be computed.
#[derive(Clone, Copy, Debug, PartialEq, Eq, Structural)]
pub enum SizerError {
    /// The last price is zero or below.
    ZeroOrNegativePrice,
    /// Price times volatility is zero or below.
    InvalidDenominator,
    /// A product or quotient does not fit the decimal representation.
    Overflow,
}

/// The message of a sizing error.
pub open spec fn sizer_error_text(e: SizerError) -> Seq<char> {
    match e {
        SizerError::ZeroOrNegativePrice => "cannot size order with zero or negative price"@,
        SizerError::InvalidDenominator => "volatility multiplier produced an invalid denominator"@,
        SizerError::Overflow => "order size is not representable"@,
    }
}

impl SizerError {
    /// The message of the error.
    pub fn message(&self) -> (r: String)
        ensures
            r@ == sizer_error_text(*self),
    {
        match self {
            SizerError::ZeroOrNegativePrice => String::from_str(
                "cannot size order with zero or negative price",
            ),
            SizerError::InvalidDenominator => String::from_str(
                "volatility multiplier produced an invalid denominator",
            ),
            SizerError::Overflow => String::from_str("order size is not representable"),
        }
    }
}

/// The outcome of a sizing with its quantity, if any, taken by its model.
pub open spec fn sizing_of(r: Result<Decimal, SizerError>) -> Result<DecimalModel, SizerError> {
    match r {
        Ok(q) => Ok(q@),
        Err(e) => Err(e),
    }
}

/// Determines how large an order should be for a signal. Sizing is pure: it reads its
/// arguments and the sizer's configuration and nothing else.
pub trait OrderSizer {
    /// The quantity the sizer gives for a signal, or the reason it gives none.
    spec fn sized(&self, signal: SignalModel, portfolio_equity: DecimalModel, last_price: DecimalModel) -> Result<
        DecimalModel,
        SizerError,
    >;

    /// The desired quantity of the base asset.
    fn size(&self, signal: &Signal, portfolio_equity: Decimal, last_price: Decimal) -> (r: Result<
        Decimal,
        SizerError,
    >)
        ensures
            sizing_of(r) == self.sized(signal@, portfolio_equity@, last_price@),
    ;
}

/// A sizer that always returns the same quantity.
#[derive(Clone, Copy, Debug, PartialEq)]
pub struct FixedOrderSizer {
    pub quantity: Decimal,
}

impl OrderSizer for FixedOrderSizer {
    /// The configured quantity, whatever the equity and the price are.
    open spec fn sized(&self, signal: SignalModel, portfolio_equity: DecimalModel, last_price: DecimalModel) -> Result<
        DecimalModel,
        SizerError,
    > {
        Ok(self.quantity@)
    }

    fn size(&self, signal: &Signal, portfolio_equity: Decimal, last_price: Decimal) -> (r: Result<
        Decimal,
        SizerError,
    >)
        ensures
            r == Ok::<Decimal, SizerError>(self.quantity),
    {
        Ok(self.quantity)
    }
}

/// `numerator_left * numerator_right / denominator`: the product as `rust_decimal`
/// computes it, the quotient with at most [`DEFAULT_DIVISION_SCALE`] digits after the
/// decimal point. An overflow at either step is an error.
pub open spec fn scaled_ratio(
    numerator_left: DecimalModel,
    numerator_right: DecimalModel,
    denominator: DecimalModel,
) -> Result<DecimalModel, SizerError> {
    match decimal_product(numerator_left, numerator_right) {
        None => Err(SizerError::Overflow),
        Some(numerator) => match bounded_quotient(numerator, denominator, DEFAULT_DIVISION_SCALE as nat) {
            None => Err(SizerError::Overflow),
            Some(q) => Ok(q),
        },
    }
}

/// The size for a fraction of equity: a price of zero or below is refused, a fraction
/// of zero or below gives zero, and otherwise the size is `equity * percent / price`.
pub open spec fn percent_size(percent: DecimalModel, equity: DecimalModel, price: DecimalModel) -> Result<
    DecimalModel,
    SizerError,
> {
    if price.mantissa <= 0 {
        Err(SizerError::ZeroOrNegativePrice)
    } else if percent.mantissa <= 0 {
        Ok(model_zero())
    } else {
        scaled_ratio(equity, percent, price)
    }
}

/// A sizer that allocates a fixed fraction of the portfolio's equity to each trade.
#[derive(Clone, Copy, Debug, PartialEq)]
pub struct PortfolioPercentSizer {
    /// The fraction of equity per trade: `0.02` for 2%.
    pub percent: Decimal,
}

impl OrderSizer for PortfolioPercentSizer {
    open spec fn sized(&self, signal: SignalModel, portfolio_equity: DecimalModel, last_price: DecimalModel) -> Result<
        DecimalModel,
        SizerError,
    > {
        percent_size(self.percent@, portfolio_equity, last_price)
    }

    fn size(&self, signal: &Signal, portfolio_equity: Decimal, last_price: Decimal) -> (r: Result<
        Decimal,
        SizerError,
    >)
        ensures
            r matches Ok(q) ==> (portfolio_equity@.mantissa >= 0 ==> q@.mantissa >= 0),
    {
        if !last_price.is_positive() {
            return Err(SizerError::ZeroOrNegativePrice);
        }
        if !self.percent.is_positive() {
            return Ok(Decimal::zero());
        }
        let notional = match portfolio_equity.checked_mul(&self.percent) {
            Some(n) => n,
            None => {
                return Err(SizerError::Overflow);
            },
        };
        match notional.checked_div_bounded(&last_price, DEFAULT_DIVISION_SCALE) {
            Some(q) => Ok(q),
            None => Err(SizerError::Overflow),
        }
    }
}

/// The volatility estimate used until an instrument-specific one is plugged in: `0.02`.
pub open spec fn placeholder_volatility() -> DecimalModel {
    DecimalModel { mantissa: 2, scale: 2 }
}

/// The size for a fraction of equity put at risk: a price of zero or below is refused,
/// a fraction of zero or below gives zero, a denominator `price * volatility` of zero
/// or below is refused, and otherwise the size is
/// `equity * risk_fraction / (price * volatility)`.
pub open spec fn risk_adjusted_size(
    risk_fraction: DecimalModel,
    volatility: DecimalModel,
    equity: DecimalModel,
    price: DecimalModel,
) -> Result<DecimalModel, SizerError> {
    if price.mantissa <= 0 {
        Err(SizerError::ZeroOrNegativePrice)
    } else if risk_fraction.mantissa <= 0 {
        Ok(model_zero())
    } else {
        match decimal_product(price, volatility) {
            None => Err(SizerError::Overflow),
            Some(denominator) => if denominator.mantissa <= 0 {
                Err(SizerError::InvalidDenominator)
            } else {
                scaled_ratio(equity, risk_fraction, denominator)
            },
        }
    }
}

/// A sizer that puts a fixed fraction of equity at risk per trade, scaled by the
/// instrument's volatility.
#[derive(Clone, Copy, Debug, PartialEq)]
pub struct RiskAdjustedSizer {
    /// The fraction of equity at risk per trade: `0.002` for 0.2%.
    pub risk_fraction: Decimal,
}

impl Default for RiskAdjustedSizer {
    /// A sizer that risks nothing.
    fn default() -> (r: RiskAdjustedSizer)
        ensures
            r.risk_fraction@ == model_zero(),
    {
        RiskAdjustedSizer { risk_fraction: Decimal::zero() }
    }
}

impl OrderSizer for RiskAdjustedSizer {
    open spec fn sized(&self, signal: SignalModel, portfolio_equity: DecimalModel, last_price: DecimalModel) -> Result<
        DecimalModel,
        SizerError,
    > {
        risk_adjusted_size(self.risk_fraction@, placeholder_volatility(), portfolio_equity, last_price)
    }

    fn size(&self, signal: &Signal, portfolio_equity: Decimal, last_price: Decimal) -> (r: Result<
        Decimal,
        SizerError,
    >)
        ensures
            r matches Ok(q) ==> (portfolio_equity@.mantissa >= 0 ==> q@.mantissa >= 0),
    {
        if !last_price.is_positive() {
            return Err(SizerError::ZeroOrNegativePrice);
        }
        if !self.risk_fraction.is_positive() {
            return Ok(Decimal::zero());
        }
        let volatility = Decimal::new(2, 2);
        let denominator = match last_price.checked_mul(&volatility) {
            Some(d) => d,
            None => {
                return Err(SizerError::Overflow);
            },
        };
        if !denominator.is_positive() {
            return Err(SizerError::InvalidDenominator);
        }
        let dollars_at_risk = match portfolio_equity.checked_mul(&self.risk_fraction) {
            Some(n) => n,
            None => {
                return Err(SizerError::Overflow);
            },
        };
        match dollars_at_risk.checked_div_bounded(&denominator, DEFAULT_DIVISION_SCALE) {
            Some(q) => Ok(q),
            None => Err(SizerError::Overflow),
        }
    }
}

} // verus!
