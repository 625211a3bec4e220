//! Fixed-point decimal numbers for money and quantities.
//!
//! A [`Decimal`] is a signed 96-bit mantissa together with a scale between 0 and 28;
//! it stands for `mantissa / 10^scale`. Sign tests, negation and absolute value are
//! computed here; arithmetic, ordering, rounding and text are delegated to the
//! `rust_decimal` crate and described by the contracts below.

use vstd::prelude::*;
use vstd::std_specs::cmp::PartialEqSpecImpl;
use vstd::std_specs::convert::FromSpecImpl;

verus! {

/// Largest magnitude of a mantissa: `2^96 - 1`.
pub const MAX_MANTISSA: i128 = 0xFFFF_FFFF_FFFF_FFFF_FFFF_FFFF;

/// Largest scale: the number of digits after the decimal point never exceeds it.
pub const MAX_SCALE: u32 = 28;

/// The mathematical content of a [`Decimal`]: the number `mantissa / 10^scale`.
pub struct DecimalModel {
    pub mantissa: int,
    pub scale: nat,
}

/// `10^n`.
pub open spec fn pow10(n: nat) -> int
    decreases n,
{
    if n == 0 {
        1
    } else {
        10 * pow10((n - 1) as nat)
    }
}

/// Whether a model fits the representation: 96 bits of mantissa, scale at most 28.
pub open spec fn model_wf(m: DecimalModel) -> bool {
    &&& -MAX_MANTISSA <= m.mantissa <= MAX_MANTISSA
    &&& m.scale <= MAX_SCALE
}

/// `a < b` as numbers: the mantissas compared after bringing both to a common scale.
pub open spec fn model_lt(a: DecimalModel, b: DecimalModel) -> bool {
    a.mantissa * pow10(b.scale) < b.mantissa * pow10(a.scale)
}

/// `a == b` as numbers; `1.0` and `1.00` are equal though their scales differ.
pub open spec fn model_eq(a: DecimalModel, b: DecimalModel) -> bool {
    a.mantissa * pow10(b.scale) == b.mantissa * pow10(a.scale)
}

/// `a <= b` as numbers.
pub open spec fn model_le(a: DecimalModel, b: DecimalModel) -> bool {
    a.mantissa * pow10(b.scale) <= b.mantissa * pow10(a.scale)
}

/// The sign of `a - b`: `-1`, `0` or `1`.
pub open spec fn model_order(a: DecimalModel, b: DecimalModel) -> int {
    if model_lt(a, b) {
        -1
    } else if model_eq(a, b) {
        0
    } else {
        1
    }
}

/// The absolute value: same scale, mantissa without its sign.
pub open spec fn model_abs(a: DecimalModel) -> DecimalModel {
    DecimalModel { mantissa: if a.mantissa < 0 { -a.mantissa } else { a.mantissa }, scale: a.scale }
}

/// The negation: same scale, mantissa with the opposite sign.
pub open spec fn model_neg(a: DecimalModel) -> DecimalModel {
    DecimalModel { mantissa: -a.mantissa, scale: a.scale }
}

/// The model of zero with scale zero.
pub open spec fn model_zero() -> DecimalModel {
    DecimalModel { mantissa: 0, scale: 0 }
}

/// What `rust_decimal` returns for `a + b`: `None` where it reports an overflow.
pub uninterp spec fn decimal_sum(a: DecimalModel, b: DecimalModel) -> Option<DecimalModel>;

/// What `rust_decimal` returns for `a - b`: `None` where it reports an overflow.
pub uninterp spec fn decimal_difference(a: DecimalModel, b: DecimalModel) -> Option<DecimalModel>;

/// What `rust_decimal` returns for `a * b`: `None` where it reports an overflow.
pub uninterp spec fn decimal_product(a: DecimalModel, b: DecimalModel) -> Option<DecimalModel>;

/// What `rust_decimal` returns for `a / b`: `None` where `b` is zero or it reports an
/// overflow.
pub uninterp spec fn decimal_quotient(a: DecimalModel, b: DecimalModel) -> Option<DecimalModel>;

/// The number rounded to `places` digits after the decimal point, half-way cases to the
/// even neighbour. A number with no more digits than that is left as it is.
pub open spec fn model_rounded(a: DecimalModel, places: nat) -> DecimalModel {
    if a.scale <= places {
        a
    } else {
        let unit = pow10((a.scale - places) as nat);
        let size = model_abs(a).mantissa;
        let whole = size / unit;
        let rest = size % unit;
        let up = 2 * rest > unit || (2 * rest == unit && whole % 2 == 1);
        let rounded = if up {
            whole + 1
        } else {
            whole
        };
        DecimalModel { mantissa: if a.mantissa < 0 { -rounded } else { rounded }, scale: places }
    }
}

/// The number without trailing zeros after the decimal point. Zero becomes zero with
/// scale zero.
pub open spec fn model_normalized(a: DecimalModel) -> DecimalModel
    decreases a.scale,
{
    if a.mantissa == 0 {
        model_zero()
    } else if a.scale > 0 && a.mantissa % 10 == 0 {
        model_normalized(DecimalModel { mantissa: a.mantissa / 10, scale: (a.scale - 1) as nat })
    } else {
        a
    }
}

/// The number of digits after the decimal point that a quotient is rounded to unless
/// configured otherwise.
pub const DEFAULT_DIVISION_SCALE: u32 = 18;

/// `a / b` with at most `max_scale` digits after the decimal point: the quotient as
/// `rust_decimal` computes it, rounded half-way cases to the even neighbour.
pub open spec fn bounded_quotient(a: DecimalModel, b: DecimalModel, max_scale: nat) -> Option<DecimalModel> {
    match decimal_quotient(a, b) {
        Some(q) => Some(model_rounded(q, max_scale)),
        None => None,
    }
}

/// Powers of ten are positive.
pub proof fn lemma_pow10_positive(n: nat)
    ensures
        pow10(n) > 0,
    decreases n,
{
    if n > 0 {
        lemma_pow10_positive((n - 1) as nat);
    }
}

/// Rounding never gives more digits than asked for, and never turns a number that is
/// not negative into a negative one.
pub proof fn lemma_rounded_is_bounded(a: DecimalModel, places: nat)
    ensures
        model_rounded(a, places).scale <= places,
        a.scale <= places ==> model_rounded(a, places) == a,
        a.scale > places ==> model_rounded(a, places).scale == places,
        a.mantissa >= 0 ==> model_rounded(a, places).mantissa >= 0,
{
    if a.scale > places && a.mantissa >= 0 {
        let unit = pow10((a.scale - places) as nat);
        lemma_pow10_positive((a.scale - places) as nat);
        let size = a.mantissa;
        assert(size / unit >= 0) by (nonlinear_arith)
            requires
                size >= 0,
                unit > 0,
        ;
    }
}

/// The text that `rust_decimal` writes for a number: with `places` digits after the
/// decimal point where `places` is given (further digits are cut off, missing ones are
/// zeros), with as many digits as the scale says where it is not.
pub uninterp spec fn decimal_text(a: DecimalModel, places: Option<nat>) -> Seq<char>;

/// A fixed-point decimal number.
#[derive(Clone, Copy, Debug)]
pub struct Decimal {
    mantissa: i128,
    scale: u32,
}

impl View for Decimal {
    type V = DecimalModel;

    closed spec fn view(&self) -> DecimalModel {
        DecimalModel { mantissa: self.mantissa as int, scale: self.scale as nat }
    }
}

impl Decimal {
    #[verifier::type_invariant]
    spec fn well_formed(self) -> bool {
        &&& -MAX_MANTISSA <= self.mantissa <= MAX_MANTISSA
        &&& self.scale <= MAX_SCALE
    }

    /// Zero, with scale zero.
    pub fn zero() -> (r: Decimal)
        ensures
            r@ == model_zero(),
            r == Decimal::zero_value(),
    {
        Decimal { mantissa: 0, scale: 0 }
    }

    /// The number `num / 10^scale`.
    pub fn new(num: i64, scale: u32) -> (r: Decimal)
        requires
            scale <= MAX_SCALE,
        ensures
            r@ == (DecimalModel { mantissa: num as int, scale: scale as nat }),
    {
        Decimal { mantissa: num as i128, scale }
    }

    /// The number `num / 10^scale`, or `None` when the scale exceeds [`MAX_SCALE`].
    pub fn try_new(num: i64, scale: u32) -> (r: Option<Decimal>)
        ensures
            r is Some <==> scale <= MAX_SCALE,
            r matches Some(d) ==> d@ == (DecimalModel { mantissa: num as int, scale: scale as nat }),
    {
        if scale > MAX_SCALE {
            None
        } else {
            Some(Decimal { mantissa: num as i128, scale })
        }
    }

    /// The number `num / 10^scale`, or `None` when the scale exceeds [`MAX_SCALE`] or
    /// the mantissa does not fit 96 bits.
    pub fn try_from_i128_with_scale(num: i128, scale: u32) -> (r: Option<Decimal>)
        ensures
            r is Some <==> model_wf(DecimalModel { mantissa: num as int, scale: scale as nat }),
            r matches Some(d) ==> d@ == (DecimalModel { mantissa: num as int, scale: scale as nat }),
    {
        if scale > MAX_SCALE || num > MAX_MANTISSA || num < -MAX_MANTISSA {
            None
        } else {
            Some(Decimal { mantissa: num, scale })
        }
    }

    /// The signed mantissa.
    pub fn mantissa(&self) -> (m: i128)
        ensures
            m == self@.mantissa,
            -MAX_MANTISSA <= m <= MAX_MANTISSA,
    {
        proof {
            use_type_invariant(self);
        }
        self.mantissa
    }

    /// The number of digits after the decimal point.
    pub fn scale(&self) -> (s: u32)
        ensures
            s == self@.scale,
            s <= MAX_SCALE,
    {
        proof {
            use_type_invariant(self);
        }
        self.scale
    }

    /// Whether the number is zero. Exact: no tolerance is applied.
    pub fn is_zero(&self) -> (r: bool)
        ensures
            r == (self@.mantissa == 0),
    {
        self.mantissa == 0
    }

    /// Whether the number is strictly below zero.
    pub fn is_negative(&self) -> (r: bool)
        ensures
            r == (self@.mantissa < 0),
    {
        self.mantissa < 0
    }

    /// Whether the number is strictly above zero.
    pub fn is_positive(&self) -> (r: bool)
        ensures
            r == (self@.mantissa > 0),
    {
        self.mantissa > 0
    }

    /// Whether two decimals are the same mantissa at the same scale. Unlike `==`, this
    /// tells `1.0` from `1.00`.
    pub fn same_representation(&self, other: &Decimal) -> (r: bool)
        ensures
            r == (self@ == other@),
    {
        self.mantissa == other.mantissa && self.scale == other.scale
    }

    /// The absolute value, at the same scale.
    pub fn abs(&self) -> (r: Decimal)
        ensures
            r@ == model_abs(self@),
    {
        proof {
            use_type_invariant(self);
        }
        if self.mantissa < 0 {
            Decimal { mantissa: -self.mantissa, scale: self.scale }
        } else {
            *self
        }
    }

    /// The negation, at the same scale.
    pub fn neg(&self) -> (r: Decimal)
        ensures
            r@ == model_neg(self@),
    {
        proof {
            use_type_invariant(self);
        }
        Decimal { mantissa: -self.mantissa, scale: self.scale }
    }

    /// `self + other`, or `None` on overflow.
    ///
    /// Calls `rust_decimal::Decimal::checked_add`, which returns `None` on overflow.
    /// The contract names the outcome [`decimal_sum`].
    #[verifier::external_body]
    pub(crate) fn checked_add(&self, other: &Decimal) -> (r: Option<Decimal>)
        ensures
            r is Some <==> decimal_sum(self@, other@) is Some,
            r matches Some(d) ==> decimal_sum(self@, other@) == Some(d@),
    {
        let a = rust_decimal::Decimal::from_i128_with_scale(self.mantissa, self.scale);
        let b = rust_decimal::Decimal::from_i128_with_scale(other.mantissa, other.scale);
        a.checked_add(b).map(|d| Decimal { mantissa: d.mantissa(), scale: d.scale() })
    }

    /// `self - other`, or `None` on overflow.
    ///
    /// Calls `rust_decimal::Decimal::checked_sub`, which returns `None` on overflow.
    /// The contract names the outcome [`decimal_difference`].
    #[verifier::external_body]
    pub(crate) fn checked_sub(&self, other: &Decimal) -> (r: Option<Decimal>)
        ensures
            r is Some <==> decimal_difference(self@, other@) is Some,
            r matches Some(d) ==> decimal_difference(self@, other@) == Some(d@),
    {
        let a = rust_decimal::Decimal::from_i128_with_scale(self.mantissa, self.scale);
        let b = rust_decimal::Decimal::from_i128_with_scale(other.mantissa, other.scale);
        a.checked_sub(b).map(|d| Decimal { mantissa: d.mantissa(), scale: d.scale() })
    }

    /// `self * other`, or `None` on overflow.
    ///
    /// Calls `rust_decimal::Decimal::checked_mul`, which returns `None` on overflow.
    /// The contract names the outcome [`decimal_product`] and adds one fact of the
    /// source: the product of two numbers that are not negative is not negative.
    #[verifier::external_body]
    pub(crate) fn checked_mul(&self, other: &Decimal) -> (r: Option<Decimal>)
        ensures
            r is Some <==> decimal_product(self@, other@) is Some,
            r matches Some(d) ==> decimal_product(self@, other@) == Some(d@),
            r matches Some(d) ==> (self@.mantissa >= 0 && other@.mantissa >= 0 ==> d@.mantissa >= 0),
    {
        let a = rust_decimal::Decimal::from_i128_with_scale(self.mantissa, self.scale);
        let b = rust_decimal::Decimal::from_i128_with_scale(other.mantissa, other.scale);
        a.checked_mul(b).map(|d| Decimal { mantissa: d.mantissa(), scale: d.scale() })
    }

    /// `self / other`, or `None` when `other` is zero or the quotient overflows.
    ///
    /// Calls `rust_decimal::Decimal::checked_div`, which returns `None` for a zero
    /// divisor and on overflow. The contract names the outcome [`decimal_quotient`] and
    /// adds one fact of the source: a number that is not negative divided by a positive
    /// one is not negative.
    #[verifier::external_body]
    pub(crate) fn checked_div(&self, other: &Decimal) -> (r: Option<Decimal>)
        ensures
            r is Some <==> decimal_quotient(self@, other@) is Some,
            r matches Some(d) ==> decimal_quotient(self@, other@) == Some(d@),
            r matches Some(d) ==> (self@.mantissa >= 0 && other@.mantissa > 0 ==> d@.mantissa >= 0),
    {
        let a = rust_decimal::Decimal::from_i128_with_scale(self.mantissa, self.scale);
        let b = rust_decimal::Decimal::from_i128_with_scale(other.mantissa, other.scale);
        a.checked_div(b).map(|d| Decimal { mantissa: d.mantissa(), scale: d.scale() })
    }

    /// `self / other` with at most `max_scale` digits after the decimal point, or `None`
    /// when `other` is zero or the quotient overflows. A quotient with more digits is
    /// rounded, half-way cases to the even neighbour.
    pub fn checked_div_bounded(&self, other: &Decimal, max_scale: u32) -> (r: Option<Decimal>)
        ensures
            r is Some <==> bounded_quotient(self@, other@, max_scale as nat) is Some,
            r matches Some(d) ==> bounded_quotient(self@, other@, max_scale as nat) == Some(d@),
            r matches Some(d) ==> d@.scale <= max_scale,
            r matches Some(d) ==> (self@.mantissa >= 0 && other@.mantissa > 0 ==> d@.mantissa >= 0),
    {
        match self.checked_div(other) {
            Some(q) => {
                proof {
                    lemma_rounded_is_bounded(q@, max_scale as nat);
                }
                Some(q.round_dp(max_scale))
            },
            None => None,
        }
    }

    /// The value that [`Decimal::zero`] returns.
    pub closed spec fn zero_value() -> Decimal {
        Decimal { mantissa: 0, scale: 0 }
    }

    /// The sign of `self - other` as numbers: `-1`, `0` or `1`.
    ///
    /// Calls `rust_decimal`'s `Ord::cmp` for `Decimal`, which compares the two values
    /// exactly after aligning their scales.
    #[verifier::external_body]
    pub(crate) fn compare(&self, other: &Decimal) -> (r: i8)
        ensures
            r == model_order(self@, other@),
    {
        let a = rust_decimal::Decimal::from_i128_with_scale(self.mantissa, self.scale);
        let b = rust_decimal::Decimal::from_i128_with_scale(other.mantissa, other.scale);
        match a.cmp(&b) {
            std::cmp::Ordering::Less => -1,
            std::cmp::Ordering::Equal => 0,
            std::cmp::Ordering::Greater => 1,
        }
    }

    /// The number rounded to `places` digits after the decimal point, half-way cases to
    /// the even neighbour.
    ///
    /// Calls `rust_decimal::Decimal::round_dp`, which rounds with the strategy
    /// `MidpointNearestEven` and returns a number with no more digits unchanged.
    #[verifier::external_body]
    pub(crate) fn round_dp(&self, places: u32) -> (r: Decimal)
        ensures
            r@ == model_rounded(self@, places as nat),
    {
        let d = rust_decimal::Decimal::from_i128_with_scale(self.mantissa, self.scale).round_dp(places);
        Decimal { mantissa: d.mantissa(), scale: d.scale() }
    }

    /// The number without trailing zeros after the decimal point.
    ///
    /// Calls `rust_decimal::Decimal::normalize`, which strips trailing zeros and turns
    /// zero into zero with scale zero.
    #[verifier::external_body]
    pub(crate) fn normalize(&self) -> (r: Decimal)
        ensures
            r@ == model_normalized(self@),
    {
        let d = rust_decimal::Decimal::from_i128_with_scale(self.mantissa, self.scale).normalize();
        Decimal { mantissa: d.mantissa(), scale: d.scale() }
    }

    /// The number as text, with as many digits after the point as its scale says.
    ///
    /// Calls the `Display` of `rust_decimal::Decimal` without a precision; the contract
    /// names the outcome [`decimal_text`].
    #[verifier::external_body]
    pub(crate) fn to_text(&self) -> (r: String)
        ensures
            r@ == decimal_text(self@, None),
    {
        rust_decimal::Decimal::from_i128_with_scale(self.mantissa, self.scale).to_string()
    }

    /// The number as text with exactly `places` digits after the point.
    ///
    /// Calls the `Display` of `rust_decimal::Decimal` with a precision; the contract
    /// names the outcome [`decimal_text`].
    #[verifier::external_body]
    pub(crate) fn to_fixed_text(&self, places: u32) -> (r: String)
        requires
            places <= MAX_SCALE,
        ensures
            r@ == decimal_text(self@, Some(places as nat)),
    {
        let d = rust_decimal::Decimal::from_i128_with_scale(self.mantissa, self.scale);
        format!("{:.*}", places as usize, d)
    }

    /// `self < other` as numbers.
    pub fn lt(&self, other: &Decimal) -> (r: bool)
        ensures
            r == model_lt(self@, other@),
    {
        self.compare(other) < 0
    }

    /// `self <= other` as numbers.
    pub fn le(&self, other: &Decimal) -> (r: bool)
        ensures
            r == model_le(self@, other@),
    {
        self.compare(other) <= 0
    }

    /// `self > other` as numbers.
    pub fn gt(&self, other: &Decimal) -> (r: bool)
        ensures
            r == model_lt(other@, self@),
    {
        self.compare(other) > 0
    }

    /// `self >= other` as numbers.
    pub fn ge(&self, other: &Decimal) -> (r: bool)
        ensures
            r == model_le(other@, self@),
    {
        self.compare(other) >= 0
    }
}

impl PartialEq for Decimal {
    /// Equality of the numbers: `1.0 == 1.00`.
    fn eq(&self, other: &Decimal) -> (r: bool) {
        self.compare(other) == 0
    }
}

impl PartialEqSpecImpl for Decimal {
    open spec fn obeys_eq_spec() -> bool {
        true
    }

    open spec fn eq_spec(&self, other: &Decimal) -> bool {
        model_eq(self@, other@)
    }
}

impl From<i64> for Decimal {
    /// The integer `num`, with scale zero.
    fn from(num: i64) -> (r: Decimal) {
        Decimal::new(num, 0)
    }
}

impl FromSpecImpl<i64> for Decimal {
    open spec fn obeys_from_spec() -> bool {
        true
    }

    open spec fn from_spec(num: i64) -> Decimal {
        Decimal::integer_value(num)
    }
}

impl Decimal {
    /// The value that `Decimal::from` returns for an integer.
    pub closed spec fn integer_value(num: i64) -> Decimal {
        Decimal { mantissa: num as i128, scale: 0 }
    }

    /// The model of an integer converted by `Decimal::from`.
    pub proof fn lemma_integer_value(num: i64)
        ensures
            Decimal::integer_value(num)@ == (DecimalModel { mantissa: num as int, scale: 0 }),
    {
    }

    /// The model of the value that [`Decimal::zero`] returns.
    pub proof fn lemma_zero_value()
        ensures
            Decimal::zero_value()@ == model_zero(),
    {
    }
}

} // verus!
