use tesser_execution::decimal::Decimal;
use tesser_execution::ident::Symbol;
use tesser_execution::market::{Signal, SignalKind};
use tesser_execution::report::{decimal_raw, format_decimal};
use tesser_execution::sizer::{OrderSizer, PortfolioPercentSizer};

fn pow10(n: u32) -> i128 {
    10i128.pow(n)
}

/// Rounds `m / 10^s` to `dp` digits after the point, half-way cases to the even
/// neighbour.
fn rounded(m: i128, s: u32, dp: u32) -> (i128, u32) {
    if s <= dp {
        return (m, s);
    }
    let unit = pow10(s - dp);
    let size = m.abs();
    let whole = size / unit;
    let rest = size % unit;
    let up = 2 * rest > unit || (2 * rest == unit && whole % 2 == 1);
    let r = if up { whole + 1 } else { whole };
    (if m < 0 { -r } else { r }, dp)
}

/// Strips trailing zeros after the point.
fn normalized(m: i128, s: u32) -> (i128, u32) {
    if m == 0 {
        return (0, 0);
    }
    let (mut m, mut s) = (m, s);
    while s > 0 && m % 10 == 0 {
        m /= 10;
        s -= 1;
    }
    (m, s)
}

/// Writes `m / 10^s` in full.
fn text(m: i128, s: u32) -> String {
    let digits = m.abs().to_string();
    let width = s as usize + 1;
    let padded = format!("{:0>width$}", digits, width = width);
    let (whole, fraction) = padded.split_at(padded.len() - s as usize);
    let sign = if m < 0 { "-" } else { "" };
    if s == 0 {
        format!("{sign}{whole}")
    } else {
        format!("{sign}{whole}.{fraction}")
    }
}

fn mantissas() -> Vec<i64> {
    let mut all = vec![
        0, 1, 2, 4, 5, 6, 9, 10, 15, 25, 35, 45, 50, 55, 65, 75, 99, 100, 105, 115, 125, 149, 150,
        151, 249, 250, 251, 500, 999, 1000, 1005, 1015, 1500, 2500, 4999, 5000, 5001, 12345,
        123_456_789, 999_999_999, 1_000_000_005, 5_000_000_000, 15_000_000_000,
        25_000_000_000, 123_456_789_012_345_678, 500_000_000_000_000_000,
        i64::MAX,
    ];
    let negatives: Vec<i64> = all.iter().map(|m| -m).collect();
    all.extend(negatives);
    all
}

#[test]
fn rounding_matches_the_model() {
    let one = Decimal::from(1);
    for m in mantissas() {
        for s in 0..=20u32 {
            for dp in 0..=20u32 {
                let d = Decimal::new(m, s);
                let got = d.checked_div_bounded(&one, dp).unwrap();
                let (em, es) = rounded(m as i128, s, dp);
                let expected = Decimal::try_from_i128_with_scale(em, es).unwrap();
                assert_eq!(got, expected, "{m}e-{s} rounded to {dp}");
                assert!(got.scale() <= dp, "{m}e-{s} rounded to {dp}: scale {}", got.scale());
            }
        }
    }
}

#[test]
fn formatting_matches_the_model() {
    for m in mantissas() {
        for s in 0..=20u32 {
            let d = Decimal::new(m, s);
            let (nm, ns) = normalized(m as i128, s);
            assert_eq!(decimal_raw(&d), text(nm, ns), "{m}e-{s} in full");
            for dp in [0u32, 1, 2, 4, 6, 9, 10, 18, 19, 28] {
                let (rm, rs) = rounded(m as i128, s, dp);
                let (nm, ns) = normalized(rm, rs);
                let expected = if m == 0 { "0".to_string() } else { text(nm, ns) };
                assert_eq!(format_decimal(&d, dp), expected, "{m}e-{s} with {dp} digits");
            }
        }
    }
}

#[test]
fn ordering_matches_the_model() {
    let values: Vec<(i64, u32)> = vec![
        (0, 0), (0, 5), (1, 0), (10, 1), (100, 2), (11, 1), (9, 1), (-1, 0), (-10, 1), (-11, 1),
        (-9, 1), (15, 1), (149, 2), (150, 2), (151, 2), (1, 18), (-1, 18), (i64::MAX, 0),
        (i64::MAX, 18), (i64::MIN + 1, 0), (123_456_789, 9), (123_456_789, 3), (5, 10),
    ];
    for (m1, s1) in &values {
        for (m2, s2) in &values {
            let a = Decimal::new(*m1, *s1);
            let b = Decimal::new(*m2, *s2);
            let left = *m1 as i128 * pow10(*s2);
            let right = *m2 as i128 * pow10(*s1);
            assert_eq!(a.lt(&b), left < right, "{m1}e-{s1} < {m2}e-{s2}");
            assert_eq!(a.le(&b), left <= right, "{m1}e-{s1} <= {m2}e-{s2}");
            assert_eq!(a.gt(&b), left > right, "{m1}e-{s1} > {m2}e-{s2}");
            assert_eq!(a.ge(&b), left >= right, "{m1}e-{s1} >= {m2}e-{s2}");
            assert_eq!(a == b, left == right, "{m1}e-{s1} == {m2}e-{s2}");
        }
    }
}

#[test]
fn products_and_quotients_of_non_negative_numbers_are_not_negative() {
    let signal = Signal::new(Symbol::from_code("BTCUSDT"), SignalKind::EnterLong, Decimal::from(1));
    for equity in [(0i64, 0u32), (1, 28), (5, 1), (123_456_789, 4), (i64::MAX, 0)] {
        for percent in [(1i64, 28u32), (1, 2), (5, 1), (99, 2), (3, 0)] {
            for price in [(1i64, 28u32), (1, 0), (3, 0), (7, 3), (i64::MAX, 0)] {
                let sizer = PortfolioPercentSizer { percent: Decimal::new(percent.0, percent.1) };
                if let Ok(q) = sizer.size(
                    &signal,
                    Decimal::new(equity.0, equity.1),
                    Decimal::new(price.0, price.1),
                ) {
                    assert!(!q.is_negative());
                    assert!(q.scale() <= 18);
                }
            }
        }
    }
}
