use tesser_execution::decimal::Decimal;
use tesser_execution::report::{
    csv_row, csv_rows, decimal_raw, format_decimal, format_optional, format_period,
    optional_decimal_raw, render_lines, ExecutionCsvRow, ExecutionReport, ExecutionStats,
};
use tesser_execution::text::{blank, digit_of, pad_end, pad_start};

fn stats(label: &str, orders: usize) -> ExecutionStats {
    ExecutionStats {
        label: label.to_string(),
        order_count: orders,
        fill_count: orders * 2,
        orders_with_arrival: orders,
        filled_quantity: Decimal::new(123_456_789, 5), // 1234.56789
        notional: Decimal::new(5_000_005, 3),          // 5000.005
        total_fees: Decimal::new(1_500, 3),            // 1.500
        implementation_shortfall: Decimal::new(-25, 1), // -2.5
        avg_slippage_bps: Some(Decimal::new(1_255, 3)), // 1.255
    }
}

#[test]
fn format_decimal_rounds_half_to_even_and_strips_zeros() {
    assert_eq!(format_decimal(&Decimal::zero(), 2), "0");
    assert_eq!(format_decimal(&Decimal::new(0, 5), 2), "0");
    assert_eq!(format_decimal(&Decimal::new(123_456_789, 5), 4), "1234.5679");
    assert_eq!(format_decimal(&Decimal::new(5_000_005, 3), 2), "5000");
    assert_eq!(format_decimal(&Decimal::new(1_500, 3), 6), "1.5");
    assert_eq!(format_decimal(&Decimal::new(-25, 1), 0), "-2");
    assert_eq!(format_decimal(&Decimal::new(-35, 1), 0), "-4");
    assert_eq!(format_decimal(&Decimal::new(65, 1), 0), "6");
    assert_eq!(format_decimal(&Decimal::new(75, 1), 0), "8");
    assert_eq!(format_decimal(&Decimal::new(1_255, 3), 2), "1.26");
    assert_eq!(format_decimal(&Decimal::new(1_245, 3), 2), "1.24");
    assert_eq!(format_decimal(&Decimal::new(100, 0), 2), "100");
}

#[test]
fn optional_and_raw_forms() {
    assert_eq!(format_optional(None, 2), "-");
    assert_eq!(format_optional(Some(Decimal::new(1_255, 3)), 2), "1.26");
    assert_eq!(decimal_raw(&Decimal::zero()), "0");
    assert_eq!(decimal_raw(&Decimal::new(1_500, 3)), "1.5");
    assert_eq!(decimal_raw(&Decimal::new(123_456_789, 5)), "1234.56789");
    assert_eq!(decimal_raw(&Decimal::new(-2_500, 2)), "-25");
    assert_eq!(optional_decimal_raw(None), "");
    assert_eq!(optional_decimal_raw(Some(Decimal::new(10, 1))), "1");
}

#[test]
fn periods_are_written_as_rfc3339() {
    assert_eq!(format_period(None), "-");
    assert_eq!(format_period(Some(0)), "1970-01-01T00:00:00+00:00");
    assert_eq!(format_period(Some(947_638_923_004)), "2000-01-12T01:02:03.004+00:00");
    assert_eq!(format_period(Some(i64::MAX)), "-");
}

#[test]
fn csv_rows_start_with_the_totals() {
    let report = ExecutionReport {
        period_start_ms: None,
        period_end_ms: None,
        totals: stats("ALL", 3),
        per_algo: vec![stats("TWAP", 2), stats("VWAP", 1)],
        skipped_orders: 0,
    };
    let rows = csv_rows(&report);
    assert_eq!(rows.len(), 3);
    assert_eq!(
        rows[0],
        ExecutionCsvRow {
            label: "ALL".to_string(),
            order_count: 3,
            fill_count: 6,
            orders_with_arrival: 3,
            filled_quantity: "1234.56789".to_string(),
            notional: "5000.005".to_string(),
            total_fees: "1.5".to_string(),
            implementation_shortfall: "-2.5".to_string(),
            avg_slippage_bps: "1.255".to_string(),
        }
    );
    assert_eq!(rows[1].label, "TWAP");
    assert_eq!(rows[2].label, "VWAP");
    assert_eq!(rows[1], csv_row(&stats("TWAP", 2)));
    let mut none = stats("X", 0);
    none.avg_slippage_bps = None;
    assert_eq!(csv_row(&none).avg_slippage_bps, "");
}

#[test]
fn empty_report_says_so() {
    let mut totals = stats("ALL", 0);
    totals.fill_count = 0;
    totals.orders_with_arrival = 0;
    let report = ExecutionReport {
        period_start_ms: Some(0),
        period_end_ms: None,
        totals,
        per_algo: vec![stats("TWAP", 2)],
        skipped_orders: 4,
    };
    assert_eq!(
        render_lines(&report, "-"),
        vec![
            "=== Execution Analysis ===".to_string(),
            "Period        : 1970-01-01T00:00:00+00:00 -> -".to_string(),
            "Orders        : 0 analyzed (4 skipped)".to_string(),
            "Fills         : 0".to_string(),
            "Arrival Cover : 0 (-)".to_string(),
            "No executions found for the requested window.".to_string(),
        ]
    );
}

#[test]
fn report_without_breakdown_ends_with_the_totals() {
    let report = ExecutionReport {
        period_start_ms: None,
        period_end_ms: None,
        totals: stats("ALL", 3),
        per_algo: vec![],
        skipped_orders: 1,
    };
    assert_eq!(
        render_lines(&report, "100%"),
        vec![
            "=== Execution Analysis ===".to_string(),
            "Period        : - -> -".to_string(),
            "Orders        : 3 analyzed (1 skipped)".to_string(),
            "Fills         : 6".to_string(),
            "Arrival Cover : 3 (100%)".to_string(),
            "Volume        : 1234.5679".to_string(),
            "Notional      : 5000".to_string(),
            "Fees          : 1.5".to_string(),
            "Shortfall     : -2.5".to_string(),
            "Avg Slippage  : 1.26 bps".to_string(),
        ]
    );
}

#[test]
fn breakdown_is_laid_out_in_columns() {
    let report = ExecutionReport {
        period_start_ms: None,
        period_end_ms: None,
        totals: stats("ALL", 3),
        per_algo: vec![stats("TWAP", 2), stats("a-very-long-label", 1)],
        skipped_orders: 0,
    };
    let lines = render_lines(&report, "100%");
    assert_eq!(lines.len(), 15);
    assert_eq!(lines[10], "");
    assert_eq!(lines[11], "Algo breakdown:");
    assert_eq!(
        lines[12],
        format!(
            "{:<12} {:>8} {:>12} {:>14} {:>12} {:>14} {:>14}",
            "Algo", "Orders", "Quantity", "Notional", "Fees", "Shortfall", "Slippage(bps)"
        )
    );
    assert_eq!(
        lines[13],
        "TWAP                2    1234.5679           5000          1.5           -2.5           1.26"
    );
    assert_eq!(
        lines[14],
        format!(
            "{:<12} {:>8} {:>12} {:>14} {:>12} {:>14} {:>14}",
            "a-very-long-label", 1, "1234.5679", "5000", "1.5", "-2.5", "1.26"
        )
    );
}

#[test]
fn padding_fills_to_the_width_and_never_cuts() {
    assert_eq!(blank(0), "");
    assert_eq!(blank(3), "   ");
    assert_eq!(pad_end("ab", 5), "ab   ");
    assert_eq!(pad_start("ab", 5), "   ab");
    assert_eq!(pad_end("abcdef", 5), "abcdef");
    assert_eq!(pad_start("abcdef", 5), "abcdef");
    assert_eq!(pad_end("", 2), "  ");
    assert_eq!(pad_start("abcde", 5), "abcde");
}

#[test]
fn digits_are_recognised() {
    assert_eq!(digit_of('0'), Some(0));
    assert_eq!(digit_of('7'), Some(7));
    assert_eq!(digit_of('9'), Some(9));
    assert_eq!(digit_of('a'), None);
    assert_eq!(digit_of('-'), None);
}
