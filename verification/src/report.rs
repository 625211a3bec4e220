//! Execution analysis reports: how the figures are written, as lines of text and as
//! rows of a table. Printing the lines and writing the rows to a file is the caller's
//! work.

use vstd::prelude::*;
use vstd::string::StringExecFns;
use crate::decimal::{decimal_text, model_normalized, model_rounded, Decimal, DecimalModel};
use crate::market::text_option;
use crate::text::{decimal_digits, pad_end, pad_start, padded_end, padded_start, unsigned_text};

verus! {

/// The RFC 3339 text of the instant `millis` milliseconds after the start of 1970 in
/// UTC, as `chrono` writes it; `None` where the instant is outside the range that
/// `chrono` can hold.
pub uninterp spec fn rfc3339_text(millis: i64) -> Option<Seq<char>>;

/// The RFC 3339 text of an instant given in milliseconds since the start of 1970.
///
/// Calls `chrono::DateTime::from_timestamp_millis`, which returns `None` on an
/// out-of-range number, and `to_rfc3339` on the date and time in UTC.
#[verifier::external_body]
fn rfc3339(millis: i64) -> (r: Option<String>)
    ensures
        text_option(r) == rfc3339_text(millis),
{
    chrono::DateTime::<chrono::Utc>::from_timestamp_millis(millis).map(|t| t.to_rfc3339())
}

/// How an instant of a report's period is written: as RFC 3339 text, or as a dash where
/// there is none.
pub open spec fn period_text(ts: Option<i64>) -> Seq<char> {
    match ts {
        None => "-"@,
        Some(millis) => match rfc3339_text(millis) {
            Some(text) => text,
            None => "-"@,
        },
    }
}

/// Writes an instant of a report's period.
pub fn format_period(ts: Option<i64>) -> (r: String)
    ensures
        r@ == period_text(ts),
{
    match ts {
        None => String::from_str("-"),
        Some(millis) => match rfc3339(millis) {
            Some(text) => text,
            None => String::from_str("-"),
        },
    }
}

/// How an amount is written with at most `scale` digits after the decimal point: zero
/// as `0`, anything else rounded to `scale` digits and without trailing zeros.
pub open spec fn formatted_decimal(value: DecimalModel, scale: nat) -> Seq<char> {
    if value.mantissa == 0 {
        "0"@
    } else {
        decimal_text(model_normalized(model_rounded(value, scale)), None)
    }
}

/// Writes an amount with at most `scale` digits after the decimal point.
pub fn format_decimal(value: &Decimal, scale: u32) -> (r: String)
    ensures
        r@ == formatted_decimal(value@, scale as nat),
{
    if value.is_zero() {
        return String::from_str("0");
    }
    value.round_dp(scale).normalize().to_text()
}

/// How an amount that may be missing is written: a dash where it is missing.
pub open spec fn formatted_optional(value: Option<Decimal>, scale: nat) -> Seq<char> {
    match value {
        Some(v) => formatted_decimal(v@, scale),
        None => "-"@,
    }
}

/// Writes an amount that may be missing.
pub fn format_optional(value: Option<Decimal>, scale: u32) -> (r: String)
    ensures
        r@ == formatted_optional(value, scale as nat),
{
    match value {
        Some(v) => format_decimal(&v, scale),
        None => String::from_str("-"),
    }
}

/// How an amount is written in a table: zero as `0`, anything else in full and without
/// trailing zeros.
pub open spec fn raw_decimal(value: DecimalModel) -> Seq<char> {
    if value.mantissa == 0 {
        "0"@
    } else {
        decimal_text(model_normalized(value), None)
    }
}

/// Writes an amount for a table.
pub fn decimal_raw(value: &Decimal) -> (r: String)
    ensures
        r@ == raw_decimal(value@),
{
    if value.is_zero() {
        return String::from_str("0");
    }
    value.normalize().to_text()
}

/// How an amount that may be missing is written in a table: empty where it is missing.
pub open spec fn raw_optional(value: Option<Decimal>) -> Seq<char> {
    match value {
        Some(v) => raw_decimal(v@),
        None => Seq::empty(),
    }
}

/// Writes an amount that may be missing for a table.
pub fn optional_decimal_raw(value: Option<Decimal>) -> (r: String)
    ensures
        r@ == raw_optional(value),
{
    match value {
        Some(v) => decimal_raw(&v),
        None => String::new(),
    }
}

/// The figures of a set of executions.
#[derive(Debug, PartialEq)]
pub struct ExecutionStats {
    pub label: String,
    pub order_count: usize,
    pub fill_count: usize,
    pub orders_with_arrival: usize,
    pub filled_quantity: Decimal,
    pub notional: Decimal,
    pub total_fees: Decimal,
    pub implementation_shortfall: Decimal,
    pub avg_slippage_bps: Option<Decimal>,
}

/// The analysis of the executions of a period: the totals and the figures per
/// algorithm.
#[derive(Debug, PartialEq)]
pub struct ExecutionReport {
    pub period_start_ms: Option<i64>,
    pub period_end_ms: Option<i64>,
    pub totals: ExecutionStats,
    pub per_algo: Vec<ExecutionStats>,
    pub skipped_orders: usize,
}

/// One row of the exported table.
#[derive(Debug, PartialEq, Eq)]
pub struct ExecutionCsvRow {
    pub label: String,
    pub order_count: usize,
    pub fill_count: usize,
    pub orders_with_arrival: usize,
    pub filled_quantity: String,
    pub notional: String,
    pub total_fees: String,
    pub implementation_shortfall: String,
    pub avg_slippage_bps: String,
}

/// The mathematical content of an [`ExecutionCsvRow`].
pub struct ExecutionCsvRowModel {
    pub label: Seq<char>,
    pub order_count: usize,
    pub fill_count: usize,
    pub orders_with_arrival: usize,
    pub filled_quantity: Seq<char>,
    pub notional: Seq<char>,
    pub total_fees: Seq<char>,
    pub implementation_shortfall: Seq<char>,
    pub avg_slippage_bps: Seq<char>,
}

impl View for ExecutionCsvRow {
    type V = ExecutionCsvRowModel;

    open spec fn view(&self) -> ExecutionCsvRowModel {
        ExecutionCsvRowModel {
            label: self.label@,
            order_count: self.order_count,
            fill_count: self.fill_count,
            orders_with_arrival: self.orders_with_arrival,
            filled_quantity: self.filled_quantity@,
            notional: self.notional@,
            total_fees: self.total_fees@,
            implementation_shortfall: self.implementation_shortfall@,
            avg_slippage_bps: self.avg_slippage_bps@,
        }
    }
}

/// The row of the exported table for a set of figures: counts as they are, amounts in
/// full.
pub open spec fn table_row(stats: ExecutionStats) -> ExecutionCsvRowModel {
    ExecutionCsvRowModel {
        label: stats.label@,
        order_count: stats.order_count,
        fill_count: stats.fill_count,
        orders_with_arrival: stats.orders_with_arrival,
        filled_quantity: raw_decimal(stats.filled_quantity@),
        notional: raw_decimal(stats.notional@),
        total_fees: raw_decimal(stats.total_fees@),
        implementation_shortfall: raw_decimal(stats.implementation_shortfall@),
        avg_slippage_bps: raw_optional(stats.avg_slippage_bps),
    }
}

/// The row of the exported table for a set of figures.
pub fn csv_row(stats: &ExecutionStats) -> (r: ExecutionCsvRow)
    ensures
        r@ == table_row(*stats),
{
    ExecutionCsvRow {
        label: stats.label.clone(),
        order_count: stats.order_count,
        fill_count: stats.fill_count,
        orders_with_arrival: stats.orders_with_arrival,
        filled_quantity: decimal_raw(&stats.filled_quantity),
        notional: decimal_raw(&stats.notional),
        total_fees: decimal_raw(&stats.total_fees),
        implementation_shortfall: decimal_raw(&stats.implementation_shortfall),
        avg_slippage_bps: optional_decimal_raw(stats.avg_slippage_bps),
    }
}

/// The models of a sequence of rows.
pub open spec fn row_models(rows: Seq<ExecutionCsvRow>) -> Seq<ExecutionCsvRowModel> {
    rows.map_values(|r: ExecutionCsvRow| r@)
}

/// The rows of the exported table: the totals first, then one row per algorithm in the
/// order of the report.
pub open spec fn table_rows(report: ExecutionReport) -> Seq<ExecutionCsvRowModel> {
    seq![table_row(report.totals)] + report.per_algo@.map_values(|s: ExecutionStats| table_row(s))
}

/// The rows of the exported table.
pub fn csv_rows(report: &ExecutionReport) -> (r: Vec<ExecutionCsvRow>)
    ensures
        row_models(r@) == table_rows(*report),
{
    let mut rows: Vec<ExecutionCsvRow> = Vec::new();
    rows.push(csv_row(&report.totals));
    let mut i: usize = 0;
    let ghost per_algo = report.per_algo@.map_values(|s: ExecutionStats| table_row(s));
    proof {
        assert(row_models(rows@) =~= seq![table_row(report.totals)] + per_algo.take(0));
    }
    while i < report.per_algo.len()
        invariant
            i <= report.per_algo@.len(),
            per_algo == report.per_algo@.map_values(|s: ExecutionStats| table_row(s)),
            row_models(rows@) == seq![table_row(report.totals)] + per_algo.take(i as int),
        decreases report.per_algo@.len() - i,
    {
        let ghost before = rows@;
        let row = csv_row(&report.per_algo[i]);
        rows.push(row);
        proof {
            assert(row_models(rows@) =~= row_models(before).push(row@));
            assert(per_algo.take(i + 1) =~= per_algo.take(i as int).push(per_algo[i as int]));
        }
        i = i + 1;
    }
    proof {
        assert(per_algo.take(i as int) =~= per_algo);
    }
    rows
}

/// The texts of a sequence of lines.
pub open spec fn line_texts(lines: Seq<String>) -> Seq<Seq<char>> {
    lines.map_values(|l: String| l@)
}

/// The line of the breakdown for one algorithm: the label on the left, then the count
/// and the amounts on the right of their columns.
pub open spec fn breakdown_row(stats: ExecutionStats) -> Seq<char> {
    padded_end(stats.label@, 12) + " "@ + padded_start(decimal_digits(stats.order_count as nat), 8) + " "@
        + padded_start(formatted_decimal(stats.filled_quantity@, 4), 12) + " "@ + padded_start(
        formatted_decimal(stats.notional@, 2),
        14,
    ) + " "@ + padded_start(formatted_decimal(stats.total_fees@, 6), 12) + " "@ + padded_start(
        formatted_decimal(stats.implementation_shortfall@, 6),
        14,
    ) + " "@ + padded_start(formatted_optional(stats.avg_slippage_bps, 2), 14)
}

/// The heading of the breakdown, in the columns of its rows.
pub open spec fn breakdown_heading() -> Seq<char> {
    padded_end("Algo"@, 12) + " "@ + padded_start("Orders"@, 8) + " "@ + padded_start("Quantity"@, 12) + " "@
        + padded_start("Notional"@, 14) + " "@ + padded_start("Fees"@, 12) + " "@ + padded_start(
        "Shortfall"@,
        14,
    ) + " "@ + padded_start("Slippage(bps)"@, 14)
}

/// The lines that every report starts with: the title, the period, and the counts of
/// orders, fills and orders with an arrival price. `arrival_cover` is the share of
/// orders with an arrival price as the caller wants it shown.
pub open spec fn heading_lines(report: ExecutionReport, arrival_cover: Seq<char>) -> Seq<Seq<char>> {
    seq![
        "=== Execution Analysis ==="@,
        "Period        : "@ + period_text(report.period_start_ms) + " -> "@ + period_text(
            report.period_end_ms,
        ),
        "Orders        : "@ + decimal_digits(report.totals.order_count as nat) + " analyzed ("@
            + decimal_digits(report.skipped_orders as nat) + " skipped)"@,
        "Fills         : "@ + decimal_digits(report.totals.fill_count as nat),
        "Arrival Cover : "@ + decimal_digits(report.totals.orders_with_arrival as nat) + " ("@
            + arrival_cover + ")"@,
    ]
}

/// The lines with the totals of a report.
pub open spec fn totals_lines(totals: ExecutionStats) -> Seq<Seq<char>> {
    seq![
        "Volume        : "@ + formatted_decimal(totals.filled_quantity@, 4),
        "Notional      : "@ + formatted_decimal(totals.notional@, 2),
        "Fees          : "@ + formatted_decimal(totals.total_fees@, 6),
        "Shortfall     : "@ + formatted_decimal(totals.implementation_shortfall@, 6),
        "Avg Slippage  : "@ + formatted_optional(totals.avg_slippage_bps, 2) + " bps"@,
    ]
}

/// The lines of a report. A report without orders says so after the heading. Any other
/// report shows its totals and, where there are figures per algorithm, a breakdown with
/// one line per algorithm after an empty line and the heading of the breakdown.
pub open spec fn report_lines(report: ExecutionReport, arrival_cover: Seq<char>) -> Seq<Seq<char>> {
    if report.totals.order_count == 0 {
        heading_lines(report, arrival_cover).push("No executions found for the requested window."@)
    } else if report.per_algo@.len() == 0 {
        heading_lines(report, arrival_cover) + totals_lines(report.totals)
    } else {
        heading_lines(report, arrival_cover) + totals_lines(report.totals) + seq![
            Seq::<char>::empty(),
            "Algo breakdown:"@,
            breakdown_heading(),
        ] + report.per_algo@.map_values(|s: ExecutionStats| breakdown_row(s))
    }
}

/// A line made of a label and a value.
fn labelled(label: &str, value: &str) -> (r: String)
    ensures
        r@ == label@ + value@,
{
    let mut line = String::from_str(label);
    line.append(value);
    line
}

/// A line of the breakdown from the texts of its seven columns.
fn columns(c0: &str, c1: &str, c2: &str, c3: &str, c4: &str, c5: &str, c6: &str) -> (r: String)
    ensures
        r@ == padded_end(c0@, 12) + " "@ + padded_start(c1@, 8) + " "@ + padded_start(c2@, 12) + " "@
            + padded_start(c3@, 14) + " "@ + padded_start(c4@, 12) + " "@ + padded_start(c5@, 14) + " "@
            + padded_start(c6@, 14),
{
    let mut line = pad_end(c0, 12);
    line.append(" ");
    let orders = pad_start(c1, 8);
    line.append(orders.as_str());
    line.append(" ");
    let quantity = pad_start(c2, 12);
    line.append(quantity.as_str());
    line.append(" ");
    let notional = pad_start(c3, 14);
    line.append(notional.as_str());
    line.append(" ");
    let fees = pad_start(c4, 12);
    line.append(fees.as_str());
    line.append(" ");
    let shortfall = pad_start(c5, 14);
    line.append(shortfall.as_str());
    line.append(" ");
    let slippage = pad_start(c6, 14);
    line.append(slippage.as_str());
    line
}

/// The line of the breakdown for one algorithm.
fn render_row(stats: &ExecutionStats) -> (r: String)
    ensures
        r@ == breakdown_row(*stats),
{
    let orders = unsigned_text(stats.order_count as u64);
    let quantity = format_decimal(&stats.filled_quantity, 4);
    let notional = format_decimal(&stats.notional, 2);
    let fees = format_decimal(&stats.total_fees, 6);
    let shortfall = format_decimal(&stats.implementation_shortfall, 6);
    let slippage = format_optional(stats.avg_slippage_bps, 2);
    columns(
        stats.label.as_str(),
        orders.as_str(),
        quantity.as_str(),
        notional.as_str(),
        fees.as_str(),
        shortfall.as_str(),
        slippage.as_str(),
    )
}

/// The lines that every report starts with.
fn render_heading(report: &ExecutionReport, arrival_cover: &str) -> (r: Vec<String>)
    ensures
        line_texts(r@) == heading_lines(*report, arrival_cover@),
{
    let mut lines: Vec<String> = Vec::new();
    lines.push(String::from_str("=== Execution Analysis ==="));
    let mut period = String::from_str("Period        : ");
    let start = format_period(report.period_start_ms);
    period.append(start.as_str());
    period.append(" -> ");
    let end = format_period(report.period_end_ms);
    period.append(end.as_str());
    lines.push(period);
    let mut orders = String::from_str("Orders        : ");
    let analyzed = unsigned_text(report.totals.order_count as u64);
    orders.append(analyzed.as_str());
    orders.append(" analyzed (");
    let skipped = unsigned_text(report.skipped_orders as u64);
    orders.append(skipped.as_str());
    orders.append(" skipped)");
    lines.push(orders);
    let fills = unsigned_text(report.totals.fill_count as u64);
    lines.push(labelled("Fills         : ", fills.as_str()));
    let mut cover = String::from_str("Arrival Cover : ");
    let arrivals = unsigned_text(report.totals.orders_with_arrival as u64);
    cover.append(arrivals.as_str());
    cover.append(" (");
    cover.append(arrival_cover);
    cover.append(")");
    lines.push(cover);
    proof {
        assert(line_texts(lines@) =~= heading_lines(*report, arrival_cover@));
    }
    lines
}

/// The lines with the totals of a report.
fn render_totals(totals: &ExecutionStats) -> (r: Vec<String>)
    ensures
        line_texts(r@) == totals_lines(*totals),
{
    let mut lines: Vec<String> = Vec::new();
    let quantity = format_decimal(&totals.filled_quantity, 4);
    lines.push(labelled("Volume        : ", quantity.as_str()));
    let notional = format_decimal(&totals.notional, 2);
    lines.push(labelled("Notional      : ", notional.as_str()));
    let fees = format_decimal(&totals.total_fees, 6);
    lines.push(labelled("Fees          : ", fees.as_str()));
    let shortfall = format_decimal(&totals.implementation_shortfall, 6);
    lines.push(labelled("Shortfall     : ", shortfall.as_str()));
    let slippage = format_optional(totals.avg_slippage_bps, 2);
    let mut line = labelled("Avg Slippage  : ", slippage.as_str());
    line.append(" bps");
    lines.push(line);
    proof {
        assert(line_texts(lines@) =~= totals_lines(*totals));
    }
    lines
}

/// Moves the lines of `more` to the end of `lines`.
fn extend(lines: &mut Vec<String>, more: Vec<String>)
    ensures
        line_texts(final(lines)@) == line_texts(old(lines)@) + line_texts(more@),
{
    let mut more = more;
    let ghost start = lines@;
    let ghost all = more@;
    let mut done: usize = 0;
    let total = more.len();
    proof {
        assert(all.take(0) =~= Seq::empty());
        assert(line_texts(lines@) =~= line_texts(start) + line_texts(all.take(0)));
        assert(all.skip(0) =~= all);
    }
    while more.len() > 0
        invariant
            done + more@.len() == total,
            total == all.len(),
            more@ == all.skip(done as int),
            line_texts(lines@) == line_texts(start) + line_texts(all.take(done as int)),
        decreases more@.len(),
    {
        let ghost before = lines@;
        let ghost rest = more@;
        let line = more.remove(0);
        proof {
            assert(line == all[done as int]) by {
                assert(rest[0] == all.skip(done as int)[0]);
            }
            assert(more@ =~= all.skip(done + 1));
        }
        lines.push(line);
        proof {
            assert(all.take(done + 1) =~= all.take(done as int).push(all[done as int]));
            assert(line_texts(lines@) =~= line_texts(before).push(line@));
            assert(line_texts(all.take(done + 1)) =~= line_texts(all.take(done as int)).push(line@));
            assert(line_texts(lines@) =~= line_texts(start) + line_texts(all.take(done + 1)));
        }
        done = done + 1;
    }
    proof {
        assert(all.take(done as int) =~= all);
    }
}

/// The lines of a report, to be printed one after the other.
pub fn render_lines(report: &ExecutionReport, arrival_cover: &str) -> (r: Vec<String>)
    ensures
        line_texts(r@) == report_lines(*report, arrival_cover@),
{
    let mut lines = render_heading(report, arrival_cover);
    if report.totals.order_count == 0 {
        let ghost before = lines@;
        lines.push(String::from_str("No executions found for the requested window."));
        proof {
            assert(line_texts(lines@) =~= line_texts(before).push(
                "No executions found for the requested window."@,
            ));
        }
        return lines;
    }
    extend(&mut lines, render_totals(&report.totals));
    if report.per_algo.len() == 0 {
        return lines;
    }
    let ghost summary = line_texts(lines@);
    lines.push(String::new());
    lines.push(String::from_str("Algo breakdown:"));
    lines.push(columns("Algo", "Orders", "Quantity", "Notional", "Fees", "Shortfall", "Slippage(bps)"));
    let ghost top = summary + seq![Seq::<char>::empty(), "Algo breakdown:"@, breakdown_heading()];
    let ghost rows = report.per_algo@.map_values(|s: ExecutionStats| breakdown_row(s));
    proof {
        assert(line_texts(lines@) =~= top + rows.take(0));
    }
    let mut i: usize = 0;
    while i < report.per_algo.len()
        invariant
            i <= report.per_algo@.len(),
            rows == report.per_algo@.map_values(|s: ExecutionStats| breakdown_row(s)),
            line_texts(lines@) == top + rows.take(i as int),
        decreases report.per_algo@.len() - i,
    {
        let ghost before = lines@;
        let row = render_row(&report.per_algo[i]);
        lines.push(row);
        proof {
            assert(line_texts(lines@) =~= line_texts(before).push(row@));
            assert(rows.take(i + 1) =~= rows.take(i as int).push(rows[i as int]));
        }
        i = i + 1;
    }
    proof {
        assert(rows.take(i as int) =~= rows);
    }
    lines
}

} // verus!
