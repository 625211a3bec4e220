use tesser_execution::decimal::Decimal;
use tesser_execution::ident::Symbol;
use tesser_execution::market::{Candle, Fill, Interval, Position, Side, SignalKind, Tick};
use tesser_execution::strategy::{SmaCross, SmaCrossConfig, StrategyContext, StrategyError};

fn candle(symbol: &str, close: i64, ts: i64) -> Candle {
    Candle {
        symbol: Symbol::from_code(symbol),
        interval: Interval::OneMinute,
        open: Decimal::from(close),
        high: Decimal::from(close + 1),
        low: Decimal::from(close - 1),
        close: Decimal::from(close),
        volume: Decimal::from(1),
        timestamp_ms: ts,
    }
}

fn tick(price: i64) -> Tick {
    Tick {
        symbol: Symbol::from_code("BTCUSDT"),
        price: Decimal::from(price),
        size: Decimal::from(1),
        side: Side::Buy,
        exchange_timestamp_ms: price,
    }
}

fn position(symbol: &str, quantity: i64) -> Position {
    Position {
        symbol: Symbol::from_code(symbol),
        side: Some(Side::Buy),
        quantity: Decimal::from(quantity),
        entry_price: None,
        unrealized_pnl: Decimal::zero(),
        updated_at_ms: 0,
    }
}

fn context(closes: &[i64]) -> StrategyContext {
    let mut ctx = StrategyContext::default();
    for (i, close) in closes.iter().enumerate() {
        ctx.push_candle(candle("BTCUSDT", *close, i as i64));
    }
    ctx
}

fn config(fast: usize, slow: usize, min: usize) -> SmaCrossConfig {
    SmaCrossConfig { symbol: "BTCUSDT".to_string(), fast_period: fast, slow_period: slow, min_samples: min }
}

fn decimals(values: &[i64]) -> Vec<Decimal> {
    values.iter().map(|v| Decimal::from(*v)).collect()
}

#[test]
fn strategy_error_messages() {
    assert_eq!(
        StrategyError::InvalidConfig("x".to_string()).message(),
        "configuration is invalid: x"
    );
    assert_eq!(
        StrategyError::NotEnoughData.message(),
        "not enough historical data to compute indicators"
    );
    assert_eq!(
        StrategyError::Internal("boom".to_string()).message(),
        "an internal strategy error occurred: boom"
    );
}

#[test]
fn history_keeps_the_newest_entries() {
    let mut ctx = StrategyContext::new(3);
    for i in 1..=5 {
        ctx.push_candle(candle("BTCUSDT", i, i));
        ctx.push_tick(tick(i * 10));
    }
    let closes: Vec<Decimal> = ctx.candles().iter().map(|c| c.close).collect();
    assert_eq!(closes, decimals(&[3, 4, 5]));
    let prices: Vec<Decimal> = ctx.ticks().iter().map(|t| t.price).collect();
    assert_eq!(prices, decimals(&[30, 40, 50]));
}

#[test]
fn history_of_size_zero_keeps_the_latest_entry() {
    let mut ctx = StrategyContext::new(0);
    ctx.push_candle(candle("BTCUSDT", 1, 1));
    ctx.push_candle(candle("BTCUSDT", 2, 2));
    assert_eq!(ctx.candles().len(), 1);
    assert_eq!(ctx.candles()[0].close, Decimal::from(2));
    assert_eq!(StrategyContext::default().candles().len(), 0);
}

#[test]
fn positions_are_found_by_symbol() {
    let mut ctx = StrategyContext::new(4);
    assert!(ctx.positions().is_empty());
    ctx.update_positions(vec![position("BTCUSDT", 1), position("ETHUSDT", 2), position("BTCUSDT", 3)]);
    assert_eq!(ctx.positions().len(), 3);
    assert_eq!(ctx.position(&Symbol::from_code("BTCUSDT")).unwrap().quantity, Decimal::from(1));
    assert_eq!(ctx.position(&Symbol::from_code("ETHUSDT")).unwrap().quantity, Decimal::from(2));
    assert!(ctx.position(&Symbol::from_code("SOLUSDT")).is_none());
    ctx.update_positions(vec![]);
    assert!(ctx.position(&Symbol::from_code("BTCUSDT")).is_none());
}

#[test]
fn sma_config_defaults() {
    let cfg = SmaCrossConfig::default();
    assert_eq!(cfg, config(5, 20, 25));
    let strategy = SmaCross::default();
    assert_eq!(strategy.name(), "sma-cross");
    assert_eq!(strategy.symbol(), "BTCUSDT");
    assert_eq!(strategy.config(), &cfg);
}

#[test]
fn sma_takes_the_mean_of_each_window() {
    let closes = decimals(&[1, 2, 3, 4, 6]);
    assert_eq!(SmaCross::sma(&closes, 2).unwrap(),
        vec![Decimal::new(15, 1), Decimal::new(25, 1), Decimal::new(35, 1), Decimal::from(5)]);
    assert_eq!(SmaCross::sma(&closes, 5).unwrap(), vec![Decimal::new(32, 1)]);
    assert_eq!(SmaCross::sma(&closes, 1).unwrap(), closes);
    assert_eq!(SmaCross::sma(&closes, 6).unwrap(), Vec::<Decimal>::new());
    assert_eq!(
        SmaCross::sma(&closes, 0),
        Err(StrategyError::InvalidConfig("period must be greater than zero".to_string()))
    );
}

#[test]
fn sma_reports_means_that_are_not_representable() {
    let max = Decimal::try_from_i128_with_scale(79_228_162_514_264_337_593_543_950_335, 0).unwrap();
    assert_eq!(
        SmaCross::sma(&vec![max, max], 2),
        Err(StrategyError::Internal("moving average is not representable".to_string()))
    );
}

#[test]
fn configure_rejects_zero_periods() {
    let mut strategy = SmaCross::new(config(2, 3, 3));
    let refused =
        Err(StrategyError::InvalidConfig("period values must be greater than zero".to_string()));
    assert_eq!(strategy.configure(config(0, 3, 3)), refused);
    assert_eq!(strategy.configure(config(2, 0, 3)), refused);
    assert_eq!(strategy.config(), &config(2, 3, 3));
    assert_eq!(strategy.configure(config(3, 5, 5)), Ok(()));
    assert_eq!(strategy.config(), &config(3, 5, 5));
}

#[test]
fn upward_cross_enters_long() {
    // fast(2): first 1.5, last 9.5; slow(3): first 2, last 7.
    let ctx = context(&[1, 2, 3, 9, 10]);
    let mut strategy = SmaCross::new(config(2, 3, 3));
    strategy.on_candle(&ctx, &candle("BTCUSDT", 10, 5)).unwrap();
    let signals = strategy.drain_signals();
    assert_eq!(signals.len(), 1);
    assert_eq!(signals[0].kind, SignalKind::EnterLong);
    assert_eq!(signals[0].symbol, Symbol::from_code("BTCUSDT"));
    assert_eq!(signals[0].confidence, Decimal::new(75, 2));
    assert_eq!(signals[0].stop_loss, None);
    assert_eq!(signals[0].take_profit, None);
    assert!(strategy.drain_signals().is_empty());
}

#[test]
fn downward_cross_exits_long() {
    // fast(2): first 9.5, last 1.5; slow(3): first 9, last 2.
    let ctx = context(&[10, 9, 8, 2, 1]);
    let mut strategy = SmaCross::new(config(2, 3, 3));
    strategy.on_candle(&ctx, &candle("BTCUSDT", 1, 5)).unwrap();
    let signals = strategy.drain_signals();
    assert_eq!(signals.len(), 1);
    assert_eq!(signals[0].kind, SignalKind::ExitLong);
}

#[test]
fn no_cross_no_signal() {
    // fast(2): first 5, last 8.5; slow(3): first 4, last 19/3: fast is above at both ends.
    let ctx = context(&[5, 5, 2, 8, 9]);
    let mut strategy = SmaCross::new(config(2, 3, 3));
    strategy.on_candle(&ctx, &candle("BTCUSDT", 9, 5)).unwrap();
    assert!(strategy.drain_signals().is_empty());
    // flat prices: the averages are equal at both ends.
    let ctx = context(&[4, 4, 4, 4]);
    strategy.on_candle(&ctx, &candle("BTCUSDT", 4, 5)).unwrap();
    assert!(strategy.drain_signals().is_empty());
}

#[test]
fn short_history_and_other_symbols_are_ignored() {
    let mut strategy = SmaCross::new(config(2, 3, 6));
    let ctx = context(&[1, 2, 3, 9, 10]);
    strategy.on_candle(&ctx, &candle("BTCUSDT", 10, 5)).unwrap();
    assert!(strategy.drain_signals().is_empty());
    let mut strategy = SmaCross::new(config(2, 3, 3));
    strategy.on_candle(&ctx, &candle("ETHUSDT", 10, 5)).unwrap();
    assert!(strategy.drain_signals().is_empty());
    let fill = Fill {
        order_id: "o".to_string(),
        symbol: Symbol::from_code("BTCUSDT"),
        side: Side::Buy,
        fill_price: Decimal::from(1),
        fill_quantity: Decimal::from(1),
        fee: None,
        fee_asset: None,
        timestamp_ms: 0,
    };
    assert_eq!(strategy.on_tick(&ctx, &tick(1)), Ok(()));
    assert_eq!(strategy.on_fill(&ctx, &fill), Ok(()));
    assert!(strategy.drain_signals().is_empty());
}

#[test]
fn zero_period_surfaces_when_the_history_is_looked_at() {
    let mut strategy = SmaCross::new(config(0, 3, 3));
    let ctx = context(&[1, 2, 3, 9, 10]);
    assert_eq!(
        strategy.on_candle(&ctx, &candle("BTCUSDT", 10, 5)),
        Err(StrategyError::InvalidConfig("period must be greater than zero".to_string()))
    );
    assert!(strategy.drain_signals().is_empty());
}
