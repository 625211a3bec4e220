//! Strategies: the errors they raise and the market history they are shown.

use std::collections::VecDeque;
use vstd::prelude::*;
use vstd::string::StringExecFns;
use crate::decimal::{
    bounded_quotient, decimal_sum, model_le, model_lt, model_zero, Decimal, DecimalModel,
    DEFAULT_DIVISION_SCALE,
};
use crate::ident::Symbol;
use crate::market::{Candle, Fill, Position, Signal, SignalKind, SignalModel, Tick};

verus! {

/// Failures surfaced by strategies.
#[derive(Debug, PartialEq, Eq)]
pub enum StrategyError {
    /// The strategy's configuration cannot be parsed or is invalid.
    InvalidConfig(String),
    /// The strategy has too little history to proceed.
    NotEnoughData,
    /// Any other error that should reach the caller.
    Internal(String),
}

/// The mathematical content of a [`StrategyError`].
pub enum StrategyErrorModel {
    InvalidConfig(Seq<char>),
    NotEnoughData,
    Internal(Seq<char>),
}

impl View for StrategyError {
    type V = StrategyErrorModel;

    open spec fn view(&self) -> StrategyErrorModel {
        match self {
            StrategyError::InvalidConfig(m) => StrategyErrorModel::InvalidConfig(m@),
            StrategyError::NotEnoughData => StrategyErrorModel::NotEnoughData,
            StrategyError::Internal(m) => StrategyErrorModel::Internal(m@),
        }
    }
}

/// The message of a strategy error.
pub open spec fn strategy_error_text(e: StrategyErrorModel) -> Seq<char> {
    match e {
        StrategyErrorModel::InvalidConfig(m) => "configuration is invalid: "@ + m,
        StrategyErrorModel::NotEnoughData => "not enough historical data to compute indicators"@,
        StrategyErrorModel::Internal(m) => "an internal strategy error occurred: "@ + m,
    }
}

impl StrategyError {
    /// The message of the error.
    pub fn message(&self) -> (r: String)
        ensures
            r@ == strategy_error_text(self@),
    {
        match self {
            StrategyError::InvalidConfig(m) => {
                let mut s = String::from_str("configuration is invalid: ");
                s.append(m.as_str());
                s
            },
            StrategyError::NotEnoughData => String::from_str(
                "not enough historical data to compute indicators",
            ),
            StrategyError::Internal(m) => {
                let mut s = String::from_str("an internal strategy error occurred: ");
                s.append(m.as_str());
                s
            },
        }
    }
}

/// What a strategy returns.
pub type StrategyResult<T> = Result<T, StrategyError>;

/// A history after `item` arrived: the item at the end, and the oldest entry dropped
/// where the history was full.
pub open spec fn pushed<T>(history: Seq<T>, max_history: nat, item: T) -> Seq<T> {
    if history.len() >= max_history && history.len() > 0 {
        history.skip(1).push(item)
    } else {
        history.push(item)
    }
}

/// The largest number of entries that a history with the bound `max_history` holds: the
/// bound, and one where the bound is zero.
pub open spec fn history_capacity(max_history: nat) -> nat {
    if max_history == 0 {
        1
    } else {
        max_history
    }
}

/// The position of the first position in `symbol`, if there is one.
pub open spec fn position_index(positions: Seq<Position>, symbol: Seq<char>) -> Option<int>
    decreases positions.len(),
{
    if positions.len() == 0 {
        None
    } else {
        match position_index(positions.drop_last(), symbol) {
            Some(i) => Some(i),
            None => if positions.last().symbol@ == symbol {
                Some(positions.len() - 1)
            } else {
                None
            },
        }
    }
}

/// Recent market data and the positions held, as strategies are shown them.
pub struct StrategyContext {
    recent_candles: VecDeque<Candle>,
    recent_ticks: VecDeque<Tick>,
    positions: Vec<Position>,
    max_history: usize,
}

impl StrategyContext {
    /// The candles kept, oldest first.
    pub closed spec fn spec_candles(&self) -> Seq<Candle> {
        self.recent_candles@
    }

    /// The ticks kept, oldest first.
    pub closed spec fn spec_ticks(&self) -> Seq<Tick> {
        self.recent_ticks@
    }

    /// The positions held.
    pub closed spec fn spec_positions(&self) -> Seq<Position> {
        self.positions@
    }

    /// The number of candles and of ticks that are kept at most.
    pub closed spec fn spec_max_history(&self) -> usize {
        self.max_history
    }

    /// A context that keeps up to `max_history` candles and ticks.
    pub fn new(max_history: usize) -> (r: StrategyContext)
        ensures
            r.spec_candles().len() == 0,
            r.spec_ticks().len() == 0,
            r.spec_positions().len() == 0,
            r.spec_max_history() == max_history,
    {
        StrategyContext {
            recent_candles: VecDeque::with_capacity(max_history),
            recent_ticks: VecDeque::with_capacity(max_history),
            positions: Vec::new(),
            max_history,
        }
    }

    /// Takes a candle into the history, dropping the oldest where the history is full.
    pub fn push_candle(&mut self, candle: Candle)
        ensures
            final(self).spec_candles() == pushed(
                old(self).spec_candles(),
                old(self).spec_max_history() as nat,
                candle,
            ),
            final(self).spec_ticks() == old(self).spec_ticks(),
            final(self).spec_positions() == old(self).spec_positions(),
            final(self).spec_max_history() == old(self).spec_max_history(),
            old(self).spec_candles().len() <= history_capacity(old(self).spec_max_history() as nat) ==> final(self).spec_candles().len() <= history_capacity(old(self).spec_max_history() as nat),
    {
        let ghost before = self.recent_candles@;
        if self.recent_candles.len() >= self.max_history {
            self.recent_candles.pop_front();
        }
        self.recent_candles.push_back(candle);
        proof {
            if before.len() > 0 {
                assert(before.subrange(1, before.len() as int) =~= before.skip(1));
            }
        }
    }

    /// Takes a tick into the history, dropping the oldest where the history is full.
    pub fn push_tick(&mut self, tick: Tick)
        ensures
            final(self).spec_ticks() == pushed(old(self).spec_ticks(), old(self).spec_max_history() as nat, tick),
            final(self).spec_candles() == old(self).spec_candles(),
            final(self).spec_positions() == old(self).spec_positions(),
            final(self).spec_max_history() == old(self).spec_max_history(),
            old(self).spec_ticks().len() <= history_capacity(old(self).spec_max_history() as nat) ==> final(self).spec_ticks().len() <= history_capacity(old(self).spec_max_history() as nat),
    {
        let ghost before = self.recent_ticks@;
        if self.recent_ticks.len() >= self.max_history {
            self.recent_ticks.pop_front();
        }
        self.recent_ticks.push_back(tick);
        proof {
            if before.len() > 0 {
                assert(before.subrange(1, before.len() as int) =~= before.skip(1));
            }
        }
    }

    /// Replaces the positions held.
    pub fn update_positions(&mut self, positions: Vec<Position>)
        ensures
            final(self).spec_positions() == positions@,
            final(self).spec_candles() == old(self).spec_candles(),
            final(self).spec_ticks() == old(self).spec_ticks(),
            final(self).spec_max_history() == old(self).spec_max_history(),
    {
        self.positions = positions;
    }

    /// The candles kept, oldest first.
    pub fn candles(&self) -> (r: &VecDeque<Candle>)
        ensures
            r@ == self.spec_candles(),
    {
        &self.recent_candles
    }

    /// The ticks kept, oldest first.
    pub fn ticks(&self) -> (r: &VecDeque<Tick>)
        ensures
            r@ == self.spec_ticks(),
    {
        &self.recent_ticks
    }

    /// The positions held.
    pub fn positions(&self) -> (r: &Vec<Position>)
        ensures
            r@ == self.spec_positions(),
    {
        &self.positions
    }

    /// The first position in `symbol`, if there is one.
    pub fn position(&self, symbol: &Symbol) -> (r: Option<&Position>)
        ensures
            match position_index(self.spec_positions(), symbol@) {
                Some(i) => r == Some(&self.spec_positions()[i]),
                None => r is None,
            },
    {
        let mut i: usize = 0;
        let ghost all = self.positions@;
        proof {
            assert(all.take(0) =~= Seq::empty());
        }
        while i < self.positions.len()
            invariant
                i <= self.positions@.len(),
                all == self.positions@,
                position_index(all.take(i as int), symbol@) is None,
            decreases self.positions@.len() - i,
        {
            proof {
                assert(all.take(i + 1).drop_last() =~= all.take(i as int));
                assert(all.take(i + 1).last() == all[i as int]);
            }
            if self.positions[i].symbol.same_as(symbol) {
                proof {
                    lemma_position_prefix(all, symbol@, i + 1);
                }
                return Some(&self.positions[i]);
            }
            i = i + 1;
        }
        proof {
            assert(all.take(i as int) =~= all);
        }
        None
    }
}

/// Where a prefix of the positions holds one in `symbol`, the first position in
/// `symbol` is the one that the prefix gives.
pub proof fn lemma_position_prefix(positions: Seq<Position>, symbol: Seq<char>, n: int)
    requires
        0 <= n <= positions.len(),
        position_index(positions.take(n), symbol) is Some,
    ensures
        position_index(positions, symbol) == position_index(positions.take(n), symbol),
    decreases positions.len() - n,
{
    if n < positions.len() {
        assert(positions.take(n + 1).drop_last() =~= positions.take(n));
        lemma_position_prefix(positions, symbol, n + 1);
    } else {
        assert(positions.take(n) =~= positions);
    }
}

impl Default for StrategyContext {
    /// A context that keeps up to 512 candles and ticks.
    fn default() -> (r: StrategyContext)
        ensures
            r.spec_candles().len() == 0,
            r.spec_ticks().len() == 0,
            r.spec_positions().len() == 0,
            r.spec_max_history() == 512,
    {
        StrategyContext::new(512)
    }
}

/// Configuration of the moving-average crossover strategy.
#[derive(Debug, PartialEq, Eq)]
pub struct SmaCrossConfig {
    pub symbol: String,
    pub fast_period: usize,
    pub slow_period: usize,
    pub min_samples: usize,
}

impl Clone for SmaCrossConfig {
    fn clone(&self) -> (r: SmaCrossConfig)
        ensures
            r == *self,
    {
        SmaCrossConfig {
            symbol: self.symbol.clone(),
            fast_period: self.fast_period,
            slow_period: self.slow_period,
            min_samples: self.min_samples,
        }
    }
}

impl Default for SmaCrossConfig {
    fn default() -> (r: SmaCrossConfig)
        ensures
            r.symbol@ == "BTCUSDT"@,
            r.fast_period == 5,
            r.slow_period == 20,
            r.min_samples == 25,
    {
        SmaCrossConfig {
            symbol: String::from_str("BTCUSDT"),
            fast_period: 5,
            slow_period: 20,
            min_samples: 25,
        }
    }
}

/// The sum of a sequence of numbers, added up from zero in order, each step as
/// `rust_decimal` computes it; `None` where a step overflows.
pub open spec fn sum_of(values: Seq<DecimalModel>) -> Option<DecimalModel>
    decreases values.len(),
{
    if values.len() == 0 {
        Some(model_zero())
    } else {
        match sum_of(values.drop_last()) {
            None => None,
            Some(s) => decimal_sum(s, values.last()),
        }
    }
}

/// The mean of a sequence of numbers: their sum divided by their number, with at most
/// [`DEFAULT_DIVISION_SCALE`] digits after the decimal point; `None` where the sum or
/// the division overflows, or the sequence is empty.
pub open spec fn mean_of(values: Seq<DecimalModel>) -> Option<DecimalModel> {
    match sum_of(values) {
        None => None,
        Some(s) => bounded_quotient(
            s,
            DecimalModel { mantissa: values.len() as int, scale: 0 },
            DEFAULT_DIVISION_SCALE as nat,
        ),
    }
}

/// The closing prices of a sequence of candles.
pub open spec fn closes_of(candles: Seq<Candle>) -> Seq<DecimalModel> {
    candles.map_values(|c: Candle| c.close@)
}

/// The models of a sequence of decimals.
pub open spec fn decimal_models(values: Seq<Decimal>) -> Seq<DecimalModel> {
    values.map_values(|d: Decimal| d@)
}

/// The mean of the `period` prices that start at `start`.
pub open spec fn window_mean(closes: Seq<DecimalModel>, start: int, period: nat) -> Option<DecimalModel> {
    mean_of(closes.subrange(start, start + period))
}

/// The number of windows of `period` prices in `len` prices.
pub open spec fn window_count(len: nat, period: nat) -> nat {
    if len < period {
        0
    } else {
        (len - period + 1) as nat
    }
}

/// Whether `averages` are the simple moving averages of `closes` over `period` prices:
/// one mean for each window, oldest window first.
pub open spec fn is_moving_average(closes: Seq<DecimalModel>, period: nat, averages: Seq<DecimalModel>) -> bool {
    &&& averages.len() == window_count(closes.len(), period)
    &&& forall|i: int| 0 <= i < averages.len() ==> window_mean(closes, i, period) == Some(#[trigger] averages[i])
}

/// Whether the mean of some window of `period` prices is not representable.
pub open spec fn some_window_overflows(closes: Seq<DecimalModel>, period: nat) -> bool {
    exists|i: int| 0 <= i < window_count(closes.len(), period) && (#[trigger] window_mean(closes, i, period)) is None
}

/// What two moving averages say at their oldest and newest value: to enter where the
/// fast average was at or below the slow one and is above it now, to exit where it was
/// at or above and is below now, and nothing otherwise.
pub open spec fn crossing(
    fast_prev: DecimalModel,
    slow_prev: DecimalModel,
    fast_last: DecimalModel,
    slow_last: DecimalModel,
) -> Option<SignalKind> {
    if model_le(fast_prev, slow_prev) && model_lt(slow_last, fast_last) {
        Some(SignalKind::EnterLong)
    } else if model_le(slow_prev, fast_prev) && model_lt(fast_last, slow_last) {
        Some(SignalKind::ExitLong)
    } else {
        None
    }
}

/// Whether the history is long enough for the strategy to look at it.
pub open spec fn enough_samples(cfg: SmaCrossConfig, len: nat) -> bool {
    len >= cfg.min_samples && len >= cfg.fast_period && len >= cfg.slow_period
}

/// The confidence of the signals that the crossover strategy emits: `0.75`.
pub open spec fn crossover_confidence() -> DecimalModel {
    DecimalModel { mantissa: 75, scale: 2 }
}

/// Whether `signal` is the signal that the crossover strategy emits for `kind`.
pub open spec fn is_crossover_signal(signal: SignalModel, symbol: Seq<char>, kind: SignalKind) -> bool {
    signal == (SignalModel {
        id: signal.id,
        symbol,
        kind,
        confidence: crossover_confidence(),
        stop_loss: None,
        take_profit: None,
        group_id: None,
        note: None,
    })
}

/// The models of a sequence of signals.
pub open spec fn emitted(signals: Seq<Signal>) -> Seq<SignalModel> {
    signals.map_values(|s: Signal| s@)
}

/// Whether going from the signals `before` to the signals `after` is what the crossover
/// strategy does on a history with the closing prices `closes`: the fast and the slow
/// moving average are taken, their oldest and newest values decide, and the signal, if
/// any, is added at the end.
pub open spec fn acts_on_crossing(
    cfg: SmaCrossConfig,
    closes: Seq<DecimalModel>,
    before: Seq<Signal>,
    after: Seq<Signal>,
) -> bool {
    exists|fast: Seq<DecimalModel>, slow: Seq<DecimalModel>|
        {
            &&& #[trigger] is_moving_average(closes, cfg.fast_period as nat, fast)
            &&& #[trigger] is_moving_average(closes, cfg.slow_period as nat, slow)
            &&& fast.len() > 0 && slow.len() > 0
            &&& match crossing(fast[0], slow[0], fast.last(), slow.last()) {
                Some(kind) => after.len() == before.len() + 1 && after.drop_last() == before
                    && is_crossover_signal(after.last()@, cfg.symbol@, kind),
                None => after == before,
            }
        }
}

/// Whether the crossover strategy fails on a history with the closing prices `closes`:
/// a period is zero, or a mean is not representable.
pub open spec fn crossover_fails(cfg: SmaCrossConfig, closes: Seq<DecimalModel>) -> bool {
    ||| cfg.fast_period == 0
    ||| cfg.slow_period == 0
    ||| some_window_overflows(closes, cfg.fast_period as nat)
    ||| some_window_overflows(closes, cfg.slow_period as nat)
}

/// A reference strategy: enters when a fast moving average crosses above a slow one and
/// exits when it crosses below.
#[derive(Debug)]
pub struct SmaCross {
    cfg: SmaCrossConfig,
    signals: Vec<Signal>,
}

impl Default for SmaCross {
    fn default() -> (r: SmaCross)
        ensures
            r.spec_config().symbol@ == "BTCUSDT"@,
            r.spec_config().fast_period == 5,
            r.spec_config().slow_period == 20,
            r.spec_config().min_samples == 25,
            r.spec_signals().len() == 0,
    {
        SmaCross { cfg: SmaCrossConfig::default(), signals: Vec::new() }
    }
}

impl SmaCross {
    /// The configuration of the strategy.
    pub closed spec fn spec_config(&self) -> SmaCrossConfig {
        self.cfg
    }

    /// The signals emitted and not yet drained, oldest first.
    pub closed spec fn spec_signals(&self) -> Seq<Signal> {
        self.signals@
    }

    /// A strategy with the given configuration and no signals.
    pub fn new(cfg: SmaCrossConfig) -> (r: SmaCross)
        ensures
            r.spec_config() == cfg,
            r.spec_signals().len() == 0,
    {
        SmaCross { cfg, signals: Vec::new() }
    }

    /// The name of the strategy.
    pub fn name(&self) -> (r: &'static str)
        ensures
            r@ == "sma-cross"@,
    {
        "sma-cross"
    }

    /// The symbol that the strategy trades.
    pub fn symbol(&self) -> (r: &str)
        ensures
            r@ == self.spec_config().symbol@,
    {
        self.cfg.symbol.as_str()
    }

    /// The configuration of the strategy.
    pub fn config(&self) -> (r: &SmaCrossConfig)
        ensures
            *r == self.spec_config(),
    {
        &self.cfg
    }

    /// Takes a new configuration. A period of zero is refused and leaves the strategy
    /// as it was.
    pub fn configure(&mut self, cfg: SmaCrossConfig) -> (r: Result<(), StrategyError>)
        ensures
            final(self).spec_signals() == old(self).spec_signals(),
            cfg.fast_period == 0 || cfg.slow_period == 0 ==> final(self).spec_config() == old(self).spec_config()
                && (r matches Err(e) && e@ == StrategyErrorModel::InvalidConfig(
                "period values must be greater than zero"@,
            )),
            cfg.fast_period != 0 && cfg.slow_period != 0 ==> r is Ok && final(self).spec_config() == cfg,
    {
        if cfg.fast_period == 0 || cfg.slow_period == 0 {
            return Err(
                StrategyError::InvalidConfig(String::from_str("period values must be greater than zero")),
            );
        }
        self.cfg = cfg;
        Ok(())
    }

    /// Hands out the signals emitted so far, oldest first, and keeps none.
    pub fn drain_signals(&mut self) -> (r: Vec<Signal>)
        ensures
            r@ == old(self).spec_signals(),
            final(self).spec_signals().len() == 0,
            final(self).spec_config() == old(self).spec_config(),
    {
        let mut out: Vec<Signal> = Vec::new();
        std::mem::swap(&mut self.signals, &mut out);
        out
    }

    /// The sum of the `period` prices that start at `start`.
    fn window_sum(closes: &Vec<Decimal>, start: usize, period: usize) -> (r: Option<Decimal>)
        requires
            start + period <= closes@.len(),
        ensures
            match r {
                Some(s) => sum_of(decimal_models(closes@).subrange(start as int, start + period)) == Some(s@),
                None => sum_of(decimal_models(closes@).subrange(start as int, start + period)) is None,
            },
    {
        let ghost window = decimal_models(closes@).subrange(start as int, start + period);
        let mut sum = Decimal::zero();
        let mut k: usize = 0;
        let total = closes.len();
        proof {
            assert(window.take(0) =~= Seq::empty());
        }
        while k < period
            invariant
                k <= period,
                total == closes@.len(),
                start + period <= closes@.len(),
                window == decimal_models(closes@).subrange(start as int, start + period),
                sum_of(window.take(k as int)) == Some(sum@),
            decreases period - k,
        {
            proof {
                assert(window.take(k + 1).drop_last() =~= window.take(k as int));
                assert(window.take(k + 1).last() == closes@[start + k]@);
            }
            match sum.checked_add(&closes[start + k]) {
                Some(s) => {
                    sum = s;
                },
                None => {
                    proof {
                        lemma_sum_fails_for_good(window, k + 1);
                    }
                    return None;
                },
            }
            k = k + 1;
        }
        proof {
            assert(window.take(k as int) =~= window);
        }
        Some(sum)
    }

    /// The simple moving averages of `closes` over `period` prices, oldest window first.
    /// A period of zero is refused. Where a mean is not representable the result is an
    /// internal error.
    pub fn sma(closes: &Vec<Decimal>, period: usize) -> (r: Result<Vec<Decimal>, StrategyError>)
        ensures
            period == 0 ==> (r matches Err(e) && e@ == StrategyErrorModel::InvalidConfig(
                "period must be greater than zero"@,
            )),
            period != 0 ==> match r {
                Ok(averages) => is_moving_average(
                    decimal_models(closes@),
                    period as nat,
                    decimal_models(averages@),
                ),
                Err(e) => e@ == StrategyErrorModel::Internal("moving average is not representable"@)
                    && some_window_overflows(decimal_models(closes@), period as nat),
            },
    {
        if period == 0 {
            return Err(StrategyError::InvalidConfig(String::from_str("period must be greater than zero")));
        }
        let mut values: Vec<Decimal> = Vec::new();
        if closes.len() < period {
            return Ok(values);
        }
        let divisor = match Decimal::try_from_i128_with_scale(period as i128, 0) {
            Some(d) => d,
            None => {
                return Ok(values);
            },
        };
        let count = closes.len() - period + 1;
        let ghost all = decimal_models(closes@);
        let mut start: usize = 0;
        while start < count
            invariant
                start <= count,
                period > 0,
                count == closes@.len() - period + 1,
                closes@.len() >= period,
                all == decimal_models(closes@),
                divisor@ == (DecimalModel { mantissa: period as int, scale: 0 }),
                values@.len() == start,
                forall|i: int|
                    0 <= i < start ==> window_mean(all, i, period as nat) == Some(
                        #[trigger] decimal_models(values@)[i],
                    ),
            decreases count - start,
        {
            let ghost before = values@;
            let ghost window = all.subrange(start as int, start + period);
            let mean = match Self::window_sum(closes, start, period) {
                Some(sum) => sum.checked_div_bounded(&divisor, DEFAULT_DIVISION_SCALE),
                None => None,
            };
            match mean {
                Some(m) => {
                    values.push(m);
                    proof {
                        assert(window.len() == period);
                        assert forall|i: int| 0 <= i < start + 1 implies window_mean(all, i, period as nat)
                            == Some(#[trigger] decimal_models(values@)[i]) by {
                            if i < start {
                                assert(decimal_models(values@)[i] == decimal_models(before)[i]);
                            }
                        }
                    }
                },
                None => {
                    proof {
                        assert(window.len() == period);
                        assert(window_mean(all, start as int, period as nat) is None);
                    }
                    return Err(
                        StrategyError::Internal(String::from_str("moving average is not representable")),
                    );
                },
            }
            start = start + 1;
        }
        Ok(values)
    }

    /// The closing prices of the candles, oldest first.
    fn closes(candles: &VecDeque<Candle>) -> (r: Vec<Decimal>)
        ensures
            decimal_models(r@) == closes_of(candles@),
    {
        let mut out: Vec<Decimal> = Vec::new();
        let mut i: usize = 0;
        proof {
            vstd::std_specs::vecdeque::axiom_spec_len(candles);
            assert(decimal_models(out@) =~= closes_of(candles@).take(0));
        }
        while i < candles.len()
            invariant
                i <= candles@.len(),
                candles.len() == candles@.len(),
                decimal_models(out@) == closes_of(candles@).take(i as int),
            decreases candles@.len() - i,
        {
            let ghost before = out@;
            out.push(candles[i].close);
            proof {
                assert(decimal_models(out@) =~= decimal_models(before).push(candles@[i as int].close@));
                assert(closes_of(candles@).take(i + 1) =~= closes_of(candles@).take(i as int).push(
                    candles@[i as int].close@,
                ));
            }
            i = i + 1;
        }
        proof {
            assert(closes_of(candles@).take(i as int) =~= closes_of(candles@));
        }
        out
    }

    /// Looks at the history and emits a signal where the averages have crossed.
    ///
    /// A history shorter than the configuration asks for is left alone. Otherwise the
    /// fast and the slow moving average are taken over the closing prices, and their
    /// oldest and newest values decide.
    fn maybe_emit_signal(&mut self, candles: &VecDeque<Candle>) -> (r: Result<(), StrategyError>)
        ensures
            final(self).spec_config() == old(self).spec_config(),
            !enough_samples(old(self).spec_config(), candles@.len()) ==> r is Ok && final(self).spec_signals()
                == old(self).spec_signals(),
            r is Err ==> final(self).spec_signals() == old(self).spec_signals(),
            enough_samples(old(self).spec_config(), candles@.len()) ==> (r is Err <==> crossover_fails(
                old(self).spec_config(),
                closes_of(candles@),
            )),
            enough_samples(old(self).spec_config(), candles@.len()) && r is Ok ==> acts_on_crossing(
                old(self).spec_config(),
                closes_of(candles@),
                old(self).spec_signals(),
                final(self).spec_signals(),
            ),
    {
        proof {
            vstd::std_specs::vecdeque::axiom_spec_len(candles);
        }
        let len = candles.len();
        if len < self.cfg.min_samples || len < self.cfg.fast_period || len < self.cfg.slow_period {
            return Ok(());
        }
        let closes = Self::closes(candles);
        let fast = match Self::sma(&closes, self.cfg.fast_period) {
            Ok(v) => v,
            Err(e) => {
                return Err(e);
            },
        };
        let slow = match Self::sma(&closes, self.cfg.slow_period) {
            Ok(v) => v,
            Err(e) => {
                return Err(e);
            },
        };
        proof {
            lemma_average_excludes_overflow(
                closes_of(candles@),
                self.cfg.fast_period as nat,
                decimal_models(fast@),
            );
            lemma_average_excludes_overflow(
                closes_of(candles@),
                self.cfg.slow_period as nat,
                decimal_models(slow@),
            );
        }
        if fast.len() == 0 || slow.len() == 0 {
            return Ok(());
        }
        let fast_prev = fast[0];
        let slow_prev = slow[0];
        let fast_last = fast[fast.len() - 1];
        let slow_last = slow[slow.len() - 1];
        let ghost before = self.signals@;
        let kind = if fast_prev.le(&slow_prev) && fast_last.gt(&slow_last) {
            Some(SignalKind::EnterLong)
        } else if fast_prev.ge(&slow_prev) && fast_last.lt(&slow_last) {
            Some(SignalKind::ExitLong)
        } else {
            None
        };
        match kind {
            Some(k) => {
                let signal = Signal::new(Symbol::from_code(self.cfg.symbol.as_str()), k, Decimal::new(75, 2));
                self.signals.push(signal);
                proof {
                    assert(self.signals@.drop_last() =~= before);
                }
            },
            None => {},
        }
        proof {
            let f = decimal_models(fast@);
            let s = decimal_models(slow@);
            assert(f[0] == fast_prev@ && f.last() == fast_last@);
            assert(s[0] == slow_prev@ && s.last() == slow_last@);
            assert(is_moving_average(closes_of(candles@), self.cfg.fast_period as nat, f));
            assert(is_moving_average(closes_of(candles@), self.cfg.slow_period as nat, s));
        }
        Ok(())
    }

    /// Takes a candle of the feed. A candle of another symbol is ignored; any other one
    /// makes the strategy look at the history in `ctx`.
    pub fn on_candle(&mut self, ctx: &StrategyContext, candle: &Candle) -> (r: Result<(), StrategyError>)
        ensures
            final(self).spec_config() == old(self).spec_config(),
            candle.symbol@ != old(self).spec_config().symbol@ ==> r is Ok && final(self).spec_signals() == old(self).spec_signals(),
            !enough_samples(old(self).spec_config(), ctx.spec_candles().len()) ==> r is Ok && final(self).spec_signals() == old(self).spec_signals(),
            r is Err ==> final(self).spec_signals() == old(self).spec_signals(),
            candle.symbol@ == old(self).spec_config().symbol@ && enough_samples(
                old(self).spec_config(),
                ctx.spec_candles().len(),
            ) ==> (r is Err <==> crossover_fails(old(self).spec_config(), closes_of(ctx.spec_candles()))) && (r is Ok
                ==> acts_on_crossing(
                old(self).spec_config(),
                closes_of(ctx.spec_candles()),
                old(self).spec_signals(),
                final(self).spec_signals(),
            )),
    {
        if !(candle.symbol.code == self.cfg.symbol) {
            return Ok(());
        }
        self.maybe_emit_signal(ctx.candles())
    }

    /// Takes a tick of the feed. The strategy does not act on ticks.
    pub fn on_tick(&mut self, ctx: &StrategyContext, tick: &Tick) -> (r: Result<(), StrategyError>)
        ensures
            r is Ok,
            *final(self) == *old(self),
    {
        Ok(())
    }

    /// Takes a fill of one of the strategy's orders. The strategy does not act on fills.
    pub fn on_fill(&mut self, ctx: &StrategyContext, fill: &Fill) -> (r: Result<(), StrategyError>)
        ensures
            r is Ok,
            *final(self) == *old(self),
    {
        Ok(())
    }
}

/// Where the moving averages exist, no window overflows.
pub proof fn lemma_average_excludes_overflow(closes: Seq<DecimalModel>, period: nat, averages: Seq<DecimalModel>)
    requires
        is_moving_average(closes, period, averages),
    ensures
        !some_window_overflows(closes, period),
{
    if some_window_overflows(closes, period) {
        let i = choose|i: int|
            0 <= i < window_count(closes.len(), period) && (#[trigger] window_mean(closes, i, period)) is None;
        assert(window_mean(closes, i, period) == Some(averages[i]));
    }
}

/// Once a prefix of a sequence has no representable sum, the sequence has none.
pub proof fn lemma_sum_fails_for_good(values: Seq<DecimalModel>, n: int)
    requires
        0 <= n <= values.len(),
        sum_of(values.take(n)) is None,
    ensures
        sum_of(values) is None,
    decreases values.len() - n,
{
    if n < values.len() {
        assert(values.take(n + 1).drop_last() =~= values.take(n));
        lemma_sum_fails_for_good(values, n + 1);
    } else {
        assert(values.take(n) =~= values);
    }
}

} // verus!
