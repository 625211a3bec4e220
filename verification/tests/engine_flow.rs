use tesser_execution::decimal::Decimal;
use tesser_execution::engine::{
    Awaiting, BrokerError, EngineOutcome, EngineStep, EngineWarning, ExecutionEngine, SignalRun,
};
use tesser_execution::ident::{Symbol, Uuid};
use tesser_execution::market::{
    Order, OrderRequest, OrderStatus, OrderType, Side, Signal, SignalKind,
};
use tesser_execution::risk::{
    BasicRiskChecker, NoopRiskChecker, RiskContext, RiskLimits,
};
use tesser_execution::sizer::{FixedOrderSizer, PortfolioPercentSizer};

const ID: u128 = 0x0123_4567_89ab_cdef_0123_4567_89ab_cdef;
const ID_TEXT: &str = "01234567-89ab-cdef-0123-456789abcdef";

fn signal(kind: SignalKind) -> Signal {
    Signal::with_id(Uuid::from_u128(ID), Symbol::from_code("BTCUSDT"), kind, Decimal::from(1))
}

fn engine(quantity: i64) -> ExecutionEngine<FixedOrderSizer, NoopRiskChecker> {
    ExecutionEngine::new(FixedOrderSizer { quantity: Decimal::from(quantity) }, NoopRiskChecker)
}

fn placed(id: &str, request: &OrderRequest) -> Order {
    Order {
        id: id.to_string(),
        request: request.clone(),
        status: OrderStatus::Accepted,
        created_at_ms: 1,
        updated_at_ms: 1,
    }
}

fn expect_place(outcome: EngineOutcome) -> (OrderRequest, SignalRun, Vec<EngineWarning>) {
    match outcome.step {
        EngineStep::Place { request, run } => (request, run, outcome.warnings),
        EngineStep::Finish { result } => panic!("expected a placement, got {:?}", result),
    }
}

fn expect_finish(outcome: EngineOutcome) -> (Result<Option<Order>, BrokerError>, Vec<EngineWarning>) {
    match outcome.step {
        EngineStep::Finish { result } => (result, outcome.warnings),
        EngineStep::Place { request, .. } => panic!("expected the end, got {:?}", request),
    }
}

#[test]
fn parent_order_is_a_market_order_identified_by_the_signal() {
    let (request, run, warnings) =
        expect_place(engine(2).handle_signal(signal(SignalKind::EnterLong), RiskContext::default()));
    assert_eq!(
        request,
        OrderRequest {
            symbol: Symbol::from_code("BTCUSDT"),
            side: Side::Buy,
            order_type: OrderType::Market,
            quantity: Decimal::from(2),
            price: None,
            trigger_price: None,
            time_in_force: None,
            client_order_id: Some(ID_TEXT.to_string()),
            take_profit: None,
            stop_loss: None,
            display_quantity: None,
        }
    );
    assert!(request.is_well_formed());
    assert_eq!(run.awaiting, Awaiting::Parent);
    assert_eq!(run.quantity, Decimal::from(2));
    assert!(warnings.is_empty());
}

#[test]
fn signal_kinds_map_to_sides() {
    let cases = [
        (SignalKind::EnterLong, Side::Buy),
        (SignalKind::ExitLong, Side::Sell),
        (SignalKind::EnterShort, Side::Sell),
        (SignalKind::ExitShort, Side::Buy),
        (SignalKind::Flatten, Side::Sell),
    ];
    for (kind, side) in cases {
        assert_eq!(kind.side(), side);
        let (request, _, _) =
            expect_place(engine(1).handle_signal(signal(kind), RiskContext::default()));
        assert_eq!(request.side, side);
    }
}

#[test]
fn zero_size_ends_without_an_order() {
    let (result, warnings) =
        expect_finish(engine(0).handle_signal(signal(SignalKind::EnterLong), RiskContext::default()));
    assert_eq!(result, Ok(None));
    assert_eq!(warnings, vec![EngineWarning::ZeroSize]);
    let (result, _) =
        expect_finish(engine(-1).handle_signal(signal(SignalKind::EnterLong), RiskContext::default()));
    assert_eq!(result, Ok(None));
}

#[test]
fn sizing_error_becomes_broker_error_other() {
    let engine = ExecutionEngine::new(
        PortfolioPercentSizer { percent: Decimal::new(5, 2) },
        NoopRiskChecker,
    );
    let (result, warnings) =
        expect_finish(engine.handle_signal(signal(SignalKind::EnterLong), RiskContext::default()));
    assert_eq!(
        result,
        Err(BrokerError::Other(format!("signal {}: failed to determine order size", ID_TEXT)))
    );
    assert!(warnings.is_empty());
}

#[test]
fn risk_refusal_becomes_invalid_request() {
    let limits = RiskLimits { max_order_quantity: Decimal::from(1), max_position_quantity: Decimal::zero() };
    let engine = ExecutionEngine::new(
        FixedOrderSizer { quantity: Decimal::from(2) },
        BasicRiskChecker::new(limits),
    );
    let (result, _) =
        expect_finish(engine.handle_signal(signal(SignalKind::EnterLong), RiskContext::default()));
    assert_eq!(
        result,
        Err(BrokerError::InvalidRequest(format!(
            "signal {}: order quantity 2.0000 exceeds limit 1.0000",
            ID_TEXT
        )))
    );
}

#[test]
fn parent_failure_is_passed_on_untouched() {
    let engine = engine(1);
    let (_, run, _) =
        expect_place(engine.handle_signal(signal(SignalKind::EnterLong), RiskContext::default()));
    let (result, warnings) =
        expect_finish(engine.on_placement(run, Err(BrokerError::Rejected("no margin".to_string()))));
    assert_eq!(result, Err(BrokerError::Rejected(format!("signal {}: no margin", ID_TEXT))));
    assert!(warnings.is_empty());
}

#[test]
fn flatten_ends_with_the_parent() {
    let engine = engine(1);
    let flatten = signal(SignalKind::Flatten)
        .with_stop_loss(Decimal::from(90))
        .with_take_profit(Decimal::from(110));
    let (request, run, _) = expect_place(engine.handle_signal(flatten, RiskContext::default()));
    let parent = placed("o-1", &request);
    let (result, warnings) = expect_finish(engine.on_placement(run, Ok(parent.clone())));
    assert_eq!(result, Ok(Some(parent)));
    assert!(warnings.is_empty());
}

#[test]
fn signal_without_protection_ends_with_the_parent() {
    let engine = engine(1);
    let (request, run, _) =
        expect_place(engine.handle_signal(signal(SignalKind::EnterShort), RiskContext::default()));
    let parent = placed("o-1", &request);
    let (result, _) = expect_finish(engine.on_placement(run, Ok(parent.clone())));
    assert_eq!(result, Ok(Some(parent)));
}

#[test]
fn protective_legs_follow_the_parent() {
    let engine = engine(3);
    let entry = signal(SignalKind::EnterLong)
        .with_stop_loss(Decimal::from(90))
        .with_take_profit(Decimal::from(110));
    let (request, run, _) = expect_place(engine.handle_signal(entry, RiskContext::default()));
    let parent = placed("o-1", &request);

    let (stop, run, warnings) = expect_place(engine.on_placement(run, Ok(parent.clone())));
    assert!(warnings.is_empty());
    assert_eq!(stop.side, Side::Sell);
    assert_eq!(stop.order_type, OrderType::StopMarket);
    assert_eq!(stop.quantity, Decimal::from(3));
    assert_eq!(stop.price, None);
    assert_eq!(stop.trigger_price, Some(Decimal::from(90)));
    assert_eq!(stop.client_order_id, Some(format!("{}-sl", ID_TEXT)));
    assert!(stop.is_well_formed());
    assert_eq!(run.awaiting, Awaiting::StopLoss { parent: parent.clone() });

    let (take, run, warnings) = expect_place(engine.on_placement(run, Ok(placed("o-2", &stop))));
    assert!(warnings.is_empty());
    assert_eq!(take.side, Side::Sell);
    assert_eq!(take.order_type, OrderType::StopMarket);
    assert_eq!(take.trigger_price, Some(Decimal::from(110)));
    assert_eq!(take.client_order_id, Some(format!("{}-tp", ID_TEXT)));
    assert_eq!(run.awaiting, Awaiting::TakeProfit { parent: parent.clone() });

    let (result, warnings) = expect_finish(engine.on_placement(run, Ok(placed("o-3", &take))));
    assert_eq!(result, Ok(Some(parent)));
    assert!(warnings.is_empty());
}

#[test]
fn protective_side_is_against_the_parent() {
    for (kind, side) in [
        (SignalKind::EnterLong, Side::Sell),
        (SignalKind::ExitShort, Side::Sell),
        (SignalKind::EnterShort, Side::Buy),
        (SignalKind::ExitLong, Side::Buy),
    ] {
        let engine = engine(1);
        let s = signal(kind).with_stop_loss(Decimal::from(90));
        let (request, run, _) = expect_place(engine.handle_signal(s, RiskContext::default()));
        let (stop, _, _) = expect_place(engine.on_placement(run, Ok(placed("o-1", &request))));
        assert_eq!(stop.side, side);
    }
}

#[test]
fn stop_loss_failure_is_warned_and_swallowed() {
    let engine = engine(1);
    let entry = signal(SignalKind::EnterLong).with_stop_loss(Decimal::from(90));
    let (request, run, _) = expect_place(engine.handle_signal(entry, RiskContext::default()));
    let parent = placed("o-1", &request);
    let (_, run, _) = expect_place(engine.on_placement(run, Ok(parent.clone())));
    let failure = BrokerError::Network("connection reset".to_string());
    let (result, warnings) = expect_finish(engine.on_placement(run, Err(failure)));
    assert_eq!(result, Ok(Some(parent)));
    assert_eq!(
        warnings,
        vec![EngineWarning::StopLossFailed(BrokerError::Network(format!(
            "order {}-sl: connection reset",
            ID_TEXT
        )))]
    );
}

#[test]
fn stop_loss_failure_still_leads_to_take_profit() {
    let engine = engine(1);
    let entry = signal(SignalKind::EnterLong)
        .with_stop_loss(Decimal::from(90))
        .with_take_profit(Decimal::from(110));
    let (request, run, _) = expect_place(engine.handle_signal(entry, RiskContext::default()));
    let parent = placed("o-1", &request);
    let (_, run, _) = expect_place(engine.on_placement(run, Ok(parent.clone())));
    let failure = BrokerError::Network("connection reset".to_string());
    let (take, run, warnings) = expect_place(engine.on_placement(run, Err(failure)));
    assert_eq!(
        warnings,
        vec![EngineWarning::StopLossFailed(BrokerError::Network(format!(
            "order {}-sl: connection reset",
            ID_TEXT
        )))]
    );
    assert_eq!(take.client_order_id, Some(format!("{}-tp", ID_TEXT)));
    let failure = BrokerError::RateLimited("slow down".to_string());
    let (result, warnings) = expect_finish(engine.on_placement(run, Err(failure)));
    assert_eq!(result, Ok(Some(parent)));
    assert_eq!(
        warnings,
        vec![EngineWarning::TakeProfitFailed(BrokerError::RateLimited(format!(
            "order {}-tp: slow down",
            ID_TEXT
        )))]
    );
}

#[test]
fn protective_legs_refused_by_risk_are_warned_and_skipped() {
    // The parent sells 1 out of a long position of 1; the protective buys would add to
    // the position, which liquidate-only mode refuses.
    let limits = RiskLimits { max_order_quantity: Decimal::zero(), max_position_quantity: Decimal::zero() };
    let engine = ExecutionEngine::new(
        FixedOrderSizer { quantity: Decimal::from(1) },
        BasicRiskChecker::new(limits),
    );
    let ctx = RiskContext {
        signed_position_qty: Decimal::from(1),
        liquidate_only: true,
        ..RiskContext::default()
    };
    let exit = signal(SignalKind::ExitLong)
        .with_stop_loss(Decimal::from(90))
        .with_take_profit(Decimal::from(110));
    let (request, run, _) = expect_place(engine.handle_signal(exit, ctx));
    assert_eq!(request.side, Side::Sell);
    let parent = placed("o-1", &request);
    let (result, warnings) = expect_finish(engine.on_placement(run, Ok(parent.clone())));
    assert_eq!(result, Ok(Some(parent)));
    assert_eq!(
        warnings,
        vec![
            EngineWarning::StopLossFailed(BrokerError::InvalidRequest(format!(
                "order {}-sl: liquidate-only mode active",
                ID_TEXT
            ))),
            EngineWarning::TakeProfitFailed(BrokerError::InvalidRequest(format!(
                "order {}-tp: liquidate-only mode active",
                ID_TEXT
            ))),
        ]
    );
}

#[test]
fn engine_hands_out_its_sizer_and_risk_checker() {
    let engine = engine(7);
    assert_eq!(engine.sizer().quantity, Decimal::from(7));
    let _: &NoopRiskChecker = engine.risk();
}

#[test]
fn broker_error_message_is_its_text() {
    assert_eq!(BrokerError::Network("down".to_string()).message(), "down");
    assert_eq!(
        BrokerError::Rejected("no margin".to_string()).with_context("signal 7"),
        BrokerError::Rejected("signal 7: no margin".to_string())
    );
    assert_eq!(BrokerError::Other("x".to_string()).clone(), BrokerError::Other("x".to_string()));
}
