use tesser_execution::algorithm::{AlgoStatus, ChildOrderAction, ChildOrderRequest};
use tesser_execution::decimal::Decimal;
use tesser_execution::ident::{Symbol, Uuid};
use tesser_execution::market::{
    Fill, Order, OrderRequest, OrderStatus, OrderType, Side, Signal, SignalKind, Tick, TimeInForce,
};
use tesser_execution::risk::{InstrumentKind, RiskContext};
use tesser_execution::wasm::adapter::{
    assigned_order_id, convert_order_request, convert_order_update, from_plugin_side,
    instrument_kind_label, recover_sequence, signal_kind_label, to_plugin_fill, to_plugin_side,
    to_plugin_tick, AlgoEvent, CallKind, PluginCall, PluginError, WasmAlgorithm,
};
use tesser_execution::wasm::protocol::{
    PluginChildOrderAction, PluginChildOrderRequest, PluginFill, PluginInitContext,
    PluginMetadata, PluginOrderRequest, PluginOrderType, PluginOrderUpdateRequest, PluginResult,
    PluginRiskContext, PluginSide, PluginSignal, PluginTick, PluginTimeInForce,
};

const ALGO: u128 = 0xa1a2_a3a4_b1b2_c1c2_d1d2_d3d4_d5d6_d7d8;
const ALGO_HEX: &str = "a1a2a3a4b1b2c1c2d1d2d3d4d5d6d7d8";
const SIGNAL: u128 = 0x0123_4567_89ab_cdef_0123_4567_89ab_cdef;
const SIGNAL_TEXT: &str = "01234567-89ab-cdef-0123-456789abcdef";

fn signal() -> Signal {
    let mut s = Signal::with_id(
        Uuid::from_u128(SIGNAL),
        Symbol::from_code("BTCUSDT"),
        SignalKind::EnterShort,
        Decimal::new(75, 2),
    )
    .with_stop_loss(Decimal::from(110))
    .with_take_profit(Decimal::from(90));
    s.note = Some("twap".to_string());
    s.group_id = Some(Uuid::from_u128(1));
    s
}

fn risk_context() -> RiskContext {
    RiskContext {
        signed_position_qty: Decimal::from(-2),
        portfolio_equity: Decimal::from(25_000),
        exchange_equity: Decimal::from(20_000),
        last_price: Decimal::from(50_000),
        liquidate_only: false,
        base_available: Decimal::from(1),
        quote_available: Decimal::from(2),
        settlement_available: Decimal::from(3),
        instrument_kind: Some(InstrumentKind::LinearPerpetual),
    }
}

fn context() -> PluginInitContext {
    WasmAlgorithm::context_from_signal("twap", "{\"slices\":4}", &signal(), Decimal::from(-8), &risk_context())
}

fn algorithm() -> WasmAlgorithm {
    WasmAlgorithm::with_id(Uuid::from_u128(ALGO), context())
}

fn place(client_order_id: Option<&str>) -> PluginChildOrderRequest {
    PluginChildOrderRequest {
        action: PluginChildOrderAction::Place(PluginOrderRequest {
            symbol: "BTCUSDT".to_string(),
            side: PluginSide::Sell,
            order_type: PluginOrderType::Limit,
            quantity: Decimal::from(2),
            price: Some(Decimal::from(50_100)),
            trigger_price: None,
            time_in_force: Some(PluginTimeInForce::Gtc),
            client_order_id: client_order_id.map(|s| s.to_string()),
            take_profit: None,
            stop_loss: None,
            display_quantity: Some(Decimal::from(1)),
        }),
    }
}

fn amend() -> PluginChildOrderRequest {
    PluginChildOrderRequest {
        action: PluginChildOrderAction::Amend(PluginOrderUpdateRequest {
            order_id: "o-7".to_string(),
            symbol: "BTCUSDT".to_string(),
            side: PluginSide::Buy,
            new_price: Some(Decimal::from(49_900)),
            new_quantity: None,
        }),
    }
}

fn answer(orders: Vec<PluginChildOrderRequest>, completed: bool) -> PluginResult {
    PluginResult { orders, logs: vec!["tick".to_string()], completed }
}

fn placed_request(child: &ChildOrderRequest) -> &OrderRequest {
    match &child.action {
        ChildOrderAction::Place(request) => request,
        ChildOrderAction::Amend(update) => panic!("expected a placement, got {:?}", update),
    }
}

#[test]
fn context_carries_signal_and_risk() {
    let ctx = context();
    assert_eq!(ctx.plugin, "twap");
    assert_eq!(ctx.params, "{\"slices\":4}");
    assert_eq!(
        ctx.signal,
        PluginSignal {
            id: SIGNAL_TEXT.to_string(),
            symbol: "BTCUSDT".to_string(),
            side: PluginSide::Sell,
            kind: "enter_short".to_string(),
            confidence: Decimal::new(75, 2),
            target_quantity: Decimal::from(8),
            note: Some("twap".to_string()),
            group_id: Some("00000000-0000-0000-0000-000000000001".to_string()),
        }
    );
    assert_eq!(
        ctx.risk,
        PluginRiskContext {
            last_price: Decimal::from(50_000),
            portfolio_equity: Decimal::from(25_000),
            exchange_equity: Decimal::from(20_000),
            signed_position_qty: Decimal::from(-2),
            base_available: Decimal::from(1),
            quote_available: Decimal::from(2),
            settlement_available: Decimal::from(3),
            instrument_kind: Some("LinearPerpetual".to_string()),
        }
    );
    assert_eq!(
        ctx.metadata,
        PluginMetadata { stop_loss: Some(Decimal::from(110)), take_profit: Some(Decimal::from(90)) }
    );
}

#[test]
fn labels_on_the_plugin_boundary() {
    assert_eq!(signal_kind_label(SignalKind::EnterLong), "enter_long");
    assert_eq!(signal_kind_label(SignalKind::ExitLong), "exit_long");
    assert_eq!(signal_kind_label(SignalKind::EnterShort), "enter_short");
    assert_eq!(signal_kind_label(SignalKind::ExitShort), "exit_short");
    assert_eq!(signal_kind_label(SignalKind::Flatten), "flatten");
    assert_eq!(instrument_kind_label(InstrumentKind::Spot), "Spot");
    assert_eq!(instrument_kind_label(InstrumentKind::InversePerpetual), "InversePerpetual");
    assert_eq!(to_plugin_side(Side::Buy), PluginSide::Buy);
    assert_eq!(to_plugin_side(Side::Sell), PluginSide::Sell);
    assert_eq!(from_plugin_side(PluginSide::Buy), Side::Buy);
    assert_eq!(from_plugin_side(PluginSide::Sell), Side::Sell);
}

#[test]
fn ticks_and_fills_are_marshalled_field_by_field() {
    let tick = Tick {
        symbol: Symbol::from_code("ETHUSDT"),
        price: Decimal::new(30_005, 1),
        size: Decimal::new(25, 2),
        side: Side::Sell,
        exchange_timestamp_ms: 1_700_000_000_123,
    };
    assert_eq!(
        to_plugin_tick(&tick),
        PluginTick {
            symbol: "ETHUSDT".to_string(),
            price: Decimal::new(30_005, 1),
            size: Decimal::new(25, 2),
            side: PluginSide::Sell,
            timestamp_ms: 1_700_000_000_123,
        }
    );
    let fill = Fill {
        order_id: "o-1".to_string(),
        symbol: Symbol::from_code("ETHUSDT"),
        side: Side::Buy,
        fill_price: Decimal::from(3000),
        fill_quantity: Decimal::new(5, 1),
        fee: Some(Decimal::new(3, 2)),
        fee_asset: Some("USDT".to_string()),
        timestamp_ms: 42,
    };
    assert_eq!(
        to_plugin_fill(&fill),
        PluginFill {
            order_id: "o-1".to_string(),
            symbol: "ETHUSDT".to_string(),
            side: PluginSide::Buy,
            fill_price: Decimal::from(3000),
            fill_quantity: Decimal::new(5, 1),
            fee: Some(Decimal::new(3, 2)),
            fee_asset: Some("USDT".to_string()),
            timestamp_ms: 42,
        }
    );
}

#[test]
fn order_requests_are_converted_field_by_field() {
    let request = match place(Some("mine")).action {
        PluginChildOrderAction::Place(r) => r,
        PluginChildOrderAction::Amend(_) => unreachable!(),
    };
    assert_eq!(
        convert_order_request(&request),
        OrderRequest {
            symbol: Symbol::from_code("BTCUSDT"),
            side: Side::Sell,
            order_type: OrderType::Limit,
            quantity: Decimal::from(2),
            price: Some(Decimal::from(50_100)),
            trigger_price: None,
            time_in_force: Some(TimeInForce::GoodTilCanceled),
            client_order_id: Some("mine".to_string()),
            take_profit: None,
            stop_loss: None,
            display_quantity: Some(Decimal::from(1)),
        }
    );
    let mut post_only = request;
    for (given, expected) in [
        (Some(PluginTimeInForce::Ioc), Some(TimeInForce::ImmediateOrCancel)),
        (Some(PluginTimeInForce::Fok), Some(TimeInForce::FillOrKill)),
        (Some(PluginTimeInForce::PostOnly), None),
        (None, None),
    ] {
        post_only.time_in_force = given;
        assert_eq!(convert_order_request(&post_only).time_in_force, expected);
    }
    post_only.order_type = PluginOrderType::Market;
    assert_eq!(convert_order_request(&post_only).order_type, OrderType::Market);
    let update = match amend().action {
        PluginChildOrderAction::Amend(u) => u,
        PluginChildOrderAction::Place(_) => unreachable!(),
    };
    let converted = convert_order_update(&update);
    assert_eq!(converted.order_id, "o-7");
    assert_eq!(converted.symbol, Symbol::from_code("BTCUSDT"));
    assert_eq!(converted.side, Side::Buy);
    assert_eq!(converted.new_price, Some(Decimal::from(49_900)));
    assert_eq!(converted.new_quantity, None);
}

#[test]
fn fresh_algorithm_is_working_and_not_started() {
    let algo = algorithm();
    assert_eq!(algo.id(), Uuid::from_u128(ALGO));
    assert_eq!(algo.kind(), "WASM_PLUGIN");
    assert_eq!(algo.status(), AlgoStatus::Working);
    assert!(!algo.started());
    assert_eq!(algo.next_client_seq(), 0);
    assert_eq!(algo.plugin_state(), "null");
    assert_eq!(algo.context(), &context());
    let random = WasmAlgorithm::new(context());
    assert_eq!(random.status(), AlgoStatus::Working);
    assert_eq!(random.next_client_seq(), 0);
}

#[test]
fn events_lead_to_calls() {
    let mut algo = algorithm();
    assert_eq!(algo.next_call(&AlgoEvent::Start), Some(PluginCall::Init(context())));
    assert_eq!(algo.next_call(&AlgoEvent::Timer), Some(PluginCall::OnTimer));
    let call = algo.next_call(&AlgoEvent::Start).unwrap();
    assert_eq!(call.kind(), CallKind::Init);
    algo.apply_result(CallKind::Init, &answer(vec![], false), "{}".to_string()).unwrap();
    assert!(algo.started());
    assert_eq!(algo.next_call(&AlgoEvent::Start), None);
    let tick = Tick {
        symbol: Symbol::from_code("BTCUSDT"),
        price: Decimal::from(1),
        size: Decimal::from(1),
        side: Side::Buy,
        exchange_timestamp_ms: 5,
    };
    assert_eq!(
        algo.next_call(&AlgoEvent::Tick(tick.clone())),
        Some(PluginCall::OnTick(to_plugin_tick(&tick)))
    );
    algo.cancel();
    assert_eq!(algo.next_call(&AlgoEvent::Timer), None);
    assert_eq!(algo.next_call(&AlgoEvent::Tick(tick)), None);
}

#[test]
fn orders_without_id_get_sequenced_ids() {
    let mut algo = algorithm();
    let children = algo
        .apply_result(
            CallKind::Init,
            &answer(vec![place(None), amend(), place(Some("mine")), place(None)], false),
            "{\"k\":1}".to_string(),
        )
        .unwrap();
    assert_eq!(children.len(), 4);
    for child in &children {
        assert_eq!(child.parent_algo_id, Uuid::from_u128(ALGO));
    }
    assert_eq!(
        placed_request(&children[0]).client_order_id,
        Some(format!("plugin-{}-0001", ALGO_HEX))
    );
    assert!(matches!(children[1].action, ChildOrderAction::Amend(_)));
    assert_eq!(placed_request(&children[2]).client_order_id, Some("mine".to_string()));
    assert_eq!(
        placed_request(&children[3]).client_order_id,
        Some(format!("plugin-{}-0002", ALGO_HEX))
    );
    assert_eq!(algo.next_client_seq(), 2);
    assert_eq!(algo.plugin_state(), "{\"k\":1}");
    assert_eq!(algo.status(), AlgoStatus::Working);
    assert!(algo.started());
}

#[test]
fn completed_answer_completes_the_algorithm_and_terminal_states_stick() {
    let mut algo = algorithm();
    let children =
        algo.apply_result(CallKind::OnTick, &answer(vec![place(None)], true), "{}".to_string()).unwrap();
    assert_eq!(children.len(), 1);
    assert_eq!(algo.status(), AlgoStatus::Completed);
    assert!(!algo.started());
    let later =
        algo.apply_result(CallKind::OnTimer, &answer(vec![place(None)], false), "{\"x\":1}".to_string()).unwrap();
    assert!(later.is_empty());
    assert_eq!(algo.status(), AlgoStatus::Completed);
    assert_eq!(algo.next_client_seq(), 1);
    assert_eq!(algo.plugin_state(), "{}");
    algo.cancel();
    assert_eq!(algo.status(), AlgoStatus::Completed);
    algo.fail();
    assert_eq!(algo.status(), AlgoStatus::Completed);
}

#[test]
fn cancel_and_fail_leave_working_only() {
    let mut algo = algorithm();
    algo.cancel();
    assert_eq!(algo.status(), AlgoStatus::Cancelled);
    algo.fail();
    assert_eq!(algo.status(), AlgoStatus::Cancelled);
    let mut algo = algorithm();
    algo.fail();
    assert_eq!(algo.status(), AlgoStatus::Failed);
    algo.cancel();
    assert_eq!(algo.status(), AlgoStatus::Failed);
}

#[test]
fn snapshot_round_trip_preserves_the_algorithm() {
    let mut algo = algorithm();
    algo.apply_result(CallKind::Init, &answer(vec![place(None)], false), "{\"k\":1}".to_string()).unwrap();
    let image = algo.state();
    assert_eq!(image.plugin, context());
    assert_eq!(image.plugin_state, "{\"k\":1}");
    assert_eq!(image.status, AlgoStatus::Working);
    assert_eq!(image.next_client_seq, 1);
    let restored = WasmAlgorithm::from_snapshot(algo.id(), image.clone());
    assert_eq!(restored, algo);
    assert_eq!(restored.state(), image);
}

#[test]
fn exhausted_sequence_fails_the_algorithm() {
    let mut image = algorithm().state();
    image.next_client_seq = u64::MAX;
    let mut algo = WasmAlgorithm::from_snapshot(Uuid::from_u128(ALGO), image);
    let kept = algo.apply_result(CallKind::OnTick, &answer(vec![place(Some("mine"))], false), "{}".to_string());
    assert_eq!(kept.unwrap().len(), 1);
    let err = algo
        .apply_result(CallKind::OnTick, &answer(vec![place(None)], false), "{}".to_string())
        .unwrap_err();
    assert_eq!(err, PluginError::SequenceExhausted);
    assert_eq!(algo.status(), AlgoStatus::Failed);
    assert_eq!(algo.next_client_seq(), u64::MAX);
}

#[test]
fn restoring_from_a_state_alone_is_refused() {
    assert_eq!(
        WasmAlgorithm::from_state("{}"),
        Err(PluginError::Protocol("use WasmAlgorithm::from_snapshot for restoration".to_string()))
    );
}

#[test]
fn assigned_ids_pad_the_sequence_to_four_digits() {
    let algo = Uuid::from_u128(ALGO);
    assert_eq!(assigned_order_id(algo, 0), format!("plugin-{}-0000", ALGO_HEX));
    assert_eq!(assigned_order_id(algo, 7), format!("plugin-{}-0007", ALGO_HEX));
    assert_eq!(assigned_order_id(algo, 9999), format!("plugin-{}-9999", ALGO_HEX));
    assert_eq!(assigned_order_id(algo, 10000), format!("plugin-{}-10000", ALGO_HEX));
    assert_eq!(
        assigned_order_id(algo, u64::MAX),
        format!("plugin-{}-18446744073709551615", ALGO_HEX)
    );
    assert_eq!(
        assigned_order_id(Uuid::from_u128(0x2a), 1),
        "plugin-0000000000000000000000000000002a-0001"
    );
}

#[test]
fn sequence_numbers_are_read_back_from_assigned_ids() {
    let algo = Uuid::from_u128(ALGO);
    for seq in [0u64, 1, 9, 10, 999, 9999, 10000, 123_456_789, u64::MAX] {
        assert_eq!(recover_sequence(&assigned_order_id(algo, seq), algo), Some(seq));
    }
    assert_eq!(recover_sequence(&assigned_order_id(algo, 3), Uuid::from_u128(ALGO + 1)), None);
    assert_eq!(recover_sequence("mine", algo), None);
    assert_eq!(recover_sequence(&format!("plugin-{}-", ALGO_HEX), algo), None);
    assert_eq!(recover_sequence(&format!("plugin-{}-12x4", ALGO_HEX), algo), None);
    assert_eq!(recover_sequence(&format!("plugin-{}-18446744073709551616", ALGO_HEX), algo), None);
    assert_eq!(recover_sequence(&format!("plugin-{}-00012", ALGO_HEX), algo), Some(12));
}

#[test]
fn plugin_restart_never_reuses_a_child_order_id() {
    // Stored before the first placement: sequence number 0.
    let mut algo = algorithm();
    algo.apply_result(CallKind::Init, &answer(vec![], false), "{}".to_string()).unwrap();
    let stored = algo.state();
    // The algorithm places plugin-...-0001; the process stops before the next snapshot.
    let children =
        algo.apply_result(CallKind::OnTick, &answer(vec![place(None)], false), "{}".to_string()).unwrap();
    let first = placed_request(&children[0]).clone();
    assert_eq!(first.client_order_id, Some(format!("plugin-{}-0001", ALGO_HEX)));
    // Restart from the stored image, then the broker replays the placement.
    let mut restored = WasmAlgorithm::from_snapshot(Uuid::from_u128(ALGO), stored);
    assert_eq!(restored.next_client_seq(), 0);
    let order = Order {
        id: "o-1".to_string(),
        request: first,
        status: OrderStatus::Accepted,
        created_at_ms: 1,
        updated_at_ms: 1,
    };
    restored.on_child_order_placed(&order);
    assert_eq!(restored.next_client_seq(), 1);
    let next = restored
        .apply_result(CallKind::OnTick, &answer(vec![place(None)], false), "{}".to_string())
        .unwrap();
    assert_eq!(
        placed_request(&next[0]).client_order_id,
        Some(format!("plugin-{}-0002", ALGO_HEX))
    );
}

#[test]
fn placements_of_other_ids_leave_the_sequence_alone() {
    let mut algo = algorithm();
    algo.apply_result(CallKind::Init, &answer(vec![place(None), place(None)], false), "{}".to_string())
        .unwrap();
    assert_eq!(algo.next_client_seq(), 2);
    let mut request = match place(Some("mine")).action {
        PluginChildOrderAction::Place(r) => convert_order_request(&r),
        PluginChildOrderAction::Amend(_) => unreachable!(),
    };
    let mut order = Order {
        id: "o-1".to_string(),
        request: request.clone(),
        status: OrderStatus::Accepted,
        created_at_ms: 1,
        updated_at_ms: 1,
    };
    algo.on_child_order_placed(&order);
    assert_eq!(algo.next_client_seq(), 2);
    request.client_order_id = Some(format!("plugin-{}-0001", ALGO_HEX));
    order.request = request.clone();
    algo.on_child_order_placed(&order);
    assert_eq!(algo.next_client_seq(), 2);
    request.client_order_id = None;
    order.request = request;
    algo.on_child_order_placed(&order);
    assert_eq!(algo.next_client_seq(), 2);
}
