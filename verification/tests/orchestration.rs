use tesser_execution::algorithm::{AlgoStatus, ChildOrderAction, ChildOrderRequest};
use tesser_execution::decimal::Decimal;
use tesser_execution::ident::{Symbol, Uuid};
use tesser_execution::market::{
    Fill, Order, OrderRequest, OrderStatus, OrderType, OrderUpdateRequest, Side, Signal,
    SignalKind, Tick,
};
use tesser_execution::orchestrator::{
    vet_child, Delivery, OrchestratorError, OrderOrchestrator, StoredAlgorithm,
};
use tesser_execution::risk::{
    BasicRiskChecker, NoopRiskChecker, RiskContext, RiskError, RiskLimits,
};
use tesser_execution::wasm::adapter::{
    to_plugin_fill, to_plugin_tick, AlgoEvent, CallKind, PluginCall, PluginError, WasmAlgorithm,
};
use tesser_execution::wasm::protocol::{
    PluginChildOrderAction, PluginChildOrderRequest, PluginOrderRequest, PluginOrderType,
    PluginResult, PluginSide,
};

fn signal(symbol: &str) -> Signal {
    Signal::new(Symbol::from_code(symbol), SignalKind::EnterLong, Decimal::from(1))
}

fn algorithm(id: u128, symbol: &str) -> WasmAlgorithm {
    let context = WasmAlgorithm::context_from_signal(
        "twap",
        "{}",
        &signal(symbol),
        Decimal::from(4),
        &RiskContext::default(),
    );
    WasmAlgorithm::with_id(Uuid::from_u128(id), context)
}

fn tick(symbol: &str) -> Tick {
    Tick {
        symbol: Symbol::from_code(symbol),
        price: Decimal::from(100),
        size: Decimal::from(1),
        side: Side::Buy,
        exchange_timestamp_ms: 7,
    }
}

fn fill(order_id: &str, timestamp_ms: i64) -> Fill {
    Fill {
        order_id: order_id.to_string(),
        symbol: Symbol::from_code("BTCUSDT"),
        side: Side::Buy,
        fill_price: Decimal::from(100),
        fill_quantity: Decimal::from(1),
        fee: None,
        fee_asset: None,
        timestamp_ms,
    }
}

fn request(quantity: i64, client_order_id: Option<String>) -> OrderRequest {
    OrderRequest {
        symbol: Symbol::from_code("BTCUSDT"),
        side: Side::Buy,
        order_type: OrderType::Market,
        quantity: Decimal::from(quantity),
        price: None,
        trigger_price: None,
        time_in_force: None,
        client_order_id,
        take_profit: None,
        stop_loss: None,
        display_quantity: None,
    }
}

fn order(id: &str, client_order_id: Option<String>) -> Order {
    Order {
        id: id.to_string(),
        request: request(1, client_order_id),
        status: OrderStatus::Accepted,
        created_at_ms: 1,
        updated_at_ms: 1,
    }
}

fn place_without_id() -> PluginChildOrderRequest {
    PluginChildOrderRequest {
        action: PluginChildOrderAction::Place(PluginOrderRequest {
            symbol: "BTCUSDT".to_string(),
            side: PluginSide::Buy,
            order_type: PluginOrderType::Market,
            quantity: Decimal::from(1),
            price: None,
            trigger_price: None,
            time_in_force: None,
            client_order_id: None,
            take_profit: None,
            stop_loss: None,
            display_quantity: None,
        }),
    }
}

fn answer(orders: Vec<PluginChildOrderRequest>, completed: bool) -> PluginResult {
    PluginResult { orders, logs: vec![], completed }
}

fn targets(deliveries: &[Delivery]) -> Vec<u128> {
    deliveries.iter().map(|d| d.algo_id.as_u128()).collect()
}

fn orchestrator() -> OrderOrchestrator {
    let mut o = OrderOrchestrator::new();
    o.register(algorithm(1, "BTCUSDT")).unwrap();
    o.register(algorithm(2, "ETHUSDT")).unwrap();
    o.register(algorithm(3, "BTCUSDT")).unwrap();
    o
}

#[test]
fn register_rejects_a_second_algorithm_with_the_same_id() {
    let mut o = orchestrator();
    assert_eq!(o.len(), 3);
    assert_eq!(
        o.register(algorithm(2, "BTCUSDT")),
        Err(OrchestratorError::DuplicateAlgorithm(Uuid::from_u128(2)))
    );
    assert_eq!(o.len(), 3);
    assert_eq!(o.live_count(), 3);
}

#[test]
fn submit_registers_a_fresh_working_algorithm() {
    let mut o = OrderOrchestrator::new();
    let id = o
        .submit("twap", "{\"slices\":2}", &signal("BTCUSDT"), Decimal::from(3), &RiskContext::default())
        .unwrap();
    assert_eq!(o.len(), 1);
    assert_eq!(o.status(id), Some(AlgoStatus::Working));
    assert_eq!(o.next_client_seq(id), Some(0));
    let image = o.snapshot(id).unwrap();
    assert_eq!(image.plugin.plugin, "twap");
    assert_eq!(image.plugin.params, "{\"slices\":2}");
    assert_eq!(image.plugin.signal.target_quantity, Decimal::from(3));
    assert_eq!(image.plugin_state, "null");
    match o.deliver(id, &AlgoEvent::Start) {
        Some(Delivery { algo_id, call: PluginCall::Init(context) }) => {
            assert_eq!(algo_id, id);
            assert_eq!(context, image.plugin);
        }
        other => panic!("expected an init call, got {:?}", other),
    }
    assert_eq!(o.deliver(Uuid::from_u128(99), &AlgoEvent::Start), None);
}

#[test]
fn ticks_go_to_working_algorithms_of_the_symbol_in_registration_order() {
    let mut o = orchestrator();
    let t = tick("BTCUSDT");
    let deliveries = o.on_tick(&t);
    assert_eq!(targets(&deliveries), vec![1, 3]);
    for d in &deliveries {
        assert_eq!(d.call, PluginCall::OnTick(to_plugin_tick(&t)));
    }
    assert_eq!(targets(&o.on_tick(&tick("ETHUSDT"))), vec![2]);
    assert!(o.on_tick(&tick("SOLUSDT")).is_empty());
    o.cancel(Uuid::from_u128(1)).unwrap();
    assert_eq!(targets(&o.on_tick(&t)), vec![3]);
}

#[test]
fn timers_go_to_every_working_algorithm() {
    let mut o = orchestrator();
    let deliveries = o.on_timer();
    assert_eq!(targets(&deliveries), vec![1, 2, 3]);
    for d in &deliveries {
        assert_eq!(d.call, PluginCall::OnTimer);
    }
    o.fail(Uuid::from_u128(2)).unwrap();
    assert_eq!(targets(&o.on_timer()), vec![1, 3]);
    assert_eq!(o.live_count(), 2);
}

#[test]
fn fills_reach_the_algorithm_that_placed_the_order_exactly_once() {
    let mut o = orchestrator();
    o.on_child_order_placed(Uuid::from_u128(3), &order("o-1", None)).unwrap();
    o.on_child_order_placed(Uuid::from_u128(1), &order("o-2", None)).unwrap();
    let f = fill("o-1", 10);
    let delivered = o.on_fill(f.clone()).unwrap();
    assert_eq!(delivered.algo_id, Uuid::from_u128(3));
    assert_eq!(delivered.call, PluginCall::OnFill(to_plugin_fill(&f)));
    // The same fill sent again goes nowhere.
    assert_eq!(o.on_fill(f.clone()), None);
    assert_eq!(o.on_fill(f), None);
    // A further fill of the same order is a new fact.
    assert_eq!(o.on_fill(fill("o-1", 11)).unwrap().algo_id, Uuid::from_u128(3));
    assert_eq!(o.on_fill(fill("o-2", 10)).unwrap().algo_id, Uuid::from_u128(1));
    // A fill of an order nobody placed goes nowhere.
    assert_eq!(o.on_fill(fill("o-9", 10)), None);
}

#[test]
fn the_first_record_of_an_order_stands() {
    let mut o = orchestrator();
    o.on_child_order_placed(Uuid::from_u128(1), &order("o-1", None)).unwrap();
    o.on_child_order_placed(Uuid::from_u128(2), &order("o-1", None)).unwrap();
    assert_eq!(o.on_fill(fill("o-1", 1)).unwrap().algo_id, Uuid::from_u128(1));
}

#[test]
fn fills_for_finished_algorithms_go_nowhere() {
    let mut o = orchestrator();
    o.on_child_order_placed(Uuid::from_u128(1), &order("o-1", None)).unwrap();
    o.cancel(Uuid::from_u128(1)).unwrap();
    assert_eq!(o.on_fill(fill("o-1", 1)), None);
}

#[test]
fn complete_returns_children_in_the_order_given() {
    let mut o = orchestrator();
    let id = Uuid::from_u128(1);
    let children = o
        .complete(
            id,
            CallKind::Init,
            &answer(vec![place_without_id(), place_without_id()], false),
            "{\"n\":2}".to_string(),
        )
        .unwrap();
    let ids: Vec<Option<String>> = children
        .iter()
        .map(|c| match &c.action {
            ChildOrderAction::Place(r) => r.client_order_id.clone(),
            ChildOrderAction::Amend(_) => None,
        })
        .collect();
    assert_eq!(
        ids,
        vec![
            Some("plugin-00000000000000000000000000000001-0001".to_string()),
            Some("plugin-00000000000000000000000000000001-0002".to_string()),
        ]
    );
    assert_eq!(o.next_client_seq(id), Some(2));
    assert_eq!(o.snapshot(id).unwrap().plugin_state, "{\"n\":2}");
    assert_eq!(o.next_client_seq(Uuid::from_u128(3)), Some(0));
    let done = o.complete(id, CallKind::OnTick, &answer(vec![], true), "{}".to_string()).unwrap();
    assert!(done.is_empty());
    assert_eq!(o.status(id), Some(AlgoStatus::Completed));
    assert_eq!(
        o.complete(Uuid::from_u128(9), CallKind::OnTick, &answer(vec![], true), "{}".to_string()),
        Err(OrchestratorError::UnknownAlgorithm(Uuid::from_u128(9)))
    );
}

#[test]
fn exhausted_sequence_fails_the_algorithm_and_names_it() {
    let mut state = algorithm(7, "BTCUSDT").state();
    state.next_client_seq = u64::MAX;
    let mut o = OrderOrchestrator::restore_all(vec![StoredAlgorithm {
        algo_id: Uuid::from_u128(7),
        state,
    }]);
    assert_eq!(
        o.complete(
            Uuid::from_u128(7),
            CallKind::OnTick,
            &answer(vec![place_without_id()], false),
            "{}".to_string()
        ),
        Err(OrchestratorError::Plugin {
            algo_id: Uuid::from_u128(7),
            error: PluginError::SequenceExhausted,
        })
    );
    assert_eq!(o.status(Uuid::from_u128(7)), Some(AlgoStatus::Failed));
    assert_eq!(o.live_count(), 0);
}

#[test]
fn cancel_is_sticky_and_unknown_ids_are_reported() {
    let mut o = orchestrator();
    let id = Uuid::from_u128(2);
    o.cancel(id).unwrap();
    assert_eq!(o.status(id), Some(AlgoStatus::Cancelled));
    o.fail(id).unwrap();
    assert_eq!(o.status(id), Some(AlgoStatus::Cancelled));
    let later = o.complete(id, CallKind::OnTick, &answer(vec![place_without_id()], true), "{}".to_string());
    assert_eq!(later, Ok(vec![]));
    assert_eq!(o.status(id), Some(AlgoStatus::Cancelled));
    assert_eq!(
        o.cancel(Uuid::from_u128(9)),
        Err(OrchestratorError::UnknownAlgorithm(Uuid::from_u128(9)))
    );
    assert_eq!(o.status(Uuid::from_u128(9)), None);
    assert_eq!(o.snapshot(Uuid::from_u128(9)), None);
}

#[test]
fn restart_preserves_the_live_algorithms() {
    let mut o = orchestrator();
    o.complete(
        Uuid::from_u128(1),
        CallKind::Init,
        &answer(vec![place_without_id()], false),
        "{\"a\":1}".to_string(),
    )
    .unwrap();
    o.cancel(Uuid::from_u128(2)).unwrap();
    let stored = o.live_snapshots();
    assert_eq!(stored.len(), 2);
    assert_eq!(stored[0].algo_id, Uuid::from_u128(1));
    assert_eq!(stored[1].algo_id, Uuid::from_u128(3));
    let restored = OrderOrchestrator::restore_all(stored);
    assert_eq!(restored.live_count(), o.live_count());
    assert_eq!(restored.len(), 2);
    for id in [1u128, 3] {
        let id = Uuid::from_u128(id);
        assert_eq!(restored.status(id), o.status(id));
        assert_eq!(restored.next_client_seq(id), o.next_client_seq(id));
        assert_eq!(restored.snapshot(id), o.snapshot(id));
    }
    assert_eq!(restored.status(Uuid::from_u128(2)), None);
    // A restored algorithm counts as started.
    assert_eq!(restored.deliver(Uuid::from_u128(3), &AlgoEvent::Start), None);
}

#[test]
fn restore_skips_finished_algorithms() {
    let mut finished = algorithm(5, "BTCUSDT");
    finished.cancel();
    let stored = vec![
        StoredAlgorithm { algo_id: Uuid::from_u128(4), state: algorithm(4, "BTCUSDT").state() },
        StoredAlgorithm { algo_id: Uuid::from_u128(5), state: finished.state() },
    ];
    let restored = OrderOrchestrator::restore_all(stored);
    assert_eq!(restored.len(), 1);
    assert_eq!(restored.status(Uuid::from_u128(4)), Some(AlgoStatus::Working));
    assert_eq!(restored.status(Uuid::from_u128(5)), None);
}

#[test]
fn replayed_placement_after_restart_advances_the_sequence() {
    let mut o = orchestrator();
    let id = Uuid::from_u128(1);
    let stored = o.live_snapshots();
    let children = o
        .complete(id, CallKind::OnTick, &answer(vec![place_without_id()], false), "{}".to_string())
        .unwrap();
    let first = match &children[0].action {
        ChildOrderAction::Place(r) => r.client_order_id.clone(),
        ChildOrderAction::Amend(_) => None,
    };
    assert_eq!(first, Some("plugin-00000000000000000000000000000001-0001".to_string()));
    let mut restored = OrderOrchestrator::restore_all(stored);
    assert_eq!(restored.next_client_seq(id), Some(0));
    restored.on_child_order_placed(id, &order("o-1", first)).unwrap();
    assert_eq!(restored.next_client_seq(id), Some(1));
    let next = restored
        .complete(id, CallKind::OnTick, &answer(vec![place_without_id()], false), "{}".to_string())
        .unwrap();
    match &next[0].action {
        ChildOrderAction::Place(r) => assert_eq!(
            r.client_order_id,
            Some("plugin-00000000000000000000000000000001-0002".to_string())
        ),
        ChildOrderAction::Amend(_) => panic!("expected a placement"),
    }
    // The replayed order is the algorithm's again.
    assert_eq!(restored.on_fill(fill("o-1", 3)).unwrap().algo_id, id);
    assert_eq!(
        restored.on_child_order_placed(Uuid::from_u128(9), &order("o-2", None)),
        Err(OrchestratorError::UnknownAlgorithm(Uuid::from_u128(9)))
    );
}

#[test]
fn child_orders_pass_the_risk_check_before_placement() {
    let limits = RiskLimits { max_order_quantity: Decimal::from(1), max_position_quantity: Decimal::zero() };
    let risk = BasicRiskChecker::new(limits);
    let ctx = RiskContext::default();
    let small = ChildOrderRequest {
        parent_algo_id: Uuid::from_u128(1),
        action: ChildOrderAction::Place(request(1, None)),
    };
    let large = ChildOrderRequest {
        parent_algo_id: Uuid::from_u128(1),
        action: ChildOrderAction::Place(request(2, None)),
    };
    let amend = ChildOrderRequest {
        parent_algo_id: Uuid::from_u128(1),
        action: ChildOrderAction::Amend(OrderUpdateRequest {
            order_id: "o-1".to_string(),
            symbol: Symbol::from_code("BTCUSDT"),
            side: Side::Buy,
            new_price: None,
            new_quantity: Some(Decimal::from(5)),
        }),
    };
    assert_eq!(vet_child(&risk, &small, &ctx), Ok(()));
    assert_eq!(
        vet_child(&risk, &large, &ctx),
        Err(RiskError::MaxOrderSize { quantity: Decimal::from(2), limit: Decimal::from(1) })
    );
    assert_eq!(vet_child(&risk, &amend, &ctx), Ok(()));
    assert_eq!(vet_child(&NoopRiskChecker, &large, &ctx), Ok(()));
}
