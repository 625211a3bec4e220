//! The algorithm orchestrator: owns the execution algorithms in flight, decides which
//! of them an event goes to, keeps track of which algorithm placed which order, and
//! stores and restores the algorithms.
//!
//! Calls into sandboxes, placements at the broker and writes to the repository happen
//! outside this library. The orchestrator says what is to be called
//! ([`OrderOrchestrator::on_tick`], [`OrderOrchestrator::on_fill`],
//! [`OrderOrchestrator::on_timer`]) and takes the outcome
//! ([`OrderOrchestrator::complete`], [`OrderOrchestrator::on_child_order_placed`]).

use vstd::prelude::*;
use crate::algorithm::{
    child_models, may_follow, status_after, AlgoStatus, ChildOrderAction, ChildOrderRequest,
};
use crate::decimal::Decimal;
use crate::ident::Uuid;
use crate::market::{Fill, FillModel, Order, Signal, Tick};
use crate::risk::{verdict_of, PreTradeRiskChecker, RiskContext, RiskError, RiskErrorModel};
use crate::wasm::adapter::{
    applied, call_for, fresh_algorithm, to_plugin_fill, to_plugin_tick, init_context, plugin_fill, plugin_tick,
    restored_from, sequence_after_placement, snapshot_of, AlgoEvent, CallKind, PluginCall,
    PluginError, WasmAlgorithm, WasmAlgorithmModel, WasmAlgorithmState, WasmAlgorithmStateModel,
};
use crate::wasm::protocol::PluginResult;

verus! {

/// A call that is to be made into the sandbox of one algorithm.
#[derive(Debug, PartialEq)]
pub struct Delivery {
    pub algo_id: Uuid,
    pub call: PluginCall,
}

/// Which algorithm placed an order.
#[derive(Debug, PartialEq, Eq)]
pub struct OrderOwner {
    pub order_id: String,
    pub algo_id: Uuid,
}

/// An algorithm as it is stored: its id and its image.
#[derive(Debug, PartialEq)]
pub struct StoredAlgorithm {
    pub algo_id: Uuid,
    pub state: WasmAlgorithmState,
}

/// The mathematical content of a [`StoredAlgorithm`].
pub struct StoredAlgorithmModel {
    pub algo_id: u128,
    pub state: WasmAlgorithmStateModel,
}

impl View for StoredAlgorithm {
    type V = StoredAlgorithmModel;

    open spec fn view(&self) -> StoredAlgorithmModel {
        StoredAlgorithmModel { algo_id: self.algo_id.value, state: self.state@ }
    }
}

/// Why the orchestrator could not do what it was asked.
#[derive(Debug, PartialEq, Eq)]
pub enum OrchestratorError {
    /// No algorithm has this id.
    UnknownAlgorithm(Uuid),
    /// An algorithm with this id is registered already.
    DuplicateAlgorithm(Uuid),
    /// The plugin's answer could not be used; the algorithm `algo_id` has failed.
    Plugin { algo_id: Uuid, error: PluginError },
}

/// The mathematical content of an [`OrderOrchestrator`].
pub struct OrchestratorModel {
    /// The algorithms, in the order they were registered.
    pub algos: Seq<WasmAlgorithmModel>,
    /// The orders placed so far, each with the id of the algorithm that placed it.
    pub owners: Seq<(Seq<char>, u128)>,
    /// The fills handed to an algorithm so far.
    pub delivered: Seq<FillModel>,
}

/// The models of a sequence of algorithms.
pub open spec fn algo_models(algos: Seq<WasmAlgorithm>) -> Seq<WasmAlgorithmModel> {
    algos.map_values(|a: WasmAlgorithm| a@)
}

/// The models of a sequence of order owners.
pub open spec fn owner_models(owners: Seq<OrderOwner>) -> Seq<(Seq<char>, u128)> {
    owners.map_values(|o: OrderOwner| (o.order_id@, o.algo_id.value))
}

/// The models of a sequence of fills.
pub open spec fn fill_models(fills: Seq<Fill>) -> Seq<FillModel> {
    fills.map_values(|f: Fill| f@)
}

/// The models of a sequence of stored algorithms.
pub open spec fn stored_models(stored: Seq<StoredAlgorithm>) -> Seq<StoredAlgorithmModel> {
    stored.map_values(|s: StoredAlgorithm| s@)
}

/// The position of the first algorithm with the given id, if there is one.
pub open spec fn first_index(algos: Seq<WasmAlgorithmModel>, id: u128) -> Option<int>
    decreases algos.len(),
{
    if algos.len() == 0 {
        None
    } else {
        match first_index(algos.drop_last(), id) {
            Some(i) => Some(i),
            None => if algos.last().id == id {
                Some(algos.len() - 1)
            } else {
                None
            },
        }
    }
}

/// Where `first_index` finds an algorithm, it is the first with that id; where it finds
/// none, no algorithm has that id.
pub proof fn lemma_first_index(algos: Seq<WasmAlgorithmModel>, id: u128)
    ensures
        match first_index(algos, id) {
            Some(i) => 0 <= i < algos.len() && algos[i].id == id && forall|j: int|
                0 <= j < i ==> (#[trigger] algos[j]).id != id,
            None => forall|j: int| 0 <= j < algos.len() ==> (#[trigger] algos[j]).id != id,
        },
    decreases algos.len(),
{
    if algos.len() > 0 {
        let front = algos.drop_last();
        lemma_first_index(front, id);
        match first_index(front, id) {
            Some(i) => {
                assert(front[i] == algos[i]);
                assert forall|j: int| 0 <= j < i implies (#[trigger] algos[j]).id != id by {
                    assert(front[j] == algos[j]);
                }
            },
            None => {
                assert forall|j: int| 0 <= j < algos.len() - 1 implies (#[trigger] algos[j]).id != id by {
                    assert(front[j] == algos[j]);
                }
            },
        }
    }
}

/// The algorithm that placed the order `order_id`: the owner of the first entry for it.
pub open spec fn owner_of(owners: Seq<(Seq<char>, u128)>, order_id: Seq<char>) -> Option<u128>
    decreases owners.len(),
{
    if owners.len() == 0 {
        None
    } else {
        match owner_of(owners.drop_last(), order_id) {
            Some(a) => Some(a),
            None => if owners.last().0 == order_id {
                Some(owners.last().1)
            } else {
                None
            },
        }
    }
}

/// Whether an algorithm is to hear of a tick for `symbol`: it is working and was
/// started for that symbol.
pub open spec fn hears_tick(a: WasmAlgorithmModel, symbol: Seq<char>) -> bool {
    a.status == AlgoStatus::Working && a.context.signal.symbol == symbol
}

/// The ids of the algorithms that are to hear of a tick for `symbol`, in the order the
/// algorithms were registered.
pub open spec fn tick_targets(algos: Seq<WasmAlgorithmModel>, symbol: Seq<char>) -> Seq<u128>
    decreases algos.len(),
{
    if algos.len() == 0 {
        Seq::empty()
    } else if hears_tick(algos.last(), symbol) {
        tick_targets(algos.drop_last(), symbol).push(algos.last().id)
    } else {
        tick_targets(algos.drop_last(), symbol)
    }
}

/// The algorithms that are working, in the order they were registered.
pub open spec fn live_algorithms(algos: Seq<WasmAlgorithmModel>) -> Seq<WasmAlgorithmModel>
    decreases algos.len(),
{
    if algos.len() == 0 {
        Seq::empty()
    } else if algos.last().status == AlgoStatus::Working {
        live_algorithms(algos.drop_last()).push(algos.last())
    } else {
        live_algorithms(algos.drop_last())
    }
}

/// The ids of a sequence of algorithms.
pub open spec fn ids_of(algos: Seq<WasmAlgorithmModel>) -> Seq<u128> {
    algos.map_values(|a: WasmAlgorithmModel| a.id)
}

/// The ids that a sequence of deliveries goes to.
pub open spec fn delivery_targets(deliveries: Seq<Delivery>) -> Seq<u128> {
    deliveries.map_values(|d: Delivery| d.algo_id.value)
}

/// The stored images of the algorithms that are working, in the order they were
/// registered.
pub open spec fn live_snapshots(algos: Seq<WasmAlgorithmModel>) -> Seq<StoredAlgorithmModel>
    decreases algos.len(),
{
    if algos.len() == 0 {
        Seq::empty()
    } else if algos.last().status == AlgoStatus::Working {
        live_snapshots(algos.drop_last()).push(
            StoredAlgorithmModel { algo_id: algos.last().id, state: snapshot_of(algos.last()) },
        )
    } else {
        live_snapshots(algos.drop_last())
    }
}

/// The algorithms that stored images are restored to: one for each image that is
/// working, in the order given. Images of finished algorithms are left out.
pub open spec fn restored_algorithms(stored: Seq<StoredAlgorithmModel>) -> Seq<WasmAlgorithmModel>
    decreases stored.len(),
{
    if stored.len() == 0 {
        Seq::empty()
    } else if stored.last().state.status == AlgoStatus::Working {
        restored_algorithms(stored.drop_last()).push(restored_from(stored.last().algo_id, stored.last().state))
    } else {
        restored_algorithms(stored.drop_last())
    }
}

/// An algorithm as it is after a restart: the same, and counting as started.
pub open spec fn after_restart(a: WasmAlgorithmModel) -> WasmAlgorithmModel {
    WasmAlgorithmModel { started: true, ..a }
}

/// Storing the working algorithms and restoring them gives the working algorithms back:
/// as many as before, in the same order, each with the id, status, context, plugin
/// state and sequence number it had, and all of them still working.
pub proof fn lemma_restart_preserves_live_algorithms(algos: Seq<WasmAlgorithmModel>)
    ensures
        restored_algorithms(live_snapshots(algos)) == live_algorithms(algos).map_values(
            |a: WasmAlgorithmModel| after_restart(a),
        ),
        restored_algorithms(live_snapshots(algos)).len() == live_algorithms(algos).len(),
        live_algorithms(restored_algorithms(live_snapshots(algos))) == restored_algorithms(
            live_snapshots(algos),
        ),
    decreases algos.len(),
{
    let restart = |a: WasmAlgorithmModel| after_restart(a);
    if algos.len() == 0 {
        assert(live_algorithms(algos).map_values(restart) =~= Seq::empty());
    } else {
        let front = algos.drop_last();
        let last = algos.last();
        lemma_restart_preserves_live_algorithms(front);
        if last.status == AlgoStatus::Working {
            let stored = StoredAlgorithmModel { algo_id: last.id, state: snapshot_of(last) };
            let snaps = live_snapshots(front).push(stored);
            assert(snaps.drop_last() =~= live_snapshots(front));
            assert(snaps.last() == stored);
            let back = restored_algorithms(live_snapshots(front)).push(restored_from(last.id, snapshot_of(last)));
            assert(restored_algorithms(snaps) == back);
            assert(restored_from(last.id, snapshot_of(last)) == after_restart(last));
            assert(live_algorithms(front).push(last).map_values(restart) =~= live_algorithms(front).map_values(
                restart,
            ).push(after_restart(last)));
            assert(back.drop_last() =~= restored_algorithms(live_snapshots(front)));
            assert(back.last().status == AlgoStatus::Working);
        }
    }
}

/// The algorithm that a fill goes to: the one that placed the order, provided the fill
/// was not handed over before and the algorithm is still working.
pub open spec fn fill_target(m: OrchestratorModel, fill: FillModel) -> Option<u128> {
    if m.delivered.contains(fill) {
        None
    } else {
        match owner_of(m.owners, fill.order_id) {
            None => None,
            Some(id) => match first_index(m.algos, id) {
                None => None,
                Some(i) => if m.algos[i].status == AlgoStatus::Working {
                    Some(id)
                } else {
                    None
                },
            },
        }
    }
}

/// The orchestrator after a fill arrived: where the fill goes to an algorithm, it is
/// recorded as handed over.
pub open spec fn after_fill(m: OrchestratorModel, fill: FillModel) -> OrchestratorModel {
    if fill_target(m, fill) is Some {
        OrchestratorModel { delivered: m.delivered.push(fill), ..m }
    } else {
        m
    }
}

/// A fill reaches the algorithm that placed its order, and reaches it once: when the
/// same fill arrives again it goes nowhere, however often it is sent.
pub proof fn lemma_fill_is_delivered_once(m: OrchestratorModel, fill: FillModel)
    requires
        fill_target(m, fill) is Some,
    ensures
        owner_of(m.owners, fill.order_id) == fill_target(m, fill),
        fill_target(after_fill(m, fill), fill) is None,
        after_fill(after_fill(m, fill), fill) == after_fill(m, fill),
{
    let after = after_fill(m, fill);
    assert(after.delivered[after.delivered.len() - 1] == fill);
}

/// Recording who placed an order never changes who placed an order recorded before: the
/// first record for an order stands.
pub proof fn lemma_owner_is_stable(owners: Seq<(Seq<char>, u128)>, order_id: Seq<char>, entry: (Seq<char>, u128))
    requires
        owner_of(owners, order_id) is Some,
    ensures
        owner_of(owners.push(entry), order_id) == owner_of(owners, order_id),
{
    assert(owners.push(entry).drop_last() =~= owners);
}

/// The owners after an order was reported as placed by `algo_id`: a new entry, unless
/// the order has an owner already.
pub open spec fn owners_after_placement(owners: Seq<(Seq<char>, u128)>, order_id: Seq<char>, algo_id: u128) -> Seq<
    (Seq<char>, u128),
> {
    if owner_of(owners, order_id) is Some {
        owners
    } else {
        owners.push((order_id, algo_id))
    }
}

/// What a risk check decides for a child order: a placement is checked, an amendment
/// passes.
pub open spec fn child_verdict<R: PreTradeRiskChecker>(risk: R, child: ChildOrderRequest, ctx: RiskContext) -> Result<
    (),
    RiskErrorModel,
> {
    match child.action {
        ChildOrderAction::Place(request) => risk.verdict(request@, ctx),
        ChildOrderAction::Amend(_) => Ok(()),
    }
}

/// Runs a child order through the risk check before it is placed.
pub fn vet_child<R: PreTradeRiskChecker>(risk: &R, child: &ChildOrderRequest, ctx: &RiskContext) -> (r: Result<
    (),
    RiskError,
>)
    ensures
        verdict_of(r) == child_verdict(*risk, *child, *ctx),
{
    match &child.action {
        ChildOrderAction::Place(request) => risk.check(request, ctx),
        ChildOrderAction::Amend(_) => Ok(()),
    }
}

/// Owns the execution algorithms in flight.
#[derive(Debug)]
pub struct OrderOrchestrator {
    algos: Vec<WasmAlgorithm>,
    owners: Vec<OrderOwner>,
    delivered: Vec<Fill>,
}

impl View for OrderOrchestrator {
    type V = OrchestratorModel;

    closed spec fn view(&self) -> OrchestratorModel {
        OrchestratorModel {
            algos: algo_models(self.algos@),
            owners: owner_models(self.owners@),
            delivered: fill_models(self.delivered@),
        }
    }
}

impl OrderOrchestrator {
    /// An orchestrator without algorithms.
    pub fn new() -> (r: OrderOrchestrator)
        ensures
            r@.algos.len() == 0,
            r@.owners.len() == 0,
            r@.delivered.len() == 0,
    {
        OrderOrchestrator { algos: Vec::new(), owners: Vec::new(), delivered: Vec::new() }
    }

    /// The position of the first algorithm with the given id.
    fn find(&self, algo_id: Uuid) -> (r: Option<usize>)
        ensures
            match r {
                Some(i) => first_index(self@.algos, algo_id.value) == Some(i as int) && i < self.algos@.len(),
                None => first_index(self@.algos, algo_id.value) is None,
            },
    {
        let mut i: usize = 0;
        proof {
            lemma_first_index(self@.algos, algo_id.value);
        }
        while i < self.algos.len()
            invariant
                i <= self.algos@.len(),
                forall|j: int| 0 <= j < i ==> (#[trigger] self@.algos[j]).id != algo_id.value,
                self@.algos.len() == self.algos@.len(),
                forall|j: int| 0 <= j < self.algos@.len() ==> #[trigger] self@.algos[j] == self.algos@[j]@,
            decreases self.algos@.len() - i,
        {
            if self.algos[i].id().value == algo_id.value {
                proof {
                    assert(self@.algos[i as int].id == algo_id.value);
                    lemma_first_index(self@.algos, algo_id.value);
                }
                return Some(i);
            }
            i = i + 1;
        }
        proof {
            lemma_first_index(self@.algos, algo_id.value);
        }
        None
    }

    /// The number of algorithms, finished ones included.
    pub fn len(&self) -> (r: usize)
        ensures
            r == self@.algos.len(),
    {
        self.algos.len()
    }

    /// The number of algorithms that are working.
    pub fn live_count(&self) -> (r: usize)
        ensures
            r == live_algorithms(self@.algos).len(),
    {
        let mut count: usize = 0;
        let mut i: usize = 0;
        let ghost models = self@.algos;
        proof {
            assert(models.take(0) =~= Seq::empty());
        }
        while i < self.algos.len()
            invariant
                i <= self.algos@.len(),
                models == algo_models(self.algos@),
                count == live_algorithms(models.take(i as int)).len(),
                count <= i,
            decreases self.algos@.len() - i,
        {
            proof {
                assert(models.take(i + 1).drop_last() =~= models.take(i as int));
                assert(models.take(i + 1).last() == self.algos@[i as int]@);
            }
            match self.algos[i].status() {
                AlgoStatus::Working => {
                    count = count + 1;
                },
                _ => {},
            }
            i = i + 1;
        }
        proof {
            assert(models.take(i as int) =~= models);
        }
        count
    }

    /// The status of the algorithm with the given id.
    pub fn status(&self, algo_id: Uuid) -> (r: Option<AlgoStatus>)
        ensures
            match first_index(self@.algos, algo_id.value) {
                Some(i) => r == Some(self@.algos[i].status),
                None => r is None,
            },
    {
        match self.find(algo_id) {
            Some(i) => Some(self.algos[i].status()),
            None => None,
        }
    }

    /// The sequence number in use for the algorithm with the given id.
    pub fn next_client_seq(&self, algo_id: Uuid) -> (r: Option<u64>)
        ensures
            match first_index(self@.algos, algo_id.value) {
                Some(i) => r == Some(self@.algos[i].next_client_seq),
                None => r is None,
            },
    {
        match self.find(algo_id) {
            Some(i) => Some(self.algos[i].next_client_seq()),
            None => None,
        }
    }

    /// The image of the algorithm with the given id, to be stored.
    pub fn snapshot(&self, algo_id: Uuid) -> (r: Option<WasmAlgorithmState>)
        ensures
            match first_index(self@.algos, algo_id.value) {
                Some(i) => r matches Some(s) && s@ == snapshot_of(self@.algos[i]),
                None => r is None,
            },
    {
        match self.find(algo_id) {
            Some(i) => Some(self.algos[i].state()),
            None => None,
        }
    }

    /// Takes an algorithm into the registry. An id can be registered once.
    pub fn register(&mut self, algo: WasmAlgorithm) -> (r: Result<Uuid, OrchestratorError>)
        ensures
            match first_index(old(self)@.algos, algo@.id) {
                Some(_) => r matches Err(OrchestratorError::DuplicateAlgorithm(id)) && id.value == algo@.id
                    && final(self)@ == old(self)@,
                None => r matches Ok(id) && id.value == algo@.id && final(self)@ == (OrchestratorModel {
                    algos: old(self)@.algos.push(algo@),
                    ..old(self)@
                }),
            },
    {
        let id = algo.id();
        match self.find(id) {
            Some(_) => Err(OrchestratorError::DuplicateAlgorithm(id)),
            None => {
                let ghost before = self.algos@;
                self.algos.push(algo);
                proof {
                    assert(algo_models(self.algos@) =~= algo_models(before).push(algo@));
                }
                Ok(id)
            },
        }
    }

    /// Starts an algorithm for a signal: builds what the plugin is initialised with,
    /// registers a fresh algorithm under a random id and returns that id. The caller
    /// stores the first snapshot and delivers [`AlgoEvent::Start`].
    pub fn submit(
        &mut self,
        plugin_name: &str,
        params: &str,
        signal: &Signal,
        total_quantity: Decimal,
        ctx: &RiskContext,
    ) -> (r: Result<Uuid, OrchestratorError>)
        ensures
            match r {
                Ok(id) => first_index(old(self)@.algos, id.value) is None && final(self)@ == (OrchestratorModel {
                    algos: old(self)@.algos.push(
                        fresh_algorithm(
                            id.value,
                            init_context(plugin_name@, params@, signal@, total_quantity@, *ctx),
                        ),
                    ),
                    ..old(self)@
                }),
                Err(e) => e matches OrchestratorError::DuplicateAlgorithm(id) && first_index(
                    old(self)@.algos,
                    id.value,
                ) is Some && final(self)@ == old(self)@,
            },
    {
        let context = WasmAlgorithm::context_from_signal(plugin_name, params, signal, total_quantity, ctx);
        let algo = WasmAlgorithm::new(context);
        self.register(algo)
    }

    /// The call that an event leads to for the algorithm with the given id.
    pub fn deliver(&self, algo_id: Uuid, event: &AlgoEvent) -> (r: Option<Delivery>)
        ensures
            match first_index(self@.algos, algo_id.value) {
                Some(i) => match call_for(self.spec_algorithm(i), *event) {
                    Some(call) => r == Some(Delivery { algo_id, call }),
                    None => r is None,
                },
                None => r is None,
            },
    {
        match self.find(algo_id) {
            Some(i) => match self.algos[i].next_call(event) {
                Some(call) => Some(Delivery { algo_id, call }),
                None => None,
            },
            None => None,
        }
    }

    /// The `i`-th algorithm of the registry.
    pub closed spec fn spec_algorithm(&self, i: int) -> WasmAlgorithm {
        self.algos@[i]
    }

    /// The calls that a tick leads to: one for every working algorithm that was started
    /// for the tick's symbol, in the order the algorithms were registered.
    pub fn on_tick(&self, tick: &Tick) -> (r: Vec<Delivery>)
        ensures
            delivery_targets(r@) == tick_targets(self@.algos, tick.symbol@),
            forall|i: int| 0 <= i < r@.len() ==> (#[trigger] r@[i]).call == PluginCall::OnTick(plugin_tick(*tick)),
    {
        let mut out: Vec<Delivery> = Vec::new();
        let mut i: usize = 0;
        let ghost models = self@.algos;
        proof {
            assert(models.take(0) =~= Seq::empty());
            assert(delivery_targets(out@) =~= Seq::empty());
        }
        while i < self.algos.len()
            invariant
                i <= self.algos@.len(),
                models == algo_models(self.algos@),
                delivery_targets(out@) == tick_targets(models.take(i as int), tick.symbol@),
                forall|k: int|
                    0 <= k < out@.len() ==> (#[trigger] out@[k]).call == PluginCall::OnTick(plugin_tick(*tick)),
            decreases self.algos@.len() - i,
        {
            proof {
                assert(models.take(i + 1).drop_last() =~= models.take(i as int));
                assert(models.take(i + 1).last() == self.algos@[i as int]@);
            }
            let algo = &self.algos[i];
            let hears = match algo.status() {
                AlgoStatus::Working => algo.context().signal.symbol == tick.symbol.code,
                _ => false,
            };
            if hears {
                let ghost before = out@;
                let id = algo.id();
                let call = PluginCall::OnTick(to_plugin_tick(tick));
                out.push(Delivery { algo_id: id, call });
                proof {
                    assert(delivery_targets(out@) =~= delivery_targets(before).push(id.value));
                }
            }
            i = i + 1;
        }
        proof {
            assert(models.take(i as int) =~= models);
        }
        out
    }

    /// The calls that a timer tick leads to: one for every working algorithm, in the
    /// order the algorithms were registered.
    pub fn on_timer(&self) -> (r: Vec<Delivery>)
        ensures
            delivery_targets(r@) == ids_of(live_algorithms(self@.algos)),
            forall|i: int| 0 <= i < r@.len() ==> (#[trigger] r@[i]).call == PluginCall::OnTimer,
    {
        let mut out: Vec<Delivery> = Vec::new();
        let mut i: usize = 0;
        let ghost models = self@.algos;
        proof {
            assert(models.take(0) =~= Seq::empty());
            assert(delivery_targets(out@) =~= ids_of(live_algorithms(models.take(0))));
        }
        while i < self.algos.len()
            invariant
                i <= self.algos@.len(),
                models == algo_models(self.algos@),
                delivery_targets(out@) == ids_of(live_algorithms(models.take(i as int))),
                forall|k: int| 0 <= k < out@.len() ==> (#[trigger] out@[k]).call == PluginCall::OnTimer,
            decreases self.algos@.len() - i,
        {
            proof {
                assert(models.take(i + 1).drop_last() =~= models.take(i as int));
                assert(models.take(i + 1).last() == self.algos@[i as int]@);
            }
            let algo = &self.algos[i];
            match algo.status() {
                AlgoStatus::Working => {
                    let ghost before = out@;
                    let id = algo.id();
                    out.push(Delivery { algo_id: id, call: PluginCall::OnTimer });
                    proof {
                        assert(delivery_targets(out@) =~= delivery_targets(before).push(id.value));
                        assert(ids_of(live_algorithms(models.take(i as int)).push(algo@)) =~= ids_of(
                            live_algorithms(models.take(i as int)),
                        ).push(id.value));
                    }
                },
                _ => {},
            }
            i = i + 1;
        }
        proof {
            assert(models.take(i as int) =~= models);
        }
        out
    }

    /// Whether a fill equal to `fill` was handed to an algorithm before.
    fn was_delivered(&self, fill: &Fill) -> (r: bool)
        ensures
            r == self@.delivered.contains(fill@),
    {
        let mut i: usize = 0;
        while i < self.delivered.len()
            invariant
                i <= self.delivered@.len(),
                self@.delivered == fill_models(self.delivered@),
                forall|j: int| 0 <= j < i ==> #[trigger] self@.delivered[j] != fill@,
            decreases self.delivered@.len() - i,
        {
            if self.delivered[i].same_as(fill) {
                proof {
                    assert(self@.delivered[i as int] == fill@);
                }
                return true;
            }
            i = i + 1;
        }
        false
    }

    /// The algorithm that placed the order with the given id.
    fn owner(&self, order_id: &String) -> (r: Option<Uuid>)
        ensures
            match r {
                Some(id) => owner_of(self@.owners, order_id@) == Some(id.value),
                None => owner_of(self@.owners, order_id@) is None,
            },
    {
        let mut i: usize = 0;
        let ghost m = self@.owners;
        proof {
            assert(m.take(0) =~= Seq::empty());
        }
        while i < self.owners.len()
            invariant
                i <= self.owners@.len(),
                m == owner_models(self.owners@),
                owner_of(m.take(i as int), order_id@) is None,
            decreases self.owners@.len() - i,
        {
            proof {
                assert(m.take(i + 1).drop_last() =~= m.take(i as int));
                assert(m.take(i + 1).last() == m[i as int]);
            }
            if self.owners[i].order_id == *order_id {
                proof {
                    lemma_owner_prefix(m, order_id@, i + 1);
                }
                return Some(self.owners[i].algo_id);
            }
            i = i + 1;
        }
        proof {
            assert(m.take(i as int) =~= m);
        }
        None
    }

    /// The call that a fill leads to: one into the algorithm that placed the order,
    /// unless the fill was handed over before or that algorithm is no longer working.
    pub fn on_fill(&mut self, fill: Fill) -> (r: Option<Delivery>)
        ensures
            final(self)@ == after_fill(old(self)@, fill@),
            match fill_target(old(self)@, fill@) {
                Some(id) => r matches Some(d) && d.algo_id.value == id && d.call == PluginCall::OnFill(
                    plugin_fill(fill),
                ),
                None => r is None,
            },
    {
        if self.was_delivered(&fill) {
            return None;
        }
        let id = match self.owner(&fill.order_id) {
            Some(id) => id,
            None => {
                return None;
            },
        };
        let i = match self.find(id) {
            Some(i) => i,
            None => {
                return None;
            },
        };
        match self.algos[i].status() {
            AlgoStatus::Working => {},
            _ => {
                return None;
            },
        }
        let call = PluginCall::OnFill(to_plugin_fill(&fill));
        let ghost before = self.delivered@;
        self.delivered.push(fill);
        proof {
            assert(fill_models(self.delivered@) =~= fill_models(before).push(fill@));
        }
        Some(Delivery { algo_id: id, call })
    }

    /// Takes the plugin's answer to a call made for the algorithm with the given id, and
    /// returns the child orders to dispatch, in the order the plugin gave them. The
    /// caller stores a snapshot afterwards.
    pub fn complete(
        &mut self,
        algo_id: Uuid,
        call: CallKind,
        result: &PluginResult,
        plugin_state: String,
    ) -> (r: Result<Vec<ChildOrderRequest>, OrchestratorError>)
        ensures
            match first_index(old(self)@.algos, algo_id.value) {
                None => r matches Err(OrchestratorError::UnknownAlgorithm(id)) && id == algo_id && final(self)@
                    == old(self)@,
                Some(i) => {
                    let outcome = applied(
                        old(self)@.algos[i],
                        call,
                        result.orders@,
                        result.completed,
                        plugin_state@,
                    );
                    &&& final(self)@ == (OrchestratorModel {
                        algos: old(self)@.algos.update(i, outcome.0),
                        ..old(self)@
                    })
                    &&& match outcome.1 {
                        Ok(children) => r matches Ok(v) && child_models(v@) == children,
                        Err(e) => r == Err::<Vec<ChildOrderRequest>, OrchestratorError>(
                            OrchestratorError::Plugin { algo_id, error: e },
                        ),
                    }
                    &&& may_follow(old(self)@.algos[i].status, outcome.0.status)
                },
            },
    {
        let i = match self.find(algo_id) {
            Some(i) => i,
            None => {
                return Err(OrchestratorError::UnknownAlgorithm(algo_id));
            },
        };
        let ghost before = self.algos@;
        let mut algo = self.algos.remove(i);
        let outcome = algo.apply_result(call, result, plugin_state);
        let ghost changed = algo@;
        self.algos.insert(i, algo);
        proof {
            assert(algo_models(self.algos@) =~= algo_models(before).update(i as int, changed));
        }
        match outcome {
            Ok(children) => Ok(children),
            Err(e) => Err(OrchestratorError::Plugin { algo_id, error: e }),
        }
    }

    /// Moves the algorithm with the given id to `target` if it is working.
    fn finish(&mut self, algo_id: Uuid, target: AlgoStatus) -> (r: Result<(), OrchestratorError>)
        requires
            target == AlgoStatus::Cancelled || target == AlgoStatus::Failed,
        ensures
            match first_index(old(self)@.algos, algo_id.value) {
                None => r matches Err(OrchestratorError::UnknownAlgorithm(id)) && id == algo_id && final(self)@
                    == old(self)@,
                Some(i) => r is Ok && final(self)@ == (OrchestratorModel {
                    algos: old(self)@.algos.update(
                        i,
                        WasmAlgorithmModel {
                            status: status_after(old(self)@.algos[i].status, target),
                            ..old(self)@.algos[i]
                        },
                    ),
                    ..old(self)@
                }),
            },
    {
        let i = match self.find(algo_id) {
            Some(i) => i,
            None => {
                return Err(OrchestratorError::UnknownAlgorithm(algo_id));
            },
        };
        let ghost before = self.algos@;
        let mut algo = self.algos.remove(i);
        match target {
            AlgoStatus::Cancelled => algo.cancel(),
            _ => algo.fail(),
        }
        let ghost changed = algo@;
        self.algos.insert(i, algo);
        proof {
            assert(algo_models(self.algos@) =~= algo_models(before).update(i as int, changed));
        }
        Ok(())
    }

    /// Cancels the algorithm with the given id: a working algorithm becomes cancelled, a
    /// finished one stays as it is. Fills that arrived before stay delivered. The caller
    /// stores the final snapshot and cancels the algorithm's live orders at the broker.
    pub fn cancel(&mut self, algo_id: Uuid) -> (r: Result<(), OrchestratorError>)
        ensures
            match first_index(old(self)@.algos, algo_id.value) {
                None => r matches Err(OrchestratorError::UnknownAlgorithm(id)) && id == algo_id && final(self)@
                    == old(self)@,
                Some(i) => r is Ok && final(self)@ == (OrchestratorModel {
                    algos: old(self)@.algos.update(
                        i,
                        WasmAlgorithmModel {
                            status: status_after(old(self)@.algos[i].status, AlgoStatus::Cancelled),
                            ..old(self)@.algos[i]
                        },
                    ),
                    ..old(self)@
                }),
            },
    {
        self.finish(algo_id, AlgoStatus::Cancelled)
    }

    /// Records that the plugin of the algorithm with the given id trapped or broke the
    /// protocol: a working algorithm becomes failed, a finished one stays as it is. Its
    /// plugin state is kept.
    pub fn fail(&mut self, algo_id: Uuid) -> (r: Result<(), OrchestratorError>)
        ensures
            match first_index(old(self)@.algos, algo_id.value) {
                None => r matches Err(OrchestratorError::UnknownAlgorithm(id)) && id == algo_id && final(self)@
                    == old(self)@,
                Some(i) => r is Ok && final(self)@ == (OrchestratorModel {
                    algos: old(self)@.algos.update(
                        i,
                        WasmAlgorithmModel {
                            status: status_after(old(self)@.algos[i].status, AlgoStatus::Failed),
                            ..old(self)@.algos[i]
                        },
                    ),
                    ..old(self)@
                }),
            },
    {
        self.finish(algo_id, AlgoStatus::Failed)
    }

    /// Takes note of an order that the broker reports as placed for the algorithm with
    /// the given id, be it right after the placement or replayed after a restart. The
    /// order is recorded as the algorithm's unless it has an owner already, and the
    /// algorithm catches up with the sequence number in the order's id.
    pub fn on_child_order_placed(&mut self, algo_id: Uuid, order: &Order) -> (r: Result<(), OrchestratorError>)
        ensures
            match first_index(old(self)@.algos, algo_id.value) {
                None => r matches Err(OrchestratorError::UnknownAlgorithm(id)) && id == algo_id && final(self)@
                    == old(self)@,
                Some(i) => r is Ok && final(self)@ == (OrchestratorModel {
                    algos: old(self)@.algos.update(
                        i,
                        WasmAlgorithmModel {
                            next_client_seq: sequence_after_placement(
                                algo_id.value,
                                old(self)@.algos[i].next_client_seq,
                                order@.request.client_order_id,
                            ),
                            ..old(self)@.algos[i]
                        },
                    ),
                    owners: owners_after_placement(old(self)@.owners, order@.id, algo_id.value),
                    ..old(self)@
                }),
            },
    {
        let i = match self.find(algo_id) {
            Some(i) => i,
            None => {
                return Err(OrchestratorError::UnknownAlgorithm(algo_id));
            },
        };
        proof {
            lemma_first_index(self@.algos, algo_id.value);
        }
        let ghost before = self.algos@;
        let mut algo = self.algos.remove(i);
        algo.on_child_order_placed(order);
        let ghost changed = algo@;
        self.algos.insert(i, algo);
        proof {
            assert(algo_models(self.algos@) =~= algo_models(before).update(i as int, changed));
        }
        match self.owner(&order.id) {
            Some(_) => {},
            None => {
                let ghost owners_before = self.owners@;
                self.owners.push(OrderOwner { order_id: order.id.clone(), algo_id });
                proof {
                    assert(owner_models(self.owners@) =~= owner_models(owners_before).push(
                        (order@.id, algo_id.value),
                    ));
                }
            },
        }
        Ok(())
    }

    /// The images of the algorithms that are working, to be stored.
    pub fn live_snapshots(&self) -> (r: Vec<StoredAlgorithm>)
        ensures
            stored_models(r@) == live_snapshots(self@.algos),
    {
        let mut out: Vec<StoredAlgorithm> = Vec::new();
        let mut i: usize = 0;
        let ghost models = self@.algos;
        proof {
            assert(models.take(0) =~= Seq::empty());
            assert(stored_models(out@) =~= Seq::empty());
        }
        while i < self.algos.len()
            invariant
                i <= self.algos@.len(),
                models == algo_models(self.algos@),
                stored_models(out@) == live_snapshots(models.take(i as int)),
            decreases self.algos@.len() - i,
        {
            proof {
                assert(models.take(i + 1).drop_last() =~= models.take(i as int));
                assert(models.take(i + 1).last() == self.algos@[i as int]@);
            }
            let algo = &self.algos[i];
            match algo.status() {
                AlgoStatus::Working => {
                    let ghost before = out@;
                    let stored = StoredAlgorithm { algo_id: algo.id(), state: algo.state() };
                    out.push(stored);
                    proof {
                        assert(stored_models(out@) =~= stored_models(before).push(stored@));
                    }
                },
                _ => {},
            }
            i = i + 1;
        }
        proof {
            assert(models.take(i as int) =~= models);
        }
        out
    }

    /// An orchestrator with the algorithms that the given images are restored to: one
    /// for each image that is working. Which algorithm placed which order is learnt
    /// anew from the placements that the broker replays.
    pub fn restore_all(stored: Vec<StoredAlgorithm>) -> (r: OrderOrchestrator)
        ensures
            r@.algos == restored_algorithms(stored_models(stored@)),
            r@.owners.len() == 0,
            r@.delivered.len() == 0,
    {
        let mut algos: Vec<WasmAlgorithm> = Vec::new();
        let mut stored = stored;
        let ghost all = stored_models(stored@);
        let total = stored.len();
        proof {
            assert(all.take(0) =~= Seq::empty());
            assert(algo_models(algos@) =~= Seq::empty());
            assert(all.skip(0) =~= all);
        }
        let mut done: usize = 0;
        while stored.len() > 0
            invariant
                done + stored@.len() == total,
                total == all.len(),
                total <= usize::MAX,
                stored_models(stored@) == all.skip(done as int),
                algo_models(algos@) == restored_algorithms(all.take(done as int)),
            decreases stored@.len(),
        {
            let ghost rest = stored@;
            let item = stored.remove(0);
            proof {
                assert(item@ == all[done as int]) by {
                    assert(stored_models(rest)[0] == all.skip(done as int)[0]);
                }
                assert(stored_models(stored@) =~= all.skip(done + 1)) by {
                    assert forall|k: int| 0 <= k < stored@.len() implies stored_models(stored@)[k] == all.skip(
                        done + 1,
                    )[k] by {
                        assert(stored@[k] == rest[k + 1]);
                        assert(stored_models(rest)[k + 1] == all.skip(done as int)[k + 1]);
                    }
                }
                assert(all.take(done + 1).drop_last() =~= all.take(done as int));
                assert(all.take(done + 1).last() == all[done as int]);
            }
            match item.state.status {
                AlgoStatus::Working => {
                    let ghost before = algos@;
                    let algo = WasmAlgorithm::from_snapshot(item.algo_id, item.state);
                    algos.push(algo);
                    proof {
                        assert(algo_models(algos@) =~= algo_models(before).push(algo@));
                    }
                },
                _ => {},
            }
            done = done + 1;
        }
        proof {
            assert(all.take(done as int) =~= all);
        }
        OrderOrchestrator { algos, owners: Vec::new(), delivered: Vec::new() }
    }
}

/// Where a prefix of the owners has an entry for an order, the owner of the order is
/// the one that the prefix gives.
pub proof fn lemma_owner_prefix(owners: Seq<(Seq<char>, u128)>, order_id: Seq<char>, n: int)
    requires
        0 <= n <= owners.len(),
        owner_of(owners.take(n), order_id) is Some,
    ensures
        owner_of(owners, order_id) == owner_of(owners.take(n), order_id),
    decreases owners.len() - n,
{
    if n < owners.len() {
        assert(owners.take(n + 1).drop_last() =~= owners.take(n));
        lemma_owner_prefix(owners, order_id, n + 1);
    } else {
        assert(owners.take(n) =~= owners);
    }
}

} // verus!
