//! The explorer as a state machine: it takes one message (or one tick of
//! the clock) at a time, updates what it knows, and answers with the
//! actions its runner must perform.
use vstd::prelude::*;

use crate::brain::{move_thought, spec_initial_needs, spec_possibilities, think_fits, Brain, Intention, Thought};
use crate::config::LAST_SUCCESS_TIMEOUT_MULTIPLIER;
use crate::galaxy_map::no_capabilities;
use crate::messages::{Action, OrchestratorMessage, Outcome, PlanetMessage, Reply, ToOrchestrator, ToPlanet};
use crate::planet_stats::{distinct_basic, distinct_complex, PlanetStats};
use crate::resources::{
    basic_index, complex_index, resource_value, spec_resource_value, BasicResourceType,
    ComplexResourceType, ResourceType,
};
use crate::vector::{
    basic_flag, complex_flag, fits_ingredients, spec_add_ingredients, spec_is_zero, spec_decrease_need, spec_resource_needs,
    ResourceVector,
};

verus! {

/// The action that sends `m` to the current planet, when the explorer can
/// reach it; nothing otherwise.
pub open spec fn planet_send<S>(stats: PlanetStats<S>, m: ToPlanet) -> Seq<Action> {
    if stats.spec_has_sender() {
        seq![Action::Planet(m)]
    } else {
        Seq::empty()
    }
}

/// The ID used for the current planet when there is none.
pub open spec fn planet_or_zero(id: Option<u32>) -> u32 {
    match id {
        Some(p) => p,
        None => 0,
    }
}

/// Whether the explorer can handle `msg` in state `e`: no update may wait
/// for a delivery, and moving nowhere, or answering a supported-resources
/// question in AI mode, needs a current planet.
pub open spec fn accepts_orchestrator<S>(e: Explorer<S>, msg: OrchestratorMessage<S>) -> bool {
    &&& e.spec_pending() is None
    &&& match msg {
        OrchestratorMessage::MoveToPlanet { sender_to_new_planet: None, .. } => e.spec_stats().spec_id() is Some,
        OrchestratorMessage::SupportedResourceRequest => e.spec_manual() || e.spec_stats().spec_id() is Some,
        OrchestratorMessage::SupportedCombinationRequest => e.spec_manual() || e.spec_stats().spec_id() is Some,
        _ => true,
    }
}

/// Only the needs of the brain changed.
pub open spec fn only_needs_changed(new: Brain, old: Brain) -> bool {
    &&& new.spec_performance() == old.spec_performance()
    &&& new.spec_game_step() == old.spec_game_step()
    &&& new.spec_last_success() == old.spec_last_success()
    &&& new.spec_galaxy() == old.spec_galaxy()
}

/// How the explorer answers the orchestrator's message `msg` at time `now`,
/// going from state `old` to state `new` with reply `r`.
pub open spec fn orchestrator_step<S>(
    old: Explorer<S>,
    new: Explorer<S>,
    msg: OrchestratorMessage<S>,
    now: u128,
    r: Reply,
) -> bool {
    let id = old.spec_id();
    let cur = old.spec_stats().spec_id();
    let acts = r.actions@;
    let same_state = {
        &&& new.spec_brain() == old.spec_brain()
        &&& new.spec_stats() == old.spec_stats()
        &&& new.spec_manual() == old.spec_manual()
        &&& new.spec_path() == old.spec_path()
    };
    &&& new.spec_id() == id
    &&& !(msg is MoveToPlanet) ==> new.spec_pending() == old.spec_pending()
    &&& match msg {
        OrchestratorMessage::StartExplorerAI => {
            &&& !new.spec_manual()
            &&& new.spec_brain() == old.spec_brain()
            &&& new.spec_stats() == old.spec_stats()
            &&& new.spec_path() == old.spec_path()
            &&& acts == seq![Action::Orchestrator(ToOrchestrator::StartExplorerAIResult { explorer_id: id })]
                + planet_send(old.spec_stats(), ToPlanet::SupportedResourceRequest { explorer_id: id })
                + planet_send(old.spec_stats(), ToPlanet::SupportedCombinationRequest { explorer_id: id })
            &&& r.outcome == Outcome::Continue
        },
        OrchestratorMessage::ResetExplorerAI => {
            &&& new.spec_manual()
            &&& new.spec_path() == Seq::<u32>::empty()
            &&& new.spec_brain() == old.spec_brain()
            &&& new.spec_stats() == old.spec_stats()
            &&& acts == seq![Action::Orchestrator(ToOrchestrator::ResetExplorerAIResult { explorer_id: id })]
            &&& r.outcome == Outcome::Continue
        },
        OrchestratorMessage::KillExplorer => {
            &&& new.spec_manual() == old.spec_manual()
            &&& new.spec_path() == Seq::<u32>::empty()
            &&& new.spec_brain() == old.spec_brain()
            &&& new.spec_stats() == old.spec_stats()
            &&& acts == seq![Action::Orchestrator(ToOrchestrator::KillExplorerResult { explorer_id: id })]
            &&& r.outcome == Outcome::Killed
        },
        OrchestratorMessage::StopExplorerAI => {
            &&& new.spec_manual()
            &&& new.spec_path() == old.spec_path()
            &&& new.spec_brain() == old.spec_brain()
            &&& new.spec_stats() == old.spec_stats()
            &&& acts == seq![Action::Orchestrator(ToOrchestrator::StopExplorerAIResult { explorer_id: id })]
            &&& r.outcome == Outcome::Continue
        },
        OrchestratorMessage::MoveToPlanet { sender_to_new_planet, planet_id } => {
            &&& same_state
            &&& new.spec_pending() == Some(Pending::Move { planet_id, sender: sender_to_new_planet, now })
            &&& acts == seq![Action::Orchestrator(ToOrchestrator::MovedToPlanetResult { explorer_id: id, planet_id })]
            &&& r.outcome == Outcome::AwaitDelivery
        },
        OrchestratorMessage::CurrentPlanetRequest => {
            &&& same_state
            &&& match cur {
                Some(p) => {
                    &&& acts == seq![Action::Orchestrator(ToOrchestrator::CurrentPlanetResult { explorer_id: id, planet_id: p })]
                    &&& r.outcome == Outcome::Continue
                },
                None => {
                    &&& acts == Seq::<Action>::empty()
                    &&& r.outcome matches Outcome::Failed(e) && e@ == "Explorer is not in a Planet"@
                },
            }
        },
        OrchestratorMessage::SupportedResourceRequest => {
            &&& r.outcome == Outcome::Continue
            &&& new.spec_stats() == old.spec_stats()
            &&& new.spec_manual() == old.spec_manual()
            &&& new.spec_path() == old.spec_path()
            &&& if old.spec_manual() {
                &&& new.spec_brain() == old.spec_brain()
                &&& acts == planet_send(old.spec_stats(), ToPlanet::SupportedResourceRequest { explorer_id: id })
            } else {
                &&& new.spec_brain().unchanged_but_map(&old.spec_brain())
                &&& acts.len() == 1
                &&& acts[0] matches Action::Orchestrator(ToOrchestrator::SupportedResourceResult { explorer_id, supported_resources })
                    && explorer_id == id
                    && supported_resources@.no_duplicates()
                    && (forall|k: int, l: int| 0 <= k < l < supported_resources@.len()
                        ==> basic_index(#[trigger] supported_resources@[k]) < basic_index(#[trigger] supported_resources@[l]))
                    && forall|b: BasicResourceType| supported_resources@.contains(b)
                        <==> #[trigger] old.spec_brain().spec_galaxy().caps_of(planet_or_zero(cur))[basic_index(b)] == 1
            }
        },
        OrchestratorMessage::SupportedCombinationRequest => {
            &&& r.outcome == Outcome::Continue
            &&& new.spec_stats() == old.spec_stats()
            &&& new.spec_manual() == old.spec_manual()
            &&& new.spec_path() == old.spec_path()
            &&& if old.spec_manual() {
                &&& new.spec_brain() == old.spec_brain()
                &&& acts == planet_send(old.spec_stats(), ToPlanet::SupportedCombinationRequest { explorer_id: id })
            } else {
                &&& new.spec_brain().unchanged_but_map(&old.spec_brain())
                &&& acts.len() == 1
                &&& acts[0] matches Action::Orchestrator(ToOrchestrator::SupportedCombinationResult { explorer_id, combination_list })
                    && explorer_id == id
                    && combination_list@.no_duplicates()
                    && (forall|k: int, l: int| 0 <= k < l < combination_list@.len()
                        ==> complex_index(#[trigger] combination_list@[k]) < complex_index(#[trigger] combination_list@[l]))
                    && forall|c: ComplexResourceType| combination_list@.contains(c)
                        <==> #[trigger] old.spec_brain().spec_galaxy().caps_of(planet_or_zero(cur))[complex_index(c)] == 1
            }
        },
        OrchestratorMessage::GenerateResourceRequest { to_generate } => {
            &&& r.outcome == Outcome::Continue
            &&& new.spec_stats() == old.spec_stats()
            &&& new.spec_manual() == old.spec_manual()
            &&& new.spec_path() == old.spec_path()
            &&& if old.spec_manual() {
                &&& new.spec_brain().spec_needs() == spec_resource_needs(ResourceType::Basic(to_generate))
                &&& only_needs_changed(new.spec_brain(), old.spec_brain())
                &&& acts == planet_send(old.spec_stats(), ToPlanet::GenerateResourceRequest { explorer_id: id, resource: to_generate })
            } else {
                &&& new.spec_brain() == old.spec_brain()
                &&& acts == Seq::<Action>::empty()
            }
        },
        OrchestratorMessage::CombineResourceRequest { to_generate } => {
            &&& new.spec_stats() == old.spec_stats()
            &&& new.spec_manual() == old.spec_manual()
            &&& new.spec_path() == old.spec_path()
            &&& acts == Seq::<Action>::empty()
            &&& if old.spec_manual() {
                &&& new.spec_brain().spec_needs() == if to_generate == ComplexResourceType::AIPartner {
                    spec_initial_needs()
                } else {
                    spec_resource_needs(ResourceType::Complex(to_generate))
                }
                &&& only_needs_changed(new.spec_brain(), old.spec_brain())
                &&& r.outcome == Outcome::AwaitCombination(to_generate)
            } else {
                &&& new.spec_brain() == old.spec_brain()
                &&& r.outcome == Outcome::Continue
            }
        },
        OrchestratorMessage::BagContentRequest => {
            &&& same_state
            &&& acts == seq![Action::Orchestrator(ToOrchestrator::BagContentResponse { explorer_id: id })]
            &&& r.outcome == Outcome::Continue
        },
        OrchestratorMessage::NeighborsResponse { neighbors } => {
            let p = planet_or_zero(cur);
            let g_old = old.spec_brain().spec_galaxy();
            let g_new = new.spec_brain().spec_galaxy();
            &&& new.spec_manual() == old.spec_manual()
            &&& new.spec_path() == old.spec_path()
            &&& new.spec_stats().spec_neighbors() == Some(neighbors@)
            &&& new.spec_stats().spec_id() == cur
            &&& new.spec_stats().spec_sender() == old.spec_stats().spec_sender()
            &&& new.spec_stats().spec_resources() == old.spec_stats().spec_resources()
            &&& new.spec_stats().spec_combinations() == old.spec_stats().spec_combinations()
            &&& new.spec_brain().spec_needs() == old.spec_brain().spec_needs()
            &&& new.spec_brain().spec_performance() == old.spec_brain().spec_performance()
            &&& new.spec_brain().spec_game_step() == old.spec_brain().spec_game_step()
            &&& new.spec_brain().spec_last_success() == old.spec_brain().spec_last_success()
            &&& g_new.neighbors_of(p) == neighbors@
            &&& forall|q: u32| #[trigger] g_new.caps_of(q) == g_old.caps_of(q)
            &&& forall|q: u32| q != p ==> #[trigger] g_new.neighbors_of(q) == g_old.neighbors_of(q)
            &&& acts == Seq::<Action>::empty()
            &&& r.outcome == Outcome::Continue
        },
    }
}

/// Whether the explorer can take `msg` in state `e`: no update may wait for
/// a delivery, a resource it is given must not overflow the performance
/// score, and a list of what the planet makes names each resource once.
pub open spec fn accepts_planet<S>(e: Explorer<S>, msg: PlanetMessage) -> bool {
    let perf = e.spec_brain().spec_performance();
    &&& e.spec_pending() is None
    &&& match msg {
        PlanetMessage::GenerateResourceResponse { resource: Some(b) } =>
            perf + spec_resource_value(ResourceType::Basic(b)) <= u64::MAX,
        PlanetMessage::CombineResourceResponse { complex_response: Ok(c) } =>
            perf + spec_resource_value(ResourceType::Complex(c)) <= u64::MAX,
        PlanetMessage::SupportedResourceResponse { resource_list } => resource_list@.no_duplicates(),
        PlanetMessage::SupportedCombinationResponse { combination_list } => combination_list@.no_duplicates(),
        _ => true,
    }
}

/// The message to the orchestrator that reports `m`, in manual mode only.
pub open spec fn report_if_manual(manual: bool, m: ToOrchestrator) -> Seq<Action> {
    if manual {
        seq![Action::Orchestrator(m)]
    } else {
        Seq::empty()
    }
}

/// An update that takes effect only once the report sent before it has
/// been delivered.
pub enum Pending<S> {
    /// The basic resources the current planet generates.
    Resources(Vec<BasicResourceType>),
    /// The complex resources the current planet combines.
    Combinations(Vec<ComplexResourceType>),
    /// A move to `planet_id` ordered at time `now`, through `sender` when
    /// the new planet can be reached.
    Move { planet_id: u32, sender: Option<S>, now: u128 },
}

/// `new` is `old` after recording that the current planet generates the
/// basic resources `l`, in the map and in the planet record.
pub open spec fn records_resources<S>(old: Explorer<S>, new: Explorer<S>, l: Seq<BasicResourceType>) -> bool {
    let p = planet_or_zero(old.spec_stats().spec_id());
    let b_old = old.spec_brain();
    let b_new = new.spec_brain();
    let g_old = b_old.spec_galaxy();
    let g_new = b_new.spec_galaxy();
    &&& new.spec_stats().spec_resources() == Some(l)
    &&& new.spec_stats().spec_id() == old.spec_stats().spec_id()
    &&& new.spec_stats().spec_sender() == old.spec_stats().spec_sender()
    &&& new.spec_stats().spec_neighbors() == old.spec_stats().spec_neighbors()
    &&& new.spec_stats().spec_combinations() == old.spec_stats().spec_combinations()
    &&& b_new.spec_needs() == b_old.spec_needs()
    &&& b_new.spec_performance() == b_old.spec_performance()
    &&& b_new.spec_game_step() == b_old.spec_game_step()
    &&& b_new.spec_last_success() == b_old.spec_last_success()
    &&& forall|i: int| 0 <= i < 4 ==> #[trigger] g_new.caps_of(p)[i] == basic_flag(l, i)
    &&& forall|i: int| 4 <= i < 10 ==> #[trigger] g_new.caps_of(p)[i] == g_old.caps_of(p)[i]
    &&& forall|q: u32| q != p ==> #[trigger] g_new.caps_of(q) == g_old.caps_of(q)
    &&& forall|q: u32| #[trigger] g_new.neighbors_of(q) == g_old.neighbors_of(q)
}

/// `new` is `old` after recording that the current planet combines the
/// complex resources `l`, in the map and in the planet record.
pub open spec fn records_combinations<S>(old: Explorer<S>, new: Explorer<S>, l: Seq<ComplexResourceType>) -> bool {
    let p = planet_or_zero(old.spec_stats().spec_id());
    let b_old = old.spec_brain();
    let b_new = new.spec_brain();
    let g_old = b_old.spec_galaxy();
    let g_new = b_new.spec_galaxy();
    &&& new.spec_stats().spec_combinations() == Some(l)
    &&& new.spec_stats().spec_id() == old.spec_stats().spec_id()
    &&& new.spec_stats().spec_sender() == old.spec_stats().spec_sender()
    &&& new.spec_stats().spec_neighbors() == old.spec_stats().spec_neighbors()
    &&& new.spec_stats().spec_resources() == old.spec_stats().spec_resources()
    &&& b_new.spec_needs() == b_old.spec_needs()
    &&& b_new.spec_performance() == b_old.spec_performance()
    &&& b_new.spec_game_step() == b_old.spec_game_step()
    &&& b_new.spec_last_success() == b_old.spec_last_success()
    &&& forall|i: int| 0 <= i < 4 ==> #[trigger] g_new.caps_of(p)[i] == g_old.caps_of(p)[i]
    &&& forall|i: int| 4 <= i < 10 ==> #[trigger] g_new.caps_of(p)[i] == complex_flag(l, i)
    &&& forall|q: u32| q != p ==> #[trigger] g_new.caps_of(q) == g_old.caps_of(q)
    &&& forall|q: u32| #[trigger] g_new.neighbors_of(q) == g_old.neighbors_of(q)
}

/// `new` is `old` after moving to `planet_id` at time `now` (staying put
/// when `sender` is `None`), and `acts` what the move then asks.
pub open spec fn completes_move<S>(
    old: Explorer<S>,
    new: Explorer<S>,
    planet_id: u32,
    sender: Option<S>,
    now: u128,
    acts: Seq<Action>,
) -> bool {
    let id = old.spec_id();
    let cur = old.spec_stats().spec_id();
    &&& new.spec_brain().spec_last_success() == now
    &&& new.spec_brain().spec_needs() == old.spec_brain().spec_needs()
    &&& new.spec_brain().spec_performance() == old.spec_brain().spec_performance()
    &&& new.spec_brain().spec_game_step() == old.spec_brain().spec_game_step()
    &&& new.spec_brain().spec_galaxy() == old.spec_brain().spec_galaxy()
    &&& match sender {
        Some(s) => {
            &&& new.spec_stats().spec_id() == Some(planet_id)
            &&& new.spec_stats().spec_sender() == Some(s)
            &&& new.spec_stats().spec_neighbors() is None
            &&& new.spec_stats().spec_resources() is None
            &&& new.spec_stats().spec_combinations() is None
            &&& acts == (if old.spec_manual() {
                Seq::<Action>::empty()
            } else {
                seq![
                    Action::Planet(ToPlanet::SupportedResourceRequest { explorer_id: id }),
                    Action::Planet(ToPlanet::SupportedCombinationRequest { explorer_id: id }),
                ]
            }) + seq![Action::Orchestrator(ToOrchestrator::NeighborsRequest { explorer_id: id, current_planet_id: planet_id })]
        },
        None => {
            &&& new.spec_stats() == old.spec_stats()
            &&& acts == seq![Action::Orchestrator(ToOrchestrator::NeighborsRequest {
                explorer_id: id,
                current_planet_id: planet_or_zero(cur),
            })]
        },
    }
}

/// What the explorer does once the actions of a reply that ended in
/// `AwaitDelivery` have been delivered: it applies the waiting update,
/// going from `old` to `new` with reply `r`.
pub open spec fn delivery<S>(old: Explorer<S>, new: Explorer<S>, r: Reply) -> bool {
    let acts = r.actions@;
    &&& new.spec_id() == old.spec_id()
    &&& new.spec_manual() == old.spec_manual()
    &&& new.spec_path() == old.spec_path()
    &&& new.spec_pending() is None
    &&& r.outcome == Outcome::Continue
    &&& match old.spec_pending() {
        None => {
            &&& new.spec_brain() == old.spec_brain()
            &&& new.spec_stats() == old.spec_stats()
            &&& acts == Seq::<Action>::empty()
        },
        Some(Pending::Resources(l)) => {
            &&& records_resources(old, new, l@)
            &&& acts == Seq::<Action>::empty()
        },
        Some(Pending::Combinations(l)) => {
            &&& records_combinations(old, new, l@)
            &&& acts == Seq::<Action>::empty()
        },
        Some(Pending::Move { planet_id, sender, now }) => completes_move(old, new, planet_id, sender, now, acts),
    }
}

/// How the explorer takes the planet's message `msg`, going from state
/// `old` to state `new` with reply `r`. In manual mode the planet's lists
/// are recorded only once the report of them has been delivered: until
/// then brain and planet record stay as they were.
pub open spec fn planet_step<S>(old: Explorer<S>, new: Explorer<S>, msg: PlanetMessage, r: Reply) -> bool {
    let id = old.spec_id();
    let manual = old.spec_manual();
    let p = planet_or_zero(old.spec_stats().spec_id());
    let acts = r.actions@;
    let b_old = old.spec_brain();
    let b_new = new.spec_brain();
    let g_old = b_old.spec_galaxy();
    let g_new = b_new.spec_galaxy();
    let staged = manual && (msg is SupportedResourceResponse || msg is SupportedCombinationResponse);
    &&& new.spec_id() == id
    &&& new.spec_manual() == manual
    &&& new.spec_path() == old.spec_path()
    &&& r.outcome == if staged { Outcome::AwaitDelivery } else { Outcome::Continue }
    &&& !staged ==> new.spec_pending() == old.spec_pending()
    &&& match msg {
        PlanetMessage::SupportedResourceResponse { resource_list } => if manual {
            &&& b_new == b_old
            &&& new.spec_stats() == old.spec_stats()
            &&& new.spec_pending() == Some(Pending::<S>::Resources(resource_list))
            &&& acts.len() == 1
            &&& acts[0] matches Action::Orchestrator(ToOrchestrator::SupportedResourceResult { explorer_id, supported_resources })
                && explorer_id == id && supported_resources@ == resource_list@
        } else {
            &&& records_resources(old, new, resource_list@)
            &&& acts == Seq::<Action>::empty()
        },
        PlanetMessage::SupportedCombinationResponse { combination_list } => if manual {
            &&& b_new == b_old
            &&& new.spec_stats() == old.spec_stats()
            &&& new.spec_pending() == Some(Pending::<S>::Combinations(combination_list))
            &&& acts.len() == 1
            &&& acts[0] matches Action::Orchestrator(ToOrchestrator::SupportedCombinationResult { explorer_id, combination_list: l })
                && explorer_id == id && l@ == combination_list@
        } else {
            &&& records_combinations(old, new, combination_list@)
            &&& acts == Seq::<Action>::empty()
        },
        PlanetMessage::GenerateResourceResponse { resource } => {
            let report = report_if_manual(manual, ToOrchestrator::GenerateResourceResponse { explorer_id: id, generated: Ok(()) });
            &&& new.spec_stats() == old.spec_stats()
            &&& match resource {
                Some(b) => {
                    &&& b_new.spec_performance() == b_old.spec_performance() + spec_resource_value(ResourceType::Basic(b))
                    &&& b_new.spec_needs() == spec_decrease_need(b_old.spec_needs(), ResourceType::Basic(b))
                    &&& b_new.spec_game_step() == b_old.spec_game_step()
                    &&& b_new.spec_last_success() == b_old.spec_last_success()
                    &&& g_new == g_old
                    &&& acts == seq![Action::StoreInBag] + report
                },
                None => {
                    &&& b_new == b_old
                    &&& acts == report
                },
            }
        },
        PlanetMessage::CombineResourceResponse { complex_response } => {
            &&& new.spec_stats() == old.spec_stats()
            &&& b_new.spec_game_step() == b_old.spec_game_step()
            &&& b_new.spec_last_success() == b_old.spec_last_success()
            &&& g_new == g_old
            &&& acts.len() == (if manual { 2int } else { 1int })
            &&& acts[0] == Action::StoreInBag
            &&& match complex_response {
                Ok(c) => {
                    &&& b_new.spec_performance() == b_old.spec_performance() + spec_resource_value(ResourceType::Complex(c))
                    &&& b_new.spec_needs() == spec_decrease_need(b_old.spec_needs(), ResourceType::Complex(c))
                    &&& manual ==> acts[1] == Action::Orchestrator(ToOrchestrator::CombineResourceResponse { explorer_id: id, generated: Ok(()) })
                },
                Err((e, r1, r2)) => {
                    &&& b_new.spec_performance() == b_old.spec_performance()
                    &&& b_new.spec_needs() == spec_decrease_need(spec_decrease_need(b_old.spec_needs(), r1), r2)
                    &&& manual ==> (acts[1] matches Action::Orchestrator(ToOrchestrator::CombineResourceResponse { explorer_id, generated: Err(e2) })
                        && explorer_id == id && e2@ == e@)
                },
            }
        },
        PlanetMessage::AvailableEnergyCellResponse { .. } | PlanetMessage::Stopped => {
            &&& new.spec_stats() == old.spec_stats()
            &&& b_new == b_old
            &&& acts == Seq::<Action>::empty()
        },
    }
}

/// What carrying out `intention` does, from state `old` to state `new`,
/// with `acts` the actions asked of the runner.
pub open spec fn execution<S>(old: Explorer<S>, new: Explorer<S>, intention: Intention, acts: Seq<Action>) -> bool {
    let id = old.spec_id();
    let cur = old.spec_stats().spec_id();
    let b_old = old.spec_brain();
    let b_new = new.spec_brain();
    match intention {
        Intention::Generate(Some(resource)) => {
            &&& b_new == b_old
            &&& acts == planet_send(old.spec_stats(), ToPlanet::GenerateResourceRequest { explorer_id: id, resource })
        },
        Intention::Combine(Some(complex)) => {
            &&& b_new == b_old
            &&& acts == planet_send(old.spec_stats(), ToPlanet::CombineResourceRequest { explorer_id: id, complex })
        },
        Intention::Move(Some(dest)) => {
            &&& b_new == b_old
            &&& acts == match cur {
                Some(curr) => seq![Action::Orchestrator(ToOrchestrator::TravelToPlanetRequest {
                    explorer_id: id,
                    current_planet_id: curr,
                    dst_planet_id: dest,
                })],
                None => Seq::<Action>::empty(),
            }
        },
        Intention::Move(None) => {
            if old.spec_stats().spec_neighbors() is None && cur is Some {
                &&& b_new == b_old
                &&& acts == seq![Action::Orchestrator(ToOrchestrator::NeighborsRequest {
                    explorer_id: id,
                    current_planet_id: cur.unwrap(),
                })]
            } else {
                let p = planet_or_zero(cur);
                let known = match old.spec_stats().spec_neighbors() {
                    Some(n) => n,
                    None => Seq::<u32>::empty(),
                };
                &&& acts == Seq::<Action>::empty()
                &&& b_new.spec_needs() == b_old.spec_needs()
                &&& b_new.spec_performance() == b_old.spec_performance()
                &&& b_new.spec_game_step() == b_old.spec_game_step()
                &&& b_new.spec_last_success() == b_old.spec_last_success()
                &&& b_new.spec_galaxy().neighbors_of(p) == known
                &&& forall|q: u32| #[trigger] b_new.spec_galaxy().caps_of(q) == b_old.spec_galaxy().caps_of(q)
                &&& forall|q: u32| q != p ==> #[trigger] b_new.spec_galaxy().neighbors_of(q) == b_old.spec_galaxy().neighbors_of(q)
            }
        },
        _ => {
            &&& b_new == b_old
            &&& acts == Seq::<Action>::empty()
        },
    }
}

/// The Nico explorer.
pub struct Explorer<S> {
    id: u32,
    brain: Brain,
    planet_stats: PlanetStats<S>,
    manual_mode: bool,
    path: Vec<u32>,
    pending: Option<Pending<S>>,
}

impl<S> Explorer<S> {
    /// The explorer's ID.
    pub closed spec fn spec_id(&self) -> u32 {
        self.id
    }

    /// The explorer's brain.
    pub closed spec fn spec_brain(&self) -> Brain {
        self.brain
    }

    /// What the explorer knows of its current planet.
    pub closed spec fn spec_stats(&self) -> PlanetStats<S> {
        self.planet_stats
    }

    /// Whether the explorer only acts on the orchestrator's orders.
    pub closed spec fn spec_manual(&self) -> bool {
        self.manual_mode
    }

    /// The planets visited.
    pub closed spec fn spec_path(&self) -> Seq<u32> {
        self.path@
    }

    /// The update that waits for a delivery, if any.
    pub closed spec fn spec_pending(&self) -> Option<Pending<S>> {
        self.pending
    }

    /// The explorer's invariant: a sound brain, and lists that name each
    /// resource once.
    pub open spec fn wf(&self) -> bool {
        &&& self.spec_brain().wf()
        &&& self.spec_stats().wf()
        &&& match self.spec_pending() {
            Some(Pending::Resources(l)) => l@.no_duplicates(),
            Some(Pending::Combinations(l)) => l@.no_duplicates(),
            _ => true,
        }
    }

    /// A new explorer, in manual mode, on no planet, whose last success is `now`.
    pub fn new(id: u32, game_step: u128, now: u128) -> (e: Self)
        requires
            game_step * LAST_SUCCESS_TIMEOUT_MULTIPLIER <= u128::MAX,
        ensures
            e.wf(),
            e.spec_id() == id,
            e.spec_manual(),
            e.spec_path() == Seq::<u32>::empty(),
            e.spec_pending() is None,
            e.spec_stats().spec_id() is None,
            !e.spec_stats().spec_has_sender(),
            e.spec_stats().spec_neighbors() is None,
            e.spec_stats().spec_resources() is None,
            e.spec_stats().spec_combinations() is None,
            e.spec_brain().spec_needs() == spec_initial_needs(),
            e.spec_brain().spec_performance() == 0,
            e.spec_brain().spec_game_step() == game_step,
            e.spec_brain().spec_last_success() == now,
            e.spec_brain().spec_galaxy().known() == Set::<u32>::empty(),
            forall|q: u32| #[trigger] e.spec_brain().spec_galaxy().caps_of(q) == no_capabilities(),
            forall|q: u32| #[trigger] e.spec_brain().spec_galaxy().neighbors_of(q) == Seq::<u32>::empty(),
    {
        Explorer {
            id,
            brain: Brain::new(game_step, now),
            planet_stats: PlanetStats::new(),
            manual_mode: true,
            path: Vec::new(),
            pending: None,
        }
    }

    /// The explorer's ID.
    pub fn id(&self) -> (id: u32)
        ensures
            id == self.spec_id(),
    {
        self.id
    }

    /// Whether the explorer is in manual mode.
    pub fn manual_mode(&self) -> (b: bool)
        ensures
            b == self.spec_manual(),
    {
        self.manual_mode
    }

    /// The performance score.
    pub fn performance(&self) -> (p: u64)
        ensures
            p == self.spec_brain().spec_performance(),
    {
        self.brain.performance()
    }

    /// The current needs.
    pub fn needs(&self) -> (n: ResourceVector)
        ensures
            n@ == self.spec_brain().spec_needs(),
    {
        self.brain.needs()
    }

    /// What the explorer knows of its current planet.
    pub fn planet_stats(&self) -> (s: &PlanetStats<S>)
        ensures
            *s == self.spec_stats(),
    {
        &self.planet_stats
    }

    /// The planets visited.
    pub fn path(&self) -> (p: &Vec<u32>)
        ensures
            p@ == self.spec_path(),
    {
        &self.path
    }

    /// Appends the sending of `m` to the current planet, when it can be reached.
    fn to_planet(&self, actions: &mut Vec<Action>, m: ToPlanet)
        ensures
            final(actions)@ == old(actions)@ + planet_send(self.spec_stats(), m),
    {
        if self.planet_stats.has_sender() {
            actions.push(Action::Planet(m));
        } else {
            assert(old(actions)@ + Seq::<Action>::empty() =~= old(actions)@);
        }
    }

    /// Whether `msg` can be handled now (see `accepts_orchestrator`).
    pub fn can_handle_orchestrator(&self, msg: &OrchestratorMessage<S>) -> (b: bool)
        ensures
            b == accepts_orchestrator(*self, *msg),
    {
        self.pending.is_none() && match msg {
            OrchestratorMessage::MoveToPlanet { sender_to_new_planet: None, .. } => self.planet_stats.id().is_some(),
            OrchestratorMessage::SupportedResourceRequest => self.manual_mode || self.planet_stats.id().is_some(),
            OrchestratorMessage::SupportedCombinationRequest => self.manual_mode || self.planet_stats.id().is_some(),
            _ => true,
        }
    }

    /// Handles a message from the orchestrator at time `now`.
    pub fn handle_orchestrator_message(&mut self, message: OrchestratorMessage<S>, now: u128) -> (r: Reply)
        requires
            old(self).wf(),
            accepts_orchestrator(*old(self), message),
        ensures
            final(self).wf(),
            orchestrator_step(*old(self), *final(self), message, now, r),
    {
        match message {
            OrchestratorMessage::StartExplorerAI => self.start(),
            OrchestratorMessage::ResetExplorerAI => self.reset(),
            OrchestratorMessage::KillExplorer => self.kill(),
            OrchestratorMessage::StopExplorerAI => self.stop(),
            OrchestratorMessage::MoveToPlanet { sender_to_new_planet, planet_id } => {
                self.try_move_to(planet_id, sender_to_new_planet, now)
            },
            OrchestratorMessage::CurrentPlanetRequest => {
                let mut actions: Vec<Action> = Vec::new();
                match self.planet_stats.id() {
                    Some(p) => {
                        actions.push(Action::Orchestrator(ToOrchestrator::CurrentPlanetResult { explorer_id: self.id, planet_id: p }));
                        Reply { actions, outcome: Outcome::Continue }
                    },
                    None => Reply { actions, outcome: Outcome::Failed("Explorer is not in a Planet".to_owned()) },
                }
            },
            OrchestratorMessage::SupportedResourceRequest => self.handle_supported_resources_request(),
            OrchestratorMessage::SupportedCombinationRequest => self.handle_supported_combination_request(),
            OrchestratorMessage::GenerateResourceRequest { to_generate } => {
                let mut actions: Vec<Action> = Vec::new();
                if self.manual_mode {
                    self.brain.set_needs(ResourceType::Basic(to_generate));
                    self.to_planet(&mut actions, ToPlanet::GenerateResourceRequest { explorer_id: self.id, resource: to_generate });
                    assert(actions@ =~= planet_send(old(self).spec_stats(), ToPlanet::GenerateResourceRequest { explorer_id: self.id, resource: to_generate }));
                }
                Reply { actions, outcome: Outcome::Continue }
            },
            OrchestratorMessage::CombineResourceRequest { to_generate } => {
                let actions: Vec<Action> = Vec::new();
                if self.manual_mode {
                    if to_generate == ComplexResourceType::AIPartner {
                        self.brain.reset_needs();
                    } else {
                        self.brain.set_needs(ResourceType::Complex(to_generate));
                    }
                    Reply { actions, outcome: Outcome::AwaitCombination(to_generate) }
                } else {
                    Reply { actions, outcome: Outcome::Continue }
                }
            },
            OrchestratorMessage::BagContentRequest => {
                let mut actions: Vec<Action> = Vec::new();
                actions.push(Action::Orchestrator(ToOrchestrator::BagContentResponse { explorer_id: self.id }));
                Reply { actions, outcome: Outcome::Continue }
            },
            OrchestratorMessage::NeighborsResponse { neighbors } => {
                self.planet_stats.update_neighbors(neighbors.clone());
                let p = match self.planet_stats.id() {
                    Some(p) => p,
                    None => 0,
                };
                self.brain.set_planet_neighbors(p, neighbors);
                Reply { actions: Vec::new(), outcome: Outcome::Continue }
            },
        }
    }

    /// Switches to AI mode and asks the current planet what it can make.
    fn start(&mut self) -> (r: Reply)
        requires
            old(self).wf(),
        ensures
            final(self).wf(),
            orchestrator_step(*old(self), *final(self), OrchestratorMessage::StartExplorerAI, 0, r),
    {
        self.manual_mode = false;
        let mut actions: Vec<Action> = Vec::new();
        actions.push(Action::Orchestrator(ToOrchestrator::StartExplorerAIResult { explorer_id: self.id }));
        self.to_planet(&mut actions, ToPlanet::SupportedResourceRequest { explorer_id: self.id });
        self.to_planet(&mut actions, ToPlanet::SupportedCombinationRequest { explorer_id: self.id });
        Reply { actions, outcome: Outcome::Continue }
    }

    /// Switches to manual mode and forgets the path.
    fn reset(&mut self) -> (r: Reply)
        requires
            old(self).wf(),
        ensures
            final(self).wf(),
            orchestrator_step(*old(self), *final(self), OrchestratorMessage::ResetExplorerAI, 0, r),
    {
        self.manual_mode = true;
        self.path.clear();
        let mut actions: Vec<Action> = Vec::new();
        actions.push(Action::Orchestrator(ToOrchestrator::ResetExplorerAIResult { explorer_id: self.id }));
        Reply { actions, outcome: Outcome::Continue }
    }

    /// Switches to manual mode.
    fn stop(&mut self) -> (r: Reply)
        requires
            old(self).wf(),
        ensures
            final(self).wf(),
            orchestrator_step(*old(self), *final(self), OrchestratorMessage::StopExplorerAI, 0, r),
    {
        self.manual_mode = true;
        let mut actions: Vec<Action> = Vec::new();
        actions.push(Action::Orchestrator(ToOrchestrator::StopExplorerAIResult { explorer_id: self.id }));
        Reply { actions, outcome: Outcome::Continue }
    }

    /// Forgets the path and says goodbye.
    fn kill(&mut self) -> (r: Reply)
        requires
            old(self).wf(),
        ensures
            final(self).wf(),
            orchestrator_step(*old(self), *final(self), OrchestratorMessage::KillExplorer, 0, r),
    {
        self.path.clear();
        let mut actions: Vec<Action> = Vec::new();
        actions.push(Action::Orchestrator(ToOrchestrator::KillExplorerResult { explorer_id: self.id }));
        Reply { actions, outcome: Outcome::Killed }
    }

    /// Reports a move to `planet_id`; the move itself waits until the report
    /// has been delivered (see `delivered`).
    fn try_move_to(&mut self, planet_id: u32, new_sender: Option<S>, now: u128) -> (r: Reply)
        requires
            old(self).wf(),
        ensures
            final(self).wf(),
            orchestrator_step(
                *old(self),
                *final(self),
                OrchestratorMessage::MoveToPlanet { sender_to_new_planet: new_sender, planet_id },
                now,
                r,
            ),
    {
        let mut actions: Vec<Action> = Vec::new();
        actions.push(Action::Orchestrator(ToOrchestrator::MovedToPlanetResult { explorer_id: self.id, planet_id }));
        self.pending = Some(Pending::Move { planet_id, sender: new_sender, now });
        Reply { actions, outcome: Outcome::AwaitDelivery }
    }

    /// Moves to `planet_id` at time `now`, if `new_sender` is `Some`, and
    /// asks for what the explorer must learn next.
    fn complete_move(&mut self, planet_id: u32, new_sender: Option<S>, now: u128) -> (r: Reply)
        requires
            old(self).wf(),
        ensures
            final(self).wf(),
            final(self).spec_id() == old(self).spec_id(),
            final(self).spec_manual() == old(self).spec_manual(),
            final(self).spec_path() == old(self).spec_path(),
            final(self).spec_pending() == old(self).spec_pending(),
            r.outcome == Outcome::Continue,
            completes_move(*old(self), *final(self), planet_id, new_sender, now, r.actions@),
    {
        let mut actions: Vec<Action> = Vec::new();
        self.brain.on_move(now);
        match new_sender {
            Some(sender) => {
                self.planet_stats.update_planet(planet_id, sender);
                if !self.manual_mode {
                    self.to_planet(&mut actions, ToPlanet::SupportedResourceRequest { explorer_id: self.id });
                    self.to_planet(&mut actions, ToPlanet::SupportedCombinationRequest { explorer_id: self.id });
                }
                actions.push(Action::Orchestrator(ToOrchestrator::NeighborsRequest { explorer_id: self.id, current_planet_id: planet_id }));
                let id = self.id;
                assert(actions@ =~= (if old(self).spec_manual() {
                        Seq::<Action>::empty()
                    } else {
                        seq![
                            Action::Planet(ToPlanet::SupportedResourceRequest { explorer_id: id }),
                            Action::Planet(ToPlanet::SupportedCombinationRequest { explorer_id: id }),
                        ]
                    }) + seq![Action::Orchestrator(ToOrchestrator::NeighborsRequest { explorer_id: id, current_planet_id: planet_id })]);
            },
            None => {
                let current = match self.planet_stats.id() {
                    Some(p) => p,
                    None => 0,
                };
                actions.push(Action::Orchestrator(ToOrchestrator::NeighborsRequest { explorer_id: self.id, current_planet_id: current }));
            },
        }
        Reply { actions, outcome: Outcome::Continue }
    }

    /// Applies the update that waited for the delivery of the actions of the
    /// last reply, and says what is left to do.
    pub fn delivered(&mut self) -> (r: Reply)
        requires
            old(self).wf(),
        ensures
            final(self).wf(),
            delivery(*old(self), *final(self), r),
    {
        match self.pending.take() {
            None => Reply { actions: Vec::new(), outcome: Outcome::Continue },
            Some(Pending::Resources(resource_list)) => {
                self.record_resources(resource_list);
                Reply { actions: Vec::new(), outcome: Outcome::Continue }
            },
            Some(Pending::Combinations(combination_list)) => {
                self.record_combinations(combination_list);
                Reply { actions: Vec::new(), outcome: Outcome::Continue }
            },
            Some(Pending::Move { planet_id, sender, now }) => self.complete_move(planet_id, sender, now),
        }
    }

    /// Records, in the map and in the planet record, the basic resources the
    /// current planet generates.
    fn record_resources(&mut self, resource_list: Vec<BasicResourceType>)
        requires
            old(self).wf(),
            resource_list@.no_duplicates(),
        ensures
            final(self).wf(),
            final(self).spec_id() == old(self).spec_id(),
            final(self).spec_manual() == old(self).spec_manual(),
            final(self).spec_path() == old(self).spec_path(),
            final(self).spec_pending() == old(self).spec_pending(),
            records_resources(*old(self), *final(self), resource_list@),
    {
        let p = match self.planet_stats.id() {
            Some(p) => p,
            None => 0,
        };
        self.brain.set_planet_basic_resources(p, resource_list.clone());
        self.planet_stats.update_resources(resource_list);
    }

    /// Records, in the map and in the planet record, the complex resources
    /// the current planet combines.
    fn record_combinations(&mut self, combination_list: Vec<ComplexResourceType>)
        requires
            old(self).wf(),
            combination_list@.no_duplicates(),
        ensures
            final(self).wf(),
            final(self).spec_id() == old(self).spec_id(),
            final(self).spec_manual() == old(self).spec_manual(),
            final(self).spec_path() == old(self).spec_path(),
            final(self).spec_pending() == old(self).spec_pending(),
            records_combinations(*old(self), *final(self), combination_list@),
    {
        let p = match self.planet_stats.id() {
            Some(p) => p,
            None => 0,
        };
        self.brain.set_planet_complex_resources(p, combination_list.clone());
        self.planet_stats.update_combinations(combination_list);
    }

    /// In manual mode, asks the planet what it generates; in AI mode, answers
    /// from what the explorer knows.
    fn handle_supported_resources_request(&mut self) -> (r: Reply)
        requires
            old(self).wf(),
            old(self).spec_manual() || old(self).spec_stats().spec_id() is Some,
        ensures
            final(self).wf(),
            orchestrator_step(*old(self), *final(self), OrchestratorMessage::SupportedResourceRequest, 0, r),
    {
        let mut actions: Vec<Action> = Vec::new();
        if self.manual_mode {
            self.to_planet(&mut actions, ToPlanet::SupportedResourceRequest { explorer_id: self.id });
            assert(actions@ =~= planet_send(old(self).spec_stats(), ToPlanet::SupportedResourceRequest { explorer_id: self.id }));
        } else {
            let current = match self.planet_stats.id() {
                Some(p) => p,
                None => 0,
            };
            let supported_resources = self.brain.supported_resources(current);
            actions.push(Action::Orchestrator(ToOrchestrator::SupportedResourceResult { explorer_id: self.id, supported_resources }));
        }
        Reply { actions, outcome: Outcome::Continue }
    }

    /// In manual mode, asks the planet what it combines; in AI mode, answers
    /// from what the explorer knows.
    fn handle_supported_combination_request(&mut self) -> (r: Reply)
        requires
            old(self).wf(),
            old(self).spec_manual() || old(self).spec_stats().spec_id() is Some,
        ensures
            final(self).wf(),
            orchestrator_step(*old(self), *final(self), OrchestratorMessage::SupportedCombinationRequest, 0, r),
    {
        let mut actions: Vec<Action> = Vec::new();
        if self.manual_mode {
            self.to_planet(&mut actions, ToPlanet::SupportedCombinationRequest { explorer_id: self.id });
            assert(actions@ =~= planet_send(old(self).spec_stats(), ToPlanet::SupportedCombinationRequest { explorer_id: self.id }));
        } else {
            let current = match self.planet_stats.id() {
                Some(p) => p,
                None => 0,
            };
            let combination_list = self.brain.supported_combinations(current);
            actions.push(Action::Orchestrator(ToOrchestrator::SupportedCombinationResult { explorer_id: self.id, combination_list }));
        }
        Reply { actions, outcome: Outcome::Continue }
    }

    /// Whether `msg` can be taken now (see `accepts_planet`).
    pub fn can_handle_planet(&self, msg: &PlanetMessage) -> (b: bool)
        requires
            self.wf(),
        ensures
            b == accepts_planet(*self, *msg),
    {
        let perf = self.brain.performance();
        self.pending.is_none() && match msg {
            PlanetMessage::GenerateResourceResponse { resource: Some(b) } => {
                perf <= u64::MAX - resource_value(ResourceType::Basic(*b))
            },
            PlanetMessage::CombineResourceResponse { complex_response: Ok(c) } => {
                perf <= u64::MAX - resource_value(ResourceType::Complex(*c))
            },
            PlanetMessage::SupportedResourceResponse { resource_list } => distinct_basic(resource_list),
            PlanetMessage::SupportedCombinationResponse { combination_list } => distinct_complex(combination_list),
            _ => true,
        }
    }

    /// Handles a message from the current planet.
    pub fn handle_planet_message(&mut self, message: PlanetMessage) -> (r: Reply)
        requires
            old(self).wf(),
            accepts_planet(*old(self), message),
        ensures
            final(self).wf(),
            planet_step(*old(self), *final(self), message, r),
    {
        let mut actions: Vec<Action> = Vec::new();
        match message {
            PlanetMessage::SupportedResourceResponse { resource_list } => {
                if self.manual_mode {
                    let supported_resources = resource_list.clone();
                    assert(supported_resources@ =~= resource_list@);
                    actions.push(Action::Orchestrator(ToOrchestrator::SupportedResourceResult { explorer_id: self.id, supported_resources }));
                    self.pending = Some(Pending::Resources(resource_list));
                    return Reply { actions, outcome: Outcome::AwaitDelivery };
                }
                self.record_resources(resource_list);
            },
            PlanetMessage::SupportedCombinationResponse { combination_list } => {
                if self.manual_mode {
                    let list = combination_list.clone();
                    assert(list@ =~= combination_list@);
                    actions.push(Action::Orchestrator(ToOrchestrator::SupportedCombinationResult { explorer_id: self.id, combination_list: list }));
                    self.pending = Some(Pending::Combinations(combination_list));
                    return Reply { actions, outcome: Outcome::AwaitDelivery };
                }
                self.record_combinations(combination_list);
            },
            PlanetMessage::GenerateResourceResponse { resource } => {
                if let Some(b) = resource {
                    self.brain.insert_resource(ResourceType::Basic(b));
                    actions.push(Action::StoreInBag);
                }
                if self.manual_mode {
                    actions.push(Action::Orchestrator(ToOrchestrator::GenerateResourceResponse { explorer_id: self.id, generated: Ok(()) }));
                }
                let ghost report = report_if_manual(self.manual_mode, ToOrchestrator::GenerateResourceResponse { explorer_id: self.id, generated: Ok(()) });
                assert(resource is Some ==> actions@ =~= seq![Action::StoreInBag] + report);
                assert(resource is None ==> actions@ =~= report);
            },
            PlanetMessage::CombineResourceResponse { complex_response } => {
                let generated = match complex_response {
                    Ok(c) => {
                        self.brain.insert_resource(ResourceType::Complex(c));
                        Ok(())
                    },
                    Err((error, r1, r2)) => {
                        self.brain.reinsert_resource(r1);
                        self.brain.reinsert_resource(r2);
                        Err(error)
                    },
                };
                actions.push(Action::StoreInBag);
                if self.manual_mode {
                    actions.push(Action::Orchestrator(ToOrchestrator::CombineResourceResponse { explorer_id: self.id, generated }));
                }
            },
            PlanetMessage::AvailableEnergyCellResponse { .. } | PlanetMessage::Stopped => {},
        }
        Reply { actions, outcome: Outcome::Continue }
    }

    /// Whether a combination request for `complex` can be recorded without
    /// a need overflowing.
    pub fn can_record_combination(&self, complex: ComplexResourceType) -> (b: bool)
        requires
            self.wf(),
        ensures
            b == fits_ingredients(self.spec_brain().spec_needs(), complex),
    {
        self.brain.can_record_combination(complex)
    }

    /// Finishes the orchestrator's combination request for `complex` once
    /// the runner has tried to build it from the bag (`made` tells whether
    /// it could): a built request goes to the planet and raises the needs
    /// for its ingredients; otherwise the orchestrator hears that the
    /// ingredients are missing.
    pub fn combination_attempted(&mut self, complex: ComplexResourceType, made: bool) -> (r: Reply)
        requires
            old(self).wf(),
            made ==> fits_ingredients(old(self).spec_brain().spec_needs(), complex),
        ensures
            final(self).wf(),
            final(self).spec_id() == old(self).spec_id(),
            final(self).spec_stats() == old(self).spec_stats(),
            final(self).spec_manual() == old(self).spec_manual(),
            final(self).spec_path() == old(self).spec_path(),
            final(self).spec_pending() == old(self).spec_pending(),
            r.outcome == Outcome::Continue,
            made ==> {
                &&& final(self).spec_brain().spec_needs() == spec_add_ingredients(old(self).spec_brain().spec_needs(), complex)
                &&& only_needs_changed(final(self).spec_brain(), old(self).spec_brain())
                &&& r.actions@ == planet_send(old(self).spec_stats(), ToPlanet::CombineResourceRequest { explorer_id: old(self).spec_id(), complex })
            },
            !made ==> {
                &&& final(self).spec_brain() == old(self).spec_brain()
                &&& r.actions@.len() == 1
                &&& r.actions@[0] matches Action::Orchestrator(ToOrchestrator::CombineResourceResponse { explorer_id, generated: Err(e) })
                    && explorer_id == old(self).spec_id() && e@ == "Explorer did not have ingredients"@
            },
    {
        let mut actions: Vec<Action> = Vec::new();
        if made {
            self.brain.on_combination_request(complex);
            self.to_planet(&mut actions, ToPlanet::CombineResourceRequest { explorer_id: self.id, complex });
            assert(actions@ =~= planet_send(old(self).spec_stats(), ToPlanet::CombineResourceRequest { explorer_id: self.id, complex }));
        } else {
            let message = "Explorer did not have ingredients".to_owned();
            actions.push(Action::Orchestrator(ToOrchestrator::CombineResourceResponse { explorer_id: self.id, generated: Err(message) }));
        }
        Reply { actions, outcome: Outcome::Continue }
    }

    /// Decides what to do at a tick of the clock at time `now`, with a bag
    /// holding `bag_vector` (see `Brain::think`; the current planet is 0
    /// while the explorer is on none).
    pub fn think(&mut self, bag_vector: &ResourceVector, now: u128) -> (t: Thought)
        requires
            old(self).wf(),
            bag_vector@.len() == 10,
            think_fits(old(self).spec_brain(), planet_or_zero(old(self).spec_stats().spec_id()), bag_vector@, now),
        ensures
            final(self).wf(),
            final(self).spec_id() == old(self).spec_id(),
            final(self).spec_stats() == old(self).spec_stats(),
            final(self).spec_manual() == old(self).spec_manual(),
            final(self).spec_path() == old(self).spec_path(),
            final(self).spec_pending() == old(self).spec_pending(),
            final(self).spec_brain().unchanged_but_map(&old(self).spec_brain()),
            ({
                let b = old(self).spec_brain();
                let current = planet_or_zero(old(self).spec_stats().spec_id());
                let poss = spec_possibilities(b.spec_needs(), b.spec_galaxy().caps_of(current), bag_vector@);
                if b.spec_timed_out(now) || spec_is_zero(poss) {
                    move_thought(b.spec_galaxy(), b.spec_needs(), current, t)
                } else {
                    t matches Thought::SampleResource(v) && v@ == poss
                }
            }),
    {
        let current = match self.planet_stats.id() {
            Some(p) => p,
            None => 0,
        };
        self.brain.think(current, bag_vector, now)
    }

    /// Whether thinking at time `now` with a bag holding `bag_vector` stays
    /// within a `u64` (see `think_fits`).
    pub fn can_think(&mut self, bag_vector: &ResourceVector, now: u128) -> (b: bool)
        requires
            old(self).wf(),
            bag_vector@.len() == 10,
        ensures
            final(self).wf(),
            final(self).spec_id() == old(self).spec_id(),
            final(self).spec_stats() == old(self).spec_stats(),
            final(self).spec_manual() == old(self).spec_manual(),
            final(self).spec_path() == old(self).spec_path(),
            final(self).spec_pending() == old(self).spec_pending(),
            final(self).spec_brain().unchanged_but_map(&old(self).spec_brain()),
            b == think_fits(old(self).spec_brain(), planet_or_zero(old(self).spec_stats().spec_id()), bag_vector@, now),
    {
        let current = match self.planet_stats.id() {
            Some(p) => p,
            None => 0,
        };
        self.brain.can_think(current, bag_vector, now)
    }

    /// Settles a combination the explorer chose itself, once the runner has
    /// tried to build its request from the bag (`made` tells whether it
    /// could): a built request raises the needs for its ingredients and is
    /// to be sent; without the ingredients there is no combination to make.
    pub fn combination_built(&mut self, complex: ComplexResourceType, made: bool) -> (i: Intention)
        requires
            old(self).wf(),
            made ==> fits_ingredients(old(self).spec_brain().spec_needs(), complex),
        ensures
            final(self).wf(),
            final(self).spec_id() == old(self).spec_id(),
            final(self).spec_stats() == old(self).spec_stats(),
            final(self).spec_manual() == old(self).spec_manual(),
            final(self).spec_path() == old(self).spec_path(),
            final(self).spec_pending() == old(self).spec_pending(),
            made ==> {
                &&& i == Intention::Combine(Some(complex))
                &&& final(self).spec_brain().spec_needs() == spec_add_ingredients(old(self).spec_brain().spec_needs(), complex)
                &&& only_needs_changed(final(self).spec_brain(), old(self).spec_brain())
            },
            !made ==> {
                &&& i == Intention::Combine(None)
                &&& final(self).spec_brain() == old(self).spec_brain()
            },
    {
        if made {
            self.brain.on_combination_request(complex);
            Intention::Combine(Some(complex))
        } else {
            Intention::Combine(None)
        }
    }

    /// Decides what to do at a tick of the clock: nothing in manual mode,
    /// where the explorer only follows orders; otherwise what `think` says.
    pub fn tick(&mut self, bag_vector: &ResourceVector, now: u128) -> (t: Option<Thought>)
        requires
            old(self).wf(),
            bag_vector@.len() == 10,
            !old(self).spec_manual() ==> think_fits(
                old(self).spec_brain(),
                planet_or_zero(old(self).spec_stats().spec_id()),
                bag_vector@,
                now,
            ),
        ensures
            final(self).wf(),
            final(self).spec_id() == old(self).spec_id(),
            final(self).spec_stats() == old(self).spec_stats(),
            final(self).spec_manual() == old(self).spec_manual(),
            final(self).spec_path() == old(self).spec_path(),
            final(self).spec_pending() == old(self).spec_pending(),
            final(self).spec_brain().unchanged_but_map(&old(self).spec_brain()),
            old(self).spec_manual() ==> t is None && final(self).spec_brain() == old(self).spec_brain(),
            !old(self).spec_manual() ==> (t matches Some(th) && ({
                let b = old(self).spec_brain();
                let current = planet_or_zero(old(self).spec_stats().spec_id());
                let poss = spec_possibilities(b.spec_needs(), b.spec_galaxy().caps_of(current), bag_vector@);
                if b.spec_timed_out(now) || spec_is_zero(poss) {
                    move_thought(b.spec_galaxy(), b.spec_needs(), current, th)
                } else {
                    th matches Thought::SampleResource(v) && v@ == poss
                }
            })),
    {
        if self.manual_mode {
            None
        } else {
            Some(self.think(bag_vector, now))
        }
    }

    /// Carries out an intention: ask the planet to generate or combine, ask
    /// the orchestrator to travel, or, with nowhere to go, ask again for the
    /// neighbors (when they are not known) or refresh them in the map.
    pub fn execute_intention(&mut self, intention: Intention) -> (actions: Vec<Action>)
        requires
            old(self).wf(),
        ensures
            final(self).wf(),
            final(self).spec_id() == old(self).spec_id(),
            final(self).spec_stats() == old(self).spec_stats(),
            final(self).spec_manual() == old(self).spec_manual(),
            final(self).spec_path() == old(self).spec_path(),
            final(self).spec_pending() == old(self).spec_pending(),
            execution(*old(self), *final(self), intention, actions@),
    {
        let mut actions: Vec<Action> = Vec::new();
        match intention {
            Intention::Generate(Some(resource)) => {
                self.to_planet(&mut actions, ToPlanet::GenerateResourceRequest { explorer_id: self.id, resource });
            },
            Intention::Combine(Some(complex)) => {
                self.to_planet(&mut actions, ToPlanet::CombineResourceRequest { explorer_id: self.id, complex });
            },
            Intention::Move(Some(dest)) => {
                if let Some(curr) = self.planet_stats.id() {
                    actions.push(Action::Orchestrator(ToOrchestrator::TravelToPlanetRequest {
                        explorer_id: self.id,
                        current_planet_id: curr,
                        dst_planet_id: dest,
                    }));
                }
            },
            Intention::Move(None) => {
                let current = self.planet_stats.id();
                if !self.planet_stats.has_neighbors() && current.is_some() {
                    let planet_id = match current {
                        Some(p) => p,
                        None => 0,
                    };
                    actions.push(Action::Orchestrator(ToOrchestrator::NeighborsRequest {
                        explorer_id: self.id,
                        current_planet_id: planet_id,
                    }));
                } else {
                    let planet_id = match current {
                        Some(p) => p,
                        None => 0,
                    };
                    let neighbors = match self.planet_stats.neighbors() {
                        Some(n) => n.clone(),
                        None => Vec::new(),
                    };
                    self.brain.set_planet_neighbors(planet_id, neighbors);
                }
            },
            _ => {},
        }
        actions
    }
}

} // verus!
