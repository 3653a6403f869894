use explorer_nico::brain::{Brain, Intention, Thought};
use explorer_nico::explorer::Explorer;
use explorer_nico::messages::{
    Action, OrchestratorMessage, Outcome, PlanetMessage, Reply, ToOrchestrator, ToPlanet,
};
use explorer_nico::resources::{BasicResourceType, ComplexResourceType, ResourceType};
use explorer_nico::vector::ResourceVector;

const EXPLORER_ID: u32 = 1;
const PLANET_ID: u32 = 2;
const STEP: u128 = 500_000_000;

fn orch(m: ToOrchestrator) -> Action {
    Action::Orchestrator(m)
}

fn planet(m: ToPlanet) -> Action {
    Action::Planet(m)
}

fn cont(actions: Vec<Action>) -> Reply {
    Reply { actions, outcome: Outcome::Continue }
}

fn kill_and_check(explorer: &mut Explorer<()>, id: u32) {
    let reply = explorer.handle_orchestrator_message(OrchestratorMessage::KillExplorer, 0);
    assert_eq!(
        reply,
        Reply {
            actions: vec![orch(ToOrchestrator::KillExplorerResult { explorer_id: id })],
            outcome: Outcome::Killed,
        }
    );
}

/// Delivers the actions of a reply that waits for them, and joins what the
/// explorer asks next.
fn deliver(explorer: &mut Explorer<()>, reply: Reply) -> Reply {
    if reply.outcome == Outcome::AwaitDelivery {
        let Reply { mut actions, .. } = reply;
        let rest = explorer.delivered();
        actions.extend(rest.actions);
        Reply { actions, outcome: rest.outcome }
    } else {
        reply
    }
}

fn move_to(explorer: &mut Explorer<()>, planet_id: u32) -> Reply {
    let reply = explorer.handle_orchestrator_message(
        OrchestratorMessage::MoveToPlanet { sender_to_new_planet: Some(()), planet_id },
        0,
    );
    deliver(explorer, reply)
}

#[test]
fn test_creation_start_kill() {
    let id = 266;
    let mut explorer: Explorer<()> = Explorer::new(id, STEP, 0);
    let reply = explorer.handle_orchestrator_message(OrchestratorMessage::StartExplorerAI, 0);
    assert_eq!(reply, cont(vec![orch(ToOrchestrator::StartExplorerAIResult { explorer_id: id })]));
    kill_and_check(&mut explorer, id);
}

// In manual mode a move asks the new planet nothing (only the orchestrator
// hears of it); see `start_and_move` for a move in AI mode.
#[test]
fn test_bag_content_request() {
    let mut explorer: Explorer<()> = Explorer::new(EXPLORER_ID, STEP, 0);
    let reply = move_to(&mut explorer, PLANET_ID);
    assert_eq!(
        reply,
        cont(vec![
            orch(ToOrchestrator::MovedToPlanetResult { explorer_id: EXPLORER_ID, planet_id: PLANET_ID }),
            orch(ToOrchestrator::NeighborsRequest { explorer_id: EXPLORER_ID, current_planet_id: PLANET_ID }),
        ])
    );
    let reply = explorer.handle_orchestrator_message(OrchestratorMessage::BagContentRequest, 0);
    assert_eq!(reply, cont(vec![orch(ToOrchestrator::BagContentResponse { explorer_id: EXPLORER_ID })]));
    kill_and_check(&mut explorer, EXPLORER_ID);
}

#[test]
fn test_supported_combinations_request() {
    let mut explorer: Explorer<()> = Explorer::new(EXPLORER_ID, STEP, 0);
    let reply = move_to(&mut explorer, PLANET_ID);
    assert_eq!(reply.actions.len(), 2);
    let reply = explorer.handle_orchestrator_message(OrchestratorMessage::SupportedCombinationRequest, 0);
    assert_eq!(
        reply,
        cont(vec![planet(ToPlanet::SupportedCombinationRequest { explorer_id: EXPLORER_ID })])
    );
    let reply = explorer.handle_planet_message(PlanetMessage::SupportedCombinationResponse {
        combination_list: vec![ComplexResourceType::Diamond],
    });
    let reply = deliver(&mut explorer, reply);
    assert_eq!(
        reply,
        cont(vec![orch(ToOrchestrator::SupportedCombinationResult {
            explorer_id: EXPLORER_ID,
            combination_list: vec![ComplexResourceType::Diamond],
        })])
    );
    kill_and_check(&mut explorer, EXPLORER_ID);
}

#[test]
fn test_supported_resources_request() {
    let mut explorer: Explorer<()> = Explorer::new(EXPLORER_ID, STEP, 0);
    let reply = move_to(&mut explorer, PLANET_ID);
    assert_eq!(reply.actions.len(), 2);
    let reply = explorer.handle_orchestrator_message(OrchestratorMessage::SupportedResourceRequest, 0);
    assert_eq!(reply, cont(vec![planet(ToPlanet::SupportedResourceRequest { explorer_id: EXPLORER_ID })]));
    let reply = explorer.handle_planet_message(PlanetMessage::SupportedResourceResponse {
        resource_list: vec![BasicResourceType::Carbon],
    });
    let reply = deliver(&mut explorer, reply);
    assert_eq!(
        reply,
        cont(vec![orch(ToOrchestrator::SupportedResourceResult {
            explorer_id: EXPLORER_ID,
            supported_resources: vec![BasicResourceType::Carbon],
        })])
    );
    kill_and_check(&mut explorer, EXPLORER_ID);
}

fn start_and_move(explorer: &mut Explorer<()>, id: u32, planet_id: u32) {
    let reply = explorer.handle_orchestrator_message(OrchestratorMessage::StartExplorerAI, 0);
    assert_eq!(reply, cont(vec![orch(ToOrchestrator::StartExplorerAIResult { explorer_id: id })]));
    let reply = move_to(explorer, planet_id);
    assert_eq!(
        reply,
        cont(vec![
            orch(ToOrchestrator::MovedToPlanetResult { explorer_id: id, planet_id }),
            planet(ToPlanet::SupportedResourceRequest { explorer_id: id }),
            planet(ToPlanet::SupportedCombinationRequest { explorer_id: id }),
            orch(ToOrchestrator::NeighborsRequest { explorer_id: id, current_planet_id: planet_id }),
        ])
    );
}

#[test]
fn test_generate_intentions() {
    let id = 266;
    let planet_id = 222;
    let mut explorer: Explorer<()> = Explorer::new(id, STEP, 0);
    start_and_move(&mut explorer, id, planet_id);
    let reply = explorer.handle_planet_message(PlanetMessage::SupportedResourceResponse {
        resource_list: vec![BasicResourceType::Carbon],
    });
    assert_eq!(reply, cont(vec![]));
    let thought = explorer.think(&ResourceVector::zeros(), STEP);
    let weights = match thought {
        Thought::SampleResource(v) => v.get(),
        other => panic!("expected weights, got {other:?}"),
    };
    assert_eq!(weights, [3, 0, 0, 0, 0, 0, 0, 0, 0, 0]);
    // Carbon is the only positive weight, so any draw picks position 0.
    let intention = Brain::generate_intention(0);
    assert_eq!(intention, Intention::Generate(Some(BasicResourceType::Carbon)));
    let actions = explorer.execute_intention(intention);
    assert_eq!(
        actions,
        vec![planet(ToPlanet::GenerateResourceRequest {
            explorer_id: id,
            resource: BasicResourceType::Carbon,
        })]
    );
    kill_and_check(&mut explorer, id);
}

#[test]
fn test_move_intentions() {
    let id = 266;
    let planet_id = 222;
    let planet_2_id = 333;
    let mut explorer: Explorer<()> = Explorer::new(id, STEP, 0);
    start_and_move(&mut explorer, id, planet_id);
    let reply = explorer
        .handle_orchestrator_message(OrchestratorMessage::NeighborsResponse { neighbors: vec![planet_2_id] }, 0);
    assert_eq!(reply, cont(vec![]));
    let thought = explorer.think(&ResourceVector::zeros(), STEP);
    let intention = match thought {
        Thought::Act(i) => i,
        other => panic!("expected an intention, got {other:?}"),
    };
    assert_eq!(intention, Intention::Move(Some(planet_2_id)));
    let actions = explorer.execute_intention(intention);
    assert_eq!(
        actions,
        vec![orch(ToOrchestrator::TravelToPlanetRequest {
            explorer_id: id,
            current_planet_id: planet_id,
            dst_planet_id: planet_2_id,
        })]
    );
    kill_and_check(&mut explorer, id);
}

#[test]
fn current_planet_request_without_planet_fails() {
    let mut explorer: Explorer<()> = Explorer::new(EXPLORER_ID, STEP, 0);
    let reply = explorer.handle_orchestrator_message(OrchestratorMessage::CurrentPlanetRequest, 0);
    assert_eq!(
        reply,
        Reply { actions: vec![], outcome: Outcome::Failed("Explorer is not in a Planet".to_string()) }
    );
    move_to(&mut explorer, PLANET_ID);
    let reply = explorer.handle_orchestrator_message(OrchestratorMessage::CurrentPlanetRequest, 0);
    assert_eq!(
        reply,
        cont(vec![orch(ToOrchestrator::CurrentPlanetResult { explorer_id: EXPLORER_ID, planet_id: PLANET_ID })])
    );
}

#[test]
fn start_on_a_planet_asks_it_what_it_makes() {
    let mut explorer: Explorer<()> = Explorer::new(EXPLORER_ID, STEP, 0);
    move_to(&mut explorer, PLANET_ID);
    let reply = explorer.handle_orchestrator_message(OrchestratorMessage::StartExplorerAI, 0);
    assert_eq!(
        reply,
        cont(vec![
            orch(ToOrchestrator::StartExplorerAIResult { explorer_id: EXPLORER_ID }),
            planet(ToPlanet::SupportedResourceRequest { explorer_id: EXPLORER_ID }),
            planet(ToPlanet::SupportedCombinationRequest { explorer_id: EXPLORER_ID }),
        ])
    );
    assert!(!explorer.manual_mode());
    let reply = explorer.handle_orchestrator_message(OrchestratorMessage::StopExplorerAI, 0);
    assert_eq!(reply, cont(vec![orch(ToOrchestrator::StopExplorerAIResult { explorer_id: EXPLORER_ID })]));
    assert!(explorer.manual_mode());
    explorer.handle_orchestrator_message(OrchestratorMessage::StartExplorerAI, 0);
    let reply = explorer.handle_orchestrator_message(OrchestratorMessage::ResetExplorerAI, 0);
    assert_eq!(reply, cont(vec![orch(ToOrchestrator::ResetExplorerAIResult { explorer_id: EXPLORER_ID })]));
    assert!(explorer.manual_mode());
    assert!(explorer.path().is_empty());
}

#[test]
fn move_without_channel_asks_neighbors_of_current_planet() {
    let mut explorer: Explorer<()> = Explorer::new(EXPLORER_ID, STEP, 0);
    let refused = OrchestratorMessage::MoveToPlanet { sender_to_new_planet: None, planet_id: 9 };
    assert!(!explorer.can_handle_orchestrator(&refused));
    move_to(&mut explorer, PLANET_ID);
    assert!(explorer.can_handle_orchestrator(&refused));
    let reply = explorer.handle_orchestrator_message(refused, 7);
    let reply = deliver(&mut explorer, reply);
    assert_eq!(
        reply,
        cont(vec![
            orch(ToOrchestrator::MovedToPlanetResult { explorer_id: EXPLORER_ID, planet_id: 9 }),
            orch(ToOrchestrator::NeighborsRequest { explorer_id: EXPLORER_ID, current_planet_id: PLANET_ID }),
        ])
    );
    assert_eq!(explorer.planet_stats().id(), Some(PLANET_ID));
}

#[test]
fn ai_mode_answers_supported_requests_from_memory() {
    let mut explorer: Explorer<()> = Explorer::new(EXPLORER_ID, STEP, 0);
    start_and_move(&mut explorer, EXPLORER_ID, PLANET_ID);
    explorer.handle_planet_message(PlanetMessage::SupportedResourceResponse {
        resource_list: vec![BasicResourceType::Silicon, BasicResourceType::Hydrogen],
    });
    explorer.handle_planet_message(PlanetMessage::SupportedCombinationResponse {
        combination_list: vec![ComplexResourceType::Robot],
    });
    let reply = explorer.handle_orchestrator_message(OrchestratorMessage::SupportedResourceRequest, 0);
    assert_eq!(
        reply,
        cont(vec![orch(ToOrchestrator::SupportedResourceResult {
            explorer_id: EXPLORER_ID,
            supported_resources: vec![BasicResourceType::Hydrogen, BasicResourceType::Silicon],
        })])
    );
    let reply = explorer.handle_orchestrator_message(OrchestratorMessage::SupportedCombinationRequest, 0);
    assert_eq!(
        reply,
        cont(vec![orch(ToOrchestrator::SupportedCombinationResult {
            explorer_id: EXPLORER_ID,
            combination_list: vec![ComplexResourceType::Robot],
        })])
    );
}

#[test]
fn manual_generation_sets_needs_and_reports() {
    let mut explorer: Explorer<()> = Explorer::new(EXPLORER_ID, STEP, 0);
    move_to(&mut explorer, PLANET_ID);
    let reply = explorer.handle_orchestrator_message(
        OrchestratorMessage::GenerateResourceRequest { to_generate: BasicResourceType::Oxygen },
        0,
    );
    assert_eq!(
        reply,
        cont(vec![planet(ToPlanet::GenerateResourceRequest {
            explorer_id: EXPLORER_ID,
            resource: BasicResourceType::Oxygen,
        })])
    );
    assert_eq!(explorer.needs().get(), [0, 0, 100, 0, 0, 0, 0, 0, 0, 0]);
    let reply = explorer.handle_planet_message(PlanetMessage::GenerateResourceResponse {
        resource: Some(BasicResourceType::Oxygen),
    });
    assert_eq!(
        reply,
        cont(vec![
            Action::StoreInBag,
            orch(ToOrchestrator::GenerateResourceResponse { explorer_id: EXPLORER_ID, generated: Ok(()) }),
        ])
    );
    assert_eq!(explorer.performance(), 10);
    assert_eq!(explorer.needs().get(), [0, 0, 99, 0, 0, 0, 0, 0, 0, 0]);
    let reply = explorer.handle_planet_message(PlanetMessage::GenerateResourceResponse { resource: None });
    assert_eq!(
        reply,
        cont(vec![orch(ToOrchestrator::GenerateResourceResponse { explorer_id: EXPLORER_ID, generated: Ok(()) })])
    );
}

#[test]
fn manual_combination_waits_for_the_bag() {
    let mut explorer: Explorer<()> = Explorer::new(EXPLORER_ID, STEP, 0);
    move_to(&mut explorer, PLANET_ID);
    let reply = explorer.handle_orchestrator_message(
        OrchestratorMessage::CombineResourceRequest { to_generate: ComplexResourceType::Water },
        0,
    );
    assert_eq!(
        reply,
        Reply { actions: vec![], outcome: Outcome::AwaitCombination(ComplexResourceType::Water) }
    );
    assert_eq!(explorer.needs().get(), [0, 1, 1, 0, 0, 100, 0, 0, 0, 0]);
    let reply = explorer.combination_attempted(ComplexResourceType::Water, false);
    assert_eq!(
        reply,
        cont(vec![orch(ToOrchestrator::CombineResourceResponse {
            explorer_id: EXPLORER_ID,
            generated: Err("Explorer did not have ingredients".to_string()),
        })])
    );
    assert!(explorer.can_record_combination(ComplexResourceType::Water));
    let reply = explorer.combination_attempted(ComplexResourceType::Water, true);
    assert_eq!(
        reply,
        cont(vec![planet(ToPlanet::CombineResourceRequest {
            explorer_id: EXPLORER_ID,
            complex: ComplexResourceType::Water,
        })])
    );
    assert_eq!(explorer.needs().get(), [0, 2, 2, 0, 0, 100, 0, 0, 0, 0]);
    // Obtaining the target lowers its need by one.
    let reply = explorer.handle_planet_message(PlanetMessage::CombineResourceResponse {
        complex_response: Ok(ComplexResourceType::Water),
    });
    assert_eq!(
        reply,
        cont(vec![
            Action::StoreInBag,
            orch(ToOrchestrator::CombineResourceResponse { explorer_id: EXPLORER_ID, generated: Ok(()) }),
        ])
    );
    assert_eq!(explorer.performance(), 15);
    assert_eq!(explorer.needs().get(), [0, 2, 2, 0, 0, 99, 0, 0, 0, 0]);
}

#[test]
fn ai_partner_order_resets_needs() {
    let mut explorer: Explorer<()> = Explorer::new(EXPLORER_ID, STEP, 0);
    explorer.handle_orchestrator_message(
        OrchestratorMessage::CombineResourceRequest { to_generate: ComplexResourceType::Diamond },
        0,
    );
    assert_eq!(explorer.needs().get(), [2, 0, 0, 0, 100, 0, 0, 0, 0, 0]);
    let reply = explorer.handle_orchestrator_message(
        OrchestratorMessage::CombineResourceRequest { to_generate: ComplexResourceType::AIPartner },
        0,
    );
    assert_eq!(reply.outcome, Outcome::AwaitCombination(ComplexResourceType::AIPartner));
    assert_eq!(explorer.needs().get(), [3, 3, 3, 3, 3, 3, 3, 3, 4, 10]);
}

#[test]
fn failed_combination_gives_ingredients_back() {
    let mut explorer: Explorer<()> = Explorer::new(EXPLORER_ID, STEP, 0);
    move_to(&mut explorer, PLANET_ID);
    let reply = explorer.handle_planet_message(PlanetMessage::CombineResourceResponse {
        complex_response: Err((
            "no energy".to_string(),
            ResourceType::Basic(BasicResourceType::Hydrogen),
            ResourceType::Basic(BasicResourceType::Oxygen),
        )),
    });
    assert_eq!(
        reply,
        cont(vec![
            Action::StoreInBag,
            orch(ToOrchestrator::CombineResourceResponse {
                explorer_id: EXPLORER_ID,
                generated: Err("no energy".to_string()),
            }),
        ])
    );
    assert_eq!(explorer.performance(), 0);
    assert_eq!(explorer.needs().get(), [3, 2, 2, 3, 3, 3, 3, 3, 4, 10]);
}

#[test]
fn ai_mode_keeps_planet_news_to_itself() {
    let mut explorer: Explorer<()> = Explorer::new(EXPLORER_ID, STEP, 0);
    start_and_move(&mut explorer, EXPLORER_ID, PLANET_ID);
    let reply = explorer.handle_planet_message(PlanetMessage::GenerateResourceResponse {
        resource: Some(BasicResourceType::Carbon),
    });
    assert_eq!(reply, cont(vec![Action::StoreInBag]));
    let reply = explorer.handle_planet_message(PlanetMessage::Stopped);
    assert_eq!(reply, cont(vec![]));
    let reply = explorer.handle_planet_message(PlanetMessage::AvailableEnergyCellResponse { available_cells: 3 });
    assert_eq!(reply, cont(vec![]));
    assert_eq!(explorer.performance(), 10);
}

#[test]
fn lonely_explorer_asks_for_neighbors_again() {
    let mut explorer: Explorer<()> = Explorer::new(EXPLORER_ID, STEP, 0);
    move_to(&mut explorer, PLANET_ID);
    let actions = explorer.execute_intention(Intention::Move(None));
    assert_eq!(
        actions,
        vec![orch(ToOrchestrator::NeighborsRequest { explorer_id: EXPLORER_ID, current_planet_id: PLANET_ID })]
    );
    explorer.handle_orchestrator_message(OrchestratorMessage::NeighborsResponse { neighbors: vec![] }, 0);
    let actions = explorer.execute_intention(Intention::Move(None));
    assert!(actions.is_empty());
    let actions = explorer.execute_intention(Intention::Generate(None));
    assert!(actions.is_empty());
}

#[test]
fn nothing_reaches_a_planet_before_arrival() {
    let mut explorer: Explorer<()> = Explorer::new(EXPLORER_ID, STEP, 0);
    let actions = explorer.execute_intention(Intention::Generate(Some(BasicResourceType::Carbon)));
    assert!(actions.is_empty());
    let actions = explorer.execute_intention(Intention::Move(Some(4)));
    assert!(actions.is_empty());
    let reply = explorer.handle_orchestrator_message(OrchestratorMessage::SupportedResourceRequest, 0);
    assert_eq!(reply, cont(vec![]));
}

#[test]
fn performance_overflow_is_refused() {
    let explorer: Explorer<()> = Explorer::new(EXPLORER_ID, STEP, 0);
    let msg = PlanetMessage::GenerateResourceResponse { resource: Some(BasicResourceType::Carbon) };
    assert!(explorer.can_handle_planet(&msg));
    let mut ai: Explorer<()> = Explorer::new(EXPLORER_ID, STEP, 0);
    ai.handle_orchestrator_message(OrchestratorMessage::StartExplorerAI, 0);
    assert!(!ai.can_handle_orchestrator(&OrchestratorMessage::SupportedResourceRequest));
}

#[test]
fn manual_lists_wait_for_the_report() {
    let mut explorer: Explorer<()> = Explorer::new(EXPLORER_ID, STEP, 0);
    move_to(&mut explorer, PLANET_ID);
    let reply = explorer.handle_planet_message(PlanetMessage::SupportedResourceResponse {
        resource_list: vec![BasicResourceType::Oxygen],
    });
    assert_eq!(
        reply,
        Reply {
            actions: vec![orch(ToOrchestrator::SupportedResourceResult {
                explorer_id: EXPLORER_ID,
                supported_resources: vec![BasicResourceType::Oxygen],
            })],
            outcome: Outcome::AwaitDelivery,
        }
    );
    assert!(!explorer.planet_stats().has_resources());
    let busy = PlanetMessage::Stopped;
    assert!(!explorer.can_handle_planet(&busy));
    assert_eq!(explorer.delivered(), cont(vec![]));
    assert_eq!(explorer.planet_stats().resources(), Some(&vec![BasicResourceType::Oxygen]));
    let reply = explorer.handle_planet_message(PlanetMessage::SupportedCombinationResponse {
        combination_list: vec![ComplexResourceType::Robot],
    });
    assert_eq!(reply.outcome, Outcome::AwaitDelivery);
    assert!(!explorer.planet_stats().has_combinations());
    assert_eq!(explorer.delivered(), cont(vec![]));
    assert_eq!(explorer.planet_stats().combinations(), Some(&vec![ComplexResourceType::Robot]));
    assert_eq!(explorer.delivered(), cont(vec![]));
}

#[test]
fn moves_wait_for_the_report() {
    let mut explorer: Explorer<()> = Explorer::new(EXPLORER_ID, STEP, 0);
    let reply = explorer.handle_orchestrator_message(
        OrchestratorMessage::MoveToPlanet { sender_to_new_planet: Some(()), planet_id: PLANET_ID },
        0,
    );
    assert_eq!(
        reply,
        Reply {
            actions: vec![orch(ToOrchestrator::MovedToPlanetResult { explorer_id: EXPLORER_ID, planet_id: PLANET_ID })],
            outcome: Outcome::AwaitDelivery,
        }
    );
    assert_eq!(explorer.planet_stats().id(), None);
    assert!(!explorer.can_handle_orchestrator(&OrchestratorMessage::BagContentRequest));
    let reply = explorer.delivered();
    assert_eq!(
        reply,
        cont(vec![orch(ToOrchestrator::NeighborsRequest { explorer_id: EXPLORER_ID, current_planet_id: PLANET_ID })])
    );
    assert_eq!(explorer.planet_stats().id(), Some(PLANET_ID));
    assert!(explorer.can_handle_orchestrator(&OrchestratorMessage::BagContentRequest));
}

#[test]
fn repeated_resources_in_a_planet_list_are_refused() {
    let explorer: Explorer<()> = Explorer::new(EXPLORER_ID, STEP, 0);
    let twice = PlanetMessage::SupportedResourceResponse {
        resource_list: vec![BasicResourceType::Carbon, BasicResourceType::Oxygen, BasicResourceType::Carbon],
    };
    assert!(!explorer.can_handle_planet(&twice));
    let once = PlanetMessage::SupportedCombinationResponse {
        combination_list: vec![ComplexResourceType::Water, ComplexResourceType::Life],
    };
    assert!(explorer.can_handle_planet(&once));
    let twice = PlanetMessage::SupportedCombinationResponse {
        combination_list: vec![ComplexResourceType::Life, ComplexResourceType::Life],
    };
    assert!(!explorer.can_handle_planet(&twice));
}

#[test]
fn own_combinations_depend_on_the_bag() {
    let mut explorer: Explorer<()> = Explorer::new(EXPLORER_ID, STEP, 0);
    move_to(&mut explorer, PLANET_ID);
    let intention = explorer.combination_built(ComplexResourceType::Dolphin, false);
    assert_eq!(intention, Intention::Combine(None));
    assert_eq!(explorer.needs().get(), [3, 3, 3, 3, 3, 3, 3, 3, 4, 10]);
    let intention = explorer.combination_built(ComplexResourceType::Dolphin, true);
    assert_eq!(intention, Intention::Combine(Some(ComplexResourceType::Dolphin)));
    assert_eq!(explorer.needs().get(), [3, 3, 3, 3, 3, 4, 4, 3, 4, 10]);
    // Giving both ingredients back restores the needs.
    explorer.handle_planet_message(PlanetMessage::CombineResourceResponse {
        complex_response: Err((
            "no energy".to_string(),
            ResourceType::Complex(ComplexResourceType::Water),
            ResourceType::Complex(ComplexResourceType::Life),
        )),
    });
    assert_eq!(explorer.needs().get(), [3, 3, 3, 3, 3, 3, 3, 3, 4, 10]);
}

#[test]
fn ticks_are_ignored_in_manual_mode() {
    let mut explorer: Explorer<()> = Explorer::new(EXPLORER_ID, STEP, 0);
    move_to(&mut explorer, PLANET_ID);
    assert!(explorer.tick(&ResourceVector::zeros(), STEP).is_none());
    explorer.handle_orchestrator_message(OrchestratorMessage::StartExplorerAI, 0);
    assert!(explorer.tick(&ResourceVector::zeros(), STEP).is_some());
}

#[test]
fn a_new_explorer_knows_no_planet() {
    let mut explorer: Explorer<()> = Explorer::new(EXPLORER_ID, STEP, 0);
    explorer.handle_orchestrator_message(OrchestratorMessage::StartExplorerAI, 0);
    move_to(&mut explorer, PLANET_ID);
    let reply = explorer.handle_orchestrator_message(OrchestratorMessage::SupportedResourceRequest, 0);
    assert_eq!(
        reply,
        cont(vec![orch(ToOrchestrator::SupportedResourceResult {
            explorer_id: EXPLORER_ID,
            supported_resources: vec![],
        })])
    );
}
