//! The messages the explorer receives and the actions it asks its runner
//! to perform. `S` is whatever carries messages to a planet.
use vstd::prelude::*;

use crate::resources::{BasicResourceType, ComplexResourceType, ResourceType};

verus! {

/// A message from the orchestrator.
#[allow(inconsistent_fields)]
pub enum OrchestratorMessage<S> {
    StartExplorerAI,
    ResetExplorerAI,
    KillExplorer,
    StopExplorerAI,
    MoveToPlanet { sender_to_new_planet: Option<S>, planet_id: u32 },
    CurrentPlanetRequest,
    SupportedResourceRequest,
    SupportedCombinationRequest,
    GenerateResourceRequest { to_generate: BasicResourceType },
    CombineResourceRequest { to_generate: ComplexResourceType },
    BagContentRequest,
    NeighborsResponse { neighbors: Vec<u32> },
}

/// A message from the current planet. The resources it carries are named
/// by their type; the runner keeps the resources themselves.
pub enum PlanetMessage {
    SupportedResourceResponse { resource_list: Vec<BasicResourceType> },
    SupportedCombinationResponse { combination_list: Vec<ComplexResourceType> },
    GenerateResourceResponse { resource: Option<BasicResourceType> },
    CombineResourceResponse {
        complex_response: Result<ComplexResourceType, (String, ResourceType, ResourceType)>,
    },
    AvailableEnergyCellResponse { available_cells: u32 },
    Stopped,
}

/// A message the explorer sends to the orchestrator.
#[derive(Debug, PartialEq, Eq)]
pub enum ToOrchestrator {
    StartExplorerAIResult { explorer_id: u32 },
    KillExplorerResult { explorer_id: u32 },
    ResetExplorerAIResult { explorer_id: u32 },
    StopExplorerAIResult { explorer_id: u32 },
    MovedToPlanetResult { explorer_id: u32, planet_id: u32 },
    CurrentPlanetResult { explorer_id: u32, planet_id: u32 },
    SupportedResourceResult { explorer_id: u32, supported_resources: Vec<BasicResourceType> },
    SupportedCombinationResult { explorer_id: u32, combination_list: Vec<ComplexResourceType> },
    GenerateResourceResponse { explorer_id: u32, generated: Result<(), String> },
    CombineResourceResponse { explorer_id: u32, generated: Result<(), String> },
    /// The runner attaches the content of the bag.
    BagContentResponse { explorer_id: u32 },
    NeighborsRequest { explorer_id: u32, current_planet_id: u32 },
    TravelToPlanetRequest { explorer_id: u32, current_planet_id: u32, dst_planet_id: u32 },
}

/// A message the explorer sends to its current planet.
#[derive(Clone, Copy, Debug, PartialEq, Eq)]
pub enum ToPlanet {
    SupportedResourceRequest { explorer_id: u32 },
    SupportedCombinationRequest { explorer_id: u32 },
    GenerateResourceRequest { explorer_id: u32, resource: BasicResourceType },
    /// The runner attaches the combination request it built from the bag for `complex`.
    CombineResourceRequest { explorer_id: u32, complex: ComplexResourceType },
}

/// Something the explorer asks its runner to do, in order.
#[derive(Debug, PartialEq, Eq)]
pub enum Action {
    /// Send a message to the orchestrator.
    Orchestrator(ToOrchestrator),
    /// Send a message to the current planet.
    Planet(ToPlanet),
    /// Put the resources that came with the planet's message into the bag.
    StoreInBag,
}

/// How the handling of a message ended.
#[derive(Debug, PartialEq, Eq)]
pub enum Outcome {
    /// Keep running.
    Continue,
    /// The explorer has been killed: stop running.
    Killed,
    /// Handling failed with this error: stop running with it.
    Failed(String),
    /// Try to build a combination request for this resource from the bag,
    /// and report with `combination_attempted`.
    AwaitCombination(ComplexResourceType),
    /// Once every action has been delivered, call `delivered` and carry
    /// out its reply: the explorer's state changes only then.
    AwaitDelivery,
}

/// What handling a message asks of the runner.
#[derive(Debug, PartialEq, Eq)]
pub struct Reply {
    pub actions: Vec<Action>,
    pub outcome: Outcome,
}

} // verus!
