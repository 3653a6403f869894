//! Decision logic of the "Nico" explorer: resource bookkeeping, the needs
//! vector that drives its choices, the map of the planets it has heard of,
//! and the message-handling state machine that reacts to the orchestrator
//! and to the planet the explorer stands on.
//!
//! The explorer runs as a state machine: each message (or tick of the
//! clock) goes in, the explorer updates what it knows and answers with the
//! actions its runner performs. Random draws and the bag of actual
//! resources stay with the runner; the library tells it what to draw from
//! and what to do with the outcome.

pub mod config;
pub mod resources;
pub mod vector;
pub mod galaxy_map;
pub mod planet_stats;
pub mod brain;
pub mod messages;
pub mod explorer;
pub mod genetics;
pub mod laws;

pub use brain::Brain;
pub use explorer::Explorer;
pub use galaxy_map::{GalaxyMap, PlanetInfo};
pub use resources::{build_bag_vector, build_crafting_vector, resource_index, resource_value};
