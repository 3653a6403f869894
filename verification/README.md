# explorer_nico

The decision logic of the "Nico" explorer of the space-exploration game,
with its contracts and proofs.

- `src/` — the library:
  - `resources.rs`: the ten resources, their order, value and recipes; the
    bag, crafting and capability vectors.
  - `vector.rs`: `ResourceVector`, ten counts, and its operations.
  - `galaxy_map.rs`: what the explorer knows of each planet.
  - `planet_stats.rs`: what it knows of the planet it stands on.
  - `brain.rs`: needs, performance, and the choice of the next intention.
  - `genetics.rs`: the gene-driven brain and its random genome.
  - `messages.rs`, `explorer.rs`: the explorer as a state machine from
    messages to actions; an update that follows a report waits until the
    report has been delivered.
  - `laws.rs`: properties that span several operations.
- `tests/` — scenario and unit tests.
- `app/` — the runner: channels, clock, the bag of actual resources, and
  the random draws (softmax), which use floating point.

A move made in manual mode asks the new planet nothing: the planet is asked
what it generates and combines only when AI mode starts, or on a move made
in AI mode. The tests in `tests/protocol.rs` hold the explorer to this.
