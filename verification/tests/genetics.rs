use explorer_nico::genetics::{random_genome, Brain as GeneticBrain, Decision};
use explorer_nico::planet_stats::PlanetStats;
use explorer_nico::resources::{BasicResourceType, ComplexResourceType, ResourceType};

const STEP: u128 = 1_000;

fn stats() -> PlanetStats<()> {
    let mut stats = PlanetStats::new();
    stats.update_planet(1, ());
    stats.update_neighbors(vec![7, 8, 9]);
    stats.update_resources(vec![BasicResourceType::Carbon, BasicResourceType::Oxygen]);
    stats.update_combinations(vec![ComplexResourceType::Water, ComplexResourceType::Life]);
    stats
}

#[test]
fn genes_choose_generation() {
    let mut brain = GeneticBrain::with_genome(vec![5, 9], STEP, 0);
    let stats = stats();
    assert_eq!(brain.current_gene(), 5);
    assert_eq!(brain.decide(&stats, false, 0), Decision::Generate(Some(BasicResourceType::Oxygen)));
    assert_eq!(brain.current_gene(), 9);
    assert_eq!(brain.decide(&stats, false, 0), Decision::Generate(Some(BasicResourceType::Oxygen)));
    assert_eq!(brain.current_gene(), 5);
}

#[test]
fn low_genes_move() {
    let mut brain = GeneticBrain::with_genome(vec![10, 1], STEP, 0);
    let stats = stats();
    assert_eq!(brain.decide(&stats, false, 0), Decision::Move(Some(8)));
    assert_eq!(brain.decide(&stats, false, 0), Decision::Move(Some(8)));
    brain.got_blocked();
    assert!(brain.blocked());
    // Blocked: the action number shifts by one, and 10 % 10 + 1 = 1
    // generates, since a blocked explorer does not move.
    assert_eq!(brain.decide(&stats, false, 0), Decision::Generate(Some(BasicResourceType::Carbon)));
    // Gene 1 gives 1 % 10 + 1 = 2: generate too.
    assert_eq!(brain.decide(&stats, false, 0), Decision::Generate(Some(BasicResourceType::Oxygen)));
    brain.unblock();
    assert!(!brain.blocked());
}

#[test]
fn matching_combinations_are_preferred() {
    let mut brain = GeneticBrain::with_genome(vec![12, 13], STEP, 0);
    let stats = stats();
    for _ in 0..5 {
        brain.insert_resource(ResourceType::Basic(BasicResourceType::Carbon), 0);
    }
    assert_eq!(brain.performance(), 50);
    assert!(brain.can_decide(true, 0));
    assert_eq!(
        brain.decide(&stats, true, 0),
        Decision::Combine(vec![ComplexResourceType::Life, ComplexResourceType::Water])
    );
    assert_eq!(
        brain.decide(&stats, true, 0),
        Decision::Combine(vec![ComplexResourceType::Water, ComplexResourceType::Life])
    );
    // Without a match, 12 % 15 = 12 falls back to 12 % 10 = 2: generate.
    assert_eq!(brain.decide(&stats, false, 0), Decision::Generate(Some(BasicResourceType::Carbon)));
    brain.insert_resource(ResourceType::Complex(ComplexResourceType::Water), 0);
    assert_eq!(brain.performance(), 110);
}

#[test]
fn failures_and_idleness_make_it_move() {
    let mut brain = GeneticBrain::with_genome(vec![5], STEP, 0);
    let stats = stats();
    brain.on_no_action();
    assert!(brain.move_intention());
    assert_eq!(brain.decide(&stats, false, 0), Decision::Move(Some(9)));
    brain.on_move(10);
    assert!(!brain.move_intention());
    assert_eq!(brain.decide(&stats, false, 10 + 6 * STEP), Decision::Generate(Some(BasicResourceType::Oxygen)));
    assert_eq!(brain.decide(&stats, false, 11 + 6 * STEP), Decision::Move(Some(9)));
    let mut multiple_of_three = GeneticBrain::with_genome(vec![6], STEP, 0);
    multiple_of_three.on_no_action();
    assert!(!multiple_of_three.move_intention());
}

#[test]
fn unknown_planet_gives_nothing() {
    let mut brain = GeneticBrain::with_genome(vec![3, 0, 20], STEP, 0);
    let stats: PlanetStats<()> = PlanetStats::new();
    assert_eq!(brain.decide(&stats, false, 0), Decision::Generate(None));
    assert_eq!(brain.decide(&stats, false, 0), Decision::Move(None));
    assert_eq!(brain.genome(), &vec![3, 0, 20]);
    assert!(brain.can_insert(ResourceType::Basic(BasicResourceType::Carbon)));
    assert!(!brain.can_insert(ResourceType::Complex(ComplexResourceType::Water)));
}

#[test]
fn fresh_genomes_hold_sixty_four_small_genes() {
    let genome = random_genome();
    assert_eq!(genome.len(), 64);
    assert!(genome.iter().all(|g| *g < 128));
    let brain = GeneticBrain::new(STEP, 0);
    assert_eq!(brain.genome().len(), 64);
    assert!(brain.genome().iter().all(|g| *g < 128));
}
