use explorer_nico::brain::{Brain, Intention, Thought};
use explorer_nico::galaxy_map::{GalaxyMap, PlanetInfo};
use explorer_nico::planet_stats::PlanetStats;
use explorer_nico::resources::{
    basic_resource_at, build_bag_vector, build_capabilities, build_crafting_vector,
    complex_resource_at, resource_at, resource_index, resource_value, BasicResourceType,
    ComplexResourceType, ResourceType,
};
use explorer_nico::vector::ResourceVector;

const STEP: u128 = 500_000_000;

fn all_resources() -> Vec<ResourceType> {
    vec![
        ResourceType::Basic(BasicResourceType::Carbon),
        ResourceType::Basic(BasicResourceType::Hydrogen),
        ResourceType::Basic(BasicResourceType::Oxygen),
        ResourceType::Basic(BasicResourceType::Silicon),
        ResourceType::Complex(ComplexResourceType::Diamond),
        ResourceType::Complex(ComplexResourceType::Water),
        ResourceType::Complex(ComplexResourceType::Life),
        ResourceType::Complex(ComplexResourceType::Robot),
        ResourceType::Complex(ComplexResourceType::Dolphin),
        ResourceType::Complex(ComplexResourceType::AIPartner),
    ]
}

#[test]
fn resource_table_round_trips() {
    for (i, r) in all_resources().into_iter().enumerate() {
        assert_eq!(resource_index(r), i);
        assert_eq!(resource_at(i), r);
    }
    assert_eq!(basic_resource_at(3), BasicResourceType::Silicon);
    assert_eq!(complex_resource_at(9), ComplexResourceType::AIPartner);
}

#[test]
fn resource_values() {
    let values: Vec<u64> = all_resources().into_iter().map(resource_value).collect();
    assert_eq!(values, vec![10, 10, 10, 10, 15, 15, 15, 15, 30, 30]);
}

#[test]
fn bag_vector_sums_amounts() {
    let amounts = vec![
        (ResourceType::Basic(BasicResourceType::Oxygen), 2),
        (ResourceType::Complex(ComplexResourceType::Life), 1),
        (ResourceType::Basic(BasicResourceType::Oxygen), 3),
    ];
    assert_eq!(build_bag_vector(&amounts).get(), [0, 0, 5, 0, 0, 0, 1, 0, 0, 0]);
    assert_eq!(build_bag_vector(&vec![]).get(), [0; 10]);
}

#[test]
fn crafting_vector_follows_recipes() {
    let empty = ResourceVector::zeros();
    assert_eq!(build_crafting_vector(&empty).get(), [1, 1, 1, 1, 0, 0, 0, 0, 0, 0]);
    let one_carbon = ResourceVector::new([1, 0, 0, 0, 0, 0, 0, 0, 0, 0]);
    assert_eq!(build_crafting_vector(&one_carbon).get()[4], 0);
    let bag = ResourceVector::new([2, 1, 1, 1, 1, 1, 1, 1, 0, 0]);
    assert_eq!(build_crafting_vector(&bag).get(), [1; 10]);
    let water_and_life = ResourceVector::new([0, 0, 0, 0, 0, 1, 1, 0, 0, 0]);
    assert_eq!(build_crafting_vector(&water_and_life).get(), [1, 1, 1, 1, 0, 0, 0, 0, 1, 0]);
}

#[test]
fn capabilities_flag_listed_resources() {
    let caps = build_capabilities(
        &vec![BasicResourceType::Hydrogen, BasicResourceType::Hydrogen],
        &vec![ComplexResourceType::Dolphin],
    );
    assert_eq!(caps.get(), [0, 1, 0, 0, 0, 0, 0, 0, 1, 0]);
}

#[test]
fn vector_arithmetic() {
    let a = ResourceVector::new([1, 2, 3, 4, 5, 6, 7, 8, 9, 10]);
    let b = ResourceVector::new([1, 0, 1, 0, 1, 0, 1, 0, 1, 0]);
    assert_eq!(a.mul(b).get(), [1, 0, 3, 0, 5, 0, 7, 0, 9, 0]);
    assert_eq!(a.dot(&b), 25);
    assert_eq!(a.dot(&a), 385);
    assert!(ResourceVector::zeros().is_zero());
    assert!(!b.is_zero());
}

#[test]
fn max_index_prefers_the_last_maximum() {
    assert_eq!(ResourceVector::new([1, 9, 3, 9, 0, 0, 0, 0, 0, 0]).max_index(), 3);
    assert_eq!(ResourceVector::zeros().max_index(), 9);
    assert_eq!(ResourceVector::new([7, 0, 0, 0, 0, 0, 0, 0, 0, 0]).max_index(), 0);
}

#[test]
fn clearing_and_setting_halves() {
    let mut v = ResourceVector::new([5; 10]);
    v.clear_basic();
    assert_eq!(v.get(), [0, 0, 0, 0, 5, 5, 5, 5, 5, 5]);
    v.set_basic(&vec![BasicResourceType::Silicon]);
    assert_eq!(v.get(), [0, 0, 0, 1, 5, 5, 5, 5, 5, 5]);
    v.clear_complex();
    assert_eq!(v.get(), [0, 0, 0, 1, 0, 0, 0, 0, 0, 0]);
    v.set_complex(&vec![ComplexResourceType::Water, ComplexResourceType::AIPartner]);
    assert_eq!(v.get(), [0, 0, 0, 1, 0, 1, 0, 0, 0, 1]);
    v.set_basic(&vec![]);
    assert_eq!(v.get(), [0, 0, 0, 0, 0, 1, 0, 0, 0, 1]);
}

#[test]
fn needs_for_targets() {
    assert_eq!(
        ResourceVector::generate_complex_needs(ComplexResourceType::Robot).get(),
        [1, 1, 1, 1, 0, 1, 1, 100, 0, 0]
    );
    assert_eq!(
        ResourceVector::generate_resource_needs(ResourceType::Basic(BasicResourceType::Hydrogen)).get(),
        [0, 100, 0, 0, 0, 0, 0, 0, 0, 0]
    );
    assert_eq!(
        ResourceVector::generate_resource_needs(ResourceType::Complex(ComplexResourceType::AIPartner)).get(),
        [2, 1, 1, 1, 0, 1, 1, 1, 0, 100]
    );
}

#[test]
fn decreasing_needs() {
    let mut v = ResourceVector::new([0, 2, 0, 0, 100, 3, 0, 0, 0, 5]);
    v.decrease_need(ResourceType::Basic(BasicResourceType::Carbon));
    v.decrease_need(ResourceType::Basic(BasicResourceType::Hydrogen));
    v.decrease_need(ResourceType::Complex(ComplexResourceType::Diamond));
    v.decrease_need(ResourceType::Complex(ComplexResourceType::Water));
    v.decrease_need(ResourceType::Complex(ComplexResourceType::AIPartner));
    v.decrease_need(ResourceType::Complex(ComplexResourceType::Life));
    assert_eq!(v.get(), [0, 1, 0, 0, 99, 2, 0, 0, 0, 4]);
}

#[test]
fn increasing_needs_follows_recipes() {
    let mut v = ResourceVector::zeros();
    v.increase_needs(ComplexResourceType::Diamond);
    assert_eq!(v.get(), [2, 0, 0, 0, 0, 0, 0, 0, 0, 0]);
    v.increase_needs(ComplexResourceType::AIPartner);
    v.increase_needs(ComplexResourceType::Dolphin);
    v.increase_needs(ComplexResourceType::Robot);
    v.increase_needs(ComplexResourceType::Life);
    v.increase_needs(ComplexResourceType::Water);
    assert_eq!(v.get(), [3, 1, 1, 1, 1, 2, 2, 1, 0, 0]);
}

#[test]
fn galaxy_map_records_planets() {
    let mut map = GalaxyMap::new();
    assert_eq!(map.planet_capabilities(4).get(), [0; 10]);
    assert!(map.planet_neighbors(4).is_empty());
    map.set_planet_basic_resources(4, vec![BasicResourceType::Oxygen]);
    map.set_planet_complex_resources(4, vec![ComplexResourceType::Life, ComplexResourceType::Diamond]);
    map.set_planet_neighbors(4, vec![5, 6]);
    assert_eq!(map.planet_capabilities(4).get(), [0, 0, 1, 0, 1, 0, 1, 0, 0, 0]);
    assert_eq!(map.planet_neighbors(4), vec![5, 6]);
    assert_eq!(map.planet_supported_resources(4), vec![BasicResourceType::Oxygen]);
    assert_eq!(
        map.planet_supported_combinations(4),
        vec![ComplexResourceType::Diamond, ComplexResourceType::Life]
    );
    map.update_planet(4, vec![BasicResourceType::Carbon], vec![], vec![7]);
    assert_eq!(map.planet_capabilities(4).get(), [1, 0, 0, 0, 0, 0, 0, 0, 0, 0]);
    assert_eq!(map.planet_neighbors(4), vec![7]);
    assert_eq!(map.planet_capabilities(5).get(), [0; 10]);
}

#[test]
fn planet_info_holds_one_planet() {
    let mut info = PlanetInfo::new();
    info.set_neighbors(vec![1]);
    info.set_basic_resources(vec![BasicResourceType::Carbon]);
    info.set_complex_resources(vec![ComplexResourceType::Water]);
    assert_eq!(info.capabilities().get(), [1, 0, 0, 0, 0, 1, 0, 0, 0, 0]);
    assert_eq!(info.neighbors(), &vec![1]);
}

#[test]
fn planet_stats_forget_on_move() {
    let mut stats: PlanetStats<u8> = PlanetStats::new();
    assert_eq!(stats.id(), None);
    assert!(!stats.has_sender());
    stats.update_planet(3, 42);
    stats.update_neighbors(vec![4]);
    stats.update_resources(vec![BasicResourceType::Carbon]);
    stats.update_combinations(vec![ComplexResourceType::Water]);
    assert!(stats.has_neighbors());
    assert_eq!(stats.sender(), Some(&42));
    assert_eq!(stats.neighbors(), Some(&vec![4]));
    assert_eq!(stats.resources(), Some(&vec![BasicResourceType::Carbon]));
    assert_eq!(stats.combinations(), Some(&vec![ComplexResourceType::Water]));
    stats.update_planet(5, 43);
    assert_eq!(stats.id(), Some(5));
    assert!(!stats.has_neighbors());
    assert_eq!(stats.resources(), None);
    assert_eq!(stats.combinations(), None);
}

#[test]
fn brain_scores_resources_and_needs() {
    let mut brain = Brain::new(STEP, 0);
    assert_eq!(brain.needs().get(), [3, 3, 3, 3, 3, 3, 3, 3, 4, 10]);
    brain.insert_resource(ResourceType::Complex(ComplexResourceType::Dolphin));
    brain.insert_resource(ResourceType::Basic(BasicResourceType::Carbon));
    assert_eq!(brain.performance(), 40);
    assert_eq!(brain.needs().get(), [2, 3, 3, 3, 3, 3, 3, 3, 3, 10]);
    brain.reinsert_resource(ResourceType::Complex(ComplexResourceType::AIPartner));
    assert_eq!(brain.performance(), 40);
    assert_eq!(brain.needs().get(), [2, 3, 3, 3, 3, 3, 3, 3, 3, 9]);
    brain.on_combination_request(ComplexResourceType::Life);
    assert_eq!(brain.needs().get(), [3, 3, 3, 3, 3, 4, 3, 3, 3, 9]);
    brain.set_needs(ResourceType::Basic(BasicResourceType::Silicon));
    assert_eq!(brain.needs().get(), [0, 0, 0, 100, 0, 0, 0, 0, 0, 0]);
    brain.reset_needs();
    assert_eq!(brain.needs().get(), [3, 3, 3, 3, 3, 3, 3, 3, 4, 10]);
    assert!(brain.can_record_combination(ComplexResourceType::Diamond));
}

#[test]
fn brain_times_out_after_six_steps() {
    let mut brain = Brain::new(STEP, 1_000);
    assert!(!brain.is_timed_out(1_000 + 6 * STEP));
    assert!(brain.is_timed_out(1_000 + 6 * STEP + 1));
    assert!(!brain.is_timed_out(0));
    brain.on_move(10 * STEP);
    assert!(!brain.is_timed_out(11 * STEP));
}

#[test]
fn timed_out_brain_plans_a_move() {
    let mut brain = Brain::new(STEP, 0);
    brain.set_planet_basic_resources(1, vec![BasicResourceType::Carbon]);
    brain.set_planet_neighbors(1, vec![2, 3]);
    brain.set_planet_basic_resources(2, vec![BasicResourceType::Oxygen]);
    brain.set_planet_basic_resources(3, vec![BasicResourceType::Carbon, BasicResourceType::Silicon]);
    // On time, the planet's carbon is wanted.
    match brain.think(1, &ResourceVector::zeros(), STEP) {
        Thought::SampleResource(v) => assert_eq!(v.get(), [3, 0, 0, 0, 0, 0, 0, 0, 0, 0]),
        other => panic!("unexpected {other:?}"),
    }
    // Too late: both neighbors are known, so they are scored.
    match brain.think(1, &ResourceVector::zeros(), 7 * STEP) {
        Thought::SampleNeighbor(scores) => {
            assert_eq!(scores, vec![(2, 3), (3, 6)]);
            assert_eq!(Brain::neighbor_from_sample(&scores, Some(1)), 3);
            assert_eq!(Brain::neighbor_from_sample(&scores, None), 2);
        },
        other => panic!("unexpected {other:?}"),
    }
    // An unknown neighbor is explored first.
    brain.set_planet_neighbors(1, vec![2, 9, 3]);
    match brain.think(1, &ResourceVector::zeros(), 7 * STEP) {
        Thought::Act(i) => assert_eq!(i, Intention::Move(Some(9))),
        other => panic!("unexpected {other:?}"),
    }
    // Without neighbors there is nowhere to go.
    match brain.generate_move_intention(2) {
        Thought::Act(i) => assert_eq!(i, Intention::Move(None)),
        other => panic!("unexpected {other:?}"),
    }
}

#[test]
fn bag_enables_combinations() {
    let mut brain = Brain::new(STEP, 0);
    brain.set_planet_complex_resources(1, vec![ComplexResourceType::Water]);
    let bag = ResourceVector::new([0, 1, 1, 0, 0, 0, 0, 0, 0, 0]);
    match brain.think(1, &bag, 0) {
        Thought::SampleResource(v) => assert_eq!(v.get(), [0, 0, 0, 0, 0, 3, 0, 0, 0, 0]),
        other => panic!("unexpected {other:?}"),
    }
    // Without the ingredients the planet offers nothing wanted: move.
    match brain.think(1, &ResourceVector::zeros(), 0) {
        Thought::Act(i) => assert_eq!(i, Intention::Move(None)),
        other => panic!("unexpected {other:?}"),
    }
}

#[test]
fn intentions_for_draws() {
    assert_eq!(Brain::generate_intention(2), Intention::Generate(Some(BasicResourceType::Oxygen)));
    assert_eq!(Brain::generate_intention(7), Intention::Combine(Some(ComplexResourceType::Robot)));
    assert_eq!(Brain::generate_intention(10), Intention::Generate(None));
}

#[test]
fn brain_reports_supported_resources() {
    let mut brain = Brain::new(STEP, 0);
    brain.set_planet_basic_resources(8, vec![BasicResourceType::Oxygen, BasicResourceType::Carbon]);
    brain.set_planet_complex_resources(8, vec![ComplexResourceType::Dolphin]);
    assert_eq!(brain.supported_resources(8), vec![BasicResourceType::Carbon, BasicResourceType::Oxygen]);
    assert_eq!(brain.supported_combinations(8), vec![ComplexResourceType::Dolphin]);
    assert!(brain.supported_resources(9).is_empty());
}

#[test]
fn planet_stats_remove_neighbor() {
    let mut stats: PlanetStats<()> = PlanetStats::new();
    stats.remove_neighbor(Some(3));
    assert_eq!(stats.neighbors(), None);
    stats.update_neighbors(vec![3, 4, 3, 5]);
    stats.remove_neighbor(None);
    assert_eq!(stats.neighbors(), Some(&vec![3, 4, 3, 5]));
    stats.remove_neighbor(Some(3));
    assert_eq!(stats.neighbors(), Some(&vec![4, 5]));
    assert!(!stats.has_resources());
    assert!(!stats.has_combinations());
    stats.update_resources(vec![]);
    assert!(!stats.has_resources());
    stats.update_resources(vec![BasicResourceType::Oxygen]);
    stats.update_combinations(vec![ComplexResourceType::Life]);
    assert!(stats.has_resources());
    assert!(stats.has_combinations());
}

#[test]
fn raising_needs_is_checked_per_ingredient() {
    let v = ResourceVector::new([u64::MAX - 1, 0, 0, 0, 0, 0, u64::MAX, 0, 0, 0]);
    assert!(!v.can_increase_needs(ComplexResourceType::Diamond));
    assert!(v.can_increase_needs(ComplexResourceType::Life));
    assert!(v.can_increase_needs(ComplexResourceType::Water));
    assert!(!v.can_increase_needs(ComplexResourceType::Robot));
    assert!(!v.can_increase_needs(ComplexResourceType::Dolphin));
    assert!(v.can_increase_needs(ComplexResourceType::AIPartner));
}

#[test]
fn dot_products_that_overflow_are_detected() {
    let needs = ResourceVector::new([u64::MAX, 1, 0, 0, 0, 0, 0, 0, 0, 7]);
    assert!(ResourceVector::new([1, 0, 0, 0, 0, 0, 0, 0, 0, 0]).dot_fits(&needs));
    assert!(!ResourceVector::new([1, 1, 0, 0, 0, 0, 0, 0, 0, 0]).dot_fits(&needs));
    assert!(ResourceVector::new([0, 1, 1, 1, 1, 1, 1, 1, 1, 1]).dot_fits(&needs));
    assert_eq!(ResourceVector::new([0, 1, 1, 1, 1, 1, 1, 1, 1, 1]).dot(&needs), 8);
}

#[test]
fn neighbors_scoring_zero_are_avoided() {
    let mut brain = Brain::new(STEP, 0);
    brain.set_needs(ResourceType::Basic(BasicResourceType::Silicon));
    brain.set_planet_neighbors(1, vec![2, 3]);
    brain.set_planet_basic_resources(2, vec![BasicResourceType::Oxygen]);
    brain.set_planet_basic_resources(3, vec![BasicResourceType::Carbon, BasicResourceType::Silicon]);
    match brain.think(1, &ResourceVector::zeros(), 7 * STEP) {
        Thought::SampleNeighbor(scores) => assert_eq!(scores, vec![(3, 100)]),
        other => panic!("unexpected {other:?}"),
    }
    // When every neighbor scores zero, all of them are offered.
    brain.set_planet_neighbors(1, vec![2]);
    match brain.think(1, &ResourceVector::zeros(), 7 * STEP) {
        Thought::SampleNeighbor(scores) => assert_eq!(scores, vec![(2, 0)]),
        other => panic!("unexpected {other:?}"),
    }
}
