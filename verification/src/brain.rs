//! The explorer's decision maker: what it needs, what it knows of the
//! galaxy, how well it is doing, and what it wants to do next.
use vstd::prelude::*;

use crate::config::{INITIAL_NEEDS, LAST_SUCCESS_TIMEOUT_MULTIPLIER};
use crate::galaxy_map::GalaxyMap;
use crate::resources::{
    basic_at, basic_index, basic_resource_at, build_crafting_vector, complex_at, complex_index,
    complex_resource_at, crafting_flag, recipe, resource_value, spec_resource_value,
    BasicResourceType, ComplexResourceType, ResourceType,
};
use crate::vector::{
    basic_flag, complex_flag, fits_ingredients, is_flags, lemma_mul_flag, spec_add_ingredients,
    spec_decrease_need, spec_dot, spec_is_zero, spec_resource_needs, ResourceVector,
};

verus! {

/// What the explorer wants to do.
#[derive(Clone, Copy, Debug, PartialEq, Eq, Structural)]
pub enum Intention {
    /// Ask the planet to generate a basic resource.
    Generate(Option<BasicResourceType>),
    /// Ask the planet to combine a complex resource.
    Combine(Option<ComplexResourceType>),
    /// Ask the orchestrator to travel to a planet.
    Move(Option<u32>),
}

/// The outcome of thinking: an intention, or the weights of a random draw
/// that the caller makes (a softmax over positive weights).
#[derive(Debug)]
pub enum Thought {
    /// The explorer knows what it wants.
    Act(Intention),
    /// Draw a resource position among these weights, then call `generate_intention`.
    SampleResource(ResourceVector),
    /// Draw one of these neighbors by its score, then call `neighbor_from_sample`.
    SampleNeighbor(Vec<(u32, u64)>),
}

/// Needs of a freshly created explorer.
pub open spec fn spec_initial_needs() -> Seq<u64> {
    seq![3, 3, 3, 3, 3, 3, 3, 3, 4, 10]
}

/// What the explorer would like at each position: need, times whether the
/// planet can make it, times whether the bag allows it.
pub open spec fn spec_possibilities(needs: Seq<u64>, caps: Seq<u64>, bag: Seq<u64>) -> Seq<u64> {
    Seq::new(10, |i: int| (needs[i] * caps[i] * crafting_flag(bag, i)) as u64)
}

/// `k` is the first neighbor about which nothing is known (no capability
/// recorded).
pub open spec fn first_unexplored(g: GalaxyMap, ns: Seq<u32>, k: int) -> bool {
    &&& 0 <= k < ns.len()
    &&& spec_is_zero(g.caps_of(ns[k]))
    &&& forall|j: int| 0 <= j < k ==> !spec_is_zero(#[trigger] g.caps_of(ns[j]))
}

/// Each neighbor in `ns` with its score: how well its capabilities meet
/// the needs.
pub open spec fn neighbor_scores(g: GalaxyMap, needs: Seq<u64>, ns: Seq<u32>) -> Seq<(u32, u64)> {
    Seq::new(ns.len(), |k: int| (ns[k], spec_dot(g.caps_of(ns[k]), needs, 10) as u64))
}

/// A neighbor whose score is above zero.
pub open spec fn scores_above_zero() -> spec_fn((u32, u64)) -> bool {
    |p: (u32, u64)| p.1 > 0
}

/// The neighbors offered to the draw: those scoring above zero, or all of
/// them when none does.
pub open spec fn offered(scores: Seq<(u32, u64)>) -> Seq<(u32, u64)> {
    let positive = scores.filter(scores_above_zero());
    if positive.len() > 0 {
        positive
    } else {
        scores
    }
}

/// The move the explorer plans from `current`, knowing `g` and needing `needs`:
/// stay put without neighbors; go to the first neighbor it knows nothing
/// about; otherwise draw a neighbor by how well its capabilities meet the
/// needs, avoiding those that meet none of them.
pub open spec fn move_thought(g: GalaxyMap, needs: Seq<u64>, current: u32, t: Thought) -> bool {
    let ns = g.neighbors_of(current);
    match t {
        Thought::Act(Intention::Move(None)) => ns.len() == 0,
        Thought::Act(Intention::Move(Some(id))) => exists|k: int|
            #[trigger] first_unexplored(g, ns, k) && ns[k] == id,
        Thought::SampleNeighbor(scores) => {
            &&& ns.len() > 0
            &&& forall|k: int| 0 <= k < ns.len() ==> !spec_is_zero(#[trigger] g.caps_of(ns[k]))
            &&& scores@ == offered(neighbor_scores(g, needs, ns))
        },
        _ => false,
    }
}

/// Scoring the neighbors of `current` stays within a `u64`: when every
/// neighbor has been explored, each one's score fits.
pub open spec fn scores_fit(g: GalaxyMap, needs: Seq<u64>, current: u32) -> bool {
    let ns = g.neighbors_of(current);
    (forall|k: int| 0 <= k < ns.len() ==> !spec_is_zero(#[trigger] g.caps_of(ns[k]))) ==> forall|k: int|
        0 <= k < ns.len() ==> spec_dot(#[trigger] g.caps_of(ns[k]), needs, 10) <= u64::MAX
}

/// Thinking with brain `b` on `current` with bag `bag` at time `now` stays
/// within a `u64`: when it comes to planning a move, the scores fit.
pub open spec fn think_fits(b: Brain, current: u32, bag: Seq<u64>, now: u128) -> bool {
    let poss = spec_possibilities(b.spec_needs(), b.spec_galaxy().caps_of(current), bag);
    b.spec_timed_out(now) || spec_is_zero(poss) ==> scores_fit(b.spec_galaxy(), b.spec_needs(), current)
}

/// The intention that a drawn resource position stands for.
pub open spec fn spec_intention_for(choice: int) -> Intention {
    if 0 <= choice < 4 {
        Intention::Generate(Some(basic_at(choice)))
    } else if 4 <= choice < 10 {
        Intention::Combine(Some(complex_at(choice)))
    } else {
        Intention::Generate(None)
    }
}

/// The explorer's mind.
pub struct Brain {
    needs: ResourceVector,
    galaxy_map: GalaxyMap,
    performance: u64,
    game_step: u128,
    last_success: u128,
}

impl Brain {
    /// How much the explorer needs each resource.
    pub closed spec fn spec_needs(&self) -> Seq<u64> {
        self.needs@
    }

    /// What the explorer knows of the galaxy.
    pub closed spec fn spec_galaxy(&self) -> GalaxyMap {
        self.galaxy_map
    }

    /// The performance score.
    pub closed spec fn spec_performance(&self) -> u64 {
        self.performance
    }

    /// The length of a game step, in nanoseconds.
    pub closed spec fn spec_game_step(&self) -> u128 {
        self.game_step
    }

    /// When the explorer last succeeded (arrived somewhere), in nanoseconds.
    pub closed spec fn spec_last_success(&self) -> u128 {
        self.last_success
    }

    /// The brain's invariant: ten needs, a well-formed map, and a timeout
    /// that fits in a `u128`.
    pub open spec fn wf(&self) -> bool {
        &&& self.spec_needs().len() == 10
        &&& self.spec_galaxy().wf()
        &&& self.spec_game_step() * LAST_SUCCESS_TIMEOUT_MULTIPLIER <= u128::MAX
    }

    /// Too long has passed since the last success.
    pub open spec fn spec_timed_out(&self, now: u128) -> bool {
        let elapsed = if now >= self.spec_last_success() {
            now - self.spec_last_success()
        } else {
            0
        };
        elapsed > self.spec_game_step() * LAST_SUCCESS_TIMEOUT_MULTIPLIER
    }

    /// The brain changed only in its knowledge of the galaxy, and that only
    /// in ways no read can see.
    pub open spec fn unchanged_but_map(&self, other: &Brain) -> bool {
        &&& self.spec_needs() == other.spec_needs()
        &&& self.spec_performance() == other.spec_performance()
        &&& self.spec_game_step() == other.spec_game_step()
        &&& self.spec_last_success() == other.spec_last_success()
        &&& self.spec_galaxy().same_as(&other.spec_galaxy())
    }

    /// An empty brain whose last success is `now`.
    pub fn new(game_step: u128, now: u128) -> (b: Self)
        requires
            game_step * LAST_SUCCESS_TIMEOUT_MULTIPLIER <= u128::MAX,
        ensures
            b.wf(),
            b.spec_needs() == spec_initial_needs(),
            b.spec_performance() == 0,
            b.spec_game_step() == game_step,
            b.spec_last_success() == now,
            b.spec_galaxy().known() == Set::<u32>::empty(),
            forall|id: u32| #[trigger] b.spec_galaxy().caps_of(id) == crate::galaxy_map::no_capabilities(),
            forall|id: u32| #[trigger] b.spec_galaxy().neighbors_of(id) == Seq::<u32>::empty(),
    {
        let b = Brain {
            needs: ResourceVector::new(INITIAL_NEEDS),
            galaxy_map: GalaxyMap::new(),
            performance: 0,
            game_step,
            last_success: now,
        };
        assert(b.needs@ =~= spec_initial_needs());
        b
    }

    /// The performance score.
    pub fn performance(&self) -> (p: u64)
        ensures
            p == self.spec_performance(),
    {
        self.performance
    }

    /// The current needs.
    pub fn needs(&self) -> (n: ResourceVector)
        ensures
            n@ == self.spec_needs(),
    {
        self.needs
    }

    /// The basic resources a planet is known to generate.
    pub fn supported_resources(&mut self, planet: u32) -> (r: Vec<BasicResourceType>)
        requires
            old(self).wf(),
        ensures
            final(self).wf(),
            final(self).spec_galaxy().known() == old(self).spec_galaxy().known().insert(planet),
            final(self).unchanged_but_map(old(self)),
            r@.no_duplicates(),
            forall|k: int, l: int| 0 <= k < l < r@.len() ==> basic_index(#[trigger] r@[k]) < basic_index(#[trigger] r@[l]),
            forall|b: BasicResourceType| r@.contains(b) <==> #[trigger] old(self).spec_galaxy().caps_of(planet)[basic_index(b)] == 1,
    {
        self.galaxy_map.planet_supported_resources(planet)
    }

    /// The complex resources a planet is known to combine.
    pub fn supported_combinations(&mut self, planet: u32) -> (r: Vec<ComplexResourceType>)
        requires
            old(self).wf(),
        ensures
            final(self).wf(),
            final(self).spec_galaxy().known() == old(self).spec_galaxy().known().insert(planet),
            final(self).unchanged_but_map(old(self)),
            r@.no_duplicates(),
            forall|k: int, l: int| 0 <= k < l < r@.len() ==> complex_index(#[trigger] r@[k]) < complex_index(#[trigger] r@[l]),
            forall|c: ComplexResourceType| r@.contains(c) <==> #[trigger] old(self).spec_galaxy().caps_of(planet)[complex_index(c)] == 1,
    {
        self.galaxy_map.planet_supported_combinations(planet)
    }

    /// Sets the needs so that the explorer works towards `res`.
    pub fn set_needs(&mut self, res: ResourceType)
        requires
            old(self).wf(),
        ensures
            final(self).wf(),
            final(self).spec_needs() == spec_resource_needs(res),
            final(self).spec_performance() == old(self).spec_performance(),
            final(self).spec_game_step() == old(self).spec_game_step(),
            final(self).spec_last_success() == old(self).spec_last_success(),
            final(self).spec_galaxy() == old(self).spec_galaxy(),
    {
        self.needs = ResourceVector::generate_resource_needs(res);
    }

    /// Resets the needs to the initial ones.
    pub fn reset_needs(&mut self)
        requires
            old(self).wf(),
        ensures
            final(self).wf(),
            final(self).spec_needs() == spec_initial_needs(),
            final(self).spec_performance() == old(self).spec_performance(),
            final(self).spec_game_step() == old(self).spec_game_step(),
            final(self).spec_last_success() == old(self).spec_last_success(),
            final(self).spec_galaxy() == old(self).spec_galaxy(),
    {
        self.needs = ResourceVector::new(INITIAL_NEEDS);
        assert(self.needs@ =~= spec_initial_needs());
    }

    /// A resource has entered the bag: the performance score grows by its
    /// value and the need for it drops.
    pub fn insert_resource(&mut self, resource: ResourceType)
        requires
            old(self).wf(),
            old(self).spec_performance() + spec_resource_value(resource) <= u64::MAX,
        ensures
            final(self).wf(),
            final(self).spec_performance() == old(self).spec_performance() + spec_resource_value(resource),
            final(self).spec_needs() == spec_decrease_need(old(self).spec_needs(), resource),
            final(self).spec_game_step() == old(self).spec_game_step(),
            final(self).spec_last_success() == old(self).spec_last_success(),
            final(self).spec_galaxy() == old(self).spec_galaxy(),
    {
        self.performance = self.performance + resource_value(resource);
        self.lower_need(resource);
    }

    /// A resource has come back to the bag (a failed combination): the need
    /// for it drops, the performance score stays.
    pub fn reinsert_resource(&mut self, resource: ResourceType)
        requires
            old(self).wf(),
        ensures
            final(self).wf(),
            final(self).spec_performance() == old(self).spec_performance(),
            final(self).spec_needs() == spec_decrease_need(old(self).spec_needs(), resource),
            final(self).spec_game_step() == old(self).spec_game_step(),
            final(self).spec_last_success() == old(self).spec_last_success(),
            final(self).spec_galaxy() == old(self).spec_galaxy(),
    {
        self.lower_need(resource);
    }

    fn lower_need(&mut self, resource: ResourceType)
        requires
            old(self).wf(),
        ensures
            final(self).wf(),
            final(self).spec_performance() == old(self).spec_performance(),
            final(self).spec_needs() == spec_decrease_need(old(self).spec_needs(), resource),
            final(self).spec_game_step() == old(self).spec_game_step(),
            final(self).spec_last_success() == old(self).spec_last_success(),
            final(self).spec_galaxy() == old(self).spec_galaxy(),
    {
        self.needs.decrease_need(resource);
    }

    /// A combination request for `complex` has been built from the bag: one
    /// more unit of each of its ingredients is needed.
    pub fn on_combination_request(&mut self, complex: ComplexResourceType)
        requires
            old(self).wf(),
            fits_ingredients(old(self).spec_needs(), complex),
        ensures
            final(self).wf(),
            final(self).spec_needs() == spec_add_ingredients(old(self).spec_needs(), complex),
            final(self).spec_performance() == old(self).spec_performance(),
            final(self).spec_game_step() == old(self).spec_game_step(),
            final(self).spec_last_success() == old(self).spec_last_success(),
            final(self).spec_galaxy() == old(self).spec_galaxy(),
    {
        self.needs.increase_needs(complex);
    }

    /// Whether a combination request for `complex` can be recorded without
    /// a need overflowing.
    pub fn can_record_combination(&self, complex: ComplexResourceType) -> (b: bool)
        requires
            self.wf(),
        ensures
            b == fits_ingredients(self.spec_needs(), complex),
    {
        self.needs.can_increase_needs(complex)
    }

    /// Records the basic resources of a planet.
    pub fn set_planet_basic_resources(&mut self, planet_id: u32, resources: Vec<BasicResourceType>)
        requires
            old(self).wf(),
        ensures
            final(self).wf(),
            final(self).spec_galaxy().known() == old(self).spec_galaxy().known().insert(planet_id),
            final(self).spec_needs() == old(self).spec_needs(),
            final(self).spec_performance() == old(self).spec_performance(),
            final(self).spec_game_step() == old(self).spec_game_step(),
            final(self).spec_last_success() == old(self).spec_last_success(),
            forall|i: int| 0 <= i < 4 ==> #[trigger] final(self).spec_galaxy().caps_of(planet_id)[i] == basic_flag(resources@, i),
            forall|i: int| 4 <= i < 10 ==> #[trigger] final(self).spec_galaxy().caps_of(planet_id)[i] == old(self).spec_galaxy().caps_of(planet_id)[i],
            final(self).spec_galaxy().neighbors_of(planet_id) == old(self).spec_galaxy().neighbors_of(planet_id),
            forall|id: u32| id != planet_id ==> #[trigger] final(self).spec_galaxy().caps_of(id) == old(self).spec_galaxy().caps_of(id),
            forall|id: u32| id != planet_id ==> #[trigger] final(self).spec_galaxy().neighbors_of(id) == old(self).spec_galaxy().neighbors_of(id),
    {
        self.galaxy_map.set_planet_basic_resources(planet_id, resources);
    }

    /// Records the complex resources of a planet.
    pub fn set_planet_complex_resources(&mut self, planet_id: u32, resources: Vec<ComplexResourceType>)
        requires
            old(self).wf(),
        ensures
            final(self).wf(),
            final(self).spec_galaxy().known() == old(self).spec_galaxy().known().insert(planet_id),
            final(self).spec_needs() == old(self).spec_needs(),
            final(self).spec_performance() == old(self).spec_performance(),
            final(self).spec_game_step() == old(self).spec_game_step(),
            final(self).spec_last_success() == old(self).spec_last_success(),
            forall|i: int| 0 <= i < 4 ==> #[trigger] final(self).spec_galaxy().caps_of(planet_id)[i] == old(self).spec_galaxy().caps_of(planet_id)[i],
            forall|i: int| 4 <= i < 10 ==> #[trigger] final(self).spec_galaxy().caps_of(planet_id)[i] == complex_flag(resources@, i),
            final(self).spec_galaxy().neighbors_of(planet_id) == old(self).spec_galaxy().neighbors_of(planet_id),
            forall|id: u32| id != planet_id ==> #[trigger] final(self).spec_galaxy().caps_of(id) == old(self).spec_galaxy().caps_of(id),
            forall|id: u32| id != planet_id ==> #[trigger] final(self).spec_galaxy().neighbors_of(id) == old(self).spec_galaxy().neighbors_of(id),
    {
        self.galaxy_map.set_planet_complex_resources(planet_id, resources);
    }

    /// Records the neighbors of a planet.
    pub fn set_planet_neighbors(&mut self, planet_id: u32, neighbors: Vec<u32>)
        requires
            old(self).wf(),
        ensures
            final(self).wf(),
            final(self).spec_galaxy().known() == old(self).spec_galaxy().known().insert(planet_id),
            final(self).spec_needs() == old(self).spec_needs(),
            final(self).spec_performance() == old(self).spec_performance(),
            final(self).spec_game_step() == old(self).spec_game_step(),
            final(self).spec_last_success() == old(self).spec_last_success(),
            final(self).spec_galaxy().caps_of(planet_id) == old(self).spec_galaxy().caps_of(planet_id),
            final(self).spec_galaxy().neighbors_of(planet_id) == neighbors@,
            forall|id: u32| id != planet_id ==> #[trigger] final(self).spec_galaxy().caps_of(id) == old(self).spec_galaxy().caps_of(id),
            forall|id: u32| id != planet_id ==> #[trigger] final(self).spec_galaxy().neighbors_of(id) == old(self).spec_galaxy().neighbors_of(id),
    {
        self.galaxy_map.set_planet_neighbors(planet_id, neighbors);
    }

    /// The explorer has moved: its last success is now.
    pub fn on_move(&mut self, now: u128)
        requires
            old(self).wf(),
        ensures
            final(self).wf(),
            final(self).spec_last_success() == now,
            final(self).spec_needs() == old(self).spec_needs(),
            final(self).spec_performance() == old(self).spec_performance(),
            final(self).spec_game_step() == old(self).spec_game_step(),
            final(self).spec_galaxy() == old(self).spec_galaxy(),
    {
        self.last_success = now;
    }

    /// Checks if the last success was too long ago.
    pub fn is_timed_out(&self, now: u128) -> (b: bool)
        requires
            self.wf(),
        ensures
            b == self.spec_timed_out(now),
    {
        let elapsed = now.saturating_sub(self.last_success);
        elapsed > self.game_step * (LAST_SUCCESS_TIMEOUT_MULTIPLIER as u128)
    }

    /// Decides what to do on `current_planet` with a bag holding `bag_vector`
    /// at time `now`. After too long without success, or when nothing the
    /// explorer needs can be made here, it plans a move; otherwise it weighs
    /// each resource by need, by whether the planet makes it and by whether
    /// the bag allows it.
    pub fn think(&mut self, current_planet: u32, bag_vector: &ResourceVector, now: u128) -> (t: Thought)
        requires
            old(self).wf(),
            bag_vector@.len() == 10,
            think_fits(*old(self), current_planet, bag_vector@, now),
        ensures
            final(self).wf(),
            final(self).unchanged_but_map(old(self)),
            ({
                let poss = spec_possibilities(
                    old(self).spec_needs(),
                    old(self).spec_galaxy().caps_of(current_planet),
                    bag_vector@,
                );
                if old(self).spec_timed_out(now) || spec_is_zero(poss) {
                    move_thought(old(self).spec_galaxy(), old(self).spec_needs(), current_planet, t)
                } else {
                    t matches Thought::SampleResource(v) && v@ == poss
                }
            }),
    {
        if self.is_timed_out(now) {
            return self.generate_move_intention(current_planet);
        }
        let ghost g0 = self.galaxy_map;
        let ghost needs = self.needs@;
        let possibilities = self.possibilities(current_planet, bag_vector);
        if possibilities.is_zero() {
            let ghost g1 = self.galaxy_map;
            proof {
                lemma_scores_fit_same(g1, g0, needs, current_planet);
            }
            let t = self.generate_move_intention(current_planet);
            proof {
                lemma_move_thought_same(g1, g0, needs, current_planet, t);
            }
            return t;
        }
        Thought::SampleResource(possibilities)
    }

    /// What the explorer would like at each position on `current_planet`
    /// with a bag holding `bag_vector` (see `spec_possibilities`).
    fn possibilities(&mut self, current_planet: u32, bag_vector: &ResourceVector) -> (v: ResourceVector)
        requires
            old(self).wf(),
            bag_vector@.len() == 10,
        ensures
            final(self).wf(),
            final(self).unchanged_but_map(old(self)),
            v@ == spec_possibilities(old(self).spec_needs(), old(self).spec_galaxy().caps_of(current_planet), bag_vector@),
    {
        let ghost g0 = self.galaxy_map;
        let planet_capabilities = self.galaxy_map.planet_capabilities(current_planet);
        let crafting_vector = build_crafting_vector(bag_vector);
        let ghost needs = self.needs@;
        let ghost caps = planet_capabilities@;
        let ghost cv = crafting_vector@;
        proof {
            assert(g0.caps_of(current_planet).len() == 10 && is_flags(g0.caps_of(current_planet)));
            assert forall|i: int| 0 <= i < 10 implies needs[i] * caps[i] <= needs[i] by {
                assert(caps[i] <= 1);
                lemma_mul_flag(needs[i], caps[i]);
            }
        }
        let weighted = self.needs.mul(planet_capabilities);
        proof {
            assert forall|i: int| 0 <= i < 10 implies weighted@[i] * cv[i] <= weighted@[i] by {
                assert(cv[i] == crafting_flag(bag_vector@, i));
                lemma_mul_flag(weighted@[i], cv[i]);
            }
        }
        let possibilities = weighted.mul(crafting_vector);
        proof {
            let poss = spec_possibilities(needs, caps, bag_vector@);
            assert forall|i: int| 0 <= i < 10 implies #[trigger] possibilities@[i] == poss[i] by {
                assert(possibilities@[i] == needs[i] * caps[i] * cv[i]);
            }
            assert(possibilities@ =~= poss);
        }
        possibilities
    }

    /// Whether thinking on `current_planet` with a bag holding `bag_vector`
    /// at time `now` stays within a `u64` (see `think_fits`).
    pub fn can_think(&mut self, current_planet: u32, bag_vector: &ResourceVector, now: u128) -> (b: bool)
        requires
            old(self).wf(),
            bag_vector@.len() == 10,
        ensures
            final(self).wf(),
            final(self).unchanged_but_map(old(self)),
            b == think_fits(*old(self), current_planet, bag_vector@, now),
    {
        let ghost g0 = self.galaxy_map;
        let ghost needs = self.needs@;
        if !self.is_timed_out(now) {
            let possibilities = self.possibilities(current_planet, bag_vector);
            if !possibilities.is_zero() {
                return true;
            }
        }
        let ghost g1 = self.galaxy_map;
        proof {
            lemma_scores_fit_same(g1, g0, needs, current_planet);
        }
        self.neighbor_scores_fit(current_planet)
    }

    /// Whether scoring the neighbors of `current_planet` stays within a
    /// `u64` (see `scores_fit`).
    pub fn neighbor_scores_fit(&mut self, current_planet: u32) -> (b: bool)
        requires
            old(self).wf(),
        ensures
            final(self).wf(),
            final(self).unchanged_but_map(old(self)),
            b == scores_fit(old(self).spec_galaxy(), old(self).spec_needs(), current_planet),
    {
        let ghost g0 = self.galaxy_map;
        let neighbors = self.galaxy_map.planet_neighbors(current_planet);
        let ghost ns = neighbors@;
        let mut k: usize = 0;
        while k < neighbors.len()
            invariant
                0 <= k <= neighbors.len(),
                neighbors@ == ns,
                ns == g0.neighbors_of(current_planet),
                self.wf(),
                self.unchanged_but_map(old(self)),
                old(self).spec_galaxy() == g0,
                forall|j: int| 0 <= j < k ==> !spec_is_zero(#[trigger] g0.caps_of(ns[j])),
            decreases neighbors.len() - k,
        {
            let cap = self.galaxy_map.planet_capabilities(neighbors[k]);
            if cap.is_zero() {
                assert(spec_is_zero(g0.caps_of(ns[k as int])));
                return true;
            }
            k = k + 1;
        }
        let mut k: usize = 0;
        while k < neighbors.len()
            invariant
                0 <= k <= neighbors.len(),
                neighbors@ == ns,
                ns == g0.neighbors_of(current_planet),
                self.wf(),
                self.unchanged_but_map(old(self)),
                old(self).spec_galaxy() == g0,
                g0.wf(),
                forall|j: int| 0 <= j < ns.len() ==> !spec_is_zero(#[trigger] g0.caps_of(ns[j])),
                forall|j: int| 0 <= j < k ==> spec_dot(#[trigger] g0.caps_of(ns[j]), old(self).spec_needs(), 10) <= u64::MAX,
            decreases neighbors.len() - k,
        {
            let cap = self.galaxy_map.planet_capabilities(neighbors[k]);
            proof {
                assert(g0.caps_of(ns[k as int]).len() == 10 && is_flags(g0.caps_of(ns[k as int])));
            }
            if !cap.dot_fits(&self.needs) {
                assert(spec_dot(g0.caps_of(ns[k as int]), old(self).spec_needs(), 10) > u64::MAX);
                return false;
            }
            k = k + 1;
        }
        true
    }

    /// The intention a drawn resource position stands for: generate a basic
    /// resource, combine a complex one, or (out of range) nothing.
    pub fn generate_intention(choice: usize) -> (i: Intention)
        ensures
            i == spec_intention_for(choice as int),
    {
        if choice < 4 {
            Intention::Generate(Some(basic_resource_at(choice)))
        } else if choice < 10 {
            Intention::Combine(Some(complex_resource_at(choice)))
        } else {
            Intention::Generate(None)
        }
    }

    /// Plans a move away from `current_planet`.
    pub fn generate_move_intention(&mut self, current_planet: u32) -> (t: Thought)
        requires
            old(self).wf(),
            scores_fit(old(self).spec_galaxy(), old(self).spec_needs(), current_planet),
        ensures
            final(self).wf(),
            final(self).unchanged_but_map(old(self)),
            move_thought(old(self).spec_galaxy(), old(self).spec_needs(), current_planet, t),
    {
        let ghost g0 = self.galaxy_map;
        let neighbors = self.galaxy_map.planet_neighbors(current_planet);
        let ghost ns = neighbors@;
        if neighbors.len() == 0 {
            return Thought::Act(Intention::Move(None));
        }
        let mut capabilities: Vec<(u32, ResourceVector)> = Vec::new();
        let mut k: usize = 0;
        while k < neighbors.len()
            invariant
                0 <= k <= neighbors.len(),
                neighbors@ == ns,
                ns == g0.neighbors_of(current_planet),
                self.wf(),
                self.unchanged_but_map(old(self)),
                old(self).spec_galaxy() == g0,
                capabilities@.len() == k,
                forall|j: int| 0 <= j < k ==> (#[trigger] capabilities@[j]).0 == ns[j]
                    && capabilities@[j].1@ == g0.caps_of(ns[j]),
            decreases neighbors.len() - k,
        {
            let id = neighbors[k];
            let cap = self.galaxy_map.planet_capabilities(id);
            capabilities.push((id, cap));
            k = k + 1;
        }
        let mut k: usize = 0;
        while k < capabilities.len()
            invariant
                0 <= k <= capabilities.len(),
                capabilities@.len() == ns.len(),
                ns == g0.neighbors_of(current_planet),
                self.wf(),
                self.unchanged_but_map(old(self)),
                old(self).spec_galaxy() == g0,
                forall|j: int| 0 <= j < ns.len() ==> (#[trigger] capabilities@[j]).0 == ns[j]
                    && capabilities@[j].1@ == g0.caps_of(ns[j]),
                forall|j: int| 0 <= j < k ==> !spec_is_zero(#[trigger] g0.caps_of(ns[j])),
            decreases capabilities.len() - k,
        {
            if capabilities[k].1.is_zero() {
                let t = Thought::Act(Intention::Move(Some(capabilities[k].0)));
                proof {
                    assert(first_unexplored(g0, ns, k as int));
                    assert(move_thought(g0, old(self).spec_needs(), current_planet, t));
                }
                return t;
            }
            k = k + 1;
        }
        assert(forall|j: int| 0 <= j < ns.len() ==> spec_dot(#[trigger] g0.caps_of(ns[j]), old(self).spec_needs(), 10) <= u64::MAX);
        let mut scores: Vec<(u32, u64)> = Vec::new();
        let mut k: usize = 0;
        while k < capabilities.len()
            invariant
                forall|j: int| 0 <= j < ns.len() ==> spec_dot(#[trigger] g0.caps_of(ns[j]), old(self).spec_needs(), 10) <= u64::MAX,
                0 <= k <= capabilities.len(),
                capabilities@.len() == ns.len(),
                ns == g0.neighbors_of(current_planet),
                self.wf(),
                self.unchanged_but_map(old(self)),
                old(self).spec_galaxy() == g0,
                forall|j: int| 0 <= j < ns.len() ==> (#[trigger] capabilities@[j]).0 == ns[j]
                    && capabilities@[j].1@ == g0.caps_of(ns[j]),
                g0.wf(),
                scores@.len() == k,
                forall|j: int| 0 <= j < k ==> (#[trigger] scores@[j]).0 == ns[j]
                    && scores@[j].1 == spec_dot(g0.caps_of(ns[j]), old(self).spec_needs(), 10),
            decreases capabilities.len() - k,
        {
            let (id, cap) = capabilities[k];
            proof {
                assert(spec_dot(g0.caps_of(ns[k as int]), old(self).spec_needs(), 10) <= u64::MAX);
            }
            let score = cap.dot(&self.needs);
            scores.push((id, score));
            k = k + 1;
        }
        let ghost all = neighbor_scores(g0, old(self).spec_needs(), ns);
        assert(scores@ =~= all);
        let mut positive: Vec<(u32, u64)> = Vec::new();
        let mut k: usize = 0;
        proof {
            all.take(0).lemma_filter_len(scores_above_zero());
            assert(positive@ =~= all.take(0).filter(scores_above_zero()));
        }
        while k < scores.len()
            invariant
                0 <= k <= scores.len(),
                scores@ == all,
                positive@ == all.take(k as int).filter(scores_above_zero()),
            decreases scores.len() - k,
        {
            proof {
                assert(all.take(k + 1) =~= all.take(k as int).push(all[k as int]));
                all.take(k as int).lemma_filter_push(all[k as int], scores_above_zero());
            }
            if scores[k].1 > 0 {
                positive.push(scores[k]);
            }
            k = k + 1;
        }
        assert(all.take(all.len() as int) =~= all);
        if positive.len() > 0 {
            Thought::SampleNeighbor(positive)
        } else {
            Thought::SampleNeighbor(scores)
        }
    }

    /// The neighbor a draw over `scores` picked: the drawn entry, or the
    /// first one when the draw picked none.
    pub fn neighbor_from_sample(scores: &Vec<(u32, u64)>, sampled: Option<usize>) -> (id: u32)
        requires
            scores@.len() > 0,
            sampled matches Some(i) ==> i < scores@.len(),
        ensures
            id == match sampled {
                Some(i) => scores@[i as int].0,
                None => scores@[0].0,
            },
    {
        match sampled {
            Some(i) => scores[i].0,
            None => scores[0].0,
        }
    }
}

/// The planned move depends only on what the map records.
pub proof fn lemma_move_thought_same(g1: GalaxyMap, g2: GalaxyMap, needs: Seq<u64>, current: u32, t: Thought)
    requires
        g1.same_as(&g2),
    ensures
        move_thought(g1, needs, current, t) == move_thought(g2, needs, current, t),
{
    let ns = g1.neighbors_of(current);
    assert(ns == g2.neighbors_of(current));
    assert forall|k: int| #[trigger] first_unexplored(g1, ns, k) == first_unexplored(g2, ns, k) by {
        if 0 <= k < ns.len() {
            assert(g1.caps_of(ns[k]) == g2.caps_of(ns[k]));
            assert forall|j: int| 0 <= j < k implies g1.caps_of(ns[j]) == g2.caps_of(ns[j]) by {}
        }
    }
    assert forall|k: int| 0 <= k < ns.len() implies #[trigger] g1.caps_of(ns[k]) == g2.caps_of(ns[k]) by {}
    match t {
        Thought::Act(Intention::Move(Some(id))) => {
            if move_thought(g1, needs, current, t) {
                let k = choose|k: int| first_unexplored(g1, ns, k) && ns[k] == id;
                assert(first_unexplored(g2, ns, k));
            }
            if move_thought(g2, needs, current, t) {
                let k = choose|k: int| first_unexplored(g2, ns, k) && ns[k] == id;
                assert(first_unexplored(g1, ns, k));
            }
        },
        Thought::SampleNeighbor(scores) => {
            assert(neighbor_scores(g1, needs, ns) =~= neighbor_scores(g2, needs, ns));
            if move_thought(g1, needs, current, t) {
                assert forall|k: int| 0 <= k < ns.len() implies !spec_is_zero(#[trigger] g2.caps_of(ns[k])) by {
                    assert(g1.caps_of(ns[k]) == g2.caps_of(ns[k]));
                }
            }
            if move_thought(g2, needs, current, t) {
                assert forall|k: int| 0 <= k < ns.len() implies !spec_is_zero(#[trigger] g1.caps_of(ns[k])) by {
                    assert(g1.caps_of(ns[k]) == g2.caps_of(ns[k]));
                }
            }
        },
        _ => {},
    }
}

/// Whether the scores fit depends only on what the map records.
pub proof fn lemma_scores_fit_same(g1: GalaxyMap, g2: GalaxyMap, needs: Seq<u64>, current: u32)
    requires
        g1.same_as(&g2),
    ensures
        scores_fit(g1, needs, current) == scores_fit(g2, needs, current),
{
    let ns = g1.neighbors_of(current);
    assert(ns == g2.neighbors_of(current));
    assert forall|k: int| 0 <= k < ns.len() implies #[trigger] g1.caps_of(ns[k]) == g2.caps_of(ns[k]) by {}
    let explored1 = forall|k: int| 0 <= k < ns.len() ==> !spec_is_zero(#[trigger] g1.caps_of(ns[k]));
    let explored2 = forall|k: int| 0 <= k < ns.len() ==> !spec_is_zero(#[trigger] g2.caps_of(ns[k]));
    let fit1 = forall|k: int| 0 <= k < ns.len() ==> spec_dot(#[trigger] g1.caps_of(ns[k]), needs, 10) <= u64::MAX;
    let fit2 = forall|k: int| 0 <= k < ns.len() ==> spec_dot(#[trigger] g2.caps_of(ns[k]), needs, 10) <= u64::MAX;
    if explored1 {
        assert forall|k: int| 0 <= k < ns.len() implies !spec_is_zero(#[trigger] g2.caps_of(ns[k])) by {
            assert(g1.caps_of(ns[k]) == g2.caps_of(ns[k]));
        }
    }
    if explored2 {
        assert forall|k: int| 0 <= k < ns.len() implies !spec_is_zero(#[trigger] g1.caps_of(ns[k])) by {
            assert(g1.caps_of(ns[k]) == g2.caps_of(ns[k]));
        }
    }
    if fit1 {
        assert forall|k: int| 0 <= k < ns.len() implies spec_dot(#[trigger] g2.caps_of(ns[k]), needs, 10) <= u64::MAX by {
            assert(g1.caps_of(ns[k]) == g2.caps_of(ns[k]));
        }
    }
    if fit2 {
        assert forall|k: int| 0 <= k < ns.len() implies spec_dot(#[trigger] g1.caps_of(ns[k]), needs, 10) <= u64::MAX by {
            assert(g1.caps_of(ns[k]) == g2.caps_of(ns[k]));
        }
    }
    assert(explored1 == explored2);
    assert(fit1 == fit2);
}

} // verus!
