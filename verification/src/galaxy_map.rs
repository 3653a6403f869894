//! What the explorer has learned about the planets it has heard of.
use vstd::prelude::*;

use std::collections::HashMap;

use crate::resources::{
    basic_index, basic_resource_at, complex_index, complex_resource_at,
    BasicResourceType, ComplexResourceType,
};
use crate::vector::{basic_flag, complex_flag, is_flags, ResourceVector};

verus! {

broadcast use vstd::std_specs::hash::group_hash_axioms;

/// The capabilities of a planet nobody has described yet: all zeros.
pub open spec fn no_capabilities() -> Seq<u64> {
    Seq::new(10, |i: int| 0u64)
}

/// What the explorer knows of one planet: the resources it can generate or
/// combine, and its neighbors.
pub struct PlanetInfo {
    capabilities: ResourceVector,
    neighbors: Vec<u32>,
}

impl PlanetInfo {
    /// The capability flags of the planet, in resource order.
    pub closed spec fn spec_capabilities(&self) -> Seq<u64> {
        self.capabilities@
    }

    /// The neighbors of the planet.
    pub closed spec fn spec_neighbors(&self) -> Seq<u32> {
        self.neighbors@
    }

    /// A planet with no known capability and no known neighbor.
    pub fn new() -> (p: Self)
        ensures
            p.spec_capabilities() == no_capabilities(),
            p.spec_neighbors() == Seq::<u32>::empty(),
    {
        let p = PlanetInfo { capabilities: ResourceVector::zeros(), neighbors: Vec::new() };
        assert(p.capabilities@ =~= no_capabilities());
        p
    }

    /// The capability flags of the planet.
    pub fn capabilities(&self) -> (c: ResourceVector)
        ensures
            c@ == self.spec_capabilities(),
    {
        self.capabilities
    }

    /// The neighbors of the planet.
    pub fn neighbors(&self) -> (n: &Vec<u32>)
        ensures
            n@ == self.spec_neighbors(),
    {
        &self.neighbors
    }

    /// Records the basic resources the planet generates.
    pub fn set_basic_resources(&mut self, resources: Vec<BasicResourceType>)
        ensures
            final(self).spec_neighbors() == old(self).spec_neighbors(),
            forall|i: int| 0 <= i < 4 ==> #[trigger] final(self).spec_capabilities()[i] == basic_flag(resources@, i),
            forall|i: int| 4 <= i < 10 ==> #[trigger] final(self).spec_capabilities()[i] == old(self).spec_capabilities()[i],
    {
        self.capabilities.set_basic(&resources);
    }

    /// Records the complex resources the planet combines.
    pub fn set_complex_resources(&mut self, resources: Vec<ComplexResourceType>)
        ensures
            final(self).spec_neighbors() == old(self).spec_neighbors(),
            forall|i: int| 0 <= i < 4 ==> #[trigger] final(self).spec_capabilities()[i] == old(self).spec_capabilities()[i],
            forall|i: int| 4 <= i < 10 ==> #[trigger] final(self).spec_capabilities()[i] == complex_flag(resources@, i),
    {
        self.capabilities.set_complex(&resources);
    }

    /// Records the neighbors of the planet.
    pub fn set_neighbors(&mut self, neighbors: Vec<u32>)
        ensures
            final(self).spec_capabilities() == old(self).spec_capabilities(),
            final(self).spec_neighbors() == neighbors@,
    {
        self.neighbors = neighbors;
    }
}

/// The planets the explorer knows of, by ID. A planet it has not heard of
/// reads as one with no capability and no neighbor.
pub struct GalaxyMap {
    planets: HashMap<u32, PlanetInfo>,
}

impl GalaxyMap {
    /// The capability flags recorded for a planet.
    pub closed spec fn caps_of(&self, id: u32) -> Seq<u64> {
        if self.planets@.contains_key(id) {
            self.planets@[id].spec_capabilities()
        } else {
            no_capabilities()
        }
    }

    /// The neighbors recorded for a planet.
    pub closed spec fn neighbors_of(&self, id: u32) -> Seq<u32> {
        if self.planets@.contains_key(id) {
            self.planets@[id].spec_neighbors()
        } else {
            Seq::empty()
        }
    }

    /// The planets that have a record in the map: those that were ever read
    /// or written.
    pub closed spec fn known(&self) -> Set<u32> {
        self.planets@.dom()
    }

    /// Every planet's capabilities are ten flags.
    pub open spec fn wf(&self) -> bool {
        forall|id: u32| #[trigger] self.caps_of(id).len() == 10 && is_flags(self.caps_of(id))
    }

    /// `self` and `other` record the same of every planet.
    pub open spec fn same_as(&self, other: &GalaxyMap) -> bool {
        &&& forall|id: u32| #[trigger] self.caps_of(id) == other.caps_of(id)
        &&& forall|id: u32| #[trigger] self.neighbors_of(id) == other.neighbors_of(id)
    }

    /// A map that knows of no planet.
    pub fn new() -> (m: Self)
        ensures
            m.wf(),
            m.known() == Set::<u32>::empty(),
            forall|id: u32| #[trigger] m.caps_of(id) == no_capabilities(),
            forall|id: u32| #[trigger] m.neighbors_of(id) == Seq::<u32>::empty(),
    {
        let m = GalaxyMap { planets: HashMap::new() };
        assert(m.known() =~= Set::<u32>::empty());
        m
    }

    /// Takes the record of a planet out of the map, or a fresh one.
    fn take_planet(&mut self, planet_id: u32) -> (p: PlanetInfo)
        ensures
            final(self).planets@ == old(self).planets@.remove(planet_id),
            p.spec_capabilities() == old(self).caps_of(planet_id),
            p.spec_neighbors() == old(self).neighbors_of(planet_id),
    {
        match self.planets.remove(&planet_id) {
            Some(p) => p,
            None => {
                assert(old(self).planets@.remove(planet_id) =~= old(self).planets@);
                PlanetInfo::new()
            },
        }
    }

    /// Replaces everything recorded of a planet.
    pub fn update_planet(
        &mut self,
        planet_id: u32,
        basic_resources: Vec<BasicResourceType>,
        complex_resources: Vec<ComplexResourceType>,
        neighbors: Vec<u32>,
    )
        requires
            old(self).wf(),
        ensures
            final(self).wf(),
            final(self).known() == old(self).known().insert(planet_id),
            forall|i: int| 0 <= i < 4 ==> #[trigger] final(self).caps_of(planet_id)[i] == basic_flag(basic_resources@, i),
            forall|i: int| 4 <= i < 10 ==> #[trigger] final(self).caps_of(planet_id)[i] == complex_flag(complex_resources@, i),
            final(self).neighbors_of(planet_id) == neighbors@,
            forall|id: u32| id != planet_id ==> #[trigger] final(self).caps_of(id) == old(self).caps_of(id),
            forall|id: u32| id != planet_id ==> #[trigger] final(self).neighbors_of(id) == old(self).neighbors_of(id),
    {
        let mut planet = self.take_planet(planet_id);
        planet.set_basic_resources(basic_resources);
        planet.set_complex_resources(complex_resources);
        planet.set_neighbors(neighbors);
        self.planets.insert(planet_id, planet);
        assert(self.known() =~= old(self).known().insert(planet_id));
        proof {
            assert forall|id: u32| #[trigger] self.caps_of(id).len() == 10 && is_flags(self.caps_of(id)) by {
                if id != planet_id {
                    assert(self.caps_of(id) == old(self).caps_of(id));
                } else {
                    assert(self.caps_of(id) =~= planet.spec_capabilities());
                    assert forall|i: int| 0 <= i < self.caps_of(id).len() implies #[trigger] self.caps_of(id)[i] <= 1 by {
                        if i < 4 {
                            assert(self.caps_of(id)[i] == basic_flag(basic_resources@, i));
                        } else {
                            assert(self.caps_of(id)[i] == complex_flag(complex_resources@, i));
                        }
                    }
                }
            }
        }
    }

    /// The capability flags of a planet (all zeros for an unknown planet).
    pub fn planet_capabilities(&mut self, planet_id: u32) -> (c: ResourceVector)
        requires
            old(self).wf(),
        ensures
            final(self).wf(),
            final(self).known() == old(self).known().insert(planet_id),
            final(self).same_as(old(self)),
            c@ == old(self).caps_of(planet_id),
    {
        let planet = self.take_planet(planet_id);
        let c = planet.capabilities();
        self.planets.insert(planet_id, planet);
        assert(self.known() =~= old(self).known().insert(planet_id));
        proof { self.lemma_reinsert_same(old(self), planet_id); }
        c
    }

    /// The neighbors of a planet (none for an unknown planet).
    pub fn planet_neighbors(&mut self, planet_id: u32) -> (n: Vec<u32>)
        requires
            old(self).wf(),
        ensures
            final(self).wf(),
            final(self).known() == old(self).known().insert(planet_id),
            final(self).same_as(old(self)),
            n@ == old(self).neighbors_of(planet_id),
    {
        let planet = self.take_planet(planet_id);
        let n = planet.neighbors().clone();
        assert(n@ =~= planet.spec_neighbors());
        self.planets.insert(planet_id, planet);
        assert(self.known() =~= old(self).known().insert(planet_id));
        proof { self.lemma_reinsert_same(old(self), planet_id); }
        n
    }

    /// The basic resources a planet is known to generate, each once, in resource order.
    pub fn planet_supported_resources(&mut self, planet_id: u32) -> (r: Vec<BasicResourceType>)
        requires
            old(self).wf(),
        ensures
            final(self).wf(),
            final(self).known() == old(self).known().insert(planet_id),
            final(self).same_as(old(self)),
            r@.no_duplicates(),
            forall|k: int, l: int| 0 <= k < l < r@.len() ==> basic_index(#[trigger] r@[k]) < basic_index(#[trigger] r@[l]),
            forall|b: BasicResourceType| r@.contains(b) <==> #[trigger] old(self).caps_of(planet_id)[basic_index(b)] == 1,
    {
        let caps = self.planet_capabilities(planet_id);
        let mut r: Vec<BasicResourceType> = Vec::new();
        let mut i: usize = 0;
        while i < 4
            invariant
                0 <= i <= 4,
                caps@ == old(self).caps_of(planet_id),
                r@.no_duplicates(),
                forall|k: int| 0 <= k < r@.len() ==> basic_index(#[trigger] r@[k]) < i,
                forall|k: int, l: int| 0 <= k < l < r@.len() ==> basic_index(#[trigger] r@[k]) < basic_index(#[trigger] r@[l]),
                forall|b: BasicResourceType| basic_index(b) < i ==> (r@.contains(b) <==> #[trigger] caps@[basic_index(b)] == 1),
                forall|b: BasicResourceType| basic_index(b) >= i ==> !#[trigger] r@.contains(b),
            decreases 4 - i,
        {
            if caps.0[i] == 1 {
                let b = basic_resource_at(i);
                proof {
                    assert(!r@.contains(b));
                }
                let ghost prev = r@;
                r.push(b);
                proof {
                    assert forall|x: BasicResourceType| #[trigger] r@.contains(x) <==> (prev.contains(x) || x == b) by {
                        if r@.contains(x) {
                            let k = choose|k: int| 0 <= k < r@.len() && r@[k] == x;
                            if k < prev.len() { assert(prev[k] == x); }
                        }
                        if prev.contains(x) {
                            let k = choose|k: int| 0 <= k < prev.len() && prev[k] == x;
                            assert(r@[k] == x);
                        }
                        if x == b { assert(r@[r@.len() - 1] == x); }
                    }
                }
            }
            i = i + 1;
        }
        r
    }

    /// The complex resources a planet is known to combine, each once, in resource order.
    pub fn planet_supported_combinations(&mut self, planet_id: u32) -> (r: Vec<ComplexResourceType>)
        requires
            old(self).wf(),
        ensures
            final(self).wf(),
            final(self).known() == old(self).known().insert(planet_id),
            final(self).same_as(old(self)),
            r@.no_duplicates(),
            forall|k: int, l: int| 0 <= k < l < r@.len() ==> complex_index(#[trigger] r@[k]) < complex_index(#[trigger] r@[l]),
            forall|c: ComplexResourceType| r@.contains(c) <==> #[trigger] old(self).caps_of(planet_id)[complex_index(c)] == 1,
    {
        let caps = self.planet_capabilities(planet_id);
        let mut r: Vec<ComplexResourceType> = Vec::new();
        let mut i: usize = 4;
        while i < 10
            invariant
                4 <= i <= 10,
                caps@ == old(self).caps_of(planet_id),
                r@.no_duplicates(),
                forall|k: int| 0 <= k < r@.len() ==> complex_index(#[trigger] r@[k]) < i,
                forall|k: int, l: int| 0 <= k < l < r@.len() ==> complex_index(#[trigger] r@[k]) < complex_index(#[trigger] r@[l]),
                forall|c: ComplexResourceType| complex_index(c) < i ==> (r@.contains(c) <==> #[trigger] caps@[complex_index(c)] == 1),
                forall|c: ComplexResourceType| complex_index(c) >= i ==> !#[trigger] r@.contains(c),
            decreases 10 - i,
        {
            if caps.0[i] == 1 {
                let c = complex_resource_at(i);
                proof {
                    assert(!r@.contains(c));
                }
                let ghost prev = r@;
                r.push(c);
                proof {
                    assert forall|x: ComplexResourceType| #[trigger] r@.contains(x) <==> (prev.contains(x) || x == c) by {
                        if r@.contains(x) {
                            let k = choose|k: int| 0 <= k < r@.len() && r@[k] == x;
                            if k < prev.len() { assert(prev[k] == x); }
                        }
                        if prev.contains(x) {
                            let k = choose|k: int| 0 <= k < prev.len() && prev[k] == x;
                            assert(r@[k] == x);
                        }
                        if x == c { assert(r@[r@.len() - 1] == x); }
                    }
                }
            }
            i = i + 1;
        }
        r
    }

    /// Records the basic resources a planet generates.
    pub fn set_planet_basic_resources(&mut self, planet_id: u32, resources: Vec<BasicResourceType>)
        requires
            old(self).wf(),
        ensures
            final(self).wf(),
            final(self).known() == old(self).known().insert(planet_id),
            forall|i: int| 0 <= i < 4 ==> #[trigger] final(self).caps_of(planet_id)[i] == basic_flag(resources@, i),
            forall|i: int| 4 <= i < 10 ==> #[trigger] final(self).caps_of(planet_id)[i] == old(self).caps_of(planet_id)[i],
            final(self).neighbors_of(planet_id) == old(self).neighbors_of(planet_id),
            forall|id: u32| id != planet_id ==> #[trigger] final(self).caps_of(id) == old(self).caps_of(id),
            forall|id: u32| id != planet_id ==> #[trigger] final(self).neighbors_of(id) == old(self).neighbors_of(id),
    {
        let mut planet = self.take_planet(planet_id);
        planet.set_basic_resources(resources);
        self.planets.insert(planet_id, planet);
        assert(self.known() =~= old(self).known().insert(planet_id));
        proof {
            assert forall|id: u32| #[trigger] self.caps_of(id).len() == 10 && is_flags(self.caps_of(id)) by {
                if id != planet_id {
                    assert(self.caps_of(id) == old(self).caps_of(id));
                } else {
                    assert(old(self).caps_of(id).len() == 10 && is_flags(old(self).caps_of(id)));
                    assert forall|i: int| 0 <= i < self.caps_of(id).len() implies #[trigger] self.caps_of(id)[i] <= 1 by {
                        if i >= 4 {
                            assert(self.caps_of(id)[i] == old(self).caps_of(id)[i]);
                        }
                    }
                }
            }
        }
    }

    /// Records the complex resources a planet combines.
    pub fn set_planet_complex_resources(&mut self, planet_id: u32, resources: Vec<ComplexResourceType>)
        requires
            old(self).wf(),
        ensures
            final(self).wf(),
            final(self).known() == old(self).known().insert(planet_id),
            forall|i: int| 0 <= i < 4 ==> #[trigger] final(self).caps_of(planet_id)[i] == old(self).caps_of(planet_id)[i],
            forall|i: int| 4 <= i < 10 ==> #[trigger] final(self).caps_of(planet_id)[i] == complex_flag(resources@, i),
            final(self).neighbors_of(planet_id) == old(self).neighbors_of(planet_id),
            forall|id: u32| id != planet_id ==> #[trigger] final(self).caps_of(id) == old(self).caps_of(id),
            forall|id: u32| id != planet_id ==> #[trigger] final(self).neighbors_of(id) == old(self).neighbors_of(id),
    {
        let mut planet = self.take_planet(planet_id);
        planet.set_complex_resources(resources);
        self.planets.insert(planet_id, planet);
        assert(self.known() =~= old(self).known().insert(planet_id));
        proof {
            assert forall|id: u32| #[trigger] self.caps_of(id).len() == 10 && is_flags(self.caps_of(id)) by {
                if id != planet_id {
                    assert(self.caps_of(id) == old(self).caps_of(id));
                } else {
                    assert(old(self).caps_of(id).len() == 10 && is_flags(old(self).caps_of(id)));
                    assert forall|i: int| 0 <= i < self.caps_of(id).len() implies #[trigger] self.caps_of(id)[i] <= 1 by {
                        if i < 4 {
                            assert(self.caps_of(id)[i] == old(self).caps_of(id)[i]);
                        }
                    }
                }
            }
        }
    }

    /// Records the neighbors of a planet.
    pub fn set_planet_neighbors(&mut self, planet_id: u32, neighbors: Vec<u32>)
        requires
            old(self).wf(),
        ensures
            final(self).wf(),
            final(self).known() == old(self).known().insert(planet_id),
            final(self).caps_of(planet_id) == old(self).caps_of(planet_id),
            final(self).neighbors_of(planet_id) == neighbors@,
            forall|id: u32| id != planet_id ==> #[trigger] final(self).caps_of(id) == old(self).caps_of(id),
            forall|id: u32| id != planet_id ==> #[trigger] final(self).neighbors_of(id) == old(self).neighbors_of(id),
    {
        let mut planet = self.take_planet(planet_id);
        planet.set_neighbors(neighbors);
        self.planets.insert(planet_id, planet);
        assert(self.known() =~= old(self).known().insert(planet_id));
        proof {
            assert forall|id: u32| #[trigger] self.caps_of(id).len() == 10 && is_flags(self.caps_of(id)) by {
                assert(self.caps_of(id) == old(self).caps_of(id));
            }
        }
    }

    /// Putting back, unchanged, the record that was taken out leaves the map
    /// recording the same of every planet.
    proof fn lemma_reinsert_same(&self, before: &GalaxyMap, planet_id: u32)
        requires
            before.wf(),
            exists|p: PlanetInfo| {
                &&& self.planets@ == before.planets@.remove(planet_id).insert(planet_id, p)
                &&& p.spec_capabilities() == before.caps_of(planet_id)
                &&& p.spec_neighbors() == before.neighbors_of(planet_id)
            },
        ensures
            self.wf(),
            self.same_as(before),
    {
        let p = choose|p: PlanetInfo| {
            &&& self.planets@ == before.planets@.remove(planet_id).insert(planet_id, p)
            &&& p.spec_capabilities() == before.caps_of(planet_id)
            &&& p.spec_neighbors() == before.neighbors_of(planet_id)
        };
        assert forall|id: u32| #[trigger] self.caps_of(id) == before.caps_of(id) by {}
        assert forall|id: u32| #[trigger] self.neighbors_of(id) == before.neighbors_of(id) by {}
        assert forall|id: u32| #[trigger] self.caps_of(id).len() == 10 && is_flags(self.caps_of(id)) by {
            assert(self.caps_of(id) == before.caps_of(id));
        }
    }
}

} // verus!
