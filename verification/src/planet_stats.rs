//! What the explorer knows of the planet it currently stands on.
use vstd::prelude::*;

use crate::resources::{BasicResourceType, ComplexResourceType};

verus! {

/// Keeps the neighbors that are not `id`.
pub open spec fn other_than(id: u32) -> spec_fn(u32) -> bool {
    |x: u32| x != id
}

/// The current planet: its ID, the channel to reach it (`S`), and what it has
/// told about itself since the explorer arrived.
pub struct PlanetStats<S> {
    id: Option<u32>,
    sender: Option<S>,
    resources: Option<Vec<BasicResourceType>>,
    combinations: Option<Vec<ComplexResourceType>>,
    neighbors: Option<Vec<u32>>,
}

impl<S> PlanetStats<S> {
    /// ID of the current planet, if any.
    pub closed spec fn spec_id(&self) -> Option<u32> {
        self.id
    }

    /// Whether the explorer can send to the current planet.
    pub open spec fn spec_has_sender(&self) -> bool {
        self.spec_sender() is Some
    }

    /// The channel to the current planet.
    pub closed spec fn spec_sender(&self) -> Option<S> {
        self.sender
    }

    /// The neighbors of the current planet, once known.
    pub closed spec fn spec_neighbors(&self) -> Option<Seq<u32>> {
        match self.neighbors {
            Some(n) => Some(n@),
            None => None,
        }
    }

    /// The basic resources of the current planet, once known.
    pub closed spec fn spec_resources(&self) -> Option<Seq<BasicResourceType>> {
        match self.resources {
            Some(r) => Some(r@),
            None => None,
        }
    }

    /// The complex resources of the current planet, once known.
    pub closed spec fn spec_combinations(&self) -> Option<Seq<ComplexResourceType>> {
        match self.combinations {
            Some(c) => Some(c@),
            None => None,
        }
    }

    /// The planet's lists name each resource once, as the sets the planet
    /// answers with do.
    pub open spec fn wf(&self) -> bool {
        &&& self.spec_resources() matches Some(l) ==> l.no_duplicates()
        &&& self.spec_combinations() matches Some(l) ==> l.no_duplicates()
    }

    /// Stats of no planet.
    pub fn new() -> (p: Self)
        ensures
            p.spec_id() is None,
            !p.spec_has_sender(),
            p.spec_neighbors() is None,
            p.spec_resources() is None,
            p.spec_combinations() is None,
    {
        PlanetStats { id: None, sender: None, resources: None, combinations: None, neighbors: None }
    }

    /// Updates the neighbors of the planet.
    pub fn update_neighbors(&mut self, neighbors: Vec<u32>)
        ensures
            final(self).spec_neighbors() == Some(neighbors@),
            final(self).spec_id() == old(self).spec_id(),
            final(self).spec_sender() == old(self).spec_sender(),
            final(self).spec_resources() == old(self).spec_resources(),
            final(self).spec_combinations() == old(self).spec_combinations(),
    {
        self.neighbors = Some(neighbors);
    }

    /// Updates the basic resources of the planet.
    pub fn update_resources(&mut self, resources: Vec<BasicResourceType>)
        requires
            resources@.no_duplicates(),
        ensures
            final(self).spec_resources() == Some(resources@),
            final(self).spec_id() == old(self).spec_id(),
            final(self).spec_sender() == old(self).spec_sender(),
            final(self).spec_neighbors() == old(self).spec_neighbors(),
            final(self).spec_combinations() == old(self).spec_combinations(),
    {
        self.resources = Some(resources);
    }

    /// Updates the complex resources of the planet.
    pub fn update_combinations(&mut self, combinations: Vec<ComplexResourceType>)
        requires
            combinations@.no_duplicates(),
        ensures
            final(self).spec_combinations() == Some(combinations@),
            final(self).spec_id() == old(self).spec_id(),
            final(self).spec_sender() == old(self).spec_sender(),
            final(self).spec_neighbors() == old(self).spec_neighbors(),
            final(self).spec_resources() == old(self).spec_resources(),
    {
        self.combinations = Some(combinations);
    }

    /// Moves to a new planet: records its ID and channel, and forgets what
    /// the previous planet told.
    pub fn update_planet(&mut self, id: u32, sender: S)
        ensures
            final(self).spec_id() == Some(id),
            final(self).spec_sender() == Some(sender),
            final(self).spec_neighbors() is None,
            final(self).spec_resources() is None,
            final(self).spec_combinations() is None,
    {
        self.id = Some(id);
        self.sender = Some(sender);
        self.resources = None;
        self.combinations = None;
        self.neighbors = None;
    }

    /// The neighbors of the planet, once known.
    pub fn neighbors(&self) -> (n: Option<&Vec<u32>>)
        ensures
            match n {
                Some(v) => self.spec_neighbors() == Some(v@),
                None => self.spec_neighbors() is None,
            },
    {
        match &self.neighbors {
            Some(v) => Some(v),
            None => None,
        }
    }

    /// The basic resources of the planet, once known.
    pub fn resources(&self) -> (r: Option<&Vec<BasicResourceType>>)
        ensures
            match r {
                Some(v) => self.spec_resources() == Some(v@),
                None => self.spec_resources() is None,
            },
    {
        match &self.resources {
            Some(v) => Some(v),
            None => None,
        }
    }

    /// The complex resources of the planet, once known.
    pub fn combinations(&self) -> (c: Option<&Vec<ComplexResourceType>>)
        ensures
            match c {
                Some(v) => self.spec_combinations() == Some(v@),
                None => self.spec_combinations() is None,
            },
    {
        match &self.combinations {
            Some(v) => Some(v),
            None => None,
        }
    }

    /// The planet ID.
    pub fn id(&self) -> (id: Option<u32>)
        ensures
            id == self.spec_id(),
    {
        self.id
    }

    /// Whether the neighbors of the planet are known (possibly none).
    pub fn has_neighbors(&self) -> (b: bool)
        ensures
            b == self.spec_neighbors() is Some,
    {
        self.neighbors.is_some()
    }

    /// Whether the explorer can send to the planet.
    pub fn has_sender(&self) -> (b: bool)
        ensures
            b == self.spec_has_sender(),
    {
        self.sender.is_some()
    }

    /// The channel to the planet.
    pub fn sender(&self) -> (s: Option<&S>)
        ensures
            match s {
                Some(v) => self.spec_sender() == Some(*v),
                None => self.spec_sender() is None,
            },
    {
        match &self.sender {
            Some(v) => Some(v),
            None => None,
        }
    }

    /// Whether the planet is known to generate some basic resource.
    pub fn has_resources(&self) -> (b: bool)
        ensures
            b == (self.spec_resources() matches Some(r) && r.len() > 0),
    {
        match &self.resources {
            Some(resources) => resources.len() > 0,
            None => false,
        }
    }

    /// Whether the planet is known to combine some complex resource.
    pub fn has_combinations(&self) -> (b: bool)
        ensures
            b == (self.spec_combinations() matches Some(c) && c.len() > 0),
    {
        match &self.combinations {
            Some(combinations) => combinations.len() > 0,
            None => false,
        }
    }

    /// Forgets a neighbor (every occurrence of it), when the neighbors are known.
    pub fn remove_neighbor(&mut self, to_remove: Option<u32>)
        ensures
            final(self).spec_neighbors() == match (to_remove, old(self).spec_neighbors()) {
                (Some(id), Some(n)) => Some(n.filter(other_than(id))),
                _ => old(self).spec_neighbors(),
            },
            final(self).spec_id() == old(self).spec_id(),
            final(self).spec_sender() == old(self).spec_sender(),
            final(self).spec_resources() == old(self).spec_resources(),
            final(self).spec_combinations() == old(self).spec_combinations(),
    {
        if let Some(id) = to_remove {
            if let Some(neighbors) = &self.neighbors {
                let mut kept: Vec<u32> = Vec::new();
                let mut k: usize = 0;
                assert(neighbors@.take(0) =~= Seq::<u32>::empty());
                proof {
                    reveal_with_fuel(Seq::filter, 1);
                }
                while k < neighbors.len()
                    invariant
                        0 <= k <= neighbors.len(),
                        kept@ == neighbors@.take(k as int).filter(other_than(id)),
                    decreases neighbors.len() - k,
                {
                    let x = neighbors[k];
                    proof {
                        let next = neighbors@.take(k + 1);
                        assert(next.drop_last() =~= neighbors@.take(k as int));
                        assert(next.last() == x);
                        reveal_with_fuel(Seq::filter, 1);
                    }
                    if x != id {
                        kept.push(x);
                    }
                    k = k + 1;
                }
                assert(neighbors@.take(neighbors.len() as int) =~= neighbors@);
                self.neighbors = Some(kept);
            }
        }
    }
}

/// Whether a list of basic resources names each resource once.
pub fn distinct_basic(l: &Vec<BasicResourceType>) -> (b: bool)
    ensures
        b == l@.no_duplicates(),
{
    let n = l.len();
    let mut i: usize = 0;
    while i < n
        invariant
            n == l@.len(),
            0 <= i <= n,
            forall|a: int, c: int| 0 <= a < c < n && a < i ==> #[trigger] l@[a] != #[trigger] l@[c],
        decreases n - i,
    {
        let mut j: usize = i + 1;
        while j < n
            invariant
                n == l@.len(),
                i < n,
                i + 1 <= j <= n,
                forall|a: int, c: int| 0 <= a < c < n && a < i ==> #[trigger] l@[a] != #[trigger] l@[c],
                forall|c: int| i < c < j ==> l@[i as int] != #[trigger] l@[c],
            decreases n - j,
        {
            if l[i] == l[j] {
                assert(l@[i as int] == l@[j as int]);
                return false;
            }
            j = j + 1;
        }
        i = i + 1;
    }
    assert forall|a: int, c: int| 0 <= a < l@.len() && 0 <= c < l@.len() && a != c implies l@[a] != l@[c] by {
        if a > c {
            assert(l@[c] != l@[a]);
        }
    }
    true
}

/// Whether a list of complex resources names each resource once.
pub fn distinct_complex(l: &Vec<ComplexResourceType>) -> (b: bool)
    ensures
        b == l@.no_duplicates(),
{
    let n = l.len();
    let mut i: usize = 0;
    while i < n
        invariant
            n == l@.len(),
            0 <= i <= n,
            forall|a: int, c: int| 0 <= a < c < n && a < i ==> #[trigger] l@[a] != #[trigger] l@[c],
        decreases n - i,
    {
        let mut j: usize = i + 1;
        while j < n
            invariant
                n == l@.len(),
                i < n,
                i + 1 <= j <= n,
                forall|a: int, c: int| 0 <= a < c < n && a < i ==> #[trigger] l@[a] != #[trigger] l@[c],
                forall|c: int| i < c < j ==> l@[i as int] != #[trigger] l@[c],
            decreases n - j,
        {
            if l[i] == l[j] {
                assert(l@[i as int] == l@[j as int]);
                return false;
            }
            j = j + 1;
        }
        i = i + 1;
    }
    assert forall|a: int, c: int| 0 <= a < l@.len() && 0 <= c < l@.len() && a != c implies l@[a] != l@[c] by {
        if a > c {
            assert(l@[c] != l@[a]);
        }
    }
    true
}

} // verus!
