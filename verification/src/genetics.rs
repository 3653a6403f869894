//! A gene-driven brain: a genome of small numbers is read one gene per
//! decision, and each gene decides between moving, generating and combining.
use vstd::prelude::*;

use rand::Rng;

use crate::planet_stats::PlanetStats;
use crate::resources::{BasicResourceType, ComplexResourceType, ResourceType};

verus! {

/// Performance points of a basic resource for the gene-driven brain.
pub const GENETIC_BASIC_WEIGHT: u32 = 10;

/// Performance points of a complex resource for the gene-driven brain.
pub const GENETIC_COMPLEX_WEIGHT: u32 = 60;

/// Game steps without success after which the gene-driven brain moves on.
pub const IDLE_TIMEOUT_STEPS: u128 = 6;

/// Number of genes in a fresh genome.
pub const GENOME_LENGTH: usize = 64;

/// Every gene lies below this bound.
pub const GENE_BOUND: u8 = 128;

/// One gene drawn by `rand`: `rand::rng().random_range(0..128)` on the
/// thread-local generator. The range is not empty, so the call does not
/// panic, and what it returns lies in the range; which value comes is
/// chance and is not stated.
#[verifier::external_body]
fn random_gene() -> (g: u8)
    ensures
        g < GENE_BOUND,
{
    rand::rng().random_range(0..GENE_BOUND)
}

/// A fresh genome: `GENOME_LENGTH` random genes, each below `GENE_BOUND`.
pub fn random_genome() -> (genome: Vec<u8>)
    ensures
        genome@.len() == GENOME_LENGTH,
        forall|i: int| 0 <= i < genome@.len() ==> #[trigger] genome@[i] < GENE_BOUND,
{
    let mut genome: Vec<u8> = Vec::new();
    let mut i: usize = 0;
    while i < GENOME_LENGTH
        invariant
            0 <= i <= GENOME_LENGTH,
            genome@.len() == i,
            forall|k: int| 0 <= k < genome@.len() ==> #[trigger] genome@[k] < GENE_BOUND,
        decreases GENOME_LENGTH - i,
    {
        genome.push(random_gene());
        i = i + 1;
    }
    genome
}

/// What the gene-driven brain decides.
#[derive(Debug, PartialEq, Eq)]
pub enum Decision {
    /// Ask the planet to generate a basic resource.
    Generate(Option<BasicResourceType>),
    /// Try to build a combination request for each of these, in order; the
    /// first one the bag allows is sent (none: no combination).
    Combine(Vec<ComplexResourceType>),
    /// Ask the orchestrator to travel to a planet.
    Move(Option<u32>),
}

/// The entry of `s` that `gene` points at, if `s` has any.
pub open spec fn pick<T>(s: Seq<T>, gene: u8) -> Option<T> {
    if s.len() == 0 {
        None
    } else {
        Some(s[gene as int % s.len() as int])
    }
}

/// The entry that `gene` points at in a list that may be unknown.
pub open spec fn pick_known<T>(s: Option<Seq<T>>, gene: u8) -> Option<T> {
    match s {
        Some(l) => pick(l, gene),
        None => None,
    }
}

/// The order in which combinations are tried: reversed for an even gene.
pub open spec fn combination_order(s: Option<Seq<ComplexResourceType>>, gene: u8) -> Seq<ComplexResourceType> {
    match s {
        Some(l) => if gene % 2 == 0 {
            l.reverse()
        } else {
            l
        },
        None => Seq::empty(),
    }
}

/// The gene-driven brain.
pub struct Brain {
    genome: Vec<u8>,
    gene_step: usize,
    performance: u32,
    resources_amount: u8,
    move_intention: bool,
    blocked: bool,
    idle_timeout: u128,
    last_success: u128,
}

impl Brain {
    /// The genome.
    pub closed spec fn spec_genome(&self) -> Seq<u8> {
        self.genome@
    }

    /// How many genes have been read.
    pub closed spec fn spec_gene_step(&self) -> usize {
        self.gene_step
    }

    /// The performance score.
    pub closed spec fn spec_performance(&self) -> u32 {
        self.performance
    }

    /// Basic resources obtained minus complex resources obtained.
    pub closed spec fn spec_resources_amount(&self) -> u8 {
        self.resources_amount
    }

    /// Whether the last action failed and the brain wants to move.
    pub closed spec fn spec_move_intention(&self) -> bool {
        self.move_intention
    }

    /// Whether the explorer cannot leave its planet.
    pub closed spec fn spec_blocked(&self) -> bool {
        self.blocked
    }

    /// How long without success makes the brain move, in nanoseconds.
    pub closed spec fn spec_idle_timeout(&self) -> u128 {
        self.idle_timeout
    }

    /// When the brain last succeeded, in nanoseconds.
    pub closed spec fn spec_last_success(&self) -> u128 {
        self.last_success
    }

    /// The brain's invariant: a genome to read.
    pub open spec fn wf(&self) -> bool {
        self.spec_genome().len() > 0
    }

    /// The gene the next decision reads.
    pub open spec fn spec_current_gene(&self) -> u8 {
        self.spec_genome()[self.spec_gene_step() as int % self.spec_genome().len() as int]
    }

    /// Whether the brain moves whatever the gene says: not blocked, and
    /// either its last action failed or it has been idle too long.
    pub open spec fn spec_wants_to_move(&self, now: u128) -> bool {
        let elapsed = if now >= self.spec_last_success() {
            now - self.spec_last_success()
        } else {
            0
        };
        !self.spec_blocked() && (self.spec_move_intention() || elapsed > self.spec_idle_timeout())
    }

    /// The action number the current gene gives (with `matches` telling
    /// whether the bag can make something the planet combines).
    pub open spec fn spec_action(&self, matches: bool) -> int {
        let gene = self.spec_current_gene();
        let b: int = if self.spec_blocked() { 1 } else { 0 };
        let a = (gene as int) % (10 + self.spec_resources_amount() as int) + b;
        if a > 10 && !matches {
            (gene as int) % 10 + b
        } else if matches {
            a + 6
        } else {
            a
        }
    }

    /// Whether deciding stays within the integer types: the gene counter
    /// can advance, and the action number fits in a byte.
    pub open spec fn spec_can_decide(&self, matches: bool, now: u128) -> bool {
        let gene = self.spec_current_gene();
        let b: int = if self.spec_blocked() { 1 } else { 0 };
        &&& self.spec_gene_step() < usize::MAX
        &&& !self.spec_wants_to_move(now) ==> {
            &&& 10 + self.spec_resources_amount() <= u8::MAX
            &&& matches ==> (gene as int) % (10 + self.spec_resources_amount() as int) + b + 6 <= u8::MAX
        }
    }

    /// A brain with a fresh random genome (see `random_genome`), idle for six
    /// game steps at most, whose last success is `now`.
    pub fn new(game_step: u128, now: u128) -> (b: Self)
        requires
            game_step * IDLE_TIMEOUT_STEPS <= u128::MAX,
        ensures
            b.wf(),
            b.spec_genome().len() == GENOME_LENGTH,
            forall|i: int| 0 <= i < GENOME_LENGTH ==> #[trigger] b.spec_genome()[i] < GENE_BOUND,
            b.spec_gene_step() == 0,
            b.spec_performance() == 0,
            b.spec_resources_amount() == 0,
            !b.spec_move_intention(),
            !b.spec_blocked(),
            b.spec_idle_timeout() == game_step * IDLE_TIMEOUT_STEPS,
            b.spec_last_success() == now,
    {
        Brain::with_genome(random_genome(), game_step, now)
    }

    /// A brain with the given genome, idle for six game steps at most, whose
    /// last success is `now`.
    pub fn with_genome(genome: Vec<u8>, game_step: u128, now: u128) -> (b: Self)
        requires
            genome@.len() > 0,
            game_step * IDLE_TIMEOUT_STEPS <= u128::MAX,
        ensures
            b.wf(),
            b.spec_genome() == genome@,
            b.spec_gene_step() == 0,
            b.spec_performance() == 0,
            b.spec_resources_amount() == 0,
            !b.spec_move_intention(),
            !b.spec_blocked(),
            b.spec_idle_timeout() == game_step * IDLE_TIMEOUT_STEPS,
            b.spec_last_success() == now,
    {
        Brain {
            genome,
            gene_step: 0,
            performance: 0,
            resources_amount: 0,
            move_intention: false,
            blocked: false,
            idle_timeout: game_step * IDLE_TIMEOUT_STEPS,
            last_success: now,
        }
    }

    /// The genome.
    pub fn genome(&self) -> (g: &Vec<u8>)
        ensures
            g@ == self.spec_genome(),
    {
        &self.genome
    }

    /// The performance score.
    pub fn performance(&self) -> (p: u32)
        ensures
            p == self.spec_performance(),
    {
        self.performance
    }

    /// Whether the brain wants to move after a failed action.
    pub fn move_intention(&self) -> (b: bool)
        ensures
            b == self.spec_move_intention(),
    {
        self.move_intention
    }

    /// Whether the explorer is blocked on its planet.
    pub fn blocked(&self) -> (b: bool)
        ensures
            b == self.spec_blocked(),
    {
        self.blocked
    }

    /// Whether a resource of kind `resource` can be taken without the
    /// score or the resource count going out of range.
    pub fn can_insert(&self, resource: ResourceType) -> (b: bool)
        ensures
            b == match resource {
                ResourceType::Basic(_) => self.spec_performance() + GENETIC_BASIC_WEIGHT <= u32::MAX
                    && self.spec_resources_amount() < u8::MAX,
                ResourceType::Complex(_) => self.spec_performance() + GENETIC_COMPLEX_WEIGHT <= u32::MAX
                    && self.spec_resources_amount() > 0,
            },
    {
        match resource {
            ResourceType::Basic(_) => self.performance <= u32::MAX - GENETIC_BASIC_WEIGHT
                && self.resources_amount < u8::MAX,
            ResourceType::Complex(_) => self.performance <= u32::MAX - GENETIC_COMPLEX_WEIGHT
                && self.resources_amount > 0,
        }
    }

    /// A resource has entered the bag at time `now`: the score grows by its
    /// weight, the resource count goes up for a basic resource and down for
    /// a complex one (which used two), and the brain has succeeded.
    pub fn insert_resource(&mut self, resource: ResourceType, now: u128)
        requires
            match resource {
                ResourceType::Basic(_) => old(self).spec_performance() + GENETIC_BASIC_WEIGHT <= u32::MAX
                    && old(self).spec_resources_amount() < u8::MAX,
                ResourceType::Complex(_) => old(self).spec_performance() + GENETIC_COMPLEX_WEIGHT <= u32::MAX
                    && old(self).spec_resources_amount() > 0,
            },
        ensures
            final(self).spec_performance() == old(self).spec_performance() + match resource {
                ResourceType::Basic(_) => GENETIC_BASIC_WEIGHT,
                ResourceType::Complex(_) => GENETIC_COMPLEX_WEIGHT,
            },
            final(self).spec_resources_amount() == old(self).spec_resources_amount() + match resource {
                ResourceType::Basic(_) => 1int,
                ResourceType::Complex(_) => -1int,
            },
            final(self).spec_last_success() == now,
            final(self).spec_genome() == old(self).spec_genome(),
            final(self).spec_gene_step() == old(self).spec_gene_step(),
            final(self).spec_move_intention() == old(self).spec_move_intention(),
            final(self).spec_blocked() == old(self).spec_blocked(),
            final(self).spec_idle_timeout() == old(self).spec_idle_timeout(),
    {
        match resource {
            ResourceType::Basic(_) => {
                self.resources_amount = self.resources_amount + 1;
                self.performance = self.performance + GENETIC_BASIC_WEIGHT;
            },
            ResourceType::Complex(_) => {
                self.resources_amount = self.resources_amount - 1;
                self.performance = self.performance + GENETIC_COMPLEX_WEIGHT;
            },
        }
        self.last_success = now;
    }

    /// The gene the next decision reads.
    pub fn current_gene(&self) -> (g: u8)
        requires
            self.wf(),
        ensures
            g == self.spec_current_gene(),
    {
        self.genome[self.gene_step % self.genome.len()]
    }

    /// The explorer has moved at time `now`: it no longer wants to move,
    /// and it has succeeded.
    pub fn on_move(&mut self, now: u128)
        ensures
            !final(self).spec_move_intention(),
            final(self).spec_last_success() == now,
            final(self).spec_genome() == old(self).spec_genome(),
            final(self).spec_gene_step() == old(self).spec_gene_step(),
            final(self).spec_performance() == old(self).spec_performance(),
            final(self).spec_resources_amount() == old(self).spec_resources_amount(),
            final(self).spec_blocked() == old(self).spec_blocked(),
            final(self).spec_idle_timeout() == old(self).spec_idle_timeout(),
    {
        self.move_intention = false;
        self.last_success = now;
    }

    /// An action came to nothing: unless the current gene is a multiple of
    /// three, the brain now wants to move.
    pub fn on_no_action(&mut self)
        requires
            old(self).wf(),
        ensures
            final(self).spec_move_intention() == (old(self).spec_move_intention()
                || old(self).spec_current_gene() % 3 != 0),
            final(self).spec_last_success() == old(self).spec_last_success(),
            final(self).spec_genome() == old(self).spec_genome(),
            final(self).spec_gene_step() == old(self).spec_gene_step(),
            final(self).spec_performance() == old(self).spec_performance(),
            final(self).spec_resources_amount() == old(self).spec_resources_amount(),
            final(self).spec_blocked() == old(self).spec_blocked(),
            final(self).spec_idle_timeout() == old(self).spec_idle_timeout(),
    {
        let gene = self.current_gene();
        if gene % 3 != 0 {
            self.move_intention = true;
        }
    }

    /// The explorer cannot leave its planet.
    pub fn got_blocked(&mut self)
        ensures
            final(self).spec_blocked(),
            final(self).spec_move_intention() == old(self).spec_move_intention(),
            final(self).spec_last_success() == old(self).spec_last_success(),
            final(self).spec_genome() == old(self).spec_genome(),
            final(self).spec_gene_step() == old(self).spec_gene_step(),
            final(self).spec_performance() == old(self).spec_performance(),
            final(self).spec_resources_amount() == old(self).spec_resources_amount(),
            final(self).spec_idle_timeout() == old(self).spec_idle_timeout(),
    {
        self.blocked = true;
    }

    /// The explorer can leave its planet again.
    pub fn unblock(&mut self)
        ensures
            !final(self).spec_blocked(),
            final(self).spec_move_intention() == old(self).spec_move_intention(),
            final(self).spec_last_success() == old(self).spec_last_success(),
            final(self).spec_genome() == old(self).spec_genome(),
            final(self).spec_gene_step() == old(self).spec_gene_step(),
            final(self).spec_performance() == old(self).spec_performance(),
            final(self).spec_resources_amount() == old(self).spec_resources_amount(),
            final(self).spec_idle_timeout() == old(self).spec_idle_timeout(),
    {
        self.blocked = false;
    }

    /// Whether `decide` stays within the integer types (see `spec_can_decide`).
    pub fn can_decide(&self, matches: bool, now: u128) -> (b: bool)
        requires
            self.wf(),
        ensures
            b == self.spec_can_decide(matches, now),
    {
        if self.gene_step == usize::MAX {
            return false;
        }
        if self.wants_to_move(now) {
            return true;
        }
        if self.resources_amount > u8::MAX - 10 {
            return false;
        }
        let gene = self.current_gene();
        let b: u8 = if self.blocked { 1 } else { 0 };
        !matches || gene % (10 + self.resources_amount) + b <= u8::MAX - 6
    }

    fn wants_to_move(&self, now: u128) -> (b: bool)
        ensures
            b == self.spec_wants_to_move(now),
    {
        let elapsed = now.saturating_sub(self.last_success);
        !self.blocked && (self.move_intention || elapsed > self.idle_timeout)
    }

    /// Reads the next gene and decides, on the planet described by
    /// `planet_stats` at time `now`; `matches` tells whether the bag can
    /// make something the planet combines. Action numbers 0 and 1 move,
    /// unless the explorer is blocked, which keeps it from moving; 2 to 10
    /// (and 1 when blocked) generate, the rest combine.
    pub fn decide<S>(&mut self, planet_stats: &PlanetStats<S>, matches: bool, now: u128) -> (d: Decision)
        requires
            old(self).wf(),
            old(self).spec_can_decide(matches, now),
        ensures
            final(self).wf(),
            final(self).spec_gene_step() == old(self).spec_gene_step() + 1,
            final(self).spec_genome() == old(self).spec_genome(),
            final(self).spec_performance() == old(self).spec_performance(),
            final(self).spec_resources_amount() == old(self).spec_resources_amount(),
            final(self).spec_move_intention() == old(self).spec_move_intention(),
            final(self).spec_blocked() == old(self).spec_blocked(),
            final(self).spec_idle_timeout() == old(self).spec_idle_timeout(),
            final(self).spec_last_success() == old(self).spec_last_success(),
            old(self).spec_blocked() ==> !(d is Move),
            matches && !old(self).spec_wants_to_move(now) && (old(self).spec_current_gene() as int) % (10
                + old(self).spec_resources_amount() as int) + (if old(self).spec_blocked() { 1int } else { 0int }) >= 5
                ==> d is Combine,
            ({
                let gene = old(self).spec_current_gene();
                let a = old(self).spec_action(matches);
                if old(self).spec_wants_to_move(now) || (!old(self).spec_blocked() && a < 2) {
                    d == Decision::Move(pick_known(planet_stats.spec_neighbors(), gene))
                } else if a < 11 {
                    d == Decision::Generate(pick_known(planet_stats.spec_resources(), gene))
                } else {
                    d matches Decision::Combine(l) && l@ == combination_order(planet_stats.spec_combinations(), gene)
                }
            }),
    {
        let gene = self.current_gene();
        self.gene_step = self.gene_step + 1;
        if self.wants_to_move(now) {
            return Decision::Move(Brain::decide_move(gene, planet_stats));
        }
        let b: u8 = if self.blocked { 1 } else { 0 };
        let mut action: u8 = gene % (10 + self.resources_amount) + b;
        if action > 10 && !matches {
            action = (gene % 10) + b;
        } else if matches {
            action = action + 6;
        }
        if !self.blocked && action < 2 {
            Decision::Move(Brain::decide_move(gene, planet_stats))
        } else if action < 11 {
            Decision::Generate(Brain::decide_generation(gene, planet_stats))
        } else {
            Decision::Combine(Brain::decide_combination(gene, planet_stats))
        }
    }

    /// The basic resource the gene points at among the planet's.
    pub fn decide_generation<S>(gene: u8, planet_stats: &PlanetStats<S>) -> (r: Option<BasicResourceType>)
        ensures
            r == pick_known(planet_stats.spec_resources(), gene),
    {
        match planet_stats.resources() {
            Some(resources) => {
                if resources.len() == 0 {
                    None
                } else {
                    Some(resources[(gene as usize) % resources.len()])
                }
            },
            None => None,
        }
    }

    /// The planet's complex resources in the order to try them: reversed
    /// for an even gene.
    pub fn decide_combination<S>(gene: u8, planet_stats: &PlanetStats<S>) -> (l: Vec<ComplexResourceType>)
        ensures
            l@ == combination_order(planet_stats.spec_combinations(), gene),
    {
        match planet_stats.combinations() {
            Some(combinations) => {
                let mut out: Vec<ComplexResourceType> = Vec::new();
                let n = combinations.len();
                let mut k: usize = 0;
                while k < n
                    invariant
                        0 <= k <= n,
                        n == combinations@.len(),
                        out@.len() == k,
                        forall|j: int| 0 <= j < k ==> #[trigger] out@[j] == if gene % 2 == 0 {
                            combinations@[n - 1 - j]
                        } else {
                            combinations@[j]
                        },
                    decreases n - k,
                {
                    if gene % 2 == 0 {
                        out.push(combinations[n - 1 - k]);
                    } else {
                        out.push(combinations[k]);
                    }
                    k = k + 1;
                }
                assert(out@ =~= combination_order(planet_stats.spec_combinations(), gene));
                out
            },
            None => Vec::new(),
        }
    }

    /// The neighbor the gene points at.
    pub fn decide_move<S>(gene: u8, planet_stats: &PlanetStats<S>) -> (n: Option<u32>)
        ensures
            n == pick_known(planet_stats.spec_neighbors(), gene),
    {
        match planet_stats.neighbors() {
            Some(neighbors) => {
                if neighbors.len() == 0 {
                    None
                } else {
                    Some(neighbors[(gene as usize) % neighbors.len()])
                }
            },
            None => None,
        }
    }
}

} // verus!
