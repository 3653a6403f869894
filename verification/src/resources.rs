//! The ten resources of the game, their order, their value and their recipes.
use vstd::prelude::*;

use crate::config::{BASIC_RESOURCE_WEIGHT, COMPLEX_RESOURCE_WEIGHT};
use crate::vector::{basic_flag, complex_flag, ResourceVector};

verus! {

/// Resources that a planet generates from energy alone.
#[derive(Clone, Copy, Debug, PartialEq, Eq, Structural, Hash)]
pub enum BasicResourceType {
    Carbon,
    Hydrogen,
    Oxygen,
    Silicon,
}

/// Resources that a planet combines from two others.
#[derive(Clone, Copy, Debug, PartialEq, Eq, Structural, Hash)]
pub enum ComplexResourceType {
    Diamond,
    Water,
    Life,
    Robot,
    Dolphin,
    AIPartner,
}

/// Any resource of the game.
#[derive(Clone, Copy, Debug, PartialEq, Eq, Structural, Hash)]
pub enum ResourceType {
    Basic(BasicResourceType),
    Complex(ComplexResourceType),
}

/// The resource table: position `i` of every resource vector stands for `resource_at(i)`.
pub open spec fn spec_resource_at(i: int) -> ResourceType {
    if i == 0 {
        ResourceType::Basic(BasicResourceType::Carbon)
    } else if i == 1 {
        ResourceType::Basic(BasicResourceType::Hydrogen)
    } else if i == 2 {
        ResourceType::Basic(BasicResourceType::Oxygen)
    } else if i == 3 {
        ResourceType::Basic(BasicResourceType::Silicon)
    } else if i == 4 {
        ResourceType::Complex(ComplexResourceType::Diamond)
    } else if i == 5 {
        ResourceType::Complex(ComplexResourceType::Water)
    } else if i == 6 {
        ResourceType::Complex(ComplexResourceType::Life)
    } else if i == 7 {
        ResourceType::Complex(ComplexResourceType::Robot)
    } else if i == 8 {
        ResourceType::Complex(ComplexResourceType::Dolphin)
    } else {
        ResourceType::Complex(ComplexResourceType::AIPartner)
    }
}

/// Position of a resource in the resource table.
pub open spec fn spec_resource_index(r: ResourceType) -> int {
    match r {
        ResourceType::Basic(BasicResourceType::Carbon) => 0,
        ResourceType::Basic(BasicResourceType::Hydrogen) => 1,
        ResourceType::Basic(BasicResourceType::Oxygen) => 2,
        ResourceType::Basic(BasicResourceType::Silicon) => 3,
        ResourceType::Complex(ComplexResourceType::Diamond) => 4,
        ResourceType::Complex(ComplexResourceType::Water) => 5,
        ResourceType::Complex(ComplexResourceType::Life) => 6,
        ResourceType::Complex(ComplexResourceType::Robot) => 7,
        ResourceType::Complex(ComplexResourceType::Dolphin) => 8,
        ResourceType::Complex(ComplexResourceType::AIPartner) => 9,
    }
}

/// Position of a basic resource in the resource table.
pub open spec fn basic_index(b: BasicResourceType) -> int {
    spec_resource_index(ResourceType::Basic(b))
}

/// Position of a complex resource in the resource table.
pub open spec fn complex_index(c: ComplexResourceType) -> int {
    spec_resource_index(ResourceType::Complex(c))
}

/// Performance points a resource is worth.
pub open spec fn spec_resource_value(r: ResourceType) -> u64 {
    match r {
        ResourceType::Basic(_) => BASIC_RESOURCE_WEIGHT,
        ResourceType::Complex(ComplexResourceType::Dolphin) => (COMPLEX_RESOURCE_WEIGHT * 2) as u64,
        ResourceType::Complex(ComplexResourceType::AIPartner) => (COMPLEX_RESOURCE_WEIGHT * 2) as u64,
        ResourceType::Complex(_) => COMPLEX_RESOURCE_WEIGHT,
    }
}

/// The two ingredients (as table positions) of a complex resource.
pub open spec fn recipe(c: ComplexResourceType) -> (int, int) {
    match c {
        ComplexResourceType::Diamond => (0, 0),
        ComplexResourceType::Water => (1, 2),
        ComplexResourceType::Life => (0, 5),
        ComplexResourceType::Robot => (3, 6),
        ComplexResourceType::Dolphin => (5, 6),
        ComplexResourceType::AIPartner => (4, 7),
    }
}

/// The complex resource at a table position in `4..10`.
pub open spec fn complex_at(i: int) -> ComplexResourceType {
    match spec_resource_at(i) {
        ResourceType::Complex(c) => c,
        ResourceType::Basic(_) => ComplexResourceType::Diamond,
    }
}

/// The basic resource at a table position in `0..4`.
pub open spec fn basic_at(i: int) -> BasicResourceType {
    match spec_resource_at(i) {
        ResourceType::Basic(b) => b,
        ResourceType::Complex(_) => BasicResourceType::Carbon,
    }
}

/// Index for each resource type: its position in the resource table.
pub fn resource_index(resource: ResourceType) -> (i: usize)
    ensures
        i < 10,
        spec_resource_at(i as int) == resource,
        i == spec_resource_index(resource),
{
    match resource {
        ResourceType::Basic(BasicResourceType::Carbon) => 0,
        ResourceType::Basic(BasicResourceType::Hydrogen) => 1,
        ResourceType::Basic(BasicResourceType::Oxygen) => 2,
        ResourceType::Basic(BasicResourceType::Silicon) => 3,
        ResourceType::Complex(ComplexResourceType::Diamond) => 4,
        ResourceType::Complex(ComplexResourceType::Water) => 5,
        ResourceType::Complex(ComplexResourceType::Life) => 6,
        ResourceType::Complex(ComplexResourceType::Robot) => 7,
        ResourceType::Complex(ComplexResourceType::Dolphin) => 8,
        ResourceType::Complex(ComplexResourceType::AIPartner) => 9,
    }
}

/// The resource at a position of the resource table.
pub fn resource_at(i: usize) -> (r: ResourceType)
    requires
        i < 10,
    ensures
        r == spec_resource_at(i as int),
        spec_resource_index(r) == i,
{
    if i == 0 {
        ResourceType::Basic(BasicResourceType::Carbon)
    } else if i == 1 {
        ResourceType::Basic(BasicResourceType::Hydrogen)
    } else if i == 2 {
        ResourceType::Basic(BasicResourceType::Oxygen)
    } else if i == 3 {
        ResourceType::Basic(BasicResourceType::Silicon)
    } else if i == 4 {
        ResourceType::Complex(ComplexResourceType::Diamond)
    } else if i == 5 {
        ResourceType::Complex(ComplexResourceType::Water)
    } else if i == 6 {
        ResourceType::Complex(ComplexResourceType::Life)
    } else if i == 7 {
        ResourceType::Complex(ComplexResourceType::Robot)
    } else if i == 8 {
        ResourceType::Complex(ComplexResourceType::Dolphin)
    } else {
        ResourceType::Complex(ComplexResourceType::AIPartner)
    }
}

/// The basic resource at a position in `0..4` of the resource table.
pub fn basic_resource_at(i: usize) -> (b: BasicResourceType)
    requires
        i < 4,
    ensures
        b == basic_at(i as int),
        basic_index(b) == i,
{
    if i == 0 {
        BasicResourceType::Carbon
    } else if i == 1 {
        BasicResourceType::Hydrogen
    } else if i == 2 {
        BasicResourceType::Oxygen
    } else {
        BasicResourceType::Silicon
    }
}

/// The complex resource at a position in `4..10` of the resource table.
pub fn complex_resource_at(i: usize) -> (c: ComplexResourceType)
    requires
        4 <= i < 10,
    ensures
        c == complex_at(i as int),
        complex_index(c) == i,
{
    if i == 4 {
        ComplexResourceType::Diamond
    } else if i == 5 {
        ComplexResourceType::Water
    } else if i == 6 {
        ComplexResourceType::Life
    } else if i == 7 {
        ComplexResourceType::Robot
    } else if i == 8 {
        ComplexResourceType::Dolphin
    } else {
        ComplexResourceType::AIPartner
    }
}

/// Value for each resource.
pub fn resource_value(resource: ResourceType) -> (v: u64)
    ensures
        v == spec_resource_value(resource),
{
    match resource {
        ResourceType::Basic(_) => BASIC_RESOURCE_WEIGHT,
        ResourceType::Complex(ComplexResourceType::Dolphin)
        | ResourceType::Complex(ComplexResourceType::AIPartner) => COMPLEX_RESOURCE_WEIGHT * 2,
        ResourceType::Complex(_) => COMPLEX_RESOURCE_WEIGHT,
    }
}

/// The resource table and the index function are inverse to each other:
/// every resource sits at exactly one position of the table, and every
/// position of the table holds exactly one resource.
pub proof fn lemma_resource_table_bijection(r: ResourceType, i: int)
    requires
        0 <= i < 10,
    ensures
        spec_resource_at(spec_resource_index(r)) == r,
        0 <= spec_resource_index(r) < 10,
        spec_resource_index(spec_resource_at(i)) == i,
        (spec_resource_index(r) == i) <==> (spec_resource_at(i) == r),
{
}

/// Total count, over the entries of a bag listing, of the resource at position `i`.
pub open spec fn bag_count(amounts: Seq<(ResourceType, u64)>, i: int) -> int
    decreases amounts.len(),
{
    if amounts.len() == 0 {
        0
    } else {
        let last = amounts.last();
        bag_count(amounts.drop_last(), i) + if spec_resource_index(last.0) == i {
            last.1 as int
        } else {
            0
        }
    }
}

/// Whether a bag with counts `bag` holds the ingredients of `c`.
pub open spec fn can_craft(bag: Seq<u64>, c: ComplexResourceType) -> bool {
    let (a, b) = recipe(c);
    if a == b {
        bag[a] >= 2
    } else {
        bag[a] > 0 && bag[b] > 0
    }
}

/// The crafting flag of position `i`: every basic resource can be obtained,
/// a complex one only when the bag holds its ingredients.
pub open spec fn crafting_flag(bag: Seq<u64>, i: int) -> u64 {
    if i < 4 {
        1
    } else if can_craft(bag, complex_at(i)) {
        1
    } else {
        0
    }
}

proof fn lemma_bag_count_prefix(amounts: Seq<(ResourceType, u64)>, j: int, i: int)
    requires
        0 <= j <= amounts.len(),
    ensures
        0 <= bag_count(amounts.take(j), i) <= bag_count(amounts, i),
    decreases amounts.len(),
{
    if j == amounts.len() {
        assert(amounts.take(j) =~= amounts);
        lemma_bag_count_nonneg(amounts, i);
    } else {
        assert(amounts.drop_last().take(j) =~= amounts.take(j));
        lemma_bag_count_prefix(amounts.drop_last(), j, i);
    }
}

proof fn lemma_bag_count_nonneg(amounts: Seq<(ResourceType, u64)>, i: int)
    ensures
        0 <= bag_count(amounts, i),
    decreases amounts.len(),
{
    if amounts.len() > 0 {
        lemma_bag_count_nonneg(amounts.drop_last(), i);
    }
}

/// Builds the bag vector (the count of each resource) from the listing of
/// the bag's content: pairs of a resource and an amount.
pub fn build_bag_vector(amounts: &Vec<(ResourceType, u64)>) -> (v: ResourceVector)
    requires
        forall|i: int| 0 <= i < 10 ==> #[trigger] bag_count(amounts@, i) <= u64::MAX,
    ensures
        v@.len() == 10,
        forall|i: int| 0 <= i < 10 ==> #[trigger] v@[i] == bag_count(amounts@, i),
{
    let mut bag_vector = [0u64;10];
    let mut j: usize = 0;
    assert(amounts@.take(0) =~= Seq::<(ResourceType, u64)>::empty());
    while j < amounts.len()
        invariant
            0 <= j <= amounts.len(),
            forall|i: int| 0 <= i < 10 ==> #[trigger] bag_count(amounts@, i) <= u64::MAX,
            forall|i: int| 0 <= i < 10 ==> #[trigger] bag_vector@[i] == bag_count(amounts@.take(j as int), i),
        decreases amounts.len() - j,
    {
        let (resource, count) = amounts[j];
        let idx = resource_index(resource);
        proof {
            let next = amounts@.take(j + 1);
            assert(next.drop_last() =~= amounts@.take(j as int));
            assert(next.last() == (resource, count));
            lemma_bag_count_prefix(amounts@, j + 1, idx as int);
        }
        bag_vector[idx] = bag_vector[idx] + count;
        proof {
            let next = amounts@.take(j + 1);
            assert forall|i: int| 0 <= i < 10 implies #[trigger] bag_vector@[i] == bag_count(next, i) by {
                assert(next.drop_last() =~= amounts@.take(j as int));
            }
        }
        j = j + 1;
    }
    assert(amounts@.take(amounts.len() as int) =~= amounts@);
    ResourceVector::new(bag_vector)
}

/// Builds the crafting vector from the bag vector: 1 for every basic
/// resource, and 1 for a complex resource exactly when the bag holds the
/// ingredients of its recipe.
pub fn build_crafting_vector(bag_vector: &ResourceVector) -> (cv: ResourceVector)
    requires
        bag_vector@.len() == 10,
    ensures
        cv@.len() == 10,
        forall|i: int| 0 <= i < 10 ==> #[trigger] cv@[i] == crafting_flag(bag_vector@, i),
{
    let b = bag_vector.get();
    let mut cv = [1u64;10];
    cv[4] = if b[0] >= 2 { 1 } else { 0 };  // Diamond
    cv[5] = if b[1] > 0 && b[2] > 0 { 1 } else { 0 };  // Water
    cv[6] = if b[0] > 0 && b[5] > 0 { 1 } else { 0 };  // Life
    cv[7] = if b[3] > 0 && b[6] > 0 { 1 } else { 0 };  // Robot
    cv[8] = if b[5] > 0 && b[6] > 0 { 1 } else { 0 };  // Dolphin
    cv[9] = if b[4] > 0 && b[7] > 0 { 1 } else { 0 };  // AIPartner
    ResourceVector::new(cv)
}

/// The capabilities of a planet: 1 for each resource it can generate or combine.
pub fn build_capabilities(
    basic_resources: &Vec<BasicResourceType>,
    complex_resources: &Vec<ComplexResourceType>,
) -> (caps: ResourceVector)
    ensures
        caps@.len() == 10,
        forall|i: int| 0 <= i < 4 ==> #[trigger] caps@[i] == basic_flag(basic_resources@, i),
        forall|i: int| 4 <= i < 10 ==> #[trigger] caps@[i] == complex_flag(complex_resources@, i),
{
    let mut caps = ResourceVector::zeros();
    caps.set_basic(basic_resources);
    caps.set_complex(complex_resources);
    caps
}

} // verus!
