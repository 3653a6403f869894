//! Fixed-size vectors of ten counts, one per resource of the table.
use vstd::prelude::*;

use crate::config::NEEDS_MAGIC_NUMBER;
use crate::resources::{
    resource_index,
    basic_at, complex_at, recipe, spec_resource_index, ComplexResourceType, BasicResourceType,
    ResourceType,
};

verus! {

broadcast use vstd::array::group_array_axioms;

/// Sum of the products of the first `n` entries of `a` and `b`.
pub open spec fn spec_dot(a: Seq<u64>, b: Seq<u64>, n: int) -> int
    decreases n,
{
    if n <= 0 {
        0
    } else {
        spec_dot(a, b, n - 1) + a[n - 1] * b[n - 1]
    }
}

/// Every entry is 0 or 1.
pub open spec fn is_flags(v: Seq<u64>) -> bool {
    forall|i: int| 0 <= i < v.len() ==> #[trigger] v[i] <= 1
}

/// Every entry of the first ten is zero.
pub open spec fn spec_is_zero(v: Seq<u64>) -> bool {
    forall|i: int| 0 <= i < 10 ==> #[trigger] v[i] == 0
}

/// `i` is the last position of a maximal entry among the first ten.
pub open spec fn is_last_max(v: Seq<u64>, i: int) -> bool {
    &&& 0 <= i < 10
    &&& forall|j: int| 0 <= j < 10 ==> #[trigger] v[j] <= v[i]
    &&& forall|j: int| i < j < 10 ==> #[trigger] v[j] < v[i]
}

/// The needs that make the explorer work towards the complex resource `c`.
pub open spec fn spec_complex_needs(c: ComplexResourceType) -> Seq<u64> {
    let n = NEEDS_MAGIC_NUMBER;
    match c {
        ComplexResourceType::Diamond => seq![2, 0, 0, 0, n, 0, 0, 0, 0, 0],
        ComplexResourceType::Water => seq![0, 1, 1, 0, 0, n, 0, 0, 0, 0],
        ComplexResourceType::Life => seq![1, 1, 1, 0, 0, 1, n, 0, 0, 0],
        ComplexResourceType::Robot => seq![1, 1, 1, 1, 0, 1, 1, n, 0, 0],
        ComplexResourceType::Dolphin => seq![1, 1, 1, 0, 0, 1, 1, 0, n, 0],
        ComplexResourceType::AIPartner => seq![2, 1, 1, 1, 0, 1, 1, 1, 0, n],
    }
}

/// The needs that make the explorer work towards the resource `r`.
pub open spec fn spec_resource_needs(r: ResourceType) -> Seq<u64> {
    match r {
        ResourceType::Basic(_) => Seq::new(10, |i: int| 0u64).update(
            spec_resource_index(r),
            NEEDS_MAGIC_NUMBER,
        ),
        ResourceType::Complex(c) => spec_complex_needs(c),
    }
}

/// 1 where the basic resource of position `i` is listed, 0 otherwise.
pub open spec fn basic_flag(resources: Seq<BasicResourceType>, i: int) -> u64 {
    if resources.contains(basic_at(i)) {
        1
    } else {
        0
    }
}

/// 1 where the complex resource of position `i` is listed, 0 otherwise.
pub open spec fn complex_flag(resources: Seq<ComplexResourceType>, i: int) -> u64 {
    if resources.contains(complex_at(i)) {
        1
    } else {
        0
    }
}

/// `v` after one more unit of each ingredient of `c` is needed.
pub open spec fn spec_add_ingredients(v: Seq<u64>, c: ComplexResourceType) -> Seq<u64> {
    let (a, b) = recipe(c);
    let v1 = v.update(a, (v[a] + 1) as u64);
    v1.update(b, (v1[b] + 1) as u64)
}

/// Raising the needs for the ingredients of `c` keeps every entry in a `u64`.
pub open spec fn fits_ingredients(v: Seq<u64>, c: ComplexResourceType) -> bool {
    let (a, b) = recipe(c);
    if a == b {
        v[a] + 2 <= u64::MAX
    } else {
        v[a] + 1 <= u64::MAX && v[b] + 1 <= u64::MAX
    }
}

/// `v` after one unit of `r` has been obtained: its need drops by one, never
/// below zero.
pub open spec fn spec_decrease_need(v: Seq<u64>, r: ResourceType) -> Seq<u64> {
    let i = spec_resource_index(r);
    v.update(i, if v[i] == 0 { 0u64 } else { (v[i] - 1) as u64 })
}

/// Ten counts, one per position of the resource table.
#[derive(Clone, Copy, Debug)]
pub struct ResourceVector(pub [u64; 10]);

impl View for ResourceVector {
    type V = Seq<u64>;

    open spec fn view(&self) -> Seq<u64> {
        self.0@
    }
}

impl ResourceVector {
    /// Creates a new `ResourceVector` from an array.
    pub fn new(vec: [u64; 10]) -> (r: Self)
        ensures
            r@ == vec@,
    {
        ResourceVector(vec)
    }

    /// Creates a new `ResourceVector` initialized with all zeros.
    pub fn zeros() -> (r: Self)
        ensures
            r@.len() == 10,
            spec_is_zero(r@),
    {
        ResourceVector([0;10])
    }

    /// Element-wise product of two vectors.
    pub fn mul(self, rhs: ResourceVector) -> (r: ResourceVector)
        requires
            forall|i: int| 0 <= i < 10 ==> self@[i] * rhs@[i] <= u64::MAX,
        ensures
            r@.len() == 10,
            forall|i: int| 0 <= i < 10 ==> #[trigger] r@[i] == self@[i] * rhs@[i],
    {
        let mut out = [0u64;10];
        let mut i: usize = 0;
        while i < 10
            invariant
                0 <= i <= 10,
                forall|k: int| 0 <= k < 10 ==> self@[k] * rhs@[k] <= u64::MAX,
                forall|k: int| 0 <= k < i ==> #[trigger] out@[k] == self@[k] * rhs@[k],
            decreases 10 - i,
        {
            assert(self@[i as int] * rhs@[i as int] <= u64::MAX);
            let p = self.0[i] * rhs.0[i];
            out[i] = p;
            i = i + 1;
        }
        ResourceVector(out)
    }

    /// Gets the internal array.
    pub fn get(&self) -> (a: [u64; 10])
        ensures
            a@ == self@,
    {
        self.0
    }

    /// Checks whether every entry is zero.
    pub fn is_zero(&self) -> (b: bool)
        ensures
            b == spec_is_zero(self@),
    {
        let mut i: usize = 0;
        while i < 10
            invariant
                0 <= i <= 10,
                forall|k: int| 0 <= k < i ==> #[trigger] self@[k] == 0,
            decreases 10 - i,
        {
            if self.0[i] != 0 {
                return false;
            }
            i = i + 1;
        }
        true
    }

    /// Whether the needs for the ingredients of a combination request for
    /// `complex_request` can be raised (see `increase_needs`).
    pub fn can_increase_needs(&self, complex_request: ComplexResourceType) -> (b: bool)
        ensures
            b == fits_ingredients(self@, complex_request),
    {
        match complex_request {
            ComplexResourceType::Diamond => self.0[0] <= u64::MAX - 2,
            ComplexResourceType::Water => self.0[1] < u64::MAX && self.0[2] < u64::MAX,
            ComplexResourceType::Life => self.0[0] < u64::MAX && self.0[5] < u64::MAX,
            ComplexResourceType::Robot => self.0[3] < u64::MAX && self.0[6] < u64::MAX,
            ComplexResourceType::Dolphin => self.0[5] < u64::MAX && self.0[6] < u64::MAX,
            ComplexResourceType::AIPartner => self.0[4] < u64::MAX && self.0[7] < u64::MAX,
        }
    }

    /// Whether the dot product of flags `self` with `rhs` fits in a `u64`.
    pub fn dot_fits(&self, rhs: &ResourceVector) -> (b: bool)
        requires
            is_flags(self@),
        ensures
            b == (spec_dot(self@, rhs@, 10) <= u64::MAX),
    {
        let mut sum: u128 = 0;
        let mut i: usize = 0;
        while i < 10
            invariant
                0 <= i <= 10,
                is_flags(self@),
                sum == spec_dot(self@, rhs@, i as int),
                sum <= i * u64::MAX,
            decreases 10 - i,
        {
            let f = self.0[i];
            let x = rhs.0[i];
            proof {
                lemma_mul_flag(x, f);
                assert(f * x == x * f) by (nonlinear_arith);
            }
            let term: u128 = if f == 0 { 0 } else { x as u128 };
            assert(term == f * x);
            sum = sum + term;
            i = i + 1;
        }
        sum <= u64::MAX as u128
    }

    /// Dot product of two vectors.
    pub fn dot(&self, rhs: &ResourceVector) -> (d: u64)
        requires
            spec_dot(self@, rhs@, 10) <= u64::MAX,
        ensures
            d == spec_dot(self@, rhs@, 10),
    {
        let mut sum: u64 = 0;
        let mut i: usize = 0;
        while i < 10
            invariant
                0 <= i <= 10,
                spec_dot(self@, rhs@, 10) <= u64::MAX,
                sum == spec_dot(self@, rhs@, i as int),
            decreases 10 - i,
        {
            proof {
                lemma_dot_monotone(self@, rhs@, (i + 1) as int, 10);
            }
            sum = sum + self.0[i] * rhs.0[i];
            i = i + 1;
        }
        sum
    }

    /// Index of the greatest entry; the last one among equal greatest entries.
    pub fn max_index(&self) -> (i: usize)
        ensures
            is_last_max(self@, i as int),
    {
        let mut best: usize = 0;
        let mut i: usize = 1;
        while i < 10
            invariant
                1 <= i <= 10,
                best < i,
                forall|j: int| 0 <= j < i ==> #[trigger] self@[j] <= self@[best as int],
                forall|j: int| best < j < i ==> #[trigger] self@[j] < self@[best as int],
            decreases 10 - i,
        {
            if self.0[i] >= self.0[best] {
                best = i;
            }
            i = i + 1;
        }
        best
    }

    /// Sets to zero the basic resources, the first four entries.
    pub fn clear_basic(&mut self)
        ensures
            forall|i: int| 0 <= i < 4 ==> #[trigger] final(self)@[i] == 0,
            forall|i: int| 4 <= i < 10 ==> #[trigger] final(self)@[i] == old(self)@[i],
    {
        let mut a = self.0;
        let mut i: usize = 0;
        while i < 4
            invariant
                0 <= i <= 4,
                forall|k: int| 0 <= k < i ==> #[trigger] a@[k] == 0,
                forall|k: int| i <= k < 10 ==> #[trigger] a@[k] == old(self)@[k],
            decreases 4 - i,
        {
            a[i] = 0;
            i = i + 1;
        }
        self.0 = a;
    }

    /// Sets to zero the complex resources, the last six entries.
    pub fn clear_complex(&mut self)
        ensures
            forall|i: int| 0 <= i < 4 ==> #[trigger] final(self)@[i] == old(self)@[i],
            forall|i: int| 4 <= i < 10 ==> #[trigger] final(self)@[i] == 0,
    {
        let mut a = self.0;
        let mut i: usize = 4;
        while i < 10
            invariant
                4 <= i <= 10,
                forall|k: int| 0 <= k < 4 ==> #[trigger] a@[k] == old(self)@[k],
                forall|k: int| 4 <= k < i ==> #[trigger] a@[k] == 0,
                forall|k: int| i <= k < 10 ==> #[trigger] a@[k] == old(self)@[k],
            decreases 10 - i,
        {
            a[i] = 0;
            i = i + 1;
        }
        self.0 = a;
    }

    /// A vector with the specific needs for a complex resource: its whole
    /// recipe tree, and `NEEDS_MAGIC_NUMBER` at the resource itself.
    pub fn generate_complex_needs(complex: ComplexResourceType) -> (r: Self)
        ensures
            r@ == spec_complex_needs(complex),
    {
        let n = NEEDS_MAGIC_NUMBER;
        let r = match complex {
            ComplexResourceType::Diamond => ResourceVector([2, 0, 0, 0, n, 0, 0, 0, 0, 0]),
            ComplexResourceType::Water => ResourceVector([0, 1, 1, 0, 0, n, 0, 0, 0, 0]),
            ComplexResourceType::Life => ResourceVector([1, 1, 1, 0, 0, 1, n, 0, 0, 0]),
            ComplexResourceType::Robot => ResourceVector([1, 1, 1, 1, 0, 1, 1, n, 0, 0]),
            ComplexResourceType::Dolphin => ResourceVector([1, 1, 1, 0, 0, 1, 1, 0, n, 0]),
            ComplexResourceType::AIPartner => ResourceVector([2, 1, 1, 1, 0, 1, 1, 1, 0, n]),
        };
        assert(r@ =~= spec_complex_needs(complex));
        r
    }

    /// A vector with a high value for the given resource (and, for a
    /// complex resource, the needs of its recipe tree).
    pub fn generate_resource_needs(resource: ResourceType) -> (r: Self)
        ensures
            r@ == spec_resource_needs(resource),
    {
        match resource {
            ResourceType::Basic(res) => {
                let mut vec = ResourceVector::zeros();
                let idx = resource_index(ResourceType::Basic(res));
                vec.0[idx] = NEEDS_MAGIC_NUMBER;
                assert(vec@ =~= spec_resource_needs(resource));
                vec
            },
            ResourceType::Complex(res) => {
                let mut vec = ResourceVector::generate_complex_needs(res);
                let idx = resource_index(ResourceType::Complex(res));
                vec.0[idx] = NEEDS_MAGIC_NUMBER;
                assert(vec@ =~= spec_resource_needs(resource));
                vec
            },
        }
    }

    /// Sets the basic entries to 1 for the listed basic resources and to 0
    /// for the others; the complex entries are kept.
    pub fn set_basic(&mut self, resources: &Vec<BasicResourceType>)
        ensures
            forall|i: int| 0 <= i < 4 ==> #[trigger] final(self)@[i] == basic_flag(resources@, i),
            forall|i: int| 4 <= i < 10 ==> #[trigger] final(self)@[i] == old(self)@[i],
    {
        self.clear_basic();
        let mut a = self.0;
        assert(a@ == self@);
        let mut j: usize = 0;
        assert(resources@.take(0) =~= Seq::<BasicResourceType>::empty());
        while j < resources.len()
            invariant
                0 <= j <= resources.len(),
                forall|i: int| 0 <= i < 4 ==> #[trigger] a@[i] == basic_flag(resources@.take(j as int), i),
                forall|i: int| 4 <= i < 10 ==> #[trigger] a@[i] == old(self)@[i],
            decreases resources.len() - j,
        {
            let b = resources[j];
            let idx = resource_index(ResourceType::Basic(b));
            a[idx] = 1;
            proof {
                let prev = resources@.take(j as int);
                let next = resources@.take(j + 1);
                assert(next =~= prev.push(b));
                assert forall|i: int| 0 <= i < 4 implies #[trigger] a@[i] == basic_flag(next, i) by {
                    if i == idx {
                        assert(basic_at(i) == b);
                        assert(next.contains(b)) by { assert(next[j as int] == b); }
                    } else {
                        assert(basic_at(i) != b);
                        if next.contains(basic_at(i)) {
                            let k = choose|k: int| 0 <= k < next.len() && next[k] == basic_at(i);
                            assert(prev[k] == basic_at(i));
                        }
                        if prev.contains(basic_at(i)) {
                            let k = choose|k: int| 0 <= k < prev.len() && prev[k] == basic_at(i);
                            assert(next[k] == basic_at(i));
                        }
                    }
                }
            }
            j = j + 1;
        }
        assert(resources@.take(resources.len() as int) =~= resources@);
        self.0 = a;
    }

    /// Sets the complex entries to 1 for the listed complex resources and to 0
    /// for the others; the basic entries are kept.
    pub fn set_complex(&mut self, resources: &Vec<ComplexResourceType>)
        ensures
            forall|i: int| 0 <= i < 4 ==> #[trigger] final(self)@[i] == old(self)@[i],
            forall|i: int| 4 <= i < 10 ==> #[trigger] final(self)@[i] == complex_flag(resources@, i),
    {
        self.clear_complex();
        let mut a = self.0;
        assert(a@ == self@);
        let mut j: usize = 0;
        assert(resources@.take(0) =~= Seq::<ComplexResourceType>::empty());
        while j < resources.len()
            invariant
                0 <= j <= resources.len(),
                forall|i: int| 0 <= i < 4 ==> #[trigger] a@[i] == old(self)@[i],
                forall|i: int| 4 <= i < 10 ==> #[trigger] a@[i] == complex_flag(resources@.take(j as int), i),
            decreases resources.len() - j,
        {
            let c = resources[j];
            let idx = resource_index(ResourceType::Complex(c));
            a[idx] = 1;
            proof {
                let prev = resources@.take(j as int);
                let next = resources@.take(j + 1);
                assert(next =~= prev.push(c));
                assert forall|i: int| 4 <= i < 10 implies #[trigger] a@[i] == complex_flag(next, i) by {
                    if i == idx {
                        assert(complex_at(i) == c);
                        assert(next.contains(c)) by { assert(next[j as int] == c); }
                    } else {
                        assert(complex_at(i) != c);
                        if next.contains(complex_at(i)) {
                            let k = choose|k: int| 0 <= k < next.len() && next[k] == complex_at(i);
                            assert(prev[k] == complex_at(i));
                        }
                        if prev.contains(complex_at(i)) {
                            let k = choose|k: int| 0 <= k < prev.len() && prev[k] == complex_at(i);
                            assert(next[k] == complex_at(i));
                        }
                    }
                }
            }
            j = j + 1;
        }
        assert(resources@.take(resources.len() as int) =~= resources@);
        self.0 = a;
    }

    /// Lowers by one (not below zero) the need for a resource just obtained.
    pub fn decrease_need(&mut self, resource: ResourceType)
        ensures
            final(self)@ == spec_decrease_need(old(self)@, resource),
    {
        let idx = resource_index(resource);
        self.0[idx] = self.0[idx].saturating_sub(1);
        assert(self@ =~= spec_decrease_need(old(self)@, resource));
    }

    /// Raises by one the need for each ingredient of a combination request
    /// for `complex_request` (a diamond needs two more carbon).
    pub fn increase_needs(&mut self, complex_request: ComplexResourceType)
        requires
            fits_ingredients(old(self)@, complex_request),
        ensures
            final(self)@ == spec_add_ingredients(old(self)@, complex_request),
    {
        let indexes: (usize, usize) = match complex_request {
            ComplexResourceType::Diamond => (0, 0),
            ComplexResourceType::Water => (1, 2),
            ComplexResourceType::Life => (0, 5),
            ComplexResourceType::Robot => (3, 6),
            ComplexResourceType::Dolphin => (5, 6),
            ComplexResourceType::AIPartner => (4, 7),
        };
        self.0[indexes.0] = self.0[indexes.0] + 1;
        self.0[indexes.1] = self.0[indexes.1] + 1;
        assert(self@ =~= spec_add_ingredients(old(self)@, complex_request));
    }
}

/// A product with a flag is at most the other factor.
pub proof fn lemma_mul_flag(x: u64, f: u64)
    requires
        f <= 1,
    ensures
        0 <= x * f <= x,
        f == 0 ==> x * f == 0,
        f == 1 ==> x * f == x,
{
    assert(0 <= x * f <= x) by (nonlinear_arith)
        requires
            0 <= f <= 1,
            0 <= x,
    ;
    assert(f == 0 ==> x * f == 0) by (nonlinear_arith);
    assert(f == 1 ==> x * f == x) by (nonlinear_arith);
}

/// Partial dot products never exceed longer ones.
pub proof fn lemma_dot_monotone(a: Seq<u64>, b: Seq<u64>, m: int, n: int)
    requires
        0 <= m <= n,
    ensures
        0 <= spec_dot(a, b, m) <= spec_dot(a, b, n),
    decreases n - m,
{
    if m < n {
        lemma_dot_monotone(a, b, m, n - 1);
        assert(0 <= a[n - 1] * b[n - 1]) by (nonlinear_arith);
    } else if m > 0 {
        lemma_dot_nonneg(a, b, m);
    }
}

proof fn lemma_dot_nonneg(a: Seq<u64>, b: Seq<u64>, n: int)
    ensures
        0 <= spec_dot(a, b, n),
    decreases n,
{
    if n > 0 {
        lemma_dot_nonneg(a, b, n - 1);
        assert(0 <= a[n - 1] * b[n - 1]) by (nonlinear_arith);
    }
}

/// A dot product counts every one of its first `n` terms: each is at most
/// the product, and the product is zero exactly when every term is.
pub proof fn lemma_dot_terms(a: Seq<u64>, b: Seq<u64>, n: int)
    requires
        0 <= n,
    ensures
        forall|i: int| 0 <= i < n ==> 0 <= #[trigger] (a[i] * b[i]) <= spec_dot(a, b, n),
        (spec_dot(a, b, n) == 0) <==> (forall|i: int| 0 <= i < n ==> #[trigger] (a[i] * b[i]) == 0),
    decreases n,
{
    if n > 0 {
        lemma_dot_terms(a, b, n - 1);
        lemma_dot_nonneg(a, b, n - 1);
        assert(0 <= a[n - 1] * b[n - 1]) by (nonlinear_arith);
        assert forall|i: int| 0 <= i < n implies 0 <= #[trigger] (a[i] * b[i]) <= spec_dot(a, b, n) by {
            assert(0 <= a[i] * b[i]) by (nonlinear_arith);
        }
    }
}

} // verus!
