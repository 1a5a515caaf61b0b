use vstd::prelude::*;

verus! {

/// The closed set of element kinds a tensor operand may carry.
#[derive(Clone, Copy, Debug, PartialEq, Eq, Structural)]
pub enum Dtype {
    Float32,
    Int32,
}

/// A value with an additive identity, used to fill placeholder buffers
/// for operator outputs before a compute pass runs.
pub trait Zero: Sized {
    spec fn spec_zero() -> Self;

    fn zero() -> (r: Self)
        ensures
            r == Self::spec_zero(),
    ;
}

impl Zero for i32 {
    open spec fn spec_zero() -> i32 {
        0
    }

    fn zero() -> i32 {
        0
    }
}

/// A tensor element type: an additive identity, wrapping ring operations
/// with exact specifications, and the descriptor tag recorded for it in
/// the graph.
pub trait NumericType: Zero + Copy {
    spec fn spec_dtype() -> Dtype;

    spec fn spec_add(self, other: Self) -> Self;

    spec fn spec_mul(self, other: Self) -> Self;

    fn dtype() -> (r: Dtype)
        ensures
            r == Self::spec_dtype(),
    ;

    fn add_elem(self, other: Self) -> (r: Self)
        ensures
            r == self.spec_add(other),
    ;

    fn mul_elem(self, other: Self) -> (r: Self)
        ensures
            r == self.spec_mul(other),
    ;
}

impl NumericType for i32 {
    open spec fn spec_dtype() -> Dtype {
        Dtype::Int32
    }

    open spec fn spec_add(self, other: i32) -> i32 {
        vstd::wrapping::i32_specs::wrapping_add(self, other)
    }

    open spec fn spec_mul(self, other: i32) -> i32 {
        vstd::wrapping::i32_specs::wrapping_mul(self, other)
    }

    fn dtype() -> Dtype {
        Dtype::Int32
    }

    fn add_elem(self, other: i32) -> i32 {
        self.wrapping_add(other)
    }

    fn mul_elem(self, other: i32) -> i32 {
        self.wrapping_mul(other)
    }
}

/// An element-for-element copy of a vector of plain values.
pub fn copy_vec<T: Copy>(v: &Vec<T>) -> (r: Vec<T>)
    ensures
        r@ == v@,
{
    let mut r: Vec<T> = Vec::new();
    let mut i: usize = 0;
    while i < v.len()
        invariant
            i <= v@.len(),
            r@ == v@.take(i as int),
        decreases v@.len() - i,
    {
        r.push(v[i]);
        proof {
            assert(v@.take(i as int).push(v@[i as int]) =~= v@.take(i as int + 1));
        }
        i += 1;
    }
    proof {
        assert(v@.take(v@.len() as int) =~= v@);
    }
    r
}

/// A zero-filled placeholder buffer of the given length.
pub fn zero_vec<T: Zero>(n: usize) -> (r: Vec<T>)
    ensures
        r@.len() == n,
        forall|i: int| 0 <= i < n ==> r@[i] == T::spec_zero(),
{
    let mut r: Vec<T> = Vec::new();
    let mut i: usize = 0;
    while i < n
        invariant
            i <= n,
            r@.len() == i,
            forall|j: int| 0 <= j < i ==> r@[j] == T::spec_zero(),
        decreases n - i,
    {
        r.push(T::zero());
        i += 1;
    }
    r
}

} // verus!
