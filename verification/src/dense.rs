//! Vectors and square matrices of a fixed dimension, with the operations of
//! the numeric capability set built on an [`Arithmetic`].
//!
//! Sums run from the first entry to the last, starting from zero, so that
//! every result is one fixed expression in the operations of the
//! arithmetic.

use vstd::prelude::*;
use core::marker::PhantomData;
use crate::float::Float;
use crate::numeric::{Arithmetic, Duplicate, Hessian, Parameter};

verus! {

/// A vector of `N` numbers.
#[derive(Debug, PartialEq)]
pub struct Vector<const N: usize, A> {
    pub entries: [Float; N],
    pub arithmetic: PhantomData<A>,
}

/// An `N` by `N` matrix, row by row.
#[derive(Debug, PartialEq)]
pub struct Matrix<const N: usize, A> {
    pub rows: [[Float; N]; N],
    pub arithmetic: PhantomData<A>,
}

/// The array that holds the entries `s`.
pub open spec fn array_of<const N: usize>(s: Seq<Float>) -> [Float; N] {
    choose|a: [Float; N]| a@ == s
}

/// The inner product of the first `n` entries of `a` and `b`: zero, plus
/// the products of the entries, first to last.
pub open spec fn inner<A: Arithmetic>(a: Seq<Float>, b: Seq<Float>, n: nat) -> Float
    decreases n,
{
    if n == 0 {
        Float::spec_zero()
    } else {
        let k = (n - 1) as nat;
        A::spec_sum(inner::<A>(a, b, k), A::spec_product(a[k as int], b[k as int]))
    }
}

/// Every entry zero.
pub open spec fn zeros(n: nat) -> Seq<Float> {
    Seq::new(n, |i: int| Float::spec_zero())
}

/// Every entry of `a` times `factor`.
pub open spec fn scaled_entries<A: Arithmetic>(a: Seq<Float>, factor: Float) -> Seq<Float> {
    Seq::new(a.len(), |i: int| A::spec_product(a[i], factor))
}

/// The entries of `a` plus those of `b`.
pub open spec fn summed_entries<A: Arithmetic>(a: Seq<Float>, b: Seq<Float>) -> Seq<Float> {
    Seq::new(a.len(), |i: int| A::spec_sum(a[i], b[i]))
}

/// The inner products of the rows with `v`.
pub open spec fn applied_rows<const N: usize, A: Arithmetic>(
    rows: Seq<[Float; N]>,
    v: Seq<Float>,
) -> Seq<Float> {
    Seq::new(rows.len(), |i: int| inner::<A>(rows[i]@, v, N as nat))
}

/// Computes the inner product of two arrays.
fn inner_product<const N: usize, A: Arithmetic>(a: &[Float; N], b: &[Float; N]) -> (r: Float)
    ensures
        r == inner::<A>(a@, b@, N as nat),
{
    let mut sum = Float::zero();
    let mut i: usize = 0;
    while i < N
        invariant
            i <= N,
            sum == inner::<A>(a@, b@, i as nat),
        decreases N - i,
    {
        sum = A::sum(sum, A::product(a[i], b[i]));
        i = i + 1;
    }
    sum
}

impl<const N: usize, A> Vector<N, A> {
    /// The vector with the entries `s`.
    pub open spec fn with_entries(s: Seq<Float>) -> Self {
        Vector { entries: array_of::<N>(s), arithmetic: PhantomData }
    }

    pub fn new(entries: [Float; N]) -> (v: Self)
        ensures
            v.entries == entries,
    {
        Vector { entries, arithmetic: PhantomData }
    }

    /// Wraps the array that was computed for the entries `s`.
    fn holding(entries: [Float; N], Ghost(s): Ghost<Seq<Float>>) -> (v: Self)
        requires
            entries@ =~= s,
        ensures
            v == Self::with_entries(s),
    {
        assert(entries =~= array_of::<N>(s));
        Vector { entries, arithmetic: PhantomData }
    }

    /// The array of zeros.
    fn zero_entries() -> (entries: [Float; N])
        ensures
            entries@ =~= zeros(N as nat),
    {
        let zero = Float::zero();
        let entries = [zero;N];
        assert(entries == vstd::array::spec_array_fill_for_copy_type::<Float, N>(zero));
        entries
    }
}

impl<const N: usize, A> Matrix<N, A> {
    pub fn new(rows: [[Float; N]; N]) -> (m: Self)
        ensures
            m.rows == rows,
    {
        Matrix { rows, arithmetic: PhantomData }
    }
}

impl<const N: usize, A> Clone for Vector<N, A> {
    fn clone(&self) -> (r: Self)
        ensures
            r == *self,
    {
        Vector { entries: self.entries, arithmetic: PhantomData }
    }
}

impl<const N: usize, A> Clone for Matrix<N, A> {
    fn clone(&self) -> (r: Self)
        ensures
            r == *self,
    {
        Matrix { rows: self.rows, arithmetic: PhantomData }
    }
}

impl<const N: usize, A> Duplicate for Vector<N, A> {
    fn duplicate(&self) -> (r: Self) {
        Vector { entries: self.entries, arithmetic: PhantomData }
    }
}

impl<const N: usize, A> Duplicate for Matrix<N, A> {
    fn duplicate(&self) -> (r: Self) {
        Matrix { rows: self.rows, arithmetic: PhantomData }
    }
}

impl<const N: usize, A: Arithmetic> Parameter for Vector<N, A> {
    open spec fn spec_empty() -> Self {
        Self::with_entries(zeros(N as nat))
    }

    open spec fn spec_zero_like(&self) -> Self {
        Self::with_entries(zeros(N as nat))
    }

    open spec fn spec_dot(&self, other: &Self) -> Float {
        inner::<A>(self.entries@, other.entries@, N as nat)
    }

    open spec fn spec_norm(&self) -> Float {
        A::spec_square_root(inner::<A>(self.entries@, self.entries@, N as nat))
    }

    open spec fn spec_scaled(&self, factor: Float) -> Self {
        Self::with_entries(scaled_entries::<A>(self.entries@, factor))
    }

    open spec fn spec_plus(&self, other: &Self) -> Self {
        Self::with_entries(summed_entries::<A>(self.entries@, other.entries@))
    }

    /// The zero vector.
    fn empty() -> (r: Self) {
        Self::holding(Self::zero_entries(), Ghost(zeros(N as nat)))
    }

    fn zero_like(&self) -> (r: Self) {
        Self::holding(Self::zero_entries(), Ghost(zeros(N as nat)))
    }

    fn dot(&self, other: &Self) -> (r: Float) {
        inner_product::<N, A>(&self.entries, &other.entries)
    }

    fn norm(&self) -> (r: Float) {
        A::square_root(inner_product::<N, A>(&self.entries, &self.entries))
    }

    fn scaled(&self, factor: Float) -> (r: Self) {
        let mut out = Vector::<N, A>::zero_entries();
        let mut i: usize = 0;
        while i < N
            invariant
                i <= N,
                forall|j: int|
                    0 <= j < i ==> #[trigger] out@[j] == A::spec_product(self.entries@[j], factor),
            decreases N - i,
        {
            out[i] = A::product(self.entries[i], factor);
            i = i + 1;
        }
        Self::holding(out, Ghost(scaled_entries::<A>(self.entries@, factor)))
    }

    fn plus(&self, other: &Self) -> (r: Self) {
        let mut out = Vector::<N, A>::zero_entries();
        let mut i: usize = 0;
        while i < N
            invariant
                i <= N,
                forall|j: int|
                    0 <= j < i ==> #[trigger] out@[j] == A::spec_sum(
                        self.entries@[j],
                        other.entries@[j],
                    ),
            decreases N - i,
        {
            out[i] = A::sum(self.entries[i], other.entries[i]);
            i = i + 1;
        }
        Self::holding(out, Ghost(summed_entries::<A>(self.entries@, other.entries@)))
    }
}

impl<const N: usize, A: Arithmetic> Hessian<Vector<N, A>> for Matrix<N, A> {
    open spec fn spec_apply(&self, v: &Vector<N, A>) -> Vector<N, A> {
        Vector::with_entries(applied_rows::<N, A>(self.rows@, v.entries@))
    }

    open spec fn spec_weighted_dot(&self, left: &Vector<N, A>, right: &Vector<N, A>) -> Float {
        left.spec_dot(&self.spec_apply(right))
    }

    fn apply(&self, v: &Vector<N, A>) -> (r: Vector<N, A>) {
        let mut out = Vector::<N, A>::zero_entries();
        let mut i: usize = 0;
        while i < N
            invariant
                i <= N,
                forall|j: int|
                    0 <= j < i ==> #[trigger] out@[j] == inner::<A>(
                        self.rows@[j]@,
                        v.entries@,
                        N as nat,
                    ),
            decreases N - i,
        {
            out[i] = inner_product::<N, A>(&self.rows[i], &v.entries);
            i = i + 1;
        }
        Vector::holding(out, Ghost(applied_rows::<N, A>(self.rows@, v.entries@)))
    }

    fn weighted_dot(&self, left: &Vector<N, A>, right: &Vector<N, A>) -> (r: Float) {
        left.dot(&self.apply(right))
    }
}

} // verus!
