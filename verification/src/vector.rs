//! Fixed-size vectors, stored as one-row matrices.

use crate::matrix::StaticMatrix;
use crate::scalar::Scalar;
use vstd::prelude::*;

verus! {

/// A vector of `N` entries over a scalar element type, stored as a
/// matrix with a single row.
#[derive(Clone, Copy, Debug, PartialEq, Eq)]
pub struct Vector<T, const N: usize> where T: Scalar {
    data: StaticMatrix<T, 1, N>,
}

impl<T, const N: usize> View for Vector<T, N> where T: Scalar {
    type V = Seq<T>;

    closed spec fn view(&self) -> Seq<T> {
        self.data@[0]
    }
}

impl<T, const N: usize> Vector<T, N> where T: Scalar {
    /// Every vector view has `N` entries.
    pub proof fn lemma_len(self)
        ensures
            self@.len() == N,
    {
        self.data.lemma_shape();
    }

    /// Wrap an array of entries as a vector.
    pub fn new(data: [T; N]) -> (r: Self)
        ensures
            r@.len() == N,
            forall|i: int| 0 <= i < N ==> #[trigger] r@[i] == data@[i],
    {
        let m = StaticMatrix::new([data]);
        proof {
            m.lemma_shape();
            assert forall|i: int| 0 <= i < N implies #[trigger] m@[0][i] == data@[i] by {
                assert(m@[0][i] == [data]@[0]@[i]);
            }
        }
        Vector { data: m }
    }

    /// Borrow the entry at position `i`.
    pub fn get(&self, i: usize) -> (r: &T)
        requires
            i < N,
        ensures
            *r == self@[i as int],
    {
        self.data.get(0, i)
    }

    /// Replace the entry at position `i` with `value`, leaving every
    /// other entry as it was.
    pub fn set(&mut self, i: usize, value: T)
        requires
            i < N,
        ensures
            final(self)@.len() == N,
            final(self)@[i as int] == value,
            forall|j: int|
                0 <= j < N && j != i ==> #[trigger] final(self)@[j] == old(self)@[j],
    {
        self.data.set(0, i, value);
    }

    /// Entrywise sum of two vectors of the same length.
    pub fn add(&self, rhs: &Self) -> (r: Self)
        ensures
            r@.len() == N,
            forall|i: int| 0 <= i < N ==> #[trigger] r@[i] == self@[i].add_spec(rhs@[i]),
    {
        Vector { data: self.data.add(&rhs.data) }
    }

    /// Entrywise product of two vectors of the same length.
    pub fn mul(&self, rhs: &Self) -> (r: Self)
        ensures
            r@.len() == N,
            forall|i: int| 0 <= i < N ==> #[trigger] r@[i] == self@[i].mul_spec(rhs@[i]),
    {
        let mut out = *self;
        let mut i: usize = 0;
        proof {
            self.lemma_len();
            rhs.lemma_len();
            out.lemma_len();
        }
        while i < N
            invariant
                i <= N,
                out@.len() == N,
                self@.len() == N,
                rhs@.len() == N,
                forall|j: int| 0 <= j < i ==> #[trigger] out@[j] == self@[j].mul_spec(rhs@[j]),
                forall|j: int| i <= j < N ==> #[trigger] out@[j] == self@[j],
            decreases N - i,
        {
            let v = *self.get(i);
            let w = *rhs.get(i);
            out.set(i, v.mul(w));
            i += 1;
        }
        out
    }

    /// Add `scalar` to every entry.
    pub fn add_scalar(&self, scalar: T) -> (r: Self)
        ensures
            r@.len() == N,
            forall|i: int| 0 <= i < N ==> #[trigger] r@[i] == self@[i].add_spec(scalar),
    {
        let mut out = *self;
        let mut i: usize = 0;
        proof {
            self.lemma_len();
            out.lemma_len();
        }
        while i < N
            invariant
                i <= N,
                out@.len() == N,
                self@.len() == N,
                forall|j: int| 0 <= j < i ==> #[trigger] out@[j] == self@[j].add_spec(scalar),
                forall|j: int| i <= j < N ==> #[trigger] out@[j] == self@[j],
            decreases N - i,
        {
            let v = *self.get(i);
            out.set(i, v.add(scalar));
            i += 1;
        }
        out
    }

    /// Scale every entry by `scalar`.
    pub fn scale(&self, scalar: T) -> (r: Self)
        ensures
            r@.len() == N,
            forall|i: int| 0 <= i < N ==> #[trigger] r@[i] == self@[i].mul_spec(scalar),
    {
        Vector { data: self.data.scale(scalar) }
    }
}

} // verus!
