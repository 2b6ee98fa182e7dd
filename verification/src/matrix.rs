//! Fixed-size matrices over a scalar element type.

use crate::scalar::Scalar;
use vstd::prelude::*;

verus! {

/// Whether `m` is a well-shaped view of a matrix with `r` rows and `c`
/// columns.
pub open spec fn is_shape<T>(m: Seq<Seq<T>>, r: int, c: int) -> bool {
    m.len() == r && forall|i: int| 0 <= i < r ==> (#[trigger] m[i]).len() == c
}

/// The inner product of row `i` of `m1` with column `j` of `m2`,
/// summed over the first `k` positions in order.
pub open spec fn dot_entry<T: Scalar>(
    m1: Seq<Seq<T>>,
    m2: Seq<Seq<T>>,
    i: int,
    j: int,
    k: nat,
) -> T
    decreases k,
{
    if k == 0 {
        T::zero_spec()
    } else {
        dot_entry(m1, m2, i, j, (k - 1) as nat).add_spec(m1[i][k - 1].mul_spec(m2[k - 1][j]))
    }
}

/// A matrix with `R` rows and `C` columns, fixed at compile time,
/// stored row by row.
#[derive(Clone, Copy, Debug, PartialEq, Eq)]
pub struct StaticMatrix<T, const R: usize, const C: usize> where T: Scalar {
    data: [[T; C]; R],
}

impl<T, const R: usize, const C: usize> View for StaticMatrix<T, R, C> where T: Scalar {
    type V = Seq<Seq<T>>;

    closed spec fn view(&self) -> Seq<Seq<T>> {
        self.data@.map_values(|row: [T; C]| row@)
    }
}

impl<T, const R: usize, const C: usize> StaticMatrix<T, R, C> where T: Scalar {
    /// Every matrix view has `R` rows of `C` entries each.
    pub proof fn lemma_shape(self)
        ensures
            is_shape(self@, R as int, C as int),
    {
        assert(self.data@.len() == R);
        assert forall|i: int| 0 <= i < R implies (#[trigger] self@[i]).len() == C by {
            assert(self@[i] == self.data@[i]@);
        }
    }

    /// Wrap a row-by-row array of entries as a matrix.
    pub fn new(data: [[T; C]; R]) -> (r: Self)
        ensures
            is_shape(r@, R as int, C as int),
            forall|a: int, b: int|
                0 <= a < R && 0 <= b < C ==> #[trigger] r@[a][b] == data@[a]@[b],
    {
        let m = StaticMatrix { data };
        proof {
            m.lemma_shape();
            assert forall|a: int, b: int| 0 <= a < R && 0 <= b < C implies #[trigger] m@[a][b]
                == data@[a]@[b] by {
                assert(m@[a] == data@[a]@);
            }
        }
        m
    }

    /// Borrow row `i`.
    pub fn row(&self, i: usize) -> (r: &[T; C])
        requires
            i < R,
        ensures
            r@ == self@[i as int],
    {
        proof {
            assert(self@[i as int] == self.data@[i as int]@);
        }
        &self.data[i]
    }

    /// Borrow the entry at row `i`, column `j`.
    pub fn get(&self, i: usize, j: usize) -> (r: &T)
        requires
            i < R,
            j < C,
        ensures
            *r == self@[i as int][j as int],
    {
        proof {
            assert(self@[i as int] == self.data@[i as int]@);
        }
        &self.data[i][j]
    }

    /// Replace the entry at row `i`, column `j` with `value`, leaving
    /// every other entry as it was.
    pub fn set(&mut self, i: usize, j: usize, value: T)
        requires
            i < R,
            j < C,
        ensures
            is_shape(final(self)@, R as int, C as int),
            final(self)@[i as int][j as int] == value,
            forall|a: int, b: int|
                0 <= a < R && 0 <= b < C && !(a == i && b == j) ==> #[trigger] final(self)@[a][b]
                    == old(self)@[a][b],
    {
        let mut row = self.data[i];
        row[j] = value;
        self.data[i] = row;
        proof {
            self.lemma_shape();
            assert(self@[i as int] == self.data@[i as int]@);
            assert forall|a: int, b: int|
                0 <= a < R && 0 <= b < C && !(a == i && b == j) implies #[trigger] self@[a][b]
                == old(self)@[a][b] by {
                assert(self@[a] == self.data@[a]@);
                assert(old(self)@[a] == old(self).data@[a]@);
            }
        }
    }

    /// The matrix written by this library under the name "identity":
    /// a zero fill whose diagonal is written explicitly, so every entry
    /// is the scalar's additive identity.
    pub fn identity() -> (r: Self)
        requires
            R <= C,
        ensures
            is_shape(r@, R as int, C as int),
            forall|a: int, b: int|
                0 <= a < R && 0 <= b < C ==> #[trigger] r@[a][b] == T::zero_spec(),
    {
        let zero_row: [T; C] = [T::zero(); C];
        let mut data: [[T; C]; R] = [zero_row; R];
        let mut i: usize = 0;
        while i < R
            invariant
                R <= C,
                i <= R,
                forall|a: int, b: int|
                    0 <= a < R && 0 <= b < C ==> #[trigger] data@[a]@[b] == T::zero_spec(),
            decreases R - i,
        {
            let mut row = data[i];
            row[i] = T::zero();
            data[i] = row;
            proof {
                assert forall|a: int, b: int| 0 <= a < R && 0 <= b < C implies #[trigger] data@[a]@[b]
                    == T::zero_spec() by {}
            }
            i += 1;
        }
        StaticMatrix::new(data)
    }

    /// The transpose: entry `(a, b)` of the result is entry `(b, a)` of
    /// this matrix.
    pub fn transpose(&self) -> (r: StaticMatrix<T, C, R>)
        ensures
            is_shape(r@, C as int, R as int),
            forall|a: int, b: int|
                0 <= a < C && 0 <= b < R ==> #[trigger] r@[a][b] == self@[b][a],
    {
        let zero_row: [T; R] = [T::zero(); R];
        let mut data: [[T; R]; C] = [zero_row; C];
        let mut i: usize = 0;
        while i < R
            invariant
                i <= R,
                forall|a: int, b: int|
                    0 <= a < C && 0 <= b < i ==> #[trigger] data@[a]@[b] == self@[b][a],
            decreases R - i,
        {
            let mut j: usize = 0;
            while j < C
                invariant
                    i < R,
                    j <= C,
                    forall|a: int, b: int|
                        0 <= a < C && 0 <= b < i ==> #[trigger] data@[a]@[b] == self@[b][a],
                    forall|a: int|
                        0 <= a < j ==> #[trigger] data@[a]@[i as int] == self@[i as int][a],
                decreases C - j,
            {
                let v = self.data[i][j];
                proof {
                    assert(self@[i as int] == self.data@[i as int]@);
                }
                let mut row = data[j];
                row[i] = v;
                data[j] = row;
                j += 1;
            }
            i += 1;
        }
        StaticMatrix::new(data)
    }

    /// The matrix product: entry `(a, b)` of the result is the inner
    /// product of this matrix's row `a` with `matrix`'s column `b`,
    /// accumulated left to right.
    pub fn dot<const C2: usize>(&self, matrix: StaticMatrix<T, C, C2>) -> (r: StaticMatrix<
        T,
        R,
        C2,
    >)
        ensures
            is_shape(r@, R as int, C2 as int),
            forall|a: int, b: int|
                0 <= a < R && 0 <= b < C2 ==> #[trigger] r@[a][b] == dot_entry(
                    self@,
                    matrix@,
                    a,
                    b,
                    C as nat,
                ),
    {
        let zero_row: [T; C2] = [T::zero(); C2];
        let mut data: [[T; C2]; R] = [zero_row; R];
        let mut i: usize = 0;
        while i < R
            invariant
                i <= R,
                forall|a: int, b: int|
                    0 <= a < i && 0 <= b < C2 ==> #[trigger] data@[a]@[b] == dot_entry(
                        self@,
                        matrix@,
                        a,
                        b,
                        C as nat,
                    ),
            decreases R - i,
        {
            let mut row: [T; C2] = [T::zero(); C2];
            let mut j: usize = 0;
            while j < C2
                invariant
                    i < R,
                    j <= C2,
                    forall|a: int, b: int|
                        0 <= a < i && 0 <= b < C2 ==> #[trigger] data@[a]@[b] == dot_entry(
                            self@,
                            matrix@,
                            a,
                            b,
                            C as nat,
                        ),
                    forall|b: int|
                        0 <= b < j ==> #[trigger] row@[b] == dot_entry(
                            self@,
                            matrix@,
                            i as int,
                            b,
                            C as nat,
                        ),
                decreases C2 - j,
            {
                let mut acc: T = T::zero();
                let mut k: usize = 0;
                while k < C
                    invariant
                        i < R,
                        j < C2,
                        k <= C,
                        acc == dot_entry(self@, matrix@, i as int, j as int, k as nat),
                    decreases C - k,
                {
                    let left = self.data[i][k];
                    let right = matrix.data[k][j];
                    proof {
                        assert(self@[i as int] == self.data@[i as int]@);
                        assert(matrix@[k as int] == matrix.data@[k as int]@);
                    }
                    acc = acc.add(left.mul(right));
                    k += 1;
                }
                row[j] = acc;
                j += 1;
            }
            data[i] = row;
            i += 1;
        }
        StaticMatrix::new(data)
    }

    /// Scale every entry by `scalar`.
    pub fn scale(&self, scalar: T) -> (r: Self)
        ensures
            is_shape(r@, R as int, C as int),
            forall|a: int, b: int|
                0 <= a < R && 0 <= b < C ==> #[trigger] r@[a][b] == self@[a][b].mul_spec(scalar),
    {
        let zero_row: [T; C] = [T::zero(); C];
        let mut data: [[T; C]; R] = [zero_row; R];
        let mut i: usize = 0;
        while i < R
            invariant
                i <= R,
                forall|a: int, b: int|
                    0 <= a < i && 0 <= b < C ==> #[trigger] data@[a]@[b] == self@[a][b].mul_spec(
                        scalar,
                    ),
            decreases R - i,
        {
            let mut row: [T; C] = [T::zero(); C];
            let mut j: usize = 0;
            while j < C
                invariant
                    i < R,
                    j <= C,
                    forall|a: int, b: int|
                        0 <= a < i && 0 <= b < C ==> #[trigger] data@[a]@[b] == self@[a][
                        b].mul_spec(scalar),
                    forall|b: int|
                        0 <= b < j ==> #[trigger] row@[b] == self@[i as int][b].mul_spec(scalar),
                decreases C - j,
            {
                let v = self.data[i][j];
                proof {
                    assert(self@[i as int] == self.data@[i as int]@);
                }
                row[j] = v.mul(scalar);
                j += 1;
            }
            data[i] = row;
            i += 1;
        }
        StaticMatrix::new(data)
    }

    /// Entrywise sum of two matrices of the same shape.
    pub fn add(&self, other: &Self) -> (r: Self)
        ensures
            is_shape(r@, R as int, C as int),
            forall|a: int, b: int|
                0 <= a < R && 0 <= b < C ==> #[trigger] r@[a][b] == self@[a][b].add_spec(
                    other@[a][b],
                ),
    {
        let zero_row: [T; C] = [T::zero(); C];
        let mut data: [[T; C]; R] = [zero_row; R];
        let mut i: usize = 0;
        while i < R
            invariant
                i <= R,
                forall|a: int, b: int|
                    0 <= a < i && 0 <= b < C ==> #[trigger] data@[a]@[b] == self@[a][b].add_spec(
                        other@[a][b],
                    ),
            decreases R - i,
        {
            let mut row: [T; C] = [T::zero(); C];
            let mut j: usize = 0;
            while j < C
                invariant
                    i < R,
                    j <= C,
                    forall|a: int, b: int|
                        0 <= a < i && 0 <= b < C ==> #[trigger] data@[a]@[b] == self@[a][
                        b].add_spec(other@[a][b]),
                    forall|b: int|
                        0 <= b < j ==> #[trigger] row@[b] == self@[i as int][b].add_spec(
                            other@[i as int][b],
                        ),
                decreases C - j,
            {
                let x = self.data[i][j];
                let y = other.data[i][j];
                proof {
                    assert(self@[i as int] == self.data@[i as int]@);
                    assert(other@[i as int] == other.data@[i as int]@);
                }
                row[j] = x.add(y);
                j += 1;
            }
            data[i] = row;
            i += 1;
        }
        StaticMatrix::new(data)
    }

    /// Entrywise difference of two matrices of the same shape.
    pub fn sub(&self, other: &Self) -> (r: Self)
        ensures
            is_shape(r@, R as int, C as int),
            forall|a: int, b: int|
                0 <= a < R && 0 <= b < C ==> #[trigger] r@[a][b] == self@[a][b].sub_spec(
                    other@[a][b],
                ),
    {
        let zero_row: [T; C] = [T::zero(); C];
        let mut data: [[T; C]; R] = [zero_row; R];
        let mut i: usize = 0;
        while i < R
            invariant
                i <= R,
                forall|a: int, b: int|
                    0 <= a < i && 0 <= b < C ==> #[trigger] data@[a]@[b] == self@[a][b].sub_spec(
                        other@[a][b],
                    ),
            decreases R - i,
        {
            let mut row: [T; C] = [T::zero(); C];
            let mut j: usize = 0;
            while j < C
                invariant
                    i < R,
                    j <= C,
                    forall|a: int, b: int|
                        0 <= a < i && 0 <= b < C ==> #[trigger] data@[a]@[b] == self@[a][
                        b].sub_spec(other@[a][b]),
                    forall|b: int|
                        0 <= b < j ==> #[trigger] row@[b] == self@[i as int][b].sub_spec(
                            other@[i as int][b],
                        ),
                decreases C - j,
            {
                let x = self.data[i][j];
                let y = other.data[i][j];
                proof {
                    assert(self@[i as int] == self.data@[i as int]@);
                    assert(other@[i as int] == other.data@[i as int]@);
                }
                row[j] = x.sub(y);
                j += 1;
            }
            data[i] = row;
            i += 1;
        }
        StaticMatrix::new(data)
    }
}

impl<T, const R: usize, const C: usize> Default for StaticMatrix<T, R, C> where T: Scalar {
    /// The matrix filled with the scalar's additive identity.
    fn default() -> (r: Self)
        ensures
            is_shape(r@, R as int, C as int),
            forall|a: int, b: int|
                0 <= a < R && 0 <= b < C ==> #[trigger] r@[a][b] == T::zero_spec(),
    {
        let zero_row: [T; C] = [T::zero(); C];
        StaticMatrix::new([zero_row; R])
    }
}

/// A matrix whose shape is chosen at run time, stored row by row. It
/// only carries its entries; the operations of this module are defined
/// over the fixed-size matrices.
pub struct DynamicMatrix<T> {
    pub data: Vec<Vec<T>>,
}

} // verus!
