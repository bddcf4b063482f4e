//! Multiplication of every cell by a scalar on the left.
use crate::matrix::Grid;
use crate::matrix::HMatrix;
use crate::matrix::MF;
use crate::matrix::Numeric;
use crate::matrix::SMatrix;
use crate::model::cells_of;
use crate::model::scaled;
use crate::model::scaled_req;
use vstd::prelude::*;
use vstd::std_specs::ops::MulSpec;

verus! {

broadcast use vstd::array::group_array_axioms;

/// Writes `scalar * a[i][j]` into every cell `(i, j)` of `b`.
pub(crate) fn scalar_mul<T: Numeric<T>, const ROWS: usize, const COLS: usize>(
    scalar: T,
    a: &[[T; COLS]; ROWS],
    b: &mut [[T; COLS]; ROWS],
)
    requires
        scaled_req(scalar, cells_of(*a)),
    ensures
        T::obeys_mul_spec() ==> cells_of(*final(b)) == scaled(scalar, cells_of(*a)),
{
    let mut i: usize = 0;
    while i < ROWS
        invariant
            i <= ROWS,
            scaled_req(scalar, cells_of(*a)),
            forall|p: int, q: int|
                0 <= p < i && 0 <= q < COLS ==> T::obeys_mul_spec() ==> #[trigger] b[p][q]
                    == scalar.mul_spec(a[p][q]),
        decreases ROWS - i,
    {
        let mut j: usize = 0;
        while j < COLS
            invariant
                i < ROWS,
                j <= COLS,
                scaled_req(scalar, cells_of(*a)),
                forall|p: int, q: int|
                    0 <= p < i && 0 <= q < COLS ==> T::obeys_mul_spec() ==> #[trigger] b[p][q]
                        == scalar.mul_spec(a[p][q]),
                forall|q: int|
                    0 <= q < j ==> T::obeys_mul_spec() ==> #[trigger] b[i as int][q]
                        == scalar.mul_spec(a[i as int][q]),
            decreases COLS - j,
        {
            assert(scalar.mul_req(cells_of(*a)[i as int][j as int]));
            b[i][j] = scalar * a[i][j];
            j += 1;
        }
        i += 1;
    }
    assert(T::obeys_mul_spec() ==> cells_of(*b) =~~= scaled(scalar, cells_of(*a)));
}

impl<T: Numeric<T>, const ROWS: usize, const COLS: usize> SMatrix<T, ROWS, COLS> {
    /// `scalar` times this matrix, the scalar on the left of every cell; for
    /// any element type, where `scalar * m` is there for the primitive
    /// integers.
    pub fn scalar_mul(&self, scalar: T) -> (r: SMatrix<T, ROWS, COLS>)
        requires
            scaled_req(scalar, self@),
        ensures
            T::obeys_mul_spec() ==> r@ == scaled(scalar, self@),
    {
        let mut b = MF::<T, ROWS, COLS>::new_stack();
        scalar_mul(scalar, self.array(), b.array_mut());
        b
    }
}

impl<T: Numeric<T>, const ROWS: usize, const COLS: usize> HMatrix<T, ROWS, COLS> {
    /// `scalar` times this matrix, the scalar on the left of every cell; for
    /// any element type, where `scalar * m` is there for the primitive
    /// integers.
    pub fn scalar_mul(&self, scalar: T) -> (r: HMatrix<T, ROWS, COLS>)
        requires
            scaled_req(scalar, self@),
        ensures
            T::obeys_mul_spec() ==> r@ == scaled(scalar, self@),
    {
        let mut b = MF::<T, ROWS, COLS>::new_heap();
        scalar_mul(scalar, self.array(), b.array_mut());
        b
    }
}

} // verus!
