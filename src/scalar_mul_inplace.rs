//! In-place multiplication of every cell by a scalar.
use crate::matrix::HMatrix;
use crate::matrix::Numeric;
use crate::matrix::SMatrix;
use crate::model::cells_of;
use crate::model::scaled_by;
use crate::model::scaled_by_req;
use vstd::prelude::*;
use vstd::std_specs::ops::MulSpec;

verus! {

broadcast use vstd::array::group_array_axioms;

/// Multiplies every cell of `a` by `scalar`, the scalar on the right.
pub(crate) fn mul_assign_scalar<T: Numeric<T>, const ROWS: usize, const COLS: usize>(
    a: &mut [[T; COLS]; ROWS],
    scalar: T,
)
    requires
        scaled_by_req(cells_of(*old(a)), scalar),
    ensures
        T::obeys_mul_spec() ==> cells_of(*final(a)) == scaled_by(cells_of(*old(a)), scalar),
{
    let ghost orig = *a;
    let mut i: usize = 0;
    while i < ROWS
        invariant
            i <= ROWS,
            orig == *old(a),
            scaled_by_req(cells_of(orig), scalar),
            forall|p: int, q: int|
                0 <= p < i && 0 <= q < COLS ==> T::obeys_mul_spec() ==> #[trigger] a[p][q]
                    == orig[p][q].mul_spec(scalar),
            forall|p: int, q: int| i <= p < ROWS && 0 <= q < COLS ==> #[trigger] a[p][q] == orig[p][q],
        decreases ROWS - i,
    {
        let mut j: usize = 0;
        while j < COLS
            invariant
                i < ROWS,
                j <= COLS,
                orig == *old(a),
                scaled_by_req(cells_of(orig), scalar),
                forall|p: int, q: int|
                    0 <= p < i && 0 <= q < COLS ==> T::obeys_mul_spec() ==> #[trigger] a[p][q]
                        == orig[p][q].mul_spec(scalar),
                forall|q: int|
                    0 <= q < j ==> T::obeys_mul_spec() ==> #[trigger] a[i as int][q]
                        == orig[i as int][q].mul_spec(scalar),
                forall|p: int, q: int|
                    i <= p < ROWS && 0 <= q < COLS && !(p == i && q < j) ==> #[trigger] a[p][q]
                        == orig[p][q],
            decreases COLS - j,
        {
            assert(cells_of(orig)[i as int][j as int].mul_req(scalar));
            a[i][j] = a[i][j] * scalar;
            j += 1;
        }
        i += 1;
    }
    assert(T::obeys_mul_spec() ==> cells_of(*a) =~~= scaled_by(cells_of(orig), scalar));
}

impl<T: Numeric<T>, const ROWS: usize, const COLS: usize> SMatrix<T, ROWS, COLS> {
    /// Multiplies every cell by `scalar` in place, the scalar on the right.
    pub fn mul_assign_scalar(&mut self, scalar: T)
        requires
            scaled_by_req(old(self)@, scalar),
        ensures
            T::obeys_mul_spec() ==> final(self)@ == scaled_by(old(self)@, scalar),
    {
        mul_assign_scalar(self.array_mut(), scalar);
    }
}

impl<T: Numeric<T>, const ROWS: usize, const COLS: usize> HMatrix<T, ROWS, COLS> {
    /// Multiplies every cell by `scalar` in place, the scalar on the right.
    pub fn mul_assign_scalar(&mut self, scalar: T)
        requires
            scaled_by_req(old(self)@, scalar),
        ensures
            T::obeys_mul_spec() ==> final(self)@ == scaled_by(old(self)@, scalar),
    {
        mul_assign_scalar(self.array_mut(), scalar);
    }
}

} // verus!
