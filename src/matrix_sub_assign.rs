//! In-place cell-wise subtraction.
//!
//! The compound assignment is the method `sub_assign`, which takes a right
//! operand of either storage by reference.
use crate::matrix::Grid;
use crate::matrix::HMatrix;
use crate::matrix::MF;
use crate::matrix::Numeric;
use crate::matrix::SMatrix;
use crate::model::difference;
use crate::model::difference_req;
use vstd::prelude::*;
use vstd::std_specs::ops::SubSpec;

verus! {

impl<T: Numeric<T>, const ROWS: usize, const COLS: usize> SMatrix<T, ROWS, COLS> {
    /// Subtracts `rhs` cell by cell, in place. The result is computed in full
    /// into a fresh matrix first, then copied back.
    pub fn sub_assign<G: Grid<T, ROWS, COLS>>(&mut self, rhs: &G)
        requires
            difference_req(old(self)@, rhs@),
        ensures
            T::obeys_sub_spec() ==> final(self)@ == difference(old(self)@, rhs@),
    {
        let mut res = MF::<T, ROWS, COLS>::new_stack();
        crate::matrix_sub::sub(self.array(), rhs.array(), res.array_mut());
        *self.array_mut() = *res.array();
    }
}

impl<T: Numeric<T>, const ROWS: usize, const COLS: usize> HMatrix<T, ROWS, COLS> {
    /// Subtracts `rhs` cell by cell, in place. The result is computed in full
    /// into a fresh matrix first, then copied back.
    pub fn sub_assign<G: Grid<T, ROWS, COLS>>(&mut self, rhs: &G)
        requires
            difference_req(old(self)@, rhs@),
        ensures
            T::obeys_sub_spec() ==> final(self)@ == difference(old(self)@, rhs@),
    {
        let mut res = MF::<T, ROWS, COLS>::new_heap();
        crate::matrix_sub::sub(self.array(), rhs.array(), res.array_mut());
        *self.array_mut() = *res.array();
    }
}

} // verus!
