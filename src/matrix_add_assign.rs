//! In-place cell-wise addition.
//!
//! The compound assignment is the method `add_assign`, which takes a right
//! operand of either storage by reference.
use crate::matrix::Grid;
use crate::matrix::HMatrix;
use crate::matrix::MF;
use crate::matrix::Numeric;
use crate::matrix::SMatrix;
use crate::model::sum;
use crate::model::sum_req;
use vstd::prelude::*;
use vstd::std_specs::ops::AddSpec;

verus! {

impl<T: Numeric<T>, const ROWS: usize, const COLS: usize> SMatrix<T, ROWS, COLS> {
    /// Adds `rhs` cell by cell, in place. The result is computed in full
    /// into a fresh matrix first, then copied back.
    pub fn add_assign<G: Grid<T, ROWS, COLS>>(&mut self, rhs: &G)
        requires
            sum_req(old(self)@, rhs@),
        ensures
            T::obeys_add_spec() ==> final(self)@ == sum(old(self)@, rhs@),
    {
        let mut res = MF::<T, ROWS, COLS>::new_stack();
        crate::matrix_add::add(self.array(), rhs.array(), res.array_mut());
        *self.array_mut() = *res.array();
    }
}

impl<T: Numeric<T>, const ROWS: usize, const COLS: usize> HMatrix<T, ROWS, COLS> {
    /// Adds `rhs` cell by cell, in place. The result is computed in full
    /// into a fresh matrix first, then copied back.
    pub fn add_assign<G: Grid<T, ROWS, COLS>>(&mut self, rhs: &G)
        requires
            sum_req(old(self)@, rhs@),
        ensures
            T::obeys_add_spec() ==> final(self)@ == sum(old(self)@, rhs@),
    {
        let mut res = MF::<T, ROWS, COLS>::new_heap();
        crate::matrix_add::add(self.array(), rhs.array(), res.array_mut());
        *self.array_mut() = *res.array();
    }
}

} // verus!
