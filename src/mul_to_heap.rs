//! Products with a stack matrix on the left, placed on the heap.
use crate::matrix::Grid;
use crate::matrix::HMatrix;
use crate::matrix::MF;
use crate::matrix::Numeric;
use crate::matrix::SMatrix;
use crate::matrix_mul::multiply;
use crate::model::is_product;
use crate::model::product_req;
use vstd::prelude::*;

verus! {

impl<T: Numeric<T>, const ROWS_LEFT: usize, const COLS_LEFT: usize>
    SMatrix<T, ROWS_LEFT, COLS_LEFT>
{
    /// Multiply two stack matrices and allocate the result on the heap.
    pub fn mul_val_to_heap<const COLS_RIGHT: usize>(
        &self,
        rhs: SMatrix<T, COLS_LEFT, COLS_RIGHT>,
    ) -> (r: HMatrix<T, ROWS_LEFT, COLS_RIGHT>)
        requires
            product_req(self@, rhs@, COLS_RIGHT as nat),
        ensures
            is_product(r@, self@, rhs@, COLS_RIGHT as nat),
    {
        let mut c = MF::<T, ROWS_LEFT, COLS_RIGHT>::new_heap();
        multiply(self.array(), rhs.array(), c.array_mut());
        c
    }

    /// Multiply two stack matrices and allocate the result on the heap.
    pub fn mul_ref_to_heap<const COLS_RIGHT: usize>(
        &self,
        rhs: &SMatrix<T, COLS_LEFT, COLS_RIGHT>,
    ) -> (r: HMatrix<T, ROWS_LEFT, COLS_RIGHT>)
        requires
            product_req(self@, rhs@, COLS_RIGHT as nat),
        ensures
            is_product(r@, self@, rhs@, COLS_RIGHT as nat),
    {
        let mut c = MF::<T, ROWS_LEFT, COLS_RIGHT>::new_heap();
        multiply(self.array(), rhs.array(), c.array_mut());
        c
    }

    /// Multiply a stack matrix with a heap matrix and allocate the result on the heap.
    pub fn mul_heapval_to_heap<const COLS_RIGHT: usize>(
        &self,
        rhs: HMatrix<T, COLS_LEFT, COLS_RIGHT>,
    ) -> (r: HMatrix<T, ROWS_LEFT, COLS_RIGHT>)
        requires
            product_req(self@, rhs@, COLS_RIGHT as nat),
        ensures
            is_product(r@, self@, rhs@, COLS_RIGHT as nat),
    {
        let mut c = MF::<T, ROWS_LEFT, COLS_RIGHT>::new_heap();
        multiply(self.array(), rhs.array(), c.array_mut());
        c
    }

    /// Multiply a stack matrix with a heap matrix and allocate the result on the heap.
    pub fn mul_heapref_to_heap<const COLS_RIGHT: usize>(
        &self,
        rhs: &HMatrix<T, COLS_LEFT, COLS_RIGHT>,
    ) -> (r: HMatrix<T, ROWS_LEFT, COLS_RIGHT>)
        requires
            product_req(self@, rhs@, COLS_RIGHT as nat),
        ensures
            is_product(r@, self@, rhs@, COLS_RIGHT as nat),
    {
        let mut c = MF::<T, ROWS_LEFT, COLS_RIGHT>::new_heap();
        multiply(self.array(), rhs.array(), c.array_mut());
        c
    }
}

} // verus!
