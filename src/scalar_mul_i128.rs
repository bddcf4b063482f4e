//! `i128` scalars times matrices of `i128`.
use crate::matrix::Grid;
use crate::matrix::HMatrix;
use crate::matrix::MF;
use crate::matrix::SMatrix;
use crate::matrix::heap_of;
use crate::matrix::lemma_heap_of;
use crate::matrix::lemma_stack_of;
use crate::matrix::stack_of;
use crate::model::scaled;
use crate::model::scaled_req;
use crate::scalar_mul::scalar_mul;
use vstd::prelude::*;

verus! {

// i128 * SMatrix
impl<const ROWS: usize, const COLS: usize>
    std::ops::Mul<SMatrix<i128, ROWS, COLS>> for i128
{
    type Output = SMatrix<i128, ROWS, COLS>;

    fn mul(self, rhs: SMatrix<i128, ROWS, COLS>) -> (r: SMatrix<i128, ROWS, COLS>)
        ensures
            r@ == scaled(self, rhs@),
    {
        let mut b = MF::<i128, ROWS, COLS>::new_stack();
        scalar_mul(self, rhs.array(), b.array_mut());
        proof {
            lemma_stack_of(b);
        }
        b
    }
}

impl<const ROWS: usize, const COLS: usize>
    vstd::std_specs::ops::MulSpecImpl<SMatrix<i128, ROWS, COLS>> for i128
{
    open spec fn obeys_mul_spec() -> bool {
        true
    }

    open spec fn mul_req(self, rhs: SMatrix<i128, ROWS, COLS>) -> bool {
        scaled_req(self, rhs@)
    }

    open spec fn mul_spec(self, rhs: SMatrix<i128, ROWS, COLS>) -> SMatrix<i128, ROWS, COLS> {
        stack_of(scaled(self, rhs@))
    }
}

// i128 * &SMatrix
impl<const ROWS: usize, const COLS: usize>
    std::ops::Mul<&SMatrix<i128, ROWS, COLS>> for i128
{
    type Output = SMatrix<i128, ROWS, COLS>;

    fn mul(self, rhs: &SMatrix<i128, ROWS, COLS>) -> (r: SMatrix<i128, ROWS, COLS>)
        ensures
            r@ == scaled(self, (*rhs)@),
    {
        let mut b = MF::<i128, ROWS, COLS>::new_stack();
        scalar_mul(self, rhs.array(), b.array_mut());
        proof {
            lemma_stack_of(b);
        }
        b
    }
}

impl<const ROWS: usize, const COLS: usize>
    vstd::std_specs::ops::MulSpecImpl<&SMatrix<i128, ROWS, COLS>> for i128
{
    open spec fn obeys_mul_spec() -> bool {
        true
    }

    open spec fn mul_req(self, rhs: &SMatrix<i128, ROWS, COLS>) -> bool {
        scaled_req(self, (*rhs)@)
    }

    open spec fn mul_spec(self, rhs: &SMatrix<i128, ROWS, COLS>) -> SMatrix<i128, ROWS, COLS> {
        stack_of(scaled(self, (*rhs)@))
    }
}

// i128 * &mut SMatrix
impl<const ROWS: usize, const COLS: usize>
    std::ops::Mul<&mut SMatrix<i128, ROWS, COLS>> for i128
{
    type Output = SMatrix<i128, ROWS, COLS>;

    fn mul(self, rhs: &mut SMatrix<i128, ROWS, COLS>) -> (r: SMatrix<i128, ROWS, COLS>)
        ensures
            r@ == scaled(self, old(rhs)@),
            final(rhs)@ == old(rhs)@,
    {
        let mut b = MF::<i128, ROWS, COLS>::new_stack();
        scalar_mul(self, rhs.array(), b.array_mut());
        proof {
            lemma_stack_of(b);
        }
        b
    }
}

impl<const ROWS: usize, const COLS: usize>
    vstd::std_specs::ops::MulSpecImpl<&mut SMatrix<i128, ROWS, COLS>> for i128
{
    open spec fn obeys_mul_spec() -> bool {
        true
    }

    open spec fn mul_req(self, rhs: &mut SMatrix<i128, ROWS, COLS>) -> bool {
        scaled_req(self, mut_ref_current(rhs)@)
    }

    open spec fn mul_spec(self, rhs: &mut SMatrix<i128, ROWS, COLS>) -> SMatrix<i128, ROWS, COLS> {
        stack_of(scaled(self, mut_ref_current(rhs)@))
    }
}

// i128 * HMatrix
impl<const ROWS: usize, const COLS: usize>
    std::ops::Mul<HMatrix<i128, ROWS, COLS>> for i128
{
    type Output = HMatrix<i128, ROWS, COLS>;

    fn mul(self, rhs: HMatrix<i128, ROWS, COLS>) -> (r: HMatrix<i128, ROWS, COLS>)
        ensures
            r@ == scaled(self, rhs@),
    {
        let mut b = MF::<i128, ROWS, COLS>::new_heap();
        scalar_mul(self, rhs.array(), b.array_mut());
        proof {
            lemma_heap_of(b);
        }
        b
    }
}

impl<const ROWS: usize, const COLS: usize>
    vstd::std_specs::ops::MulSpecImpl<HMatrix<i128, ROWS, COLS>> for i128
{
    open spec fn obeys_mul_spec() -> bool {
        true
    }

    open spec fn mul_req(self, rhs: HMatrix<i128, ROWS, COLS>) -> bool {
        scaled_req(self, rhs@)
    }

    open spec fn mul_spec(self, rhs: HMatrix<i128, ROWS, COLS>) -> HMatrix<i128, ROWS, COLS> {
        heap_of(scaled(self, rhs@))
    }
}

// i128 * &HMatrix
impl<const ROWS: usize, const COLS: usize>
    std::ops::Mul<&HMatrix<i128, ROWS, COLS>> for i128
{
    type Output = HMatrix<i128, ROWS, COLS>;

    fn mul(self, rhs: &HMatrix<i128, ROWS, COLS>) -> (r: HMatrix<i128, ROWS, COLS>)
        ensures
            r@ == scaled(self, (*rhs)@),
    {
        let mut b = MF::<i128, ROWS, COLS>::new_heap();
        scalar_mul(self, rhs.array(), b.array_mut());
        proof {
            lemma_heap_of(b);
        }
        b
    }
}

impl<const ROWS: usize, const COLS: usize>
    vstd::std_specs::ops::MulSpecImpl<&HMatrix<i128, ROWS, COLS>> for i128
{
    open spec fn obeys_mul_spec() -> bool {
        true
    }

    open spec fn mul_req(self, rhs: &HMatrix<i128, ROWS, COLS>) -> bool {
        scaled_req(self, (*rhs)@)
    }

    open spec fn mul_spec(self, rhs: &HMatrix<i128, ROWS, COLS>) -> HMatrix<i128, ROWS, COLS> {
        heap_of(scaled(self, (*rhs)@))
    }
}

// i128 * &mut HMatrix
impl<const ROWS: usize, const COLS: usize>
    std::ops::Mul<&mut HMatrix<i128, ROWS, COLS>> for i128
{
    type Output = HMatrix<i128, ROWS, COLS>;

    fn mul(self, rhs: &mut HMatrix<i128, ROWS, COLS>) -> (r: HMatrix<i128, ROWS, COLS>)
        ensures
            r@ == scaled(self, old(rhs)@),
            final(rhs)@ == old(rhs)@,
    {
        let mut b = MF::<i128, ROWS, COLS>::new_heap();
        scalar_mul(self, rhs.array(), b.array_mut());
        proof {
            lemma_heap_of(b);
        }
        b
    }
}

impl<const ROWS: usize, const COLS: usize>
    vstd::std_specs::ops::MulSpecImpl<&mut HMatrix<i128, ROWS, COLS>> for i128
{
    open spec fn obeys_mul_spec() -> bool {
        true
    }

    open spec fn mul_req(self, rhs: &mut HMatrix<i128, ROWS, COLS>) -> bool {
        scaled_req(self, mut_ref_current(rhs)@)
    }

    open spec fn mul_spec(self, rhs: &mut HMatrix<i128, ROWS, COLS>) -> HMatrix<i128, ROWS, COLS> {
        heap_of(scaled(self, mut_ref_current(rhs)@))
    }
}

} // verus!
