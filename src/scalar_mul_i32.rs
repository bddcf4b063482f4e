//! `i32` scalars times matrices of `i32`.
use crate::matrix::Grid;
use crate::matrix::HMatrix;
use crate::matrix::MF;
use crate::matrix::SMatrix;
use crate::matrix::heap_of;
use crate::matrix::lemma_heap_of;
use crate::matrix::lemma_stack_of;
use crate::matrix::stack_of;
use crate::model::scaled;
use crate::model::scaled_req;
use crate::scalar_mul::scalar_mul;
use vstd::prelude::*;

verus! {

// i32 * SMatrix
impl<const ROWS: usize, const COLS: usize>
    std::ops::Mul<SMatrix<i32, ROWS, COLS>> for i32
{
    type Output = SMatrix<i32, ROWS, COLS>;

    fn mul(self, rhs: SMatrix<i32, ROWS, COLS>) -> (r: SMatrix<i32, ROWS, COLS>)
        ensures
            r@ == scaled(self, rhs@),
    {
        let mut b = MF::<i32, ROWS, COLS>::new_stack();
        scalar_mul(self, rhs.array(), b.array_mut());
        proof {
            lemma_stack_of(b);
        }
        b
    }
}

impl<const ROWS: usize, const COLS: usize>
    vstd::std_specs::ops::MulSpecImpl<SMatrix<i32, ROWS, COLS>> for i32
{
    open spec fn obeys_mul_spec() -> bool {
        true
    }

    open spec fn mul_req(self, rhs: SMatrix<i32, ROWS, COLS>) -> bool {
        scaled_req(self, rhs@)
    }

    open spec fn mul_spec(self, rhs: SMatrix<i32, ROWS, COLS>) -> SMatrix<i32, ROWS, COLS> {
        stack_of(scaled(self, rhs@))
    }
}

// i32 * &SMatrix
impl<const ROWS: usize, const COLS: usize>
    std::ops::Mul<&SMatrix<i32, ROWS, COLS>> for i32
{
    type Output = SMatrix<i32, ROWS, COLS>;

    fn mul(self, rhs: &SMatrix<i32, ROWS, COLS>) -> (r: SMatrix<i32, ROWS, COLS>)
        ensures
            r@ == scaled(self, (*rhs)@),
    {
        let mut b = MF::<i32, ROWS, COLS>::new_stack();
        scalar_mul(self, rhs.array(), b.array_mut());
        proof {
            lemma_stack_of(b);
        }
        b
    }
}

impl<const ROWS: usize, const COLS: usize>
    vstd::std_specs::ops::MulSpecImpl<&SMatrix<i32, ROWS, COLS>> for i32
{
    open spec fn obeys_mul_spec() -> bool {
        true
    }

    open spec fn mul_req(self, rhs: &SMatrix<i32, ROWS, COLS>) -> bool {
        scaled_req(self, (*rhs)@)
    }

    open spec fn mul_spec(self, rhs: &SMatrix<i32, ROWS, COLS>) -> SMatrix<i32, ROWS, COLS> {
        stack_of(scaled(self, (*rhs)@))
    }
}

// i32 * &mut SMatrix
impl<const ROWS: usize, const COLS: usize>
    std::ops::Mul<&mut SMatrix<i32, ROWS, COLS>> for i32
{
    type Output = SMatrix<i32, ROWS, COLS>;

    fn mul(self, rhs: &mut SMatrix<i32, ROWS, COLS>) -> (r: SMatrix<i32, ROWS, COLS>)
        ensures
            r@ == scaled(self, old(rhs)@),
            final(rhs)@ == old(rhs)@,
    {
        let mut b = MF::<i32, ROWS, COLS>::new_stack();
        scalar_mul(self, rhs.array(), b.array_mut());
        proof {
            lemma_stack_of(b);
        }
        b
    }
}

impl<const ROWS: usize, const COLS: usize>
    vstd::std_specs::ops::MulSpecImpl<&mut SMatrix<i32, ROWS, COLS>> for i32
{
    open spec fn obeys_mul_spec() -> bool {
        true
    }

    open spec fn mul_req(self, rhs: &mut SMatrix<i32, ROWS, COLS>) -> bool {
        scaled_req(self, mut_ref_current(rhs)@)
    }

    open spec fn mul_spec(self, rhs: &mut SMatrix<i32, ROWS, COLS>) -> SMatrix<i32, ROWS, COLS> {
        stack_of(scaled(self, mut_ref_current(rhs)@))
    }
}

// i32 * HMatrix
impl<const ROWS: usize, const COLS: usize>
    std::ops::Mul<HMatrix<i32, ROWS, COLS>> for i32
{
    type Output = HMatrix<i32, ROWS, COLS>;

    fn mul(self, rhs: HMatrix<i32, ROWS, COLS>) -> (r: HMatrix<i32, ROWS, COLS>)
        ensures
            r@ == scaled(self, rhs@),
    {
        let mut b = MF::<i32, ROWS, COLS>::new_heap();
        scalar_mul(self, rhs.array(), b.array_mut());
        proof {
            lemma_heap_of(b);
        }
        b
    }
}

impl<const ROWS: usize, const COLS: usize>
    vstd::std_specs::ops::MulSpecImpl<HMatrix<i32, ROWS, COLS>> for i32
{
    open spec fn obeys_mul_spec() -> bool {
        true
    }

    open spec fn mul_req(self, rhs: HMatrix<i32, ROWS, COLS>) -> bool {
        scaled_req(self, rhs@)
    }

    open spec fn mul_spec(self, rhs: HMatrix<i32, ROWS, COLS>) -> HMatrix<i32, ROWS, COLS> {
        heap_of(scaled(self, rhs@))
    }
}

// i32 * &HMatrix
impl<const ROWS: usize, const COLS: usize>
    std::ops::Mul<&HMatrix<i32, ROWS, COLS>> for i32
{
    type Output = HMatrix<i32, ROWS, COLS>;

    fn mul(self, rhs: &HMatrix<i32, ROWS, COLS>) -> (r: HMatrix<i32, ROWS, COLS>)
        ensures
            r@ == scaled(self, (*rhs)@),
    {
        let mut b = MF::<i32, ROWS, COLS>::new_heap();
        scalar_mul(self, rhs.array(), b.array_mut());
        proof {
            lemma_heap_of(b);
        }
        b
    }
}

impl<const ROWS: usize, const COLS: usize>
    vstd::std_specs::ops::MulSpecImpl<&HMatrix<i32, ROWS, COLS>> for i32
{
    open spec fn obeys_mul_spec() -> bool {
        true
    }

    open spec fn mul_req(self, rhs: &HMatrix<i32, ROWS, COLS>) -> bool {
        scaled_req(self, (*rhs)@)
    }

    open spec fn mul_spec(self, rhs: &HMatrix<i32, ROWS, COLS>) -> HMatrix<i32, ROWS, COLS> {
        heap_of(scaled(self, (*rhs)@))
    }
}

// i32 * &mut HMatrix
impl<const ROWS: usize, const COLS: usize>
    std::ops::Mul<&mut HMatrix<i32, ROWS, COLS>> for i32
{
    type Output = HMatrix<i32, ROWS, COLS>;

    fn mul(self, rhs: &mut HMatrix<i32, ROWS, COLS>) -> (r: HMatrix<i32, ROWS, COLS>)
        ensures
            r@ == scaled(self, old(rhs)@),
            final(rhs)@ == old(rhs)@,
    {
        let mut b = MF::<i32, ROWS, COLS>::new_heap();
        scalar_mul(self, rhs.array(), b.array_mut());
        proof {
            lemma_heap_of(b);
        }
        b
    }
}

impl<const ROWS: usize, const COLS: usize>
    vstd::std_specs::ops::MulSpecImpl<&mut HMatrix<i32, ROWS, COLS>> for i32
{
    open spec fn obeys_mul_spec() -> bool {
        true
    }

    open spec fn mul_req(self, rhs: &mut HMatrix<i32, ROWS, COLS>) -> bool {
        scaled_req(self, mut_ref_current(rhs)@)
    }

    open spec fn mul_spec(self, rhs: &mut HMatrix<i32, ROWS, COLS>) -> HMatrix<i32, ROWS, COLS> {
        heap_of(scaled(self, mut_ref_current(rhs)@))
    }
}

} // verus!
