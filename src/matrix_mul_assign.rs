//! Matrix multiplication for every storage and operand form, and in-place
//! multiplication of square matrices. The product is held like the left
//! operand. In-place multiplication is the method `mul_assign`, which takes
//! a right operand of either storage by reference.
use crate::matrix::Grid;
use crate::matrix::HMatrix;
use crate::matrix::MF;
use crate::matrix::Numeric;
use crate::matrix::SMatrix;
use crate::matrix::heap_of;
use crate::matrix::lemma_heap_of;
use crate::matrix::lemma_heap_shape;
use crate::matrix::lemma_stack_of;
use crate::matrix::lemma_stack_shape;
use crate::matrix::stack_of;
use crate::matrix_mul::multiply;
use crate::model::is_product;
use crate::model::product;
use crate::model::product_req;
use std::marker::PhantomData;
use vstd::prelude::*;
use vstd::std_specs::ops::AddSpec;
use vstd::std_specs::ops::MulSpec;

verus! {

broadcast use {lemma_stack_shape, lemma_heap_shape};

/// Products of a `ROWS x COLS` matrix and a `COLS x COLS_RIGHT` matrix.
struct Mult<T: Numeric<T>, const ROWS: usize, const COLS: usize, const COLS_RIGHT: usize> {
    phantom: PhantomData<T>,
}

impl<T: Numeric<T>, const ROWS: usize, const COLS: usize, const COLS_RIGHT: usize>
    Mult<T, ROWS, COLS, COLS_RIGHT>
{
    /// The product of `lhs` and `rhs`, held like `lhs`.
    fn mul_ref_s_ref_s(
        lhs: &SMatrix<T, ROWS, COLS>,
        rhs: &SMatrix<T, COLS, COLS_RIGHT>,
    ) -> (r: SMatrix<T, ROWS, COLS_RIGHT>)
        requires
            product_req(lhs@, rhs@, COLS_RIGHT as nat),
        ensures
            is_product(r@, lhs@, rhs@, COLS_RIGHT as nat),
    {
        let mut c = MF::<T, ROWS, COLS_RIGHT>::new_stack();
        multiply(lhs.array(), rhs.array(), c.array_mut());
        c
    }

    /// The product of `lhs` and `rhs`, held like `lhs`.
    fn mul_ref_s_ref_h(
        lhs: &SMatrix<T, ROWS, COLS>,
        rhs: &HMatrix<T, COLS, COLS_RIGHT>,
    ) -> (r: SMatrix<T, ROWS, COLS_RIGHT>)
        requires
            product_req(lhs@, rhs@, COLS_RIGHT as nat),
        ensures
            is_product(r@, lhs@, rhs@, COLS_RIGHT as nat),
    {
        let mut c = MF::<T, ROWS, COLS_RIGHT>::new_stack();
        multiply(lhs.array(), rhs.array(), c.array_mut());
        c
    }

    /// The product of `lhs` and `rhs`, held like `lhs`.
    fn mul_ref_h_ref_s(
        lhs: &HMatrix<T, ROWS, COLS>,
        rhs: &SMatrix<T, COLS, COLS_RIGHT>,
    ) -> (r: HMatrix<T, ROWS, COLS_RIGHT>)
        requires
            product_req(lhs@, rhs@, COLS_RIGHT as nat),
        ensures
            is_product(r@, lhs@, rhs@, COLS_RIGHT as nat),
    {
        let mut c = MF::<T, ROWS, COLS_RIGHT>::new_heap();
        multiply(lhs.array(), rhs.array(), c.array_mut());
        c
    }

    /// The product of `lhs` and `rhs`, held like `lhs`.
    fn mul_ref_h_ref_h(
        lhs: &HMatrix<T, ROWS, COLS>,
        rhs: &HMatrix<T, COLS, COLS_RIGHT>,
    ) -> (r: HMatrix<T, ROWS, COLS_RIGHT>)
        requires
            product_req(lhs@, rhs@, COLS_RIGHT as nat),
        ensures
            is_product(r@, lhs@, rhs@, COLS_RIGHT as nat),
    {
        let mut c = MF::<T, ROWS, COLS_RIGHT>::new_heap();
        multiply(lhs.array(), rhs.array(), c.array_mut());
        c
    }
}

// SMatrix * SMatrix
impl<T: Numeric<T>, const ROWS: usize, const COLS: usize, const COLS_RIGHT: usize>
    std::ops::Mul<SMatrix<T, COLS, COLS_RIGHT>> for SMatrix<T, ROWS, COLS>
{
    type Output = SMatrix<T, ROWS, COLS_RIGHT>;

    fn mul(self, rhs: SMatrix<T, COLS, COLS_RIGHT>) -> (r: SMatrix<T, ROWS, COLS_RIGHT>)
        ensures
            is_product(r@, self@, rhs@, COLS_RIGHT as nat),
    {
        let r = Mult::<T, ROWS, COLS, COLS_RIGHT>::mul_ref_s_ref_s(
            &self,
            &rhs,
        );
        proof {
            lemma_stack_of(r);
            lemma_stack_shape(rhs);
        }
        r
    }
}

impl<T: Numeric<T>, const ROWS: usize, const COLS: usize, const COLS_RIGHT: usize>
    vstd::std_specs::ops::MulSpecImpl<SMatrix<T, COLS, COLS_RIGHT>> for SMatrix<T, ROWS, COLS>
{
    open spec fn obeys_mul_spec() -> bool {
        T::obeys_add_spec() && T::obeys_mul_spec() && COLS > 0
    }

    open spec fn mul_req(self, rhs: SMatrix<T, COLS, COLS_RIGHT>) -> bool {
        product_req(self@, rhs@, COLS_RIGHT as nat)
    }

    open spec fn mul_spec(self, rhs: SMatrix<T, COLS, COLS_RIGHT>) -> SMatrix<T, ROWS, COLS_RIGHT> {
        stack_of(product(self@, rhs@, COLS_RIGHT as nat))
    }
}

// SMatrix * &SMatrix
impl<T: Numeric<T>, const ROWS: usize, const COLS: usize, const COLS_RIGHT: usize>
    std::ops::Mul<&SMatrix<T, COLS, COLS_RIGHT>> for SMatrix<T, ROWS, COLS>
{
    type Output = SMatrix<T, ROWS, COLS_RIGHT>;

    fn mul(self, rhs: &SMatrix<T, COLS, COLS_RIGHT>) -> (r: SMatrix<T, ROWS, COLS_RIGHT>)
        ensures
            is_product(r@, self@, (*rhs)@, COLS_RIGHT as nat),
    {
        let r = Mult::<T, ROWS, COLS, COLS_RIGHT>::mul_ref_s_ref_s(
            &self,
            rhs,
        );
        proof {
            lemma_stack_of(r);
            lemma_stack_shape(*rhs);
        }
        r
    }
}

impl<T: Numeric<T>, const ROWS: usize, const COLS: usize, const COLS_RIGHT: usize>
    vstd::std_specs::ops::MulSpecImpl<&SMatrix<T, COLS, COLS_RIGHT>> for SMatrix<T, ROWS, COLS>
{
    open spec fn obeys_mul_spec() -> bool {
        T::obeys_add_spec() && T::obeys_mul_spec() && COLS > 0
    }

    open spec fn mul_req(self, rhs: &SMatrix<T, COLS, COLS_RIGHT>) -> bool {
        product_req(self@, (*rhs)@, COLS_RIGHT as nat)
    }

    open spec fn mul_spec(self, rhs: &SMatrix<T, COLS, COLS_RIGHT>) -> SMatrix<T, ROWS, COLS_RIGHT> {
        stack_of(product(self@, (*rhs)@, COLS_RIGHT as nat))
    }
}

// SMatrix * &mut SMatrix
impl<T: Numeric<T>, const ROWS: usize, const COLS: usize, const COLS_RIGHT: usize>
    std::ops::Mul<&mut SMatrix<T, COLS, COLS_RIGHT>> for SMatrix<T, ROWS, COLS>
{
    type Output = SMatrix<T, ROWS, COLS_RIGHT>;

    fn mul(self, rhs: &mut SMatrix<T, COLS, COLS_RIGHT>) -> (r: SMatrix<T, ROWS, COLS_RIGHT>)
        ensures
            is_product(r@, self@, old(rhs)@, COLS_RIGHT as nat),
            final(rhs)@ == old(rhs)@,
    {
        let r = Mult::<T, ROWS, COLS, COLS_RIGHT>::mul_ref_s_ref_s(
            &self,
            rhs,
        );
        proof {
            lemma_stack_of(r);
            lemma_stack_shape(*rhs);
        }
        r
    }
}

impl<T: Numeric<T>, const ROWS: usize, const COLS: usize, const COLS_RIGHT: usize>
    vstd::std_specs::ops::MulSpecImpl<&mut SMatrix<T, COLS, COLS_RIGHT>> for SMatrix<T, ROWS, COLS>
{
    open spec fn obeys_mul_spec() -> bool {
        T::obeys_add_spec() && T::obeys_mul_spec() && COLS > 0
    }

    open spec fn mul_req(self, rhs: &mut SMatrix<T, COLS, COLS_RIGHT>) -> bool {
        product_req(self@, mut_ref_current(rhs)@, COLS_RIGHT as nat)
    }

    open spec fn mul_spec(self, rhs: &mut SMatrix<T, COLS, COLS_RIGHT>) -> SMatrix<T, ROWS, COLS_RIGHT> {
        stack_of(product(self@, mut_ref_current(rhs)@, COLS_RIGHT as nat))
    }
}

// SMatrix * HMatrix
impl<T: Numeric<T>, const ROWS: usize, const COLS: usize, const COLS_RIGHT: usize>
    std::ops::Mul<HMatrix<T, COLS, COLS_RIGHT>> for SMatrix<T, ROWS, COLS>
{
    type Output = SMatrix<T, ROWS, COLS_RIGHT>;

    fn mul(self, rhs: HMatrix<T, COLS, COLS_RIGHT>) -> (r: SMatrix<T, ROWS, COLS_RIGHT>)
        ensures
            is_product(r@, self@, rhs@, COLS_RIGHT as nat),
    {
        let r = Mult::<T, ROWS, COLS, COLS_RIGHT>::mul_ref_s_ref_h(
            &self,
            &rhs,
        );
        proof {
            lemma_stack_of(r);
            lemma_heap_shape(rhs);
        }
        r
    }
}

impl<T: Numeric<T>, const ROWS: usize, const COLS: usize, const COLS_RIGHT: usize>
    vstd::std_specs::ops::MulSpecImpl<HMatrix<T, COLS, COLS_RIGHT>> for SMatrix<T, ROWS, COLS>
{
    open spec fn obeys_mul_spec() -> bool {
        T::obeys_add_spec() && T::obeys_mul_spec() && COLS > 0
    }

    open spec fn mul_req(self, rhs: HMatrix<T, COLS, COLS_RIGHT>) -> bool {
        product_req(self@, rhs@, COLS_RIGHT as nat)
    }

    open spec fn mul_spec(self, rhs: HMatrix<T, COLS, COLS_RIGHT>) -> SMatrix<T, ROWS, COLS_RIGHT> {
        stack_of(product(self@, rhs@, COLS_RIGHT as nat))
    }
}

// SMatrix * &HMatrix
impl<T: Numeric<T>, const ROWS: usize, const COLS: usize, const COLS_RIGHT: usize>
    std::ops::Mul<&HMatrix<T, COLS, COLS_RIGHT>> for SMatrix<T, ROWS, COLS>
{
    type Output = SMatrix<T, ROWS, COLS_RIGHT>;

    fn mul(self, rhs: &HMatrix<T, COLS, COLS_RIGHT>) -> (r: SMatrix<T, ROWS, COLS_RIGHT>)
        ensures
            is_product(r@, self@, (*rhs)@, COLS_RIGHT as nat),
    {
        let r = Mult::<T, ROWS, COLS, COLS_RIGHT>::mul_ref_s_ref_h(
            &self,
            rhs,
        );
        proof {
            lemma_stack_of(r);
            lemma_heap_shape(*rhs);
        }
        r
    }
}

impl<T: Numeric<T>, const ROWS: usize, const COLS: usize, const COLS_RIGHT: usize>
    vstd::std_specs::ops::MulSpecImpl<&HMatrix<T, COLS, COLS_RIGHT>> for SMatrix<T, ROWS, COLS>
{
    open spec fn obeys_mul_spec() -> bool {
        T::obeys_add_spec() && T::obeys_mul_spec() && COLS > 0
    }

    open spec fn mul_req(self, rhs: &HMatrix<T, COLS, COLS_RIGHT>) -> bool {
        product_req(self@, (*rhs)@, COLS_RIGHT as nat)
    }

    open spec fn mul_spec(self, rhs: &HMatrix<T, COLS, COLS_RIGHT>) -> SMatrix<T, ROWS, COLS_RIGHT> {
        stack_of(product(self@, (*rhs)@, COLS_RIGHT as nat))
    }
}

// SMatrix * &mut HMatrix
impl<T: Numeric<T>, const ROWS: usize, const COLS: usize, const COLS_RIGHT: usize>
    std::ops::Mul<&mut HMatrix<T, COLS, COLS_RIGHT>> for SMatrix<T, ROWS, COLS>
{
    type Output = SMatrix<T, ROWS, COLS_RIGHT>;

    fn mul(self, rhs: &mut HMatrix<T, COLS, COLS_RIGHT>) -> (r: SMatrix<T, ROWS, COLS_RIGHT>)
        ensures
            is_product(r@, self@, old(rhs)@, COLS_RIGHT as nat),
            final(rhs)@ == old(rhs)@,
    {
        let r = Mult::<T, ROWS, COLS, COLS_RIGHT>::mul_ref_s_ref_h(
            &self,
            rhs,
        );
        proof {
            lemma_stack_of(r);
            lemma_heap_shape(*rhs);
        }
        r
    }
}

impl<T: Numeric<T>, const ROWS: usize, const COLS: usize, const COLS_RIGHT: usize>
    vstd::std_specs::ops::MulSpecImpl<&mut HMatrix<T, COLS, COLS_RIGHT>> for SMatrix<T, ROWS, COLS>
{
    open spec fn obeys_mul_spec() -> bool {
        T::obeys_add_spec() && T::obeys_mul_spec() && COLS > 0
    }

    open spec fn mul_req(self, rhs: &mut HMatrix<T, COLS, COLS_RIGHT>) -> bool {
        product_req(self@, mut_ref_current(rhs)@, COLS_RIGHT as nat)
    }

    open spec fn mul_spec(self, rhs: &mut HMatrix<T, COLS, COLS_RIGHT>) -> SMatrix<T, ROWS, COLS_RIGHT> {
        stack_of(product(self@, mut_ref_current(rhs)@, COLS_RIGHT as nat))
    }
}

// &SMatrix * SMatrix
impl<T: Numeric<T>, const ROWS: usize, const COLS: usize, const COLS_RIGHT: usize>
    std::ops::Mul<SMatrix<T, COLS, COLS_RIGHT>> for &SMatrix<T, ROWS, COLS>
{
    type Output = SMatrix<T, ROWS, COLS_RIGHT>;

    fn mul(self, rhs: SMatrix<T, COLS, COLS_RIGHT>) -> (r: SMatrix<T, ROWS, COLS_RIGHT>)
        ensures
            is_product(r@, (*self)@, rhs@, COLS_RIGHT as nat),
    {
        let r = Mult::<T, ROWS, COLS, COLS_RIGHT>::mul_ref_s_ref_s(
            self,
            &rhs,
        );
        proof {
            lemma_stack_of(r);
            lemma_stack_shape(rhs);
        }
        r
    }
}

impl<T: Numeric<T>, const ROWS: usize, const COLS: usize, const COLS_RIGHT: usize>
    vstd::std_specs::ops::MulSpecImpl<SMatrix<T, COLS, COLS_RIGHT>> for &SMatrix<T, ROWS, COLS>
{
    open spec fn obeys_mul_spec() -> bool {
        T::obeys_add_spec() && T::obeys_mul_spec() && COLS > 0
    }

    open spec fn mul_req(self, rhs: SMatrix<T, COLS, COLS_RIGHT>) -> bool {
        product_req((*self)@, rhs@, COLS_RIGHT as nat)
    }

    open spec fn mul_spec(self, rhs: SMatrix<T, COLS, COLS_RIGHT>) -> SMatrix<T, ROWS, COLS_RIGHT> {
        stack_of(product((*self)@, rhs@, COLS_RIGHT as nat))
    }
}

// &SMatrix * &SMatrix
impl<T: Numeric<T>, const ROWS: usize, const COLS: usize, const COLS_RIGHT: usize>
    std::ops::Mul<&SMatrix<T, COLS, COLS_RIGHT>> for &SMatrix<T, ROWS, COLS>
{
    type Output = SMatrix<T, ROWS, COLS_RIGHT>;

    fn mul(self, rhs: &SMatrix<T, COLS, COLS_RIGHT>) -> (r: SMatrix<T, ROWS, COLS_RIGHT>)
        ensures
            is_product(r@, (*self)@, (*rhs)@, COLS_RIGHT as nat),
    {
        let r = Mult::<T, ROWS, COLS, COLS_RIGHT>::mul_ref_s_ref_s(
            self,
            rhs,
        );
        proof {
            lemma_stack_of(r);
            lemma_stack_shape(*rhs);
        }
        r
    }
}

impl<T: Numeric<T>, const ROWS: usize, const COLS: usize, const COLS_RIGHT: usize>
    vstd::std_specs::ops::MulSpecImpl<&SMatrix<T, COLS, COLS_RIGHT>> for &SMatrix<T, ROWS, COLS>
{
    open spec fn obeys_mul_spec() -> bool {
        T::obeys_add_spec() && T::obeys_mul_spec() && COLS > 0
    }

    open spec fn mul_req(self, rhs: &SMatrix<T, COLS, COLS_RIGHT>) -> bool {
        product_req((*self)@, (*rhs)@, COLS_RIGHT as nat)
    }

    open spec fn mul_spec(self, rhs: &SMatrix<T, COLS, COLS_RIGHT>) -> SMatrix<T, ROWS, COLS_RIGHT> {
        stack_of(product((*self)@, (*rhs)@, COLS_RIGHT as nat))
    }
}

// &SMatrix * &mut SMatrix
impl<T: Numeric<T>, const ROWS: usize, const COLS: usize, const COLS_RIGHT: usize>
    std::ops::Mul<&mut SMatrix<T, COLS, COLS_RIGHT>> for &SMatrix<T, ROWS, COLS>
{
    type Output = SMatrix<T, ROWS, COLS_RIGHT>;

    fn mul(self, rhs: &mut SMatrix<T, COLS, COLS_RIGHT>) -> (r: SMatrix<T, ROWS, COLS_RIGHT>)
        ensures
            is_product(r@, (*self)@, old(rhs)@, COLS_RIGHT as nat),
            final(rhs)@ == old(rhs)@,
    {
        let r = Mult::<T, ROWS, COLS, COLS_RIGHT>::mul_ref_s_ref_s(
            self,
            rhs,
        );
        proof {
            lemma_stack_of(r);
            lemma_stack_shape(*rhs);
        }
        r
    }
}

impl<T: Numeric<T>, const ROWS: usize, const COLS: usize, const COLS_RIGHT: usize>
    vstd::std_specs::ops::MulSpecImpl<&mut SMatrix<T, COLS, COLS_RIGHT>> for &SMatrix<T, ROWS, COLS>
{
    open spec fn obeys_mul_spec() -> bool {
        T::obeys_add_spec() && T::obeys_mul_spec() && COLS > 0
    }

    open spec fn mul_req(self, rhs: &mut SMatrix<T, COLS, COLS_RIGHT>) -> bool {
        product_req((*self)@, mut_ref_current(rhs)@, COLS_RIGHT as nat)
    }

    open spec fn mul_spec(self, rhs: &mut SMatrix<T, COLS, COLS_RIGHT>) -> SMatrix<T, ROWS, COLS_RIGHT> {
        stack_of(product((*self)@, mut_ref_current(rhs)@, COLS_RIGHT as nat))
    }
}

// &SMatrix * HMatrix
impl<T: Numeric<T>, const ROWS: usize, const COLS: usize, const COLS_RIGHT: usize>
    std::ops::Mul<HMatrix<T, COLS, COLS_RIGHT>> for &SMatrix<T, ROWS, COLS>
{
    type Output = SMatrix<T, ROWS, COLS_RIGHT>;

    fn mul(self, rhs: HMatrix<T, COLS, COLS_RIGHT>) -> (r: SMatrix<T, ROWS, COLS_RIGHT>)
        ensures
            is_product(r@, (*self)@, rhs@, COLS_RIGHT as nat),
    {
        let r = Mult::<T, ROWS, COLS, COLS_RIGHT>::mul_ref_s_ref_h(
            self,
            &rhs,
        );
        proof {
            lemma_stack_of(r);
            lemma_heap_shape(rhs);
        }
        r
    }
}

impl<T: Numeric<T>, const ROWS: usize, const COLS: usize, const COLS_RIGHT: usize>
    vstd::std_specs::ops::MulSpecImpl<HMatrix<T, COLS, COLS_RIGHT>> for &SMatrix<T, ROWS, COLS>
{
    open spec fn obeys_mul_spec() -> bool {
        T::obeys_add_spec() && T::obeys_mul_spec() && COLS > 0
    }

    open spec fn mul_req(self, rhs: HMatrix<T, COLS, COLS_RIGHT>) -> bool {
        product_req((*self)@, rhs@, COLS_RIGHT as nat)
    }

    open spec fn mul_spec(self, rhs: HMatrix<T, COLS, COLS_RIGHT>) -> SMatrix<T, ROWS, COLS_RIGHT> {
        stack_of(product((*self)@, rhs@, COLS_RIGHT as nat))
    }
}

// &SMatrix * &HMatrix
impl<T: Numeric<T>, const ROWS: usize, const COLS: usize, const COLS_RIGHT: usize>
    std::ops::Mul<&HMatrix<T, COLS, COLS_RIGHT>> for &SMatrix<T, ROWS, COLS>
{
    type Output = SMatrix<T, ROWS, COLS_RIGHT>;

    fn mul(self, rhs: &HMatrix<T, COLS, COLS_RIGHT>) -> (r: SMatrix<T, ROWS, COLS_RIGHT>)
        ensures
            is_product(r@, (*self)@, (*rhs)@, COLS_RIGHT as nat),
    {
        let r = Mult::<T, ROWS, COLS, COLS_RIGHT>::mul_ref_s_ref_h(
            self,
            rhs,
        );
        proof {
            lemma_stack_of(r);
            lemma_heap_shape(*rhs);
        }
        r
    }
}

impl<T: Numeric<T>, const ROWS: usize, const COLS: usize, const COLS_RIGHT: usize>
    vstd::std_specs::ops::MulSpecImpl<&HMatrix<T, COLS, COLS_RIGHT>> for &SMatrix<T, ROWS, COLS>
{
    open spec fn obeys_mul_spec() -> bool {
        T::obeys_add_spec() && T::obeys_mul_spec() && COLS > 0
    }

    open spec fn mul_req(self, rhs: &HMatrix<T, COLS, COLS_RIGHT>) -> bool {
        product_req((*self)@, (*rhs)@, COLS_RIGHT as nat)
    }

    open spec fn mul_spec(self, rhs: &HMatrix<T, COLS, COLS_RIGHT>) -> SMatrix<T, ROWS, COLS_RIGHT> {
        stack_of(product((*self)@, (*rhs)@, COLS_RIGHT as nat))
    }
}

// &SMatrix * &mut HMatrix
impl<T: Numeric<T>, const ROWS: usize, const COLS: usize, const COLS_RIGHT: usize>
    std::ops::Mul<&mut HMatrix<T, COLS, COLS_RIGHT>> for &SMatrix<T, ROWS, COLS>
{
    type Output = SMatrix<T, ROWS, COLS_RIGHT>;

    fn mul(self, rhs: &mut HMatrix<T, COLS, COLS_RIGHT>) -> (r: SMatrix<T, ROWS, COLS_RIGHT>)
        ensures
            is_product(r@, (*self)@, old(rhs)@, COLS_RIGHT as nat),
            final(rhs)@ == old(rhs)@,
    {
        let r = Mult::<T, ROWS, COLS, COLS_RIGHT>::mul_ref_s_ref_h(
            self,
            rhs,
        );
        proof {
            lemma_stack_of(r);
            lemma_heap_shape(*rhs);
        }
        r
    }
}

impl<T: Numeric<T>, const ROWS: usize, const COLS: usize, const COLS_RIGHT: usize>
    vstd::std_specs::ops::MulSpecImpl<&mut HMatrix<T, COLS, COLS_RIGHT>> for &SMatrix<T, ROWS, COLS>
{
    open spec fn obeys_mul_spec() -> bool {
        T::obeys_add_spec() && T::obeys_mul_spec() && COLS > 0
    }

    open spec fn mul_req(self, rhs: &mut HMatrix<T, COLS, COLS_RIGHT>) -> bool {
        product_req((*self)@, mut_ref_current(rhs)@, COLS_RIGHT as nat)
    }

    open spec fn mul_spec(self, rhs: &mut HMatrix<T, COLS, COLS_RIGHT>) -> SMatrix<T, ROWS, COLS_RIGHT> {
        stack_of(product((*self)@, mut_ref_current(rhs)@, COLS_RIGHT as nat))
    }
}

// &mut SMatrix * SMatrix
impl<T: Numeric<T>, const ROWS: usize, const COLS: usize, const COLS_RIGHT: usize>
    std::ops::Mul<SMatrix<T, COLS, COLS_RIGHT>> for &mut SMatrix<T, ROWS, COLS>
{
    type Output = SMatrix<T, ROWS, COLS_RIGHT>;

    fn mul(self, rhs: SMatrix<T, COLS, COLS_RIGHT>) -> (r: SMatrix<T, ROWS, COLS_RIGHT>)
        ensures
            is_product(r@, old(self)@, rhs@, COLS_RIGHT as nat),
            final(self)@ == old(self)@,
    {
        let r = Mult::<T, ROWS, COLS, COLS_RIGHT>::mul_ref_s_ref_s(
            self,
            &rhs,
        );
        proof {
            lemma_stack_of(r);
            lemma_stack_shape(rhs);
        }
        r
    }
}

impl<T: Numeric<T>, const ROWS: usize, const COLS: usize, const COLS_RIGHT: usize>
    vstd::std_specs::ops::MulSpecImpl<SMatrix<T, COLS, COLS_RIGHT>> for &mut SMatrix<T, ROWS, COLS>
{
    open spec fn obeys_mul_spec() -> bool {
        T::obeys_add_spec() && T::obeys_mul_spec() && COLS > 0
    }

    open spec fn mul_req(self, rhs: SMatrix<T, COLS, COLS_RIGHT>) -> bool {
        product_req(mut_ref_current(self)@, rhs@, COLS_RIGHT as nat)
    }

    open spec fn mul_spec(self, rhs: SMatrix<T, COLS, COLS_RIGHT>) -> SMatrix<T, ROWS, COLS_RIGHT> {
        stack_of(product(mut_ref_current(self)@, rhs@, COLS_RIGHT as nat))
    }
}

// &mut SMatrix * &SMatrix
impl<T: Numeric<T>, const ROWS: usize, const COLS: usize, const COLS_RIGHT: usize>
    std::ops::Mul<&SMatrix<T, COLS, COLS_RIGHT>> for &mut SMatrix<T, ROWS, COLS>
{
    type Output = SMatrix<T, ROWS, COLS_RIGHT>;

    fn mul(self, rhs: &SMatrix<T, COLS, COLS_RIGHT>) -> (r: SMatrix<T, ROWS, COLS_RIGHT>)
        ensures
            is_product(r@, old(self)@, (*rhs)@, COLS_RIGHT as nat),
            final(self)@ == old(self)@,
    {
        let r = Mult::<T, ROWS, COLS, COLS_RIGHT>::mul_ref_s_ref_s(
            self,
            rhs,
        );
        proof {
            lemma_stack_of(r);
            lemma_stack_shape(*rhs);
        }
        r
    }
}

impl<T: Numeric<T>, const ROWS: usize, const COLS: usize, const COLS_RIGHT: usize>
    vstd::std_specs::ops::MulSpecImpl<&SMatrix<T, COLS, COLS_RIGHT>> for &mut SMatrix<T, ROWS, COLS>
{
    open spec fn obeys_mul_spec() -> bool {
        T::obeys_add_spec() && T::obeys_mul_spec() && COLS > 0
    }

    open spec fn mul_req(self, rhs: &SMatrix<T, COLS, COLS_RIGHT>) -> bool {
        product_req(mut_ref_current(self)@, (*rhs)@, COLS_RIGHT as nat)
    }

    open spec fn mul_spec(self, rhs: &SMatrix<T, COLS, COLS_RIGHT>) -> SMatrix<T, ROWS, COLS_RIGHT> {
        stack_of(product(mut_ref_current(self)@, (*rhs)@, COLS_RIGHT as nat))
    }
}

// &mut SMatrix * &mut SMatrix
impl<T: Numeric<T>, const ROWS: usize, const COLS: usize, const COLS_RIGHT: usize>
    std::ops::Mul<&mut SMatrix<T, COLS, COLS_RIGHT>> for &mut SMatrix<T, ROWS, COLS>
{
    type Output = SMatrix<T, ROWS, COLS_RIGHT>;

    fn mul(self, rhs: &mut SMatrix<T, COLS, COLS_RIGHT>) -> (r: SMatrix<T, ROWS, COLS_RIGHT>)
        ensures
            is_product(r@, old(self)@, old(rhs)@, COLS_RIGHT as nat),
            final(self)@ == old(self)@,
            final(rhs)@ == old(rhs)@,
    {
        let r = Mult::<T, ROWS, COLS, COLS_RIGHT>::mul_ref_s_ref_s(
            self,
            rhs,
        );
        proof {
            lemma_stack_of(r);
            lemma_stack_shape(*rhs);
        }
        r
    }
}

impl<T: Numeric<T>, const ROWS: usize, const COLS: usize, const COLS_RIGHT: usize>
    vstd::std_specs::ops::MulSpecImpl<&mut SMatrix<T, COLS, COLS_RIGHT>> for &mut SMatrix<T, ROWS, COLS>
{
    open spec fn obeys_mul_spec() -> bool {
        T::obeys_add_spec() && T::obeys_mul_spec() && COLS > 0
    }

    open spec fn mul_req(self, rhs: &mut SMatrix<T, COLS, COLS_RIGHT>) -> bool {
        product_req(mut_ref_current(self)@, mut_ref_current(rhs)@, COLS_RIGHT as nat)
    }

    open spec fn mul_spec(self, rhs: &mut SMatrix<T, COLS, COLS_RIGHT>) -> SMatrix<T, ROWS, COLS_RIGHT> {
        stack_of(product(mut_ref_current(self)@, mut_ref_current(rhs)@, COLS_RIGHT as nat))
    }
}

// &mut SMatrix * HMatrix
impl<T: Numeric<T>, const ROWS: usize, const COLS: usize, const COLS_RIGHT: usize>
    std::ops::Mul<HMatrix<T, COLS, COLS_RIGHT>> for &mut SMatrix<T, ROWS, COLS>
{
    type Output = SMatrix<T, ROWS, COLS_RIGHT>;

    fn mul(self, rhs: HMatrix<T, COLS, COLS_RIGHT>) -> (r: SMatrix<T, ROWS, COLS_RIGHT>)
        ensures
            is_product(r@, old(self)@, rhs@, COLS_RIGHT as nat),
            final(self)@ == old(self)@,
    {
        let r = Mult::<T, ROWS, COLS, COLS_RIGHT>::mul_ref_s_ref_h(
            self,
            &rhs,
        );
        proof {
            lemma_stack_of(r);
            lemma_heap_shape(rhs);
        }
        r
    }
}

impl<T: Numeric<T>, const ROWS: usize, const COLS: usize, const COLS_RIGHT: usize>
    vstd::std_specs::ops::MulSpecImpl<HMatrix<T, COLS, COLS_RIGHT>> for &mut SMatrix<T, ROWS, COLS>
{
    open spec fn obeys_mul_spec() -> bool {
        T::obeys_add_spec() && T::obeys_mul_spec() && COLS > 0
    }

    open spec fn mul_req(self, rhs: HMatrix<T, COLS, COLS_RIGHT>) -> bool {
        product_req(mut_ref_current(self)@, rhs@, COLS_RIGHT as nat)
    }

    open spec fn mul_spec(self, rhs: HMatrix<T, COLS, COLS_RIGHT>) -> SMatrix<T, ROWS, COLS_RIGHT> {
        stack_of(product(mut_ref_current(self)@, rhs@, COLS_RIGHT as nat))
    }
}

// &mut SMatrix * &HMatrix
impl<T: Numeric<T>, const ROWS: usize, const COLS: usize, const COLS_RIGHT: usize>
    std::ops::Mul<&HMatrix<T, COLS, COLS_RIGHT>> for &mut SMatrix<T, ROWS, COLS>
{
    type Output = SMatrix<T, ROWS, COLS_RIGHT>;

    fn mul(self, rhs: &HMatrix<T, COLS, COLS_RIGHT>) -> (r: SMatrix<T, ROWS, COLS_RIGHT>)
        ensures
            is_product(r@, old(self)@, (*rhs)@, COLS_RIGHT as nat),
            final(self)@ == old(self)@,
    {
        let r = Mult::<T, ROWS, COLS, COLS_RIGHT>::mul_ref_s_ref_h(
            self,
            rhs,
        );
        proof {
            lemma_stack_of(r);
            lemma_heap_shape(*rhs);
        }
        r
    }
}

impl<T: Numeric<T>, const ROWS: usize, const COLS: usize, const COLS_RIGHT: usize>
    vstd::std_specs::ops::MulSpecImpl<&HMatrix<T, COLS, COLS_RIGHT>> for &mut SMatrix<T, ROWS, COLS>
{
    open spec fn obeys_mul_spec() -> bool {
        T::obeys_add_spec() && T::obeys_mul_spec() && COLS > 0
    }

    open spec fn mul_req(self, rhs: &HMatrix<T, COLS, COLS_RIGHT>) -> bool {
        product_req(mut_ref_current(self)@, (*rhs)@, COLS_RIGHT as nat)
    }

    open spec fn mul_spec(self, rhs: &HMatrix<T, COLS, COLS_RIGHT>) -> SMatrix<T, ROWS, COLS_RIGHT> {
        stack_of(product(mut_ref_current(self)@, (*rhs)@, COLS_RIGHT as nat))
    }
}

// &mut SMatrix * &mut HMatrix
impl<T: Numeric<T>, const ROWS: usize, const COLS: usize, const COLS_RIGHT: usize>
    std::ops::Mul<&mut HMatrix<T, COLS, COLS_RIGHT>> for &mut SMatrix<T, ROWS, COLS>
{
    type Output = SMatrix<T, ROWS, COLS_RIGHT>;

    fn mul(self, rhs: &mut HMatrix<T, COLS, COLS_RIGHT>) -> (r: SMatrix<T, ROWS, COLS_RIGHT>)
        ensures
            is_product(r@, old(self)@, old(rhs)@, COLS_RIGHT as nat),
            final(self)@ == old(self)@,
            final(rhs)@ == old(rhs)@,
    {
        let r = Mult::<T, ROWS, COLS, COLS_RIGHT>::mul_ref_s_ref_h(
            self,
            rhs,
        );
        proof {
            lemma_stack_of(r);
            lemma_heap_shape(*rhs);
        }
        r
    }
}

impl<T: Numeric<T>, const ROWS: usize, const COLS: usize, const COLS_RIGHT: usize>
    vstd::std_specs::ops::MulSpecImpl<&mut HMatrix<T, COLS, COLS_RIGHT>> for &mut SMatrix<T, ROWS, COLS>
{
    open spec fn obeys_mul_spec() -> bool {
        T::obeys_add_spec() && T::obeys_mul_spec() && COLS > 0
    }

    open spec fn mul_req(self, rhs: &mut HMatrix<T, COLS, COLS_RIGHT>) -> bool {
        product_req(mut_ref_current(self)@, mut_ref_current(rhs)@, COLS_RIGHT as nat)
    }

    open spec fn mul_spec(self, rhs: &mut HMatrix<T, COLS, COLS_RIGHT>) -> SMatrix<T, ROWS, COLS_RIGHT> {
        stack_of(product(mut_ref_current(self)@, mut_ref_current(rhs)@, COLS_RIGHT as nat))
    }
}

// HMatrix * SMatrix
impl<T: Numeric<T>, const ROWS: usize, const COLS: usize, const COLS_RIGHT: usize>
    std::ops::Mul<SMatrix<T, COLS, COLS_RIGHT>> for HMatrix<T, ROWS, COLS>
{
    type Output = HMatrix<T, ROWS, COLS_RIGHT>;

    fn mul(self, rhs: SMatrix<T, COLS, COLS_RIGHT>) -> (r: HMatrix<T, ROWS, COLS_RIGHT>)
        ensures
            is_product(r@, self@, rhs@, COLS_RIGHT as nat),
    {
        let r = Mult::<T, ROWS, COLS, COLS_RIGHT>::mul_ref_h_ref_s(
            &self,
            &rhs,
        );
        proof {
            lemma_heap_of(r);
            lemma_stack_shape(rhs);
        }
        r
    }
}

impl<T: Numeric<T>, const ROWS: usize, const COLS: usize, const COLS_RIGHT: usize>
    vstd::std_specs::ops::MulSpecImpl<SMatrix<T, COLS, COLS_RIGHT>> for HMatrix<T, ROWS, COLS>
{
    open spec fn obeys_mul_spec() -> bool {
        T::obeys_add_spec() && T::obeys_mul_spec() && COLS > 0
    }

    open spec fn mul_req(self, rhs: SMatrix<T, COLS, COLS_RIGHT>) -> bool {
        product_req(self@, rhs@, COLS_RIGHT as nat)
    }

    open spec fn mul_spec(self, rhs: SMatrix<T, COLS, COLS_RIGHT>) -> HMatrix<T, ROWS, COLS_RIGHT> {
        heap_of(product(self@, rhs@, COLS_RIGHT as nat))
    }
}

// HMatrix * &SMatrix
impl<T: Numeric<T>, const ROWS: usize, const COLS: usize, const COLS_RIGHT: usize>
    std::ops::Mul<&SMatrix<T, COLS, COLS_RIGHT>> for HMatrix<T, ROWS, COLS>
{
    type Output = HMatrix<T, ROWS, COLS_RIGHT>;

    fn mul(self, rhs: &SMatrix<T, COLS, COLS_RIGHT>) -> (r: HMatrix<T, ROWS, COLS_RIGHT>)
        ensures
            is_product(r@, self@, (*rhs)@, COLS_RIGHT as nat),
    {
        let r = Mult::<T, ROWS, COLS, COLS_RIGHT>::mul_ref_h_ref_s(
            &self,
            rhs,
        );
        proof {
            lemma_heap_of(r);
            lemma_stack_shape(*rhs);
        }
        r
    }
}

impl<T: Numeric<T>, const ROWS: usize, const COLS: usize, const COLS_RIGHT: usize>
    vstd::std_specs::ops::MulSpecImpl<&SMatrix<T, COLS, COLS_RIGHT>> for HMatrix<T, ROWS, COLS>
{
    open spec fn obeys_mul_spec() -> bool {
        T::obeys_add_spec() && T::obeys_mul_spec() && COLS > 0
    }

    open spec fn mul_req(self, rhs: &SMatrix<T, COLS, COLS_RIGHT>) -> bool {
        product_req(self@, (*rhs)@, COLS_RIGHT as nat)
    }

    open spec fn mul_spec(self, rhs: &SMatrix<T, COLS, COLS_RIGHT>) -> HMatrix<T, ROWS, COLS_RIGHT> {
        heap_of(product(self@, (*rhs)@, COLS_RIGHT as nat))
    }
}

// HMatrix * &mut SMatrix
impl<T: Numeric<T>, const ROWS: usize, const COLS: usize, const COLS_RIGHT: usize>
    std::ops::Mul<&mut SMatrix<T, COLS, COLS_RIGHT>> for HMatrix<T, ROWS, COLS>
{
    type Output = HMatrix<T, ROWS, COLS_RIGHT>;

    fn mul(self, rhs: &mut SMatrix<T, COLS, COLS_RIGHT>) -> (r: HMatrix<T, ROWS, COLS_RIGHT>)
        ensures
            is_product(r@, self@, old(rhs)@, COLS_RIGHT as nat),
            final(rhs)@ == old(rhs)@,
    {
        let r = Mult::<T, ROWS, COLS, COLS_RIGHT>::mul_ref_h_ref_s(
            &self,
            rhs,
        );
        proof {
            lemma_heap_of(r);
            lemma_stack_shape(*rhs);
        }
        r
    }
}

impl<T: Numeric<T>, const ROWS: usize, const COLS: usize, const COLS_RIGHT: usize>
    vstd::std_specs::ops::MulSpecImpl<&mut SMatrix<T, COLS, COLS_RIGHT>> for HMatrix<T, ROWS, COLS>
{
    open spec fn obeys_mul_spec() -> bool {
        T::obeys_add_spec() && T::obeys_mul_spec() && COLS > 0
    }

    open spec fn mul_req(self, rhs: &mut SMatrix<T, COLS, COLS_RIGHT>) -> bool {
        product_req(self@, mut_ref_current(rhs)@, COLS_RIGHT as nat)
    }

    open spec fn mul_spec(self, rhs: &mut SMatrix<T, COLS, COLS_RIGHT>) -> HMatrix<T, ROWS, COLS_RIGHT> {
        heap_of(product(self@, mut_ref_current(rhs)@, COLS_RIGHT as nat))
    }
}

// HMatrix * HMatrix
impl<T: Numeric<T>, const ROWS: usize, const COLS: usize, const COLS_RIGHT: usize>
    std::ops::Mul<HMatrix<T, COLS, COLS_RIGHT>> for HMatrix<T, ROWS, COLS>
{
    type Output = HMatrix<T, ROWS, COLS_RIGHT>;

    fn mul(self, rhs: HMatrix<T, COLS, COLS_RIGHT>) -> (r: HMatrix<T, ROWS, COLS_RIGHT>)
        ensures
            is_product(r@, self@, rhs@, COLS_RIGHT as nat),
    {
        let r = Mult::<T, ROWS, COLS, COLS_RIGHT>::mul_ref_h_ref_h(
            &self,
            &rhs,
        );
        proof {
            lemma_heap_of(r);
            lemma_heap_shape(rhs);
        }
        r
    }
}

impl<T: Numeric<T>, const ROWS: usize, const COLS: usize, const COLS_RIGHT: usize>
    vstd::std_specs::ops::MulSpecImpl<HMatrix<T, COLS, COLS_RIGHT>> for HMatrix<T, ROWS, COLS>
{
    open spec fn obeys_mul_spec() -> bool {
        T::obeys_add_spec() && T::obeys_mul_spec() && COLS > 0
    }

    open spec fn mul_req(self, rhs: HMatrix<T, COLS, COLS_RIGHT>) -> bool {
        product_req(self@, rhs@, COLS_RIGHT as nat)
    }

    open spec fn mul_spec(self, rhs: HMatrix<T, COLS, COLS_RIGHT>) -> HMatrix<T, ROWS, COLS_RIGHT> {
        heap_of(product(self@, rhs@, COLS_RIGHT as nat))
    }
}

// HMatrix * &HMatrix
impl<T: Numeric<T>, const ROWS: usize, const COLS: usize, const COLS_RIGHT: usize>
    std::ops::Mul<&HMatrix<T, COLS, COLS_RIGHT>> for HMatrix<T, ROWS, COLS>
{
    type Output = HMatrix<T, ROWS, COLS_RIGHT>;

    fn mul(self, rhs: &HMatrix<T, COLS, COLS_RIGHT>) -> (r: HMatrix<T, ROWS, COLS_RIGHT>)
        ensures
            is_product(r@, self@, (*rhs)@, COLS_RIGHT as nat),
    {
        let r = Mult::<T, ROWS, COLS, COLS_RIGHT>::mul_ref_h_ref_h(
            &self,
            rhs,
        );
        proof {
            lemma_heap_of(r);
            lemma_heap_shape(*rhs);
        }
        r
    }
}

impl<T: Numeric<T>, const ROWS: usize, const COLS: usize, const COLS_RIGHT: usize>
    vstd::std_specs::ops::MulSpecImpl<&HMatrix<T, COLS, COLS_RIGHT>> for HMatrix<T, ROWS, COLS>
{
    open spec fn obeys_mul_spec() -> bool {
        T::obeys_add_spec() && T::obeys_mul_spec() && COLS > 0
    }

    open spec fn mul_req(self, rhs: &HMatrix<T, COLS, COLS_RIGHT>) -> bool {
        product_req(self@, (*rhs)@, COLS_RIGHT as nat)
    }

    open spec fn mul_spec(self, rhs: &HMatrix<T, COLS, COLS_RIGHT>) -> HMatrix<T, ROWS, COLS_RIGHT> {
        heap_of(product(self@, (*rhs)@, COLS_RIGHT as nat))
    }
}

// HMatrix * &mut HMatrix
impl<T: Numeric<T>, const ROWS: usize, const COLS: usize, const COLS_RIGHT: usize>
    std::ops::Mul<&mut HMatrix<T, COLS, COLS_RIGHT>> for HMatrix<T, ROWS, COLS>
{
    type Output = HMatrix<T, ROWS, COLS_RIGHT>;

    fn mul(self, rhs: &mut HMatrix<T, COLS, COLS_RIGHT>) -> (r: HMatrix<T, ROWS, COLS_RIGHT>)
        ensures
            is_product(r@, self@, old(rhs)@, COLS_RIGHT as nat),
            final(rhs)@ == old(rhs)@,
    {
        let r = Mult::<T, ROWS, COLS, COLS_RIGHT>::mul_ref_h_ref_h(
            &self,
            rhs,
        );
        proof {
            lemma_heap_of(r);
            lemma_heap_shape(*rhs);
        }
        r
    }
}

impl<T: Numeric<T>, const ROWS: usize, const COLS: usize, const COLS_RIGHT: usize>
    vstd::std_specs::ops::MulSpecImpl<&mut HMatrix<T, COLS, COLS_RIGHT>> for HMatrix<T, ROWS, COLS>
{
    open spec fn obeys_mul_spec() -> bool {
        T::obeys_add_spec() && T::obeys_mul_spec() && COLS > 0
    }

    open spec fn mul_req(self, rhs: &mut HMatrix<T, COLS, COLS_RIGHT>) -> bool {
        product_req(self@, mut_ref_current(rhs)@, COLS_RIGHT as nat)
    }

    open spec fn mul_spec(self, rhs: &mut HMatrix<T, COLS, COLS_RIGHT>) -> HMatrix<T, ROWS, COLS_RIGHT> {
        heap_of(product(self@, mut_ref_current(rhs)@, COLS_RIGHT as nat))
    }
}

// &HMatrix * SMatrix
impl<T: Numeric<T>, const ROWS: usize, const COLS: usize, const COLS_RIGHT: usize>
    std::ops::Mul<SMatrix<T, COLS, COLS_RIGHT>> for &HMatrix<T, ROWS, COLS>
{
    type Output = HMatrix<T, ROWS, COLS_RIGHT>;

    fn mul(self, rhs: SMatrix<T, COLS, COLS_RIGHT>) -> (r: HMatrix<T, ROWS, COLS_RIGHT>)
        ensures
            is_product(r@, (*self)@, rhs@, COLS_RIGHT as nat),
    {
        let r = Mult::<T, ROWS, COLS, COLS_RIGHT>::mul_ref_h_ref_s(
            self,
            &rhs,
        );
        proof {
            lemma_heap_of(r);
            lemma_stack_shape(rhs);
        }
        r
    }
}

impl<T: Numeric<T>, const ROWS: usize, const COLS: usize, const COLS_RIGHT: usize>
    vstd::std_specs::ops::MulSpecImpl<SMatrix<T, COLS, COLS_RIGHT>> for &HMatrix<T, ROWS, COLS>
{
    open spec fn obeys_mul_spec() -> bool {
        T::obeys_add_spec() && T::obeys_mul_spec() && COLS > 0
    }

    open spec fn mul_req(self, rhs: SMatrix<T, COLS, COLS_RIGHT>) -> bool {
        product_req((*self)@, rhs@, COLS_RIGHT as nat)
    }

    open spec fn mul_spec(self, rhs: SMatrix<T, COLS, COLS_RIGHT>) -> HMatrix<T, ROWS, COLS_RIGHT> {
        heap_of(product((*self)@, rhs@, COLS_RIGHT as nat))
    }
}

// &HMatrix * &SMatrix
impl<T: Numeric<T>, const ROWS: usize, const COLS: usize, const COLS_RIGHT: usize>
    std::ops::Mul<&SMatrix<T, COLS, COLS_RIGHT>> for &HMatrix<T, ROWS, COLS>
{
    type Output = HMatrix<T, ROWS, COLS_RIGHT>;

    fn mul(self, rhs: &SMatrix<T, COLS, COLS_RIGHT>) -> (r: HMatrix<T, ROWS, COLS_RIGHT>)
        ensures
            is_product(r@, (*self)@, (*rhs)@, COLS_RIGHT as nat),
    {
        let r = Mult::<T, ROWS, COLS, COLS_RIGHT>::mul_ref_h_ref_s(
            self,
            rhs,
        );
        proof {
            lemma_heap_of(r);
            lemma_stack_shape(*rhs);
        }
        r
    }
}

impl<T: Numeric<T>, const ROWS: usize, const COLS: usize, const COLS_RIGHT: usize>
    vstd::std_specs::ops::MulSpecImpl<&SMatrix<T, COLS, COLS_RIGHT>> for &HMatrix<T, ROWS, COLS>
{
    open spec fn obeys_mul_spec() -> bool {
        T::obeys_add_spec() && T::obeys_mul_spec() && COLS > 0
    }

    open spec fn mul_req(self, rhs: &SMatrix<T, COLS, COLS_RIGHT>) -> bool {
        product_req((*self)@, (*rhs)@, COLS_RIGHT as nat)
    }

    open spec fn mul_spec(self, rhs: &SMatrix<T, COLS, COLS_RIGHT>) -> HMatrix<T, ROWS, COLS_RIGHT> {
        heap_of(product((*self)@, (*rhs)@, COLS_RIGHT as nat))
    }
}

// &HMatrix * &mut SMatrix
impl<T: Numeric<T>, const ROWS: usize, const COLS: usize, const COLS_RIGHT: usize>
    std::ops::Mul<&mut SMatrix<T, COLS, COLS_RIGHT>> for &HMatrix<T, ROWS, COLS>
{
    type Output = HMatrix<T, ROWS, COLS_RIGHT>;

    fn mul(self, rhs: &mut SMatrix<T, COLS, COLS_RIGHT>) -> (r: HMatrix<T, ROWS, COLS_RIGHT>)
        ensures
            is_product(r@, (*self)@, old(rhs)@, COLS_RIGHT as nat),
            final(rhs)@ == old(rhs)@,
    {
        let r = Mult::<T, ROWS, COLS, COLS_RIGHT>::mul_ref_h_ref_s(
            self,
            rhs,
        );
        proof {
            lemma_heap_of(r);
            lemma_stack_shape(*rhs);
        }
        r
    }
}

impl<T: Numeric<T>, const ROWS: usize, const COLS: usize, const COLS_RIGHT: usize>
    vstd::std_specs::ops::MulSpecImpl<&mut SMatrix<T, COLS, COLS_RIGHT>> for &HMatrix<T, ROWS, COLS>
{
    open spec fn obeys_mul_spec() -> bool {
        T::obeys_add_spec() && T::obeys_mul_spec() && COLS > 0
    }

    open spec fn mul_req(self, rhs: &mut SMatrix<T, COLS, COLS_RIGHT>) -> bool {
        product_req((*self)@, mut_ref_current(rhs)@, COLS_RIGHT as nat)
    }

    open spec fn mul_spec(self, rhs: &mut SMatrix<T, COLS, COLS_RIGHT>) -> HMatrix<T, ROWS, COLS_RIGHT> {
        heap_of(product((*self)@, mut_ref_current(rhs)@, COLS_RIGHT as nat))
    }
}

// &HMatrix * HMatrix
impl<T: Numeric<T>, const ROWS: usize, const COLS: usize, const COLS_RIGHT: usize>
    std::ops::Mul<HMatrix<T, COLS, COLS_RIGHT>> for &HMatrix<T, ROWS, COLS>
{
    type Output = HMatrix<T, ROWS, COLS_RIGHT>;

    fn mul(self, rhs: HMatrix<T, COLS, COLS_RIGHT>) -> (r: HMatrix<T, ROWS, COLS_RIGHT>)
        ensures
            is_product(r@, (*self)@, rhs@, COLS_RIGHT as nat),
    {
        let r = Mult::<T, ROWS, COLS, COLS_RIGHT>::mul_ref_h_ref_h(
            self,
            &rhs,
        );
        proof {
            lemma_heap_of(r);
            lemma_heap_shape(rhs);
        }
        r
    }
}

impl<T: Numeric<T>, const ROWS: usize, const COLS: usize, const COLS_RIGHT: usize>
    vstd::std_specs::ops::MulSpecImpl<HMatrix<T, COLS, COLS_RIGHT>> for &HMatrix<T, ROWS, COLS>
{
    open spec fn obeys_mul_spec() -> bool {
        T::obeys_add_spec() && T::obeys_mul_spec() && COLS > 0
    }

    open spec fn mul_req(self, rhs: HMatrix<T, COLS, COLS_RIGHT>) -> bool {
        product_req((*self)@, rhs@, COLS_RIGHT as nat)
    }

    open spec fn mul_spec(self, rhs: HMatrix<T, COLS, COLS_RIGHT>) -> HMatrix<T, ROWS, COLS_RIGHT> {
        heap_of(product((*self)@, rhs@, COLS_RIGHT as nat))
    }
}

// &HMatrix * &HMatrix
impl<T: Numeric<T>, const ROWS: usize, const COLS: usize, const COLS_RIGHT: usize>
    std::ops::Mul<&HMatrix<T, COLS, COLS_RIGHT>> for &HMatrix<T, ROWS, COLS>
{
    type Output = HMatrix<T, ROWS, COLS_RIGHT>;

    fn mul(self, rhs: &HMatrix<T, COLS, COLS_RIGHT>) -> (r: HMatrix<T, ROWS, COLS_RIGHT>)
        ensures
            is_product(r@, (*self)@, (*rhs)@, COLS_RIGHT as nat),
    {
        let r = Mult::<T, ROWS, COLS, COLS_RIGHT>::mul_ref_h_ref_h(
            self,
            rhs,
        );
        proof {
            lemma_heap_of(r);
            lemma_heap_shape(*rhs);
        }
        r
    }
}

impl<T: Numeric<T>, const ROWS: usize, const COLS: usize, const COLS_RIGHT: usize>
    vstd::std_specs::ops::MulSpecImpl<&HMatrix<T, COLS, COLS_RIGHT>> for &HMatrix<T, ROWS, COLS>
{
    open spec fn obeys_mul_spec() -> bool {
        T::obeys_add_spec() && T::obeys_mul_spec() && COLS > 0
    }

    open spec fn mul_req(self, rhs: &HMatrix<T, COLS, COLS_RIGHT>) -> bool {
        product_req((*self)@, (*rhs)@, COLS_RIGHT as nat)
    }

    open spec fn mul_spec(self, rhs: &HMatrix<T, COLS, COLS_RIGHT>) -> HMatrix<T, ROWS, COLS_RIGHT> {
        heap_of(product((*self)@, (*rhs)@, COLS_RIGHT as nat))
    }
}

// &HMatrix * &mut HMatrix
impl<T: Numeric<T>, const ROWS: usize, const COLS: usize, const COLS_RIGHT: usize>
    std::ops::Mul<&mut HMatrix<T, COLS, COLS_RIGHT>> for &HMatrix<T, ROWS, COLS>
{
    type Output = HMatrix<T, ROWS, COLS_RIGHT>;

    fn mul(self, rhs: &mut HMatrix<T, COLS, COLS_RIGHT>) -> (r: HMatrix<T, ROWS, COLS_RIGHT>)
        ensures
            is_product(r@, (*self)@, old(rhs)@, COLS_RIGHT as nat),
            final(rhs)@ == old(rhs)@,
    {
        let r = Mult::<T, ROWS, COLS, COLS_RIGHT>::mul_ref_h_ref_h(
            self,
            rhs,
        );
        proof {
            lemma_heap_of(r);
            lemma_heap_shape(*rhs);
        }
        r
    }
}

impl<T: Numeric<T>, const ROWS: usize, const COLS: usize, const COLS_RIGHT: usize>
    vstd::std_specs::ops::MulSpecImpl<&mut HMatrix<T, COLS, COLS_RIGHT>> for &HMatrix<T, ROWS, COLS>
{
    open spec fn obeys_mul_spec() -> bool {
        T::obeys_add_spec() && T::obeys_mul_spec() && COLS > 0
    }

    open spec fn mul_req(self, rhs: &mut HMatrix<T, COLS, COLS_RIGHT>) -> bool {
        product_req((*self)@, mut_ref_current(rhs)@, COLS_RIGHT as nat)
    }

    open spec fn mul_spec(self, rhs: &mut HMatrix<T, COLS, COLS_RIGHT>) -> HMatrix<T, ROWS, COLS_RIGHT> {
        heap_of(product((*self)@, mut_ref_current(rhs)@, COLS_RIGHT as nat))
    }
}

// &mut HMatrix * SMatrix
impl<T: Numeric<T>, const ROWS: usize, const COLS: usize, const COLS_RIGHT: usize>
    std::ops::Mul<SMatrix<T, COLS, COLS_RIGHT>> for &mut HMatrix<T, ROWS, COLS>
{
    type Output = HMatrix<T, ROWS, COLS_RIGHT>;

    fn mul(self, rhs: SMatrix<T, COLS, COLS_RIGHT>) -> (r: HMatrix<T, ROWS, COLS_RIGHT>)
        ensures
            is_product(r@, old(self)@, rhs@, COLS_RIGHT as nat),
            final(self)@ == old(self)@,
    {
        let r = Mult::<T, ROWS, COLS, COLS_RIGHT>::mul_ref_h_ref_s(
            self,
            &rhs,
        );
        proof {
            lemma_heap_of(r);
            lemma_stack_shape(rhs);
        }
        r
    }
}

impl<T: Numeric<T>, const ROWS: usize, const COLS: usize, const COLS_RIGHT: usize>
    vstd::std_specs::ops::MulSpecImpl<SMatrix<T, COLS, COLS_RIGHT>> for &mut HMatrix<T, ROWS, COLS>
{
    open spec fn obeys_mul_spec() -> bool {
        T::obeys_add_spec() && T::obeys_mul_spec() && COLS > 0
    }

    open spec fn mul_req(self, rhs: SMatrix<T, COLS, COLS_RIGHT>) -> bool {
        product_req(mut_ref_current(self)@, rhs@, COLS_RIGHT as nat)
    }

    open spec fn mul_spec(self, rhs: SMatrix<T, COLS, COLS_RIGHT>) -> HMatrix<T, ROWS, COLS_RIGHT> {
        heap_of(product(mut_ref_current(self)@, rhs@, COLS_RIGHT as nat))
    }
}

// &mut HMatrix * &SMatrix
impl<T: Numeric<T>, const ROWS: usize, const COLS: usize, const COLS_RIGHT: usize>
    std::ops::Mul<&SMatrix<T, COLS, COLS_RIGHT>> for &mut HMatrix<T, ROWS, COLS>
{
    type Output = HMatrix<T, ROWS, COLS_RIGHT>;

    fn mul(self, rhs: &SMatrix<T, COLS, COLS_RIGHT>) -> (r: HMatrix<T, ROWS, COLS_RIGHT>)
        ensures
            is_product(r@, old(self)@, (*rhs)@, COLS_RIGHT as nat),
            final(self)@ == old(self)@,
    {
        let r = Mult::<T, ROWS, COLS, COLS_RIGHT>::mul_ref_h_ref_s(
            self,
            rhs,
        );
        proof {
            lemma_heap_of(r);
            lemma_stack_shape(*rhs);
        }
        r
    }
}

impl<T: Numeric<T>, const ROWS: usize, const COLS: usize, const COLS_RIGHT: usize>
    vstd::std_specs::ops::MulSpecImpl<&SMatrix<T, COLS, COLS_RIGHT>> for &mut HMatrix<T, ROWS, COLS>
{
    open spec fn obeys_mul_spec() -> bool {
        T::obeys_add_spec() && T::obeys_mul_spec() && COLS > 0
    }

    open spec fn mul_req(self, rhs: &SMatrix<T, COLS, COLS_RIGHT>) -> bool {
        product_req(mut_ref_current(self)@, (*rhs)@, COLS_RIGHT as nat)
    }

    open spec fn mul_spec(self, rhs: &SMatrix<T, COLS, COLS_RIGHT>) -> HMatrix<T, ROWS, COLS_RIGHT> {
        heap_of(product(mut_ref_current(self)@, (*rhs)@, COLS_RIGHT as nat))
    }
}

// &mut HMatrix * &mut SMatrix
impl<T: Numeric<T>, const ROWS: usize, const COLS: usize, const COLS_RIGHT: usize>
    std::ops::Mul<&mut SMatrix<T, COLS, COLS_RIGHT>> for &mut HMatrix<T, ROWS, COLS>
{
    type Output = HMatrix<T, ROWS, COLS_RIGHT>;

    fn mul(self, rhs: &mut SMatrix<T, COLS, COLS_RIGHT>) -> (r: HMatrix<T, ROWS, COLS_RIGHT>)
        ensures
            is_product(r@, old(self)@, old(rhs)@, COLS_RIGHT as nat),
            final(self)@ == old(self)@,
            final(rhs)@ == old(rhs)@,
    {
        let r = Mult::<T, ROWS, COLS, COLS_RIGHT>::mul_ref_h_ref_s(
            self,
            rhs,
        );
        proof {
            lemma_heap_of(r);
            lemma_stack_shape(*rhs);
        }
        r
    }
}

impl<T: Numeric<T>, const ROWS: usize, const COLS: usize, const COLS_RIGHT: usize>
    vstd::std_specs::ops::MulSpecImpl<&mut SMatrix<T, COLS, COLS_RIGHT>> for &mut HMatrix<T, ROWS, COLS>
{
    open spec fn obeys_mul_spec() -> bool {
        T::obeys_add_spec() && T::obeys_mul_spec() && COLS > 0
    }

    open spec fn mul_req(self, rhs: &mut SMatrix<T, COLS, COLS_RIGHT>) -> bool {
        product_req(mut_ref_current(self)@, mut_ref_current(rhs)@, COLS_RIGHT as nat)
    }

    open spec fn mul_spec(self, rhs: &mut SMatrix<T, COLS, COLS_RIGHT>) -> HMatrix<T, ROWS, COLS_RIGHT> {
        heap_of(product(mut_ref_current(self)@, mut_ref_current(rhs)@, COLS_RIGHT as nat))
    }
}

// &mut HMatrix * HMatrix
impl<T: Numeric<T>, const ROWS: usize, const COLS: usize, const COLS_RIGHT: usize>
    std::ops::Mul<HMatrix<T, COLS, COLS_RIGHT>> for &mut HMatrix<T, ROWS, COLS>
{
    type Output = HMatrix<T, ROWS, COLS_RIGHT>;

    fn mul(self, rhs: HMatrix<T, COLS, COLS_RIGHT>) -> (r: HMatrix<T, ROWS, COLS_RIGHT>)
        ensures
            is_product(r@, old(self)@, rhs@, COLS_RIGHT as nat),
            final(self)@ == old(self)@,
    {
        let r = Mult::<T, ROWS, COLS, COLS_RIGHT>::mul_ref_h_ref_h(
            self,
            &rhs,
        );
        proof {
            lemma_heap_of(r);
            lemma_heap_shape(rhs);
        }
        r
    }
}

impl<T: Numeric<T>, const ROWS: usize, const COLS: usize, const COLS_RIGHT: usize>
    vstd::std_specs::ops::MulSpecImpl<HMatrix<T, COLS, COLS_RIGHT>> for &mut HMatrix<T, ROWS, COLS>
{
    open spec fn obeys_mul_spec() -> bool {
        T::obeys_add_spec() && T::obeys_mul_spec() && COLS > 0
    }

    open spec fn mul_req(self, rhs: HMatrix<T, COLS, COLS_RIGHT>) -> bool {
        product_req(mut_ref_current(self)@, rhs@, COLS_RIGHT as nat)
    }

    open spec fn mul_spec(self, rhs: HMatrix<T, COLS, COLS_RIGHT>) -> HMatrix<T, ROWS, COLS_RIGHT> {
        heap_of(product(mut_ref_current(self)@, rhs@, COLS_RIGHT as nat))
    }
}

// &mut HMatrix * &HMatrix
impl<T: Numeric<T>, const ROWS: usize, const COLS: usize, const COLS_RIGHT: usize>
    std::ops::Mul<&HMatrix<T, COLS, COLS_RIGHT>> for &mut HMatrix<T, ROWS, COLS>
{
    type Output = HMatrix<T, ROWS, COLS_RIGHT>;

    fn mul(self, rhs: &HMatrix<T, COLS, COLS_RIGHT>) -> (r: HMatrix<T, ROWS, COLS_RIGHT>)
        ensures
            is_product(r@, old(self)@, (*rhs)@, COLS_RIGHT as nat),
            final(self)@ == old(self)@,
    {
        let r = Mult::<T, ROWS, COLS, COLS_RIGHT>::mul_ref_h_ref_h(
            self,
            rhs,
        );
        proof {
            lemma_heap_of(r);
            lemma_heap_shape(*rhs);
        }
        r
    }
}

impl<T: Numeric<T>, const ROWS: usize, const COLS: usize, const COLS_RIGHT: usize>
    vstd::std_specs::ops::MulSpecImpl<&HMatrix<T, COLS, COLS_RIGHT>> for &mut HMatrix<T, ROWS, COLS>
{
    open spec fn obeys_mul_spec() -> bool {
        T::obeys_add_spec() && T::obeys_mul_spec() && COLS > 0
    }

    open spec fn mul_req(self, rhs: &HMatrix<T, COLS, COLS_RIGHT>) -> bool {
        product_req(mut_ref_current(self)@, (*rhs)@, COLS_RIGHT as nat)
    }

    open spec fn mul_spec(self, rhs: &HMatrix<T, COLS, COLS_RIGHT>) -> HMatrix<T, ROWS, COLS_RIGHT> {
        heap_of(product(mut_ref_current(self)@, (*rhs)@, COLS_RIGHT as nat))
    }
}

// &mut HMatrix * &mut HMatrix
impl<T: Numeric<T>, const ROWS: usize, const COLS: usize, const COLS_RIGHT: usize>
    std::ops::Mul<&mut HMatrix<T, COLS, COLS_RIGHT>> for &mut HMatrix<T, ROWS, COLS>
{
    type Output = HMatrix<T, ROWS, COLS_RIGHT>;

    fn mul(self, rhs: &mut HMatrix<T, COLS, COLS_RIGHT>) -> (r: HMatrix<T, ROWS, COLS_RIGHT>)
        ensures
            is_product(r@, old(self)@, old(rhs)@, COLS_RIGHT as nat),
            final(self)@ == old(self)@,
            final(rhs)@ == old(rhs)@,
    {
        let r = Mult::<T, ROWS, COLS, COLS_RIGHT>::mul_ref_h_ref_h(
            self,
            rhs,
        );
        proof {
            lemma_heap_of(r);
            lemma_heap_shape(*rhs);
        }
        r
    }
}

impl<T: Numeric<T>, const ROWS: usize, const COLS: usize, const COLS_RIGHT: usize>
    vstd::std_specs::ops::MulSpecImpl<&mut HMatrix<T, COLS, COLS_RIGHT>> for &mut HMatrix<T, ROWS, COLS>
{
    open spec fn obeys_mul_spec() -> bool {
        T::obeys_add_spec() && T::obeys_mul_spec() && COLS > 0
    }

    open spec fn mul_req(self, rhs: &mut HMatrix<T, COLS, COLS_RIGHT>) -> bool {
        product_req(mut_ref_current(self)@, mut_ref_current(rhs)@, COLS_RIGHT as nat)
    }

    open spec fn mul_spec(self, rhs: &mut HMatrix<T, COLS, COLS_RIGHT>) -> HMatrix<T, ROWS, COLS_RIGHT> {
        heap_of(product(mut_ref_current(self)@, mut_ref_current(rhs)@, COLS_RIGHT as nat))
    }
}

impl<T: Numeric<T>, const ROWS: usize> SMatrix<T, ROWS, ROWS> {
    /// Multiplies this square matrix by `rhs` in place. The product is
    /// computed in full into a fresh matrix first, then copied back.
    pub fn mul_assign<G: Grid<T, ROWS, ROWS>>(&mut self, rhs: &G)
        requires
            product_req(old(self)@, rhs@, ROWS as nat),
        ensures
            is_product(final(self)@, old(self)@, rhs@, ROWS as nat),
    {
        let mut res = MF::<T, ROWS, ROWS>::new_stack();
        multiply(self.array(), rhs.array(), res.array_mut());
        *self.array_mut() = *res.array();
    }
}

impl<T: Numeric<T>, const ROWS: usize> HMatrix<T, ROWS, ROWS> {
    /// Multiplies this square matrix by `rhs` in place. The product is
    /// computed in full into a fresh matrix first, then copied back.
    pub fn mul_assign<G: Grid<T, ROWS, ROWS>>(&mut self, rhs: &G)
        requires
            product_req(old(self)@, rhs@, ROWS as nat),
        ensures
            is_product(final(self)@, old(self)@, rhs@, ROWS as nat),
    {
        let mut res = MF::<T, ROWS, ROWS>::new_heap();
        multiply(self.array(), rhs.array(), res.array_mut());
        *self.array_mut() = *res.array();
    }
}

} // verus!
