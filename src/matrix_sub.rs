//! Cell-wise subtraction, for every storage and operand form.
use crate::matrix::HMatrix;
use crate::matrix::Grid;
use crate::matrix::MF;
use crate::matrix::Numeric;
use crate::matrix::SMatrix;
use crate::matrix::heap_of;
use crate::matrix::lemma_heap_of;
use crate::matrix::lemma_stack_of;
use crate::matrix::stack_of;
use crate::model::cells_of;
use crate::model::difference;
use crate::model::difference_req;
use vstd::prelude::*;
use vstd::std_specs::ops::SubSpec;

verus! {

broadcast use vstd::array::group_array_axioms;

/// Writes the cell-wise difference of `a` and `b` into `c`.
pub(crate) fn sub<T: Numeric<T>, const ROWS: usize, const COLS: usize>(
    a: &[[T; COLS]; ROWS],
    b: &[[T; COLS]; ROWS],
    c: &mut [[T; COLS]; ROWS],
)
    requires
        difference_req(cells_of(*a), cells_of(*b)),
    ensures
        T::obeys_sub_spec() ==> cells_of(*final(c)) == difference(cells_of(*a), cells_of(*b)),
{
    let mut i: usize = 0;
    while i < ROWS
        invariant
            i <= ROWS,
            difference_req(cells_of(*a), cells_of(*b)),
            forall|p: int, q: int|
                0 <= p < i && 0 <= q < COLS ==> T::obeys_sub_spec()
                    ==> #[trigger] c[p][q] == a[p][q].sub_spec(b[p][q]),
        decreases ROWS - i,
    {
        let mut j: usize = 0;
        while j < COLS
            invariant
                i < ROWS,
                j <= COLS,
                difference_req(cells_of(*a), cells_of(*b)),
                forall|p: int, q: int|
                    0 <= p < i && 0 <= q < COLS ==> T::obeys_sub_spec()
                        ==> #[trigger] c[p][q] == a[p][q].sub_spec(b[p][q]),
                forall|q: int|
                    0 <= q < j ==> T::obeys_sub_spec()
                        ==> #[trigger] c[i as int][q] == a[i as int][q].sub_spec(b[i as int][q]),
            decreases COLS - j,
        {
            assert(cells_of(*a)[i as int][j as int].sub_req(cells_of(*b)[i as int][j as int]));
            c[i][j] = a[i][j] - b[i][j];
            j += 1;
        }
        i += 1;
    }
    assert(T::obeys_sub_spec() ==> cells_of(*c) =~~= difference(cells_of(*a), cells_of(*b)));
}

/// The cell-wise difference of `lhs` and `rhs`, held like `lhs`.
pub(crate) fn sub_ref_s_ref_s<T: Numeric<T>, const ROWS: usize, const COLS: usize>(
    lhs: &SMatrix<T, ROWS, COLS>,
    rhs: &SMatrix<T, ROWS, COLS>,
) -> (r: SMatrix<T, ROWS, COLS>)
    requires
        difference_req(lhs@, rhs@),
    ensures
        T::obeys_sub_spec() ==> r@ == difference(lhs@, rhs@),
{
    let mut c = MF::<T, ROWS, COLS>::new_stack();
    crate::matrix_sub::sub(lhs.array(), rhs.array(), c.array_mut());
    c
}

/// The cell-wise difference of `lhs` and `rhs`, held like `lhs`.
pub(crate) fn sub_ref_s_ref_h<T: Numeric<T>, const ROWS: usize, const COLS: usize>(
    lhs: &SMatrix<T, ROWS, COLS>,
    rhs: &HMatrix<T, ROWS, COLS>,
) -> (r: SMatrix<T, ROWS, COLS>)
    requires
        difference_req(lhs@, rhs@),
    ensures
        T::obeys_sub_spec() ==> r@ == difference(lhs@, rhs@),
{
    let mut c = MF::<T, ROWS, COLS>::new_stack();
    crate::matrix_sub::sub(lhs.array(), rhs.array(), c.array_mut());
    c
}

/// The cell-wise difference of `lhs` and `rhs`, held like `lhs`.
pub(crate) fn sub_ref_h_ref_s<T: Numeric<T>, const ROWS: usize, const COLS: usize>(
    lhs: &HMatrix<T, ROWS, COLS>,
    rhs: &SMatrix<T, ROWS, COLS>,
) -> (r: HMatrix<T, ROWS, COLS>)
    requires
        difference_req(lhs@, rhs@),
    ensures
        T::obeys_sub_spec() ==> r@ == difference(lhs@, rhs@),
{
    let mut c = MF::<T, ROWS, COLS>::new_heap();
    crate::matrix_sub::sub(lhs.array(), rhs.array(), c.array_mut());
    c
}

/// The cell-wise difference of `lhs` and `rhs`, held like `lhs`.
pub(crate) fn sub_ref_h_ref_h<T: Numeric<T>, const ROWS: usize, const COLS: usize>(
    lhs: &HMatrix<T, ROWS, COLS>,
    rhs: &HMatrix<T, ROWS, COLS>,
) -> (r: HMatrix<T, ROWS, COLS>)
    requires
        difference_req(lhs@, rhs@),
    ensures
        T::obeys_sub_spec() ==> r@ == difference(lhs@, rhs@),
{
    let mut c = MF::<T, ROWS, COLS>::new_heap();
    crate::matrix_sub::sub(lhs.array(), rhs.array(), c.array_mut());
    c
}

// SMatrix - SMatrix
impl<T: Numeric<T>, const ROWS: usize, const COLS: usize>
    std::ops::Sub<SMatrix<T, ROWS, COLS>> for SMatrix<T, ROWS, COLS>
{
    type Output = SMatrix<T, ROWS, COLS>;

    fn sub(self, rhs: SMatrix<T, ROWS, COLS>) -> (r: SMatrix<T, ROWS, COLS>)
        ensures
            T::obeys_sub_spec() ==> r@ == difference(self@, rhs@),
    {
        let r = sub_ref_s_ref_s(&self, &rhs);
        proof {
            lemma_stack_of(r);
        }
        r
    }
}

impl<T: Numeric<T>, const ROWS: usize, const COLS: usize>
    vstd::std_specs::ops::SubSpecImpl<SMatrix<T, ROWS, COLS>> for SMatrix<T, ROWS, COLS>
{
    open spec fn obeys_sub_spec() -> bool {
        T::obeys_sub_spec()
    }

    open spec fn sub_req(self, rhs: SMatrix<T, ROWS, COLS>) -> bool {
        difference_req(self@, rhs@)
    }

    open spec fn sub_spec(self, rhs: SMatrix<T, ROWS, COLS>) -> SMatrix<T, ROWS, COLS> {
        stack_of(difference(self@, rhs@))
    }
}

// SMatrix - &SMatrix
impl<T: Numeric<T>, const ROWS: usize, const COLS: usize>
    std::ops::Sub<&SMatrix<T, ROWS, COLS>> for SMatrix<T, ROWS, COLS>
{
    type Output = SMatrix<T, ROWS, COLS>;

    fn sub(self, rhs: &SMatrix<T, ROWS, COLS>) -> (r: SMatrix<T, ROWS, COLS>)
        ensures
            T::obeys_sub_spec() ==> r@ == difference(self@, (*rhs)@),
    {
        let r = sub_ref_s_ref_s(&self, rhs);
        proof {
            lemma_stack_of(r);
        }
        r
    }
}

impl<T: Numeric<T>, const ROWS: usize, const COLS: usize>
    vstd::std_specs::ops::SubSpecImpl<&SMatrix<T, ROWS, COLS>> for SMatrix<T, ROWS, COLS>
{
    open spec fn obeys_sub_spec() -> bool {
        T::obeys_sub_spec()
    }

    open spec fn sub_req(self, rhs: &SMatrix<T, ROWS, COLS>) -> bool {
        difference_req(self@, (*rhs)@)
    }

    open spec fn sub_spec(self, rhs: &SMatrix<T, ROWS, COLS>) -> SMatrix<T, ROWS, COLS> {
        stack_of(difference(self@, (*rhs)@))
    }
}

// SMatrix - &mut SMatrix
impl<T: Numeric<T>, const ROWS: usize, const COLS: usize>
    std::ops::Sub<&mut SMatrix<T, ROWS, COLS>> for SMatrix<T, ROWS, COLS>
{
    type Output = SMatrix<T, ROWS, COLS>;

    fn sub(self, rhs: &mut SMatrix<T, ROWS, COLS>) -> (r: SMatrix<T, ROWS, COLS>)
        ensures
            T::obeys_sub_spec() ==> r@ == difference(self@, old(rhs)@),
            final(rhs)@ == old(rhs)@,
    {
        let r = sub_ref_s_ref_s(&self, rhs);
        proof {
            lemma_stack_of(r);
        }
        r
    }
}

impl<T: Numeric<T>, const ROWS: usize, const COLS: usize>
    vstd::std_specs::ops::SubSpecImpl<&mut SMatrix<T, ROWS, COLS>> for SMatrix<T, ROWS, COLS>
{
    open spec fn obeys_sub_spec() -> bool {
        T::obeys_sub_spec()
    }

    open spec fn sub_req(self, rhs: &mut SMatrix<T, ROWS, COLS>) -> bool {
        difference_req(self@, mut_ref_current(rhs)@)
    }

    open spec fn sub_spec(self, rhs: &mut SMatrix<T, ROWS, COLS>) -> SMatrix<T, ROWS, COLS> {
        stack_of(difference(self@, mut_ref_current(rhs)@))
    }
}

// SMatrix - HMatrix
impl<T: Numeric<T>, const ROWS: usize, const COLS: usize>
    std::ops::Sub<HMatrix<T, ROWS, COLS>> for SMatrix<T, ROWS, COLS>
{
    type Output = SMatrix<T, ROWS, COLS>;

    fn sub(self, rhs: HMatrix<T, ROWS, COLS>) -> (r: SMatrix<T, ROWS, COLS>)
        ensures
            T::obeys_sub_spec() ==> r@ == difference(self@, rhs@),
    {
        let r = sub_ref_s_ref_h(&self, &rhs);
        proof {
            lemma_stack_of(r);
        }
        r
    }
}

impl<T: Numeric<T>, const ROWS: usize, const COLS: usize>
    vstd::std_specs::ops::SubSpecImpl<HMatrix<T, ROWS, COLS>> for SMatrix<T, ROWS, COLS>
{
    open spec fn obeys_sub_spec() -> bool {
        T::obeys_sub_spec()
    }

    open spec fn sub_req(self, rhs: HMatrix<T, ROWS, COLS>) -> bool {
        difference_req(self@, rhs@)
    }

    open spec fn sub_spec(self, rhs: HMatrix<T, ROWS, COLS>) -> SMatrix<T, ROWS, COLS> {
        stack_of(difference(self@, rhs@))
    }
}

// SMatrix - &HMatrix
impl<T: Numeric<T>, const ROWS: usize, const COLS: usize>
    std::ops::Sub<&HMatrix<T, ROWS, COLS>> for SMatrix<T, ROWS, COLS>
{
    type Output = SMatrix<T, ROWS, COLS>;

    fn sub(self, rhs: &HMatrix<T, ROWS, COLS>) -> (r: SMatrix<T, ROWS, COLS>)
        ensures
            T::obeys_sub_spec() ==> r@ == difference(self@, (*rhs)@),
    {
        let r = sub_ref_s_ref_h(&self, rhs);
        proof {
            lemma_stack_of(r);
        }
        r
    }
}

impl<T: Numeric<T>, const ROWS: usize, const COLS: usize>
    vstd::std_specs::ops::SubSpecImpl<&HMatrix<T, ROWS, COLS>> for SMatrix<T, ROWS, COLS>
{
    open spec fn obeys_sub_spec() -> bool {
        T::obeys_sub_spec()
    }

    open spec fn sub_req(self, rhs: &HMatrix<T, ROWS, COLS>) -> bool {
        difference_req(self@, (*rhs)@)
    }

    open spec fn sub_spec(self, rhs: &HMatrix<T, ROWS, COLS>) -> SMatrix<T, ROWS, COLS> {
        stack_of(difference(self@, (*rhs)@))
    }
}

// SMatrix - &mut HMatrix
impl<T: Numeric<T>, const ROWS: usize, const COLS: usize>
    std::ops::Sub<&mut HMatrix<T, ROWS, COLS>> for SMatrix<T, ROWS, COLS>
{
    type Output = SMatrix<T, ROWS, COLS>;

    fn sub(self, rhs: &mut HMatrix<T, ROWS, COLS>) -> (r: SMatrix<T, ROWS, COLS>)
        ensures
            T::obeys_sub_spec() ==> r@ == difference(self@, old(rhs)@),
            final(rhs)@ == old(rhs)@,
    {
        let r = sub_ref_s_ref_h(&self, rhs);
        proof {
            lemma_stack_of(r);
        }
        r
    }
}

impl<T: Numeric<T>, const ROWS: usize, const COLS: usize>
    vstd::std_specs::ops::SubSpecImpl<&mut HMatrix<T, ROWS, COLS>> for SMatrix<T, ROWS, COLS>
{
    open spec fn obeys_sub_spec() -> bool {
        T::obeys_sub_spec()
    }

    open spec fn sub_req(self, rhs: &mut HMatrix<T, ROWS, COLS>) -> bool {
        difference_req(self@, mut_ref_current(rhs)@)
    }

    open spec fn sub_spec(self, rhs: &mut HMatrix<T, ROWS, COLS>) -> SMatrix<T, ROWS, COLS> {
        stack_of(difference(self@, mut_ref_current(rhs)@))
    }
}

// &SMatrix - SMatrix
impl<T: Numeric<T>, const ROWS: usize, const COLS: usize>
    std::ops::Sub<SMatrix<T, ROWS, COLS>> for &SMatrix<T, ROWS, COLS>
{
    type Output = SMatrix<T, ROWS, COLS>;

    fn sub(self, rhs: SMatrix<T, ROWS, COLS>) -> (r: SMatrix<T, ROWS, COLS>)
        ensures
            T::obeys_sub_spec() ==> r@ == difference((*self)@, rhs@),
    {
        let r = sub_ref_s_ref_s(self, &rhs);
        proof {
            lemma_stack_of(r);
        }
        r
    }
}

impl<T: Numeric<T>, const ROWS: usize, const COLS: usize>
    vstd::std_specs::ops::SubSpecImpl<SMatrix<T, ROWS, COLS>> for &SMatrix<T, ROWS, COLS>
{
    open spec fn obeys_sub_spec() -> bool {
        T::obeys_sub_spec()
    }

    open spec fn sub_req(self, rhs: SMatrix<T, ROWS, COLS>) -> bool {
        difference_req((*self)@, rhs@)
    }

    open spec fn sub_spec(self, rhs: SMatrix<T, ROWS, COLS>) -> SMatrix<T, ROWS, COLS> {
        stack_of(difference((*self)@, rhs@))
    }
}

// &SMatrix - &SMatrix
impl<T: Numeric<T>, const ROWS: usize, const COLS: usize>
    std::ops::Sub<&SMatrix<T, ROWS, COLS>> for &SMatrix<T, ROWS, COLS>
{
    type Output = SMatrix<T, ROWS, COLS>;

    fn sub(self, rhs: &SMatrix<T, ROWS, COLS>) -> (r: SMatrix<T, ROWS, COLS>)
        ensures
            T::obeys_sub_spec() ==> r@ == difference((*self)@, (*rhs)@),
    {
        let r = sub_ref_s_ref_s(self, rhs);
        proof {
            lemma_stack_of(r);
        }
        r
    }
}

impl<T: Numeric<T>, const ROWS: usize, const COLS: usize>
    vstd::std_specs::ops::SubSpecImpl<&SMatrix<T, ROWS, COLS>> for &SMatrix<T, ROWS, COLS>
{
    open spec fn obeys_sub_spec() -> bool {
        T::obeys_sub_spec()
    }

    open spec fn sub_req(self, rhs: &SMatrix<T, ROWS, COLS>) -> bool {
        difference_req((*self)@, (*rhs)@)
    }

    open spec fn sub_spec(self, rhs: &SMatrix<T, ROWS, COLS>) -> SMatrix<T, ROWS, COLS> {
        stack_of(difference((*self)@, (*rhs)@))
    }
}

// &SMatrix - &mut SMatrix
impl<T: Numeric<T>, const ROWS: usize, const COLS: usize>
    std::ops::Sub<&mut SMatrix<T, ROWS, COLS>> for &SMatrix<T, ROWS, COLS>
{
    type Output = SMatrix<T, ROWS, COLS>;

    fn sub(self, rhs: &mut SMatrix<T, ROWS, COLS>) -> (r: SMatrix<T, ROWS, COLS>)
        ensures
            T::obeys_sub_spec() ==> r@ == difference((*self)@, old(rhs)@),
            final(rhs)@ == old(rhs)@,
    {
        let r = sub_ref_s_ref_s(self, rhs);
        proof {
            lemma_stack_of(r);
        }
        r
    }
}

impl<T: Numeric<T>, const ROWS: usize, const COLS: usize>
    vstd::std_specs::ops::SubSpecImpl<&mut SMatrix<T, ROWS, COLS>> for &SMatrix<T, ROWS, COLS>
{
    open spec fn obeys_sub_spec() -> bool {
        T::obeys_sub_spec()
    }

    open spec fn sub_req(self, rhs: &mut SMatrix<T, ROWS, COLS>) -> bool {
        difference_req((*self)@, mut_ref_current(rhs)@)
    }

    open spec fn sub_spec(self, rhs: &mut SMatrix<T, ROWS, COLS>) -> SMatrix<T, ROWS, COLS> {
        stack_of(difference((*self)@, mut_ref_current(rhs)@))
    }
}

// &SMatrix - HMatrix
impl<T: Numeric<T>, const ROWS: usize, const COLS: usize>
    std::ops::Sub<HMatrix<T, ROWS, COLS>> for &SMatrix<T, ROWS, COLS>
{
    type Output = SMatrix<T, ROWS, COLS>;

    fn sub(self, rhs: HMatrix<T, ROWS, COLS>) -> (r: SMatrix<T, ROWS, COLS>)
        ensures
            T::obeys_sub_spec() ==> r@ == difference((*self)@, rhs@),
    {
        let r = sub_ref_s_ref_h(self, &rhs);
        proof {
            lemma_stack_of(r);
        }
        r
    }
}

impl<T: Numeric<T>, const ROWS: usize, const COLS: usize>
    vstd::std_specs::ops::SubSpecImpl<HMatrix<T, ROWS, COLS>> for &SMatrix<T, ROWS, COLS>
{
    open spec fn obeys_sub_spec() -> bool {
        T::obeys_sub_spec()
    }

    open spec fn sub_req(self, rhs: HMatrix<T, ROWS, COLS>) -> bool {
        difference_req((*self)@, rhs@)
    }

    open spec fn sub_spec(self, rhs: HMatrix<T, ROWS, COLS>) -> SMatrix<T, ROWS, COLS> {
        stack_of(difference((*self)@, rhs@))
    }
}

// &SMatrix - &HMatrix
impl<T: Numeric<T>, const ROWS: usize, const COLS: usize>
    std::ops::Sub<&HMatrix<T, ROWS, COLS>> for &SMatrix<T, ROWS, COLS>
{
    type Output = SMatrix<T, ROWS, COLS>;

    fn sub(self, rhs: &HMatrix<T, ROWS, COLS>) -> (r: SMatrix<T, ROWS, COLS>)
        ensures
            T::obeys_sub_spec() ==> r@ == difference((*self)@, (*rhs)@),
    {
        let r = sub_ref_s_ref_h(self, rhs);
        proof {
            lemma_stack_of(r);
        }
        r
    }
}

impl<T: Numeric<T>, const ROWS: usize, const COLS: usize>
    vstd::std_specs::ops::SubSpecImpl<&HMatrix<T, ROWS, COLS>> for &SMatrix<T, ROWS, COLS>
{
    open spec fn obeys_sub_spec() -> bool {
        T::obeys_sub_spec()
    }

    open spec fn sub_req(self, rhs: &HMatrix<T, ROWS, COLS>) -> bool {
        difference_req((*self)@, (*rhs)@)
    }

    open spec fn sub_spec(self, rhs: &HMatrix<T, ROWS, COLS>) -> SMatrix<T, ROWS, COLS> {
        stack_of(difference((*self)@, (*rhs)@))
    }
}

// &SMatrix - &mut HMatrix
impl<T: Numeric<T>, const ROWS: usize, const COLS: usize>
    std::ops::Sub<&mut HMatrix<T, ROWS, COLS>> for &SMatrix<T, ROWS, COLS>
{
    type Output = SMatrix<T, ROWS, COLS>;

    fn sub(self, rhs: &mut HMatrix<T, ROWS, COLS>) -> (r: SMatrix<T, ROWS, COLS>)
        ensures
            T::obeys_sub_spec() ==> r@ == difference((*self)@, old(rhs)@),
            final(rhs)@ == old(rhs)@,
    {
        let r = sub_ref_s_ref_h(self, rhs);
        proof {
            lemma_stack_of(r);
        }
        r
    }
}

impl<T: Numeric<T>, const ROWS: usize, const COLS: usize>
    vstd::std_specs::ops::SubSpecImpl<&mut HMatrix<T, ROWS, COLS>> for &SMatrix<T, ROWS, COLS>
{
    open spec fn obeys_sub_spec() -> bool {
        T::obeys_sub_spec()
    }

    open spec fn sub_req(self, rhs: &mut HMatrix<T, ROWS, COLS>) -> bool {
        difference_req((*self)@, mut_ref_current(rhs)@)
    }

    open spec fn sub_spec(self, rhs: &mut HMatrix<T, ROWS, COLS>) -> SMatrix<T, ROWS, COLS> {
        stack_of(difference((*self)@, mut_ref_current(rhs)@))
    }
}

// &mut SMatrix - SMatrix
impl<T: Numeric<T>, const ROWS: usize, const COLS: usize>
    std::ops::Sub<SMatrix<T, ROWS, COLS>> for &mut SMatrix<T, ROWS, COLS>
{
    type Output = SMatrix<T, ROWS, COLS>;

    fn sub(self, rhs: SMatrix<T, ROWS, COLS>) -> (r: SMatrix<T, ROWS, COLS>)
        ensures
            T::obeys_sub_spec() ==> r@ == difference(old(self)@, rhs@),
            final(self)@ == old(self)@,
    {
        let r = sub_ref_s_ref_s(self, &rhs);
        proof {
            lemma_stack_of(r);
        }
        r
    }
}

impl<T: Numeric<T>, const ROWS: usize, const COLS: usize>
    vstd::std_specs::ops::SubSpecImpl<SMatrix<T, ROWS, COLS>> for &mut SMatrix<T, ROWS, COLS>
{
    open spec fn obeys_sub_spec() -> bool {
        T::obeys_sub_spec()
    }

    open spec fn sub_req(self, rhs: SMatrix<T, ROWS, COLS>) -> bool {
        difference_req(mut_ref_current(self)@, rhs@)
    }

    open spec fn sub_spec(self, rhs: SMatrix<T, ROWS, COLS>) -> SMatrix<T, ROWS, COLS> {
        stack_of(difference(mut_ref_current(self)@, rhs@))
    }
}

// &mut SMatrix - &SMatrix
impl<T: Numeric<T>, const ROWS: usize, const COLS: usize>
    std::ops::Sub<&SMatrix<T, ROWS, COLS>> for &mut SMatrix<T, ROWS, COLS>
{
    type Output = SMatrix<T, ROWS, COLS>;

    fn sub(self, rhs: &SMatrix<T, ROWS, COLS>) -> (r: SMatrix<T, ROWS, COLS>)
        ensures
            T::obeys_sub_spec() ==> r@ == difference(old(self)@, (*rhs)@),
            final(self)@ == old(self)@,
    {
        let r = sub_ref_s_ref_s(self, rhs);
        proof {
            lemma_stack_of(r);
        }
        r
    }
}

impl<T: Numeric<T>, const ROWS: usize, const COLS: usize>
    vstd::std_specs::ops::SubSpecImpl<&SMatrix<T, ROWS, COLS>> for &mut SMatrix<T, ROWS, COLS>
{
    open spec fn obeys_sub_spec() -> bool {
        T::obeys_sub_spec()
    }

    open spec fn sub_req(self, rhs: &SMatrix<T, ROWS, COLS>) -> bool {
        difference_req(mut_ref_current(self)@, (*rhs)@)
    }

    open spec fn sub_spec(self, rhs: &SMatrix<T, ROWS, COLS>) -> SMatrix<T, ROWS, COLS> {
        stack_of(difference(mut_ref_current(self)@, (*rhs)@))
    }
}

// &mut SMatrix - &mut SMatrix
impl<T: Numeric<T>, const ROWS: usize, const COLS: usize>
    std::ops::Sub<&mut SMatrix<T, ROWS, COLS>> for &mut SMatrix<T, ROWS, COLS>
{
    type Output = SMatrix<T, ROWS, COLS>;

    fn sub(self, rhs: &mut SMatrix<T, ROWS, COLS>) -> (r: SMatrix<T, ROWS, COLS>)
        ensures
            T::obeys_sub_spec() ==> r@ == difference(old(self)@, old(rhs)@),
            final(self)@ == old(self)@,
            final(rhs)@ == old(rhs)@,
    {
        let r = sub_ref_s_ref_s(self, rhs);
        proof {
            lemma_stack_of(r);
        }
        r
    }
}

impl<T: Numeric<T>, const ROWS: usize, const COLS: usize>
    vstd::std_specs::ops::SubSpecImpl<&mut SMatrix<T, ROWS, COLS>> for &mut SMatrix<T, ROWS, COLS>
{
    open spec fn obeys_sub_spec() -> bool {
        T::obeys_sub_spec()
    }

    open spec fn sub_req(self, rhs: &mut SMatrix<T, ROWS, COLS>) -> bool {
        difference_req(mut_ref_current(self)@, mut_ref_current(rhs)@)
    }

    open spec fn sub_spec(self, rhs: &mut SMatrix<T, ROWS, COLS>) -> SMatrix<T, ROWS, COLS> {
        stack_of(difference(mut_ref_current(self)@, mut_ref_current(rhs)@))
    }
}

// &mut SMatrix - HMatrix
impl<T: Numeric<T>, const ROWS: usize, const COLS: usize>
    std::ops::Sub<HMatrix<T, ROWS, COLS>> for &mut SMatrix<T, ROWS, COLS>
{
    type Output = SMatrix<T, ROWS, COLS>;

    fn sub(self, rhs: HMatrix<T, ROWS, COLS>) -> (r: SMatrix<T, ROWS, COLS>)
        ensures
            T::obeys_sub_spec() ==> r@ == difference(old(self)@, rhs@),
            final(self)@ == old(self)@,
    {
        let r = sub_ref_s_ref_h(self, &rhs);
        proof {
            lemma_stack_of(r);
        }
        r
    }
}

impl<T: Numeric<T>, const ROWS: usize, const COLS: usize>
    vstd::std_specs::ops::SubSpecImpl<HMatrix<T, ROWS, COLS>> for &mut SMatrix<T, ROWS, COLS>
{
    open spec fn obeys_sub_spec() -> bool {
        T::obeys_sub_spec()
    }

    open spec fn sub_req(self, rhs: HMatrix<T, ROWS, COLS>) -> bool {
        difference_req(mut_ref_current(self)@, rhs@)
    }

    open spec fn sub_spec(self, rhs: HMatrix<T, ROWS, COLS>) -> SMatrix<T, ROWS, COLS> {
        stack_of(difference(mut_ref_current(self)@, rhs@))
    }
}

// &mut SMatrix - &HMatrix
impl<T: Numeric<T>, const ROWS: usize, const COLS: usize>
    std::ops::Sub<&HMatrix<T, ROWS, COLS>> for &mut SMatrix<T, ROWS, COLS>
{
    type Output = SMatrix<T, ROWS, COLS>;

    fn sub(self, rhs: &HMatrix<T, ROWS, COLS>) -> (r: SMatrix<T, ROWS, COLS>)
        ensures
            T::obeys_sub_spec() ==> r@ == difference(old(self)@, (*rhs)@),
            final(self)@ == old(self)@,
    {
        let r = sub_ref_s_ref_h(self, rhs);
        proof {
            lemma_stack_of(r);
        }
        r
    }
}

impl<T: Numeric<T>, const ROWS: usize, const COLS: usize>
    vstd::std_specs::ops::SubSpecImpl<&HMatrix<T, ROWS, COLS>> for &mut SMatrix<T, ROWS, COLS>
{
    open spec fn obeys_sub_spec() -> bool {
        T::obeys_sub_spec()
    }

    open spec fn sub_req(self, rhs: &HMatrix<T, ROWS, COLS>) -> bool {
        difference_req(mut_ref_current(self)@, (*rhs)@)
    }

    open spec fn sub_spec(self, rhs: &HMatrix<T, ROWS, COLS>) -> SMatrix<T, ROWS, COLS> {
        stack_of(difference(mut_ref_current(self)@, (*rhs)@))
    }
}

// &mut SMatrix - &mut HMatrix
impl<T: Numeric<T>, const ROWS: usize, const COLS: usize>
    std::ops::Sub<&mut HMatrix<T, ROWS, COLS>> for &mut SMatrix<T, ROWS, COLS>
{
    type Output = SMatrix<T, ROWS, COLS>;

    fn sub(self, rhs: &mut HMatrix<T, ROWS, COLS>) -> (r: SMatrix<T, ROWS, COLS>)
        ensures
            T::obeys_sub_spec() ==> r@ == difference(old(self)@, old(rhs)@),
            final(self)@ == old(self)@,
            final(rhs)@ == old(rhs)@,
    {
        let r = sub_ref_s_ref_h(self, rhs);
        proof {
            lemma_stack_of(r);
        }
        r
    }
}

impl<T: Numeric<T>, const ROWS: usize, const COLS: usize>
    vstd::std_specs::ops::SubSpecImpl<&mut HMatrix<T, ROWS, COLS>> for &mut SMatrix<T, ROWS, COLS>
{
    open spec fn obeys_sub_spec() -> bool {
        T::obeys_sub_spec()
    }

    open spec fn sub_req(self, rhs: &mut HMatrix<T, ROWS, COLS>) -> bool {
        difference_req(mut_ref_current(self)@, mut_ref_current(rhs)@)
    }

    open spec fn sub_spec(self, rhs: &mut HMatrix<T, ROWS, COLS>) -> SMatrix<T, ROWS, COLS> {
        stack_of(difference(mut_ref_current(self)@, mut_ref_current(rhs)@))
    }
}

// HMatrix - SMatrix
impl<T: Numeric<T>, const ROWS: usize, const COLS: usize>
    std::ops::Sub<SMatrix<T, ROWS, COLS>> for HMatrix<T, ROWS, COLS>
{
    type Output = HMatrix<T, ROWS, COLS>;

    fn sub(self, rhs: SMatrix<T, ROWS, COLS>) -> (r: HMatrix<T, ROWS, COLS>)
        ensures
            T::obeys_sub_spec() ==> r@ == difference(self@, rhs@),
    {
        let r = sub_ref_h_ref_s(&self, &rhs);
        proof {
            lemma_heap_of(r);
        }
        r
    }
}

impl<T: Numeric<T>, const ROWS: usize, const COLS: usize>
    vstd::std_specs::ops::SubSpecImpl<SMatrix<T, ROWS, COLS>> for HMatrix<T, ROWS, COLS>
{
    open spec fn obeys_sub_spec() -> bool {
        T::obeys_sub_spec()
    }

    open spec fn sub_req(self, rhs: SMatrix<T, ROWS, COLS>) -> bool {
        difference_req(self@, rhs@)
    }

    open spec fn sub_spec(self, rhs: SMatrix<T, ROWS, COLS>) -> HMatrix<T, ROWS, COLS> {
        heap_of(difference(self@, rhs@))
    }
}

// HMatrix - &SMatrix
impl<T: Numeric<T>, const ROWS: usize, const COLS: usize>
    std::ops::Sub<&SMatrix<T, ROWS, COLS>> for HMatrix<T, ROWS, COLS>
{
    type Output = HMatrix<T, ROWS, COLS>;

    fn sub(self, rhs: &SMatrix<T, ROWS, COLS>) -> (r: HMatrix<T, ROWS, COLS>)
        ensures
            T::obeys_sub_spec() ==> r@ == difference(self@, (*rhs)@),
    {
        let r = sub_ref_h_ref_s(&self, rhs);
        proof {
            lemma_heap_of(r);
        }
        r
    }
}

impl<T: Numeric<T>, const ROWS: usize, const COLS: usize>
    vstd::std_specs::ops::SubSpecImpl<&SMatrix<T, ROWS, COLS>> for HMatrix<T, ROWS, COLS>
{
    open spec fn obeys_sub_spec() -> bool {
        T::obeys_sub_spec()
    }

    open spec fn sub_req(self, rhs: &SMatrix<T, ROWS, COLS>) -> bool {
        difference_req(self@, (*rhs)@)
    }

    open spec fn sub_spec(self, rhs: &SMatrix<T, ROWS, COLS>) -> HMatrix<T, ROWS, COLS> {
        heap_of(difference(self@, (*rhs)@))
    }
}

// HMatrix - &mut SMatrix
impl<T: Numeric<T>, const ROWS: usize, const COLS: usize>
    std::ops::Sub<&mut SMatrix<T, ROWS, COLS>> for HMatrix<T, ROWS, COLS>
{
    type Output = HMatrix<T, ROWS, COLS>;

    fn sub(self, rhs: &mut SMatrix<T, ROWS, COLS>) -> (r: HMatrix<T, ROWS, COLS>)
        ensures
            T::obeys_sub_spec() ==> r@ == difference(self@, old(rhs)@),
            final(rhs)@ == old(rhs)@,
    {
        let r = sub_ref_h_ref_s(&self, rhs);
        proof {
            lemma_heap_of(r);
        }
        r
    }
}

impl<T: Numeric<T>, const ROWS: usize, const COLS: usize>
    vstd::std_specs::ops::SubSpecImpl<&mut SMatrix<T, ROWS, COLS>> for HMatrix<T, ROWS, COLS>
{
    open spec fn obeys_sub_spec() -> bool {
        T::obeys_sub_spec()
    }

    open spec fn sub_req(self, rhs: &mut SMatrix<T, ROWS, COLS>) -> bool {
        difference_req(self@, mut_ref_current(rhs)@)
    }

    open spec fn sub_spec(self, rhs: &mut SMatrix<T, ROWS, COLS>) -> HMatrix<T, ROWS, COLS> {
        heap_of(difference(self@, mut_ref_current(rhs)@))
    }
}

// HMatrix - HMatrix
impl<T: Numeric<T>, const ROWS: usize, const COLS: usize>
    std::ops::Sub<HMatrix<T, ROWS, COLS>> for HMatrix<T, ROWS, COLS>
{
    type Output = HMatrix<T, ROWS, COLS>;

    fn sub(self, rhs: HMatrix<T, ROWS, COLS>) -> (r: HMatrix<T, ROWS, COLS>)
        ensures
            T::obeys_sub_spec() ==> r@ == difference(self@, rhs@),
    {
        let r = sub_ref_h_ref_h(&self, &rhs);
        proof {
            lemma_heap_of(r);
        }
        r
    }
}

impl<T: Numeric<T>, const ROWS: usize, const COLS: usize>
    vstd::std_specs::ops::SubSpecImpl<HMatrix<T, ROWS, COLS>> for HMatrix<T, ROWS, COLS>
{
    open spec fn obeys_sub_spec() -> bool {
        T::obeys_sub_spec()
    }

    open spec fn sub_req(self, rhs: HMatrix<T, ROWS, COLS>) -> bool {
        difference_req(self@, rhs@)
    }

    open spec fn sub_spec(self, rhs: HMatrix<T, ROWS, COLS>) -> HMatrix<T, ROWS, COLS> {
        heap_of(difference(self@, rhs@))
    }
}

// HMatrix - &HMatrix
impl<T: Numeric<T>, const ROWS: usize, const COLS: usize>
    std::ops::Sub<&HMatrix<T, ROWS, COLS>> for HMatrix<T, ROWS, COLS>
{
    type Output = HMatrix<T, ROWS, COLS>;

    fn sub(self, rhs: &HMatrix<T, ROWS, COLS>) -> (r: HMatrix<T, ROWS, COLS>)
        ensures
            T::obeys_sub_spec() ==> r@ == difference(self@, (*rhs)@),
    {
        let r = sub_ref_h_ref_h(&self, rhs);
        proof {
            lemma_heap_of(r);
        }
        r
    }
}

impl<T: Numeric<T>, const ROWS: usize, const COLS: usize>
    vstd::std_specs::ops::SubSpecImpl<&HMatrix<T, ROWS, COLS>> for HMatrix<T, ROWS, COLS>
{
    open spec fn obeys_sub_spec() -> bool {
        T::obeys_sub_spec()
    }

    open spec fn sub_req(self, rhs: &HMatrix<T, ROWS, COLS>) -> bool {
        difference_req(self@, (*rhs)@)
    }

    open spec fn sub_spec(self, rhs: &HMatrix<T, ROWS, COLS>) -> HMatrix<T, ROWS, COLS> {
        heap_of(difference(self@, (*rhs)@))
    }
}

// HMatrix - &mut HMatrix
impl<T: Numeric<T>, const ROWS: usize, const COLS: usize>
    std::ops::Sub<&mut HMatrix<T, ROWS, COLS>> for HMatrix<T, ROWS, COLS>
{
    type Output = HMatrix<T, ROWS, COLS>;

    fn sub(self, rhs: &mut HMatrix<T, ROWS, COLS>) -> (r: HMatrix<T, ROWS, COLS>)
        ensures
            T::obeys_sub_spec() ==> r@ == difference(self@, old(rhs)@),
            final(rhs)@ == old(rhs)@,
    {
        let r = sub_ref_h_ref_h(&self, rhs);
        proof {
            lemma_heap_of(r);
        }
        r
    }
}

impl<T: Numeric<T>, const ROWS: usize, const COLS: usize>
    vstd::std_specs::ops::SubSpecImpl<&mut HMatrix<T, ROWS, COLS>> for HMatrix<T, ROWS, COLS>
{
    open spec fn obeys_sub_spec() -> bool {
        T::obeys_sub_spec()
    }

    open spec fn sub_req(self, rhs: &mut HMatrix<T, ROWS, COLS>) -> bool {
        difference_req(self@, mut_ref_current(rhs)@)
    }

    open spec fn sub_spec(self, rhs: &mut HMatrix<T, ROWS, COLS>) -> HMatrix<T, ROWS, COLS> {
        heap_of(difference(self@, mut_ref_current(rhs)@))
    }
}

// &HMatrix - SMatrix
impl<T: Numeric<T>, const ROWS: usize, const COLS: usize>
    std::ops::Sub<SMatrix<T, ROWS, COLS>> for &HMatrix<T, ROWS, COLS>
{
    type Output = HMatrix<T, ROWS, COLS>;

    fn sub(self, rhs: SMatrix<T, ROWS, COLS>) -> (r: HMatrix<T, ROWS, COLS>)
        ensures
            T::obeys_sub_spec() ==> r@ == difference((*self)@, rhs@),
    {
        let r = sub_ref_h_ref_s(self, &rhs);
        proof {
            lemma_heap_of(r);
        }
        r
    }
}

impl<T: Numeric<T>, const ROWS: usize, const COLS: usize>
    vstd::std_specs::ops::SubSpecImpl<SMatrix<T, ROWS, COLS>> for &HMatrix<T, ROWS, COLS>
{
    open spec fn obeys_sub_spec() -> bool {
        T::obeys_sub_spec()
    }

    open spec fn sub_req(self, rhs: SMatrix<T, ROWS, COLS>) -> bool {
        difference_req((*self)@, rhs@)
    }

    open spec fn sub_spec(self, rhs: SMatrix<T, ROWS, COLS>) -> HMatrix<T, ROWS, COLS> {
        heap_of(difference((*self)@, rhs@))
    }
}

// &HMatrix - &SMatrix
impl<T: Numeric<T>, const ROWS: usize, const COLS: usize>
    std::ops::Sub<&SMatrix<T, ROWS, COLS>> for &HMatrix<T, ROWS, COLS>
{
    type Output = HMatrix<T, ROWS, COLS>;

    fn sub(self, rhs: &SMatrix<T, ROWS, COLS>) -> (r: HMatrix<T, ROWS, COLS>)
        ensures
            T::obeys_sub_spec() ==> r@ == difference((*self)@, (*rhs)@),
    {
        let r = sub_ref_h_ref_s(self, rhs);
        proof {
            lemma_heap_of(r);
        }
        r
    }
}

impl<T: Numeric<T>, const ROWS: usize, const COLS: usize>
    vstd::std_specs::ops::SubSpecImpl<&SMatrix<T, ROWS, COLS>> for &HMatrix<T, ROWS, COLS>
{
    open spec fn obeys_sub_spec() -> bool {
        T::obeys_sub_spec()
    }

    open spec fn sub_req(self, rhs: &SMatrix<T, ROWS, COLS>) -> bool {
        difference_req((*self)@, (*rhs)@)
    }

    open spec fn sub_spec(self, rhs: &SMatrix<T, ROWS, COLS>) -> HMatrix<T, ROWS, COLS> {
        heap_of(difference((*self)@, (*rhs)@))
    }
}

// &HMatrix - &mut SMatrix
impl<T: Numeric<T>, const ROWS: usize, const COLS: usize>
    std::ops::Sub<&mut SMatrix<T, ROWS, COLS>> for &HMatrix<T, ROWS, COLS>
{
    type Output = HMatrix<T, ROWS, COLS>;

    fn sub(self, rhs: &mut SMatrix<T, ROWS, COLS>) -> (r: HMatrix<T, ROWS, COLS>)
        ensures
            T::obeys_sub_spec() ==> r@ == difference((*self)@, old(rhs)@),
            final(rhs)@ == old(rhs)@,
    {
        let r = sub_ref_h_ref_s(self, rhs);
        proof {
            lemma_heap_of(r);
        }
        r
    }
}

impl<T: Numeric<T>, const ROWS: usize, const COLS: usize>
    vstd::std_specs::ops::SubSpecImpl<&mut SMatrix<T, ROWS, COLS>> for &HMatrix<T, ROWS, COLS>
{
    open spec fn obeys_sub_spec() -> bool {
        T::obeys_sub_spec()
    }

    open spec fn sub_req(self, rhs: &mut SMatrix<T, ROWS, COLS>) -> bool {
        difference_req((*self)@, mut_ref_current(rhs)@)
    }

    open spec fn sub_spec(self, rhs: &mut SMatrix<T, ROWS, COLS>) -> HMatrix<T, ROWS, COLS> {
        heap_of(difference((*self)@, mut_ref_current(rhs)@))
    }
}

// &HMatrix - HMatrix
impl<T: Numeric<T>, const ROWS: usize, const COLS: usize>
    std::ops::Sub<HMatrix<T, ROWS, COLS>> for &HMatrix<T, ROWS, COLS>
{
    type Output = HMatrix<T, ROWS, COLS>;

    fn sub(self, rhs: HMatrix<T, ROWS, COLS>) -> (r: HMatrix<T, ROWS, COLS>)
        ensures
            T::obeys_sub_spec() ==> r@ == difference((*self)@, rhs@),
    {
        let r = sub_ref_h_ref_h(self, &rhs);
        proof {
            lemma_heap_of(r);
        }
        r
    }
}

impl<T: Numeric<T>, const ROWS: usize, const COLS: usize>
    vstd::std_specs::ops::SubSpecImpl<HMatrix<T, ROWS, COLS>> for &HMatrix<T, ROWS, COLS>
{
    open spec fn obeys_sub_spec() -> bool {
        T::obeys_sub_spec()
    }

    open spec fn sub_req(self, rhs: HMatrix<T, ROWS, COLS>) -> bool {
        difference_req((*self)@, rhs@)
    }

    open spec fn sub_spec(self, rhs: HMatrix<T, ROWS, COLS>) -> HMatrix<T, ROWS, COLS> {
        heap_of(difference((*self)@, rhs@))
    }
}

// &HMatrix - &HMatrix
impl<T: Numeric<T>, const ROWS: usize, const COLS: usize>
    std::ops::Sub<&HMatrix<T, ROWS, COLS>> for &HMatrix<T, ROWS, COLS>
{
    type Output = HMatrix<T, ROWS, COLS>;

    fn sub(self, rhs: &HMatrix<T, ROWS, COLS>) -> (r: HMatrix<T, ROWS, COLS>)
        ensures
            T::obeys_sub_spec() ==> r@ == difference((*self)@, (*rhs)@),
    {
        let r = sub_ref_h_ref_h(self, rhs);
        proof {
            lemma_heap_of(r);
        }
        r
    }
}

impl<T: Numeric<T>, const ROWS: usize, const COLS: usize>
    vstd::std_specs::ops::SubSpecImpl<&HMatrix<T, ROWS, COLS>> for &HMatrix<T, ROWS, COLS>
{
    open spec fn obeys_sub_spec() -> bool {
        T::obeys_sub_spec()
    }

    open spec fn sub_req(self, rhs: &HMatrix<T, ROWS, COLS>) -> bool {
        difference_req((*self)@, (*rhs)@)
    }

    open spec fn sub_spec(self, rhs: &HMatrix<T, ROWS, COLS>) -> HMatrix<T, ROWS, COLS> {
        heap_of(difference((*self)@, (*rhs)@))
    }
}

// &HMatrix - &mut HMatrix
impl<T: Numeric<T>, const ROWS: usize, const COLS: usize>
    std::ops::Sub<&mut HMatrix<T, ROWS, COLS>> for &HMatrix<T, ROWS, COLS>
{
    type Output = HMatrix<T, ROWS, COLS>;

    fn sub(self, rhs: &mut HMatrix<T, ROWS, COLS>) -> (r: HMatrix<T, ROWS, COLS>)
        ensures
            T::obeys_sub_spec() ==> r@ == difference((*self)@, old(rhs)@),
            final(rhs)@ == old(rhs)@,
    {
        let r = sub_ref_h_ref_h(self, rhs);
        proof {
            lemma_heap_of(r);
        }
        r
    }
}

impl<T: Numeric<T>, const ROWS: usize, const COLS: usize>
    vstd::std_specs::ops::SubSpecImpl<&mut HMatrix<T, ROWS, COLS>> for &HMatrix<T, ROWS, COLS>
{
    open spec fn obeys_sub_spec() -> bool {
        T::obeys_sub_spec()
    }

    open spec fn sub_req(self, rhs: &mut HMatrix<T, ROWS, COLS>) -> bool {
        difference_req((*self)@, mut_ref_current(rhs)@)
    }

    open spec fn sub_spec(self, rhs: &mut HMatrix<T, ROWS, COLS>) -> HMatrix<T, ROWS, COLS> {
        heap_of(difference((*self)@, mut_ref_current(rhs)@))
    }
}

// &mut HMatrix - SMatrix
impl<T: Numeric<T>, const ROWS: usize, const COLS: usize>
    std::ops::Sub<SMatrix<T, ROWS, COLS>> for &mut HMatrix<T, ROWS, COLS>
{
    type Output = HMatrix<T, ROWS, COLS>;

    fn sub(self, rhs: SMatrix<T, ROWS, COLS>) -> (r: HMatrix<T, ROWS, COLS>)
        ensures
            T::obeys_sub_spec() ==> r@ == difference(old(self)@, rhs@),
            final(self)@ == old(self)@,
    {
        let r = sub_ref_h_ref_s(self, &rhs);
        proof {
            lemma_heap_of(r);
        }
        r
    }
}

impl<T: Numeric<T>, const ROWS: usize, const COLS: usize>
    vstd::std_specs::ops::SubSpecImpl<SMatrix<T, ROWS, COLS>> for &mut HMatrix<T, ROWS, COLS>
{
    open spec fn obeys_sub_spec() -> bool {
        T::obeys_sub_spec()
    }

    open spec fn sub_req(self, rhs: SMatrix<T, ROWS, COLS>) -> bool {
        difference_req(mut_ref_current(self)@, rhs@)
    }

    open spec fn sub_spec(self, rhs: SMatrix<T, ROWS, COLS>) -> HMatrix<T, ROWS, COLS> {
        heap_of(difference(mut_ref_current(self)@, rhs@))
    }
}

// &mut HMatrix - &SMatrix
impl<T: Numeric<T>, const ROWS: usize, const COLS: usize>
    std::ops::Sub<&SMatrix<T, ROWS, COLS>> for &mut HMatrix<T, ROWS, COLS>
{
    type Output = HMatrix<T, ROWS, COLS>;

    fn sub(self, rhs: &SMatrix<T, ROWS, COLS>) -> (r: HMatrix<T, ROWS, COLS>)
        ensures
            T::obeys_sub_spec() ==> r@ == difference(old(self)@, (*rhs)@),
            final(self)@ == old(self)@,
    {
        let r = sub_ref_h_ref_s(self, rhs);
        proof {
            lemma_heap_of(r);
        }
        r
    }
}

impl<T: Numeric<T>, const ROWS: usize, const COLS: usize>
    vstd::std_specs::ops::SubSpecImpl<&SMatrix<T, ROWS, COLS>> for &mut HMatrix<T, ROWS, COLS>
{
    open spec fn obeys_sub_spec() -> bool {
        T::obeys_sub_spec()
    }

    open spec fn sub_req(self, rhs: &SMatrix<T, ROWS, COLS>) -> bool {
        difference_req(mut_ref_current(self)@, (*rhs)@)
    }

    open spec fn sub_spec(self, rhs: &SMatrix<T, ROWS, COLS>) -> HMatrix<T, ROWS, COLS> {
        heap_of(difference(mut_ref_current(self)@, (*rhs)@))
    }
}

// &mut HMatrix - &mut SMatrix
impl<T: Numeric<T>, const ROWS: usize, const COLS: usize>
    std::ops::Sub<&mut SMatrix<T, ROWS, COLS>> for &mut HMatrix<T, ROWS, COLS>
{
    type Output = HMatrix<T, ROWS, COLS>;

    fn sub(self, rhs: &mut SMatrix<T, ROWS, COLS>) -> (r: HMatrix<T, ROWS, COLS>)
        ensures
            T::obeys_sub_spec() ==> r@ == difference(old(self)@, old(rhs)@),
            final(self)@ == old(self)@,
            final(rhs)@ == old(rhs)@,
    {
        let r = sub_ref_h_ref_s(self, rhs);
        proof {
            lemma_heap_of(r);
        }
        r
    }
}

impl<T: Numeric<T>, const ROWS: usize, const COLS: usize>
    vstd::std_specs::ops::SubSpecImpl<&mut SMatrix<T, ROWS, COLS>> for &mut HMatrix<T, ROWS, COLS>
{
    open spec fn obeys_sub_spec() -> bool {
        T::obeys_sub_spec()
    }

    open spec fn sub_req(self, rhs: &mut SMatrix<T, ROWS, COLS>) -> bool {
        difference_req(mut_ref_current(self)@, mut_ref_current(rhs)@)
    }

    open spec fn sub_spec(self, rhs: &mut SMatrix<T, ROWS, COLS>) -> HMatrix<T, ROWS, COLS> {
        heap_of(difference(mut_ref_current(self)@, mut_ref_current(rhs)@))
    }
}

// &mut HMatrix - HMatrix
impl<T: Numeric<T>, const ROWS: usize, const COLS: usize>
    std::ops::Sub<HMatrix<T, ROWS, COLS>> for &mut HMatrix<T, ROWS, COLS>
{
    type Output = HMatrix<T, ROWS, COLS>;

    fn sub(self, rhs: HMatrix<T, ROWS, COLS>) -> (r: HMatrix<T, ROWS, COLS>)
        ensures
            T::obeys_sub_spec() ==> r@ == difference(old(self)@, rhs@),
            final(self)@ == old(self)@,
    {
        let r = sub_ref_h_ref_h(self, &rhs);
        proof {
            lemma_heap_of(r);
        }
        r
    }
}

impl<T: Numeric<T>, const ROWS: usize, const COLS: usize>
    vstd::std_specs::ops::SubSpecImpl<HMatrix<T, ROWS, COLS>> for &mut HMatrix<T, ROWS, COLS>
{
    open spec fn obeys_sub_spec() -> bool {
        T::obeys_sub_spec()
    }

    open spec fn sub_req(self, rhs: HMatrix<T, ROWS, COLS>) -> bool {
        difference_req(mut_ref_current(self)@, rhs@)
    }

    open spec fn sub_spec(self, rhs: HMatrix<T, ROWS, COLS>) -> HMatrix<T, ROWS, COLS> {
        heap_of(difference(mut_ref_current(self)@, rhs@))
    }
}

// &mut HMatrix - &HMatrix
impl<T: Numeric<T>, const ROWS: usize, const COLS: usize>
    std::ops::Sub<&HMatrix<T, ROWS, COLS>> for &mut HMatrix<T, ROWS, COLS>
{
    type Output = HMatrix<T, ROWS, COLS>;

    fn sub(self, rhs: &HMatrix<T, ROWS, COLS>) -> (r: HMatrix<T, ROWS, COLS>)
        ensures
            T::obeys_sub_spec() ==> r@ == difference(old(self)@, (*rhs)@),
            final(self)@ == old(self)@,
    {
        let r = sub_ref_h_ref_h(self, rhs);
        proof {
            lemma_heap_of(r);
        }
        r
    }
}

impl<T: Numeric<T>, const ROWS: usize, const COLS: usize>
    vstd::std_specs::ops::SubSpecImpl<&HMatrix<T, ROWS, COLS>> for &mut HMatrix<T, ROWS, COLS>
{
    open spec fn obeys_sub_spec() -> bool {
        T::obeys_sub_spec()
    }

    open spec fn sub_req(self, rhs: &HMatrix<T, ROWS, COLS>) -> bool {
        difference_req(mut_ref_current(self)@, (*rhs)@)
    }

    open spec fn sub_spec(self, rhs: &HMatrix<T, ROWS, COLS>) -> HMatrix<T, ROWS, COLS> {
        heap_of(difference(mut_ref_current(self)@, (*rhs)@))
    }
}

// &mut HMatrix - &mut HMatrix
impl<T: Numeric<T>, const ROWS: usize, const COLS: usize>
    std::ops::Sub<&mut HMatrix<T, ROWS, COLS>> for &mut HMatrix<T, ROWS, COLS>
{
    type Output = HMatrix<T, ROWS, COLS>;

    fn sub(self, rhs: &mut HMatrix<T, ROWS, COLS>) -> (r: HMatrix<T, ROWS, COLS>)
        ensures
            T::obeys_sub_spec() ==> r@ == difference(old(self)@, old(rhs)@),
            final(self)@ == old(self)@,
            final(rhs)@ == old(rhs)@,
    {
        let r = sub_ref_h_ref_h(self, rhs);
        proof {
            lemma_heap_of(r);
        }
        r
    }
}

impl<T: Numeric<T>, const ROWS: usize, const COLS: usize>
    vstd::std_specs::ops::SubSpecImpl<&mut HMatrix<T, ROWS, COLS>> for &mut HMatrix<T, ROWS, COLS>
{
    open spec fn obeys_sub_spec() -> bool {
        T::obeys_sub_spec()
    }

    open spec fn sub_req(self, rhs: &mut HMatrix<T, ROWS, COLS>) -> bool {
        difference_req(mut_ref_current(self)@, mut_ref_current(rhs)@)
    }

    open spec fn sub_spec(self, rhs: &mut HMatrix<T, ROWS, COLS>) -> HMatrix<T, ROWS, COLS> {
        heap_of(difference(mut_ref_current(self)@, mut_ref_current(rhs)@))
    }
}

} // verus!
