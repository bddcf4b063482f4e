//! Cell-wise negation, for every storage and operand form.
use crate::matrix::Grid;
use crate::matrix::HMatrix;
use crate::matrix::MF;
use crate::matrix::Numeric;
use crate::matrix::SMatrix;
use crate::matrix::heap_of;
use crate::matrix::lemma_heap_of;
use crate::matrix::lemma_stack_of;
use crate::matrix::stack_of;
use crate::model::cells_of;
use crate::model::negation;
use crate::model::negation_req;
use vstd::prelude::*;
use vstd::std_specs::ops::NegSpec;

verus! {

broadcast use vstd::array::group_array_axioms;

/// Writes the cell-wise negation of `a` into `b`.
fn neg<T: Numeric<T>, const ROWS: usize, const COLS: usize>(a: &[[T; COLS]; ROWS], b: &mut [[T; COLS]; ROWS])
    requires
        negation_req(cells_of(*a)),
    ensures
        T::obeys_neg_spec() ==> cells_of(*final(b)) == negation(cells_of(*a)),
{
    let mut i: usize = 0;
    while i < ROWS
        invariant
            i <= ROWS,
            negation_req(cells_of(*a)),
            forall|p: int, q: int|
                0 <= p < i && 0 <= q < COLS ==> T::obeys_neg_spec() ==> #[trigger] b[p][q] == a[p][q].neg_spec(),
        decreases ROWS - i,
    {
        let mut j: usize = 0;
        while j < COLS
            invariant
                i < ROWS,
                j <= COLS,
                negation_req(cells_of(*a)),
                forall|p: int, q: int|
                    0 <= p < i && 0 <= q < COLS ==> T::obeys_neg_spec() ==> #[trigger] b[p][q] == a[p][q].neg_spec(),
                forall|q: int|
                    0 <= q < j ==> T::obeys_neg_spec() ==> #[trigger] b[i as int][q] == a[i as int][q].neg_spec(),
            decreases COLS - j,
        {
            assert(cells_of(*a)[i as int][j as int].neg_req());
            b[i][j] = std::ops::Neg::neg(a[i][j]);
            j += 1;
        }
        i += 1;
    }
    assert(T::obeys_neg_spec() ==> cells_of(*b) =~~= negation(cells_of(*a)));
}

// -SMatrix
impl<T: Numeric<T>, const ROWS: usize, const COLS: usize>
    std::ops::Neg for SMatrix<T, ROWS, COLS>
{
    type Output = SMatrix<T, ROWS, COLS>;

    fn neg(self) -> (r: SMatrix<T, ROWS, COLS>)
        ensures
            T::obeys_neg_spec() ==> r@ == negation(self@),
    {
        let mut b = MF::<T, ROWS, COLS>::new_stack();
        crate::matrix_neg::neg(self.array(), b.array_mut());
        proof {
            lemma_stack_of(b);
        }
        b
    }
}

impl<T: Numeric<T>, const ROWS: usize, const COLS: usize>
    vstd::std_specs::ops::NegSpecImpl for SMatrix<T, ROWS, COLS>
{
    open spec fn obeys_neg_spec() -> bool {
        T::obeys_neg_spec()
    }

    open spec fn neg_req(self) -> bool {
        negation_req(self@)
    }

    open spec fn neg_spec(self) -> SMatrix<T, ROWS, COLS> {
        stack_of(negation(self@))
    }
}

// -&SMatrix
impl<T: Numeric<T>, const ROWS: usize, const COLS: usize>
    std::ops::Neg for &SMatrix<T, ROWS, COLS>
{
    type Output = SMatrix<T, ROWS, COLS>;

    fn neg(self) -> (r: SMatrix<T, ROWS, COLS>)
        ensures
            T::obeys_neg_spec() ==> r@ == negation((*self)@),
    {
        let mut b = MF::<T, ROWS, COLS>::new_stack();
        crate::matrix_neg::neg(self.array(), b.array_mut());
        proof {
            lemma_stack_of(b);
        }
        b
    }
}

impl<T: Numeric<T>, const ROWS: usize, const COLS: usize>
    vstd::std_specs::ops::NegSpecImpl for &SMatrix<T, ROWS, COLS>
{
    open spec fn obeys_neg_spec() -> bool {
        T::obeys_neg_spec()
    }

    open spec fn neg_req(self) -> bool {
        negation_req((*self)@)
    }

    open spec fn neg_spec(self) -> SMatrix<T, ROWS, COLS> {
        stack_of(negation((*self)@))
    }
}

// -&mut SMatrix
impl<T: Numeric<T>, const ROWS: usize, const COLS: usize>
    std::ops::Neg for &mut SMatrix<T, ROWS, COLS>
{
    type Output = SMatrix<T, ROWS, COLS>;

    fn neg(self) -> (r: SMatrix<T, ROWS, COLS>)
        ensures
            T::obeys_neg_spec() ==> r@ == negation(old(self)@),
            final(self)@ == old(self)@,
    {
        let mut b = MF::<T, ROWS, COLS>::new_stack();
        crate::matrix_neg::neg(self.array(), b.array_mut());
        proof {
            lemma_stack_of(b);
        }
        b
    }
}

impl<T: Numeric<T>, const ROWS: usize, const COLS: usize>
    vstd::std_specs::ops::NegSpecImpl for &mut SMatrix<T, ROWS, COLS>
{
    open spec fn obeys_neg_spec() -> bool {
        T::obeys_neg_spec()
    }

    open spec fn neg_req(self) -> bool {
        negation_req(mut_ref_current(self)@)
    }

    open spec fn neg_spec(self) -> SMatrix<T, ROWS, COLS> {
        stack_of(negation(mut_ref_current(self)@))
    }
}

// -HMatrix
impl<T: Numeric<T>, const ROWS: usize, const COLS: usize>
    std::ops::Neg for HMatrix<T, ROWS, COLS>
{
    type Output = HMatrix<T, ROWS, COLS>;

    fn neg(self) -> (r: HMatrix<T, ROWS, COLS>)
        ensures
            T::obeys_neg_spec() ==> r@ == negation(self@),
    {
        let mut b = MF::<T, ROWS, COLS>::new_heap();
        crate::matrix_neg::neg(self.array(), b.array_mut());
        proof {
            lemma_heap_of(b);
        }
        b
    }
}

impl<T: Numeric<T>, const ROWS: usize, const COLS: usize>
    vstd::std_specs::ops::NegSpecImpl for HMatrix<T, ROWS, COLS>
{
    open spec fn obeys_neg_spec() -> bool {
        T::obeys_neg_spec()
    }

    open spec fn neg_req(self) -> bool {
        negation_req(self@)
    }

    open spec fn neg_spec(self) -> HMatrix<T, ROWS, COLS> {
        heap_of(negation(self@))
    }
}

// -&HMatrix
impl<T: Numeric<T>, const ROWS: usize, const COLS: usize>
    std::ops::Neg for &HMatrix<T, ROWS, COLS>
{
    type Output = HMatrix<T, ROWS, COLS>;

    fn neg(self) -> (r: HMatrix<T, ROWS, COLS>)
        ensures
            T::obeys_neg_spec() ==> r@ == negation((*self)@),
    {
        let mut b = MF::<T, ROWS, COLS>::new_heap();
        crate::matrix_neg::neg(self.array(), b.array_mut());
        proof {
            lemma_heap_of(b);
        }
        b
    }
}

impl<T: Numeric<T>, const ROWS: usize, const COLS: usize>
    vstd::std_specs::ops::NegSpecImpl for &HMatrix<T, ROWS, COLS>
{
    open spec fn obeys_neg_spec() -> bool {
        T::obeys_neg_spec()
    }

    open spec fn neg_req(self) -> bool {
        negation_req((*self)@)
    }

    open spec fn neg_spec(self) -> HMatrix<T, ROWS, COLS> {
        heap_of(negation((*self)@))
    }
}

// -&mut HMatrix
impl<T: Numeric<T>, const ROWS: usize, const COLS: usize>
    std::ops::Neg for &mut HMatrix<T, ROWS, COLS>
{
    type Output = HMatrix<T, ROWS, COLS>;

    fn neg(self) -> (r: HMatrix<T, ROWS, COLS>)
        ensures
            T::obeys_neg_spec() ==> r@ == negation(old(self)@),
            final(self)@ == old(self)@,
    {
        let mut b = MF::<T, ROWS, COLS>::new_heap();
        crate::matrix_neg::neg(self.array(), b.array_mut());
        proof {
            lemma_heap_of(b);
        }
        b
    }
}

impl<T: Numeric<T>, const ROWS: usize, const COLS: usize>
    vstd::std_specs::ops::NegSpecImpl for &mut HMatrix<T, ROWS, COLS>
{
    open spec fn obeys_neg_spec() -> bool {
        T::obeys_neg_spec()
    }

    open spec fn neg_req(self) -> bool {
        negation_req(mut_ref_current(self)@)
    }

    open spec fn neg_spec(self) -> HMatrix<T, ROWS, COLS> {
        heap_of(negation(mut_ref_current(self)@))
    }
}

} // verus!
