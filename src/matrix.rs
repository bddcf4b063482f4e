//! Matrices whose shape is part of their type, either held inline
//! ([SMatrix]) or in a separately allocated block ([HMatrix]). Both hold
//! the same logical data, a `ROWS x COLS` grid in row-major order, and work
//! together under every operator.
use crate::model::all_zero;
use crate::model::cells_of;
use crate::model::has_shape;
use crate::model::is_identity;
use crate::model::is_unit;
use crate::model::is_zero;
use crate::model::scaled_by;
use crate::model::scaled_by_req;
use crate::model::transpose;
use std::marker::PhantomData;
use vstd::prelude::*;
use vstd::std_specs::ops::MulSpec;

verus! {

broadcast use vstd::array::group_array_axioms;

/// Element types for which the operators `+`, `*`, unary `-` and binary `-`
/// are defined and yield the element type again.
pub trait Arithmetic<T>:
    Sized
    + std::ops::Add<Output = T>
    + std::ops::Mul<Output = T>
    + std::ops::Neg<Output = T>
    + std::ops::Sub<Output = T>
{
}

impl<T> Arithmetic<T> for T
where
    T: std::ops::Add<Output = T>
        + std::ops::Mul<Output = T>
        + std::ops::Neg<Output = T>
        + std::ops::Sub<Output = T>,
{
}

/// Element types that are `Copy` and `Default` (the default value being the
/// zero) in addition to being [Arithmetic].
pub trait Numeric<T>: Copy + Default + Arithmetic<T> {}

impl<T: Copy + Default + Arithmetic<T>> Numeric<T> for T {}

/// A matrix whose cells are held inline, in the value itself.
/// Rows are read with `m[i]` and cells with `m[i][j]`; rows are written with
/// [SMatrix::set_row] and cells with [SMatrix::set].
/// An `SMatrix` is itself [Numeric] when square, so that the cells of a
/// matrix can be matrices in turn.
#[derive(Debug, Clone, Copy)]
pub struct SMatrix<T: Numeric<T>, const ROWS: usize, const COLS: usize> {
    a: [[T; COLS]; ROWS],
}

/// A matrix whose cells are held in a separately allocated block that it
/// owns; a clone copies the block. Cells are read and written as for
/// [SMatrix].
#[derive(Debug, Clone)]
pub struct HMatrix<T: Numeric<T>, const ROWS: usize, const COLS: usize> {
    a: Box<[[T; COLS]; ROWS]>,
}

impl<T: Numeric<T>, const ROWS: usize, const COLS: usize> View for SMatrix<T, ROWS, COLS> {
    type V = Seq<Seq<T>>;

    closed spec fn view(&self) -> Seq<Seq<T>> {
        cells_of(self.a)
    }
}

impl<T: Numeric<T>, const ROWS: usize, const COLS: usize> View for HMatrix<T, ROWS, COLS> {
    type V = Seq<Seq<T>>;

    closed spec fn view(&self) -> Seq<Seq<T>> {
        cells_of(*self.a)
    }
}

/// The cells of an array have the array's shape.
pub broadcast proof fn lemma_cells_shape<T, const ROWS: usize, const COLS: usize>(
    a: [[T; COLS]; ROWS],
)
    ensures
        #[trigger] has_shape(cells_of(a), ROWS as nat, COLS as nat),
{
    assert forall|i: int| 0 <= i < ROWS implies #[trigger] cells_of(a)[i].len() == COLS by {}
}

/// Two arrays with the same cells are equal.
pub proof fn lemma_cells_injective<T, const ROWS: usize, const COLS: usize>(
    a: [[T; COLS]; ROWS],
    b: [[T; COLS]; ROWS],
)
    requires
        cells_of(a) == cells_of(b),
    ensures
        a == b,
{
    assert forall|i: int| 0 <= i < ROWS implies a[i] == b[i] by {
        assert(cells_of(a)[i] == cells_of(b)[i]);
        assert(a[i] =~= b[i]);
    }
    assert(a =~= b);
}

/// The cells of a stack matrix have its shape.
pub broadcast proof fn lemma_stack_shape<T: Numeric<T>, const ROWS: usize, const COLS: usize>(
    m: SMatrix<T, ROWS, COLS>,
)
    ensures
        has_shape(#[trigger] m@, ROWS as nat, COLS as nat),
{
    lemma_cells_shape(m.a);
}

/// The cells of a heap matrix have its shape.
pub broadcast proof fn lemma_heap_shape<T: Numeric<T>, const ROWS: usize, const COLS: usize>(
    m: HMatrix<T, ROWS, COLS>,
)
    ensures
        has_shape(#[trigger] m@, ROWS as nat, COLS as nat),
{
    lemma_cells_shape(*m.a);
}

/// The stack matrix whose cells are `g`.
pub open spec fn stack_of<T: Numeric<T>, const ROWS: usize, const COLS: usize>(
    g: Seq<Seq<T>>,
) -> SMatrix<T, ROWS, COLS> {
    choose|m: SMatrix<T, ROWS, COLS>| m@ == g
}

/// The heap matrix whose cells are `g`.
pub open spec fn heap_of<T: Numeric<T>, const ROWS: usize, const COLS: usize>(
    g: Seq<Seq<T>>,
) -> HMatrix<T, ROWS, COLS> {
    choose|m: HMatrix<T, ROWS, COLS>| m@ == g
}

/// A stack matrix is determined by its cells.
pub proof fn lemma_stack_of<T: Numeric<T>, const ROWS: usize, const COLS: usize>(
    m: SMatrix<T, ROWS, COLS>,
)
    ensures
        stack_of::<T, ROWS, COLS>(m@) == m,
{
    let c = stack_of::<T, ROWS, COLS>(m@);
    lemma_cells_injective(c.a, m.a);
}

/// A heap matrix is determined by its cells.
pub proof fn lemma_heap_of<T: Numeric<T>, const ROWS: usize, const COLS: usize>(
    m: HMatrix<T, ROWS, COLS>,
)
    ensures
        heap_of::<T, ROWS, COLS>(m@) == m,
{
    let c = heap_of::<T, ROWS, COLS>(m@);
    lemma_cells_injective(*c.a, *m.a);
}

/// Read access to the grid of a matrix, whatever its storage.
pub trait Grid<T: Numeric<T>, const ROWS: usize, const COLS: usize>: View<V = Seq<Seq<T>>> {
    /// The cells, as a `ROWS x COLS` array.
    fn array(&self) -> (r: &[[T; COLS]; ROWS])
        ensures
            cells_of(*r) == self@,
    ;
}

impl<T: Numeric<T>, const ROWS: usize, const COLS: usize> Grid<T, ROWS, COLS> for SMatrix<
    T,
    ROWS,
    COLS,
> {
    fn array(&self) -> (r: &[[T; COLS]; ROWS]) {
        &self.a
    }
}

impl<T: Numeric<T>, const ROWS: usize, const COLS: usize> Grid<T, ROWS, COLS> for HMatrix<
    T,
    ROWS,
    COLS,
> {
    fn array(&self) -> (r: &[[T; COLS]; ROWS]) {
        &self.a
    }
}

/// Relies on `TryFrom<Vec<T>> for Box<[T; N]>`: the conversion succeeds
/// exactly when the vector holds `N` items, and keeps them in order.
#[verifier::external_body]
fn boxed_rows<T, const ROWS: usize, const COLS: usize>(rows: Vec<[T; COLS]>) -> (r: Option<
    Box<[[T; COLS]; ROWS]>,
>)
    ensures
        r is Some <==> rows@.len() == ROWS,
        r is Some ==> r.unwrap()@ == rows@,
{
    rows.try_into().ok()
}

impl<T: Numeric<T>, const ROWS: usize, const COLS: usize> SMatrix<T, ROWS, COLS> {
    /// Creates a new stack-allocated matrix from the given initial values.
    pub fn new(array: [[T; COLS]; ROWS]) -> (r: Self)
        ensures
            r@ == cells_of(array),
    {
        SMatrix { a: array }
    }

    /// Creates a stack-allocated transpose of this matrix.
    pub fn trans(&self) -> (r: SMatrix<T, COLS, ROWS>)
        ensures
            r@ == transpose(self@, COLS as nat),
    {
        let mut transposed = MF::<T, COLS, ROWS>::new_stack();
        copy_trans(&self.a, transposed.array_mut());
        transposed
    }

    /// Creates a heap-allocated copy of this stack-allocated matrix.
    pub fn to_heap(&self) -> (r: HMatrix<T, ROWS, COLS>)
        ensures
            r@ == self@,
    {
        HMatrix { a: Box::new(self.a) }
    }

    /// Mutable access to the cells, for the operators of this crate.
    pub(crate) fn array_mut(&mut self) -> (r: &mut [[T; COLS]; ROWS])
        ensures
            cells_of(*r) == old(self)@,
            final(self)@ == cells_of(*final(r)),
    {
        &mut self.a
    }

    /// Replaces cell `(i, j)` with `v`; `i` and `j` must be in range.
    pub fn set(&mut self, i: usize, j: usize, v: T)
        requires
            i < ROWS,
            j < COLS,
        ensures
            final(self)@ == old(self)@.update(i as int, old(self)@[i as int].update(j as int, v)),
    {
        proof {
            lemma_cells_shape(self.a);
        }
        self.a[i][j] = v;
        assert(self@ =~~= old(self)@.update(i as int, old(self)@[i as int].update(j as int, v)));
    }

    /// Replaces row `i` with `row`; `i` must be in range.
    pub fn set_row(&mut self, i: usize, row: [T; COLS])
        requires
            i < ROWS,
        ensures
            final(self)@ == old(self)@.update(i as int, row@),
    {
        proof {
            lemma_cells_shape(self.a);
        }
        self.a[i] = row;
        assert(self@ =~~= old(self)@.update(i as int, row@));
    }
}

impl<T: Numeric<T>, const ROWS: usize, const COLS: usize> HMatrix<T, ROWS, COLS> {
    /// Creates a new heap-allocated matrix from the given initial values.
    pub fn new(array: [[T; COLS]; ROWS]) -> (r: Self)
        ensures
            r@ == cells_of(array),
    {
        HMatrix { a: Box::new(array) }
    }

    /// Creates a heap-allocated transpose of this matrix.
    pub fn trans(&self) -> (r: HMatrix<T, COLS, ROWS>)
        ensures
            r@ == transpose(self@, COLS as nat),
    {
        let mut transposed = MF::<T, COLS, ROWS>::new_heap();
        copy_trans(&self.a, transposed.array_mut());
        transposed
    }

    /// Creates a stack-allocated copy of this heap-allocated matrix.
    pub fn to_stack(&self) -> (r: SMatrix<T, ROWS, COLS>)
        ensures
            r@ == self@,
    {
        SMatrix { a: *self.a }
    }

    /// Mutable access to the cells, for the operators of this crate.
    pub(crate) fn array_mut(&mut self) -> (r: &mut [[T; COLS]; ROWS])
        ensures
            cells_of(*r) == old(self)@,
            final(self)@ == cells_of(*final(r)),
    {
        &mut self.a
    }

    /// Replaces cell `(i, j)` with `v`; `i` and `j` must be in range.
    pub fn set(&mut self, i: usize, j: usize, v: T)
        requires
            i < ROWS,
            j < COLS,
        ensures
            final(self)@ == old(self)@.update(i as int, old(self)@[i as int].update(j as int, v)),
    {
        proof {
            lemma_cells_shape(*self.a);
        }
        self.a[i][j] = v;
        assert(self@ =~~= old(self)@.update(i as int, old(self)@[i as int].update(j as int, v)));
    }

    /// Replaces row `i` with `row`; `i` must be in range.
    pub fn set_row(&mut self, i: usize, row: [T; COLS])
        requires
            i < ROWS,
        ensures
            final(self)@ == old(self)@.update(i as int, row@),
    {
        proof {
            lemma_cells_shape(*self.a);
        }
        self.a[i] = row;
        assert(self@ =~~= old(self)@.update(i as int, row@));
    }
}

/// Writes the transpose of `source` into `target`.
fn copy_trans<T: Numeric<T>, const ROWS: usize, const COLS: usize>(
    source: &[[T; COLS]; ROWS],
    target: &mut [[T; ROWS]; COLS],
)
    ensures
        cells_of(*final(target)) == transpose(cells_of(*source), COLS as nat),
{
    let mut i: usize = 0;
    while i < ROWS
        invariant
            i <= ROWS,
            forall|p: int, q: int|
                0 <= p < i && 0 <= q < COLS ==> #[trigger] target[q][p] == source[p][q],
        decreases ROWS - i,
    {
        let mut j: usize = 0;
        while j < COLS
            invariant
                i < ROWS,
                j <= COLS,
                forall|p: int, q: int|
                    0 <= p < i && 0 <= q < COLS ==> #[trigger] target[q][p] == source[p][q],
                forall|q: int| 0 <= q < j ==> #[trigger] target[q][i as int] == source[i as int][q],
            decreases COLS - j,
        {
            target[j][i] = source[i][j];
            j += 1;
        }
        i += 1;
    }
    assert(cells_of(*target) =~~= transpose(cells_of(*source), COLS as nat));
}

/// `MF` is the matrix factory used for the creation of new matrices.
pub struct MF<T: Numeric<T>, const ROWS: usize, const COLS: usize> {
    phantom: PhantomData<T>,
}

impl<T: Numeric<T>, const ROWS: usize, const COLS: usize> MF<T, ROWS, COLS> {
    /// Create a new matrix initialized with zeros on the stack.
    pub fn new_stack() -> (r: SMatrix<T, ROWS, COLS>)
        ensures
            all_zero(r@),
    {
        let zero = T::default();
        let m = SMatrix { a: [[zero; COLS]; ROWS] };
        proof {
            lemma_cells_shape(m.a);
        }
        m
    }

    /// Create a new matrix initialized with zeros on the heap.
    pub fn new_heap() -> (r: HMatrix<T, ROWS, COLS>)
        ensures
            all_zero(r@),
    {
        let zero = T::default();
        let row = [zero; COLS];
        let mut rows: Vec<[T; COLS]> = Vec::with_capacity(ROWS);
        let mut i: usize = 0;
        while i < ROWS
            invariant
                i <= ROWS,
                rows@.len() == i,
                forall|k: int| 0 <= k < i ==> #[trigger] rows@[k] == row,
            decreases ROWS - i,
        {
            rows.push(row);
            i += 1;
        }
        match boxed_rows::<T, ROWS, COLS>(rows) {
            Some(block) => {
                let m = HMatrix { a: block };
                proof {
                    lemma_cells_shape(*m.a);
                    assert forall|p: int, q: int|
                        0 <= p < m@.len() && 0 <= q < m@[p].len() implies is_zero(
                        #[trigger] m@[p][q],
                    ) by {
                        assert(m@[p] == rows@[p]@);
                    }
                }
                m
            },
            None => {
                proof {
                    assert(false);
                }
                HMatrix { a: Box::new([row; ROWS]) }
            },
        }
    }
}

/// Identity and diagonal matrices, for square shapes only.
impl<T: Numeric<T> + From<bool>, const N: usize> MF<T, N, N> {
    /// Create an identity matrix on the stack: `T::from(true)` on the
    /// diagonal, zeros elsewhere.
    pub fn unit_stack() -> (r: SMatrix<T, N, N>)
        ensures
            is_identity(r@, N as nat),
    {
        let mut m = MF::<T, N, N>::new_stack();
        let one = T::from(true);
        let mut i: usize = 0;
        while i < N
            invariant
                i <= N,
                has_shape(m@, N as nat, N as nat),
                forall|p: int, q: int|
                    0 <= p < N && 0 <= q < N && p != q ==> is_zero(#[trigger] m@[p][q]),
                is_unit(one),
                forall|p: int| 0 <= p < i ==> #[trigger] m@[p][p] == one,
            decreases N - i,
        {
            m.set(i, i, one);
            i += 1;
        }
        m
    }

    /// Create an identity matrix on the heap: `T::from(true)` on the
    /// diagonal, zeros elsewhere.
    pub fn unit_heap() -> (r: HMatrix<T, N, N>)
        ensures
            is_identity(r@, N as nat),
    {
        let mut m = MF::<T, N, N>::new_heap();
        let one = T::from(true);
        let mut i: usize = 0;
        while i < N
            invariant
                i <= N,
                has_shape(m@, N as nat, N as nat),
                forall|p: int, q: int|
                    0 <= p < N && 0 <= q < N && p != q ==> is_zero(#[trigger] m@[p][q]),
                is_unit(one),
                forall|p: int| 0 <= p < i ==> #[trigger] m@[p][p] == one,
            decreases N - i,
        {
            m.set(i, i, one);
            i += 1;
        }
        m
    }

    /// Create a diagonal matrix with initial diagonal value `diag_val` on the
    /// stack: the identity with every cell multiplied by `diag_val`.
    pub fn diag_stack(diag_val: T) -> (r: SMatrix<T, N, N>)
        requires
            forall|one: T| is_unit(one) ==> #[trigger] one.mul_req(diag_val),
            forall|zero: T| is_zero(zero) ==> #[trigger] zero.mul_req(diag_val),
        ensures
            exists|u: Seq<Seq<T>>|
                #[trigger] is_identity(u, N as nat) && (T::obeys_mul_spec() ==> r@ == scaled_by(
                    u,
                    diag_val,
                )),
    {
        let mut m = MF::<T, N, N>::unit_stack();
        let ghost u = m@;
        assert(is_identity(u, N as nat));
        assert forall|i: int, j: int| 0 <= i < N && 0 <= j < N implies #[trigger] u[i][j].mul_req(
            diag_val,
        ) by {
            if i == j {
                assert(is_unit(u[i][j]));
            } else {
                assert(is_zero(u[i][j]));
            }
        }
        m.mul_assign_scalar(diag_val);
        assert(is_identity(u, N as nat) && (T::obeys_mul_spec() ==> m@ == scaled_by(u, diag_val)));
        m
    }

    /// Create a diagonal matrix with initial diagonal value `diag_val` on the
    /// heap: the identity with every cell multiplied by `diag_val`.
    pub fn diag_heap(diag_val: T) -> (r: HMatrix<T, N, N>)
        requires
            forall|one: T| is_unit(one) ==> #[trigger] one.mul_req(diag_val),
            forall|zero: T| is_zero(zero) ==> #[trigger] zero.mul_req(diag_val),
        ensures
            exists|u: Seq<Seq<T>>|
                #[trigger] is_identity(u, N as nat) && (T::obeys_mul_spec() ==> r@ == scaled_by(
                    u,
                    diag_val,
                )),
    {
        let mut m = MF::<T, N, N>::unit_heap();
        let ghost u = m@;
        assert(is_identity(u, N as nat));
        assert forall|i: int, j: int| 0 <= i < N && 0 <= j < N implies #[trigger] u[i][j].mul_req(
            diag_val,
        ) by {
            if i == j {
                assert(is_unit(u[i][j]));
            } else {
                assert(is_zero(u[i][j]));
            }
        }
        m.mul_assign_scalar(diag_val);
        assert(is_identity(u, N as nat) && (T::obeys_mul_spec() ==> m@ == scaled_by(u, diag_val)));
        m
    }
}

impl<T: Numeric<T>, const ROWS: usize, const COLS: usize> Default for SMatrix<T, ROWS, COLS> {
    /// Create a new matrix initialized with zeros on the stack.
    fn default() -> (r: Self)
        ensures
            all_zero(r@),
    {
        MF::<T, ROWS, COLS>::new_stack()
    }
}

impl<T: Numeric<T>, const ROWS: usize, const COLS: usize> Default for HMatrix<T, ROWS, COLS> {
    /// Create a new matrix initialized with zeros on the heap.
    fn default() -> (r: Self)
        ensures
            all_zero(r@),
    {
        MF::<T, ROWS, COLS>::new_heap()
    }
}

impl<T: Numeric<T>, const ROWS: usize, const COLS: usize>
    std::ops::Index<usize> for SMatrix<T, ROWS, COLS>
{
    type Output = [T; COLS];

    /// Row `i`, for `i` below `ROWS`; out of range, indexing panics as array
    /// indexing does.
    fn index(&self, i: usize) -> (r: &[T; COLS])
        ensures
            r@ == self@[i as int],
    {
        &self.a[i]
    }
}

impl<T: Numeric<T>, const ROWS: usize, const COLS: usize>
    vstd::std_specs::core::IndexSpecImpl<usize> for SMatrix<T, ROWS, COLS>
{
    open spec fn index_req(&self, i: &usize) -> bool {
        *i < ROWS
    }
}

impl<T: Numeric<T>, const ROWS: usize, const COLS: usize>
    std::ops::Index<usize> for HMatrix<T, ROWS, COLS>
{
    type Output = [T; COLS];

    /// Row `i`, for `i` below `ROWS`; out of range, indexing panics as array
    /// indexing does.
    fn index(&self, i: usize) -> (r: &[T; COLS])
        ensures
            r@ == self@[i as int],
    {
        &self.a[i]
    }
}

impl<T: Numeric<T>, const ROWS: usize, const COLS: usize>
    vstd::std_specs::core::IndexSpecImpl<usize> for HMatrix<T, ROWS, COLS>
{
    open spec fn index_req(&self, i: &usize) -> bool {
        *i < ROWS
    }
}

} // verus!
