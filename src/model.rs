//! Mathematical model of a matrix: a sequence of rows, each a sequence of
//! cells, and the operations of the library stated over it.
//!
//! Cell arithmetic is the element type's own, as vstd specifies the operator
//! traits: `x.add_spec(y)` is what `x + y` returns when
//! `T::obeys_add_spec()` holds, and `x.add_req(y)` is what `x + y` needs so as
//! not to panic (no overflow, for the primitive integers).
use crate::matrix::Numeric;
use vstd::prelude::*;
use vstd::std_specs::ops::AddSpec;
use vstd::std_specs::ops::MulSpec;
use vstd::std_specs::ops::NegSpec;
use vstd::std_specs::ops::SubSpec;

verus! {

/// The cells of a `ROWS x COLS` array, row by row.
pub open spec fn cells_of<T, const ROWS: usize, const COLS: usize>(a: [[T; COLS]; ROWS]) -> Seq<
    Seq<T>,
> {
    Seq::new(ROWS as nat, |i: int| a@[i]@)
}

/// `g` has `rows` rows of `cols` cells each.
pub open spec fn has_shape<T>(g: Seq<Seq<T>>, rows: nat, cols: nat) -> bool {
    &&& g.len() == rows
    &&& forall|i: int| 0 <= i < rows ==> #[trigger] g[i].len() == cols
}

/// `v` is a value that `T::default()` returns: the zero of the element type
/// (`0` for the primitive integers).
pub open spec fn is_zero<T: Default>(v: T) -> bool {
    call_ensures(T::default, (), v)
}

/// Every cell of `g` is a zero of the element type.
pub open spec fn all_zero<T: Default>(g: Seq<Seq<T>>) -> bool {
    forall|i: int, j: int| 0 <= i < g.len() && 0 <= j < g[i].len() ==> is_zero(#[trigger] g[i][j])
}

/// `v` is a value that `T::from(true)` returns: the unit of the element type
/// (`1` for the primitive integers).
pub open spec fn is_unit<T: From<bool>>(v: T) -> bool {
    call_ensures(T::from, (true,), v)
}

/// `g` is the `n x n` identity: the unit on the diagonal, zeros elsewhere.
pub open spec fn is_identity<T: Numeric<T> + From<bool>>(g: Seq<Seq<T>>, n: nat) -> bool {
    &&& has_shape(g, n, n)
    &&& forall|i: int| 0 <= i < n ==> is_unit(#[trigger] g[i][i])
    &&& forall|i: int, j: int| 0 <= i < n && 0 <= j < n && i != j ==> is_zero(#[trigger] g[i][j])
}

/// Cell-wise sum.
pub open spec fn sum<T: Numeric<T>>(a: Seq<Seq<T>>, b: Seq<Seq<T>>) -> Seq<Seq<T>> {
    Seq::new(a.len(), |i: int| Seq::new(a[i].len(), |j: int| a[i][j].add_spec(b[i][j])))
}

/// Every cell-wise sum of `a` and `b` can be computed.
pub open spec fn sum_req<T: Numeric<T>>(a: Seq<Seq<T>>, b: Seq<Seq<T>>) -> bool {
    forall|i: int, j: int|
        0 <= i < a.len() && 0 <= j < a[i].len() ==> #[trigger] a[i][j].add_req(b[i][j])
}

/// Cell-wise difference.
pub open spec fn difference<T: Numeric<T>>(a: Seq<Seq<T>>, b: Seq<Seq<T>>) -> Seq<Seq<T>> {
    Seq::new(a.len(), |i: int| Seq::new(a[i].len(), |j: int| a[i][j].sub_spec(b[i][j])))
}

/// Every cell-wise difference of `a` and `b` can be computed.
pub open spec fn difference_req<T: Numeric<T>>(a: Seq<Seq<T>>, b: Seq<Seq<T>>) -> bool {
    forall|i: int, j: int|
        0 <= i < a.len() && 0 <= j < a[i].len() ==> #[trigger] a[i][j].sub_req(b[i][j])
}

/// Cell-wise negation.
pub open spec fn negation<T: Numeric<T>>(a: Seq<Seq<T>>) -> Seq<Seq<T>> {
    Seq::new(a.len(), |i: int| Seq::new(a[i].len(), |j: int| a[i][j].neg_spec()))
}

/// Every cell of `a` can be negated.
pub open spec fn negation_req<T: Numeric<T>>(a: Seq<Seq<T>>) -> bool {
    forall|i: int, j: int| 0 <= i < a.len() && 0 <= j < a[i].len() ==> #[trigger] a[i][j].neg_req()
}

/// Every cell multiplied by the scalar `s`, the scalar on the left.
pub open spec fn scaled<T: Numeric<T>>(s: T, a: Seq<Seq<T>>) -> Seq<Seq<T>> {
    Seq::new(a.len(), |i: int| Seq::new(a[i].len(), |j: int| s.mul_spec(a[i][j])))
}

/// Every product of `s` and a cell of `a` can be computed.
pub open spec fn scaled_req<T: Numeric<T>>(s: T, a: Seq<Seq<T>>) -> bool {
    forall|i: int, j: int| 0 <= i < a.len() && 0 <= j < a[i].len() ==> #[trigger] s.mul_req(a[i][j])
}

/// Every cell multiplied by the scalar `s`, the scalar on the right.
pub open spec fn scaled_by<T: Numeric<T>>(a: Seq<Seq<T>>, s: T) -> Seq<Seq<T>> {
    Seq::new(a.len(), |i: int| Seq::new(a[i].len(), |j: int| a[i][j].mul_spec(s)))
}

/// Every product of a cell of `a` and `s` can be computed.
pub open spec fn scaled_by_req<T: Numeric<T>>(a: Seq<Seq<T>>, s: T) -> bool {
    forall|i: int, j: int| 0 <= i < a.len() && 0 <= j < a[i].len() ==> #[trigger] a[i][j].mul_req(s)
}

/// The transpose of `a`, whose rows have `cols` cells: cell `(j, i)` of the
/// result is cell `(i, j)` of `a`.
pub open spec fn transpose<T>(a: Seq<Seq<T>>, cols: nat) -> Seq<Seq<T>> {
    Seq::new(cols, |j: int| Seq::new(a.len(), |i: int| a[i][j]))
}

/// `f(0) + f(1) + ... + f(n - 1)`, summed from the left in the element
/// type's arithmetic (for `n >= 1`).
pub open spec fn series<T: Numeric<T>>(f: spec_fn(int) -> T, n: nat) -> T
    decreases n,
{
    if n <= 1 {
        f(0)
    } else {
        series(f, (n - 1) as nat).add_spec(f(n - 1))
    }
}

/// `row[0] * b[0][j] + row[1] * b[1][j] + ... + row[n-1] * b[n-1][j]`, summed
/// from the left (for `n >= 1`).
pub open spec fn dot<T: Numeric<T>>(row: Seq<T>, b: Seq<Seq<T>>, j: int, n: nat) -> T {
    series(|k: int| row[k].mul_spec(b[k][j]), n)
}

/// The matrix product of `a` and `b`, where `b` has `cols` columns and as many
/// rows as `a` has columns (at least one).
pub open spec fn product<T: Numeric<T>>(a: Seq<Seq<T>>, b: Seq<Seq<T>>, cols: nat) -> Seq<Seq<T>> {
    Seq::new(a.len(), |i: int| Seq::new(cols, |j: int| dot(a[i], b, j, b.len())))
}

/// The product of `a` and `b` can be computed: the element arithmetic is the
/// one vstd specifies, and no product of two cells and no partial sum fails.
pub open spec fn product_req<T: Numeric<T>>(a: Seq<Seq<T>>, b: Seq<Seq<T>>, cols: nat) -> bool {
    &&& T::obeys_add_spec()
    &&& T::obeys_mul_spec()
    &&& forall|i: int, j: int, k: int|
        0 <= i < a.len() && 0 <= j < cols && 0 <= k < b.len() ==> {
            &&& #[trigger] a[i][k].mul_req(b[k][j])
            &&& k > 0 ==> dot(a[i], b, j, k as nat).add_req(a[i][k].mul_spec(b[k][j]))
        }
}

/// `r` is what multiplying `a` by `b` yields, `b` with `cols` columns: the
/// product where the shared dimension is positive, zeros where it is empty.
pub open spec fn is_product<T: Numeric<T>>(
    r: Seq<Seq<T>>,
    a: Seq<Seq<T>>,
    b: Seq<Seq<T>>,
    cols: nat,
) -> bool {
    &&& has_shape(r, a.len(), cols)
    &&& b.len() == 0 ==> all_zero(r)
    &&& b.len() > 0 ==> r == product(a, b, cols)
}

} // verus!
