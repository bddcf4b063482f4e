//! The matrix product of two arrays.
use crate::matrix::Numeric;
use crate::model::cells_of;
use crate::model::dot;
use crate::model::product;
use crate::model::product_req;
use vstd::prelude::*;
use vstd::std_specs::ops::AddSpec;
use vstd::std_specs::ops::MulSpec;

verus! {

broadcast use vstd::array::group_array_axioms;

/// Writes the matrix product of `a` and `b` into `c`: cell `(i, j)` is
/// `a[i][0] * b[0][j] + ... + a[i][COLS_LEFT - 1] * b[COLS_LEFT - 1][j]`, summed
/// from the left. Where the shared dimension is empty, `c` is left as it is.
pub(crate) fn multiply<
    T: Numeric<T>,
    const ROWS_LEFT: usize,
    const COLS_LEFT: usize,
    const COLS_RIGHT: usize,
>(
    a: &[[T; COLS_LEFT]; ROWS_LEFT],
    b: &[[T; COLS_RIGHT]; COLS_LEFT],
    c: &mut [[T; COLS_RIGHT]; ROWS_LEFT],
)
    requires
        product_req(cells_of(*a), cells_of(*b), COLS_RIGHT as nat),
    ensures
        COLS_LEFT == 0 ==> *final(c) == *old(c),
        COLS_LEFT > 0 ==> cells_of(*final(c)) == product(
            cells_of(*a),
            cells_of(*b),
            COLS_RIGHT as nat,
        ),
{
    if COLS_LEFT == 0 {
        return ;
    }
    let ghost ca = cells_of(*a);
    let ghost cb = cells_of(*b);
    let mut i: usize = 0;
    while i < ROWS_LEFT
        invariant
            i <= ROWS_LEFT,
            COLS_LEFT > 0,
            ca == cells_of(*a),
            cb == cells_of(*b),
            product_req(ca, cb, COLS_RIGHT as nat),
            forall|p: int, q: int|
                0 <= p < i && 0 <= q < COLS_RIGHT ==> #[trigger] c[p][q] == dot(
                    ca[p],
                    cb,
                    q,
                    COLS_LEFT as nat,
                ),
        decreases ROWS_LEFT - i,
    {
        let mut j: usize = 0;
        while j < COLS_RIGHT
            invariant
                i < ROWS_LEFT,
                j <= COLS_RIGHT,
                COLS_LEFT > 0,
                ca == cells_of(*a),
                cb == cells_of(*b),
                product_req(ca, cb, COLS_RIGHT as nat),
                forall|p: int, q: int|
                    0 <= p < i && 0 <= q < COLS_RIGHT ==> #[trigger] c[p][q] == dot(
                        ca[p],
                        cb,
                        q,
                        COLS_LEFT as nat,
                    ),
                forall|q: int|
                    0 <= q < j ==> #[trigger] c[i as int][q] == dot(
                        ca[i as int],
                        cb,
                        q,
                        COLS_LEFT as nat,
                    ),
            decreases COLS_RIGHT - j,
        {
            assert(ca[i as int][0].mul_req(cb[0][j as int]));
            let mut acc = a[i][0] * b[0][j];
            let mut k: usize = 1;
            while k < COLS_LEFT
                invariant
                    i < ROWS_LEFT,
                    j < COLS_RIGHT,
                    1 <= k <= COLS_LEFT,
                    ca == cells_of(*a),
                    cb == cells_of(*b),
                    product_req(ca, cb, COLS_RIGHT as nat),
                    acc == dot(ca[i as int], cb, j as int, k as nat),
                decreases COLS_LEFT - k,
            {
                assert(ca[i as int][k as int].mul_req(cb[k as int][j as int]));
                acc = acc + a[i][k] * b[k][j];
                k += 1;
            }
            c[i][j] = acc;
            j += 1;
        }
        i += 1;
    }
    assert(cells_of(*c) =~~= product(ca, cb, COLS_RIGHT as nat));
}

} // verus!
