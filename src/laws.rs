//! Algebraic laws of the matrix operations.
//!
//! The operators state their results over the model (`sum`, `negation`,
//! `product`, `transpose`, `is_product`), for either storage alike. The laws
//! below are stated over the same model. Those that rest on the arithmetic of
//! the element type take the element laws they need as hypotheses: they hold
//! for every element type whose arithmetic, as vstd specifies it, obeys them.
use crate::matrix::Numeric;
use crate::model::all_zero;
use crate::model::dot;
use crate::model::has_shape;
use crate::model::is_identity;
use crate::model::is_product;
use crate::model::is_unit;
use crate::model::is_zero;
use crate::model::negation;
use crate::model::product;
use crate::model::series;
use crate::model::sum;
use crate::model::transpose;
use vstd::prelude::*;
use vstd::std_specs::ops::AddSpec;
use vstd::std_specs::ops::MulSpec;
use vstd::std_specs::ops::NegSpec;

verus! {

/// `+` on the element type is commutative.
pub open spec fn add_commutes<T: Numeric<T>>() -> bool {
    forall|x: T, y: T| #[trigger] x.add_spec(y) == y.add_spec(x)
}

/// `+` on the element type is associative.
pub open spec fn add_associates<T: Numeric<T>>() -> bool {
    forall|x: T, y: T, z: T| #[trigger] x.add_spec(y).add_spec(z) == x.add_spec(y.add_spec(z))
}

/// `*` on the element type is associative.
pub open spec fn mul_associates<T: Numeric<T>>() -> bool {
    forall|x: T, y: T, z: T| #[trigger] x.mul_spec(y).mul_spec(z) == x.mul_spec(y.mul_spec(z))
}

/// `*` distributes over `+` on both sides.
pub open spec fn mul_distributes<T: Numeric<T>>() -> bool {
    &&& forall|x: T, y: T, z: T| #[trigger]
        x.mul_spec(y.add_spec(z)) == x.mul_spec(y).add_spec(x.mul_spec(z))
    &&& forall|x: T, y: T, z: T| #[trigger]
        x.add_spec(y).mul_spec(z) == x.mul_spec(z).add_spec(y.mul_spec(z))
}

/// `x + (-x)` is the zero, for every `x`.
pub open spec fn has_additive_inverses<T: Numeric<T>>() -> bool {
    forall|z: T, x: T|
        #![trigger is_zero(z), x.add_spec(x.neg_spec())]
        is_zero(z) ==> x.add_spec(x.neg_spec()) == z
}

/// The zero is neutral for `+` on either side and absorbs `*` on either side.
pub open spec fn zero_laws<T: Numeric<T>>() -> bool {
    &&& forall|z: T, x: T| is_zero(z) ==> #[trigger] x.add_spec(z) == x
    &&& forall|z: T, x: T| is_zero(z) ==> #[trigger] z.add_spec(x) == x
    &&& forall|z: T, x: T| is_zero(z) ==> #[trigger] x.mul_spec(z) == z
    &&& forall|z: T, x: T| is_zero(z) ==> #[trigger] z.mul_spec(x) == z
}

/// A unit is neutral for `*` on either side.
pub open spec fn unit_laws<T: Numeric<T> + From<bool>>() -> bool {
    &&& forall|u: T, x: T| is_unit(u) ==> #[trigger] x.mul_spec(u) == x
    &&& forall|u: T, x: T| is_unit(u) ==> #[trigger] u.mul_spec(x) == x
}

/// The element laws of a ring: `+` commutative and associative, `*`
/// associative and distributive over `+`, zeros neutral and absorbing.
pub open spec fn ring_laws<T: Numeric<T>>() -> bool {
    &&& add_commutes::<T>()
    &&& add_associates::<T>()
    &&& mul_associates::<T>()
    &&& mul_distributes::<T>()
    &&& zero_laws::<T>()
}

/// Matrix addition is commutative: `A + B` equals `B + A`.
pub proof fn lemma_sum_commutative<T: Numeric<T>>(
    a: Seq<Seq<T>>,
    b: Seq<Seq<T>>,
    rows: nat,
    cols: nat,
)
    requires
        add_commutes::<T>(),
        has_shape(a, rows, cols),
        has_shape(b, rows, cols),
    ensures
        sum(a, b) == sum(b, a),
{
    assert(sum(a, b) =~~= sum(b, a));
}

/// Matrix addition is associative: `(A + B) + C` equals `A + (B + C)`.
pub proof fn lemma_sum_associative<T: Numeric<T>>(
    a: Seq<Seq<T>>,
    b: Seq<Seq<T>>,
    c: Seq<Seq<T>>,
    rows: nat,
    cols: nat,
)
    requires
        add_associates::<T>(),
        has_shape(a, rows, cols),
        has_shape(b, rows, cols),
        has_shape(c, rows, cols),
    ensures
        sum(sum(a, b), c) == sum(a, sum(b, c)),
{
    assert(sum(sum(a, b), c) =~~= sum(a, sum(b, c)));
}

/// A matrix plus its negation is the zero matrix of its shape.
pub proof fn lemma_sum_negation<T: Numeric<T>>(
    a: Seq<Seq<T>>,
    zero: Seq<Seq<T>>,
    rows: nat,
    cols: nat,
)
    requires
        has_additive_inverses::<T>(),
        has_shape(a, rows, cols),
        has_shape(zero, rows, cols),
        all_zero(zero),
    ensures
        sum(a, negation(a)) == zero,
{
    let s = sum(a, negation(a));
    assert forall|i: int, j: int| 0 <= i < rows && 0 <= j < cols implies #[trigger] s[i][j]
        == zero[i][j] by {
        assert(is_zero(zero[i][j]));
        assert(a[i][j].add_spec(a[i][j].neg_spec()) == zero[i][j]);
    }
    assert(s =~~= zero);
}

/// Transposition is an involution: the transpose of the transpose is the
/// matrix itself.
pub proof fn lemma_transpose_involutive<T>(a: Seq<Seq<T>>, rows: nat, cols: nat)
    requires
        has_shape(a, rows, cols),
    ensures
        has_shape(transpose(a, cols), cols, rows),
        transpose(transpose(a, cols), rows) == a,
{
    assert(transpose(transpose(a, cols), rows) =~~= a);
}

/// The terms `f(k) + g(k)`.
spec fn add_terms<T: Numeric<T>>(f: spec_fn(int) -> T, g: spec_fn(int) -> T) -> spec_fn(
    int,
) -> T {
    |k: int| f(k).add_spec(g(k))
}

/// The terms `x * f(k)`.
spec fn scale_terms<T: Numeric<T>>(x: T, f: spec_fn(int) -> T) -> spec_fn(int) -> T {
    |k: int| x.mul_spec(f(k))
}

/// The terms `f(k) * y`.
spec fn terms_scaled<T: Numeric<T>>(f: spec_fn(int) -> T, y: T) -> spec_fn(int) -> T {
    |k: int| f(k).mul_spec(y)
}

/// Row `j` of a two-index family: `k -> f(j, k)`.
spec fn row_terms<T>(f: spec_fn(int, int) -> T, j: int) -> spec_fn(int) -> T {
    |k: int| f(j, k)
}

/// Column `k` of a two-index family: `j -> f(j, k)`.
spec fn col_terms<T>(f: spec_fn(int, int) -> T, k: int) -> spec_fn(int) -> T {
    |j: int| f(j, k)
}

/// The sums of the first `n` terms of each row: `j -> f(j, 0) + ... + f(j, n - 1)`.
spec fn row_sums<T: Numeric<T>>(f: spec_fn(int, int) -> T, n: nat) -> spec_fn(int) -> T {
    |j: int| series(row_terms(f, j), n)
}

/// The sums of the first `m` terms of each column: `k -> f(0, k) + ... + f(m - 1, k)`.
spec fn col_sums<T: Numeric<T>>(f: spec_fn(int, int) -> T, m: nat) -> spec_fn(int) -> T {
    |k: int| series(col_terms(f, k), m)
}

/// Series whose terms agree are equal.
proof fn lemma_series_ext<T: Numeric<T>>(f: spec_fn(int) -> T, g: spec_fn(int) -> T, n: nat)
    requires
        n >= 1,
        forall|k: int| 0 <= k < n ==> #[trigger] f(k) == g(k),
    ensures
        series(f, n) == series(g, n),
    decreases n,
{
    if n > 1 {
        lemma_series_ext(f, g, (n - 1) as nat);
    }
}

/// `(a + b) + (c + d)` equals `(a + c) + (b + d)`.
proof fn lemma_rearrange<T: Numeric<T>>(a: T, b: T, c: T, d: T)
    requires
        add_commutes::<T>(),
        add_associates::<T>(),
    ensures
        a.add_spec(b).add_spec(c.add_spec(d)) == a.add_spec(c).add_spec(b.add_spec(d)),
{
    assert(a.add_spec(b).add_spec(c.add_spec(d)) == a.add_spec(b.add_spec(c.add_spec(d))));
    assert(b.add_spec(c).add_spec(d) == b.add_spec(c.add_spec(d)));
    assert(b.add_spec(c) == c.add_spec(b));
    assert(c.add_spec(b).add_spec(d) == c.add_spec(b.add_spec(d)));
    assert(a.add_spec(c).add_spec(b.add_spec(d)) == a.add_spec(c.add_spec(b.add_spec(d))));
}

/// The sum of two series is the series of the sums.
proof fn lemma_series_add<T: Numeric<T>>(f: spec_fn(int) -> T, g: spec_fn(int) -> T, n: nat)
    requires
        n >= 1,
        add_commutes::<T>(),
        add_associates::<T>(),
    ensures
        series(f, n).add_spec(series(g, n)) == series(add_terms(f, g), n),
    decreases n,
{
    if n > 1 {
        lemma_series_add(f, g, (n - 1) as nat);
        lemma_rearrange(series(f, (n - 1) as nat), f(n - 1), series(g, (n - 1) as nat), g(n - 1));
    }
}

/// `x * (f(0) + ... + f(n - 1))` equals `x * f(0) + ... + x * f(n - 1)`.
proof fn lemma_series_mul_left<T: Numeric<T>>(x: T, f: spec_fn(int) -> T, n: nat)
    requires
        n >= 1,
        mul_distributes::<T>(),
    ensures
        x.mul_spec(series(f, n)) == series(scale_terms(x, f), n),
    decreases n,
{
    if n > 1 {
        lemma_series_mul_left(x, f, (n - 1) as nat);
        assert(x.mul_spec(series(f, (n - 1) as nat).add_spec(f(n - 1))) == x.mul_spec(
            series(f, (n - 1) as nat),
        ).add_spec(x.mul_spec(f(n - 1))));
    }
}

/// `(f(0) + ... + f(n - 1)) * y` equals `f(0) * y + ... + f(n - 1) * y`.
proof fn lemma_series_mul_right<T: Numeric<T>>(f: spec_fn(int) -> T, y: T, n: nat)
    requires
        n >= 1,
        mul_distributes::<T>(),
    ensures
        series(f, n).mul_spec(y) == series(terms_scaled(f, y), n),
    decreases n,
{
    if n > 1 {
        lemma_series_mul_right(f, y, (n - 1) as nat);
        assert(series(f, (n - 1) as nat).add_spec(f(n - 1)).mul_spec(y) == series(
            f,
            (n - 1) as nat,
        ).mul_spec(y).add_spec(f(n - 1).mul_spec(y)));
    }
}

/// A double series may be summed by rows or by columns.
proof fn lemma_series_swap<T: Numeric<T>>(f: spec_fn(int, int) -> T, m: nat, n: nat)
    requires
        m >= 1,
        n >= 1,
        add_commutes::<T>(),
        add_associates::<T>(),
    ensures
        series(row_sums(f, n), m) == series(col_sums(f, m), n),
    decreases m,
{
    if m == 1 {
        lemma_series_ext(row_terms(f, 0), col_sums(f, 1), n);
    } else {
        lemma_series_swap(f, (m - 1) as nat, n);
        lemma_series_add(col_sums(f, (m - 1) as nat), row_terms(f, m - 1), n);
        lemma_series_ext(add_terms(col_sums(f, (m - 1) as nat), row_terms(f, m - 1)), col_sums(f, m), n);
    }
}

/// The terms of cell `(i, l)` of `(A * B) * C`, before regrouping:
/// `(j, k) -> (a[i][k] * b[k][j]) * c[j][l]`.
spec fn triple_terms<T: Numeric<T>>(
    a: Seq<Seq<T>>,
    b: Seq<Seq<T>>,
    c: Seq<Seq<T>>,
    i: int,
    l: int,
) -> spec_fn(int, int) -> T {
    |j: int, k: int| a[i][k].mul_spec(b[k][j]).mul_spec(c[j][l])
}

/// Matrix multiplication is associative where the shared dimensions are
/// positive.
proof fn lemma_product_associative_nonempty<T: Numeric<T>>(
    a: Seq<Seq<T>>,
    b: Seq<Seq<T>>,
    c: Seq<Seq<T>>,
    rows: nat,
    inner: nat,
    mid: nat,
    cols: nat,
)
    requires
        ring_laws::<T>(),
        inner >= 1,
        mid >= 1,
        has_shape(a, rows, inner),
        has_shape(b, inner, mid),
        has_shape(c, mid, cols),
    ensures
        product(product(a, b, mid), c, cols) == product(a, product(b, c, cols), cols),
{
    let ab = product(a, b, mid);
    let bc = product(b, c, cols);
    assert forall|i: int, l: int| 0 <= i < rows && 0 <= l < cols implies #[trigger] product(
        ab,
        c,
        cols,
    )[i][l] == product(a, bc, cols)[i][l] by {
        let f = triple_terms(a, b, c, i, l);
        let lhs_terms = |j: int| ab[i][j].mul_spec(c[j][l]);
        let rhs_terms = |k: int| a[i][k].mul_spec(bc[k][l]);
        assert forall|j: int| 0 <= j < mid implies #[trigger] lhs_terms(j) == row_sums(f, inner)(j) by {
            let ak = |k: int| a[i][k].mul_spec(b[k][j]);
            lemma_series_mul_right(ak, c[j][l], inner);
            lemma_series_ext(terms_scaled(ak, c[j][l]), row_terms(f, j), inner);
        }
        lemma_series_ext(lhs_terms, row_sums(f, inner), mid);
        lemma_series_swap(f, mid, inner);
        assert forall|k: int| 0 <= k < inner implies #[trigger] col_sums(f, mid)(k) == rhs_terms(k) by {
            let bj = |j: int| b[k][j].mul_spec(c[j][l]);
            lemma_series_mul_left(a[i][k], bj, mid);
            lemma_series_ext(col_terms(f, k), scale_terms(a[i][k], bj), mid);
        }
        lemma_series_ext(col_sums(f, mid), rhs_terms, inner);
    }
    assert(product(ab, c, cols) =~~= product(a, bc, cols));
}

/// Under the zero laws there is only one zero.
proof fn lemma_zero_unique<T: Numeric<T>>(z1: T, z2: T)
    requires
        zero_laws::<T>(),
        is_zero(z1),
        is_zero(z2),
    ensures
        z1 == z2,
{
    assert(z1.add_spec(z2) == z1);
    assert(z1.add_spec(z2) == z2);
}

/// Two zero matrices of one shape are equal.
proof fn lemma_all_zero_equal<T: Numeric<T>>(r1: Seq<Seq<T>>, r2: Seq<Seq<T>>, rows: nat, cols: nat)
    requires
        zero_laws::<T>(),
        has_shape(r1, rows, cols),
        has_shape(r2, rows, cols),
        all_zero(r1),
        all_zero(r2),
    ensures
        r1 == r2,
{
    assert forall|i: int, j: int| 0 <= i < rows && 0 <= j < cols implies #[trigger] r1[i][j]
        == r2[i][j] by {
        lemma_zero_unique(r1[i][j], r2[i][j]);
    }
    assert(r1 =~~= r2);
}

/// A series of zeros is a zero.
proof fn lemma_series_zero<T: Numeric<T>>(f: spec_fn(int) -> T, n: nat)
    requires
        n >= 1,
        zero_laws::<T>(),
        forall|k: int| 0 <= k < n ==> is_zero(#[trigger] f(k)),
    ensures
        is_zero(series(f, n)),
    decreases n,
{
    if n > 1 {
        lemma_series_zero(f, (n - 1) as nat);
        assert(series(f, (n - 1) as nat).add_spec(f(n - 1)) == series(f, (n - 1) as nat));
    }
}

/// A series whose terms are zeros but for term `j` equals term `j`; its
/// partial sums up to `j` are zeros.
proof fn lemma_series_single<T: Numeric<T>>(f: spec_fn(int) -> T, n: nat, j: int)
    requires
        n >= 1,
        0 <= j,
        zero_laws::<T>(),
        forall|k: int| 0 <= k < n && k != j ==> is_zero(#[trigger] f(k)),
    ensures
        n <= j ==> is_zero(series(f, n)),
        n > j ==> series(f, n) == f(j),
    decreases n,
{
    if n > 1 {
        let m = (n - 1) as nat;
        lemma_series_single(f, m, j);
        if m < j {
            assert(series(f, m).add_spec(f(m as int)) == series(f, m));
        } else if m == j {
            assert(series(f, m).add_spec(f(j)) == f(j));
        } else {
            assert(series(f, m).add_spec(f(m as int)) == series(f, m));
        }
    }
}

/// Matrix multiplication is associative: `(A * B) * C` equals `A * (B * C)`
/// for `A` of shape `rows x inner`, `B` of shape `inner x mid` and `C` of
/// shape `mid x cols`, where `ab`, `ab_c`, `bc` and `a_bc` are what the four
/// multiplications yield. This holds for empty shared dimensions too.
pub proof fn lemma_product_associative<T: Numeric<T>>(
    a: Seq<Seq<T>>,
    b: Seq<Seq<T>>,
    c: Seq<Seq<T>>,
    ab: Seq<Seq<T>>,
    ab_c: Seq<Seq<T>>,
    bc: Seq<Seq<T>>,
    a_bc: Seq<Seq<T>>,
    rows: nat,
    inner: nat,
    mid: nat,
    cols: nat,
)
    requires
        ring_laws::<T>(),
        has_shape(a, rows, inner),
        has_shape(b, inner, mid),
        has_shape(c, mid, cols),
        is_product(ab, a, b, mid),
        is_product(ab_c, ab, c, cols),
        is_product(bc, b, c, cols),
        is_product(a_bc, a, bc, cols),
    ensures
        ab_c == a_bc,
{
    if inner >= 1 && mid >= 1 {
        lemma_product_associative_nonempty(a, b, c, rows, inner, mid, cols);
    } else if mid == 0 {
        if inner >= 1 {
            assert forall|i: int, l: int| 0 <= i < rows && 0 <= l < cols implies is_zero(
                #[trigger] a_bc[i][l],
            ) by {
                let terms = |k: int| a[i][k].mul_spec(bc[k][l]);
                assert forall|k: int| 0 <= k < inner implies is_zero(#[trigger] terms(k)) by {
                    assert(is_zero(bc[k][l]));
                    assert(a[i][k].mul_spec(bc[k][l]) == bc[k][l]);
                }
                lemma_series_zero(terms, inner);
            }
        }
        lemma_all_zero_equal(ab_c, a_bc, rows, cols);
    } else {
        assert forall|i: int, l: int| 0 <= i < rows && 0 <= l < cols implies is_zero(
            #[trigger] ab_c[i][l],
        ) by {
            let terms = |j: int| ab[i][j].mul_spec(c[j][l]);
            assert forall|j: int| 0 <= j < mid implies is_zero(#[trigger] terms(j)) by {
                assert(is_zero(ab[i][j]));
                assert(ab[i][j].mul_spec(c[j][l]) == ab[i][j]);
            }
            lemma_series_zero(terms, mid);
        }
        lemma_all_zero_equal(ab_c, a_bc, rows, cols);
    }
}

/// The identity is neutral for multiplication: for a square `A` and the
/// identity `I` of its size, `A * I` and `I * A` both equal `A`, where
/// `a_id` and `id_a` are what the two multiplications yield.
pub proof fn lemma_product_identity<T: Numeric<T> + From<bool>>(
    a: Seq<Seq<T>>,
    id: Seq<Seq<T>>,
    a_id: Seq<Seq<T>>,
    id_a: Seq<Seq<T>>,
    n: nat,
)
    requires
        zero_laws::<T>(),
        unit_laws::<T>(),
        has_shape(a, n, n),
        is_identity(id, n),
        is_product(a_id, a, id, n),
        is_product(id_a, id, a, n),
    ensures
        a_id == a,
        id_a == a,
{
    if n >= 1 {
        assert forall|i: int, j: int| 0 <= i < n && 0 <= j < n implies #[trigger] a_id[i][j]
            == a[i][j] && id_a[i][j] == a[i][j] by {
            let right = |k: int| a[i][k].mul_spec(id[k][j]);
            assert forall|k: int| 0 <= k < n && k != j implies is_zero(#[trigger] right(k)) by {
                assert(is_zero(id[k][j]));
                assert(a[i][k].mul_spec(id[k][j]) == id[k][j]);
            }
            assert(is_unit(id[j][j]));
            lemma_series_single(right, n, j);
            let left = |k: int| id[i][k].mul_spec(a[k][j]);
            assert forall|k: int| 0 <= k < n && k != i implies is_zero(#[trigger] left(k)) by {
                assert(is_zero(id[i][k]));
                assert(id[i][k].mul_spec(a[k][j]) == id[i][k]);
            }
            assert(is_unit(id[i][i]));
            lemma_series_single(left, n, i);
        }
    }
    assert(a_id =~~= a);
    assert(id_a =~~= a);
}

/// Storage does not matter for multiplication: what it yields depends on the
/// cells of the operands alone, whichever of them are held inline or on the
/// heap. Two results of multiplying operands with the same cells are equal
/// (where the shared dimension is empty, both are the zero matrix).
pub proof fn lemma_product_determined<T: Numeric<T>>(
    a: Seq<Seq<T>>,
    b: Seq<Seq<T>>,
    r1: Seq<Seq<T>>,
    r2: Seq<Seq<T>>,
    rows: nat,
    inner: nat,
    cols: nat,
)
    requires
        inner == 0 ==> zero_laws::<T>(),
        has_shape(a, rows, inner),
        has_shape(b, inner, cols),
        is_product(r1, a, b, cols),
        is_product(r2, a, b, cols),
    ensures
        r1 == r2,
{
    if inner == 0 {
        lemma_all_zero_equal(r1, r2, rows, cols);
    }
}

/// The ring laws, additive inverses and unit laws hold for `i32`, whose
/// arithmetic vstd
/// specifies as arithmetic modulo 2^32 (a result that does not fit wraps
/// around): the laws of this module apply to matrices of `i32`.
pub proof fn lemma_i32_ring_laws()
    ensures
        ring_laws::<i32>(),
        has_additive_inverses::<i32>(),
        unit_laws::<i32>(),
{
    assert forall|u: i32, x: i32| is_unit(u) implies #[trigger] x.mul_spec(u) == x by {
        assert(u == 1);
    }
    assert forall|u: i32, x: i32| is_unit(u) implies #[trigger] u.mul_spec(x) == x by {
        assert(u == 1);
    }
    assert forall|x: i32, y: i32| #[trigger] x.add_spec(y) == y.add_spec(x) by {}
    assert forall|x: i32, y: i32, z: i32| #[trigger]
        x.add_spec(y).add_spec(z) == x.add_spec(y.add_spec(z)) by {
        assert(((x + y) as i32 + z) as i32 == (x + (y + z) as i32) as i32) by (bit_vector);
    }
    assert forall|x: i32, y: i32, z: i32| #[trigger]
        x.mul_spec(y).mul_spec(z) == x.mul_spec(y.mul_spec(z)) by {
        assert(((x * y) as i32 * z) as i32 == (x * (y * z) as i32) as i32) by (bit_vector);
    }
    assert forall|x: i32, y: i32, z: i32| #[trigger]
        x.mul_spec(y.add_spec(z)) == x.mul_spec(y).add_spec(x.mul_spec(z)) by {
        assert((x * (y + z) as i32) as i32 == ((x * y) as i32 + (x * z) as i32) as i32)
            by (bit_vector);
    }
    assert forall|x: i32, y: i32, z: i32| #[trigger]
        x.add_spec(y).mul_spec(z) == x.mul_spec(z).add_spec(y.mul_spec(z)) by {
        assert(((x + y) as i32 * z) as i32 == ((x * z) as i32 + (y * z) as i32) as i32)
            by (bit_vector);
    }
    assert forall|z: i32, x: i32| is_zero(z) implies #[trigger] x.add_spec(z) == x by {
        assert(z == 0);
    }
    assert forall|z: i32, x: i32| is_zero(z) implies #[trigger] z.add_spec(x) == x by {
        assert(z == 0);
    }
    assert forall|z: i32, x: i32| is_zero(z) implies #[trigger] x.mul_spec(z) == z by {
        assert(z == 0);
    }
    assert forall|z: i32, x: i32| is_zero(z) implies #[trigger] z.mul_spec(x) == z by {
        assert(z == 0);
    }
    assert forall|z: i32, x: i32|
        #![trigger is_zero(z), x.add_spec(x.neg_spec())]
        is_zero(z) implies x.add_spec(x.neg_spec()) == z by {
        assert(z == 0);
        assert((x + (-x) as i32) as i32 == 0) by (bit_vector);
    }
}

} // verus!
