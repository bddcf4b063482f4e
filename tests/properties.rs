use const_matrix::matrix::HMatrix;
use const_matrix::matrix::SMatrix;
use const_matrix::matrix::MF;

#[test]
fn sum_is_commutative_and_associative() {
    let a = SMatrix::new([[1, 2, 3], [4, 5, 6]]);
    let b = HMatrix::new([[7, -8, 9], [10, 11, -12]]);
    let c = SMatrix::new([[-13, 14, 15], [16, 17, 18]]);
    let ab = a + &b;
    let ba = &b + a;
    for i in 0..2 {
        assert_eq!(ab[i], ba[i]);
    }
    assert_eq!(ab[0], [8, -6, 12]);
    assert_eq!(ab[1], [14, 16, -6]);
    let ab_c = ab + c;
    let bc = &b + c;
    let a_bc = a + bc;
    for i in 0..2 {
        assert_eq!(ab_c[i], a_bc[i]);
    }
    assert_eq!(ab_c[0], [-5, 8, 27]);
}

#[test]
fn sum_with_negation_is_zero() {
    let a = HMatrix::new([[1i64, -2], [3, 40], [-5, 6]]);
    let z = &a + -&a;
    for i in 0..3 {
        assert_eq!(z[i], [0, 0]);
    }
    let s = a.to_stack();
    let z = s + -s;
    for i in 0..3 {
        assert_eq!(z[i], [0, 0]);
    }
}

#[test]
fn difference_cell_by_cell() {
    let a = SMatrix::new([[10, 20], [30, 40]]);
    let b = HMatrix::new([[1, 2], [3, 4]]);
    let d = a - &b;
    assert_eq!(d[0], [9, 18]);
    assert_eq!(d[1], [27, 36]);
    let e = &b - a;
    assert_eq!(e[0], [-9, -18]);
    assert_eq!(e[1], [-27, -36]);
}

#[test]
fn product_is_associative() {
    let a = SMatrix::new([[1, 2, 3], [4, 5, 6]]);
    let b = HMatrix::new([[1, -1], [2, 0], [0, 3]]);
    let c = SMatrix::new([[2, 1, 0, -1], [1, 1, 1, 1]]);
    let ab_c = (a * &b) * c;
    let a_bc = a * (&b * c);
    for i in 0..2 {
        assert_eq!(ab_c[i], a_bc[i]);
    }
    // a * b = [[5, 8], [14, 14]]
    assert_eq!(ab_c[0], [18, 13, 8, 3]);
    assert_eq!(ab_c[1], [42, 28, 14, 0]);
}

#[test]
fn identity_is_neutral() {
    let a = SMatrix::new([[1, 2, 3], [4, 5, 6], [7, 8, 9]]);
    let id = MF::<i32, 3, 3>::unit_heap();
    let r1 = a * &id;
    let r2 = &id * a;
    for i in 0..3 {
        assert_eq!(r1[i], a[i]);
        assert_eq!(r2[i], a[i]);
    }
}

#[test]
fn transpose_is_involutive() {
    let a = SMatrix::new([[1, 2, 3], [4, 5, 6]]);
    let t = a.trans();
    assert_eq!(t[0], [1, 4]);
    let tt = t.trans();
    for i in 0..2 {
        assert_eq!(tt[i], a[i]);
    }
    let h = a.to_heap().trans().trans();
    for i in 0..2 {
        assert_eq!(h[i], a[i]);
    }
}

#[test]
fn storage_does_not_change_results() {
    let s1 = SMatrix::new([[1, 2], [3, 4]]);
    let s2 = SMatrix::new([[5, 6], [7, 8]]);
    let h1 = s1.to_heap();
    let h2 = s2.to_heap();
    let sums = [s1 + s2, (&h1 + &h2).to_stack(), s1 + &h2, (&h1 + s2).to_stack()];
    let products = [s1 * s2, (&h1 * &h2).to_stack(), s1 * &h2, (&h1 * s2).to_stack()];
    for k in 0..4 {
        for i in 0..2 {
            assert_eq!(sums[k][i], sums[0][i]);
            assert_eq!(products[k][i], products[0][i]);
        }
    }
    let n1 = -s1;
    let n2 = -&h1;
    let m1 = 3i32 * s1;
    let m2 = 3i32 * &h1;
    let t1 = s1.trans();
    let t2 = h1.trans();
    for i in 0..2 {
        assert_eq!(n1[i], n2[i]);
        assert_eq!(m1[i], m2[i]);
        assert_eq!(t1[i], t2[i]);
    }
    let p = s1.mul_ref_to_heap(&s2);
    let q = h1.mul_heapref_to_stack(&h2);
    for i in 0..2 {
        assert_eq!(p[i], products[0][i]);
        assert_eq!(q[i], products[0][i]);
    }
}

#[test]
fn identity_times_matrix() {
    let id = MF::<i32, 2, 2>::unit_stack();
    assert_eq!(id[0], [1, 0]);
    assert_eq!(id[1], [0, 1]);
    let m = SMatrix::new([[1, 2], [3, 4]]);
    let r = id * m;
    assert_eq!(r[0], [1, 2]);
    assert_eq!(r[1], [3, 4]);
}

#[test]
fn products_do_not_commute() {
    let a = SMatrix::new([[1, 2], [3, 4]]);
    let b = HMatrix::new([[5, 6], [7, 8]]);
    let ab = a * &b;
    let ba = &b * a;
    assert_eq!(ab[0], [19, 22]);
    assert_eq!(ab[1], [43, 50]);
    assert_eq!(ba[0], [23, 34]);
    assert_eq!(ba[1], [31, 46]);
}

#[test]
fn diagonal_of_five() {
    let d = MF::<f64, 2, 2>::diag_stack(5.0);
    assert_eq!(d[0], [5.0, 0.0]);
    assert_eq!(d[1], [0.0, 5.0]);
    let d = MF::<i64, 2, 2>::diag_heap(5);
    assert_eq!(d[0], [5, 0]);
    assert_eq!(d[1], [0, 5]);
}

#[test]
fn transpose_of_two_by_three() {
    let a = HMatrix::new([[1, 2, 3], [4, 5, 6]]);
    let t = a.trans();
    assert_eq!(t[0], [1, 4]);
    assert_eq!(t[1], [2, 5]);
    assert_eq!(t[2], [3, 6]);
}

#[test]
fn scalar_times_matrix() {
    let mut a = SMatrix::new([[2.0, 0.0], [0.0, 4.0]]);
    a.mul_assign_scalar(2.0);
    assert_eq!(a[0], [4.0, 0.0]);
    assert_eq!(a[1], [0.0, 8.0]);
    let b = 2i32 * HMatrix::new([[2, 0], [0, 4]]);
    assert_eq!(b[0], [4, 0]);
    assert_eq!(b[1], [0, 8]);
}

#[test]
fn add_assign_of_itself_doubles() {
    let mut a = SMatrix::new([[1, 2], [3, 4]]);
    let same = a;
    a.add_assign(&same);
    assert_eq!(a[0], [2, 4]);
    assert_eq!(a[1], [6, 8]);
    let mut h = HMatrix::new([[1.5, -2.0], [3.0, 0.25]]);
    let copy = h.clone();
    h.add_assign(&copy);
    assert_eq!(h[0], [3.0, -4.0]);
    assert_eq!(h[1], [6.0, 0.5]);
}

#[test]
fn compound_assignments_use_old_values() {
    let mut a = SMatrix::new([[1, 2], [3, 4]]);
    let b = HMatrix::new([[0, 1], [1, 0]]);
    a.mul_assign(&b);
    assert_eq!(a[0], [2, 1]);
    assert_eq!(a[1], [4, 3]);
    let mut h = b.clone();
    let copy = b.clone();
    h.mul_assign(&copy);
    assert_eq!(h[0], [1, 0]);
    assert_eq!(h[1], [0, 1]);
    a.sub_assign(&b);
    assert_eq!(a[0], [2, 0]);
    assert_eq!(a[1], [3, 3]);
}

#[test]
fn empty_shared_dimension_gives_zeros() {
    let a = MF::<i32, 2, 0>::new_stack();
    let b = MF::<i32, 0, 3>::new_heap();
    let c = a * &b;
    assert_eq!(c[0], [0, 0, 0]);
    assert_eq!(c[1], [0, 0, 0]);
    let e = MF::<i32, 0, 0>::new_stack();
    let f = e + e;
    let _ = f.trans();
}

#[test]
fn conversions_copy_cells() {
    let s = SMatrix::new([[1i16, 2], [3, 4]]);
    let mut h = s.to_heap();
    h.set(0, 0, 9);
    assert_eq!(s[0], [1, 2]);
    assert_eq!(h[0], [9, 2]);
    let back = h.to_stack();
    h.set(1, 1, 7);
    assert_eq!(back[1], [3, 4]);
    let d: HMatrix<i16, 2, 3> = Default::default();
    assert_eq!(d[1], [0, 0, 0]);
}
