use const_matrix::matrix::HMatrix;
use const_matrix::matrix::SMatrix;
use const_matrix::matrix::MF;

#[test]
fn test_create() {
    let a = MF::<f32, 4, 4>::new_stack();
    let b = MF::<f64, 1500, 1500>::new_heap();
    assert_eq!(a[3][3], 0.0);
    assert_eq!(b[1499][1499], 0.0);
    assert_eq!(b[0][0], 0.0);
}

#[test]
fn test_create_stack_from_literal() {
    let a = SMatrix::new([[1, 2, 3], [4, 5, 6]]);
    let b = SMatrix::new([[7, 8], [9, 10], [11, 12]]);
    let c = a * b;
    println!("C (stack matrix): {:?}", c);
    assert_eq!(c[0], [58, 64]);
    assert_eq!(c[1], [139, 154]);
}

#[test]
fn test_create_heap_from_literal() {
    let a = HMatrix::new([[1, 2, 3], [4, 5, 6]]);
    let b = HMatrix::new([[7, 8], [9, 10], [11, 12]]);
    let c = a * b;
    println!("C (heap matrix): {:?}", c);
    assert_eq!(c[0], [58, 64]);
    assert_eq!(c[1], [139, 154]);
}

#[test]
fn test_unit() {
    let a = MF::<f32, 2, 2>::unit_stack();
    let b = MF::<f64, 2, 2>::unit_heap();
    assert_eq!(a[0][0], 1.0);
    assert_eq!(a[1][1], 1.0);
    assert_eq!(a[0][1], 0.0);
    assert_eq!(a[1][0], 0.0);
    assert_eq!(b[0][0], 1.0);
    assert_eq!(b[1][1], 1.0);
    assert_eq!(b[0][1], 0.0);
    assert_eq!(b[1][0], 0.0);
    let a = MF::<i8, 2, 2>::unit_stack();
    let b = MF::<i8, 2, 2>::unit_heap();
    assert_eq!(a[0][0], 1);
    assert_eq!(a[1][1], 1);
    assert_eq!(a[0][1], 0);
    assert_eq!(a[1][0], 0);
    assert_eq!(b[0][0], 1);
    assert_eq!(b[1][1], 1);
    assert_eq!(b[0][1], 0);
    assert_eq!(b[1][0], 0);
    let a = MF::<i128, 2, 2>::unit_stack();
    let b = MF::<i128, 2, 2>::unit_heap();
    assert_eq!(a[0][0], 1);
    assert_eq!(a[1][1], 1);
    assert_eq!(a[0][1], 0);
    assert_eq!(a[1][0], 0);
    assert_eq!(b[0][0], 1);
    assert_eq!(b[1][1], 1);
    assert_eq!(b[0][1], 0);
    assert_eq!(b[1][0], 0);
}

#[test]
fn test_diag() {
    let a = MF::<f32, 2, 2>::diag_stack(5.0);
    let b = MF::<f64, 2, 2>::diag_heap(3.0);
    assert_eq!(a[0][0], 5.0);
    assert_eq!(a[1][1], 5.0);
    assert_eq!(a[0][1], 0.0);
    assert_eq!(a[1][0], 0.0);
    assert_eq!(b[0][0], 3.0);
    assert_eq!(b[1][1], 3.0);
    assert_eq!(b[0][1], 0.0);
    assert_eq!(b[1][0], 0.0);
    let a = MF::<i8, 2, 2>::diag_stack(8);
    let b = MF::<i8, 2, 2>::diag_heap(2);
    assert_eq!(a[0][0], 8);
    assert_eq!(a[1][1], 8);
    assert_eq!(a[0][1], 0);
    assert_eq!(a[1][0], 0);
    assert_eq!(b[0][0], 2);
    assert_eq!(b[1][1], 2);
    assert_eq!(b[0][1], 0);
    assert_eq!(b[1][0], 0);
}

#[test]
fn test_transpose_stack() {
    let mut a = MF::<f64, 2, 3>::new_stack();
    a.set(0, 0, 1.0);
    a.set(0, 1, 2.0);
    a.set(0, 2, 3.0);
    a.set(1, 0, 4.0);
    a.set(1, 1, 5.0);
    a.set(1, 2, 6.0);
    let b = a.trans();
    assert_eq!(b[0][0], 1.0);
    assert_eq!(b[1][0], 2.0);
    assert_eq!(b[2][0], 3.0);
    assert_eq!(b[0][1], 4.0);
    assert_eq!(b[1][1], 5.0);
    assert_eq!(b[2][1], 6.0);
    println!("TRANS stack: {:?}", b);
}

#[test]
fn test_transpose_heap() {
    let mut a = MF::<f64, 2, 3>::new_heap();
    a.set(0, 0, 1.0);
    a.set(0, 1, 2.0);
    a.set(0, 2, 3.0);
    a.set(1, 0, 4.0);
    a.set(1, 1, 5.0);
    a.set(1, 2, 6.0);
    let b = a.trans();
    assert_eq!(b[0][0], 1.0);
    assert_eq!(b[1][0], 2.0);
    assert_eq!(b[2][0], 3.0);
    assert_eq!(b[0][1], 4.0);
    assert_eq!(b[1][1], 5.0);
    assert_eq!(b[2][1], 6.0);
    println!("TRANS heap: {:?}", b);
}

#[test]
fn test_matrix_of_matrices() {
    let a = MF::<f32, 2, 2>::unit_stack();
    let b = a.clone();
    let c = a.clone();
    let d = a.clone();
    let mut matrix_of_matrices = MF::<SMatrix<f32, 2, 2>, 2, 2>::new_stack();
    matrix_of_matrices.set(0, 0, a);
    matrix_of_matrices.set(0, 1, b);
    matrix_of_matrices.set(1, 0, c);
    matrix_of_matrices.set(1, 1, d);
    let mut another_m_of_m = matrix_of_matrices.trans();
    let scalar = MF::<f32, 2, 2>::diag_stack(2.0);
    another_m_of_m.mul_assign_scalar(scalar);
    let res = matrix_of_matrices * another_m_of_m;
    println!("THIS IS THE CLIMAX!: {:?}", res);
    // every block is I * (2 I) + I * (2 I) = 4 I
    for i in 0..2 {
        for j in 0..2 {
            assert_eq!(res[i][j][0], [4.0, 0.0]);
            assert_eq!(res[i][j][1], [0.0, 4.0]);
        }
    }
}

#[test]
fn lib_test_1() {
    let mut a = MF::<f32, 2, 2>::new_stack();
    let mut b = MF::<f32, 2, 2>::new_heap();
    a.set(0, 0, 1.0f32);
    b.set(0, 0, 1.0);
    a.set(1, 1, 1.0f32);
    b.set(1, 1, 1.0);
    let c = a.clone() * b.clone();
    let d = b * a;
    println!("c[0][0]: {}", c[0][0]);
    println!("c[0][1]: {}", c[0][1]);
    println!("c[1][0]: {}", c[1][0]);
    println!("c[1][1]: {}", c[1][1]);
    println!("d[0][0]: {}", d[0][0]);
    println!("d[0][1]: {}", d[0][1]);
    println!("d[1][0]: {}", d[1][0]);
    println!("d[1][1]: {}", d[1][1]);
    assert_eq!(c[0], [1.0, 0.0]);
    assert_eq!(c[1], [0.0, 1.0]);
    assert_eq!(d[0], [1.0, 0.0]);
    assert_eq!(d[1], [0.0, 1.0]);
}

#[test]
fn lib_test_2() {
    let mut a = MF::<f32, 2, 2>::new_stack();
    let mut b = MF::<f32, 2, 2>::new_heap();
    a.set(0, 0, 1.0);
    a.set(0, 1, 2.0);
    a.set(1, 0, 3.0);
    a.set(1, 1, 4.0);
    b.set(0, 0, 5.0);
    b.set(0, 1, 6.0);
    b.set(1, 0, 7.0);
    b.set(1, 1, 8.0);
    let c = a.clone() * b.clone();
    let d = b * a;
    println!("c[0][0]: {}", c[0][0]);
    println!("c[0][1]: {}", c[0][1]);
    println!("c[1][0]: {}", c[1][0]);
    println!("c[1][1]: {}", c[1][1]);
    println!("d[0][0]: {}", d[0][0]);
    println!("d[0][1]: {}", d[0][1]);
    println!("d[1][0]: {}", d[1][0]);
    println!("d[1][1]: {}", d[1][1]);
    assert_eq!(c[0], [19.0, 22.0]);
    assert_eq!(c[1], [43.0, 50.0]);
    assert_eq!(d[0], [23.0, 34.0]);
    assert_eq!(d[1], [31.0, 46.0]);
}
