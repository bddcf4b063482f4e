use const_matrix::matrix::MF;

#[test]
fn scalar_mul_i8_test_1() {
    let mut a = MF::<i8, 2, 2>::new_stack();
    a.set(0, 0, 2i8);
    a.set(1, 1, 4i8);
    let b = 2i8 * a;
    println!("{:?}", b);
    assert_eq!(b[0], [4, 0]);
    assert_eq!(b[1], [0, 8]);
    let mut a = MF::<i8, 2, 2>::new_heap();
    a.set(0, 0, 2i8);
    a.set(1, 1, 4i8);
    let b = 2i8 * a;
    println!("{:?}", b);
    assert_eq!(b[0], [4, 0]);
    assert_eq!(b[1], [0, 8]);
}

#[test]
fn scalar_mul_i8_test_2() {
    let a = &mut MF::<i8, 2, 2>::new_stack();
    a.set(0, 0, 2i8);
    a.set(1, 1, 4i8);
    let b = 2i8 * a;
    println!("{:?}", b);
    assert_eq!(b[0], [4, 0]);
    assert_eq!(b[1], [0, 8]);
    let a = &mut MF::<i8, 2, 2>::new_heap();
    a.set(0, 0, 2i8);
    a.set(1, 1, 4i8);
    let b = 2i8 * a;
    println!("{:?}", b);
    assert_eq!(b[0], [4, 0]);
    assert_eq!(b[1], [0, 8]);
}

#[test]
fn scalar_mul_i8_test_3() {
    let mut a = MF::<i8, 2, 2>::new_stack();
    a.set(0, 0, 2i8);
    a.set(1, 1, 4i8);
    let b = &a;
    let c = 2i8 * b;
    println!("{:?}", c);
    assert_eq!(c[0], [4, 0]);
    assert_eq!(c[1], [0, 8]);
    let mut a = MF::<i8, 2, 2>::new_heap();
    a.set(0, 0, 2i8);
    a.set(1, 1, 4i8);
    let b = &a;
    let c = 2i8 * b;
    println!("{:?}", c);
    assert_eq!(c[0], [4, 0]);
    assert_eq!(c[1], [0, 8]);
}

#[test]
fn scalar_mul_i16_test_1() {
    let mut a = MF::<i16, 2, 2>::new_stack();
    a.set(0, 0, 2i16);
    a.set(1, 1, 4i16);
    let b = 2i16 * a;
    println!("{:?}", b);
    assert_eq!(b[0], [4, 0]);
    assert_eq!(b[1], [0, 8]);
    let mut a = MF::<i16, 2, 2>::new_heap();
    a.set(0, 0, 2i16);
    a.set(1, 1, 4i16);
    let b = 2i16 * a;
    println!("{:?}", b);
    assert_eq!(b[0], [4, 0]);
    assert_eq!(b[1], [0, 8]);
}

#[test]
fn scalar_mul_i16_test_2() {
    let a = &mut MF::<i16, 2, 2>::new_stack();
    a.set(0, 0, 2i16);
    a.set(1, 1, 4i16);
    let b = 2i16 * a;
    println!("{:?}", b);
    assert_eq!(b[0], [4, 0]);
    assert_eq!(b[1], [0, 8]);
    let a = &mut MF::<i16, 2, 2>::new_heap();
    a.set(0, 0, 2i16);
    a.set(1, 1, 4i16);
    let b = 2i16 * a;
    println!("{:?}", b);
    assert_eq!(b[0], [4, 0]);
    assert_eq!(b[1], [0, 8]);
}

#[test]
fn scalar_mul_i16_test_3() {
    let mut a = MF::<i16, 2, 2>::new_stack();
    a.set(0, 0, 2i16);
    a.set(1, 1, 4i16);
    let b = &a;
    let c = 2i16 * b;
    println!("{:?}", c);
    assert_eq!(c[0], [4, 0]);
    assert_eq!(c[1], [0, 8]);
    let mut a = MF::<i16, 2, 2>::new_heap();
    a.set(0, 0, 2i16);
    a.set(1, 1, 4i16);
    let b = &a;
    let c = 2i16 * b;
    println!("{:?}", c);
    assert_eq!(c[0], [4, 0]);
    assert_eq!(c[1], [0, 8]);
}

#[test]
fn scalar_mul_i32_test_1() {
    let mut a = MF::<i32, 2, 2>::new_stack();
    a.set(0, 0, 2i32);
    a.set(1, 1, 4i32);
    let b = 2i32 * a;
    println!("{:?}", b);
    assert_eq!(b[0], [4, 0]);
    assert_eq!(b[1], [0, 8]);
    let mut a = MF::<i32, 2, 2>::new_heap();
    a.set(0, 0, 2i32);
    a.set(1, 1, 4i32);
    let b = 2i32 * a;
    println!("{:?}", b);
    assert_eq!(b[0], [4, 0]);
    assert_eq!(b[1], [0, 8]);
}

#[test]
fn scalar_mul_i32_test_2() {
    let a = &mut MF::<i32, 2, 2>::new_stack();
    a.set(0, 0, 2i32);
    a.set(1, 1, 4i32);
    let b = 2i32 * a;
    println!("{:?}", b);
    assert_eq!(b[0], [4, 0]);
    assert_eq!(b[1], [0, 8]);
    let a = &mut MF::<i32, 2, 2>::new_heap();
    a.set(0, 0, 2i32);
    a.set(1, 1, 4i32);
    let b = 2i32 * a;
    println!("{:?}", b);
    assert_eq!(b[0], [4, 0]);
    assert_eq!(b[1], [0, 8]);
}

#[test]
fn scalar_mul_i32_test_3() {
    let mut a = MF::<i32, 2, 2>::new_stack();
    a.set(0, 0, 2i32);
    a.set(1, 1, 4i32);
    let b = &a;
    let c = 2i32 * b;
    println!("{:?}", c);
    assert_eq!(c[0], [4, 0]);
    assert_eq!(c[1], [0, 8]);
    let mut a = MF::<i32, 2, 2>::new_heap();
    a.set(0, 0, 2i32);
    a.set(1, 1, 4i32);
    let b = &a;
    let c = 2i32 * b;
    println!("{:?}", c);
    assert_eq!(c[0], [4, 0]);
    assert_eq!(c[1], [0, 8]);
}

#[test]
fn scalar_mul_i64_test_1() {
    let mut a = MF::<i64, 2, 2>::new_stack();
    a.set(0, 0, 2i64);
    a.set(1, 1, 4i64);
    let b = 2i64 * a;
    println!("{:?}", b);
    assert_eq!(b[0], [4, 0]);
    assert_eq!(b[1], [0, 8]);
    let mut a = MF::<i64, 2, 2>::new_heap();
    a.set(0, 0, 2i64);
    a.set(1, 1, 4i64);
    let b = 2i64 * a;
    println!("{:?}", b);
    assert_eq!(b[0], [4, 0]);
    assert_eq!(b[1], [0, 8]);
}

#[test]
fn scalar_mul_i64_test_2() {
    let a = &mut MF::<i64, 2, 2>::new_stack();
    a.set(0, 0, 2i64);
    a.set(1, 1, 4i64);
    let b = 2i64 * a;
    println!("{:?}", b);
    assert_eq!(b[0], [4, 0]);
    assert_eq!(b[1], [0, 8]);
    let a = &mut MF::<i64, 2, 2>::new_heap();
    a.set(0, 0, 2i64);
    a.set(1, 1, 4i64);
    let b = 2i64 * a;
    println!("{:?}", b);
    assert_eq!(b[0], [4, 0]);
    assert_eq!(b[1], [0, 8]);
}

#[test]
fn scalar_mul_i64_test_3() {
    let mut a = MF::<i64, 2, 2>::new_stack();
    a.set(0, 0, 2i64);
    a.set(1, 1, 4i64);
    let b = &a;
    let c = 2i64 * b;
    println!("{:?}", c);
    assert_eq!(c[0], [4, 0]);
    assert_eq!(c[1], [0, 8]);
    let mut a = MF::<i64, 2, 2>::new_heap();
    a.set(0, 0, 2i64);
    a.set(1, 1, 4i64);
    let b = &a;
    let c = 2i64 * b;
    println!("{:?}", c);
    assert_eq!(c[0], [4, 0]);
    assert_eq!(c[1], [0, 8]);
}

#[test]
fn scalar_mul_i128_test_1() {
    let mut a = MF::<i128, 2, 2>::new_stack();
    a.set(0, 0, 2i128);
    a.set(1, 1, 4i128);
    let b = 2i128 * a;
    println!("{:?}", b);
    assert_eq!(b[0], [4, 0]);
    assert_eq!(b[1], [0, 8]);
    let mut a = MF::<i128, 2, 2>::new_heap();
    a.set(0, 0, 2i128);
    a.set(1, 1, 4i128);
    let b = 2i128 * a;
    println!("{:?}", b);
    assert_eq!(b[0], [4, 0]);
    assert_eq!(b[1], [0, 8]);
}

#[test]
fn scalar_mul_i128_test_2() {
    let a = &mut MF::<i128, 2, 2>::new_stack();
    a.set(0, 0, 2i128);
    a.set(1, 1, 4i128);
    let b = 2i128 * a;
    println!("{:?}", b);
    assert_eq!(b[0], [4, 0]);
    assert_eq!(b[1], [0, 8]);
    let a = &mut MF::<i128, 2, 2>::new_heap();
    a.set(0, 0, 2i128);
    a.set(1, 1, 4i128);
    let b = 2i128 * a;
    println!("{:?}", b);
    assert_eq!(b[0], [4, 0]);
    assert_eq!(b[1], [0, 8]);
}

#[test]
fn scalar_mul_i128_test_3() {
    let mut a = MF::<i128, 2, 2>::new_stack();
    a.set(0, 0, 2i128);
    a.set(1, 1, 4i128);
    let b = &a;
    let c = 2i128 * b;
    println!("{:?}", c);
    assert_eq!(c[0], [4, 0]);
    assert_eq!(c[1], [0, 8]);
    let mut a = MF::<i128, 2, 2>::new_heap();
    a.set(0, 0, 2i128);
    a.set(1, 1, 4i128);
    let b = &a;
    let c = 2i128 * b;
    println!("{:?}", c);
    assert_eq!(c[0], [4, 0]);
    assert_eq!(c[1], [0, 8]);
}

#[test]
fn test_1_smatrix() {
    let mut a = MF::<f32, 2, 2>::new_stack();
    a.set(0, 0, 2.0f32);
    a.set(1, 1, 4.0f32);
    a.mul_assign_scalar(3.0f32);
    println!("SCALAR MulAssign a f32: {:?}", a);
    assert_eq!(a[0][0], 6.0f32);
    assert_eq!(a[1][1], 12.0f32);
    let mut a = MF::<f64, 2, 2>::new_stack();
    a.set(0, 0, 2.0f64);
    a.set(1, 1, 4.0f64);
    a.mul_assign_scalar(3.0f64);
    println!("SCALAR MulAssign a f64: {:?}", a);
    assert_eq!(a[0][0], 6.0f64);
    assert_eq!(a[1][1], 12.0f64);
    let mut a = MF::<i8, 2, 2>::new_stack();
    a.set(0, 0, 2i8);
    a.set(1, 1, 4i8);
    a.mul_assign_scalar(3i8);
    println!("SCALAR MulAssign a i8: {:?}", a);
    assert_eq!(a[0][0], 6i8);
    assert_eq!(a[1][1], 12i8);
    let mut a = MF::<i128, 2, 2>::new_stack();
    a.set(0, 0, 2i128);
    a.set(1, 1, 4i128);
    a.mul_assign_scalar(3i128);
    println!("SCALAR MulAssign a i128: {:?}", a);
    assert_eq!(a[0][0], 6i128);
    assert_eq!(a[1][1], 12i128);
}

#[test]
fn test_1_hmatrix() {
    let mut a = MF::<f32, 2, 2>::new_heap();
    a.set(0, 0, 2.0f32);
    a.set(1, 1, 4.0f32);
    a.mul_assign_scalar(3.0f32);
    println!("SCALAR MulAssign a f32: {:?}", a);
    assert_eq!(a[0][0], 6.0f32);
    assert_eq!(a[1][1], 12.0f32);
    let mut a = MF::<f64, 2, 2>::new_heap();
    a.set(0, 0, 2.0f64);
    a.set(1, 1, 4.0f64);
    a.mul_assign_scalar(3.0f64);
    println!("SCALAR MulAssign a f64: {:?}", a);
    assert_eq!(a[0][0], 6.0f64);
    assert_eq!(a[1][1], 12.0f64);
    let mut a = MF::<i8, 2, 2>::new_heap();
    a.set(0, 0, 2i8);
    a.set(1, 1, 4i8);
    a.mul_assign_scalar(3i8);
    println!("SCALAR MulAssign a i8: {:?}", a);
    assert_eq!(a[0][0], 6i8);
    assert_eq!(a[1][1], 12i8);
    let mut a = MF::<i128, 2, 2>::new_heap();
    a.set(0, 0, 2i128);
    a.set(1, 1, 4i128);
    a.mul_assign_scalar(3i128);
    println!("SCALAR MulAssign a i128: {:?}", a);
    assert_eq!(a[0][0], 6i128);
    assert_eq!(a[1][1], 12i128);
}

#[test]
fn test_2_smatrix() {
    let a = &mut MF::<f32, 2, 2>::new_stack();
    a.set(0, 0, 2.0f32);
    a.set(1, 1, 4.0f32);
    a.mul_assign_scalar(3.0f32);
    println!("SCALAR MulAssign a f32: {:?}", a);
    assert_eq!(a[0][0], 6.0f32);
    assert_eq!(a[1][1], 12.0f32);
    let a = &mut MF::<f64, 2, 2>::new_stack();
    a.set(0, 0, 2.0f64);
    a.set(1, 1, 4.0f64);
    a.mul_assign_scalar(3.0f64);
    println!("SCALAR MulAssign a f64: {:?}", a);
    assert_eq!(a[0][0], 6.0f64);
    assert_eq!(a[1][1], 12.0f64);
    let a = &mut MF::<i8, 2, 2>::new_stack();
    a.set(0, 0, 2i8);
    a.set(1, 1, 4i8);
    a.mul_assign_scalar(3i8);
    println!("SCALAR MulAssign a i8: {:?}", a);
    assert_eq!(a[0][0], 6i8);
    assert_eq!(a[1][1], 12i8);
    let a = &mut MF::<i128, 2, 2>::new_stack();
    a.set(0, 0, 2i128);
    a.set(1, 1, 4i128);
    a.mul_assign_scalar(3i128);
    println!("SCALAR MulAssign a i128: {:?}", a);
    assert_eq!(a[0][0], 6i128);
    assert_eq!(a[1][1], 12i128);
}

#[test]
fn test_2_hmatrix() {
    let a = &mut MF::<f32, 2, 2>::new_heap();
    a.set(0, 0, 2.0f32);
    a.set(1, 1, 4.0f32);
    a.mul_assign_scalar(3.0f32);
    println!("SCALAR MulAssign a f32: {:?}", a);
    assert_eq!(a[0][0], 6.0f32);
    assert_eq!(a[1][1], 12.0f32);
    let a = &mut MF::<f64, 2, 2>::new_heap();
    a.set(0, 0, 2.0f64);
    a.set(1, 1, 4.0f64);
    a.mul_assign_scalar(3.0f64);
    println!("SCALAR MulAssign a f64: {:?}", a);
    assert_eq!(a[0][0], 6.0f64);
    assert_eq!(a[1][1], 12.0f64);
    let a = &mut MF::<i8, 2, 2>::new_heap();
    a.set(0, 0, 2i8);
    a.set(1, 1, 4i8);
    a.mul_assign_scalar(3i8);
    println!("SCALAR MulAssign a i8: {:?}", a);
    assert_eq!(a[0][0], 6i8);
    assert_eq!(a[1][1], 12i8);
    let a = &mut MF::<i128, 2, 2>::new_heap();
    a.set(0, 0, 2i128);
    a.set(1, 1, 4i128);
    a.mul_assign_scalar(3i128);
    println!("SCALAR MulAssign a i128: {:?}", a);
    assert_eq!(a[0][0], 6i128);
    assert_eq!(a[1][1], 12i128);
}

#[test]
fn scalar_mul_f32_test_1() {
    let mut a = MF::<f32, 2, 2>::new_stack();
    a.set(0, 0, 2.0);
    a.set(1, 1, 4.0);
    let b = a.scalar_mul(2.0f32);
    println!("{:?}", b);
    assert_eq!(b[0], [4.0, 0.0]);
    assert_eq!(b[1], [0.0, 8.0]);
    let mut a = MF::<f32, 2, 2>::new_heap();
    a.set(0, 0, 2.0);
    a.set(1, 1, 4.0);
    let b = a.scalar_mul(2.0f32);
    println!("{:?}", b);
    assert_eq!(b[0], [4.0, 0.0]);
    assert_eq!(b[1], [0.0, 8.0]);
}

#[test]
fn scalar_mul_f32_test_2() {
    let a = &mut MF::<f32, 2, 2>::new_stack();
    a.set(0, 0, 2.0);
    a.set(1, 1, 4.0);
    let b = a.scalar_mul(2.0f32);
    println!("{:?}", b);
    assert_eq!(b[0], [4.0, 0.0]);
    assert_eq!(b[1], [0.0, 8.0]);
    let a = &mut MF::<f32, 2, 2>::new_heap();
    a.set(0, 0, 2.0);
    a.set(1, 1, 4.0);
    let b = a.scalar_mul(2.0f32);
    println!("{:?}", b);
    assert_eq!(b[0], [4.0, 0.0]);
    assert_eq!(b[1], [0.0, 8.0]);
}

#[test]
fn scalar_mul_f32_test_3() {
    let mut a = MF::<f32, 2, 2>::new_stack();
    a.set(0, 0, 2.0);
    a.set(1, 1, 4.0);
    let b = &a;
    let c = b.scalar_mul(2.0f32);
    println!("{:?}", c);
    assert_eq!(c[0], [4.0, 0.0]);
    assert_eq!(c[1], [0.0, 8.0]);
    let mut a = MF::<f32, 2, 2>::new_heap();
    a.set(0, 0, 2.0);
    a.set(1, 1, 4.0);
    let b = &a;
    let c = b.scalar_mul(2.0f32);
    println!("{:?}", c);
    assert_eq!(c[0], [4.0, 0.0]);
    assert_eq!(c[1], [0.0, 8.0]);
}

#[test]
fn scalar_mul_f64_test_1() {
    let mut a = MF::<f64, 2, 2>::new_stack();
    a.set(0, 0, 2.0);
    a.set(1, 1, 4.0);
    let b = a.scalar_mul(2.0f64);
    println!("{:?}", b);
    assert_eq!(b[0], [4.0, 0.0]);
    assert_eq!(b[1], [0.0, 8.0]);
    let mut a = MF::<f64, 2, 2>::new_heap();
    a.set(0, 0, 2.0);
    a.set(1, 1, 4.0);
    let b = a.scalar_mul(2.0f64);
    println!("{:?}", b);
    assert_eq!(b[0], [4.0, 0.0]);
    assert_eq!(b[1], [0.0, 8.0]);
}

#[test]
fn scalar_mul_f64_test_2() {
    let a = &mut MF::<f64, 2, 2>::new_stack();
    a.set(0, 0, 2.0);
    a.set(1, 1, 4.0);
    let b = a.scalar_mul(2.0f64);
    println!("{:?}", b);
    assert_eq!(b[0], [4.0, 0.0]);
    assert_eq!(b[1], [0.0, 8.0]);
    let a = &mut MF::<f64, 2, 2>::new_heap();
    a.set(0, 0, 2.0);
    a.set(1, 1, 4.0);
    let b = a.scalar_mul(2.0f64);
    println!("{:?}", b);
    assert_eq!(b[0], [4.0, 0.0]);
    assert_eq!(b[1], [0.0, 8.0]);
}

#[test]
fn scalar_mul_f64_test_3() {
    let mut a = MF::<f64, 2, 2>::new_stack();
    a.set(0, 0, 2.0);
    a.set(1, 1, 4.0);
    let b = &a;
    let c = b.scalar_mul(2.0f64);
    println!("{:?}", c);
    assert_eq!(c[0], [4.0, 0.0]);
    assert_eq!(c[1], [0.0, 8.0]);
    let mut a = MF::<f64, 2, 2>::new_heap();
    a.set(0, 0, 2.0);
    a.set(1, 1, 4.0);
    let b = &a;
    let c = b.scalar_mul(2.0f64);
    println!("{:?}", c);
    assert_eq!(c[0], [4.0, 0.0]);
    assert_eq!(c[1], [0.0, 8.0]);
}
