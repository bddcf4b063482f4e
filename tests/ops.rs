use const_matrix::matrix::MF;

#[test]
fn test_add() {
    let a1 = MF::<f32, 4, 4>::new_stack();
    let a2 = MF::<f32, 4, 4>::new_stack();
    let a3 = MF::<f32, 4, 4>::new_heap();
    let b1 = MF::<f64, 100, 100>::new_heap();
    let b2 = MF::<f64, 100, 100>::new_heap();
    let b3 = MF::<f64, 100, 100>::new_stack();
    // stack * stack
    let _a = &a1 + &a2;
    let _a = &a1 + a2.clone();
    let _a = a1.clone() + &a2;
    let _a = a1 + a2;
    // stack * heap
    let a1 = MF::<f32, 4, 4>::new_stack();
    let _aa = &a1 + &a3;
    let _aa = &a1 + a3.clone();
    let _aa = a1.clone() + &a3;
    let _aa = a1 + a3;
    // heap * heap
    let _b = &b1 + &b2;
    let _b = &b1 + b2.clone();
    let _b = b1.clone() + &b2;
    let _b = b1 + b2;
    // heap * stack
    let b1 = MF::<f64, 100, 100>::new_heap();
    let _bb = &b1 + &b3;
    let _bb = &b1 + b3.clone();
    let _bb = b1.clone() + &b3;
    let _bb = b1 + b3;
    // &mut + value
    let mut c1 = MF::<f32, 4, 4>::new_stack();
    let c2 = MF::<f32, 4, 4>::new_stack();
    let _c = &mut c1 + c2;
    assert_eq!(_c[3], [0.0; 4]);
}

#[test]
fn test_add_assign() {
    let mut a1 = MF::<f32, 4, 4>::new_stack();
    let a2 = MF::<f32, 4, 4>::new_stack();
    let a3 = MF::<f32, 4, 4>::new_heap();
    let a4 = &MF::<f32, 4, 4>::new_stack();
    let a5 = &MF::<f32, 4, 4>::new_heap();
    let a6 = &mut MF::<f32, 4, 4>::new_stack();
    let a7 = &mut MF::<f32, 4, 4>::new_heap();
    a1.add_assign(&a2);
    a1.add_assign(&a3);
    a1.add_assign(a4);
    a1.add_assign(a5);
    a1.add_assign(&*a6);
    a1.add_assign(&*a7);
    let mut b1 = MF::<f64, 8, 8>::new_heap();
    let b2 = MF::<f64, 8, 8>::new_heap();
    let b3 = MF::<f64, 8, 8>::new_stack();
    let b4 = &MF::<f64, 8, 8>::new_heap();
    let b5 = &MF::<f64, 8, 8>::new_stack();
    let b6 = &mut MF::<f64, 8, 8>::new_heap();
    let b7 = &mut MF::<f64, 8, 8>::new_stack();
    b1.add_assign(&b2);
    b1.add_assign(&b3);
    b1.add_assign(b4);
    b1.add_assign(b5);
    b1.add_assign(&*b6);
    b1.add_assign(&*b7);

    let c1 = &mut MF::<f32, 4, 4>::new_stack();
    let c2 = MF::<f32, 4, 4>::new_stack();
    let c3 = MF::<f32, 4, 4>::new_heap();
    let c4 = &MF::<f32, 4, 4>::new_stack();
    let c5 = &MF::<f32, 4, 4>::new_heap();
    let c6 = &mut MF::<f32, 4, 4>::new_stack();
    let c7 = &mut MF::<f32, 4, 4>::new_heap();
    c1.add_assign(&c2);
    c1.add_assign(&c3);
    c1.add_assign(c4);
    c1.add_assign(c5);
    c1.add_assign(&*c6);
    c1.add_assign(&*c7);

    let g1 = &mut MF::<f32, 4, 4>::new_heap();
    let c2 = MF::<f32, 4, 4>::new_heap();
    let c3 = MF::<f32, 4, 4>::new_stack();
    let c4 = &MF::<f32, 4, 4>::new_stack();
    let c5 = &MF::<f32, 4, 4>::new_heap();
    let c6 = &mut MF::<f32, 4, 4>::new_stack();
    let c7 = &mut MF::<f32, 4, 4>::new_heap();
    g1.add_assign(&c2);
    g1.add_assign(&c3);
    g1.add_assign(c4);
    g1.add_assign(c5);
    g1.add_assign(&*c6);
    g1.add_assign(&*c7);

    let d1 = &mut MF::<f32, 4, 4>::new_stack();
    let d2 = MF::<f32, 4, 4>::new_stack();
    let _d = d1 + d2;

    let e1 = MF::<f32, 4, 4>::new_stack();
    let e2 = &mut MF::<f32, 4, 4>::new_stack();
    let _e = e1 + e2;

    let f1 = &mut MF::<f32, 4, 4>::new_stack();
    let f2 = &mut MF::<f32, 4, 4>::new_stack();
    let _f = f1 + f2;
    assert_eq!(a1[0], [0.0; 4]);
    assert_eq!(b1[7], [0.0; 8]);
}

#[test]
fn test_sub_assign() {
    let mut a1 = MF::<f32, 4, 4>::new_stack();
    let a2 = MF::<f32, 4, 4>::new_stack();
    let a3 = MF::<f32, 4, 4>::new_heap();
    let a4 = &MF::<f32, 4, 4>::new_stack();
    let a5 = &MF::<f32, 4, 4>::new_heap();
    let a6 = &mut MF::<f32, 4, 4>::new_stack();
    let a7 = &mut MF::<f32, 4, 4>::new_heap();
    a1.sub_assign(&a2);
    a1.sub_assign(&a3);
    a1.sub_assign(a4);
    a1.sub_assign(a5);
    a1.sub_assign(&*a6);
    a1.sub_assign(&*a7);
    let mut b1 = MF::<f64, 8, 8>::new_heap();
    let b2 = MF::<f64, 8, 8>::new_heap();
    let b3 = MF::<f64, 8, 8>::new_stack();
    let b4 = &MF::<f64, 8, 8>::new_heap();
    let b5 = &MF::<f64, 8, 8>::new_stack();
    let b6 = &mut MF::<f64, 8, 8>::new_heap();
    let b7 = &mut MF::<f64, 8, 8>::new_stack();
    b1.sub_assign(&b2);
    b1.sub_assign(&b3);
    b1.sub_assign(b4);
    b1.sub_assign(b5);
    b1.sub_assign(&*b6);
    b1.sub_assign(&*b7);

    let c1 = &mut MF::<f32, 4, 4>::new_stack();
    let c2 = MF::<f32, 4, 4>::new_stack();
    let c3 = MF::<f32, 4, 4>::new_heap();
    let c4 = &MF::<f32, 4, 4>::new_stack();
    let c5 = &MF::<f32, 4, 4>::new_heap();
    let c6 = &mut MF::<f32, 4, 4>::new_stack();
    let c7 = &mut MF::<f32, 4, 4>::new_heap();
    c1.sub_assign(&c2);
    c1.sub_assign(&c3);
    c1.sub_assign(c4);
    c1.sub_assign(c5);
    c1.sub_assign(&*c6);
    c1.sub_assign(&*c7);

    let d1 = &mut MF::<f32, 4, 4>::new_stack();
    let d2 = MF::<f32, 4, 4>::new_stack();
    let _d = d1 - d2;

    let e1 = MF::<f32, 4, 4>::new_stack();
    let e2 = &mut MF::<f32, 4, 4>::new_stack();
    let _e = e1 - e2;

    let f1 = &mut MF::<f32, 4, 4>::new_stack();
    let f2 = &mut MF::<f32, 4, 4>::new_stack();
    let _f = f1 - f2;
    assert_eq!(a1[0], [0.0; 4]);
    assert_eq!(b1[7], [0.0; 8]);
}

#[test]
fn test_mul_assign() {
    let mut a1 = MF::<f32, 4, 4>::new_stack();
    let a2 = MF::<f32, 4, 4>::new_stack();
    let a3 = MF::<f32, 4, 4>::new_heap();
    let a4 = &MF::<f32, 4, 4>::new_stack();
    let a5 = &MF::<f32, 4, 4>::new_heap();
    let a6 = &mut MF::<f32, 4, 4>::new_stack();
    let a7 = &mut MF::<f32, 4, 4>::new_heap();
    a1.mul_assign(&a2);
    a1.mul_assign(&a3);
    a1.mul_assign(a4);
    a1.mul_assign(a5);
    a1.mul_assign(&*a6);
    a1.mul_assign(&*a7);
    let mut b1 = MF::<f64, 8, 8>::new_heap();
    let b2 = MF::<f64, 8, 8>::new_heap();
    let b3 = MF::<f64, 8, 8>::new_stack();
    let b4 = &MF::<f64, 8, 8>::new_heap();
    let b5 = &MF::<f64, 8, 8>::new_stack();
    let b6 = &mut MF::<f64, 8, 8>::new_heap();
    let b7 = &mut MF::<f64, 8, 8>::new_stack();
    b1.mul_assign(&b2);
    b1.mul_assign(&b3);
    b1.mul_assign(b4);
    b1.mul_assign(b5);
    b1.mul_assign(&*b6);
    b1.mul_assign(&*b7);

    let d1 = &mut MF::<f32, 4, 4>::new_stack();
    let d2 = MF::<f32, 4, 4>::new_stack();
    let _d = d1 * d2;

    let e1 = MF::<f32, 4, 4>::new_stack();
    let e2 = &mut MF::<f32, 4, 4>::new_stack();
    let _e = e1 * e2;

    let f1 = &mut MF::<f32, 4, 4>::new_stack();
    let f2 = &mut MF::<f32, 4, 4>::new_stack();
    let _f = f1 * f2;
    assert_eq!(a1[0], [0.0; 4]);
    assert_eq!(b1[7], [0.0; 8]);
}

#[test]
fn matrix_neg_test_1() {
    let mut a = MF::<f64, 2, 2>::new_stack();
    a.set(0, 0, 2.0);
    a.set(1, 1, 4.0);
    let b = -a;
    println!("{:?}", b);
    assert_eq!(b[0], [-2.0, 0.0]);
    assert_eq!(b[1], [0.0, -4.0]);
    let a = &MF::<f64, 2, 2>::new_stack();
    let b = -a;
    println!("{:?}", b);
    let a = &mut MF::<f64, 2, 2>::new_stack();
    a.set(0, 0, 2.0);
    a.set(1, 1, 4.0);
    let b = -a;
    println!("{:?}", b);
    assert_eq!(b[0], [-2.0, 0.0]);
    assert_eq!(b[1], [0.0, -4.0]);
}

#[test]
fn matrix_neg_test_2() {
    let mut a = MF::<f64, 2, 2>::new_heap();
    a.set(0, 0, 2.0);
    a.set(1, 1, 4.0);
    let b = -a;
    println!("{:?}", b);
    assert_eq!(b[0], [-2.0, 0.0]);
    assert_eq!(b[1], [0.0, -4.0]);
    let a = &MF::<f64, 2, 2>::new_heap();
    let b = -a;
    println!("{:?}", b);
    let a = &mut MF::<f64, 2, 2>::new_heap();
    a.set(0, 0, 2.0);
    a.set(1, 1, 4.0);
    let b = -a;
    println!("{:?}", b);
    assert_eq!(b[0], [-2.0, 0.0]);
    assert_eq!(b[1], [0.0, -4.0]);
}

#[test]
fn test_one_index() {
    let a = MF::<f64, 10, 10>::new_stack();
    let mut row = a[0];
    println!("row = {:?}", row);
    let a = MF::<f64, 10, 10>::new_heap();
    row = a[0];
    println!("row = {:?}", row);
    let b1 = &MF::<f64, 10, 10>::new_stack();
    let b2 = &MF::<f64, 10, 10>::new_heap();
    let row1 = b1[0];
    let row2 = b2[0];
    println!("row1 = {:?}", row1);
    println!("row2 = {:?}", row2);
    let c1 = &mut MF::<f64, 10, 10>::new_stack();
    let c2 = &mut MF::<f64, 10, 10>::new_heap();
    let row1 = c1[0];
    let row2 = c2[0];
    println!("row1 = {:?}", row1);
    println!("row2 = {:?}", row2);
    assert_eq!(row, [0.0; 10]);
    assert_eq!(row1, [0.0; 10]);
    assert_eq!(row2, [0.0; 10]);
}

#[test]
fn test_two_indices() {
    let a = MF::<f64, 10, 10>::new_stack();
    let mut elem = a[0][0];
    println!("a[0][0] = {}", elem);
    let a = MF::<f64, 10, 10>::new_heap();
    elem = a[0][0];
    println!("a[0][0] = {}", elem);
    let b1 = &MF::<f64, 10, 10>::new_stack();
    let b2 = &MF::<f64, 10, 10>::new_heap();
    let elem1 = b1[0][0];
    let elem2 = b2[0][0];
    println!("e1[0][0] = {}", elem1);
    println!("e2[0][0] = {}", elem2);
    let c1 = &mut MF::<f64, 10, 10>::new_stack();
    let c2 = &mut MF::<f64, 10, 10>::new_heap();
    let elem1 = c1[0][0];
    let elem2 = c2[0][0];
    println!("e1[0][0] = {}", elem1);
    println!("e2[0][0] = {}", elem2);
    assert_eq!(elem, 0.0);
    assert_eq!(elem1, 0.0);
    assert_eq!(elem2, 0.0);
}

#[test]
fn test_one_index_assign() {
    let row = [9.5f64; 10];
    let mut a = MF::<f64, 10, 10>::new_stack();
    let mut b = MF::<f64, 10, 10>::new_heap();
    a.set_row(0, row);
    b.set_row(0, row);
    let row1 = a[0];
    let row2 = b[0];
    println!("row after assign = {:?}", row1);
    println!("row after assign = {:?}", row2);
    assert_eq!(row1, row);
    assert_eq!(row2, row);
    let c1 = &mut MF::<f64, 10, 10>::new_stack();
    let c2 = &mut MF::<f64, 10, 10>::new_heap();
    c1.set_row(0, row);
    c2.set_row(0, row);
    let row1 = c1[0];
    let row2 = c2[0];
    println!("row1 = {:?}", row1);
    println!("row2 = {:?}", row2);
    assert_eq!(row1, row);
    assert_eq!(row2, row);
    assert_eq!(c1[1], [0.0; 10]);
}

#[test]
fn test_two_indices_assign() {
    let mut a = MF::<f64, 10, 10>::new_stack();
    let mut b = MF::<f64, 10, 10>::new_heap();
    a.set(0, 0, 199.99);
    b.set(0, 0, 199.99);
    let elem1 = a[0][0];
    let elem2 = a[0][0];
    println!("e1 - a[0][0] = {}", elem1);
    println!("e2 - a[0][0] = {}", elem2);
    assert_eq!(b[0][0], 199.99);
    let c1 = &mut MF::<f64, 10, 10>::new_stack();
    let c2 = &mut MF::<f64, 10, 10>::new_heap();
    c1.set(0, 0, 199.99);
    c2.set(0, 0, 199.99);
    let elem1 = c1[0][0];
    let elem2 = c2[0][0];
    println!("e1[0][0] = {}", elem1);
    println!("e2[0][0] = {}", elem2);
    assert_eq!(elem1, 199.99);
    assert_eq!(elem2, 199.99);
    assert_eq!(c1[0][1], 0.0);
}

#[test]
fn test_mul_to_heap() {
    let a = MF::<f64, 100, 1>::new_stack();
    let by_value = MF::<f64, 1, 100>::new_stack();
    let by_ref = &MF::<f64, 1, 100>::new_stack();
    let by_mut_ref = &mut MF::<f64, 1, 100>::new_stack();

    let _c = a.mul_val_to_heap(by_value);
    let _d = a.mul_ref_to_heap(by_ref);
    let _e = a.mul_ref_to_heap(by_mut_ref);
    assert_eq!(_c[99][99], 0.0);
}

#[test]
fn test_smatrix_mul_to_stack() {
    let a = MF::<f64, 1, 100>::new_stack();
    let by_value = MF::<f64, 100, 1>::new_heap();
    let by_ref = &MF::<f64, 100, 1>::new_heap();
    let by_mut_ref = &mut MF::<f64, 100, 1>::new_heap();

    let _c = a.mul_val_to_stack(by_value);
    let _d = a.mul_ref_to_stack(by_ref);
    let _e = a.mul_ref_to_stack(by_mut_ref);
    assert_eq!(_c[0][0], 0.0);
}

#[test]
fn test_hmatrix_mul_hmatrix_to_stack() {
    let a = MF::<f64, 1, 100>::new_heap();
    let by_value = MF::<f64, 100, 1>::new_heap();
    let by_ref = &MF::<f64, 100, 1>::new_heap();
    let by_mut_ref = &mut MF::<f64, 100, 1>::new_heap();

    let _c = a.mul_heapval_to_stack(by_value);
    let _d = a.mul_heapref_to_stack(by_ref);
    let _e = a.mul_heapref_to_stack(by_mut_ref);
    assert_eq!(_c[0][0], 0.0);
}

#[test]
fn test_hmatrix_mul_smatrix_to_stack() {
    let a = MF::<f64, 1, 100>::new_heap();
    let by_value = MF::<f64, 100, 1>::new_stack();
    let by_ref = &MF::<f64, 100, 1>::new_stack();
    let by_mut_ref = &mut MF::<f64, 100, 1>::new_stack();

    let _c = a.mul_stackval_to_stack(by_value);
    let _d = a.mul_stackref_to_stack(by_ref);
    let _e = a.mul_stackref_to_stack(by_mut_ref);
    assert_eq!(_c[0][0], 0.0);
}
