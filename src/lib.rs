//! Matrix arithmetic where a matrix's shape is part of its type.
//!
//! A matrix is held either inline ([matrix::SMatrix]) or in a separately
//! allocated block ([matrix::HMatrix]); both work together under `+`, binary
//! and unary `-` and `*`, for operands passed by value, by reference or by
//! mutable reference. The result of a binary operator is held like its left
//! operand; the `mul_*_to_heap` and `mul_*_to_stack` methods place a product
//! in the other storage. Every operation states its result over the model in
//! [model], and [laws] proves the algebraic laws of the operations.
pub mod laws;
pub mod matrix;
pub mod model;

mod matrix_add;
mod matrix_add_assign;
mod matrix_mul;
mod matrix_mul_assign;
mod matrix_neg;
mod matrix_sub;
mod matrix_sub_assign;
mod mul_to_heap;
mod mul_to_stack;
mod scalar_mul;
mod scalar_mul_i128;
mod scalar_mul_i16;
mod scalar_mul_i32;
mod scalar_mul_i64;
mod scalar_mul_i8;
mod scalar_mul_inplace;
mod unit;
