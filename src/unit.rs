//! The unit of the primitive integer element types.
//!
//! Identity and diagonal matrices put `T::from(true)` on the diagonal. For
//! the primitive integers std documents that value as `1`, and `0` for
//! `T::from(false)`; the specifications below state it.
use vstd::prelude::*;

verus! {

/// Relies on `<i8 as From<bool>>::from`: `1` for `true` and `0` for
/// `false`, as std documents it.
pub assume_specification[ <i8 as std::convert::From<bool>>::from ](small: bool) -> (r: i8)
    ensures
        r == if small { 1i8 } else { 0i8 },
;

/// Relies on `<i16 as From<bool>>::from`: `1` for `true` and `0` for
/// `false`, as std documents it.
pub assume_specification[ <i16 as std::convert::From<bool>>::from ](small: bool) -> (r: i16)
    ensures
        r == if small { 1i16 } else { 0i16 },
;

/// Relies on `<i32 as From<bool>>::from`: `1` for `true` and `0` for
/// `false`, as std documents it.
pub assume_specification[ <i32 as std::convert::From<bool>>::from ](small: bool) -> (r: i32)
    ensures
        r == if small { 1i32 } else { 0i32 },
;

/// Relies on `<i64 as From<bool>>::from`: `1` for `true` and `0` for
/// `false`, as std documents it.
pub assume_specification[ <i64 as std::convert::From<bool>>::from ](small: bool) -> (r: i64)
    ensures
        r == if small { 1i64 } else { 0i64 },
;

/// Relies on `<i128 as From<bool>>::from`: `1` for `true` and `0` for
/// `false`, as std documents it.
pub assume_specification[ <i128 as std::convert::From<bool>>::from ](small: bool) -> (r: i128)
    ensures
        r == if small { 1i128 } else { 0i128 },
;

} // verus!
