use vstd::prelude::*;
use crate::ops::{HAdd, HDiv, HMul, HNeg, HRem, HSub};
use crate::ops::{arith_exact, arith_total, neg_exact, neg_total};
use crate::rel::{eq_exact, ord_exact};

verus! {

/// A scalar type with a neutral element of addition.
pub trait Zero: Sized {
    /// the value that `zero` returns
    open spec fn zero_spec() -> Self {
        arbitrary()
    }

    fn zero() -> (r: Self)
        ensures
            r == Self::zero_spec(),
    ;
}

/// A scalar type with a neutral element of multiplication.
pub trait One: Sized {
    /// the value that `one` returns
    open spec fn one_spec() -> Self {
        arbitrary()
    }

    fn one() -> (r: Self)
        ensures
            r == Self::one_spec(),
    ;
}

/// A scalar type that can express the number two.
pub trait Two: Sized {
    /// the value that `two` returns
    open spec fn two_spec() -> Self {
        arbitrary()
    }

    fn two() -> (r: Self)
        ensures
            r == Self::two_spec(),
    ;
}

/// Scalars with integer arithmetic.
pub trait Integer: Copy + HAdd + HSub + HMul + HDiv + HRem + HNeg {

}

/// Scalars with the arithmetic of real numbers, up to rounding.
///
/// An implementation whose functions return the same result for the same
/// argument says so with `obeys_float_spec`; nothing is claimed of the others.
pub trait Float: Copy + Zero + One + Two + HAdd + HSub + HMul + HDiv + HRem + HNeg {
    /// The five functions below return what their `_spec` twins name. An
    /// implementation that does not say so claims nothing.
    open spec fn obeys_float_spec() -> bool {
        false
    }

    open spec fn sqrt_spec(self) -> Self {
        arbitrary()
    }

    open spec fn sin_spec(self) -> Self {
        arbitrary()
    }

    open spec fn cos_spec(self) -> Self {
        arbitrary()
    }

    open spec fn acos_spec(self) -> Self {
        arbitrary()
    }

    open spec fn pi_spec() -> Self {
        arbitrary()
    }

    fn sqrt(self) -> (r: Self)
        ensures
            Self::obeys_float_spec() ==> r == self.sqrt_spec(),
    ;

    fn sin(self) -> (r: Self)
        ensures
            Self::obeys_float_spec() ==> r == self.sin_spec(),
    ;

    fn cos(self) -> (r: Self)
        ensures
            Self::obeys_float_spec() ==> r == self.cos_spec(),
    ;

    fn acos(self) -> (r: Self)
        ensures
            Self::obeys_float_spec() ==> r == self.acos_spec(),
    ;

    fn pi() -> (r: Self)
        ensures
            Self::obeys_float_spec() ==> r == Self::pi_spec(),
    ;
}

/// Arithmetic and the functions of `Float` on `A` return what their specifications name.
pub open spec fn float_exact<A: Float>() -> bool {
    arith_exact::<A>() && A::obeys_float_spec()
}

/// No operation of `A` fails on any value: the scalar behaves like a
/// floating-point number, which answers an overflow or a division by zero with
/// a value of its own.
pub open spec fn total<A: Float>() -> bool {
    arith_total::<A>() && neg_total::<A>()
}

/// Every operation, function and comparison of `A` returns what its
/// specification names.
pub open spec fn exact<A: Float + PartialOrd>() -> bool {
    float_exact::<A>() && neg_exact::<A>() && ord_exact::<A>() && eq_exact::<A>()
}

impl Zero for u32 {
    open spec fn zero_spec() -> u32 {
        0
    }

    fn zero() -> u32 {
        0u32
    }
}

impl Zero for u64 {
    open spec fn zero_spec() -> u64 {
        0
    }

    fn zero() -> u64 {
        0u64
    }
}

impl Zero for usize {
    open spec fn zero_spec() -> usize {
        0
    }

    fn zero() -> usize {
        0usize
    }
}

impl Zero for i32 {
    open spec fn zero_spec() -> i32 {
        0
    }

    fn zero() -> i32 {
        0i32
    }
}

impl Zero for i64 {
    open spec fn zero_spec() -> i64 {
        0
    }

    fn zero() -> i64 {
        0i64
    }
}

impl Zero for isize {
    open spec fn zero_spec() -> isize {
        0
    }

    fn zero() -> isize {
        0isize
    }
}

impl One for u32 {
    open spec fn one_spec() -> u32 {
        1
    }

    fn one() -> u32 {
        1u32
    }
}

impl One for u64 {
    open spec fn one_spec() -> u64 {
        1
    }

    fn one() -> u64 {
        1u64
    }
}

impl One for usize {
    open spec fn one_spec() -> usize {
        1
    }

    fn one() -> usize {
        1usize
    }
}

impl One for i32 {
    open spec fn one_spec() -> i32 {
        1
    }

    fn one() -> i32 {
        1i32
    }
}

impl One for i64 {
    open spec fn one_spec() -> i64 {
        1
    }

    fn one() -> i64 {
        1i64
    }
}

impl One for isize {
    open spec fn one_spec() -> isize {
        1
    }

    fn one() -> isize {
        1isize
    }
}

impl Two for u32 {
    open spec fn two_spec() -> u32 {
        2
    }

    fn two() -> u32 {
        2u32
    }
}

impl Two for u64 {
    open spec fn two_spec() -> u64 {
        2
    }

    fn two() -> u64 {
        2u64
    }
}

impl Two for usize {
    open spec fn two_spec() -> usize {
        2
    }

    fn two() -> usize {
        2usize
    }
}

impl Two for i32 {
    open spec fn two_spec() -> i32 {
        2
    }

    fn two() -> i32 {
        2i32
    }
}

impl Two for i64 {
    open spec fn two_spec() -> i64 {
        2
    }

    fn two() -> i64 {
        2i64
    }
}

impl Two for isize {
    open spec fn two_spec() -> isize {
        2
    }

    fn two() -> isize {
        2isize
    }
}

} // verus!
