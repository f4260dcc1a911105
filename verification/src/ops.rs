use vstd::prelude::*;
use vstd::std_specs::ops::{AddSpec, DivSpec, MulSpec, NegSpec, SubSpec};
use core::ops::{Add, Div, Mul, Neg, Rem, Sub};

verus! {

/// homogenous add where Output = Self
pub trait HAdd<Rhs = Self>: Sized + Add<Rhs, Output = Self> {

}

/// homogenous sub where Output = Self
pub trait HSub<Rhs = Self>: Sized + Sub<Rhs, Output = Self> {

}

/// homogenous mul where Output = Self
pub trait HMul<Rhs = Self>: Sized + Mul<Rhs, Output = Self> {

}

/// homogenous div where Output = Self
pub trait HDiv<Rhs = Self>: Sized + Div<Rhs, Output = Self> {

}

/// homogenous rem where Output = Self
pub trait HRem<Rhs = Self>: Sized + Rem<Rhs, Output = Self> {

}

/// homogenous neg where Output = Self
pub trait HNeg: Sized + Neg<Output = Self> {

}

impl<A: Add<B, Output = A>, B> HAdd<B> for A {

}

impl<A: Sub<B, Output = A>, B> HSub<B> for A {

}

impl<A: Mul<B, Output = A>, B> HMul<B> for A {

}

impl<A: Div<B, Output = A>, B> HDiv<B> for A {

}

impl<A: Rem<B, Output = A>, B> HRem<B> for A {

}

impl<A: Neg<Output = A>> HNeg for A {

}

/// `a + b` as the scalar type specifies it.
pub open spec fn sum<A: HAdd>(a: A, b: A) -> A {
    a.add_spec(b)
}

/// `a - b` as the scalar type specifies it.
pub open spec fn diff<A: HSub>(a: A, b: A) -> A {
    a.sub_spec(b)
}

/// `a * b` as the scalar type specifies it.
pub open spec fn prod<A: HMul>(a: A, b: A) -> A {
    a.mul_spec(b)
}

/// `a / b` as the scalar type specifies it.
pub open spec fn quot<A: HDiv>(a: A, b: A) -> A {
    a.div_spec(b)
}

/// `-a` as the scalar type specifies it.
pub open spec fn negated<A: HNeg>(a: A) -> A {
    a.neg_spec()
}

/// The result of `+` on `A` is the one its specification names.
pub open spec fn add_exact<A: HAdd>() -> bool {
    A::obeys_add_spec()
}

/// The result of `-` on `A` is the one its specification names.
pub open spec fn sub_exact<A: HSub>() -> bool {
    A::obeys_sub_spec()
}

/// The result of `*` on `A` is the one its specification names.
pub open spec fn mul_exact<A: HMul>() -> bool {
    A::obeys_mul_spec()
}

/// The result of `/` on `A` is the one its specification names.
pub open spec fn div_exact<A: HDiv>() -> bool {
    A::obeys_div_spec()
}

/// The result of unary `-` on `A` is the one its specification names.
pub open spec fn neg_exact<A: HNeg>() -> bool {
    A::obeys_neg_spec()
}

/// `+` is defined on every pair of values of `A`: it never overflows or fails.
pub open spec fn add_total<A: HAdd>() -> bool {
    forall|a: A, b: A| #[trigger] a.add_req(b)
}

/// `-` is defined on every pair of values of `A`.
pub open spec fn sub_total<A: HSub>() -> bool {
    forall|a: A, b: A| #[trigger] a.sub_req(b)
}

/// `*` is defined on every pair of values of `A`.
pub open spec fn mul_total<A: HMul>() -> bool {
    forall|a: A, b: A| #[trigger] a.mul_req(b)
}

/// `/` is defined on every pair of values of `A`, a zero divisor included.
pub open spec fn div_total<A: HDiv>() -> bool {
    forall|a: A, b: A| #[trigger] a.div_req(b)
}

/// Unary `-` is defined on every value of `A`.
pub open spec fn neg_total<A: HNeg>() -> bool {
    forall|a: A| #[trigger] a.neg_req()
}

/// `+`, `-`, `*` and `/` are defined on all values of `A`, as they are for
/// floating-point numbers.
pub open spec fn arith_total<A: HAdd + HSub + HMul + HDiv>() -> bool {
    &&& add_total::<A>()
    &&& sub_total::<A>()
    &&& mul_total::<A>()
    &&& div_total::<A>()
}

/// `+`, `-`, `*` and `/` on `A` return what their specifications name.
pub open spec fn arith_exact<A: HAdd + HSub + HMul + HDiv>() -> bool {
    &&& add_exact::<A>()
    &&& sub_exact::<A>()
    &&& mul_exact::<A>()
    &&& div_exact::<A>()
}

/// `a + b` can be computed.
pub open spec fn can_add<A: HAdd>(a: A, b: A) -> bool {
    a.add_req(b)
}

/// `a - b` can be computed.
pub open spec fn can_sub<A: HSub>(a: A, b: A) -> bool {
    a.sub_req(b)
}

/// `a * b` can be computed.
pub open spec fn can_mul<A: HMul>(a: A, b: A) -> bool {
    a.mul_req(b)
}

/// `a / b` can be computed.
pub open spec fn can_div<A: HDiv>(a: A, b: A) -> bool {
    a.div_req(b)
}

/// `-a` can be computed.
pub open spec fn can_neg<A: HNeg>(a: A) -> bool {
    a.neg_req()
}

} // verus!
