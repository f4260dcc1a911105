use vstd::prelude::*;
use vstd::std_specs::cmp::{PartialEqIs, PartialEqSpec, PartialOrdIs, PartialOrdSpec};

verus! {

/// trait for partial equality
pub trait PEq<Rhs = Self>: PartialEq<Rhs> {

}

/// trait for partial order
pub trait POrd<Rhs = Self>: PartialOrd<Rhs> {

}

/// trait for homogenous partial equality
pub trait HPEq: Sized + PEq<Self> {

}

impl<A: PartialEq<Rhs>, Rhs> PEq<Rhs> for A {

}

impl<A: PEq> HPEq for A {

}

impl<A: PartialOrd<Rhs>, Rhs> POrd<Rhs> for A {

}

/// The result of `==` on `A` is the one its specification names.
pub open spec fn eq_exact<A: PartialEq>() -> bool {
    A::obeys_eq_spec()
}

/// The results of `<`, `<=`, `>` and `>=` on `A` are the ones its specification names.
pub open spec fn ord_exact<A: PartialOrd>() -> bool {
    A::obeys_partial_cmp_spec()
}

/// `a == b` as the scalar type specifies it.
pub open spec fn same<A: PartialEq>(a: A, b: A) -> bool {
    a.is_eq(&b)
}

/// `a < b` as the scalar type specifies it.
pub open spec fn below<A: PartialOrd>(a: A, b: A) -> bool {
    a.is_lt(&b)
}

/// `a <= b` as the scalar type specifies it.
pub open spec fn at_most<A: PartialOrd>(a: A, b: A) -> bool {
    a.is_le(&b)
}

/// `a > b` as the scalar type specifies it.
pub open spec fn above<A: PartialOrd>(a: A, b: A) -> bool {
    a.is_gt(&b)
}

/// `a >= b` as the scalar type specifies it.
pub open spec fn at_least<A: PartialOrd>(a: A, b: A) -> bool {
    a.is_ge(&b)
}

/// The smaller of two values, the first where neither is smaller.
pub open spec fn min_of<A: PartialOrd>(a: A, b: A) -> A {
    if at_most(a, b) {
        a
    } else {
        b
    }
}

/// The larger of two values, the first where neither is larger.
pub open spec fn max_of<A: PartialOrd>(a: A, b: A) -> A {
    if at_least(a, b) {
        a
    } else {
        b
    }
}

/// `min < a < max`
pub open spec fn strictly_within<A: PartialOrd>(a: A, min: A, max: A) -> bool {
    below(min, a) && below(a, max)
}

/// `min <= a <= max`
pub open spec fn within<A: PartialOrd>(a: A, min: A, max: A) -> bool {
    at_most(min, a) && at_most(a, max)
}

/// trait for homogenous partial order
pub trait HPOrd: Sized + POrd<Self> {
    /// minimum of two numbers that returns self if equal
    fn min(self, other: Self) -> (r: Self)
        ensures
            r == self || r == other,
            ord_exact::<Self>() ==> r == min_of(self, other),
    {
        match self <= other {
            true => self,
            false => other,
        }
    }

    /// maximum of two numbers that returns self if equal
    fn max(self, other: Self) -> (r: Self)
        ensures
            r == self || r == other,
            ord_exact::<Self>() ==> r == max_of(self, other),
    {
        match self >= other {
            true => self,
            false => other,
        }
    }

    /// exclusive test if in range
    fn exc_in(self, min: Self, max: Self) -> (r: bool)
        ensures
            ord_exact::<Self>() ==> r == strictly_within(self, min, max),
    {
        min < self && self < max
    }

    /// inclusive test if in range
    fn inc_in(self, min: Self, max: Self) -> (r: bool)
        ensures
            ord_exact::<Self>() ==> r == within(self, min, max),
    {
        min <= self && self <= max
    }
}

impl<A: POrd> HPOrd for A {

}

/// extension for homogenous partial orders
pub trait ExtHPOrd: Sized + POrd<Self> {
    /// minimum of two numbers that returns self if equal
    fn min(self, other: Self) -> (r: Self)
        ensures
            r == self || r == other,
            ord_exact::<Self>() ==> r == min_of(self, other),
    {
        match self <= other {
            true => self,
            false => other,
        }
    }

    /// maximum of two numbers that returns self if equal
    fn max(self, other: Self) -> (r: Self)
        ensures
            r == self || r == other,
            ord_exact::<Self>() ==> r == max_of(self, other),
    {
        match self >= other {
            true => self,
            false => other,
        }
    }

    /// exclusive test if in range
    fn exc_in(self, min: Self, max: Self) -> (r: bool)
        ensures
            ord_exact::<Self>() ==> r == strictly_within(self, min, max),
    {
        min < self && self < max
    }

    /// inclusive test if in range
    fn inc_in(self, min: Self, max: Self) -> (r: bool)
        ensures
            ord_exact::<Self>() ==> r == within(self, min, max),
    {
        min <= self && self <= max
    }
}

impl<A: POrd<A>> ExtHPOrd for A {

}

} // verus!
