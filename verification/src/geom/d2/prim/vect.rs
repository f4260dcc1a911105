use vstd::prelude::*;
use core::ops::Neg;
use crate::conv::To;
use crate::num::{float_exact, Float, One, Two, Zero};
use crate::ops::{HAdd, HDiv, HMul, HNeg, HSub};
use crate::ops::{add_exact, div_exact, mul_exact, neg_exact, sub_exact};
use crate::ops::{add_total, arith_total, mul_total, sub_total};
use crate::ops::{can_add, can_div, can_mul, can_neg, can_sub};
use crate::ops::{diff, negated, prod, quot, sum};
use crate::rel::{above, eq_exact, max_of, min_of, ord_exact, same, within, HPEq, HPOrd};

verus! {

/// A 2D vector that owns its two values.
pub type Vect<Val> = (Val, Val);

/// Anything that has an x and a y coordinate of one scalar type.
///
/// This is the part of a vector that other vectors read: the algebra of
/// `Vector` takes its second operand through this trait.
pub trait Coords: Sized {
    /// value type of vector
    type Val: Copy;

    /// the two coordinates
    spec fn xy(&self) -> Vect<Self::Val>;

    /// first value of vector
    fn x(&self) -> (x: Self::Val)
        ensures
            x == self.xy().0,
    ;

    /// second value of vector
    fn y(&self) -> (y: Self::Val)
        ensures
            y == self.xy().1,
    ;
}

/// componentwise sum
pub open spec fn v_sum<A: HAdd>(a: Vect<A>, b: Vect<A>) -> Vect<A> {
    (sum(a.0, b.0), sum(a.1, b.1))
}

/// componentwise difference
pub open spec fn v_diff<A: HSub>(a: Vect<A>, b: Vect<A>) -> Vect<A> {
    (diff(a.0, b.0), diff(a.1, b.1))
}

/// componentwise product
pub open spec fn v_prod<A: HMul>(a: Vect<A>, b: Vect<A>) -> Vect<A> {
    (prod(a.0, b.0), prod(a.1, b.1))
}

/// componentwise quotient
pub open spec fn v_quot<A: HDiv>(a: Vect<A>, b: Vect<A>) -> Vect<A> {
    (quot(a.0, b.0), quot(a.1, b.1))
}

/// componentwise negation
pub open spec fn v_neg<A: HNeg>(a: Vect<A>) -> Vect<A> {
    (negated(a.0), negated(a.1))
}

/// the vector with both values equal to `val`
pub open spec fn splat<A>(val: A) -> Vect<A> {
    (val, val)
}

/// componentwise minimum
pub open spec fn v_min<A: PartialOrd>(a: Vect<A>, b: Vect<A>) -> Vect<A> {
    (min_of(a.0, b.0), min_of(a.1, b.1))
}

/// componentwise maximum
pub open spec fn v_max<A: PartialOrd>(a: Vect<A>, b: Vect<A>) -> Vect<A> {
    (max_of(a.0, b.0), max_of(a.1, b.1))
}

/// both coordinates compare equal
pub open spec fn v_same<A: PartialEq>(a: Vect<A>, b: Vect<A>) -> bool {
    same(a.0, b.0) && same(a.1, b.1)
}

/// `a` rotated by 90 degrees to the left
pub open spec fn orth_l_of<A: HNeg>(a: Vect<A>) -> Vect<A> {
    (negated(a.1), a.0)
}

/// `a` rotated by 90 degrees to the right
pub open spec fn orth_r_of<A: HNeg>(a: Vect<A>) -> Vect<A> {
    (a.1, negated(a.0))
}

/// determinant of two vectors: `a.x * b.y - a.y * b.x`
pub open spec fn det_of<A: HSub + HMul>(a: Vect<A>, b: Vect<A>) -> A {
    diff(prod(a.0, b.1), prod(a.1, b.0))
}

/// dot product of two vectors: `a.x * b.x + a.y * b.y`
pub open spec fn dot_of<A: HAdd + HMul>(a: Vect<A>, b: Vect<A>) -> A {
    sum(prod(a.0, b.0), prod(a.1, b.1))
}

/// `a.x * a.x + a.y * a.y`
pub open spec fn len_sq_of<A: HAdd + HMul>(a: Vect<A>) -> A {
    sum(prod(a.0, a.0), prod(a.1, a.1))
}

/// length of a vector
pub open spec fn len_of<A: Float>(a: Vect<A>) -> A {
    len_sq_of(a).sqrt_spec()
}

/// angle between two vectors, in `[0, pi]`
pub open spec fn angle_of<A: Float>(a: Vect<A>, b: Vect<A>) -> A {
    quot(dot_of(a, b), prod(len_of(a), len_of(b))).acos_spec()
}

/// `b` lies strictly to the left of `a`: their determinant is positive
pub open spec fn is_left<A: Zero + HSub + HMul + PartialOrd>(a: Vect<A>, b: Vect<A>) -> bool {
    above(det_of(a, b), A::zero_spec())
}

/// `b` points the way that `a` points: their determinant is zero and their
/// dot product is positive
pub open spec fn same_way<A: Zero + HAdd + HSub + HMul + PartialOrd>(a: Vect<A>, b: Vect<A>) -> bool {
    same(det_of(a, b), A::zero_spec()) && above(dot_of(a, b), A::zero_spec())
}

/// the angle swept when turning left from `a` to `b`, in `[0, 2 pi)`: the
/// angle between the two where `b` lies to the left of `a` or points the same
/// way, else what is missing of it to a full turn
pub open spec fn angle_l_of<A: Float + PartialOrd>(a: Vect<A>, b: Vect<A>) -> A {
    if is_left(a, b) || same_way(a, b) {
        angle_of(a, b)
    } else {
        diff(prod(A::two_spec(), A::pi_spec()), angle_of(a, b))
    }
}

/// the determinant of `a` and `b` is within `eps` of zero
pub open spec fn near_dep<A: Zero + HAdd + HSub + HMul + PartialOrd>(
    a: Vect<A>,
    b: Vect<A>,
    eps: A,
) -> bool {
    within(det_of(a, b), diff(A::zero_spec(), eps), sum(A::zero_spec(), eps))
}

/// both componentwise sums can be computed
pub open spec fn can_v_add<A: HAdd>(a: Vect<A>, b: Vect<A>) -> bool {
    can_add(a.0, b.0) && can_add(a.1, b.1)
}

/// both componentwise differences can be computed
pub open spec fn can_v_sub<A: HSub>(a: Vect<A>, b: Vect<A>) -> bool {
    can_sub(a.0, b.0) && can_sub(a.1, b.1)
}

/// both componentwise products can be computed
pub open spec fn can_v_mul<A: HMul>(a: Vect<A>, b: Vect<A>) -> bool {
    can_mul(a.0, b.0) && can_mul(a.1, b.1)
}

/// both componentwise quotients can be computed
pub open spec fn can_v_div<A: HDiv>(a: Vect<A>, b: Vect<A>) -> bool {
    can_div(a.0, b.0) && can_div(a.1, b.1)
}

/// both values can be negated
pub open spec fn can_v_neg<A: HNeg>(a: Vect<A>) -> bool {
    can_neg(a.0) && can_neg(a.1)
}

/// The determinant of `a` and `b` can be computed: both products, and the
/// difference of what they return.
pub open spec fn can_det<A: HSub + HMul>(a: Vect<A>, b: Vect<A>) -> bool {
    &&& can_mul(a.0, b.1)
    &&& can_mul(a.1, b.0)
    &&& if mul_exact::<A>() {
        can_sub(prod(a.0, b.1), prod(a.1, b.0))
    } else {
        sub_total::<A>()
    }
}

/// The dot product of `a` and `b` can be computed: both products, and the sum
/// of what they return.
pub open spec fn can_dot<A: HAdd + HMul>(a: Vect<A>, b: Vect<A>) -> bool {
    &&& can_mul(a.0, b.0)
    &&& can_mul(a.1, b.1)
    &&& if mul_exact::<A>() {
        can_add(prod(a.0, b.0), prod(a.1, b.1))
    } else {
        add_total::<A>()
    }
}

/// 2D vector algebra over any scalar type.
///
/// Every operation reads its operands and returns an owned `Vect`. What an
/// operation returns is stated for scalar types whose operators return what
/// their specifications name (the `_exact` conditions); for other types only
/// the absence of failure is promised.
pub trait Vector: Coords {
    /// create new vector of other vector
    fn of<V: Coords<Val = Self::Val>>(vect: V) -> (r: Vect<Self::Val>)
        ensures
            r == vect.xy(),
    {
        (vect.x(), vect.y())
    }

    /// create new vector where values are 0
    fn zero() -> (r: Vect<Self::Val>) where Self::Val: Zero
        ensures
            r == splat(Self::Val::zero_spec()),
    {
        let zero = Self::Val::zero();
        (zero, zero)
    }

    /// create new vector where values are 1
    fn one() -> (r: Vect<Self::Val>) where Self::Val: One
        ensures
            r == splat(Self::Val::one_spec()),
    {
        let one = Self::Val::one();
        (one, one)
    }

    /// both values of vector
    fn vals(&self) -> (r: [Self::Val; 2])
        ensures
            r[0] == self.xy().0,
            r[1] == self.xy().1,
    {
        [self.x(), self.y()]
    }

    /// check if vectors are equal
    fn equal<V: Coords<Val = Self::Val>>(&self, other: V) -> (r: bool) where Self::Val: HPEq
        ensures
            eq_exact::<Self::Val>() ==> r == v_same(self.xy(), other.xy()),
    {
        self.x() == other.x() && self.y() == other.y()
    }

    /// the vector as an owned value
    fn to(&self) -> (r: Vect<Self::Val>)
        ensures
            r == self.xy(),
    {
        (self.x(), self.y())
    }

    /// length of float vector
    fn len(&self) -> (r: Self::Val) where Self::Val: Float
        requires
            can_dot(self.xy(), self.xy()),
        ensures
            float_exact::<Self::Val>() ==> r == len_of(self.xy()),
    {
        let x = self.x();
        let y = self.y();
        (x * x + y * y).sqrt()
    }

    /// length of vector converting values to some float
    fn len_as<F: Float>(&self) -> (r: F) where Self::Val: To<F> + HAdd + HMul
        requires
            can_dot(self.xy(), self.xy()),
        ensures
            mul_exact::<Self::Val>() && add_exact::<Self::Val>() && F::obeys_float_spec() ==> r
                == len_sq_of(self.xy()).to_spec().sqrt_spec(),
    {
        let x = self.x();
        let y = self.y();
        (x * x + y * y).to().sqrt()
    }

    /// add two vectors componentwise
    fn add<V: Coords<Val = Self::Val>>(&self, other: V) -> (r: Vect<Self::Val>) where
        Self::Val: HAdd,

        requires
            can_v_add(self.xy(), other.xy()),
        ensures
            add_exact::<Self::Val>() ==> r == v_sum(self.xy(), other.xy()),
    {
        let x = self.x() + other.x();
        let y = self.y() + other.y();
        (x, y)
    }

    /// subtract two vectors componentwise
    fn sub<V: Coords<Val = Self::Val>>(&self, other: V) -> (r: Vect<Self::Val>) where
        Self::Val: HSub,

        requires
            can_v_sub(self.xy(), other.xy()),
        ensures
            sub_exact::<Self::Val>() ==> r == v_diff(self.xy(), other.xy()),
    {
        let x = self.x() - other.x();
        let y = self.y() - other.y();
        (x, y)
    }

    /// multiply two vectors componentwise
    fn mul<V: Coords<Val = Self::Val>>(&self, other: V) -> (r: Vect<Self::Val>) where
        Self::Val: HMul,

        requires
            can_v_mul(self.xy(), other.xy()),
        ensures
            mul_exact::<Self::Val>() ==> r == v_prod(self.xy(), other.xy()),
    {
        let x = self.x() * other.x();
        let y = self.y() * other.y();
        (x, y)
    }

    /// divide two vectors componentwise
    fn div<V: Coords<Val = Self::Val>>(&self, other: V) -> (r: Vect<Self::Val>) where
        Self::Val: HDiv,

        requires
            can_v_div(self.xy(), other.xy()),
        ensures
            div_exact::<Self::Val>() ==> r == v_quot(self.xy(), other.xy()),
    {
        let x = self.x() / other.x();
        let y = self.y() / other.y();
        (x, y)
    }

    /// negate vector componentwise
    fn neg(&self) -> (r: Vect<Self::Val>) where Self::Val: HNeg
        requires
            can_v_neg(self.xy()),
        ensures
            neg_exact::<Self::Val>() ==> r == v_neg(self.xy()),
    {
        let x = self.x().neg();
        let y = self.y().neg();
        (x, y)
    }

    /// add value to vector componentwise
    fn vadd(&self, val: Self::Val) -> (r: Vect<Self::Val>) where Self::Val: HAdd
        requires
            can_v_add(self.xy(), splat(val)),
        ensures
            add_exact::<Self::Val>() ==> r == v_sum(self.xy(), splat(val)),
    {
        let x = self.x() + val;
        let y = self.y() + val;
        (x, y)
    }

    /// sub value from vector componentwise
    fn vsub(&self, val: Self::Val) -> (r: Vect<Self::Val>) where Self::Val: HSub
        requires
            can_v_sub(self.xy(), splat(val)),
        ensures
            sub_exact::<Self::Val>() ==> r == v_diff(self.xy(), splat(val)),
    {
        let x = self.x() - val;
        let y = self.y() - val;
        (x, y)
    }

    /// mul value to vector componentwise
    fn vmul(&self, val: Self::Val) -> (r: Vect<Self::Val>) where Self::Val: HMul
        requires
            can_v_mul(self.xy(), splat(val)),
        ensures
            mul_exact::<Self::Val>() ==> r == v_prod(self.xy(), splat(val)),
    {
        let x = self.x() * val;
        let y = self.y() * val;
        (x, y)
    }

    /// div vector by value componentwise
    fn vdiv(&self, val: Self::Val) -> (r: Vect<Self::Val>) where Self::Val: HDiv
        requires
            can_v_div(self.xy(), splat(val)),
        ensures
            div_exact::<Self::Val>() ==> r == v_quot(self.xy(), splat(val)),
    {
        let x = self.x() / val;
        let y = self.y() / val;
        (x, y)
    }

    /// map function over vector values
    fn map<B: Copy, F: Fn(Self::Val) -> B>(&self, func: F) -> (r: Vect<B>)
        requires
            func.requires((self.xy().0,)),
            func.requires((self.xy().1,)),
        ensures
            func.ensures((self.xy().0,), r.0),
            func.ensures((self.xy().1,), r.1),
    {
        let x = func(self.x());
        let y = func(self.y());
        (x, y)
    }

    /// determinant of two vectors a b : (a.x * b.y - a.y * b.x)
    fn det<V: Coords<Val = Self::Val>>(&self, other: V) -> (r: Self::Val) where
        Self::Val: HSub + HMul,

        requires
            can_det(self.xy(), other.xy()),
        ensures
            mul_exact::<Self::Val>() && sub_exact::<Self::Val>() ==> r == det_of(
                self.xy(),
                other.xy(),
            ),
    {
        self.x() * other.y() - self.y() * other.x()
    }

    /// dot product of two vectors a b : (a.x * b.x + a.y * b.y)
    fn dot<V: Coords<Val = Self::Val>>(&self, other: V) -> (r: Self::Val) where
        Self::Val: HAdd + HMul,

        requires
            can_dot(self.xy(), other.xy()),
        ensures
            mul_exact::<Self::Val>() && add_exact::<Self::Val>() ==> r == dot_of(
                self.xy(),
                other.xy(),
            ),
    {
        self.x() * other.x() + self.y() * other.y()
    }

    /// componentwise min of two vectors
    fn min<V: Coords<Val = Self::Val>>(&self, other: V) -> (r: Vect<Self::Val>) where
        Self::Val: HPOrd,

        ensures
            r.0 == self.xy().0 || r.0 == other.xy().0,
            r.1 == self.xy().1 || r.1 == other.xy().1,
            ord_exact::<Self::Val>() ==> r == v_min(self.xy(), other.xy()),
    {
        let x = self.x().min(other.x());
        let y = self.y().min(other.y());
        (x, y)
    }

    /// componentwise max of two vectors
    fn max<V: Coords<Val = Self::Val>>(&self, other: V) -> (r: Vect<Self::Val>) where
        Self::Val: HPOrd,

        ensures
            r.0 == self.xy().0 || r.0 == other.xy().0,
            r.1 == self.xy().1 || r.1 == other.xy().1,
            ord_exact::<Self::Val>() ==> r == v_max(self.xy(), other.xy()),
    {
        let x = self.x().max(other.x());
        let y = self.y().max(other.y());
        (x, y)
    }

    /// rotate vector 90°
    fn orth_l(&self) -> (r: Vect<Self::Val>) where Self::Val: HNeg
        requires
            can_neg(self.xy().1),
        ensures
            r.1 == self.xy().0,
            neg_exact::<Self::Val>() ==> r == orth_l_of(self.xy()),
    {
        (self.y().neg(), self.x())
    }

    /// rotate vector 270°
    fn orth_r(&self) -> (r: Vect<Self::Val>) where Self::Val: HNeg
        requires
            can_neg(self.xy().0),
        ensures
            r.0 == self.xy().1,
            neg_exact::<Self::Val>() ==> r == orth_r_of(self.xy()),
    {
        (self.y(), self.x().neg())
    }

    /// checks linear dependency of two vectors by checking if determinant is 0
    fn lin_dep<V: Coords<Val = Self::Val>>(&self, other: V) -> (r: bool) where
        Self::Val: Zero + HAdd + HSub + HMul + HPEq,

        requires
            can_det(self.xy(), other.xy()),
        ensures
            mul_exact::<Self::Val>() && sub_exact::<Self::Val>() && eq_exact::<Self::Val>() ==> r
                == same(det_of(self.xy(), other.xy()), Self::Val::zero_spec()),
    {
        let zero = Self::Val::zero();
        let det = self.det(other);
        det == zero
    }

    /// checks linear dependency of two vectors by checking if determinant is in [0 - eps, 0 + eps]
    fn lin_dep_eps<V: Coords<Val = Self::Val>>(&self, other: V, eps: Self::Val) -> (r: bool) where
        Self::Val: Zero + HAdd + HSub + HMul + HPOrd,

        requires
            can_det(self.xy(), other.xy()),
            can_sub(Self::Val::zero_spec(), eps),
            can_add(Self::Val::zero_spec(), eps),
        ensures
            mul_exact::<Self::Val>() && sub_exact::<Self::Val>() && add_exact::<Self::Val>()
                && ord_exact::<Self::Val>() ==> r == near_dep(self.xy(), other.xy(), eps),
    {
        let zero = Self::Val::zero();
        let det = self.det(other);
        det.inc_in(zero - eps, zero + eps)
    }

    /// returns determinant if two vectors are linear independent (det != 0)
    fn indep_det<V: Coords<Val = Self::Val>>(&self, other: V) -> (r: Option<Self::Val>) where
        Self::Val: Zero + HAdd + HSub + HMul + HPEq,

        requires
            can_det(self.xy(), other.xy()),
        ensures
            mul_exact::<Self::Val>() && sub_exact::<Self::Val>() && eq_exact::<Self::Val>() ==> r
                == if same(det_of(self.xy(), other.xy()), Self::Val::zero_spec()) {
                None
            } else {
                Some(det_of(self.xy(), other.xy()))
            },
    {
        let zero = Self::Val::zero();
        let det = self.det(other);
        match det == zero {
            false => Some(det),
            true => None,
        }
    }

    /// returns determinant if it lies outside of [0 - eps, 0 + eps]
    fn indep_det_eps<V: Coords<Val = Self::Val>>(&self, other: V, eps: Self::Val) -> (r: Option<
        Self::Val,
    >) where Self::Val: Zero + HAdd + HSub + HMul + HPOrd
        requires
            can_det(self.xy(), other.xy()),
            can_sub(Self::Val::zero_spec(), eps),
            can_add(Self::Val::zero_spec(), eps),
        ensures
            mul_exact::<Self::Val>() && sub_exact::<Self::Val>() && add_exact::<Self::Val>()
                && ord_exact::<Self::Val>() ==> r == if near_dep(self.xy(), other.xy(), eps) {
                None
            } else {
                Some(det_of(self.xy(), other.xy()))
            },
    {
        let zero = Self::Val::zero();
        let det = self.det(other);
        match det.inc_in(zero - eps, zero + eps) {
            false => Some(det),
            true => None,
        }
    }

    /// checks if other vector is left or right of self
    fn left<V: Coords<Val = Self::Val>>(&self, other: V) -> (r: bool) where
        Self::Val: Zero + HSub + HMul + HPOrd,

        requires
            can_det(self.xy(), other.xy()),
        ensures
            mul_exact::<Self::Val>() && sub_exact::<Self::Val>() && ord_exact::<Self::Val>() ==> r
                == is_left(self.xy(), other.xy()),
    {
        self.det(other) > Self::Val::zero()
    }

    /// angle between two vectors of floats
    fn angle<V: Coords<Val = Self::Val>>(&self, other: V) -> (r: Self::Val) where
        Self::Val: Float,

        requires
            arith_total::<Self::Val>(),
        ensures
            float_exact::<Self::Val>() ==> r == angle_of(self.xy(), other.xy()),
    {
        let dot = self.dot(&other);
        let div = self.len() * (other.x() * other.x() + other.y() * other.y()).sqrt();
        (dot / div).acos()
    }

    /// left angle of self vector to other vector, in \[0, 2 pi)
    fn angle_l<V: Coords<Val = Self::Val>>(&self, other: V) -> (r: Self::Val) where
        Self::Val: Zero + Two + Float + HSub + HMul + HPOrd,

        requires
            arith_total::<Self::Val>(),
        ensures
            float_exact::<Self::Val>() && ord_exact::<Self::Val>() && eq_exact::<Self::Val>() ==> r
                == angle_l_of(self.xy(), other.xy()),
    {
        let angle = self.angle(&other);
        let zero = Self::Val::zero();
        let det = self.det(&other);

        if det > zero || det == zero && self.dot(other) > zero {
            angle
        } else {
            Self::Val::two() * Self::Val::pi() - angle
        }
    }
}

impl<'a, V: Coords> Coords for &'a V {
    type Val = V::Val;

    open spec fn xy(&self) -> Vect<V::Val> {
        (**self).xy()
    }

    fn x(&self) -> V::Val {
        V::x(self)
    }

    fn y(&self) -> V::Val {
        V::y(self)
    }
}

impl<'a, V: Vector> Vector for &'a V {

}

impl<Val: Copy> Coords for (Val, Val) {
    type Val = Val;

    open spec fn xy(&self) -> (Val, Val) {
        *self
    }

    fn x(&self) -> Val {
        self.0
    }

    fn y(&self) -> Val {
        self.1
    }
}

impl<Val: Copy> Vector for (Val, Val) {

}

} // verus!
