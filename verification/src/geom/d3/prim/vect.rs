use vstd::prelude::*;
use core::ops::Neg;
use crate::num::{float_exact, total, Float};
use crate::ops::{diff, neg_exact, negated, prod, sum};
use crate::rel::{eq_exact, same, HPEq};

verus! {

/// A 3D vector that owns its three values.
pub type Vect<Val> = (Val, Val, Val);

/// Anything that has an x, a y and a z coordinate of one scalar type.
pub trait Coords: Sized {
    /// value type of vector
    type Val: Copy;

    /// the three coordinates
    spec fn xyz(&self) -> Vect<Self::Val>;

    /// first value of vector
    fn x(&self) -> (x: Self::Val)
        ensures
            x == self.xyz().0,
    ;

    /// second value of vector
    fn y(&self) -> (y: Self::Val)
        ensures
            y == self.xyz().1,
    ;

    /// third value of vector
    fn z(&self) -> (z: Self::Val)
        ensures
            z == self.xyz().2,
    ;
}

/// all three coordinates compare equal
pub open spec fn v_same<A: PartialEq>(a: Vect<A>, b: Vect<A>) -> bool {
    same(a.0, b.0) && same(a.1, b.1) && same(a.2, b.2)
}

/// `v` turned about the y axis by `angle`
pub open spec fn rot_y_of<A: Float>(v: Vect<A>, angle: A) -> Vect<A> {
    let sin = angle.sin_spec();
    let cos = angle.cos_spec();
    (sum(prod(v.0, cos), prod(v.2, sin)), v.1, sum(prod(negated(v.0), sin), prod(v.2, cos)))
}

/// `v` turned about the z axis by `angle`
pub open spec fn rot_z_of<A: Float>(v: Vect<A>, angle: A) -> Vect<A> {
    let sin = angle.sin_spec();
    let cos = angle.cos_spec();
    (diff(prod(v.0, cos), prod(v.1, sin)), sum(prod(v.0, sin), prod(v.1, cos)), v.2)
}

/// 3D vectors over any scalar type.
pub trait Vector: Coords {
    /// create new vector of other vector
    fn of<V: Coords<Val = Self::Val>>(vect: V) -> (r: Vect<Self::Val>)
        ensures
            r == vect.xyz(),
    {
        (vect.x(), vect.y(), vect.z())
    }

    /// checks equality componentwise
    fn equal<V: Coords<Val = Self::Val>>(&self, other: V) -> (r: bool) where Self::Val: HPEq
        ensures
            eq_exact::<Self::Val>() ==> r == v_same(self.xyz(), other.xyz()),
    {
        self.x() == other.x() && self.y() == other.y() && self.z() == other.z()
    }

    /// the vector turned about the y axis by `angle`
    fn rotate_y(&self, angle: Self::Val) -> (r: Vect<Self::Val>) where Self::Val: Float
        requires
            total::<Self::Val>(),
        ensures
            r.1 == self.xyz().1,
            float_exact::<Self::Val>() && neg_exact::<Self::Val>() ==> r == rot_y_of(
                self.xyz(),
                angle,
            ),
    {
        let sin = angle.sin();
        let cos = angle.cos();

        let x = self.x() * cos + self.z() * sin;
        let y = self.y();
        let z = self.x().neg() * sin + self.z() * cos;

        (x, y, z)
    }

    /// the vector turned about the z axis by `angle`
    fn rotate_z(&self, angle: Self::Val) -> (r: Vect<Self::Val>) where Self::Val: Float
        requires
            total::<Self::Val>(),
        ensures
            r.2 == self.xyz().2,
            float_exact::<Self::Val>() ==> r == rot_z_of(self.xyz(), angle),
    {
        let sin = angle.sin();
        let cos = angle.cos();

        let x = self.x() * cos - self.y() * sin;
        let y = self.x() * sin + self.y() * cos;
        let z = self.z();

        (x, y, z)
    }
}

impl<'a, V: Coords> Coords for &'a V {
    type Val = V::Val;

    open spec fn xyz(&self) -> Vect<V::Val> {
        (**self).xyz()
    }

    fn x(&self) -> V::Val {
        V::x(self)
    }

    fn y(&self) -> V::Val {
        V::y(self)
    }

    fn z(&self) -> V::Val {
        V::z(self)
    }
}

impl<'a, V: Vector> Vector for &'a V {

}

impl<Val: Copy> Coords for (Val, Val, Val) {
    type Val = Val;

    open spec fn xyz(&self) -> (Val, Val, Val) {
        *self
    }

    fn x(&self) -> Val {
        self.0
    }

    fn y(&self) -> Val {
        self.1
    }

    fn z(&self) -> Val {
        self.2
    }
}

impl<Val: Copy> Vector for (Val, Val, Val) {

}

} // verus!
