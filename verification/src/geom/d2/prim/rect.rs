use vstd::prelude::*;
use crate::geom::d2::prim::parts::Parts;
use crate::geom::d2::prim::vect::{
    can_dot, can_v_add, can_v_div, can_v_mul, can_v_sub, dot_of, splat, v_diff, v_max, v_min,
    v_prod, v_quot, v_sum, Coords, Vect, Vector,
};
use crate::geom::d2::shape::d2::{Bounds, Shape};
use crate::num::Zero;
use crate::ops::{
    add_exact, add_total, div_exact, mul_exact, mul_total, sub_exact, sub_total, HAdd, HDiv,
    HMul, HSub,
};
use crate::rel::{at_most, ord_exact, HPOrd};

verus! {

/// 2D rectangle defined by 4 points "a" "b" "c" "d"
pub struct PRect<V: Vector> {
    pub a: V,
    pub b: V,
    pub c: V,
    pub d: V,
}

/// 2D rectangle defined by 1 position vector "a" and 3 direction vectors "ab" "ac" "ad"
pub struct VRect<V: Vector> {
    pub a: V,
    pub ab: V,
    pub ac: V,
    pub ad: V,
}

/// The point `p` lies in the rectangle that the sides `ab` and `ad` span
/// from `a`: its offset from `a`, projected onto each side, falls on the side.
pub open spec fn contains_rect<A: Zero + HAdd + HSub + HMul + PartialOrd>(
    a: Vect<A>,
    ab: Vect<A>,
    ad: Vect<A>,
    p: Vect<A>,
) -> bool {
    let ap = v_diff(p, a);
    &&& at_most(A::zero_spec(), dot_of(ap, ab))
    &&& at_most(dot_of(ap, ab), dot_of(ab, ab))
    &&& at_most(A::zero_spec(), dot_of(ap, ad))
    &&& at_most(dot_of(ap, ad), dot_of(ad, ad))
}

/// Every operation that the test of `contains_rect` carries out on these
/// values is defined, where the scalar's operations return what their
/// specifications name.
pub open spec fn can_contains_rect<A: Zero + HAdd + HSub + HMul + PartialOrd>(
    a: Vect<A>,
    ab: Vect<A>,
    ad: Vect<A>,
    p: Vect<A>,
) -> bool {
    let ap = v_diff(p, a);
    &&& can_v_sub(p, a)
    &&& can_dot(ap, ab)
    &&& can_dot(ap, ad)
    &&& at_most(A::zero_spec(), dot_of(ap, ab)) ==> can_dot(ab, ab)
    &&& at_most(A::zero_spec(), dot_of(ap, ad)) ==> can_dot(ad, ad)
}

/// the componentwise minimum of four points
pub open spec fn v_min4<A: PartialOrd>(a: Vect<A>, b: Vect<A>, c: Vect<A>, d: Vect<A>) -> Vect<A> {
    v_min(a, v_min(b, v_min(c, d)))
}

/// the componentwise maximum of four points
pub open spec fn v_max4<A: PartialOrd>(a: Vect<A>, b: Vect<A>, c: Vect<A>, d: Vect<A>) -> Vect<A> {
    v_max(a, v_max(b, v_max(c, d)))
}

impl<P: Vector> PRect<P> {
    /// create new PRect of 4 points "a" "b" "c" "d" without any checks
    pub fn new_unchecked(a: P, b: P, c: P, d: P) -> (rect: PRect<P>)
        ensures
            rect.a == a,
            rect.b == b,
            rect.c == c,
            rect.d == d,
    {
        PRect { a: a, b: b, c: c, d: d }
    }

    /// create new rectangle of other rectangle
    pub fn of<R: RectPoints<Val = P::Val>>(rect: R) -> (r: PRect<Vect<P::Val>>)
        requires
            rect.wf(),
        ensures
            R::exact() ==> r == (PRect {
                a: rect.a_spec(),
                b: rect.b_spec(),
                c: rect.c_spec(),
                d: rect.d_spec(),
            }),
    {
        let a = rect.a();
        let b = rect.b();
        let c = rect.c();
        let d = rect.d();

        PRect { a: a, b: b, c: c, d: d }
    }

    /// first point of rectangle
    pub fn a(&self) -> (r: Vect<P::Val>)
        ensures
            r == self.a.xy(),
    {
        self.a.to()
    }

    /// second point of rectangle
    pub fn b(&self) -> (r: Vect<P::Val>)
        ensures
            r == self.b.xy(),
    {
        self.b.to()
    }

    /// third point of rectangle
    pub fn c(&self) -> (r: Vect<P::Val>)
        ensures
            r == self.c.xy(),
    {
        self.c.to()
    }

    /// fourth point of rectangle
    pub fn d(&self) -> (r: Vect<P::Val>)
        ensures
            r == self.d.xy(),
    {
        self.d.to()
    }

    /// direction vector of rectangle with ab() = b() - a()
    pub fn ab(&self) -> (r: Vect<P::Val>) where P::Val: HSub
        requires
            can_v_sub(self.b.xy(), self.a.xy()),
        ensures
            sub_exact::<P::Val>() ==> r == v_diff(self.b.xy(), self.a.xy()),
    {
        self.b.sub(&self.a)
    }

    /// direction vector of rectangle with ac() = c() - a()
    pub fn ac(&self) -> (r: Vect<P::Val>) where P::Val: HSub
        requires
            can_v_sub(self.c.xy(), self.a.xy()),
        ensures
            sub_exact::<P::Val>() ==> r == v_diff(self.c.xy(), self.a.xy()),
    {
        self.c.sub(&self.a)
    }

    /// direction vector of rectangle with ad() = d() - a()
    pub fn ad(&self) -> (r: Vect<P::Val>) where P::Val: HSub
        requires
            can_v_sub(self.d.xy(), self.a.xy()),
        ensures
            sub_exact::<P::Val>() ==> r == v_diff(self.d.xy(), self.a.xy()),
    {
        self.d.sub(&self.a)
    }

    /// add vector to rectangle points (translation)
    pub fn add<V: Coords<Val = P::Val>>(&self, vect: V) -> (r: PRect<Vect<P::Val>>) where P::Val: HAdd
        requires
            can_v_add(self.a.xy(), vect.xy()),
            can_v_add(self.b.xy(), vect.xy()),
            can_v_add(self.c.xy(), vect.xy()),
            can_v_add(self.d.xy(), vect.xy()),
        ensures
            add_exact::<P::Val>() ==> r == (PRect {
                a: v_sum(self.a.xy(), vect.xy()),
                b: v_sum(self.b.xy(), vect.xy()),
                c: v_sum(self.c.xy(), vect.xy()),
                d: v_sum(self.d.xy(), vect.xy()),
            }),
    {
        let a = self.a.add(&vect);
        let b = self.b.add(&vect);
        let c = self.c.add(&vect);
        let d = self.d.add(&vect);

        PRect { a: a, b: b, c: c, d: d }
    }

    /// sub vector from rectangle points (translation)
    pub fn sub<V: Coords<Val = P::Val>>(&self, vect: V) -> (r: PRect<Vect<P::Val>>) where P::Val: HSub
        requires
            can_v_sub(self.a.xy(), vect.xy()),
            can_v_sub(self.b.xy(), vect.xy()),
            can_v_sub(self.c.xy(), vect.xy()),
            can_v_sub(self.d.xy(), vect.xy()),
        ensures
            sub_exact::<P::Val>() ==> r == (PRect {
                a: v_diff(self.a.xy(), vect.xy()),
                b: v_diff(self.b.xy(), vect.xy()),
                c: v_diff(self.c.xy(), vect.xy()),
                d: v_diff(self.d.xy(), vect.xy()),
            }),
    {
        let a = self.a.sub(&vect);
        let b = self.b.sub(&vect);
        let c = self.c.sub(&vect);
        let d = self.d.sub(&vect);

        PRect { a: a, b: b, c: c, d: d }
    }

    /// mul vector to rectangle points
    pub fn mul<V: Coords<Val = P::Val>>(&self, vect: V) -> (r: PRect<Vect<P::Val>>) where P::Val: HMul
        requires
            can_v_mul(self.a.xy(), vect.xy()),
            can_v_mul(self.b.xy(), vect.xy()),
            can_v_mul(self.c.xy(), vect.xy()),
            can_v_mul(self.d.xy(), vect.xy()),
        ensures
            mul_exact::<P::Val>() ==> r == (PRect {
                a: v_prod(self.a.xy(), vect.xy()),
                b: v_prod(self.b.xy(), vect.xy()),
                c: v_prod(self.c.xy(), vect.xy()),
                d: v_prod(self.d.xy(), vect.xy()),
            }),
    {
        let a = self.a.mul(&vect);
        let b = self.b.mul(&vect);
        let c = self.c.mul(&vect);
        let d = self.d.mul(&vect);

        PRect { a: a, b: b, c: c, d: d }
    }

    /// div vector from rectangle points
    pub fn div<V: Coords<Val = P::Val>>(&self, vect: V) -> (r: PRect<Vect<P::Val>>) where P::Val: HDiv
        requires
            can_v_div(self.a.xy(), vect.xy()),
            can_v_div(self.b.xy(), vect.xy()),
            can_v_div(self.c.xy(), vect.xy()),
            can_v_div(self.d.xy(), vect.xy()),
        ensures
            div_exact::<P::Val>() ==> r == (PRect {
                a: v_quot(self.a.xy(), vect.xy()),
                b: v_quot(self.b.xy(), vect.xy()),
                c: v_quot(self.c.xy(), vect.xy()),
                d: v_quot(self.d.xy(), vect.xy()),
            }),
    {
        let a = self.a.div(&vect);
        let b = self.b.div(&vect);
        let c = self.c.div(&vect);
        let d = self.d.div(&vect);

        PRect { a: a, b: b, c: c, d: d }
    }

    /// add value to the values of the rectangle points
    pub fn vadd(&self, val: P::Val) -> (r: PRect<Vect<P::Val>>) where P::Val: HAdd
        requires
            can_v_add(self.a.xy(), splat(val)),
            can_v_add(self.b.xy(), splat(val)),
            can_v_add(self.c.xy(), splat(val)),
            can_v_add(self.d.xy(), splat(val)),
        ensures
            add_exact::<P::Val>() ==> r == (PRect {
                a: v_sum(self.a.xy(), splat(val)),
                b: v_sum(self.b.xy(), splat(val)),
                c: v_sum(self.c.xy(), splat(val)),
                d: v_sum(self.d.xy(), splat(val)),
            }),
    {
        let a = self.a.vadd(val);
        let b = self.b.vadd(val);
        let c = self.c.vadd(val);
        let d = self.d.vadd(val);

        PRect { a: a, b: b, c: c, d: d }
    }

    /// sub value from the values of the rectangle points
    pub fn vsub(&self, val: P::Val) -> (r: PRect<Vect<P::Val>>) where P::Val: HSub
        requires
            can_v_sub(self.a.xy(), splat(val)),
            can_v_sub(self.b.xy(), splat(val)),
            can_v_sub(self.c.xy(), splat(val)),
            can_v_sub(self.d.xy(), splat(val)),
        ensures
            sub_exact::<P::Val>() ==> r == (PRect {
                a: v_diff(self.a.xy(), splat(val)),
                b: v_diff(self.b.xy(), splat(val)),
                c: v_diff(self.c.xy(), splat(val)),
                d: v_diff(self.d.xy(), splat(val)),
            }),
    {
        let a = self.a.vsub(val);
        let b = self.b.vsub(val);
        let c = self.c.vsub(val);
        let d = self.d.vsub(val);

        PRect { a: a, b: b, c: c, d: d }
    }

    /// mul vector values with value (scaling)
    pub fn vmul(&self, val: P::Val) -> (r: PRect<Vect<P::Val>>) where P::Val: HMul
        requires
            can_v_mul(self.a.xy(), splat(val)),
            can_v_mul(self.b.xy(), splat(val)),
            can_v_mul(self.c.xy(), splat(val)),
            can_v_mul(self.d.xy(), splat(val)),
        ensures
            mul_exact::<P::Val>() ==> r == (PRect {
                a: v_prod(self.a.xy(), splat(val)),
                b: v_prod(self.b.xy(), splat(val)),
                c: v_prod(self.c.xy(), splat(val)),
                d: v_prod(self.d.xy(), splat(val)),
            }),
    {
        let a = self.a.vmul(val);
        let b = self.b.vmul(val);
        let c = self.c.vmul(val);
        let d = self.d.vmul(val);

        PRect { a: a, b: b, c: c, d: d }
    }

    /// div vector values with value (scaling)
    pub fn vdiv(&self, val: P::Val) -> (r: PRect<Vect<P::Val>>) where P::Val: HDiv
        requires
            can_v_div(self.a.xy(), splat(val)),
            can_v_div(self.b.xy(), splat(val)),
            can_v_div(self.c.xy(), splat(val)),
            can_v_div(self.d.xy(), splat(val)),
        ensures
            div_exact::<P::Val>() ==> r == (PRect {
                a: v_quot(self.a.xy(), splat(val)),
                b: v_quot(self.b.xy(), splat(val)),
                c: v_quot(self.c.xy(), splat(val)),
                d: v_quot(self.d.xy(), splat(val)),
            }),
    {
        let a = self.a.vdiv(val);
        let b = self.b.vdiv(val);
        let c = self.c.vdiv(val);
        let d = self.d.vdiv(val);

        PRect { a: a, b: b, c: c, d: d }
    }

    /// points of rectangle with pnts() = \[a(), b(), c(), d()\]
    pub fn pnts(&self) -> (r: [Vect<P::Val>; 4])
        ensures
            r[0] == self.a.xy(),
            r[1] == self.b.xy(),
            r[2] == self.c.xy(),
            r[3] == self.d.xy(),
    {
        [self.a(), self.b(), self.c(), self.d()]
    }

    /// vectors of rectangle with vects() = \[a(), ab(), ac(), ad()\]
    pub fn vects(&self) -> (r: [Vect<P::Val>; 4]) where P::Val: HSub
        requires
            can_v_sub(self.b.xy(), self.a.xy()),
            can_v_sub(self.c.xy(), self.a.xy()),
            can_v_sub(self.d.xy(), self.a.xy()),
        ensures
            r[0] == self.a.xy(),
            sub_exact::<P::Val>() ==> r[1] == v_diff(self.b.xy(), self.a.xy()),
            sub_exact::<P::Val>() ==> r[2] == v_diff(self.c.xy(), self.a.xy()),
            sub_exact::<P::Val>() ==> r[3] == v_diff(self.d.xy(), self.a.xy()),
    {
        [self.a(), self.ab(), self.ac(), self.ad()]
    }

    /// direction vectors of rectangle with dirs() = \[ab(), ac(), ad()\]
    pub fn dirs(&self) -> (r: [Vect<P::Val>; 3]) where P::Val: HSub
        requires
            can_v_sub(self.b.xy(), self.a.xy()),
            can_v_sub(self.c.xy(), self.a.xy()),
            can_v_sub(self.d.xy(), self.a.xy()),
        ensures
            sub_exact::<P::Val>() ==> r[0] == v_diff(self.b.xy(), self.a.xy()),
            sub_exact::<P::Val>() ==> r[1] == v_diff(self.c.xy(), self.a.xy()),
            sub_exact::<P::Val>() ==> r[2] == v_diff(self.d.xy(), self.a.xy()),
    {
        [self.ab(), self.ac(), self.ad()]
    }

    /// bounding axe aligned rectangle
    pub fn bounds(&self) -> (r: Bounds<Vect<P::Val>>) where P::Val: HPOrd
        ensures
            ord_exact::<P::Val>() ==> r.corners() == (
                v_min4(self.a.xy(), self.b.xy(), self.c.xy(), self.d.xy()),
                v_max4(self.a.xy(), self.b.xy(), self.c.xy(), self.d.xy()),
            ),
    {
        let min = self.a.min(self.b.min(self.c.min(&self.d)));
        let max = self.a.max(self.b.max(self.c.max(&self.d)));

        Bounds::new_unchecked(min, max)
    }

    /// Every operation that `contains` carries out for this point is defined:
    /// on these values where the scalar's operations return what their
    /// specifications name, else on all values.
    pub open spec fn contains_defined(&self, pnt: Vect<P::Val>) -> bool where
        P::Val: Zero + HAdd + HSub + HMul + HPOrd,
     {
        if add_exact::<P::Val>() && sub_exact::<P::Val>() && mul_exact::<P::Val>()
            && ord_exact::<P::Val>() {
            &&& can_v_sub(self.b.xy(), self.a.xy())
            &&& can_v_sub(self.d.xy(), self.a.xy())
            &&& can_contains_rect(
                self.a.xy(),
                v_diff(self.b.xy(), self.a.xy()),
                v_diff(self.d.xy(), self.a.xy()),
                pnt,
            )
        } else {
            add_total::<P::Val>() && sub_total::<P::Val>() && mul_total::<P::Val>()
        }
    }

    /// check if rectangle contains point
    pub fn contains<V: Vector<Val = P::Val>>(&self, pnt: V) -> (r: bool) where
        P::Val: Zero + HAdd + HSub + HMul + HPOrd,

        requires
            self.contains_defined(pnt.xy()),
        ensures
            add_exact::<P::Val>() && sub_exact::<P::Val>() && mul_exact::<P::Val>()
                && ord_exact::<P::Val>() ==> r == contains_rect(
                self.a.xy(),
                v_diff(self.b.xy(), self.a.xy()),
                v_diff(self.d.xy(), self.a.xy()),
                pnt.xy(),
            ),
    {
        let ab = self.ab();
        let ad = self.ad();
        let ap = pnt.sub(self.a());

        let ap_dot_ab = ap.dot(&ab);
        let ap_dot_ad = ap.dot(&ad);

        let zero = P::Val::zero();

        let ab_check = zero <= ap_dot_ab && ap_dot_ab <= ab.dot(&ab);
        let ad_check = zero <= ap_dot_ad && ap_dot_ad <= ad.dot(&ad);

        ab_check && ad_check
    }
}

impl<P: Vector> VRect<P> {
    /// create new VRect of 1 position vector "a" and 3 direction vectors "ab" "ac" "ad" without any checks
    pub fn new_unchecked(a: P, ab: P, ac: P, ad: P) -> (rect: VRect<P>)
        ensures
            rect.a == a,
            rect.ab == ab,
            rect.ac == ac,
            rect.ad == ad,
    {
        VRect { a: a, ab: ab, ac: ac, ad: ad }
    }

    /// create new rectangle of other rectangle
    pub fn of<R: RectPoints<Val = P::Val>>(rect: R) -> (r: VRect<Vect<P::Val>>)
        requires
            rect.wf(),
        ensures
            R::exact() ==> r == (VRect {
                a: rect.a_spec(),
                ab: rect.ab_spec(),
                ac: rect.ac_spec(),
                ad: rect.ad_spec(),
            }),
    {
        let a = rect.a();
        let ab = rect.ab();
        let ac = rect.ac();
        let ad = rect.ad();

        VRect { a: a, ab: ab, ac: ac, ad: ad }
    }

    /// first point of rectangle
    pub fn a(&self) -> (r: Vect<P::Val>)
        ensures
            r == self.a.xy(),
    {
        self.a.to()
    }

    /// second point of rectangle
    pub fn b(&self) -> (r: Vect<P::Val>) where P::Val: HAdd
        requires
            can_v_add(self.a.xy(), self.ab.xy()),
        ensures
            add_exact::<P::Val>() ==> r == v_sum(self.a.xy(), self.ab.xy()),
    {
        self.a.add(&self.ab)
    }

    /// third point of rectangle
    pub fn c(&self) -> (r: Vect<P::Val>) where P::Val: HAdd
        requires
            can_v_add(self.a.xy(), self.ac.xy()),
        ensures
            add_exact::<P::Val>() ==> r == v_sum(self.a.xy(), self.ac.xy()),
    {
        self.a.add(&self.ac)
    }

    /// fourth point of rectangle
    pub fn d(&self) -> (r: Vect<P::Val>) where P::Val: HAdd
        requires
            can_v_add(self.a.xy(), self.ad.xy()),
        ensures
            add_exact::<P::Val>() ==> r == v_sum(self.a.xy(), self.ad.xy()),
    {
        self.a.add(&self.ad)
    }

    /// direction vector of rectangle with ab() = b() - a()
    pub fn ab(&self) -> (r: Vect<P::Val>)
        ensures
            r == self.ab.xy(),
    {
        self.ab.to()
    }

    /// direction vector of rectangle with ac() = c() - a()
    pub fn ac(&self) -> (r: Vect<P::Val>)
        ensures
            r == self.ac.xy(),
    {
        self.ac.to()
    }

    /// direction vector of rectangle with ad() = d() - a()
    pub fn ad(&self) -> (r: Vect<P::Val>)
        ensures
            r == self.ad.xy(),
    {
        self.ad.to()
    }

    /// add vector to rectangle points (translation)
    pub fn add<V: Coords<Val = P::Val>>(&self, vect: V) -> (r: VRect<Vect<P::Val>>) where P::Val: HAdd
        requires
            can_v_add(self.a.xy(), vect.xy()),
        ensures
            add_exact::<P::Val>() ==> r == (VRect {
                a: v_sum(self.a.xy(), vect.xy()),
                ab: self.ab.xy(),
                ac: self.ac.xy(),
                ad: self.ad.xy(),
            }),
    {
        let a = self.a.add(&vect);
        let ab = self.ab.to();
        let ac = self.ac.to();
        let ad = self.ad.to();

        VRect { a: a, ab: ab, ac: ac, ad: ad }
    }

    /// sub vector from rectangle points (translation)
    pub fn sub<V: Coords<Val = P::Val>>(&self, vect: V) -> (r: VRect<Vect<P::Val>>) where P::Val: HSub
        requires
            can_v_sub(self.a.xy(), vect.xy()),
        ensures
            sub_exact::<P::Val>() ==> r == (VRect {
                a: v_diff(self.a.xy(), vect.xy()),
                ab: self.ab.xy(),
                ac: self.ac.xy(),
                ad: self.ad.xy(),
            }),
    {
        let a = self.a.sub(&vect);
        let ab = self.ab.to();
        let ac = self.ac.to();
        let ad = self.ad.to();

        VRect { a: a, ab: ab, ac: ac, ad: ad }
    }

    /// mul vector to rectangle points
    pub fn mul<V: Coords<Val = P::Val>>(&self, vect: V) -> (r: VRect<Vect<P::Val>>) where P::Val: HMul
        requires
            can_v_mul(self.a.xy(), vect.xy()),
            can_v_mul(self.ab.xy(), vect.xy()),
            can_v_mul(self.ac.xy(), vect.xy()),
            can_v_mul(self.ad.xy(), vect.xy()),
        ensures
            mul_exact::<P::Val>() ==> r == (VRect {
                a: v_prod(self.a.xy(), vect.xy()),
                ab: v_prod(self.ab.xy(), vect.xy()),
                ac: v_prod(self.ac.xy(), vect.xy()),
                ad: v_prod(self.ad.xy(), vect.xy()),
            }),
    {
        let a = self.a.mul(&vect);
        let ab = self.ab.mul(&vect);
        let ac = self.ac.mul(&vect);
        let ad = self.ad.mul(&vect);

        VRect { a: a, ab: ab, ac: ac, ad: ad }
    }

    /// div vector from rectangle points
    pub fn div<V: Coords<Val = P::Val>>(&self, vect: V) -> (r: VRect<Vect<P::Val>>) where P::Val: HDiv
        requires
            can_v_div(self.a.xy(), vect.xy()),
            can_v_div(self.ab.xy(), vect.xy()),
            can_v_div(self.ac.xy(), vect.xy()),
            can_v_div(self.ad.xy(), vect.xy()),
        ensures
            div_exact::<P::Val>() ==> r == (VRect {
                a: v_quot(self.a.xy(), vect.xy()),
                ab: v_quot(self.ab.xy(), vect.xy()),
                ac: v_quot(self.ac.xy(), vect.xy()),
                ad: v_quot(self.ad.xy(), vect.xy()),
            }),
    {
        let a = self.a.div(&vect);
        let ab = self.ab.div(&vect);
        let ac = self.ac.div(&vect);
        let ad = self.ad.div(&vect);

        VRect { a: a, ab: ab, ac: ac, ad: ad }
    }

    /// add value to the values of the rectangle points
    pub fn vadd(&self, val: P::Val) -> (r: VRect<Vect<P::Val>>) where P::Val: HAdd
        requires
            can_v_add(self.a.xy(), splat(val)),
        ensures
            add_exact::<P::Val>() ==> r == (VRect {
                a: v_sum(self.a.xy(), splat(val)),
                ab: self.ab.xy(),
                ac: self.ac.xy(),
                ad: self.ad.xy(),
            }),
    {
        let a = self.a.vadd(val);
        let ab = self.ab.to();
        let ac = self.ac.to();
        let ad = self.ad.to();

        VRect { a: a, ab: ab, ac: ac, ad: ad }
    }

    /// sub value from the values of the rectangle points
    pub fn vsub(&self, val: P::Val) -> (r: VRect<Vect<P::Val>>) where P::Val: HSub
        requires
            can_v_sub(self.a.xy(), splat(val)),
        ensures
            sub_exact::<P::Val>() ==> r == (VRect {
                a: v_diff(self.a.xy(), splat(val)),
                ab: self.ab.xy(),
                ac: self.ac.xy(),
                ad: self.ad.xy(),
            }),
    {
        let a = self.a.vsub(val);
        let ab = self.ab.to();
        let ac = self.ac.to();
        let ad = self.ad.to();

        VRect { a: a, ab: ab, ac: ac, ad: ad }
    }

    /// mul vector values with value (scaling)
    pub fn vmul(&self, val: P::Val) -> (r: VRect<Vect<P::Val>>) where P::Val: HMul
        requires
            can_v_mul(self.a.xy(), splat(val)),
            can_v_mul(self.ab.xy(), splat(val)),
            can_v_mul(self.ac.xy(), splat(val)),
            can_v_mul(self.ad.xy(), splat(val)),
        ensures
            mul_exact::<P::Val>() ==> r == (VRect {
                a: v_prod(self.a.xy(), splat(val)),
                ab: v_prod(self.ab.xy(), splat(val)),
                ac: v_prod(self.ac.xy(), splat(val)),
                ad: v_prod(self.ad.xy(), splat(val)),
            }),
    {
        let a = self.a.vmul(val);
        let ab = self.ab.vmul(val);
        let ac = self.ac.vmul(val);
        let ad = self.ad.vmul(val);

        VRect { a: a, ab: ab, ac: ac, ad: ad }
    }

    /// div vector values with value (scaling)
    pub fn vdiv(&self, val: P::Val) -> (r: VRect<Vect<P::Val>>) where P::Val: HDiv
        requires
            can_v_div(self.a.xy(), splat(val)),
            can_v_div(self.ab.xy(), splat(val)),
            can_v_div(self.ac.xy(), splat(val)),
            can_v_div(self.ad.xy(), splat(val)),
        ensures
            div_exact::<P::Val>() ==> r == (VRect {
                a: v_quot(self.a.xy(), splat(val)),
                ab: v_quot(self.ab.xy(), splat(val)),
                ac: v_quot(self.ac.xy(), splat(val)),
                ad: v_quot(self.ad.xy(), splat(val)),
            }),
    {
        let a = self.a.vdiv(val);
        let ab = self.ab.vdiv(val);
        let ac = self.ac.vdiv(val);
        let ad = self.ad.vdiv(val);

        VRect { a: a, ab: ab, ac: ac, ad: ad }
    }

    /// points of rectangle with pnts() = \[a(), b(), c(), d()\]
    pub fn pnts(&self) -> (r: [Vect<P::Val>; 4]) where P::Val: HAdd
        requires
            can_v_add(self.a.xy(), self.ab.xy()),
            can_v_add(self.a.xy(), self.ac.xy()),
            can_v_add(self.a.xy(), self.ad.xy()),
        ensures
            r[0] == self.a.xy(),
            add_exact::<P::Val>() ==> r[1] == v_sum(self.a.xy(), self.ab.xy()),
            add_exact::<P::Val>() ==> r[2] == v_sum(self.a.xy(), self.ac.xy()),
            add_exact::<P::Val>() ==> r[3] == v_sum(self.a.xy(), self.ad.xy()),
    {
        [self.a(), self.b(), self.c(), self.d()]
    }

    /// vectors of rectangle with vects() = \[a(), ab(), ac(), ad()\]
    pub fn vects(&self) -> (r: [Vect<P::Val>; 4])
        ensures
            r[0] == self.a.xy(),
            r[1] == self.ab.xy(),
            r[2] == self.ac.xy(),
            r[3] == self.ad.xy(),
    {
        [self.a(), self.ab(), self.ac(), self.ad()]
    }

    /// direction vectors of rectangle with dirs() = \[ab(), ac(), ad()\]
    pub fn dirs(&self) -> (r: [Vect<P::Val>; 3])
        ensures
            r[0] == self.ab.xy(),
            r[1] == self.ac.xy(),
            r[2] == self.ad.xy(),
    {
        [self.ab(), self.ac(), self.ad()]
    }

    /// bounding axe aligned rectangle
    pub fn bounds(&self) -> (r: Bounds<Vect<P::Val>>) where P::Val: HAdd + HPOrd
        requires
            can_v_add(self.a.xy(), self.ab.xy()),
            can_v_add(self.a.xy(), self.ac.xy()),
            can_v_add(self.a.xy(), self.ad.xy()),
        ensures
            add_exact::<P::Val>() && ord_exact::<P::Val>() ==> r.corners() == (
                v_min4(
                    self.a.xy(),
                    v_sum(self.a.xy(), self.ab.xy()),
                    v_sum(self.a.xy(), self.ac.xy()),
                    v_sum(self.a.xy(), self.ad.xy()),
                ),
                v_max4(
                    self.a.xy(),
                    v_sum(self.a.xy(), self.ab.xy()),
                    v_sum(self.a.xy(), self.ac.xy()),
                    v_sum(self.a.xy(), self.ad.xy()),
                ),
            ),
    {
        let b = self.b();
        let c = self.c();
        let d = self.d();

        let min = self.a.min(Vector::min(&b, Vector::min(&c, &d)));
        let max = self.a.max(Vector::max(&b, Vector::max(&c, &d)));

        Bounds::new_unchecked(min, max)
    }

    /// Every operation that `contains` carries out for this point is defined:
    /// on these values where the scalar's operations return what their
    /// specifications name, else on all values.
    pub open spec fn contains_defined(&self, pnt: Vect<P::Val>) -> bool where
        P::Val: Zero + HAdd + HSub + HMul + HPOrd,
     {
        if add_exact::<P::Val>() && sub_exact::<P::Val>() && mul_exact::<P::Val>()
            && ord_exact::<P::Val>() {
            can_contains_rect(self.a.xy(), self.ab.xy(), self.ad.xy(), pnt)
        } else {
            add_total::<P::Val>() && sub_total::<P::Val>() && mul_total::<P::Val>()
        }
    }

    /// check if rectangle contains point
    pub fn contains<V: Vector<Val = P::Val>>(&self, pnt: V) -> (r: bool) where
        P::Val: Zero + HAdd + HSub + HMul + HPOrd,

        requires
            self.contains_defined(pnt.xy()),
        ensures
            add_exact::<P::Val>() && sub_exact::<P::Val>() && mul_exact::<P::Val>()
                && ord_exact::<P::Val>() ==> r == contains_rect(
                self.a.xy(),
                self.ab.xy(),
                self.ad.xy(),
                pnt.xy(),
            ),
    {
        let ab = self.ab();
        let ad = self.ad();
        let ap = pnt.sub(self.a());

        let ap_dot_ab = ap.dot(&ab);
        let ap_dot_ad = ap.dot(&ad);

        let zero = P::Val::zero();

        let ab_check = zero <= ap_dot_ab && ap_dot_ab <= ab.dot(&ab);
        let ad_check = zero <= ap_dot_ad && ap_dot_ad <= ad.dot(&ad);

        ab_check && ad_check
    }
}

/// The part of a rectangle that other code reads: its corners and its three
/// directions.
pub trait RectPoints: Shape {
    spec fn a_spec(&self) -> Vect<Self::Val>;

    spec fn b_spec(&self) -> Vect<Self::Val>;

    spec fn c_spec(&self) -> Vect<Self::Val>;

    spec fn d_spec(&self) -> Vect<Self::Val>;

    spec fn ab_spec(&self) -> Vect<Self::Val>;

    spec fn ac_spec(&self) -> Vect<Self::Val>;

    spec fn ad_spec(&self) -> Vect<Self::Val>;

    /// first point of rectangle
    fn a(&self) -> (r: Vect<Self::Val>)
        requires
            self.wf(),
        ensures
            Self::exact() ==> r == self.a_spec(),
    ;

    /// second point of rectangle
    fn b(&self) -> (r: Vect<Self::Val>)
        requires
            self.wf(),
        ensures
            Self::exact() ==> r == self.b_spec(),
    ;

    /// third point of rectangle
    fn c(&self) -> (r: Vect<Self::Val>)
        requires
            self.wf(),
        ensures
            Self::exact() ==> r == self.c_spec(),
    ;

    /// fourth point of rectangle
    fn d(&self) -> (r: Vect<Self::Val>)
        requires
            self.wf(),
        ensures
            Self::exact() ==> r == self.d_spec(),
    ;

    /// direction vector of rectangle with ab() = b() - a()
    fn ab(&self) -> (r: Vect<Self::Val>)
        requires
            self.wf(),
        ensures
            Self::exact() ==> r == self.ab_spec(),
    ;

    /// direction vector of rectangle with ac() = c() - a()
    fn ac(&self) -> (r: Vect<Self::Val>)
        requires
            self.wf(),
        ensures
            Self::exact() ==> r == self.ac_spec(),
    ;

    /// direction vector of rectangle with ad() = d() - a()
    fn ad(&self) -> (r: Vect<Self::Val>)
        requires
            self.wf(),
        ensures
            Self::exact() ==> r == self.ad_spec(),
    ;
}

/// A rectangle in any form.
pub trait Rectangle: RectPoints {
    /// The owned rectangle with the given position and directions, or corners.
    spec fn of_spec(
        a: Vect<Self::Val>,
        b: Vect<Self::Val>,
        c: Vect<Self::Val>,
        d: Vect<Self::Val>,
        ab: Vect<Self::Val>,
        ac: Vect<Self::Val>,
        ad: Vect<Self::Val>,
    ) -> Self::Own;

    /// create new rectangle of other rectangle
    fn of<R: RectPoints<Val = Self::Val>>(rect: R) -> (r: Self::Own)
        requires
            rect.wf(),
        ensures
            R::exact() ==> r == Self::of_spec(
                rect.a_spec(),
                rect.b_spec(),
                rect.c_spec(),
                rect.d_spec(),
                rect.ab_spec(),
                rect.ac_spec(),
                rect.ad_spec(),
            ),
    ;

    /// points of rectangle with pnts() = \[a(), b(), c(), d()\]
    fn pnts(&self) -> (r: [Vect<Self::Val>; 4])
        requires
            self.wf(),
        ensures
            Self::exact() ==> r[0] == self.a_spec() && r[1] == self.b_spec() && r[2]
                == self.c_spec() && r[3] == self.d_spec(),
    {
        [self.a(), self.b(), self.c(), self.d()]
    }

    /// vectors of rectangle with vects() = \[a(), ab(), ac(), ad()\]
    fn vects(&self) -> (r: [Vect<Self::Val>; 4])
        requires
            self.wf(),
        ensures
            Self::exact() ==> r[0] == self.a_spec() && r[1] == self.ab_spec() && r[2]
                == self.ac_spec() && r[3] == self.ad_spec(),
    {
        [self.a(), self.ab(), self.ac(), self.ad()]
    }

    /// direction vectors of rectangle with dirs() = \[ab(), ac(), ad()\]
    fn dirs(&self) -> (r: [Vect<Self::Val>; 3])
        requires
            self.wf(),
        ensures
            Self::exact() ==> r[0] == self.ab_spec() && r[1] == self.ac_spec() && r[2]
                == self.ad_spec(),
    {
        [self.ab(), self.ac(), self.ad()]
    }
}

impl<'a, Rect: RectPoints> RectPoints for &'a Rect {
    open spec fn a_spec(&self) -> Vect<Rect::Val> {
        (**self).a_spec()
    }

    open spec fn b_spec(&self) -> Vect<Rect::Val> {
        (**self).b_spec()
    }

    open spec fn c_spec(&self) -> Vect<Rect::Val> {
        (**self).c_spec()
    }

    open spec fn d_spec(&self) -> Vect<Rect::Val> {
        (**self).d_spec()
    }

    open spec fn ab_spec(&self) -> Vect<Rect::Val> {
        (**self).ab_spec()
    }

    open spec fn ac_spec(&self) -> Vect<Rect::Val> {
        (**self).ac_spec()
    }

    open spec fn ad_spec(&self) -> Vect<Rect::Val> {
        (**self).ad_spec()
    }

    fn a(&self) -> Vect<Rect::Val> {
        Rect::a(self)
    }

    fn b(&self) -> Vect<Rect::Val> {
        Rect::b(self)
    }

    fn c(&self) -> Vect<Rect::Val> {
        Rect::c(self)
    }

    fn d(&self) -> Vect<Rect::Val> {
        Rect::d(self)
    }

    fn ab(&self) -> Vect<Rect::Val> {
        Rect::ab(self)
    }

    fn ac(&self) -> Vect<Rect::Val> {
        Rect::ac(self)
    }

    fn ad(&self) -> Vect<Rect::Val> {
        Rect::ad(self)
    }
}

impl<'a, Rect: Rectangle> Rectangle for &'a Rect {
    open spec fn of_spec(
        a: Vect<Rect::Val>,
        b: Vect<Rect::Val>,
        c: Vect<Rect::Val>,
        d: Vect<Rect::Val>,
        ab: Vect<Rect::Val>,
        ac: Vect<Rect::Val>,
        ad: Vect<Rect::Val>,
    ) -> Rect::Own {
        Rect::of_spec(a, b, c, d, ab, ac, ad)
    }

    fn of<R: RectPoints<Val = Self::Val>>(rect: R) -> Rect::Own {
        Rect::of(rect)
    }
}

impl<P: Vector> Parts for PRect<P> {
    type Val = P::Val;

    open spec fn positions(&self) -> Seq<Vect<P::Val>> {
        seq![self.a.xy(), self.b.xy(), self.c.xy(), self.d.xy()]
    }

    open spec fn directions(&self) -> Seq<Vect<P::Val>> {
        seq![]
    }
}

impl<P: Vector> Shape for PRect<P> where P::Val: Zero + HAdd + HSub + HMul + HPOrd {
    type Own = PRect<Vect<P::Val>>;

    open spec fn wf(&self) -> bool {
        can_v_sub(self.b.xy(), self.a.xy()) && can_v_sub(self.c.xy(), self.a.xy()) && can_v_sub(
            self.d.xy(),
            self.a.xy(),
        )
    }

    open spec fn can_contain(&self, pnt: Vect<P::Val>) -> bool {
        self.contains_defined(pnt)
    }

    open spec fn exact() -> bool {
        add_exact::<P::Val>() && sub_exact::<P::Val>() && mul_exact::<P::Val>()
            && ord_exact::<P::Val>()
    }

    open spec fn bounds_spec(&self) -> (Vect<P::Val>, Vect<P::Val>) {
        (
            v_min4(self.a.xy(), self.b.xy(), self.c.xy(), self.d.xy()),
            v_max4(self.a.xy(), self.b.xy(), self.c.xy(), self.d.xy()),
        )
    }

    open spec fn contains_spec(&self, pnt: Vect<P::Val>) -> bool {
        contains_rect(
            self.a.xy(),
            v_diff(self.b.xy(), self.a.xy()),
            v_diff(self.d.xy(), self.a.xy()),
            pnt,
        )
    }

    fn add<V: Coords<Val = P::Val>>(&self, vect: V) -> PRect<Vect<P::Val>> where P::Val: HAdd {
        assert(self.positions()[0] == self.a.xy());
        assert(self.positions()[1] == self.b.xy());
        assert(self.positions()[2] == self.c.xy());
        assert(self.positions()[3] == self.d.xy());
        PRect::add(self, vect)
    }

    fn sub<V: Coords<Val = P::Val>>(&self, vect: V) -> PRect<Vect<P::Val>> where P::Val: HSub {
        assert(self.positions()[0] == self.a.xy());
        assert(self.positions()[1] == self.b.xy());
        assert(self.positions()[2] == self.c.xy());
        assert(self.positions()[3] == self.d.xy());
        PRect::sub(self, vect)
    }

    fn mul<V: Coords<Val = P::Val>>(&self, vect: V) -> PRect<Vect<P::Val>> where P::Val: HMul {
        assert(self.positions()[0] == self.a.xy());
        assert(self.positions()[1] == self.b.xy());
        assert(self.positions()[2] == self.c.xy());
        assert(self.positions()[3] == self.d.xy());
        PRect::mul(self, vect)
    }

    fn div<V: Coords<Val = P::Val>>(&self, vect: V) -> PRect<Vect<P::Val>> where P::Val: HDiv {
        assert(self.positions()[0] == self.a.xy());
        assert(self.positions()[1] == self.b.xy());
        assert(self.positions()[2] == self.c.xy());
        assert(self.positions()[3] == self.d.xy());
        PRect::div(self, vect)
    }

    fn vadd(&self, val: P::Val) -> PRect<Vect<P::Val>> where P::Val: HAdd {
        assert(self.positions()[0] == self.a.xy());
        assert(self.positions()[1] == self.b.xy());
        assert(self.positions()[2] == self.c.xy());
        assert(self.positions()[3] == self.d.xy());
        PRect::vadd(self, val)
    }

    fn vsub(&self, val: P::Val) -> PRect<Vect<P::Val>> where P::Val: HSub {
        assert(self.positions()[0] == self.a.xy());
        assert(self.positions()[1] == self.b.xy());
        assert(self.positions()[2] == self.c.xy());
        assert(self.positions()[3] == self.d.xy());
        PRect::vsub(self, val)
    }

    fn vmul(&self, val: P::Val) -> PRect<Vect<P::Val>> where P::Val: HMul {
        assert(self.positions()[0] == self.a.xy());
        assert(self.positions()[1] == self.b.xy());
        assert(self.positions()[2] == self.c.xy());
        assert(self.positions()[3] == self.d.xy());
        PRect::vmul(self, val)
    }

    fn vdiv(&self, val: P::Val) -> PRect<Vect<P::Val>> where P::Val: HDiv {
        assert(self.positions()[0] == self.a.xy());
        assert(self.positions()[1] == self.b.xy());
        assert(self.positions()[2] == self.c.xy());
        assert(self.positions()[3] == self.d.xy());
        PRect::vdiv(self, val)
    }

    fn bounds(&self) -> Bounds<Vect<P::Val>> {
        PRect::bounds(self)
    }

    fn contains<V: Vector<Val = P::Val>>(&self, pnt: V) -> bool {
        PRect::contains(self, pnt)
    }
}

impl<P: Vector> RectPoints for PRect<P> where P::Val: Zero + HAdd + HSub + HMul + HPOrd {
    open spec fn a_spec(&self) -> Vect<P::Val> {
        self.a.xy()
    }

    open spec fn b_spec(&self) -> Vect<P::Val> {
        self.b.xy()
    }

    open spec fn c_spec(&self) -> Vect<P::Val> {
        self.c.xy()
    }

    open spec fn d_spec(&self) -> Vect<P::Val> {
        self.d.xy()
    }

    open spec fn ab_spec(&self) -> Vect<P::Val> {
        v_diff(self.b.xy(), self.a.xy())
    }

    open spec fn ac_spec(&self) -> Vect<P::Val> {
        v_diff(self.c.xy(), self.a.xy())
    }

    open spec fn ad_spec(&self) -> Vect<P::Val> {
        v_diff(self.d.xy(), self.a.xy())
    }

    fn a(&self) -> Vect<P::Val> {
        PRect::a(self)
    }

    fn b(&self) -> Vect<P::Val> {
        PRect::b(self)
    }

    fn c(&self) -> Vect<P::Val> {
        PRect::c(self)
    }

    fn d(&self) -> Vect<P::Val> {
        PRect::d(self)
    }

    fn ab(&self) -> Vect<P::Val> {
        PRect::ab(self)
    }

    fn ac(&self) -> Vect<P::Val> {
        PRect::ac(self)
    }

    fn ad(&self) -> Vect<P::Val> {
        PRect::ad(self)
    }
}

impl<P: Vector> Rectangle for PRect<P> where P::Val: Zero + HAdd + HSub + HMul + HPOrd {
    open spec fn of_spec(
        a: Vect<P::Val>,
        b: Vect<P::Val>,
        c: Vect<P::Val>,
        d: Vect<P::Val>,
        ab: Vect<P::Val>,
        ac: Vect<P::Val>,
        ad: Vect<P::Val>,
    ) -> PRect<Vect<P::Val>> {
        PRect { a: a, b: b, c: c, d: d }
    }

    fn of<R: RectPoints<Val = P::Val>>(rect: R) -> PRect<Vect<P::Val>> {
        PRect::<P>::of(rect)
    }
}

impl<P: Vector> Parts for VRect<P> {
    type Val = P::Val;

    open spec fn positions(&self) -> Seq<Vect<P::Val>> {
        seq![self.a.xy()]
    }

    open spec fn directions(&self) -> Seq<Vect<P::Val>> {
        seq![self.ab.xy(), self.ac.xy(), self.ad.xy()]
    }
}

impl<P: Vector> Shape for VRect<P> where P::Val: Zero + HAdd + HSub + HMul + HPOrd {
    type Own = VRect<Vect<P::Val>>;

    open spec fn wf(&self) -> bool {
        can_v_add(self.a.xy(), self.ab.xy()) && can_v_add(self.a.xy(), self.ac.xy()) && can_v_add(
            self.a.xy(),
            self.ad.xy(),
        )
    }

    open spec fn can_contain(&self, pnt: Vect<P::Val>) -> bool {
        self.contains_defined(pnt)
    }

    open spec fn exact() -> bool {
        add_exact::<P::Val>() && sub_exact::<P::Val>() && mul_exact::<P::Val>()
            && ord_exact::<P::Val>()
    }

    open spec fn bounds_spec(&self) -> (Vect<P::Val>, Vect<P::Val>) {
        (
            v_min4(self.a.xy(), v_sum(self.a.xy(), self.ab.xy()), v_sum(self.a.xy(), self.ac.xy()), v_sum(self.a.xy(), self.ad.xy())),
            v_max4(self.a.xy(), v_sum(self.a.xy(), self.ab.xy()), v_sum(self.a.xy(), self.ac.xy()), v_sum(self.a.xy(), self.ad.xy())),
        )
    }

    open spec fn contains_spec(&self, pnt: Vect<P::Val>) -> bool {
        contains_rect(self.a.xy(), self.ab.xy(), self.ad.xy(), pnt)
    }

    fn add<V: Coords<Val = P::Val>>(&self, vect: V) -> VRect<Vect<P::Val>> where P::Val: HAdd {
        assert(self.positions()[0] == self.a.xy());
        VRect::add(self, vect)
    }

    fn sub<V: Coords<Val = P::Val>>(&self, vect: V) -> VRect<Vect<P::Val>> where P::Val: HSub {
        assert(self.positions()[0] == self.a.xy());
        VRect::sub(self, vect)
    }

    fn mul<V: Coords<Val = P::Val>>(&self, vect: V) -> VRect<Vect<P::Val>> where P::Val: HMul {
        assert(self.positions()[0] == self.a.xy());
        assert(self.directions()[0] == self.ab.xy());
        assert(self.directions()[1] == self.ac.xy());
        assert(self.directions()[2] == self.ad.xy());
        VRect::mul(self, vect)
    }

    fn div<V: Coords<Val = P::Val>>(&self, vect: V) -> VRect<Vect<P::Val>> where P::Val: HDiv {
        assert(self.positions()[0] == self.a.xy());
        assert(self.directions()[0] == self.ab.xy());
        assert(self.directions()[1] == self.ac.xy());
        assert(self.directions()[2] == self.ad.xy());
        VRect::div(self, vect)
    }

    fn vadd(&self, val: P::Val) -> VRect<Vect<P::Val>> where P::Val: HAdd {
        assert(self.positions()[0] == self.a.xy());
        VRect::vadd(self, val)
    }

    fn vsub(&self, val: P::Val) -> VRect<Vect<P::Val>> where P::Val: HSub {
        assert(self.positions()[0] == self.a.xy());
        VRect::vsub(self, val)
    }

    fn vmul(&self, val: P::Val) -> VRect<Vect<P::Val>> where P::Val: HMul {
        assert(self.positions()[0] == self.a.xy());
        assert(self.directions()[0] == self.ab.xy());
        assert(self.directions()[1] == self.ac.xy());
        assert(self.directions()[2] == self.ad.xy());
        VRect::vmul(self, val)
    }

    fn vdiv(&self, val: P::Val) -> VRect<Vect<P::Val>> where P::Val: HDiv {
        assert(self.positions()[0] == self.a.xy());
        assert(self.directions()[0] == self.ab.xy());
        assert(self.directions()[1] == self.ac.xy());
        assert(self.directions()[2] == self.ad.xy());
        VRect::vdiv(self, val)
    }

    fn bounds(&self) -> Bounds<Vect<P::Val>> {
        VRect::bounds(self)
    }

    fn contains<V: Vector<Val = P::Val>>(&self, pnt: V) -> bool {
        VRect::contains(self, pnt)
    }
}

impl<P: Vector> RectPoints for VRect<P> where P::Val: Zero + HAdd + HSub + HMul + HPOrd {
    open spec fn a_spec(&self) -> Vect<P::Val> {
        self.a.xy()
    }

    open spec fn b_spec(&self) -> Vect<P::Val> {
        v_sum(self.a.xy(), self.ab.xy())
    }

    open spec fn c_spec(&self) -> Vect<P::Val> {
        v_sum(self.a.xy(), self.ac.xy())
    }

    open spec fn d_spec(&self) -> Vect<P::Val> {
        v_sum(self.a.xy(), self.ad.xy())
    }

    open spec fn ab_spec(&self) -> Vect<P::Val> {
        self.ab.xy()
    }

    open spec fn ac_spec(&self) -> Vect<P::Val> {
        self.ac.xy()
    }

    open spec fn ad_spec(&self) -> Vect<P::Val> {
        self.ad.xy()
    }

    fn a(&self) -> Vect<P::Val> {
        VRect::a(self)
    }

    fn b(&self) -> Vect<P::Val> {
        VRect::b(self)
    }

    fn c(&self) -> Vect<P::Val> {
        VRect::c(self)
    }

    fn d(&self) -> Vect<P::Val> {
        VRect::d(self)
    }

    fn ab(&self) -> Vect<P::Val> {
        VRect::ab(self)
    }

    fn ac(&self) -> Vect<P::Val> {
        VRect::ac(self)
    }

    fn ad(&self) -> Vect<P::Val> {
        VRect::ad(self)
    }
}

impl<P: Vector> Rectangle for VRect<P> where P::Val: Zero + HAdd + HSub + HMul + HPOrd {
    open spec fn of_spec(
        a: Vect<P::Val>,
        b: Vect<P::Val>,
        c: Vect<P::Val>,
        d: Vect<P::Val>,
        ab: Vect<P::Val>,
        ac: Vect<P::Val>,
        ad: Vect<P::Val>,
    ) -> VRect<Vect<P::Val>> {
        VRect { a: a, ab: ab, ac: ac, ad: ad }
    }

    fn of<R: RectPoints<Val = P::Val>>(rect: R) -> VRect<Vect<P::Val>> {
        VRect::<P>::of(rect)
    }
}

} // verus!
