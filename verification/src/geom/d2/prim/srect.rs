use vstd::prelude::*;
use crate::geom::d2::prim::rect::{can_contains_rect, contains_rect, v_max4, v_min4};
use crate::geom::d2::prim::seg::{Ends, Segment};
use crate::geom::d2::prim::tri::VTri;
use crate::geom::d2::prim::vect::{
    can_v_add, can_v_mul, orth_l_of, splat, v_prod, v_sum, Coords, Vect, Vector,
};
use crate::geom::d2::shape::d2::Bounds;
use crate::num::Zero;
use crate::ops::{
    add_exact, add_total, can_neg, mul_exact, mul_total, neg_exact, neg_total, sub_exact,
    sub_total, HAdd, HMul, HNeg, HSub,
};
use crate::rel::{ord_exact, HPOrd};

verus! {

/// 2D triangle defined by 1 position vector and 2 direction vectors where direction vectors are orthogonal
pub struct OVTri<V: Vector> {
    pub tri: VTri<V>,
}

/// 2D rectangle defined by 1 line segment "seg" and 1 side length ratio "rat"
///
/// where points a b c d are defined as follows
///
/// a = seg.a(); b = seg.b(); c = b + rat * rotate(90°, b - a); d = a + rat * rotate(90°, b - a);
pub struct SRect<S: Segment> {
    pub seg: S,
    pub rat: S::Val,
}

/// 2D rectangle defined by triangle with 1 position vector "pos()" and 2 direction vectors "dirs()" where direction vectors are orthogonal
///
/// where points a b c d are defined as follows
///
/// a = pos(); b = a + dirs().0; c = b + dirs().1; d = a + dirs().1;
pub struct TRect<V: Vector> {
    pub tri: OVTri<V>,
}

/// The four corners of the rectangle with the side from `a` to `b` and the
/// other side `rat` times as long, to the left of the first.
pub open spec fn side_corners<A: HAdd + HMul + HNeg>(a: Vect<A>, b: Vect<A>, ab: Vect<A>, rat: A) -> (
    Vect<A>,
    Vect<A>,
    Vect<A>,
    Vect<A>,
) {
    let up = v_prod(orth_l_of(ab), splat(rat));
    (a, b, v_sum(b, up), v_sum(a, up))
}

/// The four corners of the rectangle that the directions `ab` and `ad` span
/// from `a`.
pub open spec fn span_corners<A: HAdd>(a: Vect<A>, ab: Vect<A>, ad: Vect<A>) -> (
    Vect<A>,
    Vect<A>,
    Vect<A>,
    Vect<A>,
) {
    (a, v_sum(a, ab), v_sum(v_sum(a, ab), ad), v_sum(a, ad))
}

/// The second side of the rectangle over a side along `ab` can be computed.
pub open spec fn can_side<A: HMul + HNeg>(ab: Vect<A>, rat: A) -> bool {
    can_neg(ab.1) && can_v_mul(orth_l_of(ab), splat(rat))
}

/// The corners that `side_corners` names can be computed.
pub open spec fn can_side_corners<A: HAdd + HMul + HNeg>(
    a: Vect<A>,
    b: Vect<A>,
    ab: Vect<A>,
    rat: A,
) -> bool {
    let up = v_prod(orth_l_of(ab), splat(rat));
    can_side(ab, rat) && can_v_add(b, up) && can_v_add(a, up)
}

/// The corners that `span_corners` names can be computed.
pub open spec fn can_span_corners<A: HAdd>(a: Vect<A>, ab: Vect<A>, ad: Vect<A>) -> bool {
    can_v_add(a, ab) && can_v_add(v_sum(a, ab), ad) && can_v_add(a, ad)
}

impl<V: Vector> OVTri<V> {
    /// the triangle as it is, its directions taken to be orthogonal
    pub fn new_unchecked(tri: VTri<V>) -> (r: OVTri<V>)
        ensures
            r.tri == tri,
    {
        OVTri { tri: tri }
    }

    pub fn pos(&self) -> (r: Vect<V::Val>)
        ensures
            r == self.tri.a.xy(),
    {
        self.tri.a()
    }

    pub fn dir0(&self) -> (r: Vect<V::Val>)
        ensures
            r == self.tri.ab.xy(),
    {
        self.tri.ab()
    }

    pub fn dir1(&self) -> (r: Vect<V::Val>)
        ensures
            r == self.tri.ac.xy(),
    {
        self.tri.ac()
    }

    pub fn dirs(&self) -> (r: (Vect<V::Val>, Vect<V::Val>))
        ensures
            r == (self.tri.ab.xy(), self.tri.ac.xy()),
    {
        (self.tri.ab(), self.tri.ac())
    }
}

impl<S: Segment> SRect<S> {
    pub fn new(seg: S, rat: S::Val) -> (r: SRect<S>)
        ensures
            r.seg == seg,
            r.rat == rat,
    {
        SRect { seg: seg, rat: rat }
    }

    /// points of the rectangle, turning to the left for a positive ratio
    pub fn points(&self) -> (r: [Vect<S::Val>; 4]) where S::Val: HAdd + HSub + HMul + HNeg
        requires
            self.seg.wf(),
            if S::exact() && add_exact::<S::Val>() && mul_exact::<S::Val>() && neg_exact::<S::Val>() {
                can_side_corners(
                    self.seg.a_spec(),
                    self.seg.b_spec(),
                    self.seg.ab_spec(),
                    self.rat,
                )
            } else {
                add_total::<S::Val>() && mul_total::<S::Val>() && neg_total::<S::Val>()
            },
        ensures
            S::exact() && add_exact::<S::Val>() && mul_exact::<S::Val>() && neg_exact::<S::Val>()
                ==> (r[0], r[1], r[2], r[3]) == side_corners(
                self.seg.a_spec(),
                self.seg.b_spec(),
                self.seg.ab_spec(),
                self.rat,
            ),
    {
        let dir = self.seg.ab();
        let a = self.seg.a();
        let b = self.seg.b();

        let v = dir.orth_l().vmul(self.rat);

        let c = b.add(&v);
        let d = a.add(&v);

        [a, b, c, d]
    }

    /// linear span of the rectangle with 1 position vector and 2 orthogonal direction vectors
    pub fn span(&self) -> (r: (Vect<S::Val>, (Vect<S::Val>, Vect<S::Val>))) where
        S::Val: HAdd + HSub + HMul + HNeg,

        requires
            self.seg.wf(),
            if S::exact() && mul_exact::<S::Val>() && neg_exact::<S::Val>() {
                can_side(self.seg.ab_spec(), self.rat)
            } else {
                mul_total::<S::Val>() && neg_total::<S::Val>()
            },
        ensures
            S::exact() && mul_exact::<S::Val>() && neg_exact::<S::Val>() ==> r == (
                self.seg.a_spec(),
                (self.seg.ab_spec(), v_prod(orth_l_of(self.seg.ab_spec()), splat(self.rat))),
            ),
    {
        let pos = self.seg.a();
        let dir0 = self.seg.ab();
        let dir1 = self.seg.ab().orth_l().vmul(self.rat);

        (pos, (dir0, dir1))
    }

    /// x- / y-axis alligned bounding box of rectangle
    pub fn bounds(&self) -> (r: Bounds<Vect<S::Val>>) where
        S::Val: HAdd + HSub + HMul + HNeg + HPOrd,

        requires
            self.seg.wf(),
            if S::exact() && add_exact::<S::Val>() && mul_exact::<S::Val>() && neg_exact::<S::Val>() {
                can_side_corners(
                    self.seg.a_spec(),
                    self.seg.b_spec(),
                    self.seg.ab_spec(),
                    self.rat,
                )
            } else {
                add_total::<S::Val>() && mul_total::<S::Val>() && neg_total::<S::Val>()
            },
        ensures
            S::exact() && add_exact::<S::Val>() && mul_exact::<S::Val>() && neg_exact::<S::Val>()
                && ord_exact::<S::Val>() ==> ({
                let (a, b, c, d) = side_corners(
                    self.seg.a_spec(),
                    self.seg.b_spec(),
                    self.seg.ab_spec(),
                    self.rat,
                );
                r.corners() == (v_min4(a, b, c, d), v_max4(a, b, c, d))
            }),
    {
        let points = self.points();
        let a = points[0];
        let b = points[1];
        let c = points[2];
        let d = points[3];

        let min = Vector::min(&a, Vector::min(&b, Vector::min(&c, &d)));
        let max = Vector::max(&a, Vector::max(&b, Vector::max(&c, &d)));

        Bounds::new_unchecked(min, max)
    }

    /// checks if rectangle contains points
    pub fn contains(&self, pnt: &Vect<S::Val>) -> (r: bool) where
        S::Val: Zero + HAdd + HSub + HMul + HNeg + HPOrd,

        requires
            self.seg.wf(),
            if S::exact() && add_exact::<S::Val>() && sub_exact::<S::Val>() && mul_exact::<S::Val>()
                && neg_exact::<S::Val>() && ord_exact::<S::Val>() {
                can_side(self.seg.ab_spec(), self.rat) && can_contains_rect(
                    self.seg.a_spec(),
                    self.seg.ab_spec(),
                    v_prod(orth_l_of(self.seg.ab_spec()), splat(self.rat)),
                    *pnt,
                )
            } else {
                add_total::<S::Val>() && sub_total::<S::Val>() && mul_total::<S::Val>()
                    && neg_total::<S::Val>()
            },
        ensures
            S::exact() && add_exact::<S::Val>() && sub_exact::<S::Val>() && mul_exact::<S::Val>()
                && neg_exact::<S::Val>() && ord_exact::<S::Val>() ==> r == contains_rect(
                self.seg.a_spec(),
                self.seg.ab_spec(),
                v_prod(orth_l_of(self.seg.ab_spec()), splat(self.rat)),
                *pnt,
            ),
    {
        let (a, (ab, ac)) = self.span();
        let ap = pnt.sub(&a);

        let ap_dot_ab = ap.dot(&ab);
        let ap_dot_ac = ap.dot(&ac);

        let zero = S::Val::zero();

        let left = zero <= ap_dot_ab && ap_dot_ab <= ab.dot(&ab);
        let right = zero <= ap_dot_ac && ap_dot_ac <= ac.dot(&ac);

        left && right
    }
}

impl<V: Vector> TRect<V> {
    pub fn new(ovtri: OVTri<V>) -> (r: TRect<V>)
        ensures
            r.tri == ovtri,
    {
        TRect { tri: ovtri }
    }

    pub fn pos(&self) -> (r: Vect<V::Val>)
        ensures
            r == self.tri.tri.a.xy(),
    {
        self.tri.pos()
    }

    pub fn dirs(&self) -> (r: (Vect<V::Val>, Vect<V::Val>))
        ensures
            r == (self.tri.tri.ab.xy(), self.tri.tri.ac.xy()),
    {
        self.tri.dirs()
    }

    pub fn dir0(&self) -> (r: Vect<V::Val>)
        ensures
            r == self.tri.tri.ab.xy(),
    {
        self.tri.dir0()
    }

    pub fn dir1(&self) -> (r: Vect<V::Val>)
        ensures
            r == self.tri.tri.ac.xy(),
    {
        self.tri.dir1()
    }

    /// points of the rectangle: a = pos(); b = a + dirs().0; c = b + dirs().1; d = a + dirs().1;
    pub fn points(&self) -> (r: [Vect<V::Val>; 4]) where V::Val: HAdd
        requires
            if add_exact::<V::Val>() {
                can_span_corners(self.tri.tri.a.xy(), self.tri.tri.ab.xy(), self.tri.tri.ac.xy())
            } else {
                add_total::<V::Val>()
            },
        ensures
            add_exact::<V::Val>() ==> (r[0], r[1], r[2], r[3]) == span_corners(
                self.tri.tri.a.xy(),
                self.tri.tri.ab.xy(),
                self.tri.tri.ac.xy(),
            ),
    {
        let (ab, ad) = self.dirs();

        let a = self.pos();
        let b = a.add(&ab);
        let c = b.add(&ad);
        let d = a.add(&ad);

        [a, b, c, d]
    }

    /// linear span of the rectangle with 1 position vector and 2 orthogonal direction vectors
    pub fn span(&self) -> (r: (Vect<V::Val>, (Vect<V::Val>, Vect<V::Val>)))
        ensures
            r == (self.tri.tri.a.xy(), (self.tri.tri.ab.xy(), self.tri.tri.ac.xy())),
    {
        (self.pos(), self.dirs())
    }

    /// x- / y-axis alligned bounding box of rectangle
    pub fn bounds(&self) -> (r: Bounds<Vect<V::Val>>) where V::Val: HAdd + HPOrd
        requires
            if add_exact::<V::Val>() {
                can_span_corners(self.tri.tri.a.xy(), self.tri.tri.ab.xy(), self.tri.tri.ac.xy())
            } else {
                add_total::<V::Val>()
            },
        ensures
            add_exact::<V::Val>() && ord_exact::<V::Val>() ==> ({
                let (a, b, c, d) = span_corners(
                    self.tri.tri.a.xy(),
                    self.tri.tri.ab.xy(),
                    self.tri.tri.ac.xy(),
                );
                r.corners() == (v_min4(a, b, c, d), v_max4(a, b, c, d))
            }),
    {
        let points = self.points();
        let a = points[0];
        let b = points[1];
        let c = points[2];
        let d = points[3];

        let min = Vector::min(&a, Vector::min(&b, Vector::min(&c, &d)));
        let max = Vector::max(&a, Vector::max(&b, Vector::max(&c, &d)));

        Bounds::new_unchecked(min, max)
    }

    /// checks if rectangle contains points
    pub fn contains(&self, pnt: &Vect<V::Val>) -> (r: bool) where
        V::Val: Zero + HAdd + HSub + HMul + HPOrd,

        requires
            if add_exact::<V::Val>() && sub_exact::<V::Val>() && mul_exact::<V::Val>()
                && ord_exact::<V::Val>() {
                can_contains_rect(
                    self.tri.tri.a.xy(),
                    self.tri.tri.ab.xy(),
                    self.tri.tri.ac.xy(),
                    *pnt,
                )
            } else {
                add_total::<V::Val>() && sub_total::<V::Val>() && mul_total::<V::Val>()
            },
        ensures
            add_exact::<V::Val>() && sub_exact::<V::Val>() && mul_exact::<V::Val>()
                && ord_exact::<V::Val>() ==> r == contains_rect(
                self.tri.tri.a.xy(),
                self.tri.tri.ab.xy(),
                self.tri.tri.ac.xy(),
                *pnt,
            ),
    {
        let a = self.pos();
        let ap = pnt.sub(&a);
        let (ab, ac) = self.dirs();

        let ap_dot_ab = ap.dot(&ab);
        let ap_dot_ac = ap.dot(&ac);

        let zero = V::Val::zero();

        let left = zero <= ap_dot_ab && ap_dot_ab <= ab.dot(&ab);
        let right = zero <= ap_dot_ac && ap_dot_ac <= ac.dot(&ac);

        left && right
    }
}

} // verus!
