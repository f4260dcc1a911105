use vstd::prelude::*;
use crate::geom::d2::prim::parts::Parts;
use crate::geom::d2::prim::seg::{can_point_at, can_ratio, intsec_ratio, point_at, Ends, Segment};
use crate::geom::d2::prim::vect::{can_det, near_dep, Coords, Vect, Vector};
use crate::num::{One, Zero};
use crate::ops::{arith_exact, arith_total, can_add, can_sub, HAdd, HDiv, HMul, HSub};
use crate::rel::{ord_exact, HPOrd};

verus! {

/// 2D line defined by 1 line segment "seg"
pub struct SLine<S: Segment> {
    pub seg: S,
}

/// The point where the line from `a` along `ab` meets the line from `c`
/// along `cd`: none where the determinant of the two directions is within
/// `eps` of zero.
pub open spec fn line_intsec_of<A: Zero + HAdd + HSub + HMul + HDiv + PartialOrd>(
    a: Vect<A>,
    ab: Vect<A>,
    c: Vect<A>,
    cd: Vect<A>,
    eps: A,
) -> Option<Vect<A>> {
    if near_dep(cd, ab, eps) {
        None
    } else {
        Some(point_at(a, ab, intsec_ratio(a, ab, c, cd)))
    }
}

/// Every operation that `intsec_line` carries out on these values is
/// defined, where the scalar's operations return what their specifications
/// name.
pub open spec fn can_line_intsec<A: Zero + HAdd + HSub + HMul + HDiv + PartialOrd>(
    a: Vect<A>,
    ab: Vect<A>,
    c: Vect<A>,
    cd: Vect<A>,
    eps: A,
) -> bool {
    &&& can_det(cd, ab)
    &&& can_sub(A::zero_spec(), eps)
    &&& can_add(A::zero_spec(), eps)
    &&& !near_dep(cd, ab, eps) ==> can_ratio(a, ab, c, cd) && can_point_at(
        a,
        ab,
        intsec_ratio(a, ab, c, cd),
    )
}

/// A segment taken as the line through its two points.
pub trait Line: Segment {
    /// optional intersection between two lines
    fn intsec_line<B: Ends<Val = Self::Val>>(&self, other: &B, eps: Self::Val) -> (r: Option<
        Vect<Self::Val>,
    >) where Self::Val: One + Zero + HAdd + HSub + HMul + HDiv + HPOrd
        requires
            self.wf(),
            other.wf(),
            if Self::exact() && B::exact() && arith_exact::<Self::Val>() && ord_exact::<Self::Val>() {
                can_line_intsec(
                    self.a_spec(),
                    self.ab_spec(),
                    other.a_spec(),
                    other.ab_spec(),
                    eps,
                )
            } else {
                arith_total::<Self::Val>()
            },
        ensures
            Self::exact() && B::exact() && arith_exact::<Self::Val>() && ord_exact::<Self::Val>()
                ==> r == line_intsec_of(
                self.a_spec(),
                self.ab_spec(),
                other.a_spec(),
                other.ab_spec(),
                eps,
            ),
    {
        let a = self.a();
        let ab = self.ab();
        let c = other.a();
        let cd = other.ab();

        let div = cd.indep_det_eps(&ab, eps)?;
        let r = (cd.det(&c) + a.det(&cd)) / div;

        Some(a.add(ab.vmul(r)))
    }
}

impl<L: Segment> SLine<L> {
    /// the line through the two points of `seg`
    pub fn new(seg: L) -> (line: SLine<L>)
        ensures
            line.seg == seg,
    {
        SLine { seg: seg }
    }
}

impl<L: Segment> Parts for SLine<L> {
    type Val = L::Val;

    open spec fn positions(&self) -> Seq<Vect<L::Val>> {
        self.seg.positions()
    }

    open spec fn directions(&self) -> Seq<Vect<L::Val>> {
        self.seg.directions()
    }
}

impl<L: Segment> Ends for SLine<L> {
    open spec fn wf(&self) -> bool {
        self.seg.wf()
    }

    open spec fn exact() -> bool {
        L::exact()
    }

    open spec fn a_spec(&self) -> Vect<L::Val> {
        self.seg.a_spec()
    }

    open spec fn b_spec(&self) -> Vect<L::Val> {
        self.seg.b_spec()
    }

    open spec fn ab_spec(&self) -> Vect<L::Val> {
        self.seg.ab_spec()
    }

    fn a(&self) -> Vect<L::Val> {
        self.seg.a()
    }

    fn b(&self) -> Vect<L::Val> {
        self.seg.b()
    }

    fn ab(&self) -> Vect<L::Val> {
        self.seg.ab()
    }
}

impl<L: Segment> Segment for SLine<L> {
    type Own = L::Own;

    open spec fn of_spec(a: Vect<L::Val>, b: Vect<L::Val>, ab: Vect<L::Val>) -> L::Own {
        L::of_spec(a, b, ab)
    }

    fn of<S: Ends<Val = L::Val>>(seg: S) -> L::Own {
        L::of(seg)
    }

    fn add<V: Coords<Val = L::Val>>(&self, vect: V) -> L::Own where L::Val: HAdd {
        Segment::add(&self.seg, vect)
    }

    fn sub<V: Coords<Val = L::Val>>(&self, vect: V) -> L::Own where L::Val: HSub {
        Segment::sub(&self.seg, vect)
    }

    fn mul<V: Coords<Val = L::Val>>(&self, vect: V) -> L::Own where L::Val: HMul {
        Segment::mul(&self.seg, vect)
    }

    fn div<V: Coords<Val = L::Val>>(&self, vect: V) -> L::Own where L::Val: HDiv {
        Segment::div(&self.seg, vect)
    }

    fn vadd(&self, val: L::Val) -> L::Own where L::Val: HAdd {
        Segment::vadd(&self.seg, val)
    }

    fn vsub(&self, val: L::Val) -> L::Own where L::Val: HSub {
        Segment::vsub(&self.seg, val)
    }

    fn vmul(&self, val: L::Val) -> L::Own where L::Val: HMul {
        Segment::vmul(&self.seg, val)
    }

    fn vdiv(&self, val: L::Val) -> L::Own where L::Val: HDiv {
        Segment::vdiv(&self.seg, val)
    }
}

impl<L: Segment> Line for SLine<L> {

}

} // verus!
