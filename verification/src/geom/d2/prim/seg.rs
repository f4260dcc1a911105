use vstd::prelude::*;
use crate::geom::d2::prim::vect::{
    can_det, can_v_add, can_v_mul, can_v_sub, det_of, near_dep, splat, v_diff, v_prod, v_sum, Coords,
    Vect, Vector,
};
use crate::geom::d2::prim::parts::{
    all_can_add, all_can_div, all_can_mul, all_can_sub, diffs, prods, quots, sums, Parts,
};
use crate::num::{One, Zero};
use crate::ops::{
    add_exact, arith_exact, arith_total, can_add, can_div, can_sub, div_exact, mul_exact,
    sub_exact,
};
use crate::ops::{diff, quot, sum, HAdd, HDiv, HMul, HSub};
use crate::rel::{eq_exact, ord_exact, same, within, HPEq, HPOrd};

verus! {

/// 2D line segment defined by 2 points "a" "b"
pub struct PSeg<V: Vector> {
    pub a: V,
    pub b: V,
}

/// 2D line segment defined by 1 position vector "a" and 1 direction vector "ab"
pub struct VSeg<V: Vector> {
    pub a: V,
    pub ab: V,
}

impl<V: Vector> PSeg<V> {
    /// create new PSeg of 2 points "a" "b"
    pub fn new(a: V, b: V) -> (seg: PSeg<V>)
        ensures
            seg.a == a,
            seg.b == b,
    {
        PSeg { a: a, b: b }
    }
}

impl<V: Vector> VSeg<V> {
    /// create new VSeg of 1 position vector "a" and 1 direction vector "ab"
    pub fn new(a: V, ab: V) -> (seg: VSeg<V>)
        ensures
            seg.a == a,
            seg.ab == ab,
    {
        VSeg { a: a, ab: ab }
    }
}

/// Where along the first segment the line through the second one meets it:
/// the `r` with `s_a + r * s_ab` on that line,
/// `r = (det(o_ab, o_a) + det(s_a, o_ab)) / det(o_ab, s_ab)`.
pub open spec fn intsec_ratio<A: HAdd + HSub + HMul + HDiv>(
    s_a: Vect<A>,
    s_ab: Vect<A>,
    o_a: Vect<A>,
    o_ab: Vect<A>,
) -> A {
    quot(sum(det_of(o_ab, o_a), det_of(s_a, o_ab)), det_of(o_ab, s_ab))
}

/// The point `s_a + r * s_ab`.
pub open spec fn point_at<A: HAdd + HMul>(s_a: Vect<A>, s_ab: Vect<A>, r: A) -> Vect<A> {
    v_sum(s_a, v_prod(s_ab, splat(r)))
}

/// The intersection of the segment from `s_a` along `s_ab` with the segment
/// from `o_a` along `o_ab`: none where the two directions are linearly
/// dependent, and none where the ratio along one of the two segments falls
/// outside `[0, 1]`.
pub open spec fn intsec_of<A: Zero + One + HAdd + HSub + HMul + HDiv + PartialEq + PartialOrd>(
    s_a: Vect<A>,
    s_ab: Vect<A>,
    o_a: Vect<A>,
    o_ab: Vect<A>,
) -> Option<Vect<A>> {
    let r = intsec_ratio(s_a, s_ab, o_a, o_ab);
    let s = intsec_ratio(o_a, o_ab, s_a, s_ab);
    if same(det_of(o_ab, s_ab), A::zero_spec()) {
        None
    } else if within(r, A::zero_spec(), A::one_spec()) && within(s, A::zero_spec(), A::one_spec()) {
        Some(point_at(s_a, s_ab, r))
    } else {
        None
    }
}

/// As `intsec_of`, with directions counted as dependent where their
/// determinant is within `eps` of zero.
pub open spec fn intsec_eps_of<A: Zero + One + HAdd + HSub + HMul + HDiv + PartialOrd>(
    s_a: Vect<A>,
    s_ab: Vect<A>,
    o_a: Vect<A>,
    o_ab: Vect<A>,
    eps: A,
) -> Option<Vect<A>> {
    let r = intsec_ratio(s_a, s_ab, o_a, o_ab);
    let s = intsec_ratio(o_a, o_ab, s_a, s_ab);
    if near_dep(o_ab, s_ab, eps) {
        None
    } else if within(r, A::zero_spec(), A::one_spec()) && within(s, A::zero_spec(), A::one_spec()) {
        Some(point_at(s_a, s_ab, r))
    } else {
        None
    }
}

/// The ratio along the first segment can be computed: the three
/// determinants, the sum and the quotient.
pub open spec fn can_ratio<A: HAdd + HSub + HMul + HDiv>(
    s_a: Vect<A>,
    s_ab: Vect<A>,
    o_a: Vect<A>,
    o_ab: Vect<A>,
) -> bool {
    &&& can_det(o_ab, o_a)
    &&& can_det(s_a, o_ab)
    &&& can_det(o_ab, s_ab)
    &&& can_add(det_of(o_ab, o_a), det_of(s_a, o_ab))
    &&& can_div(sum(det_of(o_ab, o_a), det_of(s_a, o_ab)), det_of(o_ab, s_ab))
}

/// The point `s_a + r * s_ab` can be computed.
pub open spec fn can_point_at<A: HAdd + HMul>(s_a: Vect<A>, s_ab: Vect<A>, r: A) -> bool {
    can_v_mul(s_ab, splat(r)) && can_v_add(s_a, v_prod(s_ab, splat(r)))
}

/// Every operation that `intsec` carries out on these values is defined,
/// where the scalar's operations return what their specifications name.
pub open spec fn can_intsec<A: Zero + One + HAdd + HSub + HMul + HDiv + PartialEq + PartialOrd>(
    s_a: Vect<A>,
    s_ab: Vect<A>,
    o_a: Vect<A>,
    o_ab: Vect<A>,
) -> bool {
    let r = intsec_ratio(s_a, s_ab, o_a, o_ab);
    let s = intsec_ratio(o_a, o_ab, s_a, s_ab);
    &&& can_det(o_ab, s_ab)
    &&& !same(det_of(o_ab, s_ab), A::zero_spec()) ==> {
        &&& can_ratio(s_a, s_ab, o_a, o_ab)
        &&& can_ratio(o_a, o_ab, s_a, s_ab)
        &&& within(r, A::zero_spec(), A::one_spec()) && within(s, A::zero_spec(), A::one_spec())
            ==> can_point_at(s_a, s_ab, r)
    }
}

/// Every operation that `intsec_eps` carries out on these values is defined,
/// where the scalar's operations return what their specifications name.
pub open spec fn can_intsec_eps<A: Zero + One + HAdd + HSub + HMul + HDiv + PartialOrd>(
    s_a: Vect<A>,
    s_ab: Vect<A>,
    o_a: Vect<A>,
    o_ab: Vect<A>,
    eps: A,
) -> bool {
    let r = intsec_ratio(s_a, s_ab, o_a, o_ab);
    let s = intsec_ratio(o_a, o_ab, s_a, s_ab);
    &&& can_det(o_ab, s_ab)
    &&& can_sub(A::zero_spec(), eps)
    &&& can_add(A::zero_spec(), eps)
    &&& !near_dep(o_ab, s_ab, eps) ==> {
        &&& can_ratio(s_a, s_ab, o_a, o_ab)
        &&& can_ratio(o_a, o_ab, s_a, s_ab)
        &&& within(r, A::zero_spec(), A::one_spec()) && within(s, A::zero_spec(), A::one_spec())
            ==> can_point_at(s_a, s_ab, r)
    }
}

/// The part of a line segment that other code reads: its two points and its
/// direction.
pub trait Ends: Parts {
    /// The points and the direction can be computed without a failing operation.
    spec fn wf(&self) -> bool;

    /// The arithmetic that computes the points and the direction returns what
    /// its specification names.
    spec fn exact() -> bool;

    spec fn a_spec(&self) -> Vect<Self::Val>;

    spec fn b_spec(&self) -> Vect<Self::Val>;

    spec fn ab_spec(&self) -> Vect<Self::Val>;

    /// first point of line segment
    fn a(&self) -> (r: Vect<Self::Val>)
        requires
            self.wf(),
        ensures
            Self::exact() ==> r == self.a_spec(),
    ;

    /// second point of line
    fn b(&self) -> (r: Vect<Self::Val>)
        requires
            self.wf(),
        ensures
            Self::exact() ==> r == self.b_spec(),
    ;

    /// direction vector of line segment with ab() = b() - a()
    fn ab(&self) -> (r: Vect<Self::Val>)
        requires
            self.wf(),
        ensures
            Self::exact() ==> r == self.ab_spec(),
    ;
}

/// A line segment with its translations, scalings and intersections.
///
/// A segment stores position vectors and, in some forms, a direction. A
/// translation moves the positions only; a scaling applies to every stored
/// vector.
pub trait Segment: Ends {
    /// type that owns it vectors returned by methods
    type Own: Parts<Val = Self::Val>;

    /// The owned segment with the given points and direction.
    spec fn of_spec(a: Vect<Self::Val>, b: Vect<Self::Val>, ab: Vect<Self::Val>) -> Self::Own;

    /// create new line segment of other line segment
    fn of<S: Ends<Val = Self::Val>>(seg: S) -> (r: Self::Own)
        requires
            seg.wf(),
        ensures
            S::exact() ==> r == Self::of_spec(seg.a_spec(), seg.b_spec(), seg.ab_spec()),
    ;

    /// add vector to line segment points (translation)
    fn add<V: Coords<Val = Self::Val>>(&self, vect: V) -> (r: Self::Own) where Self::Val: HAdd
        requires
            all_can_add(self.positions(), vect.xy()),
        ensures
            add_exact::<Self::Val>() ==> r.positions() =~= sums(self.positions(), vect.xy())
                && r.directions() =~= self.directions(),
    ;

    /// sub vector from line segment points (translation)
    fn sub<V: Coords<Val = Self::Val>>(&self, vect: V) -> (r: Self::Own) where Self::Val: HSub
        requires
            all_can_sub(self.positions(), vect.xy()),
        ensures
            sub_exact::<Self::Val>() ==> r.positions() =~= diffs(self.positions(), vect.xy())
                && r.directions() =~= self.directions(),
    ;

    /// mul vector to line segment points
    fn mul<V: Coords<Val = Self::Val>>(&self, vect: V) -> (r: Self::Own) where Self::Val: HMul
        requires
            all_can_mul(self.positions(), vect.xy()),
            all_can_mul(self.directions(), vect.xy()),
        ensures
            mul_exact::<Self::Val>() ==> r.positions() =~= prods(self.positions(), vect.xy())
                && r.directions() =~= prods(self.directions(), vect.xy()),
    ;

    /// div vector from line segment points
    fn div<V: Coords<Val = Self::Val>>(&self, vect: V) -> (r: Self::Own) where Self::Val: HDiv
        requires
            all_can_div(self.positions(), vect.xy()),
            all_can_div(self.directions(), vect.xy()),
        ensures
            div_exact::<Self::Val>() ==> r.positions() =~= quots(self.positions(), vect.xy())
                && r.directions() =~= quots(self.directions(), vect.xy()),
    ;

    /// add value to the values of the line segment points
    fn vadd(&self, val: Self::Val) -> (r: Self::Own) where Self::Val: HAdd
        requires
            all_can_add(self.positions(), splat(val)),
        ensures
            add_exact::<Self::Val>() ==> r.positions() =~= sums(self.positions(), splat(val))
                && r.directions() =~= self.directions(),
    ;

    /// sub value from the values of the line segment points
    fn vsub(&self, val: Self::Val) -> (r: Self::Own) where Self::Val: HSub
        requires
            all_can_sub(self.positions(), splat(val)),
        ensures
            sub_exact::<Self::Val>() ==> r.positions() =~= diffs(self.positions(), splat(val))
                && r.directions() =~= self.directions(),
    ;

    /// mul vector values with value (scaling)
    fn vmul(&self, val: Self::Val) -> (r: Self::Own) where Self::Val: HMul
        requires
            all_can_mul(self.positions(), splat(val)),
            all_can_mul(self.directions(), splat(val)),
        ensures
            mul_exact::<Self::Val>() ==> r.positions() =~= prods(self.positions(), splat(val))
                && r.directions() =~= prods(self.directions(), splat(val)),
    ;

    /// div vector values with value (scaling)
    fn vdiv(&self, val: Self::Val) -> (r: Self::Own) where Self::Val: HDiv
        requires
            all_can_div(self.positions(), splat(val)),
            all_can_div(self.directions(), splat(val)),
        ensures
            div_exact::<Self::Val>() ==> r.positions() =~= quots(self.positions(), splat(val))
                && r.directions() =~= quots(self.directions(), splat(val)),
    ;

    /// points of line segment with [a(), b()] = pnts()
    fn pnts(&self) -> (r: [Vect<Self::Val>; 2])
        requires
            self.wf(),
        ensures
            Self::exact() ==> r[0] == self.a_spec() && r[1] == self.b_spec(),
    {
        [self.a(), self.b()]
    }

    /// vectors of line segment with [a(), ab()] = vects()
    fn vects(&self) -> (r: [Vect<Self::Val>; 2])
        requires
            self.wf(),
        ensures
            Self::exact() ==> r[0] == self.a_spec() && r[1] == self.ab_spec(),
    {
        [self.a(), self.ab()]
    }

    /// optional intersection between two line segments without epsilon zero checks
    ///
    /// a + r * b = c + s * d where r, s in \[0, 1\]
    ///
    /// => r = (det(d, c) + det(a, d)) / det(d, b)
    fn intsec<S: Ends<Val = Self::Val>>(&self, other: S) -> (r: Option<Vect<Self::Val>>) where
        Self::Val: Zero + One + HAdd + HSub + HMul + HDiv + HPEq + HPOrd,

        requires
            self.wf(),
            other.wf(),
            if Self::exact() && S::exact() && arith_exact::<Self::Val>() && eq_exact::<Self::Val>()
                && ord_exact::<Self::Val>() {
                can_intsec(self.a_spec(), self.ab_spec(), other.a_spec(), other.ab_spec())
            } else {
                arith_total::<Self::Val>()
            },
        ensures
            Self::exact() && S::exact() && arith_exact::<Self::Val>() && eq_exact::<Self::Val>()
                && ord_exact::<Self::Val>() ==> r == intsec_of(
                self.a_spec(),
                self.ab_spec(),
                other.a_spec(),
                other.ab_spec(),
            ),
    {
        let s_a = self.a();
        let s_ab = self.ab();
        let o_a = other.a();
        let o_ab = other.ab();

        let div = o_ab.indep_det(&s_ab)?;
        let r = (o_ab.det(&o_a) + s_a.det(&o_ab)) / div;
        let s = (s_ab.det(&s_a) + o_a.det(&s_ab)) / s_ab.det(&o_ab);

        let zero = Self::Val::zero();
        let one = Self::Val::one();

        match r.inc_in(zero, one) && s.inc_in(zero, one) {
            true => {
                let p = s_a.add(s_ab.vmul(r));
                Some(p)
            },
            false => None,
        }
    }

    /// optional intersection between two line segments with epsilon zero checks
    ///
    /// a + r * b = c + s * d where r, s in \[0, 1\]
    ///
    /// => r = (det(d, c) + det(a, d)) / det(d, b)
    fn intsec_eps<S: Ends<Val = Self::Val>>(&self, other: S, eps: Self::Val) -> (r: Option<
        Vect<Self::Val>,
    >) where Self::Val: Zero + One + HAdd + HSub + HMul + HDiv + HPOrd
        requires
            self.wf(),
            other.wf(),
            if Self::exact() && S::exact() && arith_exact::<Self::Val>() && ord_exact::<Self::Val>() {
                can_intsec_eps(
                    self.a_spec(),
                    self.ab_spec(),
                    other.a_spec(),
                    other.ab_spec(),
                    eps,
                )
            } else {
                arith_total::<Self::Val>()
            },
        ensures
            Self::exact() && S::exact() && arith_exact::<Self::Val>() && ord_exact::<Self::Val>()
                ==> r == intsec_eps_of(
                self.a_spec(),
                self.ab_spec(),
                other.a_spec(),
                other.ab_spec(),
                eps,
            ),
    {
        let s_a = self.a();
        let s_ab = self.ab();
        let o_a = other.a();
        let o_ab = other.ab();

        let div = o_ab.indep_det_eps(&s_ab, eps)?;
        let r = (o_ab.det(&o_a) + s_a.det(&o_ab)) / div;
        let s = (s_ab.det(&s_a) + o_a.det(&s_ab)) / s_ab.det(&o_ab);

        let zero = Self::Val::zero();
        let one = Self::Val::one();

        match r.inc_in(zero, one) && s.inc_in(zero, one) {
            true => {
                let p = s_a.add(s_ab.vmul(r));
                Some(p)
            },
            false => None,
        }
    }
}

impl<'a, Seg: Ends> Ends for &'a Seg {
    open spec fn wf(&self) -> bool {
        (**self).wf()
    }

    open spec fn exact() -> bool {
        Seg::exact()
    }

    open spec fn a_spec(&self) -> Vect<Seg::Val> {
        (**self).a_spec()
    }

    open spec fn b_spec(&self) -> Vect<Seg::Val> {
        (**self).b_spec()
    }

    open spec fn ab_spec(&self) -> Vect<Seg::Val> {
        (**self).ab_spec()
    }

    fn a(&self) -> Vect<Seg::Val> {
        Seg::a(self)
    }

    fn b(&self) -> Vect<Seg::Val> {
        Seg::b(self)
    }

    fn ab(&self) -> Vect<Seg::Val> {
        Seg::ab(self)
    }
}

impl<'a, Seg: Segment> Segment for &'a Seg {
    type Own = Seg::Own;

    open spec fn of_spec(a: Vect<Seg::Val>, b: Vect<Seg::Val>, ab: Vect<Seg::Val>) -> Seg::Own {
        Seg::of_spec(a, b, ab)
    }

    fn of<S: Ends<Val = Self::Val>>(seg: S) -> Seg::Own {
        Seg::of(seg)
    }

    fn add<V: Coords<Val = Self::Val>>(&self, vect: V) -> Seg::Own where Self::Val: HAdd {
        Seg::add(self, vect)
    }

    fn sub<V: Coords<Val = Self::Val>>(&self, vect: V) -> Seg::Own where Self::Val: HSub {
        Seg::sub(self, vect)
    }

    fn mul<V: Coords<Val = Self::Val>>(&self, vect: V) -> Seg::Own where Self::Val: HMul {
        Seg::mul(self, vect)
    }

    fn div<V: Coords<Val = Self::Val>>(&self, vect: V) -> Seg::Own where Self::Val: HDiv {
        Seg::div(self, vect)
    }

    fn vadd(&self, val: Self::Val) -> Seg::Own where Self::Val: HAdd {
        Seg::vadd(self, val)
    }

    fn vsub(&self, val: Self::Val) -> Seg::Own where Self::Val: HSub {
        Seg::vsub(self, val)
    }

    fn vmul(&self, val: Self::Val) -> Seg::Own where Self::Val: HMul {
        Seg::vmul(self, val)
    }

    fn vdiv(&self, val: Self::Val) -> Seg::Own where Self::Val: HDiv {
        Seg::vdiv(self, val)
    }
}

impl<P: Vector> Parts for PSeg<P> {
    type Val = P::Val;

    open spec fn positions(&self) -> Seq<Vect<P::Val>> {
        seq![self.a.xy(), self.b.xy()]
    }

    open spec fn directions(&self) -> Seq<Vect<P::Val>> {
        seq![]
    }
}

impl<P: Vector> Ends for PSeg<P> where P::Val: HAdd + HSub {
    open spec fn wf(&self) -> bool {
        can_v_sub(self.b.xy(), self.a.xy())
    }

    open spec fn exact() -> bool {
        sub_exact::<P::Val>()
    }

    open spec fn a_spec(&self) -> Vect<P::Val> {
        self.a.xy()
    }

    open spec fn b_spec(&self) -> Vect<P::Val> {
        self.b.xy()
    }

    open spec fn ab_spec(&self) -> Vect<P::Val> {
        v_diff(self.b.xy(), self.a.xy())
    }

    fn a(&self) -> (r: Vect<P::Val>)
        ensures
            r == self.a.xy(),
    {
        let x = self.a.x();
        let y = self.a.y();
        (x, y)
    }

    fn b(&self) -> (r: Vect<P::Val>)
        ensures
            r == self.b.xy(),
    {
        let x = self.b.x();
        let y = self.b.y();
        (x, y)
    }

    fn ab(&self) -> Vect<P::Val> {
        self.b.sub(&self.a)
    }
}

impl<P: Vector> Segment for PSeg<P> where P::Val: HAdd + HSub {
    type Own = PSeg<Vect<P::Val>>;

    open spec fn of_spec(a: Vect<P::Val>, b: Vect<P::Val>, ab: Vect<P::Val>) -> PSeg<
        Vect<P::Val>,
    > {
        PSeg { a: a, b: b }
    }

    fn of<S: Ends<Val = P::Val>>(seg: S) -> PSeg<Vect<P::Val>> {
        let a = seg.a();
        let b = seg.b();
        PSeg::new(a, b)
    }

    fn add<V: Coords<Val = P::Val>>(&self, vect: V) -> PSeg<Vect<P::Val>> where P::Val: HAdd {
        let a = self.a.add(&vect);
        let b = self.b.add(&vect);
        PSeg::new(a, b)
    }

    fn sub<V: Coords<Val = P::Val>>(&self, vect: V) -> PSeg<Vect<P::Val>> where P::Val: HSub {
        let a = self.a.sub(&vect);
        let b = self.b.sub(&vect);
        PSeg::new(a, b)
    }

    fn mul<V: Coords<Val = P::Val>>(&self, vect: V) -> PSeg<Vect<P::Val>> where P::Val: HMul {
        let a = self.a.mul(&vect);
        let b = self.b.mul(&vect);
        PSeg::new(a, b)
    }

    fn div<V: Coords<Val = P::Val>>(&self, vect: V) -> PSeg<Vect<P::Val>> where P::Val: HDiv {
        let a = self.a.div(&vect);
        let b = self.b.div(&vect);
        PSeg::new(a, b)
    }

    fn vadd(&self, val: P::Val) -> PSeg<Vect<P::Val>> where P::Val: HAdd {
        let a = self.a.vadd(val);
        let b = self.b.vadd(val);
        PSeg::new(a, b)
    }

    fn vsub(&self, val: P::Val) -> PSeg<Vect<P::Val>> where P::Val: HSub {
        let a = self.a.vsub(val);
        let b = self.b.vsub(val);
        PSeg::new(a, b)
    }

    fn vmul(&self, val: P::Val) -> PSeg<Vect<P::Val>> where P::Val: HMul {
        let a = self.a.vmul(val);
        let b = self.b.vmul(val);
        PSeg::new(a, b)
    }

    fn vdiv(&self, val: P::Val) -> PSeg<Vect<P::Val>> where P::Val: HDiv {
        let a = self.a.vdiv(val);
        let b = self.b.vdiv(val);
        PSeg::new(a, b)
    }
}

impl<P: Vector> Parts for VSeg<P> {
    type Val = P::Val;

    open spec fn positions(&self) -> Seq<Vect<P::Val>> {
        seq![self.a.xy()]
    }

    open spec fn directions(&self) -> Seq<Vect<P::Val>> {
        seq![self.ab.xy()]
    }
}

impl<P: Vector> Ends for VSeg<P> where P::Val: HAdd + HSub {
    open spec fn wf(&self) -> bool {
        can_v_add(self.a.xy(), self.ab.xy())
    }

    open spec fn exact() -> bool {
        add_exact::<P::Val>()
    }

    open spec fn a_spec(&self) -> Vect<P::Val> {
        self.a.xy()
    }

    open spec fn b_spec(&self) -> Vect<P::Val> {
        v_sum(self.a.xy(), self.ab.xy())
    }

    open spec fn ab_spec(&self) -> Vect<P::Val> {
        self.ab.xy()
    }

    fn a(&self) -> (r: Vect<P::Val>)
        ensures
            r == self.a.xy(),
    {
        let x = self.a.x();
        let y = self.a.y();
        (x, y)
    }

    fn b(&self) -> Vect<P::Val> {
        self.a.add(&self.ab)
    }

    fn ab(&self) -> (r: Vect<P::Val>)
        ensures
            r == self.ab.xy(),
    {
        let x = self.ab.x();
        let y = self.ab.y();
        (x, y)
    }
}

impl<P: Vector> Segment for VSeg<P> where P::Val: HAdd + HSub {
    type Own = VSeg<Vect<P::Val>>;

    open spec fn of_spec(a: Vect<P::Val>, b: Vect<P::Val>, ab: Vect<P::Val>) -> VSeg<
        Vect<P::Val>,
    > {
        VSeg { a: a, ab: ab }
    }

    fn of<S: Ends<Val = P::Val>>(seg: S) -> VSeg<Vect<P::Val>> {
        let a = seg.a();
        let ab = seg.ab();
        VSeg::new(a, ab)
    }

    fn add<V: Coords<Val = P::Val>>(&self, vect: V) -> VSeg<Vect<P::Val>> where P::Val: HAdd {
        assert(self.positions()[0] == self.a.xy());
        let a = self.a.add(&vect);
        VSeg::new(a, self.ab.to())
    }

    fn sub<V: Coords<Val = P::Val>>(&self, vect: V) -> VSeg<Vect<P::Val>> where P::Val: HSub {
        assert(self.positions()[0] == self.a.xy());
        let a = self.a.sub(&vect);
        VSeg::new(a, self.ab.to())
    }

    fn mul<V: Coords<Val = P::Val>>(&self, vect: V) -> VSeg<Vect<P::Val>> where P::Val: HMul {
        assert(self.positions()[0] == self.a.xy());
        assert(self.directions()[0] == self.ab.xy());
        let a = self.a.mul(&vect);
        let ab = self.ab.mul(&vect);
        VSeg::new(a, ab)
    }

    fn div<V: Coords<Val = P::Val>>(&self, vect: V) -> VSeg<Vect<P::Val>> where P::Val: HDiv {
        assert(self.positions()[0] == self.a.xy());
        assert(self.directions()[0] == self.ab.xy());
        let a = self.a.div(&vect);
        let ab = self.ab.div(&vect);
        VSeg::new(a, ab)
    }

    fn vadd(&self, val: P::Val) -> VSeg<Vect<P::Val>> where P::Val: HAdd {
        assert(self.positions()[0] == self.a.xy());
        let a = self.a.vadd(val);
        VSeg::new(a, self.ab.to())
    }

    fn vsub(&self, val: P::Val) -> VSeg<Vect<P::Val>> where P::Val: HSub {
        assert(self.positions()[0] == self.a.xy());
        let a = self.a.vsub(val);
        VSeg::new(a, self.ab.to())
    }

    fn vmul(&self, val: P::Val) -> VSeg<Vect<P::Val>> where P::Val: HMul {
        assert(self.positions()[0] == self.a.xy());
        assert(self.directions()[0] == self.ab.xy());
        let a = self.a.vmul(val);
        let ab = self.ab.vmul(val);
        VSeg::new(a, ab)
    }

    fn vdiv(&self, val: P::Val) -> VSeg<Vect<P::Val>> where P::Val: HDiv {
        assert(self.positions()[0] == self.a.xy());
        assert(self.directions()[0] == self.ab.xy());
        let a = self.a.vdiv(val);
        let ab = self.ab.vdiv(val);
        VSeg::new(a, ab)
    }
}

} // verus!
