use vstd::prelude::*;
use crate::geom::d2::prim::parts::{
    all_can_add, all_can_div, all_can_mul, all_can_sub, diffs, prods, quots, sums, Parts,
};
use crate::geom::d2::prim::vect::{
    can_v_sub, splat, v_diff, v_max, v_min, Coords, Vect, Vector,
};
use crate::num::Zero;
use crate::ops::{add_exact, div_exact, mul_exact, sub_exact, HAdd, HDiv, HMul, HSub};
use crate::rel::{at_least, at_most, ord_exact, HPOrd};

verus! {

/// An axis aligned box given by its corner of smallest and its corner of
/// largest coordinates.
pub struct Bounds<V: Vector> {
    pub start: V,
    pub end: V,
}

/// The componentwise minimum and maximum over the first `k` points, folded
/// from the first point on.
pub open spec fn bounds_fold<A: PartialOrd>(ps: Seq<Vect<A>>, k: nat) -> (Vect<A>, Vect<A>)
    decreases k,
{
    if k == 0 {
        (ps[0], ps[0])
    } else {
        let (start, end) = bounds_fold(ps, (k - 1) as nat);
        (v_min(start, ps[k - 1]), v_max(end, ps[k - 1]))
    }
}

/// The folded bounds cover every point: none has a coordinate below the
/// start or above the end. This holds where `<=` on the scalar type is total
/// and transitive and `>=` is its converse.
pub proof fn lemma_bounds_fold_covers<A: PartialOrd>(ps: Seq<Vect<A>>, k: nat)
    requires
        0 < ps.len(),
        k <= ps.len(),
        forall|a: A, b: A| #[trigger] at_most(a, b) || at_most(b, a),
        forall|a: A, b: A, c: A| #[trigger] at_most(a, b) && #[trigger] at_most(b, c) ==> at_most(a, c),
        forall|a: A, b: A| #[trigger] at_least(a, b) <==> at_most(b, a),
    ensures
        ({
            let (start, end) = bounds_fold(ps, k);
            forall|j: int|
                0 <= j < k ==> {
                    &&& at_most(start.0, (#[trigger] ps[j]).0)
                    &&& at_most(start.1, ps[j].1)
                    &&& at_most(ps[j].0, end.0)
                    &&& at_most(ps[j].1, end.1)
                }
        }),
    decreases k,
{
    if k > 0 {
        lemma_bounds_fold_covers(ps, (k - 1) as nat);
        let (start, end) = bounds_fold(ps, (k - 1) as nat);
        let (next_start, next_end) = bounds_fold(ps, k);
        let p = ps[k - 1];
        assert(at_most(next_start.0, start.0) && at_most(next_start.0, p.0)) by {
            assert(at_most(start.0, p.0) || at_most(p.0, start.0));
            assert(at_most(start.0, start.0) && at_most(p.0, p.0));
        }
        assert(at_most(next_start.1, start.1) && at_most(next_start.1, p.1)) by {
            assert(at_most(start.1, p.1) || at_most(p.1, start.1));
            assert(at_most(start.1, start.1) && at_most(p.1, p.1));
        }
        assert(at_most(end.0, next_end.0) && at_most(p.0, next_end.0)) by {
            assert(at_most(end.0, p.0) || at_most(p.0, end.0));
            assert(at_most(end.0, end.0) && at_most(p.0, p.0));
        }
        assert(at_most(end.1, next_end.1) && at_most(p.1, next_end.1)) by {
            assert(at_most(end.1, p.1) || at_most(p.1, end.1));
            assert(at_most(end.1, end.1) && at_most(p.1, p.1));
        }
        assert forall|j: int| 0 <= j < k implies {
            &&& at_most(next_start.0, (#[trigger] ps[j]).0)
            &&& at_most(next_start.1, ps[j].1)
            &&& at_most(ps[j].0, next_end.0)
            &&& at_most(ps[j].1, next_end.1)
        } by {
            if j < k - 1 {
                assert(at_most(start.0, ps[j].0) && at_most(start.1, ps[j].1));
                assert(at_most(ps[j].0, end.0) && at_most(ps[j].1, end.1));
            }
        }
    }
}

impl<V: Vector> Bounds<V> {
    /// the two corners as owned vectors
    pub open spec fn corners(&self) -> (Vect<V::Val>, Vect<V::Val>) {
        (self.start.xy(), self.end.xy())
    }

    pub fn new_unchecked(start: V, end: V) -> (r: Bounds<V>)
        ensures
            r.start == start,
            r.end == end,
    {
        Bounds { start: start, end: end }
    }

    /// the bounds of the two points `a` and `b`
    pub fn new(a: V, b: V) -> (r: Bounds<Vect<V::Val>>) where V::Val: HPOrd
        ensures
            r.start.0 == a.xy().0 || r.start.0 == b.xy().0,
            r.start.1 == a.xy().1 || r.start.1 == b.xy().1,
            r.end.0 == a.xy().0 || r.end.0 == b.xy().0,
            r.end.1 == a.xy().1 || r.end.1 == b.xy().1,
            ord_exact::<V::Val>() ==> r.start == v_min(a.xy(), b.xy()) && r.end == v_max(
                a.xy(),
                b.xy(),
            ),
    {
        let start = a.min(&b);
        let end = a.max(&b);

        Bounds::new_unchecked(start, end)
    }

    /// the bounds from the origin to `end`
    pub fn with_zero_unchecked(end: V) -> (r: Bounds<Vect<V::Val>>) where V::Val: Zero
        ensures
            r.start == splat(V::Val::zero_spec()),
            r.end == end.xy(),
    {
        let start = V::zero();
        let end = V::of(end);

        Bounds::new_unchecked(start, end)
    }

    pub fn start(&self) -> (r: Vect<V::Val>)
        ensures
            r == self.start.xy(),
    {
        self.start.to()
    }

    pub fn end(&self) -> (r: Vect<V::Val>)
        ensures
            r == self.end.xy(),
    {
        self.end.to()
    }

    /// the vector from `start` to `end`
    pub fn size(&self) -> (r: Vect<V::Val>) where V::Val: HSub
        requires
            can_v_sub(self.end.xy(), self.start.xy()),
        ensures
            sub_exact::<V::Val>() ==> r == v_diff(self.end.xy(), self.start.xy()),
    {
        self.end.sub(&self.start)
    }

    /// the images of the two corners, taken as they come
    pub fn map_unchecked<W: Vector, F: Fn(&V) -> W>(&self, func: F) -> (r: Bounds<W>)
        requires
            func.requires((&self.start,)),
            func.requires((&self.end,)),
        ensures
            func.ensures((&self.start,), r.start),
            func.ensures((&self.end,), r.end),
    {
        let start = func(&self.start);
        let end = func(&self.end);

        Bounds::new_unchecked(start, end)
    }

    /// the bounds of the images of the two corners
    pub fn map<W: Vector, F: Fn(&V) -> W>(&self, func: F) -> (r: Bounds<Vect<W::Val>>) where
        W::Val: HPOrd,

        requires
            func.requires((&self.start,)),
            func.requires((&self.end,)),
        ensures
            ord_exact::<W::Val>() ==> exists|a: W, b: W|
                {
                    &&& func.ensures((&self.start,), a)
                    &&& func.ensures((&self.end,), b)
                    &&& r.start == v_min(a.xy(), b.xy())
                    &&& r.end == v_max(a.xy(), b.xy())
                },
    {
        let start = func(&self.start);
        let end = func(&self.end);

        Bounds::new(start, end)
    }

    /// the bounds of the two corners with `func` applied to each value
    pub fn vmap<B: Copy + HPOrd, F: Fn(V::Val) -> B>(&self, func: F) -> (r: Bounds<Vect<B>>)
        requires
            func.requires((self.start.xy().0,)),
            func.requires((self.start.xy().1,)),
            func.requires((self.end.xy().0,)),
            func.requires((self.end.xy().1,)),
        ensures
            ord_exact::<B>() ==> exists|a: Vect<B>, b: Vect<B>|
                {
                    &&& func.ensures((self.start.xy().0,), a.0)
                    &&& func.ensures((self.start.xy().1,), a.1)
                    &&& func.ensures((self.end.xy().0,), b.0)
                    &&& func.ensures((self.end.xy().1,), b.1)
                    &&& r.start == v_min(a, b)
                    &&& r.end == v_max(a, b)
                },
    {
        let start = (func(self.start.x()), func(self.start.y()));
        let end = (func(self.end.x()), func(self.end.y()));

        Bounds::new(start, end)
    }

    /// the part of these bounds that lies inside `bounds`
    pub fn clamp<W: Vector<Val = V::Val>>(&self, bounds: Bounds<W>) -> (r: Bounds<
        Vect<V::Val>,
    >) where V::Val: HPOrd
        ensures
            ord_exact::<V::Val>() ==> r.start == v_max(self.start.xy(), bounds.start.xy())
                && r.end == v_min(self.end.xy(), bounds.end.xy()),
    {
        let start = self.start.max(bounds.start());
        let end = self.end.min(bounds.end());

        Bounds::new_unchecked(start, end)
    }
}

/// A figure of the plane that can be moved, scaled, bounded, and asked
/// whether it contains a point.
///
/// A translation moves the stored positions only; a scaling applies to every
/// stored vector.
pub trait Shape: Parts {
    /// type that owns it vectors returned by methods
    type Own: Parts<Val = Self::Val>;

    /// The corners and directions of the shape can be computed without a
    /// failing operation.
    spec fn wf(&self) -> bool;

    /// Every operation that `contains` carries out for this point is defined.
    spec fn can_contain(&self, pnt: Vect<Self::Val>) -> bool;

    /// The operations that the shape's methods use return what their
    /// specifications name.
    spec fn exact() -> bool;

    /// the corner of smallest and the corner of largest coordinates
    spec fn bounds_spec(&self) -> (Vect<Self::Val>, Vect<Self::Val>);

    /// the shape contains the point
    spec fn contains_spec(&self, pnt: Vect<Self::Val>) -> bool;

    /// add vector to shape points (translation)
    fn add<V: Coords<Val = Self::Val>>(&self, vect: V) -> (r: Self::Own) where Self::Val: HAdd
        requires
            all_can_add(self.positions(), vect.xy()),
        ensures
            add_exact::<Self::Val>() ==> r.positions() =~= sums(self.positions(), vect.xy())
                && r.directions() =~= self.directions(),
    ;

    /// sub vector from shape points (translation)
    fn sub<V: Coords<Val = Self::Val>>(&self, vect: V) -> (r: Self::Own) where Self::Val: HSub
        requires
            all_can_sub(self.positions(), vect.xy()),
        ensures
            sub_exact::<Self::Val>() ==> r.positions() =~= diffs(self.positions(), vect.xy())
                && r.directions() =~= self.directions(),
    ;

    /// mul vector to shape points
    fn mul<V: Coords<Val = Self::Val>>(&self, vect: V) -> (r: Self::Own) where Self::Val: HMul
        requires
            all_can_mul(self.positions(), vect.xy()),
            all_can_mul(self.directions(), vect.xy()),
        ensures
            mul_exact::<Self::Val>() ==> r.positions() =~= prods(self.positions(), vect.xy())
                && r.directions() =~= prods(self.directions(), vect.xy()),
    ;

    /// div vector from shape points
    fn div<V: Coords<Val = Self::Val>>(&self, vect: V) -> (r: Self::Own) where Self::Val: HDiv
        requires
            all_can_div(self.positions(), vect.xy()),
            all_can_div(self.directions(), vect.xy()),
        ensures
            div_exact::<Self::Val>() ==> r.positions() =~= quots(self.positions(), vect.xy())
                && r.directions() =~= quots(self.directions(), vect.xy()),
    ;

    /// add value to the values of the shape points
    fn vadd(&self, val: Self::Val) -> (r: Self::Own) where Self::Val: HAdd
        requires
            all_can_add(self.positions(), splat(val)),
        ensures
            add_exact::<Self::Val>() ==> r.positions() =~= sums(self.positions(), splat(val))
                && r.directions() =~= self.directions(),
    ;

    /// sub value from the values of the shape points
    fn vsub(&self, val: Self::Val) -> (r: Self::Own) where Self::Val: HSub
        requires
            all_can_sub(self.positions(), splat(val)),
        ensures
            sub_exact::<Self::Val>() ==> r.positions() =~= diffs(self.positions(), splat(val))
                && r.directions() =~= self.directions(),
    ;

    /// mul vector values with value (scaling)
    fn vmul(&self, val: Self::Val) -> (r: Self::Own) where Self::Val: HMul
        requires
            all_can_mul(self.positions(), splat(val)),
            all_can_mul(self.directions(), splat(val)),
        ensures
            mul_exact::<Self::Val>() ==> r.positions() =~= prods(self.positions(), splat(val))
                && r.directions() =~= prods(self.directions(), splat(val)),
    ;

    /// div vector values with value (scaling)
    fn vdiv(&self, val: Self::Val) -> (r: Self::Own) where Self::Val: HDiv
        requires
            all_can_div(self.positions(), splat(val)),
            all_can_div(self.directions(), splat(val)),
        ensures
            div_exact::<Self::Val>() ==> r.positions() =~= quots(self.positions(), splat(val))
                && r.directions() =~= quots(self.directions(), splat(val)),
    ;
    /// bounding axis aligned rectangle of shape
    fn bounds(&self) -> (r: Bounds<Vect<Self::Val>>)
        requires
            self.wf(),
        ensures
            Self::exact() ==> r.corners() == self.bounds_spec(),
    ;

    /// checks if shape contains point
    fn contains<V: Vector<Val = Self::Val>>(&self, pnt: V) -> (r: bool)
        requires
            self.wf(),
            self.can_contain(pnt.xy()),
        ensures
            Self::exact() ==> r == self.contains_spec(pnt.xy()),
    ;
}

impl<'a, Sh: Shape> Shape for &'a Sh {
    type Own = Sh::Own;

    open spec fn wf(&self) -> bool {
        (**self).wf()
    }

    open spec fn can_contain(&self, pnt: Vect<Sh::Val>) -> bool {
        (**self).can_contain(pnt)
    }

    open spec fn exact() -> bool {
        Sh::exact()
    }

    open spec fn bounds_spec(&self) -> (Vect<Sh::Val>, Vect<Sh::Val>) {
        (**self).bounds_spec()
    }

    open spec fn contains_spec(&self, pnt: Vect<Sh::Val>) -> bool {
        (**self).contains_spec(pnt)
    }

    fn add<V: Coords<Val = Self::Val>>(&self, vect: V) -> Sh::Own where Self::Val: HAdd {
        Sh::add(self, vect)
    }

    fn sub<V: Coords<Val = Self::Val>>(&self, vect: V) -> Sh::Own where Self::Val: HSub {
        Sh::sub(self, vect)
    }

    fn mul<V: Coords<Val = Self::Val>>(&self, vect: V) -> Sh::Own where Self::Val: HMul {
        Sh::mul(self, vect)
    }

    fn div<V: Coords<Val = Self::Val>>(&self, vect: V) -> Sh::Own where Self::Val: HDiv {
        Sh::div(self, vect)
    }

    fn vadd(&self, val: Self::Val) -> Sh::Own where Self::Val: HAdd {
        Sh::vadd(self, val)
    }

    fn vsub(&self, val: Self::Val) -> Sh::Own where Self::Val: HSub {
        Sh::vsub(self, val)
    }

    fn vmul(&self, val: Self::Val) -> Sh::Own where Self::Val: HMul {
        Sh::vmul(self, val)
    }

    fn vdiv(&self, val: Self::Val) -> Sh::Own where Self::Val: HDiv {
        Sh::vdiv(self, val)
    }
    fn bounds(&self) -> Bounds<Vect<Sh::Val>> {
        Sh::bounds(self)
    }

    fn contains<V: Vector<Val = Self::Val>>(&self, pnt: V) -> bool {
        Sh::contains(self, pnt)
    }
}

} // verus!
