use vstd::prelude::*;
use crate::geom::d2::prim::parts::{all_can_add, all_can_mul, prods, sums};
use crate::geom::d2::prim::vect::{
    can_v_div, can_v_sub, v_diff, v_prod, v_quot, v_sum, Coords, Vect, Vector,
};
use crate::geom::d2::shape::d2::{bounds_fold, Bounds};
use crate::ops::{add_exact, arith_exact, arith_total, mul_exact, HAdd, HDiv, HMul, HSub};
use crate::rel::{ord_exact, HPOrd};

verus! {

/// A polygon given by its corners in order.
pub struct Poly<V: Vector> {
    pub vertices: Vec<V>,
}

/// The polygon `points` multiplied by the ratio of the size of the bounds
/// from `start` to `end` to the size of its own bounds, and then moved by
/// the vector from its own start to `start`.
pub open spec fn fit_of<A: HAdd + HSub + HMul + HDiv + PartialOrd>(
    points: Seq<Vect<A>>,
    start: Vect<A>,
    end: Vect<A>,
) -> Seq<Vect<A>> {
    let (own_start, own_end) = bounds_fold(points, points.len());
    let ratios = v_quot(v_diff(end, start), v_diff(own_end, own_start));
    let offset = v_diff(start, own_start);
    sums(prods(points, ratios), offset)
}

impl<V: Vector> Poly<V> {
    /// the positions of the corners
    pub open spec fn points(&self) -> Seq<Vect<V::Val>> {
        Seq::new(self.vertices@.len(), |i: int| self.vertices@[i].xy())
    }

    /// create new Polygon of vertices
    pub fn new(vertices: Vec<V>) -> (poly: Poly<V>)
        ensures
            poly.vertices == vertices,
    {
        Poly { vertices: vertices }
    }

    pub fn vertices(&self) -> (r: &Vec<V>)
        ensures
            r == &self.vertices,
    {
        &self.vertices
    }

    /// Every operation that `fit_bounds` carries out for these bounds is
    /// defined: on these values where the scalar's operations return what
    /// their specifications name, else on all values.
    pub open spec fn fit_defined(&self, start: Vect<V::Val>, end: Vect<V::Val>) -> bool where
        V::Val: HAdd + HSub + HMul + HDiv + HPOrd,
     {
        if arith_exact::<V::Val>() && ord_exact::<V::Val>() {
            let (own_start, own_end) = bounds_fold(self.points(), self.points().len());
            let ratios = v_quot(v_diff(end, start), v_diff(own_end, own_start));
            let offset = v_diff(start, own_start);
            &&& can_v_sub(end, start)
            &&& can_v_sub(own_end, own_start)
            &&& can_v_div(v_diff(end, start), v_diff(own_end, own_start))
            &&& can_v_sub(start, own_start)
            &&& all_can_mul(self.points(), ratios)
            &&& all_can_add(prods(self.points(), ratios), offset)
        } else {
            arith_total::<V::Val>()
        }
    }

    /// The polygon with every corner multiplied by the ratio of the size of
    /// `bounds` to the size of its own bounds, then moved by the vector from
    /// the start of its own bounds to the start of `bounds`.
    pub fn fit_bounds<W: Vector<Val = V::Val>>(&self, bounds: Bounds<W>) -> (r: Poly<
        Vect<V::Val>,
    >) where V::Val: HAdd + HSub + HMul + HDiv + HPOrd
        requires
            self.vertices.len() > 0,
            self.fit_defined(bounds.start.xy(), bounds.end.xy()),
        ensures
            r.vertices.len() == self.vertices.len(),
            arith_exact::<V::Val>() && ord_exact::<V::Val>() ==> r.vertices@ =~= fit_of(
                self.points(),
                bounds.start.xy(),
                bounds.end.xy(),
            ),
    {
        let self_bounds = self.bounds();

        let ratios = bounds.size().div(self_bounds.size());
        let offset = bounds.start().sub(self_bounds.start());

        let scaled = self.mul(ratios);
        assert(scaled.points() =~= scaled.vertices@);
        scaled.add(offset)
    }

    /// the polygon moved by `vect`
    pub fn add<W: Coords<Val = V::Val>>(&self, vect: W) -> (r: Poly<Vect<V::Val>>) where
        V::Val: HAdd,

        requires
            all_can_add(self.points(), vect.xy()),
        ensures
            r.vertices.len() == self.vertices.len(),
            add_exact::<V::Val>() ==> r.vertices@ =~= sums(self.points(), vect.xy()),
    {
        let mut vertices: Vec<Vect<V::Val>> = Vec::new();
        let mut k: usize = 0;
        while k < self.vertices.len()
            invariant
                k <= self.vertices.len(),
                vertices.len() == k,
                all_can_add(self.points(), vect.xy()),
                add_exact::<V::Val>() ==> forall|i: int|
                    0 <= i < k ==> #[trigger] vertices[i] == v_sum(self.points()[i], vect.xy()),
            decreases self.vertices.len() - k,
        {
            assert(self.points()[k as int] == self.vertices[k as int].xy());
            vertices.push(self.vertices[k].add(&vect));
            k += 1;
        }
        Poly::new(vertices)
    }

    /// the polygon with every corner multiplied by `vect`, componentwise
    pub fn mul<W: Coords<Val = V::Val>>(&self, vect: W) -> (r: Poly<Vect<V::Val>>) where
        V::Val: HMul,

        requires
            all_can_mul(self.points(), vect.xy()),
        ensures
            r.vertices.len() == self.vertices.len(),
            mul_exact::<V::Val>() ==> r.vertices@ =~= prods(self.points(), vect.xy()),
    {
        let mut vertices: Vec<Vect<V::Val>> = Vec::new();
        let mut k: usize = 0;
        while k < self.vertices.len()
            invariant
                k <= self.vertices.len(),
                vertices.len() == k,
                all_can_mul(self.points(), vect.xy()),
                mul_exact::<V::Val>() ==> forall|i: int|
                    0 <= i < k ==> #[trigger] vertices[i] == v_prod(self.points()[i], vect.xy()),
            decreases self.vertices.len() - k,
        {
            assert(self.points()[k as int] == self.vertices[k as int].xy());
            vertices.push(self.vertices[k].mul(&vect));
            k += 1;
        }
        Poly::new(vertices)
    }

    /// the componentwise minimum and maximum over all corners
    pub fn bounds(&self) -> (r: Bounds<Vect<V::Val>>) where V::Val: HPOrd
        requires
            self.vertices.len() > 0,
        ensures
            ord_exact::<V::Val>() ==> r.corners() == bounds_fold(
                self.points(),
                self.vertices@.len(),
            ),
    {
        let mut start = V::of(&self.vertices[0]);
        let mut end = V::of(&self.vertices[0]);

        let mut k: usize = 0;
        while k < self.vertices.len()
            invariant
                k <= self.vertices.len(),
                ord_exact::<V::Val>() ==> (start, end) == bounds_fold(self.points(), k as nat),
            decreases self.vertices.len() - k,
        {
            let vertex = &self.vertices[k];
            start = Vector::min(&start, vertex);
            end = Vector::max(&end, vertex);
            k += 1;
        }

        Bounds::new_unchecked(start, end)
    }
}

} // verus!
